//! The failures the storage adapters report.
use crate::text::{contextual, with_context};
use vstd::prelude::*;

verus! {

/// A failure of the email storage.
#[derive(Debug)]
pub enum EmailRepositoryError {
    /// The backend refused a statement, or gave back a value that does not decode.
    Storage { source: String },
}

impl EmailRepositoryError {
    /// The message of the failure.
    pub open spec fn message(self) -> Seq<char> {
        match self {
            EmailRepositoryError::Storage { source } => source@,
        }
    }

    /// The message of the failure, for display.
    pub fn to_text(&self) -> (text: String)
        ensures
            text@ == self.message(),
            self matches EmailRepositoryError::Storage { source } && text@ == source@,
    {
        match self {
            EmailRepositoryError::Storage { source } => source.clone(),
        }
    }
}

/// A result with the failure taken by its message.
pub open spec fn outcome<T>(result: Result<T, EmailRepositoryError>) -> Result<T, Seq<char>> {
    match result {
        Ok(value) => Ok(value),
        Err(error) => Err(error.message()),
    }
}

/// The storage failure `context: detail`.
pub fn storage(context: &str, detail: &str) -> (error: EmailRepositoryError)
    ensures
        error.message() == with_context(context@, detail@),
        error matches EmailRepositoryError::Storage { source } && source@ == context@ + ": "@
            + detail@,
{
    EmailRepositoryError::Storage { source: contextual(context, detail) }
}

/// A failure says what its source says, and nothing of a success is lost.
pub proof fn law_outcome_keeps_value_and_message<T>(value: T, source: String)
    ensures
        (EmailRepositoryError::Storage { source }).message() == source@,
        outcome(Ok::<T, EmailRepositoryError>(value)) == (Ok::<T, Seq<char>>(value)),
        outcome(Err::<T, EmailRepositoryError>(EmailRepositoryError::Storage { source })) == (Err::<
            T,
            Seq<char>,
        >(source@)),
{
}

} // verus!
