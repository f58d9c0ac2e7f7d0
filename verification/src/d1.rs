//! Storage on a Cloudflare D1 database.
//!
//! The host runs the queries through the binding and hands back the answers;
//! here it is decided what to ask and what an answer comes to.
use crate::dto::{attachments_dto, EnvelopeBodyDto};
use crate::email::{
    AttachmentRef, BlobRef, EmailRecord, Envelope, ListEmailsParams, SaveResult,
};
use crate::error::{outcome, storage, EmailRepositoryError};
use crate::id::{uuid_parsed, EmailId};
use crate::query::Query;
use crate::rows::{
    are_records, blobs_of_rows, collect_blobs, is_list_query, list_query, records_of_rows, BodyRow,
    EmailRow, IdRow,
};
use crate::save::{
    encoding_failure, insert_query, is_row_of, resolution, resolve_owner, revise_body,
    revision_failure, write_body_query, EncodedEnvelope, SaveStep,
};
use crate::tables::Tables;
use crate::text::{opt_str_text, with_context};
use vstd::prelude::*;

verus! {

/// What came back for a query.
#[derive(Debug)]
pub enum D1Reply<T> {
    /// The answer.
    Answered(T),
    /// The values could not be bound, with this message.
    BindFailed(String),
    /// The query failed, with this message.
    RunFailed(String),
}

/// The message of an insert that stored nothing although it had no idempotency key.
pub open spec fn skipped_insert_message() -> Seq<char> {
    with_context("insert skipped"@, "no idempotency key (unexpected id collision)"@)
}

/// The failure of an insert that stored nothing although it had no idempotency key.
fn skipped_insert() -> (error: EmailRepositoryError)
    ensures
        error.message() == skipped_insert_message(),
{
    storage("insert skipped", "no idempotency key (unexpected id collision)")
}

/// Why a save cannot go on after its insert, given its idempotency key and how many
/// rows the insert changed.
pub open spec fn insertion_failure(key: Option<Seq<char>>, inserted: D1Reply<u64>) -> Option<
    Seq<char>,
> {
    match inserted {
        D1Reply::BindFailed(message) => Some(with_context("binding insert"@, message@)),
        D1Reply::RunFailed(message) => Some(with_context("inserting email"@, message@)),
        D1Reply::Answered(changed) => if key is None && changed == 0 {
            Some(skipped_insert_message())
        } else {
            None
        },
    }
}

/// What a save without an idempotency key comes to, given the row under its
/// identifier.
pub open spec fn checked_outcome(id: EmailId, reply: D1Reply<Option<IdRow>>) -> Result<
    SaveResult,
    Seq<char>,
> {
    match reply {
        D1Reply::BindFailed(message) => Err(with_context("binding id check"@, message@)),
        D1Reply::RunFailed(message) => Err(with_context("checking inserted id"@, message@)),
        D1Reply::Answered(Some(_)) => Ok(SaveResult::Created(id)),
        D1Reply::Answered(None) => Err(skipped_insert_message()),
    }
}

/// What a save with an idempotency key comes to, given the row that owns the key.
pub open spec fn looked_up_outcome(id: EmailId, reply: D1Reply<Option<IdRow>>) -> Result<
    SaveResult,
    Seq<char>,
> {
    match reply {
        D1Reply::BindFailed(message) => Err(with_context("binding idempotency lookup"@, message@)),
        D1Reply::RunFailed(message) => Err(
            with_context("fetching existing email by idempotency key"@, message@),
        ),
        D1Reply::Answered(owner) => resolution(
            id,
            match owner {
                Some(row) => Some(row.id@),
                None => None,
            },
        ),
    }
}

/// Storage on a D1 database, which the host reaches through a handle of type `D`.
#[derive(Debug)]
pub struct D1Adapter<D> {
    pub db: D,
}

impl<D> D1Adapter<D> {
    /// The adapter on the database of the given handle.
    pub fn new(db: D) -> (adapter: D1Adapter<D>)
        ensures
            adapter.db == db,
    {
        D1Adapter { db }
    }

    /// Starts a save: the insert to run, or the failure to encode the envelope.
    pub fn save(&self, id: EmailId, envelope: &Envelope, encoded: EncodedEnvelope) -> (step:
        SaveStep)
        ensures
            match encoding_failure(*envelope, encoded) {
                Some(message) => step matches SaveStep::Done(Err(error)) && error.message()
                    == message,
                None => step matches SaveStep::Ask(Query::InsertEmail(row)) && is_row_of(
                    row,
                    id,
                    *envelope,
                    encoded.recipients->Ok_0,
                    encoded.body->Ok_0,
                ),
            },
            encoded.recipients is Ok && encoded.body is Ok ==> step is Ask,
    {
        match insert_query(id, envelope, encoded) {
            Ok(query) => SaveStep::Ask(query),
            Err(error) => SaveStep::Done(Err(error)),
        }
    }

    /// Goes on with a save after the insert, given how many rows it changed. Without
    /// an idempotency key an insert that changed none has met a taken identifier,
    /// and fails; one that changed a row is checked for being there. With a key the
    /// row that owns the key is looked up.
    pub fn save_inserted(
        &self,
        id: EmailId,
        idempotency_key: Option<&str>,
        inserted: D1Reply<u64>,
    ) -> (step: SaveStep)
        ensures
            match insertion_failure(opt_str_text(idempotency_key), inserted) {
                Some(message) => step matches SaveStep::Done(Err(error)) && error.message()
                    == message,
                None => match opt_str_text(idempotency_key) {
                    None => step matches SaveStep::Ask(Query::IdById { id: asked }) && asked@
                        == id.text(),
                    Some(key) => step matches SaveStep::Ask(Query::IdByKey { key: asked })
                        && asked@ == key,
                },
            },
    {
        match inserted {
            D1Reply::BindFailed(message) => SaveStep::Done(
                Err(storage("binding insert", message.as_str())),
            ),
            D1Reply::RunFailed(message) => SaveStep::Done(
                Err(storage("inserting email", message.as_str())),
            ),
            D1Reply::Answered(changed) => match idempotency_key {
                None => if changed == 0 {
                    SaveStep::Done(Err(skipped_insert()))
                } else {
                    SaveStep::Ask(Query::IdById { id: id.to_text() })
                },
                Some(key) => SaveStep::Ask(Query::IdByKey { key: key.to_owned() }),
            },
        }
    }

    /// Ends a save without an idempotency key: there has to be a row under the
    /// identifier.
    pub fn save_checked(&self, id: EmailId, reply: D1Reply<Option<IdRow>>) -> (saved: Result<
        SaveResult,
        EmailRepositoryError,
    >)
        ensures
            outcome(saved) == checked_outcome(id, reply),
    {
        match reply {
            D1Reply::BindFailed(message) => Err(storage("binding id check", message.as_str())),
            D1Reply::RunFailed(message) => Err(storage("checking inserted id", message.as_str())),
            D1Reply::Answered(Some(_)) => Ok(SaveResult::Created(id)),
            D1Reply::Answered(None) => Err(skipped_insert()),
        }
    }

    /// Ends a save with an idempotency key by the row that owns the key.
    pub fn save_looked_up(&self, id: EmailId, reply: D1Reply<Option<IdRow>>) -> (saved: Result<
        SaveResult,
        EmailRepositoryError,
    >)
        ensures
            outcome(saved) == looked_up_outcome(id, reply),
    {
        match reply {
            D1Reply::BindFailed(message) => Err(
                storage("binding idempotency lookup", message.as_str()),
            ),
            D1Reply::RunFailed(message) => Err(
                storage("fetching existing email by idempotency key", message.as_str()),
            ),
            D1Reply::Answered(owner) => resolve_owner(id, owner),
        }
    }

    /// Ends a save by the row that came back for its last query: the row under the
    /// identifier without an idempotency key, the row that owns the key with one.
    pub fn save_answered(
        &self,
        id: EmailId,
        idempotency_key: Option<&str>,
        reply: D1Reply<Option<IdRow>>,
    ) -> (saved: Result<SaveResult, EmailRepositoryError>)
        ensures
            outcome(saved) == match opt_str_text(idempotency_key) {
                None => checked_outcome(id, reply),
                Some(_) => looked_up_outcome(id, reply),
            },
    {
        match idempotency_key {
            None => self.save_checked(id, reply),
            Some(_) => self.save_looked_up(id, reply),
        }
    }

    /// Asks for one page of the emails. The filters on status, recipient and
    /// template are not applied.
    pub fn list_emails(&self, params: &ListEmailsParams) -> (query: Query)
        ensures
            is_list_query(query, *params),
    {
        list_query(params)
    }

    /// The emails of the page that was asked for, from the rows or the message of
    /// their decoder.
    pub fn emails_listed(&self, reply: D1Reply<Result<Vec<EmailRow>, String>>) -> (listed: Result<
        Vec<EmailRecord>,
        EmailRepositoryError,
    >)
        ensures
            match reply {
                D1Reply::BindFailed(message) => listed matches Err(error) && error.message()
                    == with_context("binding list query"@, message@),
                D1Reply::RunFailed(message) => listed matches Err(error) && error.message()
                    == with_context("listing emails"@, message@),
                D1Reply::Answered(Err(message)) => listed matches Err(error) && error.message()
                    == with_context("decoding rows"@, message@),
                D1Reply::Answered(Ok(rows)) => are_records(listed, rows@),
            },
    {
        match reply {
            D1Reply::BindFailed(message) => Err(storage("binding list query", message.as_str())),
            D1Reply::RunFailed(message) => Err(storage("listing emails", message.as_str())),
            D1Reply::Answered(Err(message)) => Err(storage("decoding rows", message.as_str())),
            D1Reply::Answered(Ok(rows)) => records_of_rows(rows),
        }
    }

    /// Asks for the body column of an email, to replace its attachments.
    pub fn set_attachments(&self, id: EmailId) -> (query: Query)
        ensures
            query matches Query::ReadBody { id: row } && row@ == id.text(),
    {
        Query::ReadBody { id: id.to_text() }
    }

    /// The body column with its attachments replaced, to be encoded.
    pub fn attachments_revised(
        &self,
        reply: D1Reply<Option<BodyRow>>,
        attachments: &[AttachmentRef],
    ) -> (revised: Result<EnvelopeBodyDto, EmailRepositoryError>)
        ensures
            match reply {
                D1Reply::BindFailed(message) => revised matches Err(error) && error.message()
                    == with_context("binding body read"@, message@),
                D1Reply::RunFailed(message) => revised matches Err(error) && error.message()
                    == with_context("reading body for set_attachments"@, message@),
                D1Reply::Answered(row) => match revision_failure(row) {
                    Some(message) => revised matches Err(error) && error.message() == message,
                    None => revised matches Ok(body) && body.source == row->0.body->Ok_0.source
                        && body.attachments@ == attachments_dto(attachments@),
                },
            },
    {
        match reply {
            D1Reply::BindFailed(message) => Err(storage("binding body read", message.as_str())),
            D1Reply::RunFailed(message) => Err(
                storage("reading body for set_attachments", message.as_str()),
            ),
            D1Reply::Answered(row) => revise_body(row, attachments),
        }
    }

    /// The query that writes the revised body column.
    pub fn write_attachments(&self, id: EmailId, body: Result<String, String>) -> (made: Result<
        Query,
        EmailRepositoryError,
    >)
        ensures
            match body {
                Ok(text) => made matches Ok(Query::WriteBody { body: column, id: row }) && column
                    == text && row@ == id.text(),
                Err(message) => made matches Err(error) && error.message() == with_context(
                    "encoding body"@,
                    message@,
                ),
            },
    {
        write_body_query(id, body)
    }

    /// Ends a replacement of attachments.
    pub fn attachments_written(&self, written: D1Reply<()>) -> (done: Result<
        (),
        EmailRepositoryError,
    >)
        ensures
            outcome(done) == match written {
                D1Reply::Answered(_) => Ok(()),
                D1Reply::BindFailed(message) => Err(
                    with_context("binding body update"@, message@),
                ),
                D1Reply::RunFailed(message) => Err(
                    with_context("writing body for set_attachments"@, message@),
                ),
            },
    {
        match written {
            D1Reply::Answered(()) => Ok(()),
            D1Reply::BindFailed(message) => Err(storage("binding body update", message.as_str())),
            D1Reply::RunFailed(message) => Err(
                storage("writing body for set_attachments", message.as_str()),
            ),
        }
    }

    /// Removes an email.
    pub fn delete(&self, id: EmailId) -> (query: Query)
        ensures
            query matches Query::DeleteEmail { id: row } && row@ == id.text(),
            forall|tables: Tables, clock: int|
                (#[trigger] tables.after(query, clock)).queue == tables.queue && tables.after(
                    query,
                    clock,
                ).emails == tables.emails.remove(id.text()),
    {
        Query::DeleteEmail { id: id.to_text() }
    }

    /// Ends a removal.
    pub fn deleted(&self, removed: D1Reply<()>) -> (done: Result<(), EmailRepositoryError>)
        ensures
            outcome(done) == match removed {
                D1Reply::Answered(_) => Ok(()),
                D1Reply::BindFailed(message) => Err(with_context("binding delete"@, message@)),
                D1Reply::RunFailed(message) => Err(with_context("deleting email"@, message@)),
            },
    {
        match removed {
            D1Reply::Answered(()) => Ok(()),
            D1Reply::BindFailed(message) => Err(storage("binding delete", message.as_str())),
            D1Reply::RunFailed(message) => Err(storage("deleting email", message.as_str())),
        }
    }

    /// Asks for the body columns of all emails.
    pub fn list_all_attachment_blobs(&self) -> (query: Query)
        ensures
            query == Query::ListBodies,
    {
        Query::ListBodies
    }

    /// The blobs of the attachments of all emails, from the rows or the message of
    /// their decoder. The query binds nothing, so it either runs or fails.
    pub fn blobs_listed(&self, reply: Result<Result<Vec<BodyRow>, String>, String>) -> (listed:
        Result<Vec<BlobRef>, EmailRepositoryError>)
        ensures
            match reply {
                Err(message) => listed matches Err(error) && error.message() == with_context(
                    "listing bodies"@,
                    message@,
                ),
                Ok(Err(message)) => listed matches Err(error) && error.message() == with_context(
                    "decoding bodies"@,
                    message@,
                ),
                Ok(Ok(rows)) => listed matches Ok(blobs) && blobs@ == blobs_of_rows(rows@),
            },
    {
        match reply {
            Err(message) => Err(storage("listing bodies", message.as_str())),
            Ok(Err(message)) => Err(storage("decoding bodies", message.as_str())),
            Ok(Ok(rows)) => Ok(collect_blobs(rows)),
        }
    }
}

/// A save stops after its insert where the insert failed, or where it had no
/// idempotency key and changed no row; else it goes on.
pub proof fn law_save_stops_at_a_failed_or_skipped_insert(
    key: Option<Seq<char>>,
    inserted: D1Reply<u64>,
)
    ensures
        insertion_failure(key, inserted) is None <==> (inserted matches D1Reply::Answered(changed)
            && (key is Some || changed > 0)),
        inserted matches D1Reply::BindFailed(message) ==> insertion_failure(key, inserted) == Some(
            "binding insert"@ + ": "@ + message@,
        ),
        inserted matches D1Reply::RunFailed(message) ==> insertion_failure(key, inserted) == Some(
            "inserting email"@ + ": "@ + message@,
        ),
        inserted is Answered && insertion_failure(key, inserted) is Some ==> insertion_failure(
            key,
            inserted,
        ) == Some("insert skipped"@ + ": "@ + "no idempotency key (unexpected id collision)"@),
{
}

/// A save without an idempotency key is created exactly where a row came back for
/// its identifier, and under that identifier.
pub proof fn law_checked_save_needs_its_row(id: EmailId, reply: D1Reply<Option<IdRow>>)
    ensures
        checked_outcome(id, reply) is Ok <==> (reply matches D1Reply::Answered(Some(_))),
        checked_outcome(id, reply) matches Ok(saved) ==> saved == SaveResult::Created(id),
        reply matches D1Reply::Answered(None) ==> checked_outcome(id, reply) == (Err::<
            SaveResult,
            Seq<char>,
        >("insert skipped"@ + ": "@ + "no idempotency key (unexpected id collision)"@)),
        reply matches D1Reply::BindFailed(message) ==> checked_outcome(id, reply) == (Err::<
            SaveResult,
            Seq<char>,
        >("binding id check"@ + ": "@ + message@)),
        reply matches D1Reply::RunFailed(message) ==> checked_outcome(id, reply) == (Err::<
            SaveResult,
            Seq<char>,
        >("checking inserted id"@ + ": "@ + message@)),
{
}

/// A save with an idempotency key is decided by the row that owns the key: created
/// where it is the email itself, a duplicate of the owner where it is another one,
/// and a failure in every other case.
pub proof fn law_looked_up_save_is_decided_by_the_owner(
    id: EmailId,
    reply: D1Reply<Option<IdRow>>,
)
    ensures
        reply matches D1Reply::BindFailed(message) ==> looked_up_outcome(id, reply) == (Err::<
            SaveResult,
            Seq<char>,
        >("binding idempotency lookup"@ + ": "@ + message@)),
        reply matches D1Reply::RunFailed(message) ==> looked_up_outcome(id, reply) == (Err::<
            SaveResult,
            Seq<char>,
        >("fetching existing email by idempotency key"@ + ": "@ + message@)),
        reply matches D1Reply::Answered(None) ==> looked_up_outcome(id, reply) == (Err::<
            SaveResult,
            Seq<char>,
        >("idempotency lookup"@ + ": "@ + "row vanished after insert"@)),
        reply matches D1Reply::Answered(Some(row)) ==> match uuid_parsed(row.id@) {
            Err(message) => looked_up_outcome(id, reply) == (Err::<SaveResult, Seq<char>>(
                "parsing existing id"@ + ": "@ + message,
            )),
            Ok(bits) => {
                &&& bits == id.bits ==> looked_up_outcome(id, reply) == (Ok::<
                    SaveResult,
                    Seq<char>,
                >(SaveResult::Created(id)))
                &&& bits != id.bits ==> looked_up_outcome(id, reply) == (Ok::<
                    SaveResult,
                    Seq<char>,
                >(SaveResult::Duplicate(EmailId { bits })))
            },
        },
{
}

} // verus!
