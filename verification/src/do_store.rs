//! Storage and queue on the SQLite database of a Durable Object.
//!
//! The host runs the queries on the database of the object and hands back the
//! answers; here it is decided what to ask and what an answer comes to.
use crate::dto::{
    attachments_dto, body_of_dto, law_body_is_restored_as_its_kind, recipients_from_dto,
    recipients_of_dto, restore_body, BodySourceDto, EnvelopeBodyDto, RecipientDto,
};
use crate::email::{
    AttachmentRef, BlobRef, BodySource, EmailRecord, EmptyPlainBody, Envelope, ListEmailsParams,
    MjmlSource, RecipientKind, SaveResult,
};
use crate::error::{outcome, storage, EmailRepositoryError};
use crate::id::EmailId;
use crate::query::Query;
use crate::rows::{
    are_records, blobs_of_rows, collect_blobs, is_list_query, list_query, records_of_rows, BodyRow,
    EmailRow, IdRow,
};
use crate::save::{
    encoding_failure, insert_query, is_row_of, resolution, resolve_owner, revise_body,
    revision_failure, write_body_query, EncodedEnvelope, SaveStep,
};
use crate::tables::{Answer, EmailEntry, QueueEntry, Tables};
use crate::text::{opt_str_text, opt_text, with_context};
use crate::variables::{
    decode_variables, decoded_values, variable_values, variables_parsed, JsonTree, Variables,
};
use vstd::prelude::*;

verus! {

/// A queue entry that is due for a delivery attempt.
#[derive(Debug)]
pub struct DueEmail {
    pub email_id: String,
    pub attempts: i64,
}

/// Everything the delivery step needs for one email.
pub struct StoredEmail {
    pub sender: String,
    pub subject: Option<String>,
    pub recipients: Vec<(RecipientKind, String)>,
    pub body: BodySource,
    pub variables: Variables,
}

/// The columns a delivery needs. The recipients and body columns are decoded, or
/// hold the message of the decoder.
#[derive(Debug)]
pub struct FullRow {
    pub sender: String,
    pub subject: Option<String>,
    pub recipients: Result<Vec<RecipientDto>, String>,
    pub body: Result<EnvelopeBodyDto, String>,
    pub variables: String,
}

/// What came back for a query that reads.
#[derive(Debug)]
pub enum DoReply<T> {
    /// The rows.
    Rows(Vec<T>),
    /// The query failed, with this message.
    ExecFailed(String),
    /// The rows did not decode, with this message.
    DecodeFailed(String),
}

/// The first of a list.
pub open spec fn first_of<T>(rows: Seq<T>) -> Option<T> {
    if rows.len() == 0 {
        None
    } else {
        Some(rows[0])
    }
}

/// Takes the first of a list.
fn take_first<T>(rows: Vec<T>) -> (first: Option<T>)
    ensures
        first == first_of(rows@),
        rows@.len() == 0 ==> first is None,
        rows@.len() > 0 ==> first == Some(rows@[0]),
{
    let mut rows = rows;
    if rows.len() == 0 {
        None
    } else {
        Some(rows.swap_remove(0))
    }
}

/// Why a row cannot be restored to an email.
pub open spec fn restore_failure(row: FullRow) -> Option<Seq<char>> {
    restore_failure_with(row, variables_parsed(row.variables@))
}

/// Why a row cannot be restored to an email, given what its variables decode as.
pub open spec fn restore_failure_with(
    row: FullRow,
    variables: Result<Map<Seq<char>, JsonTree>, Seq<char>>,
) -> Option<Seq<char>> {
    match row.recipients {
        Err(message) => Some(with_context("decoding recipients"@, message@)),
        Ok(_) => match row.body {
            Err(message) => Some(with_context("decoding body"@, message@)),
            Ok(body) => match body_of_dto(body.source) {
                None => Some(with_context("rebuilding body"@, EmptyPlainBody.message())),
                Some(_) => match variables {
                    Err(message) => Some(with_context("decoding variables"@, message)),
                    Ok(_) => None,
                },
            },
        },
    }
}

/// Whether an email is what the given columns hold.
pub open spec fn is_restored(
    stored: StoredEmail,
    sender: Seq<char>,
    subject: Option<Seq<char>>,
    recipients: Seq<RecipientDto>,
    source: BodySourceDto,
    variables: Map<Seq<char>, JsonTree>,
) -> bool {
    &&& stored.sender@ == sender
    &&& opt_text(stored.subject) == subject
    &&& stored.recipients@ == recipients_of_dto(recipients)
    &&& body_of_dto(source) == Some(stored.body)
    &&& variable_values(stored.variables) == variables
}

/// Restores the email of a row.
pub fn restore_row(row: FullRow) -> (restored: Result<StoredEmail, EmailRepositoryError>)
    ensures
        match restore_failure(row) {
            Some(message) => restored matches Err(error) && error.message() == message,
            None => restored matches Ok(stored) && is_restored(
                stored,
                row.sender@,
                opt_text(row.subject),
                row.recipients->Ok_0@,
                row.body->Ok_0.source,
                variables_parsed(row.variables@)->Ok_0,
            ),
        },
{
    let variables = decode_variables(row.variables.as_str());
    restore_row_with(row, variables)
}

/// Restores the email of a row, given what its variables decode as.
pub fn restore_row_with(row: FullRow, variables: Result<Variables, String>) -> (restored: Result<
    StoredEmail,
    EmailRepositoryError,
>)
    ensures
        match restore_failure_with(row, decoded_values(variables)) {
            Some(message) => restored matches Err(error) && error.message() == message,
            None => restored matches Ok(stored) && is_restored(
                stored,
                row.sender@,
                opt_text(row.subject),
                row.recipients->Ok_0@,
                row.body->Ok_0.source,
                decoded_values(variables)->Ok_0,
            ),
        },
        restored matches Ok(stored) ==> {
            &&& stored.sender@ == row.sender@
            &&& stored.subject is Some <==> row.subject is Some
            &&& stored.subject is Some ==> stored.subject->0@ == row.subject->0@
            &&& row.recipients matches Ok(dtos) && stored.recipients@ == recipients_of_dto(dtos@)
            &&& row.body matches Ok(body) && body_of_dto(body.source) == Some(stored.body)
            &&& variables matches Ok(found) && variable_values(stored.variables)
                == variable_values(found)
        },
        restored is Ok <==> row.recipients is Ok && row.body is Ok && body_of_dto(
            row.body->Ok_0.source,
        ) is Some && variables is Ok,
{
    let recipients = match row.recipients {
        Ok(recipients) => recipients,
        Err(message) => {
            return Err(storage("decoding recipients", message.as_str()));
        },
    };
    let body = match row.body {
        Ok(body) => body,
        Err(message) => {
            return Err(storage("decoding body", message.as_str()));
        },
    };
    let source = match restore_body(body.source) {
        Ok(source) => source,
        Err(empty) => {
            return Err(storage("rebuilding body", empty.to_text().as_str()));
        },
    };
    match variables {
        Err(message) => Err(storage("decoding variables", message.as_str())),
        Ok(variables) => Ok(
            StoredEmail {
                sender: row.sender,
                subject: row.subject,
                recipients: recipients_from_dto(recipients),
                body: source,
                variables,
            },
        ),
    }
}

/// Storage and queue on the database of a Durable Object, which the host reaches
/// through a handle of type `S`.
#[derive(Debug)]
pub struct DoStore<S> {
    pub sql: S,
}

impl<S> DoStore<S> {
    /// The store on the database of the given handle.
    pub fn new(sql: S) -> (store: DoStore<S>)
        ensures
            store.sql == sql,
    {
        DoStore { sql }
    }

    /// Creates the tables where they do not exist yet; what they hold stays.
    pub fn init_schema(&self) -> (query: Query)
        ensures
            query == Query::InitSchema,
            forall|tables: Tables, clock: int| tables.after(query, clock) == tables,
    {
        Query::InitSchema
    }

    /// Puts an email on the queue for delivery at `run_at_ms`. An email that is on
    /// it already is moved, and keeps its count of attempts.
    pub fn enqueue(&self, id: EmailId, run_at_ms: i64) -> (query: Query)
        ensures
            query matches Query::Enqueue { email_id, run_at_ms: at } && email_id@ == id.text()
                && at == run_at_ms,
            forall|tables: Tables, clock: int|
                (#[trigger] tables.after(query, clock)).emails == tables.emails && tables.after(
                    query,
                    clock,
                ).queue == tables.queue.insert(
                    id.text(),
                    (QueueEntry {
                        run_at_ms: run_at_ms as int,
                        attempts: if tables.queue.contains_key(id.text()) {
                            tables.queue[id.text()].attempts
                        } else {
                            0
                        },
                    }),
                ),
    {
        Query::Enqueue { email_id: id.to_text(), run_at_ms }
    }

    /// Asks for up to `limit` queue entries whose time is not after `now_ms`, the
    /// earliest first.
    pub fn claim_due(&self, now_ms: i64, limit: u32) -> (query: Query)
        ensures
            query == (Query::ClaimDue { now_ms, limit }),
            forall|tables: Tables, rows: Seq<(Seq<char>, int)>|
                tables.answers(query, Answer::Due(rows)) <==> #[trigger] tables.are_due(
                    now_ms as int,
                    limit as nat,
                    rows,
                ),
    {
        Query::ClaimDue { now_ms, limit }
    }

    /// Moves a queue entry to a later time and counts one more attempt.
    pub fn reschedule(&self, email_id: &str, run_at_ms: i64) -> (query: Query)
        ensures
            query matches Query::Reschedule { email_id: email, run_at_ms: at } && email@
                == email_id@ && at == run_at_ms,
            forall|tables: Tables, clock: int|
                (#[trigger] tables.after(query, clock)).emails == tables.emails && tables.after(
                    query,
                    clock,
                ).queue == (if tables.queue.contains_key(email_id@) {
                    tables.queue.insert(
                        email_id@,
                        (QueueEntry {
                            run_at_ms: run_at_ms as int,
                            attempts: tables.queue[email_id@].attempts + 1,
                        }),
                    )
                } else {
                    tables.queue
                }),
    {
        Query::Reschedule { email_id: email_id.to_owned(), run_at_ms }
    }

    /// Takes an email off the queue, delivered or failed for good.
    pub fn dequeue(&self, email_id: &str) -> (query: Query)
        ensures
            query matches Query::Dequeue { email_id: email } && email@ == email_id@,
            forall|tables: Tables, clock: int|
                (#[trigger] tables.after(query, clock)).emails == tables.emails && tables.after(
                    query,
                    clock,
                ).queue == tables.queue.remove(email_id@),
    {
        Query::Dequeue { email_id: email_id.to_owned() }
    }

    /// Asks for the earliest time on the queue, for arming the next alarm.
    pub fn next_run_at(&self) -> (query: Query)
        ensures
            query == Query::NextRunAt,
            forall|tables: Tables, rows: Seq<int>|
                tables.answers(query, Answer::RunAt(rows)) <==> #[trigger] tables.is_next_run_at(
                    rows,
                ),
    {
        Query::NextRunAt
    }

    /// The earliest time on the queue; `None` if the queue is empty.
    pub fn earliest_run_at(&self, rows: &[i64]) -> (earliest: Option<i64>)
        ensures
            earliest == first_of(rows@),
            rows@.len() == 0 ==> earliest is None,
            rows@.len() > 0 ==> earliest == Some(rows@[0]),
    {
        if rows.len() == 0 {
            None
        } else {
            Some(rows[0])
        }
    }

    /// Asks for the columns that a delivery of an email needs.
    pub fn load_envelope(&self, email_id: &str) -> (query: Query)
        ensures
            query matches Query::LoadEnvelope { email_id: email } && email@ == email_id@,
            forall|tables: Tables, entries: Seq<EmailEntry>| #[trigger]
                tables.answers(query, Answer::Entries(entries)) <==> entries == (
                if tables.emails.contains_key(email_id@) {
                    seq![tables.emails[email_id@]]
                } else {
                    Seq::empty()
                }),
    {
        Query::LoadEnvelope { email_id: email_id.to_owned() }
    }

    /// The email that was loaded; `None` if its row is gone.
    pub fn loaded_envelope(&self, reply: DoReply<FullRow>) -> (loaded: Result<
        Option<StoredEmail>,
        EmailRepositoryError,
    >)
        ensures
            match reply {
                DoReply::ExecFailed(message) => loaded matches Err(error) && error.message()
                    == with_context("loading envelope"@, message@),
                DoReply::DecodeFailed(message) => loaded matches Err(error) && error.message()
                    == with_context("decoding envelope"@, message@),
                DoReply::Rows(rows) => if rows@.len() == 0 {
                    loaded matches Ok(None)
                } else {
                    match restore_failure(rows@[0]) {
                        Some(message) => loaded matches Err(error) && error.message() == message,
                        None => loaded matches Ok(Some(stored)) && is_restored(
                            stored,
                            rows@[0].sender@,
                            opt_text(rows@[0].subject),
                            rows@[0].recipients->Ok_0@,
                            rows@[0].body->Ok_0.source,
                            variables_parsed(rows@[0].variables@)->Ok_0,
                        ),
                    }
                },
            },
    {
        match reply {
            DoReply::ExecFailed(message) => Err(storage("loading envelope", message.as_str())),
            DoReply::DecodeFailed(message) => Err(storage("decoding envelope", message.as_str())),
            DoReply::Rows(rows) => match take_first(rows) {
                None => Ok(None),
                Some(row) => match restore_row(row) {
                    Ok(stored) => Ok(Some(stored)),
                    Err(error) => Err(error),
                },
            },
        }
    }

    /// Starts a save: the insert to run, or the failure to encode the envelope.
    pub fn save_sync(&self, id: EmailId, envelope: &Envelope, encoded: EncodedEnvelope) -> (step:
        SaveStep)
        ensures
            match encoding_failure(*envelope, encoded) {
                Some(message) => step matches SaveStep::Done(Err(error)) && error.message()
                    == message,
                None => step matches SaveStep::Ask(Query::InsertEmail(row)) && is_row_of(
                    row,
                    id,
                    *envelope,
                    encoded.recipients->Ok_0,
                    encoded.body->Ok_0,
                ),
            },
            encoded.recipients is Ok && encoded.body is Ok ==> step is Ask,
    {
        match insert_query(id, envelope, encoded) {
            Ok(query) => SaveStep::Ask(query),
            Err(error) => SaveStep::Done(Err(error)),
        }
    }

    /// Goes on with a save after the insert. Without an idempotency key the email
    /// is stored; with one, the row that owns the key decides.
    pub fn save_inserted(
        &self,
        id: EmailId,
        idempotency_key: Option<&str>,
        inserted: Result<(), String>,
    ) -> (step: SaveStep)
        ensures
            match inserted {
                Err(message) => step matches SaveStep::Done(Err(error)) && error.message()
                    == with_context("inserting email"@, message@),
                Ok(_) => match opt_str_text(idempotency_key) {
                    None => step matches SaveStep::Done(Ok(result)) && result
                        == SaveResult::Created(id),
                    Some(key) => step matches SaveStep::Ask(Query::IdByKey { key: asked })
                        && asked@ == key,
                },
            },
    {
        match inserted {
            Err(message) => SaveStep::Done(Err(storage("inserting email", message.as_str()))),
            Ok(()) => match idempotency_key {
                None => SaveStep::Done(Ok(SaveResult::Created(id))),
                Some(key) => SaveStep::Ask(Query::IdByKey { key: key.to_owned() }),
            },
        }
    }

    /// Ends a save by the row that owns its idempotency key.
    pub fn save_looked_up(&self, id: EmailId, reply: DoReply<IdRow>) -> (saved: Result<
        SaveResult,
        EmailRepositoryError,
    >)
        ensures
            outcome(saved) == match reply {
                DoReply::ExecFailed(message) => Err(
                    with_context("idempotency lookup"@, message@),
                ),
                DoReply::DecodeFailed(message) => Err(
                    with_context("decoding idempotency lookup"@, message@),
                ),
                DoReply::Rows(rows) => resolution(
                    id,
                    if rows@.len() == 0 {
                        None
                    } else {
                        Some(rows@[0].id@)
                    },
                ),
            },
    {
        match reply {
            DoReply::ExecFailed(message) => Err(storage("idempotency lookup", message.as_str())),
            DoReply::DecodeFailed(message) => Err(
                storage("decoding idempotency lookup", message.as_str()),
            ),
            DoReply::Rows(rows) => resolve_owner(id, take_first(rows)),
        }
    }

    /// Asks for one page of the emails. The filters on status, recipient and
    /// template are not applied.
    pub fn list_emails_sync(&self, params: &ListEmailsParams) -> (query: Query)
        ensures
            is_list_query(query, *params),
    {
        list_query(params)
    }

    /// The emails of the page that was asked for.
    pub fn emails_listed(&self, reply: DoReply<EmailRow>) -> (listed: Result<
        Vec<EmailRecord>,
        EmailRepositoryError,
    >)
        ensures
            match reply {
                DoReply::ExecFailed(message) => listed matches Err(error) && error.message()
                    == with_context("listing emails"@, message@),
                DoReply::DecodeFailed(message) => listed matches Err(error) && error.message()
                    == with_context("decoding rows"@, message@),
                DoReply::Rows(rows) => are_records(listed, rows@),
            },
    {
        match reply {
            DoReply::ExecFailed(message) => Err(storage("listing emails", message.as_str())),
            DoReply::DecodeFailed(message) => Err(storage("decoding rows", message.as_str())),
            DoReply::Rows(rows) => records_of_rows(rows),
        }
    }

    /// Asks for the body column of an email, to replace its attachments.
    pub fn set_attachments_sync(&self, id: EmailId) -> (query: Query)
        ensures
            query matches Query::ReadBody { id: row } && row@ == id.text(),
    {
        Query::ReadBody { id: id.to_text() }
    }

    /// The body column with its attachments replaced, to be encoded.
    pub fn attachments_revised(&self, reply: DoReply<BodyRow>, attachments: &[AttachmentRef]) -> (
    revised: Result<EnvelopeBodyDto, EmailRepositoryError>)
        ensures
            match reply {
                DoReply::ExecFailed(message) => revised matches Err(error) && error.message()
                    == with_context("reading body"@, message@),
                DoReply::DecodeFailed(message) => revised matches Err(error) && error.message()
                    == with_context("decoding body"@, message@),
                DoReply::Rows(rows) => match revision_failure(first_of(rows@)) {
                    Some(message) => revised matches Err(error) && error.message() == message,
                    None => revised matches Ok(body) && body.source == rows@[0].body->Ok_0.source
                        && body.attachments@ == attachments_dto(attachments@),
                },
            },
    {
        match reply {
            DoReply::ExecFailed(message) => Err(storage("reading body", message.as_str())),
            DoReply::DecodeFailed(message) => Err(storage("decoding body", message.as_str())),
            DoReply::Rows(rows) => revise_body(take_first(rows), attachments),
        }
    }

    /// The query that writes the revised body column.
    pub fn write_attachments(&self, id: EmailId, body: Result<String, String>) -> (made: Result<
        Query,
        EmailRepositoryError,
    >)
        ensures
            match body {
                Ok(text) => made matches Ok(Query::WriteBody { body: column, id: row }) && column
                    == text && row@ == id.text(),
                Err(message) => made matches Err(error) && error.message() == with_context(
                    "encoding body"@,
                    message@,
                ),
            },
    {
        write_body_query(id, body)
    }

    /// Ends a replacement of attachments.
    pub fn attachments_written(&self, written: Result<(), String>) -> (done: Result<
        (),
        EmailRepositoryError,
    >)
        ensures
            outcome(done) == match written {
                Ok(_) => Ok(()),
                Err(message) => Err(with_context("writing body"@, message@)),
            },
    {
        match written {
            Ok(()) => Ok(()),
            Err(message) => Err(storage("writing body", message.as_str())),
        }
    }

    /// Removes an email.
    pub fn delete(&self, id: EmailId) -> (query: Query)
        ensures
            query matches Query::DeleteEmail { id: row } && row@ == id.text(),
            forall|tables: Tables, clock: int|
                (#[trigger] tables.after(query, clock)).queue == tables.queue && tables.after(
                    query,
                    clock,
                ).emails == tables.emails.remove(id.text()),
    {
        Query::DeleteEmail { id: id.to_text() }
    }

    /// Ends a removal.
    pub fn deleted(&self, removed: Result<(), String>) -> (done: Result<(), EmailRepositoryError>)
        ensures
            outcome(done) == match removed {
                Ok(_) => Ok(()),
                Err(message) => Err(with_context("deleting email"@, message@)),
            },
    {
        match removed {
            Ok(()) => Ok(()),
            Err(message) => Err(storage("deleting email", message.as_str())),
        }
    }

    /// Asks for the body columns of all emails.
    pub fn list_blobs_sync(&self) -> (query: Query)
        ensures
            query == Query::ListBodies,
    {
        Query::ListBodies
    }

    /// The blobs of the attachments of all emails.
    pub fn blobs_listed(&self, reply: DoReply<BodyRow>) -> (listed: Result<
        Vec<BlobRef>,
        EmailRepositoryError,
    >)
        ensures
            match reply {
                DoReply::ExecFailed(message) => listed matches Err(error) && error.message()
                    == with_context("listing bodies"@, message@),
                DoReply::DecodeFailed(message) => listed matches Err(error) && error.message()
                    == with_context("decoding bodies"@, message@),
                DoReply::Rows(rows) => listed matches Ok(blobs) && blobs@ == blobs_of_rows(rows@),
            },
    {
        match reply {
            DoReply::ExecFailed(message) => Err(storage("listing bodies", message.as_str())),
            DoReply::DecodeFailed(message) => Err(storage("decoding bodies", message.as_str())),
            DoReply::Rows(rows) => Ok(collect_blobs(rows)),
        }
    }
}

/// The first of a list is its first element, if it has one.
pub proof fn law_first_is_the_first<T>(rows: Seq<T>)
    ensures
        rows.len() == 0 ==> first_of(rows) is None,
        rows.len() > 0 ==> first_of(rows) == Some(rows[0]),
{
}

/// A row is restored exactly where its recipients, its body and its variables
/// decode and its body is not an empty plain one; otherwise the first of these that
/// fails is reported.
pub proof fn law_first_column_that_fails_is_reported(row: FullRow)
    ensures
        restore_failure(row) is None <==> row.recipients is Ok && row.body is Ok && body_of_dto(
            row.body->Ok_0.source,
        ) is Some && variables_parsed(row.variables@) is Ok,
        row.recipients matches Err(message) ==> restore_failure(row) == Some(
            "decoding recipients"@ + ": "@ + message@,
        ),
        row.recipients is Ok ==> (row.body matches Err(message) ==> restore_failure(row) == Some(
            "decoding body"@ + ": "@ + message@,
        )),
        row.recipients is Ok ==> (row.body matches Ok(body) ==> (body_of_dto(body.source) is None
            ==> restore_failure(row) == Some(
            "rebuilding body"@ + ": "@ + "plain body requires text or html"@,
        ))),
        row.recipients is Ok ==> (row.body matches Ok(body) ==> (body_of_dto(body.source) is Some
            ==> (variables_parsed(row.variables@) matches Err(message) ==> restore_failure(row)
            == Some("decoding variables"@ + ": "@ + message)))),
{
}

/// A restored email has what its columns hold: the sender, the subject, every
/// recipient with kind and address in order, the body of its kind with its own
/// texts, and the variables.
pub proof fn law_restored_email_keeps_every_column(
    stored: StoredEmail,
    sender: Seq<char>,
    subject: Option<Seq<char>>,
    recipients: Seq<RecipientDto>,
    source: BodySourceDto,
    variables: Map<Seq<char>, JsonTree>,
    i: int,
)
    requires
        is_restored(stored, sender, subject, recipients, source, variables),
    ensures
        stored.sender@ == sender,
        stored.subject is Some <==> subject is Some,
        subject matches Some(text) ==> stored.subject->0@ == text,
        stored.recipients@.len() == recipients.len(),
        0 <= i < recipients.len() ==> {
            &&& stored.recipients@[i].1 == recipients[i].address
            &&& stored.recipients@[i].0 is To <==> recipients[i].kind is To
            &&& stored.recipients@[i].0 is Cc <==> recipients[i].kind is Cc
            &&& stored.recipients@[i].0 is Bcc <==> recipients[i].kind is Bcc
        },
        match source {
            BodySourceDto::Plain { text, html } => stored.body matches BodySource::Plain(plain)
                && plain.text_part() == text && plain.html_part() == html,
            BodySourceDto::MjmlInline { source: template } => stored.body == BodySource::Mjml(
                MjmlSource::Inline(template),
            ),
            BodySourceDto::MjmlNamed { name } => stored.body == BodySource::Mjml(
                MjmlSource::Named(name),
            ),
            BodySourceDto::MjmlRemote { url } => stored.body == BodySource::Mjml(
                MjmlSource::Remote(url),
            ),
        },
        variable_values(stored.variables) == variables,
{
    law_body_is_restored_as_its_kind(source);
}

} // verus!
