//! What holds of the storage and the queue as a whole, over the meaning of the
//! queries in [`crate::tables`].
use crate::d1::{insertion_failure, D1Reply};
use crate::do_store::{is_restored, restore_failure, FullRow, StoredEmail};
use crate::dto::{
    attachments_dto, blob_of_dto, body_dto, law_attachment_keeps_its_blob,
    law_body_survives_storage, law_recipients_survive_storage, recipients_dto, AttachmentRefDto,
    BodySourceDto, EnvelopeBodyDto, RecipientDto,
};
use crate::email::{AttachmentRef, BlobRef, EmailRecord, Envelope, SaveResult};
use crate::id::{uuid_parsed, uuid_text, EmailId};
use crate::query::{law_statement_texts, NewEmail, Query, SqlDatum};
use crate::rows::{
    blobs_of_body, blobs_of_rows, is_record_of, law_no_attachment_is_passed_over, row_failure, BodyRow, EmailRow,
};
use crate::save::{is_row_of, resolution};
use crate::submit::{
    is_envelope_of, law_envelope_has_what_was_submitted, law_first_unknown_kind_is_found,
    law_request_is_refused_for_what_is_wrong, law_shown_email_shows_every_field, refusal,
    shows_record, EmailRecordDto, SubmitRequest,
};
use crate::tables::{
    entry_of, is_id_text, listed_before, page_of, text_before, Answer, EmailEntry,
    ListFilter, QueueEntry, Tables,
};
use crate::text::{opt_text, with_context};
use crate::variables::{all_read_back, variable_values, variables_parsed};
use vstd::multiset::Multiset;
use vstd::prelude::*;

verus! {

// --- the tables --------------------------------------------------------------

/// No query takes the tables out of their invariant, as long as emails are stored
/// under identifiers.
pub proof fn law_queries_keep_the_invariant(tables: Tables, query: Query, clock_ms: int)
    requires
        tables.wf(),
        query matches Query::InsertEmail(email) ==> is_id_text(email.id@),
    ensures
        tables.after(query, clock_ms).wf(),
{
    let after = tables.after(query, clock_ms);
    assert forall|left: Seq<char>, right: Seq<char>, key: Seq<char>|
        #![trigger after.owns_key(left, key), after.owns_key(right, key)]
        after.owns_key(left, key) && after.owns_key(right, key) implies left == right by {
        assert(tables.owns_key(left, key) && tables.owns_key(right, key) ==> left == right);
        if let Query::InsertEmail(email) = query {
            assert(tables.emails.contains_key(left) || left == email.id@);
            assert(tables.emails.contains_key(right) || right == email.id@);
        }
    }
    assert forall|id: Seq<char>| #[trigger] after.emails.contains_key(id) implies is_id_text(id) by {
        if let Query::InsertEmail(email) = query {
            assert(tables.emails.contains_key(id) || id == email.id@);
        } else {
            assert(tables.emails.contains_key(id));
        }
    }
}

/// A query that reads, and the one that creates the tables, leaves everything as
/// it was.
pub proof fn law_reads_change_nothing(tables: Tables, query: Query, clock_ms: int)
    requires
        query is InitSchema || query is ClaimDue || query is NextRunAt || query is LoadEnvelope
            || query is IdById || query is IdByKey || query is ListEmails || query is ReadBody
            || query is ListBodies,
    ensures
        tables.after(query, clock_ms) == tables,
{
}

/// The queue and the emails do not disturb each other: the queries on the one
/// leave the other as it was.
pub proof fn law_queue_and_emails_are_apart(tables: Tables, query: Query, clock_ms: int)
    ensures
        query is Enqueue || query is Reschedule || query is Dequeue ==> tables.after(
            query,
            clock_ms,
        ).emails == tables.emails,
        query is InsertEmail || query is WriteBody || query is DeleteEmail ==> tables.after(
            query,
            clock_ms,
        ).queue == tables.queue,
{
}

// --- the queue ---------------------------------------------------------------

/// An email that is put on the queue again after a retry was scheduled keeps the
/// attempts that were counted, the retry among them.
pub proof fn law_attempts_survive_requeueing(
    tables: Tables,
    email_id: String,
    retry_at_ms: i64,
    run_at_ms: i64,
    clock_ms: int,
)
    requires
        tables.queue.contains_key(email_id@),
    ensures
        tables.after(Query::Reschedule { email_id, run_at_ms: retry_at_ms }, clock_ms).after(
            Query::Enqueue { email_id, run_at_ms },
            clock_ms,
        ).queue == tables.queue.insert(
            email_id@,
            QueueEntry {
                run_at_ms: run_at_ms as int,
                attempts: tables.queue[email_id@].attempts + 1,
            },
        ),
{
    let retried = tables.after(Query::Reschedule { email_id, run_at_ms: retry_at_ms }, clock_ms);
    let requeued = retried.after(Query::Enqueue { email_id, run_at_ms }, clock_ms);
    assert(requeued.queue =~= tables.queue.insert(
        email_id@,
        QueueEntry {
            run_at_ms: run_at_ms as int,
            attempts: tables.queue[email_id@].attempts + 1,
        },
    ));
}

/// A retry is scheduled only for an email on the queue: one that was taken off it
/// does not come back.
pub proof fn law_dequeued_stays_off(
    tables: Tables,
    email_id: String,
    retry_at_ms: i64,
    clock_ms: int,
)
    ensures
        tables.after(Query::Dequeue { email_id }, clock_ms).after(
            Query::Reschedule { email_id, run_at_ms: retry_at_ms },
            clock_ms,
        ) == tables.after(Query::Dequeue { email_id }, clock_ms),
{
}

/// An email that was taken off the queue is due at no time.
pub proof fn law_dequeued_is_never_due(
    tables: Tables,
    email_id: String,
    clock_ms: int,
    now_ms: int,
    limit: nat,
    rows: Seq<(Seq<char>, int)>,
    i: int,
)
    requires
        tables.after(Query::Dequeue { email_id }, clock_ms).are_due(now_ms, limit, rows),
        0 <= i < rows.len(),
    ensures
        rows[i].0 != email_id@,
{
}

/// Before its time an email is not due.
pub proof fn law_nothing_is_due_early(
    tables: Tables,
    now_ms: int,
    limit: nat,
    rows: Seq<(Seq<char>, int)>,
    i: int,
)
    requires
        tables.are_due(now_ms, limit, rows),
        0 <= i < rows.len(),
    ensures
        tables.queue.contains_key(rows[i].0),
        tables.queue[rows[i].0].run_at_ms <= now_ms,
{
}

/// Whoever is due and not among the entries of a claim has been pushed out by
/// `limit` others that were due no later.
pub proof fn law_no_due_email_is_forgotten(
    tables: Tables,
    now_ms: int,
    limit: nat,
    rows: Seq<(Seq<char>, int)>,
    email_id: Seq<char>,
)
    requires
        tables.are_due(now_ms, limit, rows),
        tables.queue.contains_key(email_id),
        tables.queue[email_id].run_at_ms <= now_ms,
        forall|i: int| 0 <= i < rows.len() ==> (#[trigger] rows[i]).0 != email_id,
    ensures
        rows.len() == limit,
        forall|i: int|
            0 <= i < rows.len() ==> tables.queue[(#[trigger] rows[i]).0].run_at_ms
                <= tables.queue[email_id].run_at_ms,
{
}

/// An alarm at the earliest time on the queue finds work, and starts with an entry
/// of that time; an alarm before it finds none.
pub proof fn law_alarm_finds_work(
    tables: Tables,
    next: int,
    now_ms: int,
    limit: nat,
    rows: Seq<(Seq<char>, int)>,
)
    requires
        tables.is_next_run_at(seq![next]),
        tables.are_due(now_ms, limit, rows),
    ensures
        now_ms < next ==> rows.len() == 0,
        next <= now_ms && limit > 0 ==> rows.len() > 0 && tables.queue[rows[0].0].run_at_ms == next,
{
    let times = seq![next];
    assert(times[0] == next);
    let earliest = choose|id: Seq<char>| #[trigger]
        tables.queue.contains_key(id) && tables.queue[id].run_at_ms == times[0];
    if rows.len() > 0 {
        assert(tables.queue.contains_key(rows[0].0));
    }
    if next <= now_ms && limit > 0 {
        assert(tables.queue.contains_key(earliest));
        if exists|i: int| 0 <= i < rows.len() && (#[trigger] rows[i]).0 == earliest {
            let i = choose|i: int| 0 <= i < rows.len() && (#[trigger] rows[i]).0 == earliest;
            assert(tables.queue[rows[0].0].run_at_ms <= tables.queue[rows[i].0].run_at_ms);
        } else {
            assert(rows.len() == limit);
            assert(tables.queue[rows[0].0].run_at_ms <= tables.queue[earliest].run_at_ms);
        }
    }
}

/// Without a time to arm an alarm for there is nothing to deliver, ever.
pub proof fn law_no_alarm_means_no_work(
    tables: Tables,
    now_ms: int,
    limit: nat,
    rows: Seq<(Seq<char>, int)>,
)
    requires
        tables.is_next_run_at(Seq::empty()),
        tables.are_due(now_ms, limit, rows),
    ensures
        rows.len() == 0,
{
    if rows.len() > 0 {
        assert(tables.queue.contains_key(rows[0].0));
    }
}

// --- statements --------------------------------------------------------------

/// The lookup of the owner of an idempotency key reads the identifiers of the emails
/// by their key column, and binds the key: what it finds are the emails with that
/// key. A save with that key has bound it to the same column before.
pub proof fn law_key_lookup_selects_by_the_key_column(
    tables: Tables,
    key: String,
    row: NewEmail,
    rows: Seq<Seq<char>>,
    id: Seq<char>,
)
    requires
        tables.answers(Query::IdByKey { key }, Answer::Ids(rows)),
        opt_text(row.idempotency_key) == Some(key@),
    ensures
        (Query::IdByKey { key }).sql() == "SELECT id FROM emails WHERE "@ + "idempotency_key"@
            + " = ?"@,
        (Query::IdByKey { key }).data() == seq![SqlDatum::Text(key@)],
        rows.contains(id) <==> tables.emails.contains_key(id) && tables.emails[id].idempotency_key
            == Some(key@),
        Query::InsertEmail(row).sql() == "INSERT OR IGNORE INTO emails (id, "@ + "idempotency_key"@
            + ", correlation_id, subject, sender, recipients, body, variables) VALUES (?, ?, ?, ?, ?, ?, ?, ?)"@,
        Query::InsertEmail(row).data()[1] == (Query::IdByKey { key }).data()[0],
{
    reveal_strlit("SELECT id FROM emails WHERE ");
    reveal_strlit("idempotency_key");
    reveal_strlit(" = ?");
    reveal_strlit("SELECT id FROM emails WHERE idempotency_key = ?");
    reveal_strlit("INSERT OR IGNORE INTO emails (id, ");
    reveal_strlit(
        ", correlation_id, subject, sender, recipients, body, variables) VALUES (?, ?, ?, ?, ?, ?, ?, ?)",
    );
    reveal_strlit(
        "INSERT OR IGNORE INTO emails (id, idempotency_key, correlation_id, subject, sender, recipients, body, variables) VALUES (?, ?, ?, ?, ?, ?, ?, ?)",
    );
    law_statement_texts(Query::IdByKey { key });
    law_statement_texts(Query::InsertEmail(row));
    assert((Query::IdByKey { key }).sql() =~= "SELECT id FROM emails WHERE "@
        + "idempotency_key"@ + " = ?"@);
    assert(Query::InsertEmail(row).sql() =~= "INSERT OR IGNORE INTO emails (id, "@
        + "idempotency_key"@
        + ", correlation_id, subject, sender, recipients, body, variables) VALUES (?, ?, ?, ?, ?, ?, ?, ?)"@);
}

/// The queries on one email select it by its identifier, and bind the identifier
/// last: what they read or write is that email, and no other one.
pub proof fn law_queries_on_one_email_select_by_the_identifier(
    tables: Tables,
    id: String,
    body: String,
    clock_ms: int,
    ids: Seq<Seq<char>>,
    entries: Seq<EmailEntry>,
    bodies: Seq<Seq<char>>,
)
    requires
        tables.answers(Query::IdById { id }, Answer::Ids(ids)),
        tables.answers(Query::LoadEnvelope { email_id: id }, Answer::Entries(entries)),
        tables.answers(Query::ReadBody { id }, Answer::Bodies(bodies)),
    ensures
        (Query::IdById { id }).sql() == "SELECT id FROM emails"@ + " WHERE id = ?"@,
        (Query::LoadEnvelope { email_id: id }).sql()
            == "SELECT sender, subject, recipients, body, variables FROM emails"@
            + " WHERE id = ?"@,
        (Query::ReadBody { id }).sql() == "SELECT body FROM emails"@ + " WHERE id = ?"@,
        (Query::WriteBody { body, id }).sql() == "UPDATE emails SET body = ?"@ + " WHERE id = ?"@,
        (Query::DeleteEmail { id }).sql() == "DELETE FROM emails"@ + " WHERE id = ?"@,
        (Query::IdById { id }).data().last() == SqlDatum::Text(id@),
        (Query::LoadEnvelope { email_id: id }).data().last() == SqlDatum::Text(id@),
        (Query::ReadBody { id }).data().last() == SqlDatum::Text(id@),
        (Query::WriteBody { body, id }).data() == seq![SqlDatum::Text(body@), SqlDatum::Text(id@)],
        (Query::DeleteEmail { id }).data().last() == SqlDatum::Text(id@),
        tables.emails.contains_key(id@) ==> ids == seq![id@] && entries == seq![tables.emails[id@]]
            && bodies == seq![tables.emails[id@].body],
        !tables.emails.contains_key(id@) ==> ids.len() == 0 && entries.len() == 0 && bodies.len()
            == 0,
        tables.after(Query::DeleteEmail { id }, clock_ms).emails == tables.emails.remove(id@),
        tables.emails.contains_key(id@) ==> tables.after(
            Query::WriteBody { body, id },
            clock_ms,
        ).emails[id@].body == body@,
{
    reveal_strlit(" WHERE id = ?");
    reveal_strlit("SELECT id FROM emails");
    reveal_strlit("SELECT sender, subject, recipients, body, variables FROM emails");
    reveal_strlit("SELECT body FROM emails");
    reveal_strlit("UPDATE emails SET body = ?");
    reveal_strlit("DELETE FROM emails");
    reveal_strlit("SELECT id FROM emails WHERE id = ?");
    reveal_strlit("SELECT sender, subject, recipients, body, variables FROM emails WHERE id = ?");
    reveal_strlit("SELECT body FROM emails WHERE id = ?");
    reveal_strlit("UPDATE emails SET body = ? WHERE id = ?");
    reveal_strlit("DELETE FROM emails WHERE id = ?");
    law_statement_texts(Query::IdById { id });
    law_statement_texts(Query::LoadEnvelope { email_id: id });
    law_statement_texts(Query::ReadBody { id });
    law_statement_texts(Query::WriteBody { body, id });
    law_statement_texts(Query::DeleteEmail { id });
    assert((Query::IdById { id }).sql() =~= "SELECT id FROM emails"@ + " WHERE id = ?"@);
    assert((Query::LoadEnvelope { email_id: id }).sql()
        =~= "SELECT sender, subject, recipients, body, variables FROM emails"@ + " WHERE id = ?"@);
    assert((Query::ReadBody { id }).sql() =~= "SELECT body FROM emails"@ + " WHERE id = ?"@);
    assert((Query::WriteBody { body, id }).sql() =~= "UPDATE emails SET body = ?"@
        + " WHERE id = ?"@);
    assert((Query::DeleteEmail { id }).sql() =~= "DELETE FROM emails"@ + " WHERE id = ?"@);
}

// --- saving ------------------------------------------------------------------

/// Storing an email never touches one that is there already.
pub proof fn law_insert_overwrites_nothing(
    tables: Tables,
    email: NewEmail,
    clock_ms: int,
    id: Seq<char>,
)
    requires
        tables.emails.contains_key(id),
    ensures
        tables.after(Query::InsertEmail(email), clock_ms).emails.contains_key(id),
        tables.after(Query::InsertEmail(email), clock_ms).emails[id] == tables.emails[id],
{
}

/// The one owner of a key is the one row of its lookup.
proof fn lemma_one_owner(tables: Tables, owner: Seq<char>, key: Seq<char>, rows: Seq<Seq<char>>)
    requires
        tables.wf(),
        tables.owns_key(owner, key),
        tables.are_key_owners(key, rows),
    ensures
        rows == seq![owner],
{
    assert(rows.contains(owner));
    assert forall|i: int| 0 <= i < rows.len() implies rows[i] == owner by {
        assert(rows.contains(rows[i]));
        assert(tables.owns_key(rows[i], key));
    }
    if rows.len() > 1 {
        assert(rows[0] == rows[1]);
    }
    assert(rows =~= seq![owner]);
}

/// A save with an idempotency key that no email has, under an identifier that no
/// email has, stores the email and comes to `Created`.
pub proof fn law_first_save_creates(
    tables: Tables,
    row: NewEmail,
    id: EmailId,
    clock_ms: int,
    rows: Seq<Seq<char>>,
)
    requires
        tables.wf(),
        row.id@ == id.text(),
        uuid_parsed(row.id@) == (Ok::<u128, Seq<char>>(id@)),
        row.idempotency_key is Some,
        tables.accepts(row),
        tables.after(Query::InsertEmail(row), clock_ms).are_key_owners(
            row.idempotency_key->0@,
            rows,
        ),
    ensures
        tables.after(Query::InsertEmail(row), clock_ms).emails[id.text()] == entry_of(
            row,
            clock_ms,
        ),
        rows == seq![id.text()],
        resolution(id, Some(rows[0])) == (Ok::<SaveResult, Seq<char>>(SaveResult::Created(id))),
{
    let after = tables.after(Query::InsertEmail(row), clock_ms);
    law_queries_keep_the_invariant(tables, Query::InsertEmail(row), clock_ms);
    lemma_one_owner(after, id.text(), row.idempotency_key->0@, rows);
}

/// A save with an idempotency key that an email has changes nothing, and comes to
/// `Duplicate` with the identifier of that email; where that is the identifier of
/// the save itself, it comes to `Created`.
pub proof fn law_repeated_save_is_a_duplicate(
    tables: Tables,
    row: NewEmail,
    id: EmailId,
    owner: Seq<char>,
    clock_ms: int,
    rows: Seq<Seq<char>>,
)
    requires
        tables.wf(),
        row.id@ == id.text(),
        row.idempotency_key is Some,
        tables.owns_key(owner, row.idempotency_key->0@),
        tables.after(Query::InsertEmail(row), clock_ms).are_key_owners(
            row.idempotency_key->0@,
            rows,
        ),
    ensures
        tables.after(Query::InsertEmail(row), clock_ms) == tables,
        rows == seq![owner],
        uuid_parsed(owner) is Ok,
        resolution(id, Some(rows[0])) == (Ok::<SaveResult, Seq<char>>(
            if uuid_parsed(owner)->Ok_0 == id@ {
                SaveResult::Created(id)
            } else {
                SaveResult::Duplicate(EmailId { bits: uuid_parsed(owner)->Ok_0 })
            },
        )),
        uuid_parsed(owner)->Ok_0 == id@ ==> owner == id.text(),
{
    assert(tables.emails.contains_key(owner));
    assert(tables.key_taken(row));
    lemma_one_owner(tables, owner, row.idempotency_key->0@, rows);
}

/// Of two saves with the same idempotency key the second changes nothing, whatever
/// its identifier and content are.
pub proof fn law_saving_is_idempotent(
    tables: Tables,
    first: NewEmail,
    second: NewEmail,
    first_ms: int,
    second_ms: int,
)
    requires
        first.idempotency_key is Some,
        opt_text(second.idempotency_key) == opt_text(first.idempotency_key),
        tables.accepts(first),
    ensures
        tables.after(Query::InsertEmail(first), first_ms).after(
            Query::InsertEmail(second),
            second_ms,
        ) == tables.after(Query::InsertEmail(first), first_ms),
{
    let after = tables.after(Query::InsertEmail(first), first_ms);
    assert(after.emails.contains_key(first.id@));
    assert(after.owns_key(first.id@, second.idempotency_key->0@));
    assert(after.key_taken(second));
}

/// A save with a free idempotency key under an identifier that another email has
/// changes nothing, and is reported as a failure.
pub proof fn law_taken_identifier_is_reported(
    tables: Tables,
    row: NewEmail,
    id: EmailId,
    clock_ms: int,
    rows: Seq<Seq<char>>,
)
    requires
        row.id@ == id.text(),
        row.idempotency_key is Some,
        tables.emails.contains_key(id.text()),
        !tables.key_taken(row),
        tables.after(Query::InsertEmail(row), clock_ms).are_key_owners(
            row.idempotency_key->0@,
            rows,
        ),
    ensures
        tables.after(Query::InsertEmail(row), clock_ms) == tables,
        rows.len() == 0,
        resolution(id, None) == (Err::<SaveResult, Seq<char>>(
            with_context("idempotency lookup"@, "row vanished after insert"@),
        )),
{
    if rows.len() > 0 {
        assert(rows.contains(rows[0]));
        assert(tables.emails.contains_key(rows[0]));
    }
}

/// A D1 save without an idempotency key under an identifier that an email has
/// changes nothing, and is reported as a failure.
pub proof fn law_taken_identifier_without_key_is_reported(
    tables: Tables,
    row: NewEmail,
    id: EmailId,
    clock_ms: int,
    changed: u64,
)
    requires
        row.id@ == id.text(),
        row.idempotency_key is None,
        tables.emails.contains_key(id.text()),
        changed == tables.rows_inserted(row),
    ensures
        tables.after(Query::InsertEmail(row), clock_ms) == tables,
        insertion_failure(None, D1Reply::Answered(changed)) == Some(
            with_context("insert skipped"@, "no idempotency key (unexpected id collision)"@),
        ),
{
}

/// A save without an idempotency key, under an identifier that no email has,
/// stores the email, and its row is found under the identifier.
pub proof fn law_save_without_key_creates(
    tables: Tables,
    row: NewEmail,
    id: EmailId,
    asked: String,
    clock_ms: int,
    rows: Seq<Seq<char>>,
)
    requires
        row.id@ == id.text(),
        row.idempotency_key is None,
        asked@ == id.text(),
        !tables.emails.contains_key(id.text()),
        tables.after(Query::InsertEmail(row), clock_ms).answers(
            Query::IdById { id: asked },
            Answer::Ids(rows),
        ),
    ensures
        tables.after(Query::InsertEmail(row), clock_ms).emails == tables.emails.insert(
            id.text(),
            entry_of(row, clock_ms),
        ),
        rows == seq![id.text()],
        tables.rows_inserted(row) == 1,
{
    assert(!tables.key_taken(row));
}

// --- reading -----------------------------------------------------------------

/// Whether a row read for a delivery holds the texts of an email.
pub open spec fn reads_entry(row: FullRow, entry: EmailEntry) -> bool {
    &&& row.sender@ == entry.sender
    &&& opt_text(row.subject) == entry.subject
    &&& row.variables@ == entry.variables
}

/// What a delivery loads is what was saved: sender, subject, recipients and body,
/// unless the variables do not decode again; and variables whose JSON reads back
/// decode as what they were. The recipients and body columns are taken to decode as
/// what they were encoded from.
pub proof fn law_saved_email_loads_back(
    tables: Tables,
    id: EmailId,
    envelope: Envelope,
    recipients: String,
    body: String,
    row: NewEmail,
    clock_ms: int,
    asked: String,
    entries: Seq<EmailEntry>,
    read: FullRow,
    stored: StoredEmail,
)
    requires
        envelope.body.wf(),
        is_row_of(row, id, envelope, recipients, body),
        tables.accepts(row),
        asked@ == id.text(),
        tables.after(Query::InsertEmail(row), clock_ms).answers(
            Query::LoadEnvelope { email_id: asked },
            Answer::Entries(entries),
        ),
        entries.len() > 0 ==> reads_entry(read, entries[0]),
        read.recipients matches Ok(dtos) && dtos@ == recipients_dto(envelope.recipients@),
        read.body matches Ok(dto) && dto.source == body_dto(envelope.body),
        restore_failure(read) is None ==> is_restored(
            stored,
            read.sender@,
            opt_text(read.subject),
            read.recipients->Ok_0@,
            read.body->Ok_0.source,
            variables_parsed(read.variables@)->Ok_0,
        ),
    ensures
        entries.len() == 1,
        restore_failure(read) is None <==> variables_parsed(row.variables@) is Ok,
        restore_failure(read) is None ==> {
            &&& stored.sender@ == envelope.sender@
            &&& opt_text(stored.subject) == opt_text(envelope.subject)
            &&& stored.recipients@ == envelope.recipients@
            &&& stored.body == envelope.body
        },
        all_read_back(variable_values(envelope.variables)) ==> restore_failure(read) is None
            && variable_values(stored.variables) == variable_values(envelope.variables),
{
    law_body_survives_storage(envelope.body);
    law_recipients_survive_storage(envelope.recipients@);
}

/// A listed email shows what was saved: its identifier, idempotency key, subject,
/// sender and recipients, at the time it was stored. The recipients column is
/// taken to decode as what it was encoded from.
pub proof fn law_saved_email_is_listed_as_saved(
    id: EmailId,
    envelope: Envelope,
    recipients: String,
    body: String,
    row: NewEmail,
    clock_ms: int,
    read: EmailRow,
    record: EmailRecord,
)
    requires
        is_row_of(row, id, envelope, recipients, body),
        read.id@ == row.id@,
        opt_text(read.idempotency_key) == entry_of(row, clock_ms).idempotency_key,
        opt_text(read.subject) == entry_of(row, clock_ms).subject,
        read.sender@ == entry_of(row, clock_ms).sender,
        read.created_at_ms == entry_of(row, clock_ms).created_at_ms,
        read.recipients matches Ok(dtos) && dtos@ == recipients_dto(envelope.recipients@),
        row_failure(read) is None ==> is_record_of(record, read),
    ensures
        row_failure(read) is None,
        record.id == id,
        opt_text(record.idempotency_key) == opt_text(envelope.idempotency_key),
        opt_text(record.subject) == opt_text(envelope.subject),
        record.sender@ == envelope.sender@,
        record.recipients@ == envelope.recipients@,
        record.created_at_ms == clock_ms,
{
    law_recipients_survive_storage(envelope.recipients@);
}

/// What was submitted is shown again: an email that was submitted, saved, listed and
/// shown has the identifier it was saved under, and the subject, the sender and the
/// recipients, with kind and address in order, that were submitted. The recipients
/// column is taken to decode as what it was encoded from.
pub proof fn law_submitted_email_is_shown_again(
    request: SubmitRequest,
    envelope: Envelope,
    id: EmailId,
    recipients: String,
    body: String,
    row: NewEmail,
    clock_ms: int,
    read: EmailRow,
    record: EmailRecord,
    shown: EmailRecordDto,
    i: int,
)
    requires
        refusal(request) is None,
        is_envelope_of(envelope, request),
        is_row_of(row, id, envelope, recipients, body),
        read.id@ == row.id@,
        opt_text(read.idempotency_key) == opt_text(row.idempotency_key),
        opt_text(read.subject) == opt_text(row.subject),
        read.sender@ == row.sender@,
        read.created_at_ms == clock_ms,
        read.recipients matches Ok(dtos) && dtos@ == recipients_dto(envelope.recipients@),
        row_failure(read) is None ==> is_record_of(record, read),
        shows_record(shown, record),
    ensures
        shown.id@ == uuid_text(id.bits),
        shown.idempotency_key is None,
        shown.subject is Some <==> request.subject is Some,
        request.subject matches Some(subject) ==> shown.subject->0@ == subject@,
        shown.sender@ == request.sender@,
        shown.created_at_ms == clock_ms,
        shown.status@ == "queued"@,
        shown.recipients@.len() == request.recipients@.len(),
        0 <= i < request.recipients@.len() ==> {
            &&& shown.recipients@[i].address == request.recipients@[i].address
            &&& shown.recipients@[i].kind@ == request.recipients@[i].kind@
        },
{
    law_recipients_survive_storage(envelope.recipients@);
    law_envelope_has_what_was_submitted(request, envelope, i);
    law_shown_email_shows_every_field(shown, record, i);
    if 0 <= i < request.recipients@.len() {
        law_first_unknown_kind_is_found(request.recipients@);
        law_request_is_refused_for_what_is_wrong(request);
    }
}

/// A deleted email is gone for every reader, and the other emails stay.
pub proof fn law_deleted_email_is_gone(
    tables: Tables,
    id: String,
    clock_ms: int,
    entries: Seq<EmailEntry>,
    bodies: Seq<Seq<char>>,
    other: Seq<char>,
)
    requires
        tables.after(Query::DeleteEmail { id }, clock_ms).answers(
            Query::LoadEnvelope { email_id: id },
            Answer::Entries(entries),
        ),
        tables.after(Query::DeleteEmail { id }, clock_ms).answers(
            Query::ReadBody { id },
            Answer::Bodies(bodies),
        ),
    ensures
        entries.len() == 0,
        bodies.len() == 0,
        other != id@ && tables.emails.contains_key(other) ==> tables.after(
            Query::DeleteEmail { id },
            clock_ms,
        ).emails.contains_key(other) && tables.after(
            Query::DeleteEmail { id },
            clock_ms,
        ).emails[other] == tables.emails[other],
{
}

/// Deleting an email frees its idempotency key.
pub proof fn law_deleting_frees_the_key(tables: Tables, id: String, row: NewEmail, clock_ms: int)
    requires
        tables.wf(),
        row.id@ == id@,
        row.idempotency_key matches Some(key) ==> tables.owns_key(id@, key@),
    ensures
        tables.after(Query::DeleteEmail { id }, clock_ms).accepts(row),
{
    let after = tables.after(Query::DeleteEmail { id }, clock_ms);
    if after.key_taken(row) {
        let owner = choose|owner: Seq<char>|
            #![trigger after.emails.contains_key(owner)]
            row.idempotency_key is Some && after.owns_key(owner, row.idempotency_key->0@);
        assert(tables.owns_key(owner, row.idempotency_key->0@));
        assert(tables.owns_key(id@, row.idempotency_key->0@));
    }
}

/// Replacing the attachments of an email changes its body column and nothing else.
pub proof fn law_attachments_replace_only_the_body(
    tables: Tables,
    id: String,
    body: String,
    clock_ms: int,
    other: Seq<char>,
)
    requires
        tables.emails.contains_key(id@),
    ensures
        tables.after(Query::WriteBody { body, id }, clock_ms).emails.dom() == tables.emails.dom(),
        tables.after(Query::WriteBody { body, id }, clock_ms).emails[id@] == (EmailEntry {
            body: body@,
            ..tables.emails[id@]
        }),
        other != id@ && tables.emails.contains_key(other) ==> tables.after(
            Query::WriteBody { body, id },
            clock_ms,
        ).emails[other] == tables.emails[other],
{
    assert(tables.after(Query::WriteBody { body, id }, clock_ms).emails.dom()
        =~= tables.emails.dom());
}

/// The recipients of a row by what they decoded as, or the message of the decoder.
pub open spec fn recipients_read(row: FullRow) -> Result<Seq<RecipientDto>, Seq<char>> {
    match row.recipients {
        Ok(dtos) => Ok(dtos@),
        Err(message) => Err(message@),
    }
}

/// The body of a row by the source that it decoded with, or the message of the
/// decoder.
pub open spec fn source_read(row: FullRow) -> Result<BodySourceDto, Seq<char>> {
    match row.body {
        Ok(dto) => Ok(dto.source),
        Err(message) => Err(message@),
    }
}

/// Whether a row holds the columns of an email, read by the given decoders.
pub open spec fn reads_row(
    row: FullRow,
    entry: EmailEntry,
    decode_recipients: spec_fn(Seq<char>) -> Result<Seq<RecipientDto>, Seq<char>>,
    decode_source: spec_fn(Seq<char>) -> Result<BodySourceDto, Seq<char>>,
) -> bool {
    &&& reads_entry(row, entry)
    &&& recipients_read(row) == decode_recipients(entry.recipients)
    &&& source_read(row) == decode_source(entry.body)
}

/// Whether an email is what a row restores to.
pub open spec fn is_loaded(stored: StoredEmail, row: FullRow) -> bool {
    is_restored(
        stored,
        row.sender@,
        opt_text(row.subject),
        row.recipients->Ok_0@,
        row.body->Ok_0.source,
        variables_parsed(row.variables@)->Ok_0,
    )
}

/// Replacing the attachments of any email leaves every load as it was, that of the
/// email itself as well: what was not there is not there, what did not load fails
/// alike, and what loads has the same sender, subject, recipients, body and
/// variables. A column is taken to decode alike whenever it is read, and the body
/// column as what it was encoded from.
pub proof fn law_loads_do_not_depend_on_attachments(
    tables: Tables,
    id: String,
    existing: EnvelopeBodyDto,
    revised: EnvelopeBodyDto,
    body: String,
    clock_ms: int,
    decode_recipients: spec_fn(Seq<char>) -> Result<Seq<RecipientDto>, Seq<char>>,
    decode_source: spec_fn(Seq<char>) -> Result<BodySourceDto, Seq<char>>,
    asked: String,
    before: Seq<EmailEntry>,
    read_before: FullRow,
    stored_before: StoredEmail,
    after: Seq<EmailEntry>,
    read_after: FullRow,
    stored_after: StoredEmail,
)
    requires
        tables.emails.contains_key(id@),
        decode_source(tables.emails[id@].body) == (Ok::<BodySourceDto, Seq<char>>(
            existing.source,
        )),
        revised.source == existing.source,
        decode_source(body@) == (Ok::<BodySourceDto, Seq<char>>(revised.source)),
        tables.answers(Query::LoadEnvelope { email_id: asked }, Answer::Entries(before)),
        tables.after(Query::WriteBody { body, id }, clock_ms).answers(
            Query::LoadEnvelope { email_id: asked },
            Answer::Entries(after),
        ),
        before.len() > 0 ==> reads_row(read_before, before[0], decode_recipients, decode_source),
        after.len() > 0 ==> reads_row(read_after, after[0], decode_recipients, decode_source),
        restore_failure(read_before) is None ==> is_loaded(stored_before, read_before),
        restore_failure(read_after) is None ==> is_loaded(stored_after, read_after),
    ensures
        after.len() == before.len(),
        before.len() > 0 ==> restore_failure(read_after) == restore_failure(read_before),
        before.len() > 0 && restore_failure(read_before) is None ==> {
            &&& stored_after.sender@ == stored_before.sender@
            &&& opt_text(stored_after.subject) == opt_text(stored_before.subject)
            &&& stored_after.recipients@ == stored_before.recipients@
            &&& stored_after.body == stored_before.body
            &&& variable_values(stored_after.variables) == variable_values(stored_before.variables)
        },
{
}

/// A collection of all blobs misses no attachment: those of every email whose body
/// column decodes are in it.
pub proof fn law_blobs_of_every_email_are_listed(
    tables: Tables,
    bodies: Seq<Seq<char>>,
    rows: Seq<BodyRow>,
    id: Seq<char>,
    attachments: Seq<AttachmentRefDto>,
    attachment: int,
)
    requires
        tables.are_bodies(bodies),
        rows.len() == bodies.len(),
        tables.emails.contains_key(id),
        forall|i: int|
            0 <= i < bodies.len() && bodies[i] == tables.emails[id].body ==> (
            (#[trigger] rows[i]).body matches Ok(body) && body.attachments@ == attachments),
        0 <= attachment < attachments.len(),
    ensures
        blobs_of_rows(rows).contains(blob_of_dto(attachments[attachment])),
{
    let ids = choose|ids: Seq<Seq<char>>| #[trigger]
        tables.lists_ids(ids) && bodies == tables.bodies_of(ids);
    assert(ids.contains(id));
    let i = choose|i: int| 0 <= i < ids.len() && ids[i] == id;
    assert(bodies[i] == tables.emails[id].body);
    assert(rows[i].body is Ok);
    law_no_attachment_is_passed_over(rows, i, attachment);
}

/// After the attachments of an email were replaced, a collection of all blobs holds
/// the blobs of the new ones. The body column is taken to decode as what it was
/// encoded from.
pub proof fn law_replaced_attachments_are_listed(
    tables: Tables,
    id: String,
    body: String,
    clock_ms: int,
    attachments: Seq<AttachmentRef>,
    bodies: Seq<Seq<char>>,
    rows: Seq<BodyRow>,
    attachment: int,
)
    requires
        tables.emails.contains_key(id@),
        tables.after(Query::WriteBody { body, id }, clock_ms).are_bodies(bodies),
        rows.len() == bodies.len(),
        forall|i: int|
            0 <= i < bodies.len() && bodies[i] == body@ ==> ((#[trigger] rows[i]).body matches Ok(
                dto,
            ) && dto.attachments@ == attachments_dto(attachments)),
        0 <= attachment < attachments.len(),
    ensures
        blobs_of_rows(rows).contains(attachments[attachment].blob),
{
    let dtos = attachments_dto(attachments);
    law_attachment_keeps_its_blob(attachments[attachment]);
    assert(blob_of_dto(dtos[attachment]) == attachments[attachment].blob);
    law_blobs_of_every_email_are_listed(
        tables.after(Query::WriteBody { body, id }, clock_ms),
        bodies,
        rows,
        id@,
        dtos,
        attachment,
    );
}

/// Blobs by their texts, backend and key.
pub open spec fn blob_texts(blobs: Seq<BlobRef>) -> Seq<(Seq<char>, Seq<char>)> {
    blobs.map_values(|blob: BlobRef| (blob.backend@, blob.key@))
}

/// The blobs of attachments by their texts.
pub open spec fn attachment_texts(attachments: Seq<AttachmentRef>) -> Seq<
    (Seq<char>, Seq<char>),
> {
    blob_texts(attachments.map_values(|attachment: AttachmentRef| attachment.blob))
}

/// The blobs of the attachments in a row; one whose body did not decode has none.
pub open spec fn blobs_of_row(row: BodyRow) -> Seq<BlobRef> {
    match row.body {
        Ok(body) => blobs_of_body(body),
        Err(_) => Seq::empty(),
    }
}

/// Whether rows are body columns read by a decoder, which finds the given blobs in
/// a column.
pub open spec fn reads_bodies(
    rows: Seq<BodyRow>,
    bodies: Seq<Seq<char>>,
    decode: spec_fn(Seq<char>) -> Seq<(Seq<char>, Seq<char>)>,
) -> bool {
    &&& rows.len() == bodies.len()
    &&& forall|i: int|
        0 <= i < rows.len() ==> blob_texts(blobs_of_row(#[trigger] rows[i])) == decode(bodies[i])
}

/// The blobs of emails, counted.
pub open spec fn blob_count(
    tables: Tables,
    decode: spec_fn(Seq<char>) -> Seq<(Seq<char>, Seq<char>)>,
    ids: Seq<Seq<char>>,
) -> Multiset<(Seq<char>, Seq<char>)>
    decreases ids.len(),
{
    if ids.len() == 0 {
        Multiset::empty()
    } else {
        blob_count(tables, decode, ids.drop_last()).add(
            decode(tables.emails[ids.last()].body).to_multiset(),
        )
    }
}

/// The blobs of rows are those of the emails the rows were read from.
proof fn lemma_rows_count(
    tables: Tables,
    decode: spec_fn(Seq<char>) -> Seq<(Seq<char>, Seq<char>)>,
    ids: Seq<Seq<char>>,
    rows: Seq<BodyRow>,
)
    requires
        reads_bodies(rows, tables.bodies_of(ids), decode),
    ensures
        blob_texts(blobs_of_rows(rows)).to_multiset() == blob_count(tables, decode, ids),
    decreases rows.len(),
{
    broadcast use vstd::seq_lib::group_to_multiset_ensures;

    let bodies = tables.bodies_of(ids);
    if rows.len() == 0 {
        assert(blob_texts(blobs_of_rows(rows)) =~= Seq::empty());
    } else {
        let before = blobs_of_rows(rows.drop_last());
        let own = blobs_of_row(rows.last());
        assert(tables.bodies_of(ids.drop_last()) =~= bodies.drop_last());
        assert forall|i: int| 0 <= i < rows.drop_last().len() implies blob_texts(
            blobs_of_row(#[trigger] rows.drop_last()[i]),
        ) == decode(bodies.drop_last()[i]) by {
            assert(rows.drop_last()[i] == rows[i]);
        }
        lemma_rows_count(tables, decode, ids.drop_last(), rows.drop_last());
        assert(blobs_of_rows(rows) =~= before + own);
        assert(blob_texts(before + own) =~= blob_texts(before) + blob_texts(own));
        assert(rows[rows.len() - 1] == rows.last());
        vstd::seq_lib::lemma_multiset_commutative(blob_texts(before), blob_texts(own));
    }
}

/// The blobs of one email can be counted last.
proof fn lemma_count_apart(
    tables: Tables,
    decode: spec_fn(Seq<char>) -> Seq<(Seq<char>, Seq<char>)>,
    ids: Seq<Seq<char>>,
    at: int,
)
    requires
        0 <= at < ids.len(),
    ensures
        blob_count(tables, decode, ids) == blob_count(tables, decode, ids.remove(at)).add(
            decode(tables.emails[ids[at]].body).to_multiset(),
        ),
    decreases ids.len(),
{
    if at < ids.len() - 1 {
        lemma_count_apart(tables, decode, ids.drop_last(), at);
        assert(ids.remove(at).drop_last() =~= ids.drop_last().remove(at));
        assert(ids.remove(at).last() == ids.last());
        assert(ids.drop_last()[at] == ids[at]);
        assert(blob_count(tables, decode, ids) =~= blob_count(
            tables,
            decode,
            ids.remove(at),
        ).add(decode(tables.emails[ids[at]].body).to_multiset()));
    } else {
        assert(ids.remove(at) =~= ids.drop_last());
    }
}

/// The count does not depend on the order of the emails, nor on an email that is
/// not among them.
proof fn lemma_count_unordered(
    left: Tables,
    right: Tables,
    decode: spec_fn(Seq<char>) -> Seq<(Seq<char>, Seq<char>)>,
    left_ids: Seq<Seq<char>>,
    right_ids: Seq<Seq<char>>,
)
    requires
        left_ids.no_duplicates(),
        right_ids.no_duplicates(),
        forall|id: Seq<char>| #[trigger] left_ids.contains(id) <==> right_ids.contains(id),
        forall|id: Seq<char>| #[trigger]
            left_ids.contains(id) ==> left.emails[id].body == right.emails[id].body,
    ensures
        blob_count(left, decode, left_ids) == blob_count(right, decode, right_ids),
    decreases left_ids.len(),
{
    if left_ids.len() == 0 {
        if right_ids.len() > 0 {
            assert(right_ids.contains(right_ids[0]));
            assert(left_ids.contains(right_ids[0]));
        }
    } else {
        let id = left_ids.last();
        assert(left_ids.contains(id));
        assert(right_ids.contains(id));
        let at = choose|at: int| 0 <= at < right_ids.len() && right_ids[at] == id;
        let left_rest = left_ids.drop_last();
        let right_rest = right_ids.remove(at);
        lemma_rest(left_ids, left_ids.len() - 1);
        lemma_rest(right_ids, at);
        assert(left_ids.remove(left_ids.len() - 1) =~= left_rest);
        assert forall|other: Seq<char>| #[trigger]
            left_rest.contains(other) implies left.emails[other].body
            == right.emails[other].body by {
            assert(left_ids.contains(other));
        }
        assert forall|other: Seq<char>| #[trigger]
            left_rest.contains(other) <==> right_rest.contains(other) by {
            assert(left_ids.contains(other) <==> right_ids.contains(other));
        }
        lemma_count_unordered(left, right, decode, left_rest, right_rest);
        lemma_count_apart(right, decode, right_ids, at);
    }
}

/// Without one of its elements, a sequence of distinct elements holds the others.
proof fn lemma_rest(ids: Seq<Seq<char>>, at: int)
    requires
        ids.no_duplicates(),
        0 <= at < ids.len(),
    ensures
        ids.remove(at).no_duplicates(),
        forall|id: Seq<char>| #[trigger]
            ids.remove(at).contains(id) <==> ids.contains(id) && id != ids[at],
{
    let rest = ids.remove(at);
    assert forall|id: Seq<char>| #[trigger] rest.contains(id) <==> ids.contains(id) && id
        != ids[at] by {
        if rest.contains(id) {
            let k = choose|k: int| 0 <= k < rest.len() && rest[k] == id;
            let source = if k < at {
                k
            } else {
                k + 1
            };
            assert(ids[source] == id);
        }
        if ids.contains(id) && id != ids[at] {
            let k = choose|k: int| 0 <= k < ids.len() && ids[k] == id;
            let target = if k < at {
                k
            } else {
                k - 1
            };
            assert(rest[target] == id);
        }
    }
}

/// Replacing the attachments of an email takes the blobs of the old ones out of the
/// collection of all blobs and puts those of the new ones in; every other blob
/// stays, as often as it was there. A body column is taken to decode alike whenever
/// it is read, and as what it was encoded from.
pub proof fn law_replaced_attachments_change_places(
    tables: Tables,
    id: String,
    body: String,
    clock_ms: int,
    old_attachments: Seq<AttachmentRef>,
    new_attachments: Seq<AttachmentRef>,
    decode: spec_fn(Seq<char>) -> Seq<(Seq<char>, Seq<char>)>,
    before: Seq<Seq<char>>,
    rows_before: Seq<BodyRow>,
    after: Seq<Seq<char>>,
    rows_after: Seq<BodyRow>,
)
    requires
        tables.emails.contains_key(id@),
        tables.are_bodies(before),
        reads_bodies(rows_before, before, decode),
        tables.after(Query::WriteBody { body, id }, clock_ms).are_bodies(after),
        reads_bodies(rows_after, after, decode),
        decode(tables.emails[id@].body) == attachment_texts(old_attachments),
        decode(body@) == attachment_texts(new_attachments),
    ensures
        attachment_texts(old_attachments).to_multiset().subset_of(
            blob_texts(blobs_of_rows(rows_before)).to_multiset(),
        ),
        blob_texts(blobs_of_rows(rows_after)).to_multiset() == blob_texts(
            blobs_of_rows(rows_before),
        ).to_multiset().sub(attachment_texts(old_attachments).to_multiset()).add(
            attachment_texts(new_attachments).to_multiset(),
        ),
{
    let changed = tables.after(Query::WriteBody { body, id }, clock_ms);
    let ids_before = choose|ids: Seq<Seq<char>>| #[trigger]
        tables.lists_ids(ids) && before == tables.bodies_of(ids);
    let ids_after = choose|ids: Seq<Seq<char>>| #[trigger]
        changed.lists_ids(ids) && after == changed.bodies_of(ids);
    lemma_rows_count(tables, decode, ids_before, rows_before);
    lemma_rows_count(changed, decode, ids_after, rows_after);
    assert(ids_before.contains(id@));
    assert(changed.emails.contains_key(id@));
    assert(ids_after.contains(id@));
    let at_before = choose|at: int| 0 <= at < ids_before.len() && ids_before[at] == id@;
    let at_after = choose|at: int| 0 <= at < ids_after.len() && ids_after[at] == id@;
    lemma_count_apart(tables, decode, ids_before, at_before);
    lemma_count_apart(changed, decode, ids_after, at_after);
    lemma_rest(ids_before, at_before);
    lemma_rest(ids_after, at_after);
    let others_before = ids_before.remove(at_before);
    let others_after = ids_after.remove(at_after);
    assert forall|other: Seq<char>| #[trigger]
        others_before.contains(other) <==> others_after.contains(other) by {
        assert(ids_before.contains(other) <==> tables.emails.contains_key(other));
        assert(ids_after.contains(other) <==> changed.emails.contains_key(other));
    }
    assert forall|other: Seq<char>| #[trigger]
        others_before.contains(other) implies tables.emails[other].body
        == changed.emails[other].body by {
        assert(ids_before.contains(other) && other != id@);
    }
    lemma_count_unordered(tables, changed, decode, others_before, others_after);
    let rest = blob_count(tables, decode, others_before);
    let old_blobs = decode(tables.emails[id@].body).to_multiset();
    assert(rest.add(old_blobs).sub(old_blobs) =~= rest);
}

// --- listing -----------------------------------------------------------------

/// Of two texts at most one stands before the other.
proof fn lemma_text_order(left: Seq<char>, right: Seq<char>)
    ensures
        !(text_before(left, right) && text_before(right, left)),
    decreases left.len(),
{
    if left.len() > 0 && right.len() > 0 {
        lemma_text_order(left.drop_first(), right.drop_first());
    }
}

/// Two listings of the same emails agree in every element up to `count`.
proof fn lemma_listings_agree(
    tables: Tables,
    filter: ListFilter,
    left: Seq<(Seq<char>, EmailEntry)>,
    right: Seq<(Seq<char>, EmailEntry)>,
    count: int,
)
    requires
        tables.is_listing(filter, left),
        tables.is_listing(filter, right),
        0 <= count <= left.len(),
    ensures
        count <= right.len(),
        left.take(count) == right.take(count),
    decreases count,
{
    if count > 0 {
        let i = count - 1;
        lemma_listings_agree(tables, filter, left, right, i);
        let element = left[i];
        assert(tables.emails.contains_key(element.0));
        assert(right.contains(element));
        let k = choose|k: int| 0 <= k < right.len() && right[k] == element;
        lemma_text_order(element.0, element.0);
        if k < i {
            assert(left.take(i)[k] == right.take(i)[k]);
            assert(listed_before(left[k], left[i]));
        }
        if k > i {
            let rival = right[i];
            assert(tables.emails.contains_key(rival.0));
            assert(left.contains(rival));
            let m = choose|m: int| 0 <= m < left.len() && left[m] == rival;
            assert(listed_before(right[i], right[k]));
            lemma_text_order(rival.0, element.0);
            if m < i {
                assert(left.take(i)[m] == right.take(i)[m]);
                assert(listed_before(right[m], right[i]));
                lemma_text_order(rival.0, rival.0);
            } else if m > i {
                assert(listed_before(left[i], left[m]));
            }
        }
        assert(k == i);
        assert(left.take(count) =~= left.take(i).push(element));
        assert(right.take(count) =~= right.take(i).push(element));
    } else {
        assert(left.take(0) =~= right.take(0));
    }
}

/// There is one listing of the emails that a filter lets through.
pub proof fn law_listing_is_determined(
    tables: Tables,
    filter: ListFilter,
    left: Seq<(Seq<char>, EmailEntry)>,
    right: Seq<(Seq<char>, EmailEntry)>,
)
    requires
        tables.is_listing(filter, left),
        tables.is_listing(filter, right),
    ensures
        left == right,
{
    lemma_listings_agree(tables, filter, left, right, left.len() as int);
    lemma_listings_agree(tables, filter, right, left, right.len() as int);
    assert(left.take(left.len() as int) =~= left);
    assert(right.take(right.len() as int) =~= right);
}

/// A page holds at most `limit` emails, each of them stored and let through by the
/// filter, the newest first and none of them twice.
pub proof fn law_page_keeps_to_the_request(
    tables: Tables,
    filter: ListFilter,
    limit: nat,
    offset: nat,
    rows: Seq<(Seq<char>, EmailEntry)>,
)
    requires
        tables.is_page(filter, limit, offset, rows),
    ensures
        rows.len() <= limit,
        forall|i: int|
            0 <= i < rows.len() ==> tables.emails.contains_key((#[trigger] rows[i]).0)
                && tables.emails[rows[i].0] == rows[i].1 && filter.matches(rows[i].0, rows[i].1),
        forall|i: int, j: int|
            0 <= i < j < rows.len() ==> listed_before(#[trigger] rows[i], #[trigger] rows[j])
                && rows[i].0 != rows[j].0,
{
    let all = choose|all: Seq<(Seq<char>, EmailEntry)>| #[trigger]
        tables.is_listing(filter, all) && rows == page_of(all, limit, offset);
    let start = if offset <= all.len() {
        offset as int
    } else {
        all.len() as int
    };
    assert forall|i: int| 0 <= i < rows.len() implies tables.emails.contains_key(
        (#[trigger] rows[i]).0,
    ) && tables.emails[rows[i].0] == rows[i].1 && filter.matches(rows[i].0, rows[i].1) by {
        assert(rows[i] == all[start + i]);
    }
    assert forall|i: int, j: int| 0 <= i < j < rows.len() implies listed_before(
        #[trigger] rows[i],
        #[trigger] rows[j],
    ) && rows[i].0 != rows[j].0 by {
        assert(rows[i] == all[start + i]);
        assert(rows[j] == all[start + j]);
        assert(tables.emails.contains_key(rows[i].0));
        assert(tables.emails.contains_key(rows[j].0));
        lemma_text_order(rows[i].0, rows[i].0);
    }
}

/// A first page that is not full holds every email that the filter lets through.
pub proof fn law_short_page_is_complete(
    tables: Tables,
    filter: ListFilter,
    limit: nat,
    rows: Seq<(Seq<char>, EmailEntry)>,
    id: Seq<char>,
)
    requires
        tables.is_page(filter, limit, 0, rows),
        rows.len() < limit,
        tables.emails.contains_key(id),
        filter.matches(id, tables.emails[id]),
    ensures
        rows.contains((id, tables.emails[id])),
{
    let all = choose|all: Seq<(Seq<char>, EmailEntry)>| #[trigger]
        tables.is_listing(filter, all) && rows == page_of(all, limit, 0);
    assert(rows =~= all);
}

/// Consecutive pages of the same tables make up one long page: nothing is left out
/// between them and nothing is shown twice.
pub proof fn law_pages_follow_each_other(
    tables: Tables,
    filter: ListFilter,
    limit: nat,
    next_limit: nat,
    offset: nat,
    rows: Seq<(Seq<char>, EmailEntry)>,
    next_rows: Seq<(Seq<char>, EmailEntry)>,
)
    requires
        tables.is_page(filter, limit, offset, rows),
        tables.is_page(filter, next_limit, offset + limit, next_rows),
    ensures
        tables.is_page(filter, limit + next_limit, offset, rows + next_rows),
{
    let all = choose|all: Seq<(Seq<char>, EmailEntry)>| #[trigger]
        tables.is_listing(filter, all) && rows == page_of(all, limit, offset);
    let next_all = choose|all: Seq<(Seq<char>, EmailEntry)>| #[trigger]
        tables.is_listing(filter, all) && next_rows == page_of(all, next_limit, offset + limit);
    law_listing_is_determined(tables, filter, all, next_all);
    assert(rows + next_rows =~= page_of(all, limit + next_limit, offset));
}

} // verus!
