//! The rows the database gives back, with their JSON columns decoded, and what
//! is made of them.
use crate::dto::{
    blob_of_dto, recipients_from_dto, recipients_of_dto, AttachmentRefDto, EnvelopeBodyDto,
    RecipientDto,
};
use crate::email::{BlobRef, EmailRecord, EmailStatus, ListEmailsParams};
use crate::error::{storage, EmailRepositoryError};
use crate::id::{parsed_bits, uuid_parsed, uuid_text, EmailId};
use crate::query::Query;
use crate::text::with_context;
use vstd::prelude::*;

verus! {

/// A listed email. The recipients column is decoded, or holds the message of the
/// decoder.
#[derive(Debug)]
pub struct EmailRow {
    pub id: String,
    pub idempotency_key: Option<String>,
    pub subject: Option<String>,
    pub sender: String,
    pub recipients: Result<Vec<RecipientDto>, String>,
    pub created_at_ms: i64,
}

/// The identifier of an email.
#[derive(Debug)]
pub struct IdRow {
    pub id: String,
}

/// The body column of an email, decoded, or the message of the decoder.
#[derive(Debug)]
pub struct BodyRow {
    pub body: Result<EnvelopeBodyDto, String>,
}

/// Why a listed row is no email: its identifier does not parse, or its recipients
/// did not decode.
pub open spec fn row_failure(row: EmailRow) -> Option<Seq<char>> {
    row_failure_with(uuid_parsed(row.id@), row)
}

/// Why a listed row is no email, given what its identifier parses as.
pub open spec fn row_failure_with(parsed: Result<u128, Seq<char>>, row: EmailRow) -> Option<
    Seq<char>,
> {
    match parsed {
        Err(message) => Some(with_context("parsing row id"@, message)),
        Ok(_) => match row.recipients {
            Err(message) => Some(with_context("decoding recipients"@, message@)),
            Ok(_) => None,
        },
    }
}

/// Whether a record is the email of a row. Every listed email counts as queued.
pub open spec fn is_record_of(record: EmailRecord, row: EmailRow) -> bool {
    is_record_with(record, uuid_parsed(row.id@), row)
}

/// Whether a record is the email of a row, given what its identifier parses as.
pub open spec fn is_record_with(
    record: EmailRecord,
    parsed: Result<u128, Seq<char>>,
    row: EmailRow,
) -> bool {
    &&& parsed == (Ok::<u128, Seq<char>>(record.id@))
    &&& record.idempotency_key == row.idempotency_key
    &&& record.subject == row.subject
    &&& record.sender == row.sender
    &&& row.recipients matches Ok(dtos) && record.recipients@ == recipients_of_dto(dtos@)
    &&& record.created_at_ms == row.created_at_ms
    &&& record.status == EmailStatus::Queued
}

/// The email of a row.
pub fn record_of_row(row: EmailRow) -> (decoded: Result<EmailRecord, EmailRepositoryError>)
    ensures
        match row_failure(row) {
            Some(message) => decoded matches Err(error) && error.message() == message,
            None => decoded matches Ok(record) && is_record_of(record, row),
        },
{
    let parsed = EmailId::parse(row.id.as_str());
    record_with(parsed, row)
}

/// The email of a row, given what its identifier parses as.
pub fn record_with(parsed: Result<EmailId, String>, row: EmailRow) -> (decoded: Result<
    EmailRecord,
    EmailRepositoryError,
>)
    ensures
        match row_failure_with(parsed_bits(parsed), row) {
            Some(message) => decoded matches Err(error) && error.message() == message,
            None => decoded matches Ok(record) && is_record_with(record, parsed_bits(parsed), row),
        },
        match parsed {
            Err(message) => decoded matches Err(error) && error.message() == "parsing row id: "@
                + message@,
            Ok(id) => match row.recipients {
                Err(message) => decoded matches Err(error) && error.message()
                    == "decoding recipients: "@ + message@,
                Ok(dtos) => decoded matches Ok(record) && {
                    &&& record.id == id
                    &&& record.idempotency_key == row.idempotency_key
                    &&& record.subject == row.subject
                    &&& record.sender == row.sender
                    &&& record.recipients@ == recipients_of_dto(dtos@)
                    &&& record.created_at_ms == row.created_at_ms
                    &&& record.status is Queued
                },
            },
        },
{
    proof {
        reveal_strlit("parsing row id: ");
        reveal_strlit("parsing row id");
        reveal_strlit("decoding recipients: ");
        reveal_strlit("decoding recipients");
        reveal_strlit(": ");
        assert("parsing row id: "@ =~= "parsing row id"@ + ": "@);
        assert("decoding recipients: "@ =~= "decoding recipients"@ + ": "@);
    }
    match parsed {
        Err(message) => Err(storage("parsing row id", message.as_str())),
        Ok(id) => match row.recipients {
            Err(message) => Err(storage("decoding recipients", message.as_str())),
            Ok(dtos) => Ok(
                EmailRecord {
                    id,
                    idempotency_key: row.idempotency_key,
                    subject: row.subject,
                    sender: row.sender,
                    recipients: recipients_from_dto(dtos),
                    created_at_ms: row.created_at_ms,
                    status: EmailStatus::Queued,
                },
            ),
        },
    }
}

/// Whether the rows of a listing came out as `decoded`: every row as its record,
/// in order, or the failure of the first row that is no email.
pub open spec fn are_records(
    decoded: Result<Vec<EmailRecord>, EmailRepositoryError>,
    rows: Seq<EmailRow>,
) -> bool {
    match decoded {
        Ok(records) => {
            &&& records@.len() == rows.len()
            &&& forall|i: int|
                #![trigger records@[i]]
                #![trigger rows[i]]
                0 <= i < rows.len() ==> row_failure(rows[i]) is None && is_record_of(
                    records@[i],
                    rows[i],
                )
        },
        Err(error) => exists|i: int|
            {
                &&& 0 <= i < rows.len()
                &&& row_failure(#[trigger] rows[i]) == Some(error.message())
                &&& forall|j: int| 0 <= j < i ==> row_failure(#[trigger] rows[j]) is None
            },
    }
}

/// The emails of the rows, in order; the first row that is no email fails the
/// whole.
pub fn records_of_rows(rows: Vec<EmailRow>) -> (decoded: Result<
    Vec<EmailRecord>,
    EmailRepositoryError,
>)
    ensures
        are_records(decoded, rows@),
{
    let mut records: Vec<EmailRecord> = Vec::new();
    let ghost all = rows@;
    for row in rest: rows
        invariant
            rest.seq() == all,
            records@.len() == rest.index(),
            forall|i: int|
                #![trigger records@[i]]
                #![trigger all[i]]
                0 <= i < rest.index() ==> row_failure(all[i]) is None && is_record_of(
                    records@[i],
                    all[i],
                ),
    {
        assert(row == all[rest.index() as int]);
        match record_of_row(row) {
            Ok(record) => records.push(record),
            Err(error) => {
                return Err(error);
            },
        }
    }
    Ok(records)
}

/// Whether a query asks for the page of emails that the parameters describe. The
/// filters on status, recipient and template are not applied.
pub open spec fn is_list_query(query: Query, params: ListEmailsParams) -> bool {
    &&& query matches Query::ListEmails { only_id, after_ms, before_ms, limit, offset }
    &&& match params.id {
        Some(wanted) => only_id matches Some(text) && text@ == wanted.text(),
        None => only_id is None,
    }
    &&& after_ms == params.after_ms
    &&& before_ms == params.before_ms
    &&& limit == params.limit
    &&& offset == params.offset
}

/// The query for the page of emails that the parameters describe.
pub fn list_query(params: &ListEmailsParams) -> (query: Query)
    ensures
        is_list_query(query, *params),
        query matches Query::ListEmails { only_id, after_ms, before_ms, limit, offset } && {
            &&& params.id matches Some(id) ==> only_id matches Some(text) && text@ == uuid_text(
                id.bits,
            )
            &&& params.id is None ==> only_id is None
            &&& after_ms == params.after_ms
            &&& before_ms == params.before_ms
            &&& limit == params.limit
            &&& offset == params.offset
        },
{
    Query::ListEmails {
        only_id: match params.id {
            Some(id) => Some(id.to_text()),
            None => None,
        },
        after_ms: params.after_ms,
        before_ms: params.before_ms,
        limit: params.limit,
        offset: params.offset,
    }
}

/// The blobs of the attachments of a body.
pub open spec fn blobs_of_body(body: EnvelopeBodyDto) -> Seq<BlobRef> {
    body.attachments@.map_values(|dto: AttachmentRefDto| blob_of_dto(dto))
}

/// The blobs of the attachments of all bodies that decoded, in order.
pub open spec fn blobs_of_rows(rows: Seq<BodyRow>) -> Seq<BlobRef>
    decreases rows.len(),
{
    if rows.len() == 0 {
        Seq::empty()
    } else {
        let before = blobs_of_rows(rows.drop_last());
        match rows.last().body {
            Ok(body) => before + blobs_of_body(body),
            Err(_) => before,
        }
    }
}

/// Collects the blobs of the attachments of all bodies; a body that did not
/// decode is passed over.
pub fn collect_blobs(rows: Vec<BodyRow>) -> (blobs: Vec<BlobRef>)
    ensures
        blobs@ == blobs_of_rows(rows@),
{
    let mut blobs: Vec<BlobRef> = Vec::new();
    let ghost all = rows@;
    for row in rest: rows
        invariant
            rest.seq() == all,
            blobs@ == blobs_of_rows(all.take(rest.index() as int)),
    {
        let ghost done = rest.index() as int;
        let ghost before = blobs@;
        proof {
            assert(row == all[done]);
            assert(all.take(done + 1).drop_last() =~= all.take(done));
        }
        match row.body {
            Ok(body) => {
                let ghost attachments = body.attachments@;
                for attachment in inner: body.attachments
                    invariant
                        inner.seq() == attachments,
                        blobs@ == before + attachments.take(inner.index() as int).map_values(
                            |dto: AttachmentRefDto| blob_of_dto(dto),
                        ),
                {
                    proof {
                        let k = inner.index() as int;
                        assert(attachment == attachments[k]);
                        assert(attachments.take(k + 1) =~= attachments.take(k).push(
                            attachments[k],
                        ));
                    }
                    blobs.push(
                        BlobRef { backend: attachment.blob.backend, key: attachment.blob.key },
                    );
                }
                assert(attachments.take(attachments.len() as int) =~= attachments);
            },
            Err(_) => {},
        }
    }
    assert(all.take(all.len() as int) =~= all);
    blobs
}

/// Every attachment of a body that decoded is among the collected blobs.
pub proof fn law_no_attachment_is_passed_over(rows: Seq<BodyRow>, row: int, attachment: int)
    requires
        0 <= row < rows.len(),
        rows[row].body is Ok,
        0 <= attachment < rows[row].body->Ok_0.attachments@.len(),
    ensures
        blobs_of_rows(rows).contains(
            blob_of_dto(rows[row].body->Ok_0.attachments@[attachment]),
        ),
    decreases rows.len(),
{
    let blob = blob_of_dto(rows[row].body->Ok_0.attachments@[attachment]);
    let before = blobs_of_rows(rows.drop_last());
    if row == rows.len() - 1 {
        let own = blobs_of_body(rows.last().body->Ok_0);
        assert(own[attachment] == blob);
        assert((before + own)[before.len() + attachment] == blob);
    } else {
        law_no_attachment_is_passed_over(rows.drop_last(), row, attachment);
        let at = choose|at: int| 0 <= at < before.len() && before[at] == blob;
        assert(blobs_of_rows(rows)[at] == blob);
    }
}

/// A row fails by its identifier first and by its recipients next, and by nothing
/// else.
pub proof fn law_row_fails_by_identifier_then_recipients(row: EmailRow)
    ensures
        row_failure(row) is None <==> uuid_parsed(row.id@) is Ok && row.recipients is Ok,
        uuid_parsed(row.id@) matches Err(message) ==> row_failure(row) == Some(
            "parsing row id"@ + ": "@ + message,
        ),
        uuid_parsed(row.id@) is Ok ==> (row.recipients matches Err(message) ==> row_failure(row)
            == Some("decoding recipients"@ + ": "@ + message@)),
{
}

/// A record has every column of its row: the identifier, the idempotency key, the
/// subject, the sender, every recipient with kind and address in order, and the
/// creation time. It counts as queued.
pub proof fn law_record_keeps_every_column(record: EmailRecord, row: EmailRow, i: int)
    requires
        is_record_of(record, row),
    ensures
        uuid_parsed(row.id@) == (Ok::<u128, Seq<char>>(record.id.bits)),
        record.idempotency_key == row.idempotency_key,
        record.subject == row.subject,
        record.sender == row.sender,
        record.created_at_ms == row.created_at_ms,
        record.status is Queued,
        row.recipients matches Ok(dtos) && record.recipients@.len() == dtos@.len() && (0 <= i
            < dtos@.len() ==> {
            &&& record.recipients@[i].1 == dtos@[i].address
            &&& record.recipients@[i].0 is To <==> dtos@[i].kind is To
            &&& record.recipients@[i].0 is Cc <==> dtos@[i].kind is Cc
            &&& record.recipients@[i].0 is Bcc <==> dtos@[i].kind is Bcc
        }),
{
}

/// A listing that succeeds has one record for each row, in order; one that fails
/// gives the failure of the first row that is no email, and then some row is none.
pub proof fn law_listing_is_whole_or_fails(
    decoded: Result<Vec<EmailRecord>, EmailRepositoryError>,
    rows: Seq<EmailRow>,
)
    requires
        are_records(decoded, rows),
    ensures
        decoded is Ok <==> (forall|i: int|
            0 <= i < rows.len() ==> uuid_parsed((#[trigger] rows[i]).id@) is Ok
                && rows[i].recipients is Ok),
        decoded matches Ok(records) ==> records@.len() == rows.len() && (forall|i: int|
            0 <= i < rows.len() ==> {
                &&& uuid_parsed(rows[i].id@) == (Ok::<u128, Seq<char>>(
                    (#[trigger] records@[i]).id.bits,
                ))
                &&& records@[i].sender == rows[i].sender
                &&& records@[i].subject == rows[i].subject
                &&& records@[i].idempotency_key == rows[i].idempotency_key
                &&& records@[i].created_at_ms == rows[i].created_at_ms
            }),
        decoded matches Err(error) ==> exists|i: int|
            {
                &&& 0 <= i < rows.len()
                &&& match uuid_parsed((#[trigger] rows[i]).id@) {
                    Err(message) => error.message() == "parsing row id"@ + ": "@ + message,
                    Ok(_) => rows[i].recipients matches Err(message) && error.message()
                        == "decoding recipients"@ + ": "@ + message@,
                }
                &&& forall|j: int|
                    0 <= j < i ==> uuid_parsed((#[trigger] rows[j]).id@) is Ok
                        && rows[j].recipients is Ok
            },
{
    if let Err(error) = decoded {
        let i = choose|i: int|
            {
                &&& 0 <= i < rows.len()
                &&& row_failure(#[trigger] rows[i]) == Some(error.message())
                &&& forall|j: int| 0 <= j < i ==> row_failure(#[trigger] rows[j]) is None
            };
        assert(row_failure(rows[i]) is Some);
        assert forall|j: int| 0 <= j < i implies uuid_parsed((#[trigger] rows[j]).id@) is Ok
            && rows[j].recipients is Ok by {
            assert(row_failure(rows[j]) is None);
        }
    }
}

/// The query of a listing asks for what its parameters ask for, each bound in its
/// own place.
pub proof fn law_listing_asks_for_its_parameters(query: Query, params: ListEmailsParams)
    requires
        is_list_query(query, params),
    ensures
        query matches Query::ListEmails { only_id, after_ms, before_ms, limit, offset } && {
            &&& only_id is Some <==> params.id is Some
            &&& params.id matches Some(id) ==> only_id->0@ == uuid_text(id.bits)
            &&& after_ms == params.after_ms
            &&& before_ms == params.before_ms
            &&& limit == params.limit
            &&& offset == params.offset
        },
{
}

/// The blobs of rows are the blobs of the one part followed by those of the other;
/// a row gives one blob for each of its attachments, with its backend and key, in
/// order, and none where its body did not decode.
pub proof fn law_blobs_are_those_of_each_row(
    left: Seq<BodyRow>,
    right: Seq<BodyRow>,
    row: BodyRow,
    i: int,
)
    ensures
        blobs_of_rows(Seq::empty()).len() == 0,
        blobs_of_rows(left + right) == blobs_of_rows(left) + blobs_of_rows(right),
        row.body is Err ==> blobs_of_rows(seq![row]).len() == 0,
        row.body matches Ok(body) ==> blobs_of_rows(seq![row]).len() == body.attachments@.len(),
        row.body matches Ok(body) ==> (0 <= i < body.attachments@.len() ==> blobs_of_rows(
            seq![row],
        )[i].backend == body.attachments@[i].blob.backend && blobs_of_rows(seq![row])[i].key
            == body.attachments@[i].blob.key),
    decreases right.len(),
{
    let single = seq![row];
    assert(single.drop_last() =~= Seq::empty());
    assert(blobs_of_rows(single.drop_last()) =~= Seq::empty());
    if let Ok(body) = row.body {
        assert(blobs_of_rows(single) =~= blobs_of_body(body));
    }
    if right.len() == 0 {
        assert(left + right =~= left);
        assert(blobs_of_rows(left) + blobs_of_rows(right) =~= blobs_of_rows(left));
    } else {
        law_blobs_are_those_of_each_row(left, right.drop_last(), row, i);
        assert((left + right).drop_last() =~= left + right.drop_last());
        assert((left + right).last() == right.last());
        assert(blobs_of_rows(left + right) =~= blobs_of_rows(left) + blobs_of_rows(right));
    }
}

} // verus!
