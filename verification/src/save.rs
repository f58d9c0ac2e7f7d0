//! The steps of storing an email that the adapters share.
use crate::dto::{
    attachments_dto, attachments_to_dto, body_dto, recipients_dto, recipients_to_dto,
    BodySourceDto, EnvelopeBodyDto, RecipientDto,
};
use crate::email::{AttachmentRef, Envelope, SaveResult};
use crate::error::{outcome, storage, EmailRepositoryError};
use crate::id::{parsed_bits, uuid_parsed, uuid_text, EmailId};
use crate::query::{NewEmail, Query};
use crate::rows::{BodyRow, IdRow};
use crate::text::with_context;
use crate::variables::{
    all_read_back, encode_variables, variable_values, variables_json, variables_parsed, JsonTree,
};
use vstd::prelude::*;

verus! {

/// The stored shapes of an envelope, to be encoded as JSON.
#[derive(Debug)]
pub struct WireEnvelope {
    pub recipients: Vec<RecipientDto>,
    pub body: EnvelopeBodyDto,
}

/// The JSON texts of a [`WireEnvelope`], or the messages of the encoder.
#[derive(Debug)]
pub struct EncodedEnvelope {
    pub recipients: Result<String, String>,
    pub body: Result<String, String>,
}

/// What to do next to store an email.
#[derive(Debug)]
pub enum SaveStep {
    /// Run this query and hand back its answer.
    Ask(Query),
    /// The save is over.
    Done(Result<SaveResult, EmailRepositoryError>),
}

/// The stored shapes of an envelope.
pub fn wire_envelope(envelope: &Envelope) -> (wire: WireEnvelope)
    ensures
        wire.recipients@ == recipients_dto(envelope.recipients@),
        wire.body.source == body_dto(envelope.body),
        wire.body.attachments@ == attachments_dto(envelope.attachments@),
        wire.recipients@.len() == envelope.recipients@.len(),
        forall|i: int|
            0 <= i < envelope.recipients@.len() ==> (#[trigger] wire.recipients@[i]).address
                == envelope.recipients@[i].1,
        wire.body.attachments@.len() == envelope.attachments@.len(),
        forall|i: int|
            0 <= i < envelope.attachments@.len() ==> {
                &&& (#[trigger] wire.body.attachments@[i]).filename
                    == envelope.attachments@[i].filename
                &&& wire.body.attachments@[i].content_type == envelope.attachments@[i].content_type
                &&& wire.body.attachments@[i].size_bytes == envelope.attachments@[i].size_bytes
                &&& wire.body.attachments@[i].blob.backend == envelope.attachments@[i].blob.backend
                &&& wire.body.attachments@[i].blob.key == envelope.attachments@[i].blob.key
            },
{
    WireEnvelope {
        recipients: recipients_to_dto(envelope.recipients.as_slice()),
        body: EnvelopeBodyDto {
            source: BodySourceDto::from(&envelope.body),
            attachments: attachments_to_dto(envelope.attachments.as_slice()),
        },
    }
}

/// Whether `row` holds the columns of an envelope: its own texts, and the texts
/// its recipients, body and variables were encoded as.
pub open spec fn is_row_of(
    row: NewEmail,
    id: EmailId,
    envelope: Envelope,
    recipients: String,
    body: String,
) -> bool {
    &&& is_row_with(row, id, envelope, recipients, body)
    &&& variables_json(variable_values(envelope.variables)) == (Ok::<Seq<char>, Seq<char>>(
        row.variables@,
    ))
    &&& all_read_back(variable_values(envelope.variables)) ==> variables_parsed(row.variables@)
        == (Ok::<Map<Seq<char>, JsonTree>, Seq<char>>(variable_values(envelope.variables)))
}

/// Whether `row` holds the columns of an envelope, whatever its variables were
/// encoded as.
pub open spec fn is_row_with(
    row: NewEmail,
    id: EmailId,
    envelope: Envelope,
    recipients: String,
    body: String,
) -> bool {
    &&& row.id@ == id.text()
    &&& uuid_parsed(row.id@) == (Ok::<u128, Seq<char>>(id@))
    &&& row.idempotency_key == envelope.idempotency_key
    &&& row.correlation_id == envelope.correlation_id
    &&& row.subject == envelope.subject
    &&& row.sender == envelope.sender
    &&& row.recipients == recipients
    &&& row.body == body
}

/// Why an envelope cannot be stored: one of its parts did not encode.
pub open spec fn encoding_failure(envelope: Envelope, encoded: EncodedEnvelope) -> Option<
    Seq<char>,
> {
    encoding_failure_with(encoded, variables_json(variable_values(envelope.variables)))
}

/// Why an envelope cannot be stored, given what its variables were encoded as.
pub open spec fn encoding_failure_with(
    encoded: EncodedEnvelope,
    variables: Result<Seq<char>, Seq<char>>,
) -> Option<Seq<char>> {
    match encoded.recipients {
        Err(message) => Some(with_context("encoding recipients"@, message@)),
        Ok(_) => match encoded.body {
            Err(message) => Some(with_context("encoding body"@, message@)),
            Ok(_) => match variables {
                Err(message) => Some(with_context("encoding variables"@, message)),
                Ok(_) => None,
            },
        },
    }
}

/// The query that stores an envelope under an identifier.
pub fn insert_query(id: EmailId, envelope: &Envelope, encoded: EncodedEnvelope) -> (made: Result<
    Query,
    EmailRepositoryError,
>)
    ensures
        match encoding_failure(*envelope, encoded) {
            Some(message) => made matches Err(error) && error.message() == message,
            None => made matches Ok(Query::InsertEmail(row)) && is_row_of(
                row,
                id,
                *envelope,
                encoded.recipients->Ok_0,
                encoded.body->Ok_0,
            ),
        },
        encoded.recipients is Ok && encoded.body is Ok ==> made is Ok,
{
    insert_query_with(id, envelope, encoded, encode_variables(&envelope.variables))
}

/// An encoded text by what it says, or the message of the encoder.
pub open spec fn encoded_view(encoded: Result<String, String>) -> Result<Seq<char>, Seq<char>> {
    match encoded {
        Ok(text) => Ok(text@),
        Err(message) => Err(message@),
    }
}

/// The query that stores an envelope under an identifier, given what its variables
/// were encoded as.
pub fn insert_query_with(
    id: EmailId,
    envelope: &Envelope,
    encoded: EncodedEnvelope,
    variables: Result<String, String>,
) -> (made: Result<Query, EmailRepositoryError>)
    ensures
        match encoding_failure_with(encoded, encoded_view(variables)) {
            Some(message) => made matches Err(error) && error.message() == message,
            None => made matches Ok(Query::InsertEmail(row)) && is_row_with(
                row,
                id,
                *envelope,
                encoded.recipients->Ok_0,
                encoded.body->Ok_0,
            ) && variables == (Ok::<String, String>(row.variables)),
        },
{
    let recipients = match encoded.recipients {
        Ok(text) => text,
        Err(message) => {
            return Err(storage("encoding recipients", message.as_str()));
        },
    };
    let body = match encoded.body {
        Ok(text) => text,
        Err(message) => {
            return Err(storage("encoding body", message.as_str()));
        },
    };
    let variables = match variables {
        Ok(text) => text,
        Err(message) => {
            return Err(storage("encoding variables", message.as_str()));
        },
    };
    Ok(
        Query::InsertEmail(
            NewEmail {
                id: id.to_text(),
                idempotency_key: envelope.idempotency_key.clone(),
                correlation_id: envelope.correlation_id.clone(),
                subject: envelope.subject.clone(),
                sender: envelope.sender.clone(),
                recipients,
                body,
                variables,
            },
        ),
    )
}

/// What a save under `id` comes to, given the identifier that now owns its
/// idempotency key.
pub open spec fn resolution(id: EmailId, owner: Option<Seq<char>>) -> Result<
    SaveResult,
    Seq<char>,
> {
    match owner {
        None => Err(with_context("idempotency lookup"@, "row vanished after insert"@)),
        Some(text) => resolution_with(id, uuid_parsed(text)),
    }
}

/// What a save under `id` comes to, given what the identifier that now owns its
/// idempotency key parses as.
pub open spec fn resolution_with(id: EmailId, parsed: Result<u128, Seq<char>>) -> Result<
    SaveResult,
    Seq<char>,
> {
    match parsed {
        Err(message) => Err(with_context("parsing existing id"@, message)),
        Ok(bits) => if bits == id@ {
            Ok(SaveResult::Created(id))
        } else {
            Ok(SaveResult::Duplicate(EmailId { bits }))
        },
    }
}

/// Tells a created email from a duplicate by the row that now owns its
/// idempotency key.
pub fn resolve_owner(id: EmailId, owner: Option<IdRow>) -> (resolved: Result<
    SaveResult,
    EmailRepositoryError,
>)
    ensures
        outcome(resolved) == resolution(
            id,
            match owner {
                Some(row) => Some(row.id@),
                None => None,
            },
        ),
        owner is None ==> (resolved matches Err(error) && error.message()
            == "idempotency lookup"@ + ": "@ + "row vanished after insert"@),
        owner matches Some(row) ==> match uuid_parsed(row.id@) {
            Err(message) => resolved matches Err(error) && error.message()
                == "parsing existing id"@ + ": "@ + message,
            Ok(bits) => if bits == id.bits {
                resolved matches Ok(SaveResult::Created(created)) && created == id
            } else {
                resolved matches Ok(SaveResult::Duplicate(other)) && other.bits == bits
            },
        },
{
    match owner {
        None => Err(storage("idempotency lookup", "row vanished after insert")),
        Some(row) => resolve_parsed(id, EmailId::parse(row.id.as_str())),
    }
}

/// Tells a created email from a duplicate by the identifier that now owns its
/// idempotency key.
pub fn resolve_parsed(id: EmailId, parsed: Result<EmailId, String>) -> (resolved: Result<
    SaveResult,
    EmailRepositoryError,
>)
    ensures
        outcome(resolved) == resolution_with(id, parsed_bits(parsed)),
        match parsed {
            Err(message) => resolved matches Err(error) && error.message()
                == "parsing existing id"@ + ": "@ + message@,
            Ok(existing) => if existing.bits == id.bits {
                resolved matches Ok(SaveResult::Created(created)) && created == id
            } else {
                resolved matches Ok(SaveResult::Duplicate(owner)) && owner == existing
            },
        },
{
    match parsed {
        Err(message) => Err(storage("parsing existing id", message.as_str())),
        Ok(existing) => if existing.as_uuid() == id.as_uuid() {
            Ok(SaveResult::Created(id))
        } else {
            Ok(SaveResult::Duplicate(existing))
        },
    }
}

/// Why the attachments of an email cannot be replaced: it is not there, or its
/// body did not decode.
pub open spec fn revision_failure(row: Option<BodyRow>) -> Option<Seq<char>> {
    match row {
        None => Some(with_context("set_attachments"@, "email not found"@)),
        Some(row) => match row.body {
            Err(message) => Some(with_context("decoding existing body"@, message@)),
            Ok(_) => None,
        },
    }
}

/// The body column with its attachments replaced.
pub fn revise_body(row: Option<BodyRow>, attachments: &[AttachmentRef]) -> (revised: Result<
    EnvelopeBodyDto,
    EmailRepositoryError,
>)
    ensures
        match revision_failure(row) {
            Some(message) => revised matches Err(error) && error.message() == message,
            None => revised matches Ok(body) && body.source == row->0.body->Ok_0.source
                && body.attachments@ == attachments_dto(attachments@),
        },
        row is None ==> (revised matches Err(error) && error.message() == "set_attachments"@
            + ": "@ + "email not found"@),
        row matches Some(found) ==> match found.body {
            Err(message) => revised matches Err(error) && error.message()
                == "decoding existing body"@ + ": "@ + message@,
            Ok(existing) => revised matches Ok(body) && body.source == existing.source
                && body.attachments@.len() == attachments@.len() && (forall|i: int|
                0 <= i < attachments@.len() ==> {
                    &&& (#[trigger] body.attachments@[i]).filename == attachments@[i].filename
                    &&& body.attachments@[i].content_type == attachments@[i].content_type
                    &&& body.attachments@[i].size_bytes == attachments@[i].size_bytes
                    &&& body.attachments@[i].blob.backend == attachments@[i].blob.backend
                    &&& body.attachments@[i].blob.key == attachments@[i].blob.key
                }),
        },
{
    match row {
        None => Err(storage("set_attachments", "email not found")),
        Some(row) => match row.body {
            Err(message) => Err(storage("decoding existing body", message.as_str())),
            Ok(body) => Ok(
                EnvelopeBodyDto {
                    source: body.source,
                    attachments: attachments_to_dto(attachments),
                },
            ),
        },
    }
}

/// The query that writes a revised body column, or the failure to encode it.
pub fn write_body_query(id: EmailId, body: Result<String, String>) -> (made: Result<
    Query,
    EmailRepositoryError,
>)
    ensures
        match body {
            Ok(text) => made matches Ok(Query::WriteBody { body: column, id: row }) && column
                == text && row@ == id.text(),
            Err(message) => made matches Err(error) && error.message() == with_context(
                "encoding body"@,
                message@,
            ),
        },
{
    match body {
        Ok(text) => Ok(Query::WriteBody { body: text, id: id.to_text() }),
        Err(message) => Err(storage("encoding body", message.as_str())),
    }
}

/// The row of an email has each text of its envelope in the column of that name,
/// what was encoded in the columns that were encoded, and its own identifier.
pub proof fn law_row_has_every_text_in_its_column(
    row: NewEmail,
    id: EmailId,
    envelope: Envelope,
    recipients: String,
    body: String,
)
    requires
        is_row_of(row, id, envelope, recipients, body),
    ensures
        row.id@ == uuid_text(id.bits),
        uuid_parsed(row.id@) == (Ok::<u128, Seq<char>>(id.bits)),
        row.idempotency_key == envelope.idempotency_key,
        row.correlation_id == envelope.correlation_id,
        row.subject == envelope.subject,
        row.sender == envelope.sender,
        row.recipients == recipients,
        row.body == body,
        variables_json(variable_values(envelope.variables)) == (Ok::<Seq<char>, Seq<char>>(
            row.variables@,
        )),
{
}

/// The same without the variables, whatever they were encoded as.
pub proof fn law_row_has_every_plain_text_in_its_column(
    row: NewEmail,
    id: EmailId,
    envelope: Envelope,
    recipients: String,
    body: String,
)
    requires
        is_row_with(row, id, envelope, recipients, body),
    ensures
        row.id@ == uuid_text(id.bits),
        row.idempotency_key == envelope.idempotency_key,
        row.correlation_id == envelope.correlation_id,
        row.subject == envelope.subject,
        row.sender == envelope.sender,
        row.recipients == recipients,
        row.body == body,
{
}

/// An envelope is stored exactly when all three of its parts encode; otherwise the
/// first of recipients, body and variables that does not is reported.
pub proof fn law_first_part_that_does_not_encode_is_reported(
    encoded: EncodedEnvelope,
    variables: Result<String, String>,
)
    ensures
        encoding_failure_with(encoded, encoded_view(variables)) is None <==> encoded.recipients is Ok
            && encoded.body is Ok && variables is Ok,
        encoded.recipients matches Err(message) ==> encoding_failure_with(
            encoded,
            encoded_view(variables),
        ) == Some("encoding recipients"@ + ": "@ + message@),
        encoded.recipients is Ok ==> (encoded.body matches Err(message) ==> encoding_failure_with(
            encoded,
            encoded_view(variables),
        ) == Some("encoding body"@ + ": "@ + message@)),
        encoded.recipients is Ok && encoded.body is Ok ==> (variables matches Err(message)
            ==> encoding_failure_with(encoded, encoded_view(variables)) == Some(
            "encoding variables"@ + ": "@ + message@,
        )),
{
}

/// The failure of a whole envelope is that of its parts with its own variables.
pub proof fn law_envelope_fails_by_its_own_variables(envelope: Envelope, encoded: EncodedEnvelope)
    ensures
        encoding_failure(envelope, encoded) is None <==> encoded.recipients is Ok
            && encoded.body is Ok && variables_json(variable_values(envelope.variables)) is Ok,
{
}

/// Whoever owns the idempotency key decides a save: nobody is a failure, the email
/// itself makes it created, another email makes it a duplicate of that one.
pub proof fn law_owner_of_the_key_decides(id: EmailId, owner: Seq<char>)
    ensures
        resolution(id, None) == (Err::<SaveResult, Seq<char>>(
            "idempotency lookup"@ + ": "@ + "row vanished after insert"@,
        )),
        match uuid_parsed(owner) {
            Err(message) => resolution(id, Some(owner)) == (Err::<SaveResult, Seq<char>>(
                "parsing existing id"@ + ": "@ + message,
            )),
            Ok(bits) => {
                &&& bits == id.bits ==> resolution(id, Some(owner)) == (Ok::<
                    SaveResult,
                    Seq<char>,
                >(SaveResult::Created(id)))
                &&& bits != id.bits ==> resolution(id, Some(owner)) == (Ok::<
                    SaveResult,
                    Seq<char>,
                >(SaveResult::Duplicate(EmailId { bits })))
            },
        },
{
}

/// Attachments can be replaced exactly where the email is there and its body
/// decoded.
pub proof fn law_attachments_need_a_body_that_decodes(row: Option<BodyRow>)
    ensures
        revision_failure(row) is None <==> row is Some && row->0.body is Ok,
        row is None ==> revision_failure(row) == Some(
            "set_attachments"@ + ": "@ + "email not found"@,
        ),
        row matches Some(found) ==> (found.body matches Err(message) ==> revision_failure(row)
            == Some("decoding existing body"@ + ": "@ + message@)),
{
}

} // verus!
