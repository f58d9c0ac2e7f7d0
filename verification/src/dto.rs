//! The shapes that are stored as JSON in text columns, and the way between them
//! and the entities.
use crate::email::{
    AttachmentRef, BlobRef, BodySource, EmptyPlainBody, MjmlSource, Plain, RecipientKind,
};
use vstd::prelude::*;

verus! {

/// The stored shape of a body.
#[derive(Debug)]
pub enum BodySourceDto {
    Plain { text: Option<String>, html: Option<String> },
    MjmlInline { source: String },
    MjmlNamed { name: String },
    MjmlRemote { url: String },
}

/// The stored shape of a recipient kind.
#[derive(Clone, Copy, Debug, PartialEq, Eq, Structural)]
pub enum RecipientKindDto {
    To,
    Cc,
    Bcc,
}

/// The stored shape of a recipient.
#[derive(Debug)]
pub struct RecipientDto {
    pub kind: RecipientKindDto,
    pub address: String,
}

/// The stored shape of a blob reference.
#[derive(Debug)]
pub struct BlobRefDto {
    pub backend: String,
    pub key: String,
}

/// The stored shape of an attachment.
#[derive(Debug)]
pub struct AttachmentRefDto {
    pub filename: String,
    pub content_type: String,
    pub size_bytes: u64,
    pub blob: BlobRefDto,
}

/// The stored shape of the body column: the body and the attachments.
#[derive(Debug)]
pub struct EnvelopeBodyDto {
    pub source: BodySourceDto,
    pub attachments: Vec<AttachmentRefDto>,
}

/// The stored shape of a body.
pub open spec fn body_dto(body: BodySource) -> BodySourceDto {
    match body {
        BodySource::Plain(plain) => BodySourceDto::Plain {
            text: plain.text_part(),
            html: plain.html_part(),
        },
        BodySource::Mjml(MjmlSource::Inline(source)) => BodySourceDto::MjmlInline { source },
        BodySource::Mjml(MjmlSource::Named(name)) => BodySourceDto::MjmlNamed { name },
        BodySource::Mjml(MjmlSource::Remote(url)) => BodySourceDto::MjmlRemote { url },
    }
}

/// The body that a stored shape stands for; a plain one without text and HTML
/// stands for none.
pub open spec fn body_of_dto(dto: BodySourceDto) -> Option<BodySource> {
    match dto {
        BodySourceDto::Plain { text, html } => if text is Some || html is Some {
            Some(BodySource::Plain(Plain::of(text, html)))
        } else {
            None
        },
        BodySourceDto::MjmlInline { source } => Some(BodySource::Mjml(MjmlSource::Inline(source))),
        BodySourceDto::MjmlNamed { name } => Some(BodySource::Mjml(MjmlSource::Named(name))),
        BodySourceDto::MjmlRemote { url } => Some(BodySource::Mjml(MjmlSource::Remote(url))),
    }
}

/// The stored shape of a recipient kind.
pub open spec fn kind_dto(kind: RecipientKind) -> RecipientKindDto {
    match kind {
        RecipientKind::To => RecipientKindDto::To,
        RecipientKind::Cc => RecipientKindDto::Cc,
        RecipientKind::Bcc => RecipientKindDto::Bcc,
    }
}

/// The recipient kind that a stored shape stands for.
pub open spec fn kind_of_dto(dto: RecipientKindDto) -> RecipientKind {
    match dto {
        RecipientKindDto::To => RecipientKind::To,
        RecipientKindDto::Cc => RecipientKind::Cc,
        RecipientKindDto::Bcc => RecipientKind::Bcc,
    }
}

/// The stored shape of a list of recipients.
pub open spec fn recipients_dto(recipients: Seq<(RecipientKind, String)>) -> Seq<RecipientDto> {
    recipients.map_values(
        |recipient: (RecipientKind, String)|
            RecipientDto { kind: kind_dto(recipient.0), address: recipient.1 },
    )
}

/// The recipients that a stored list stands for.
pub open spec fn recipients_of_dto(dtos: Seq<RecipientDto>) -> Seq<(RecipientKind, String)> {
    dtos.map_values(|dto: RecipientDto| (kind_of_dto(dto.kind), dto.address))
}

/// The stored shape of an attachment.
pub open spec fn attachment_dto(attachment: AttachmentRef) -> AttachmentRefDto {
    AttachmentRefDto {
        filename: attachment.filename,
        content_type: attachment.content_type,
        size_bytes: attachment.size_bytes,
        blob: BlobRefDto { backend: attachment.blob.backend, key: attachment.blob.key },
    }
}

/// The stored shape of a list of attachments.
pub open spec fn attachments_dto(attachments: Seq<AttachmentRef>) -> Seq<AttachmentRefDto> {
    attachments.map_values(|attachment: AttachmentRef| attachment_dto(attachment))
}

/// The blob that a stored attachment refers to.
pub open spec fn blob_of_dto(dto: AttachmentRefDto) -> BlobRef {
    BlobRef { backend: dto.blob.backend, key: dto.blob.key }
}

impl<'a> From<&'a BodySource> for BodySourceDto {
    fn from(body: &'a BodySource) -> (dto: BodySourceDto) {
        match body {
            BodySource::Plain(plain) => BodySourceDto::Plain {
                text: plain.text().cloned(),
                html: plain.html().cloned(),
            },
            BodySource::Mjml(MjmlSource::Inline(source)) => BodySourceDto::MjmlInline {
                source: source.clone(),
            },
            BodySource::Mjml(MjmlSource::Named(name)) => BodySourceDto::MjmlNamed {
                name: name.clone(),
            },
            BodySource::Mjml(MjmlSource::Remote(url)) => BodySourceDto::MjmlRemote {
                url: url.clone(),
            },
        }
    }
}

impl<'a> vstd::std_specs::convert::FromSpecImpl<&'a BodySource> for BodySourceDto {
    open spec fn obeys_from_spec() -> bool {
        true
    }

    open spec fn from_spec(body: &'a BodySource) -> BodySourceDto {
        body_dto(*body)
    }
}

impl From<RecipientKind> for RecipientKindDto {
    fn from(kind: RecipientKind) -> (dto: RecipientKindDto) {
        match kind {
            RecipientKind::To => RecipientKindDto::To,
            RecipientKind::Cc => RecipientKindDto::Cc,
            RecipientKind::Bcc => RecipientKindDto::Bcc,
        }
    }
}

impl vstd::std_specs::convert::FromSpecImpl<RecipientKind> for RecipientKindDto {
    open spec fn obeys_from_spec() -> bool {
        true
    }

    open spec fn from_spec(kind: RecipientKind) -> RecipientKindDto {
        kind_dto(kind)
    }
}

impl From<RecipientKindDto> for RecipientKind {
    fn from(dto: RecipientKindDto) -> (kind: RecipientKind) {
        match dto {
            RecipientKindDto::To => RecipientKind::To,
            RecipientKindDto::Cc => RecipientKind::Cc,
            RecipientKindDto::Bcc => RecipientKind::Bcc,
        }
    }
}

impl vstd::std_specs::convert::FromSpecImpl<RecipientKindDto> for RecipientKind {
    open spec fn obeys_from_spec() -> bool {
        true
    }

    open spec fn from_spec(dto: RecipientKindDto) -> RecipientKind {
        kind_of_dto(dto)
    }
}

impl<'a> From<&'a AttachmentRef> for AttachmentRefDto {
    fn from(attachment: &'a AttachmentRef) -> (dto: AttachmentRefDto) {
        AttachmentRefDto {
            filename: attachment.filename.clone(),
            content_type: attachment.content_type.clone(),
            size_bytes: attachment.size_bytes,
            blob: BlobRefDto {
                backend: attachment.blob.backend.clone(),
                key: attachment.blob.key.clone(),
            },
        }
    }
}

impl<'a> vstd::std_specs::convert::FromSpecImpl<&'a AttachmentRef> for AttachmentRefDto {
    open spec fn obeys_from_spec() -> bool {
        true
    }

    open spec fn from_spec(attachment: &'a AttachmentRef) -> AttachmentRefDto {
        attachment_dto(*attachment)
    }
}

/// Rebuilds a body from its stored shape; a plain one without text and HTML is
/// refused.
pub fn restore_body(dto: BodySourceDto) -> (restored: Result<BodySource, EmptyPlainBody>)
    ensures
        match body_of_dto(dto) {
            Some(body) => restored matches Ok(found) && found == body,
            None => restored is Err,
        },
        match dto {
            BodySourceDto::Plain { text, html } => if text is None && html is None {
                restored is Err
            } else {
                restored matches Ok(BodySource::Plain(plain)) && plain.text_part() == text
                    && plain.html_part() == html
            },
            BodySourceDto::MjmlInline { source } => restored matches Ok(
                BodySource::Mjml(MjmlSource::Inline(found)),
            ) && found == source,
            BodySourceDto::MjmlNamed { name } => restored matches Ok(
                BodySource::Mjml(MjmlSource::Named(found)),
            ) && found == name,
            BodySourceDto::MjmlRemote { url } => restored matches Ok(
                BodySource::Mjml(MjmlSource::Remote(found)),
            ) && found == url,
        },
{
    match dto {
        BodySourceDto::Plain { text, html } => match Plain::try_new(text, html) {
            Ok(plain) => Ok(BodySource::Plain(plain)),
            Err(empty) => Err(empty),
        },
        BodySourceDto::MjmlInline { source } => Ok(BodySource::Mjml(MjmlSource::Inline(source))),
        BodySourceDto::MjmlNamed { name } => Ok(BodySource::Mjml(MjmlSource::Named(name))),
        BodySourceDto::MjmlRemote { url } => Ok(BodySource::Mjml(MjmlSource::Remote(url))),
    }
}

/// The stored shape of a list of recipients.
pub fn recipients_to_dto(recipients: &[(RecipientKind, String)]) -> (dtos: Vec<RecipientDto>)
    ensures
        dtos@ == recipients_dto(recipients@),
        dtos@.len() == recipients@.len(),
        forall|i: int|
            0 <= i < recipients@.len() ==> {
                &&& (#[trigger] dtos@[i]).address == recipients@[i].1
                &&& dtos@[i].kind is To <==> recipients@[i].0 is To
                &&& dtos@[i].kind is Cc <==> recipients@[i].0 is Cc
                &&& dtos@[i].kind is Bcc <==> recipients@[i].0 is Bcc
            },
{
    let mut dtos: Vec<RecipientDto> = Vec::new();
    for i in 0..recipients.len()
        invariant
            dtos@ == recipients_dto(recipients@.take(i as int)),
    {
        dtos.push(
            RecipientDto {
                kind: RecipientKindDto::from(recipients[i].0),
                address: recipients[i].1.clone(),
            },
        );
        assert(recipients@.take(i + 1) =~= recipients@.take(i as int).push(recipients@[i as int]));
    }
    assert(recipients@.take(recipients@.len() as int) =~= recipients@);
    dtos
}

/// Restores a list of recipients from its stored shape.
pub fn recipients_from_dto(dtos: Vec<RecipientDto>) -> (recipients: Vec<(RecipientKind, String)>)
    ensures
        recipients@ == recipients_of_dto(dtos@),
        recipients@.len() == dtos@.len(),
        forall|i: int|
            0 <= i < dtos@.len() ==> {
                &&& (#[trigger] recipients@[i]).1 == dtos@[i].address
                &&& recipients@[i].0 is To <==> dtos@[i].kind is To
                &&& recipients@[i].0 is Cc <==> dtos@[i].kind is Cc
                &&& recipients@[i].0 is Bcc <==> dtos@[i].kind is Bcc
            },
{
    let mut recipients: Vec<(RecipientKind, String)> = Vec::new();
    for dto in rest: dtos
        invariant
            rest.seq() == dtos@,
            recipients@ == recipients_of_dto(dtos@.take(rest.index() as int)),
    {
        proof {
            let i = rest.index() as int;
            assert(dtos@.take(i + 1) =~= dtos@.take(i).push(dtos@[i]));
        }
        recipients.push((RecipientKind::from(dto.kind), dto.address));
    }
    assert(dtos@.take(dtos@.len() as int) =~= dtos@);
    recipients
}

/// The stored shape of a list of attachments.
pub fn attachments_to_dto(attachments: &[AttachmentRef]) -> (dtos: Vec<AttachmentRefDto>)
    ensures
        dtos@ == attachments_dto(attachments@),
        dtos@.len() == attachments@.len(),
        forall|i: int|
            0 <= i < attachments@.len() ==> {
                &&& (#[trigger] dtos@[i]).filename == attachments@[i].filename
                &&& dtos@[i].content_type == attachments@[i].content_type
                &&& dtos@[i].size_bytes == attachments@[i].size_bytes
                &&& dtos@[i].blob.backend == attachments@[i].blob.backend
                &&& dtos@[i].blob.key == attachments@[i].blob.key
            },
{
    let mut dtos: Vec<AttachmentRefDto> = Vec::new();
    for i in 0..attachments.len()
        invariant
            dtos@ == attachments_dto(attachments@.take(i as int)),
    {
        dtos.push(AttachmentRefDto::from(&attachments[i]));
        assert(attachments@.take(i + 1) =~= attachments@.take(i as int).push(
            attachments@[i as int],
        ));
    }
    assert(attachments@.take(attachments@.len() as int) =~= attachments@);
    dtos
}

/// Restoring the stored shape of a body gives the body back.
pub proof fn law_body_survives_storage(body: BodySource)
    requires
        body.wf(),
    ensures
        body_of_dto(body_dto(body)) == Some(body),
{
    broadcast use Plain::parts_determine_body;

}

/// Restoring the stored shape of a list of recipients gives the list back: every
/// recipient, with its kind, in order.
pub proof fn law_recipients_survive_storage(recipients: Seq<(RecipientKind, String)>)
    ensures
        recipients_of_dto(recipients_dto(recipients)) == recipients,
{
    assert(recipients_of_dto(recipients_dto(recipients)) =~= recipients);
}

/// A stored attachment refers to the blob of the attachment.
pub proof fn law_attachment_keeps_its_blob(attachment: AttachmentRef)
    ensures
        blob_of_dto(attachment_dto(attachment)) == attachment.blob,
{
}

/// A body is stored under its own kind, with its own texts: text as text, HTML as
/// HTML, a template as the template, its name or its URL.
pub proof fn law_body_is_stored_as_its_kind(body: BodySource)
    ensures
        match body {
            BodySource::Plain(plain) => body_dto(body) matches BodySourceDto::Plain { text, html }
                && text == plain.text_part() && html == plain.html_part(),
            BodySource::Mjml(MjmlSource::Inline(template)) => body_dto(
                body,
            ) matches BodySourceDto::MjmlInline { source } && source == template,
            BodySource::Mjml(MjmlSource::Named(template)) => body_dto(
                body,
            ) matches BodySourceDto::MjmlNamed { name } && name == template,
            BodySource::Mjml(MjmlSource::Remote(template)) => body_dto(
                body,
            ) matches BodySourceDto::MjmlRemote { url } && url == template,
        },
        <BodySourceDto as vstd::std_specs::convert::FromSpec<&BodySource>>::from_spec(&body)
            == body_dto(body),
{
}

/// A stored body is restored as its kind, with its own texts; only a plain one that
/// has neither text nor HTML stands for none.
pub proof fn law_body_is_restored_as_its_kind(dto: BodySourceDto)
    ensures
        body_of_dto(dto) is None <==> (dto matches BodySourceDto::Plain { text, html } && text
            is None && html is None),
        body_of_dto(dto) matches Some(body) ==> match dto {
            BodySourceDto::Plain { text, html } => body matches BodySource::Plain(plain)
                && plain.text_part() == text && plain.html_part() == html,
            BodySourceDto::MjmlInline { source } => body == BodySource::Mjml(
                MjmlSource::Inline(source),
            ),
            BodySourceDto::MjmlNamed { name } => body == BodySource::Mjml(MjmlSource::Named(name)),
            BodySourceDto::MjmlRemote { url } => body == BodySource::Mjml(MjmlSource::Remote(url)),
        },
{
    if let BodySourceDto::Plain { text, html } = dto {
        let plain = Plain::of(text, html);
        Plain::parts_determine_body(plain, text, html);
    }
}

/// A recipient is stored with the address and the kind that it has, and restored
/// with the address and the kind that it was stored with.
pub proof fn law_recipient_keeps_kind_and_address(
    recipients: Seq<(RecipientKind, String)>,
    dtos: Seq<RecipientDto>,
    i: int,
)
    ensures
        recipients_dto(recipients).len() == recipients.len(),
        0 <= i < recipients.len() ==> {
            &&& recipients_dto(recipients)[i].address == recipients[i].1
            &&& recipients_dto(recipients)[i].kind == match recipients[i].0 {
                RecipientKind::To => RecipientKindDto::To,
                RecipientKind::Cc => RecipientKindDto::Cc,
                RecipientKind::Bcc => RecipientKindDto::Bcc,
            }
        },
        recipients_of_dto(dtos).len() == dtos.len(),
        0 <= i < dtos.len() ==> {
            &&& recipients_of_dto(dtos)[i].1 == dtos[i].address
            &&& recipients_of_dto(dtos)[i].0 == match dtos[i].kind {
                RecipientKindDto::To => RecipientKind::To,
                RecipientKindDto::Cc => RecipientKind::Cc,
                RecipientKindDto::Bcc => RecipientKind::Bcc,
            }
        },
{
}

/// The kinds of recipients have the same names where they are stored.
pub proof fn law_kinds_are_stored_alike(kind: RecipientKind, dto: RecipientKindDto)
    ensures
        kind_dto(kind) is To <==> kind is To,
        kind_dto(kind) is Cc <==> kind is Cc,
        kind_dto(kind) is Bcc <==> kind is Bcc,
        kind_of_dto(dto) is To <==> dto is To,
        kind_of_dto(dto) is Cc <==> dto is Cc,
        kind_of_dto(dto) is Bcc <==> dto is Bcc,
        <RecipientKindDto as vstd::std_specs::convert::FromSpec<RecipientKind>>::from_spec(kind)
            == kind_dto(kind),
        <RecipientKind as vstd::std_specs::convert::FromSpec<RecipientKindDto>>::from_spec(dto)
            == kind_of_dto(dto),
{
}

/// A stored attachment keeps every field of the attachment, and so does each of a
/// list, in order.
pub proof fn law_attachment_keeps_every_field(
    attachment: AttachmentRef,
    attachments: Seq<AttachmentRef>,
    i: int,
)
    ensures
        attachment_dto(attachment).filename == attachment.filename,
        attachment_dto(attachment).content_type == attachment.content_type,
        attachment_dto(attachment).size_bytes == attachment.size_bytes,
        attachment_dto(attachment).blob.backend == attachment.blob.backend,
        attachment_dto(attachment).blob.key == attachment.blob.key,
        <AttachmentRefDto as vstd::std_specs::convert::FromSpec<&AttachmentRef>>::from_spec(
            &attachment,
        ) == attachment_dto(attachment),
        attachments_dto(attachments).len() == attachments.len(),
        0 <= i < attachments.len() ==> {
            &&& attachments_dto(attachments)[i].filename == attachments[i].filename
            &&& attachments_dto(attachments)[i].content_type == attachments[i].content_type
            &&& attachments_dto(attachments)[i].size_bytes == attachments[i].size_bytes
            &&& attachments_dto(attachments)[i].blob.backend == attachments[i].blob.backend
            &&& attachments_dto(attachments)[i].blob.key == attachments[i].blob.key
        },
{
}

/// The blob of a stored attachment is read with its own backend and its own key.
pub proof fn law_stored_blob_keeps_backend_and_key(dto: AttachmentRefDto)
    ensures
        blob_of_dto(dto).backend == dto.blob.backend,
        blob_of_dto(dto).key == dto.blob.key,
{
}

} // verus!
