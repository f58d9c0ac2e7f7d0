//! Building the MIME message of an email, with `lettre` as the builder.
use crate::email::{OutboundAttachment, OutboundEmail, Plain, RecipientKind, RenderedBody};
use vstd::prelude::*;
use vstd::string::StringExecFns;

verus! {

// --- the outside types -------------------------------------------------------

/// `lettre::Address`: an email address.
#[verifier::external_type_specification]
#[verifier::external_body]
pub struct ExAddress(lettre::Address);

/// `lettre::address::AddressError`: why a text is no email address.
#[verifier::external_type_specification]
#[verifier::external_body]
pub struct ExAddressError(lettre::address::AddressError);

/// `lettre::message::Mailbox`: an address with an optional name.
#[verifier::external_type_specification]
#[verifier::external_body]
pub struct ExMailbox(lettre::message::Mailbox);

/// `lettre::message::MessageBuilder`: the headers of a message to be.
#[verifier::external_type_specification]
#[verifier::external_body]
pub struct ExMessageBuilder(lettre::message::MessageBuilder);

/// `lettre::Message`: a finished message.
#[verifier::external_type_specification]
#[verifier::external_body]
pub struct ExMessage(lettre::Message);

/// `lettre::error::Error`: why a message cannot be finished.
#[verifier::external_type_specification]
#[verifier::external_body]
pub struct ExMessageError(lettre::error::Error);

/// `lettre::message::SinglePart`: a MIME part with content.
#[verifier::external_type_specification]
#[verifier::external_body]
pub struct ExSinglePart(lettre::message::SinglePart);

/// `lettre::message::MultiPart`: a MIME part made of parts.
#[verifier::external_type_specification]
#[verifier::external_body]
pub struct ExMultiPart(lettre::message::MultiPart);

/// `lettre::message::header::ContentType`: a media type.
#[verifier::external_type_specification]
#[verifier::external_body]
pub struct ExContentType(lettre::message::header::ContentType);

/// `lettre::message::header::ContentTypeErr`: why a text is no media type.
#[verifier::external_type_specification]
#[verifier::external_body]
pub struct ExContentTypeErr(lettre::message::header::ContentTypeErr);

// --- what they hold ----------------------------------------------------------

/// The headers of a message that the email decides.
pub enum HeaderField {
    From,
    To,
    Cc,
    Bcc,
    Subject,
}

/// What a message builder holds.
#[verifier::ext_equal]
pub struct BuilderView {
    /// The values of the headers, before any transfer encoding.
    pub headers: Map<HeaderField, Seq<char>>,
    /// Whether nothing but these headers was given to it: no `Sender`, no envelope
    /// of its own, no request to keep `Bcc`.
    pub bare: bool,
}

/// Whom a message is delivered from and to.
#[verifier::ext_equal]
pub struct MailEnvelope {
    pub sender: Seq<char>,
    /// The addresses it is delivered to, in order.
    pub recipients: Seq<Seq<char>>,
}

/// The content of a part as it is sent: its transfer encoding and its octets.
pub struct MimeBody {
    pub encoding: Seq<char>,
    pub octets: Seq<u8>,
}

/// How the parts of a multipart relate.
pub enum MultiKind {
    Alternative,
    Mixed,
}

/// A MIME part, without the boundaries that are drawn at random.
pub enum MimePart {
    Single { content_type: Seq<char>, attachment_name: Option<Seq<char>>, body: MimeBody },
    Multi { kind: MultiKind, parts: Seq<MimePart> },
}

/// The text of an address.
pub uninterp spec fn address_text(address: lettre::Address) -> Seq<char>;

/// The text of a mailbox.
pub uninterp spec fn mailbox_text(mailbox: lettre::message::Mailbox) -> Seq<char>;

/// Whether a mailbox is an address without a name.
pub uninterp spec fn mailbox_nameless(mailbox: lettre::message::Mailbox) -> bool;

/// What a message builder holds.
pub uninterp spec fn builder_view(builder: lettre::message::MessageBuilder) -> BuilderView;

/// The headers of a finished message, before any transfer encoding.
pub uninterp spec fn message_headers(message: lettre::Message) -> Map<HeaderField, Seq<char>>;

/// The MIME part that is the body of a finished message.
pub uninterp spec fn message_part(message: lettre::Message) -> MimePart;

/// The envelope of a finished message.
pub uninterp spec fn message_envelope(message: lettre::Message) -> MailEnvelope;

/// Whether every part made of parts in a finished message has its boundary.
pub uninterp spec fn message_bounded(message: lettre::Message) -> bool;

/// The octets of a finished message, headers and body.
pub uninterp spec fn message_octets(message: lettre::Message) -> Seq<u8>;

/// What a part with content holds.
pub uninterp spec fn single_part(part: lettre::message::SinglePart) -> MimePart;

/// What a part made of parts holds.
pub uninterp spec fn multi_part(part: lettre::message::MultiPart) -> MimePart;

/// Whether a part made of parts, and every such part in it, has its boundary.
pub uninterp spec fn multi_bounded(part: lettre::message::MultiPart) -> bool;

/// The text of a media type.
pub uninterp spec fn content_type_text(content_type: lettre::message::header::ContentType) -> Seq<
    char,
>;

/// Whether `lettre::Address` parses from a text.
pub uninterp spec fn address_accepted(text: Seq<char>) -> bool;

/// The value of a mailbox header after `MessageBuilder::mailbox` has added a
/// mailbox to the value that was there.
pub uninterp spec fn mailboxes_joined(before: Seq<char>, mailbox: Seq<char>) -> Seq<char>;

/// The envelope that `MessageBuilder::multipart` finds in the headers, or `None` where
/// it finds no sender or no recipient.
pub uninterp spec fn envelope_found(headers: Map<HeaderField, Seq<char>>) -> Option<MailEnvelope>;

/// The media type that `ContentType::parse` reads from a text, or `None` where it
/// fails.
pub uninterp spec fn content_type_parsed(text: Seq<char>) -> Option<Seq<char>>;

/// How `SinglePartBuilder::body` encodes a text.
pub uninterp spec fn encoded_text(text: Seq<char>) -> MimeBody;

/// How `SinglePartBuilder::body` encodes bytes.
pub uninterp spec fn encoded_bytes(bytes: Seq<u8>) -> MimeBody;

/// A part made of parts, with one more part at the end.
pub open spec fn with_part(whole: MimePart, part: MimePart) -> MimePart {
    match whole {
        MimePart::Multi { kind, parts } => MimePart::Multi { kind, parts: parts.push(part) },
        single => single,
    }
}

/// The value of a `To` header that names nobody: an empty group.
pub const UNDISCLOSED: &'static str = "undisclosed-recipients:;";

/// Whether a character lies beyond ASCII and is neither a space, a control nor a
/// separator.
pub open spec fn word_char_beyond_ascii(c: char) -> bool {
    &&& '\u{a0}' < c
    &&& c != '\u{1680}'
    &&& !('\u{2000}' <= c <= '\u{206f}')
    &&& c != '\u{3000}'
}

/// Whether a character may stand in the words of a plain address.
pub open spec fn atom_char(c: char) -> bool {
    ||| word_char_beyond_ascii(c)
    ||| 'a' <= c <= 'z'
    ||| 'A' <= c <= 'Z'
    ||| '0' <= c <= '9'
    ||| "!#$%&'*+-/=?^_`{|}~"@.contains(c)
}

/// Whether a text is made of words of plain characters with single dots between
/// them.
pub open spec fn dot_atom(text: Seq<char>) -> bool {
    &&& text.len() > 0
    &&& text.first() != '.'
    &&& text.last() != '.'
    &&& forall|i: int| 0 <= i < text.len() ==> atom_char(#[trigger] text[i]) || text[i] == '.'
    &&& forall|i: int|
        #![trigger text[i]]
        0 <= i < text.len() - 1 ==> !(text[i] == '.' && text[i + 1] == '.')
}

/// Whether an accepted address is written in plain characters on both sides of
/// its `@`.
pub open spec fn plain_address(text: Seq<char>) -> bool {
    &&& address_accepted(text)
    &&& exists|at: int|
        {
            &&& 0 < at < text.len() - 1
            &&& #[trigger] text[at] == '@'
            &&& dot_atom(text.take(at))
            &&& dot_atom(text.skip(at + 1))
        }
}

/// Texts with `, ` between them.
pub open spec fn comma_list(texts: Seq<Seq<char>>) -> Seq<char>
    decreases texts.len(),
{
    if texts.len() == 0 {
        Seq::empty()
    } else if texts.len() == 1 {
        texts[0]
    } else {
        comma_list(texts.drop_last()) + ", "@ + texts.last()
    }
}

/// Whether texts are plain addresses, at least one.
pub open spec fn plain_addresses(texts: Seq<Seq<char>>) -> bool {
    texts.len() > 0 && forall|i: int| 0 <= i < texts.len() ==> plain_address(#[trigger] texts[i])
}

/// Whether a header value lists plain addresses.
pub open spec fn plain_list(value: Seq<char>) -> bool {
    exists|texts: Seq<Seq<char>>| #[trigger] plain_addresses(texts) && value == comma_list(texts)
}

/// The headers with one more mailbox in a field.
pub open spec fn with_mailbox(
    headers: Map<HeaderField, Seq<char>>,
    field: HeaderField,
    mailbox: Seq<char>,
) -> Map<HeaderField, Seq<char>> {
    with_mailbox_or(headers, field, mailbox, mailboxes_joined(headers[field], mailbox))
}

/// The headers with a mailbox as the value of a field that was not there, and the
/// value `joined` in one that was.
pub open spec fn with_mailbox_or(
    headers: Map<HeaderField, Seq<char>>,
    field: HeaderField,
    mailbox: Seq<char>,
    joined: Seq<char>,
) -> Map<HeaderField, Seq<char>> {
    headers.insert(
        field,
        if headers.contains_key(field) {
            joined
        } else {
            mailbox
        },
    )
}

/// Whether a list of plain addresses in a field was lengthened by a plain address.
pub open spec fn plain_list_grows(
    before: BuilderView,
    field: HeaderField,
    mailbox: Seq<char>,
    after: BuilderView,
) -> bool {
    before.headers.contains_key(field) && plain_list(before.headers[field]) && plain_address(
        mailbox,
    ) ==> after.headers[field] == before.headers[field] + ", "@ + mailbox
}

/// Whether headers name a plain sender and a plain list of recipients.
pub open spec fn plainly_addressed(headers: Map<HeaderField, Seq<char>>) -> bool {
    &&& headers.contains_key(HeaderField::From)
    &&& plain_address(headers[HeaderField::From])
    &&& {
        ||| headers.contains_key(HeaderField::To) && plain_list(headers[HeaderField::To])
        ||| headers.contains_key(HeaderField::Cc) && plain_list(headers[HeaderField::Cc])
        ||| headers.contains_key(HeaderField::Bcc) && plain_list(headers[HeaderField::Bcc])
    }
}

/// Whether a field lists exactly the given plain addresses; one that is not there,
/// or names nobody, lists none.
pub open spec fn field_lists(
    headers: Map<HeaderField, Seq<char>>,
    field: HeaderField,
    texts: Seq<Seq<char>>,
) -> bool {
    if headers.contains_key(field) {
        ||| plain_addresses(texts) && headers[field] == comma_list(texts)
        ||| texts.len() == 0 && headers[field] == UNDISCLOSED@
    } else {
        texts.len() == 0
    }
}

/// Whether the three fields for recipients list exactly the given plain addresses.
pub open spec fn fields_list(
    headers: Map<HeaderField, Seq<char>>,
    to: Seq<Seq<char>>,
    cc: Seq<Seq<char>>,
    bcc: Seq<Seq<char>>,
) -> bool {
    &&& field_lists(headers, HeaderField::To, to)
    &&& field_lists(headers, HeaderField::Cc, cc)
    &&& field_lists(headers, HeaderField::Bcc, bcc)
}

/// Whether an envelope comes from a plain sender, and reaches everybody in fields
/// that list plain addresses: those under `To` first, then those under `Cc`, then
/// those under `Bcc`.
pub open spec fn reaches_listed(
    headers: Map<HeaderField, Seq<char>>,
    envelope: MailEnvelope,
) -> bool {
    &&& headers.contains_key(HeaderField::From) && plain_address(headers[HeaderField::From])
        ==> envelope.sender == headers[HeaderField::From]
    &&& forall|to: Seq<Seq<char>>, cc: Seq<Seq<char>>, bcc: Seq<Seq<char>>| #[trigger]
        fields_list(headers, to, cc, bcc) ==> envelope.recipients == to + cc + bcc
}

/// Whether headers hold a field for recipients at all.
pub open spec fn has_recipients(headers: Map<HeaderField, Seq<char>>) -> bool {
    headers.contains_key(HeaderField::To) || headers.contains_key(HeaderField::Cc)
        || headers.contains_key(HeaderField::Bcc)
}

// --- the outside functions ---------------------------------------------------

/// `str::parse` into `lettre::Address`.
///
/// Claims that it depends on the text alone, that an accepted address keeps its
/// text, and that an accepted text is not empty.
#[verifier::external_body]
fn parse_address(text: &str) -> (parsed: Result<lettre::Address, lettre::address::AddressError>)
    ensures
        parsed is Ok <==> address_accepted(text@),
        parsed matches Ok(address) ==> address_text(address) == text@ && text@.len() > 0,
{
    text.parse::<lettre::Address>()
}

/// `lettre::message::Mailbox::new` without a name.
///
/// Claims that such a mailbox has no name and is written as its bare address.
#[verifier::external_body]
fn bare_mailbox(address: lettre::Address) -> (mailbox: lettre::message::Mailbox)
    ensures
        mailbox_text(mailbox) == address_text(address),
        mailbox_nameless(mailbox),
{
    lettre::message::Mailbox::new(None, address)
}

/// `lettre::Message::builder`.
///
/// Claims that the builder starts without headers.
#[verifier::external_body]
fn new_builder() -> (builder: lettre::message::MessageBuilder)
    ensures
        builder_view(builder) == (BuilderView { headers: Map::empty(), bare: true }),
{
    lettre::Message::builder()
}

/// `MessageBuilder::from`.
///
/// Claims that the mailbox is the value of a `From` header that was not there,
/// and is joined to one that was. A mailbox with a name is left out, since the
/// outside function panics on a line break in it.
#[verifier::external_body]
fn add_from(
    builder: lettre::message::MessageBuilder,
    mailbox: lettre::message::Mailbox,
) -> (added: lettre::message::MessageBuilder)
    requires
        mailbox_nameless(mailbox),
    ensures
        builder_view(added).bare == builder_view(builder).bare,
        builder_view(added).headers == with_mailbox_or(
            builder_view(builder).headers,
            HeaderField::From,
            mailbox_text(mailbox),
            mailboxes_joined(
                builder_view(builder).headers[HeaderField::From],
                mailbox_text(mailbox),
            ),
        ),
{
    builder.from(mailbox)
}

/// `MessageBuilder::to`.
///
/// Claims that the mailbox is the value of a `To` header that was not there, and
/// is joined to one that was: behind a comma, where all addresses are plain. A
/// mailbox with a name is left out, as in [`add_from`].
#[verifier::external_body]
fn add_to(
    builder: lettre::message::MessageBuilder,
    mailbox: lettre::message::Mailbox,
) -> (added: lettre::message::MessageBuilder)
    requires
        mailbox_nameless(mailbox),
    ensures
        builder_view(added).bare == builder_view(builder).bare,
        builder_view(added).headers == with_mailbox_or(
            builder_view(builder).headers,
            HeaderField::To,
            mailbox_text(mailbox),
            mailboxes_joined(
                builder_view(builder).headers[HeaderField::To],
                mailbox_text(mailbox),
            ),
        ),
        plain_list_grows(
            builder_view(builder),
            HeaderField::To,
            mailbox_text(mailbox),
            builder_view(added),
        ),
{
    builder.to(mailbox)
}

/// `MessageBuilder::cc`; claims of `Cc` what [`add_to`] claims of `To`.
#[verifier::external_body]
fn add_cc(
    builder: lettre::message::MessageBuilder,
    mailbox: lettre::message::Mailbox,
) -> (added: lettre::message::MessageBuilder)
    requires
        mailbox_nameless(mailbox),
    ensures
        builder_view(added).bare == builder_view(builder).bare,
        builder_view(added).headers == with_mailbox_or(
            builder_view(builder).headers,
            HeaderField::Cc,
            mailbox_text(mailbox),
            mailboxes_joined(
                builder_view(builder).headers[HeaderField::Cc],
                mailbox_text(mailbox),
            ),
        ),
        plain_list_grows(
            builder_view(builder),
            HeaderField::Cc,
            mailbox_text(mailbox),
            builder_view(added),
        ),
{
    builder.cc(mailbox)
}

/// `MessageBuilder::bcc`; claims of `Bcc` what [`add_to`] claims of `To`.
#[verifier::external_body]
fn add_bcc(
    builder: lettre::message::MessageBuilder,
    mailbox: lettre::message::Mailbox,
) -> (added: lettre::message::MessageBuilder)
    requires
        mailbox_nameless(mailbox),
    ensures
        builder_view(added).bare == builder_view(builder).bare,
        builder_view(added).headers == with_mailbox_or(
            builder_view(builder).headers,
            HeaderField::Bcc,
            mailbox_text(mailbox),
            mailboxes_joined(
                builder_view(builder).headers[HeaderField::Bcc],
                mailbox_text(mailbox),
            ),
        ),
        plain_list_grows(
            builder_view(builder),
            HeaderField::Bcc,
            mailbox_text(mailbox),
            builder_view(added),
        ),
{
    builder.bcc(mailbox)
}

/// `MessageBuilder::subject`.
///
/// Claims that the text is the value of the `Subject` header.
#[verifier::external_body]
fn set_subject(builder: lettre::message::MessageBuilder, subject: &str) -> (set:
    lettre::message::MessageBuilder)
    ensures
        builder_view(set).bare == builder_view(builder).bare,
        builder_view(set).headers == builder_view(builder).headers.insert(
            HeaderField::Subject,
            subject@,
        ),
{
    builder.subject(subject)
}

/// `MessageBuilder::raw_header` with a `To` header (`HeaderValue::new`).
///
/// Claims that the text is the value of the `To` header.
#[verifier::external_body]
fn set_to(builder: lettre::message::MessageBuilder, value: &str) -> (set:
    lettre::message::MessageBuilder)
    ensures
        builder_view(set).bare == builder_view(builder).bare,
        builder_view(set).headers == builder_view(builder).headers.insert(HeaderField::To, value@),
{
    builder.raw_header(
        lettre::message::header::HeaderValue::new(
            lettre::message::header::HeaderName::new_from_ascii_str("To"),
            value.to_owned(),
        ),
    )
}

/// `MessageBuilder::multipart`.
///
/// Claims that whether it succeeds, and with which envelope (`Message::envelope`),
/// depends on the headers alone: it fails without a field for recipients, and
/// succeeds for a plain sender with a plain list of recipients. The message has the
/// headers, without `Bcc`, and the part as its body. Its envelope comes from a plain
/// sender, and delivers to all addresses of plain lists; the empty group lists none.
/// An empty `From` value is left out, since the
/// outside function panics on it.
#[verifier::external_body]
fn finish_message(
    builder: lettre::message::MessageBuilder,
    part: lettre::message::MultiPart,
) -> (finished: Result<lettre::Message, lettre::error::Error>)
    requires
        builder_view(builder).bare,
        builder_view(builder).headers.contains_key(HeaderField::From)
            ==> builder_view(builder).headers[HeaderField::From].len() > 0,
    ensures
        match finished {
            Ok(message) => envelope_found(builder_view(builder).headers) == Some(
                message_envelope(message),
            ),
            Err(_) => envelope_found(builder_view(builder).headers) is None,
        },
        !has_recipients(builder_view(builder).headers) ==> finished is Err,
        plainly_addressed(builder_view(builder).headers) ==> finished is Ok,
        finished matches Ok(message) ==> message_headers(message) == builder_view(
            builder,
        ).headers.remove(HeaderField::Bcc) && message_part(message) == multi_part(part),
        finished matches Ok(message) ==> message_bounded(message) == multi_bounded(part),
        finished matches Ok(message) ==> reaches_listed(
            builder_view(builder).headers,
            message_envelope(message),
        ),
{
    builder.multipart(part)
}

/// `lettre::Message::formatted`.
///
/// Claims no more than that the octets depend on the message alone. Its date and
/// its boundaries were drawn when it was built, so what the octets are is not
/// stated. A message with a part that lacks its boundary is left out, since the
/// outside function panics on it.
#[verifier::external_body]
fn format_message(message: &lettre::Message) -> (octets: Vec<u8>)
    requires
        message_bounded(*message),
    ensures
        octets@ == message_octets(*message),
{
    message.formatted()
}

/// The constant `ContentType::TEXT_PLAIN`.
#[verifier::external_body]
fn text_plain() -> (content_type: lettre::message::header::ContentType)
    ensures
        content_type_text(content_type) == "text/plain; charset=utf-8"@,
{
    lettre::message::header::ContentType::TEXT_PLAIN
}

/// The constant `ContentType::TEXT_HTML`.
#[verifier::external_body]
fn text_html() -> (content_type: lettre::message::header::ContentType)
    ensures
        content_type_text(content_type) == "text/html; charset=utf-8"@,
{
    lettre::message::header::ContentType::TEXT_HTML
}

/// `ContentType::parse`.
///
/// Claims no more than that it depends on the text alone.
#[verifier::external_body]
fn parse_content_type(text: &str) -> (parsed: Result<
    lettre::message::header::ContentType,
    lettre::message::header::ContentTypeErr,
>)
    ensures
        match parsed {
            Ok(content_type) => content_type_parsed(text@) == Some(content_type_text(content_type)),
            Err(_) => content_type_parsed(text@) is None,
        },
{
    lettre::message::header::ContentType::parse(text)
}

/// `SinglePartBuilder::body` on a text, for a part with a media type
/// (`SinglePart::builder`, `SinglePartBuilder::header`).
///
/// Claims that the part has that media type and no file name, and that the
/// encoding of its content depends on the text alone.
#[verifier::external_body]
fn text_part(content_type: lettre::message::header::ContentType, text: String) -> (part:
    lettre::message::SinglePart)
    ensures
        single_part(part) == (MimePart::Single {
            content_type: content_type_text(content_type),
            attachment_name: None,
            body: encoded_text(text@),
        }),
{
    lettre::message::SinglePart::builder().header(content_type).body(text)
}

/// `SinglePartBuilder::body` on bytes, for a part with a media type and a file
/// name (`SinglePart::builder`, `SinglePartBuilder::header`,
/// `ContentDisposition::attachment`).
///
/// Claims that the part has that media type and that file name, and that the
/// encoding of its content depends on the bytes alone.
#[verifier::external_body]
fn attachment_part(
    content_type: lettre::message::header::ContentType,
    filename: &str,
    bytes: Vec<u8>,
) -> (part: lettre::message::SinglePart)
    ensures
        single_part(part) == (MimePart::Single {
            content_type: content_type_text(content_type),
            attachment_name: Some(filename@),
            body: encoded_bytes(bytes@),
        }),
{
    lettre::message::SinglePart::builder()
        .header(content_type)
        .header(lettre::message::header::ContentDisposition::attachment(filename))
        .body(bytes)
}

/// `MultiPart::alternative`, built without parts (`MultiPartBuilder::build`); it
/// has a boundary.
#[verifier::external_body]
fn new_alternative() -> (whole: lettre::message::MultiPart)
    ensures
        multi_part(whole) == (MimePart::Multi {
            kind: MultiKind::Alternative,
            parts: Seq::empty(),
        }),
        multi_bounded(whole),
{
    lettre::message::MultiPart::alternative().build()
}

/// `MultiPart::mixed`, built without parts (`MultiPartBuilder::build`); it has a
/// boundary.
#[verifier::external_body]
fn new_mixed() -> (whole: lettre::message::MultiPart)
    ensures
        multi_part(whole) == (MimePart::Multi { kind: MultiKind::Mixed, parts: Seq::empty() }),
        multi_bounded(whole),
{
    lettre::message::MultiPart::mixed().build()
}

/// `MultiPart::singlepart`: one more part at the end.
#[verifier::external_body]
fn add_single(whole: lettre::message::MultiPart, part: lettre::message::SinglePart) -> (added:
    lettre::message::MultiPart)
    ensures
        multi_part(added) == with_part(multi_part(whole), single_part(part)),
        multi_bounded(added) == multi_bounded(whole),
{
    whole.singlepart(part)
}

/// `MultiPart::multipart`: one more part at the end.
#[verifier::external_body]
fn add_multi(whole: lettre::message::MultiPart, part: lettre::message::MultiPart) -> (added:
    lettre::message::MultiPart)
    ensures
        multi_part(added) == with_part(multi_part(whole), multi_part(part)),
        multi_bounded(added) == (multi_bounded(whole) && multi_bounded(part)),
{
    whole.multipart(part)
}

// --- building a message ------------------------------------------------------

/// Why a message cannot be built.
#[derive(Debug)]
pub enum BuildError {
    /// The sender or a recipient is no email address.
    InvalidAddress(String),
    /// The media type of an attachment does not parse.
    InvalidContentType(String),
    /// The message has no usable sender or recipient.
    NotAddressed { with_attachments: bool },
}

/// Why a message cannot be built, with texts taken by what they say.
pub enum BuildFailure {
    InvalidAddress(Seq<char>),
    InvalidContentType(Seq<char>),
    NotAddressed { with_attachments: bool },
}

impl View for BuildError {
    type V = BuildFailure;

    open spec fn view(&self) -> BuildFailure {
        match self {
            BuildError::InvalidAddress(text) => BuildFailure::InvalidAddress(text@),
            BuildError::InvalidContentType(text) => BuildFailure::InvalidContentType(text@),
            BuildError::NotAddressed { with_attachments } => BuildFailure::NotAddressed {
                with_attachments: *with_attachments,
            },
        }
    }
}

impl BuildFailure {
    /// The message of the error.
    pub open spec fn message(self) -> Seq<char> {
        match self {
            BuildFailure::InvalidAddress(text) => "invalid address: "@ + text,
            BuildFailure::InvalidContentType(text) => "invalid attachment content-type: "@ + text,
            BuildFailure::NotAddressed { with_attachments } => if with_attachments {
                "building email message with attachments"@
            } else {
                "building email message"@
            },
        }
    }
}

impl BuildError {
    /// The message of the error, for display.
    pub fn to_text(&self) -> (text: String)
        ensures
            text@ == self@.message(),
    {
        match self {
            BuildError::InvalidAddress(address) => "invalid address: ".to_owned().concat(
                address.as_str(),
            ),
            BuildError::InvalidContentType(content_type) => {
                "invalid attachment content-type: ".to_owned().concat(content_type.as_str())
            },
            BuildError::NotAddressed { with_attachments } => if *with_attachments {
                "building email message with attachments".to_owned()
            } else {
                "building email message".to_owned()
            },
        }
    }
}

/// The header that a kind of recipient goes to.
pub open spec fn field_of(kind: RecipientKind) -> HeaderField {
    match kind {
        RecipientKind::To => HeaderField::To,
        RecipientKind::Cc => HeaderField::Cc,
        RecipientKind::Bcc => HeaderField::Bcc,
    }
}

/// The first recipient that is no email address.
pub open spec fn refused_recipient(recipients: Seq<(RecipientKind, String)>) -> Option<Seq<char>>
    decreases recipients.len(),
{
    if recipients.len() == 0 {
        None
    } else {
        match refused_recipient(recipients.drop_last()) {
            Some(text) => Some(text),
            None => if address_accepted(recipients.last().1@) {
                None
            } else {
                Some(recipients.last().1@)
            },
        }
    }
}

/// The headers with all recipients added, in order.
pub open spec fn with_recipients(
    headers: Map<HeaderField, Seq<char>>,
    recipients: Seq<(RecipientKind, String)>,
) -> Map<HeaderField, Seq<char>>
    decreases recipients.len(),
{
    if recipients.len() == 0 {
        headers
    } else {
        with_mailbox(
            with_recipients(headers, recipients.drop_last()),
            field_of(recipients.last().0),
            recipients.last().1@,
        )
    }
}

/// A recipient that is refused among the first ones is refused among all.
proof fn lemma_refusal_stays(recipients: Seq<(RecipientKind, String)>, count: int)
    requires
        0 <= count <= recipients.len(),
        refused_recipient(recipients.take(count)) is Some,
    ensures
        refused_recipient(recipients) == refused_recipient(recipients.take(count)),
    decreases recipients.len(),
{
    if count < recipients.len() {
        assert(recipients.drop_last().take(count) =~= recipients.take(count));
        lemma_refusal_stays(recipients.drop_last(), count);
    } else {
        assert(recipients.take(count) =~= recipients);
    }
}

/// Adding recipients leaves the other headers as they were.
proof fn lemma_recipients_keep(
    headers: Map<HeaderField, Seq<char>>,
    recipients: Seq<(RecipientKind, String)>,
    field: HeaderField,
)
    requires
        field is From || field is Subject,
    ensures
        with_recipients(headers, recipients).contains_key(field) == headers.contains_key(field),
        headers.contains_key(field) ==> with_recipients(headers, recipients)[field]
            == headers[field],
    decreases recipients.len(),
{
    if recipients.len() > 0 {
        lemma_recipients_keep(headers, recipients.drop_last(), field);
    }
}

/// The addresses of one kind among recipients, in order.
pub open spec fn addresses_of(
    recipients: Seq<(RecipientKind, String)>,
    kind: RecipientKind,
) -> Seq<Seq<char>>
    decreases recipients.len(),
{
    if recipients.len() == 0 {
        Seq::empty()
    } else {
        let before = addresses_of(recipients.drop_last(), kind);
        if recipients.last().0 == kind {
            before.push(recipients.last().1@)
        } else {
            before
        }
    }
}

/// After adding recipients there is a header for every kind that occurs among them.
proof fn lemma_recipient_fields(
    headers: Map<HeaderField, Seq<char>>,
    recipients: Seq<(RecipientKind, String)>,
    kind: RecipientKind,
)
    ensures
        with_recipients(headers, recipients).contains_key(field_of(kind)) <==> (
        headers.contains_key(field_of(kind)) || addresses_of(recipients, kind).len() > 0),
    decreases recipients.len(),
{
    if recipients.len() > 0 {
        lemma_recipient_fields(headers, recipients.drop_last(), kind);
    }
}

/// Whether all recipients have plain addresses.
pub open spec fn all_plain(recipients: Seq<(RecipientKind, String)>) -> bool {
    forall|i: int| 0 <= i < recipients.len() ==> plain_address((#[trigger] recipients[i]).1@)
}

/// Whether a header lists exactly the addresses of one kind, in order; without
/// such addresses there is no header.
pub open spec fn lists_kind(
    headers: Map<HeaderField, Seq<char>>,
    recipients: Seq<(RecipientKind, String)>,
    kind: RecipientKind,
) -> bool {
    let addresses = addresses_of(recipients, kind);
    if addresses.len() == 0 {
        !headers.contains_key(field_of(kind))
    } else {
        headers.contains_key(field_of(kind)) && headers[field_of(kind)] == comma_list(addresses)
    }
}

/// Whether every kind of recipient has its header.
pub open spec fn lists_recipients(
    headers: Map<HeaderField, Seq<char>>,
    recipients: Seq<(RecipientKind, String)>,
) -> bool {
    &&& lists_kind(headers, recipients, RecipientKind::To)
    &&& lists_kind(headers, recipients, RecipientKind::Cc)
    &&& lists_kind(headers, recipients, RecipientKind::Bcc)
}

/// The addresses of plain recipients are plain, and there is one of the kind of
/// the last recipient.
proof fn lemma_addresses_plain(recipients: Seq<(RecipientKind, String)>, kind: RecipientKind)
    requires
        all_plain(recipients),
    ensures
        forall|i: int|
            0 <= i < addresses_of(recipients, kind).len() ==> plain_address(
                #[trigger] addresses_of(recipients, kind)[i],
            ),
        recipients.len() > 0 && recipients.last().0 == kind ==> addresses_of(
            recipients,
            kind,
        ).len() > 0,
    decreases recipients.len(),
{
    if recipients.len() > 0 {
        assert(all_plain(recipients.drop_last())) by {
            assert forall|i: int| 0 <= i < recipients.drop_last().len() implies plain_address(
                (#[trigger] recipients.drop_last()[i]).1@,
            ) by {
                assert(recipients.drop_last()[i] == recipients[i]);
            }
        }
        assert(plain_address(recipients[recipients.len() - 1].1@));
        lemma_addresses_plain(recipients.drop_last(), kind);
        let before = addresses_of(recipients.drop_last(), kind);
        let all = addresses_of(recipients, kind);
        assert forall|i: int| 0 <= i < all.len() implies plain_address(#[trigger] all[i]) by {
            if i < before.len() {
                assert(all[i] == before[i]);
            }
        }
    }
}

/// No plain recipient is refused.
proof fn lemma_plain_not_refused(recipients: Seq<(RecipientKind, String)>)
    requires
        all_plain(recipients),
    ensures
        refused_recipient(recipients) is None,
    decreases recipients.len(),
{
    if recipients.len() > 0 {
        assert forall|i: int| 0 <= i < recipients.drop_last().len() implies plain_address(
            (#[trigger] recipients.drop_last()[i]).1@,
        ) by {
            assert(recipients.drop_last()[i] == recipients[i]);
        }
        lemma_plain_not_refused(recipients.drop_last());
        assert(plain_address(recipients[recipients.len() - 1].1@));
    }
}

/// Headers that list plain recipients, with the empty group where there is nobody
/// under `To`, list them field by field.
proof fn lemma_fields_list(
    addressed: Map<HeaderField, Seq<char>>,
    headers: Map<HeaderField, Seq<char>>,
    recipients: Seq<(RecipientKind, String)>,
)
    requires
        recipients.len() > 0,
        all_plain(recipients),
        lists_recipients(addressed, recipients),
        forall|field: HeaderField|
            field !is Subject ==> (headers.contains_key(field) <==> with_shown_to(
                addressed,
                recipients,
            ).contains_key(field)) && (headers.contains_key(field) ==> #[trigger] headers[field]
                == with_shown_to(addressed, recipients)[field]),
    ensures
        fields_list(
            headers,
            addresses_of(recipients, RecipientKind::To),
            addresses_of(recipients, RecipientKind::Cc),
            addresses_of(recipients, RecipientKind::Bcc),
        ),
{
    lemma_addresses_plain(recipients, RecipientKind::To);
    lemma_addresses_plain(recipients, RecipientKind::Cc);
    lemma_addresses_plain(recipients, RecipientKind::Bcc);
    assert(headers[HeaderField::To] == headers[HeaderField::To]);
    assert(headers[HeaderField::Cc] == headers[HeaderField::Cc]);
    assert(headers[HeaderField::Bcc] == headers[HeaderField::Bcc]);
}

/// Headers whose fields list plain recipients, at least one, are plainly addressed.
proof fn lemma_plainly_addressed(
    headers: Map<HeaderField, Seq<char>>,
    recipients: Seq<(RecipientKind, String)>,
)
    requires
        recipients.len() > 0,
        all_plain(recipients),
        fields_list(
            headers,
            addresses_of(recipients, RecipientKind::To),
            addresses_of(recipients, RecipientKind::Cc),
            addresses_of(recipients, RecipientKind::Bcc),
        ),
        headers.contains_key(HeaderField::From),
        plain_address(headers[HeaderField::From]),
    ensures
        plainly_addressed(headers),
{
    let kind = recipients.last().0;
    lemma_addresses_plain(recipients, kind);
    assert(plain_addresses(addresses_of(recipients, kind)));
    assert(plain_list(headers[field_of(kind)]));
}

/// A builder whose headers list plain recipients still does when the last one has
/// been added.
proof fn lemma_listing_grows(
    before: BuilderView,
    after: BuilderView,
    recipients: Seq<(RecipientKind, String)>,
)
    requires
        recipients.len() > 0,
        all_plain(recipients),
        lists_recipients(before.headers, recipients.drop_last()),
        after.headers == with_mailbox(
            before.headers,
            field_of(recipients.last().0),
            recipients.last().1@,
        ),
        plain_list_grows(
            before,
            field_of(recipients.last().0),
            recipients.last().1@,
            after,
        ),
    ensures
        lists_recipients(after.headers, recipients),
{
    let kind = recipients.last().0;
    let field = field_of(kind);
    let earlier = addresses_of(recipients.drop_last(), kind);
    let address = recipients.last().1@;
    assert(all_plain(recipients.drop_last())) by {
        assert forall|i: int| 0 <= i < recipients.drop_last().len() implies plain_address(
            (#[trigger] recipients.drop_last()[i]).1@,
        ) by {
            assert(recipients.drop_last()[i] == recipients[i]);
        }
    }
    assert(plain_address(recipients[recipients.len() - 1].1@));
    lemma_addresses_plain(recipients.drop_last(), kind);
    let all = addresses_of(recipients, kind);
    assert(all == earlier.push(address));
    assert(all.drop_last() =~= earlier);
    if earlier.len() > 0 {
        assert(plain_addresses(earlier));
        assert(plain_list(before.headers[field]));
        assert(after.headers[field] == comma_list(all));
    } else {
        assert(all[0] == address);
    }
}

/// The mailbox of an address that was parsed, or the refusal of its text.
pub fn mailbox_of(
    text: &str,
    parsed: Result<lettre::Address, lettre::address::AddressError>,
) -> (made: Result<lettre::message::Mailbox, BuildError>)
    ensures
        match parsed {
            Ok(address) => made matches Ok(mailbox) && mailbox_text(mailbox) == address_text(
                address,
            ) && mailbox_nameless(mailbox),
            Err(_) => made matches Err(error) && error@ == BuildFailure::InvalidAddress(text@),
        },
{
    match parsed {
        Ok(address) => Ok(bare_mailbox(address)),
        Err(_) => Err(BuildError::InvalidAddress(text.to_owned())),
    }
}

/// Reads a bare email address as a mailbox.
fn parse_mailbox(address: &str) -> (parsed: Result<lettre::message::Mailbox, BuildError>)
    ensures
        if address_accepted(address@) {
            parsed matches Ok(mailbox) && mailbox_text(mailbox) == address@ && mailbox_nameless(
                mailbox,
            ) && address@.len() > 0
        } else {
            parsed matches Err(error) && error@ == BuildFailure::InvalidAddress(address@)
        },
{
    mailbox_of(address, parse_address(address))
}

/// Adds a recipient to the header of its kind.
pub fn add_recipient(
    builder: lettre::message::MessageBuilder,
    kind: RecipientKind,
    mailbox: lettre::message::Mailbox,
) -> (added: lettre::message::MessageBuilder)
    requires
        mailbox_nameless(mailbox),
    ensures
        builder_view(added).bare == builder_view(builder).bare,
        builder_view(added).headers == with_mailbox(
            builder_view(builder).headers,
            field_of(kind),
            mailbox_text(mailbox),
        ),
        plain_list_grows(
            builder_view(builder),
            field_of(kind),
            mailbox_text(mailbox),
            builder_view(added),
        ),
        kind is To ==> builder_view(added).headers.remove(HeaderField::To) == builder_view(
            builder,
        ).headers.remove(HeaderField::To),
        kind is Cc ==> builder_view(added).headers.remove(HeaderField::Cc) == builder_view(
            builder,
        ).headers.remove(HeaderField::Cc),
        kind is Bcc ==> builder_view(added).headers.remove(HeaderField::Bcc) == builder_view(
            builder,
        ).headers.remove(HeaderField::Bcc),
{
    match kind {
        RecipientKind::To => add_to(builder, mailbox),
        RecipientKind::Cc => add_cc(builder, mailbox),
        RecipientKind::Bcc => add_bcc(builder, mailbox),
    }
}

/// Adds all recipients to a message, each to the header of its kind.
fn apply_recipients(
    builder: lettre::message::MessageBuilder,
    recipients: &[(RecipientKind, String)],
) -> (applied: Result<lettre::message::MessageBuilder, BuildError>)
    ensures
        match refused_recipient(recipients@) {
            Some(text) => applied matches Err(error) && error@ == BuildFailure::InvalidAddress(
                text,
            ),
            None => applied matches Ok(addressed) && builder_view(addressed).bare == builder_view(
                builder,
            ).bare && builder_view(addressed).headers == with_recipients(
                builder_view(builder).headers,
                recipients@,
            ),
        },
        applied matches Ok(addressed) ==> (all_plain(recipients@) && !has_recipients(
            builder_view(builder).headers,
        ) ==> lists_recipients(builder_view(addressed).headers, recipients@)),
{
    let ghost start = builder_view(builder);
    let mut builder = builder;
    for i in 0..recipients.len()
        invariant
            refused_recipient(recipients@.take(i as int)) is None,
            builder_view(builder).bare == start.bare,
            builder_view(builder).headers == with_recipients(
                start.headers,
                recipients@.take(i as int),
            ),
            all_plain(recipients@) && !has_recipients(start.headers) ==> lists_recipients(
                builder_view(builder).headers,
                recipients@.take(i as int),
            ),
    {
        let ghost before = builder_view(builder);
        proof {
            assert(recipients@.take(i + 1).drop_last() =~= recipients@.take(i as int));
            assert(recipients@.take(i + 1).last() == recipients@[i as int]);
        }
        let mailbox = match parse_mailbox(recipients[i].1.as_str()) {
            Ok(mailbox) => mailbox,
            Err(error) => {
                proof {
                    lemma_refusal_stays(recipients@, i + 1);
                }
                return Err(error);
            },
        };
        builder = add_recipient(builder, recipients[i].0, mailbox);
        proof {
            if all_plain(recipients@) && !has_recipients(start.headers) {
                assert(all_plain(recipients@.take(i + 1)));
                lemma_listing_grows(before, builder_view(builder), recipients@.take(i + 1));
            }
        }
    }
    assert(recipients@.take(recipients@.len() as int) =~= recipients@);
    Ok(builder)
}

/// Whether there is a recipient of a kind.
pub fn has_kind(recipients: &[(RecipientKind, String)], kind: RecipientKind) -> (has: bool)
    ensures
        has == (addresses_of(recipients@, kind).len() > 0),
{
    let mut has: bool = false;
    for i in 0..recipients.len()
        invariant
            has == (addresses_of(recipients@.take(i as int), kind).len() > 0),
    {
        assert(recipients@.take(i + 1).drop_last() =~= recipients@.take(i as int));
        if recipients[i].0 == kind {
            has = true;
        }
    }
    assert(recipients@.take(recipients@.len() as int) =~= recipients@);
    has
}

/// Adds a `To` header that names nobody where all recipients get copies.
pub fn show_to(
    builder: lettre::message::MessageBuilder,
    recipients: &[(RecipientKind, String)],
) -> (shown: lettre::message::MessageBuilder)
    ensures
        builder_view(shown).bare == builder_view(builder).bare,
        builder_view(shown).headers == with_shown_to(builder_view(builder).headers, recipients@),
{
    if recipients.len() > 0 && !has_kind(recipients, RecipientKind::To) {
        set_to(builder, UNDISCLOSED)
    } else {
        builder
    }
}

/// The part of a text in a body.
pub open spec fn part_of_text(text: Option<String>, content_type: Seq<char>) -> Seq<MimePart> {
    match text {
        Some(text) => seq![
            MimePart::Single { content_type, attachment_name: None, body: encoded_text(text@) },
        ],
        None => Seq::empty(),
    }
}

/// The MIME part of a body: the alternatives text and HTML, as far as there are
/// any, the text first.
pub open spec fn body_part(plain: Plain) -> MimePart {
    MimePart::Multi {
        kind: MultiKind::Alternative,
        parts: part_of_text(plain.text_part(), "text/plain; charset=utf-8"@) + part_of_text(
            plain.html_part(),
            "text/html; charset=utf-8"@,
        ),
    }
}

/// Builds the MIME part of a body.
fn build_body_part(body: &RenderedBody) -> (part: lettre::message::MultiPart)
    ensures
        multi_part(part) == body_part(body.parts()),
        multi_bounded(part),
        multi_part(part) matches MimePart::Multi { kind, parts } && {
            &&& kind is Alternative
            &&& parts.len() == (if body.parts().text_part() is Some {
                1int
            } else {
                0int
            }) + (if body.parts().html_part() is Some {
                1int
            } else {
                0int
            })
            &&& body.parts().text_part() matches Some(text) ==> parts[0] == (MimePart::Single {
                content_type: "text/plain; charset=utf-8"@,
                attachment_name: None,
                body: encoded_text(text@),
            })
            &&& body.parts().html_part() matches Some(html) ==> parts.last() == (MimePart::Single {
                content_type: "text/html; charset=utf-8"@,
                attachment_name: None,
                body: encoded_text(html@),
            })
        },
{
    let mut part = new_alternative();
    if let Some(text) = body.text() {
        part = add_single(part, text_part(text_plain(), text.clone()));
    }
    if let Some(html) = body.html() {
        part = add_single(part, text_part(text_html(), html.clone()));
    }
    assert(multi_part(part)->parts =~= body_part(body.parts())->parts);
    part
}

/// The media type of the first attachment whose media type does not parse.
pub open spec fn refused_content_type(attachments: Seq<OutboundAttachment>) -> Option<Seq<char>>
    decreases attachments.len(),
{
    if attachments.len() == 0 {
        None
    } else {
        match refused_content_type(attachments.drop_last()) {
            Some(text) => Some(text),
            None => match content_type_parsed(attachments.last().content_type@) {
                Some(_) => None,
                None => Some(attachments.last().content_type@),
            },
        }
    }
}

/// A media type that is refused among the first attachments is refused among all.
proof fn lemma_content_type_refusal_stays(attachments: Seq<OutboundAttachment>, count: int)
    requires
        0 <= count <= attachments.len(),
        refused_content_type(attachments.take(count)) is Some,
    ensures
        refused_content_type(attachments) == refused_content_type(attachments.take(count)),
    decreases attachments.len(),
{
    if count < attachments.len() {
        assert(attachments.drop_last().take(count) =~= attachments.take(count));
        lemma_content_type_refusal_stays(attachments.drop_last(), count);
    } else {
        assert(attachments.take(count) =~= attachments);
    }
}

/// The MIME part of an attachment.
pub open spec fn part_of_attachment(attachment: OutboundAttachment) -> MimePart {
    MimePart::Single {
        content_type: content_type_parsed(attachment.content_type@)->0,
        attachment_name: Some(attachment.filename@),
        body: encoded_bytes(attachment.bytes@),
    }
}

/// The MIME part of an email: its body, or its body followed by its attachments.
pub open spec fn email_part(email: OutboundEmail) -> MimePart {
    if email.attachments@.len() == 0 {
        body_part(email.body.parts())
    } else {
        MimePart::Multi {
            kind: MultiKind::Mixed,
            parts: seq![body_part(email.body.parts())] + email.attachments@.map_values(
                |attachment: OutboundAttachment| part_of_attachment(attachment),
            ),
        }
    }
}

/// The headers with a `To` in any case: where all recipients get copies, it names
/// nobody. Without recipients there is none.
pub open spec fn with_shown_to(
    headers: Map<HeaderField, Seq<char>>,
    recipients: Seq<(RecipientKind, String)>,
) -> Map<HeaderField, Seq<char>> {
    if recipients.len() > 0 && addresses_of(recipients, RecipientKind::To).len() == 0 {
        headers.insert(HeaderField::To, UNDISCLOSED@)
    } else {
        headers
    }
}

/// The headers that an email asks for.
pub open spec fn email_headers(email: OutboundEmail) -> Map<HeaderField, Seq<char>> {
    let addressed = with_shown_to(
        with_recipients(
            Map::empty().insert(HeaderField::From, email.sender@),
            email.recipients@,
        ),
        email.recipients@,
    );
    match email.subject {
        Some(subject) => addressed.insert(HeaderField::Subject, subject@),
        None => addressed,
    }
}

/// Whether headers show what a reader of the message may see of an email: the
/// sender, a `To` in any case (which names nobody where there is nobody to name),
/// the subject and the copies if there are any, and nothing of the blind copies.
pub open spec fn shows_email(headers: Map<HeaderField, Seq<char>>, email: OutboundEmail) -> bool {
    &&& headers.contains_key(HeaderField::From)
    &&& headers[HeaderField::From] == email.sender@
    &&& headers.contains_key(HeaderField::Subject) <==> email.subject is Some
    &&& email.subject matches Some(subject) ==> headers[HeaderField::Subject] == subject@
    &&& headers.contains_key(HeaderField::To)
    &&& addresses_of(email.recipients@, RecipientKind::To).len() == 0 ==> headers[HeaderField::To]
        == UNDISCLOSED@
    &&& headers.contains_key(HeaderField::Cc) <==> addresses_of(
        email.recipients@,
        RecipientKind::Cc,
    ).len() > 0
    &&& !headers.contains_key(HeaderField::Bcc)
}

/// Why the message of an email cannot be built; `None` if it can.
pub open spec fn build_failure(email: OutboundEmail) -> Option<BuildFailure> {
    if !address_accepted(email.sender@) {
        Some(BuildFailure::InvalidAddress(email.sender@))
    } else {
        match refused_recipient(email.recipients@) {
            Some(text) => Some(BuildFailure::InvalidAddress(text)),
            None => match refused_content_type(email.attachments@) {
                Some(text) => Some(BuildFailure::InvalidContentType(text)),
                None => match envelope_found(email_headers(email)) {
                    Some(_) => None,
                    None => Some(
                        BuildFailure::NotAddressed {
                            with_attachments: email.attachments@.len() > 0,
                        },
                    ),
                },
            },
        }
    }
}

/// The media type that was parsed, or the refusal of its text.
pub fn media_type_of(
    text: &str,
    parsed: Result<
        lettre::message::header::ContentType,
        lettre::message::header::ContentTypeErr,
    >,
) -> (made: Result<lettre::message::header::ContentType, BuildError>)
    ensures
        match parsed {
            Ok(content_type) => made matches Ok(found) && found == content_type,
            Err(_) => made matches Err(error) && error@ == BuildFailure::InvalidContentType(text@),
        },
{
    match parsed {
        Ok(content_type) => Ok(content_type),
        Err(_) => Err(BuildError::InvalidContentType(text.to_owned())),
    }
}

/// The message that was finished, or the refusal of its addresses.
pub fn message_of(
    finished: Result<lettre::Message, lettre::error::Error>,
    with_attachments: bool,
) -> (made: Result<lettre::Message, BuildError>)
    ensures
        match finished {
            Ok(message) => made matches Ok(found) && found == message,
            Err(_) => made matches Err(error) && error@ == (BuildFailure::NotAddressed {
                with_attachments,
            }),
        },
{
    match finished {
        Ok(message) => Ok(message),
        Err(_) => Err(BuildError::NotAddressed { with_attachments }),
    }
}

/// Adds the attachments behind the body.
fn build_mixed_part(
    body: lettre::message::MultiPart,
    attachments: &Vec<OutboundAttachment>,
) -> (built: Result<lettre::message::MultiPart, BuildError>)
    ensures
        match refused_content_type(attachments@) {
            Some(text) => built matches Err(error) && error@ == BuildFailure::InvalidContentType(
                text,
            ),
            None => built matches Ok(part) && multi_part(part) == (MimePart::Multi {
                kind: MultiKind::Mixed,
                parts: seq![multi_part(body)] + attachments@.map_values(
                    |attachment: OutboundAttachment| part_of_attachment(attachment),
                ),
            }) && multi_bounded(part) == multi_bounded(body),
        },
{
    let ghost bounded = multi_bounded(body);
    let ghost first = multi_part(body);
    let mut mixed = add_multi(new_mixed(), body);
    assert(multi_part(mixed)->parts =~= seq![first] + attachments@.take(0).map_values(
        |attachment: OutboundAttachment| part_of_attachment(attachment),
    ));
    for i in 0..attachments.len()
        invariant
            refused_content_type(attachments@.take(i as int)) is None,
            multi_bounded(mixed) == bounded,
            multi_part(mixed) == (MimePart::Multi {
                kind: MultiKind::Mixed,
                parts: seq![first] + attachments@.take(i as int).map_values(
                    |attachment: OutboundAttachment| part_of_attachment(attachment),
                ),
            }),
    {
        proof {
            assert(attachments@.take(i + 1).drop_last() =~= attachments@.take(i as int));
            assert(attachments@.take(i + 1).last() == attachments@[i as int]);
        }
        let attachment = &attachments[i];
        let text = attachment.content_type.as_str();
        let content_type = match media_type_of(text, parse_content_type(text)) {
            Ok(content_type) => content_type,
            Err(error) => {
                proof {
                    lemma_content_type_refusal_stays(attachments@, i + 1);
                }
                return Err(error);
            },
        };
        mixed =
        add_single(
            mixed,
            attachment_part(content_type, attachment.filename.as_str(), attachment.bytes.clone()),
        );
        assert(multi_part(mixed)->parts =~= seq![first] + attachments@.take(i + 1).map_values(
            |attachment: OutboundAttachment| part_of_attachment(attachment),
        ));
    }
    assert(attachments@.take(attachments@.len() as int) =~= attachments@);
    Ok(mixed)
}

/// Builds the MIME message of an email.
pub fn build_message(email: &OutboundEmail) -> (built: Result<lettre::Message, BuildError>)
    ensures
        match build_failure(*email) {
            Some(failure) => built matches Err(error) && error@ == failure,
            None => built matches Ok(message) && message_headers(message) == email_headers(
                *email,
            ).remove(HeaderField::Bcc) && message_part(message) == email_part(*email)
                && envelope_found(email_headers(*email)) == Some(message_envelope(message)),
        },
        email.recipients@.len() == 0 ==> built is Err,
        plain_address(email.sender@) && all_plain(email.recipients@) && email.recipients@.len() > 0
            && refused_content_type(email.attachments@) is None ==> built is Ok,
        built matches Ok(message) ==> (all_plain(email.recipients@) ==> field_lists(
            message_headers(message),
            HeaderField::To,
            addresses_of(email.recipients@, RecipientKind::To),
        ) && field_lists(
            message_headers(message),
            HeaderField::Cc,
            addresses_of(email.recipients@, RecipientKind::Cc),
        )),
        built matches Ok(message) ==> (plain_address(email.sender@) ==> message_envelope(
            message,
        ).sender == email.sender@),
        built matches Ok(message) ==> (all_plain(email.recipients@) ==> message_envelope(
            message,
        ).recipients == addresses_of(email.recipients@, RecipientKind::To) + addresses_of(
            email.recipients@,
            RecipientKind::Cc,
        ) + addresses_of(email.recipients@, RecipientKind::Bcc)),
        built matches Ok(message) ==> message_headers(message).contains_key(HeaderField::To),
        built matches Ok(message) ==> message_bounded(message),
        built matches Ok(message) ==> shows_email(message_headers(message), *email),
{
    proof {
        let from = Map::empty().insert(HeaderField::From, email.sender@);
        lemma_recipient_fields(from, email.recipients@, RecipientKind::To);
        lemma_recipient_fields(from, email.recipients@, RecipientKind::Cc);
        lemma_recipients_keep(from, email.recipients@, HeaderField::Subject);
        if all_plain(email.recipients@) {
            lemma_plain_not_refused(email.recipients@);
        }
    }
    let from = parse_mailbox(email.sender.as_str())?;
    let mut builder = apply_recipients(add_from(new_builder(), from), email.recipients.as_slice())?;
    proof {
        lemma_recipients_keep(
            Map::empty().insert(HeaderField::From, email.sender@),
            email.recipients@,
            HeaderField::From,
        );
    }
    let ghost addressed = builder_view(builder).headers;
    builder = show_to(builder, email.recipients.as_slice());
    if let Some(subject) = &email.subject {
        builder = set_subject(builder, subject.as_str());
    }
    proof {
        let headers = builder_view(builder).headers;
        if all_plain(email.recipients@) && email.recipients@.len() > 0 {
            lemma_fields_list(addressed, headers, email.recipients@);
            if plain_address(email.sender@) {
                lemma_plainly_addressed(headers, email.recipients@);
            }
        }
    }
    let body = build_body_part(&email.body);
    if email.attachments.len() == 0 {
        return message_of(finish_message(builder, body), false);
    }
    let mixed = build_mixed_part(body, &email.attachments)?;
    message_of(finish_message(builder, mixed), true)
}

/// The octets of a message, ready to be sent.
pub fn message_bytes(message: &lettre::Message) -> (octets: Vec<u8>)
    requires
        message_bounded(*message),
    ensures
        octets@ == message_octets(*message),
{
    format_message(message)
}

/// The parts of a body are its text and its HTML, as far as there are any: a text
/// is never lost, whether or not there is HTML, and neither is HTML. They are as
/// many as the body has, so the message of a body is never empty.
pub proof fn law_body_has_a_part_for_each_text(plain: Plain)
    ensures
        body_part(plain) matches MimePart::Multi { kind, parts } && {
            &&& kind is Alternative
            &&& parts.len() == (if plain.text_part() is Some {
                1int
            } else {
                0int
            }) + (if plain.html_part() is Some {
                1int
            } else {
                0int
            })
            &&& plain.has_part() ==> parts.len() > 0
            &&& plain.text_part() matches Some(text) ==> parts[0] == (MimePart::Single {
                content_type: "text/plain; charset=utf-8"@,
                attachment_name: None,
                body: encoded_text(text@),
            })
            &&& plain.html_part() matches Some(html) ==> parts.last() == (MimePart::Single {
                content_type: "text/html; charset=utf-8"@,
                attachment_name: None,
                body: encoded_text(html@),
            })
        },
{
}

/// The message of an email without attachments is its body. With attachments it
/// has its body first, and then one part for each attachment, in order: with the
/// media type of the attachment, its file name and all of its bytes.
pub proof fn law_message_has_the_body_and_every_attachment(email: OutboundEmail, i: int)
    requires
        forall|k: int|
            0 <= k < email.attachments@.len() ==> content_type_parsed(
                (#[trigger] email.attachments@[k]).content_type@,
            ) is Some,
    ensures
        email.attachments@.len() == 0 ==> email_part(email) == body_part(email.body.parts()),
        email.attachments@.len() > 0 ==> (email_part(email) matches MimePart::Multi { kind, parts }
            && {
            &&& kind is Mixed
            &&& parts.len() == 1 + email.attachments@.len()
            &&& parts[0] == body_part(email.body.parts())
            &&& 0 <= i < email.attachments@.len() ==> (parts[i + 1] matches MimePart::Single {
                content_type,
                attachment_name,
                body,
            } && {
                &&& content_type_parsed(email.attachments@[i].content_type@) == Some(content_type)
                &&& attachment_name == Some(email.attachments@[i].filename@)
                &&& body == encoded_bytes(email.attachments@[i].bytes@)
            })
        }),
{
}

/// A recipient is refused exactly where one is no email address, and then it is the
/// first such one.
pub proof fn law_first_bad_recipient_is_refused(recipients: Seq<(RecipientKind, String)>)
    ensures
        refused_recipient(recipients) is None <==> (forall|i: int|
            0 <= i < recipients.len() ==> address_accepted((#[trigger] recipients[i]).1@)),
        refused_recipient(recipients) matches Some(text) ==> exists|i: int|
            {
                &&& 0 <= i < recipients.len()
                &&& (#[trigger] recipients[i]).1@ == text
                &&& !address_accepted(text)
                &&& forall|j: int| 0 <= j < i ==> address_accepted((#[trigger] recipients[j]).1@)
            },
    decreases recipients.len(),
{
    if recipients.len() > 0 {
        let rest = recipients.drop_last();
        let n = rest.len() as int;
        law_first_bad_recipient_is_refused(rest);
        assert forall|i: int| 0 <= i < n implies rest[i] == #[trigger] recipients[i] by {}
        assert(recipients[n] == recipients.last());
        if let Some(text) = refused_recipient(rest) {
            let i = choose|i: int|
                {
                    &&& 0 <= i < rest.len()
                    &&& (#[trigger] rest[i]).1@ == text
                    &&& !address_accepted(text)
                    &&& forall|j: int| 0 <= j < i ==> address_accepted((#[trigger] rest[j]).1@)
                };
            assert(recipients[i].1@ == text);
            assert forall|j: int| 0 <= j < i implies address_accepted(
                (#[trigger] recipients[j]).1@,
            ) by {
                assert(rest[j] == recipients[j]);
            }
        } else {
            assert forall|j: int| 0 <= j < n implies address_accepted(
                (#[trigger] recipients[j]).1@,
            ) by {
                assert(rest[j] == recipients[j]);
            }
        }
    }
}

/// A media type is refused exactly where that of an attachment does not parse, and
/// then it is the first such one.
pub proof fn law_first_bad_media_type_is_refused(attachments: Seq<OutboundAttachment>)
    ensures
        refused_content_type(attachments) is None <==> (forall|i: int|
            0 <= i < attachments.len() ==> content_type_parsed(
                (#[trigger] attachments[i]).content_type@,
            ) is Some),
        refused_content_type(attachments) matches Some(text) ==> exists|i: int|
            {
                &&& 0 <= i < attachments.len()
                &&& (#[trigger] attachments[i]).content_type@ == text
                &&& content_type_parsed(text) is None
                &&& forall|j: int|
                    0 <= j < i ==> content_type_parsed((#[trigger] attachments[j]).content_type@)
                        is Some
            },
    decreases attachments.len(),
{
    if attachments.len() > 0 {
        let rest = attachments.drop_last();
        let n = rest.len() as int;
        law_first_bad_media_type_is_refused(rest);
        assert forall|i: int| 0 <= i < n implies rest[i] == #[trigger] attachments[i] by {}
        assert(attachments[n] == attachments.last());
        if let Some(text) = refused_content_type(rest) {
            let i = choose|i: int|
                {
                    &&& 0 <= i < rest.len()
                    &&& (#[trigger] rest[i]).content_type@ == text
                    &&& content_type_parsed(text) is None
                    &&& forall|j: int|
                        0 <= j < i ==> content_type_parsed((#[trigger] rest[j]).content_type@)
                            is Some
                };
            assert(attachments[i].content_type@ == text);
            assert forall|j: int| 0 <= j < i implies content_type_parsed(
                (#[trigger] attachments[j]).content_type@,
            ) is Some by {
                assert(rest[j] == attachments[j]);
            }
        } else {
            assert forall|j: int| 0 <= j < n implies content_type_parsed(
                (#[trigger] attachments[j]).content_type@,
            ) is Some by {
                assert(rest[j] == attachments[j]);
            }
        }
    }
}

/// A message is built exactly where the sender and every recipient is an email
/// address, every media type parses, and the headers give an envelope. Otherwise a
/// bad sender is reported before a bad recipient, and that before a bad media type.
pub proof fn law_message_is_refused_for_what_is_wrong(email: OutboundEmail)
    ensures
        build_failure(email) is None <==> {
            &&& address_accepted(email.sender@)
            &&& forall|i: int|
                0 <= i < email.recipients@.len() ==> address_accepted(
                    (#[trigger] email.recipients@[i]).1@,
                )
            &&& forall|i: int|
                0 <= i < email.attachments@.len() ==> content_type_parsed(
                    (#[trigger] email.attachments@[i]).content_type@,
                ) is Some
            &&& envelope_found(email_headers(email)) is Some
        },
        !address_accepted(email.sender@) ==> build_failure(email) == Some(
            BuildFailure::InvalidAddress(email.sender@),
        ),
        address_accepted(email.sender@) ==> (refused_recipient(email.recipients@) matches Some(text)
            ==> build_failure(email) == Some(BuildFailure::InvalidAddress(text))),
        address_accepted(email.sender@) && refused_recipient(email.recipients@) is None ==> (
        refused_content_type(email.attachments@) matches Some(text) ==> build_failure(email)
            == Some(BuildFailure::InvalidContentType(text))),
        build_failure(email) matches Some(BuildFailure::NotAddressed { with_attachments })
            ==> with_attachments == (email.attachments@.len() > 0),
{
    law_first_bad_recipient_is_refused(email.recipients@);
    law_first_bad_media_type_is_refused(email.attachments@);
}

/// What a refused message is reported as.
pub proof fn law_refusals_name_what_is_wrong(text: Seq<char>)
    ensures
        BuildFailure::InvalidAddress(text).message() == "invalid address: "@ + text,
        BuildFailure::InvalidContentType(text).message() == "invalid attachment content-type: "@
            + text,
        (BuildFailure::NotAddressed { with_attachments: false }).message()
            == "building email message"@,
        (BuildFailure::NotAddressed { with_attachments: true }).message()
            == "building email message with attachments"@,
{
}

/// An error is the failure it is made of.
pub proof fn law_errors_keep_their_texts(text: String, with_attachments: bool)
    ensures
        BuildError::InvalidAddress(text)@ == BuildFailure::InvalidAddress(text@),
        BuildError::InvalidContentType(text)@ == BuildFailure::InvalidContentType(text@),
        (BuildError::NotAddressed { with_attachments })@ == (BuildFailure::NotAddressed {
            with_attachments,
        }),
{
}

/// The addresses of a kind among recipients are those of the one part followed by
/// those of the other; a single recipient is among those of its own kind only.
pub proof fn law_addresses_are_those_of_their_kind(
    left: Seq<(RecipientKind, String)>,
    right: Seq<(RecipientKind, String)>,
    recipient: (RecipientKind, String),
    kind: RecipientKind,
)
    ensures
        addresses_of(Seq::empty(), kind).len() == 0,
        addresses_of(left + right, kind) == addresses_of(left, kind) + addresses_of(right, kind),
        recipient.0 == kind ==> addresses_of(seq![recipient], kind) == seq![recipient.1@],
        recipient.0 != kind ==> addresses_of(seq![recipient], kind).len() == 0,
    decreases right.len(),
{
    let single = seq![recipient];
    assert(single.drop_last() =~= Seq::empty());
    assert(addresses_of(single.drop_last(), kind) =~= Seq::empty());
    if recipient.0 == kind {
        assert(addresses_of(single, kind) =~= seq![recipient.1@]);
    }
    if right.len() == 0 {
        assert(left + right =~= left);
        assert(addresses_of(left, kind) + addresses_of(right, kind) =~= addresses_of(left, kind));
    } else {
        law_addresses_are_those_of_their_kind(left, right.drop_last(), recipient, kind);
        assert((left + right).drop_last() =~= left + right.drop_last());
        assert((left + right).last() == right.last());
        assert(addresses_of(left + right, kind) =~= addresses_of(left, kind) + addresses_of(
            right,
            kind,
        ));
    }
}

/// One more recipient goes to the header of its kind, as its only value or joined to
/// those that are there, and changes no other header.
pub proof fn law_recipient_goes_to_the_header_of_its_kind(
    headers: Map<HeaderField, Seq<char>>,
    recipients: Seq<(RecipientKind, String)>,
    recipient: (RecipientKind, String),
    field: HeaderField,
)
    requires
        match recipient.0 {
            RecipientKind::To => field is To,
            RecipientKind::Cc => field is Cc,
            RecipientKind::Bcc => field is Bcc,
        },
    ensures
        with_recipients(headers, Seq::empty()) == headers,
        with_recipients(headers, recipients.push(recipient)) == with_recipients(
            headers,
            recipients,
        ).insert(
            field,
            if with_recipients(headers, recipients).contains_key(field) {
                mailboxes_joined(with_recipients(headers, recipients)[field], recipient.1@)
            } else {
                recipient.1@
            },
        ),
{
    assert(recipients.push(recipient).drop_last() =~= recipients);
    assert(recipients.push(recipient).last() == recipient);
}

/// The headers of an email: the sender under `From`, the subject if there is one,
/// the recipients under the headers of their kinds, and an empty group under `To`
/// where all recipients get copies.
pub proof fn law_headers_are_those_of_the_email(email: OutboundEmail, field: HeaderField)
    ensures
        email_headers(email).contains_key(HeaderField::From),
        email_headers(email)[HeaderField::From] == email.sender@,
        email.subject matches Some(subject) ==> email_headers(email).contains_key(
            HeaderField::Subject,
        ) && email_headers(email)[HeaderField::Subject] == subject@,
        email.subject is None ==> !email_headers(email).contains_key(HeaderField::Subject),
        email.recipients@.len() > 0 ==> email_headers(email).contains_key(HeaderField::To),
        email.recipients@.len() > 0 && addresses_of(email.recipients@, RecipientKind::To).len() == 0
            ==> email_headers(email)[HeaderField::To] == "undisclosed-recipients:;"@,
        field is Cc || field is Bcc || (field is To && addresses_of(
            email.recipients@,
            RecipientKind::To,
        ).len() > 0) ==> ({
            let added = with_recipients(
                Map::empty().insert(HeaderField::From, email.sender@),
                email.recipients@,
            );
            &&& email_headers(email).contains_key(field) <==> added.contains_key(field)
            &&& email_headers(email).contains_key(field) ==> email_headers(email)[field]
                == added[field]
        }),
        email_headers(email).contains_key(HeaderField::Cc) <==> addresses_of(
            email.recipients@,
            RecipientKind::Cc,
        ).len() > 0,
        email_headers(email).contains_key(HeaderField::Bcc) <==> addresses_of(
            email.recipients@,
            RecipientKind::Bcc,
        ).len() > 0,
{
    let from = Map::empty().insert(HeaderField::From, email.sender@);
    lemma_recipients_keep(from, email.recipients@, HeaderField::From);
    lemma_recipients_keep(from, email.recipients@, HeaderField::Subject);
    lemma_recipient_fields(from, email.recipients@, RecipientKind::To);
    lemma_recipient_fields(from, email.recipients@, RecipientKind::Cc);
    lemma_recipient_fields(from, email.recipients@, RecipientKind::Bcc);
}

/// What the headers of a finished message show of an email.
pub proof fn law_shown_headers_are_those_of_the_email(
    headers: Map<HeaderField, Seq<char>>,
    email: OutboundEmail,
)
    requires
        shows_email(headers, email),
    ensures
        headers.contains_key(HeaderField::From) && headers[HeaderField::From] == email.sender@,
        headers.contains_key(HeaderField::Subject) <==> email.subject is Some,
        email.subject matches Some(subject) ==> headers[HeaderField::Subject] == subject@,
        headers.contains_key(HeaderField::To),
        addresses_of(email.recipients@, RecipientKind::To).len() == 0 ==> headers[HeaderField::To]
            == "undisclosed-recipients:;"@,
        headers.contains_key(HeaderField::Cc) <==> addresses_of(
            email.recipients@,
            RecipientKind::Cc,
        ).len() > 0,
        !headers.contains_key(HeaderField::Bcc),
{
}

/// A list of plain addresses is written with a comma and a space between them.
pub proof fn law_lists_are_written_with_commas(texts: Seq<Seq<char>>, text: Seq<char>)
    ensures
        comma_list(seq![text]) == text,
        texts.len() > 0 ==> comma_list(texts.push(text)) == comma_list(texts) + ", "@ + text,
{
    assert(texts.push(text).drop_last() =~= texts);
}

} // verus!
