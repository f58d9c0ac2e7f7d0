//! The entities of the email domain.
use crate::id::EmailId;
use crate::variables::Variables;
use vstd::prelude::*;

verus! {

/// How a recipient is addressed.
#[derive(Clone, Copy, Debug, PartialEq, Eq, Structural)]
pub enum RecipientKind {
    To,
    Cc,
    Bcc,
}

/// A body given as text, HTML or both; it holds at least one of them.
#[derive(Debug)]
pub struct Plain {
    text: Option<String>,
    html: Option<String>,
}

/// A plain body was given neither text nor HTML.
#[derive(Clone, Copy, Debug, PartialEq, Eq, Structural)]
pub struct EmptyPlainBody;

impl EmptyPlainBody {
    /// The message of the error.
    pub open spec fn message(self) -> Seq<char> {
        "plain body requires text or html"@
    }

    /// The message of the error, for display.
    pub fn to_text(&self) -> (text: String)
        ensures
            text@ == self.message(),
            text@ == "plain body requires text or html"@,
    {
        "plain body requires text or html".to_owned()
    }
}

impl Plain {
    /// The body made of the given parts.
    pub closed spec fn of(text: Option<String>, html: Option<String>) -> Plain {
        Plain { text, html }
    }

    /// The text part.
    pub closed spec fn text_part(self) -> Option<String> {
        self.text
    }

    /// The HTML part.
    pub closed spec fn html_part(self) -> Option<String> {
        self.html
    }

    /// Whether the body holds text or HTML, as every body that is built does.
    pub open spec fn has_part(self) -> bool {
        self.text_part() is Some || self.html_part() is Some
    }

    #[verifier::type_invariant]
    spec fn holds_a_part(self) -> bool {
        self.has_part()
    }

    /// A body is its two parts.
    pub broadcast proof fn parts_determine_body(self, text: Option<String>, html: Option<String>)
        ensures
            #![trigger Plain::of(text, html), self.text_part()]
            Plain::of(text, html).text_part() == text,
            Plain::of(text, html).html_part() == html,
            self == Plain::of(self.text_part(), self.html_part()),
    {
    }

    /// The body of the given parts; refused when there is neither.
    pub fn try_new(text: Option<String>, html: Option<String>) -> (made: Result<
        Plain,
        EmptyPlainBody,
    >)
        ensures
            made is Ok <==> (text is Some || html is Some),
            made matches Ok(plain) ==> plain == Plain::of(text, html) && plain.text_part() == text
                && plain.html_part() == html,
    {
        if text.is_none() && html.is_none() {
            Err(EmptyPlainBody)
        } else {
            Ok(Plain { text, html })
        }
    }

    /// The text part, if there is one.
    pub fn text(&self) -> (text: Option<&String>)
        ensures
            match self.text_part() {
                Some(part) => text matches Some(found) && *found == part,
                None => text is None,
            },
    {
        self.text.as_ref()
    }

    /// The HTML part, if there is one.
    pub fn html(&self) -> (html: Option<&String>)
        ensures
            match self.html_part() {
                Some(part) => html matches Some(found) && *found == part,
                None => html is None,
            },
    {
        self.html.as_ref()
    }
}

/// Where the MJML template of a body comes from.
#[derive(Debug)]
pub enum MjmlSource {
    /// The template itself.
    Inline(String),
    /// The name of a stored template.
    Named(String),
    /// The URL to fetch the template from.
    Remote(String),
}

/// The body of an email before rendering.
#[derive(Debug)]
pub enum BodySource {
    Plain(Plain),
    Mjml(MjmlSource),
}

impl BodySource {
    /// Whether a plain body holds text or HTML, as every body that is built does.
    pub open spec fn wf(self) -> bool {
        self matches BodySource::Plain(plain) ==> plain.has_part()
    }
}

/// Where the content of an attachment is kept.
#[derive(Debug)]
pub struct BlobRef {
    pub backend: String,
    pub key: String,
}

/// An attachment of a stored email.
#[derive(Debug)]
pub struct AttachmentRef {
    pub filename: String,
    pub content_type: String,
    pub size_bytes: u64,
    pub blob: BlobRef,
}

/// An email as it was submitted.
pub struct Envelope {
    pub idempotency_key: Option<String>,
    pub correlation_id: Option<String>,
    pub subject: Option<String>,
    pub sender: String,
    pub recipients: Vec<(RecipientKind, String)>,
    pub body: BodySource,
    pub variables: Variables,
    pub attachments: Vec<AttachmentRef>,
}

/// How far the delivery of an email has come.
#[derive(Clone, Copy, Debug, PartialEq, Eq, Structural)]
pub enum EmailStatus {
    Queued,
    Sent,
    Failed,
}

/// A stored email as it is listed.
#[derive(Debug)]
pub struct EmailRecord {
    pub id: EmailId,
    pub idempotency_key: Option<String>,
    pub subject: Option<String>,
    pub sender: String,
    pub recipients: Vec<(RecipientKind, String)>,
    pub created_at_ms: i64,
    pub status: EmailStatus,
}

/// Which emails to list, and which page of them.
#[derive(Debug)]
pub struct ListEmailsParams {
    pub status: Option<EmailStatus>,
    pub after_ms: Option<i64>,
    pub before_ms: Option<i64>,
    pub recipient: Option<String>,
    pub template: Option<String>,
    pub id: Option<EmailId>,
    pub limit: u32,
    pub offset: u32,
}

/// What became of a save.
#[derive(Clone, Copy, Debug, PartialEq, Eq, Structural)]
pub enum SaveResult {
    /// The email was stored under this identifier.
    Created(EmailId),
    /// An email with the same idempotency key was already stored, under this identifier.
    Duplicate(EmailId),
}

/// A body after rendering.
#[derive(Debug)]
pub struct RenderedBody {
    plain: Plain,
}

impl RenderedBody {
    /// The parts of the body.
    pub closed spec fn parts(self) -> Plain {
        self.plain
    }

    /// A rendered body of the given parts.
    pub fn new(plain: Plain) -> (body: RenderedBody)
        ensures
            body.parts() == plain,
    {
        RenderedBody { plain }
    }

    /// The text part, if there is one.
    pub fn text(&self) -> (text: Option<&String>)
        ensures
            match self.parts().text_part() {
                Some(part) => text matches Some(found) && *found == part,
                None => text is None,
            },
    {
        self.plain.text()
    }

    /// The HTML part, if there is one.
    pub fn html(&self) -> (html: Option<&String>)
        ensures
            match self.parts().html_part() {
                Some(part) => html matches Some(found) && *found == part,
                None => html is None,
            },
    {
        self.plain.html()
    }
}

/// The content of an attachment, ready to be sent.
#[derive(Debug)]
pub struct OutboundAttachment {
    pub filename: String,
    pub content_type: String,
    pub bytes: Vec<u8>,
}

/// An email ready to be sent.
#[derive(Debug)]
pub struct OutboundEmail {
    pub sender: String,
    pub subject: Option<String>,
    pub recipients: Vec<(RecipientKind, String)>,
    pub body: RenderedBody,
    pub attachments: Vec<OutboundAttachment>,
}

} // verus!
