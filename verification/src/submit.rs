//! The requests and responses of the HTTP surface.
use crate::email::{
    BodySource, EmailRecord, EmailStatus, EmptyPlainBody, Envelope, ListEmailsParams, MjmlSource,
    Plain, RecipientKind, SaveResult,
};
use crate::id::{uuid_text, EmailId};
use crate::text::{opt_str_text, same_text};
use crate::variables::Variables;
use vstd::prelude::*;
use vstd::string::StringExecFns;

verus! {

/// A recipient as it is submitted.
#[derive(Debug)]
pub struct RecipientIn {
    pub kind: String,
    pub address: String,
}

/// A body as it is submitted.
#[derive(Debug)]
pub enum BodyIn {
    Plain { text: Option<String>, html: Option<String> },
    MjmlInline { source: String },
    MjmlNamed { name: String },
}

/// An email as it is submitted.
pub struct SubmitRequest {
    pub sender: String,
    pub recipients: Vec<RecipientIn>,
    pub subject: Option<String>,
    pub body: BodyIn,
    pub params: Variables,
}

/// The name of a recipient kind.
pub open spec fn kind_name(kind: RecipientKind) -> Seq<char> {
    match kind {
        RecipientKind::To => "to"@,
        RecipientKind::Cc => "cc"@,
        RecipientKind::Bcc => "bcc"@,
    }
}

/// The recipient kind with a name.
pub open spec fn kind_named(name: Seq<char>) -> Option<RecipientKind> {
    if name == "to"@ {
        Some(RecipientKind::To)
    } else if name == "cc"@ {
        Some(RecipientKind::Cc)
    } else if name == "bcc"@ {
        Some(RecipientKind::Bcc)
    } else {
        None
    }
}

/// The name of a delivery status.
pub open spec fn status_name(status: EmailStatus) -> Seq<char> {
    match status {
        EmailStatus::Queued => "queued"@,
        EmailStatus::Sent => "sent"@,
        EmailStatus::Failed => "failed"@,
    }
}

/// The kind of the first recipient whose kind has no meaning.
pub open spec fn unknown_kind(recipients: Seq<RecipientIn>) -> Option<Seq<char>>
    decreases recipients.len(),
{
    if recipients.len() == 0 {
        None
    } else {
        match unknown_kind(recipients.drop_last()) {
            Some(name) => Some(name),
            None => match kind_named(recipients.last().kind@) {
                Some(_) => None,
                None => Some(recipients.last().kind@),
            },
        }
    }
}

/// A kind that is unknown among the first recipients is unknown among all.
proof fn lemma_unknown_stays(recipients: Seq<RecipientIn>, count: int)
    requires
        0 <= count <= recipients.len(),
        unknown_kind(recipients.take(count)) is Some,
    ensures
        unknown_kind(recipients) == unknown_kind(recipients.take(count)),
    decreases recipients.len(),
{
    if count < recipients.len() {
        assert(recipients.drop_last().take(count) =~= recipients.take(count));
        lemma_unknown_stays(recipients.drop_last(), count);
    } else {
        assert(recipients.take(count) =~= recipients);
    }
}

/// The recipients that were submitted.
pub open spec fn submitted_recipients(recipients: Seq<RecipientIn>) -> Seq<
    (RecipientKind, String),
> {
    recipients.map_values(
        |recipient: RecipientIn| (kind_named(recipient.kind@)->0, recipient.address),
    )
}

/// The body that was submitted; a plain one without text and HTML is none.
pub open spec fn submitted_body(body: BodyIn) -> Option<BodySource> {
    match body {
        BodyIn::Plain { text, html } => if text is Some || html is Some {
            Some(BodySource::Plain(Plain::of(text, html)))
        } else {
            None
        },
        BodyIn::MjmlInline { source } => Some(BodySource::Mjml(MjmlSource::Inline(source))),
        BodyIn::MjmlNamed { name } => Some(BodySource::Mjml(MjmlSource::Named(name))),
    }
}

/// Why a request is refused; `None` if it is not.
pub open spec fn refusal(request: SubmitRequest) -> Option<Seq<char>> {
    match unknown_kind(request.recipients@) {
        Some(name) => Some("invalid recipient kind: "@ + name),
        None => match submitted_body(request.body) {
            None => Some(EmptyPlainBody.message()),
            Some(_) => None,
        },
    }
}

/// Whether an envelope is the email of a request.
pub open spec fn is_envelope_of(envelope: Envelope, request: SubmitRequest) -> bool {
    &&& envelope.idempotency_key is None
    &&& envelope.correlation_id is None
    &&& envelope.subject == request.subject
    &&& envelope.sender == request.sender
    &&& envelope.recipients@ == submitted_recipients(request.recipients@)
    &&& submitted_body(request.body) == Some(envelope.body)
    &&& envelope.variables == request.params
    &&& envelope.attachments@.len() == 0
}

/// The recipient kind with a name.
pub fn parse_kind(name: &str) -> (parsed: Result<RecipientKind, String>)
    ensures
        match kind_named(name@) {
            Some(kind) => parsed matches Ok(found) && found == kind,
            None => parsed matches Err(error) && error@ == "invalid recipient kind: "@ + name@,
        },
        parsed == (Ok::<RecipientKind, String>(RecipientKind::To)) <==> name@ == "to"@,
        parsed == (Ok::<RecipientKind, String>(RecipientKind::Cc)) <==> name@ == "cc"@,
        parsed == (Ok::<RecipientKind, String>(RecipientKind::Bcc)) <==> name@ == "bcc"@,
        parsed matches Err(error) ==> error@ == "invalid recipient kind: "@ + name@,
{
    proof {
        lemma_kind_names_differ();
    }
    if same_text(name, "to") {
        Ok(RecipientKind::To)
    } else if same_text(name, "cc") {
        Ok(RecipientKind::Cc)
    } else if same_text(name, "bcc") {
        Ok(RecipientKind::Bcc)
    } else {
        Err("invalid recipient kind: ".to_owned().concat(name))
    }
}

impl SubmitRequest {
    /// The email of the request; one with an unknown recipient kind or an empty
    /// plain body is refused.
    pub fn into_envelope(self) -> (made: Result<Envelope, String>)
        ensures
            match refusal(self) {
                Some(message) => made matches Err(error) && error@ == message,
                None => made matches Ok(envelope) && is_envelope_of(envelope, self),
            },
            made matches Ok(envelope) ==> {
                &&& envelope.idempotency_key is None
                &&& envelope.correlation_id is None
                &&& envelope.sender == self.sender
                &&& envelope.subject == self.subject
                &&& envelope.variables == self.params
                &&& envelope.attachments@.len() == 0
                &&& envelope.recipients@.len() == self.recipients@.len()
                &&& match self.body {
                    BodyIn::Plain { text, html } => envelope.body matches BodySource::Plain(plain)
                        && plain.text_part() == text && plain.html_part() == html,
                    BodyIn::MjmlInline { source } => envelope.body == BodySource::Mjml(
                        MjmlSource::Inline(source),
                    ),
                    BodyIn::MjmlNamed { name } => envelope.body == BodySource::Mjml(
                        MjmlSource::Named(name),
                    ),
                }
            },
            made is Err ==> self.recipients@.len() > 0 || (self.body matches BodyIn::Plain {
                text,
                html,
            } && text is None && html is None),
    {
        let ghost submitted = self.recipients@;
        let mut recipients: Vec<(RecipientKind, String)> = Vec::new();
        for recipient in rest: self.recipients
            invariant
                rest.seq() == submitted,
                unknown_kind(submitted.take(rest.index() as int)) is None,
                recipients@ == submitted_recipients(submitted.take(rest.index() as int)),
        {
            let ghost i = rest.index() as int;
            proof {
                assert(recipient == submitted[i]);
                assert(submitted.take(i + 1).drop_last() =~= submitted.take(i));
                assert(submitted.take(i + 1) =~= submitted.take(i).push(submitted[i]));
            }
            match parse_kind(recipient.kind.as_str()) {
                Ok(kind) => recipients.push((kind, recipient.address)),
                Err(message) => {
                    proof {
                        lemma_unknown_stays(submitted, i + 1);
                    }
                    return Err(message);
                },
            }
        }
        assert(submitted.take(submitted.len() as int) =~= submitted);
        let body = match self.body {
            BodyIn::Plain { text, html } => match Plain::try_new(text, html) {
                Ok(plain) => BodySource::Plain(plain),
                Err(empty) => {
                    return Err(empty.to_text());
                },
            },
            BodyIn::MjmlInline { source } => BodySource::Mjml(MjmlSource::Inline(source)),
            BodyIn::MjmlNamed { name } => BodySource::Mjml(MjmlSource::Named(name)),
        };
        Ok(
            Envelope {
                idempotency_key: None,
                correlation_id: None,
                subject: self.subject,
                sender: self.sender,
                recipients,
                body,
                variables: self.params,
                attachments: Vec::new(),
            },
        )
    }
}

/// A recipient as it is shown.
#[derive(Debug)]
pub struct RecipientOut {
    pub kind: String,
    pub address: String,
}

/// An email as it is shown.
#[derive(Debug)]
pub struct EmailRecordDto {
    pub id: String,
    pub idempotency_key: Option<String>,
    pub subject: Option<String>,
    pub sender: String,
    pub recipients: Vec<RecipientOut>,
    pub created_at_ms: i64,
    pub status: String,
}

/// Whether shown recipients are the given ones, in order.
pub open spec fn shows_recipients(
    shown: Seq<RecipientOut>,
    recipients: Seq<(RecipientKind, String)>,
) -> bool {
    &&& shown.len() == recipients.len()
    &&& forall|i: int|
        #![trigger shown[i]]
        #![trigger recipients[i]]
        0 <= i < recipients.len() ==> shown[i].kind@ == kind_name(recipients[i].0)
            && shown[i].address == recipients[i].1
}

/// Whether a shown email is the given record.
pub open spec fn shows_record(shown: EmailRecordDto, record: EmailRecord) -> bool {
    &&& shown.id@ == record.id.text()
    &&& shown.idempotency_key == record.idempotency_key
    &&& shown.subject == record.subject
    &&& shown.sender == record.sender
    &&& shows_recipients(shown.recipients@, record.recipients@)
    &&& shown.created_at_ms == record.created_at_ms
    &&& shown.status@ == status_name(record.status)
}

impl From<EmailRecord> for EmailRecordDto {
    fn from(record: EmailRecord) -> (shown: EmailRecordDto)
        ensures
            shows_record(shown, record),
            shown.id@ == uuid_text(record.id.bits),
            shown.idempotency_key == record.idempotency_key,
            shown.subject == record.subject,
            shown.sender == record.sender,
            shown.created_at_ms == record.created_at_ms,
            shown.recipients@.len() == record.recipients@.len(),
            forall|i: int|
                0 <= i < record.recipients@.len() ==> {
                    &&& (#[trigger] shown.recipients@[i]).address == record.recipients@[i].1
                    &&& shown.recipients@[i].kind@ == match record.recipients@[i].0 {
                        RecipientKind::To => "to"@,
                        RecipientKind::Cc => "cc"@,
                        RecipientKind::Bcc => "bcc"@,
                    }
                },
            shown.status@ == match record.status {
                EmailStatus::Queued => "queued"@,
                EmailStatus::Sent => "sent"@,
                EmailStatus::Failed => "failed"@,
            },
    {
        let ghost given = record.recipients@;
        let mut recipients: Vec<RecipientOut> = Vec::new();
        for recipient in rest: record.recipients
            invariant
                rest.seq() == given,
                shows_recipients(recipients@, given.take(rest.index() as int)),
        {
            proof {
                let i = rest.index() as int;
                assert(recipient == given[i]);
                assert(given.take(i + 1) =~= given.take(i).push(given[i]));
            }
            recipients.push(
                RecipientOut { kind: kind_str(recipient.0).to_owned(), address: recipient.1 },
            );
        }
        assert(given.take(given.len() as int) =~= given);
        EmailRecordDto {
            id: record.id.to_text(),
            idempotency_key: record.idempotency_key,
            subject: record.subject,
            sender: record.sender,
            recipients,
            created_at_ms: record.created_at_ms,
            status: status_str(record.status).to_owned(),
        }
    }
}

// The shown list is a fresh vector, so `from` states what it holds, not which value
// it is.
impl vstd::std_specs::convert::FromSpecImpl<EmailRecord> for EmailRecordDto {
    open spec fn obeys_from_spec() -> bool {
        false
    }

    open spec fn from_spec(record: EmailRecord) -> EmailRecordDto {
        choose|shown: EmailRecordDto| shows_record(shown, record)
    }
}

/// The shown forms of records, in order.
pub fn show_records(records: Vec<EmailRecord>) -> (shown: Vec<EmailRecordDto>)
    ensures
        shown@.len() == records@.len(),
        forall|i: int|
            #![trigger shown@[i]]
            #![trigger records@[i]]
            0 <= i < records@.len() ==> shows_record(shown@[i], records@[i]),
        forall|i: int|
            0 <= i < records@.len() ==> {
                &&& (#[trigger] shown@[i]).id@ == uuid_text(records@[i].id.bits)
                &&& shown@[i].subject == records@[i].subject
                &&& shown@[i].sender == records@[i].sender
                &&& shown@[i].idempotency_key == records@[i].idempotency_key
                &&& shown@[i].created_at_ms == records@[i].created_at_ms
            },
{
    let ghost given = records@;
    let mut shown: Vec<EmailRecordDto> = Vec::new();
    for record in rest: records
        invariant
            rest.seq() == given,
            shown@.len() == rest.index(),
            forall|i: int|
                #![trigger shown@[i]]
                #![trigger given[i]]
                0 <= i < rest.index() ==> shows_record(shown@[i], given[i]),
    {
        assert(record == given[rest.index() as int]);
        shown.push(EmailRecordDto::from(record));
    }
    shown
}

/// The name of a recipient kind.
pub fn kind_str(kind: RecipientKind) -> (name: &'static str)
    ensures
        name@ == kind_name(kind),
{
    match kind {
        RecipientKind::To => "to",
        RecipientKind::Cc => "cc",
        RecipientKind::Bcc => "bcc",
    }
}

/// The name of a delivery status.
pub fn status_str(status: EmailStatus) -> (name: &'static str)
    ensures
        name@ == status_name(status),
{
    match status {
        EmailStatus::Queued => "queued",
        EmailStatus::Sent => "sent",
        EmailStatus::Failed => "failed",
    }
}

/// A route of the HTTP surface.
#[derive(Clone, Copy, Debug, PartialEq, Eq, Structural)]
pub enum Route {
    HealthLive,
    HealthReady,
    ListEmails,
    SubmitEmail,
}

/// Whether a request is let through: always to a health route, everywhere where no
/// key is set, and otherwise with `Bearer` and the key as its authorization.
pub open spec fn is_admitted(
    route: Route,
    authorization: Option<Seq<char>>,
    api_key: Option<Seq<char>>,
) -> bool {
    ||| route == Route::HealthLive
    ||| route == Route::HealthReady
    ||| match api_key {
        None => true,
        Some(key) => authorization == Some("Bearer "@ + key),
    }
}

/// Whether a request is let through.
pub fn admits(route: Route, authorization: Option<&str>, api_key: Option<&str>) -> (admitted: bool)
    ensures
        admitted == is_admitted(route, opt_str_text(authorization), opt_str_text(api_key)),
        api_key matches Some(key) ==> (route is ListEmails || route is SubmitEmail ==> (admitted
            <==> (authorization matches Some(given) && given@ == "Bearer "@ + key@))),
        api_key is None || route is HealthLive || route is HealthReady ==> admitted,
{
    match route {
        Route::HealthLive | Route::HealthReady => true,
        Route::ListEmails | Route::SubmitEmail => match api_key {
            None => true,
            Some(key) => match authorization {
                None => false,
                Some(given) => same_text(given, "Bearer ".to_owned().concat(key).as_str()),
            },
        },
    }
}

/// The identifier that a save is answered with: that of the stored email, or of
/// the one that was there before it.
pub fn saved_id(saved: SaveResult) -> (id: EmailId)
    ensures
        saved == SaveResult::Created(id) || saved == SaveResult::Duplicate(id),
{
    match saved {
        SaveResult::Created(id) => id,
        SaveResult::Duplicate(id) => id,
    }
}

/// The page that is listed: the newest fifty emails, without any filter.
pub fn front_page() -> (params: ListEmailsParams)
    ensures
        params.status is None,
        params.after_ms is None,
        params.before_ms is None,
        params.recipient is None,
        params.template is None,
        params.id is None,
        params.limit == 50,
        params.offset == 0,
{
    ListEmailsParams {
        status: None,
        after_ms: None,
        before_ms: None,
        recipient: None,
        template: None,
        id: None,
        limit: 50,
        offset: 0,
    }
}

/// The names of the recipient kinds are read and shown alike: the name of a kind
/// reads as the kind, and a name that reads as a kind is the name of that kind.
pub proof fn law_kind_names_read_back(kind: RecipientKind, name: Seq<char>)
    ensures
        kind_named(kind_name(kind)) == Some(kind),
        kind_named(name) == Some(kind) ==> name == kind_name(kind),
{
    lemma_kind_names_differ();
}

/// The names of the recipient kinds differ.
proof fn lemma_kind_names_differ()
    ensures
        "to"@ != "cc"@,
        "to"@ != "bcc"@,
        "cc"@ != "bcc"@,
{
    reveal_strlit("to");
    reveal_strlit("cc");
    reveal_strlit("bcc");
    assert("to"@[0] != "cc"@[0]);
    assert("to"@.len() != "bcc"@.len());
    assert("cc"@.len() != "bcc"@.len());
}

/// A recipient that was submitted is shown again under the kind and the address it
/// was submitted with.
pub proof fn law_recipients_are_shown_as_submitted(
    submitted: Seq<RecipientIn>,
    shown: Seq<RecipientOut>,
    i: int,
)
    requires
        unknown_kind(submitted) is None,
        shows_recipients(shown, submitted_recipients(submitted)),
        0 <= i < submitted.len(),
    ensures
        shown.len() == submitted.len(),
        shown[i].kind@ == submitted[i].kind@,
        shown[i].address == submitted[i].address,
{
    lemma_known_kinds(submitted, i);
    let kind = kind_named(submitted[i].kind@)->0;
    law_kind_names_read_back(kind, submitted[i].kind@);
    assert(submitted_recipients(submitted)[i] == (kind, submitted[i].address));
}

/// Among recipients without an unknown kind every kind is known.
proof fn lemma_known_kinds(recipients: Seq<RecipientIn>, i: int)
    requires
        unknown_kind(recipients) is None,
        0 <= i < recipients.len(),
    ensures
        kind_named(recipients[i].kind@) is Some,
    decreases recipients.len(),
{
    if i < recipients.len() - 1 {
        lemma_known_kinds(recipients.drop_last(), i);
    }
}

/// A recipient kind is named `to`, `cc` or `bcc`, and nothing else names one; a
/// status is named `queued`, `sent` or `failed`.
pub proof fn law_kinds_and_statuses_are_named(
    kind: RecipientKind,
    status: EmailStatus,
    name: Seq<char>,
)
    ensures
        kind is To ==> kind_name(kind) == "to"@,
        kind is Cc ==> kind_name(kind) == "cc"@,
        kind is Bcc ==> kind_name(kind) == "bcc"@,
        kind_named(name) == Some(RecipientKind::To) <==> name == "to"@,
        kind_named(name) == Some(RecipientKind::Cc) <==> name == "cc"@,
        kind_named(name) == Some(RecipientKind::Bcc) <==> name == "bcc"@,
        status is Queued ==> status_name(status) == "queued"@,
        status is Sent ==> status_name(status) == "sent"@,
        status is Failed ==> status_name(status) == "failed"@,
{
    lemma_kind_names_differ();
}

/// Recipients hold an unknown kind exactly where one is named otherwise than `to`,
/// `cc` and `bcc`, and then it is the first such name.
pub proof fn law_first_unknown_kind_is_found(recipients: Seq<RecipientIn>)
    ensures
        unknown_kind(recipients) is None <==> (forall|i: int|
            0 <= i < recipients.len() ==> (#[trigger] recipients[i]).kind@ == "to"@
                || recipients[i].kind@ == "cc"@ || recipients[i].kind@ == "bcc"@),
        unknown_kind(recipients) matches Some(name) ==> exists|i: int|
            {
                &&& 0 <= i < recipients.len()
                &&& (#[trigger] recipients[i]).kind@ == name
                &&& name != "to"@ && name != "cc"@ && name != "bcc"@
                &&& forall|j: int|
                    0 <= j < i ==> (#[trigger] recipients[j]).kind@ == "to"@ || recipients[j].kind@
                        == "cc"@ || recipients[j].kind@ == "bcc"@
            },
    decreases recipients.len(),
{
    if recipients.len() > 0 {
        let rest = recipients.drop_last();
        let n = rest.len() as int;
        law_first_unknown_kind_is_found(rest);
        assert forall|j: int| 0 <= j < n implies rest[j] == #[trigger] recipients[j] by {}
        assert(recipients[n] == recipients.last());
        if let Some(name) = unknown_kind(rest) {
            let i = choose|i: int|
                {
                    &&& 0 <= i < rest.len()
                    &&& (#[trigger] rest[i]).kind@ == name
                    &&& name != "to"@ && name != "cc"@ && name != "bcc"@
                    &&& forall|j: int|
                        0 <= j < i ==> (#[trigger] rest[j]).kind@ == "to"@ || rest[j].kind@ == "cc"@
                            || rest[j].kind@ == "bcc"@
                };
            assert(recipients[i].kind@ == name);
            assert forall|j: int| 0 <= j < i implies (#[trigger] recipients[j]).kind@ == "to"@
                || recipients[j].kind@ == "cc"@ || recipients[j].kind@ == "bcc"@ by {
                assert(rest[j] == recipients[j]);
            }
        } else {
            assert forall|j: int| 0 <= j < n implies (#[trigger] recipients[j]).kind@ == "to"@
                || recipients[j].kind@ == "cc"@ || recipients[j].kind@ == "bcc"@ by {
                assert(rest[j] == recipients[j]);
            }
        }
    }
}

/// A request is refused exactly where a recipient is of an unknown kind or the body
/// is plain with neither text nor HTML; an unknown kind is reported first.
pub proof fn law_request_is_refused_for_what_is_wrong(request: SubmitRequest)
    ensures
        refusal(request) is None <==> {
            &&& forall|i: int|
                0 <= i < request.recipients@.len() ==> (#[trigger] request.recipients@[i]).kind@
                    == "to"@ || request.recipients@[i].kind@ == "cc"@
                    || request.recipients@[i].kind@ == "bcc"@
            &&& !(request.body matches BodyIn::Plain { text, html } && text is None && html is None)
        },
        unknown_kind(request.recipients@) matches Some(name) ==> refusal(request) == Some(
            "invalid recipient kind: "@ + name,
        ),
        unknown_kind(request.recipients@) is None && refusal(request) is Some ==> refusal(request)
            == Some("plain body requires text or html"@),
{
    law_first_unknown_kind_is_found(request.recipients@);
}

/// The envelope of a request has all that was submitted and nothing else: the
/// sender, the subject, every recipient with its address and the kind it named, in
/// order, the body with exactly the texts it was given, and the parameters. It has
/// no idempotency key, no correlation and no attachments.
pub proof fn law_envelope_has_what_was_submitted(request: SubmitRequest, envelope: Envelope, i: int)
    requires
        refusal(request) is None,
        is_envelope_of(envelope, request),
    ensures
        envelope.sender == request.sender,
        envelope.subject == request.subject,
        envelope.variables == request.params,
        envelope.idempotency_key is None,
        envelope.correlation_id is None,
        envelope.attachments@.len() == 0,
        envelope.recipients@.len() == request.recipients@.len(),
        0 <= i < request.recipients@.len() ==> {
            &&& envelope.recipients@[i].1 == request.recipients@[i].address
            &&& envelope.recipients@[i].0 is To <==> request.recipients@[i].kind@ == "to"@
            &&& envelope.recipients@[i].0 is Cc <==> request.recipients@[i].kind@ == "cc"@
            &&& envelope.recipients@[i].0 is Bcc <==> request.recipients@[i].kind@ == "bcc"@
        },
        match request.body {
            BodyIn::Plain { text, html } => envelope.body matches BodySource::Plain(plain)
                && plain.text_part() == text && plain.html_part() == html,
            BodyIn::MjmlInline { source } => envelope.body == BodySource::Mjml(
                MjmlSource::Inline(source),
            ),
            BodyIn::MjmlNamed { name } => envelope.body == BodySource::Mjml(
                MjmlSource::Named(name),
            ),
        },
{
    lemma_kind_names_differ();
    if 0 <= i < request.recipients@.len() {
        lemma_known_kinds(request.recipients@, i);
    }
    if let BodyIn::Plain { text, html } = request.body {
        Plain::parts_determine_body(Plain::of(text, html), text, html);
    }
}

/// A shown email shows every field of its record: the identifier, the idempotency
/// key, the subject, the sender, every recipient with kind and address in order, the
/// creation time and the status.
pub proof fn law_shown_email_shows_every_field(
    shown: EmailRecordDto,
    record: EmailRecord,
    i: int,
)
    requires
        shows_record(shown, record),
    ensures
        shown.id@ == uuid_text(record.id.bits),
        shown.idempotency_key == record.idempotency_key,
        shown.subject == record.subject,
        shown.sender == record.sender,
        shown.created_at_ms == record.created_at_ms,
        shown.status@ == match record.status {
            EmailStatus::Queued => "queued"@,
            EmailStatus::Sent => "sent"@,
            EmailStatus::Failed => "failed"@,
        },
        shown.recipients@.len() == record.recipients@.len(),
        0 <= i < record.recipients@.len() ==> {
            &&& shown.recipients@[i].address == record.recipients@[i].1
            &&& record.recipients@[i].0 is To ==> shown.recipients@[i].kind@ == "to"@
            &&& record.recipients@[i].0 is Cc ==> shown.recipients@[i].kind@ == "cc"@
            &&& record.recipients@[i].0 is Bcc ==> shown.recipients@[i].kind@ == "bcc"@
        },
{
}

/// A request is let through to a health route in any case; to another route exactly
/// where no key is set, or where it bears the key.
pub proof fn law_key_locks_all_but_health(
    route: Route,
    authorization: Option<Seq<char>>,
    api_key: Option<Seq<char>>,
)
    ensures
        route is HealthLive || route is HealthReady ==> is_admitted(route, authorization, api_key),
        api_key is None ==> is_admitted(route, authorization, api_key),
        route is ListEmails || route is SubmitEmail ==> (api_key matches Some(key) ==> (is_admitted(
            route,
            authorization,
            api_key,
        ) <==> authorization == Some("Bearer "@ + key))),
{
}

} // verus!
