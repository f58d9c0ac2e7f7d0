//! The requests and responses of the HTTP surface.
use catapulte::email::{
    BodySource, EmailRecord, EmailStatus, MjmlSource, RecipientKind, SaveResult,
};
use catapulte::id::EmailId;
use catapulte::submit::{
    admits, front_page, kind_str, parse_kind, saved_id, show_records, status_str, BodyIn,
    EmailRecordDto, RecipientIn, Route, SubmitRequest,
};
use catapulte::variables::Variables;
use serde_json::Value;

fn recipient(kind: &str, address: &str) -> RecipientIn {
    RecipientIn { kind: kind.to_owned(), address: address.to_owned() }
}

fn request(recipients: Vec<RecipientIn>, body: BodyIn) -> SubmitRequest {
    let mut params: Variables = Variables::new();
    params.insert("name".to_owned(), Value::from("Ada"));
    SubmitRequest {
        sender: "from@example.com".to_owned(),
        recipients,
        subject: Some("hi".to_owned()),
        body,
        params,
    }
}

fn plain(text: Option<&str>, html: Option<&str>) -> BodyIn {
    BodyIn::Plain { text: text.map(str::to_owned), html: html.map(str::to_owned) }
}

#[test]
fn a_request_becomes_an_envelope() {
    let recipients = vec![recipient("to", "a@x"), recipient("bcc", "b@x")];
    let envelope = request(recipients, plain(Some("hello"), None)).into_envelope().unwrap();
    assert_eq!(envelope.sender, "from@example.com");
    assert_eq!(envelope.subject.as_deref(), Some("hi"));
    assert_eq!(
        envelope.recipients,
        vec![(RecipientKind::To, "a@x".to_owned()), (RecipientKind::Bcc, "b@x".to_owned())]
    );
    assert_eq!(envelope.idempotency_key, None);
    assert_eq!(envelope.correlation_id, None);
    assert!(envelope.attachments.is_empty());
    assert_eq!(envelope.variables.get("name"), Some(&Value::from("Ada")));
    match envelope.body {
        BodySource::Plain(body) => {
            assert_eq!(body.text().map(String::as_str), Some("hello"));
            assert!(body.html().is_none());
        }
        BodySource::Mjml(_) => panic!("expected a plain body"),
    }
}

#[test]
fn templates_are_kept_as_submitted() {
    let inline = BodyIn::MjmlInline { source: "<mjml/>".to_owned() };
    let envelope = request(vec![], inline).into_envelope().unwrap();
    assert!(matches!(envelope.body, BodySource::Mjml(MjmlSource::Inline(s)) if s == "<mjml/>"));
    let named = BodyIn::MjmlNamed { name: "welcome".to_owned() };
    let envelope = request(vec![], named).into_envelope().unwrap();
    assert!(matches!(envelope.body, BodySource::Mjml(MjmlSource::Named(n)) if n == "welcome"));
}

#[test]
fn the_first_unknown_kind_is_reported_before_the_body() {
    let recipients = vec![recipient("to", "a@x"), recipient("CC", "b@x"), recipient("x", "c@x")];
    let err = request(recipients, plain(None, None)).into_envelope().err().unwrap();
    assert_eq!(err, "invalid recipient kind: CC");
}

#[test]
fn an_empty_plain_body_is_refused() {
    let err = request(vec![], plain(None, None)).into_envelope().err().unwrap();
    assert_eq!(err, "plain body requires text or html");
}

#[test]
fn kind_names_read_back() {
    for kind in [RecipientKind::To, RecipientKind::Cc, RecipientKind::Bcc] {
        assert_eq!(parse_kind(kind_str(kind)), Ok(kind));
    }
    assert_eq!(parse_kind(""), Err("invalid recipient kind: ".to_owned()));
}

#[test]
fn status_names() {
    assert_eq!(status_str(EmailStatus::Queued), "queued");
    assert_eq!(status_str(EmailStatus::Sent), "sent");
    assert_eq!(status_str(EmailStatus::Failed), "failed");
}

fn record(bits: u128) -> EmailRecord {
    EmailRecord {
        id: EmailId::from(bits),
        idempotency_key: Some("key".to_owned()),
        subject: None,
        sender: "from@example.com".to_owned(),
        recipients: vec![(RecipientKind::Cc, "c@x".to_owned())],
        created_at_ms: 1_700_000_000_000,
        status: EmailStatus::Queued,
    }
}

#[test]
fn a_record_is_shown() {
    let shown = EmailRecordDto::from(record(0x0123_4567_89ab_cdef_0123_4567_89ab_cdef));
    assert_eq!(shown.id, "01234567-89ab-cdef-0123-456789abcdef");
    assert_eq!(shown.idempotency_key.as_deref(), Some("key"));
    assert_eq!(shown.subject, None);
    assert_eq!(shown.sender, "from@example.com");
    assert_eq!(shown.recipients.len(), 1);
    assert_eq!(shown.recipients[0].kind, "cc");
    assert_eq!(shown.recipients[0].address, "c@x");
    assert_eq!(shown.created_at_ms, 1_700_000_000_000);
    assert_eq!(shown.status, "queued");
}

#[test]
fn records_are_shown_in_order() {
    let shown = show_records(vec![record(2), record(1)]);
    assert_eq!(shown.len(), 2);
    assert_eq!(shown[0].id, "00000000-0000-0000-0000-000000000002");
    assert_eq!(shown[1].id, "00000000-0000-0000-0000-000000000001");
}

#[test]
fn a_save_is_answered_with_the_stored_identifier() {
    assert_eq!(saved_id(SaveResult::Created(EmailId::from(1))), EmailId::from(1));
    assert_eq!(saved_id(SaveResult::Duplicate(EmailId::from(2))), EmailId::from(2));
}

#[test]
fn the_front_page_is_unfiltered() {
    let params = front_page();
    assert_eq!(params.limit, 50);
    assert_eq!(params.offset, 0);
    assert!(params.id.is_none() && params.after_ms.is_none() && params.before_ms.is_none());
    assert!(params.status.is_none() && params.recipient.is_none() && params.template.is_none());
}

#[test]
fn a_key_locks_all_routes_but_health() {
    for route in [Route::ListEmails, Route::SubmitEmail] {
        assert!(admits(route, None, None));
        assert!(admits(route, Some("Bearer k"), Some("k")));
        assert!(!admits(route, None, Some("k")));
        assert!(!admits(route, Some("Bearer other"), Some("k")));
        assert!(!admits(route, Some("k"), Some("k")));
    }
    for route in [Route::HealthLive, Route::HealthReady] {
        assert!(admits(route, None, Some("k")));
    }
}
