//! Building messages and posting them to the Worker.
use catapulte::cloudflare::{
    report_refusal, CloudflareConfig, CloudflareTransport, WorkerReply,
};
use catapulte::email::{OutboundAttachment, OutboundEmail, Plain, RecipientKind, RenderedBody};
use catapulte::mime::{build_message, message_bytes};
use std::cell::RefCell;

fn sample_email() -> OutboundEmail {
    let plain = Plain::try_new(Some("hello".to_owned()), Some("<p>hello</p>".to_owned())).unwrap();
    OutboundEmail {
        sender: "from@example.com".to_owned(),
        subject: Some("hi".to_owned()),
        recipients: vec![(RecipientKind::To, "to@example.com".to_owned())],
        body: RenderedBody::new(plain),
        attachments: vec![],
    }
}

fn raw_message(email: &OutboundEmail) -> String {
    String::from_utf8(message_bytes(&build_message(email).unwrap())).unwrap()
}

fn build_error(email: &OutboundEmail) -> String {
    build_message(email).err().expect("expected a build error").to_text()
}

fn transport(token: Option<&str>) -> CloudflareTransport<()> {
    CloudflareConfig {
        worker_url: "https://worker.example".to_owned(),
        api_token: token.map(str::to_owned),
    }
    .build(Ok::<(), String>(()))
    .unwrap()
}

#[test]
fn from_lookup_requires_worker_url() {
    let err = CloudflareConfig::from_lookup("PFX", |_: &str| Err::<String, ()>(()))
        .err()
        .expect("expected a missing-var error");
    assert!(err.to_text().contains("PFX_WORKER_URL"));
    assert_eq!(err.to_text(), "missing env var PFX_WORKER_URL");
}

#[test]
fn from_lookup_reads_both_variables() {
    let config = CloudflareConfig::from_lookup("CF", |key: &str| match key {
        "CF_WORKER_URL" => Ok("https://worker.example".to_owned()),
        "CF_TOKEN" => Ok("secret".to_owned()),
        other => Err(other.to_owned()),
    })
    .unwrap();
    assert_eq!(config.worker_url, "https://worker.example");
    assert_eq!(config.api_token.as_deref(), Some("secret"));
}

#[test]
fn from_lookup_asks_for_no_more_than_it_needs() {
    let asked = RefCell::new(vec![]);
    let found = CloudflareConfig::from_lookup("CF", |key: &str| {
        asked.borrow_mut().push(key.to_owned());
        Ok::<String, ()>(key.to_owned())
    });
    assert!(found.is_ok());
    assert_eq!(asked.take(), vec!["CF_WORKER_URL", "CF_TOKEN"]);
    let missing = CloudflareConfig::from_lookup("CF", |key: &str| {
        asked.borrow_mut().push(key.to_owned());
        Err::<String, ()>(())
    });
    assert!(missing.is_err());
    assert_eq!(asked.take(), vec!["CF_WORKER_URL"]);
}

#[test]
fn from_lookup_does_without_a_token() {
    let config = CloudflareConfig::from_lookup("CF", |key: &str| {
        if key == "CF_WORKER_URL" {
            Ok("https://worker.example".to_owned())
        } else {
            Err(())
        }
    })
    .unwrap();
    assert_eq!(config.api_token, None);
}

#[test]
fn a_transport_needs_its_client() {
    let config = CloudflareConfig { worker_url: "https://w".to_owned(), api_token: None };
    let err = config.build(Err::<(), &str>("no tls")).err().unwrap();
    assert_eq!(err, "building http client");
}

#[test]
fn build_message_produces_rfc822_with_recipient() {
    let raw = raw_message(&sample_email());
    assert!(raw.contains("To: to@example.com"));
    assert!(raw.contains("Subject: hi"));
    assert!(raw.contains("<p>hello</p>"));
}

#[test]
fn the_text_comes_before_the_html() {
    let raw = raw_message(&sample_email());
    assert!(raw.contains("From: from@example.com"));
    assert!(raw.contains("multipart/alternative"));
    assert!(!raw.contains("multipart/mixed"));
    let text = raw.find("Content-Type: text/plain; charset=utf-8").unwrap();
    let html = raw.find("Content-Type: text/html; charset=utf-8").unwrap();
    assert!(text < html);
}

#[test]
fn a_body_without_text_has_one_part() {
    let mut email = sample_email();
    email.body = RenderedBody::new(Plain::try_new(None, Some("<b>x</b>".to_owned())).unwrap());
    let raw = raw_message(&email);
    assert!(!raw.contains("text/plain"));
    assert!(raw.contains("<b>x</b>"));
}

#[test]
fn recipients_are_listed_by_kind_and_blind_copies_are_hidden() {
    let mut email = sample_email();
    email.recipients = vec![
        (RecipientKind::To, "a@example.com".to_owned()),
        (RecipientKind::Cc, "c@example.com".to_owned()),
        (RecipientKind::To, "b@example.com".to_owned()),
        (RecipientKind::Bcc, "hidden@example.com".to_owned()),
        (RecipientKind::Cc, "d@example.com".to_owned()),
    ];
    let raw = raw_message(&email);
    assert!(raw.contains("To: a@example.com, b@example.com\r\n"));
    assert!(raw.contains("Cc: c@example.com, d@example.com\r\n"));
    assert!(!raw.contains("hidden@example.com"));
    assert!(!raw.contains("Bcc"));
}

fn reached(email: &OutboundEmail) -> Vec<String> {
    let message = build_message(email).unwrap();
    message.envelope().to().iter().map(|address| address.to_string()).collect()
}

#[test]
fn an_email_with_copies_only_has_a_to_header_that_names_nobody() {
    let mut email = sample_email();
    email.recipients = vec![(RecipientKind::Cc, "c@example.com".to_owned())];
    let raw = raw_message(&email);
    assert!(raw.contains("From: from@example.com\r\n"));
    assert!(raw.contains("To: undisclosed-recipients:;\r\n"));
    assert!(raw.contains("Cc: c@example.com\r\n"));
    assert_eq!(reached(&email), vec!["c@example.com"]);

    email.recipients = vec![(RecipientKind::Bcc, "hidden@example.com".to_owned())];
    let raw = raw_message(&email);
    assert!(raw.contains("To: undisclosed-recipients:;\r\n"));
    assert!(!raw.contains("hidden@example.com"));
    assert_eq!(reached(&email), vec!["hidden@example.com"]);
}

#[test]
fn the_envelope_reaches_all_recipients() {
    let mut email = sample_email();
    email.recipients = vec![
        (RecipientKind::Bcc, "hidden@example.com".to_owned()),
        (RecipientKind::Cc, "c@example.com".to_owned()),
        (RecipientKind::To, "a@example.com".to_owned()),
        (RecipientKind::To, "b@example.com".to_owned()),
    ];
    assert_eq!(
        reached(&email),
        vec!["a@example.com", "b@example.com", "c@example.com", "hidden@example.com"]
    );
    let message = build_message(&email).unwrap();
    let sender = message.envelope().from().map(|address| address.to_string());
    assert_eq!(sender.as_deref(), Some("from@example.com"));
}

#[test]
fn addresses_beyond_ascii_are_built() {
    let mut email = sample_email();
    email.sender = "zo\u{eb}@example.com".to_owned();
    email.recipients = vec![
        (RecipientKind::To, "j\u{fc}rgen@example.com".to_owned()),
        (RecipientKind::To, "\u{4e2d}.\u{6587}@example.com".to_owned()),
    ];
    assert_eq!(
        reached(&email),
        vec!["j\u{fc}rgen@example.com", "\u{4e2d}.\u{6587}@example.com"]
    );
}

#[test]
fn a_name_is_no_part_of_an_address() {
    let mut email = sample_email();
    email.recipients = vec![(RecipientKind::To, "Jane <j@x.io>".to_owned())];
    assert_eq!(build_error(&email), "invalid address: Jane <j@x.io>");
}

#[test]
fn an_email_without_subject_has_no_subject_header() {
    let mut email = sample_email();
    email.subject = None;
    assert!(!raw_message(&email).contains("Subject:"));
}

#[test]
fn invalid_addresses_are_reported() {
    let mut email = sample_email();
    email.sender = "nobody".to_owned();
    assert_eq!(build_error(&email), "invalid address: nobody");

    let mut email = sample_email();
    email.recipients.push((RecipientKind::Cc, "not an address".to_owned()));
    email.recipients.push((RecipientKind::Cc, "neither".to_owned()));
    assert_eq!(build_error(&email), "invalid address: not an address");
}

#[test]
fn a_message_without_recipients_is_refused() {
    let mut email = sample_email();
    email.recipients.clear();
    assert_eq!(build_error(&email), "building email message");
    email.attachments.push(attachment("text/csv"));
    assert_eq!(build_error(&email), "building email message with attachments");
}

fn attachment(content_type: &str) -> OutboundAttachment {
    OutboundAttachment {
        filename: "report.csv".to_owned(),
        content_type: content_type.to_owned(),
        bytes: b"a,b\r\n1,2\r\n".to_vec(),
    }
}

#[test]
fn attachments_follow_the_body() {
    let mut email = sample_email();
    email.attachments.push(attachment("text/csv"));
    let raw = raw_message(&email);
    assert!(raw.contains("multipart/mixed"));
    assert!(raw.contains("Content-Type: text/csv"));
    assert!(raw.contains("Content-Disposition: attachment; filename=\"report.csv\""));
    assert!(raw.contains("a,b\r\n1,2"));
    assert!(raw.find("<p>hello</p>").unwrap() < raw.find("report.csv").unwrap());
}

#[test]
fn invalid_content_types_are_reported() {
    let mut email = sample_email();
    email.attachments.push(attachment("text/csv"));
    email.attachments.push(attachment("nonsense"));
    assert_eq!(build_error(&email), "invalid attachment content-type: nonsense");
}

#[test]
fn deliver_posts_rfc822_to_worker() {
    let sender = transport(Some("secret"));
    let request = sender.prepare_send(&sample_email()).unwrap();
    assert_eq!(request.url, "https://worker.example");
    assert_eq!(request.content_type, "message/rfc822");
    assert_eq!(request.bearer.as_deref(), Some("secret"));
    assert!(String::from_utf8(request.body).unwrap().contains("To: to@example.com"));
    let reply = WorkerReply::Answered { status: 200, body: String::new() };
    assert!(sender.conclude_send(reply).is_ok());
}

#[test]
fn deliver_propagates_worker_error() {
    let sender = transport(None);
    assert_eq!(sender.prepare_send(&sample_email()).unwrap().bearer, None);
    let reply = WorkerReply::Answered { status: 500, body: "nope".to_owned() };
    let err = sender.conclude_send(reply).unwrap_err();
    assert!(err.contains("500"));
    assert_eq!(err, "cloudflare email worker returned 500 Internal Server Error: nope");
}

#[test]
fn only_a_status_of_success_counts() {
    let sender = transport(None);
    for (status, delivered) in [(199, false), (200, true), (299, true), (300, false)] {
        let reply = WorkerReply::Answered { status, body: String::new() };
        assert_eq!(sender.conclude_send(reply).is_ok(), delivered);
    }
    let unknown = WorkerReply::Answered { status: 599, body: "x".to_owned() };
    assert_eq!(
        sender.conclude_send(unknown).unwrap_err(),
        "cloudflare email worker returned 599 <unknown status code>: x"
    );
    assert_eq!(
        sender.conclude_send(WorkerReply::PostFailed).unwrap_err(),
        "posting message to cloudflare email worker"
    );
}

#[test]
fn a_post_carries_the_octets() {
    let request = transport(Some("t")).post_of(vec![1, 2]);
    assert_eq!(request.body, vec![1, 2]);
    assert_eq!(request.content_type, "message/rfc822");
    assert_eq!(request.bearer.as_deref(), Some("t"));
    assert_eq!(report_refusal("418 teapot", "b"), "cloudflare email worker returned 418 teapot: b");
}

#[test]
fn a_message_that_cannot_be_built_is_not_posted() {
    let mut email = sample_email();
    email.sender = "nobody".to_owned();
    let err = transport(None).prepare_send(&email).err().unwrap();
    assert_eq!(err.to_text(), "invalid address: nobody");
}
