//! The storage adapters, driven against a small database in memory.
use catapulte::d1::{D1Adapter, D1Reply};
use catapulte::do_store::{
    restore_row_with, DoReply, DoStore, DueEmail, FullRow, StoredEmail,
};
use catapulte::dto::{
    AttachmentRefDto, BlobRefDto, BodySourceDto, EnvelopeBodyDto, RecipientDto, RecipientKindDto,
};
use catapulte::email::{
    AttachmentRef, BlobRef, BodySource, EmailRecord, EmailStatus, Envelope, ListEmailsParams,
    MjmlSource, Plain, RecipientKind, SaveResult,
};
use catapulte::error::EmailRepositoryError;
use catapulte::id::EmailId;
use catapulte::query::{Query, SqlValue};
use catapulte::rows::{record_with, BodyRow, EmailRow, IdRow};
use catapulte::save::{
    insert_query_with, resolve_parsed, wire_envelope, EncodedEnvelope, SaveStep,
};
use catapulte::variables::Variables;
use serde_json::Value;

// --- JSON columns ------------------------------------------------------------

fn object(members: Vec<(&str, Value)>) -> Value {
    let mut map: Variables = Variables::new();
    for (name, value) in members {
        map.insert(name.to_owned(), value);
    }
    Value::Object(map)
}

fn text_or_null(text: &Option<String>) -> Value {
    match text {
        Some(text) => Value::from(text.as_str()),
        None => Value::Null,
    }
}

fn text_at(value: &Value, name: &str) -> String {
    value.get(name).and_then(Value::as_str).unwrap().to_owned()
}

fn opt_text_at(value: &Value, name: &str) -> Option<String> {
    value.get(name).and_then(Value::as_str).map(str::to_owned)
}

fn recipients_json(dtos: &[RecipientDto]) -> String {
    let items: Vec<Value> = dtos
        .iter()
        .map(|dto| {
            let kind = match dto.kind {
                RecipientKindDto::To => "to",
                RecipientKindDto::Cc => "cc",
                RecipientKindDto::Bcc => "bcc",
            };
            object(vec![
                ("kind", Value::from(kind)),
                ("address", Value::from(dto.address.as_str())),
            ])
        })
        .collect();
    Value::Array(items).to_string()
}

fn recipients_from(text: &str) -> Result<Vec<RecipientDto>, String> {
    let value: Value = serde_json::from_str(text).map_err(|e| e.to_string())?;
    let items = value.as_array().ok_or_else(|| "not a list".to_owned())?;
    Ok(items
        .iter()
        .map(|item| RecipientDto {
            kind: match text_at(item, "kind").as_str() {
                "to" => RecipientKindDto::To,
                "cc" => RecipientKindDto::Cc,
                _ => RecipientKindDto::Bcc,
            },
            address: text_at(item, "address"),
        })
        .collect())
}

fn body_json(dto: &EnvelopeBodyDto) -> String {
    let source = match &dto.source {
        BodySourceDto::Plain { text, html } => object(vec![
            ("kind", Value::from("plain")),
            ("text", text_or_null(text)),
            ("html", text_or_null(html)),
        ]),
        BodySourceDto::MjmlInline { source } => object(vec![
            ("kind", Value::from("mjml_inline")),
            ("source", Value::from(source.as_str())),
        ]),
        BodySourceDto::MjmlNamed { name } => object(vec![
            ("kind", Value::from("mjml_named")),
            ("name", Value::from(name.as_str())),
        ]),
        BodySourceDto::MjmlRemote { url } => object(vec![
            ("kind", Value::from("mjml_remote")),
            ("url", Value::from(url.as_str())),
        ]),
    };
    let attachments: Vec<Value> = dto
        .attachments
        .iter()
        .map(|attachment| {
            object(vec![
                ("filename", Value::from(attachment.filename.as_str())),
                ("content_type", Value::from(attachment.content_type.as_str())),
                ("size_bytes", Value::from(attachment.size_bytes)),
                ("backend", Value::from(attachment.blob.backend.as_str())),
                ("key", Value::from(attachment.blob.key.as_str())),
            ])
        })
        .collect();
    object(vec![("source", source), ("attachments", Value::Array(attachments))]).to_string()
}

fn body_from(text: &str) -> Result<EnvelopeBodyDto, String> {
    let value: Value = serde_json::from_str(text).map_err(|e| e.to_string())?;
    let source = value.get("source").ok_or_else(|| "no source".to_owned())?;
    let attachments = value.get("attachments").and_then(Value::as_array).unwrap();
    Ok(EnvelopeBodyDto {
        source: match text_at(source, "kind").as_str() {
            "plain" => BodySourceDto::Plain {
                text: opt_text_at(source, "text"),
                html: opt_text_at(source, "html"),
            },
            "mjml_inline" => BodySourceDto::MjmlInline { source: text_at(source, "source") },
            "mjml_named" => BodySourceDto::MjmlNamed { name: text_at(source, "name") },
            _ => BodySourceDto::MjmlRemote { url: text_at(source, "url") },
        },
        attachments: attachments
            .iter()
            .map(|item| AttachmentRefDto {
                filename: text_at(item, "filename"),
                content_type: text_at(item, "content_type"),
                size_bytes: item.get("size_bytes").and_then(Value::as_u64).unwrap(),
                blob: BlobRefDto { backend: text_at(item, "backend"), key: text_at(item, "key") },
            })
            .collect(),
    })
}

// --- the database ------------------------------------------------------------

struct StoredRow {
    id: String,
    key: Option<String>,
    subject: Option<String>,
    sender: String,
    recipients: String,
    body: String,
    variables: String,
    created_at_ms: i64,
}

struct Db {
    emails: Vec<StoredRow>,
    queue: Vec<(String, i64, i64)>,
    clock: i64,
}

impl Db {
    fn new() -> Db {
        Db { emails: vec![], queue: vec![], clock: 1000 }
    }

    fn write(&mut self, query: &Query) -> u64 {
        let before = self.emails.len();
        self.change(query);
        self.emails.len().abs_diff(before) as u64
    }

    fn change(&mut self, query: &Query) {
        match query {
            Query::InsertEmail(email) => {
                let taken = self.emails.iter().any(|row| {
                    row.id == email.id || (row.key.is_some() && row.key == email.idempotency_key)
                });
                if !taken {
                    self.clock += 1;
                    self.emails.push(StoredRow {
                        id: email.id.clone(),
                        key: email.idempotency_key.clone(),
                        subject: email.subject.clone(),
                        sender: email.sender.clone(),
                        recipients: email.recipients.clone(),
                        body: email.body.clone(),
                        variables: email.variables.clone(),
                        created_at_ms: self.clock,
                    });
                }
            }
            Query::WriteBody { body, id } => {
                for row in self.emails.iter_mut().filter(|row| row.id == *id) {
                    row.body = body.clone();
                }
            }
            Query::DeleteEmail { id } => self.emails.retain(|row| row.id != *id),
            Query::Enqueue { email_id, run_at_ms } => {
                let attempts =
                    self.queue.iter().find(|entry| entry.0 == *email_id).map_or(0, |e| e.2);
                self.queue.retain(|entry| entry.0 != *email_id);
                self.queue.push((email_id.clone(), *run_at_ms, attempts));
            }
            Query::Reschedule { email_id, run_at_ms } => {
                for entry in self.queue.iter_mut().filter(|entry| entry.0 == *email_id) {
                    entry.1 = *run_at_ms;
                    entry.2 += 1;
                }
            }
            Query::Dequeue { email_id } => self.queue.retain(|entry| entry.0 != *email_id),
            other => panic!("not a query that writes: {other:?}"),
        }
    }

    fn ids(&self, query: &Query) -> Vec<IdRow> {
        self.emails
            .iter()
            .filter(|row| match query {
                Query::IdById { id } => row.id == *id,
                Query::IdByKey { key } => row.key.as_ref() == Some(key),
                other => panic!("not a query for identifiers: {other:?}"),
            })
            .map(|row| IdRow { id: row.id.clone() })
            .collect()
    }

    fn full(&self, query: &Query) -> Vec<FullRow> {
        let Query::LoadEnvelope { email_id } = query else {
            panic!("not a query for an envelope: {query:?}");
        };
        self.emails
            .iter()
            .filter(|row| row.id == *email_id)
            .map(|row| FullRow {
                sender: row.sender.clone(),
                subject: row.subject.clone(),
                recipients: recipients_from(&row.recipients),
                body: body_from(&row.body),
                variables: row.variables.clone(),
            })
            .collect()
    }

    fn bodies(&self, query: &Query) -> Vec<BodyRow> {
        self.emails
            .iter()
            .filter(|row| match query {
                Query::ReadBody { id } => row.id == *id,
                Query::ListBodies => true,
                other => panic!("not a query for bodies: {other:?}"),
            })
            .map(|row| BodyRow { body: body_from(&row.body) })
            .collect()
    }

    fn page(&self, query: &Query) -> Vec<EmailRow> {
        let Query::ListEmails { only_id, after_ms, before_ms, limit, offset } = query else {
            panic!("not a listing: {query:?}");
        };
        let mut found: Vec<&StoredRow> = self
            .emails
            .iter()
            .filter(|row| only_id.as_ref().map_or(true, |id| row.id == *id))
            .filter(|row| after_ms.map_or(true, |after| row.created_at_ms > after))
            .filter(|row| before_ms.map_or(true, |before| row.created_at_ms < before))
            .collect();
        found.sort_by(|a, b| (b.created_at_ms, &b.id).cmp(&(a.created_at_ms, &a.id)));
        found
            .into_iter()
            .skip(*offset as usize)
            .take(*limit as usize)
            .map(|row| EmailRow {
                id: row.id.clone(),
                idempotency_key: row.key.clone(),
                subject: row.subject.clone(),
                sender: row.sender.clone(),
                recipients: recipients_from(&row.recipients),
                created_at_ms: row.created_at_ms,
            })
            .collect()
    }

    fn due(&self, query: &Query) -> Vec<DueEmail> {
        let Query::ClaimDue { now_ms, limit } = query else {
            panic!("not a claim: {query:?}");
        };
        let mut found: Vec<&(String, i64, i64)> =
            self.queue.iter().filter(|entry| entry.1 <= *now_ms).collect();
        found.sort_by_key(|entry| entry.1);
        found
            .into_iter()
            .take(*limit as usize)
            .map(|entry| DueEmail { email_id: entry.0.clone(), attempts: entry.2 })
            .collect()
    }

    fn times(&self, query: &Query) -> Vec<i64> {
        assert!(matches!(query, Query::NextRunAt));
        self.queue.iter().map(|entry| entry.1).min().into_iter().collect()
    }
}

// --- driving the adapters ----------------------------------------------------

fn encode(envelope: &Envelope) -> EncodedEnvelope {
    let wire = wire_envelope(envelope);
    EncodedEnvelope {
        recipients: Ok(recipients_json(&wire.recipients)),
        body: Ok(body_json(&wire.body)),
    }
}

fn do_save(db: &mut Db, id: EmailId, email: &Envelope) -> Result<SaveResult, EmailRepositoryError> {
    let store = DoStore::new(());
    let insert = match store.save_sync(id, email, encode(email)) {
        SaveStep::Done(result) => return result,
        SaveStep::Ask(query) => query,
    };
    db.write(&insert);
    match store.save_inserted(id, email.idempotency_key.as_deref(), Ok(())) {
        SaveStep::Done(result) => result,
        SaveStep::Ask(query) => store.save_looked_up(id, DoReply::Rows(db.ids(&query))),
    }
}

fn d1_save(db: &mut Db, id: EmailId, email: &Envelope) -> Result<SaveResult, EmailRepositoryError> {
    let adapter = D1Adapter::new(());
    let insert = match adapter.save(id, email, encode(email)) {
        SaveStep::Done(result) => return result,
        SaveStep::Ask(query) => query,
    };
    let changed = db.write(&insert);
    let key = email.idempotency_key.as_deref();
    match adapter.save_inserted(id, key, D1Reply::Answered(changed)) {
        SaveStep::Done(result) => result,
        SaveStep::Ask(query) => {
            let row = D1Reply::Answered(db.ids(&query).into_iter().next());
            adapter.save_answered(id, key, row)
        }
    }
}

fn do_load(db: &Db, id: EmailId) -> Result<Option<StoredEmail>, EmailRepositoryError> {
    let store = DoStore::new(());
    let query = store.load_envelope(&id.to_text());
    store.loaded_envelope(DoReply::Rows(db.full(&query)))
}

fn do_list(db: &Db, params: &ListEmailsParams) -> Vec<EmailRecord> {
    let store = DoStore::new(());
    let query = store.list_emails_sync(params);
    store.emails_listed(DoReply::Rows(db.page(&query))).unwrap()
}

fn set_attachments(db: &mut Db, id: EmailId, attachments: &[AttachmentRef]) -> Result<(), String> {
    let store = DoStore::new(());
    let rows = db.bodies(&store.set_attachments_sync(id));
    let revised = store
        .attachments_revised(DoReply::Rows(rows), attachments)
        .map_err(|error| error.to_text())?;
    let write = store.write_attachments(id, Ok(body_json(&revised))).map_err(|e| e.to_text())?;
    db.write(&write);
    store.attachments_written(Ok(())).map_err(|error| error.to_text())
}

fn blobs(db: &Db) -> Vec<(String, String)> {
    let store = DoStore::new(());
    let rows = db.bodies(&store.list_blobs_sync());
    store
        .blobs_listed(DoReply::Rows(rows))
        .unwrap()
        .into_iter()
        .map(|blob| (blob.backend, blob.key))
        .collect()
}

fn attachment(key: &str) -> AttachmentRef {
    AttachmentRef {
        filename: "a.txt".to_owned(),
        content_type: "text/plain".to_owned(),
        size_bytes: 5,
        blob: BlobRef { backend: "r2".to_owned(), key: key.to_owned() },
    }
}

fn envelope(key: Option<&str>, sender: &str) -> Envelope {
    let mut variables: Variables = Variables::new();
    variables.insert("name".to_owned(), Value::from("Ada"));
    variables.insert("count".to_owned(), Value::from(3));
    variables.insert("tags".to_owned(), Value::from(vec!["x", "y"]));
    Envelope {
        idempotency_key: key.map(str::to_owned),
        correlation_id: Some("corr".to_owned()),
        subject: Some("hi".to_owned()),
        sender: sender.to_owned(),
        recipients: vec![
            (RecipientKind::To, "a@x".to_owned()),
            (RecipientKind::Cc, "b@x".to_owned()),
            (RecipientKind::Bcc, "c@x".to_owned()),
        ],
        body: BodySource::Plain(
            Plain::try_new(Some("text".to_owned()), Some("<p>html</p>".to_owned())).unwrap(),
        ),
        variables,
        attachments: vec![attachment("blob-1")],
    }
}

fn all() -> ListEmailsParams {
    ListEmailsParams {
        status: None,
        after_ms: None,
        before_ms: None,
        recipient: None,
        template: None,
        id: None,
        limit: 100,
        offset: 0,
    }
}

fn message<T>(result: Result<T, EmailRepositoryError>) -> String {
    result.err().expect("expected a failure").to_text()
}

// --- saving ------------------------------------------------------------------

#[test]
fn a_saved_email_loads_back() {
    let mut db = Db::new();
    let id = EmailId::from(7);
    let saved = do_save(&mut db, id, &envelope(None, "from@x")).unwrap();
    assert_eq!(saved, SaveResult::Created(id));
    let stored = do_load(&db, id).unwrap().expect("expected the email");
    let given = envelope(None, "from@x");
    assert_eq!(stored.sender, "from@x");
    assert_eq!(stored.subject.as_deref(), Some("hi"));
    assert_eq!(stored.recipients, given.recipients);
    assert_eq!(stored.variables, given.variables);
    match stored.body {
        BodySource::Plain(plain) => {
            assert_eq!(plain.text().map(String::as_str), Some("text"));
            assert_eq!(plain.html().map(String::as_str), Some("<p>html</p>"));
        }
        BodySource::Mjml(_) => panic!("expected a plain body"),
    }
}

#[test]
fn every_template_source_loads_back() {
    let mut db = Db::new();
    let sources = [
        MjmlSource::Inline("<mjml/>".to_owned()),
        MjmlSource::Named("welcome".to_owned()),
        MjmlSource::Remote("https://x/t.mjml".to_owned()),
    ];
    for (i, source) in sources.into_iter().enumerate() {
        let expected = format!("{source:?}");
        let id = EmailId::from(i as u128);
        let mut email = envelope(None, "from@x");
        email.body = BodySource::Mjml(source);
        do_save(&mut db, id, &email).unwrap();
        match do_load(&db, id).unwrap().unwrap().body {
            BodySource::Mjml(found) => assert_eq!(format!("{found:?}"), expected),
            BodySource::Plain(_) => panic!("expected a template"),
        }
    }
}

#[test]
fn a_repeated_key_is_a_duplicate() {
    for save in [do_save, d1_save] {
        let mut db = Db::new();
        let (first, second) = (EmailId::from(1), EmailId::from(2));
        let saved = save(&mut db, first, &envelope(Some("k"), "one@x")).unwrap();
        assert_eq!(saved, SaveResult::Created(first));
        let again = save(&mut db, second, &envelope(Some("k"), "two@x")).unwrap();
        assert_eq!(again, SaveResult::Duplicate(first));
        let retried = save(&mut db, first, &envelope(Some("k"), "three@x")).unwrap();
        assert_eq!(retried, SaveResult::Created(first));
        let listed = do_list(&db, &all());
        assert_eq!(listed.len(), 1);
        assert_eq!(listed[0].sender, "one@x");
    }
}

#[test]
fn a_taken_identifier_with_a_free_key_is_reported() {
    for save in [do_save, d1_save] {
        let mut db = Db::new();
        let id = EmailId::from(1);
        save(&mut db, id, &envelope(Some("k"), "one@x")).unwrap();
        let err = message(save(&mut db, id, &envelope(Some("other"), "two@x")));
        assert_eq!(err, "idempotency lookup: row vanished after insert");
        assert_eq!(do_load(&db, id).unwrap().unwrap().sender, "one@x");
    }
}

#[test]
fn an_insert_overwrites_nothing() {
    for save in [do_save, d1_save] {
        let mut db = Db::new();
        let id = EmailId::from(1);
        assert_eq!(save(&mut db, id, &envelope(None, "one@x")).unwrap(), SaveResult::Created(id));
        let _ = save(&mut db, id, &envelope(None, "two@x"));
        assert_eq!(do_list(&db, &all()).len(), 1);
        assert_eq!(do_load(&db, id).unwrap().unwrap().sender, "one@x");
    }
}

#[test]
fn a_taken_identifier_without_a_key_is_reported() {
    let mut db = Db::new();
    let id = EmailId::from(1);
    d1_save(&mut db, id, &envelope(Some("k"), "one@x")).unwrap();
    let err = message(d1_save(&mut db, id, &envelope(None, "two@x")));
    assert_eq!(err, "insert skipped: no idempotency key (unexpected id collision)");
    assert_eq!(do_load(&db, id).unwrap().unwrap().sender, "one@x");
}

#[test]
fn a_save_that_does_not_encode_is_refused() {
    let id = EmailId::from(1);
    let email = envelope(None, "from@x");
    let done = |step: SaveStep| match step {
        SaveStep::Done(result) => message(result),
        SaveStep::Ask(query) => panic!("expected a failure, not {query:?}"),
    };
    let broken = || EncodedEnvelope { recipients: Err("r".to_owned()), body: Err("b".to_owned()) };
    assert_eq!(done(DoStore::new(()).save_sync(id, &email, broken())), "encoding recipients: r");
    assert_eq!(done(D1Adapter::new(()).save(id, &email, broken())), "encoding recipients: r");
    let body = || EncodedEnvelope { recipients: Ok("[]".to_owned()), body: Err("b".to_owned()) };
    assert_eq!(done(DoStore::new(()).save_sync(id, &email, body())), "encoding body: b");
    assert_eq!(done(D1Adapter::new(()).save(id, &email, body())), "encoding body: b");
}

#[test]
fn an_insert_binds_every_column() {
    let email = envelope(None, "from@x");
    let encoded = EncodedEnvelope { recipients: Ok("R".to_owned()), body: Ok("B".to_owned()) };
    let SaveStep::Ask(query) = DoStore::new(()).save_sync(EmailId::from(1), &email, encoded) else {
        panic!("expected an insert");
    };
    let statement = query.statement();
    assert_eq!(
        statement.sql,
        "INSERT OR IGNORE INTO emails (id, idempotency_key, correlation_id, subject, sender, \
         recipients, body, variables) VALUES (?, ?, ?, ?, ?, ?, ?, ?)"
    );
    assert_eq!(
        format!("{:?}", statement.binds),
        "[Text(\"00000000-0000-0000-0000-000000000001\"), Null, Text(\"corr\"), Text(\"hi\"), \
         Text(\"from@x\"), Text(\"R\"), Text(\"B\"), \
         Text(\"{\\\"count\\\":3,\\\"name\\\":\\\"Ada\\\",\\\"tags\\\":[\\\"x\\\",\\\"y\\\"]}\")]"
    );
}

#[test]
fn a_failed_save_says_where_it_failed() {
    let id = EmailId::from(1);
    let done = |step: SaveStep| match step {
        SaveStep::Done(result) => message(result),
        SaveStep::Ask(query) => panic!("expected a failure, not {query:?}"),
    };
    let store = DoStore::new(());
    assert_eq!(done(store.save_inserted(id, None, Err("e".to_owned()))), "inserting email: e");
    let failed = DoReply::ExecFailed("e".to_owned());
    assert_eq!(message(store.save_looked_up(id, failed)), "idempotency lookup: e");
    let garbled = DoReply::DecodeFailed("e".to_owned());
    assert_eq!(message(store.save_looked_up(id, garbled)), "decoding idempotency lookup: e");
    let odd = DoReply::Rows(vec![IdRow { id: "zz".to_owned() }]);
    assert!(message(store.save_looked_up(id, odd)).starts_with("parsing existing id: "));

    let adapter = D1Adapter::new(());
    let unbound = D1Reply::BindFailed("e".to_owned());
    assert_eq!(done(adapter.save_inserted(id, None, unbound)), "binding insert: e");
    let failed = D1Reply::RunFailed("e".to_owned());
    assert_eq!(done(adapter.save_inserted(id, None, failed)), "inserting email: e");
    let unbound = D1Reply::BindFailed("e".to_owned());
    assert_eq!(message(adapter.save_checked(id, unbound)), "binding id check: e");
    let failed = D1Reply::RunFailed("e".to_owned());
    assert_eq!(message(adapter.save_checked(id, failed)), "checking inserted id: e");
    assert_eq!(
        message(adapter.save_checked(id, D1Reply::Answered(None))),
        "insert skipped: no idempotency key (unexpected id collision)"
    );
    let unbound = D1Reply::BindFailed("e".to_owned());
    assert_eq!(message(adapter.save_looked_up(id, unbound)), "binding idempotency lookup: e");
    let failed = D1Reply::RunFailed("e".to_owned());
    assert_eq!(
        message(adapter.save_looked_up(id, failed)),
        "fetching existing email by idempotency key: e"
    );
}

#[test]
fn variables_that_do_not_encode_refuse_the_save() {
    let email = envelope(None, "from@x");
    let encoded = || EncodedEnvelope { recipients: Ok("R".to_owned()), body: Ok("B".to_owned()) };
    let id = EmailId::from(1);
    let refused = insert_query_with(id, &email, encoded(), Err("v".to_owned()));
    assert_eq!(message(refused), "encoding variables: v");
    let made = insert_query_with(id, &email, encoded(), Ok("V".to_owned())).unwrap();
    assert!(matches!(made, Query::InsertEmail(row) if row.variables == "V" && row.body == "B"));
}

#[test]
fn the_owner_of_the_key_decides() {
    let id = EmailId::from(1);
    assert_eq!(resolve_parsed(id, Ok(id)).unwrap(), SaveResult::Created(id));
    let other = EmailId::from(2);
    assert_eq!(resolve_parsed(id, Ok(other)).unwrap(), SaveResult::Duplicate(other));
    assert_eq!(message(resolve_parsed(id, Err("p".to_owned()))), "parsing existing id: p");
}

#[test]
fn decoded_variables_are_kept() {
    let variables = envelope(None, "from@x").variables;
    let stored = restore_row_with(full_row(), Ok(variables.clone())).unwrap();
    assert_eq!(stored.variables, variables);
    let refused = restore_row_with(full_row(), Err("v".to_owned()));
    assert_eq!(message(refused), "decoding variables: v");
}

#[test]
fn the_adapters_keep_their_handles() {
    assert_eq!(DoStore::new("do").sql, "do");
    assert_eq!(D1Adapter::new("d1").db, "d1");
}

// --- loading and deleting ----------------------------------------------------

fn full_row() -> FullRow {
    FullRow {
        sender: "from@x".to_owned(),
        subject: None,
        recipients: Ok(vec![]),
        body: Ok(EnvelopeBodyDto {
            source: BodySourceDto::MjmlNamed { name: "n".to_owned() },
            attachments: vec![],
        }),
        variables: "{\"a\":1}".to_owned(),
    }
}

#[test]
fn a_load_reports_what_does_not_decode() {
    let store = DoStore::new(());
    let load = |row: FullRow| message(store.loaded_envelope(DoReply::Rows(vec![row])));
    let mut row = full_row();
    row.recipients = Err("r".to_owned());
    assert_eq!(load(row), "decoding recipients: r");
    let mut row = full_row();
    row.body = Err("b".to_owned());
    assert_eq!(load(row), "decoding body: b");
    let mut row = full_row();
    row.body = Ok(EnvelopeBodyDto {
        source: BodySourceDto::Plain { text: None, html: None },
        attachments: vec![],
    });
    assert_eq!(load(row), "rebuilding body: plain body requires text or html");
    let failed: DoReply<FullRow> = DoReply::ExecFailed("e".to_owned());
    assert_eq!(message(store.loaded_envelope(failed)), "loading envelope: e");
    let garbled: DoReply<FullRow> = DoReply::DecodeFailed("e".to_owned());
    assert_eq!(message(store.loaded_envelope(garbled)), "decoding envelope: e");
}

#[test]
fn variables_that_do_not_decode_are_reported() {
    let store = DoStore::new(());
    let load = |text: &str| {
        let mut row = full_row();
        row.variables = text.to_owned();
        store.loaded_envelope(DoReply::Rows(vec![row]))
    };
    assert_eq!(load("{\"a\":1}").unwrap().unwrap().variables.len(), 1);
    assert_eq!(load("{}").unwrap().unwrap().variables.len(), 0);
    for text in ["[]", "[1]", "{", "{\"a\":", ""] {
        assert!(message(load(text)).starts_with("decoding variables: "));
    }
}

#[test]
fn a_deleted_email_is_gone() {
    let mut db = Db::new();
    let (one, two) = (EmailId::from(1), EmailId::from(2));
    do_save(&mut db, one, &envelope(Some("k"), "one@x")).unwrap();
    do_save(&mut db, two, &envelope(None, "two@x")).unwrap();
    db.write(&DoStore::new(()).delete(one));
    assert!(do_load(&db, one).unwrap().is_none());
    assert!(do_load(&db, two).unwrap().is_some());
    let three = EmailId::from(3);
    let saved = d1_save(&mut db, three, &envelope(Some("k"), "three@x")).unwrap();
    assert_eq!(saved, SaveResult::Created(three));
    db.write(&D1Adapter::new(()).delete(two));
    assert!(do_load(&db, two).unwrap().is_none());
}

#[test]
fn a_removal_says_where_it_failed() {
    assert!(DoStore::new(()).deleted(Ok(())).is_ok());
    assert_eq!(message(DoStore::new(()).deleted(Err("e".to_owned()))), "deleting email: e");
    let adapter = D1Adapter::new(());
    assert!(adapter.deleted(D1Reply::Answered(())).is_ok());
    let unbound = D1Reply::BindFailed("e".to_owned());
    assert_eq!(message(adapter.deleted(unbound)), "binding delete: e");
    let failed = D1Reply::RunFailed("e".to_owned());
    assert_eq!(message(adapter.deleted(failed)), "deleting email: e");
}

// --- attachments -------------------------------------------------------------

#[test]
fn replacing_attachments_keeps_the_rest() {
    let mut db = Db::new();
    let id = EmailId::from(1);
    do_save(&mut db, id, &envelope(None, "from@x")).unwrap();
    do_save(&mut db, EmailId::from(2), &envelope(None, "other@x")).unwrap();
    assert_eq!(
        blobs(&db),
        vec![("r2".to_owned(), "blob-1".to_owned()), ("r2".to_owned(), "blob-1".to_owned())]
    );
    set_attachments(&mut db, id, &[attachment("blob-2"), attachment("blob-3")]).unwrap();
    let keys: Vec<String> = blobs(&db).into_iter().map(|blob| blob.1).collect();
    assert_eq!(keys, vec!["blob-2", "blob-3", "blob-1"]);
    set_attachments(&mut db, id, &[]).unwrap();
    assert_eq!(blobs(&db), vec![("r2".to_owned(), "blob-1".to_owned())]);
    let stored = do_load(&db, id).unwrap().unwrap();
    assert_eq!(stored.sender, "from@x");
    assert!(matches!(stored.body, BodySource::Plain(_)));
}

#[test]
fn loads_do_not_depend_on_attachments() {
    let mut db = Db::new();
    let (one, two) = (EmailId::from(1), EmailId::from(2));
    do_save(&mut db, one, &envelope(None, "one@x")).unwrap();
    do_save(&mut db, two, &envelope(None, "two@x")).unwrap();
    let loads = |db: &Db| -> Vec<String> {
        [one, two]
            .into_iter()
            .map(|id| {
                let stored = do_load(db, id).unwrap().unwrap();
                format!(
                    "{} {:?} {:?} {:?} {:?}",
                    stored.sender, stored.subject, stored.recipients, stored.body, stored.variables
                )
            })
            .collect()
    };
    let before = loads(&db);
    set_attachments(&mut db, one, &[attachment("blob-9"), attachment("blob-9")]).unwrap();
    assert_eq!(loads(&db), before);
    assert!(do_load(&db, EmailId::from(3)).unwrap().is_none());
}

#[test]
fn attachments_of_a_missing_email_are_not_set() {
    let mut db = Db::new();
    let err = set_attachments(&mut db, EmailId::from(1), &[]).unwrap_err();
    assert_eq!(err, "set_attachments: email not found");
}

#[test]
fn a_replacement_says_where_it_failed() {
    let store = DoStore::new(());
    let garbled = || BodyRow { body: Err("e".to_owned()) };
    let revise = |reply: DoReply<BodyRow>| message(store.attachments_revised(reply, &[]));
    assert_eq!(revise(DoReply::Rows(vec![garbled()])), "decoding existing body: e");
    assert_eq!(revise(DoReply::ExecFailed("e".to_owned())), "reading body: e");
    assert_eq!(revise(DoReply::DecodeFailed("e".to_owned())), "decoding body: e");
    let id = EmailId::from(1);
    assert_eq!(message(store.write_attachments(id, Err("e".to_owned()))), "encoding body: e");
    assert_eq!(message(store.attachments_written(Err("e".to_owned()))), "writing body: e");

    let adapter = D1Adapter::new(());
    assert!(matches!(adapter.set_attachments(id), Query::ReadBody { id } if id.ends_with("-000000000001")));
    let revise = |reply: D1Reply<Option<BodyRow>>| message(adapter.attachments_revised(reply, &[]));
    assert_eq!(revise(D1Reply::Answered(None)), "set_attachments: email not found");
    assert_eq!(revise(D1Reply::Answered(Some(garbled()))), "decoding existing body: e");
    assert_eq!(revise(D1Reply::BindFailed("e".to_owned())), "binding body read: e");
    assert_eq!(
        revise(D1Reply::RunFailed("e".to_owned())),
        "reading body for set_attachments: e"
    );
    assert_eq!(message(adapter.write_attachments(id, Err("e".to_owned()))), "encoding body: e");
    let unbound = D1Reply::BindFailed("e".to_owned());
    assert_eq!(message(adapter.attachments_written(unbound)), "binding body update: e");
    let failed = D1Reply::RunFailed("e".to_owned());
    assert_eq!(message(adapter.attachments_written(failed)), "writing body for set_attachments: e");
    assert!(adapter.attachments_written(D1Reply::Answered(())).is_ok());
}

#[test]
fn a_body_that_does_not_decode_is_passed_over() {
    let body = |key: &str| BodyRow {
        body: Ok(EnvelopeBodyDto {
            source: BodySourceDto::MjmlNamed { name: "n".to_owned() },
            attachments: vec![AttachmentRefDto::from(&attachment(key))],
        }),
    };
    let rows = vec![body("a"), BodyRow { body: Err("e".to_owned()) }, body("b")];
    let listed = D1Adapter::new(()).blobs_listed(Ok(Ok(rows))).unwrap();
    let keys: Vec<String> = listed.into_iter().map(|blob| blob.key).collect();
    assert_eq!(keys, vec!["a", "b"]);
    assert!(matches!(D1Adapter::new(()).list_all_attachment_blobs(), Query::ListBodies));
}

#[test]
fn a_collection_of_blobs_says_where_it_failed() {
    let store = DoStore::new(());
    let failed: DoReply<BodyRow> = DoReply::ExecFailed("e".to_owned());
    assert_eq!(message(store.blobs_listed(failed)), "listing bodies: e");
    let garbled: DoReply<BodyRow> = DoReply::DecodeFailed("e".to_owned());
    assert_eq!(message(store.blobs_listed(garbled)), "decoding bodies: e");
    let adapter = D1Adapter::new(());
    assert_eq!(message(adapter.blobs_listed(Err("e".to_owned()))), "listing bodies: e");
    assert_eq!(message(adapter.blobs_listed(Ok(Err("e".to_owned())))), "decoding bodies: e");
}

// --- listing -----------------------------------------------------------------

fn five_emails() -> Db {
    let mut db = Db::new();
    for i in 1..=5u128 {
        do_save(&mut db, EmailId::from(i), &envelope(None, &format!("s{i}@x"))).unwrap();
    }
    db
}

fn senders(records: Vec<EmailRecord>) -> Vec<String> {
    records.into_iter().map(|record| record.sender).collect()
}

#[test]
fn emails_are_listed_newest_first() {
    let listed = do_list(&five_emails(), &all());
    assert_eq!(listed[0].id, EmailId::from(5));
    assert_eq!(listed[0].idempotency_key, None);
    assert_eq!(listed[0].subject.as_deref(), Some("hi"));
    assert_eq!(listed[0].recipients.len(), 3);
    assert_eq!(listed[0].created_at_ms, 1005);
    assert_eq!(listed[0].status, EmailStatus::Queued);
    assert_eq!(senders(listed), vec!["s5@x", "s4@x", "s3@x", "s2@x", "s1@x"]);
}

#[test]
fn pages_follow_each_other() {
    let db = five_emails();
    let page = |limit: u32, offset: u32| {
        senders(do_list(&db, &ListEmailsParams { limit, offset, ..all() }))
    };
    assert_eq!(page(2, 1), vec!["s4@x", "s3@x"]);
    assert_eq!(page(2, 3), vec!["s2@x", "s1@x"]);
    assert_eq!(page(4, 1), vec!["s4@x", "s3@x", "s2@x", "s1@x"]);
    assert!(page(3, 5).is_empty());
    assert!(page(0, 0).is_empty());
}

#[test]
fn filters_narrow_the_listing() {
    let db = five_emails();
    let one = ListEmailsParams { id: Some(EmailId::from(3)), ..all() };
    assert_eq!(senders(do_list(&db, &one)), vec!["s3@x"]);
    let middle = ListEmailsParams { after_ms: Some(1001), before_ms: Some(1004), ..all() };
    assert_eq!(senders(do_list(&db, &middle)), vec!["s3@x", "s2@x"]);
    let ignored = ListEmailsParams {
        status: Some(EmailStatus::Sent),
        recipient: Some("nobody".to_owned()),
        template: Some("none".to_owned()),
        ..all()
    };
    assert_eq!(do_list(&db, &ignored).len(), 5);
}

#[test]
fn a_listing_binds_what_it_filters_by() {
    let params = ListEmailsParams {
        id: Some(EmailId::from(1)),
        after_ms: Some(10),
        before_ms: Some(20),
        limit: 5,
        offset: 2,
        ..all()
    };
    let statement = D1Adapter::new(()).list_emails(&params).statement();
    assert_eq!(
        statement.sql,
        "SELECT id, idempotency_key, subject, sender, recipients, created_at_ms FROM emails \
         WHERE 1=1 AND id = ? AND created_at_ms > ? AND created_at_ms < ? \
         ORDER BY created_at_ms DESC, id DESC LIMIT ? OFFSET ?"
    );
    assert_eq!(
        format!("{:?}", statement.binds),
        "[Text(\"00000000-0000-0000-0000-000000000001\"), Integer(10), Integer(20), Integer(5), \
         Integer(2)]"
    );
    let before = ListEmailsParams { before_ms: Some(20), ..all() };
    let statement = DoStore::new(()).list_emails_sync(&before).statement();
    assert_eq!(
        statement.sql,
        "SELECT id, idempotency_key, subject, sender, recipients, created_at_ms FROM emails \
         WHERE 1=1 AND created_at_ms < ? ORDER BY created_at_ms DESC, id DESC LIMIT ? OFFSET ?"
    );
    assert_eq!(format!("{:?}", statement.binds), "[Integer(20), Integer(100), Integer(0)]");
}

#[test]
fn the_first_row_that_is_no_email_fails_the_listing() {
    let row = |id: &str, recipients: Result<Vec<RecipientDto>, String>| EmailRow {
        id: id.to_owned(),
        idempotency_key: None,
        subject: None,
        sender: "s".to_owned(),
        recipients,
        created_at_ms: 1,
    };
    let good = "00000000-0000-0000-0000-000000000001";
    let store = DoStore::new(());
    let rows = vec![row(good, Ok(vec![])), row(good, Err("r".to_owned())), row("zz", Ok(vec![]))];
    assert_eq!(message(store.emails_listed(DoReply::Rows(rows))), "decoding recipients: r");
    let rows = vec![row("zz", Err("r".to_owned()))];
    let err = message(D1Adapter::new(()).emails_listed(D1Reply::Answered(Ok(rows))));
    assert!(err.starts_with("parsing row id: "));
}

#[test]
fn a_record_takes_the_parsed_identifier() {
    let row = || EmailRow {
        id: "unread".to_owned(),
        idempotency_key: Some("k".to_owned()),
        subject: None,
        sender: "s".to_owned(),
        recipients: Ok(vec![RecipientDto {
            kind: RecipientKindDto::Bcc,
            address: "b@x".to_owned(),
        }]),
        created_at_ms: 9,
    };
    let record = record_with(Ok(EmailId::from(4)), row()).unwrap();
    assert_eq!(record.id, EmailId::from(4));
    assert_eq!(record.idempotency_key.as_deref(), Some("k"));
    assert_eq!(record.recipients, vec![(RecipientKind::Bcc, "b@x".to_owned())]);
    assert_eq!(record.created_at_ms, 9);
    assert_eq!(message(record_with(Err("p".to_owned()), row())), "parsing row id: p");
}

#[test]
fn a_listing_says_where_it_failed() {
    let store = DoStore::new(());
    let failed: DoReply<EmailRow> = DoReply::ExecFailed("e".to_owned());
    assert_eq!(message(store.emails_listed(failed)), "listing emails: e");
    let garbled: DoReply<EmailRow> = DoReply::DecodeFailed("e".to_owned());
    assert_eq!(message(store.emails_listed(garbled)), "decoding rows: e");
    let adapter = D1Adapter::new(());
    let unbound = D1Reply::BindFailed("e".to_owned());
    assert_eq!(message(adapter.emails_listed(unbound)), "binding list query: e");
    let failed = D1Reply::RunFailed("e".to_owned());
    assert_eq!(message(adapter.emails_listed(failed)), "listing emails: e");
    let garbled = D1Reply::Answered(Err("e".to_owned()));
    assert_eq!(message(adapter.emails_listed(garbled)), "decoding rows: e");
}

// --- the queue ---------------------------------------------------------------

fn claim(db: &Db, now_ms: i64, limit: u32) -> Vec<(String, i64)> {
    db.due(&DoStore::new(()).claim_due(now_ms, limit))
        .into_iter()
        .map(|due| (due.email_id, due.attempts))
        .collect()
}

fn next_run_at(db: &Db) -> Option<i64> {
    let store = DoStore::new(());
    store.earliest_run_at(&db.times(&store.next_run_at()))
}

#[test]
fn the_queue_gives_out_what_is_due() {
    let store = DoStore::new(());
    let mut db = Db::new();
    let ids: Vec<String> = (1..=3u128).map(|i| EmailId::from(i).to_text()).collect();
    assert_eq!(next_run_at(&db), None);
    assert!(claim(&db, i64::MAX, 10).is_empty());
    db.write(&store.enqueue(EmailId::from(1), 300));
    db.write(&store.enqueue(EmailId::from(2), 100));
    db.write(&store.enqueue(EmailId::from(3), 200));
    assert_eq!(next_run_at(&db), Some(100));
    assert!(claim(&db, 99, 10).is_empty());
    assert_eq!(claim(&db, 100, 10), vec![(ids[1].clone(), 0)]);
    assert_eq!(claim(&db, 300, 2), vec![(ids[1].clone(), 0), (ids[2].clone(), 0)]);
    db.write(&store.dequeue(&ids[1]));
    assert_eq!(next_run_at(&db), Some(200));
    assert_eq!(claim(&db, 300, 9), vec![(ids[2].clone(), 0), (ids[0].clone(), 0)]);
}

#[test]
fn attempts_are_counted_and_kept() {
    let store = DoStore::new(());
    let mut db = Db::new();
    let id = EmailId::from(1);
    db.write(&store.enqueue(id, 100));
    db.write(&store.reschedule(&id.to_text(), 500));
    assert!(claim(&db, 499, 1).is_empty());
    assert_eq!(claim(&db, 500, 1), vec![(id.to_text(), 1)]);
    db.write(&store.reschedule(&id.to_text(), 900));
    db.write(&store.enqueue(id, 50));
    assert_eq!(claim(&db, 50, 1), vec![(id.to_text(), 2)]);
    db.write(&store.dequeue(&id.to_text()));
    db.write(&store.reschedule(&id.to_text(), 10));
    assert!(claim(&db, i64::MAX, 1).is_empty());
}

#[test]
fn the_statements_of_the_queue() {
    let store = DoStore::new(());
    let statement = store.enqueue(EmailId::from(1), 5).statement();
    assert_eq!(
        statement.sql,
        "INSERT OR REPLACE INTO email_queue (email_id, run_at_ms, attempts) \
         VALUES (?, ?, COALESCE((SELECT attempts FROM email_queue WHERE email_id = ?), 0))"
    );
    assert!(matches!(statement.binds[1], SqlValue::Integer(5)));
    let statement = store.claim_due(7, 3).statement();
    assert_eq!(
        statement.sql,
        "SELECT email_id, attempts FROM email_queue WHERE run_at_ms <= ? \
         ORDER BY run_at_ms LIMIT ?"
    );
    assert_eq!(format!("{:?}", statement.binds), "[Integer(7), Integer(3)]");
    let statement = store.reschedule("e", 9).statement();
    assert_eq!(
        statement.sql,
        "UPDATE email_queue SET run_at_ms = ?, attempts = attempts + 1 WHERE email_id = ?"
    );
    assert_eq!(format!("{:?}", statement.binds), "[Integer(9), Text(\"e\")]");
    assert_eq!(store.dequeue("e").statement().sql, "DELETE FROM email_queue WHERE email_id = ?");
    let statement = store.next_run_at().statement();
    assert_eq!(statement.sql, "SELECT run_at_ms FROM email_queue ORDER BY run_at_ms LIMIT 1");
    assert!(statement.binds.is_empty());
    let schema = store.init_schema().statement().sql;
    assert!(schema.starts_with("CREATE TABLE IF NOT EXISTS emails (\n    id              TEXT"));
    assert!(schema.contains("CREATE UNIQUE INDEX IF NOT EXISTS emails_idempotency_key"));
    assert!(schema.ends_with("ON email_queue(run_at_ms);\n"));
}
