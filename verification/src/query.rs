//! The statements the adapters run against the email database.
//!
//! A [`Query`] says what is asked; [`Query::statement`] is the SQL text and the
//! values to bind, which the host hands to its database.
use crate::text::{as_opt_str, opt_str_text, opt_text};
use vstd::prelude::*;
use vstd::string::StringExecFns;

verus! {

/// Creates the tables and indexes where they do not exist yet.
pub const SCHEMA: &'static str = "\
CREATE TABLE IF NOT EXISTS emails (
    id              TEXT PRIMARY KEY NOT NULL,
    idempotency_key TEXT,
    correlation_id  TEXT,
    subject         TEXT,
    sender          TEXT NOT NULL,
    recipients      TEXT NOT NULL,
    body            TEXT NOT NULL,
    variables       TEXT NOT NULL,
    created_at_ms   INTEGER NOT NULL DEFAULT (CAST(unixepoch('now','subsec')*1000 AS INTEGER))
);
CREATE UNIQUE INDEX IF NOT EXISTS emails_idempotency_key
    ON emails(idempotency_key) WHERE idempotency_key IS NOT NULL;
CREATE TABLE IF NOT EXISTS email_queue (
    email_id   TEXT PRIMARY KEY NOT NULL REFERENCES emails(id),
    run_at_ms  INTEGER NOT NULL,
    attempts   INTEGER NOT NULL DEFAULT 0
);
CREATE INDEX IF NOT EXISTS email_queue_run_at ON email_queue(run_at_ms);
";

pub const ENQUEUE_SQL: &'static str = "INSERT OR REPLACE INTO email_queue (email_id, run_at_ms, attempts) \
    VALUES (?, ?, COALESCE((SELECT attempts FROM email_queue WHERE email_id = ?), 0))";

pub const CLAIM_DUE_SQL: &'static str = "SELECT email_id, attempts FROM email_queue \
    WHERE run_at_ms <= ? ORDER BY run_at_ms LIMIT ?";

pub const RESCHEDULE_SQL: &'static str =
    "UPDATE email_queue SET run_at_ms = ?, attempts = attempts + 1 WHERE email_id = ?";

pub const DEQUEUE_SQL: &'static str = "DELETE FROM email_queue WHERE email_id = ?";

pub const NEXT_RUN_AT_SQL: &'static str = "SELECT run_at_ms FROM email_queue ORDER BY run_at_ms LIMIT 1";

pub const LOAD_ENVELOPE_SQL: &'static str =
    "SELECT sender, subject, recipients, body, variables FROM emails WHERE id = ?";

pub const INSERT_EMAIL_SQL: &'static str = "INSERT OR IGNORE INTO emails \
    (id, idempotency_key, correlation_id, subject, sender, recipients, body, variables) \
    VALUES (?, ?, ?, ?, ?, ?, ?, ?)";

pub const ID_BY_ID_SQL: &'static str = "SELECT id FROM emails WHERE id = ?";

pub const ID_BY_KEY_SQL: &'static str = "SELECT id FROM emails WHERE idempotency_key = ?";

pub const LIST_EMAILS_SQL: &'static str =
    "SELECT id, idempotency_key, subject, sender, recipients, created_at_ms \
    FROM emails WHERE 1=1";

pub const LIST_ID_FILTER_SQL: &'static str = " AND id = ?";

pub const LIST_AFTER_FILTER_SQL: &'static str = " AND created_at_ms > ?";

pub const LIST_BEFORE_FILTER_SQL: &'static str = " AND created_at_ms < ?";

pub const LIST_PAGE_SQL: &'static str = " ORDER BY created_at_ms DESC, id DESC LIMIT ? OFFSET ?";

pub const READ_BODY_SQL: &'static str = "SELECT body FROM emails WHERE id = ?";

pub const WRITE_BODY_SQL: &'static str = "UPDATE emails SET body = ? WHERE id = ?";

pub const DELETE_EMAIL_SQL: &'static str = "DELETE FROM emails WHERE id = ?";

pub const LIST_BODIES_SQL: &'static str = "SELECT body FROM emails";

/// A value bound to a placeholder.
#[derive(Debug)]
pub enum SqlValue {
    Null,
    Integer(i64),
    Text(String),
}

/// A value bound to a placeholder, by its meaning.
pub enum SqlDatum {
    Null,
    Integer(int),
    Text(Seq<char>),
}

impl View for SqlValue {
    type V = SqlDatum;

    open spec fn view(&self) -> SqlDatum {
        match self {
            SqlValue::Null => SqlDatum::Null,
            SqlValue::Integer(value) => SqlDatum::Integer(*value as int),
            SqlValue::Text(text) => SqlDatum::Text(text@),
        }
    }
}

/// An SQL text with the values for its placeholders, in order.
#[derive(Debug)]
pub struct Statement {
    pub sql: String,
    pub binds: Vec<SqlValue>,
}

impl Statement {
    /// The bound values.
    pub open spec fn data(self) -> Seq<SqlDatum> {
        self.binds@.map_values(|value: SqlValue| value@)
    }
}

/// The columns of a new email, apart from its creation time, which the database
/// sets.
#[derive(Debug)]
pub struct NewEmail {
    pub id: String,
    pub idempotency_key: Option<String>,
    pub correlation_id: Option<String>,
    pub subject: Option<String>,
    pub sender: String,
    pub recipients: String,
    pub body: String,
    pub variables: String,
}

/// What is asked of the database.
#[derive(Debug)]
pub enum Query {
    /// Create the tables.
    InitSchema,
    /// Put an email on the queue, or move it; its attempts stay counted.
    Enqueue { email_id: String, run_at_ms: i64 },
    /// The earliest queue entries that are due.
    ClaimDue { now_ms: i64, limit: u32 },
    /// Move a queue entry and count one more attempt.
    Reschedule { email_id: String, run_at_ms: i64 },
    /// Take an email off the queue.
    Dequeue { email_id: String },
    /// The earliest time on the queue.
    NextRunAt,
    /// The columns a delivery needs.
    LoadEnvelope { email_id: String },
    /// Store an email unless its identifier or its idempotency key is taken.
    InsertEmail(NewEmail),
    /// The identifier, if there is an email under it.
    IdById { id: String },
    /// The identifiers of the emails with an idempotency key.
    IdByKey { key: String },
    /// One page of the emails, the newest first.
    ListEmails {
        only_id: Option<String>,
        after_ms: Option<i64>,
        before_ms: Option<i64>,
        limit: u32,
        offset: u32,
    },
    /// The body column of an email.
    ReadBody { id: String },
    /// Replace the body column of an email.
    WriteBody { body: String, id: String },
    /// Remove an email.
    DeleteEmail { id: String },
    /// The body columns of all emails.
    ListBodies,
}

/// The value of a nullable text column.
pub open spec fn opt_datum(text: Option<Seq<char>>) -> SqlDatum {
    match text {
        Some(text) => SqlDatum::Text(text),
        None => SqlDatum::Null,
    }
}

/// An optional condition of the listing: its text where it applies.
pub open spec fn clause_if(applies: bool, clause: Seq<char>) -> Seq<char> {
    if applies {
        clause
    } else {
        Seq::empty()
    }
}

/// An optional bound value: the one value where it applies.
pub open spec fn datum_if(applies: bool, datum: SqlDatum) -> Seq<SqlDatum> {
    if applies {
        seq![datum]
    } else {
        Seq::empty()
    }
}

impl Query {
    /// The SQL text of the query.
    pub open spec fn sql(self) -> Seq<char> {
        match self {
            Query::InitSchema => SCHEMA@,
            Query::Enqueue { .. } => ENQUEUE_SQL@,
            Query::ClaimDue { .. } => CLAIM_DUE_SQL@,
            Query::Reschedule { .. } => RESCHEDULE_SQL@,
            Query::Dequeue { .. } => DEQUEUE_SQL@,
            Query::NextRunAt => NEXT_RUN_AT_SQL@,
            Query::LoadEnvelope { .. } => LOAD_ENVELOPE_SQL@,
            Query::InsertEmail(_) => INSERT_EMAIL_SQL@,
            Query::IdById { .. } => ID_BY_ID_SQL@,
            Query::IdByKey { .. } => ID_BY_KEY_SQL@,
            Query::ListEmails { only_id, after_ms, before_ms, .. } => LIST_EMAILS_SQL@ + clause_if(
                only_id is Some,
                LIST_ID_FILTER_SQL@,
            ) + clause_if(after_ms is Some, LIST_AFTER_FILTER_SQL@) + clause_if(
                before_ms is Some,
                LIST_BEFORE_FILTER_SQL@,
            ) + LIST_PAGE_SQL@,
            Query::ReadBody { .. } => READ_BODY_SQL@,
            Query::WriteBody { .. } => WRITE_BODY_SQL@,
            Query::DeleteEmail { .. } => DELETE_EMAIL_SQL@,
            Query::ListBodies => LIST_BODIES_SQL@,
        }
    }

    /// The values for the placeholders of the SQL text.
    pub open spec fn data(self) -> Seq<SqlDatum> {
        match self {
            Query::InitSchema | Query::NextRunAt | Query::ListBodies => Seq::empty(),
            Query::Enqueue { email_id, run_at_ms } => seq![
                SqlDatum::Text(email_id@),
                SqlDatum::Integer(run_at_ms as int),
                SqlDatum::Text(email_id@),
            ],
            Query::ClaimDue { now_ms, limit } => seq![
                SqlDatum::Integer(now_ms as int),
                SqlDatum::Integer(limit as int),
            ],
            Query::Reschedule { email_id, run_at_ms } => seq![
                SqlDatum::Integer(run_at_ms as int),
                SqlDatum::Text(email_id@),
            ],
            Query::Dequeue { email_id } => seq![SqlDatum::Text(email_id@)],
            Query::LoadEnvelope { email_id } => seq![SqlDatum::Text(email_id@)],
            Query::InsertEmail(email) => seq![
                SqlDatum::Text(email.id@),
                opt_datum(opt_text(email.idempotency_key)),
                opt_datum(opt_text(email.correlation_id)),
                opt_datum(opt_text(email.subject)),
                SqlDatum::Text(email.sender@),
                SqlDatum::Text(email.recipients@),
                SqlDatum::Text(email.body@),
                SqlDatum::Text(email.variables@),
            ],
            Query::IdById { id } => seq![SqlDatum::Text(id@)],
            Query::IdByKey { key } => seq![SqlDatum::Text(key@)],
            Query::ListEmails { only_id, after_ms, before_ms, limit, offset } => datum_if(
                only_id is Some,
                SqlDatum::Text(only_id->0@),
            ) + datum_if(after_ms is Some, SqlDatum::Integer(after_ms->0 as int)) + datum_if(
                before_ms is Some,
                SqlDatum::Integer(before_ms->0 as int),
            ) + seq![SqlDatum::Integer(limit as int), SqlDatum::Integer(offset as int)],
            Query::ReadBody { id } => seq![SqlDatum::Text(id@)],
            Query::WriteBody { body, id } => seq![SqlDatum::Text(body@), SqlDatum::Text(id@)],
            Query::DeleteEmail { id } => seq![SqlDatum::Text(id@)],
        }
    }

    /// The SQL text and the bound values of the query.
    pub fn statement(&self) -> (statement: Statement)
        ensures
            statement.sql@ == self.sql(),
            statement.data() == self.data(),
            statement.sql@ == match *self {
                Query::InitSchema => SCHEMA@,
                Query::Enqueue { .. } =>
                    "INSERT OR REPLACE INTO email_queue (email_id, run_at_ms, attempts) VALUES (?, ?, COALESCE((SELECT attempts FROM email_queue WHERE email_id = ?), 0))"@,
                Query::ClaimDue { .. } =>
                    "SELECT email_id, attempts FROM email_queue WHERE run_at_ms <= ? ORDER BY run_at_ms LIMIT ?"@,
                Query::Reschedule { .. } =>
                    "UPDATE email_queue SET run_at_ms = ?, attempts = attempts + 1 WHERE email_id = ?"@,
                Query::Dequeue { .. } => "DELETE FROM email_queue WHERE email_id = ?"@,
                Query::NextRunAt => "SELECT run_at_ms FROM email_queue ORDER BY run_at_ms LIMIT 1"@,
                Query::LoadEnvelope { .. } =>
                    "SELECT sender, subject, recipients, body, variables FROM emails WHERE id = ?"@,
                Query::InsertEmail(_) =>
                    "INSERT OR IGNORE INTO emails (id, idempotency_key, correlation_id, subject, sender, recipients, body, variables) VALUES (?, ?, ?, ?, ?, ?, ?, ?)"@,
                Query::IdById { .. } => "SELECT id FROM emails WHERE id = ?"@,
                Query::IdByKey { .. } => "SELECT id FROM emails WHERE idempotency_key = ?"@,
                Query::ListEmails { only_id, after_ms, before_ms, .. } =>
                    "SELECT id, idempotency_key, subject, sender, recipients, created_at_ms FROM emails WHERE 1=1"@
                    + (if only_id is Some {
                    " AND id = ?"@
                } else {
                    Seq::empty()
                }) + (if after_ms is Some {
                    " AND created_at_ms > ?"@
                } else {
                    Seq::empty()
                }) + (if before_ms is Some {
                    " AND created_at_ms < ?"@
                } else {
                    Seq::empty()
                }) + " ORDER BY created_at_ms DESC, id DESC LIMIT ? OFFSET ?"@,
                Query::ReadBody { .. } => "SELECT body FROM emails WHERE id = ?"@,
                Query::WriteBody { .. } => "UPDATE emails SET body = ? WHERE id = ?"@,
                Query::DeleteEmail { .. } => "DELETE FROM emails WHERE id = ?"@,
                Query::ListBodies => "SELECT body FROM emails"@,
            },
            statement.binds@.map_values(
                |value: SqlValue|
                    match value {
                        SqlValue::Null => SqlDatum::Null,
                        SqlValue::Integer(number) => SqlDatum::Integer(number as int),
                        SqlValue::Text(text) => SqlDatum::Text(text@),
                    },
            ) == match *self {
                Query::InitSchema | Query::NextRunAt | Query::ListBodies => Seq::empty(),
                Query::Enqueue { email_id, run_at_ms } => seq![
                    SqlDatum::Text(email_id@),
                    SqlDatum::Integer(run_at_ms as int),
                    SqlDatum::Text(email_id@),
                ],
                Query::ClaimDue { now_ms, limit } => seq![
                    SqlDatum::Integer(now_ms as int),
                    SqlDatum::Integer(limit as int),
                ],
                Query::Reschedule { email_id, run_at_ms } => seq![
                    SqlDatum::Integer(run_at_ms as int),
                    SqlDatum::Text(email_id@),
                ],
                Query::Dequeue { email_id } => seq![SqlDatum::Text(email_id@)],
                Query::LoadEnvelope { email_id } => seq![SqlDatum::Text(email_id@)],
                Query::InsertEmail(email) => seq![
                    SqlDatum::Text(email.id@),
                    match email.idempotency_key {
                        Some(text) => SqlDatum::Text(text@),
                        None => SqlDatum::Null,
                    },
                    match email.correlation_id {
                        Some(text) => SqlDatum::Text(text@),
                        None => SqlDatum::Null,
                    },
                    match email.subject {
                        Some(text) => SqlDatum::Text(text@),
                        None => SqlDatum::Null,
                    },
                    SqlDatum::Text(email.sender@),
                    SqlDatum::Text(email.recipients@),
                    SqlDatum::Text(email.body@),
                    SqlDatum::Text(email.variables@),
                ],
                Query::IdById { id } => seq![SqlDatum::Text(id@)],
                Query::IdByKey { key } => seq![SqlDatum::Text(key@)],
                Query::ListEmails { only_id, after_ms, before_ms, limit, offset } => (
                match only_id {
                    Some(id) => seq![SqlDatum::Text(id@)],
                    None => Seq::empty(),
                }) + (match after_ms {
                    Some(after) => seq![SqlDatum::Integer(after as int)],
                    None => Seq::empty(),
                }) + (match before_ms {
                    Some(before) => seq![SqlDatum::Integer(before as int)],
                    None => Seq::empty(),
                }) + seq![SqlDatum::Integer(limit as int), SqlDatum::Integer(offset as int)],
                Query::ReadBody { id } => seq![SqlDatum::Text(id@)],
                Query::WriteBody { body, id } => seq![
                    SqlDatum::Text(body@),
                    SqlDatum::Text(id@),
                ],
                Query::DeleteEmail { id } => seq![SqlDatum::Text(id@)],
            },
    {
        let mut binds: Vec<SqlValue> = Vec::new();
        let sql: String = match self {
            Query::InitSchema => SCHEMA.to_owned(),
            Query::Enqueue { email_id, run_at_ms } => {
                binds.push(SqlValue::Text(email_id.clone()));
                binds.push(SqlValue::Integer(*run_at_ms));
                binds.push(SqlValue::Text(email_id.clone()));
                ENQUEUE_SQL.to_owned()
            },
            Query::ClaimDue { now_ms, limit } => {
                binds.push(SqlValue::Integer(*now_ms));
                binds.push(SqlValue::Integer(*limit as i64));
                CLAIM_DUE_SQL.to_owned()
            },
            Query::Reschedule { email_id, run_at_ms } => {
                binds.push(SqlValue::Integer(*run_at_ms));
                binds.push(SqlValue::Text(email_id.clone()));
                RESCHEDULE_SQL.to_owned()
            },
            Query::Dequeue { email_id } => {
                binds.push(SqlValue::Text(email_id.clone()));
                DEQUEUE_SQL.to_owned()
            },
            Query::NextRunAt => NEXT_RUN_AT_SQL.to_owned(),
            Query::LoadEnvelope { email_id } => {
                binds.push(SqlValue::Text(email_id.clone()));
                LOAD_ENVELOPE_SQL.to_owned()
            },
            Query::InsertEmail(email) => {
                binds.push(SqlValue::Text(email.id.clone()));
                binds.push(opt_str(as_opt_str(&email.idempotency_key)));
                binds.push(opt_str(as_opt_str(&email.correlation_id)));
                binds.push(opt_str(as_opt_str(&email.subject)));
                binds.push(SqlValue::Text(email.sender.clone()));
                binds.push(SqlValue::Text(email.recipients.clone()));
                binds.push(SqlValue::Text(email.body.clone()));
                binds.push(SqlValue::Text(email.variables.clone()));
                INSERT_EMAIL_SQL.to_owned()
            },
            Query::IdById { id } => {
                binds.push(SqlValue::Text(id.clone()));
                ID_BY_ID_SQL.to_owned()
            },
            Query::IdByKey { key } => {
                binds.push(SqlValue::Text(key.clone()));
                ID_BY_KEY_SQL.to_owned()
            },
            Query::ListEmails { only_id, after_ms, before_ms, limit, offset } => {
                let mut sql = LIST_EMAILS_SQL.to_owned();
                if let Some(id) = only_id {
                    sql.append(LIST_ID_FILTER_SQL);
                    binds.push(SqlValue::Text(id.clone()));
                }
                if let Some(after) = after_ms {
                    sql.append(LIST_AFTER_FILTER_SQL);
                    binds.push(SqlValue::Integer(*after));
                }
                if let Some(before) = before_ms {
                    sql.append(LIST_BEFORE_FILTER_SQL);
                    binds.push(SqlValue::Integer(*before));
                }
                sql.append(LIST_PAGE_SQL);
                binds.push(SqlValue::Integer(*limit as i64));
                binds.push(SqlValue::Integer(*offset as i64));
                sql
            },
            Query::ReadBody { id } => {
                binds.push(SqlValue::Text(id.clone()));
                READ_BODY_SQL.to_owned()
            },
            Query::WriteBody { body, id } => {
                binds.push(SqlValue::Text(body.clone()));
                binds.push(SqlValue::Text(id.clone()));
                WRITE_BODY_SQL.to_owned()
            },
            Query::DeleteEmail { id } => {
                binds.push(SqlValue::Text(id.clone()));
                DELETE_EMAIL_SQL.to_owned()
            },
            Query::ListBodies => LIST_BODIES_SQL.to_owned(),
        };
        let statement = Statement { sql, binds };
        assert(statement.sql@ =~= self.sql());
        assert(statement.data() =~= self.data());
        proof {
            law_statement_texts(*self);
            law_bound_values(*self);
            assert(statement.binds@.map_values(
                |value: SqlValue|
                    match value {
                        SqlValue::Null => SqlDatum::Null,
                        SqlValue::Integer(number) => SqlDatum::Integer(number as int),
                        SqlValue::Text(text) => SqlDatum::Text(text@),
                    },
            ) =~= statement.data());
        }
        statement
    }
}

/// The bound value of a nullable text column.
pub fn opt_str(text: Option<&str>) -> (value: SqlValue)
    ensures
        value@ == opt_datum(opt_str_text(text)),
        match text {
            Some(held) => value matches SqlValue::Text(bound) && bound@ == held@,
            None => value is Null,
        },
{
    match text {
        Some(text) => SqlValue::Text(text.to_owned()),
        None => SqlValue::Null,
    }
}

/// The statement of every query, word for word: which table it reads or writes,
/// which columns it gives back, by which columns it selects, in which order and how
/// many.
pub proof fn law_statement_texts(query: Query)
    ensures
        query.sql() == match query {
            Query::InitSchema =>
                "\
CREATE TABLE IF NOT EXISTS emails (
    id              TEXT PRIMARY KEY NOT NULL,
    idempotency_key TEXT,
    correlation_id  TEXT,
    subject         TEXT,
    sender          TEXT NOT NULL,
    recipients      TEXT NOT NULL,
    body            TEXT NOT NULL,
    variables       TEXT NOT NULL,
    created_at_ms   INTEGER NOT NULL DEFAULT (CAST(unixepoch('now','subsec')*1000 AS INTEGER))
);
CREATE UNIQUE INDEX IF NOT EXISTS emails_idempotency_key
    ON emails(idempotency_key) WHERE idempotency_key IS NOT NULL;
CREATE TABLE IF NOT EXISTS email_queue (
    email_id   TEXT PRIMARY KEY NOT NULL REFERENCES emails(id),
    run_at_ms  INTEGER NOT NULL,
    attempts   INTEGER NOT NULL DEFAULT 0
);
CREATE INDEX IF NOT EXISTS email_queue_run_at ON email_queue(run_at_ms);
"@,
            Query::Enqueue { .. } =>
                "INSERT OR REPLACE INTO email_queue (email_id, run_at_ms, attempts) VALUES (?, ?, COALESCE((SELECT attempts FROM email_queue WHERE email_id = ?), 0))"@,
            Query::ClaimDue { .. } =>
                "SELECT email_id, attempts FROM email_queue WHERE run_at_ms <= ? ORDER BY run_at_ms LIMIT ?"@,
            Query::Reschedule { .. } =>
                "UPDATE email_queue SET run_at_ms = ?, attempts = attempts + 1 WHERE email_id = ?"@,
            Query::Dequeue { .. } => "DELETE FROM email_queue WHERE email_id = ?"@,
            Query::NextRunAt => "SELECT run_at_ms FROM email_queue ORDER BY run_at_ms LIMIT 1"@,
            Query::LoadEnvelope { .. } =>
                "SELECT sender, subject, recipients, body, variables FROM emails WHERE id = ?"@,
            Query::InsertEmail(_) =>
                "INSERT OR IGNORE INTO emails (id, idempotency_key, correlation_id, subject, sender, recipients, body, variables) VALUES (?, ?, ?, ?, ?, ?, ?, ?)"@,
            Query::IdById { .. } => "SELECT id FROM emails WHERE id = ?"@,
            Query::IdByKey { .. } => "SELECT id FROM emails WHERE idempotency_key = ?"@,
            Query::ListEmails { only_id, after_ms, before_ms, .. } =>
                "SELECT id, idempotency_key, subject, sender, recipients, created_at_ms FROM emails WHERE 1=1"@
                + (if only_id is Some {
                " AND id = ?"@
            } else {
                Seq::empty()
            }) + (if after_ms is Some {
                " AND created_at_ms > ?"@
            } else {
                Seq::empty()
            }) + (if before_ms is Some {
                " AND created_at_ms < ?"@
            } else {
                Seq::empty()
            }) + " ORDER BY created_at_ms DESC, id DESC LIMIT ? OFFSET ?"@,
            Query::ReadBody { .. } => "SELECT body FROM emails WHERE id = ?"@,
            Query::WriteBody { .. } => "UPDATE emails SET body = ? WHERE id = ?"@,
            Query::DeleteEmail { .. } => "DELETE FROM emails WHERE id = ?"@,
            Query::ListBodies => "SELECT body FROM emails"@,
        },
{
}

/// The values bound to the placeholders of every statement, one for each
/// placeholder, in the order in which they stand; an absent text is bound as null.
pub proof fn law_bound_values(query: Query)
    ensures
        query.data() == match query {
            Query::InitSchema | Query::NextRunAt | Query::ListBodies => Seq::empty(),
            Query::Enqueue { email_id, run_at_ms } => seq![
                SqlDatum::Text(email_id@),
                SqlDatum::Integer(run_at_ms as int),
                SqlDatum::Text(email_id@),
            ],
            Query::ClaimDue { now_ms, limit } => seq![
                SqlDatum::Integer(now_ms as int),
                SqlDatum::Integer(limit as int),
            ],
            Query::Reschedule { email_id, run_at_ms } => seq![
                SqlDatum::Integer(run_at_ms as int),
                SqlDatum::Text(email_id@),
            ],
            Query::Dequeue { email_id } => seq![SqlDatum::Text(email_id@)],
            Query::LoadEnvelope { email_id } => seq![SqlDatum::Text(email_id@)],
            Query::InsertEmail(email) => seq![
                SqlDatum::Text(email.id@),
                match email.idempotency_key {
                    Some(text) => SqlDatum::Text(text@),
                    None => SqlDatum::Null,
                },
                match email.correlation_id {
                    Some(text) => SqlDatum::Text(text@),
                    None => SqlDatum::Null,
                },
                match email.subject {
                    Some(text) => SqlDatum::Text(text@),
                    None => SqlDatum::Null,
                },
                SqlDatum::Text(email.sender@),
                SqlDatum::Text(email.recipients@),
                SqlDatum::Text(email.body@),
                SqlDatum::Text(email.variables@),
            ],
            Query::IdById { id } => seq![SqlDatum::Text(id@)],
            Query::IdByKey { key } => seq![SqlDatum::Text(key@)],
            Query::ListEmails { only_id, after_ms, before_ms, limit, offset } => (
            match only_id {
                Some(id) => seq![SqlDatum::Text(id@)],
                None => Seq::empty(),
            }) + (match after_ms {
                Some(after) => seq![SqlDatum::Integer(after as int)],
                None => Seq::empty(),
            }) + (match before_ms {
                Some(before) => seq![SqlDatum::Integer(before as int)],
                None => Seq::empty(),
            }) + seq![SqlDatum::Integer(limit as int), SqlDatum::Integer(offset as int)],
            Query::ReadBody { id } => seq![SqlDatum::Text(id@)],
            Query::WriteBody { body, id } => seq![
                SqlDatum::Text(body@),
                SqlDatum::Text(id@),
            ],
            Query::DeleteEmail { id } => seq![SqlDatum::Text(id@)],
        },
{
    assert(query.data() =~= match query {
        Query::InitSchema | Query::NextRunAt | Query::ListBodies => Seq::empty(),
        Query::Enqueue { email_id, run_at_ms } => seq![
            SqlDatum::Text(email_id@),
            SqlDatum::Integer(run_at_ms as int),
            SqlDatum::Text(email_id@),
        ],
        Query::ClaimDue { now_ms, limit } => seq![
            SqlDatum::Integer(now_ms as int),
            SqlDatum::Integer(limit as int),
        ],
        Query::Reschedule { email_id, run_at_ms } => seq![
            SqlDatum::Integer(run_at_ms as int),
            SqlDatum::Text(email_id@),
        ],
        Query::Dequeue { email_id } => seq![SqlDatum::Text(email_id@)],
        Query::LoadEnvelope { email_id } => seq![SqlDatum::Text(email_id@)],
        Query::InsertEmail(email) => seq![
            SqlDatum::Text(email.id@),
            match email.idempotency_key {
                Some(text) => SqlDatum::Text(text@),
                None => SqlDatum::Null,
            },
            match email.correlation_id {
                Some(text) => SqlDatum::Text(text@),
                None => SqlDatum::Null,
            },
            match email.subject {
                Some(text) => SqlDatum::Text(text@),
                None => SqlDatum::Null,
            },
            SqlDatum::Text(email.sender@),
            SqlDatum::Text(email.recipients@),
            SqlDatum::Text(email.body@),
            SqlDatum::Text(email.variables@),
        ],
        Query::IdById { id } => seq![SqlDatum::Text(id@)],
        Query::IdByKey { key } => seq![SqlDatum::Text(key@)],
        Query::ListEmails { only_id, after_ms, before_ms, limit, offset } => (
        match only_id {
            Some(id) => seq![SqlDatum::Text(id@)],
            None => Seq::empty(),
        }) + (match after_ms {
            Some(after) => seq![SqlDatum::Integer(after as int)],
            None => Seq::empty(),
        }) + (match before_ms {
            Some(before) => seq![SqlDatum::Integer(before as int)],
            None => Seq::empty(),
        }) + seq![SqlDatum::Integer(limit as int), SqlDatum::Integer(offset as int)],
        Query::ReadBody { id } => seq![SqlDatum::Text(id@)],
        Query::WriteBody { body, id } => seq![
            SqlDatum::Text(body@),
            SqlDatum::Text(id@),
        ],
        Query::DeleteEmail { id } => seq![SqlDatum::Text(id@)],
    });
}

/// A value means what it holds, and a statement binds the meanings of its values in
/// order.
pub proof fn law_values_mean_what_they_hold(
    statement: Statement,
    number: i64,
    text: String,
    i: int,
)
    requires
        0 <= i < statement.binds@.len(),
    ensures
        SqlValue::Null@ == SqlDatum::Null,
        SqlValue::Integer(number)@ == SqlDatum::Integer(number as int),
        SqlValue::Text(text)@ == SqlDatum::Text(text@),
        statement.data().len() == statement.binds@.len(),
        statement.data()[i] == statement.binds@[i]@,
{
}

} // verus!
