//! What the queries mean: the two tables as mathematical maps, what a query that
//! succeeds leaves in them, and which rows answer it.
//!
//! This is the relational reading of the SQL in [`crate::query`]. The database
//! itself is the host's; a query that it refuses changes nothing.
use crate::id::{uuid_parsed, uuid_text};
use crate::query::{NewEmail, Query};
use crate::text::opt_text;
use vstd::prelude::*;

verus! {

/// A row of the `emails` table, apart from its identifier.
#[verifier::ext_equal]
pub struct EmailEntry {
    pub idempotency_key: Option<Seq<char>>,
    pub correlation_id: Option<Seq<char>>,
    pub subject: Option<Seq<char>>,
    pub sender: Seq<char>,
    pub recipients: Seq<char>,
    pub body: Seq<char>,
    pub variables: Seq<char>,
    pub created_at_ms: int,
}

/// A row of the `email_queue` table, apart from its identifier.
#[verifier::ext_equal]
pub struct QueueEntry {
    pub run_at_ms: int,
    pub attempts: int,
}

/// The content of the database.
#[verifier::ext_equal]
pub struct Tables {
    /// The emails by identifier.
    pub emails: Map<Seq<char>, EmailEntry>,
    /// The queue entries by email identifier.
    pub queue: Map<Seq<char>, QueueEntry>,
}

/// The condition of a listing.
pub struct ListFilter {
    pub id: Option<Seq<char>>,
    pub after_ms: Option<int>,
    pub before_ms: Option<int>,
}

/// The rows that a query gives back.
pub enum Answer {
    /// No rows, as for a query that writes.
    Nothing,
    /// Queue entries: the email and its attempts.
    Due(Seq<(Seq<char>, int)>),
    /// Times of queue entries.
    RunAt(Seq<int>),
    /// Identifiers of emails.
    Ids(Seq<Seq<char>>),
    /// Emails without their identifiers.
    Entries(Seq<EmailEntry>),
    /// Body columns.
    Bodies(Seq<Seq<char>>),
    /// Emails with their identifiers.
    Emails(Seq<(Seq<char>, EmailEntry)>),
}

/// Whether a text is the stored form of an identifier, and reads back as it.
pub open spec fn is_id_text(text: Seq<char>) -> bool {
    uuid_parsed(text) matches Ok(bits) && text == uuid_text(bits)
}

/// Whether a text stands before another in the order of the database: at the
/// first difference it has the smaller code point, or it ends there.
pub open spec fn text_before(left: Seq<char>, right: Seq<char>) -> bool
    decreases left.len(),
{
    if right.len() == 0 {
        false
    } else if left.len() == 0 {
        true
    } else if left[0] == right[0] {
        text_before(left.drop_first(), right.drop_first())
    } else {
        (left[0] as int) < (right[0] as int)
    }
}

/// Whether an email is listed before another: the newer one first, and of two
/// equally old ones the one with the greater identifier.
pub open spec fn listed_before(
    left: (Seq<char>, EmailEntry),
    right: (Seq<char>, EmailEntry),
) -> bool {
    left.1.created_at_ms > right.1.created_at_ms || (left.1.created_at_ms == right.1.created_at_ms
        && text_before(right.0, left.0))
}

impl ListFilter {
    /// Whether an email is among those asked for.
    pub open spec fn matches(self, id: Seq<char>, entry: EmailEntry) -> bool {
        &&& self.id matches Some(wanted) ==> id == wanted
        &&& self.after_ms matches Some(after) ==> entry.created_at_ms > after
        &&& self.before_ms matches Some(before) ==> entry.created_at_ms < before
    }
}

/// The row that an insert makes, created at the given time.
pub open spec fn entry_of(email: NewEmail, created_at_ms: int) -> EmailEntry {
    EmailEntry {
        idempotency_key: opt_text(email.idempotency_key),
        correlation_id: opt_text(email.correlation_id),
        subject: opt_text(email.subject),
        sender: email.sender@,
        recipients: email.recipients@,
        body: email.body@,
        variables: email.variables@,
        created_at_ms,
    }
}

impl Tables {
    /// Whether the email under `id` has the idempotency key `key`.
    pub open spec fn owns_key(self, id: Seq<char>, key: Seq<char>) -> bool {
        self.emails.contains_key(id) && self.emails[id].idempotency_key == Some(key)
    }

    /// Whether some email has the idempotency key of a new one.
    pub open spec fn key_taken(self, email: NewEmail) -> bool {
        exists|id: Seq<char>|
            #![trigger self.emails.contains_key(id)]
            email.idempotency_key is Some && self.owns_key(id, email.idempotency_key->0@)
    }

    /// Whether a new email would be stored, and not ignored.
    pub open spec fn accepts(self, email: NewEmail) -> bool {
        !self.emails.contains_key(email.id@) && !self.key_taken(email)
    }

    /// How many rows the insert of a new email changes.
    pub open spec fn rows_inserted(self, email: NewEmail) -> nat {
        if self.accepts(email) {
            1
        } else {
            0
        }
    }

    /// Whether the tables hold what the schema and the adapters let into them:
    /// no idempotency key twice, and only identifiers that read back.
    pub open spec fn wf(self) -> bool {
        &&& forall|left: Seq<char>, right: Seq<char>, key: Seq<char>|
            #![trigger self.owns_key(left, key), self.owns_key(right, key)]
            self.owns_key(left, key) && self.owns_key(right, key) ==> left == right
        &&& forall|id: Seq<char>| #[trigger] self.emails.contains_key(id) ==> is_id_text(id)
    }

    /// The tables after a query has succeeded, run at the time `clock_ms`.
    pub open spec fn after(self, query: Query, clock_ms: int) -> Tables {
        match query {
            Query::Enqueue { email_id, run_at_ms } => Tables {
                queue: self.queue.insert(
                    email_id@,
                    QueueEntry {
                        run_at_ms: run_at_ms as int,
                        attempts: if self.queue.contains_key(email_id@) {
                            self.queue[email_id@].attempts
                        } else {
                            0
                        },
                    },
                ),
                ..self
            },
            Query::Reschedule { email_id, run_at_ms } => if self.queue.contains_key(email_id@) {
                Tables {
                    queue: self.queue.insert(
                        email_id@,
                        QueueEntry {
                            run_at_ms: run_at_ms as int,
                            attempts: self.queue[email_id@].attempts + 1,
                        },
                    ),
                    ..self
                }
            } else {
                self
            },
            Query::Dequeue { email_id } => Tables { queue: self.queue.remove(email_id@), ..self },
            Query::InsertEmail(email) => if self.accepts(email) {
                Tables { emails: self.emails.insert(email.id@, entry_of(email, clock_ms)), ..self }
            } else {
                self
            },
            Query::WriteBody { body, id } => if self.emails.contains_key(id@) {
                Tables {
                    emails: self.emails.insert(
                        id@,
                        EmailEntry { body: body@, ..self.emails[id@] },
                    ),
                    ..self
                }
            } else {
                self
            },
            Query::DeleteEmail { id } => Tables { emails: self.emails.remove(id@), ..self },
            _ => self,
        }
    }

    /// Whether `rows` are the earliest `limit` entries of the queue that are due
    /// at `now_ms`, the earliest first.
    pub open spec fn are_due(self, now_ms: int, limit: nat, rows: Seq<(Seq<char>, int)>) -> bool {
        &&& rows.len() <= limit
        &&& forall|i: int|
            0 <= i < rows.len() ==> {
                &&& self.queue.contains_key((#[trigger] rows[i]).0)
                &&& self.queue[rows[i].0].attempts == rows[i].1
                &&& self.queue[rows[i].0].run_at_ms <= now_ms
            }
        &&& forall|i: int, j: int|
            0 <= i < j < rows.len() ==> {
                &&& (#[trigger] rows[i]).0 != (#[trigger] rows[j]).0
                &&& self.queue[rows[i].0].run_at_ms <= self.queue[rows[j].0].run_at_ms
            }
        &&& forall|id: Seq<char>|
            #![trigger self.queue.contains_key(id)]
            self.queue.contains_key(id) && self.queue[id].run_at_ms <= now_ms ==> {
                ||| exists|i: int| 0 <= i < rows.len() && (#[trigger] rows[i]).0 == id
                ||| rows.len() == limit && forall|i: int|
                    0 <= i < rows.len() ==> self.queue[(#[trigger] rows[i]).0].run_at_ms
                        <= self.queue[id].run_at_ms
            }
    }

    /// Whether `rows` is the earliest time on the queue, and nothing for an empty
    /// queue.
    pub open spec fn is_next_run_at(self, rows: Seq<int>) -> bool {
        &&& rows.len() <= 1
        &&& rows.len() == 0 ==> forall|id: Seq<char>| !#[trigger] self.queue.contains_key(id)
        &&& rows.len() == 1 ==> {
            &&& exists|id: Seq<char>| #[trigger]
                self.queue.contains_key(id) && self.queue[id].run_at_ms == rows[0]
            &&& forall|id: Seq<char>| #[trigger]
                self.queue.contains_key(id) ==> rows[0] <= self.queue[id].run_at_ms
        }
    }

    /// Whether `rows` are the identifiers of the emails with a key, each once.
    pub open spec fn are_key_owners(self, key: Seq<char>, rows: Seq<Seq<char>>) -> bool {
        &&& rows.no_duplicates()
        &&& forall|id: Seq<char>| #[trigger] rows.contains(id) <==> self.owns_key(id, key)
    }

    /// Whether `all` are the emails that a filter lets through, each once, in the
    /// order of a listing.
    pub open spec fn is_listing(
        self,
        filter: ListFilter,
        all: Seq<(Seq<char>, EmailEntry)>,
    ) -> bool {
        &&& forall|i: int|
            0 <= i < all.len() ==> {
                &&& self.emails.contains_key((#[trigger] all[i]).0)
                &&& self.emails[all[i].0] == all[i].1
                &&& filter.matches(all[i].0, all[i].1)
            }
        &&& forall|i: int, j: int|
            0 <= i < j < all.len() ==> listed_before(#[trigger] all[i], #[trigger] all[j])
        &&& forall|id: Seq<char>| #[trigger]
            self.emails.contains_key(id) && filter.matches(id, self.emails[id]) ==> all.contains(
                (id, self.emails[id]),
            )
    }

    /// Whether `rows` are the emails of a listing from `offset` on, at most `limit`.
    pub open spec fn is_page(
        self,
        filter: ListFilter,
        limit: nat,
        offset: nat,
        rows: Seq<(Seq<char>, EmailEntry)>,
    ) -> bool {
        exists|all: Seq<(Seq<char>, EmailEntry)>| #[trigger]
            self.is_listing(filter, all) && rows == page_of(all, limit, offset)
    }

    /// Whether `rows` are the body columns of all emails, each email once.
    pub open spec fn are_bodies(self, rows: Seq<Seq<char>>) -> bool {
        exists|ids: Seq<Seq<char>>| #[trigger] self.lists_ids(ids) && rows == self.bodies_of(ids)
    }

    /// Whether `ids` are the identifiers of all emails, each once.
    pub open spec fn lists_ids(self, ids: Seq<Seq<char>>) -> bool {
        &&& ids.no_duplicates()
        &&& forall|id: Seq<char>| #[trigger] ids.contains(id) <==> self.emails.contains_key(id)
    }

    /// The body columns of the given emails.
    pub open spec fn bodies_of(self, ids: Seq<Seq<char>>) -> Seq<Seq<char>> {
        ids.map_values(|id: Seq<char>| self.emails[id].body)
    }

    /// Whether the given rows answer a query on these tables.
    pub open spec fn answers(self, query: Query, answer: Answer) -> bool {
        match query {
            Query::ClaimDue { now_ms, limit } => answer matches Answer::Due(rows) && self.are_due(
                now_ms as int,
                limit as nat,
                rows,
            ),
            Query::NextRunAt => answer matches Answer::RunAt(rows) && self.is_next_run_at(rows),
            Query::LoadEnvelope { email_id } => answer matches Answer::Entries(rows) && rows == (
            if self.emails.contains_key(email_id@) {
                seq![self.emails[email_id@]]
            } else {
                Seq::empty()
            }),
            Query::IdById { id } => answer matches Answer::Ids(rows) && rows == (
            if self.emails.contains_key(id@) {
                seq![id@]
            } else {
                Seq::empty()
            }),
            Query::IdByKey { key } => answer matches Answer::Ids(rows) && self.are_key_owners(
                key@,
                rows,
            ),
            Query::ListEmails { only_id, after_ms, before_ms, limit, offset } => answer matches Answer::Emails(
                rows,
            ) && self.is_page(filter_of(only_id, after_ms, before_ms), limit as nat, offset as nat, rows),
            Query::ReadBody { id } => answer matches Answer::Bodies(rows) && rows == (
            if self.emails.contains_key(id@) {
                seq![self.emails[id@].body]
            } else {
                Seq::empty()
            }),
            Query::ListBodies => answer matches Answer::Bodies(rows) && self.are_bodies(rows),
            _ => answer is Nothing,
        }
    }
}

/// The condition that the arguments of a listing stand for.
pub open spec fn filter_of(
    id: Option<String>,
    after_ms: Option<i64>,
    before_ms: Option<i64>,
) -> ListFilter {
    ListFilter {
        id: opt_text(id),
        after_ms: match after_ms {
            Some(after) => Some(after as int),
            None => None,
        },
        before_ms: match before_ms {
            Some(before) => Some(before as int),
            None => None,
        },
    }
}

/// At most `limit` elements from `offset` on.
pub open spec fn page_of<T>(all: Seq<T>, limit: nat, offset: nat) -> Seq<T> {
    let start = if offset <= all.len() {
        offset as int
    } else {
        all.len() as int
    };
    let end = if start + limit <= all.len() {
        start + limit
    } else {
        all.len() as int
    };
    all.subrange(start, end)
}

} // verus!
