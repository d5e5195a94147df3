//! The archive: a table of messages keyed by identifier and a table of
//! per-user counters, kept by the storage engine.
//!
//! The engine decides what every statement finds and changes. The functions
//! here fix which statement is run, with which parameters, and what is made
//! of each answer; their contracts hold for every answer the engine can give.

use crate::engine;
use crate::query::{any_text_pattern, is_screening, like_pattern, results_view, screen};
use crate::record::{CounterRow, MessageRecord, MessageRow, SearchResult};
use crate::stats::{derived, lemma_derived_is_sound, UserStat};
use std::collections::BTreeSet;
use vstd::prelude::*;

verus! {

/// The operation during which the archive failed.
#[derive(Debug, Clone, Copy, PartialEq, Eq, Structural)]
pub enum StoreOp {
    Open,
    JournalMode,
    Migrate,
    Random,
    Search,
    Upsert,
    Delete,
    ExistingIds,
    Contains,
    BumpUserCount,
    UserStats,
}

/// Why an operation on the archive failed.
#[derive(Debug)]
pub enum Cause {
    /// The storage engine refused or failed.
    Engine(rusqlite::Error),
    /// Bringing the schema up to date failed.
    Migration(rusqlite_migration::Error),
    /// A number of rows does not fit the type that reports it.
    OutOfRange,
}

/// A failure of the archive, with the operation and, where there is one, the
/// identifier or user it was working on.
#[derive(Debug)]
pub struct StoreError {
    pub op: StoreOp,
    pub id: Option<i64>,
    pub cause: Cause,
}

/// What becomes of an answer of the engine during `op` on `id`: a success is
/// handed on, a failure is labelled with the operation and the identifier.
pub open spec fn settled<T>(
    op: StoreOp,
    id: Option<i64>,
    outcome: Result<T, rusqlite::Error>,
) -> Result<T, StoreError> {
    match outcome {
        Ok(v) => Ok(v),
        Err(e) => Err(StoreError { op, id, cause: Cause::Engine(e) }),
    }
}

/// Labels a failure of the engine with the operation and the identifier it
/// was working on; a success passes through.
pub fn settle<T>(op: StoreOp, id: Option<i64>, outcome: Result<T, rusqlite::Error>) -> (r:
    Result<T, StoreError>)
    ensures
        r == settled(op, id, outcome),
{
    match outcome {
        Ok(v) => Ok(v),
        Err(e) => Err(StoreError { op, id, cause: Cause::Engine(e) }),
    }
}

/// What becomes of the engine's answer to a statement whose row count is
/// of no interest: a success is acknowledged, a failure is labelled.
pub open spec fn acknowledged(
    op: StoreOp,
    id: Option<i64>,
    outcome: Result<usize, rusqlite::Error>,
) -> Result<(), StoreError> {
    match outcome {
        Ok(_) => Ok(()),
        Err(e) => Err(StoreError { op, id, cause: Cause::Engine(e) }),
    }
}

/// Whether `r` is what becomes of some answer of the engine to a statement
/// run during `op` on `id`.
pub open spec fn is_acknowledgement(
    r: Result<(), StoreError>,
    op: StoreOp,
    id: Option<i64>,
) -> bool {
    exists|outcome: Result<usize, rusqlite::Error>| r == #[trigger] acknowledged(op, id, outcome)
}

/// Acknowledges the engine's answer to a statement whose row count is of no
/// interest.
pub fn acknowledge(op: StoreOp, id: Option<i64>, outcome: Result<usize, rusqlite::Error>) -> (r:
    Result<(), StoreError>)
    ensures
        r == acknowledged(op, id, outcome),
{
    match outcome {
        Ok(_) => Ok(()),
        Err(e) => Err(StoreError { op, id, cause: Cause::Engine(e) }),
    }
}

/// Whether `r` is what becomes of the identifiers that the engine listed:
/// the set of them, or the failure labelled.
pub open spec fn is_listing_of(
    r: Result<BTreeSet<i32>, StoreError>,
    outcome: Result<Vec<i32>, rusqlite::Error>,
) -> bool {
    match outcome {
        Ok(ids) => r matches Ok(set) && set@ == ids@.to_set(),
        Err(e) => r == Err::<BTreeSet<i32>, StoreError>(
            StoreError { op: StoreOp::ExistingIds, id: None, cause: Cause::Engine(e) },
        ),
    }
}

/// Makes the set of stored identifiers of the engine's answer.
pub fn listed_ids(outcome: Result<Vec<i32>, rusqlite::Error>) -> (r: Result<
    BTreeSet<i32>,
    StoreError,
>)
    ensures
        is_listing_of(r, outcome),
{
    match outcome {
        Ok(ids) => Ok(collect_ids(&ids)),
        Err(e) => Err(StoreError { op: StoreOp::ExistingIds, id: None, cause: Cause::Engine(e) }),
    }
}

/// What becomes of the rows that the engine found under `id`: whether there
/// is one, or the failure labelled.
pub open spec fn found_in(id: i32, outcome: Result<Vec<i32>, rusqlite::Error>) -> Result<
    bool,
    StoreError,
> {
    match outcome {
        Ok(ids) => Ok(ids@.len() > 0),
        Err(e) => Err(
            StoreError { op: StoreOp::Contains, id: Some(id as i64), cause: Cause::Engine(e) },
        ),
    }
}

/// Says whether the engine found a row under `id`.
pub fn found(id: i32, outcome: Result<Vec<i32>, rusqlite::Error>) -> (r: Result<bool, StoreError>)
    ensures
        r == found_in(id, outcome),
{
    match outcome {
        Ok(ids) => Ok(ids.len() > 0),
        Err(e) => Err(
            StoreError { op: StoreOp::Contains, id: Some(id as i64), cause: Cause::Engine(e) },
        ),
    }
}

/// What becomes of the counter table that the engine listed: the standing
/// of `user_id` in it, a failure where the table has more rows than a
/// standing can count, or the engine's failure labelled.
pub open spec fn standing_in(
    user_id: i64,
    outcome: Result<Vec<CounterRow>, rusqlite::Error>,
) -> Result<Option<UserStat>, StoreError> {
    match outcome {
        Ok(rows) => if rows@.len() > u32::MAX {
            Err(StoreError { op: StoreOp::UserStats, id: Some(user_id), cause: Cause::OutOfRange })
        } else {
            Ok(derived(rows@, user_id))
        },
        Err(e) => Err(
            StoreError { op: StoreOp::UserStats, id: Some(user_id), cause: Cause::Engine(e) },
        ),
    }
}

/// Derives the standing of `user_id` from the engine's answer.
pub fn standing(user_id: i64, outcome: Result<Vec<CounterRow>, rusqlite::Error>) -> (r: Result<
    Option<UserStat>,
    StoreError,
>)
    ensures
        r == standing_in(user_id, outcome),
{
    match outcome {
        Ok(rows) => {
            if rows.len() > u32::MAX as usize {
                Err(
                    StoreError {
                        op: StoreOp::UserStats,
                        id: Some(user_id),
                        cause: Cause::OutOfRange,
                    },
                )
            } else {
                Ok(UserStat::derive(&rows, user_id))
            }
        },
        Err(e) => Err(
            StoreError { op: StoreOp::UserStats, id: Some(user_id), cause: Cause::Engine(e) },
        ),
    }
}

/// The two steps that make the schema, in the order they are applied.
const CREATE_MESSAGE: &'static str = "CREATE TABLE message (
    id           INTEGER PRIMARY KEY,
    text         TEXT,
    is_forwarded BOOLEAN,
    raw          BLOB
)";

const CREATE_USER: &'static str = "CREATE TABLE user (
    user_id      INTEGER PRIMARY KEY,
    count        INTEGER
)";

const UPSERT_MESSAGE: &'static str =
    "INSERT OR REPLACE INTO message (id, text, is_forwarded, raw) VALUES (?1, ?2, ?3, ?4)";

const DELETE_MESSAGE: &'static str = "DELETE FROM message WHERE id = ?1";

const BUMP_USER: &'static str = "INSERT INTO user (user_id, count) VALUES (?1, 1)
    ON CONFLICT(user_id) DO UPDATE SET count = count + 1";

const SELECT_IDS: &'static str = "SELECT id FROM message";

const SELECT_ID: &'static str = "SELECT id FROM message WHERE id = ?1";

const SELECT_COUNTERS: &'static str = "SELECT user_id, count FROM user";

/// Serves both read queries: the pattern is a wildcard alone for the sample,
/// the searched text between wildcards for the search.
const SELECT_ELIGIBLE: &'static str =
    "SELECT id, text, is_forwarded FROM message WHERE is_forwarded = TRUE AND text IS NOT NULL AND \
     text LIKE ?1 ORDER BY RANDOM() LIMIT ?2";

/// The sum of the first `n` of `counts`.
pub open spec fn removed_sum(counts: Seq<usize>, n: int) -> int
    decreases n,
{
    if n <= 0 {
        0
    } else {
        removed_sum(counts, n - 1) + counts[n - 1]
    }
}

/// Adds up the rows that each statement of a deletion removed; `None` where
/// the sum does not fit.
pub fn tally_removed(counts: &Vec<usize>) -> (r: Option<usize>)
    ensures
        match r {
            Some(total) => total == removed_sum(counts@, counts@.len() as int),
            None => removed_sum(counts@, counts@.len() as int) > usize::MAX,
        },
{
    let mut total: usize = 0;
    let mut i: usize = 0;
    while i < counts.len()
        invariant
            i <= counts@.len(),
            total == removed_sum(counts@, i as int),
        decreases counts@.len() - i,
    {
        match total.checked_add(counts[i]) {
            Some(t) => {
                total = t;
            },
            None => {
                proof {
                    lemma_removed_sum_grows(counts@, i + 1, counts@.len() as int);
                }
                return None;
            },
        }
        i = i + 1;
    }
    Some(total)
}

/// The sum over more statements is no smaller.
proof fn lemma_removed_sum_grows(counts: Seq<usize>, n: int, m: int)
    requires
        0 <= n <= m,
    ensures
        removed_sum(counts, n) <= removed_sum(counts, m),
    decreases m - n,
{
    if n < m {
        lemma_removed_sum_grows(counts, n, m - 1);
    }
}

/// What a deletion of `ids` returns when its statements were run in order,
/// `counts` holds the rows that each successful statement removed, and
/// `failure` the failure of the statement after them, if one failed: the
/// failure labelled with the identifier of that statement, or else the sum
/// of the counts, or a failure where the sum does not fit.
pub open spec fn removal(
    ids: Seq<i32>,
    counts: Seq<usize>,
    failure: Option<rusqlite::Error>,
) -> Result<usize, StoreError> {
    match failure {
        Some(e) => Err(
            StoreError {
                op: StoreOp::Delete,
                id: if counts.len() < ids.len() {
                    Some(ids[counts.len() as int] as i64)
                } else {
                    None
                },
                cause: Cause::Engine(e),
            },
        ),
        None => if removed_sum(counts, counts.len() as int) <= usize::MAX {
            Ok(removed_sum(counts, counts.len() as int) as usize)
        } else {
            Err(StoreError { op: StoreOp::Delete, id: None, cause: Cause::OutOfRange })
        },
    }
}

/// Whether `r` is what a deletion of `ids` returns for some answers of the
/// engine: one count for every identifier where no statement failed, one
/// for every identifier before the statement that failed otherwise.
pub open spec fn is_removal(r: Result<usize, StoreError>, ids: Seq<i32>) -> bool {
    exists|counts: Seq<usize>, failure: Option<rusqlite::Error>|
        {
            &&& failure is None ==> counts.len() == ids.len()
            &&& failure is Some ==> counts.len() < ids.len()
            &&& r == #[trigger] removal(ids, counts, failure)
        }
}

/// Makes the result of a deletion of `ids` of the engine's answers: the
/// counts of the statements that succeeded and the failure of the one that
/// did not, if there is one.
pub fn removed(ids: &[i32], counts: &Vec<usize>, failure: Option<rusqlite::Error>) -> (r: Result<
    usize,
    StoreError,
>)
    ensures
        r == removal(ids@, counts@, failure),
{
    match failure {
        Some(e) => {
            let id = if counts.len() < ids.len() {
                Some(ids[counts.len()] as i64)
            } else {
                None
            };
            Err(StoreError { op: StoreOp::Delete, id, cause: Cause::Engine(e) })
        },
        None => match tally_removed(counts) {
            Some(total) => Ok(total),
            None => Err(StoreError { op: StoreOp::Delete, id: None, cause: Cause::OutOfRange }),
        },
    }
}

/// The parameters of the statements that remove `ids`: one statement for
/// each identifier, in order, with the identifier as its only parameter.
/// No identifier, no statement.
pub fn delete_keys(ids: &[i32]) -> (plan: Vec<Vec<i64>>)
    ensures
        plan@.len() == ids@.len(),
        forall|i: int| 0 <= i < ids@.len() ==> (#[trigger] plan@[i])@ == seq![ids@[i] as i64],
{
    let mut plan: Vec<Vec<i64>> = Vec::new();
    let mut i: usize = 0;
    while i < ids.len()
        invariant
            i <= ids@.len(),
            plan@.len() == i,
            forall|k: int| 0 <= k < i ==> (#[trigger] plan@[k])@ == seq![ids@[k] as i64],
        decreases ids@.len() - i,
    {
        let mut keys: Vec<i64> = Vec::new();
        keys.push(ids[i] as i64);
        plan.push(keys);
        i = i + 1;
    }
    plan
}

/// Gathers identifiers into a set.
pub fn collect_ids(ids: &Vec<i32>) -> (set: BTreeSet<i32>)
    ensures
        set@ == ids@.to_set(),
{
    let mut set: BTreeSet<i32> = BTreeSet::new();
    let mut i: usize = 0;
    while i < ids.len()
        invariant
            i <= ids@.len(),
            set@ == ids@.take(i as int).to_set(),
        decreases ids@.len() - i,
    {
        set.insert(ids[i]);
        proof {
            assert(ids@.take(i + 1) =~= ids@.take(i as int).push(ids@[i as int]));
            ids@.take(i as int).lemma_push_to_set_commute(ids@[i as int]);
        }
        i = i + 1;
    }
    assert(ids@.take(ids@.len() as int) =~= ids@);
    set
}

/// The archive, open on one database.
#[derive(Debug)]
pub struct Database {
    conn: rusqlite::Connection,
}

impl Database {
    /// Opens the archive at `path`, creating the database and its tables
    /// where they are missing. Whether it opens is the engine's to say; a
    /// failure names the step that failed and carries what the engine or the
    /// migration reported.
    pub fn open(path: &str) -> (r: Result<Database, StoreError>)
        ensures
            r matches Err(e) ==> e.id is None && (e.op == StoreOp::Open || e.op
                == StoreOp::JournalMode || e.op == StoreOp::Migrate),
            r matches Err(e) ==> (e.cause is Migration <==> e.op == StoreOp::Migrate) && (e.cause
                is Engine <==> e.op != StoreOp::Migrate),
    {
        match settle(StoreOp::Open, None, engine::open_connection(path)) {
            Ok(conn) => Database { conn }.pre_start(),
            Err(e) => Err(e),
        }
    }

    /// Switches the journal to write-ahead logging and brings the schema up
    /// to date. A failure names the step that failed and carries what the
    /// engine or the migration reported.
    fn pre_start(self) -> (r: Result<Database, StoreError>)
        ensures
            r matches Err(e) ==> e.id is None && (e.op == StoreOp::JournalMode || e.op
                == StoreOp::Migrate),
            r matches Err(e) ==> (e.cause is Migration <==> e.op == StoreOp::Migrate) && (e.cause
                is Engine <==> e.op == StoreOp::JournalMode),
    {
        let mut this = self;
        let journal = engine::set_pragma(&this.conn, "journal_mode", "WAL");
        match settle(StoreOp::JournalMode, None, journal) {
            Ok(_) => {},
            Err(e) => {
                return Err(e);
            },
        }
        let mut steps: Vec<&str> = Vec::new();
        steps.push(CREATE_MESSAGE);
        steps.push(CREATE_USER);
        match engine::migrate_to_latest(&mut this.conn, &steps) {
            Ok(_) => Ok(this),
            Err(e) => Err(
                StoreError { op: StoreOp::Migrate, id: None, cause: Cause::Migration(e) },
            ),
        }
    }

    /// Stores `msg` under its identifier, in place of whatever was stored
    /// under it before. The result is the acknowledgement of the engine's
    /// answer to that one statement.
    pub fn upsert_one(&self, msg: &MessageRecord) -> (r: Result<(), StoreError>)
        ensures
            is_acknowledgement(r, StoreOp::Upsert, Some(msg.id as i64)),
            r matches Err(e) ==> e.op == StoreOp::Upsert && e.id == Some(msg.id as i64),
    {
        acknowledge(
            StoreOp::Upsert,
            Some(msg.id as i64),
            engine::execute_record(&self.conn, UPSERT_MESSAGE, msg),
        )
    }

    /// Removes the messages stored under `ids` and reports how many rows
    /// went. An identifier that is not stored removes nothing and is no
    /// failure. The statements of [`delete_keys`] are run in order up to the
    /// first that fails, so with no identifier at all the engine is not
    /// asked; the result is made of the engine's answers by [`removed`].
    pub fn delete(&self, ids: &[i32]) -> (r: Result<usize, StoreError>)
        ensures
            ids@.len() == 0 ==> (r matches Ok(n) && n == 0),
            is_removal(r, ids@),
            r matches Err(e) ==> e.op == StoreOp::Delete && (e.cause is OutOfRange && e.id is None
                || e.cause is Engine && exists|i: int|
                0 <= i < ids@.len() && e.id == Some(#[trigger] ids@[i] as i64)),
    {
        let plan = delete_keys(ids);
        let mut counts: Vec<usize> = Vec::new();
        let mut failure: Option<rusqlite::Error> = None;
        while failure.is_none() && counts.len() < plan.len()
            invariant
                plan@.len() == ids@.len(),
                counts@.len() <= plan@.len(),
                failure is Some ==> counts@.len() < plan@.len(),
            decreases plan@.len() - counts@.len() + (if failure is None { 1int } else { 0int }),
        {
            match engine::execute_keyed(&self.conn, DELETE_MESSAGE, &plan[counts.len()]) {
                Ok(n) => {
                    counts.push(n);
                },
                Err(e) => {
                    failure = Some(e);
                },
            }
        }
        let ghost failed = failure;
        let r = removed(ids, &counts, failure);
        proof {
            if ids@.len() == 0 {
                assert(removed_sum(counts@, 0) == 0);
            }
            if r is Err && failed is Some {
                assert(r->Err_0.id == Some(ids@[counts@.len() as int] as i64));
            }
        }
        r
    }

    /// The identifiers of all stored messages, as they are now: the set of
    /// the identifiers that the engine lists.
    pub fn existing_ids(&self) -> (r: Result<BTreeSet<i32>, StoreError>)
        ensures
            exists|outcome: Result<Vec<i32>, rusqlite::Error>|
                #[trigger] is_listing_of(r, outcome),
            r matches Err(e) ==> e.op == StoreOp::ExistingIds && e.id is None,
    {
        let keys: Vec<i64> = Vec::new();
        let outcome = engine::query_ids(&self.conn, SELECT_IDS, &keys);
        let ghost answer = outcome;
        let r = listed_ids(outcome);
        assert(is_listing_of(r, answer));
        r
    }

    /// Whether a message is stored under `id`: whether the engine finds a
    /// row under it.
    pub fn contains(&self, id: i32) -> (r: Result<bool, StoreError>)
        ensures
            exists|outcome: Result<Vec<i32>, rusqlite::Error>|
                r == #[trigger] found_in(id, outcome),
            r matches Err(e) ==> e.op == StoreOp::Contains && e.id == Some(id as i64),
    {
        let mut keys: Vec<i64> = Vec::new();
        keys.push(id as i64);
        found(id, engine::query_ids(&self.conn, SELECT_ID, &keys))
    }

    /// A random sample of the forwarded messages that have a text, `limit`
    /// at most, in no particular order. The answer is made of the rows that
    /// the engine returns by [`screen`].
    pub fn random(&self, limit: u8) -> (r: Result<Vec<SearchResult>, StoreError>)
        ensures
            match r {
                Ok(results) => results@.len() <= limit && is_screening(
                    results_view(results@),
                    limit as nat,
                ),
                Err(e) => e.op == StoreOp::Random && e.id is None,
            },
    {
        let pattern = any_text_pattern();
        match settle(
            StoreOp::Random,
            None,
            engine::query_messages(&self.conn, SELECT_ELIGIBLE, pattern.as_str(), limit),
        ) {
            Ok(rows) => Ok(screen(&rows, limit)),
            Err(e) => Err(e),
        }
    }

    /// Forwarded messages in whose text `reg` occurs, `limit` at most, in no
    /// particular order. The answer is made of the rows that the engine
    /// returns by [`screen`].
    pub fn search(&self, reg: &str, limit: u8) -> (r: Result<Vec<SearchResult>, StoreError>)
        ensures
            match r {
                Ok(results) => results@.len() <= limit && is_screening(
                    results_view(results@),
                    limit as nat,
                ),
                Err(e) => e.op == StoreOp::Search && e.id is None,
            },
    {
        let pattern = like_pattern(reg);
        match settle(
            StoreOp::Search,
            None,
            engine::query_messages(&self.conn, SELECT_ELIGIBLE, pattern.as_str(), limit),
        ) {
            Ok(rows) => Ok(screen(&rows, limit)),
            Err(e) => Err(e),
        }
    }

    /// The standing of `user_id` among the counted users; nothing where the
    /// user was never counted. It is derived from the counter table that the
    /// engine lists.
    pub fn get_user_stats(&self, user_id: i64) -> (r: Result<Option<UserStat>, StoreError>)
        ensures
            exists|outcome: Result<Vec<CounterRow>, rusqlite::Error>|
                r == #[trigger] standing_in(user_id, outcome),
            match r {
                Ok(Some(stat)) => stat.user_id == user_id && stat.wf(),
                Ok(None) => true,
                Err(e) => e.op == StoreOp::UserStats && e.id == Some(user_id),
            },
    {
        let outcome = engine::query_counters(&self.conn, SELECT_COUNTERS);
        let ghost answer = outcome;
        let r = standing(user_id, outcome);
        proof {
            if let Ok(rows) = answer {
                if rows@.len() <= u32::MAX {
                    lemma_derived_is_sound(rows@, user_id);
                }
            }
        }
        r
    }

    /// Adds one to the counter of `user_id`, starting it at 1 where there is
    /// none. One statement, so two bumps never lose a count. The result is
    /// the acknowledgement of the engine's answer to that statement.
    pub fn bump_user_count(&self, user_id: i64) -> (r: Result<(), StoreError>)
        ensures
            is_acknowledgement(r, StoreOp::BumpUserCount, Some(user_id)),
            r matches Err(e) ==> e.op == StoreOp::BumpUserCount && e.id == Some(user_id),
    {
        let mut keys: Vec<i64> = Vec::new();
        keys.push(user_id);
        acknowledge(
            StoreOp::BumpUserCount,
            Some(user_id),
            engine::execute_keyed(&self.conn, BUMP_USER, &keys),
        )
    }
}

} // verus!
