//! The calls into the storage engine.
//!
//! Nothing in this file is proved. Each function hands its arguments to one
//! function of `rusqlite` or `rusqlite_migration` and returns what comes back.
//! What the engine answers depends on the database file, so no contract here
//! promises anything about a result: the callers are verified for every
//! answer.

use crate::record::{CounterRow, MessageRecord, MessageRow};
use vstd::prelude::*;

verus! {

/// `rusqlite::Connection`, an open database. Opaque to the verifier.
#[verifier::external_type_specification]
#[verifier::external_body]
pub struct ExConnection(rusqlite::Connection);

/// `rusqlite::Error`, carried through to the caller unread.
#[verifier::external_type_specification]
#[verifier::external_body]
pub struct ExEngineError(rusqlite::Error);

/// `rusqlite_migration::Error`, carried through to the caller unread.
#[verifier::external_type_specification]
#[verifier::external_body]
pub struct ExMigrationError(rusqlite_migration::Error);

/// `rusqlite::Connection::open`: opens the database file at `path`, creating
/// it when there is none. Nothing is claimed of the outcome.
#[verifier::external_body]
pub(crate) fn open_connection(path: &str) -> (r: Result<rusqlite::Connection, rusqlite::Error>) {
    rusqlite::Connection::open(path)
}

/// `rusqlite::Connection::pragma_update` on the main schema: sets the pragma
/// `name` to `value`. Nothing is claimed of the outcome.
#[verifier::external_body]
pub(crate) fn set_pragma(conn: &rusqlite::Connection, name: &str, value: &str) -> (r: Result<
    (),
    rusqlite::Error,
>) {
    conn.pragma_update(None, name, value)
}

/// `rusqlite_migration::Migrations::to_latest` over one upward migration per
/// statement of `steps`, in order. Nothing is claimed of the outcome nor of
/// the connection afterwards.
#[verifier::external_body]
pub(crate) fn migrate_to_latest(conn: &mut rusqlite::Connection, steps: &Vec<&str>) -> (r: Result<
    (),
    rusqlite_migration::Error,
>) {
    let ups = steps.iter().map(|sql| rusqlite_migration::M::up(sql)).collect();
    rusqlite_migration::Migrations::new(ups).to_latest(conn)
}

/// `rusqlite::Connection::execute` with the integers `keys` bound to the
/// statement's parameters in order. The engine reports how many rows the
/// statement changed; nothing is claimed of that number.
#[verifier::external_body]
pub(crate) fn execute_keyed(conn: &rusqlite::Connection, sql: &str, keys: &Vec<i64>) -> (r: Result<
    usize,
    rusqlite::Error,
>) {
    conn.execute(sql, rusqlite::params_from_iter(keys.iter()))
}

/// `rusqlite::Connection::execute` with the four fields of `record` bound to
/// the statement's parameters: identifier, text, forwarded flag, payload.
/// Nothing is claimed of the outcome.
#[verifier::external_body]
pub(crate) fn execute_record(conn: &rusqlite::Connection, sql: &str, record: &MessageRecord) -> (r:
    Result<usize, rusqlite::Error>) {
    conn.execute(sql, (&record.id, &record.text, &record.is_forwarded, &record.raw))
}

/// `rusqlite::Connection::prepare` and `rusqlite::Statement::query_map`, with
/// `keys` bound in order: the first column of every row, read as an
/// identifier. Nothing is claimed of the rows.
#[verifier::external_body]
pub(crate) fn query_ids(conn: &rusqlite::Connection, sql: &str, keys: &Vec<i64>) -> (r: Result<
    Vec<i32>,
    rusqlite::Error,
>) {
    let mut stmt = conn.prepare(sql)?;
    let rows = stmt.query_map(rusqlite::params_from_iter(keys.iter()), |row| row.get(0))?;
    let ids: Result<Vec<i32>, rusqlite::Error> = rows.collect();
    ids
}

/// `rusqlite::Connection::prepare` and `rusqlite::Statement::query_map`
/// without parameters: the first two columns of every row, read as a user
/// and that user's count. Nothing is claimed of the rows.
#[verifier::external_body]
pub(crate) fn query_counters(conn: &rusqlite::Connection, sql: &str) -> (r: Result<
    Vec<CounterRow>,
    rusqlite::Error,
>) {
    let mut stmt = conn.prepare(sql)?;
    let rows = stmt.query_map([], |row| {
        Ok(CounterRow { user_id: row.get(0)?, count: row.get(1)? })
    })?;
    let counters: Result<Vec<CounterRow>, rusqlite::Error> = rows.collect();
    counters
}

/// `rusqlite::Connection::prepare` and `rusqlite::Statement::query_map` with
/// `pattern` and `limit` bound as first and second parameter: the first
/// three columns of every row, read as identifier, text and forwarded flag.
/// Nothing is claimed of the rows, neither their number nor what they hold.
#[verifier::external_body]
pub(crate) fn query_messages(
    conn: &rusqlite::Connection,
    sql: &str,
    pattern: &str,
    limit: u8,
) -> (r: Result<Vec<MessageRow>, rusqlite::Error>) {
    let mut stmt = conn.prepare(sql)?;
    let rows = stmt.query_map((pattern, limit), |row| {
        Ok(MessageRow { id: row.get(0)?, text: row.get(1)?, is_forwarded: row.get(2)? })
    })?;
    let messages: Result<Vec<MessageRow>, rusqlite::Error> = rows.collect();
    messages
}

} // verus!
