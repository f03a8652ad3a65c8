//! Trusted boundary to the embedded relational store.
//!
//! The store's behaviour depends on the file on disk, so nothing is claimed
//! of any call's outcome beyond its shape: each wrapper returns `Ok` when
//! the underlying call succeeded and the error's description otherwise, and
//! the verified pipeline states what it does with either outcome.

use vstd::prelude::*;

verus! {

#[verifier::external_type_specification]
#[verifier::external_body]
pub struct ExConnection(rusqlite::Connection);

/// Relies on `rusqlite::Connection::open`: opens (creating if absent) the
/// database file at the given path.
#[verifier::external_body]
pub(crate) fn open_connection(path: &str) -> (r: Result<rusqlite::Connection, String>) {
    rusqlite::Connection::open(path).map_err(|e| e.to_string())
}

/// Relies on `rusqlite::Connection::execute_batch`: runs the given SQL
/// statements, which take no parameters and return no rows.
#[verifier::external_body]
pub(crate) fn execute_sql(conn: &rusqlite::Connection, sql: &str) -> (r: Result<(), String>) {
    conn.execute_batch(sql).map_err(|e| e.to_string())
}

/// Relies on `rusqlite::Connection::prepare_cached` and
/// `rusqlite::CachedStatement`'s `execute`: prepares the given
/// parameterized statement once per connection, reuses it for every later
/// row, and binds one row of the `metrics` schema — the id, the epoch
/// seconds, the numeric value (bound as a real; a non-finite number binds
/// as null), the tag, and the positivity flag.
#[verifier::external_body]
pub(crate) fn execute_insert(
    conn: &rusqlite::Connection,
    sql: &str,
    id: &str,
    timestamp: i64,
    value: &serde_json::Number,
    tag: &str,
    positive: i64,
) -> (r: Result<(), String>) {
    let mut stmt = conn.prepare_cached(sql).map_err(|e| e.to_string())?;
    let bound = value.as_f64();
    let args: [&dyn rusqlite::ToSql; 5] = [&id, &timestamp, &bound, &tag, &positive];
    stmt.execute(&args[..]).map(|_| ()).map_err(|e| e.to_string())
}

} // verus!
