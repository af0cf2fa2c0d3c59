//! The calls into SQLite. Nothing here is proved: each function hands one
//! call to `rusqlite`, and what SQLite answers depends on what the database
//! holds, so none of them promises anything about its result.

use rusqlite::{Connection, Statement};
use vstd::prelude::*;

verus! {

/// An open SQLite database, as `rusqlite` hands it out.
#[verifier::external_type_specification]
#[verifier::external_body]
pub struct ExConnection(Connection);

/// A statement that SQLite has compiled for one connection.
#[verifier::external_type_specification]
#[verifier::external_body]
pub struct ExStatement<'conn>(Statement<'conn>);

/// What `rusqlite` reports when a call fails.
#[verifier::external_type_specification]
#[verifier::external_body]
pub struct ExSqliteError(rusqlite::Error);

/// `Connection::execute_batch`: runs statements that take no parameters.
/// Whether they succeed is for SQLite to say.
#[verifier::external_body]
pub(crate) fn execute_batch(conn: &Connection, sql: &str) -> (outcome: Result<(), rusqlite::Error>) {
    conn.execute_batch(sql)
}

/// `Connection::execute` for a statement with the five parameters of a
/// query row, bound in this order. On success the number is how many rows
/// SQLite reports as changed.
#[verifier::external_body]
pub(crate) fn execute_row(
    conn: &Connection,
    sql: &str,
    version: i64,
    payload: &str,
    aggregate_type: &str,
    aggregate_id: &str,
    query_type: &str,
) -> (outcome: Result<usize, rusqlite::Error>) {
    conn.execute(sql, (version, payload, aggregate_type, aggregate_id, query_type))
}

/// `Connection::prepare`: compiles one statement.
#[verifier::external_body]
pub(crate) fn prepare<'conn>(conn: &'conn Connection, sql: &str) -> (outcome: Result<
    Statement<'conn>,
    rusqlite::Error,
>) {
    conn.prepare(sql)
}

/// `Statement::query_map` with the three parameters that name a query row,
/// bound in this order: runs the statement and reads the first two columns
/// of each row it yields, as an integer and a text. A row that cannot be
/// read that way comes back as the error that `rusqlite` gave for it.
#[verifier::external_body]
pub(crate) fn query_rows(
    statement: &mut Statement<'_>,
    aggregate_type: &str,
    aggregate_id: &str,
    query_type: &str,
) -> (outcome: Result<Vec<Result<(i64, String), rusqlite::Error>>, rusqlite::Error>) {
    let rows = statement.query_map(
        (aggregate_type, aggregate_id, query_type),
        |row| Ok((row.get(0)?, row.get(1)?)),
    )?;
    Ok(rows.collect())
}

} // verus!
