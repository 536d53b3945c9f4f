use vstd::prelude::*;
use crate::query::ErrorCode;
use crate::query::QueryError;

verus! {

// A worker's exclusive handle on the storage engine is a rusqlite
// connection, and a running query goes through rusqlite's prepared
// statement, row cursor and row handles. The four types are opaque here;
// each call the workers make stands behind one wrapper, which maps the
// engine's error to this library's `QueryError`.

#[verifier::external_type_specification]
#[verifier::external_body]
pub struct ExConnection(rusqlite::Connection);

#[verifier::external_type_specification]
#[verifier::external_body]
pub struct ExStatement<'conn>(rusqlite::Statement<'conn>);

#[verifier::external_type_specification]
#[verifier::external_body]
pub struct ExRows<'stmt>(rusqlite::Rows<'stmt>);

#[verifier::external_type_specification]
#[verifier::external_body]
pub struct ExRow<'stmt>(rusqlite::Row<'stmt>);

/// Relies on rusqlite::Connection::prepare: compiles `sql` into a statement
/// handle that borrows the connection.
#[verifier::external_body]
pub(crate) fn prepare<'a>(conn: &'a rusqlite::Connection, sql: &str) -> (r: Result<
    rusqlite::Statement<'a>,
    QueryError,
>)
    ensures
        r matches Err(e) ==> e.code == ErrorCode::SQLError,
{
    match conn.prepare(sql) {
        Ok(st) => Ok(st),
        Err(e) => Err(QueryError { code: ErrorCode::SQLError, msg: e.to_string() }),
    }
}

/// Relies on rusqlite::Statement::column_names: one name per result column,
/// in column order.
#[verifier::external_body]
pub(crate) fn column_names(st: &rusqlite::Statement<'_>) -> (names: Vec<String>) {
    st.column_names().iter().map(|s| s.to_string()).collect()
}

/// Relies on rusqlite::Statement::query with no bound parameters: starts
/// execution and hands back the row cursor, which borrows the statement.
#[verifier::external_body]
pub(crate) fn query_rows<'s>(st: &'s mut rusqlite::Statement<'_>) -> (r: Result<
    rusqlite::Rows<'s>,
    QueryError,
>)
    ensures
        r matches Err(e) ==> e.code == ErrorCode::SQLError,
{
    match st.query([]) {
        Ok(rows) => Ok(rows),
        Err(e) => Err(QueryError { code: ErrorCode::SQLError, msg: e.to_string() }),
    }
}

/// Relies on rusqlite::Rows::next: `Ok(Some(row))` while rows remain,
/// `Ok(None)` once the result set is exhausted, `Err` on a step failure.
#[verifier::external_body]
pub(crate) fn rows_next<'a, 'stmt>(rows: &'a mut rusqlite::Rows<'stmt>) -> (r: Result<
    Option<&'a rusqlite::Row<'stmt>>,
    QueryError,
>)
    ensures
        r matches Err(e) ==> e.code == ErrorCode::SQLError,
{
    match rows.next() {
        Ok(row) => Ok(row),
        Err(e) => Err(QueryError { code: ErrorCode::SQLError, msg: e.to_string() }),
    }
}

/// Relies on rusqlite::Row::get with a dynamic `Value` target, which
/// accepts every storage class. The cell is rendered as text: numbers in
/// their decimal form, text as itself, NULL as the empty string, blobs
/// decoded lossily.
#[verifier::external_body]
pub(crate) fn row_get_string(row: &rusqlite::Row<'_>, i: usize) -> (r: Result<String, QueryError>)
    ensures
        r matches Err(e) ==> e.code == ErrorCode::SQLError,
{
    match row.get::<usize, rusqlite::types::Value>(i) {
        Ok(rusqlite::types::Value::Null) => Ok(String::new()),
        Ok(rusqlite::types::Value::Integer(n)) => Ok(n.to_string()),
        Ok(rusqlite::types::Value::Real(x)) => Ok(x.to_string()),
        Ok(rusqlite::types::Value::Text(t)) => Ok(t),
        Ok(rusqlite::types::Value::Blob(b)) => Ok(String::from_utf8_lossy(&b).into_owned()),
        Err(e) => Err(QueryError { code: ErrorCode::SQLError, msg: e.to_string() }),
    }
}

/// Relies on rusqlite::Connection::execute with no bound parameters: runs
/// one statement; the workers use it for the best-effort rollback whose
/// outcome is discarded.
#[verifier::external_body]
pub(crate) fn execute_no_params(conn: &rusqlite::Connection, sql: &str) -> (r: Result<
    usize,
    QueryError,
>)
    ensures
        r matches Err(e) ==> e.code == ErrorCode::SQLError,
{
    match conn.execute(sql, []) {
        Ok(n) => Ok(n),
        Err(e) => Err(QueryError { code: ErrorCode::SQLError, msg: e.to_string() }),
    }
}

} // verus!
