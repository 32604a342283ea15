//! The SQLite driver: the driver's types that the engine holds, and one thin
//! function for each driver call it makes.
//!
//! Nothing in this file is proved. What a call returns depends on the
//! database file, so no function here promises anything about its result.
//!
//! The driver hands out the name of a result column only as a `&str`, and
//! panics where the name is not UTF-8. No function here asks it for a name:
//! the engine has its caller read the names.

use vstd::prelude::*;
use crate::sample::SaleRecord;
use crate::value::SqlValue;

verus! {

/// `rusqlite::Connection`, an open database connection. Opaque.
#[verifier::external_type_specification]
#[verifier::external_body]
pub struct ExConnection(rusqlite::Connection);

/// `rusqlite::Statement`, a prepared statement that borrows its connection.
/// Opaque.
#[verifier::external_type_specification]
#[verifier::external_body]
pub struct ExStatement<'conn>(rusqlite::Statement<'conn>);

/// `rusqlite::Rows`, the cursor over the rows of a running query. Opaque.
#[verifier::external_type_specification]
#[verifier::external_body]
pub struct ExRows<'stmt>(rusqlite::Rows<'stmt>);

/// `rusqlite::Row`, the row a cursor stands on. Opaque.
#[verifier::external_type_specification]
#[verifier::external_body]
pub struct ExRow<'stmt>(rusqlite::Row<'stmt>);

/// `rusqlite::Error`, any failure the driver reports. Opaque.
#[verifier::external_type_specification]
#[verifier::external_body]
pub struct ExError(rusqlite::Error);

/// Calls `rusqlite::Connection::open`, which opens the database at `path`
/// for reading and writing and creates it if it is missing. Nothing is
/// claimed of the outcome.
#[verifier::external_body]
pub(crate) fn open(path: &str) -> (r: Result<rusqlite::Connection, rusqlite::Error>) {
    rusqlite::Connection::open(path)
}

/// Calls `rusqlite::Connection::execute` without parameters: prepares `sql`
/// and runs it to completion. Nothing is claimed of the outcome.
#[verifier::external_body]
pub(crate) fn execute(conn: &rusqlite::Connection, sql: &str) -> (r: Result<
    usize,
    rusqlite::Error,
>) {
    conn.execute(sql, [])
}

/// Calls `rusqlite::Connection::execute` with the five fields of `sale` as
/// positional parameters, in the order region, product, month, sales amount,
/// quantity. Nothing is claimed of the outcome.
#[verifier::external_body]
pub(crate) fn execute_sale(conn: &rusqlite::Connection, sql: &str, sale: &SaleRecord) -> (r:
    Result<usize, rusqlite::Error>) {
    conn.execute(sql, (sale.region, sale.product, sale.month, sale.sales_amount, sale.quantity))
}

/// Calls `rusqlite::Connection::prepare`. Nothing is claimed of the outcome.
#[verifier::external_body]
pub(crate) fn prepare<'conn>(conn: &'conn rusqlite::Connection, sql: &str) -> (r: Result<
    rusqlite::Statement<'conn>,
    rusqlite::Error,
>) {
    conn.prepare(sql)
}

/// Calls `rusqlite::Statement::query` without parameters, which starts the
/// statement and hands out the cursor over its rows. Nothing is claimed of
/// the outcome.
#[verifier::external_body]
pub(crate) fn query<'stmt>(stmt: &'stmt mut rusqlite::Statement<'_>) -> (r: Result<
    rusqlite::Rows<'stmt>,
    rusqlite::Error,
>) {
    stmt.query([])
}

/// Calls `rusqlite::Rows::next`, which steps the cursor: `Ok(Some(row))` on
/// a further row, `Ok(None)` when the rows are used up, `Err` when stepping
/// failed. Which of them comes is not claimed.
#[verifier::external_body]
pub(crate) fn next_row<'rows, 'stmt>(rows: &'rows mut rusqlite::Rows<'stmt>) -> (r: Result<
    Option<&'rows rusqlite::Row<'stmt>>,
    rusqlite::Error,
>) {
    rows.next()
}

/// Calls `rusqlite::Row::get` for a `rusqlite::types::Value` and moves what
/// that holds into a [`SqlValue`], variant by variant; a real is moved as
/// its bit pattern. Every kind of cell converts to a `Value`, so the driver
/// never has to name the column in an error. Nothing is claimed of the
/// outcome.
#[verifier::external_body]
pub(crate) fn read_cell(row: &rusqlite::Row<'_>, index: usize) -> (r: Result<
    SqlValue,
    rusqlite::Error,
>) {
    match row.get::<usize, rusqlite::types::Value>(index) {
        Ok(rusqlite::types::Value::Null) => Ok(SqlValue::Null),
        Ok(rusqlite::types::Value::Integer(n)) => Ok(SqlValue::Integer(n)),
        Ok(rusqlite::types::Value::Real(x)) => Ok(SqlValue::Real(x.to_bits())),
        Ok(rusqlite::types::Value::Text(s)) => Ok(SqlValue::Text(s)),
        Ok(rusqlite::types::Value::Blob(b)) => Ok(SqlValue::Blob(b)),
        Err(e) => Err(e),
    }
}

/// Formats a `rusqlite::Error` through its `Display` impl: the driver's
/// message, word for word. Nothing is claimed of the text.
#[verifier::external_body]
pub(crate) fn describe(error: &rusqlite::Error) -> (text: String) {
    error.to_string()
}

} // verus!
