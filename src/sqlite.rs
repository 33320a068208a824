//! What the catalog takes from rusqlite and chrono, each with the contract
//! that the rest of the library relies on.

use crate::model::Cell;
use crate::statement::{Param, Statement};
use rusqlite::types::Value;
use rusqlite::Connection;
use vstd::prelude::*;

verus! {

#[verifier::external_type_specification]
#[verifier::external_body]
pub struct ExConnection(rusqlite::Connection);

#[verifier::external_type_specification]
#[verifier::external_body]
pub struct ExError(rusqlite::Error);

#[verifier::external_type_specification]
#[verifier::external_body]
pub struct ExValue(rusqlite::types::Value);

/// Relies on `rusqlite::Connection::last_insert_rowid`: it never fails. What
/// it returns depends on the database, so nothing is said of it.
pub assume_specification[ rusqlite::Connection::last_insert_rowid ](conn: &Connection) -> i64;

/// Relies on rusqlite's `From<i64> for Value`, used to bind an integer.
pub assume_specification[ <rusqlite::types::Value as core::convert::From<i64>>::from ](
    i: i64,
) -> Value;

/// Relies on rusqlite's `From<String> for Value`, used to bind a text.
pub assume_specification[ <rusqlite::types::Value as core::convert::From<String>>::from ](
    s: String,
) -> Value;

/// The rusqlite value that a parameter is bound as.
pub fn value_of(p: &Param) -> Value {
    match p {
        Param::Integer(i) => Value::from(*i),
        Param::Text(s) => Value::from(s.clone()),
    }
}

/// Relies on `rusqlite::Connection::execute`: runs `st.sql` with the
/// parameters of `st` bound in order, and on success gives the number of rows
/// that it changed. Whether it succeeds, and that number, depend on the
/// database, so nothing is said of them.
#[verifier::external_body]
pub fn execute(conn: &Connection, st: &Statement) -> (r: Result<usize, rusqlite::Error>) {
    conn.execute(st.sql, rusqlite::params_from_iter(st.params.iter().map(value_of)))
}

/// Relies on `rusqlite::Connection::prepare` and `rusqlite::Statement::query`:
/// runs the query `st.sql` with the parameters of `st` bound in order, and
/// gives the first `width` columns of every result row, in the order SQLite
/// gives them. `Row::get` fails on a column past the last one, so every row
/// handed back has exactly `width` values. Which rows come back depends on
/// the database.
#[verifier::external_body]
pub fn query_rows(conn: &Connection, st: &Statement, width: usize) -> (r: Result<
    Vec<Vec<Value>>,
    rusqlite::Error,
>)
    ensures
        r matches Ok(rows) ==> forall|i: int| 0 <= i < rows.len() ==> (#[trigger] rows@[i]).len() == width,
{
    let mut stmt = conn.prepare(st.sql)?;
    let mut rows = stmt.query(rusqlite::params_from_iter(st.params.iter().map(value_of)))?;
    let mut out = Vec::new();
    while let Some(row) = rows.next()? {
        out.push((0..width).map(|c| row.get::<usize, Value>(c)).collect::<rusqlite::Result<Vec<Value>>>()?);
    }
    Ok(out)
}

/// Relies on the variants of `rusqlite::types::Value`: tells them apart and
/// moves what each holds into a cell, but for a floating-point value, which
/// the catalog never reads.
#[verifier::external_body]
pub fn cell_of(v: &Value) -> (r: Cell) {
    match v {
        Value::Null => Cell::Null,
        Value::Integer(i) => Cell::Integer(*i),
        Value::Real(_) => Cell::Real,
        Value::Text(s) => Cell::Text(s.clone()),
        Value::Blob(b) => Cell::Blob(b.clone()),
    }
}

/// Relies on `std::time::SystemTime::now` and `SystemTime::duration_since`:
/// the whole seconds and the nanoseconds since the Unix epoch, or `None`
/// where the clock reads earlier than the epoch. What time it is depends on
/// the clock, so nothing more is said.
#[verifier::external_body]
pub fn since_epoch() -> (r: Option<(u64, u32)>) {
    std::time::SystemTime::now()
        .duration_since(std::time::UNIX_EPOCH)
        .ok()
        .map(|d| (d.as_secs(), d.subsec_nanos()))
}

/// Relies on `chrono::DateTime::<Utc>::from_timestamp` and its `Display`
/// form: the UTC time `secs` seconds and `nanos` nanoseconds after the Unix
/// epoch as text, or `None` where chrono cannot represent that time. The
/// text is never empty, as `Display` for `DateTime<Utc>` writes the date and
/// time, a space and `UTC`.
#[verifier::external_body]
pub fn utc_text(secs: i64, nanos: u32) -> (r: Option<String>)
    ensures
        r is Some ==> r->Some_0@.len() > 0,
{
    chrono::DateTime::<chrono::Utc>::from_timestamp(secs, nanos).map(|t| t.to_string())
}

} // verus!
