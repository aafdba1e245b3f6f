//! The calls into rusqlite and into the file system that the accessor makes.

use vstd::prelude::*;
use crate::record::CellValue;

verus! {

#[verifier::external_type_specification]
#[verifier::external_body]
pub struct ExConnection(rusqlite::Connection);

#[verifier::external_type_specification]
#[verifier::external_body]
pub struct ExSqlError(rusqlite::Error);

#[verifier::external_type_specification]
#[verifier::external_body]
pub struct ExSqlValue(rusqlite::types::Value);

/// Relies on std::path::Path::exists: whether a file stands at `path` at the
/// time of the call.
#[verifier::external_body]
pub(crate) fn path_exists(path: &str) -> bool {
    std::path::Path::new(path).exists()
}

/// Relies on rusqlite::Connection::open: opens the database file at `path`.
#[verifier::external_body]
pub(crate) fn open_connection(path: &str) -> Result<rusqlite::Connection, rusqlite::Error> {
    rusqlite::Connection::open(path)
}

/// Relies on rusqlite's Connection::prepare, Statement::query_map and Row::get:
/// runs `sql` with `params` bound in order and reads cells `0..width` of every
/// result row, in the order the engine yields the rows. A row is read whole or
/// the call fails.
#[verifier::external_body]
pub(crate) fn query_cells(
    conn: &rusqlite::Connection,
    sql: &str,
    params: &Vec<String>,
    width: usize,
) -> (r: Result<Vec<Vec<rusqlite::types::Value>>, rusqlite::Error>)
    ensures
        r matches Ok(rows) ==> forall|i: int| 0 <= i < rows.len() ==> #[trigger] rows[i].len() == width,
{
    let mut stmt = conn.prepare(sql)?;
    let rows = stmt.query_map(rusqlite::params_from_iter(params.iter()), |row| {
        (0..width).map(|i| row.get(i)).collect::<Result<Vec<rusqlite::types::Value>, _>>()
    })?;
    rows.collect()
}

/// Relies on rusqlite::Connection::execute: runs `sql` with `params` bound in
/// order and returns the number of rows it changed.
#[verifier::external_body]
pub(crate) fn execute(
    conn: &rusqlite::Connection,
    sql: &str,
    params: &Vec<String>,
) -> Result<usize, rusqlite::Error> {
    conn.execute(sql, rusqlite::params_from_iter(params.iter()))
}

/// Relies on the variants of rusqlite::types::Value: each maps to the cell of
/// the same kind; a real is carried as its IEEE-754 bit pattern.
#[verifier::external_body]
pub(crate) fn cell_of(v: &rusqlite::types::Value) -> CellValue {
    match v {
        rusqlite::types::Value::Null => CellValue::Null,
        rusqlite::types::Value::Integer(i) => CellValue::Integer(*i),
        rusqlite::types::Value::Real(x) => CellValue::Real(x.to_bits()),
        rusqlite::types::Value::Text(s) => CellValue::Text(s.clone()),
        rusqlite::types::Value::Blob(b) => CellValue::Blob(b.clone()),
    }
}

} // verus!
