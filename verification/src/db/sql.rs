//! The calls into the SQLite bindings, the random identifiers and the clock.
//! Each function here makes one outside call and converts its values; what
//! the database returns depends on what it holds, so nothing is promised of it.
use vstd::prelude::*;

use rusqlite::types::Value;
use rusqlite::{Connection, Transaction};

verus! {

#[verifier::external_type_specification]
#[verifier::external_body]
pub struct ExConnection(rusqlite::Connection);

#[verifier::external_type_specification]
#[verifier::external_body]
pub struct ExSqlError(rusqlite::Error);

#[verifier::external_type_specification]
#[verifier::external_body]
pub struct ExSqlValue(rusqlite::types::Value);

#[verifier::external_type_specification]
#[verifier::external_body]
pub struct ExTransaction<'conn>(rusqlite::Transaction<'conn>);

/// One stored history row: id, type name, content, normalized content, preview,
/// pinned flag and creation time, in the order the queries select them.
pub type ItemRow = (String, String, String, String, String, i32, i64);

/// One settings row: launch on startup, enable monitoring, history limit.
pub type SettingsRow = (i32, i32, u32);

/// Positional parameters: the texts first (`?1`, `?2`, ...), then the integers.
/// Each becomes the SQLite value of the same type (`Value::from`).
#[verifier::external_body]
pub(crate) fn bind_values(texts: Vec<String>, ints: Vec<i64>) -> Vec<Value> {
    texts.into_iter().map(Value::from).chain(ints.into_iter().map(Value::from)).collect()
}

/// `Connection::execute`: runs one statement, giving the number of changed rows.
#[verifier::external_body]
pub(crate) fn execute(conn: &Connection, sql: &str, params: Vec<Value>) -> Result<usize, rusqlite::Error> {
    conn.execute(sql, rusqlite::params_from_iter(params))
}

/// `Connection::execute_batch`: runs statements separated by semicolons.
#[verifier::external_body]
pub(crate) fn execute_batch(conn: &Connection, sql: &str) -> Result<(), rusqlite::Error> {
    conn.execute_batch(sql)
}

/// `Connection::prepare`, then `Statement::query_map` and collecting the rows.
/// The outer error is that of preparing the statement, the inner one that of
/// running it or reading a row.
#[verifier::external_body]
pub(crate) fn query_item_rows(conn: &Connection, sql: &str, params: Vec<Value>) -> Result<
    Result<Vec<ItemRow>, rusqlite::Error>,
    rusqlite::Error,
> {
    let mut stmt = conn.prepare(sql)?;
    let rows = match stmt.query_map(rusqlite::params_from_iter(params), |row| {
        Ok((row.get(0)?, row.get(1)?, row.get(2)?, row.get(3)?, row.get(4)?, row.get(5)?, row.get(6)?))
    }) {
        Ok(rows) => rows,
        Err(e) => return Ok(Err(e)),
    };
    Ok(rows.collect())
}

/// `Connection::prepare` and `Statement::query_map`, reading the first column as text.
#[verifier::external_body]
pub(crate) fn query_texts(conn: &Connection, sql: &str, params: Vec<Value>) -> Result<Vec<String>, rusqlite::Error> {
    let mut stmt = conn.prepare(sql)?;
    let rows = stmt.query_map(rusqlite::params_from_iter(params), |row| row.get(0))?;
    rows.collect()
}

/// `Connection::query_row`, reading the first column of the first row as a 64-bit integer.
#[verifier::external_body]
pub(crate) fn query_i64(conn: &Connection, sql: &str) -> Result<i64, rusqlite::Error> {
    conn.query_row(sql, [], |row| row.get(0))
}

/// `Connection::prepare` and `Statement::query_map`, reading the first column as a 32-bit integer.
#[verifier::external_body]
pub(crate) fn query_i32s(conn: &Connection, sql: &str) -> Result<Vec<i32>, rusqlite::Error> {
    let mut stmt = conn.prepare(sql)?;
    let rows = stmt.query_map([], |row| row.get(0))?;
    rows.collect()
}

/// `Connection::query_row`, reading the first three columns of the first row.
#[verifier::external_body]
pub(crate) fn query_settings_row(conn: &Connection, sql: &str) -> Result<SettingsRow, rusqlite::Error> {
    conn.query_row(sql, [], |row| Ok((row.get(0)?, row.get(1)?, row.get(2)?)))
}

/// `Connection::query_row`, reading the first column of the first row as text.
#[verifier::external_body]
pub(crate) fn query_text(conn: &Connection, sql: &str) -> Result<String, rusqlite::Error> {
    conn.query_row(sql, [], |row| row.get(0))
}

/// `Connection::pragma_update` with a text value.
#[verifier::external_body]
pub(crate) fn pragma_update(conn: &Connection, name: &str, value: &str) -> Result<(), rusqlite::Error> {
    conn.pragma_update(None, name, value)
}

/// `Connection::unchecked_transaction`: begins a transaction that is rolled
/// back when dropped without a commit.
#[verifier::external_body]
pub(crate) fn begin_transaction(conn: &Connection) -> Result<Transaction<'_>, rusqlite::Error> {
    conn.unchecked_transaction()
}

/// The connection a transaction runs on (`Transaction`'s `Deref`).
#[verifier::external_body]
pub(crate) fn transaction_connection<'a, 'c>(tx: &'a Transaction<'c>) -> &'a Connection {
    tx
}

/// `Transaction::commit`.
#[verifier::external_body]
pub(crate) fn commit(tx: Transaction<'_>) -> Result<(), rusqlite::Error> {
    tx.commit()
}

/// `Connection::open_in_memory`.
#[verifier::external_body]
pub(crate) fn open_in_memory() -> Result<Connection, rusqlite::Error> {
    Connection::open_in_memory()
}

/// `Connection::open` on a file path.
#[verifier::external_body]
pub(crate) fn open_file(path: &str) -> Result<Connection, rusqlite::Error> {
    Connection::open(path)
}

/// The error's message (`Display`).
#[verifier::external_body]
pub(crate) fn error_message(error: &rusqlite::Error) -> String {
    error.to_string()
}

/// The error for a row whose entry type is unknown:
/// `Error::FromSqlConversionFailure` for column 1 (`type`), of SQLite type text,
/// carrying an invalid-data I/O error with the message "invalid clipboard type".
#[verifier::external_body]
pub(crate) fn invalid_type_error() -> rusqlite::Error {
    rusqlite::Error::FromSqlConversionFailure(
        1,
        rusqlite::types::Type::Text,
        std::io::Error::new(std::io::ErrorKind::InvalidData, "invalid clipboard type").into(),
    )
}

/// `uuid::Uuid::new_v4` in its textual form: 36 characters, lowercase hexadecimal
/// digits in groups of 8-4-4-4-12 separated by hyphens, version digit `4` and
/// variant digit one of `8`, `9`, `a`, `b`. The digits are random.
#[verifier::external_body]
pub(crate) fn new_uuid() -> (id: String)
    ensures
        is_uuid_v4_text(id@),
{
    uuid::Uuid::new_v4().to_string()
}

pub open spec fn is_lower_hex(c: char) -> bool {
    ('0' <= c <= '9') || ('a' <= c <= 'f')
}

/// The hyphenated lowercase form of a random (version 4) UUID.
pub open spec fn is_uuid_v4_text(s: Seq<char>) -> bool {
    &&& s.len() == 36
    &&& forall|i: int|
        0 <= i < 36 ==> if i == 8 || i == 13 || i == 18 || i == 23 {
            s[i] == '-'
        } else {
            is_lower_hex(#[trigger] s[i])
        }
    &&& s[14] == '4'
    &&& (s[19] == '8' || s[19] == '9' || s[19] == 'a' || s[19] == 'b')
}

/// Milliseconds since the Unix epoch by the system clock
/// (`SystemTime::now().duration_since(UNIX_EPOCH)`, then `Duration::as_millis`);
/// none when the clock is before the epoch.
#[verifier::external_body]
pub(crate) fn millis_since_epoch() -> Option<u128> {
    std::time::SystemTime::now().duration_since(std::time::UNIX_EPOCH).ok().as_ref().map(
        std::time::Duration::as_millis,
    )
}

} // verus!
