//! The storage engine: the types of `rusqlite` that the store holds, and the
//! calls that it makes into that crate. Nothing here is proved. What the
//! engine does with a statement depends on the database file, so no call
//! promises anything about its result.

use vstd::prelude::*;
use crate::note::Note;

verus! {

#[verifier::external_type_specification]
#[verifier::external_body]
pub struct ExConnection(rusqlite::Connection);

#[verifier::external_type_specification]
#[verifier::external_body]
pub struct ExTransaction<'conn>(rusqlite::Transaction<'conn>);

#[verifier::external_type_specification]
#[verifier::external_body]
pub struct ExStatement<'conn>(rusqlite::Statement<'conn>);

#[verifier::external_type_specification]
#[verifier::external_body]
pub struct ExError(rusqlite::Error);

#[verifier::external_type_specification]
#[verifier::external_body]
pub struct ExPath(std::path::Path);

/// `rusqlite::Connection::transaction` begins a transaction on the
/// connection, or fails. The transaction rolls back when it is dropped
/// without a commit.
pub assume_specification<'a>[ rusqlite::Connection::transaction ](
    conn: &'a mut rusqlite::Connection,
) -> (r: Result<rusqlite::Transaction<'a>, rusqlite::Error>)
;

/// `rusqlite::Transaction::commit` consumes the transaction and commits it,
/// or fails.
pub assume_specification<'a>[ rusqlite::Transaction::<'a>::commit ](
    tx: rusqlite::Transaction<'a>,
) -> (r: Result<(), rusqlite::Error>)
;

/// `rusqlite::Connection::last_insert_rowid` gives the key of the row that
/// the most recent successful insert on the connection made.
pub assume_specification[ rusqlite::Connection::last_insert_rowid ](
    conn: &rusqlite::Connection,
) -> (r: i64)
;

/// `rusqlite::Connection::prepare` compiles one statement, or fails.
pub assume_specification<'a>[ rusqlite::Connection::prepare ](
    conn: &'a rusqlite::Connection,
    sql: &str,
) -> (r: Result<rusqlite::Statement<'a>, rusqlite::Error>)
;

/// Calls `rusqlite::Connection::open`, which opens the database file at
/// `path` for reading and writing and creates it where there is none.
#[verifier::external_body]
pub(crate) fn open_connection(path: &std::path::Path) -> (r: Result<
    rusqlite::Connection,
    rusqlite::Error,
>) {
    rusqlite::Connection::open(path)
}

/// The connection that a transaction runs on, through the `Deref` impl of
/// `rusqlite::Transaction`.
#[verifier::external_body]
pub(crate) fn session<'a, 'c>(tx: &'a rusqlite::Transaction<'c>) -> (conn: &'a rusqlite::Connection) {
    tx
}

/// Drops the transaction. The `Drop` impl of `rusqlite::Transaction` rolls
/// an uncommitted transaction back and ignores a failure of the rollback.
#[verifier::external_body]
pub(crate) fn abandon<'c>(tx: rusqlite::Transaction<'c>) {
    drop(tx)
}

/// Calls `rusqlite::Connection::execute` with `texts` bound, in order, to the
/// placeholders of `sql`. It gives the number of rows changed, or fails.
#[verifier::external_body]
pub(crate) fn execute_texts(conn: &rusqlite::Connection, sql: &str, texts: &Vec<String>) -> (r: Result<
    usize,
    rusqlite::Error,
>) {
    conn.execute(sql, rusqlite::params_from_iter(texts.iter()))
}

/// Calls `rusqlite::Connection::execute` with `integers` bound, in order, to
/// the placeholders of `sql`. It gives the number of rows changed, or fails.
#[verifier::external_body]
pub(crate) fn execute_integers(conn: &rusqlite::Connection, sql: &str, integers: &Vec<i64>) -> (r:
    Result<usize, rusqlite::Error>) {
    conn.execute(sql, rusqlite::params_from_iter(integers.iter()))
}

/// Calls `rusqlite::Connection::query_row` on a statement without
/// placeholders and reads the first column of its first row as an integer.
#[verifier::external_body]
pub(crate) fn query_integer(conn: &rusqlite::Connection, sql: &str) -> (r: Result<
    i64,
    rusqlite::Error,
>) {
    conn.query_row(sql, [], |row| row.get(0))
}

/// Calls `rusqlite::Statement::query_map` with `texts` bound and reads each
/// row as a note: key, title, content, tags and creation time from the
/// first five columns. It fails where the query or the reading of a row
/// fails.
#[verifier::external_body]
pub(crate) fn notes_for_texts(stmt: &mut rusqlite::Statement<'_>, texts: &Vec<String>) -> (r: Result<
    Vec<Note>,
    rusqlite::Error,
>) {
    stmt.query_map(rusqlite::params_from_iter(texts.iter()), |row| {
        Ok(Note {
            id: row.get(0)?,
            title: row.get(1)?,
            content: row.get(2)?,
            tags: row.get(3)?,
            created_at: row.get(4)?,
        })
    })?.collect()
}

/// Calls `rusqlite::Statement::query_map` with `integers` bound and reads
/// each row as a note, as [`notes_for_texts`] does.
#[verifier::external_body]
pub(crate) fn notes_for_integers(stmt: &mut rusqlite::Statement<'_>, integers: &Vec<i64>) -> (r:
    Result<Vec<Note>, rusqlite::Error>) {
    stmt.query_map(rusqlite::params_from_iter(integers.iter()), |row| {
        Ok(Note {
            id: row.get(0)?,
            title: row.get(1)?,
            content: row.get(2)?,
            tags: row.get(3)?,
            created_at: row.get(4)?,
        })
    })?.collect()
}

} // verus!
