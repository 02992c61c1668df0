//! The operations of the note store as a front-end calls them. Each one
//! opens its own connection to the database file at `db_path`, does its
//! work and lets the connection go.

use vstd::prelude::*;
use crate::error::StoreError;
use crate::note::NewNote;
use crate::note::Note;
use crate::note::PaginatedNotes;
use crate::store::Store;
use crate::text::is_blank;
use crate::text::query_is_blank;

verus! {

/// The greeting for `name`.
pub open spec fn greeting_of(name: Seq<char>) -> Seq<char> {
    "Hello, "@ + name + "! You've been greeted from Rust!"@
}

/// Greets `name`.
pub fn greet(name: &str) -> (greeting: String)
    ensures
        greeting@ == greeting_of(name@),
{
    String::from_str("Hello, ").concat(name).concat("! You've been greeted from Rust!")
}

/// The name of the database file inside the application's data directory.
pub const STORE_FILE: &'static str = "notes.db";

/// Sets the store up. Where the database file exists already nothing is
/// done: its tables are taken to be in place. Otherwise the file is
/// created, then the table of notes, then the text index. The directory
/// that is to hold the file must exist. A file that cannot be created is a
/// [`StoreError::Io`], a table that cannot be created a
/// [`StoreError::Schema`], each with the engine's message.
pub fn init_db(db_path: &std::path::Path, store_exists: bool) -> (r: Result<(), StoreError>)
    ensures
        store_exists ==> r is Ok,
        r matches Err(e) ==> (e is Io || e is Schema) && e.is_engine_text(),
{
    if store_exists {
        return Ok(());
    }
    match Store::create(db_path) {
        Ok(mut store) => store.create_schema(),
        Err(e) => Err(e),
    }
}

/// Reads page `page` of the notes, `page_size` notes to a page and the
/// newest first, together with the number of all notes.
pub fn get_paginated_notes(db_path: &std::path::Path, page: i64, page_size: i64) -> (r: Result<
    PaginatedNotes,
    StoreError,
>)
    ensures
        r matches Err(e) ==> e is Database && e.is_engine_text(),
{
    let mut store = match Store::open(db_path) {
        Ok(store) => store,
        Err(e) => {
            return Err(e);
        },
    };
    store.list_page(page, page_size)
}

/// Saves a note: an update where it has a key, a new note where it has
/// none.
pub fn save_note(db_path: &std::path::Path, note: NewNote) -> (r: Result<(), StoreError>)
    ensures
        r matches Err(e) ==> e is Database && e.is_engine_text(),
{
    let mut store = match Store::open(db_path) {
        Ok(store) => store,
        Err(e) => {
            return Err(e);
        },
    };
    store.save(note)
}

/// Deletes the note with key `note_id`, if there is one.
pub fn delete_note(db_path: &std::path::Path, note_id: i64) -> (r: Result<(), StoreError>)
    ensures
        r matches Err(e) ==> e is Database && e.is_engine_text(),
{
    let mut store = match Store::open(db_path) {
        Ok(store) => store,
        Err(e) => {
            return Err(e);
        },
    };
    store.delete(note_id)
}

/// Searches the notes for `query`. A blank query gives no notes, and the
/// database is not even opened.
pub fn search_notes(db_path: &std::path::Path, query: &str) -> (r: Result<Vec<Note>, StoreError>)
    ensures
        is_blank(query@) ==> (r matches Ok(notes) && notes@.len() == 0),
        r matches Err(e) ==> e is Database && e.is_engine_text(),
{
    if query_is_blank(query) {
        return Ok(Vec::new());
    }
    let mut store = match Store::open(db_path) {
        Ok(store) => store,
        Err(e) => {
            return Err(e);
        },
    };
    store.search(query)
}

} // verus!
