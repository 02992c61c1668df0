//! The three ways an operation on the store can fail.

use vstd::prelude::*;
use vstd::string::to_string_from_display_ensures;

verus! {

/// Whether `message` is the text that the storage engine's error `e` shows
/// of itself.
pub open spec fn is_text_of(message: String, e: &rusqlite::Error) -> bool {
    to_string_from_display_ensures::<rusqlite::Error>(e, message)
}

/// Whether `message` is the text of some error of the storage engine.
pub open spec fn is_engine_message(message: String) -> bool {
    exists|e: rusqlite::Error| #[trigger] is_text_of(message, &e)
}

/// A failure, with the message that the storage engine (or the file system)
/// gave for it.
#[derive(Debug)]
pub enum StoreError {
    /// The store's directory or file could not be created.
    Io(String),
    /// A table could not be created.
    Schema(String),
    /// A query or a transaction failed.
    Database(String),
}

impl StoreError {
    /// The message that the error carries.
    pub open spec fn carried(&self) -> String {
        match self {
            StoreError::Io(m) => *m,
            StoreError::Schema(m) => *m,
            StoreError::Database(m) => *m,
        }
    }

    /// Whether the message is the text of some error of the storage engine.
    pub open spec fn is_engine_text(&self) -> bool {
        is_engine_message(self.carried())
    }

    /// The message text, as a sequence of characters.
    pub open spec fn text(&self) -> Seq<char> {
        match self {
            StoreError::Io(m) => m@,
            StoreError::Schema(m) => m@,
            StoreError::Database(m) => m@,
        }
    }

    /// The human-readable message carried by the error.
    pub fn message(&self) -> (m: String)
        ensures
            m@ == self.text(),
    {
        match self {
            StoreError::Io(m) => m.clone(),
            StoreError::Schema(m) => m.clone(),
            StoreError::Database(m) => m.clone(),
        }
    }
}

} // verus!
