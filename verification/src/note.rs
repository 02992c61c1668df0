//! The note as it is stored, as it is handed in for saving, and a page of
//! notes.

use vstd::prelude::*;

verus! {

/// A stored note.
#[derive(Debug)]
pub struct Note {
    /// The key that the store assigned when the note was created.
    pub id: i64,
    pub title: String,
    pub content: String,
    /// Free-form tags; absent on rows that were never written with tags.
    pub tags: Option<String>,
    /// The creation time, as the store renders it.
    pub created_at: String,
}

/// What a [`Note`] is, mathematically.
pub ghost struct NoteView {
    pub id: int,
    pub title: Seq<char>,
    pub content: Seq<char>,
    pub tags: Option<Seq<char>>,
    pub created_at: Seq<char>,
}

/// The view of optional text.
pub open spec fn optional_text(t: Option<String>) -> Option<Seq<char>> {
    match t {
        Some(s) => Some(s@),
        None => None,
    }
}

impl View for Note {
    type V = NoteView;

    open spec fn view(&self) -> NoteView {
        NoteView {
            id: self.id as int,
            title: self.title@,
            content: self.content@,
            tags: optional_text(self.tags),
            created_at: self.created_at@,
        }
    }
}

/// The views of a sequence of notes, in the same order.
pub open spec fn note_views(notes: Seq<Note>) -> Seq<NoteView> {
    notes.map_values(|n: Note| n@)
}

/// One page of notes together with the number of notes in the whole store.
#[derive(Debug)]
pub struct PaginatedNotes {
    pub notes: Vec<Note>,
    pub total: i64,
}

/// A note handed in for saving: with an `id` it replaces the fields of the
/// stored note of that id, without one it becomes a new note.
#[derive(Debug)]
pub struct NewNote {
    pub id: Option<i64>,
    pub title: String,
    pub content: String,
    pub tags: Option<String>,
}

/// What a [`NewNote`] is, mathematically.
pub ghost struct NewNoteView {
    pub id: Option<int>,
    pub title: Seq<char>,
    pub content: Seq<char>,
    pub tags: Option<Seq<char>>,
}

impl View for NewNote {
    type V = NewNoteView;

    open spec fn view(&self) -> NewNoteView {
        NewNoteView {
            id: match self.id {
                Some(i) => Some(i as int),
                None => None,
            },
            title: self.title@,
            content: self.content@,
            tags: optional_text(self.tags),
        }
    }
}

} // verus!
