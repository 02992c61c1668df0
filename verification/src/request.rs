//! The statements that the store hands to the storage engine, as plain data:
//! the text of each one and the values bound to its placeholders.

use vstd::prelude::*;
use crate::note::NewNote;
use crate::note::NewNoteView;
use crate::text::decimal_text;
use crate::text::key_text;
use crate::text::like_pattern;
use crate::text::like_pattern_of;

verus! {

/// Creates the table of notes.
pub const CREATE_NOTES: &'static str = "CREATE TABLE IF NOT EXISTS notes (
            id INTEGER PRIMARY KEY AUTOINCREMENT,
            title TEXT NOT NULL,
            content TEXT NOT NULL,
            tags TEXT,
            created_at DATETIME DEFAULT CURRENT_TIMESTAMP
        )";

/// Creates the text index, bound to the table of notes by row key.
pub const CREATE_INDEX: &'static str = "CREATE VIRTUAL TABLE IF NOT EXISTS notes_fts USING fts5(
            title, content, tags,
            content='notes', content_rowid='id'
        )";

/// Adds a note; the store assigns its key and its creation time.
pub const INSERT_NOTE: &'static str = "INSERT INTO notes (title, content, tags) VALUES (?, ?, ?)";

/// Adds the index entry of the note with the given key.
pub const INSERT_INDEX: &'static str =
    "INSERT INTO notes_fts (rowid, title, content, tags) VALUES (?, ?, ?, ?)";

/// Replaces title, content and tags of the note with the given key.
pub const UPDATE_NOTE: &'static str =
    "UPDATE notes SET title = ?, content = ?, tags = ? WHERE id = ?";

/// Replaces title, content and tags of the index entry with the given key.
pub const UPDATE_INDEX: &'static str =
    "UPDATE notes_fts SET title = ?, content = ?, tags = ? WHERE rowid = ?";

/// Removes the note with the given key, if there is one.
pub const DELETE_NOTE: &'static str = "DELETE FROM notes WHERE id = ?";

/// Removes the index entry with the given key, if there is one.
pub const DELETE_INDEX: &'static str = "DELETE FROM notes_fts WHERE rowid = ?";

/// Counts all notes.
pub const COUNT_NOTES: &'static str = "SELECT COUNT(*) FROM notes";

/// Reads a window of the notes, newest first.
pub const SELECT_PAGE: &'static str = "SELECT id, title, content, tags, created_at FROM notes
         ORDER BY created_at DESC
         LIMIT ? OFFSET ?";

/// Reads the notes whose title, tags or content hold the pattern, whatever
/// the case of the letters. A match in the title ranks above one in the
/// tags, which ranks above one in the content; within a rank the newest
/// note comes first.
pub const SEARCH_NOTES: &'static str = "SELECT n.id, n.title, n.content, n.tags, n.created_at,
         (CASE
            WHEN lower(n.title) LIKE lower(?) THEN 3
            WHEN n.tags IS NOT NULL AND lower(n.tags) LIKE lower(?) THEN 2
            WHEN lower(n.content) LIKE lower(?) THEN 1
            ELSE 0
         END) as priority
         FROM notes n
         WHERE lower(n.title) LIKE lower(?)
         OR (n.tags IS NOT NULL AND lower(n.tags) LIKE lower(?))
         OR lower(n.content) LIKE lower(?)
         ORDER BY priority DESC, created_at DESC";

/// The values bound to the placeholders of a statement, in order. One
/// statement binds either texts or integers; one without placeholders binds
/// an empty list of texts.
#[derive(Debug)]
pub enum Params {
    Text(Vec<String>),
    Integers(Vec<i64>),
}

/// What [`Params`] are, mathematically.
pub ghost enum ParamsView {
    Text(Seq<Seq<char>>),
    Integers(Seq<int>),
}

/// The views of a sequence of texts.
pub open spec fn text_views(v: Seq<String>) -> Seq<Seq<char>> {
    v.map_values(|s: String| s@)
}

/// A sequence of machine integers as mathematical integers.
pub open spec fn integer_views(v: Seq<i64>) -> Seq<int> {
    v.map_values(|i: i64| i as int)
}

impl View for Params {
    type V = ParamsView;

    open spec fn view(&self) -> ParamsView {
        match self {
            Params::Text(v) => ParamsView::Text(text_views(v@)),
            Params::Integers(v) => ParamsView::Integers(integer_views(v@)),
        }
    }
}

/// A request ready to be handed to the storage engine.
#[derive(Debug)]
pub struct Request {
    pub sql: &'static str,
    pub params: Params,
}

/// What a [`Request`] is, mathematically.
pub ghost struct RequestView {
    pub sql: Seq<char>,
    pub params: ParamsView,
}

impl View for Request {
    type V = RequestView;

    open spec fn view(&self) -> RequestView {
        RequestView { sql: self.sql@, params: self.params@ }
    }
}

/// A statement that binds nothing.
pub open spec fn plain(sql: Seq<char>) -> RequestView {
    RequestView { sql, params: ParamsView::Text(seq![]) }
}

/// A statement that binds texts.
pub open spec fn with_texts(sql: Seq<char>, texts: Seq<Seq<char>>) -> RequestView {
    RequestView { sql, params: ParamsView::Text(texts) }
}

/// A statement that binds integers.
pub open spec fn with_integers(sql: Seq<char>, integers: Seq<int>) -> RequestView {
    RequestView { sql, params: ParamsView::Integers(integers) }
}

fn text_request(sql: &'static str, texts: Vec<String>) -> (s: Request)
    ensures
        s@ == with_texts(sql@, text_views(texts@)),
{
    Request { sql, params: Params::Text(texts) }
}

fn integer_request(sql: &'static str, integers: Vec<i64>) -> (s: Request)
    ensures
        s@ == with_integers(sql@, integer_views(integers@)),
{
    Request { sql, params: Params::Integers(integers) }
}

/// The two statements that set the store up, in the order in which they run.
pub open spec fn schema_views() -> Seq<RequestView> {
    seq![plain(CREATE_NOTES@), plain(CREATE_INDEX@)]
}

/// The statement that creates the table of notes.
pub fn create_notes_request() -> (s: Request)
    ensures
        s@ == schema_views()[0],
{
    let texts: Vec<String> = Vec::new();
    assert(text_views(texts@) =~= seq![]);
    text_request(CREATE_NOTES, texts)
}

/// The statement that creates the text index.
pub fn create_index_request() -> (s: Request)
    ensures
        s@ == schema_views()[1],
{
    let texts: Vec<String> = Vec::new();
    assert(text_views(texts@) =~= seq![]);
    text_request(CREATE_INDEX, texts)
}

/// The statement that counts all notes.
pub open spec fn count_view() -> RequestView {
    plain(COUNT_NOTES@)
}

/// The statement that counts all notes.
pub fn count_request() -> (s: Request)
    ensures
        s@ == count_view(),
{
    let texts: Vec<String> = Vec::new();
    assert(text_views(texts@) =~= seq![]);
    text_request(COUNT_NOTES, texts)
}

/// An integer brought into the range of a machine integer: one below the
/// range becomes the least, one above it the greatest.
pub open spec fn saturated(n: int) -> int {
    if n < i64::MIN {
        i64::MIN as int
    } else if n > i64::MAX {
        i64::MAX as int
    } else {
        n
    }
}

/// The number of rows that come before a page: all the rows of the pages
/// before it, as far as a machine integer can say. Pages count from one;
/// nothing is clamped at zero, so a page below one gives a negative number.
/// A store holds fewer rows than the greatest machine integer, so the
/// greatest offset lies beyond its rows as the true one does.
pub open spec fn page_offset_of(page: int, page_size: int) -> int {
    saturated((page - 1) * page_size)
}

/// Computes the number of rows to skip before `page`.
pub fn page_offset(page: i64, page_size: i64) -> (offset: i64)
    ensures
        offset == page_offset_of(page as int, page_size as int),
{
    match page.checked_sub(1) {
        Some(before) => match before.checked_mul(page_size) {
            Some(offset) => offset,
            None => {
                if (before < 0) == (page_size < 0) {
                    assert(before * page_size >= 0) by (nonlinear_arith)
                        requires
                            (before < 0) == (page_size < 0),
                    ;
                    i64::MAX
                } else {
                    assert(before * page_size <= 0) by (nonlinear_arith)
                        requires
                            (before < 0) != (page_size < 0),
                    ;
                    i64::MIN
                }
            },
        },
        None => {
            if page_size > 0 {
                assert((page - 1) * page_size < i64::MIN) by (nonlinear_arith)
                    requires
                        page - 1 < i64::MIN,
                        page_size >= 1,
                ;
                i64::MIN
            } else if page_size == 0 {
                assert((page - 1) * page_size == 0) by (nonlinear_arith)
                    requires
                        page_size == 0,
                ;
                0
            } else {
                assert((page - 1) * page_size > i64::MAX) by (nonlinear_arith)
                    requires
                        page - 1 < i64::MIN,
                        page_size <= -1,
                ;
                i64::MAX
            }
        },
    }
}

/// The statement that reads one page: at most `page_size` notes after the
/// rows of the pages before it.
pub open spec fn page_view(page: int, page_size: int) -> RequestView {
    with_integers(SELECT_PAGE@, seq![page_size, page_offset_of(page, page_size)])
}

/// The statement that reads one page of notes.
pub fn page_request(page: i64, page_size: i64) -> (s: Request)
    ensures
        s@ == page_view(page as int, page_size as int),
{
    let offset = page_offset(page, page_size);
    let mut integers: Vec<i64> = Vec::new();
    integers.push(page_size);
    integers.push(offset);
    assert(integer_views(integers@) =~= seq![
        page_size as int,
        page_offset_of(page as int, page_size as int),
    ]);
    integer_request(SELECT_PAGE, integers)
}

/// The statement that searches for `query`: the containment pattern of the
/// query, bound to each of the six placeholders.
pub open spec fn search_view(query: Seq<char>) -> RequestView {
    with_texts(SEARCH_NOTES@, Seq::new(6, |i: int| like_pattern_of(query)))
}

/// The statement that searches the notes for `query`.
pub fn search_request(query: &str) -> (s: Request)
    ensures
        s@ == search_view(query@),
{
    let pattern = like_pattern(query);
    let mut texts: Vec<String> = Vec::new();
    let mut n: usize = 0;
    while n < 6
        invariant
            n <= 6,
            texts@.len() == n,
            pattern@ == like_pattern_of(query@),
            forall|i: int| 0 <= i < n ==> (#[trigger] texts@[i])@ == like_pattern_of(query@),
        decreases 6 - n,
    {
        texts.push(pattern.clone());
        n = n + 1;
    }
    assert(text_views(texts@) =~= Seq::new(6, |i: int| like_pattern_of(query@)));
    text_request(SEARCH_NOTES, texts)
}

/// One change to the store.
#[derive(Debug)]
pub enum Mutation {
    /// A new note.
    Insert { title: String, content: String, tags: String },
    /// New fields for the note with key `id`.
    Update { id: i64, title: String, content: String, tags: String },
    /// The note with key `id` goes.
    Delete { id: i64 },
}

/// What a [`Mutation`] is, mathematically.
pub ghost enum MutationView {
    Insert { title: Seq<char>, content: Seq<char>, tags: Seq<char> },
    Update { id: int, title: Seq<char>, content: Seq<char>, tags: Seq<char> },
    Delete { id: int },
}

impl View for Mutation {
    type V = MutationView;

    open spec fn view(&self) -> MutationView {
        match self {
            Mutation::Insert { title, content, tags } => MutationView::Insert {
                title: title@,
                content: content@,
                tags: tags@,
            },
            Mutation::Update { id, title, content, tags } => MutationView::Update {
                id: *id as int,
                title: title@,
                content: content@,
                tags: tags@,
            },
            Mutation::Delete { id } => MutationView::Delete { id: *id as int },
        }
    }
}

/// The tags that are written for a note: its own, or the empty text where
/// it has none.
pub open spec fn written_tags(tags: Option<Seq<char>>) -> Seq<char> {
    match tags {
        Some(t) => t,
        None => Seq::empty(),
    }
}

/// The change that saving `note` makes: with a key the note of that key is
/// updated, without one a new note is inserted.
pub open spec fn save_of(note: NewNoteView) -> MutationView {
    match note.id {
        Some(id) => MutationView::Update {
            id,
            title: note.title,
            content: note.content,
            tags: written_tags(note.tags),
        },
        None => MutationView::Insert {
            title: note.title,
            content: note.content,
            tags: written_tags(note.tags),
        },
    }
}

impl Mutation {
    /// The change that saving `note` makes.
    pub fn save(note: NewNote) -> (m: Mutation)
        ensures
            m@ == save_of(note@),
    {
        let tags = match note.tags {
            Some(t) => t,
            None => String::new(),
        };
        match note.id {
            Some(id) => Mutation::Update { id, title: note.title, content: note.content, tags },
            None => Mutation::Insert { title: note.title, content: note.content, tags },
        }
    }

    /// The change that deletes the note with key `id`.
    pub fn delete(id: i64) -> (m: Mutation)
        ensures
            m@ == (MutationView::Delete { id: id as int }),
    {
        Mutation::Delete { id }
    }
}

/// The statement that applies a change to the table of notes.
pub open spec fn primary_view(m: MutationView) -> RequestView {
    match m {
        MutationView::Insert { title, content, tags } => with_texts(
            INSERT_NOTE@,
            seq![title, content, tags],
        ),
        MutationView::Update { id, title, content, tags } => with_texts(
            UPDATE_NOTE@,
            seq![title, content, tags, decimal_text(id)],
        ),
        MutationView::Delete { id } => with_integers(DELETE_NOTE@, seq![id]),
    }
}

/// The statement that applies a change to the text index, for the row with
/// key `row`.
pub open spec fn index_view(m: MutationView, row: int) -> RequestView {
    match m {
        MutationView::Insert { title, content, tags } => with_texts(
            INSERT_INDEX@,
            seq![decimal_text(row), title, content, tags],
        ),
        MutationView::Update { title, content, tags, .. } => with_texts(
            UPDATE_INDEX@,
            seq![title, content, tags, decimal_text(row)],
        ),
        MutationView::Delete { .. } => with_integers(DELETE_INDEX@, seq![row]),
    }
}

/// The statement that applies `m` to the table of notes.
pub fn primary_request(m: &Mutation) -> (s: Request)
    ensures
        s@ == primary_view(m@),
{
    match m {
        Mutation::Insert { title, content, tags } => {
            let mut texts: Vec<String> = Vec::new();
            texts.push(title.clone());
            texts.push(content.clone());
            texts.push(tags.clone());
            assert(text_views(texts@) =~= seq![title@, content@, tags@]);
            text_request(INSERT_NOTE, texts)
        },
        Mutation::Update { id, title, content, tags } => {
            let mut texts: Vec<String> = Vec::new();
            texts.push(title.clone());
            texts.push(content.clone());
            texts.push(tags.clone());
            texts.push(key_text(*id));
            assert(text_views(texts@) =~= seq![
                title@,
                content@,
                tags@,
                decimal_text(*id as int),
            ]);
            text_request(UPDATE_NOTE, texts)
        },
        Mutation::Delete { id } => {
            let mut integers: Vec<i64> = Vec::new();
            integers.push(*id);
            assert(integer_views(integers@) =~= seq![*id as int]);
            integer_request(DELETE_NOTE, integers)
        },
    }
}

/// The statement that applies `m` to the text index, for the row with key
/// `row`.
pub fn index_request(m: &Mutation, row: i64) -> (s: Request)
    ensures
        s@ == index_view(m@, row as int),
{
    match m {
        Mutation::Insert { title, content, tags } => {
            let mut texts: Vec<String> = Vec::new();
            texts.push(key_text(row));
            texts.push(title.clone());
            texts.push(content.clone());
            texts.push(tags.clone());
            assert(text_views(texts@) =~= seq![
                decimal_text(row as int),
                title@,
                content@,
                tags@,
            ]);
            text_request(INSERT_INDEX, texts)
        },
        Mutation::Update { title, content, tags, .. } => {
            let mut texts: Vec<String> = Vec::new();
            texts.push(title.clone());
            texts.push(content.clone());
            texts.push(tags.clone());
            texts.push(key_text(row));
            assert(text_views(texts@) =~= seq![
                title@,
                content@,
                tags@,
                decimal_text(row as int),
            ]);
            text_request(UPDATE_INDEX, texts)
        },
        Mutation::Delete { .. } => {
            let mut integers: Vec<i64> = Vec::new();
            integers.push(row);
            assert(integer_views(integers@) =~= seq![row as int]);
            integer_request(DELETE_INDEX, integers)
        },
    }
}

/// The first request of a change. A new note goes to the table first, which
/// assigns its key. An update or a delete goes to the index first: the index
/// holds no text of its own, and to take the entries of a row out the engine
/// reads the row's text from the table, which must still hold the old text.
pub open spec fn first_view(m: MutationView) -> RequestView {
    match m {
        MutationView::Insert { .. } => primary_view(m),
        MutationView::Update { id, .. } => index_view(m, id),
        MutationView::Delete { id } => index_view(m, id),
    }
}

/// The second request of a change, for the same row as the first: for a new
/// note the one for the index, with the key that the table `assigned`; for
/// an update or a delete the one for the table.
pub open spec fn second_view(m: MutationView, assigned: int) -> RequestView {
    match m {
        MutationView::Insert { .. } => index_view(m, assigned),
        MutationView::Update { .. } => primary_view(m),
        MutationView::Delete { .. } => primary_view(m),
    }
}

/// The first request of the change `m`.
pub fn first_request(m: &Mutation) -> (s: Request)
    ensures
        s@ == first_view(m@),
{
    match m {
        Mutation::Insert { .. } => primary_request(m),
        Mutation::Update { id, .. } => index_request(m, *id),
        Mutation::Delete { id } => index_request(m, *id),
    }
}

/// The second request of the change `m`; `assigned` is the key that the
/// table gave to a new note.
pub fn second_request(m: &Mutation, assigned: i64) -> (s: Request)
    ensures
        s@ == second_view(m@, assigned as int),
{
    match m {
        Mutation::Insert { .. } => index_request(m, assigned),
        Mutation::Update { .. } => primary_request(m),
        Mutation::Delete { .. } => primary_request(m),
    }
}

} // verus!
