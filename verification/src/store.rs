//! The store: a connection to the database of notes, with the journal of
//! what went through it.

use vstd::prelude::*;
use crate::engine::abandon;
use crate::engine::execute_integers;
use crate::engine::execute_texts;
use crate::engine::notes_for_integers;
use crate::engine::notes_for_texts;
use crate::engine::open_connection;
use crate::engine::query_integer;
use crate::engine::session;
use crate::error::is_engine_message;
use crate::error::is_text_of;
use crate::error::StoreError;
use crate::journal::added;
use crate::journal::number_answer;
use crate::journal::page_events;
use crate::journal::rows_answer;
use crate::journal::both_accepted;
use crate::journal::is_page_trace;
use crate::journal::is_setup_trace;
use crate::journal::is_write_trace;
use crate::journal::journal_wf;
use crate::journal::lemma_append_keeps_wf;
use crate::journal::lemma_write_trace_is_wf;
use crate::journal::not_begun;
use crate::journal::refused_first;
use crate::journal::refused_second;
use crate::journal::Answer;
use crate::journal::Event;
use crate::note::NewNote;
use crate::note::Note;
use crate::note::PaginatedNotes;
use crate::request::count_request;
use crate::request::create_index_request;
use crate::request::create_notes_request;
use crate::request::first_request;
use crate::request::page_request;
use crate::request::save_of;
use crate::request::search_request;
use crate::request::search_view;
use crate::request::second_request;
use crate::request::Mutation;
use crate::request::MutationView;
use crate::request::Params;
use crate::request::Request;
use crate::text::is_blank;
use crate::text::query_is_blank;

verus! {

/// Asks the engine for a transaction, and notes in `journal` that it was
/// asked and what it answered.
fn begin<'a>(conn: &'a mut rusqlite::Connection, journal: &mut Ghost<Seq<Event>>) -> (r: Result<
    rusqlite::Transaction<'a>,
    rusqlite::Error,
>)
    ensures
        final(journal)@ == old(journal)@.push(Event::Begin { accepted: r is Ok }),
{
    let r = conn.transaction();
    proof {
        journal@ = journal@.push(Event::Begin { accepted: r is Ok });
    }
    r
}

/// Hands a request that changes the database to the engine, and notes in
/// `journal` that it went out and whether the engine accepted it. The answer
/// is the engine's: the number of rows changed, or its failure.
fn run(conn: &rusqlite::Connection, request: &Request, journal: &mut Ghost<Seq<Event>>) -> (r:
    Result<usize, rusqlite::Error>)
    ensures
        final(journal)@ == old(journal)@.push(
            Event::Change { request: request@, accepted: r is Ok },
        ),
{
    let r = match &request.params {
        Params::Text(texts) => execute_texts(conn, request.sql, texts),
        Params::Integers(integers) => execute_integers(conn, request.sql, integers),
    };
    proof {
        journal@ = journal@.push(Event::Change { request: request@, accepted: r is Ok });
    }
    r
}

/// Hands a query for notes to the engine, and notes in `journal` that it
/// went out and what the engine gave: the rows, each read as a note, or a
/// refusal. The answer is the engine's.
fn fetch(conn: &rusqlite::Connection, request: &Request, journal: &mut Ghost<Seq<Event>>) -> (r:
    Result<Vec<Note>, rusqlite::Error>)
    ensures
        final(journal)@ == old(journal)@.push(
            Event::Query { request: request@, answer: rows_answer(r) },
        ),
{
    let r = match conn.prepare(request.sql) {
        Ok(mut prepared) => match &request.params {
            Params::Text(texts) => notes_for_texts(&mut prepared, texts),
            Params::Integers(integers) => notes_for_integers(&mut prepared, integers),
        },
        Err(e) => Err(e),
    };
    proof {
        journal@ = journal@.push(Event::Query { request: request@, answer: rows_answer(r) });
    }
    r
}

/// Hands a query for one number to the engine, and notes in `journal` that
/// it went out and what the engine gave: the number, or a refusal.
fn count(conn: &rusqlite::Connection, request: &Request, journal: &mut Ghost<Seq<Event>>) -> (r:
    Result<i64, rusqlite::Error>)
    ensures
        final(journal)@ == old(journal)@.push(
            Event::Query { request: request@, answer: number_answer(r) },
        ),
{
    let r = query_integer(conn, request.sql);
    proof {
        journal@ = journal@.push(Event::Query { request: request@, answer: number_answer(r) });
    }
    r
}

/// Asks the engine for the key that it assigned to the row just inserted,
/// and notes in `journal` the key that it gave.
fn assigned_key(conn: &rusqlite::Connection, journal: &mut Ghost<Seq<Event>>) -> (key: i64)
    ensures
        final(journal)@ == old(journal)@.push(Event::Key { key: key as int }),
{
    let key = conn.last_insert_rowid();
    proof {
        journal@ = journal@.push(Event::Key { key: key as int });
    }
    key
}

/// Asks the engine to commit the transaction, and notes in `journal` that it
/// was asked and what it answered. The transaction is used up either way;
/// one whose commit was refused is rolled back as it goes.
fn commit<'a>(tx: rusqlite::Transaction<'a>, journal: &mut Ghost<Seq<Event>>) -> (r: Result<
    (),
    rusqlite::Error,
>)
    ensures
        final(journal)@ == old(journal)@.push(Event::Commit { accepted: r is Ok }),
{
    let r = tx.commit();
    proof {
        journal@ = journal@.push(Event::Commit { accepted: r is Ok });
    }
    r
}

/// Rolls the transaction back, and notes it in `journal`.
fn roll_back<'a>(tx: rusqlite::Transaction<'a>, journal: &mut Ghost<Seq<Event>>)
    ensures
        final(journal)@ == old(journal)@.push(Event::RollBack),
{
    abandon(tx);
    proof {
        journal@ = journal@.push(Event::RollBack);
    }
}

/// The failure of a query or a transaction: the engine's error under
/// [`StoreError::Database`], with the text that the error shows of itself.
fn database_error(e: &rusqlite::Error) -> (error: StoreError)
    ensures
        error matches StoreError::Database(message) && is_text_of(message, e),
        error.is_engine_text(),
{
    let error = StoreError::Database(e.to_string());
    assert(is_text_of(error.carried(), e));
    error
}

/// What the store returns for an answer of the engine: the value that the
/// engine gave, or the engine's failure as a [`StoreError::Database`].
pub fn reply<T>(answer: Result<T, rusqlite::Error>) -> (r: Result<T, StoreError>)
    ensures
        match answer {
            Ok(value) => r == Ok::<T, StoreError>(value),
            Err(e) => r matches Err(StoreError::Database(message)) && is_text_of(message, &e),
        },
        r matches Err(error) ==> error.is_engine_text(),
{
    match answer {
        Ok(value) => Ok(value),
        Err(e) => Err(database_error(&e)),
    }
}

/// What the store returns for the engine's answer to a request that defines
/// a table: success, or the engine's failure as a [`StoreError::Schema`].
pub fn schema_reply(answer: Result<usize, rusqlite::Error>) -> (r: Result<(), StoreError>)
    ensures
        match answer {
            Ok(_) => r == Ok::<(), StoreError>(()),
            Err(e) => r matches Err(StoreError::Schema(message)) && is_text_of(message, &e),
        },
        r matches Err(error) ==> error.is_engine_text(),
{
    match answer {
        Ok(_) => Ok(()),
        Err(e) => {
            let error = StoreError::Schema(e.to_string());
            assert(is_text_of(error.carried(), &e));
            Err(error)
        },
    }
}

/// The page that the store returns for the engine's two answers: the
/// `total` that it counted and the notes that it `fetched`, in its order; or
/// the engine's failure to fetch them as a [`StoreError::Database`].
pub fn page_reply(total: i64, fetched: Result<Vec<Note>, rusqlite::Error>) -> (r: Result<
    PaginatedNotes,
    StoreError,
>)
    ensures
        match fetched {
            Ok(notes) => r matches Ok(p) && p.notes == notes && p.total == total,
            Err(e) => r matches Err(StoreError::Database(message)) && is_text_of(message, &e),
        },
        r matches Err(error) ==> error.is_engine_text(),
{
    match fetched {
        Ok(notes) => Ok(PaginatedNotes { notes, total }),
        Err(e) => Err(database_error(&e)),
    }
}

/// What comes next in a transaction, once the engine has answered a request
/// of it.
#[derive(Debug)]
pub enum Step {
    /// The first request was accepted: the second one goes out.
    Proceed,
    /// The second request was accepted: the transaction is committed.
    Commit,
    /// The request was refused: the transaction is rolled back and the
    /// change fails with this error.
    RollBack(StoreError),
}

/// Decides what follows the engine's `answer` to a request of a
/// transaction; `first` tells whether it was the first of the two.
pub fn next_step(first: bool, answer: Result<usize, rusqlite::Error>) -> (step: Step)
    ensures
        match answer {
            Ok(_) => step == (if first {
                Step::Proceed
            } else {
                Step::Commit
            }),
            Err(e) => step matches Step::RollBack(StoreError::Database(message)) && is_text_of(
                message,
                &e,
            ),
        },
        step matches Step::RollBack(error) ==> error.is_engine_text(),
{
    match answer {
        Ok(_) => if first {
            Step::Proceed
        } else {
            Step::Commit
        },
        Err(e) => Step::RollBack(database_error(&e)),
    }
}

/// An open store.
pub struct Store {
    conn: rusqlite::Connection,
    journal: Ghost<Seq<Event>>,
}

impl Store {
    /// What this store has handed to the engine since it was opened, with
    /// the engine's answers.
    pub closed spec fn journal(&self) -> Seq<Event> {
        self.journal@
    }

    /// Opens the database file at `path`, creating it where there is none.
    /// On failure it gives the engine's message.
    pub(crate) fn connect(path: &std::path::Path) -> (r: Result<Store, String>)
        ensures
            match r {
                Ok(store) => store.journal() == Seq::<Event>::empty(),
                Err(message) => is_engine_message(message),
            },
    {
        match open_connection(path) {
            Ok(conn) => Ok(Store { conn, journal: Ghost(Seq::empty()) }),
            Err(e) => {
                let message = e.to_string();
                assert(is_text_of(message, &e));
                Err(message)
            },
        }
    }

    /// Opens the store at `path`. A file that cannot be opened is a
    /// [`StoreError::Database`] with the engine's message.
    pub fn open(path: &std::path::Path) -> (r: Result<Store, StoreError>)
        ensures
            match r {
                Ok(store) => store.journal() == Seq::<Event>::empty(),
                Err(e) => e is Database && e.is_engine_text(),
            },
    {
        match Store::connect(path) {
            Ok(store) => Ok(store),
            Err(message) => {
                let error = StoreError::Database(message);
                assert(error.carried() == message);
                Err(error)
            },
        }
    }

    /// Opens the store at `path` to set it up. A file that cannot be opened
    /// or created is a [`StoreError::Io`] with the engine's message.
    pub fn create(path: &std::path::Path) -> (r: Result<Store, StoreError>)
        ensures
            match r {
                Ok(store) => store.journal() == Seq::<Event>::empty(),
                Err(e) => e is Io && e.is_engine_text(),
            },
    {
        match Store::connect(path) {
            Ok(store) => Ok(store),
            Err(message) => {
                let error = StoreError::Io(message);
                assert(error.carried() == message);
                Err(error)
            },
        }
    }

    /// Creates the table of notes and the text index where they are missing:
    /// two requests, each run on its own, the second only after the engine
    /// accepted the first. It succeeds exactly when the engine accepted
    /// both.
    pub fn create_schema(&mut self) -> (r: Result<(), StoreError>)
        ensures
            old(self).journal().is_prefix_of(final(self).journal()),
            is_setup_trace(added(old(self).journal(), final(self).journal()), r is Ok),
            r matches Err(e) ==> e is Schema && e.is_engine_text(),
            journal_wf(old(self).journal()) ==> journal_wf(final(self).journal()),
    {
        let ghost before = self.journal@;
        let notes = create_notes_request();
        let first = run(&self.conn, &notes, &mut self.journal);
        match schema_reply(first) {
            Ok(()) => {},
            Err(e) => {
                proof {
                    let trace = seq![Event::Change { request: notes@, accepted: false }];
                    assert(self.journal@ =~= before + trace);
                    lemma_append_keeps_wf(before, trace);
                }
                return Err(e);
            },
        }
        let index = create_index_request();
        let second = run(&self.conn, &index, &mut self.journal);
        proof {
            let trace = seq![
                Event::Change { request: notes@, accepted: true },
                Event::Change { request: index@, accepted: second is Ok },
            ];
            assert(self.journal@ =~= before + trace);
            lemma_append_keeps_wf(before, trace);
        }
        schema_reply(second)
    }

    /// Applies one change inside one transaction. The second request goes
    /// out only after the engine accepted the first, and the transaction is
    /// committed only after it accepted both; a refused request is followed
    /// by a rollback. The change succeeds exactly when the engine began the
    /// transaction, accepted both requests and accepted the commit.
    ///
    /// A new note goes to the table first, which assigns its key. An update
    /// or a delete goes to the index first: the index holds no text of its
    /// own, and to take the entries of a row out the engine reads the row's
    /// text from the table, which must still hold the old text.
    pub fn apply_write(&mut self, m: &Mutation) -> (r: Result<(), StoreError>)
        ensures
            old(self).journal().is_prefix_of(final(self).journal()),
            is_write_trace(added(old(self).journal(), final(self).journal()), m@, r is Ok),
            r matches Err(e) ==> e is Database && e.is_engine_text(),
            journal_wf(old(self).journal()) ==> journal_wf(final(self).journal()),
    {
        let ghost before = self.journal@;
        let tx = match begin(&mut self.conn, &mut self.journal) {
            Ok(tx) => tx,
            Err(e) => {
                proof {
                    assert(self.journal@ =~= before + not_begun());
                    lemma_write_trace_is_wf(not_begun(), m@, false);
                    lemma_append_keeps_wf(before, not_begun());
                }
                return Err(database_error(&e));
            },
        };
        let first = first_request(m);
        let answer = run(session(&tx), &first, &mut self.journal);
        match next_step(true, answer) {
            Step::RollBack(failure) => {
                roll_back(tx, &mut self.journal);
                proof {
                    assert(self.journal@ =~= before + refused_first(m@));
                    lemma_write_trace_is_wf(refused_first(m@), m@, false);
                    lemma_append_keeps_wf(before, refused_first(m@));
                }
                return Err(failure);
            },
            _ => {},
        }
        let assigned = match m {
            Mutation::Insert { .. } => assigned_key(session(&tx), &mut self.journal),
            Mutation::Update { id, .. } => *id,
            Mutation::Delete { id } => *id,
        };
        let second = second_request(m, assigned);
        let answer = run(session(&tx), &second, &mut self.journal);
        match next_step(false, answer) {
            Step::RollBack(failure) => {
                roll_back(tx, &mut self.journal);
                proof {
                    let trace = refused_second(m@, assigned as int);
                    assert(self.journal@ =~= before + trace);
                    lemma_write_trace_is_wf(trace, m@, false);
                    lemma_append_keeps_wf(before, trace);
                }
                return Err(failure);
            },
            _ => {},
        }
        let outcome = commit(tx, &mut self.journal);
        proof {
            let trace = both_accepted(m@, assigned as int, outcome is Ok);
            assert(self.journal@ =~= before + trace);
            lemma_write_trace_is_wf(trace, m@, outcome is Ok);
            lemma_append_keeps_wf(before, trace);
        }
        reply(outcome)
    }

    /// Saves a note: with a key the stored note of that key gets the new
    /// title, content and tags; without one a new note is added. Absent tags
    /// are written as the empty text.
    pub fn save(&mut self, note: NewNote) -> (r: Result<(), StoreError>)
        ensures
            old(self).journal().is_prefix_of(final(self).journal()),
            is_write_trace(
                added(old(self).journal(), final(self).journal()),
                save_of(note@),
                r is Ok,
            ),
            r matches Err(e) ==> e is Database && e.is_engine_text(),
            journal_wf(old(self).journal()) ==> journal_wf(final(self).journal()),
    {
        let m = Mutation::save(note);
        self.apply_write(&m)
    }

    /// Deletes the note with key `id`. No look-up comes first: the two
    /// requests go out whether such a note exists or not.
    pub fn delete(&mut self, id: i64) -> (r: Result<(), StoreError>)
        ensures
            old(self).journal().is_prefix_of(final(self).journal()),
            is_write_trace(
                added(old(self).journal(), final(self).journal()),
                MutationView::Delete { id: id as int },
                r is Ok,
            ),
            r matches Err(e) ==> e is Database && e.is_engine_text(),
            journal_wf(old(self).journal()) ==> journal_wf(final(self).journal()),
    {
        let m = Mutation::delete(id);
        self.apply_write(&m)
    }

    /// Reads one page of notes, newest first, and counts all notes: first
    /// the count, then, after the engine answered it, the page. Pages count
    /// from one. It succeeds exactly when the engine answered both, and then
    /// returns the number that the engine counted and the notes that it
    /// gave, in its order.
    pub fn list_page(&mut self, page: i64, page_size: i64) -> (r: Result<PaginatedNotes, StoreError>)
        ensures
            old(self).journal().is_prefix_of(final(self).journal()),
            is_page_trace(
                added(old(self).journal(), final(self).journal()),
                page as int,
                page_size as int,
                r,
            ),
            r matches Err(e) ==> e is Database && e.is_engine_text(),
            journal_wf(old(self).journal()) ==> journal_wf(final(self).journal()),
    {
        let ghost before = self.journal@;
        let tally = count_request();
        let counted = count(&self.conn, &tally, &mut self.journal);
        let total = match reply(counted) {
            Ok(total) => total,
            Err(e) => {
                proof {
                    let trace = seq![Event::Query { request: tally@, answer: Answer::Refused }];
                    assert(self.journal@ =~= before + trace);
                    lemma_append_keeps_wf(before, trace);
                }
                return Err(e);
            },
        };
        let window = page_request(page, page_size);
        let fetched = fetch(&self.conn, &window, &mut self.journal);
        proof {
            let trace = page_events(
                page as int,
                page_size as int,
                total as int,
                rows_answer(fetched),
            );
            assert(self.journal@ =~= before + trace);
            lemma_append_keeps_wf(before, trace);
        }
        page_reply(total, fetched)
    }

    /// Searches the notes for `query`. A blank query gives no notes and
    /// nothing is handed to the engine. Any other query goes out as one
    /// request; the search succeeds exactly when the engine answered it, and
    /// then returns the notes that the engine gave, in its order.
    pub fn search(&mut self, query: &str) -> (r: Result<Vec<Note>, StoreError>)
        ensures
            is_blank(query@) ==> {
                &&& r matches Ok(notes)
                &&& notes@.len() == 0
                &&& final(self).journal() == old(self).journal()
            },
            !is_blank(query@) ==> final(self).journal() == old(self).journal().push(
                Event::Query { request: search_view(query@), answer: rows_answer(r) },
            ),
            r matches Err(e) ==> e is Database && e.is_engine_text(),
            journal_wf(old(self).journal()) ==> journal_wf(final(self).journal()),
    {
        if query_is_blank(query) {
            return Ok(Vec::new());
        }
        let ghost before = self.journal@;
        let request = search_request(query);
        let fetched = fetch(&self.conn, &request, &mut self.journal);
        proof {
            let trace = seq![Event::Query { request: request@, answer: rows_answer(fetched) }];
            assert(self.journal@ =~= before + trace);
            lemma_append_keeps_wf(before, trace);
        }
        reply(fetched)
    }
}

} // verus!
