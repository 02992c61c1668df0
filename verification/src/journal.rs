//! The journal of a store: what the store has handed to the storage engine,
//! in order, each with the engine's answer. It is ghost state. It says which
//! requests went out and what the engine answered; what the database holds
//! afterwards it does not say.

use vstd::prelude::*;
use crate::note::note_views;
use crate::note::Note;
use crate::note::NoteView;
use crate::note::PaginatedNotes;
use crate::request::count_view;
use crate::request::first_view;
use crate::request::index_view;
use crate::request::page_view;
use crate::request::primary_view;
use crate::request::schema_views;
use crate::request::second_view;
use crate::request::MutationView;
use crate::request::ParamsView;
use crate::request::RequestView;
use crate::text::decimal_text;

verus! {

/// What the engine gave for a query.
pub ghost enum Answer {
    /// The engine refused the query, or failed while it read the rows.
    Refused,
    /// The rows that the engine gave, in its order, each read as a note.
    Rows(Seq<NoteView>),
    /// The number that the engine gave.
    Number(int),
}

/// One thing handed to the engine, with the engine's answer. `accepted`
/// tells whether the engine answered with success.
pub ghost enum Event {
    /// A transaction was asked for.
    Begin { accepted: bool },
    /// A request that changes the database.
    Change { request: RequestView, accepted: bool },
    /// The engine was asked for the key that it assigned to the row just
    /// inserted, and gave `key`.
    Key { key: int },
    /// A request that reads from the database.
    Query { request: RequestView, answer: Answer },
    /// The open transaction was to be committed. A transaction whose commit
    /// the engine refuses is rolled back.
    Commit { accepted: bool },
    /// The open transaction was rolled back.
    RollBack,
}

/// The answer to a query for notes that ended as `r`.
pub open spec fn rows_answer<E>(r: Result<Vec<Note>, E>) -> Answer {
    match r {
        Ok(notes) => Answer::Rows(note_views(notes@)),
        Err(_) => Answer::Refused,
    }
}

/// The answer to a query for a number that ended as `r`.
pub open spec fn number_answer<E>(r: Result<i64, E>) -> Answer {
    match r {
        Ok(n) => Answer::Number(n as int),
        Err(_) => Answer::Refused,
    }
}

/// The events that `after` holds beyond `before`.
pub open spec fn added(before: Seq<Event>, after: Seq<Event>) -> Seq<Event> {
    after.skip(before.len() as int)
}

/// A change whose transaction the engine did not begin.
pub open spec fn not_begun() -> Seq<Event> {
    seq![Event::Begin { accepted: false }]
}

/// A change whose first request the engine refused: it is rolled back and
/// the second request never goes out.
pub open spec fn refused_first(m: MutationView) -> Seq<Event> {
    seq![
        Event::Begin { accepted: true },
        Event::Change { request: first_view(m), accepted: false },
        Event::RollBack,
    ]
}

/// What lies between the two requests of a change: for a new note the
/// engine is asked for the key that it assigned, for any other change
/// nothing.
pub open spec fn key_read(m: MutationView, assigned: int) -> Seq<Event> {
    if m is Insert {
        seq![Event::Key { key: assigned }]
    } else {
        Seq::empty()
    }
}

/// A transaction in which the engine answered the second request of a
/// change with `accepted`, after it had accepted the first. The second
/// request of a new note binds the key that the engine gave.
pub open spec fn pair_events(m: MutationView, assigned: int, accepted: bool) -> Seq<Event> {
    seq![
        Event::Begin { accepted: true },
        Event::Change { request: first_view(m), accepted: true },
    ] + key_read(m, assigned) + seq![
        Event::Change { request: second_view(m, assigned), accepted },
    ]
}

/// A change whose second request the engine refused: it is rolled back.
pub open spec fn refused_second(m: MutationView, assigned: int) -> Seq<Event> {
    pair_events(m, assigned, false).push(Event::RollBack)
}

/// A change of which the engine accepted both requests: the commit follows,
/// and `accepted` is the engine's answer to it.
pub open spec fn both_accepted(m: MutationView, assigned: int, accepted: bool) -> Seq<Event> {
    pair_events(m, assigned, true).push(Event::Commit { accepted })
}

/// Whether `trace` is what applying the change `m` hands to the engine when
/// it ends `done` or not. It is done exactly when the engine began the
/// transaction, accepted both requests and accepted the commit. The second
/// request goes out only after the first was accepted, the commit only
/// after both were, and a refused request is followed by a rollback.
pub open spec fn is_write_trace(trace: Seq<Event>, m: MutationView, done: bool) -> bool {
    ||| !done && trace == not_begun()
    ||| !done && trace == refused_first(m)
    ||| !done && exists|assigned: int| trace == #[trigger] refused_second(m, assigned)
    ||| exists|assigned: int| trace == #[trigger] both_accepted(m, assigned, done)
}

/// Whether `trace` is what setting the store up hands to the engine when it
/// ends `done` or not: the request for the table of notes, and after it was
/// accepted the one for the text index. It is done exactly when both were
/// accepted.
pub open spec fn is_setup_trace(trace: Seq<Event>, done: bool) -> bool {
    ||| !done && trace == seq![Event::Change { request: schema_views()[0], accepted: false }]
    ||| trace == seq![
        Event::Change { request: schema_views()[0], accepted: true },
        Event::Change { request: schema_views()[1], accepted: done },
    ]
}

/// A reading of a page in which the engine counted `total` notes and then
/// answered the query for the page with `answer`.
pub open spec fn page_events(page: int, page_size: int, total: int, answer: Answer) -> Seq<Event> {
    seq![
        Event::Query { request: count_view(), answer: Answer::Number(total) },
        Event::Query { request: page_view(page, page_size), answer },
    ]
}

/// Whether `trace` is what reading a page hands to the engine when the
/// reading ends as `r`: the count, and after the engine answered it the
/// query for the page. The reading succeeds exactly when the engine
/// answered both, and then the total is the number that the engine counted
/// and the notes are the rows that it gave, in its order.
pub open spec fn is_page_trace<E>(
    trace: Seq<Event>,
    page: int,
    page_size: int,
    r: Result<PaginatedNotes, E>,
) -> bool {
    match r {
        Ok(p) => trace == page_events(
            page,
            page_size,
            p.total as int,
            Answer::Rows(note_views(p.notes@)),
        ),
        Err(_) => {
            ||| trace == seq![Event::Query { request: count_view(), answer: Answer::Refused }]
            ||| exists|total: int|
                trace == #[trigger] page_events(page, page_size, total, Answer::Refused)
        },
    }
}

/// Whether the events right before position `k` are a transaction that
/// began and the two requests of one change, both accepted, the second one
/// of a new note under the key that the engine gave.
pub open spec fn follows_accepted_pair(journal: Seq<Event>, k: int) -> bool {
    exists|m: MutationView, assigned: int|
        {
            &&& (#[trigger] pair_events(m, assigned, true)).len() <= k <= journal.len()
            &&& journal.subrange(k - pair_events(m, assigned, true).len(), k) == pair_events(
                m,
                assigned,
                true,
            )
        }
}

/// The invariant of a journal: the table of notes and the text index change
/// together. A commit is asked for only right after the engine has accepted,
/// in one transaction, both requests of one change.
pub open spec fn journal_wf(journal: Seq<Event>) -> bool {
    forall|k: int|
        0 <= k < journal.len() && #[trigger] journal[k] is Commit ==> follows_accepted_pair(
            journal,
            k,
        )
}

/// A well-formed journal stays well-formed when events are added in which
/// every commit follows an accepted pair.
pub proof fn lemma_append_keeps_wf(journal: Seq<Event>, trace: Seq<Event>)
    requires
        journal_wf(trace),
    ensures
        journal_wf(journal) ==> journal_wf(journal + trace),
        added(journal, journal + trace) == trace,
        journal.is_prefix_of(journal + trace),
{
    let whole = journal + trace;
    assert(added(journal, whole) =~= trace);
    if journal_wf(journal) {
        assert forall|k: int| 0 <= k < whole.len() && #[trigger] whole[k] is Commit implies
            follows_accepted_pair(whole, k) by {
            if k < journal.len() {
                assert(journal[k] is Commit);
                assert(follows_accepted_pair(journal, k));
                let (m, assigned) = choose|m: MutationView, assigned: int|
                    {
                        &&& (#[trigger] pair_events(m, assigned, true)).len() <= k <= journal.len()
                        &&& journal.subrange(k - pair_events(m, assigned, true).len(), k)
                            == pair_events(m, assigned, true)
                    };
                let pair = pair_events(m, assigned, true);
                assert(whole.subrange(k - pair.len(), k) =~= journal.subrange(k - pair.len(), k));
            } else {
                let j = k - journal.len();
                assert(trace[j] is Commit);
                assert(follows_accepted_pair(trace, j));
                let (m, assigned) = choose|m: MutationView, assigned: int|
                    {
                        &&& (#[trigger] pair_events(m, assigned, true)).len() <= j <= trace.len()
                        &&& trace.subrange(j - pair_events(m, assigned, true).len(), j)
                            == pair_events(m, assigned, true)
                    };
                let pair = pair_events(m, assigned, true);
                assert(whole.subrange(k - pair.len(), k) =~= trace.subrange(j - pair.len(), j));
            }
        }
    }
}

/// What applying a change hands to the engine is well-formed by itself.
pub proof fn lemma_write_trace_is_wf(trace: Seq<Event>, m: MutationView, done: bool)
    requires
        is_write_trace(trace, m, done),
    ensures
        journal_wf(trace),
{
    assert forall|k: int| 0 <= k < trace.len() && #[trigger] trace[k] is Commit implies
        follows_accepted_pair(trace, k) by {
        if trace == not_begun() || trace == refused_first(m) {
        } else if exists|assigned: int| trace == #[trigger] refused_second(m, assigned) {
            let assigned = choose|assigned: int| trace == #[trigger] refused_second(m, assigned);
            let pair = pair_events(m, assigned, false);
            assert(forall|i: int| 0 <= i < pair.len() ==> !(pair[i] is Commit));
        } else {
            let assigned = choose|assigned: int|
                trace == #[trigger] both_accepted(m, assigned, done);
            let pair = pair_events(m, assigned, true);
            assert(forall|i: int| 0 <= i < pair.len() ==> !(pair[i] is Commit));
            assert(k == pair.len());
            assert(trace.subrange(0, k) =~= pair);
        }
    }
}

/// A commit is asked for only when both halves of a change went through:
/// wherever a well-formed journal holds a commit, whether the engine
/// accepted it or not, the events right before it are a transaction that
/// began and the two requests of one change, and the engine accepted both.
pub proof fn lemma_commit_follows_accepted_pair(journal: Seq<Event>, k: int)
    requires
        journal_wf(journal),
        0 <= k < journal.len(),
        journal[k] is Commit,
    ensures
        exists|m: MutationView, assigned: int|
            {
                &&& (#[trigger] pair_events(m, assigned, true)).len() <= k
                &&& journal.subrange(k - pair_events(m, assigned, true).len(), k) == pair_events(
                    m,
                    assigned,
                    true,
                )
            },
{
    assert(follows_accepted_pair(journal, k));
}

/// A change that did not end done has committed nothing: its trace holds no
/// commit that the engine accepted.
pub proof fn lemma_failed_write_commits_nothing(trace: Seq<Event>, m: MutationView, k: int)
    requires
        is_write_trace(trace, m, false),
        0 <= k < trace.len(),
    ensures
        trace[k] != (Event::Commit { accepted: true }),
{
    if trace == not_begun() || trace == refused_first(m) {
    } else if exists|assigned: int| trace == #[trigger] refused_second(m, assigned) {
        let assigned = choose|assigned: int| trace == #[trigger] refused_second(m, assigned);
        let pair = pair_events(m, assigned, false);
        assert(forall|i: int| 0 <= i < pair.len() ==> !(pair[i] is Commit));
    } else {
        let assigned = choose|assigned: int| trace == #[trigger] both_accepted(m, assigned, false);
        let pair = pair_events(m, assigned, true);
        assert(forall|i: int| 0 <= i < pair.len() ==> !(pair[i] is Commit));
    }
}

/// The index entry of a new note goes under the key that the engine gave
/// for the new row: in the transaction of an insert the engine is asked for
/// the key right after it accepted the request for the table, and the
/// request for the index binds the text of that very key, before the same
/// title, content and tags.
pub proof fn lemma_new_note_is_indexed_under_its_key(
    m: MutationView,
    assigned: int,
    accepted: bool,
)
    requires
        m is Insert,
    ensures
        pair_events(m, assigned, accepted).len() == 4,
        pair_events(m, assigned, accepted)[1] == (Event::Change {
            request: primary_view(m),
            accepted: true,
        }),
        pair_events(m, assigned, accepted)[2] == (Event::Key { key: assigned }),
        pair_events(m, assigned, accepted)[3] == (Event::Change {
            request: index_view(m, assigned),
            accepted,
        }),
        index_view(m, assigned).params == ParamsView::Text(
            seq![decimal_text(assigned), m->Insert_title, m->Insert_content, m->Insert_tags],
        ),
        primary_view(m).params == ParamsView::Text(
            seq![m->Insert_title, m->Insert_content, m->Insert_tags],
        ),
{
}

/// The two requests of an update or a delete mirror each other: they bind
/// the same values, with the key of the same row, and the one for the index
/// goes first.
pub proof fn lemma_index_mirrors_table(m: MutationView, assigned: int)
    requires
        !(m is Insert),
    ensures
        key_read(m, assigned) == Seq::<Event>::empty(),
        first_view(m).params == second_view(m, assigned).params,
        match m {
            MutationView::Insert { .. } => true,
            MutationView::Update { id, title, content, tags } => {
                &&& first_view(m) == index_view(m, id)
                &&& second_view(m, assigned) == primary_view(m)
                &&& primary_view(m).params == ParamsView::Text(
                    seq![title, content, tags, decimal_text(id)],
                )
            },
            MutationView::Delete { id } => {
                &&& first_view(m) == index_view(m, id)
                &&& second_view(m, assigned) == primary_view(m)
                &&& primary_view(m).params == ParamsView::Integers(seq![id])
            },
        },
{
}

} // verus!
