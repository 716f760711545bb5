//! What the engine asks of the store, and what it makes of the answers.
//!
//! The store is written row by row. A row that the store refuses does not
//! stop the rows after it: every refusal is kept, with the place and the
//! path of its row, and reported at the end.

use vstd::prelude::*;
use crate::queue::{label_of, Queue, BackgroundIterable};
use crate::row_types::{paths_from_rows, row_paths, LastQueueNameSetting, QueuePathOnly};
use crate::text::paths_of;

verus! {

/// The rows that the store refused: for each, its place in the playlist,
/// its path and the store's failure, in the order of the playlist.
#[derive(Debug)]
pub struct WriteQueueError<E>(Vec<(usize, String, E)>);

/// The refusals among the first `n` outcomes of writing `paths` row by row.
pub open spec fn failures_upto<E>(
    paths: Seq<Seq<char>>,
    outcomes: Seq<Result<(), E>>,
    n: int,
) -> Seq<(int, Seq<char>, E)>
    decreases n,
{
    if n <= 0 {
        Seq::empty()
    } else {
        let earlier = failures_upto(paths, outcomes, n - 1);
        match outcomes[n - 1] {
            Err(e) => earlier.push((n - 1, paths[n - 1], e)),
            Ok(_) => earlier,
        }
    }
}

/// The refusals among the outcomes of writing `paths` row by row.
pub open spec fn failures<E>(paths: Seq<Seq<char>>, outcomes: Seq<Result<(), E>>) -> Seq<
    (int, Seq<char>, E),
> {
    failures_upto(paths, outcomes, paths.len() as int)
}

/// What a list of refusals holds, as contracts see it.
pub open spec fn refusals_of<E>(entries: Seq<(usize, String, E)>) -> Seq<(int, Seq<char>, E)> {
    Seq::new(entries.len(), |i: int| (entries[i].0 as int, entries[i].1@, entries[i].2))
}

impl<E> WriteQueueError<E> {
    /// The refusals, in the order of the playlist.
    pub closed spec fn refusals(&self) -> Seq<(int, Seq<char>, E)> {
        refusals_of(self.0@)
    }

    /// A report of the given refusals.
    pub fn from(value: Vec<(usize, String, E)>) -> (r: WriteQueueError<E>)
        ensures
            r.refusals() == refusals_of(value@),
    {
        WriteQueueError(value)
    }

    /// The refusals, in the order of the playlist.
    pub fn as_vec(&self) -> (r: &Vec<(usize, String, E)>)
        ensures
            refusals_of(r@) == self.refusals(),
    {
        &self.0
    }

    /// What the report says when it is shown.
    pub fn to_string(&self) -> (r: String)
        ensures
            r@ == "WriteQueueError"@,
    {
        "WriteQueueError".to_owned()
    }
}

/// The rows to write for a playlist: each path with its place as its
/// playing order.
pub fn queue_rows(queue: &Vec<String>) -> (rows: Vec<(String, usize)>)
    ensures
        rows.len() == queue.len(),
        forall|i: int|
            0 <= i < rows.len() ==> (#[trigger] rows[i]).0@ == queue[i]@ && rows[i].1 == i,
{
    let mut rows: Vec<(String, usize)> = Vec::new();
    let mut i: usize = 0;
    while i < queue.len()
        invariant
            i <= queue.len(),
            rows.len() == i,
            forall|j: int|
                0 <= j < i ==> (#[trigger] rows[j]).0@ == queue[j]@ && rows[j].1 == j,
        decreases queue.len() - i,
    {
        rows.push((queue[i].clone(), i));
        i += 1;
    }
    rows
}

/// The rows to write for a variant: each path with its place as its
/// playing order and with the mark of the variant, set for the day.
pub fn insert_or_replace(v: &Vec<String>, daytime: bool) -> (rows: Vec<(String, usize, bool)>)
    ensures
        rows.len() == v.len(),
        forall|i: int|
            0 <= i < rows.len() ==> (#[trigger] rows[i]).0@ == v[i]@ && rows[i].1 == i
                && rows[i].2 == daytime,
{
    let mut rows: Vec<(String, usize, bool)> = Vec::new();
    let mut i: usize = 0;
    while i < v.len()
        invariant
            i <= v.len(),
            rows.len() == i,
            forall|j: int|
                0 <= j < i ==> (#[trigger] rows[j]).0@ == v[j]@ && rows[j].1 == j && rows[j].2
                    == daytime,
        decreases v.len() - i,
    {
        rows.push((v[i].clone(), i, daytime));
        i += 1;
    }
    rows
}

/// The report of writing a playlist row by row, given the outcome of each
/// row in order: success when the store took every row, else the refusals.
pub fn write_queue<E>(queue: &Vec<String>, outcomes: Vec<Result<(), E>>) -> (r: Result<
    (),
    WriteQueueError<E>,
>)
    requires
        outcomes.len() == queue.len(),
    ensures
        match r {
            Ok(_) => failures(paths_of(queue@), outcomes@).len() == 0,
            Err(report) => report.refusals() == failures(paths_of(queue@), outcomes@)
                && report.refusals().len() > 0,
        },
{
    let ghost paths = paths_of(queue@);
    let ghost all = outcomes@;
    let mut errors: Vec<(usize, String, E)> = Vec::new();
    let mut play_order: usize = 0;
    for outcome in it: outcomes
        invariant
            it.seq() == all,
            all.len() == queue.len(),
            paths == paths_of(queue@),
            play_order == it.index(),
            refusals_of(errors@) == failures_upto(paths, all, play_order as int),
    {
        let ghost before = errors@;
        match outcome {
            Err(err) => {
                errors.push((play_order, queue[play_order].clone(), err));
                assert(refusals_of(errors@) =~= refusals_of(before).push(
                    (play_order as int, paths[play_order as int], err),
                ));
            },
            Ok(_) => {},
        }
        play_order += 1;
    }
    if errors.is_empty() {
        Ok(())
    } else {
        Err(WriteQueueError(errors))
    }
}

/// When the store refused one row and took every other, the report holds
/// that refusal alone, with the place and the path of its row.
pub proof fn one_refusal_is_reported_alone<E>(
    paths: Seq<Seq<char>>,
    outcomes: Seq<Result<(), E>>,
    k: int,
)
    requires
        outcomes.len() == paths.len(),
        0 <= k < paths.len(),
        outcomes[k] is Err,
        forall|i: int| 0 <= i < outcomes.len() && i != k ==> #[trigger] outcomes[i] is Ok,
    ensures
        failures(paths, outcomes) == seq![(k, paths[k], outcomes[k]->Err_0)],
{
    lemma_one_refusal_upto(paths, outcomes, k, paths.len() as int);
}

/// The refusals among the first `n` outcomes when only row `k` was refused.
proof fn lemma_one_refusal_upto<E>(
    paths: Seq<Seq<char>>,
    outcomes: Seq<Result<(), E>>,
    k: int,
    n: int,
)
    requires
        outcomes.len() == paths.len(),
        0 <= k < paths.len(),
        0 <= n <= paths.len(),
        outcomes[k] is Err,
        forall|i: int| 0 <= i < outcomes.len() && i != k ==> #[trigger] outcomes[i] is Ok,
    ensures
        failures_upto(paths, outcomes, n) == if n <= k {
            Seq::<(int, Seq<char>, E)>::empty()
        } else {
            seq![(k, paths[k], outcomes[k]->Err_0)]
        },
    decreases n,
{
    if n > 0 {
        lemma_one_refusal_upto(paths, outcomes, k, n - 1);
        if n - 1 == k {
            assert(Seq::<(int, Seq<char>, E)>::empty().push((k, paths[k], outcomes[k]->Err_0))
                =~= seq![(k, paths[k], outcomes[k]->Err_0)]);
        } else {
            assert(outcomes[n - 1] is Ok);
        }
    }
}

/// The label to store for a playlist: its own, or `NULL` when it has none.
pub open spec fn stored_label_of(label: Option<Seq<char>>) -> Seq<char> {
    match label {
        Some(word) => word,
        None => "NULL"@,
    }
}

/// The label to store for a playlist: its own, or `NULL` when it has none.
pub fn stored_label(q: &Queue) -> (r: String)
    ensures
        r@ == stored_label_of(q.label()),
{
    match q.name() {
        Some(word) => word.clone(),
        None => "NULL".to_owned(),
    }
}

/// The rows to insert once the label was stored and the old rows were
/// asked to go: those of the playlist when the old rows are gone, none at
/// all when clearing failed, for then nothing may be inserted.
pub fn replace_rows<R, E>(q: &Queue, cleared: &Result<R, E>) -> (r: Option<Vec<(String, usize)>>)
    ensures
        match r {
            Some(rows) => cleared is Ok && rows.len() == q.paths().len() && forall|i: int|
                0 <= i < rows.len() ==> (#[trigger] rows[i]).0@ == q.paths()[i] && rows[i].1 == i,
            None => cleared is Err,
        },
{
    match cleared {
        Ok(_) => {
            let paths = q.as_vec();
            let rows = queue_rows(paths);
            assert forall|i: int| 0 <= i < rows.len() implies (#[trigger] rows[i]).0@
                == q.paths()[i] && rows[i].1 == i by {
                assert(paths_of(paths@)[i] == paths@[i]@);
            }
            Some(rows)
        },
        Err(_) => None,
    }
}

/// The report of putting a playlist in place of the stored one: the
/// outcome of storing the label, the outcome of clearing the old rows, and
/// the report of the inserts, which is missing when clearing failed.
pub fn replace_with<R, E>(
    q: &Queue,
    name: Result<R, E>,
    cleared: Result<R, E>,
    outcomes: Option<Vec<Result<(), E>>>,
) -> (r: (Result<R, E>, Result<R, E>, Option<Result<(), WriteQueueError<E>>>))
    requires
        cleared is Ok ==> (outcomes matches Some(rows) && rows.len() == q.paths().len()),
    ensures
        r.0 == name,
        r.1 == cleared,
        match r.2 {
            None => cleared is Err,
            Some(Ok(_)) => cleared is Ok && failures(q.paths(), outcomes->Some_0@).len() == 0,
            Some(Err(report)) => cleared is Ok && report.refusals() == failures(
                q.paths(),
                outcomes->Some_0@,
            ) && report.refusals().len() > 0,
        },
{
    if cleared.is_err() {
        return (name, cleared, None);
    }
    match outcomes {
        Some(rows) => {
            let report = write_queue(q.as_vec(), rows);
            (name, cleared, Some(report))
        },
        None => (name, cleared, None),
    }
}

/// The playlist that was live last, out of what the store gave for its
/// label and for its rows; the failure of the label goes first.
pub fn read_state<E>(
    name: Result<LastQueueNameSetting, E>,
    queue: Result<Vec<QueuePathOnly>, E>,
) -> (r: Result<Queue, E>)
    ensures
        match (name, queue) {
            (Ok(setting), Ok(rows)) => r matches Ok(q) && q.label() == label_of(setting.string)
                && q.paths() == row_paths(rows@),
            (Err(e), _) => r matches Err(cause) && cause == e,
            (Ok(_), Err(e)) => r matches Err(cause) && cause == e,
        },
{
    match name {
        Ok(setting) => match queue {
            Ok(rows) => Ok(Queue::with_name(setting.string, paths_from_rows(rows))),
            Err(e) => Err(e),
        },
        Err(e) => Err(e),
    }
}

} // verus!
