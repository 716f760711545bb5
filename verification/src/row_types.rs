//! Rows as the store hands them out, and what the engine reads from them.

use vstd::prelude::*;
use crate::text::paths_of;

verus! {

/// One row of the stored playlist.
#[derive(Debug)]
pub struct Queue {
    pub path: String,
    pub play_order: u32,
}

/// One row of a stored playlist, read for its path alone.
#[derive(Debug)]
pub struct QueuePathOnly {
    pub path: String,
}

/// The stored setting that switches the day and night playlists on.
pub struct DayNightEnabled {
    pub enabled: Option<i64>,
}

/// The stored label of the playlist that was live last.
pub struct LastQueueNameSetting {
    pub string: Option<String>,
}

/// The path of each row, in order.
pub open spec fn row_paths(rows: Seq<QueuePathOnly>) -> Seq<Seq<char>> {
    Seq::new(rows.len(), |i: int| rows[i].path@)
}

/// The paths of rows that were read in playing order.
pub fn paths_from_rows(rows: Vec<QueuePathOnly>) -> (r: Vec<String>)
    ensures
        paths_of(r@) == row_paths(rows@),
{
    let mut out: Vec<String> = Vec::new();
    let mut i: usize = 0;
    while i < rows.len()
        invariant
            i <= rows.len(),
            out.len() == i,
            forall|j: int| 0 <= j < i ==> out@[j]@ == rows@[j].path@,
        decreases rows.len() - i,
    {
        out.push(rows[i].path.clone());
        i += 1;
    }
    assert(paths_of(out@) =~= row_paths(rows@));
    out
}

} // verus!
