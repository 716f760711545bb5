//! The playlist engine: the live playlist, the position of the wallpaper on
//! show, and the operations that clients ask for.

use vstd::prelude::*;
use vstd::seq_lib::{to_multiset_insert, to_multiset_remove};
use crate::message::Position;
use crate::builder::WallpaperQueueBuilder;
use crate::day_night::{after_switch, DayNightQueue, Playlists};
use crate::queue::{daytime_of, is_variant_or_none, BackgroundIterable, Queue};
use crate::scheduler::Command;
use crate::text::{
    first_ending_with, first_exact, lemma_first_where, lemma_first_where_is, paths_of, Matcher,
};

verus! {

/// Why a request on the playlist was turned down.
#[derive(Clone, Copy, Debug, PartialEq, Eq, Structural)]
pub enum QueueError {
    /// No path of the playlist matches the wallpaper that was named.
    NotFound,
    /// The wallpaper already stands where it was asked to go.
    NoOp,
}

/// The live playlist and the position of the wallpaper on show.
pub struct WallpaperQueue {
    queue: Queue,
    current_index: usize,
}

/// The index that a position stands for in a playlist of `len` paths:
/// itself when it is in range, the last index when it is not.
pub open spec fn shown_index(len: nat, position: int) -> int {
    if 0 <= position < len {
        position
    } else {
        len - 1
    }
}

/// The index at which a wallpaper taken from `moved` lands, so that it
/// stands directly before or after the one found at `target`. Taking the
/// wallpaper out first shifts every later one down by one place.
pub open spec fn landing_index(moved: int, place: Position, target: int) -> int {
    match place {
        Position::Before => if target > moved {
            target - 1
        } else {
            target
        },
        Position::After => if target < moved {
            target + 1
        } else {
            target
        },
    }
}

/// What a rearrangement answers: the index that the wallpaper is taken
/// from and the index at which it lands, or the reason for refusing.
pub open spec fn rearrange_outcome(
    paths: Seq<Seq<char>>,
    bg: Seq<char>,
    place: Position,
    target_bg: Seq<char>,
) -> Result<(int, int), QueueError> {
    match (first_ending_with(paths, bg), first_ending_with(paths, target_bg)) {
        (Some(moved), Some(target)) => if moved == target || landing_index(moved, place, target)
            == moved {
            Err(QueueError::NoOp)
        } else {
            Ok((moved, landing_index(moved, place, target)))
        },
        _ => Err(QueueError::NotFound),
    }
}

/// The playlist after the path at `moved` was taken out and put back at `landing`.
pub open spec fn moved_paths(paths: Seq<Seq<char>>, moved: int, landing: int) -> Seq<Seq<char>> {
    paths.remove(moved).insert(landing, paths[moved])
}

/// Moving a path keeps every path: the one at index `k` is found again.
pub proof fn lemma_moved_keeps_paths(paths: Seq<Seq<char>>, moved: int, landing: int, k: int)
    requires
        0 <= moved < paths.len(),
        0 <= landing < paths.len(),
        0 <= k < paths.len(),
    ensures
        exists|j: int|
            0 <= j < paths.len() && #[trigger] moved_paths(paths, moved, landing)[j] == paths[k],
{
    let removed = paths.remove(moved);
    let after = moved_paths(paths, moved, landing);
    if k == moved {
        assert(after[landing] == paths[k]);
    } else {
        let in_removed = if k < moved {
            k
        } else {
            k - 1
        };
        assert(removed[in_removed] == paths[k]);
        let j = if in_removed < landing {
            in_removed
        } else {
            in_removed + 1
        };
        assert(after[j] == paths[k]);
    }
}

/// Moving a path creates and loses nothing: length and multiset stay.
pub proof fn lemma_moved_same_members(paths: Seq<Seq<char>>, moved: int, landing: int)
    requires
        0 <= moved < paths.len(),
        0 <= landing < paths.len(),
    ensures
        moved_paths(paths, moved, landing).len() == paths.len(),
        moved_paths(paths, moved, landing).to_multiset() == paths.to_multiset(),
{
    broadcast use vstd::multiset::group_multiset_axioms;

    to_multiset_remove(paths, moved);
    to_multiset_insert(paths.remove(moved), landing, paths[moved]);
    paths.to_multiset_ensures();
    assert(paths.to_multiset().count(paths[moved]) > 0);
    assert(paths.to_multiset().remove(paths[moved]).insert(paths[moved]) =~= paths.to_multiset());
}

impl WallpaperQueue {
    /// The paths of the live playlist, in rotation order.
    pub closed spec fn paths(&self) -> Seq<Seq<char>> {
        self.queue.paths()
    }

    /// The label of the live playlist.
    pub closed spec fn label(&self) -> Option<Seq<char>> {
        self.queue.label()
    }

    /// The position: the index of the wallpaper on show.
    pub closed spec fn position(&self) -> int {
        self.current_index as int
    }

    /// The position is an index that fits the machine, and so does the
    /// number of paths.
    pub proof fn lemma_position_and_length_fit(&self)
        ensures
            0 <= self.position() <= usize::MAX,
            self.paths().len() <= usize::MAX,
    {
        self.queue.lemma_length_fits();
    }

    /// The position resolves to a path whenever the playlist holds one.
    pub open spec fn wf(&self) -> bool {
        self.paths().len() > 0 ==> 0 <= self.position() < self.paths().len()
    }

    /// The path that the position stands for; the last path when the
    /// position is out of range.
    pub open spec fn shown_path(&self) -> Seq<char>
        recommends
            self.paths().len() > 0,
    {
        self.paths()[shown_index(self.paths().len(), self.position())]
    }

    /// A builder for the first playlist.
    pub fn builder() -> (r: WallpaperQueueBuilder)
        ensures
            r.initial_queue@.len() == 0,
    {
        WallpaperQueueBuilder::new()
    }

    /// An engine over `initial_queue`, unlabelled, with the position at the start.
    pub fn new(initial_queue: Vec<String>) -> (r: WallpaperQueue)
        ensures
            r.paths() == paths_of(initial_queue@),
            r.label() is None,
            r.position() == 0,
            r.wf(),
    {
        WallpaperQueue { queue: Queue::new(Some(initial_queue)), current_index: 0 }
    }

    /// A copy of the playlist, in rotation order.
    pub fn get_queue(&self) -> (r: Vec<String>)
        ensures
            paths_of(r@) == self.paths(),
    {
        self.queue.to_vec()
    }

    /// The position.
    pub fn current_index(&self) -> (r: usize)
        ensures
            r == self.position(),
    {
        self.current_index
    }

    /// Puts the position at `index`, whether or not the playlist reaches that far.
    pub fn set_current_index(&mut self, index: usize)
        ensures
            final(self).position() == index,
            final(self).paths() == old(self).paths(),
            final(self).label() == old(self).label(),
    {
        self.current_index = index;
    }

    /// The path at `index`, if the playlist reaches that far.
    pub fn get_by_index(&self, index: usize) -> (r: Option<&String>)
        ensures
            match r {
                Some(path) => index < self.paths().len() && path@ == self.paths()[index as int],
                None => index >= self.paths().len(),
            },
    {
        self.queue.get_by_index(index)
    }

    /// The number of paths in the playlist.
    pub fn len(&self) -> (r: usize)
        ensures
            r == self.paths().len(),
    {
        self.queue.len()
    }

    /// The index of the first path equal to `bg`.
    pub fn index_of(&self, bg: &str) -> (r: Option<usize>)
        ensures
            match r {
                Some(i) => first_exact(self.paths(), bg@) == Some(i as int),
                None => first_exact(self.paths(), bg@) is None,
            },
    {
        let wanted = bg.to_owned();
        let items = self.queue.as_vec();
        let ghost pred = Matcher::Exact(bg@);
        let mut i: usize = 0;
        while i < items.len()
            invariant
                i <= items.len(),
                paths_of(items@) == self.paths(),
                wanted@ == bg@,
                pred == Matcher::Exact(bg@),
                forall|j: int| 0 <= j < i ==> !pred.accepts(#[trigger] self.paths()[j]),
            decreases items.len() - i,
        {
            assert(self.paths()[i as int] == items@[i as int]@);
            if items[i] == wanted {
                proof {
                    lemma_first_where_is(self.paths(), pred, i as int);
                }
                return Some(i);
            }
            i += 1;
        }
        proof {
            lemma_first_where(self.paths(), pred);
        }
        None
    }

    /// Whether the live playlist can be switched for a variant: it can
    /// when its label is none, `DAY` or `NIGHT`.
    pub fn has_variant_label_or_none(&self) -> (r: bool)
        ensures
            r == is_variant_or_none(self.label()),
    {
        self.queue.has_variant_label_or_none()
    }

    /// The live playlist.
    pub fn queue(&self) -> (r: &Queue)
        ensures
            r.paths() == self.paths(),
            r.label() == self.label(),
    {
        &self.queue
    }

    /// Puts the variant that `spec` names, `DAY` or `NIGHT`, on show and
    /// what was on show back into its own variant; see
    /// `day_night::switch_active_queue_to`. The position stays as it is,
    /// also where the new playlist does not reach that far.
    pub fn switch_active_queue_to(&mut self, spec: &str, day_night: &mut DayNightQueue) -> (r:
        Option<(bool, Vec<String>)>)
        requires
            old(day_night).wf(),
            spec@ == "DAY"@ || spec@ == "NIGHT"@,
            is_variant_or_none(old(self).label()),
        ensures
            final(day_night).wf(),
            is_variant_or_none(final(self).label()),
            final(self).position() == old(self).position(),
            final(day_night)@.enabled == old(day_night)@.enabled,
            final(day_night)@.cron == old(day_night)@.cron,
            (Playlists {
                label: final(self).label(),
                live: final(self).paths(),
                day: final(day_night)@.day,
                night: final(day_night)@.night,
            }) == after_switch(
                Playlists {
                    label: old(self).label(),
                    live: old(self).paths(),
                    day: old(day_night)@.day,
                    night: old(day_night)@.night,
                },
                spec@,
            ),
            match r {
                Some((daytime, rows)) => daytime_of(old(self).label()) == Some(daytime)
                    && paths_of(rows@) == old(self).paths(),
                None => old(self).label() is None,
            },
    {
        day_night.switch_active_queue_to(spec, &mut self.queue)
    }

    /// Looks up the wallpaper whose path is exactly `bg` and answers with the
    /// command that makes the scheduler jump to it and count a full
    /// interval anew. The playlist and the position stay as they are until
    /// the scheduler obeys.
    pub fn switch_to_wallpaper(&self, bg: &str) -> (r: Result<Command, QueueError>)
        ensures
            r == match first_exact(self.paths(), bg@) {
                Some(i) => Ok::<Command, QueueError>(Command::Index(i as usize)),
                None => Err::<Command, QueueError>(QueueError::NotFound),
            },
    {
        match self.index_of(bg) {
            Some(bg_index) => Ok(Command::Index(bg_index)),
            None => Err(QueueError::NotFound),
        }
    }

    /// Moves the first wallpaper whose path ends with `bg` directly before
    /// or after the first one whose path ends with `target_bg`, and answers
    /// with the index it was taken from and the index it landed at.
    ///
    /// The position follows the path it stood for: afterwards it is the
    /// first index that holds that path. A refused request changes nothing.
    pub fn rearrange_wallpaper(
        &mut self,
        bg: &str,
        before_or_after: &Position,
        target_bg: &str,
    ) -> (r: Result<(usize, usize), QueueError>)
        ensures
            match rearrange_outcome(old(self).paths(), bg@, *before_or_after, target_bg@) {
                Ok((moved, landing)) => {
                    &&& 0 <= moved < old(self).paths().len() <= usize::MAX
                    &&& 0 <= landing < old(self).paths().len()
                    &&& r == Ok::<(usize, usize), QueueError>((moved as usize, landing as usize))
                    &&& final(self).paths() == moved_paths(old(self).paths(), moved, landing)
                    &&& first_exact(final(self).paths(), old(self).shown_path()) == Some(
                        final(self).position(),
                    )
                    &&& final(self).shown_path() == old(self).shown_path()
                    &&& final(self).wf()
                },
                Err(e) => {
                    &&& r == Err::<(usize, usize), QueueError>(e)
                    &&& final(self).paths() == old(self).paths()
                    &&& final(self).position() == old(self).position()
                },
            },
            final(self).label() == old(self).label(),
            final(self).paths().len() == old(self).paths().len(),
            final(self).paths().to_multiset() == old(self).paths().to_multiset(),
            0 <= final(self).position() <= usize::MAX,
    {
        let ghost before = self.paths();
        let len = self.queue.len();
        if len == 0 {
            proof {
                lemma_first_where(before, Matcher::EndsWith(bg@));
            }
            return Err(QueueError::NotFound);
        }
        let shown: usize = if self.current_index < len {
            self.current_index
        } else {
            len - 1
        };
        let anchor: String = self.queue.get_by_index(shown).unwrap().clone();
        let bg_index: usize = match self.queue.get_index_of_bg(bg) {
            Some(i) => i,
            None => {
                return Err(QueueError::NotFound);
            },
        };
        let found_target: usize = match self.queue.get_index_of_bg(target_bg) {
            Some(i) => i,
            None => {
                return Err(QueueError::NotFound);
            },
        };
        proof {
            lemma_first_where(before, Matcher::EndsWith(bg@));
            lemma_first_where(before, Matcher::EndsWith(target_bg@));
        }
        if bg_index == found_target {
            return Err(QueueError::NoOp);
        }
        let mut target_index: usize = found_target;
        match before_or_after {
            Position::Before => {
                if target_index > bg_index {
                    target_index -= 1;
                }
            },
            Position::After => {
                if target_index < bg_index {
                    target_index += 1;
                }
            },
        }
        if bg_index == target_index {
            return Err(QueueError::NoOp);
        }
        let item = self.queue.remove(bg_index);
        self.queue.insert(target_index, item);
        proof {
            lemma_moved_same_members(before, bg_index as int, target_index as int);
            lemma_moved_keeps_paths(before, bg_index as int, target_index as int, shown as int);
            lemma_first_where(self.paths(), Matcher::Exact(anchor@));
        }
        self.current_index = self.index_of(anchor.as_str()).unwrap();
        Ok((bg_index, target_index))
    }
}

/// A rearrangement that is made creates and loses no path, and the path
/// that the position stood for is found again in the new order, so that
/// the position can follow it.
pub proof fn rearrange_keeps_members_and_anchor(
    paths: Seq<Seq<char>>,
    position: int,
    bg: Seq<char>,
    place: Position,
    target_bg: Seq<char>,
)
    requires
        rearrange_outcome(paths, bg, place, target_bg) is Ok,
    ensures
        ({
            let (moved, landing) = rearrange_outcome(paths, bg, place, target_bg)->Ok_0;
            let after = moved_paths(paths, moved, landing);
            let anchor = paths[shown_index(paths.len(), position)];
            &&& after.len() == paths.len()
            &&& after.to_multiset() == paths.to_multiset()
            &&& first_exact(after, anchor) matches Some(i) && after[i] == anchor
        }),
{
    let (moved, landing) = rearrange_outcome(paths, bg, place, target_bg)->Ok_0;
    lemma_first_where(paths, Matcher::EndsWith(bg));
    lemma_first_where(paths, Matcher::EndsWith(target_bg));
    lemma_moved_same_members(paths, moved, landing);
    lemma_moved_keeps_paths(paths, moved, landing, shown_index(paths.len(), position));
    lemma_first_where(
        moved_paths(paths, moved, landing),
        Matcher::Exact(paths[shown_index(paths.len(), position)]),
    );
}

/// The indices that a rearrangement answers with are indices of the playlist.
pub proof fn rearranged_indices_in_range(
    paths: Seq<Seq<char>>,
    bg: Seq<char>,
    place: Position,
    target_bg: Seq<char>,
)
    ensures
        rearrange_outcome(paths, bg, place, target_bg) matches Ok((moved, landing)) ==> 0 <= moved
            < paths.len() && 0 <= landing < paths.len(),
{
    lemma_first_where(paths, Matcher::EndsWith(bg));
    lemma_first_where(paths, Matcher::EndsWith(target_bg));
}

/// Moving a wallpaper next to itself is refused as a no-op, whichever
/// side is asked for, as long as the playlist holds it.
pub proof fn rearrange_onto_itself_is_noop(paths: Seq<Seq<char>>, bg: Seq<char>, place: Position)
    requires
        first_ending_with(paths, bg) is Some,
    ensures
        rearrange_outcome(paths, bg, place, bg) == Err::<(int, int), QueueError>(QueueError::NoOp),
{
}

} // verus!
