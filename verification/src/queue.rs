//! The playlist: an ordered sequence of wallpaper paths with an optional label.

use vstd::prelude::*;
use crate::text::{
    clone_paths, ends_with, first_ending_with, lemma_first_where, lemma_first_where_is, paths_of,
    same_text, Matcher,
};

verus! {

/// The live playlist. Order is the rotation order; duplicates are allowed.
pub struct Queue {
    name: Option<String>,
    v: Vec<String>,
}

/// A playlist taken out of, or waiting to be put into, the live playlist.
pub struct SwapQueue {
    name: Option<String>,
    v: Vec<String>,
}

/// The characters of an optional label.
pub open spec fn label_of(name: Option<String>) -> Option<Seq<char>> {
    match name {
        Some(s) => Some(s@),
        None => None,
    }
}

/// Which of the two variants a label names: `Some(true)` for `DAY`,
/// `Some(false)` for `NIGHT`, `None` for no label.
pub open spec fn daytime_of(label: Option<Seq<char>>) -> Option<bool>
    recommends
        is_variant_or_none(label),
{
    match label {
        Some(word) => Some(word == "DAY"@),
        None => None,
    }
}

/// Whether a label is one that a playlist can be saved under: none, `DAY` or `NIGHT`.
pub open spec fn is_variant_or_none(label: Option<Seq<char>>) -> bool {
    match label {
        Some(word) => word == "DAY"@ || word == "NIGHT"@,
        None => true,
    }
}

/// Copies an optional label.
fn clone_label(name: &Option<String>) -> (r: Option<String>)
    ensures
        label_of(r) == label_of(*name),
{
    match name {
        Some(s) => Some(s.clone()),
        None => None,
    }
}

/// Read and edit access to a playlist by wallpaper name.
pub trait BackgroundIterable {
    /// The paths held, in rotation order.
    spec fn paths(&self) -> Seq<Seq<char>>;

    /// The index of the first path that ends with `bg`.
    fn get_index_of_bg(&self, bg: &str) -> (r: Option<usize>)
        ensures
            match r {
                Some(i) => first_ending_with(self.paths(), bg@) == Some(i as int),
                None => first_ending_with(self.paths(), bg@) is None,
            },
    ;

    /// The first path that ends with `bg`.
    fn get_bg(&self, bg: &str) -> (r: Option<&String>)
        ensures
            match r {
                Some(path) => first_ending_with(self.paths(), bg@) matches Some(i)
                    && path@ == self.paths()[i],
                None => first_ending_with(self.paths(), bg@) is None,
            },
    ;

    /// A copy of the paths.
    fn to_vec(&self) -> (r: Vec<String>)
        ensures
            paths_of(r@) == self.paths(),
    ;

    /// Takes the path at `index` out; the later paths move one place down.
    fn remove(&mut self, index: usize) -> (r: String)
        requires
            index < old(self).paths().len(),
        ensures
            r@ == old(self).paths()[index as int],
            final(self).paths() == old(self).paths().remove(index as int),
    ;

    /// Puts `item` at `index`; the paths from there on move one place up.
    fn insert(&mut self, index: usize, item: String)
        requires
            index <= old(self).paths().len(),
        ensures
            final(self).paths() == old(self).paths().insert(index as int, item@),
    ;

    /// The path at `index`, if there is one.
    fn get_by_index(&self, index: usize) -> (r: Option<&String>)
        ensures
            match r {
                Some(path) => index < self.paths().len() && path@ == self.paths()[index as int],
                None => index >= self.paths().len(),
            },
    ;
}

impl Queue {
    /// The label of the playlist, as characters.
    pub closed spec fn label(&self) -> Option<Seq<char>> {
        label_of(self.name)
    }

    /// A playlist holds no more paths than can be counted.
    pub proof fn lemma_length_fits(&self)
        ensures
            self.paths().len() <= usize::MAX,
    {
        assert(self.v@.len() == self.v.len());
    }

    /// An unlabelled playlist holding `v`, or nothing when `v` is `None`.
    pub fn new(v: Option<Vec<String>>) -> (r: Queue)
        ensures
            r.label() is None,
            r.paths() == match v {
                Some(items) => paths_of(items@),
                None => Seq::<Seq<char>>::empty(),
            },
    {
        let items = match v {
            Some(items) => items,
            None => Vec::new(),
        };
        assert(paths_of(Seq::<String>::empty()) =~= Seq::<Seq<char>>::empty());
        Queue { name: None, v: items }
    }

    /// A playlist with the given label and paths.
    pub fn with_name(name: Option<String>, v: Vec<String>) -> (r: Queue)
        ensures
            r.label() == label_of(name),
            r.paths() == paths_of(v@),
    {
        Queue { name, v }
    }

    /// The label, if the playlist has one.
    pub fn name(&self) -> (r: &Option<String>)
        ensures
            label_of(*r) == self.label(),
    {
        &self.name
    }

    /// The paths held, in rotation order.
    pub fn as_vec(&self) -> (r: &Vec<String>)
        ensures
            paths_of(r@) == self.paths(),
    {
        &self.v
    }

    /// Whether the label is one that the playlist can be saved under:
    /// none, `DAY` or `NIGHT`.
    pub fn has_variant_label_or_none(&self) -> (r: bool)
        ensures
            r == is_variant_or_none(self.label()),
    {
        match &self.name {
            Some(word) => same_text(word.as_str(), "DAY") || same_text(word.as_str(), "NIGHT"),
            None => true,
        }
    }

    /// The number of paths held.
    pub fn len(&self) -> (r: usize)
        ensures
            r == self.paths().len(),
    {
        self.v.len()
    }

    /// Puts a copy of `with` in place of the playlist and hands back what
    /// the playlist held before, label included.
    pub fn swap_with(&mut self, with: &SwapQueue) -> (prev: SwapQueue)
        ensures
            prev.label() == old(self).label(),
            prev.paths() == old(self).paths(),
            final(self).label() == with.label(),
            final(self).paths() == with.paths(),
    {
        let mut name = clone_label(&with.name);
        let mut v = clone_paths(&with.v);
        core::mem::swap(&mut self.name, &mut name);
        core::mem::swap(&mut self.v, &mut v);
        SwapQueue { name, v }
    }
}

impl BackgroundIterable for Queue {
    closed spec fn paths(&self) -> Seq<Seq<char>> {
        paths_of(self.v@)
    }

    fn get_index_of_bg(&self, bg: &str) -> (r: Option<usize>) {
        let ghost pred = Matcher::EndsWith(bg@);
        let mut i: usize = 0;
        while i < self.v.len()
            invariant
                i <= self.v.len(),
                pred == Matcher::EndsWith(bg@),
                forall|j: int| 0 <= j < i ==> !pred.accepts(#[trigger] self.paths()[j]),
            decreases self.v.len() - i,
        {
            if ends_with(self.v[i].as_str(), bg) {
                proof {
                    assert(pred.accepts(self.paths()[i as int]));
                    lemma_first_where_is(self.paths(), pred, i as int);
                }
                return Some(i);
            }
            i += 1;
        }
        proof {
            lemma_first_where(self.paths(), pred);
        }
        None
    }

    fn get_bg(&self, bg: &str) -> (r: Option<&String>) {
        match self.get_index_of_bg(bg) {
            Some(i) => {
                proof {
                    lemma_first_where(self.paths(), Matcher::EndsWith(bg@));
                }
                Some(&self.v[i])
            },
            None => None,
        }
    }

    fn to_vec(&self) -> (r: Vec<String>) {
        clone_paths(&self.v)
    }

    fn remove(&mut self, index: usize) -> (r: String)
        ensures
            final(self).label() == old(self).label(),
    {
        let r = self.v.remove(index);
        assert(paths_of(self.v@) =~= paths_of(old(self).v@).remove(index as int));
        r
    }

    fn insert(&mut self, index: usize, item: String)
        ensures
            final(self).label() == old(self).label(),
    {
        self.v.insert(index, item);
        assert(paths_of(self.v@) =~= paths_of(old(self).v@).insert(index as int, item@));
    }

    fn get_by_index(&self, index: usize) -> (r: Option<&String>) {
        if index < self.v.len() {
            Some(&self.v[index])
        } else {
            None
        }
    }
}

impl SwapQueue {
    /// The label of the playlist, as characters.
    pub closed spec fn label(&self) -> Option<Seq<char>> {
        label_of(self.name)
    }

    /// The paths held, in order.
    pub closed spec fn paths(&self) -> Seq<Seq<char>> {
        paths_of(self.v@)
    }

    /// A playlist with the given label and paths.
    pub fn new(name: Option<String>, v: Vec<String>) -> (r: SwapQueue)
        ensures
            r.label() == label_of(name),
            r.paths() == paths_of(v@),
    {
        SwapQueue { name, v }
    }

    /// The label, if the playlist has one.
    pub fn name(&self) -> (r: &Option<String>)
        ensures
            label_of(*r) == self.label(),
    {
        &self.name
    }

    /// The paths held, in order.
    pub fn as_vec(&self) -> (r: &Vec<String>)
        ensures
            paths_of(r@) == self.paths(),
    {
        &self.v
    }

    /// Puts a playlist that was taken off show back into the variant whose
    /// label it bears, and answers with what is to be written to storage:
    /// whether it is the day variant, and its paths. A playlist without a
    /// label belongs to no variant: nothing changes and nothing is to be
    /// written.
    pub fn save_state(self, queues: &mut (SwapQueue, SwapQueue)) -> (r: Option<(bool, Vec<String>)>)
        requires
            is_variant_or_none(self.label()),
        ensures
            final(queues).0.label() == old(queues).0.label(),
            final(queues).1.label() == old(queues).1.label(),
            final(queues).0.paths() == if daytime_of(self.label()) == Some(true) {
                self.paths()
            } else {
                old(queues).0.paths()
            },
            final(queues).1.paths() == if daytime_of(self.label()) == Some(false) {
                self.paths()
            } else {
                old(queues).1.paths()
            },
            match r {
                Some((daytime, rows)) => daytime_of(self.label()) == Some(daytime) && paths_of(
                    rows@,
                ) == self.paths(),
                None => self.label() is None,
            },
    {
        let daytime = match &self.name {
            Some(playlist) => same_text(playlist.as_str(), "DAY"),
            None => {
                return None;
            },
        };
        let rows = clone_paths(&self.v);
        if daytime {
            queues.0.v = self.v;
        } else {
            queues.1.v = self.v;
        }
        Some((daytime, rows))
    }
}

} // verus!
