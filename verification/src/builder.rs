//! Putting the first playlist together: what the user ordered comes
//! first, then the images found in the wallpaper directory, each path once.

use vstd::prelude::*;
use crate::text::{ends_with, paths_of};
use crate::wallpaper_queue::WallpaperQueue;

verus! {

/// Collects the paths of the first playlist.
#[derive(Debug)]
pub struct WallpaperQueueBuilder {
    pub initial_queue: Vec<String>,
}

/// The queue after the first `n` of `items` were offered to it: each goes
/// to the end unless the queue holds it by then.
pub open spec fn pushed_unique_upto(
    queue: Seq<Seq<char>>,
    items: Seq<Seq<char>>,
    n: int,
) -> Seq<Seq<char>>
    decreases n,
{
    if n <= 0 {
        queue
    } else {
        let earlier = pushed_unique_upto(queue, items, n - 1);
        if earlier.contains(items[n - 1]) {
            earlier
        } else {
            earlier.push(items[n - 1])
        }
    }
}

/// The queue after all of `items` were offered to it.
pub open spec fn pushed_unique(queue: Seq<Seq<char>>, items: Seq<Seq<char>>) -> Seq<Seq<char>> {
    pushed_unique_upto(queue, items, items.len() as int)
}

/// Whether a path ends in a dot and one of the endings of image files
/// that can be shown.
pub open spec fn is_image_path(path: Seq<char>) -> bool {
    ||| ".jpg"@.is_suffix_of(path)
    ||| ".jpeg"@.is_suffix_of(path)
    ||| ".png"@.is_suffix_of(path)
    ||| ".gif"@.is_suffix_of(path)
    ||| ".webp"@.is_suffix_of(path)
    ||| ".bmp"@.is_suffix_of(path)
    ||| ".tiff"@.is_suffix_of(path)
    ||| ".avif"@.is_suffix_of(path)
    ||| ".tga"@.is_suffix_of(path)
    ||| ".pnm"@.is_suffix_of(path)
    ||| ".farbfeld"@.is_suffix_of(path)
}

/// The image paths among the first `n` of `entries`, in order.
pub open spec fn images_upto(entries: Seq<Seq<char>>, n: int) -> Seq<Seq<char>>
    decreases n,
{
    if n <= 0 {
        Seq::empty()
    } else if is_image_path(entries[n - 1]) {
        images_upto(entries, n - 1).push(entries[n - 1])
    } else {
        images_upto(entries, n - 1)
    }
}

/// Whether a path ends in a dot and one of the endings of image files
/// that can be shown.
pub fn has_image_extension(path: &str) -> (r: bool)
    ensures
        r == is_image_path(path@),
{
    ends_with(path, ".jpg") || ends_with(path, ".jpeg") || ends_with(path, ".png") || ends_with(
        path,
        ".gif",
    ) || ends_with(path, ".webp") || ends_with(path, ".bmp") || ends_with(path, ".tiff")
        || ends_with(path, ".avif") || ends_with(path, ".tga") || ends_with(path, ".pnm")
        || ends_with(path, ".farbfeld")
}

/// Whether `queue` holds `path`.
fn holds(queue: &Vec<String>, path: &String) -> (r: bool)
    ensures
        r == paths_of(queue@).contains(path@),
{
    let mut i: usize = 0;
    while i < queue.len()
        invariant
            i <= queue.len(),
            forall|j: int| 0 <= j < i ==> paths_of(queue@)[j] != path@,
        decreases queue.len() - i,
    {
        assert(paths_of(queue@)[i as int] == queue@[i as int]@);
        if queue[i] == *path {
            return true;
        }
        i += 1;
    }
    false
}

impl WallpaperQueueBuilder {
    /// A builder that holds no path yet.
    pub fn new() -> (r: WallpaperQueueBuilder)
        ensures
            r.initial_queue@.len() == 0,
    {
        WallpaperQueueBuilder { initial_queue: Vec::new() }
    }

    /// Takes in the playlist as the user ordered it and as the store kept
    /// it. Call this before the directory is taken in, so that the user's
    /// order stands.
    pub fn with_ordered_queue(self, stored: Vec<String>) -> (r: WallpaperQueueBuilder)
        ensures
            paths_of(r.initial_queue@) == pushed_unique(
                paths_of(self.initial_queue@),
                paths_of(stored@),
            ),
    {
        let mut builder = self;
        builder.push_unique_onto_queue(stored);
        builder
    }

    /// Takes in the paths found in the wallpaper directory: those that
    /// name an image file, in the order given, each unless held already.
    pub fn with_initial_queue_from_directory(self, entries: Vec<String>) -> (r:
        WallpaperQueueBuilder)
        ensures
            paths_of(r.initial_queue@) == pushed_unique(
                paths_of(self.initial_queue@),
                images_upto(paths_of(entries@), entries@.len() as int),
            ),
    {
        let ghost all = paths_of(entries@);
        let mut queue: Vec<String> = Vec::new();
        let mut i: usize = 0;
        while i < entries.len()
            invariant
                i <= entries.len(),
                all == paths_of(entries@),
                paths_of(queue@) == images_upto(all, i as int),
            decreases entries.len() - i,
        {
            let ghost before = paths_of(queue@);
            assert(all[i as int] == entries@[i as int]@);
            if has_image_extension(entries[i].as_str()) {
                queue.push(entries[i].clone());
                assert(paths_of(queue@) =~= before.push(all[i as int]));
            }
            i += 1;
        }
        let mut builder = self;
        builder.push_unique_onto_queue(queue);
        builder
    }

    /// Puts on the end of the queue each path of `vec` that the queue does
    /// not hold by then, in the order of `vec`.
    pub fn push_unique_onto_queue(&mut self, vec: Vec<String>)
        ensures
            paths_of(final(self).initial_queue@) == pushed_unique(
                paths_of(old(self).initial_queue@),
                paths_of(vec@),
            ),
    {
        let ghost start = paths_of(self.initial_queue@);
        let ghost items = paths_of(vec@);
        let ghost all = vec@;
        let total = vec.len();
        let mut count: usize = 0;
        for new in it: vec
            invariant
                it.seq() == all,
                all.len() == total,
                items == paths_of(all),
                count == it.index(),
                paths_of(self.initial_queue@) == pushed_unique_upto(start, items, count as int),
        {
            let ghost before = paths_of(self.initial_queue@);
            assert(items[count as int] == new@);
            if !holds(&self.initial_queue, &new) {
                self.initial_queue.push(new);
                assert(paths_of(self.initial_queue@) =~= before.push(new@));
            }
            count += 1;
        }
    }

    /// The engine over the paths collected, with the position at the start.
    pub fn build(self) -> (r: WallpaperQueue)
        ensures
            r.paths() == paths_of(self.initial_queue@),
            r.position() == 0,
            r.label() is None,
    {
        WallpaperQueue::new(self.initial_queue)
    }
}

/// Offering paths to a queue keeps the queue as the start of the result,
/// and puts no path in twice: a queue without repeats stays without.
pub proof fn pushed_unique_keeps_order(queue: Seq<Seq<char>>, items: Seq<Seq<char>>, n: int)
    requires
        0 <= n <= items.len(),
    ensures
        queue.is_prefix_of(pushed_unique_upto(queue, items, n)),
        queue.no_duplicates() ==> pushed_unique_upto(queue, items, n).no_duplicates(),
        forall|i: int| 0 <= i < n ==> pushed_unique_upto(queue, items, n).contains(#[trigger] items[i]),
    decreases n,
{
    if n > 0 {
        pushed_unique_keeps_order(queue, items, n - 1);
        let earlier = pushed_unique_upto(queue, items, n - 1);
        let now = pushed_unique_upto(queue, items, n);
        if !earlier.contains(items[n - 1]) {
            assert(now =~= earlier.push(items[n - 1]));
            assert(now[earlier.len() as int] == items[n - 1]);
            assert forall|i: int| 0 <= i < n - 1 implies now.contains(#[trigger] items[i]) by {
                let k = choose|k: int| 0 <= k < earlier.len() && earlier[k] == items[i];
                assert(now[k] == items[i]);
            }
        }
        assert(now.contains(items[n - 1]));
    }
}

} // verus!
