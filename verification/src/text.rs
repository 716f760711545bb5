//! Small helpers on strings that the playlist and the transport share.

use vstd::prelude::*;

verus! {

/// The characters of each string of `v`, in order.
pub open spec fn paths_of(v: Seq<String>) -> Seq<Seq<char>> {
    Seq::new(v.len(), |i: int| v[i]@)
}

/// How a wallpaper is named in a request.
pub enum Matcher {
    /// By its whole path.
    Exact(Seq<char>),
    /// By the end of its path, such as a file name.
    EndsWith(Seq<char>),
}

impl Matcher {
    /// Whether `path` is one that the matcher names.
    pub open spec fn accepts(self, path: Seq<char>) -> bool {
        match self {
            Matcher::Exact(wanted) => path == wanted,
            Matcher::EndsWith(suffix) => suffix.is_suffix_of(path),
        }
    }
}

/// The first index at or after `from` whose path `m` accepts, or
/// `s.len()` when there is none.
pub open spec fn first_from(s: Seq<Seq<char>>, m: Matcher, from: int) -> int
    decreases s.len() - from,
{
    if from < 0 || from >= s.len() {
        s.len() as int
    } else if m.accepts(s[from]) {
        from
    } else {
        first_from(s, m, from + 1)
    }
}

/// The index of the first path of `s` that `m` accepts, if it accepts any.
pub open spec fn first_where(s: Seq<Seq<char>>, m: Matcher) -> Option<int> {
    if first_from(s, m, 0) < s.len() {
        Some(first_from(s, m, 0))
    } else {
        None
    }
}

/// The index of the first element of `s` equal to `path`.
pub open spec fn first_exact(s: Seq<Seq<char>>, path: Seq<char>) -> Option<int> {
    first_where(s, Matcher::Exact(path))
}

/// The index of the first element of `s` that ends with `suffix`.
pub open spec fn first_ending_with(s: Seq<Seq<char>>, suffix: Seq<char>) -> Option<int> {
    first_where(s, Matcher::EndsWith(suffix))
}

/// `first_from` returns the least accepted index at or after `from`.
pub proof fn lemma_first_from(s: Seq<Seq<char>>, m: Matcher, from: int)
    requires
        0 <= from <= s.len(),
    ensures
        from <= first_from(s, m, from) <= s.len(),
        first_from(s, m, from) < s.len() ==> m.accepts(s[first_from(s, m, from)]),
        forall|j: int| from <= j < first_from(s, m, from) ==> !m.accepts(#[trigger] s[j]),
    decreases s.len() - from,
{
    if from < s.len() && !m.accepts(s[from]) {
        lemma_first_from(s, m, from + 1);
    }
}

/// `first_where` is `Some(i)` exactly for the least accepted index `i`,
/// and `None` exactly when nothing is accepted.
pub proof fn lemma_first_where(s: Seq<Seq<char>>, m: Matcher)
    ensures
        match first_where(s, m) {
            Some(i) => 0 <= i < s.len() && m.accepts(s[i]) && forall|j: int|
                0 <= j < i ==> !m.accepts(#[trigger] s[j]),
            None => forall|j: int| 0 <= j < s.len() ==> !m.accepts(#[trigger] s[j]),
        },
{
    lemma_first_from(s, m, 0);
}

/// An accepted index with no accepted index before it is the first.
pub proof fn lemma_first_where_is(s: Seq<Seq<char>>, m: Matcher, i: int)
    requires
        0 <= i < s.len(),
        m.accepts(s[i]),
        forall|j: int| 0 <= j < i ==> !m.accepts(#[trigger] s[j]),
    ensures
        first_where(s, m) == Some(i),
{
    lemma_first_where(s, m);
}

/// Copies a list of paths.
pub fn clone_paths(v: &Vec<String>) -> (r: Vec<String>)
    ensures
        paths_of(r@) == paths_of(v@),
{
    let mut out: Vec<String> = Vec::new();
    let mut i: usize = 0;
    while i < v.len()
        invariant
            i <= v.len(),
            out.len() == i,
            forall|j: int| 0 <= j < i ==> out@[j]@ == v@[j]@,
        decreases v.len() - i,
    {
        out.push(v[i].clone());
        i += 1;
    }
    assert(paths_of(out@) =~= paths_of(v@));
    out
}

/// Whether two strings hold the same characters.
pub fn same_text(a: &str, b: &str) -> (r: bool)
    ensures
        r == (a@ == b@),
{
    a.to_owned() == b.to_owned()
}

/// Tells whether `whole` ends with `tail`, by `str::ends_with` of the standard
/// library: true exactly when the characters of `tail` are the last
/// characters of `whole`.
#[verifier::external_body]
pub(crate) fn ends_with(whole: &str, tail: &str) -> (r: bool)
    ensures
        r == tail@.is_suffix_of(whole@),
{
    whole.ends_with(tail)
}

} // verus!
