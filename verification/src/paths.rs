//! File-name rules of `std::path` that the library decides on: a file's
//! extension, and whether a path lies under another.

use vstd::prelude::*;
use crate::text::{same_chars, slice_chars};

verus! {

/// Position of the last `c` in `s`, or -1.
pub open spec fn last_index_of(s: Seq<char>, c: char) -> int
    decreases s.len(),
{
    if s.len() == 0 {
        -1
    } else if s.last() == c {
        s.len() - 1
    } else {
        last_index_of(s.drop_last(), c)
    }
}

/// The extension of a file name, as `Path::extension` gives it: the text
/// after the last `.`, unless there is no `.`, the only `.` is the first
/// character, or the name is `..`.
pub open spec fn extension_of(name: Seq<char>) -> Option<Seq<char>> {
    let i = last_index_of(name, '.');
    if name == seq!['.', '.'] || i <= 0 {
        None
    } else {
        Some(name.subrange(i + 1, name.len() as int))
    }
}

/// Text added after a last `c` leaves that `c` the last one, if the added
/// text holds no `c`.
pub proof fn lemma_last_index_after(s: Seq<char>, tail: Seq<char>, c: char)
    requires
        s.len() > 0,
        s.last() == c,
        !tail.contains(c),
    ensures
        last_index_of(s + tail, c) == s.len() - 1,
    decreases tail.len(),
{
    if tail.len() == 0 {
        assert(s + tail =~= s);
    } else {
        assert((s + tail).drop_last() =~= s + tail.drop_last());
        assert((s + tail).last() == tail.last());
        assert(!tail.drop_last().contains(c)) by {
            if tail.drop_last().contains(c) {
                let k = choose|k: int| 0 <= k < tail.drop_last().len() && tail.drop_last()[k] == c;
                assert(tail[k] == c);
            }
        }
        assert(tail[tail.len() - 1] != c);
        lemma_last_index_after(s, tail.drop_last(), c);
    }
}

/// The extension of `<base>.<ext>`, for a non-empty base and an extension
/// without a dot, is `ext` (the name `..` aside, which has none).
pub proof fn lemma_extension_of_dotted(base: Seq<char>, ext: Seq<char>)
    requires
        base.len() > 0,
        !ext.contains('.'),
    ensures
        base + seq!['.'] + ext == seq!['.', '.'] ==> extension_of(base + seq!['.'] + ext) is None
            && ext.len() == 0,
        base + seq!['.'] + ext != seq!['.', '.'] ==> extension_of(base + seq!['.'] + ext) == Some(ext),
{
    let d = base + seq!['.'];
    let name = d + ext;
    lemma_last_index_after(d, ext, '.');
    assert(name.subrange(d.len() as int, name.len() as int) =~= ext);
    if name == seq!['.', '.'] {
        assert(name.len() == 2);
    }
}

/// Position of the last `c` in `v`, if any.
pub fn find_last(v: &Vec<char>, c: char) -> (r: Option<usize>)
    ensures
        match r {
            Some(i) => i < v.len() && i as int == last_index_of(v@, c),
            None => last_index_of(v@, c) == -1,
        },
{
    let mut k: usize = v.len();
    while k > 0
        invariant
            k <= v.len(),
            forall|j: int| k <= j < v.len() ==> v@[j] != c,
        decreases k,
    {
        if v[k - 1] == c {
            proof {
                lemma_unique_last(v@, c, k - 1);
            }
            return Some(k - 1);
        }
        k = k - 1;
    }
    proof {
        lemma_unique_last(v@, c, -1);
    }
    None
}

/// The last occurrence is the one with none after it.
proof fn lemma_unique_last(s: Seq<char>, c: char, i: int)
    requires
        -1 <= i < s.len(),
        i >= 0 ==> s[i] == c,
        forall|j: int| i < j < s.len() ==> s[j] != c,
    ensures
        last_index_of(s, c) == i,
    decreases s.len(),
{
    if s.len() > 0 && s.last() != c {
        lemma_unique_last(s.drop_last(), c, i);
    }
}

/// The extension of a file name.
pub fn extension(name: &Vec<char>) -> (r: Option<Vec<char>>)
    ensures
        match r {
            Some(e) => extension_of(name@) == Some(e@),
            None => extension_of(name@) is None,
        },
{
    let mut dots: Vec<char> = Vec::new();
    dots.push('.');
    dots.push('.');
    if same_chars(name, &dots) {
        assert(dots@ =~= seq!['.', '.']);
        return None;
    }
    assert(dots@ =~= seq!['.', '.']);
    match find_last(name, '.') {
        None => None,
        Some(i) => {
            if i == 0 {
                None
            } else {
                Some(slice_chars(name, i + 1, name.len()))
            }
        },
    }
}

/// `path` lies under `base`, component by component, as
/// `Path::starts_with` decides.
pub uninterp spec fn path_starts_with(path: Seq<char>, base: Seq<char>) -> bool;

/// Whether `path` lies under `base`, through `Path::starts_with`.
#[verifier::external_body]
pub(crate) fn starts_with_path(path: &str, base: &str) -> (r: bool)
    ensures
        r == path_starts_with(path@, base@),
{
    std::path::Path::new(path).starts_with(std::path::Path::new(base))
}

} // verus!
