//! Finding a project or seed directory by a part of its name.

use vstd::prelude::*;
use crate::text;
use crate::text::{chars_of, extend_str, occurs, same_chars, string_of};

verus! {

/// The lower-case form of a text, as `str::to_lowercase` gives it (full
/// Unicode case mapping).
pub uninterp spec fn lowercase(s: Seq<char>) -> Seq<char>;

/// The lower-case form of a text, through `str::to_lowercase`. Beyond the
/// name, it is stated that a text of ASCII characters is lowered as ASCII:
/// `A`..`Z` to `a`..`z`, every other character kept (the Unicode lower-case
/// mapping of the ASCII range, which the std source takes as a fast path).
#[verifier::external_body]
fn to_lowercase(s: &str) -> (r: String)
    ensures
        r@ == lowercase(s@),
        text::is_ascii_text(s@) ==> r@ == text::ascii_lower(s@),
{
    s.to_lowercase()
}

/// The lower-case form of a text: ASCII folding for an ASCII text, the
/// full Unicode mapping otherwise.
pub open spec fn lowered(s: Seq<char>) -> Seq<char> {
    if text::is_ascii_text(s) {
        text::ascii_lower(s)
    } else {
        lowercase(s)
    }
}

/// A directory name matches a query when the query, in lower case, occurs
/// in the name, in lower case.
pub open spec fn name_matches(dir_name: Seq<char>, query: Seq<char>) -> bool {
    text::occurs_in(lowered(query), lowered(dir_name))
}

/// Lookups ignore case: two ASCII queries that differ only in the case of
/// their letters match the same directory names.
pub proof fn lemma_lookup_ignores_case(dir_name: Seq<char>, q1: Seq<char>, q2: Seq<char>)
    requires
        text::is_ascii_text(q1),
        text::is_ascii_text(q2),
        text::ascii_lower(q1) == text::ascii_lower(q2),
    ensures
        name_matches(dir_name, q1) == name_matches(dir_name, q2),
{
}

/// Whether a directory name matches a query: equal or containing it,
/// ignoring case.
pub fn matches_name(dir_name: &str, query: &str) -> (r: bool)
    ensures
        r == name_matches(dir_name@, query@),
{
    let d = chars_of(to_lowercase(dir_name).as_str());
    let q = chars_of(to_lowercase(query).as_str());
    if same_chars(&d, &q) {
        assert(d@.subrange(0int, 0int + q@.len()) =~= q@);
        return true;
    }
    occurs(&d, &q)
}

/// Why a lookup found no single directory.
pub enum FindError {
    /// No directory matches.
    NoMatch,
    /// Several do: their positions among the candidates, in order.
    Ambiguous(Vec<usize>),
}

/// Finds the one directory, among the project and seed directories (their
/// names in `candidates`, in listing order), whose name matches `name`.
pub fn find(candidates: &Vec<String>, name: &str) -> (r: Result<usize, FindError>)
    ensures
        match r {
            Ok(i) => i < candidates.len() && name_matches(candidates@[i as int]@, name@) && forall|j: int|
                0 <= j < candidates.len() && j != i ==> !name_matches(
                    #[trigger] candidates@[j]@,
                    name@,
                ),
            Err(FindError::NoMatch) => forall|j: int|
                0 <= j < candidates.len() ==> !name_matches(#[trigger] candidates@[j]@, name@),
            Err(FindError::Ambiguous(found)) => found.len() >= 2 && (forall|k: int|
                0 <= k < found.len() ==> #[trigger] found@[k] < candidates.len() && name_matches(
                    candidates@[found@[k] as int]@,
                    name@,
                )) && (forall|k: int, l: int| 0 <= k < l < found.len() ==> found@[k] < found@[l])
                && (forall|j: int|
                0 <= j < candidates.len() && name_matches(#[trigger] candidates@[j]@, name@)
                    ==> found@.contains(j as usize)),
        },
{
    let mut found: Vec<usize> = Vec::new();
    let mut i: usize = 0;
    while i < candidates.len()
        invariant
            i <= candidates.len(),
            forall|k: int|
                0 <= k < found.len() ==> #[trigger] found@[k] < i && name_matches(
                    candidates@[found@[k] as int]@,
                    name@,
                ),
            forall|k: int, l: int| 0 <= k < l < found.len() ==> found@[k] < found@[l],
            forall|j: int|
                0 <= j < i && name_matches(#[trigger] candidates@[j]@, name@) ==> found@.contains(
                    j as usize,
                ),
        decreases candidates.len() - i,
    {
        let ghost before = found@;
        if matches_name(candidates[i].as_str(), name) {
            found.push(i);
            proof {
                assert forall|j: int|
                    0 <= j < i + 1 && name_matches(#[trigger] candidates@[j]@, name@) implies found@.contains(
                    j as usize,
                ) by {
                    if j < i {
                        let k = choose|k: int| 0 <= k < before.len() && before[k] == j as usize;
                        assert(found@[k] == j as usize);
                    } else {
                        assert(found@[found.len() - 1] == i);
                    }
                }
            }
        }
        i = i + 1;
    }
    if found.len() == 0 {
        proof {
            assert forall|j: int| 0 <= j < candidates.len() implies !name_matches(
                #[trigger] candidates@[j]@,
                name@,
            ) by {
                if name_matches(candidates@[j]@, name@) {
                    assert(found@.contains(j as usize));
                }
            }
        }
        Err(FindError::NoMatch)
    } else if found.len() == 1 {
        let only = found[0];
        proof {
            assert forall|j: int| 0 <= j < candidates.len() && j != only implies !name_matches(
                #[trigger] candidates@[j]@,
                name@,
            ) by {
                if name_matches(candidates@[j]@, name@) {
                    assert(found@.contains(j as usize));
                }
            }
        }
        Ok(only)
    } else {
        Err(FindError::Ambiguous(found))
    }
}

/// Texts joined with a separator between each two.
pub open spec fn joined_with(items: Seq<Seq<char>>, sep: Seq<char>) -> Seq<char>
    decreases items.len(),
{
    if items.len() == 0 {
        seq![]
    } else if items.len() == 1 {
        items[0]
    } else {
        joined_with(items.drop_last(), sep) + sep + items.last()
    }
}

/// The message for a failed lookup of `name`.
pub open spec fn find_error_text(err: FindError, candidates: Seq<String>, name: Seq<char>) -> Seq<char> {
    match err {
        FindError::NoMatch => "No project or seed matching '"@ + name + "'"@,
        FindError::Ambiguous(found) => "Ambiguous \u{2014} multiple matches for '"@ + name + "':\n  "@
            + joined_with(found@.map_values(|k: usize| candidates[k as int]@), "\n  "@),
    }
}

/// The message for a failed lookup of `name`: no match, or the list of
/// the matching directory names.
pub fn find_error_message(err: &FindError, candidates: &Vec<String>, name: &str) -> (r: String)
    requires
        err matches FindError::Ambiguous(found) ==> forall|k: int|
            0 <= k < found.len() ==> #[trigger] found@[k] < candidates.len(),
    ensures
        r@ == find_error_text(*err, candidates@, name@),
{
    match err {
        FindError::NoMatch => {
            let mut v = chars_of("No project or seed matching '");
            extend_str(&mut v, name);
            extend_str(&mut v, "'");
            string_of(&v)
        },
        FindError::Ambiguous(found) => {
            let mut v = chars_of("Ambiguous \u{2014} multiple matches for '");
            extend_str(&mut v, name);
            extend_str(&mut v, "':\n  ");
            let ghost items = found@.map_values(|k: usize| candidates@[k as int]@);
            let ghost start = v@;
            let mut k: usize = 0;
            while k < found.len()
                invariant
                    k <= found.len(),
                    forall|k: int| 0 <= k < found.len() ==> #[trigger] found@[k] < candidates.len(),
                    items == found@.map_values(|k: usize| candidates@[k as int]@),
                    v@ == start + joined_with(items.subrange(0, k as int), "\n  "@),
                decreases found.len() - k,
            {
                if k > 0 {
                    extend_str(&mut v, "\n  ");
                }
                extend_str(&mut v, candidates[found[k]].as_str());
                proof {
                    let sub = items.subrange(0, k + 1);
                    assert(sub.drop_last() =~= items.subrange(0, k as int));
                    if k == 0 {
                        assert(items.subrange(0, 0) =~= Seq::<Seq<char>>::empty());
                    }
                }
                k = k + 1;
            }
            assert(items.subrange(0, found.len() as int) =~= items);
            string_of(&v)
        },
    }
}

} // verus!
