//! Promotion of a seed into a full project.

use vstd::prelude::*;
use crate::text;
use crate::commands::seed;
use crate::clock;
use crate::text::{chars_of, extend_str, same_str, string_of};

verus! {

/// The first eleven characters of a seed directory name, `YYYY-MM-DD-`:
/// digits everywhere but at positions 4, 7 and 10, which hold `-`.
pub open spec fn is_date_prefix(p: Seq<char>) -> bool {
    &&& p.len() == 11
    &&& forall|i: int|
        0 <= i < 11 ==> if i == 4 || i == 7 || i == 10 {
            #[trigger] p[i] == '-'
        } else {
            text::is_digit(p[i])
        }
}

/// The project name derived from a seed directory name: the date prefix is
/// dropped when the name is longer than the prefix and starts with one.
pub open spec fn stripped_name(s: Seq<char>) -> Seq<char> {
    if s.len() > 11 && is_date_prefix(s.subrange(0, 11)) {
        s.subrange(11, s.len() as int)
    } else {
        s
    }
}

/// Drops the `YYYY-MM-DD-` prefix of a seed directory name.
///
/// The name is cut at byte 11 before anything else is checked, so a name
/// longer than eleven bytes must have a character boundary there.
pub fn strip_date_prefix(name: &str) -> (r: String)
    requires
        text::utf8_len(name@) > 11 ==> text::is_byte_boundary(name@, 11),
    ensures
        r@ == stripped_name(name@),
{
    let v = chars_of(name);
    if v.len() > 11 {
        let mut looks_like_date = true;
        let mut i: usize = 0;
        while i < 11
            invariant
                v@ == name@,
                v.len() > 11,
                i <= 11,
                looks_like_date <==> (forall|j: int|
                    0 <= j < i ==> if j == 4 || j == 7 || j == 10 {
                        #[trigger] v@[j] == '-'
                    } else {
                        text::is_digit(v@[j])
                    }),
            decreases 11 - i,
        {
            let c = v[i];
            let ok = if i == 4 || i == 7 || i == 10 {
                c == '-'
            } else {
                '0' <= c && c <= '9'
            };
            if !ok {
                looks_like_date = false;
            }
            i = i + 1;
        }
        assert(looks_like_date <==> is_date_prefix(v@.subrange(0, 11))) by {
            if looks_like_date {
                assert forall|j: int| 0 <= j < 11 implies if j == 4 || j == 7 || j == 10 {
                    #[trigger] v@.subrange(0, 11)[j] == '-'
                } else {
                    text::is_digit(v@.subrange(0, 11)[j])
                } by {
                    assert(v@.subrange(0, 11)[j] == v@[j]);
                }
            }
            if is_date_prefix(v@.subrange(0, 11)) {
                assert forall|j: int| 0 <= j < 11 implies if j == 4 || j == 7 || j == 10 {
                    #[trigger] v@[j] == '-'
                } else {
                    text::is_digit(v@[j])
                } by {
                    assert(v@.subrange(0, 11)[j] == v@[j]);
                }
            }
        }
        if looks_like_date {
            let mut rest: Vec<char> = Vec::new();
            let mut k: usize = 11;
            while k < v.len()
                invariant
                    11 <= k <= v.len(),
                    rest@ == v@.subrange(11, k as int),
                decreases v.len() - k,
            {
                rest.push(v[k]);
                k = k + 1;
            }
            return string_of(&rest);
        }
    }
    string_of(&v)
}

/// Whether an entry of a seed directory is copied into the new project:
/// everything but the seed's own `.git` directory.
pub fn is_copied_seed_entry(name: &str) -> (b: bool)
    ensures
        b == (name@ != ".git"@),
{
    !same_str(name, ".git")
}

/// The message of the commit that adds a promoted seed's contents.
pub fn promote_message(seed_dir_name: &str) -> (r: String)
    ensures
        r@ == "promote: seed contents from "@ + seed_dir_name@,
{
    let mut v = chars_of("promote: seed contents from ");
    extend_str(&mut v, seed_dir_name);
    string_of(&v)
}

/// Promoting a seed gives back the name the seed was created with: for a
/// seed directory made on any day `YYYY-MM-DD` with a non-empty name, the
/// derived project name is that name, and the directory name meets the
/// precondition of `strip_date_prefix`. The days the tool writes
/// (`clock::format_day`, for years 0 to 9999) have that form.
pub proof fn lemma_promote_recovers_seed_name(today: Seq<char>, name: Seq<char>)
    requires
        clock::is_day_text(today),
        name.len() > 0,
    ensures
        stripped_name(seed::seed_dir_name_of(today, name)) == name,
        text::utf8_len(seed::seed_dir_name_of(today, name)) > 11 ==> text::is_byte_boundary(
            seed::seed_dir_name_of(today, name),
            11,
        ),
{
    let s = seed::seed_dir_name_of(today, name);
    assert(s.len() > 11);
    assert(is_date_prefix(s.subrange(0, 11))) by {
        assert forall|i: int| 0 <= i < 11 implies if i == 4 || i == 7 || i == 10 {
            #[trigger] s.subrange(0, 11)[i] == '-'
        } else {
            text::is_digit(s.subrange(0, 11)[i])
        } by {
            assert(s.subrange(0, 11)[i] == s[i]);
            if i < 10 {
                assert(s[i] == today[i]);
            } else {
                assert(s[i] == '-');
            }
        }
    }
    assert(s.subrange(11, s.len() as int) =~= name);
    let p = s.subrange(0, 11);
    assert forall|i: int| 0 <= i < p.len() implies (p[i] as u32) < 0x80 by {
        assert(p[i] == s.subrange(0, 11)[i]);
    }
    text::lemma_ascii_utf8_len(p);
    assert(text::utf8_len(s.subrange(0, 11)) == 11);
}

} // verus!
