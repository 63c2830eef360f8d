//! Seeds: lightweight, date-prefixed sketches kept in one shared repository.

use vstd::prelude::*;
use crate::text::{chars_of, extend_str, string_of};

verus! {

/// Name of a seed directory: the creation date, a dash, and the seed name.
pub open spec fn seed_dir_name_of(today: Seq<char>, name: Seq<char>) -> Seq<char> {
    today + seq!['-'] + name
}

/// The directory name under which a seed is created on day `today`
/// (formatted `YYYY-MM-DD`).
pub fn seed_dir_name(today: &str, name: &str) -> (r: String)
    ensures
        r@ == seed_dir_name_of(today@, name@),
{
    let mut v = chars_of(today);
    v.push('-');
    extend_str(&mut v, name);
    string_of(&v)
}

/// Contents of the README that makes the first commit of the seeds
/// repository non-empty.
pub fn seeds_readme() -> (r: String)
    ensures
        r@ == "# Seeds\n\nQuick ideas and sketches.\n"@,
{
    String::from_str("# Seeds\n\nQuick ideas and sketches.\n")
}

/// Message of the first commit of the seeds repository.
pub fn seeds_init_message() -> (r: String)
    ensures
        r@ == "init: seeds"@,
{
    String::from_str("init: seeds")
}

} // verus!
