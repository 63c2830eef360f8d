//! Lifecycle status of a project, recorded as `status/<stage>` git tags.

use vstd::prelude::*;
use crate::git;
use crate::text::{chars_of, extend_str, same_str, string_of};

verus! {

/// The lifecycle stages, in order.
pub open spec fn valid_statuses() -> Seq<Seq<char>> {
    seq![
        "idea"@,
        "drafting"@,
        "arranging"@,
        "mixing"@,
        "mastering"@,
        "released"@,
        "abandoned"@,
    ]
}

/// The lifecycle stages, in order.
pub fn valid_status_names() -> (r: Vec<&'static str>)
    ensures
        r@.map_values(|s: &str| s@) == valid_statuses(),
{
    let r = vec!["idea", "drafting", "arranging", "mixing", "mastering", "released", "abandoned"];
    assert(r@.map_values(|s: &str| s@) =~= valid_statuses());
    r
}

/// A status name was refused.
#[derive(Debug, Clone, Copy, PartialEq, Eq)]
pub enum StatusError {
    /// Not one of the lifecycle stages.
    Invalid,
}

/// The tag that records stage `status`.
pub open spec fn status_tag_of(status: Seq<char>) -> Seq<char> {
    git::status_prefix() + status
}

/// Checks a stage name and gives the name of the tag that records it.
pub fn status_tag(status: &str) -> (r: Result<String, StatusError>)
    ensures
        r is Ok <==> valid_statuses().contains(status@),
        r matches Ok(tag) ==> tag@ == status_tag_of(status@),
{
    let names = valid_status_names();
    let mut i: usize = 0;
    while i < names.len()
        invariant
            names@.map_values(|s: &str| s@) == valid_statuses(),
            i <= names.len(),
            forall|j: int| 0 <= j < i ==> valid_statuses()[j] != status@,
        decreases names.len() - i,
    {
        assert(names@.map_values(|s: &str| s@)[i as int] == names@[i as int]@);
        if same_str(names[i], status) {
            let mut v = chars_of("status/");
            extend_str(&mut v, status);
            assert(valid_statuses()[i as int] == status@);
            return Ok(string_of(&v));
        }
        i = i + 1;
    }
    proof {
        if valid_statuses().contains(status@) {
            let j = choose|j: int| 0 <= j < valid_statuses().len() && valid_statuses()[j] == status@;
            assert(false);
        }
    }
    Err(StatusError::Invalid)
}

/// The message for a refused stage name:
/// `'<status>' is not a valid status. Choose from: idea, drafting, ...`.
pub fn invalid_status_message(status: &str) -> (r: String)
    ensures
        r@ == "'"@ + status@ + "' is not a valid status. Choose from: "@
            + "idea, drafting, arranging, mixing, mastering, released, abandoned"@,
{
    let mut v = chars_of("'");
    extend_str(&mut v, status);
    extend_str(&mut v, "' is not a valid status. Choose from: ");
    extend_str(&mut v, "idea, drafting, arranging, mixing, mastering, released, abandoned");
    string_of(&v)
}

} // verus!
