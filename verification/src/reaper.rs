//! Reaper, the rendering backend: finding a project's session file and the
//! command line that renders it.

use vstd::prelude::*;
use crate::paths;
use crate::text::{chars_of, same_chars};

verus! {

/// The file name has extension `rpp`, exactly.
pub open spec fn is_rpp_name(name: Seq<char>) -> bool {
    paths::extension_of(name) == Some("rpp"@)
}

/// A file `<base>.<ext>` (non-empty base, no dot in the extension) is a
/// Reaper session exactly when the extension is `rpp`: backups such as
/// `song.rpp-bak` and other extensions beginning with `rpp` are not.
pub proof fn lemma_session_iff_rpp(base: Seq<char>, ext: Seq<char>)
    requires
        base.len() > 0,
        !ext.contains('.'),
    ensures
        is_rpp_name(base + seq!['.'] + ext) <==> ext == seq!['r', 'p', 'p'],
{
    reveal_strlit("rpp");
    assert("rpp"@ =~= seq!['r', 'p', 'p']);
    paths::lemma_extension_of_dotted(base, ext);
}

/// Whether a file name has extension `rpp`.
pub fn is_rpp(name: &str) -> (b: bool)
    ensures
        b == is_rpp_name(name@),
{
    match paths::extension(&chars_of(name)) {
        Some(e) => same_chars(&e, &chars_of("rpp")),
        None => false,
    }
}

/// The session among the entries of a project directory, in listing
/// order: the first whose extension is `rpp`.
pub fn find_rpp(names: &Vec<String>) -> (r: Option<usize>)
    ensures
        match r {
            Some(i) => i < names.len() && is_rpp_name(names@[i as int]@) && forall|j: int|
                0 <= j < i ==> !is_rpp_name(#[trigger] names@[j]@),
            None => forall|j: int| 0 <= j < names.len() ==> !is_rpp_name(#[trigger] names@[j]@),
        },
{
    let mut i: usize = 0;
    while i < names.len()
        invariant
            i <= names.len(),
            forall|j: int| 0 <= j < i ==> !is_rpp_name(#[trigger] names@[j]@),
        decreases names.len() - i,
    {
        if is_rpp(names[i].as_str()) {
            return Some(i);
        }
        i = i + 1;
    }
    None
}

/// The options given to Reaper before the session path: render the
/// project without a splash screen or a new instance.
pub fn render_options() -> (r: Vec<&'static str>)
    ensures
        r@.map_values(|s: &str| s@) == seq!["-nosplash"@, "-nonewinst"@, "-renderproject"@],
{
    let r = vec!["-nosplash", "-nonewinst", "-renderproject"];
    assert(r@.map_values(|s: &str| s@) =~= seq!["-nosplash"@, "-nonewinst"@, "-renderproject"@]);
    r
}

} // verus!
