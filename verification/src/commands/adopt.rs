//! Adoption of existing directories as projects: missing directories and
//! files are added, nothing present is overwritten.

use vstd::prelude::*;
use crate::commands::init;
use crate::order;
use crate::text;
use crate::text::{chars_of, extend_str, is_text_less, string_of};

verus! {

/// The name a directory is adopted under: its file name, or `unknown`.
pub fn adopt_name(file_name: Option<String>) -> (r: String)
    ensures
        match file_name {
            Some(n) => r == n,
            None => r@ == "unknown"@,
        },
{
    match file_name {
        Some(n) => n,
        None => String::from_str("unknown"),
    }
}

/// The message of the commit that records an adoption.
pub fn adopt_message(name: &str) -> (r: String)
    ensures
        r@ == "adopt: "@ + name@,
{
    let mut v = chars_of("adopt: ");
    extend_str(&mut v, name);
    string_of(&v)
}

/// A file to write into the project root.
pub struct FileToWrite {
    pub file_name: &'static str,
    pub contents: String,
}

/// The files to write into an adopted directory: the starting `song.yaml`,
/// `notes.md` and `.gitignore` of a new project, each only if missing, in
/// that order.
pub fn missing_files(
    name: &str,
    today: &str,
    has_song_yaml: bool,
    has_notes: bool,
    has_gitignore: bool,
) -> (r: Vec<FileToWrite>)
    ensures
        r.len() == (if has_song_yaml { 0int } else { 1int }) + (if has_notes { 0int } else { 1int })
            + (if has_gitignore { 0int } else { 1int }),
        !has_song_yaml ==> r@[0].file_name@ == "song.yaml"@ && r@[0].contents@
            == init::song_yaml_of(name@, today@),
        !has_notes ==> ({
            let k = if has_song_yaml { 0int } else { 1int };
            r@[k].file_name@ == "notes.md"@ && r@[k].contents@ == "# "@ + name@ + "\n"@
        }),
        !has_gitignore ==> ({
            let k = r.len() - 1;
            r@[k].file_name@ == ".gitignore"@ && r@[k].contents@
                == "*.reapeaks\n*.bwproject.cache/\n.DS_Store\nThumbs.db\n"@
        }),
{
    let mut r: Vec<FileToWrite> = Vec::new();
    if !has_song_yaml {
        r.push(FileToWrite { file_name: "song.yaml", contents: init::song_yaml(name, today) });
    }
    if !has_notes {
        r.push(FileToWrite { file_name: "notes.md", contents: init::notes_md(name) });
    }
    if !has_gitignore {
        r.push(FileToWrite { file_name: ".gitignore", contents: init::gitignore() });
    }
    r
}

/// In `adopt --all`, directory `i` of `names` is handled before directory
/// `j`: its name comes first, or the names are equal and it is listed first.
pub open spec fn handled_before(names: Seq<Seq<char>>, i: int, j: int) -> bool {
    text::text_less(names[i], names[j]) || (!text::text_less(names[j], names[i]) && i < j)
}

/// `order` lists every position of `names` once, in name order.
pub open spec fn is_name_order(names: Seq<Seq<char>>, order: Seq<usize>) -> bool {
    &&& order.len() == names.len()
    &&& order::distinct_below(order, names.len() as int)
    &&& order::ranked(order, |i: int, j: int| handled_before(names, i, j))
}

/// The order in which `adopt --all` handles the directories: sorted by name.
pub fn name_order(names: &Vec<String>) -> (order: Vec<usize>)
    ensures
        is_name_order(names@.map_values(|s: String| s@), order@),
{
    let ghost t = names@.map_values(|s: String| s@);
    let ghost before = |i: int, j: int| handled_before(t, i, j);
    let mut order: Vec<usize> = Vec::new();
    let mut i: usize = 0;
    while i < names.len()
        invariant
            t == names@.map_values(|s: String| s@),
            before == (|i: int, j: int| handled_before(t, i, j)),
            i <= names.len(),
            order.len() == i,
            order::distinct_below(order@, i as int),
            order::ranked(order@, before),
        decreases names.len() - i,
    {
        let key = chars_of(names[i].as_str());
        let mut p: usize = 0;
        while p < order.len()
            invariant
                t == names@.map_values(|s: String| s@),
                i < names.len(),
                key@ == t[i as int],
                p <= order.len(),
                order::distinct_below(order@, i as int),
                forall|a: int| 0 <= a < p ==> !text::text_less(t[i as int], #[trigger] t[order@[a] as int]),
            ensures
                p <= order.len(),
                forall|a: int| 0 <= a < p ==> !text::text_less(t[i as int], #[trigger] t[order@[a] as int]),
                p < order.len() ==> text::text_less(t[i as int], t[order@[p as int] as int]),
            decreases order.len() - p,
        {
            let other = chars_of(names[order[p]].as_str());
            if is_text_less(&key, &other) {
                break;
            }
            p = p + 1;
        }
        proof {
            let old_order = order@;
            assert forall|b: int| p <= b < old_order.len() implies before(
                i as int,
                #[trigger] old_order[b] as int,
            ) by {
                if b > p {
                    let x = t[old_order[p as int] as int];
                    let y = t[old_order[b] as int];
                    assert(before(old_order[p as int] as int, old_order[b] as int));
                    if text::text_less(x, y) {
                        text::lemma_text_less_transitive(t[i as int], x, y);
                    } else {
                        text::lemma_text_less_total(x, y);
                    }
                }
            }
            assert forall|a: int| 0 <= a < p implies before(#[trigger] old_order[a] as int, i as int) by {}
            order::lemma_insert_ranked(old_order, p as int, i, before);
        }
        order.insert(p, i);
        i = i + 1;
    }
    order
}

} // verus!
