//! Opening a project or seed: its DAW session and the editor.

use vstd::prelude::*;
use crate::paths;
use crate::text;
use crate::text::{chars_of, lower_ascii, same_chars, utf8_byte_len};

verus! {

/// Extensions of DAW session files, in lower case.
pub open spec fn is_daw_extension(e: Seq<char>) -> bool {
    e == "rpp"@ || e == "bwproject"@ || e == "logicx"@ || e == "song"@
}

/// An entry of a project directory: its name and whether it is a file.
pub struct DirEntryInfo {
    pub name: String,
    pub is_file: bool,
}

/// A DAW session file: a file whose extension, in lower case, is one of
/// the DAW extensions. (ASCII folding decides as full Unicode folding does
/// here: no other character has a lower case among these letters.)
pub open spec fn is_daw_file(e: DirEntryInfo) -> bool {
    e.is_file && match paths::extension_of(e.name@) {
        Some(ext) => is_daw_extension(text::ascii_lower(ext)),
        None => false,
    }
}

/// Which entries are DAW sessions: a file `<base>.<ext>` (non-empty base,
/// no dot in the extension) is one exactly when its extension, in lower
/// case, is `rpp`, `bwproject`, `logicx` or `song`; a directory never is.
pub proof fn lemma_daw_file_by_extension(base: Seq<char>, ext: Seq<char>, is_file: bool, e: DirEntryInfo)
    requires
        base.len() > 0,
        !ext.contains('.'),
        e.name@ == base + seq!['.'] + ext,
        e.is_file == is_file,
    ensures
        is_daw_file(e) <==> is_file && ({
            let l = text::ascii_lower(ext);
            ||| l == seq!['r', 'p', 'p']
            ||| l == seq!['b', 'w', 'p', 'r', 'o', 'j', 'e', 'c', 't']
            ||| l == seq!['l', 'o', 'g', 'i', 'c', 'x']
            ||| l == seq!['s', 'o', 'n', 'g']
        }),
{
    reveal_strlit("rpp");
    reveal_strlit("bwproject");
    reveal_strlit("logicx");
    reveal_strlit("song");
    assert("rpp"@ =~= seq!['r', 'p', 'p']);
    assert("bwproject"@ =~= seq!['b', 'w', 'p', 'r', 'o', 'j', 'e', 'c', 't']);
    assert("logicx"@ =~= seq!['l', 'o', 'g', 'i', 'c', 'x']);
    assert("song"@ =~= seq!['s', 'o', 'n', 'g']);
    paths::lemma_extension_of_dotted(base, ext);
    if e.name@ == seq!['.', '.'] {
        assert(ext.len() == 0);
        assert(text::ascii_lower(ext).len() == 0);
    }
}

fn daw_file(e: &DirEntryInfo) -> (r: bool)
    ensures
        r == is_daw_file(*e),
{
    if !e.is_file {
        return false;
    }
    match paths::extension(&chars_of(e.name.as_str())) {
        None => false,
        Some(ext) => {
            let l = lower_ascii(&ext);
            same_chars(&l, &chars_of("rpp")) || same_chars(&l, &chars_of("bwproject")) || same_chars(
                &l,
                &chars_of("logicx"),
            ) || same_chars(&l, &chars_of("song"))
        },
    }
}

/// The session file to open among the entries of a project directory: the
/// DAW file with the shortest name (in bytes), the first listed among
/// equally short ones.
pub fn find_daw_file(entries: &Vec<DirEntryInfo>) -> (r: Option<usize>)
    ensures
        match r {
            Some(i) => i < entries.len() && is_daw_file(entries@[i as int]) && (forall|j: int|
                0 <= j < entries.len() && is_daw_file(#[trigger] entries@[j]) ==> text::utf8_len(
                    entries@[i as int].name@,
                ) <= text::utf8_len(entries@[j].name@)) && (forall|j: int|
                0 <= j < i && is_daw_file(#[trigger] entries@[j]) ==> text::utf8_len(
                    entries@[i as int].name@,
                ) < text::utf8_len(entries@[j].name@)),
            None => forall|j: int| 0 <= j < entries.len() ==> !is_daw_file(#[trigger] entries@[j]),
        },
{
    let mut best: Option<usize> = None;
    let mut best_len: u128 = 0;
    let mut i: usize = 0;
    while i < entries.len()
        invariant
            i <= entries.len(),
            match best {
                Some(b) => b < i && is_daw_file(entries@[b as int]) && best_len == text::utf8_len(
                    entries@[b as int].name@,
                ) && (forall|j: int|
                    0 <= j < i && is_daw_file(#[trigger] entries@[j]) ==> best_len <= text::utf8_len(
                        entries@[j].name@,
                    )) && (forall|j: int|
                    0 <= j < b && is_daw_file(#[trigger] entries@[j]) ==> best_len < text::utf8_len(
                        entries@[j].name@,
                    )),
                None => forall|j: int| 0 <= j < i ==> !is_daw_file(#[trigger] entries@[j]),
            },
        decreases entries.len() - i,
    {
        if daw_file(&entries[i]) {
            let len = utf8_byte_len(&chars_of(entries[i].name.as_str()));
            match best {
                None => {
                    best = Some(i);
                    best_len = len;
                },
                Some(b) => {
                    if len < best_len {
                        best = Some(i);
                        best_len = len;
                    }
                },
            }
        }
        i = i + 1;
    }
    best
}

} // verus!
