//! Ingestion of files into a project's `assets/` directory.

use vstd::prelude::*;
use crate::paths;
use crate::text;
use crate::text::{chars_of, extend_str, lower_ascii, same_chars, slice_chars, string_of};

verus! {

/// The text after the last `.` of a file name, or the whole name when it
/// has no `.` (what `rsplit('.').next()` yields).
pub open spec fn after_last_dot(name: Seq<char>) -> Seq<char> {
    let i = paths::last_index_of(name, '.');
    if i < 0 {
        name
    } else {
        name.subrange(i + 1, name.len() as int)
    }
}

/// Audio formats, by lower-case extension.
pub open spec fn is_audio_extension(e: Seq<char>) -> bool {
    e == "wav"@ || e == "flac"@ || e == "mp3"@ || e == "aif"@ || e == "aiff"@ || e == "ogg"@
        || e == "aac"@
}

/// Image and document formats, by lower-case extension.
pub open spec fn is_reference_extension(e: Seq<char>) -> bool {
    e == "jpg"@ || e == "jpeg"@ || e == "png"@ || e == "pdf"@
}

/// The `assets/` subdirectory a file goes to, by its extension in lower
/// case: audio to `samples`, images and documents to `references`,
/// anything else to `samples`.
///
/// Upper case is folded as ASCII; no other character has a lower case
/// among the letters of these extensions, so full Unicode folding decides
/// the same.
pub open spec fn subdir_for(file_name: Seq<char>) -> Seq<char> {
    let e = text::ascii_lower(after_last_dot(file_name));
    if is_audio_extension(e) {
        "samples"@
    } else if is_reference_extension(e) {
        "references"@
    } else {
        "samples"@
    }
}

/// After the last dot of `<base>.<ext>` is `ext`, when `ext` holds no dot.
proof fn lemma_after_last_dot_dotted(base: Seq<char>, ext: Seq<char>)
    requires
        !ext.contains('.'),
    ensures
        after_last_dot(base + seq!['.'] + ext) == ext,
{
    let d = base + seq!['.'];
    paths::lemma_last_index_after(d, ext, '.');
    assert((d + ext).subrange(d.len() as int, (d + ext).len() as int) =~= ext);
}

/// Where files go by type: a file `<base>.<ext>` (no dot in the extension)
/// goes to `references` when its extension, in lower case, is `jpg`,
/// `jpeg`, `png` or `pdf`, and to `samples` when it is `wav`, `flac`,
/// `mp3`, `aif`, `aiff`, `ogg` or `aac`.
pub proof fn lemma_subdir_by_extension(base: Seq<char>, ext: Seq<char>)
    requires
        !ext.contains('.'),
    ensures
        ({
            let e = text::ascii_lower(ext);
            e == seq!['j', 'p', 'g'] || e == seq!['j', 'p', 'e', 'g'] || e == seq!['p', 'n', 'g'] || e
                == seq!['p', 'd', 'f']
        }) ==> subdir_for(base + seq!['.'] + ext) == seq!['r', 'e', 'f', 'e', 'r', 'e', 'n', 'c', 'e', 's'],
        ({
            let e = text::ascii_lower(ext);
            e == seq!['w', 'a', 'v'] || e == seq!['f', 'l', 'a', 'c'] || e == seq!['m', 'p', '3'] || e
                == seq!['a', 'i', 'f'] || e == seq!['a', 'i', 'f', 'f'] || e == seq!['o', 'g', 'g'] || e
                == seq!['a', 'a', 'c']
        }) ==> subdir_for(base + seq!['.'] + ext) == seq!['s', 'a', 'm', 'p', 'l', 'e', 's'],
{
    lemma_after_last_dot_dotted(base, ext);
    reveal_strlit("references");
    reveal_strlit("samples");
    reveal_strlit("wav");
    reveal_strlit("flac");
    reveal_strlit("mp3");
    reveal_strlit("aif");
    reveal_strlit("aiff");
    reveal_strlit("ogg");
    reveal_strlit("aac");
    reveal_strlit("jpg");
    reveal_strlit("jpeg");
    reveal_strlit("png");
    reveal_strlit("pdf");
    assert("references"@ =~= seq!['r', 'e', 'f', 'e', 'r', 'e', 'n', 'c', 'e', 's']);
    assert("samples"@ =~= seq!['s', 'a', 'm', 'p', 'l', 'e', 's']);
    let e = text::ascii_lower(ext);
    assert("jpg"@ =~= seq!['j', 'p', 'g']);
    assert("jpeg"@ =~= seq!['j', 'p', 'e', 'g']);
    assert("png"@ =~= seq!['p', 'n', 'g']);
    assert("pdf"@ =~= seq!['p', 'd', 'f']);
    assert("wav"@ =~= seq!['w', 'a', 'v']);
    assert("flac"@ =~= seq!['f', 'l', 'a', 'c']);
    assert("mp3"@ =~= seq!['m', 'p', '3']);
    assert("aif"@ =~= seq!['a', 'i', 'f']);
    assert("aiff"@ =~= seq!['a', 'i', 'f', 'f']);
    assert("ogg"@ =~= seq!['o', 'g', 'g']);
    assert("aac"@ =~= seq!['a', 'a', 'c']);
    if e == seq!['j', 'p', 'g'] || e == seq!['j', 'p', 'e', 'g'] || e == seq!['p', 'n', 'g'] || e
        == seq!['p', 'd', 'f'] {
        assert(!is_audio_extension(e)) by {
            if e.len() == 3 {
                assert(e[0] == 'j' || e[0] == 'p');
                assert(e != "wav"@ && e != "mp3"@ && e != "aif"@ && e != "ogg"@ && e != "aac"@) by {
                    assert("wav"@[0] == 'w');
                    assert("mp3"@[0] == 'm');
                    assert("aif"@[0] == 'a');
                    assert("ogg"@[0] == 'o');
                    assert("aac"@[0] == 'a');
                }
            } else {
                assert(e.len() == 4);
                assert(e != "flac"@ && e != "aiff"@) by {
                    assert("flac"@[0] == 'f');
                    assert("aiff"@[0] == 'a');
                    assert(e[0] == 'j');
                }
            }
        }
    }
}

fn is_one_of(e: &Vec<char>, words: &Vec<&'static str>) -> (r: bool)
    ensures
        r == exists|k: int| 0 <= k < words.len() && e@ == #[trigger] words@[k]@,
{
    let mut k: usize = 0;
    while k < words.len()
        invariant
            k <= words.len(),
            forall|j: int| 0 <= j < k ==> e@ != #[trigger] words@[j]@,
        decreases words.len() - k,
    {
        if same_chars(e, &chars_of(words[k])) {
            return true;
        }
        k = k + 1;
    }
    false
}

/// The `assets/` subdirectory a file goes to, by its extension.
pub fn infer_subdir(file_name: &str) -> (r: &'static str)
    ensures
        r@ == subdir_for(file_name@),
{
    let name = chars_of(file_name);
    let after = match paths::find_last(&name, '.') {
        Some(i) => slice_chars(&name, i + 1, name.len()),
        None => name,
    };
    let e = lower_ascii(&after);
    let audio = vec!["wav", "flac", "mp3", "aif", "aiff", "ogg", "aac"];
    let reference = vec!["jpg", "jpeg", "png", "pdf"];
    let is_audio = is_one_of(&e, &audio);
    let is_reference = is_one_of(&e, &reference);
    proof {
        if is_audio_extension(e@) {
            if e@ == "wav"@ { assert(e@ == audio@[0]@); }
            if e@ == "flac"@ { assert(e@ == audio@[1]@); }
            if e@ == "mp3"@ { assert(e@ == audio@[2]@); }
            if e@ == "aif"@ { assert(e@ == audio@[3]@); }
            if e@ == "aiff"@ { assert(e@ == audio@[4]@); }
            if e@ == "ogg"@ { assert(e@ == audio@[5]@); }
            if e@ == "aac"@ { assert(e@ == audio@[6]@); }
        }
        if is_reference_extension(e@) {
            if e@ == "jpg"@ { assert(e@ == reference@[0]@); }
            if e@ == "jpeg"@ { assert(e@ == reference@[1]@); }
            if e@ == "png"@ { assert(e@ == reference@[2]@); }
            if e@ == "pdf"@ { assert(e@ == reference@[3]@); }
        }
    }
    if is_audio {
        "samples"
    } else if is_reference {
        "references"
    } else {
        "samples"
    }
}

/// Where an ingested file goes: its `assets/` subdirectory (the one asked
/// for, else the one its extension implies) and its new name, prefixed
/// with the day of ingestion.
pub fn ingest_target(file_name: &str, to: Option<&str>, today: &str) -> (r: (String, String))
    ensures
        r.0@ == match to {
            Some(t) => t@,
            None => subdir_for(file_name@),
        },
        r.1@ == today@ + "-"@ + file_name@,
{
    let subdir = match to {
        Some(t) => String::from_str(t),
        None => String::from_str(infer_subdir(file_name)),
    };
    let mut v = chars_of(today);
    extend_str(&mut v, "-");
    extend_str(&mut v, file_name);
    (subdir, string_of(&v))
}

} // verus!
