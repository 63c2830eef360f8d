//! The history of a project as the library sees it: commits read from git,
//! the status tags that point at them, and the `git lfs` calls that set a
//! repository up.

use vstd::prelude::*;
use crate::clock::Moment;
use crate::text;
use crate::text::{chars_of, has_prefix, slice_chars, string_of};

verus! {

/// The texts of a sequence of strings.
pub open spec fn texts(v: Seq<String>) -> Seq<Seq<char>> {
    v.map_values(|s: String| s@)
}

/// Prefix that marks a lifecycle status tag.
pub open spec fn status_prefix() -> Seq<char> {
    "status/"@
}

/// Prefix of the message of a snapshot commit.
pub open spec fn snapshot_marker() -> Seq<char> {
    "snapshot:"@
}

/// A tag name that records a lifecycle status.
pub open spec fn is_status_tag_name(name: Seq<char>) -> bool {
    text::is_prefix(status_prefix(), name)
}

/// A commit message that marks a render point.
pub open spec fn is_snapshot_message(message: Seq<char>) -> bool {
    text::is_prefix(snapshot_marker(), message)
}

/// One commit as a walk of the history from HEAD yields it.
pub struct RawCommit {
    /// Full hexadecimal id.
    pub id: String,
    /// First paragraph of the message, if it is valid text.
    pub summary: Option<String>,
    /// Author time, with the local UTC offset.
    pub time: Moment,
}

/// A tag, by name, and the id of the commit it resolves to.
pub struct TagTarget {
    pub name: String,
    pub commit: String,
}

/// A commit annotated for display.
pub struct CommitInfo {
    /// The first seven characters of the commit id.
    pub hash: String,
    pub message: String,
    pub time: Moment,
    pub is_snapshot: bool,
    /// Names of the status tags on this commit, in tag order.
    pub status_tags: Vec<String>,
}

/// Names of the status tags among `tags` that resolve to commit `id`, in
/// the order of `tags`.
pub open spec fn status_tags_on(tags: Seq<TagTarget>, id: Seq<char>) -> Seq<Seq<char>>
    decreases tags.len(),
{
    if tags.len() == 0 {
        seq![]
    } else {
        let rest = status_tags_on(tags.drop_last(), id);
        let t = tags.last();
        if t.commit@ == id && is_status_tag_name(t.name@) {
            rest.push(t.name@)
        } else {
            rest
        }
    }
}

/// The message shown for a commit: its summary, or nothing.
pub open spec fn message_of(c: RawCommit) -> Seq<char> {
    match c.summary {
        Some(s) => s@,
        None => seq![],
    }
}

/// `info` is the annotation of `raw` given the tags `tags`.
pub open spec fn annotates(info: CommitInfo, raw: RawCommit, tags: Seq<TagTarget>) -> bool {
    &&& info.hash@ == raw.id@.subrange(0, 7)
    &&& info.message@ == message_of(raw)
    &&& info.time == raw.time
    &&& info.is_snapshot == is_snapshot_message(message_of(raw))
    &&& texts(info.status_tags@) == status_tags_on(tags, raw.id@)
}

/// Whether a tag name records a lifecycle status.
pub fn is_status_tag(name: &str) -> (b: bool)
    ensures
        b == is_status_tag_name(name@),
{
    has_prefix(&chars_of(name), &chars_of("status/"))
}

/// Whether a commit message marks a render point.
pub fn is_snapshot(message: &str) -> (b: bool)
    ensures
        b == is_snapshot_message(message@),
{
    has_prefix(&chars_of(message), &chars_of("snapshot:"))
}

/// Positions of the status tags among the names of a repository's tags;
/// only these are resolved to commits.
pub fn status_tag_positions(names: &Vec<String>) -> (r: Vec<usize>)
    ensures
        forall|k: int| 0 <= k < r.len() ==> r@[k] < names.len(),
        forall|k: int, l: int| 0 <= k < l < r.len() ==> r@[k] < r@[l],
        forall|i: int|
            0 <= i < names.len() ==> (is_status_tag_name(names@[i]@) <==> r@.contains(i as usize)),
{
    let mut r: Vec<usize> = Vec::new();
    let mut i: usize = 0;
    while i < names.len()
        invariant
            i <= names.len(),
            forall|k: int| 0 <= k < r.len() ==> r@[k] < i,
            forall|k: int, l: int| 0 <= k < l < r.len() ==> r@[k] < r@[l],
            forall|j: int| 0 <= j < i ==> (is_status_tag_name(names@[j]@) <==> r@.contains(j as usize)),
        decreases names.len() - i,
    {
        let ghost r0 = r@;
        let b = is_status_tag(names[i].as_str());
        if b {
            r.push(i);
        }
        proof {
            assert forall|j: int| 0 <= j < i + 1 implies (is_status_tag_name(names@[j]@)
                <==> r@.contains(j as usize)) by {
                if j < i {
                    if r@.contains(j as usize) {
                        let k = choose|k: int| 0 <= k < r.len() && r@[k] == j as usize;
                        assert(k < r0.len());
                        assert(r0[k] == j as usize);
                    }
                    if r0.contains(j as usize) {
                        let k = choose|k: int| 0 <= k < r0.len() && r0[k] == j as usize;
                        assert(r@[k] == j as usize);
                    }
                } else {
                    if b {
                        assert(r@[r.len() - 1] == i);
                    } else {
                        if r@.contains(j as usize) {
                            let k = choose|k: int| 0 <= k < r.len() && r@[k] == j as usize;
                            assert(r@[k] < i);
                        }
                    }
                }
            }
        }
        i = i + 1;
    }
    r
}

/// Names of the status tags among `tags` (in their order) that resolve to
/// commit `id`.
pub fn get_status_tags_by_commit(tags: &Vec<TagTarget>, id: &String) -> (r: Vec<String>)
    ensures
        texts(r@) == status_tags_on(tags@, id@),
{
    let mut r: Vec<String> = Vec::new();
    let mut j: usize = 0;
    while j < tags.len()
        invariant
            j <= tags.len(),
            texts(r@) == status_tags_on(tags@.subrange(0, j as int), id@),
        decreases tags.len() - j,
    {
        let t = &tags[j];
        let same = text::same_str(t.commit.as_str(), id.as_str());
        let status = is_status_tag(t.name.as_str());
        let ghost before = r@;
        if same && status {
            r.push(t.name.clone());
        }
        proof {
            let sub = tags@.subrange(0, j + 1);
            assert(sub.drop_last() =~= tags@.subrange(0, j as int));
            assert(sub.last() == tags@[j as int]);
            if same && status {
                assert(texts(r@) =~= texts(before).push(t.name@));
            } else {
                assert(texts(r@) =~= texts(before));
            }
        }
        j = j + 1;
    }
    assert(tags@.subrange(0, tags.len() as int) =~= tags@);
    r
}

/// Annotates the commits of a walk of the history from HEAD, newest first:
/// short hash, message, time, whether it is a snapshot, and the status tags
/// that point at it.
pub fn get_commit_log(walk: &Vec<RawCommit>, tags: &Vec<TagTarget>) -> (r: Vec<CommitInfo>)
    requires
        forall|i: int| 0 <= i < walk.len() ==> #[trigger] walk@[i].id@.len() >= 7,
    ensures
        r.len() == walk.len(),
        forall|i: int| 0 <= i < walk.len() ==> annotates(#[trigger] r@[i], walk@[i], tags@),
{
    let mut r: Vec<CommitInfo> = Vec::new();
    let mut i: usize = 0;
    while i < walk.len()
        invariant
            i <= walk.len(),
            r.len() == i,
            forall|i: int| 0 <= i < walk.len() ==> #[trigger] walk@[i].id@.len() >= 7,
            forall|k: int| 0 <= k < i ==> annotates(#[trigger] r@[k], walk@[k], tags@),
        decreases walk.len() - i,
    {
        let c = &walk[i];
        let id = chars_of(c.id.as_str());
        assert(walk@[i as int].id@.len() >= 7);
        let hash = string_of(&slice_chars(&id, 0, 7));
        let message = match &c.summary {
            Some(s) => s.clone(),
            None => String::new(),
        };
        let snapshot = is_snapshot(message.as_str());
        let status_tags = get_status_tags_by_commit(tags, &c.id);
        r.push(CommitInfo { hash, message, time: c.time, is_snapshot: snapshot, status_tags });
        i = i + 1;
    }
    r
}

/// The argument lists of the `git lfs` runs that set a repository up: one
/// `install`, then one `track "*.<ext>"` per extension, in order.
pub fn init_lfs(extensions: &Vec<String>) -> (r: Vec<Vec<String>>)
    ensures
        r.len() == extensions.len() + 1,
        texts(r@[0]@) == seq!["install"@],
        forall|i: int|
            0 <= i < extensions.len() ==> texts(#[trigger] r@[i + 1]@) == seq![
                "track"@,
                "*."@ + extensions@[i]@,
            ],
{
    let mut r: Vec<Vec<String>> = Vec::new();
    let mut first: Vec<String> = Vec::new();
    first.push(String::from_str("install"));
    proof {
        assert(texts(first@) =~= seq!["install"@]);
    }
    r.push(first);
    let mut i: usize = 0;
    while i < extensions.len()
        invariant
            i <= extensions.len(),
            r.len() == i + 1,
            texts(r@[0]@) == seq!["install"@],
            forall|k: int|
                0 <= k < i ==> texts(#[trigger] r@[k + 1]@) == seq!["track"@, "*."@ + extensions@[k]@],
        decreases extensions.len() - i,
    {
        let mut pattern = String::from_str("*.");
        pattern.append(extensions[i].as_str());
        let mut args: Vec<String> = Vec::new();
        args.push(String::from_str("track"));
        args.push(pattern);
        proof {
            assert(texts(args@) =~= seq!["track"@, "*."@ + extensions@[i as int]@]);
        }
        r.push(args);
        i = i + 1;
    }
    r
}

} // verus!
