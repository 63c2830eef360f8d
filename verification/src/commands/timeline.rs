//! The timeline of one project: its history, newest first, with render
//! points and status changes marked.

use vstd::prelude::*;
use crate::clock;
use crate::git::CommitInfo;
use crate::text;
use crate::text::{chars_of, extend_str, push_decimal, string_of};

verus! {

/// The heading of the timeline: `<title>  (<n> commits)`.
pub fn timeline_header(title: &str, commit_count: usize) -> (r: String)
    ensures
        r@ == title@ + "  ("@ + text::decimal(commit_count as nat) + " commits)"@,
{
    let mut v = chars_of(title);
    extend_str(&mut v, "  (");
    push_decimal(&mut v, commit_count as u64);
    extend_str(&mut v, " commits)");
    string_of(&v)
}

/// One line of the timeline: the plain text, whether it is shown
/// highlighted (a render point), and the status labels that follow it.
pub struct TimelineLine {
    pub text: String,
    pub highlighted: bool,
    /// `[<tag>]` for each status tag on the commit.
    pub tags: Vec<String>,
}

/// The plain text of a commit's line: local time, short hash and message,
/// followed by `[snapshot]` for a render point.
pub open spec fn line_text(c: CommitInfo) -> Seq<char> {
    let base = clock::minute_text(c.time) + "  "@ + c.hash@ + "  "@ + c.message@;
    if c.is_snapshot {
        base + "  [snapshot]"@
    } else {
        base
    }
}

/// Every line of the timeline, render point or not, starts with the
/// commit's local time, two spaces, the short hash, two spaces and the
/// message; a render point's line is the same line followed by
/// `  [snapshot]`, and an ordinary commit's line ends there.
pub proof fn lemma_line_layout(c: CommitInfo)
    ensures
        line_text(c).subrange(0, clock::minute_text(c.time).len() + 2int) == clock::minute_text(c.time)
            + seq![' ', ' '],
        c.is_snapshot ==> line_text(c) == clock::minute_text(c.time) + seq![' ', ' '] + c.hash@
            + seq![' ', ' '] + c.message@ + seq![' ', ' ', '[', 's', 'n', 'a', 'p', 's', 'h', 'o', 't', ']'],
        !c.is_snapshot ==> line_text(c) == clock::minute_text(c.time) + seq![' ', ' '] + c.hash@
            + seq![' ', ' '] + c.message@,
{
    reveal_strlit("  ");
    reveal_strlit("  [snapshot]");
    assert("  "@ =~= seq![' ', ' ']);
    assert("  [snapshot]"@ =~= seq![' ', ' ', '[', 's', 'n', 'a', 'p', 's', 'h', 'o', 't', ']']);
    let t = clock::minute_text(c.time);
    let l = line_text(c);
    assert(l.subrange(0, t.len() + 2int) =~= t + seq![' ', ' ']);
}

/// The label of a status tag: the tag name in brackets.
pub open spec fn tag_label(tag: Seq<char>) -> Seq<char> {
    "["@ + tag + "]"@
}

/// The timeline line of one commit.
pub fn timeline_line(c: &CommitInfo) -> (r: TimelineLine)
    requires
        c.time.valid(),
    ensures
        r.text@ == line_text(*c),
        r.highlighted == c.is_snapshot,
        r.tags.len() == c.status_tags.len(),
        forall|k: int| 0 <= k < r.tags.len() ==> #[trigger] r.tags@[k]@ == tag_label(c.status_tags@[k]@),
{
    let mut v = chars_of(clock::format_minute(c.time).as_str());
    extend_str(&mut v, "  ");
    extend_str(&mut v, c.hash.as_str());
    extend_str(&mut v, "  ");
    extend_str(&mut v, c.message.as_str());
    if c.is_snapshot {
        extend_str(&mut v, "  [snapshot]");
    }
    let mut tags: Vec<String> = Vec::new();
    let mut k: usize = 0;
    while k < c.status_tags.len()
        invariant
            k <= c.status_tags.len(),
            tags.len() == k,
            forall|j: int| 0 <= j < k ==> #[trigger] tags@[j]@ == tag_label(c.status_tags@[j]@),
        decreases c.status_tags.len() - k,
    {
        let mut t = chars_of("[");
        extend_str(&mut t, c.status_tags[k].as_str());
        extend_str(&mut t, "]");
        tags.push(string_of(&t));
        k = k + 1;
    }
    TimelineLine { text: string_of(&v), highlighted: c.is_snapshot, tags }
}

/// The timeline lines of a commit log, in log order.
pub fn timeline_lines(commits: &Vec<CommitInfo>) -> (r: Vec<TimelineLine>)
    requires
        forall|i: int| 0 <= i < commits.len() ==> (#[trigger] commits@[i]).time.valid(),
    ensures
        r.len() == commits.len(),
        forall|i: int|
            0 <= i < commits.len() ==> (#[trigger] r@[i]).text@ == line_text(commits@[i])
                && r@[i].highlighted == commits@[i].is_snapshot && r@[i].tags.len()
                == commits@[i].status_tags.len() && forall|k: int|
                0 <= k < r@[i].tags.len() ==> #[trigger] r@[i].tags@[k]@ == tag_label(
                    commits@[i].status_tags@[k]@,
                ),
{
    let mut r: Vec<TimelineLine> = Vec::new();
    let mut i: usize = 0;
    while i < commits.len()
        invariant
            i <= commits.len(),
            r.len() == i,
            forall|i: int| 0 <= i < commits.len() ==> (#[trigger] commits@[i]).time.valid(),
            forall|j: int|
                0 <= j < i ==> (#[trigger] r@[j]).text@ == line_text(commits@[j])
                    && r@[j].highlighted == commits@[j].is_snapshot && r@[j].tags.len()
                    == commits@[j].status_tags.len() && forall|k: int|
                    0 <= k < r@[j].tags.len() ==> #[trigger] r@[j].tags@[k]@ == tag_label(
                        commits@[j].status_tags@[k]@,
                    ),
        decreases commits.len() - i,
    {
        r.push(timeline_line(&commits[i]));
        i = i + 1;
    }
    r
}

} // verus!
