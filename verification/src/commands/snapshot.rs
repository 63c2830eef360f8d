//! Snapshots: a commit marked as a render point, after rendering the
//! Reaper session when there is one.

use vstd::prelude::*;
use crate::config::Config;
use crate::git;
use crate::reaper;
use crate::text::{chars_of, extend_str, string_of};

verus! {

/// A render to run: the Reaper command and the position of the session
/// among the directory entries.
pub struct RenderJob {
    pub command: String,
    pub session: usize,
}

/// Decides whether to render before a snapshot. Nothing is rendered when no
/// Reaper command is configured; otherwise the first `.rpp` entry of the
/// project directory (listed in `entries`) is rendered, if there is one.
pub fn render_if_available(config: &Config, entries: &Vec<String>) -> (r: Option<RenderJob>)
    ensures
        config.reaper_command is None ==> r is None,
        config.reaper_command matches Some(cmd) ==> match r {
            Some(job) => job.command == cmd && job.session < entries.len() && reaper::is_rpp_name(
                entries@[job.session as int]@,
            ) && forall|j: int|
                0 <= j < job.session ==> !reaper::is_rpp_name(#[trigger] entries@[j]@),
            None => forall|j: int| 0 <= j < entries.len() ==> !reaper::is_rpp_name(#[trigger] entries@[j]@),
        },
{
    match &config.reaper_command {
        None => None,
        Some(cmd) => match reaper::find_rpp(entries) {
            Some(i) => Some(RenderJob { command: cmd.clone(), session: i }),
            None => None,
        },
    }
}

/// The label of a snapshot: the given message, or `render`.
pub fn snapshot_label(message: Option<&str>) -> (r: String)
    ensures
        match message {
            Some(m) => r@ == m@,
            None => r@ == "render"@,
        },
{
    match message {
        Some(m) => String::from_str(m),
        None => String::from_str("render"),
    }
}

/// The commit message of a snapshot.
pub open spec fn snapshot_message_of(label: Seq<char>) -> Seq<char> {
    "snapshot: "@ + label
}

/// The commit message of a snapshot: `snapshot: <label>`.
pub fn snapshot_message(label: &str) -> (r: String)
    ensures
        r@ == snapshot_message_of(label@),
{
    let mut v = chars_of("snapshot: ");
    extend_str(&mut v, label);
    string_of(&v)
}

/// Every snapshot commit is recognised as a render point: its message
/// carries the snapshot marker that the timeline and dashboard look for.
pub proof fn lemma_snapshot_is_marked(label: Seq<char>)
    ensures
        git::is_snapshot_message(snapshot_message_of(label)),
{
    reveal_strlit("snapshot: ");
    reveal_strlit("snapshot:");
    assert(snapshot_message_of(label).subrange(0, 9) =~= git::snapshot_marker());
}

/// A commit made by `snapshot` shows in the history as a render point:
/// whatever its label, the annotation of a commit whose summary is the
/// snapshot message marks it as a snapshot.
pub proof fn lemma_snapshot_commit_marked(
    label: Seq<char>,
    raw: git::RawCommit,
    tags: Seq<git::TagTarget>,
    info: git::CommitInfo,
)
    requires
        git::message_of(raw) == snapshot_message_of(label),
        git::annotates(info, raw, tags),
    ensures
        info.is_snapshot,
{
    lemma_snapshot_is_marked(label);
}

} // verus!
