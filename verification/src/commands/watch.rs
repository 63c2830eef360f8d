//! Watching a project: after each quiet period with changes outside
//! `.git/`, the working tree is committed.

use vstd::prelude::*;
use crate::clock;
use crate::clock::Moment;
use crate::config::Config;
use crate::git;
use crate::paths;
use crate::text::{chars_of, extend_str, string_of};

verus! {

/// The quiet period: the one asked for, else the configured one.
pub fn debounce_seconds(config: &Config, asked: Option<u64>) -> (r: u64)
    ensures
        r == match asked {
            Some(s) => s,
            None => config.watch_debounce_seconds,
        },
{
    match asked {
        Some(s) => s,
        None => config.watch_debounce_seconds,
    }
}

/// A batch of file events calls for a commit when at least one of them is
/// outside the repository's `.git` directory.
pub open spec fn batch_is_relevant(paths: Seq<String>, git_dir: Seq<char>) -> bool {
    exists|i: int| 0 <= i < paths.len() && !paths::path_starts_with(#[trigger] paths[i]@, git_dir)
}

/// Whether a batch of changed paths calls for a commit.
pub fn is_relevant(paths: &Vec<String>, git_dir: &str) -> (r: bool)
    ensures
        r == batch_is_relevant(paths@, git_dir@),
{
    let mut i: usize = 0;
    while i < paths.len()
        invariant
            i <= paths.len(),
            forall|j: int| 0 <= j < i ==> paths::path_starts_with(#[trigger] paths@[j]@, git_dir@),
        decreases paths.len() - i,
    {
        if !paths::starts_with_path(paths[i].as_str(), git_dir) {
            return true;
        }
        i = i + 1;
    }
    false
}

/// The message of an automatic commit.
pub open spec fn auto_message_of(at: Moment) -> Seq<char> {
    "auto: "@ + clock::minute_text(at)
}

/// The message of an automatic commit: `auto: YYYY-MM-DD HH:MM`, local
/// time.
pub fn auto_message(at: Moment) -> (r: String)
    requires
        at.valid(),
    ensures
        r@ == auto_message_of(at),
{
    let mut v = chars_of("auto: ");
    extend_str(&mut v, clock::format_minute(at).as_str());
    string_of(&v)
}

/// Automatic commits are never taken for render points.
pub proof fn lemma_auto_commit_not_snapshot(at: Moment)
    ensures
        !git::is_snapshot_message(auto_message_of(at)),
{
    reveal_strlit("auto: ");
    reveal_strlit("snapshot:");
    let m = auto_message_of(at);
    if m.len() >= 9 {
        assert(m.subrange(0, 9)[0] == 'a');
    }
}

} // verus!
