//! The dashboard: one summary line per project, most recently active first.

use vstd::prelude::*;
use crate::clock;
use crate::clock::{Moment, Now};
use crate::git;
use crate::order;
use crate::git::CommitInfo;
use crate::commands::status;
use crate::text;
use crate::text::{chars_of, extend_chars, has_prefix, push_decimal, push_padded, slice_chars, string_of};

verus! {

/// What the dashboard shows of one project.
pub struct ProjectSummary {
    /// Directory name.
    pub name: String,
    /// Title from `song.yaml`.
    pub title: String,
    pub commit_count: usize,
    /// Time of the newest commit, or the time of the reading when there is
    /// no commit.
    pub last_activity: Moment,
    /// Sub-second part of `last_activity` (zero for a commit time).
    pub last_activity_nanos: u32,
    /// The status tag on the newest commit that carries one.
    pub current_status: Option<String>,
    /// Time of that commit.
    pub status_since: Option<Moment>,
}

/// Position of the newest commit that carries a status tag.
fn first_tagged_index(commits: &Vec<CommitInfo>) -> (r: Option<usize>)
    ensures
        match r {
            Some(k) => k < commits.len() && commits@[k as int].status_tags.len() > 0 && forall|j: int|
                0 <= j < k ==> commits@[j].status_tags.len() == 0,
            None => forall|k: int| 0 <= k < commits.len() ==> commits@[k].status_tags.len() == 0,
        },
{
    let mut i: usize = 0;
    while i < commits.len()
        invariant
            i <= commits.len(),
            forall|j: int| 0 <= j < i ==> commits@[j].status_tags.len() == 0,
        decreases commits.len() - i,
    {
        if commits[i].status_tags.len() > 0 {
            return Some(i);
        }
        i = i + 1;
    }
    None
}

/// Summarises one project from its directory name, its title and its
/// commit log (newest first).
pub fn build_summary(name: String, title: String, commits: &Vec<CommitInfo>, now: Now) -> (r:
    ProjectSummary)
    ensures
        r.name == name,
        r.title == title,
        r.commit_count == commits.len(),
        commits.len() > 0 ==> r.last_activity == commits@[0].time && r.last_activity_nanos == 0,
        commits.len() == 0 ==> r.last_activity == now.moment() && r.last_activity_nanos
            == now.nanos,
        match r.current_status {
            Some(tag) => exists|k: int|
                0 <= k < commits.len() && commits@[k].status_tags.len() > 0 && (forall|j: int|
                    0 <= j < k ==> commits@[j].status_tags.len() == 0) && tag@
                    == commits@[k].status_tags@[0]@ && r.status_since == Some(commits@[k].time),
            None => r.status_since is None && forall|k: int|
                0 <= k < commits.len() ==> commits@[k].status_tags.len() == 0,
        },
{
    let commit_count = commits.len();
    let (last_activity, last_activity_nanos) = if commits.len() > 0 {
        (commits[0].time, 0)
    } else {
        (now.to_moment(), now.nanos)
    };
    let (current_status, status_since) = match first_tagged_index(commits) {
        Some(k) => (Some(commits[k].status_tags[0].clone()), Some(commits[k].time)),
        None => (None, None),
    };
    ProjectSummary { name, title, commit_count, last_activity, last_activity_nanos, current_status, status_since }
}

/// `a` was active strictly later than `b`.
pub open spec fn active_later(a: ProjectSummary, b: ProjectSummary) -> bool {
    a.last_activity.secs > b.last_activity.secs || (a.last_activity.secs == b.last_activity.secs
        && a.last_activity_nanos > b.last_activity_nanos)
}

/// In the dashboard, project `i` of `v` is listed before project `j`: it was
/// active later, or as late and comes first in `v` (the sort is stable).
pub open spec fn listed_before(v: Seq<ProjectSummary>, i: int, j: int) -> bool {
    active_later(v[i], v[j]) || (!active_later(v[j], v[i]) && i < j)
}

/// `order` lists every position of `v` exactly once, most recently active
/// first, ties in the order of `v`.
pub open spec fn is_activity_order(v: Seq<ProjectSummary>, order: Seq<usize>) -> bool {
    &&& order.len() == v.len()
    &&& order::distinct_below(order, v.len() as int)
    &&& order::ranked(order, |i: int, j: int| listed_before(v, i, j))
}

fn is_active_later(a: &ProjectSummary, b: &ProjectSummary) -> (r: bool)
    ensures
        r == active_later(*a, *b),
{
    a.last_activity.secs > b.last_activity.secs || (a.last_activity.secs == b.last_activity.secs
        && a.last_activity_nanos > b.last_activity_nanos)
}

/// The order in which the dashboard lists the projects: most recently
/// active first, projects active at the same instant in their given order.
pub fn activity_order(v: &Vec<ProjectSummary>) -> (order: Vec<usize>)
    ensures
        is_activity_order(v@, order@),
{
    let ghost before = |i: int, j: int| listed_before(v@, i, j);
    let mut order: Vec<usize> = Vec::new();
    let mut i: usize = 0;
    while i < v.len()
        invariant
            before == (|i: int, j: int| listed_before(v@, i, j)),
            i <= v.len(),
            order.len() == i,
            order::distinct_below(order@, i as int),
            order::ranked(order@, before),
        decreases v.len() - i,
    {
        let mut p: usize = 0;
        while p < order.len()
            invariant
                i < v.len(),
                p <= order.len(),
                order::distinct_below(order@, i as int),
                forall|a: int| 0 <= a < p ==> !active_later(v@[i as int], #[trigger] v@[order@[a] as int]),
            ensures
                p <= order.len(),
                forall|a: int| 0 <= a < p ==> !active_later(v@[i as int], #[trigger] v@[order@[a] as int]),
                p < order.len() ==> active_later(v@[i as int], v@[order@[p as int] as int]),
            decreases order.len() - p,
        {
            if is_active_later(&v[i], &v[order[p]]) {
                break;
            }
            p = p + 1;
        }
        proof {
            let old_order = order@;
            // everything from p on was active strictly earlier than v[i]
            assert forall|b: int| p <= b < old_order.len() implies before(
                i as int,
                #[trigger] old_order[b] as int,
            ) by {
                if b > p {
                    assert(before(old_order[p as int] as int, old_order[b] as int));
                }
            }
            assert forall|a: int| 0 <= a < p implies before(#[trigger] old_order[a] as int, i as int) by {}
            order::lemma_insert_ranked(old_order, p as int, i, before);
        }
        order.insert(p, i);
        i = i + 1;
    }
    order
}

/// A status tag with every leading `status/` removed, as
/// `str::trim_start_matches("status/")` leaves it.
pub open spec fn trim_status_prefix(s: Seq<char>) -> Seq<char>
    decreases s.len(),
{
    if s.len() >= 7 && s.subrange(0, 7) == git::status_prefix() {
        trim_status_prefix(s.subrange(7, s.len() as int))
    } else {
        s
    }
}

/// What the status column shows: the stage of the current status tag, or
/// an em dash.
pub open spec fn status_label_of(current: Option<String>) -> Seq<char> {
    match current {
        Some(tag) => trim_status_prefix(tag@),
        None => seq!['\u{2014}'],
    }
}

/// The text of the status column.
pub fn status_label(current: &Option<String>) -> (r: Vec<char>)
    ensures
        r@ == status_label_of(*current),
{
    match current {
        None => {
            let mut r: Vec<char> = Vec::new();
            r.push('\u{2014}');
            r
        },
        Some(tag) => {
            let prefix = chars_of("status/");
            proof {
                reveal_strlit("status/");
            }
            let mut cur = chars_of(tag.as_str());
            while has_prefix(&cur, &prefix)
                invariant
                    prefix@ == git::status_prefix(),
                    prefix@.len() == 7,
                    trim_status_prefix(cur@) == trim_status_prefix(tag@),
                decreases cur.len(),
            {
                cur = slice_chars(&cur, 7, cur.len());
            }
            cur
        },
    }
}

/// How long ago a number of whole days is, as the dashboard puts it.
pub open spec fn duration_text(days: int) -> Seq<char> {
    if days < 1 {
        "today"@
    } else if days < 7 {
        text::decimal(days as nat) + "d"@
    } else if days < 30 {
        text::decimal((days / 7) as nat) + "w"@
    } else if days < 365 {
        text::decimal((days / 30) as nat) + "mo"@
    } else {
        text::decimal((days / 365) as nat) + "y"@
    }
}

/// How long a project has been in its current stage: `today`, or whole
/// days, weeks, months (of 30 days) or years (of 365 days).
pub fn human_duration(since: Moment, now: Now) -> (r: String)
    requires
        now.valid(),
        clock::in_time_range(since.secs as int),
    ensures
        r@ == duration_text(clock::whole_days_between(now.secs as int, now.nanos as int, since.secs as int)),
{
    let days = clock::days_since(now, since.secs);
    if days < 1 {
        return String::from_str("today");
    }
    let mut v: Vec<char> = Vec::new();
    if days < 7 {
        push_decimal(&mut v, days as u64);
        text::extend_str(&mut v, "d");
    } else if days < 30 {
        push_decimal(&mut v, (days / 7) as u64);
        text::extend_str(&mut v, "w");
    } else if days < 365 {
        push_decimal(&mut v, (days / 30) as u64);
        text::extend_str(&mut v, "mo");
    } else {
        push_decimal(&mut v, (days / 365) as u64);
        text::extend_str(&mut v, "y");
    }
    string_of(&v)
}

/// One line of the dashboard table: the five columns left-aligned in
/// fields of 22, 13, 15 and 10 characters, separated by single spaces, as
/// `"{:<22} {:<13} {:<15} {:<10} {}"` lays them out.
pub open spec fn table_line(
    c1: Seq<char>,
    c2: Seq<char>,
    c3: Seq<char>,
    c4: Seq<char>,
    c5: Seq<char>,
) -> Seq<char> {
    text::pad_right(c1, 22) + seq![' '] + text::pad_right(c2, 13) + seq![' '] + text::pad_right(
        c3,
        15,
    ) + seq![' '] + text::pad_right(c4, 10) + seq![' '] + c5
}

fn push_table_line(
    c1: &Vec<char>,
    c2: &Vec<char>,
    c3: &Vec<char>,
    c4: &Vec<char>,
    c5: &Vec<char>,
) -> (r: String)
    ensures
        r@ == table_line(c1@, c2@, c3@, c4@, c5@),
{
    let mut v: Vec<char> = Vec::new();
    push_padded(&mut v, c1, 22);
    v.push(' ');
    push_padded(&mut v, c2, 13);
    v.push(' ');
    push_padded(&mut v, c3, 15);
    v.push(' ');
    push_padded(&mut v, c4, 10);
    v.push(' ');
    extend_chars(&mut v, c5);
    string_of(&v)
}

/// The header line of the table (shown in bold).
pub fn header_line() -> (r: String)
    ensures
        r@ == table_line("PROJECT"@, "STATUS"@, "LAST ACTIVE"@, "COMMITS"@, "IN STAGE"@),
{
    push_table_line(
        &chars_of("PROJECT"),
        &chars_of("STATUS"),
        &chars_of("LAST ACTIVE"),
        &chars_of("COMMITS"),
        &chars_of("IN STAGE"),
    )
}

/// The line under the header: 72 dashes.
pub fn rule_line() -> (r: String)
    ensures
        r@ == Seq::new(72, |i: int| '-'),
{
    let mut v: Vec<char> = Vec::new();
    let mut k: usize = 0;
    while k < 72
        invariant
            k <= 72,
            v@ == Seq::new(k as nat, |i: int| '-'),
        decreases 72 - k,
    {
        v.push('-');
        k = k + 1;
        assert(v@ =~= Seq::new(k as nat, |i: int| '-'));
    }
    string_of(&v)
}

/// The instants of a summary are within the range the library formats.
pub open spec fn summary_in_range(s: ProjectSummary) -> bool {
    &&& s.last_activity.valid()
    &&& s.status_since matches Some(m) ==> clock::in_time_range(m.secs as int)
}

/// What the "in stage" column shows.
pub open spec fn in_stage_text(since: Option<Moment>, now: Now) -> Seq<char> {
    match since {
        Some(m) => duration_text(clock::whole_days_between(now.secs as int, now.nanos as int, m.secs as int)),
        None => seq!['\u{2014}'],
    }
}

/// The table line of one project.
pub open spec fn summary_line_text(s: ProjectSummary, now: Now) -> Seq<char> {
    table_line(
        s.name@,
        status_label_of(s.current_status),
        clock::day_text(s.last_activity),
        text::decimal(s.commit_count as nat),
        in_stage_text(s.status_since, now),
    )
}

/// The time a project has spent in its stage is counted from the commit
/// that carries its current status tag, never from its last activity: the
/// line ends with a space and the duration from `status_since` to now (an
/// em dash when there is no status), so it does not depend on
/// `last_activity`.
pub proof fn lemma_in_stage_counts_from_status_commit(s: ProjectSummary, now: Now)
    ensures
        ({
            let l = summary_line_text(s, now);
            let d = match s.status_since {
                Some(m) => duration_text(
                    clock::whole_days_between(now.secs as int, now.nanos as int, m.secs as int),
                ),
                None => seq!['\u{2014}'],
            };
            l.len() >= d.len() + 1 && l.subrange(l.len() - d.len() - 1, l.len() as int) == seq![' ']
                + d
        }),
{
    let l = summary_line_text(s, now);
    let d = match s.status_since {
        Some(m) => duration_text(clock::whole_days_between(now.secs as int, now.nanos as int, m.secs as int)),
        None => seq!['\u{2014}'],
    };
    assert(l.subrange(l.len() - d.len() - 1, l.len() as int) =~= seq![' '] + d);
}

/// The table line of one project: name, stage, day of last activity,
/// number of commits, time in the current stage.
pub fn summary_line(s: &ProjectSummary, now: Now) -> (r: String)
    requires
        now.valid(),
        summary_in_range(*s),
    ensures
        r@ == summary_line_text(*s, now),
{
    let name = chars_of(s.name.as_str());
    let status = status_label(&s.current_status);
    let day = chars_of(clock::format_day(s.last_activity).as_str());
    let mut count: Vec<char> = Vec::new();
    push_decimal(&mut count, s.commit_count as u64);
    let in_stage = match s.status_since {
        Some(m) => chars_of(human_duration(m, now).as_str()),
        None => {
            let mut d: Vec<char> = Vec::new();
            d.push('\u{2014}');
            d
        },
    };
    push_table_line(&name, &status, &day, &count, &in_stage)
}

/// The lines of the dashboard table below the header and rule: one per
/// project, most recently active first.
pub fn summary_lines(summaries: &Vec<ProjectSummary>, now: Now) -> (r: Vec<String>)
    requires
        now.valid(),
        forall|i: int| 0 <= i < summaries.len() ==> summary_in_range(#[trigger] summaries@[i]),
    ensures
        exists|order: Seq<usize>|
            is_activity_order(summaries@, order) && r.len() == order.len() && forall|k: int|
                0 <= k < r.len() ==> #[trigger] r@[k]@ == summary_line_text(
                    summaries@[order[k] as int],
                    now,
                ),
{
    let order = activity_order(summaries);
    let mut r: Vec<String> = Vec::new();
    let mut k: usize = 0;
    while k < order.len()
        invariant
            now.valid(),
            forall|i: int| 0 <= i < summaries.len() ==> summary_in_range(#[trigger] summaries@[i]),
            is_activity_order(summaries@, order@),
            k <= order.len(),
            r.len() == k,
            forall|j: int| 0 <= j < k ==> #[trigger] r@[j]@ == summary_line_text(
                summaries@[order@[j] as int],
                now,
            ),
        decreases order.len() - k,
    {
        assert(order@[k as int] < summaries.len());
        r.push(summary_line(&summaries[order[k]], now));
        k = k + 1;
    }
    r
}

/// The stage set with `status` is the stage the dashboard shows: for every
/// lifecycle stage, the status column of the tag that records it reads
/// the stage itself.
pub proof fn lemma_dashboard_shows_status(stage: Seq<char>, tag: String)
    requires
        status::valid_statuses().contains(stage),
        tag@ == status::status_tag_of(stage),
    ensures
        status_label_of(Some(tag)) == stage,
{
    reveal_strlit("status/");
    reveal_strlit("idea");
    reveal_strlit("drafting");
    reveal_strlit("arranging");
    reveal_strlit("mixing");
    reveal_strlit("mastering");
    reveal_strlit("released");
    reveal_strlit("abandoned");
    let t = tag@;
    assert(t.subrange(0, 7) =~= git::status_prefix());
    assert(t.subrange(7, t.len() as int) =~= stage);
    let k = choose|k: int| 0 <= k < status::valid_statuses().len() && status::valid_statuses()[k] == stage;
    assert(stage.len() < 7 || stage[0] != 's');
    if stage.len() >= 7 {
        assert(stage.subrange(0, 7)[0] != git::status_prefix()[0]);
    }
    assert(trim_status_prefix(stage) == stage);
    assert(trim_status_prefix(t) == trim_status_prefix(stage));
}

} // verus!
