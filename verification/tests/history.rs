use music_forge::clock::{self, Moment, Now};
use music_forge::commands::{dashboard, snapshot, timeline, watch};
use music_forge::git::{self, CommitInfo, RawCommit, TagTarget};

fn utc(secs: i64) -> Moment {
    Moment { secs, utc_offset: 0 }
}

fn raw(id: &str, summary: Option<&str>, secs: i64) -> RawCommit {
    RawCommit { id: id.to_string(), summary: summary.map(String::from), time: utc(secs) }
}

fn tag(name: &str, commit: &str) -> TagTarget {
    TagTarget { name: name.to_string(), commit: commit.to_string() }
}

const A: &str = "a1b2c3d4e5f60718293a4b5c6d7e8f9012345678";
const B: &str = "0f1e2d3c4b5a69788796a5b4c3d2e1f0aabbccdd";

fn sample_log() -> Vec<CommitInfo> {
    let walk = vec![
        raw(A, Some("snapshot: render"), 1_700_000_000),
        raw(B, Some("init: song"), 1_699_000_000),
    ];
    let tags = vec![
        tag("status/mixing", A),
        tag("v1", A),
        tag("status/idea", B),
        tag("status/drafting", A),
    ];
    git::get_commit_log(&walk, &tags)
}

#[test]
fn commit_log_annotates_commits() {
    let log = sample_log();
    assert_eq!(log.len(), 2);
    assert_eq!(log[0].hash, "a1b2c3d");
    assert_eq!(log[0].message, "snapshot: render");
    assert!(log[0].is_snapshot);
    assert_eq!(log[0].status_tags, vec!["status/mixing".to_string(), "status/drafting".to_string()]);
    assert_eq!(log[1].hash, "0f1e2d3");
    assert!(!log[1].is_snapshot);
    assert_eq!(log[1].status_tags, vec!["status/idea".to_string()]);
    assert_eq!(log[1].time, utc(1_699_000_000));
}

#[test]
fn commit_log_without_summary_or_commits() {
    let log = git::get_commit_log(&vec![raw(A, None, 5)], &vec![]);
    assert_eq!(log[0].message, "");
    assert!(log[0].status_tags.is_empty());
    assert!(git::get_commit_log(&vec![], &vec![tag("status/idea", A)]).is_empty());
}

#[test]
fn status_tags_are_picked_from_tag_names() {
    let names: Vec<String> = ["v1", "status/idea", "status", "status/mixing"].iter().map(|s| s.to_string()).collect();
    assert_eq!(git::status_tag_positions(&names), vec![1, 3]);
    assert!(git::is_status_tag("status/x"));
    assert!(!git::is_status_tag("statu/x"));
}

#[test]
fn snapshot_marker() {
    assert!(git::is_snapshot("snapshot: render"));
    assert!(git::is_snapshot("snapshot:"));
    assert!(!git::is_snapshot("Snapshot: render"));
    assert!(!git::is_snapshot(" snapshot: x"));
}

#[test]
fn lfs_setup_runs() {
    let exts = vec!["wav".to_string(), "rpp-bak".to_string()];
    let runs = git::init_lfs(&exts);
    assert_eq!(runs, vec![
        vec!["install".to_string()],
        vec!["track".to_string(), "*.wav".to_string()],
        vec!["track".to_string(), "*.rpp-bak".to_string()],
    ]);
    assert_eq!(git::init_lfs(&vec![]), vec![vec!["install".to_string()]]);
}

#[test]
fn snapshot_labels_and_messages() {
    assert_eq!(snapshot::snapshot_label(None), "render");
    assert_eq!(snapshot::snapshot_label(Some("mix v2")), "mix v2");
    assert_eq!(snapshot::snapshot_message("mix v2"), "snapshot: mix v2");
    assert!(git::is_snapshot(&snapshot::snapshot_message("")));
}

#[test]
fn formats_days_and_minutes() {
    assert_eq!(clock::format_day(utc(0)), "1970-01-01");
    assert_eq!(clock::format_minute(utc(1_700_000_000)), "2023-11-14 22:13");
    let later = Moment { secs: 1_700_000_000, utc_offset: 3600 };
    assert_eq!(clock::format_minute(later), "2023-11-14 23:13");
    let west = Moment { secs: 1_700_000_000, utc_offset: -23 * 3600 };
    assert_eq!(clock::format_day(west), "2023-11-13");
}

#[test]
fn human_durations() {
    let now = Now { secs: 1000 * 86_400, nanos: 0, utc_offset: 0 };
    let ago = |days: i64| dashboard::human_duration(utc((1000 - days) * 86_400), now);
    assert_eq!(ago(0), "today");
    assert_eq!(ago(-3), "today");
    assert_eq!(ago(1), "1d");
    assert_eq!(ago(6), "6d");
    assert_eq!(ago(7), "1w");
    assert_eq!(ago(29), "4w");
    assert_eq!(ago(30), "1mo");
    assert_eq!(ago(364), "12mo");
    assert_eq!(ago(365), "1y");
    assert_eq!(ago(800), "2y");
    let with_nanos = Now { secs: 0, nanos: 5, utc_offset: 0 };
    assert_eq!(dashboard::human_duration(utc(-86_400), with_nanos), "1d");
    assert_eq!(dashboard::human_duration(utc(86_399), with_nanos), "today");
}

#[test]
fn summary_of_a_project() {
    let log = sample_log();
    let now = Now { secs: 1_800_000_000, nanos: 7, utc_offset: 0 };
    let s = dashboard::build_summary("song".to_string(), "Song".to_string(), &log, now);
    assert_eq!(s.commit_count, 2);
    assert_eq!(s.last_activity, utc(1_700_000_000));
    assert_eq!(s.last_activity_nanos, 0);
    assert_eq!(s.current_status, Some("status/mixing".to_string()));
    assert_eq!(s.status_since, Some(utc(1_700_000_000)));

    let empty = dashboard::build_summary("new".to_string(), "New".to_string(), &vec![], now);
    assert_eq!(empty.commit_count, 0);
    assert_eq!(empty.last_activity, utc(1_800_000_000));
    assert_eq!(empty.last_activity_nanos, 7);
    assert_eq!(empty.current_status, None);
    assert_eq!(empty.status_since, None);
}

#[test]
fn status_set_is_status_shown() {
    for stage in ["idea", "drafting", "arranging", "mixing", "mastering", "released", "abandoned"] {
        let tag = music_forge::commands::status::status_tag(stage).unwrap();
        assert_eq!(dashboard::status_label(&Some(tag)).into_iter().collect::<String>(), stage);
    }
    assert_eq!(dashboard::status_label(&None).into_iter().collect::<String>(), "\u{2014}");
    assert_eq!(
        dashboard::status_label(&Some("status/status/x".to_string())).into_iter().collect::<String>(),
        "x"
    );
}

fn summary(name: &str, secs: i64, nanos: u32) -> dashboard::ProjectSummary {
    dashboard::ProjectSummary {
        name: name.to_string(),
        title: name.to_string(),
        commit_count: 1,
        last_activity: utc(secs),
        last_activity_nanos: nanos,
        current_status: None,
        status_since: None,
    }
}

#[test]
fn dashboard_lists_most_recent_first() {
    let v = vec![
        summary("old", 100, 0),
        summary("new", 300, 0),
        summary("tie-a", 200, 0),
        summary("mid-nanos", 200, 5),
        summary("tie-b", 200, 0),
    ];
    let order = dashboard::activity_order(&v);
    let names: Vec<&str> = order.iter().map(|&i| v[i].name.as_str()).collect();
    assert_eq!(names, vec!["new", "mid-nanos", "tie-a", "tie-b", "old"]);
}

#[test]
fn dashboard_table_lines() {
    assert_eq!(
        dashboard::header_line(),
        format!("{:<22} {:<13} {:<15} {:<10} {}", "PROJECT", "STATUS", "LAST ACTIVE", "COMMITS", "IN STAGE")
    );
    assert_eq!(dashboard::rule_line(), "-".repeat(72));
    let now = Now { secs: 1_700_000_000 + 10 * 86_400, nanos: 0, utc_offset: 0 };
    let mut s = summary("night-drive", 1_700_000_000, 0);
    s.commit_count = 12;
    s.current_status = Some("status/mixing".to_string());
    s.status_since = Some(utc(1_700_000_000));
    assert_eq!(
        dashboard::summary_line(&s, now),
        format!("{:<22} {:<13} {:<15} {:<10} {}", "night-drive", "mixing", "2023-11-14", 12, "1w")
    );
    let plain = summary("a-very-long-project-name-indeed", 0, 0);
    assert_eq!(
        dashboard::summary_line(&plain, now),
        format!("{:<22} {:<13} {:<15} {:<10} {}", "a-very-long-project-name-indeed", "\u{2014}", "1970-01-01", 1, "\u{2014}")
    );
    let lines = dashboard::summary_lines(&vec![plain, s], now);
    assert_eq!(lines.len(), 2);
    assert!(lines[0].starts_with("night-drive "));
}

#[test]
fn timeline_lines_mark_snapshots_and_tags() {
    let log = sample_log();
    assert_eq!(timeline::timeline_header("Song", 2), "Song  (2 commits)");
    let lines = timeline::timeline_lines(&log);
    assert_eq!(lines[0].text, "2023-11-14 22:13  a1b2c3d  snapshot: render  [snapshot]");
    assert!(lines[0].highlighted);
    assert_eq!(lines[0].tags, vec!["[status/mixing]".to_string(), "[status/drafting]".to_string()]);
    assert!(!lines[1].highlighted);
    assert_eq!(lines[1].tags, vec!["[status/idea]".to_string()]);
    assert!(lines[1].text.ends_with("0f1e2d3  init: song"));
}

#[test]
fn auto_commits_are_not_snapshots() {
    let msg = watch::auto_message(utc(1_700_000_000));
    assert_eq!(msg, "auto: 2023-11-14 22:13");
    assert!(!git::is_snapshot(&msg));
}

#[test]
fn day_texts_at_four_digit_edges() {
    assert_eq!(clock::format_day(Moment { secs: 253_402_300_799, utc_offset: 0 }), "9999-12-31");
    assert_eq!(clock::format_day(Moment { secs: -62_167_219_200, utc_offset: 0 }), "0000-01-01");
}

#[test]
fn day_text_at_lowest_instant() {
    let low = clock::format_day(Moment { secs: -8_334_601_228_800, utc_offset: -86_399 });
    assert!(low.starts_with('-'));
}

#[test]
fn day_text_at_highest_instant() {
    let high = clock::format_day(Moment { secs: 8_210_266_876_799, utc_offset: 86_399 });
    assert!(high.starts_with('+'));
}
