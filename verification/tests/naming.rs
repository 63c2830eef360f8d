use music_forge::commands::adopt;
use music_forge::commands::init;
use music_forge::commands::promote;
use music_forge::commands::seed;
use music_forge::commands::status;

#[test]
fn strip_date_prefix_removes_seed_date() {
    assert_eq!(promote::strip_date_prefix("2026-03-03-sketch-idea"), "sketch-idea");
}

#[test]
fn strip_date_prefix_keeps_bare_prefix() {
    assert_eq!(promote::strip_date_prefix("2026-03-03-"), "2026-03-03-");
    assert_eq!(promote::strip_date_prefix("2026-03-03"), "2026-03-03");
}

#[test]
fn strip_date_prefix_keeps_names_without_date() {
    assert_eq!(promote::strip_date_prefix("weird-synth-thing"), "weird-synth-thing");
    assert_eq!(promote::strip_date_prefix("2026/03/03-thing"), "2026/03/03-thing");
    assert_eq!(promote::strip_date_prefix("2026-0a-03-thing"), "2026-0a-03-thing");
}

#[test]
fn strip_date_prefix_non_ascii_rest() {
    assert_eq!(promote::strip_date_prefix("2026-03-05-canción"), "canción");
}

#[test]
fn seed_then_promote_gives_back_name() {
    let dir = seed::seed_dir_name("2026-03-05", "weird-synth-thing");
    assert_eq!(dir, "2026-03-05-weird-synth-thing");
    assert_eq!(promote::strip_date_prefix(&dir), "weird-synth-thing");
}

#[test]
fn seed_files() {
    assert_eq!(seed::seeds_readme(), "# Seeds\n\nQuick ideas and sketches.\n");
    assert_eq!(seed::seeds_init_message(), "init: seeds");
}

#[test]
fn seed_git_dir_is_not_copied() {
    assert!(!promote::is_copied_seed_entry(".git"));
    assert!(promote::is_copied_seed_entry("notes.md"));
    assert!(promote::is_copied_seed_entry(".gitignore"));
}

#[test]
fn promote_commit_message() {
    assert_eq!(
        promote::promote_message("2026-03-03-idea"),
        "promote: seed contents from 2026-03-03-idea"
    );
}

#[test]
fn status_tags_for_every_stage() {
    for stage in ["idea", "drafting", "arranging", "mixing", "mastering", "released", "abandoned"] {
        assert_eq!(status::status_tag(stage).unwrap(), format!("status/{}", stage));
    }
    assert_eq!(status::valid_status_names().len(), 7);
}

#[test]
fn status_tag_refuses_unknown_stage() {
    assert_eq!(status::status_tag("done"), Err(status::StatusError::Invalid));
    assert_eq!(status::status_tag("Mixing"), Err(status::StatusError::Invalid));
    assert_eq!(status::status_tag(""), Err(status::StatusError::Invalid));
    assert_eq!(
        status::invalid_status_message("done"),
        "'done' is not a valid status. Choose from: idea, drafting, arranging, mixing, mastering, released, abandoned"
    );
}

#[test]
fn project_templates() {
    assert_eq!(
        init::song_yaml("night drive", "2026-03-03"),
        "title: \"night drive\"\ncreated: \"2026-03-03\"\ntags: []\ndescription: \"\"\n"
    );
    assert_eq!(init::notes_md("night drive"), "# night drive\n");
    assert_eq!(init::gitignore(), "*.reapeaks\n*.bwproject.cache/\n.DS_Store\nThumbs.db\n");
    assert_eq!(init::init_message("night drive"), "init: night drive");
    assert_eq!(init::rpp_file_name("night drive"), "night drive.rpp");
    assert_eq!(
        init::project_subdirs(),
        vec![
            "assets/stems",
            "assets/samples",
            "assets/field-recordings",
            "assets/references",
            "exports",
            "promo"
        ]
    );
}

#[test]
fn adopt_names_and_messages() {
    assert_eq!(adopt::adopt_name(Some("old-song".to_string())), "old-song");
    assert_eq!(adopt::adopt_name(None), "unknown");
    assert_eq!(adopt::adopt_message("old-song"), "adopt: old-song");
}

#[test]
fn adopt_writes_only_missing_files() {
    let all = adopt::missing_files("x", "2026-01-02", false, false, false);
    assert_eq!(all.len(), 3);
    assert_eq!(all[0].file_name, "song.yaml");
    assert_eq!(all[0].contents, init::song_yaml("x", "2026-01-02"));
    assert_eq!(all[1].file_name, "notes.md");
    assert_eq!(all[1].contents, "# x\n");
    assert_eq!(all[2].file_name, ".gitignore");
    let some = adopt::missing_files("x", "2026-01-02", true, false, true);
    assert_eq!(some.len(), 1);
    assert_eq!(some[0].file_name, "notes.md");
    assert!(adopt::missing_files("x", "2026-01-02", true, true, true).is_empty());
}

#[test]
fn adopt_all_goes_in_name_order() {
    let names: Vec<String> = ["b-song", "a-song", "c", "B", "a-song2"].iter().map(|s| s.to_string()).collect();
    let order = adopt::name_order(&names);
    let sorted: Vec<&str> = order.iter().map(|&i| names[i].as_str()).collect();
    assert_eq!(sorted, vec!["B", "a-song", "a-song2", "b-song", "c"]);
    assert!(adopt::name_order(&Vec::new()).is_empty());
}
