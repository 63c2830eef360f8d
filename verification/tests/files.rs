use music_forge::commands::{ingest, open, snapshot, watch};
use music_forge::config::{self, Config};
use music_forge::paths;
use music_forge::projects::{self, FindError};
use music_forge::reaper;
use music_forge::text;

fn config_with(command: Option<&str>) -> Config {
    Config {
        projects_dir: "~/Music/Projects".to_string(),
        seeds_dir: "/data/seeds".to_string(),
        reaper_template: Some("~/Templates/default.rpp".to_string()),
        reaper_command: command.map(String::from),
        editor: None,
        watch_debounce_seconds: 120,
        lfs_extensions: vec!["wav".to_string()],
    }
}

fn strings(v: &[&str]) -> Vec<String> {
    v.iter().map(|s| s.to_string()).collect()
}

#[test]
fn configuration_defaults() {
    assert_eq!(config::default_debounce(), 300);
    assert_eq!(
        config::default_lfs_extensions(),
        strings(&["wav", "flac", "mp3", "aif", "aiff", "ogg", "mp4", "mov"])
    );
}

#[test]
fn tilde_expansion() {
    let home = Some("/home/ana".to_string());
    assert_eq!(config::expand_tilde_with("~/Music/Projects", &home), "/home/ana/Music/Projects");
    assert_eq!(config::expand_tilde_with("~/", &home), "/home/ana/");
    assert_eq!(config::expand_tilde_with("~", &home), "~");
    assert_eq!(config::expand_tilde_with("/abs/~/x", &home), "/abs/~/x");
    assert_eq!(config::expand_tilde_with("~/Music", &None), "~/Music");
}

#[test]
fn tilde_expansion_uses_home_directory() {
    let expanded = config::expand_tilde("~/Music");
    assert_ne!(expanded, "~/Music");
    assert!(expanded.ends_with("/Music"));
    assert_eq!(config::expand_tilde("relative/dir"), "relative/dir");
    let c = config_with(None);
    assert_eq!(c.seeds_path(), "/data/seeds");
    assert_eq!(c.projects_path(), config::expand_tilde("~/Music/Projects"));
}

#[test]
fn config_file_location() {
    assert_eq!(
        config::config_path_for(&Some("/home/ana".to_string())),
        "/home/ana/.config/music-forge/config.toml"
    );
    assert_eq!(config::config_path_for(&Some("/".to_string())), "/.config/music-forge/config.toml");
    assert_eq!(config::config_path_for(&None), "./.config/music-forge/config.toml");
    assert!(Config::config_path().ends_with("/.config/music-forge/config.toml"));
    assert_eq!(config::join_path("", "a"), "a");
}

#[test]
fn first_run_answers() {
    assert_eq!(config::optional_answer(String::new()), None);
    assert_eq!(config::optional_answer("zed".to_string()), Some("zed".to_string()));
    let c = Config::from_answers("/p", "/s", None, Some("reaper".to_string()), None);
    assert_eq!(c.projects_dir, "/p");
    assert_eq!(c.seeds_dir, "/s");
    assert_eq!(c.reaper_template, None);
    assert_eq!(c.reaper_command, Some("reaper".to_string()));
    assert_eq!(c.watch_debounce_seconds, 300);
    assert_eq!(c.lfs_extensions.len(), 8);
}

#[test]
fn file_extensions() {
    let ext = |s: &str| paths::extension(&s.chars().collect()).map(|e| e.into_iter().collect::<String>());
    assert_eq!(ext("song.rpp"), Some("rpp".to_string()));
    assert_eq!(ext("a.b.c"), Some("c".to_string()));
    assert_eq!(ext(".rpp"), None);
    assert_eq!(ext(".hidden.rpp"), Some("rpp".to_string()));
    assert_eq!(ext("trailing."), Some("".to_string()));
    assert_eq!(ext(".."), None);
    assert_eq!(ext("noext"), None);
}

#[test]
fn reaper_session_is_first_rpp() {
    let names = strings(&["notes.md", "Song.RPP", "mix.rpp", "song.rpp"]);
    assert_eq!(reaper::find_rpp(&names), Some(2));
    assert_eq!(reaper::find_rpp(&strings(&[".rpp", "rpp"])), None);
    assert_eq!(reaper::render_options(), vec!["-nosplash", "-nonewinst", "-renderproject"]);
}

#[test]
fn render_only_with_a_command() {
    let names = strings(&["a.wav", "b.rpp"]);
    assert!(snapshot::render_if_available(&config_with(None), &names).is_none());
    let job = snapshot::render_if_available(&config_with(Some("reaper")), &names).unwrap();
    assert_eq!(job.command, "reaper");
    assert_eq!(job.session, 1);
    assert!(snapshot::render_if_available(&config_with(Some("reaper")), &strings(&["a.wav"])).is_none());
}

#[test]
fn ingest_subdirectories() {
    assert_eq!(ingest::infer_subdir("kick.wav"), "samples");
    assert_eq!(ingest::infer_subdir("Kick.WAV"), "samples");
    assert_eq!(ingest::infer_subdir("cover.PNG"), "references");
    assert_eq!(ingest::infer_subdir("score.pdf"), "references");
    assert_eq!(ingest::infer_subdir("photo.jpeg"), "references");
    assert_eq!(ingest::infer_subdir("readme.txt"), "samples");
    assert_eq!(ingest::infer_subdir("pdf"), "references");
    assert_eq!(ingest::infer_subdir("archive.tar.gz"), "samples");
}

#[test]
fn ingest_targets() {
    let (dir, name) = ingest::ingest_target("cover.png", None, "2026-03-03");
    assert_eq!(dir, "references");
    assert_eq!(name, "2026-03-03-cover.png");
    let (dir, name) = ingest::ingest_target("take.wav", Some("field-recordings"), "2026-03-03");
    assert_eq!(dir, "field-recordings");
    assert_eq!(name, "2026-03-03-take.wav");
}

fn entry(name: &str, is_file: bool) -> open::DirEntryInfo {
    open::DirEntryInfo { name: name.to_string(), is_file }
}

#[test]
fn daw_file_is_shortest_session() {
    let entries = vec![
        entry("song-2.rpp", true),
        entry("notes.md", true),
        entry("song.RPP", true),
        entry("sng.rpp", false),
        entry("tune.song", true),
    ];
    assert_eq!(open::find_daw_file(&entries), Some(2));
    let ties = vec![entry("bb.rpp", true), entry("aa.rpp", true)];
    assert_eq!(open::find_daw_file(&ties), Some(0));
    assert_eq!(open::find_daw_file(&vec![entry("x.wav", true)]), None);
    let bytes = vec![entry("é.rpp", true), entry("ab.rpp", true)];
    assert_eq!(open::find_daw_file(&bytes), Some(0));
    let wider = vec![entry("éé.rpp", true), entry("abc.rpp", true)];
    assert_eq!(open::find_daw_file(&wider), Some(1));
}

#[test]
fn find_by_partial_name() {
    let names = strings(&["Night-Drive", "2026-03-03-sketch", "ocean"]);
    assert!(matches!(projects::find(&names, "drive"), Ok(0)));
    assert!(matches!(projects::find(&names, "OCEAN"), Ok(2)));
    assert!(matches!(projects::find(&names, "zzz"), Err(FindError::NoMatch)));
    match projects::find(&names, "e") {
        Err(FindError::Ambiguous(found)) => assert_eq!(found, vec![0, 1, 2]),
        _ => panic!("expected an ambiguous match"),
    }
}

#[test]
fn find_error_messages() {
    let names = strings(&["night-drive", "night-bus"]);
    let err = projects::find(&names, "night").err().unwrap();
    assert_eq!(
        projects::find_error_message(&err, &names, "night"),
        "Ambiguous \u{2014} multiple matches for 'night':\n  night-drive\n  night-bus"
    );
    assert_eq!(
        projects::find_error_message(&FindError::NoMatch, &names, "x"),
        "No project or seed matching 'x'"
    );
}

#[test]
fn watch_ignores_git_directory() {
    let git = "/p/.git";
    assert!(!watch::is_relevant(&strings(&["/p/.git/index", "/p/.git"]), git));
    assert!(watch::is_relevant(&strings(&["/p/.git/index", "/p/mix.rpp"]), git));
    assert!(watch::is_relevant(&strings(&["/p/.gitignore"]), git));
    assert!(!watch::is_relevant(&vec![], git));
    assert!(!watch::is_relevant(&strings(&["/p/.git/objects/ab/cd"]), git));
}

#[test]
fn watch_debounce() {
    let c = config_with(None);
    assert_eq!(watch::debounce_seconds(&c, None), 120);
    assert_eq!(watch::debounce_seconds(&c, Some(5)), 5);
}

#[test]
fn text_helpers() {
    let v: Vec<char> = "ab".chars().collect();
    assert_eq!(text::string_of(&v), "ab");
    let mut d = Vec::new();
    text::push_decimal(&mut d, 1234567890);
    assert_eq!(d.into_iter().collect::<String>(), "1234567890");
    let mut p = Vec::new();
    text::push_padded(&mut p, &v, 4);
    assert_eq!(p.into_iter().collect::<String>(), "ab  ");
}

#[test]
fn prompt_answers_are_trimmed() {
    assert_eq!(config::trim_answer("  ~/Music/Projects\n"), "~/Music/Projects");
    assert_eq!(config::trim_answer("\t\n"), "");
    assert_eq!(config::trim_answer("a b"), "a b");
    assert_eq!(config::trim_answer("\u{3000}zed\u{a0}"), "zed");
    assert_eq!(config::trim_answer(""), "");
}

#[test]
fn lookup_ignores_ascii_case() {
    let names = strings(&["Night-Drive", "ocean"]);
    assert!(matches!(projects::find(&names, "NIGHT-drive"), Ok(0)));
    assert!(matches!(projects::find(&names, "night-DRIVE"), Ok(0)));
    assert!(matches!(projects::find(&names, "OcEaN"), Ok(1)));
    assert!(projects::matches_name("ÉTÉ-song", "été"));
}
