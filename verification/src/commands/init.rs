//! Creation of a full project: its directory tree and its starting files.

use vstd::prelude::*;
use crate::config;
use crate::config::Config;
use crate::text::{chars_of, extend_str, string_of};

verus! {

/// The directories of a project, relative to its root.
pub open spec fn project_subdir_list() -> Seq<Seq<char>> {
    seq![
        "assets/stems"@,
        "assets/samples"@,
        "assets/field-recordings"@,
        "assets/references"@,
        "exports"@,
        "promo"@,
    ]
}

/// The directories of a project, relative to its root.
pub fn project_subdirs() -> (r: Vec<&'static str>)
    ensures
        r@.map_values(|s: &str| s@) == project_subdir_list(),
{
    let r = vec![
        "assets/stems",
        "assets/samples",
        "assets/field-recordings",
        "assets/references",
        "exports",
        "promo",
    ];
    assert(r@.map_values(|s: &str| s@) =~= project_subdir_list());
    r
}

/// The starting `song.yaml` of a project.
pub open spec fn song_yaml_of(name: Seq<char>, today: Seq<char>) -> Seq<char> {
    "title: \""@ + name + "\"\ncreated: \""@ + today + "\"\ntags: []\ndescription: \"\"\n"@
}

/// The starting `song.yaml` of a project named `name`, created on `today`.
pub fn song_yaml(name: &str, today: &str) -> (r: String)
    ensures
        r@ == song_yaml_of(name@, today@),
{
    let mut v = chars_of("title: \"");
    extend_str(&mut v, name);
    extend_str(&mut v, "\"\ncreated: \"");
    extend_str(&mut v, today);
    extend_str(&mut v, "\"\ntags: []\ndescription: \"\"\n");
    string_of(&v)
}

/// The starting `notes.md`: a heading with the name.
pub fn notes_md(name: &str) -> (r: String)
    ensures
        r@ == "# "@ + name@ + "\n"@,
{
    let mut v = chars_of("# ");
    extend_str(&mut v, name);
    extend_str(&mut v, "\n");
    string_of(&v)
}

/// The `.gitignore` of a project: Reaper peak files, Bitwig caches and
/// operating-system clutter.
pub fn gitignore() -> (r: String)
    ensures
        r@ == "*.reapeaks\n*.bwproject.cache/\n.DS_Store\nThumbs.db\n"@,
{
    String::from_str("*.reapeaks\n*.bwproject.cache/\n.DS_Store\nThumbs.db\n")
}

/// The message of a project's first commit.
pub fn init_message(name: &str) -> (r: String)
    ensures
        r@ == "init: "@ + name@,
{
    let mut v = chars_of("init: ");
    extend_str(&mut v, name);
    string_of(&v)
}

/// The file name of a project's Reaper session.
pub fn rpp_file_name(name: &str) -> (r: String)
    ensures
        r@ == name@ + ".rpp"@,
{
    let mut v = chars_of(name);
    extend_str(&mut v, ".rpp");
    string_of(&v)
}

/// The Reaper template to copy into a new project, `~/` expanded.
pub fn template_path(config: &Config) -> (r: Option<String>)
    ensures
        match config.reaper_template {
            Some(t) => r matches Some(p) && exists|home: Option<Seq<char>>|
                p@ == config::expanded(t@, home),
            None => r is None,
        },
{
    match &config.reaper_template {
        Some(t) => Some(config::expand_tilde(t.as_str())),
        None => None,
    }
}

} // verus!
