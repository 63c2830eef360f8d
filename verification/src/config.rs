//! The tool's configuration and the paths derived from it.

use vstd::prelude::*;
use crate::git;
use crate::text;
use crate::text::{chars_of, extend_chars, extend_str, has_prefix, slice_chars, string_of};

verus! {

/// Settings read from `~/.config/music-forge/config.toml`.
pub struct Config {
    /// Where full projects live (may start with `~/`).
    pub projects_dir: String,
    /// Where the seeds repository lives (may start with `~/`).
    pub seeds_dir: String,
    /// Reaper session copied into every new project.
    pub reaper_template: Option<String>,
    /// Command that runs Reaper.
    pub reaper_command: Option<String>,
    /// Editor opened on a new project.
    pub editor: Option<String>,
    /// Quiet period before `watch` commits.
    pub watch_debounce_seconds: u64,
    /// File extensions stored through git LFS.
    pub lfs_extensions: Vec<String>,
}

/// The debounce used when the configuration names none: 300 seconds.
pub fn default_debounce() -> (r: u64)
    ensures
        r == 300,
{
    300
}

/// The LFS extensions used when the configuration names none.
pub open spec fn default_lfs_extension_list() -> Seq<Seq<char>> {
    seq!["wav"@, "flac"@, "mp3"@, "aif"@, "aiff"@, "ogg"@, "mp4"@, "mov"@]
}

/// The LFS extensions used when the configuration names none: audio and
/// video formats.
pub fn default_lfs_extensions() -> (r: Vec<String>)
    ensures
        git::texts(r@) == default_lfs_extension_list(),
{
    let mut r: Vec<String> = Vec::new();
    r.push(String::from_str("wav"));
    r.push(String::from_str("flac"));
    r.push(String::from_str("mp3"));
    r.push(String::from_str("aif"));
    r.push(String::from_str("aiff"));
    r.push(String::from_str("ogg"));
    r.push(String::from_str("mp4"));
    r.push(String::from_str("mov"));
    assert(git::texts(r@) =~= default_lfs_extension_list());
    r
}

/// The user's home directory, as the `dirs` crate finds it (from `HOME`,
/// else from the password database). It depends on the environment, so
/// nothing is stated of it.
#[verifier::external_body]
fn home_dir() -> (r: Option<String>) {
    match dirs::home_dir() {
        Some(p) => Some(p.to_string_lossy().into_owned()),
        None => None,
    }
}

/// `path` with a leading `~/` replaced by the home directory `home`, when
/// there is one.
pub open spec fn expanded(path: Seq<char>, home: Option<Seq<char>>) -> Seq<char> {
    if text::is_prefix("~/"@, path) && home is Some {
        home->0 + seq!['/'] + path.subrange(2, path.len() as int)
    } else {
        path
    }
}

/// The text of an optional string.
pub open spec fn opt_text(o: Option<String>) -> Option<Seq<char>> {
    match o {
        Some(s) => Some(s@),
        None => None,
    }
}

/// Replaces a leading `~/` of `path` by the home directory `home`.
pub fn expand_tilde_with(path: &str, home: &Option<String>) -> (r: String)
    ensures
        r@ == expanded(path@, opt_text(*home)),
{
    proof {
        reveal_strlit("~/");
    }
    let p = chars_of(path);
    if has_prefix(&p, &chars_of("~/")) {
        match home {
            Some(h) => {
                let mut v = chars_of(h.as_str());
                v.push('/');
                extend_chars(&mut v, &slice_chars(&p, 2, p.len()));
                return string_of(&v);
            },
            None => {},
        }
    }
    string_of(&p)
}

/// Replaces a leading `~/` of `path` by the user's home directory.
pub fn expand_tilde(path: &str) -> (r: String)
    ensures
        exists|home: Option<Seq<char>>| r@ == expanded(path@, home),
        !text::is_prefix("~/"@, path@) ==> r@ == path@,
{
    let home = home_dir();
    expand_tilde_with(path, &home)
}

/// `rel`, a relative path, appended to `base` as `Path::join` appends it.
pub open spec fn joined(base: Seq<char>, rel: Seq<char>) -> Seq<char> {
    if base.len() == 0 {
        rel
    } else if base.last() == '/' {
        base + rel
    } else {
        base + seq!['/'] + rel
    }
}

/// Appends a relative path to a path.
pub fn join_path(base: &str, rel: &str) -> (r: String)
    ensures
        r@ == joined(base@, rel@),
{
    let mut v = chars_of(base);
    if v.len() > 0 && v[v.len() - 1] != '/' {
        v.push('/');
    }
    extend_str(&mut v, rel);
    string_of(&v)
}

/// Where the configuration file is, given the home directory.
pub open spec fn config_path_in(home: Option<Seq<char>>) -> Seq<char> {
    let base = match home {
        Some(h) => h,
        None => "."@,
    };
    joined(joined(joined(base, ".config"@), "music-forge"@), "config.toml"@)
}

/// Where the configuration file is, given the home directory (the current
/// directory when there is none).
pub fn config_path_for(home: &Option<String>) -> (r: String)
    ensures
        r@ == config_path_in(opt_text(*home)),
{
    let base = match home {
        Some(h) => h.clone(),
        None => String::from_str("."),
    };
    let a = join_path(base.as_str(), ".config");
    let b = join_path(a.as_str(), "music-forge");
    join_path(b.as_str(), "config.toml")
}

impl Config {
    /// Where the configuration file is:
    /// `<home>/.config/music-forge/config.toml`.
    pub fn config_path() -> (r: String)
        ensures
            exists|home: Option<Seq<char>>| r@ == config_path_in(home),
    {
        let home = home_dir();
        config_path_for(&home)
    }

    /// The projects directory, with `~/` expanded.
    pub fn projects_path(&self) -> (r: String)
        ensures
            exists|home: Option<Seq<char>>| r@ == expanded(self.projects_dir@, home),
            !text::is_prefix("~/"@, self.projects_dir@) ==> r@ == self.projects_dir@,
    {
        expand_tilde(self.projects_dir.as_str())
    }

    /// The seeds directory, with `~/` expanded.
    pub fn seeds_path(&self) -> (r: String)
        ensures
            exists|home: Option<Seq<char>>| r@ == expanded(self.seeds_dir@, home),
            !text::is_prefix("~/"@, self.seeds_dir@) ==> r@ == self.seeds_dir@,
    {
        expand_tilde(self.seeds_dir.as_str())
    }

    /// The configuration made from the answers of the first-run questions:
    /// directories with `~/` expanded, the default debounce and LFS
    /// extensions.
    pub fn from_answers(
        projects_dir: &str,
        seeds_dir: &str,
        reaper_template: Option<String>,
        reaper_command: Option<String>,
        editor: Option<String>,
    ) -> (r: Config)
        ensures
            exists|home: Option<Seq<char>>| r.projects_dir@ == expanded(projects_dir@, home),
            exists|home: Option<Seq<char>>| r.seeds_dir@ == expanded(seeds_dir@, home),
            match reaper_template {
                Some(t) => r.reaper_template matches Some(e) && exists|home: Option<Seq<char>>|
                    e@ == expanded(t@, home),
                None => r.reaper_template is None,
            },
            r.reaper_command == reaper_command,
            r.editor == editor,
            r.watch_debounce_seconds == 300,
            git::texts(r.lfs_extensions@) == default_lfs_extension_list(),
    {
        let template = match reaper_template {
            Some(t) => Some(expand_tilde(t.as_str())),
            None => None,
        };
        Config {
            projects_dir: expand_tilde(projects_dir),
            seeds_dir: expand_tilde(seeds_dir),
            reaper_template: template,
            reaper_command,
            editor,
            watch_debounce_seconds: default_debounce(),
            lfs_extensions: default_lfs_extensions(),
        }
    }
}

/// The characters that `char::is_whitespace` accepts: those with the
/// Unicode `White_Space` property.
pub open spec fn is_white_space(c: char) -> bool {
    let u = c as u32;
    (0x9 <= u && u <= 0xD) || u == 0x20 || u == 0x85 || u == 0xA0 || u == 0x1680 || (0x2000 <= u
        && u <= 0x200A) || u == 0x2028 || u == 0x2029 || u == 0x202F || u == 0x205F || u == 0x3000
}

fn white_space(c: char) -> (r: bool)
    ensures
        r == is_white_space(c),
{
    let u = c as u32;
    (0x9 <= u && u <= 0xD) || u == 0x20 || u == 0x85 || u == 0xA0 || u == 0x1680 || (0x2000 <= u
        && u <= 0x200A) || u == 0x2028 || u == 0x2029 || u == 0x202F || u == 0x205F || u == 0x3000
}

/// `s` without its leading and trailing white space, as `str::trim` leaves
/// it: the part from `start` to `end`, where every character before
/// `start` and from `end` on is white space, and the characters at `start`
/// and just before `end` are not.
pub open spec fn is_trimmed_of(r: Seq<char>, s: Seq<char>) -> bool {
    exists|start: int, end: int|
        0 <= start <= end <= s.len() && r == s.subrange(start, end) && (forall|i: int|
            0 <= i < start ==> is_white_space(#[trigger] s[i])) && (forall|i: int|
            end <= i < s.len() ==> is_white_space(#[trigger] s[i])) && (start < end ==> !is_white_space(
            s[start],
        ) && !is_white_space(s[end - 1])) && (start == end ==> start == s.len())
}

/// An answer typed at a prompt, without its surrounding white space (and
/// line break).
pub fn trim_answer(input: &str) -> (r: String)
    ensures
        is_trimmed_of(r@, input@),
{
    let v = chars_of(input);
    let mut start: usize = 0;
    while start < v.len() && white_space(v[start])
        invariant
            start <= v.len(),
            forall|i: int| 0 <= i < start ==> is_white_space(#[trigger] v@[i]),
        decreases v.len() - start,
    {
        start = start + 1;
    }
    let mut end: usize = v.len();
    while end > start && white_space(v[end - 1])
        invariant
            start <= end <= v.len(),
            forall|i: int| end <= i < v.len() ==> is_white_space(#[trigger] v@[i]),
        decreases end,
    {
        end = end - 1;
    }
    let r = slice_chars(&v, start, end);
    proof {
        assert(input@.subrange(start as int, end as int) == r@);
    }
    string_of(&r)
}

/// An optional answer to a first-run question: none when left blank.
pub fn optional_answer(answer: String) -> (r: Option<String>)
    ensures
        answer@.len() == 0 ==> r is None,
        answer@.len() > 0 ==> r == Some(answer),
{
    if answer.as_str().is_empty() {
        None
    } else {
        Some(answer)
    }
}

} // verus!
