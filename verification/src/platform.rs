//! Where this build keeps its files on each platform, which log level it
//! runs at, and which evicted covers it asks iCloud to fetch at boot.
use vstd::prelude::*;

use crate::icloud::{is_placeholder_name_spec, real_name_from_placeholder, real_name_spec, PLACEHOLDER_SUFFIX};
use crate::paths::{join, join_spec};

verus! {

/// The resolved local app-data directory, accounting for dev-mode
/// isolation.
#[derive(Debug, Clone)]
pub struct LocalDir(pub String);

/// The bundle identifier of release builds.
pub const BUNDLE_ID: &'static str = "com.wycstudios.quill";

/// The bundle identifier of debug builds, kept apart from the release
/// app's logs and data.
pub const DEV_BUNDLE_ID: &'static str = "com.wycstudios.quill-dev";

/// The identifier for OS-scoped paths: dev-suffixed in debug builds.
pub fn bundle_identifier_for_build(debug: bool) -> (r: &'static str)
    ensures
        r@ == (if debug { DEV_BUNDLE_ID@ } else { BUNDLE_ID@ }),
{
    if debug {
        DEV_BUNDLE_ID
    } else {
        BUNDLE_ID
    }
}

/// The platform families whose directory conventions differ.
#[derive(Debug, Clone, Copy, PartialEq, Eq, Structural)]
pub enum Platform {
    MacOs,
    Windows,
    OtherUnix,
}

/// The environment values the directory conventions read.
#[derive(Debug, Clone)]
pub struct DirEnv {
    pub home: Option<String>,
    pub local_app_data: Option<String>,
    pub app_data: Option<String>,
    pub xdg_data_home: Option<String>,
}

/// `$XDG_DATA_HOME`, else `$HOME/.local/share`.
pub open spec fn xdg_base_spec(env: DirEnv) -> Option<Seq<char>> {
    match env.xdg_data_home {
        Some(x) => Some(x@),
        None => match env.home {
            Some(h) => Some(join_spec(h@, ".local/share"@)),
            None => None,
        },
    }
}

fn xdg_base(env: &DirEnv) -> (r: Option<String>)
    ensures
        match r {
            Some(b) => xdg_base_spec(*env) == Some(b@),
            None => xdg_base_spec(*env) is None,
        },
{
    match &env.xdg_data_home {
        Some(x) => Some(x.clone()),
        None => match &env.home {
            Some(h) => Some(join(h.as_str(), ".local/share")),
            None => None,
        },
    }
}

/// The log directory convention of each platform.
pub open spec fn log_dir_spec(p: Platform, id: Seq<char>, env: DirEnv) -> Option<Seq<char>> {
    match p {
        Platform::MacOs => match env.home {
            Some(h) => Some(join_spec(join_spec(h@, "Library/Logs"@), id)),
            None => None,
        },
        Platform::Windows => match env.local_app_data {
            Some(b) => Some(join_spec(join_spec(b@, id), "logs"@)),
            None => None,
        },
        Platform::OtherUnix => match xdg_base_spec(env) {
            Some(b) => Some(join_spec(join_spec(b, id), "logs"@)),
            None => None,
        },
    }
}

/// The log directory of this build: `~/Library/Logs/<id>` on macOS,
/// `%LOCALAPPDATA%\<id>\logs` on Windows, `<XDG data>/<id>/logs`
/// elsewhere; `None` when the variable it needs is unset.
pub fn resolve_log_dir(p: Platform, id: &str, env: &DirEnv) -> (r: Option<String>)
    ensures
        match r {
            Some(d) => log_dir_spec(p, id@, *env) == Some(d@),
            None => log_dir_spec(p, id@, *env) is None,
        },
{
    match p {
        Platform::MacOs => match &env.home {
            Some(h) => {
                let logs = join(h.as_str(), "Library/Logs");
                Some(join(logs.as_str(), id))
            },
            None => None,
        },
        Platform::Windows => match &env.local_app_data {
            Some(b) => {
                let dir = join(b.as_str(), id);
                Some(join(dir.as_str(), "logs"))
            },
            None => None,
        },
        Platform::OtherUnix => match xdg_base(env) {
            Some(b) => {
                let dir = join(b.as_str(), id);
                Some(join(dir.as_str(), "logs"))
            },
            None => None,
        },
    }
}

/// The app-data directory convention of each platform.
pub open spec fn app_data_dir_spec(p: Platform, id: Seq<char>, env: DirEnv) -> Option<Seq<char>> {
    match p {
        Platform::MacOs => match env.home {
            Some(h) => Some(join_spec(join_spec(h@, "Library/Application Support"@), id)),
            None => None,
        },
        Platform::Windows => match env.app_data {
            Some(b) => Some(join_spec(b@, id)),
            None => None,
        },
        Platform::OtherUnix => match xdg_base_spec(env) {
            Some(b) => Some(join_spec(b, id)),
            None => None,
        },
    }
}

/// The app-data directory of this build, as `tauri::path::app_data_dir`
/// would give it: `~/Library/Application Support/<id>` on macOS,
/// `%APPDATA%\<id>` on Windows, `<XDG data>/<id>` elsewhere.
pub fn resolve_app_data_dir(p: Platform, id: &str, env: &DirEnv) -> (r: Option<String>)
    ensures
        match r {
            Some(d) => app_data_dir_spec(p, id@, *env) == Some(d@),
            None => app_data_dir_spec(p, id@, *env) is None,
        },
{
    match p {
        Platform::MacOs => match &env.home {
            Some(h) => {
                let support = join(h.as_str(), "Library/Application Support");
                Some(join(support.as_str(), id))
            },
            None => None,
        },
        Platform::Windows => match &env.app_data {
            Some(b) => Some(join(b.as_str(), id)),
            None => None,
        },
        Platform::OtherUnix => match xdg_base(env) {
            Some(b) => Some(join(b.as_str(), id)),
            None => None,
        },
    }
}

/// How much the app logs.
#[derive(Debug, Clone, Copy, PartialEq, Eq, Structural)]
pub enum LogLevel {
    Off,
    Error,
    Warn,
    Info,
    Debug,
    Trace,
}

/// ASCII lower case of a character; others unchanged.
pub open spec fn ascii_lower(c: char) -> char {
    if 'A' <= c && c <= 'Z' {
        ((c as u32) + 32) as char
    } else {
        c
    }
}

/// ASCII case-insensitive equality (`str::eq_ignore_ascii_case`).
pub open spec fn eq_ignore_ascii_case_spec(a: Seq<char>, b: Seq<char>) -> bool {
    a.len() == b.len() && forall|i: int| 0 <= i < a.len() ==> ascii_lower(#[trigger] a[i]) == ascii_lower(b[i])
}

fn ascii_lower_char(c: char) -> (r: char)
    ensures
        r == ascii_lower(c),
{
    if 'A' <= c && c <= 'Z' {
        let code: u32 = (c as u32) + 32;
        assert(code >= 0x61 && code <= 0x7a);
        char_from_ascii_code(code)
    } else {
        c
    }
}

/// The lowercase ASCII letter with this code.
fn char_from_ascii_code(code: u32) -> (r: char)
    requires
        0x61 <= code <= 0x7a,
    ensures
        r == code as char,
{
    let b: u8 = #[verifier::truncate] (code as u8);
    assert(b as u32 == code) by (bit_vector)
        requires
            0x61 <= code <= 0x7a,
            b == code as u8;
    b as char
}

fn eq_ignore_ascii_case(a: &str, b: &str) -> (r: bool)
    ensures
        r == eq_ignore_ascii_case_spec(a@, b@),
{
    let n = a.unicode_len();
    if n != b.unicode_len() {
        return false;
    }
    let mut i: usize = 0;
    while i < n
        invariant
            n == a@.len(),
            n == b@.len(),
            i <= n,
            forall|j: int| 0 <= j < i ==> ascii_lower(#[trigger] a@[j]) == ascii_lower(b@[j]),
        decreases n - i,
    {
        if ascii_lower_char(a.get_char(i)) != ascii_lower_char(b.get_char(i)) {
            return false;
        }
        i = i + 1;
    }
    true
}

/// The name of each level, as the `log` crate spells them.
pub open spec fn level_name(l: LogLevel) -> Seq<char> {
    match l {
        LogLevel::Off => "OFF"@,
        LogLevel::Error => "ERROR"@,
        LogLevel::Warn => "WARN"@,
        LogLevel::Info => "INFO"@,
        LogLevel::Debug => "DEBUG"@,
        LogLevel::Trace => "TRACE"@,
    }
}

/// The level named by `s`, ignoring ASCII case, as `LevelFilter::from_str`
/// reads it: the first of OFF, ERROR, WARN, INFO, DEBUG, TRACE that
/// matches.
pub open spec fn parse_level_spec(s: Seq<char>) -> Option<LogLevel> {
    if eq_ignore_ascii_case_spec(s, "OFF"@) {
        Some(LogLevel::Off)
    } else if eq_ignore_ascii_case_spec(s, "ERROR"@) {
        Some(LogLevel::Error)
    } else if eq_ignore_ascii_case_spec(s, "WARN"@) {
        Some(LogLevel::Warn)
    } else if eq_ignore_ascii_case_spec(s, "INFO"@) {
        Some(LogLevel::Info)
    } else if eq_ignore_ascii_case_spec(s, "DEBUG"@) {
        Some(LogLevel::Debug)
    } else if eq_ignore_ascii_case_spec(s, "TRACE"@) {
        Some(LogLevel::Trace)
    } else {
        None
    }
}

/// Parses a level name, case-insensitively.
pub fn parse_log_level(s: &str) -> (r: Option<LogLevel>)
    ensures
        r == parse_level_spec(s@),
{
    if eq_ignore_ascii_case(s, "OFF") {
        Some(LogLevel::Off)
    } else if eq_ignore_ascii_case(s, "ERROR") {
        Some(LogLevel::Error)
    } else if eq_ignore_ascii_case(s, "WARN") {
        Some(LogLevel::Warn)
    } else if eq_ignore_ascii_case(s, "INFO") {
        Some(LogLevel::Info)
    } else if eq_ignore_ascii_case(s, "DEBUG") {
        Some(LogLevel::Debug)
    } else if eq_ignore_ascii_case(s, "TRACE") {
        Some(LogLevel::Trace)
    } else {
        None
    }
}

/// Debug builds log at debug, release builds at info.
pub fn default_log_level(debug: bool) -> (l: LogLevel)
    ensures
        l == (if debug { LogLevel::Debug } else { LogLevel::Info }),
{
    if debug {
        LogLevel::Debug
    } else {
        LogLevel::Info
    }
}

/// The level to run at: `RUST_LOG` when it names a level (surrounding
/// whitespace ignored), else the default; a typo never stops the logger.
pub fn resolve_log_level(rust_log: Option<&str>, default: LogLevel) -> (l: LogLevel)
    ensures
        l == (match rust_log {
            Some(v) => match parse_level_spec(crate::text::trim_spec(v@)) {
                Some(p) => p,
                None => default,
            },
            None => default,
        }),
{
    match rust_log {
        Some(v) => {
            let t = crate::text::trim(v);
            match parse_log_level(t.as_str()) {
                Some(p) => p,
                None => default,
            }
        },
        None => default,
    }
}

/// The real covers whose evicted placeholders sit in the covers directory,
/// in listing order; every other entry is left alone.
pub open spec fn cover_targets_spec(dir: Seq<char>, names: Seq<Seq<char>>) -> Seq<Seq<char>>
    decreases names.len(),
{
    if names.len() == 0 {
        Seq::empty()
    } else {
        let rest = cover_targets_spec(dir, names.drop_last());
        let n = names.last();
        if is_placeholder_name_spec(n) {
            rest.push(join_spec(dir, real_name_spec(n)))
        } else {
            rest
        }
    }
}

/// The cover files to ask iCloud to download after a boot: for each
/// `.<name>.icloud` entry of the covers directory, `<dir>/<name>`.
pub fn cover_download_targets(covers_dir: &str, names: &Vec<String>) -> (r: Vec<String>)
    requires
        forall|i: int| 0 <= i < names@.len() ==> (is_placeholder_name_spec(#[trigger] names@[i]@)
            ==> names@[i]@.len() > PLACEHOLDER_SUFFIX@.len()),
    ensures
        r@.len() == cover_targets_spec(covers_dir@, names@.map_values(|s: String| s@)).len(),
        forall|i: int| 0 <= i < r@.len() ==> (#[trigger] r@[i])@ == cover_targets_spec(
            covers_dir@,
            names@.map_values(|s: String| s@),
        )[i],
{
    let mut out: Vec<String> = Vec::new();
    let mut i: usize = 0;
    while i < names.len()
        invariant
            i <= names@.len(),
            forall|k: int| 0 <= k < names@.len() ==> (is_placeholder_name_spec(#[trigger] names@[k]@)
                ==> names@[k]@.len() > PLACEHOLDER_SUFFIX@.len()),
            out@.len() == cover_targets_spec(covers_dir@, names@.map_values(|s: String| s@).take(i as int)).len(),
            forall|k: int| 0 <= k < out@.len() ==> (#[trigger] out@[k])@ == cover_targets_spec(
                covers_dir@,
                names@.map_values(|s: String| s@).take(i as int),
            )[k],
        decreases names@.len() - i,
    {
        let ghost all = names@.map_values(|s: String| s@);
        assert(all.take(i + 1).drop_last() =~= all.take(i as int));
        assert(all.take(i + 1).last() == names@[i as int]@);
        if let Some(stem) = real_name_from_placeholder(names[i].as_str()) {
            out.push(join(covers_dir, stem.as_str()));
        }
        i = i + 1;
    }
    assert(names@.map_values(|s: String| s@).take(names@.len() as int) =~= names@.map_values(|s: String| s@));
    out
}

} // verus!
