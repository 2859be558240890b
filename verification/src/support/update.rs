//! Version comparison and the decisions around updating moat itself. (The
//! release lookup, the on-disk cache and the download happen at the edge.)
use vstd::prelude::*;
use crate::text::{
    chars_of, parse_u32, parse_u32_exec, split, split_exec, str_contains, str_starts_with, strings_of, trim,
    trim_exec, trim_start_set, trim_start_set_exec, views,
};

verus! {

/// The version of this build.
pub const CURRENT_VERSION: &'static str = "0.1.0";

/// How long a cached "latest version" stays fresh, in seconds (a day).
pub const CHECK_INTERVAL_SECS: u64 = 86400;

/// The number in a version component, or 0 when it is not one.
pub open spec fn component(parts: Seq<Seq<char>>, i: int) -> u32 {
    if i < parts.len() {
        match parse_u32(parts[i]) {
            Some(n) => n,
            None => 0,
        }
    } else {
        0
    }
}

/// A version as `(major, minor, patch)`: surrounding whitespace and leading
/// `v`s dropped, split on dots, each missing or unreadable part read as 0.
pub open spec fn parse_version_spec(s: Seq<char>) -> (u32, u32, u32) {
    let parts = split(trim_start_set(trim(s), "v"@), "."@);
    (component(parts, 0), component(parts, 1), component(parts, 2))
}

/// `a` is a later version than `b` (compared part by part).
pub open spec fn version_gt(a: (u32, u32, u32), b: (u32, u32, u32)) -> bool {
    a.0 > b.0 || (a.0 == b.0 && (a.1 > b.1 || (a.1 == b.1 && a.2 > b.2)))
}

fn component_exec(parts: &Vec<Vec<char>>, i: usize) -> (n: u32)
    ensures
        n == component(views(parts@), i as int),
{
    if i < parts.len() {
        assert(views(parts@)[i as int] == parts@[i as int]@);
        match parse_u32_exec(&parts[i]) {
            Some(n) => n,
            None => 0,
        }
    } else {
        0
    }
}

/// Reads a version string.
pub fn parse_version(s: &str) -> (v: (u32, u32, u32))
    ensures
        v == parse_version_spec(s@),
{
    proof { reveal_strlit("."); }
    assert("."@.len() == 1);
    let t = trim_start_set_exec(&trim_exec(&chars_of(s)), &chars_of("v"));
    let parts = split_exec(&t, &chars_of("."));
    (component_exec(&parts, 0), component_exec(&parts, 1), component_exec(&parts, 2))
}

/// Is `latest` a later version than this build?
pub fn is_newer_than_current(latest: &str) -> (b: bool)
    ensures
        b == version_gt(parse_version_spec(latest@), parse_version_spec(CURRENT_VERSION@)),
{
    let a = parse_version(latest);
    let c = parse_version(CURRENT_VERSION);
    a.0 > c.0 || (a.0 == c.0 && (a.1 > c.1 || (a.1 == c.1 && a.2 > c.2)))
}

/// A cached version is fresh when it was written less than a day ago; an
/// unknown age is stale.
pub fn cache_is_fresh(age_secs: Option<u64>) -> (b: bool)
    ensures
        b == (match age_secs {
            Some(a) => a < CHECK_INTERVAL_SECS,
            None => false,
        }),
{
    match age_secs {
        Some(a) => a < CHECK_INTERVAL_SECS,
        None => false,
    }
}

/// The version held in the cache file: its trimmed content, unless empty.
pub fn cached_version(raw: &str) -> (v: Option<String>)
    ensures
        match v {
            Some(x) => trim(raw@).len() > 0 && x@ == trim(raw@),
            None => trim(raw@).len() == 0,
        },
{
    let t = trim_exec(&chars_of(raw));
    if t.len() == 0 {
        None
    } else {
        Some(crate::text::string_of(&t))
    }
}

/// The package manager that installed the executable at `path`, if any:
/// Homebrew for its prefixes.
pub open spec fn external_manager_spec(path: Seq<char>) -> Option<Seq<char>> {
    if crate::text::starts_with(path, "/opt/homebrew/"@) || crate::text::starts_with(path, "/usr/local/Cellar/"@)
        || crate::text::starts_with(path, "/usr/local/opt/"@) || crate::text::contains(path, "/linuxbrew/"@) {
        Some("Homebrew"@)
    } else {
        None
    }
}

/// The package manager that installed the executable at `path`, if any.
pub fn external_manager_for_exe(path: &str) -> (m: Option<&'static str>)
    ensures
        match m {
            Some(x) => external_manager_spec(path@) == Some(x@),
            None => external_manager_spec(path@) is None,
        },
{
    if str_starts_with(path, "/opt/homebrew/") || str_starts_with(path, "/usr/local/Cellar/")
        || str_starts_with(path, "/usr/local/opt/") || str_contains(path, "/linuxbrew/") {
        Some("Homebrew")
    } else {
        None
    }
}

/// What a self-update did.
pub enum SelfUpdateOutcome {
    Updated(String),
    UpToDate,
    /// A package manager owns the executable; `latest` is available from it.
    ManagedExternally { manager: &'static str, latest: String },
    Failed(String),
}

/// For an executable a package manager owns: point to the manager when a
/// later version exists (the lookup failing counts as no later version).
pub fn managed_outcome(manager: &'static str, latest: Option<String>) -> (o: SelfUpdateOutcome)
    ensures
        match latest {
            Some(l) => if version_gt(parse_version_spec(l@), parse_version_spec(CURRENT_VERSION@)) {
                o matches SelfUpdateOutcome::ManagedExternally { manager: m, latest: x } && m@ == manager@ && x@ == l@
            } else {
                o is UpToDate
            },
            None => o is UpToDate,
        },
{
    let l = match latest {
        Some(l) => l,
        None => CURRENT_VERSION.to_owned(),
    };
    if is_newer_than_current(l.as_str()) {
        SelfUpdateOutcome::ManagedExternally { manager, latest: l }
    } else {
        proof {
            assert(!version_gt(parse_version_spec(CURRENT_VERSION@), parse_version_spec(CURRENT_VERSION@)));
        }
        SelfUpdateOutcome::UpToDate
    }
}

/// What the self-update panel says: the new version (without a leading
/// `v`), or that moat is already up to date.
pub open spec fn self_update_message_spec(updated: Option<Seq<char>>) -> Seq<char> {
    match updated {
        Some(v) => "Moat updated to v"@ + trim_start_set(v, "v"@) + "."@,
        None => "Moat is already up to date."@,
    }
}

/// What the self-update panel says.
pub fn self_update_message(updated: Option<&str>) -> (m: String)
    ensures
        m@ == self_update_message_spec(match updated {
            Some(v) => Some(v@),
            None => None,
        }),
{
    match updated {
        Some(v) => {
            let mut m = String::new();
            m.append("Moat updated to v");
            let t = trim_start_set_exec(&chars_of(v), &chars_of("v"));
            crate::text::push_chars(&mut m, &t);
            m.append(".");
            m
        },
        None => "Moat is already up to date.".to_owned(),
    }
}

} // verus!
