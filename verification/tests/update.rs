use moat::support::update::{
    cache_is_fresh, cached_version, external_manager_for_exe, is_newer_than_current, parse_version,
    self_update_message,
};

#[test]
fn versions_are_read_part_by_part() {
    assert_eq!(parse_version("v1.2.3"), (1, 2, 3));
    assert_eq!(parse_version(" 0.10 "), (0, 10, 0));
    assert_eq!(parse_version("x.y.z"), (0, 0, 0));
}

#[test]
fn newer_versions() {
    assert!(is_newer_than_current("0.1.1"));
    assert!(is_newer_than_current("v1.0.0"));
    assert!(!is_newer_than_current("0.1.0"));
    assert!(!is_newer_than_current("0.0.9"));
}

#[test]
fn cache_freshness() {
    assert!(cache_is_fresh(Some(10)));
    assert!(!cache_is_fresh(Some(86400)));
    assert!(!cache_is_fresh(None));
    assert_eq!(cached_version(" 0.2.0\n").as_deref(), Some("0.2.0"));
    assert_eq!(cached_version("  "), None);
}

#[test]
fn self_update_messages() {
    assert_eq!(self_update_message(Some("v0.2.0")), "Moat updated to v0.2.0.");
    assert_eq!(self_update_message(None), "Moat is already up to date.");
}

#[test]
fn homebrew_owned_executables() {
    assert_eq!(external_manager_for_exe("/opt/homebrew/Cellar/moat/0.1.0/bin/moat"), Some("Homebrew"));
    assert_eq!(external_manager_for_exe("/usr/local/bin/moat"), None);
}
