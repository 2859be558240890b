use moat::config::{unknown_check_message, Config};

fn raw(pairs: &[(&str, &str)]) -> Vec<(String, String)> {
    pairs.iter().map(|(a, b)| (a.to_string(), b.to_string())).collect()
}

#[test]
fn parses_off_and_on() {
    let cfg = Config::from_raw(raw(&[("signed_commits", "off"), ("pinned_actions", "on")]), Vec::new())
        .ok()
        .unwrap();
    assert!(cfg.is_off("signed_commits"));
    assert!(!cfg.is_off("pinned_actions"));
}

#[test]
fn empty_config_is_valid() {
    let cfg = Config::from_raw(Vec::new(), Vec::new()).ok().unwrap();
    assert!(!cfg.is_off("anything"));
    assert!(cfg.release_branches().is_empty());
    assert_eq!(cfg.first_unknown_check(), None);
}

#[test]
fn rejects_unknown_values() {
    let err = Config::from_raw(raw(&[("signed_commits", "warning")]), Vec::new()).err().unwrap();
    assert!(err.message().contains("invalid value"));
    assert_eq!(
        err.message(),
        "invalid value `warning` for check `signed_commits` in moat.toml — expected `on` or `off`"
    );
}

#[test]
fn release_branches_are_kept() {
    let cfg = Config::from_raw(Vec::new(), vec!["main".into(), "release/*".into()]).ok().unwrap();
    assert_eq!(cfg.release_branches(), &vec!["main".to_string(), "release/*".to_string()]);
}

#[test]
fn unknown_check_ids_are_found_after_parsing() {
    let cfg = Config::from_raw(
        raw(&[("repositories_commits_are_signed", "off"), ("not_a_real_check", "off"), ("other", "on")]),
        Vec::new(),
    )
    .ok()
    .unwrap();
    assert_eq!(cfg.first_unknown_check().as_deref(), Some("not_a_real_check"));
    assert_eq!(
        unknown_check_message("not_a_real_check"),
        "unknown check `not_a_real_check` in moat.toml — use a check ID from the Checks section"
    );
    let known = Config::from_raw(raw(&[("repositories_have_security_policy", "on")]), Vec::new()).ok().unwrap();
    assert_eq!(known.first_unknown_check(), None);
}

#[test]
fn first_invalid_value_is_reported() {
    let err = Config::from_raw(
        raw(&[("a", "off"), ("repositories_have_security_policy", "maybe"), ("b", "nope")]),
        Vec::new(),
    )
    .err()
    .unwrap();
    assert_eq!(err.check_id, "repositories_have_security_policy");
    assert_eq!(err.value, "maybe");
}
