use moat::support::outcome::{CheckOutcome, Status};

#[test]
fn constructors_set_status_and_summary() {
    assert_eq!(CheckOutcome::pass("ok").status, Status::Pass);
    assert_eq!(CheckOutcome::pass("ok").summary, "ok");
    assert_eq!(CheckOutcome::fail("bad").status, Status::Fail);
    assert_eq!(CheckOutcome::warn("hm").status, Status::Warn);
    assert_eq!(CheckOutcome::skipped("n/a").status, Status::Skipped);
}

#[test]
fn with_items_attaches_items() {
    let o = CheckOutcome::fail("x").with_items(vec!["a".into(), "b".into()]);
    assert_eq!(o.items, vec!["a", "b"]);
}

#[test]
fn badge_is_distinct_per_status() {
    assert_eq!(Status::Pass.badge(), "✓");
    assert_eq!(Status::Fail.badge(), "✗");
    assert_eq!(Status::Warn.badge(), "!");
    assert_eq!(Status::Skipped.badge(), "·");
}

#[test]
fn colored_summary_contains_summary_text() {
    let o = CheckOutcome::pass("required");
    assert!(o.colored_summary().contains("required"));
}

#[test]
fn colored_badge_contains_glyph() {
    assert!(Status::Pass.colored_badge().contains('✓'));
    assert!(Status::Fail.colored_badge().contains('✗'));
}

#[test]
fn colored_badge_is_styled_not_bare() {
    let b = Status::Pass.colored_badge();
    assert_ne!(b, "✓");
    assert!(b.contains("\x1b["));
}

#[test]
fn plan_gated_and_no_data_skips_carry_their_markers() {
    let g = CheckOutcome::skipped_plan_gated("N/A (plan)");
    assert_eq!(g.status, Status::Skipped);
    assert!(g.plan_gated);
    let n = CheckOutcome::skipped_no_data("no data", "workflow files");
    assert_eq!(n.status, Status::Skipped);
    assert_eq!(n.no_data_label.as_deref(), Some("workflow files"));
}
