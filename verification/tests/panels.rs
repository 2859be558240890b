use moat::checks::catalog::all;
use moat::runner::order::display_order_exec;
use moat::runner::panels::render_posture_panel;
use moat::runner::CheckResult;
use moat::support::outcome::Status;

fn result(status: Status, affected: &[&str]) -> CheckResult {
    CheckResult {
        check: all()[0],
        status,
        summary: "s".into(),
        description: None,
        how_to_fix: "",
        affected_repos: affected.iter().map(|s| s.to_string()).collect(),
        affected_repo_branches: Vec::new(),
        affected_repo_release_branches: Vec::new(),
        org_default_issue: false,
        org_only_issue: false,
        private_repos_excluded_by_plan: 0,
        private_repos_in_scope: 0,
        private_repos_filtered_out: 0,
        repos_skipped_no_data: 0,
        no_data_label: None,
        skip_reason: None,
    }
}

#[test]
fn panel_order_is_status_then_breadth_then_run_order() {
    let results = vec![
        result(Status::Fail, &["a", "b"]),
        result(Status::Pass, &[]),
        result(Status::Fail, &["a"]),
        result(Status::Warn, &[]),
        result(Status::Skipped, &[]),
        result(Status::Pass, &[]),
    ];
    assert_eq!(display_order_exec(&results), vec![1, 5, 4, 3, 2, 0]);
}

#[test]
fn posture_panel_reports_share_and_counts() {
    let results = vec![result(Status::Pass, &[]), result(Status::Fail, &["a"]), result(Status::Skipped, &[])];
    let rows = render_posture_panel(&results, 80);
    let text = rows.join("\n");
    assert!(text.contains("66% hardened"));
    assert!(text.contains("1 passed"));
    assert!(text.contains("1 critical"));
    assert!(text.contains("0 warnings"));
    assert!(text.contains("1 skipped"));
    assert!(text.contains("3 total"));
    assert!(text.contains("Security posture"));
}

#[test]
fn posture_panel_of_nothing_is_fully_hardened() {
    let rows = render_posture_panel(&[], 60);
    assert!(rows.join("\n").contains("100% hardened"));
}
