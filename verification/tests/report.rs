use moat::checks::catalog::all;
use moat::runner::CheckResult;
use moat::support::outcome::Status;
use moat::support::report::{status_label, Report};

fn sample_results() -> Vec<CheckResult> {
    let check = all()[0];
    vec![
        CheckResult {
            check,
            status: Status::Fail,
            summary: "two repos missing config".into(),
            description: Some("note text".into()),
            how_to_fix: "",
            affected_repos: vec!["repo-a".into(), "repo-b".into()],
            affected_repo_branches: vec![Some("main".into()), None],
            affected_repo_release_branches: vec![vec![], vec!["release/1.0".into()]],
            org_default_issue: false,
            org_only_issue: false,
            private_repos_excluded_by_plan: 0,
            private_repos_in_scope: 0,
            private_repos_filtered_out: 0,
            repos_skipped_no_data: 0,
            no_data_label: None,
            skip_reason: None,
        },
        CheckResult {
            check,
            status: Status::Pass,
            summary: "all good".into(),
            description: None,
            how_to_fix: "",
            affected_repos: vec![],
            affected_repo_branches: vec![],
            affected_repo_release_branches: vec![],
            org_default_issue: false,
            org_only_issue: false,
            private_repos_excluded_by_plan: 0,
            private_repos_in_scope: 0,
            private_repos_filtered_out: 0,
            repos_skipped_no_data: 0,
            no_data_label: None,
            skip_reason: None,
        },
    ]
}

#[test]
fn summary_counts_and_percentage() {
    let results = sample_results();
    let r = Report::from_results("acme", "organization", &results);
    assert_eq!(r.summary.total, 2);
    assert_eq!(r.summary.passed, 1);
    assert_eq!(r.summary.failed, 1);
    assert_eq!(r.summary.warned, 0);
    assert_eq!(r.summary.skipped, 0);
    assert_eq!(r.summary.percent_hardened, 50);
}

#[test]
fn empty_results_are_fully_hardened() {
    let r = Report::from_results("acme", "user", &[]);
    assert_eq!(r.summary.total, 0);
    assert_eq!(r.summary.percent_hardened, 100);
}

#[test]
fn affected_zips_parallel_vectors() {
    let r = Report::from_results("acme", "organization", &sample_results());
    let failing = &r.checks[0];
    assert_eq!(failing.affected.len(), 2);
    assert_eq!(failing.affected[0].repo, "repo-a");
    assert_eq!(failing.affected[0].branch.as_deref(), Some("main"));
    assert!(failing.affected[0].release_branches.is_empty());
    assert_eq!(failing.affected[1].repo, "repo-b");
    assert!(failing.affected[1].branch.is_none());
    assert_eq!(failing.affected[1].release_branches, vec!["release/1.0"]);
}

#[test]
fn markdown_contains_headings_table_and_details() {
    let r = Report::from_results("acme", "organization", &sample_results());
    let md = r.to_markdown();
    assert!(md.contains("# Security posture — acme (Organization)"));
    assert!(md.contains("**50% hardened**"));
    assert!(md.contains("## Checks"));
    assert!(md.contains("| Status | Check | Summary |"));
    assert!(md.contains("## Details"));
    assert!(md.contains("**Description:** note text"));
    assert!(md.contains("**How to fix:**"));
    assert!(md.contains("`repo-a`"));
    assert!(md.contains("(`main`)"));
    // Passing checks should not appear in details section.
    let details_idx = md.find("## Details").unwrap();
    assert!(!md[details_idx..].contains("all good"));
}

#[test]
fn markdown_escapes_pipes_in_summary() {
    let mut results = sample_results();
    results[0].summary = "a | b".into();
    let r = Report::from_results("acme", "organization", &results);
    let md = r.to_markdown();
    assert!(md.contains("a \\| b"));
}

#[test]
fn counts_add_up_to_total() {
    let mut results = sample_results();
    let mut warn = sample_results().remove(1);
    warn.status = Status::Warn;
    results.push(warn);
    let mut skip = sample_results().remove(1);
    skip.status = Status::Skipped;
    results.push(skip);
    let r = Report::from_results("acme", "organization", &results);
    let s = &r.summary;
    assert_eq!(s.passed + s.failed + s.warned + s.skipped, s.total);
    assert_eq!(s.total, 4);
    // Passed and skipped checks count as hardened: 2 of 4.
    assert_eq!(s.percent_hardened, 50);
}

#[test]
fn status_labels() {
    assert_eq!(status_label(Status::Fail), "✕ fail");
    assert_eq!(status_label(Status::Warn), "! warn");
    assert_eq!(status_label(Status::Skipped), "· skipped");
}
