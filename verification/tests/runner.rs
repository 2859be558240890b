use moat::checks::catalog::Check;
use moat::checks::catalog::all;
use moat::runner::{self, CheckResult};
use moat::support::outcome::Status;

fn result_with(status: Status) -> CheckResult {
    CheckResult {
        check: all()[0],
        status,
        summary: String::new(),
        description: None,
        how_to_fix: "",
        affected_repos: Vec::new(),
        affected_repo_branches: Vec::new(),
        affected_repo_release_branches: Vec::new(),
        org_default_issue: false,
        org_only_issue: false,
        private_repos_excluded_by_plan: 0,
        private_repos_in_scope: 0,
        private_repos_filtered_out: 0,
        repos_skipped_no_data: 0,
        no_data_label: None,
        skip_reason: None,
    }
}

#[test]
fn exit_code_is_zero_when_no_failures() {
    let results = vec![
        result_with(Status::Pass),
        result_with(Status::Warn),
        result_with(Status::Skipped),
    ];
    assert_eq!(runner::exit_code(&results), 0);
}

#[test]
fn exit_code_is_one_when_any_check_fails() {
    let results = vec![result_with(Status::Pass), result_with(Status::Fail)];
    assert_eq!(runner::exit_code(&results), 1);
}

#[test]
fn exit_code_is_zero_for_empty_results() {
    assert_eq!(runner::exit_code(&[]), 0);
}

#[test]
fn without_an_organization_org_checks_are_not_reported() {
    let ctx = runner::CheckContext { org: None, repos: &[] };
    let results = runner::run_checks(&ctx);
    assert_eq!(results.len(), all().len() - 1);
    assert!(results.iter().all(|r| r.check != Check::OrganizationRequiresTwoFactor));
    assert!(results.iter().all(|r| !r.check.org_only()));
}

#[test]
fn affected_repositories_link_to_the_check_page() {
    assert_eq!(Check::WebhooksAreSecure.repo_link_path(), Some("/settings/hooks"));
    assert_eq!(Check::HaveDependabotConfig.repo_link_path(), None);
}
