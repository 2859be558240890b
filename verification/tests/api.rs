use moat::checks::api::dependabot_config_from;
use moat::checks::repo_context::DependabotConfigState;
use moat::checks::api::{
    dependabot_tracks_actions, feature_default_from, plan_from_name, protection_from, release_branch_names,
    release_immutability_from, ruleset_summary, rulesets_from, workflow_token_from, PrRule, ProtectionFlags,
};
use moat::checks::common::WorkflowTokenState;
use moat::checks::org_context::{FeatureDefaultState, OrgPlan, ReleaseImmutabilityState, RulesetsState};
use moat::checks::repo_context::BranchProtectionState;
use moat::support::github::{Fetch, Fetch403};
use moat::support::workflows::YamlValue;

#[test]
fn org_settings_are_read() {
    assert_eq!(plan_from_name(Some("team")), OrgPlan::Team);
    assert_eq!(plan_from_name(Some("business")), OrgPlan::Unknown);
    assert_eq!(plan_from_name(None), OrgPlan::Unknown);
    assert_eq!(release_immutability_from("all"), ReleaseImmutabilityState::All);
    assert_eq!(release_immutability_from("selected"), ReleaseImmutabilityState::Selected);
    assert_eq!(release_immutability_from("none"), ReleaseImmutabilityState::NoRepositories);
    assert_eq!(workflow_token_from(&Fetch::Found("read".to_string())), WorkflowTokenState::Read);
    assert_eq!(workflow_token_from(&Fetch::Forbidden), WorkflowTokenState::Unavailable);
    assert_eq!(feature_default_from(&Fetch403::Found(Some("enabled".to_string()))), FeatureDefaultState::Enabled);
    assert_eq!(feature_default_from(&Fetch403::PlanGated), FeatureDefaultState::PlanGated);
    assert_eq!(feature_default_from(&Fetch403::Found(None)), FeatureDefaultState::Unknown);
}

#[test]
fn rulesets_combine() {
    let pr = PrRule { dismiss_stale_reviews: true, require_last_push_approval: false, require_code_owner_review: false };
    let rules = vec![
        ruleset_summary(Some("branch"), "active", Some(pr)),
        ruleset_summary(Some("branch"), "disabled", Some(PrRule {
            dismiss_stale_reviews: true,
            require_last_push_approval: true,
            require_code_owner_review: true,
        })),
        ruleset_summary(Some("tag"), "active", None),
    ];
    let r = rulesets_from(&rules);
    assert_eq!(r.state, RulesetsState::Loaded);
    assert!(r.any_active);
    assert!(r.pull_request);
    assert!(r.pr_dismiss_stale_reviews);
    assert!(!r.pr_require_last_push_approval);
    assert!(!r.pr_require_code_owner_review);
    let none = rulesets_from(&vec![]);
    assert!(!none.any_active && !none.pull_request);
}

#[test]
fn release_branches_start_with_the_default() {
    let configured = vec!["main".to_string(), "1.x".to_string(), "1.x".to_string()];
    assert_eq!(release_branch_names(Some("main"), &configured), vec!["main", "1.x"]);
    assert!(release_branch_names(None, &vec![]).is_empty());
}

#[test]
fn protections_are_read() {
    let flags = ProtectionFlags {
        signed_commits: true,
        pr_reviews: false,
        pr_dismiss_stale_reviews: false,
        pr_require_last_push_approval: false,
        pr_require_code_owner_review: false,
        enforce_admins: true,
        required_linear_history: false,
        allow_force_pushes: false,
        allow_deletions: false,
    };
    assert!(matches!(
        protection_from(Fetch403::Found(flags)),
        BranchProtectionState::Protected { signed_commits: true, enforce_admins: true, .. }
    ));
    assert_eq!(protection_from(Fetch403::NotFound), BranchProtectionState::Unprotected);
    assert_eq!(protection_from(Fetch403::Forbidden), BranchProtectionState::NoPermission);
}

#[test]
fn dependabot_ecosystems() {
    let s = |x: &str| YamlValue::Str(x.to_string());
    let entry = |eco: &str| YamlValue::Mapping(vec![(s("package-ecosystem"), s(eco)), (s("directory"), s("/"))]);
    let doc = YamlValue::Mapping(vec![
        (s("version"), YamlValue::Number("2".into())),
        (s("updates"), YamlValue::Sequence(vec![entry("npm"), entry("github-actions")])),
    ]);
    assert!(dependabot_tracks_actions(&doc));
    let doc = YamlValue::Mapping(vec![(s("updates"), YamlValue::Sequence(vec![entry("npm")]))]);
    assert!(!dependabot_tracks_actions(&doc));
}

#[test]
fn dependabot_files() {
    let yes = "version: 2\nupdates:\n  - package-ecosystem: github-actions\n    directory: /\n";
    assert_eq!(
        dependabot_config_from(&Fetch::Found(yes.to_string())),
        DependabotConfigState::Present { github_actions: true }
    );
    let no = "version: 2\nupdates:\n  - package-ecosystem: npm\n";
    assert_eq!(
        dependabot_config_from(&Fetch::Found(no.to_string())),
        DependabotConfigState::Present { github_actions: false }
    );
    assert_eq!(dependabot_config_from(&Fetch::NotFound), DependabotConfigState::Missing);
    assert_eq!(dependabot_config_from(&Fetch::Found("a: [".to_string())), DependabotConfigState::Unknown);
}
