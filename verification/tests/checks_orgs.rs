use moat::checks::common::{WebhookInfo, WorkflowTokenState};
use moat::checks::org_context::{
    FeatureDefaultState, OrgContext, OrgPlan, OrgRulesets, ReleaseImmutabilityState, RulesetsState,
    TwoFactorState,
};
use moat::checks::repositories_pull_requests_require_reviews as pr_reviews_org;
use moat::checks::repositories_releases_are_immutable as releases_immutable;
use moat::checks::repositories_webhooks_are_secure as webhooks_secure;
use moat::checks::two_factor_required;
use moat::support::outcome::Status;

fn base_ctx() -> OrgContext {
    OrgContext {
        plan: OrgPlan::Team,
        two_factor_required: TwoFactorState::Required,
        outside_collaborators: Vec::new(),
        admins: Vec::new(),
        release_immutability: ReleaseImmutabilityState::All,
        workflow_token: WorkflowTokenState::Read,
        secret_scanning_default: FeatureDefaultState::Enabled,
        push_protection_default: FeatureDefaultState::Enabled,
        webhooks: Vec::new(),
        rulesets: OrgRulesets::empty(),
    }
}

#[test]
fn releases_immutable_org_states() {
    let mut c = base_ctx();
    c.release_immutability = ReleaseImmutabilityState::All;
    assert_eq!(releases_immutable::org_check(&c).status, Status::Pass);
    c.release_immutability = ReleaseImmutabilityState::Selected;
    assert_eq!(releases_immutable::org_check(&c).status, Status::Warn);
    c.release_immutability = ReleaseImmutabilityState::NoRepositories;
    assert_eq!(releases_immutable::org_check(&c).status, Status::Fail);
}

#[test]
fn webhooks_org_empty_passes() {
    let mut c = base_ctx();
    c.webhooks = Vec::new();
    assert_eq!(webhooks_secure::org_check(&c).status, Status::Pass);
}

#[test]
fn webhooks_org_insecure_fails_with_findings() {
    let mut c = base_ctx();
    c.webhooks = vec![
        WebhookInfo {
            url: "http://a/h".into(),
            has_secret: true,
        },
        WebhookInfo {
            url: "https://b/h".into(),
            has_secret: false,
        },
    ];
    let o = webhooks_secure::org_check(&c);
    assert_eq!(o.status, Status::Fail);
    assert_eq!(o.items.len(), 2);
}

fn rulesets_with_pr(pull_request: bool, dismiss: bool, last_push: bool, code_owner: bool) -> OrgRulesets {
    OrgRulesets {
        state: RulesetsState::Loaded,
        any_active: true,
        pull_request,
        pr_dismiss_stale_reviews: dismiss,
        pr_require_last_push_approval: last_push,
        pr_require_code_owner_review: code_owner,
    }
}

#[test]
fn pr_reviews_org_check_no_pull_request_rule_fails() {
    let mut c = base_ctx();
    c.rulesets = rulesets_with_pr(false, true, true, true);
    let o = pr_reviews_org::org_check(&c);
    assert_eq!(o.status, Status::Fail);
    assert!(o.summary.to_ascii_lowercase().contains("not required"));
}

#[test]
fn pr_reviews_org_check_lists_missing_sub_requirements() {
    let mut c = base_ctx();
    c.rulesets = rulesets_with_pr(true, false, false, false);
    let o = pr_reviews_org::org_check(&c);
    assert_eq!(o.status, Status::Fail);
    assert!(o.items.iter().any(|i| i.to_ascii_lowercase().contains("stale reviews not dismissed")));
    assert!(o.items.iter().any(|i| i.to_ascii_lowercase().contains("last-push approval not required")));
    assert!(o.items.iter().any(|i| i.to_ascii_lowercase().contains("code-owner review not required")));
}

#[test]
fn pr_reviews_org_check_passes_when_all_sub_flags_set() {
    let mut c = base_ctx();
    c.rulesets = rulesets_with_pr(true, true, true, true);
    let o = pr_reviews_org::org_check(&c);
    assert_eq!(o.status, Status::Pass);
}

#[test]
fn two_factor_required_passes_when_required() {
    let c = base_ctx();
    let o = two_factor_required::org_check(&c);
    assert_eq!(o.status, Status::Pass);
    assert_eq!(o.summary, "Required for every member");
}

#[test]
fn two_factor_required_fails_when_not_required() {
    let mut c = base_ctx();
    c.two_factor_required = TwoFactorState::NotRequired;
    assert_eq!(two_factor_required::org_check(&c).status, Status::Fail);
}

#[test]
fn two_factor_unknown_is_skipped() {
    let mut c = base_ctx();
    c.two_factor_required = TwoFactorState::Unknown;
    let o = two_factor_required::org_check(&c);
    assert_eq!(o.status, Status::Skipped);
    assert_eq!(o.summary, "unknown");
    assert!(o.items.is_empty());
}

#[test]
fn webhooks_org_all_secure_passes() {
    let mut c = base_ctx();
    c.webhooks = vec![
        WebhookInfo { url: "https://a/h".into(), has_secret: true },
        WebhookInfo { url: "https://b/h".into(), has_secret: true },
    ];
    let o = webhooks_secure::org_check(&c);
    assert_eq!(o.status, Status::Pass);
    assert_eq!(o.summary, "All organization webhooks use HTTPS and have a secret");
    assert!(o.items.is_empty());
}
