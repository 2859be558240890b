use moat::checks::common::{FilePresence, WebhooksState, WorkflowTokenState};
use moat::checks::repo_context::{
    BranchProtectionState, BranchProtections, DependabotConfigState, FeatureState, ReleaseImmutabilityRepoState,
    RepoContext, RepoWorkflows, SHAPinningState,
};
use moat::checks::repositories_have_no_direct_collaborators as direct_collaborators;
use moat::checks::repositories_pull_requests_require_reviews as pr_reviews;
use moat::checks::repositories_release_branches_are_protected as protected_release_branches;
use moat::checks::repositories_secret_push_protection_is_enabled as push_protection;
use moat::checks::{secret_scanning, signed_commits, workflow_token};
use moat::config::Config;
use moat::support::outcome::Status;

fn protected(signed_commits: bool, pr_reviews: bool) -> BranchProtectionState {
    BranchProtectionState::Protected {
        signed_commits,
        pr_reviews,
        pr_dismiss_stale_reviews: true,
        pr_require_last_push_approval: true,
        pr_require_code_owner_review: true,
        enforce_admins: false,
        required_linear_history: false,
        allow_force_pushes: false,
        allow_deletions: false,
    }
}

fn ctx(branch: BranchProtectionState, token: WorkflowTokenState) -> RepoContext {
    RepoContext {
        name: "r".into(),
        archived: false,
        private: false,
        default_branch: Some("main".into()),
        branch_protections: BranchProtections::from_single("main", branch),
        workflow_token: token,
        secret_scanning: FeatureState::Enabled,
        push_protection: FeatureState::Enabled,
        workflows: RepoWorkflows { branches: Vec::new() },
        security_md: FilePresence::Absent,
        codeowners: FilePresence::Absent,
        dependabot_config: DependabotConfigState::Missing,
        webhooks: WebhooksState::Listed(Vec::new()),
        direct_collaborators: Vec::new(),
        config: Config::new(),
        release_immutability: ReleaseImmutabilityRepoState::Enabled,
        sha_pinning: SHAPinningState::Enforced,
    }
}

#[test]
fn branch_protection_states() {
    assert_eq!(
        protected_release_branches::repo_check(&ctx(protected(false, false), WorkflowTokenState::Read)).status,
        Status::Pass
    );
    assert_eq!(
        protected_release_branches::repo_check(&ctx(BranchProtectionState::Unprotected, WorkflowTokenState::Read))
            .status,
        Status::Fail
    );
    let mut no_default = ctx(BranchProtectionState::Unprotected, WorkflowTokenState::Read);
    no_default.branch_protections = BranchProtections::none();
    assert_eq!(protected_release_branches::repo_check(&no_default).status, Status::Skipped);

    assert_eq!(
        protected_release_branches::repo_check(&ctx(BranchProtectionState::NoPermission, WorkflowTokenState::Read))
            .status,
        Status::Skipped
    );
}

#[test]
fn signed_commits_flag_routing() {
    let pass = ctx(protected(true, false), WorkflowTokenState::Read);
    let fail = ctx(protected(false, true), WorkflowTokenState::Read);
    assert_eq!(signed_commits::repo_check(&pass).status, Status::Pass);
    assert_eq!(signed_commits::repo_check(&fail).status, Status::Fail);
}

#[test]
fn pr_reviews_flag_routing() {
    let pass = ctx(protected(false, true), WorkflowTokenState::Read);
    let fail = ctx(protected(true, false), WorkflowTokenState::Read);
    assert_eq!(pr_reviews::repo_check(&pass).status, Status::Pass);
    assert_eq!(pr_reviews::repo_check(&fail).status, Status::Fail);
}

#[test]
fn workflow_token_states() {
    let r = ctx(BranchProtectionState::Unprotected, WorkflowTokenState::Read);
    let w = ctx(BranchProtectionState::Unprotected, WorkflowTokenState::Write);
    let n = ctx(BranchProtectionState::Unprotected, WorkflowTokenState::Unavailable);
    assert_eq!(workflow_token::repo_check(&r).status, Status::Pass);
    assert_eq!(workflow_token::repo_check(&w).status, Status::Fail);
    assert_eq!(workflow_token::repo_check(&n).status, Status::Skipped);
}

#[test]
fn feature_state_outcomes_cover_all_variants() {
    let mut c = ctx(BranchProtectionState::Unprotected, WorkflowTokenState::Read);

    c.secret_scanning = FeatureState::Enabled;
    c.push_protection = FeatureState::Disabled;

    assert_eq!(secret_scanning::repo_check(&c).status, Status::Pass);
    assert_eq!(push_protection::repo_check(&c).status, Status::Fail);

    c.secret_scanning = FeatureState::Unknown;
    assert_eq!(secret_scanning::repo_check(&c).status, Status::Skipped);
}

#[test]
fn direct_collaborators_states() {
    let mut c = ctx(BranchProtectionState::Unprotected, WorkflowTokenState::Read);

    c.direct_collaborators = Vec::new();
    assert_eq!(direct_collaborators::repo_check(&c).status, Status::Pass);

    c.direct_collaborators = vec!["alice".into(), "bob".into()];
    let outcome = direct_collaborators::repo_check(&c);
    assert_eq!(outcome.status, Status::Fail);
    assert_eq!(outcome.summary, "2");
}
