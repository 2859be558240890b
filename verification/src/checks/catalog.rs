//! The catalog of checks: what each one is called, what it looks at and how
//! it is evaluated.
use vstd::prelude::*;
use crate::checks::StateCtx;
use crate::checks::common::{feature_phrase_spec, webhooks_outcome, RepoFeature};
use crate::checks::org_context::{default_outcome, OrgContext};
use crate::checks::repo_context::{aggregate_spec, feature_outcome, RepoContext};
use crate::checks::two_factor_required as tfa;
use crate::checks::workflow_token as wt;
use crate::checks::repositories_secret_scanning_is_enabled as ss;
use crate::checks::repositories_secret_push_protection_is_enabled as pp;
use crate::checks::repositories_releases_are_immutable as ri;
use crate::checks::repositories_release_branches_are_protected as rb;
use crate::checks::signed_commits as sc;
use crate::checks::repositories_pull_requests_require_reviews as prr;
use crate::checks::repositories_webhooks_are_secure as wh;
use crate::checks::repositories_have_no_direct_collaborators as dc;
use crate::checks::repositories_workflow_actions_are_pinned as pin;
use crate::checks::repositories_pull_request_target_is_safe as prt;
use crate::checks::repositories_workflow_permissions_are_restricted as perm;
use crate::checks::repositories_have_security_policy as sp;
use crate::checks::repositories_have_dependabot_config as dep;
use crate::support::outcome::{CheckOutcome, OutcomeView};
use crate::text::opt_view;

verus! {

/// Where a check looks: at the organization, at each repository, or both.
#[derive(Clone, Copy, PartialEq, Eq, Debug, Structural)]
pub enum Scope {
    Org,
    Repo,
    OrgAndRepo,
}

/// One check of the audit.
#[derive(Clone, Copy, PartialEq, Eq, Debug, Structural)]
pub enum Check {
    OrganizationRequiresTwoFactor,
    ActionsWorkflowTokenIsReadOnly,
    SecretScanningIsEnabled,
    SecretPushProtectionIsEnabled,
    ReleasesAreImmutable,
    ReleaseBranchesAreProtected,
    CommitsAreSigned,
    PullRequestsRequireReviews,
    WebhooksAreSecure,
    HaveNoDirectCollaborators,
    WorkflowActionsArePinned,
    PullRequestTargetIsSafe,
    WorkflowPermissionsAreRestricted,
    HaveSecurityPolicy,
    HaveDependabotConfig,
}

/// The abstract value of an optional outcome.
pub open spec fn opt_outcome(o: Option<CheckOutcome>) -> Option<OutcomeView> {
    match o {
        Some(x) => Some(x@),
        None => None,
    }
}

/// Every check, in the order in which they are run and reported.
pub open spec fn all_spec() -> Seq<Check> {
    seq![
        Check::OrganizationRequiresTwoFactor,
        Check::ActionsWorkflowTokenIsReadOnly,
        Check::SecretScanningIsEnabled,
        Check::SecretPushProtectionIsEnabled,
        Check::ReleasesAreImmutable,
        Check::ReleaseBranchesAreProtected,
        Check::CommitsAreSigned,
        Check::PullRequestsRequireReviews,
        Check::WebhooksAreSecure,
        Check::HaveNoDirectCollaborators,
        Check::WorkflowActionsArePinned,
        Check::PullRequestTargetIsSafe,
        Check::WorkflowPermissionsAreRestricted,
        Check::HaveSecurityPolicy,
        Check::HaveDependabotConfig,
    ]
}

/// Every check, in the order in which they are run and reported.
pub fn all() -> (v: Vec<Check>)
    ensures
        v@ == all_spec(),
{
    let mut v: Vec<Check> = Vec::new();
    v.push(Check::OrganizationRequiresTwoFactor);
    v.push(Check::ActionsWorkflowTokenIsReadOnly);
    v.push(Check::SecretScanningIsEnabled);
    v.push(Check::SecretPushProtectionIsEnabled);
    v.push(Check::ReleasesAreImmutable);
    v.push(Check::ReleaseBranchesAreProtected);
    v.push(Check::CommitsAreSigned);
    v.push(Check::PullRequestsRequireReviews);
    v.push(Check::WebhooksAreSecure);
    v.push(Check::HaveNoDirectCollaborators);
    v.push(Check::WorkflowActionsArePinned);
    v.push(Check::PullRequestTargetIsSafe);
    v.push(Check::WorkflowPermissionsAreRestricted);
    v.push(Check::HaveSecurityPolicy);
    v.push(Check::HaveDependabotConfig);
    assert(v@ =~= all_spec());
    v
}

impl Check {
    /// The identifier used in `moat.toml`.
    pub open spec fn id_spec(self) -> Seq<char> {
        match self {
            Check::OrganizationRequiresTwoFactor => "organization_requires_two_factor"@,
            Check::ActionsWorkflowTokenIsReadOnly => "repositories_actions_workflow_token_is_read_only"@,
            Check::SecretScanningIsEnabled => "repositories_secret_scanning_is_enabled"@,
            Check::SecretPushProtectionIsEnabled => "repositories_secret_push_protection_is_enabled"@,
            Check::ReleasesAreImmutable => "repositories_releases_are_immutable"@,
            Check::ReleaseBranchesAreProtected => "repositories_release_branches_are_protected"@,
            Check::CommitsAreSigned => "repositories_commits_are_signed"@,
            Check::PullRequestsRequireReviews => "repositories_pull_requests_require_reviews"@,
            Check::WebhooksAreSecure => "repositories_webhooks_are_secure"@,
            Check::HaveNoDirectCollaborators => "repositories_have_no_direct_collaborators"@,
            Check::WorkflowActionsArePinned => "repositories_workflow_actions_are_pinned"@,
            Check::PullRequestTargetIsSafe => "repositories_pull_request_target_is_safe"@,
            Check::WorkflowPermissionsAreRestricted => "repositories_workflow_permissions_are_restricted"@,
            Check::HaveSecurityPolicy => "repositories_have_security_policy"@,
            Check::HaveDependabotConfig => "repositories_have_dependabot_config"@,
        }
    }

    /// The title shown for the check.
    pub open spec fn label_spec(self) -> Seq<char> {
        match self {
            Check::OrganizationRequiresTwoFactor => tfa::LABEL@,
            Check::ActionsWorkflowTokenIsReadOnly => wt::LABEL@,
            Check::SecretScanningIsEnabled => ss::LABEL@,
            Check::SecretPushProtectionIsEnabled => pp::LABEL@,
            Check::ReleasesAreImmutable => ri::LABEL@,
            Check::ReleaseBranchesAreProtected => rb::LABEL@,
            Check::CommitsAreSigned => sc::LABEL@,
            Check::PullRequestsRequireReviews => prr::LABEL@,
            Check::WebhooksAreSecure => wh::LABEL@,
            Check::HaveNoDirectCollaborators => dc::LABEL@,
            Check::WorkflowActionsArePinned => pin::LABEL@,
            Check::PullRequestTargetIsSafe => prt::LABEL@,
            Check::WorkflowPermissionsAreRestricted => perm::LABEL@,
            Check::HaveSecurityPolicy => sp::LABEL@,
            Check::HaveDependabotConfig => dep::LABEL@,
        }
    }

    /// Why the control matters.
    pub open spec fn why_spec(self) -> Seq<char> {
        match self {
            Check::OrganizationRequiresTwoFactor => tfa::WHY_ENABLE@,
            Check::ActionsWorkflowTokenIsReadOnly => wt::WHY_ENABLE@,
            Check::SecretScanningIsEnabled => ss::WHY_ENABLE@,
            Check::SecretPushProtectionIsEnabled => pp::WHY_ENABLE@,
            Check::ReleasesAreImmutable => ri::WHY_ENABLE@,
            Check::ReleaseBranchesAreProtected => rb::WHY_ENABLE@,
            Check::CommitsAreSigned => sc::WHY_ENABLE@,
            Check::PullRequestsRequireReviews => prr::WHY_ENABLE@,
            Check::WebhooksAreSecure => wh::WHY_ENABLE@,
            Check::HaveNoDirectCollaborators => dc::WHY_ENABLE@,
            Check::WorkflowActionsArePinned => pin::WHY_ENABLE@,
            Check::PullRequestTargetIsSafe => prt::WHY_ENABLE@,
            Check::WorkflowPermissionsAreRestricted => perm::WHY_ENABLE@,
            Check::HaveSecurityPolicy => sp::WHY_ENABLE@,
            Check::HaveDependabotConfig => dep::WHY_ENABLE@,
        }
    }

    /// Where the check looks.
    pub open spec fn scope_spec(self) -> Scope {
        match self {
            Check::OrganizationRequiresTwoFactor => Scope::Org,
            Check::ActionsWorkflowTokenIsReadOnly => Scope::OrgAndRepo,
            Check::SecretScanningIsEnabled => Scope::OrgAndRepo,
            Check::SecretPushProtectionIsEnabled => Scope::OrgAndRepo,
            Check::ReleasesAreImmutable => Scope::OrgAndRepo,
            Check::ReleaseBranchesAreProtected => Scope::OrgAndRepo,
            Check::CommitsAreSigned => Scope::Repo,
            Check::PullRequestsRequireReviews => Scope::OrgAndRepo,
            Check::WebhooksAreSecure => Scope::OrgAndRepo,
            Check::HaveNoDirectCollaborators => Scope::OrgAndRepo,
            Check::WorkflowActionsArePinned => Scope::Repo,
            Check::PullRequestTargetIsSafe => Scope::Repo,
            Check::WorkflowPermissionsAreRestricted => Scope::Repo,
            Check::HaveSecurityPolicy => Scope::Repo,
            Check::HaveDependabotConfig => Scope::Repo,
        }
    }

    /// The check is enforced through branch rulesets.
    pub open spec fn ruleset_based_spec(self) -> bool {
        match self {
            Check::OrganizationRequiresTwoFactor => false,
            Check::ActionsWorkflowTokenIsReadOnly => false,
            Check::SecretScanningIsEnabled => false,
            Check::SecretPushProtectionIsEnabled => false,
            Check::ReleasesAreImmutable => false,
            Check::ReleaseBranchesAreProtected => true,
            Check::CommitsAreSigned => true,
            Check::PullRequestsRequireReviews => true,
            Check::WebhooksAreSecure => false,
            Check::HaveNoDirectCollaborators => false,
            Check::WorkflowActionsArePinned => false,
            Check::PullRequestTargetIsSafe => false,
            Check::WorkflowPermissionsAreRestricted => false,
            Check::HaveSecurityPolicy => false,
            Check::HaveDependabotConfig => false,
        }
    }

    /// The check applies to public repositories only.
    pub open spec fn public_only_spec(self) -> bool {
        match self {
            Check::OrganizationRequiresTwoFactor => false,
            Check::ActionsWorkflowTokenIsReadOnly => false,
            Check::SecretScanningIsEnabled => false,
            Check::SecretPushProtectionIsEnabled => false,
            Check::ReleasesAreImmutable => false,
            Check::ReleaseBranchesAreProtected => false,
            Check::CommitsAreSigned => false,
            Check::PullRequestsRequireReviews => false,
            Check::WebhooksAreSecure => false,
            Check::HaveNoDirectCollaborators => false,
            Check::WorkflowActionsArePinned => false,
            Check::PullRequestTargetIsSafe => true,
            Check::WorkflowPermissionsAreRestricted => false,
            Check::HaveSecurityPolicy => true,
            Check::HaveDependabotConfig => false,
        }
    }

    /// The organization outcome, for checks that look at the organization.
    pub open spec fn org_eval_spec(self, org: OrgContext) -> Option<OutcomeView> {
        match self {
            Check::OrganizationRequiresTwoFactor => Some(tfa::org_spec(org.two_factor_required)),
            Check::ActionsWorkflowTokenIsReadOnly => Some(wt::org_spec(org.workflow_token)),
            Check::SecretScanningIsEnabled => Some(default_outcome(org.secret_scanning_default, "N/A (plan)"@)),
            Check::SecretPushProtectionIsEnabled => Some(default_outcome(org.push_protection_default, "N/A (plan)"@)),
            Check::ReleasesAreImmutable => Some(ri::org_spec(org)),
            Check::ReleaseBranchesAreProtected => Some(rb::org_spec(org)),
            Check::CommitsAreSigned => None,
            Check::PullRequestsRequireReviews => Some(prr::org_spec(org)),
            Check::WebhooksAreSecure => Some(wh::org_spec(org)),
            Check::HaveNoDirectCollaborators => Some(dc::org_spec(org)),
            Check::WorkflowActionsArePinned => None,
            Check::PullRequestTargetIsSafe => None,
            Check::WorkflowPermissionsAreRestricted => None,
            Check::HaveSecurityPolicy => None,
            Check::HaveDependabotConfig => None,
        }
    }

    /// The repository outcome, for checks that look at repositories.
    pub open spec fn repo_eval_spec(self, r: RepoContext) -> Option<OutcomeView> {
        match self {
            Check::OrganizationRequiresTwoFactor => None,
            Check::ActionsWorkflowTokenIsReadOnly => Some(wt::repo_spec(r.workflow_token)),
            Check::SecretScanningIsEnabled => Some(feature_outcome(r.secret_scanning)),
            Check::SecretPushProtectionIsEnabled => Some(feature_outcome(r.push_protection)),
            Check::ReleasesAreImmutable => Some(ri::repo_spec(r)),
            Check::ReleaseBranchesAreProtected => Some(aggregate_spec(r.branch_protections.names(), rb::evals_spec(r.branch_protections))),
            Check::CommitsAreSigned => Some(aggregate_spec(r.branch_protections.names(), sc::evals_spec(r.branch_protections))),
            Check::PullRequestsRequireReviews => Some(prr::repo_spec(r)),
            Check::WebhooksAreSecure => Some(webhooks_outcome(r.webhooks)),
            Check::HaveNoDirectCollaborators => Some(dc::repo_spec(r)),
            Check::WorkflowActionsArePinned => Some(pin::repo_spec(r)),
            Check::PullRequestTargetIsSafe => Some(prt::repo_spec(r)),
            Check::WorkflowPermissionsAreRestricted => Some(perm::repo_spec(r)),
            Check::HaveSecurityPolicy => Some(sp::repo_spec(r.security_md)),
            Check::HaveDependabotConfig => Some(dep::repo_spec(r)),
        }
    }

    /// The description of the current state over the given organization and repositories.
    pub open spec fn description_spec(self, org: Option<&OrgContext>, repos: Seq<&RepoContext>) -> Option<Seq<char>> {
        match self {
            Check::OrganizationRequiresTwoFactor => None,
            Check::ActionsWorkflowTokenIsReadOnly => None,
            Check::SecretScanningIsEnabled => feature_phrase_spec("secret scanning"@, repos, RepoFeature::SecretScanning, ss::org_off(org)),
            Check::SecretPushProtectionIsEnabled => feature_phrase_spec("secret push protection"@, repos, RepoFeature::PushProtection, pp::org_off(org)),
            Check::ReleasesAreImmutable => ri::description_spec(ri::org_setting(org), repos.len(), ri::count_disabled(repos, repos.len() as int)),
            Check::ReleaseBranchesAreProtected => rb::note_spec(rb::org_active(org), repos.len(), rb::count_unprotected(repos, repos.len() as int)),
            Check::CommitsAreSigned => None,
            Check::PullRequestsRequireReviews => prr::description_spec(org, repos),
            Check::WebhooksAreSecure => if wh::hook_total(repos) <= usize::MAX { wh::description_spec(org, repos) } else { None },
            Check::HaveNoDirectCollaborators => if dc::tally(repos, repos.len() as int).1 <= usize::MAX { dc::description_spec(org, repos) } else { None },
            Check::WorkflowActionsArePinned => if pin::tally(repos, repos.len() as int).unpinned <= usize::MAX { pin::description_spec(repos) } else { None },
            Check::PullRequestTargetIsSafe => if prt::tally(repos, repos.len() as int).2 <= usize::MAX { prt::description_spec(repos) } else { None },
            Check::WorkflowPermissionsAreRestricted => if perm::tally(repos, repos.len() as int).2 <= usize::MAX { perm::description_spec(repos) } else { None },
            Check::HaveSecurityPolicy => sp::description_spec(repos),
            Check::HaveDependabotConfig => dep::state_note_spec(repos),
        }
    }

    /// The remediation text (a template with `{org}`, `{repo}` and `{branches}`).
    pub open spec fn how_to_fix_spec(self, org: Option<&OrgContext>) -> Seq<char> {
        match self {
            Check::OrganizationRequiresTwoFactor => tfa::HOW_TO_FIX@,
            Check::ActionsWorkflowTokenIsReadOnly => wt::HOW_TO_FIX@,
            Check::SecretScanningIsEnabled => if org is None { ss::HOW_TO_FIX_USER_ACCOUNT@ } else { ss::HOW_TO_FIX@ },
            Check::SecretPushProtectionIsEnabled => pp::HOW_TO_FIX@,
            Check::ReleasesAreImmutable => if org is None { ri::HOW_TO_FIX_USER_ACCOUNT@ } else { ri::HOW_TO_FIX@ },
            Check::ReleaseBranchesAreProtected => rb::HOW_TO_FIX@,
            Check::CommitsAreSigned => sc::HOW_TO_FIX@,
            Check::PullRequestsRequireReviews => prr::HOW_TO_FIX@,
            Check::WebhooksAreSecure => wh::HOW_TO_FIX@,
            Check::HaveNoDirectCollaborators => dc::HOW_TO_FIX@,
            Check::WorkflowActionsArePinned => pin::HOW_TO_FIX@,
            Check::PullRequestTargetIsSafe => prt::HOW_TO_FIX@,
            Check::WorkflowPermissionsAreRestricted => perm::HOW_TO_FIX@,
            Check::HaveSecurityPolicy => sp::HOW_TO_FIX@,
            Check::HaveDependabotConfig => dep::HOW_TO_FIX@,
        }
    }

    /// The identifier used in `moat.toml`.
    pub fn id(&self) -> (r: &'static str)
        ensures
            r@ == self.id_spec(),
    {
        match self {
            Check::OrganizationRequiresTwoFactor => "organization_requires_two_factor",
            Check::ActionsWorkflowTokenIsReadOnly => "repositories_actions_workflow_token_is_read_only",
            Check::SecretScanningIsEnabled => "repositories_secret_scanning_is_enabled",
            Check::SecretPushProtectionIsEnabled => "repositories_secret_push_protection_is_enabled",
            Check::ReleasesAreImmutable => "repositories_releases_are_immutable",
            Check::ReleaseBranchesAreProtected => "repositories_release_branches_are_protected",
            Check::CommitsAreSigned => "repositories_commits_are_signed",
            Check::PullRequestsRequireReviews => "repositories_pull_requests_require_reviews",
            Check::WebhooksAreSecure => "repositories_webhooks_are_secure",
            Check::HaveNoDirectCollaborators => "repositories_have_no_direct_collaborators",
            Check::WorkflowActionsArePinned => "repositories_workflow_actions_are_pinned",
            Check::PullRequestTargetIsSafe => "repositories_pull_request_target_is_safe",
            Check::WorkflowPermissionsAreRestricted => "repositories_workflow_permissions_are_restricted",
            Check::HaveSecurityPolicy => "repositories_have_security_policy",
            Check::HaveDependabotConfig => "repositories_have_dependabot_config",
        }
    }

    /// The title shown for the check.
    pub fn label(&self) -> (r: &'static str)
        ensures
            r@ == self.label_spec(),
    {
        match self {
            Check::OrganizationRequiresTwoFactor => tfa::LABEL,
            Check::ActionsWorkflowTokenIsReadOnly => wt::LABEL,
            Check::SecretScanningIsEnabled => ss::LABEL,
            Check::SecretPushProtectionIsEnabled => pp::LABEL,
            Check::ReleasesAreImmutable => ri::LABEL,
            Check::ReleaseBranchesAreProtected => rb::LABEL,
            Check::CommitsAreSigned => sc::LABEL,
            Check::PullRequestsRequireReviews => prr::LABEL,
            Check::WebhooksAreSecure => wh::LABEL,
            Check::HaveNoDirectCollaborators => dc::LABEL,
            Check::WorkflowActionsArePinned => pin::LABEL,
            Check::PullRequestTargetIsSafe => prt::LABEL,
            Check::WorkflowPermissionsAreRestricted => perm::LABEL,
            Check::HaveSecurityPolicy => sp::LABEL,
            Check::HaveDependabotConfig => dep::LABEL,
        }
    }

    /// Why the control matters.
    pub fn why_enable(&self) -> (r: &'static str)
        ensures
            r@ == self.why_spec(),
    {
        match self {
            Check::OrganizationRequiresTwoFactor => tfa::WHY_ENABLE,
            Check::ActionsWorkflowTokenIsReadOnly => wt::WHY_ENABLE,
            Check::SecretScanningIsEnabled => ss::WHY_ENABLE,
            Check::SecretPushProtectionIsEnabled => pp::WHY_ENABLE,
            Check::ReleasesAreImmutable => ri::WHY_ENABLE,
            Check::ReleaseBranchesAreProtected => rb::WHY_ENABLE,
            Check::CommitsAreSigned => sc::WHY_ENABLE,
            Check::PullRequestsRequireReviews => prr::WHY_ENABLE,
            Check::WebhooksAreSecure => wh::WHY_ENABLE,
            Check::HaveNoDirectCollaborators => dc::WHY_ENABLE,
            Check::WorkflowActionsArePinned => pin::WHY_ENABLE,
            Check::PullRequestTargetIsSafe => prt::WHY_ENABLE,
            Check::WorkflowPermissionsAreRestricted => perm::WHY_ENABLE,
            Check::HaveSecurityPolicy => sp::WHY_ENABLE,
            Check::HaveDependabotConfig => dep::WHY_ENABLE,
        }
    }

    /// Where the check looks.
    pub fn scope(&self) -> (r: Scope)
        ensures
            r == self.scope_spec(),
    {
        match self {
            Check::OrganizationRequiresTwoFactor => Scope::Org,
            Check::ActionsWorkflowTokenIsReadOnly => Scope::OrgAndRepo,
            Check::SecretScanningIsEnabled => Scope::OrgAndRepo,
            Check::SecretPushProtectionIsEnabled => Scope::OrgAndRepo,
            Check::ReleasesAreImmutable => Scope::OrgAndRepo,
            Check::ReleaseBranchesAreProtected => Scope::OrgAndRepo,
            Check::CommitsAreSigned => Scope::Repo,
            Check::PullRequestsRequireReviews => Scope::OrgAndRepo,
            Check::WebhooksAreSecure => Scope::OrgAndRepo,
            Check::HaveNoDirectCollaborators => Scope::OrgAndRepo,
            Check::WorkflowActionsArePinned => Scope::Repo,
            Check::PullRequestTargetIsSafe => Scope::Repo,
            Check::WorkflowPermissionsAreRestricted => Scope::Repo,
            Check::HaveSecurityPolicy => Scope::Repo,
            Check::HaveDependabotConfig => Scope::Repo,
        }
    }

    /// Is the check enforced through branch rulesets?
    pub fn ruleset_based(&self) -> (r: bool)
        ensures
            r == self.ruleset_based_spec(),
    {
        match self {
            Check::OrganizationRequiresTwoFactor => false,
            Check::ActionsWorkflowTokenIsReadOnly => false,
            Check::SecretScanningIsEnabled => false,
            Check::SecretPushProtectionIsEnabled => false,
            Check::ReleasesAreImmutable => false,
            Check::ReleaseBranchesAreProtected => true,
            Check::CommitsAreSigned => true,
            Check::PullRequestsRequireReviews => true,
            Check::WebhooksAreSecure => false,
            Check::HaveNoDirectCollaborators => false,
            Check::WorkflowActionsArePinned => false,
            Check::PullRequestTargetIsSafe => false,
            Check::WorkflowPermissionsAreRestricted => false,
            Check::HaveSecurityPolicy => false,
            Check::HaveDependabotConfig => false,
        }
    }

    /// Evaluates the organization, for checks that look at it.
    pub fn org_eval(&self, org: &OrgContext) -> (r: Option<CheckOutcome>)
        ensures
            opt_outcome(r) == self.org_eval_spec(*org),
    {
        match self {
            Check::OrganizationRequiresTwoFactor => Some(tfa::org_check(org)),
            Check::ActionsWorkflowTokenIsReadOnly => Some(wt::org_check(org)),
            Check::SecretScanningIsEnabled => Some(ss::org_check(org)),
            Check::SecretPushProtectionIsEnabled => Some(pp::org_check(org)),
            Check::ReleasesAreImmutable => Some(ri::org_check(org)),
            Check::ReleaseBranchesAreProtected => Some(rb::org_check(org)),
            Check::CommitsAreSigned => None,
            Check::PullRequestsRequireReviews => Some(prr::org_check(org)),
            Check::WebhooksAreSecure => Some(wh::org_check(org)),
            Check::HaveNoDirectCollaborators => Some(dc::org_check(org)),
            Check::WorkflowActionsArePinned => None,
            Check::PullRequestTargetIsSafe => None,
            Check::WorkflowPermissionsAreRestricted => None,
            Check::HaveSecurityPolicy => None,
            Check::HaveDependabotConfig => None,
        }
    }

    /// Evaluates one repository, for checks that look at repositories.
    pub fn repo_eval(&self, repo: &RepoContext) -> (r: Option<CheckOutcome>)
        ensures
            opt_outcome(r) == self.repo_eval_spec(*repo),
    {
        match self {
            Check::OrganizationRequiresTwoFactor => None,
            Check::ActionsWorkflowTokenIsReadOnly => Some(wt::repo_check(repo)),
            Check::SecretScanningIsEnabled => Some(ss::repo_check(repo)),
            Check::SecretPushProtectionIsEnabled => Some(pp::repo_check(repo)),
            Check::ReleasesAreImmutable => Some(ri::repo_check(repo)),
            Check::ReleaseBranchesAreProtected => Some(rb::repo_check(repo)),
            Check::CommitsAreSigned => Some(sc::repo_check(repo)),
            Check::PullRequestsRequireReviews => Some(prr::repo_check(repo)),
            Check::WebhooksAreSecure => Some(wh::repo_check(repo)),
            Check::HaveNoDirectCollaborators => Some(dc::repo_check(repo)),
            Check::WorkflowActionsArePinned => Some(pin::repo_check(repo)),
            Check::PullRequestTargetIsSafe => Some(prt::repo_check(repo)),
            Check::WorkflowPermissionsAreRestricted => Some(perm::repo_check(repo)),
            Check::HaveSecurityPolicy => Some(sp::repo_check(repo)),
            Check::HaveDependabotConfig => Some(dep::repo_check(repo)),
        }
    }

    /// Describes the current state of the organization and the repositories the check applied to.
    pub fn description(&self, ctx: StateCtx<'_>) -> (r: Option<String>)
        ensures
            opt_view(r) == self.description_spec(ctx.org, ctx.repos@),
    {
        match self {
            Check::OrganizationRequiresTwoFactor => None,
            Check::ActionsWorkflowTokenIsReadOnly => None,
            Check::SecretScanningIsEnabled => ss::description(ctx),
            Check::SecretPushProtectionIsEnabled => pp::description(ctx),
            Check::ReleasesAreImmutable => ri::description(ctx),
            Check::ReleaseBranchesAreProtected => rb::state_note(ctx),
            Check::CommitsAreSigned => None,
            Check::PullRequestsRequireReviews => prr::description(ctx),
            Check::WebhooksAreSecure => wh::description(ctx),
            Check::HaveNoDirectCollaborators => dc::description(ctx),
            Check::WorkflowActionsArePinned => pin::description(ctx),
            Check::PullRequestTargetIsSafe => prt::description(ctx),
            Check::WorkflowPermissionsAreRestricted => perm::description(ctx),
            Check::HaveSecurityPolicy => sp::description(ctx),
            Check::HaveDependabotConfig => dep::state_note(ctx),
        }
    }

    /// The remediation text (a template with `{org}`, `{repo}` and `{branches}`).
    pub fn how_to_fix(&self, ctx: StateCtx<'_>) -> (r: &'static str)
        ensures
            r@ == self.how_to_fix_spec(ctx.org),
    {
        match self {
            Check::OrganizationRequiresTwoFactor => tfa::HOW_TO_FIX,
            Check::ActionsWorkflowTokenIsReadOnly => wt::HOW_TO_FIX,
            Check::SecretScanningIsEnabled => ss::how_to_fix(ctx),
            Check::SecretPushProtectionIsEnabled => pp::HOW_TO_FIX,
            Check::ReleasesAreImmutable => ri::how_to_fix(ctx),
            Check::ReleaseBranchesAreProtected => rb::HOW_TO_FIX,
            Check::CommitsAreSigned => sc::HOW_TO_FIX,
            Check::PullRequestsRequireReviews => prr::how_to_fix(ctx),
            Check::WebhooksAreSecure => wh::how_to_fix(ctx),
            Check::HaveNoDirectCollaborators => dc::how_to_fix(ctx),
            Check::WorkflowActionsArePinned => pin::how_to_fix(ctx),
            Check::PullRequestTargetIsSafe => prt::HOW_TO_FIX,
            Check::WorkflowPermissionsAreRestricted => perm::HOW_TO_FIX,
            Check::HaveSecurityPolicy => sp::how_to_fix(ctx),
            Check::HaveDependabotConfig => dep::HOW_TO_FIX,
        }
    }

    /// Does the check evaluate repositories? (Every check but the
    /// organization-only one does.)
    pub open spec fn has_repo_eval_spec(self) -> bool {
        self != Check::OrganizationRequiresTwoFactor
    }

    /// Does the check evaluate repositories?
    pub fn has_repo_eval(&self) -> (b: bool)
        ensures
            b == self.has_repo_eval_spec(),
            forall|r: RepoContext| (#[trigger] self.repo_eval_spec(r) is Some) == b,
    {
        match self {
            Check::OrganizationRequiresTwoFactor => false,
            _ => true,
        }
    }

    /// Does the check apply to this repository? Checks for public
    /// repositories skip private ones.
    pub fn applies_to_repo(&self, repo: &RepoContext) -> (b: bool)
        ensures
            b == (!self.public_only_spec() || !repo.private),
    {
        match self {
            Check::PullRequestTargetIsSafe | Check::HaveSecurityPolicy => !repo.private,
            _ => true,
        }
    }

    /// The noun for the repositories the check counts.
    pub fn repo_noun(&self) -> (r: &'static str)
        ensures
            r@ == (if self.public_only_spec() { "public repos"@ } else { "repos"@ }),
    {
        match self {
            Check::PullRequestTargetIsSafe | Check::HaveSecurityPolicy => "public repos",
            _ => "repos",
        }
    }
}


impl Check {
    /// The check runs only when an organization is audited. No check of
    /// this catalogue is limited that way beyond its scope.
    pub open spec fn org_only_spec(self) -> bool {
        false
    }

    /// Does the check run only when an organization is audited?
    pub fn org_only(&self) -> (b: bool)
        ensures
            b == self.org_only_spec(),
    {
        false
    }

    /// The page of an affected repository that the checks panel links to,
    /// as a path after the repository's URL; `{branch}` stands for the
    /// affected branch. `None` links to the repository itself.
    pub open spec fn repo_link_path_spec(self) -> Option<Seq<char>> {
        match self {
            Check::OrganizationRequiresTwoFactor => None,
            Check::ActionsWorkflowTokenIsReadOnly => Some("/settings/actions"@),
            Check::SecretScanningIsEnabled => Some("/settings/security_analysis"@),
            Check::SecretPushProtectionIsEnabled => Some("/settings/security_analysis"@),
            Check::ReleasesAreImmutable => Some("/settings#releases"@),
            Check::ReleaseBranchesAreProtected => Some("/settings/rules"@),
            Check::CommitsAreSigned => Some("/settings/rules"@),
            Check::PullRequestsRequireReviews => Some("/settings/rules"@),
            Check::WebhooksAreSecure => Some("/settings/hooks"@),
            Check::HaveNoDirectCollaborators => Some("/settings/access"@),
            Check::WorkflowActionsArePinned => Some("/tree/{branch}/.github/workflows"@),
            Check::PullRequestTargetIsSafe => Some("/tree/{branch}/.github/workflows"@),
            Check::WorkflowPermissionsAreRestricted => Some("/tree/{branch}/.github/workflows"@),
            Check::HaveSecurityPolicy => Some("/security/policy"@),
            Check::HaveDependabotConfig => None,
        }
    }

    /// The page of an affected repository that the checks panel links to.
    pub fn repo_link_path(&self) -> (r: Option<&'static str>)
        ensures
            match r {
                Some(p) => self.repo_link_path_spec() == Some(p@),
                None => self.repo_link_path_spec() is None,
            },
    {
        match self {
            Check::OrganizationRequiresTwoFactor => None,
            Check::ActionsWorkflowTokenIsReadOnly => Some("/settings/actions"),
            Check::SecretScanningIsEnabled => Some("/settings/security_analysis"),
            Check::SecretPushProtectionIsEnabled => Some("/settings/security_analysis"),
            Check::ReleasesAreImmutable => Some("/settings#releases"),
            Check::ReleaseBranchesAreProtected => Some("/settings/rules"),
            Check::CommitsAreSigned => Some("/settings/rules"),
            Check::PullRequestsRequireReviews => Some("/settings/rules"),
            Check::WebhooksAreSecure => Some("/settings/hooks"),
            Check::HaveNoDirectCollaborators => Some("/settings/access"),
            Check::WorkflowActionsArePinned => Some("/tree/{branch}/.github/workflows"),
            Check::PullRequestTargetIsSafe => Some("/tree/{branch}/.github/workflows"),
            Check::WorkflowPermissionsAreRestricted => Some("/tree/{branch}/.github/workflows"),
            Check::HaveSecurityPolicy => Some("/security/policy"),
            Check::HaveDependabotConfig => None,
        }
    }
}

} // verus!
