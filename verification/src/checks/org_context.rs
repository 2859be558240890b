//! Everything the checks know about one organization.
use vstd::prelude::*;
use crate::checks::common::{WebhookInfo, WorkflowTokenState};
use crate::support::outcome::{bare, plan_gated, CheckOutcome, OutcomeView, Status};

verus! {

/// The organization's billing plan.
#[derive(Clone, Copy, PartialEq, Eq, Debug, Structural)]
pub enum OrgPlan {
    Free,
    Team,
    Enterprise,
    Unknown,
}

/// Whether the organization requires two-factor authentication.
#[derive(Clone, Copy, PartialEq, Eq, Debug, Structural)]
pub enum TwoFactorState {
    Required,
    NotRequired,
    Unknown,
}

/// Which repositories the organization forces to use immutable releases.
#[derive(Clone, Copy, PartialEq, Eq, Debug, Structural)]
pub enum ReleaseImmutabilityState {
    All,
    Selected,
    NoRepositories,
}

/// The organization's default for a security feature on new repositories.
#[derive(Clone, Copy, PartialEq, Eq, Debug, Structural)]
pub enum FeatureDefaultState {
    Enabled,
    Disabled,
    Unknown,
    PlanGated,
}

/// The outcome for an organization default, with `plan_label` as the
/// summary when the plan does not offer the feature.
pub open spec fn default_outcome(s: FeatureDefaultState, plan_label: Seq<char>) -> OutcomeView {
    match s {
        FeatureDefaultState::Enabled => bare(Status::Pass, "Enabled for new repositories"@),
        FeatureDefaultState::Disabled => bare(Status::Fail, "Not enabled for new repositories"@),
        FeatureDefaultState::Unknown => bare(Status::Skipped, "?"@),
        FeatureDefaultState::PlanGated => plan_gated(plan_label),
    }
}

impl FeatureDefaultState {
    /// The outcome, labelling a plan-gated feature with `plan_label`.
    pub fn to_outcome_labelled(&self, plan_label: &str) -> (o: CheckOutcome)
        ensures
            o@ == default_outcome(*self, plan_label@),
    {
        match self {
            FeatureDefaultState::Enabled => CheckOutcome::pass("Enabled for new repositories"),
            FeatureDefaultState::Disabled => CheckOutcome::fail("Not enabled for new repositories"),
            FeatureDefaultState::Unknown => CheckOutcome::skipped("?"),
            FeatureDefaultState::PlanGated => CheckOutcome::skipped_plan_gated(plan_label),
        }
    }

    /// The outcome: enabled passes, disabled fails, unknown and plan-gated
    /// are skipped.
    pub fn to_outcome(&self) -> (o: CheckOutcome)
        ensures
            o@ == default_outcome(*self, "N/A (plan)"@),
    {
        self.to_outcome_labelled("N/A (plan)")
    }
}

/// Whether the organization's rulesets could be read.
#[derive(Clone, Copy, PartialEq, Eq, Debug, Structural)]
pub enum RulesetsState {
    Loaded,
    NoPermission,
}

/// What the organization's active branch rulesets require.
#[derive(Clone, Copy, PartialEq, Eq, Debug, Structural)]
pub struct OrgRulesets {
    pub state: RulesetsState,
    pub any_active: bool,
    pub pull_request: bool,
    pub pr_dismiss_stale_reviews: bool,
    pub pr_require_last_push_approval: bool,
    pub pr_require_code_owner_review: bool,
}

impl OrgRulesets {
    /// Readable rulesets that require nothing.
    pub fn empty() -> (r: Self)
        ensures
            r.state == RulesetsState::Loaded,
            !r.any_active,
            !r.pull_request,
            !r.pr_dismiss_stale_reviews,
            !r.pr_require_last_push_approval,
            !r.pr_require_code_owner_review,
    {
        OrgRulesets {
            state: RulesetsState::Loaded,
            any_active: false,
            pull_request: false,
            pr_dismiss_stale_reviews: false,
            pr_require_last_push_approval: false,
            pr_require_code_owner_review: false,
        }
    }
}

/// Everything the checks read about one organization.
pub struct OrgContext {
    pub plan: OrgPlan,
    pub two_factor_required: TwoFactorState,
    pub outside_collaborators: Vec<String>,
    pub admins: Vec<String>,
    pub release_immutability: ReleaseImmutabilityState,
    pub workflow_token: WorkflowTokenState,
    pub secret_scanning_default: FeatureDefaultState,
    pub push_protection_default: FeatureDefaultState,
    pub webhooks: Vec<WebhookInfo>,
    pub rulesets: OrgRulesets,
}

} // verus!
