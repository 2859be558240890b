//! Every repository has secret scanning, and new ones get it by default.
use vstd::prelude::*;
use crate::checks::StateCtx;
use crate::checks::common::{feature_phrase_spec, feature_state_phrase, RepoFeature};
use crate::checks::org_context::{default_outcome, FeatureDefaultState, OrgContext};
use crate::checks::repo_context::{feature_outcome, RepoContext};
use crate::support::outcome::CheckOutcome;
use crate::text::opt_view;

verus! {

pub const LABEL: &'static str = "Repositories secret scanning is enabled";
pub const HOW_TO_FIX: &'static str = "https://github.com/organizations/{org}/settings/security_products > Advanced Security > (*Click* -> Set up or *Edit* -> Existing one) > Secret scanning > *Select* -> Enabled > *Click* -> Review > Set up Advanced Security > *Click* -> Save and apply/enable";
pub const HOW_TO_FIX_USER_ACCOUNT: &'static str = "https://github.com/{org}/{repo}/settings/security_analysis > Secret scanning > *Click* -> Enable";
pub const WHY_ENABLE: &'static str = "Secrets accidentally committed stay valid until someone notices; scanning gives you minutes-to-hours warning instead of waiting for a leaked-credential abuse alert from a downstream provider.";

/// The organization settings for organizations, the repository settings for
/// user accounts.
pub fn how_to_fix(ctx: StateCtx<'_>) -> (r: &'static str)
    ensures
        r@ == (if ctx.org is None { HOW_TO_FIX_USER_ACCOUNT@ } else { HOW_TO_FIX@ }),
{
    if ctx.org.is_none() {
        HOW_TO_FIX_USER_ACCOUNT
    } else {
        HOW_TO_FIX
    }
}

/// The organization's default for new repositories.
pub fn org_check(ctx: &OrgContext) -> (o: CheckOutcome)
    ensures
        o@ == default_outcome(ctx.secret_scanning_default, "N/A (plan)"@),
{
    ctx.secret_scanning_default.to_outcome()
}

/// The repository's own setting.
pub fn repo_check(ctx: &RepoContext) -> (o: CheckOutcome)
    ensures
        o@ == feature_outcome(ctx.secret_scanning),
{
    ctx.secret_scanning.to_outcome()
}

/// Whether the organization leaves secret scanning off by default, when
/// there is an organization.
pub open spec fn org_off(org: Option<&OrgContext>) -> Option<bool> {
    match org {
        Some(o) => Some(o.secret_scanning_default != FeatureDefaultState::Enabled),
        None => None,
    }
}

/// Where secret scanning is on and off.
pub fn description(ctx: StateCtx<'_>) -> (r: Option<String>)
    ensures
        opt_view(r) == feature_phrase_spec("secret scanning"@, ctx.repos@, RepoFeature::SecretScanning, org_off(ctx.org)),
{
    let off: Option<bool> = match ctx.org {
        Some(o) => Some(o.secret_scanning_default != FeatureDefaultState::Enabled),
        None => None,
    };
    feature_state_phrase("secret scanning", ctx.repos, RepoFeature::SecretScanning, off)
}

} // verus!
