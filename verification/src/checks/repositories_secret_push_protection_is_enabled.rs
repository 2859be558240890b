//! Every repository rejects pushes that contain secrets, and new ones do so
//! by default.
use vstd::prelude::*;
use crate::checks::StateCtx;
use crate::checks::common::{feature_phrase_spec, feature_state_phrase, RepoFeature};
use crate::checks::org_context::{default_outcome, FeatureDefaultState, OrgContext};
use crate::checks::repo_context::{feature_outcome, RepoContext};
use crate::support::outcome::CheckOutcome;
use crate::text::opt_view;

verus! {

pub const LABEL: &'static str = "Repositories secret push protection is enabled";
pub const HOW_TO_FIX: &'static str = "https://github.com/organizations/{org}/settings/security_products > Advanced Security > (*Click* -> Set up or *Edit* -> Existing one) > *Click* -> Custom configuration > Push protection > *Select* -> Enabled > *Click* -> Save/Update configuration > *Click* -> Pencil to edit configuration > Edit configuration > *Select* -> Apply to: All repositories > *Select* -> Default for new repositories: All > *Click* -> Review > *Click* -> Save and enable";
pub const WHY_ENABLE: &'static str = "Scanning finds secrets after they reach GitHub; push protection rejects them at the git layer so the credential never enters history, forks, mirrors, or backups in the first place.";

/// The organization's default for new repositories.
pub fn org_check(ctx: &OrgContext) -> (o: CheckOutcome)
    ensures
        o@ == default_outcome(ctx.push_protection_default, "N/A (plan)"@),
{
    ctx.push_protection_default.to_outcome()
}

/// The repository's own setting.
pub fn repo_check(ctx: &RepoContext) -> (o: CheckOutcome)
    ensures
        o@ == feature_outcome(ctx.push_protection),
{
    ctx.push_protection.to_outcome()
}

/// Whether the organization leaves push protection off by default, when
/// there is an organization.
pub open spec fn org_off(org: Option<&OrgContext>) -> Option<bool> {
    match org {
        Some(o) => Some(o.push_protection_default != FeatureDefaultState::Enabled),
        None => None,
    }
}

/// Where secret push protection is on and off.
pub fn description(ctx: StateCtx<'_>) -> (r: Option<String>)
    ensures
        opt_view(r) == feature_phrase_spec("secret push protection"@, ctx.repos@, RepoFeature::PushProtection, org_off(ctx.org)),
{
    let off: Option<bool> = match ctx.org {
        Some(o) => Some(o.push_protection_default != FeatureDefaultState::Enabled),
        None => None,
    };
    feature_state_phrase("secret push protection", ctx.repos, RepoFeature::PushProtection, off)
}

} // verus!
