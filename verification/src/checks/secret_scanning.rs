//! Secret scanning is enabled (organization default and per repository).
use vstd::prelude::*;
use crate::checks::org_context::{default_outcome, OrgContext};
use crate::checks::repo_context::{feature_outcome, RepoContext};
use crate::support::outcome::CheckOutcome;

verus! {

pub const LABEL: &'static str = "secret scanning";
pub const HOW_TO_FIX: &'static str = "github → organization → settings → code security → configurations → enable secret scanning by default (and per-repo: settings → code security → secret scanning → enable).";
pub const WHY_ENABLE: &'static str = "secrets accidentally committed stay valid until someone notices; scanning gives you minutes-to-hours warning instead of waiting for a leaked-credential abuse alert from a downstream provider.";

/// The organization's default for new repositories.
pub fn org_check(ctx: &OrgContext) -> (o: CheckOutcome)
    ensures
        o@ == default_outcome(ctx.secret_scanning_default, "n/a (plan)"@),
{
    ctx.secret_scanning_default.to_outcome_labelled("n/a (plan)")
}

/// The repository's own setting.
pub fn repo_check(ctx: &RepoContext) -> (o: CheckOutcome)
    ensures
        o@ == feature_outcome(ctx.secret_scanning),
{
    ctx.secret_scanning.to_outcome()
}

} // verus!
