//! Releases cannot be altered once published.
use vstd::prelude::*;
use crate::checks::StateCtx;
use crate::checks::common::{repos_word, repos_word_spec};
use crate::checks::org_context::{OrgContext, ReleaseImmutabilityState};
use crate::checks::repo_context::{ReleaseImmutabilityRepoState, RepoContext};
use crate::support::outcome::{bare, plan_gated, CheckOutcome, OutcomeView, Status};
use crate::text::{dec, opt_view, push_dec};

verus! {

pub const LABEL: &'static str = "Repositories releases are immutable";
pub const HOW_TO_FIX: &'static str = "https://github.com/organizations/{org}/settings/repository-defaults > Releases > *Select* -> All repositories";
pub const HOW_TO_FIX_USER_ACCOUNT: &'static str = "https://github.com/{org}/{repo}/settings#releases > Releases > *Check* -> Immutable releases > *Click* -> Save";
pub const WHY_ENABLE: &'static str = "Without immutability, an existing tag can be moved or its assets replaced after the fact; downstream consumers pinned to a version they audited will silently fetch different bytes the next time they install.";

/// The organization setting for organizations, the per-repository setting
/// for user accounts.
pub fn how_to_fix(ctx: StateCtx<'_>) -> (r: &'static str)
    ensures
        r@ == (if ctx.org is None { HOW_TO_FIX_USER_ACCOUNT@ } else { HOW_TO_FIX@ }),
{
    if ctx.org.is_none() {
        HOW_TO_FIX_USER_ACCOUNT
    } else {
        HOW_TO_FIX
    }
}

/// The organization outcome: enforced on all repositories passes, on
/// selected ones warns, on none fails.
pub open spec fn org_spec(ctx: OrgContext) -> OutcomeView {
    match ctx.release_immutability {
        ReleaseImmutabilityState::All => bare(Status::Pass, "Enforced on all repositories"@),
        ReleaseImmutabilityState::Selected => bare(Status::Warn, "Enforced on selected repositories only"@),
        ReleaseImmutabilityState::NoRepositories => bare(Status::Fail, "Not enforced on any repository"@),
    }
}

/// Which repositories the organization forces to use immutable releases.
pub fn org_check(ctx: &OrgContext) -> (o: CheckOutcome)
    ensures
        o@ == org_spec(*ctx),
{
    match ctx.release_immutability {
        ReleaseImmutabilityState::All => CheckOutcome::pass("Enforced on all repositories"),
        ReleaseImmutabilityState::Selected => CheckOutcome::warn("Enforced on selected repositories only"),
        ReleaseImmutabilityState::NoRepositories => CheckOutcome::fail("Not enforced on any repository"),
    }
}

/// The repository outcome.
pub open spec fn repo_spec(ctx: RepoContext) -> OutcomeView {
    match ctx.release_immutability {
        ReleaseImmutabilityRepoState::Enabled => bare(Status::Pass, "✓"@),
        ReleaseImmutabilityRepoState::Disabled => bare(Status::Fail, "✗"@),
        ReleaseImmutabilityRepoState::PlanGated => plan_gated("N/A (plan)"@),
    }
}

/// Whether the repository has immutable releases enabled.
pub fn repo_check(ctx: &RepoContext) -> (o: CheckOutcome)
    ensures
        o@ == repo_spec(*ctx),
{
    match ctx.release_immutability {
        ReleaseImmutabilityRepoState::Enabled => CheckOutcome::pass("✓"),
        ReleaseImmutabilityRepoState::Disabled => CheckOutcome::fail("✗"),
        ReleaseImmutabilityRepoState::PlanGated => CheckOutcome::skipped_plan_gated("N/A (plan)"),
    }
}

/// How many of `repos[..k]` allow their releases to be altered.
pub open spec fn count_disabled(repos: Seq<&RepoContext>, k: int) -> nat
    decreases k,
{
    if k <= 0 || k > repos.len() {
        0
    } else {
        count_disabled(repos, k - 1)
            + if repos[k - 1].release_immutability == ReleaseImmutabilityRepoState::Disabled { 1nat } else { 0nat }
    }
}

/// The description from the organization setting (if any), the number of
/// repositories and how many of them allow altered releases.
pub open spec fn description_spec(org: Option<ReleaseImmutabilityState>, total: nat, n: nat) -> Option<Seq<char>> {
    if total == 0 {
        None
    } else {
        match org {
            Some(ReleaseImmutabilityState::All) => if n == 0 {
                Some("immutable releases are enforced org-wide and on all "@ + dec(total) + " "@ + repos_word_spec(total))
            } else {
                Some("immutable releases are enforced org-wide, but "@ + dec(n) + " "@ + repos_word_spec(n)
                    + " still allow tag and asset replacement"@)
            },
            Some(ReleaseImmutabilityState::Selected) =>
                Some("immutable releases are enforced on selected repositories only; "@ + dec(n) + " "@
                    + repos_word_spec(n) + " allow tag and asset replacement"@),
            Some(ReleaseImmutabilityState::NoRepositories) => if n == 0 {
                Some("immutable releases are not enforced org-wide, though all "@ + dec(total) + " "@
                    + repos_word_spec(total) + " have it enabled"@)
            } else {
                Some("immutable releases are not enforced org-wide; "@ + dec(n) + " "@ + repos_word_spec(n)
                    + " allow tag and asset replacement"@)
            },
            None => if n == 0 {
                Some("immutable releases are enabled on all "@ + dec(total) + " "@ + repos_word_spec(total))
            } else {
                Some(dec(n) + " "@ + repos_word_spec(n) + " allow tag and asset replacement"@)
            },
        }
    }
}

/// The organization setting, when there is an organization.
pub open spec fn org_setting(org: Option<&OrgContext>) -> Option<ReleaseImmutabilityState> {
    match org {
        Some(o) => Some(o.release_immutability),
        None => None,
    }
}

/// How release immutability stands across the organization and its
/// repositories.
pub fn description(ctx: StateCtx<'_>) -> (r: Option<String>)
    ensures
        opt_view(r) == description_spec(org_setting(ctx.org), ctx.repos@.len(),
            count_disabled(ctx.repos@, ctx.repos@.len() as int)),
{
    let total = ctx.repos.len();
    let mut n: usize = 0;
    let mut i: usize = 0;
    while i < total
        invariant
            total == ctx.repos@.len(),
            i <= total,
            n == count_disabled(ctx.repos@, i as int),
            n <= i,
        decreases total - i,
    {
        if ctx.repos[i].release_immutability == ReleaseImmutabilityRepoState::Disabled {
            n = n + 1;
        }
        i = i + 1;
    }
    if total == 0 {
        return None;
    }
    let org: Option<ReleaseImmutabilityState> = match ctx.org {
        Some(o) => Some(o.release_immutability),
        None => None,
    };
    let mut s = String::new();
    match org {
        Some(ReleaseImmutabilityState::All) => {
            if n == 0 {
                s.append("immutable releases are enforced org-wide and on all ");
                push_dec(&mut s, total);
                s.append(" ");
                s.append(repos_word(total));
            } else {
                s.append("immutable releases are enforced org-wide, but ");
                push_dec(&mut s, n);
                s.append(" ");
                s.append(repos_word(n));
                s.append(" still allow tag and asset replacement");
            }
        },
        Some(ReleaseImmutabilityState::Selected) => {
            s.append("immutable releases are enforced on selected repositories only; ");
            push_dec(&mut s, n);
            s.append(" ");
            s.append(repos_word(n));
            s.append(" allow tag and asset replacement");
        },
        Some(ReleaseImmutabilityState::NoRepositories) => {
            if n == 0 {
                s.append("immutable releases are not enforced org-wide, though all ");
                push_dec(&mut s, total);
                s.append(" ");
                s.append(repos_word(total));
                s.append(" have it enabled");
            } else {
                s.append("immutable releases are not enforced org-wide; ");
                push_dec(&mut s, n);
                s.append(" ");
                s.append(repos_word(n));
                s.append(" allow tag and asset replacement");
            }
        },
        None => {
            if n == 0 {
                s.append("immutable releases are enabled on all ");
                push_dec(&mut s, total);
                s.append(" ");
                s.append(repos_word(total));
            } else {
                push_dec(&mut s, n);
                s.append(" ");
                s.append(repos_word(n));
                s.append(" allow tag and asset replacement");
            }
        },
    }
    Some(s)
}

} // verus!
