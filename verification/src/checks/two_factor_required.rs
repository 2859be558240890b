//! The organization requires two-factor authentication.
use vstd::prelude::*;
use crate::checks::org_context::{OrgContext, TwoFactorState};
use crate::support::outcome::{bare, CheckOutcome, OutcomeView, Status};

verus! {

pub const LABEL: &'static str = "2FA authentication";
pub const HOW_TO_FIX: &'static str = "github → your organization → settings → authentication security → under \"two-factor authentication\", enable both \"require two-factor authentication for everyone in the <org> organization\" and \"only allow secure two-factor methods\".";
pub const WHY_ENABLE: &'static str = "stolen passwords are the entry point of most maintainer-account compromises; enforcing 2FA org-wide raises the cost of a takeover from a phishing email to a physical device.";

/// The organization outcome.
pub open spec fn org_spec(s: TwoFactorState) -> OutcomeView {
    match s {
        TwoFactorState::Required => bare(Status::Pass, "Required for every member"@),
        TwoFactorState::NotRequired => bare(Status::Fail, "not required"@),
        TwoFactorState::Unknown => bare(Status::Skipped, "unknown"@),
    }
}

/// Passes when 2FA is required for every member.
pub fn org_check(ctx: &OrgContext) -> (o: CheckOutcome)
    ensures
        o@ == org_spec(ctx.two_factor_required),
{
    match ctx.two_factor_required {
        TwoFactorState::Required => CheckOutcome::pass("Required for every member"),
        TwoFactorState::NotRequired => CheckOutcome::fail("not required"),
        TwoFactorState::Unknown => CheckOutcome::skipped("unknown"),
    }
}

} // verus!
