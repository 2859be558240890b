//! Workflows get a read-only `GITHUB_TOKEN` by default.
use vstd::prelude::*;
use crate::checks::common::WorkflowTokenState;
use crate::checks::org_context::OrgContext;
use crate::checks::repo_context::RepoContext;
use crate::support::outcome::{bare, CheckOutcome, OutcomeView, Status};

verus! {

pub const LABEL: &'static str = "github actions workflow token";
pub const HOW_TO_FIX: &'static str = "github → your organization → settings → actions → general → under \"Workflow permissions\", select \"Read repository contents and packages permissions\" (apply the same setting per-repo at repo → settings → actions → general → workflow permissions).";
pub const WHY_ENABLE: &'static str = "every workflow inherits this token by default; granting write at the org or repo level means a typo'd action reference or a hijacked third-party action can rewrite history, tags, and releases without ever needing a maintainer's credentials.";

/// The organization outcome.
pub open spec fn org_spec(s: WorkflowTokenState) -> OutcomeView {
    match s {
        WorkflowTokenState::Read => bare(Status::Pass, "read-only"@),
        WorkflowTokenState::Write => bare(Status::Fail, "read and write"@),
        WorkflowTokenState::Unavailable => bare(Status::Skipped, "unknown"@),
    }
}

/// The repository outcome.
pub open spec fn repo_spec(s: WorkflowTokenState) -> OutcomeView {
    match s {
        WorkflowTokenState::Read => bare(Status::Pass, "read"@),
        WorkflowTokenState::Write => bare(Status::Fail, "write"@),
        WorkflowTokenState::Unavailable => bare(Status::Skipped, "?"@),
    }
}

/// Passes when the organization's default workflow token is read-only.
pub fn org_check(ctx: &OrgContext) -> (o: CheckOutcome)
    ensures
        o@ == org_spec(ctx.workflow_token),
{
    match ctx.workflow_token {
        WorkflowTokenState::Read => CheckOutcome::pass("read-only"),
        WorkflowTokenState::Write => CheckOutcome::fail("read and write"),
        WorkflowTokenState::Unavailable => CheckOutcome::skipped("unknown"),
    }
}

/// Passes when the repository's default workflow token is read-only.
pub fn repo_check(ctx: &RepoContext) -> (o: CheckOutcome)
    ensures
        o@ == repo_spec(ctx.workflow_token),
{
    match ctx.workflow_token {
        WorkflowTokenState::Read => CheckOutcome::pass("read"),
        WorkflowTokenState::Write => CheckOutcome::fail("write"),
        WorkflowTokenState::Unavailable => CheckOutcome::skipped("?"),
    }
}

} // verus!
