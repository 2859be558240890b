//! Repositories publish a `SECURITY.md` disclosure policy.
use vstd::prelude::*;
use crate::checks::StateCtx;
use crate::checks::common::{public_repos_word, public_repos_word_spec};
use crate::checks::repo_context::{FilePresence, RepoContext};
use crate::support::outcome::{bare, CheckOutcome, OutcomeView, Status};
use crate::text::{dec, opt_view, push_dec};

verus! {

pub const LABEL: &'static str = "Repositories have security policy";
pub const HOW_TO_FIX: &'static str = "In all the links below > *Click* -> Start setup > *Edit* -> SECURITY.md (use a private disclosure channel: email or GitHub advisories) > *Click* -> Commit changes with the following content:\n```markdown\n# Security Policy\n\n**PLEASE DON'T DISCLOSE SECURITY-RELATED ISSUES PUBLICLY, [SEE BELOW](#reporting-a-vulnerability).**\n\n## Reporting a Vulnerability\n\nIf you discover a security vulnerability, please report it privately using one of the following channels:\n\n1. **GitHub Private Vulnerability Reporting** (preferred) — go to the repository's **Security** tab and click **\"Report a vulnerability\"**. This creates a private advisory visible only to maintainers and provides a structured workflow for triage, fix coordination, and CVE assignment.\n\n2. **Email** — send the details to [YOUR NAME] at **your@email.com**.\n\nAll security vulnerabilities will be promptly addressed.\n```";
pub const WHY_ENABLE: &'static str = "Without a disclosure channel, well-meaning researchers file public issues with full PoCs — `SECURITY.md` is what funnels them to a private channel before the world sees the bug.";

/// The remediation text.
pub fn how_to_fix(_ctx: StateCtx<'_>) -> (r: &'static str)
    ensures
        r@ == HOW_TO_FIX@,
{
    HOW_TO_FIX
}

/// The repository outcome.
pub open spec fn repo_spec(p: FilePresence) -> OutcomeView {
    match p {
        FilePresence::Present => bare(Status::Pass, "✓"@),
        FilePresence::Absent => bare(Status::Fail, "✗"@),
    }
}

/// Passes when the repository has a `SECURITY.md`.
pub fn repo_check(ctx: &RepoContext) -> (o: CheckOutcome)
    ensures
        o@ == repo_spec(ctx.security_md),
{
    match ctx.security_md {
        FilePresence::Present => CheckOutcome::pass("✓"),
        FilePresence::Absent => CheckOutcome::fail("✗"),
    }
}

/// How many of `repos[..k]` have no `SECURITY.md`.
pub open spec fn count_missing(repos: Seq<&RepoContext>, k: int) -> nat
    decreases k,
{
    if k <= 0 || k > repos.len() {
        0
    } else {
        count_missing(repos, k - 1) + if repos[k - 1].security_md == FilePresence::Absent { 1nat } else { 0nat }
    }
}

/// The description of the current state.
pub open spec fn description_spec(repos: Seq<&RepoContext>) -> Option<Seq<char>> {
    let total = repos.len();
    let missing = count_missing(repos, total as int);
    if total == 0 {
        None
    } else if missing == 0 {
        Some("all "@ + dec(total) + " "@ + public_repos_word_spec(total) + " publish a SECURITY.md disclosure policy"@)
    } else {
        Some(dec(missing) + " "@ + public_repos_word_spec(missing) + " have no SECURITY.md disclosure policy"@)
    }
}

/// How many of the repositories publish a disclosure policy.
pub fn description(ctx: StateCtx<'_>) -> (r: Option<String>)
    ensures
        opt_view(r) == description_spec(ctx.repos@),
{
    let total = ctx.repos.len();
    if total == 0 {
        return None;
    }
    let mut missing: usize = 0;
    let mut i: usize = 0;
    while i < total
        invariant
            total == ctx.repos@.len(),
            i <= total,
            missing == count_missing(ctx.repos@, i as int),
            missing <= i,
        decreases total - i,
    {
        if matches!(ctx.repos[i].security_md, FilePresence::Absent) {
            missing = missing + 1;
        }
        i = i + 1;
    }
    let mut s = String::new();
    if missing == 0 {
        s.append("all ");
        push_dec(&mut s, total);
        s.append(" ");
        s.append(public_repos_word(total));
        s.append(" publish a SECURITY.md disclosure policy");
    } else {
        push_dec(&mut s, missing);
        s.append(" ");
        s.append(public_repos_word(missing));
        s.append(" have no SECURITY.md disclosure policy");
    }
    Some(s)
}

} // verus!
