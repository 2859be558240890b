//! Repositories with workflows keep their actions up to date with dependabot.
use vstd::prelude::*;
use crate::checks::StateCtx;
use crate::checks::common::{repos_word, repos_word_spec};
use crate::checks::repo_context::{DependabotConfigState, RepoContext};
use crate::support::outcome::{bare, CheckOutcome, OutcomeView, Status};
use crate::text::{dec, opt_view, push_dec};

verus! {

pub const LABEL: &'static str = "Repositories have dependabot config";
pub const HOW_TO_FIX: &'static str = "Add a `.github/dependabot.yml` enabling the `github-actions` ecosystem with the following content:\n```yaml\nversion: 2\nupdates:\n  - package-ecosystem: github-actions\n    directory: /\n    schedule:\n      interval: weekly\n```";
pub const WHY_ENABLE: &'static str = "Pinning actions to SHAs is only safe if something keeps them up to date; without Dependabot the pins rot and either get bumped to a tag (defeating the pin) or stay stuck on a known-vulnerable revision.";

/// The repository outcome: not applicable without workflows; otherwise the
/// dependabot config must exist and track the `github-actions` ecosystem.
pub open spec fn repo_spec(ctx: RepoContext) -> OutcomeView {
    if ctx.workflows.known_empty() {
        bare(Status::Skipped, "N/a"@)
    } else {
        match ctx.dependabot_config {
            DependabotConfigState::Present { github_actions } =>
                if github_actions { bare(Status::Pass, "✓"@) } else { bare(Status::Fail, "No actions ecosystem"@) },
            DependabotConfigState::Missing => bare(Status::Fail, "Missing"@),
            DependabotConfigState::Unknown => bare(Status::Skipped, "?"@),
        }
    }
}

/// Checks that the repository's dependabot config tracks GitHub Actions.
pub fn repo_check(ctx: &RepoContext) -> (o: CheckOutcome)
    ensures
        o@ == repo_spec(*ctx),
{
    if ctx.workflows.is_known_empty() {
        return CheckOutcome::skipped("N/a");
    }
    match ctx.dependabot_config {
        DependabotConfigState::Present { github_actions } => {
            if github_actions {
                CheckOutcome::pass("✓")
            } else {
                CheckOutcome::fail("No actions ecosystem")
            }
        },
        DependabotConfigState::Missing => CheckOutcome::fail("Missing"),
        DependabotConfigState::Unknown => CheckOutcome::skipped("?"),
    }
}

/// Over `repos[..k]`: the repositories with workflows, those without a
/// dependabot config, and those whose config ignores GitHub Actions.
pub open spec fn tally(repos: Seq<&RepoContext>, k: int) -> (nat, nat, nat)
    decreases k,
{
    if k <= 0 || k > repos.len() {
        (0, 0, 0)
    } else {
        let (a, m, w) = tally(repos, k - 1);
        let r = repos[k - 1];
        if r.workflows.known_empty() {
            (a, m, w)
        } else {
            match r.dependabot_config {
                DependabotConfigState::Present { github_actions } =>
                    if !github_actions { (a + 1, m, w + 1) } else { (a + 1, m, w) },
                DependabotConfigState::Missing => (a + 1, m + 1, w),
                DependabotConfigState::Unknown => (a + 1, m, w),
            }
        }
    }
}

/// The description of the current state.
pub open spec fn state_note_spec(repos: Seq<&RepoContext>) -> Option<Seq<char>> {
    let (applicable, missing, without_actions) = tally(repos, repos.len() as int);
    if applicable == 0 {
        None
    } else if missing + without_actions == 0 {
        Some("all "@ + dec(applicable) + " "@ + repos_word_spec(applicable)
            + " with workflows track action updates via dependabot"@)
    } else if missing > 0 && without_actions > 0 {
        Some(dec(missing) + "/"@ + dec(applicable) + " "@ + repos_word_spec(applicable)
            + " lack a dependabot config and "@ + dec(without_actions)
            + " more do not track the github-actions ecosystem"@)
    } else if missing > 0 {
        Some(dec(missing) + "/"@ + dec(applicable) + " "@ + repos_word_spec(applicable)
            + " lack a dependabot config"@)
    } else {
        Some(dec(without_actions) + "/"@ + dec(applicable) + " "@ + repos_word_spec(applicable)
            + " do not track the github-actions ecosystem in dependabot"@)
    }
}

/// How many repositories with workflows track action updates.
pub fn state_note(ctx: StateCtx<'_>) -> (r: Option<String>)
    ensures
        opt_view(r) == state_note_spec(ctx.repos@),
{
    let n = ctx.repos.len();
    let mut applicable: usize = 0;
    let mut missing: usize = 0;
    let mut without_actions: usize = 0;
    let mut i: usize = 0;
    while i < n
        invariant
            n == ctx.repos@.len(),
            i <= n,
            (applicable as nat, missing as nat, without_actions as nat) == tally(ctx.repos@, i as int),
            missing + without_actions <= applicable,
            applicable <= i,
        decreases n - i,
    {
        let r = ctx.repos[i];
        if !r.workflows.is_known_empty() {
            applicable = applicable + 1;
            match r.dependabot_config {
                DependabotConfigState::Present { github_actions } => {
                    if !github_actions {
                        without_actions = without_actions + 1;
                    }
                },
                DependabotConfigState::Missing => {
                    missing = missing + 1;
                },
                DependabotConfigState::Unknown => {},
            }
        }
        i = i + 1;
    }
    if applicable == 0 {
        return None;
    }
    let mut s = String::new();
    if missing + without_actions == 0 {
        s.append("all ");
        push_dec(&mut s, applicable);
        s.append(" ");
        s.append(repos_word(applicable));
        s.append(" with workflows track action updates via dependabot");
    } else if missing > 0 && without_actions > 0 {
        push_dec(&mut s, missing);
        s.append("/");
        push_dec(&mut s, applicable);
        s.append(" ");
        s.append(repos_word(applicable));
        s.append(" lack a dependabot config and ");
        push_dec(&mut s, without_actions);
        s.append(" more do not track the github-actions ecosystem");
    } else if missing > 0 {
        push_dec(&mut s, missing);
        s.append("/");
        push_dec(&mut s, applicable);
        s.append(" ");
        s.append(repos_word(applicable));
        s.append(" lack a dependabot config");
    } else {
        push_dec(&mut s, without_actions);
        s.append("/");
        push_dec(&mut s, applicable);
        s.append(" ");
        s.append(repos_word(applicable));
        s.append(" do not track the github-actions ecosystem in dependabot");
    }
    Some(s)
}

} // verus!
