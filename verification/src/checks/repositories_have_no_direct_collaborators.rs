//! Access is granted through teams, not to individual collaborators.
use vstd::prelude::*;
use crate::checks::StateCtx;
use crate::checks::common::{noun, noun_spec, repos_word, repos_word_spec};
use crate::checks::org_context::OrgContext;
use crate::checks::repo_context::RepoContext;
use crate::support::outcome::{bare, with_items, CheckOutcome, OutcomeView, Status};
use crate::text::{clone_strings, dec, fmt_usize, opt_view, push_dec, string_views};

verus! {

pub const LABEL: &'static str = "Repositories have no direct collaborators";
pub const HOW_TO_FIX: &'static str = "In all the links below > Manage access > *Remove* -> Every direct/outside user > Grant access via teams instead";
pub const WHY_ENABLE: &'static str = "Direct collaborators bypass org-level team membership audits and outlive role changes; access reviews miss them, so a long-departed contributor can keep push rights indefinitely.";

/// The remediation text.
pub fn how_to_fix(_ctx: StateCtx<'_>) -> (r: &'static str)
    ensures
        r@ == HOW_TO_FIX@,
{
    HOW_TO_FIX
}

/// The organization outcome.
pub open spec fn org_spec(ctx: OrgContext) -> OutcomeView {
    let n = ctx.outside_collaborators@.len();
    if n == 0 {
        bare(Status::Pass, "No outside collaborators"@)
    } else {
        with_items(
            bare(Status::Fail, dec(n) + " outside collaborator(s) with access to private/elevated repositories"@),
            string_views(ctx.outside_collaborators@),
        )
    }
}

/// Fails, listing them, when the organization has outside collaborators.
pub fn org_check(ctx: &OrgContext) -> (o: CheckOutcome)
    ensures
        o@ == org_spec(*ctx),
{
    let n = ctx.outside_collaborators.len();
    if n == 0 {
        CheckOutcome::pass("No outside collaborators")
    } else {
        let mut s = fmt_usize(n);
        s.append(" outside collaborator(s) with access to private/elevated repositories");
        CheckOutcome::fail(s.as_str()).with_items(clone_strings(&ctx.outside_collaborators))
    }
}

/// The repository outcome.
pub open spec fn repo_spec(ctx: RepoContext) -> OutcomeView {
    let n = ctx.direct_collaborators@.len();
    if n == 0 { bare(Status::Pass, "✓"@) } else { bare(Status::Fail, dec(n)) }
}

/// Fails, with their number, when the repository has direct collaborators.
pub fn repo_check(ctx: &RepoContext) -> (o: CheckOutcome)
    ensures
        o@ == repo_spec(*ctx),
{
    let n = ctx.direct_collaborators.len();
    if n == 0 {
        CheckOutcome::pass("✓")
    } else {
        CheckOutcome::fail(fmt_usize(n).as_str())
    }
}

/// Over `repos[..k]`: the repositories with direct collaborators, and the
/// number of direct collaborators across them.
pub open spec fn tally(repos: Seq<&RepoContext>, k: int) -> (nat, nat)
    decreases k,
{
    if k <= 0 || k > repos.len() {
        (0, 0)
    } else {
        let (bad, direct) = tally(repos, k - 1);
        let n = repos[k - 1].direct_collaborators@.len();
        if n > 0 { (bad + 1, direct + n) } else { (bad, direct) }
    }
}

proof fn lemma_tally_grows(repos: Seq<&RepoContext>, k: int, m: int)
    requires
        0 <= k <= m <= repos.len(),
    ensures
        tally(repos, k).1 <= tally(repos, m).1,
    decreases m - k,
{
    if k < m {
        lemma_tally_grows(repos, k, m - 1);
    }
}

/// The description of the current state.
pub open spec fn description_spec(org: Option<&OrgContext>, repos: Seq<&RepoContext>) -> Option<Seq<char>> {
    let total = repos.len();
    let (bad_repos, total_direct) = tally(repos, total as int);
    let org_phrase: Option<Seq<char>> = match org {
        Some(o) => {
            let n = o.outside_collaborators@.len();
            Some(if n == 0 {
                "the organization has no outside collaborators"@
            } else {
                dec(n) + " outside "@ + noun_spec(n, "collaborator"@, "collaborators"@)
                    + " have access to private or elevated repositories"@
            })
        },
        None => None,
    };
    let repo_phrase: Option<Seq<char>> = if total == 0 {
        None
    } else if bad_repos == 0 {
        Some("all "@ + dec(total) + " "@ + repos_word_spec(total) + " are free of direct collaborators"@)
    } else {
        Some(dec(total_direct) + " direct "@ + noun_spec(total_direct, "collaborator"@, "collaborators"@)
            + " retain access across "@ + dec(bad_repos) + "/"@ + dec(total) + " "@ + repos_word_spec(total))
    };
    match (org_phrase, repo_phrase) {
        (Some(o), Some(r)) => Some(o + ", and "@ + r),
        (Some(o), None) => Some(o),
        (None, Some(r)) => Some(r),
        (None, None) => None,
    }
}

/// Outside collaborators of the organization and direct collaborators of
/// the repositories. The collaborators are counted in a `usize`; should
/// their number not fit, no description is given.
pub fn description(ctx: StateCtx<'_>) -> (r: Option<String>)
    ensures
        tally(ctx.repos@, ctx.repos@.len() as int).1 <= usize::MAX
            ==> opt_view(r) == description_spec(ctx.org, ctx.repos@),
        tally(ctx.repos@, ctx.repos@.len() as int).1 > usize::MAX ==> r is None,
{
    let total = ctx.repos.len();
    let mut bad_repos: usize = 0;
    let mut total_direct: usize = 0;
    let mut i: usize = 0;
    while i < total
        invariant
            total == ctx.repos@.len(),
            i <= total,
            (bad_repos as nat, total_direct as nat) == tally(ctx.repos@, i as int),
            bad_repos <= i,
        decreases total - i,
    {
        let n = ctx.repos[i].direct_collaborators.len();
        if n > 0 {
            proof { lemma_tally_grows(ctx.repos@, i + 1, total as int); }
            bad_repos = bad_repos + 1;
            match total_direct.checked_add(n) {
                Some(v) => {
                    total_direct = v;
                },
                None => {
                    return None;
                },
            }
        }
        i = i + 1;
    }
    let org_phrase: Option<String> = match ctx.org {
        Some(o) => {
            let n = o.outside_collaborators.len();
            let mut s = String::new();
            if n == 0 {
                s.append("the organization has no outside collaborators");
            } else {
                push_dec(&mut s, n);
                s.append(" outside ");
                s.append(noun(n, "collaborator", "collaborators"));
                s.append(" have access to private or elevated repositories");
            }
            Some(s)
        },
        None => None,
    };
    let repo_phrase: Option<String> = if total == 0 {
        None
    } else if bad_repos == 0 {
        let mut s = String::new();
        s.append("all ");
        push_dec(&mut s, total);
        s.append(" ");
        s.append(repos_word(total));
        s.append(" are free of direct collaborators");
        Some(s)
    } else {
        let mut s = String::new();
        push_dec(&mut s, total_direct);
        s.append(" direct ");
        s.append(noun(total_direct, "collaborator", "collaborators"));
        s.append(" retain access across ");
        push_dec(&mut s, bad_repos);
        s.append("/");
        push_dec(&mut s, total);
        s.append(" ");
        s.append(repos_word(total));
        Some(s)
    };
    match (org_phrase, repo_phrase) {
        (Some(o), Some(r)) => {
            let mut s = o;
            s.append(", and ");
            s.append(r.as_str());
            Some(s)
        },
        (Some(o), None) => Some(o),
        (None, Some(r)) => Some(r),
        (None, None) => None,
    }
}

} // verus!
