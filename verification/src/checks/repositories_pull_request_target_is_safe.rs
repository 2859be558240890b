//! No workflow runs `pull_request_target` with an untrusted checkout.
use vstd::prelude::*;
use crate::checks::StateCtx;
use crate::checks::common::{noun, noun_spec, on_branch, on_branch_exec, public_repos_word as repos_word, public_repos_word_spec as repos_word_spec};
use crate::checks::repo_context::RepoContext;
use crate::support::outcome::{bare, with_branches, with_items, CheckOutcome, OutcomeView, Status};
use crate::support::workflows::{has_pull_request_target, has_untrusted_checkout, pull_request_target_spec, untrusted_spec, Workflow};
use crate::text::{contains_string, dec, opt_view, push_dec, push_unique, string_views};

verus! {

pub const LABEL: &'static str = "Repositories pull request target is safe";
pub const HOW_TO_FIX: &'static str = "Switch the trigger to `pull_request`, or ensure the workflow does not check out `github.event.pull_request.head.ref` (only check out the base ref).";
pub const WHY_ENABLE: &'static str = "`pull_request_target` runs with the base repo's secrets and write token; if the workflow then checks out the PR's code, any fork PR executes attacker-controlled code with full repo privileges.";

/// A workflow is unsafe when it is triggered by `pull_request_target` and
/// checks out the pull request's head.
pub open spec fn unsafe_wf(wf: Workflow) -> bool {
    pull_request_target_spec(wf.doc) && untrusted_spec(wf.doc)
}

/// The paths of the unsafe workflows among `wfs[..k]`.
pub open spec fn bad_paths(wfs: Seq<Workflow>, k: int) -> Seq<Seq<char>>
    decreases k,
{
    if k <= 0 || k > wfs.len() {
        Seq::empty()
    } else {
        bad_paths(wfs, k - 1) + if unsafe_wf(wfs[k - 1]) { seq![wfs[k - 1].path@] } else { Seq::empty() }
    }
}

/// Over the branches `bs[..k]`: the findings (paths, prefixed by branch when
/// several branches were scanned) and the branches that had any.
pub open spec fn scan(bs: Seq<(String, Vec<Workflow>)>, multi: bool, k: int) -> (Seq<Seq<char>>, Seq<Seq<char>>)
    decreases k,
{
    if k <= 0 || k > bs.len() {
        (Seq::empty(), Seq::empty())
    } else {
        let (items, branches) = scan(bs, multi, k - 1);
        let b = bs[k - 1].0@;
        let bad = bad_paths(bs[k - 1].1@, bs[k - 1].1@.len() as int);
        (
            items + bad.map_values(|f: Seq<char>| on_branch(multi, b, f)),
            if bad.len() > 0 { push_unique(branches, b) } else { branches },
        )
    }
}

/// The repository outcome.
pub open spec fn repo_spec(ctx: RepoContext) -> OutcomeView {
    let bs = ctx.workflows.branches@;
    if bs.len() == 0 {
        bare(Status::Skipped, "—"@)
    } else if !ctx.workflows.any_workflows() {
        bare(Status::Skipped, "N/A"@)
    } else {
        let (items, branches) = scan(bs, bs.len() > 1, bs.len() as int);
        if items.len() > 0 {
            with_branches(with_items(bare(Status::Fail, "✗"@), items), branches)
        } else {
            bare(Status::Pass, "✓"@)
        }
    }
}

fn bad_paths_exec(wfs: &Vec<Workflow>) -> (r: Vec<String>)
    ensures
        string_views(r@) == bad_paths(wfs@, wfs@.len() as int),
{
    let mut out: Vec<String> = Vec::new();
    let mut i: usize = 0;
    while i < wfs.len()
        invariant
            i <= wfs@.len(),
            string_views(out@) == bad_paths(wfs@, i as int),
        decreases wfs@.len() - i,
    {
        let ghost before = string_views(out@);
        let wf = &wfs[i];
        if has_pull_request_target(&wf.doc) && has_untrusted_checkout(&wf.doc) {
            out.push(wf.path.clone());
            assert(string_views(out@) =~= before.push(wf.path@));
        }
        i = i + 1;
        assert(string_views(out@) =~= bad_paths(wfs@, i as int));
    }
    out
}

/// Fails, listing the workflows, when some branch has a workflow triggered by
/// `pull_request_target` that checks out the pull request's head.
pub fn repo_check(ctx: &RepoContext) -> (o: CheckOutcome)
    ensures
        o@ == repo_spec(*ctx),
{
    if ctx.workflows.is_empty() {
        return CheckOutcome::skipped("—");
    }
    if !ctx.workflows.has_any_workflows() {
        return CheckOutcome::skipped("N/A");
    }
    let bs = &ctx.workflows.branches;
    let multi = bs.len() > 1;
    let mut bad: Vec<String> = Vec::new();
    let mut failing: Vec<String> = Vec::new();
    let mut i: usize = 0;
    while i < bs.len()
        invariant
            i <= bs@.len(),
            multi == (bs@.len() > 1),
            (string_views(bad@), string_views(failing@)) == scan(bs@, multi, i as int),
        decreases bs@.len() - i,
    {
        let branch = &bs[i].0;
        let branch_bad = bad_paths_exec(&bs[i].1);
        let ghost bad0 = string_views(bad@);
        let ghost failing0 = string_views(failing@);
        if branch_bad.len() > 0 && !contains_string(&failing, branch.as_str()) {
            failing.push(branch.clone());
            assert(string_views(failing@) =~= failing0.push(branch@));
        }
        assert(string_views(failing@) == (if string_views(branch_bad@).len() > 0 { push_unique(failing0, branch@) } else { failing0 }));
        let mut k: usize = 0;
        while k < branch_bad.len()
            invariant
                k <= branch_bad@.len(),
                string_views(bad@) == bad0 + string_views(branch_bad@).subrange(0, k as int).map_values(|f: Seq<char>| on_branch(multi, branch@, f)),
            decreases branch_bad@.len() - k,
        {
            let ghost b1 = string_views(bad@);
            let item = on_branch_exec(multi, branch.as_str(), branch_bad[k].as_str());
            let ghost iv = item@;
            bad.push(item);
            assert(string_views(bad@) =~= b1.push(iv));
            k = k + 1;
            assert(string_views(branch_bad@).subrange(0, k as int).map_values(|f: Seq<char>| on_branch(multi, branch@, f))
                =~= string_views(branch_bad@).subrange(0, k - 1 as int).map_values(|f: Seq<char>| on_branch(multi, branch@, f)).push(iv));
        }
        assert(string_views(branch_bad@).subrange(0, k as int) =~= string_views(branch_bad@));
        i = i + 1;
    }
    if bad.len() > 0 {
        CheckOutcome::fail("✗").with_items(bad).with_failing_branches(failing)
    } else {
        CheckOutcome::pass("✓")
    }
}

/// The number of unsafe workflows across the branches `bs[..k]`.
pub open spec fn repo_bad(bs: Seq<(String, Vec<Workflow>)>, k: int) -> nat
    decreases k,
{
    if k <= 0 || k > bs.len() {
        0
    } else {
        repo_bad(bs, k - 1) + bad_paths(bs[k - 1].1@, bs[k - 1].1@.len() as int).len()
    }
}

/// Over `repos[..k]`: the repositories with workflows, those with an unsafe
/// workflow, and the number of unsafe workflows.
pub open spec fn tally(repos: Seq<&RepoContext>, k: int) -> (nat, nat, nat)
    decreases k,
{
    if k <= 0 || k > repos.len() {
        (0, 0, 0)
    } else {
        let (applicable, bad_repos, total_bad) = tally(repos, k - 1);
        let r = repos[k - 1];
        if !r.workflows.any_workflows() {
            (applicable, bad_repos, total_bad)
        } else {
            let n = repo_bad(r.workflows.branches@, r.workflows.branches@.len() as int);
            if n > 0 { (applicable + 1, bad_repos + 1, total_bad + n) } else { (applicable + 1, bad_repos, total_bad) }
        }
    }
}

/// The description of the current state.
pub open spec fn description_spec(repos: Seq<&RepoContext>) -> Option<Seq<char>> {
    let (applicable, bad_repos, total_bad) = tally(repos, repos.len() as int);
    if applicable == 0 {
        None
    } else if total_bad == 0 {
        Some("no workflow combines `pull_request_target` with an untrusted checkout across all "@
            + dec(applicable) + " "@ + repos_word_spec(applicable) + " with workflows"@)
    } else {
        Some(dec(total_bad) + " "@ + noun_spec(total_bad, "workflow"@, "workflows"@)
            + " combine `pull_request_target` with an untrusted checkout across "@ + dec(bad_repos) + "/"@
            + dec(applicable) + " "@ + repos_word_spec(applicable) + " with workflows"@)
    }
}

proof fn lemma_tally_grows(repos: Seq<&RepoContext>, k: int, m: int)
    requires
        0 <= k <= m <= repos.len(),
    ensures
        tally(repos, k).2 <= tally(repos, m).2,
    decreases m - k,
{
    if k < m {
        lemma_tally_grows(repos, k, m - 1);
    }
}

proof fn lemma_repo_bad_grows(bs: Seq<(String, Vec<Workflow>)>, k: int, m: int)
    requires
        0 <= k <= m <= bs.len(),
    ensures
        repo_bad(bs, k) <= repo_bad(bs, m),
    decreases m - k,
{
    if k < m {
        lemma_repo_bad_grows(bs, k, m - 1);
    }
}

/// How many workflows combine `pull_request_target` with an untrusted
/// checkout. The workflows are counted in a `usize`; should their number not
/// fit, no description is given.
pub fn description(ctx: StateCtx<'_>) -> (r: Option<String>)
    ensures
        tally(ctx.repos@, ctx.repos@.len() as int).2 <= usize::MAX ==> opt_view(r) == description_spec(ctx.repos@),
        tally(ctx.repos@, ctx.repos@.len() as int).2 > usize::MAX ==> r is None,
{
    let n = ctx.repos.len();
    let mut applicable: usize = 0;
    let mut bad_repos: usize = 0;
    let mut total_bad: usize = 0;
    let mut i: usize = 0;
    while i < n
        invariant
            n == ctx.repos@.len(),
            i <= n,
            (applicable as nat, bad_repos as nat, total_bad as nat) == tally(ctx.repos@, i as int),
            bad_repos <= applicable,
            applicable <= i,
        decreases n - i,
    {
        let r = ctx.repos[i];
        if r.workflows.has_any_workflows() {
            proof { lemma_tally_grows(ctx.repos@, i + 1, n as int); }
            let bs = &r.workflows.branches;
            let mut repo_bad_count: usize = 0;
            let mut j: usize = 0;
            while j < bs.len()
                invariant
                    j <= bs@.len(),
                    repo_bad_count == repo_bad(bs@, j as int),
                    tally(ctx.repos@, i + 1).2 == total_bad + repo_bad(bs@, bs@.len() as int),
                    tally(ctx.repos@, i + 1).2 <= tally(ctx.repos@, n as int).2,
                    n == ctx.repos@.len(),
                decreases bs@.len() - j,
            {
                proof { lemma_repo_bad_grows(bs@, j + 1, bs@.len() as int); }
                let found = bad_paths_exec(&bs[j].1);
                assert(found@.len() == string_views(found@).len());
                match repo_bad_count.checked_add(found.len()) {
                    Some(v) => {
                        repo_bad_count = v;
                    },
                    None => {
                        return None;
                    },
                }
                j = j + 1;
            }
            applicable = applicable + 1;
            if repo_bad_count > 0 {
                bad_repos = bad_repos + 1;
                match total_bad.checked_add(repo_bad_count) {
                    Some(v) => {
                        total_bad = v;
                    },
                    None => {
                        return None;
                    },
                }
            }
        }
        i = i + 1;
    }
    if applicable == 0 {
        return None;
    }
    let mut s = String::new();
    if total_bad == 0 {
        s.append("no workflow combines `pull_request_target` with an untrusted checkout across all ");
        push_dec(&mut s, applicable);
        s.append(" ");
        s.append(repos_word(applicable));
        s.append(" with workflows");
    } else {
        push_dec(&mut s, total_bad);
        s.append(" ");
        s.append(noun(total_bad, "workflow", "workflows"));
        s.append(" combine `pull_request_target` with an untrusted checkout across ");
        push_dec(&mut s, bad_repos);
        s.append("/");
        push_dec(&mut s, applicable);
        s.append(" ");
        s.append(repos_word(applicable));
        s.append(" with workflows");
    }
    Some(s)
}

} // verus!
