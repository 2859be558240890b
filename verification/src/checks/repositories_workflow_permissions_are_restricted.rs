//! Workflows declare a read-only `permissions:` block.
use vstd::prelude::*;
use crate::checks::StateCtx;
use crate::checks::common::{noun, noun_spec, on_branch, on_branch_exec, repos_word, repos_word_spec};
use crate::checks::repo_context::RepoContext;
use crate::support::outcome::{bare, with_branches, with_items, CheckOutcome, OutcomeView, Status};
use crate::support::workflows::{
    job_level_permissions, job_permissions_spec, job_views, top_level_permissions, top_permissions_spec,
    PermissionsBlock, PermissionsView, Workflow,
};
use crate::text::{contains_string, dec, join, join_strings, opt_view, push_dec, push_unique, string_views};

verus! {

pub const LABEL: &'static str = "Repositories workflow permissions are restricted";
pub const HOW_TO_FIX: &'static str = "In each `.github/workflows/*.yml` below > *Add* -> A top-level `permissions:` block > *Set* -> The minimum scopes needed — for read-only workflows:\n```yaml\npermissions:\n  contents: read\n```";
pub const WHY_ENABLE: &'static str = "Without a declared `permissions:` block (or with `write-all`), every step in the workflow — including third-party actions — runs with full repo write access, turning any compromised action into a code-push primitive.";

/// The finding for the top-level block of the workflow at `path`, if any:
/// a missing block, `write-all`, or write scopes.
pub open spec fn top_finding(path: Seq<char>, p: PermissionsView) -> Seq<Seq<char>> {
    match p {
        PermissionsView::Missing => seq![path + ": missing permissions block"@],
        PermissionsView::WriteAll => seq![path + ": write-all"@],
        PermissionsView::Scoped(w) => if w.len() > 0 {
            seq![path + ": write scopes "@ + ("["@ + join(w, ", "@) + "]"@)]
        } else {
            Seq::empty()
        },
        _ => Seq::empty(),
    }
}

/// The findings for the job-level blocks `jobs[..k]` of the workflow at
/// `path`: `write-all` or write scopes.
pub open spec fn job_findings(path: Seq<char>, jobs: Seq<(Seq<char>, PermissionsView)>, k: int) -> Seq<Seq<char>>
    decreases k,
{
    if k <= 0 || k > jobs.len() {
        Seq::empty()
    } else {
        let (job, p) = jobs[k - 1];
        job_findings(path, jobs, k - 1) + match p {
            PermissionsView::WriteAll => seq![path + ": job `"@ + job + "` write-all"@],
            PermissionsView::Scoped(w) => if w.len() > 0 {
                seq![path + ": job `"@ + job + "` write scopes "@ + ("["@ + join(w, ", "@) + "]"@)]
            } else {
                Seq::empty()
            },
            _ => Seq::empty(),
        }
    }
}

/// The findings for one workflow.
pub open spec fn wf_findings(wf: Workflow) -> Seq<Seq<char>> {
    let jobs = job_permissions_spec(wf.doc);
    top_finding(wf.path@, top_permissions_spec(wf.doc)) + job_findings(wf.path@, jobs, jobs.len() as int)
}

/// The findings for the workflows `wfs[..k]`, in order.
pub open spec fn findings_spec(wfs: Seq<Workflow>, k: int) -> Seq<Seq<char>>
    decreases k,
{
    if k <= 0 || k > wfs.len() {
        Seq::empty()
    } else {
        findings_spec(wfs, k - 1) + wf_findings(wfs[k - 1])
    }
}

/// `[a, b, …]`: the scopes joined by ", " in square brackets.
fn scopes_text(writes: &Vec<String>) -> (r: String)
    ensures
        r@ == "["@ + join(string_views(writes@), ", "@) + "]"@,
{
    let mut s = String::new();
    s.append("[");
    let joined = join_strings(writes, ", ");
    s.append(joined.as_str());
    s.append("]");
    s
}

fn wf_findings_exec(wf: &Workflow, out: &mut Vec<String>)
    ensures
        string_views(final(out)@) == string_views(old(out)@) + wf_findings(*wf),
{
    let ghost start = string_views(out@);
    let top = top_level_permissions(&wf.doc);
    match &top {
        PermissionsBlock::Missing => {
            let mut s = wf.path.clone();
            s.append(": missing permissions block");
            out.push(s);
        },
        PermissionsBlock::WriteAll => {
            let mut s = wf.path.clone();
            s.append(": write-all");
            out.push(s);
        },
        PermissionsBlock::Scoped(w) => {
            if w.len() > 0 {
                let mut t = wf.path.clone();
                t.append(": write scopes ");
                t.append(scopes_text(w).as_str());
                out.push(t);
            }
        },
        _ => {},
    }
    assert(string_views(out@) =~= start + top_finding(wf.path@, top_permissions_spec(wf.doc)));
    let ghost mid = string_views(out@);
    let jobs = job_level_permissions(&wf.doc);
    let ghost jv = job_views(jobs@);
    let mut i: usize = 0;
    while i < jobs.len()
        invariant
            i <= jobs@.len(),
            jv == job_views(jobs@),
            string_views(out@) == mid + job_findings(wf.path@, jv, i as int),
        decreases jobs@.len() - i,
    {
        let ghost before = string_views(out@);
        let pair = &jobs[i];
        let job = &pair.0;
        assert(jv[i as int] == (job@, pair.1@));
        match &pair.1 {
            PermissionsBlock::WriteAll => {
                let mut s = wf.path.clone();
                s.append(": job `");
                s.append(job.as_str());
                s.append("` write-all");
                let ghost sv = s@;
                assert(sv == wf.path@ + ": job `"@ + job@ + "` write-all"@);
                out.push(s);
                assert(string_views(out@) =~= before.push(sv));
            },
            PermissionsBlock::Scoped(w) => {
                if w.len() > 0 {
                    let mut t = wf.path.clone();
                    t.append(": job `");
                    t.append(job.as_str());
                    t.append("` write scopes ");
                    t.append(scopes_text(w).as_str());
                    let ghost tv = t@;
                    assert(tv == wf.path@ + ": job `"@ + job@ + "` write scopes "@ + ("["@ + join(string_views(w@), ", "@) + "]"@));
                    out.push(t);
                    assert(string_views(out@) =~= before.push(tv));
                } else {
                    assert(string_views(out@) =~= before);
                }
            },
            _ => {
                assert(string_views(out@) =~= before);
            },
        }
        proof {
            let piece: Seq<Seq<char>> = match jv[i as int].1 {
                PermissionsView::WriteAll => seq![wf.path@ + ": job `"@ + job@ + "` write-all"@],
                PermissionsView::Scoped(w) => if w.len() > 0 {
                    seq![wf.path@ + ": job `"@ + job@ + "` write scopes "@ + ("["@ + join(w, ", "@) + "]"@)]
                } else {
                    Seq::empty()
                },
                _ => Seq::empty(),
            };
            assert(job_findings(wf.path@, jv, i + 1) == job_findings(wf.path@, jv, i as int) + piece);
            assert(string_views(out@) =~= before + piece);
        }
        i = i + 1;
        assert(string_views(out@) =~= mid + job_findings(wf.path@, jv, i as int));
    }
    assert(jv == job_permissions_spec(wf.doc));
}

/// The findings for a list of workflows: for each, its top-level block when
/// missing, `write-all` or granting write scopes, then each job-level block
/// granting `write-all` or write scopes.
pub fn findings_for_workflows(wfs: &Vec<Workflow>) -> (r: Vec<String>)
    ensures
        string_views(r@) == findings_spec(wfs@, wfs@.len() as int),
{
    let mut out: Vec<String> = Vec::new();
    let mut i: usize = 0;
    while i < wfs.len()
        invariant
            i <= wfs@.len(),
            string_views(out@) == findings_spec(wfs@, i as int),
        decreases wfs@.len() - i,
    {
        wf_findings_exec(&wfs[i], &mut out);
        i = i + 1;
    }
    out
}

/// Over the branches `bs[..k]`: the findings (prefixed by branch when several
/// branches were scanned) and the branches that had any.
pub open spec fn scan(bs: Seq<(String, Vec<Workflow>)>, multi: bool, k: int) -> (Seq<Seq<char>>, Seq<Seq<char>>)
    decreases k,
{
    if k <= 0 || k > bs.len() {
        (Seq::empty(), Seq::empty())
    } else {
        let (items, branches) = scan(bs, multi, k - 1);
        let b = bs[k - 1].0@;
        let found = findings_spec(bs[k - 1].1@, bs[k - 1].1@.len() as int);
        (
            items + found.map_values(|f: Seq<char>| on_branch(multi, b, f)),
            if found.len() > 0 { push_unique(branches, b) } else { branches },
        )
    }
}

/// The repository outcome.
pub open spec fn repo_spec(ctx: RepoContext) -> OutcomeView {
    let bs = ctx.workflows.branches@;
    if bs.len() == 0 {
        bare(Status::Skipped, "—"@)
    } else if !ctx.workflows.any_workflows() {
        bare(Status::Skipped, "N/A"@)
    } else {
        let (items, branches) = scan(bs, bs.len() > 1, bs.len() as int);
        if items.len() > 0 {
            with_branches(with_items(bare(Status::Fail, "✗"@), items), branches)
        } else {
            bare(Status::Pass, "✓"@)
        }
    }
}

/// Fails, listing each finding, when a workflow on some release branch
/// grants write access or declares no permissions.
pub fn repo_check(ctx: &RepoContext) -> (o: CheckOutcome)
    ensures
        o@ == repo_spec(*ctx),
{
    if ctx.workflows.is_empty() {
        return CheckOutcome::skipped("—");
    }
    if !ctx.workflows.has_any_workflows() {
        return CheckOutcome::skipped("N/A");
    }
    let bs = &ctx.workflows.branches;
    let multi = bs.len() > 1;
    let mut all: Vec<String> = Vec::new();
    let mut failing: Vec<String> = Vec::new();
    let mut i: usize = 0;
    while i < bs.len()
        invariant
            i <= bs@.len(),
            multi == (bs@.len() > 1),
            (string_views(all@), string_views(failing@)) == scan(bs@, multi, i as int),
        decreases bs@.len() - i,
    {
        let branch = &bs[i].0;
        let found = findings_for_workflows(&bs[i].1);
        let ghost all0 = string_views(all@);
        let ghost failing0 = string_views(failing@);
        if found.len() > 0 && !contains_string(&failing, branch.as_str()) {
            failing.push(branch.clone());
            assert(string_views(failing@) =~= failing0.push(branch@));
        }
        assert(string_views(failing@) == (if string_views(found@).len() > 0 { push_unique(failing0, branch@) } else { failing0 }));
        let mut k: usize = 0;
        while k < found.len()
            invariant
                k <= found@.len(),
                string_views(all@) == all0 + string_views(found@).subrange(0, k as int).map_values(|f: Seq<char>| on_branch(multi, branch@, f)),
            decreases found@.len() - k,
        {
            let ghost a1 = string_views(all@);
            let item = on_branch_exec(multi, branch.as_str(), found[k].as_str());
            let ghost iv = item@;
            all.push(item);
            assert(string_views(all@) =~= a1.push(iv));
            k = k + 1;
            assert(string_views(found@).subrange(0, k as int).map_values(|f: Seq<char>| on_branch(multi, branch@, f))
                =~= string_views(found@).subrange(0, k - 1 as int).map_values(|f: Seq<char>| on_branch(multi, branch@, f)).push(iv));
        }
        assert(string_views(found@).subrange(0, k as int) =~= string_views(found@));
        i = i + 1;
    }
    if all.len() > 0 {
        CheckOutcome::fail("✗").with_items(all).with_failing_branches(failing)
    } else {
        CheckOutcome::pass("✓")
    }
}

/// A workflow is over-privileged when it has a finding.
pub open spec fn wf_bad(wf: Workflow) -> bool {
    wf_findings(wf).len() > 0
}

/// How many of `wfs[..k]` are over-privileged.
pub open spec fn bad_count(wfs: Seq<Workflow>, k: int) -> nat
    decreases k,
{
    if k <= 0 || k > wfs.len() {
        0
    } else {
        bad_count(wfs, k - 1) + if wf_bad(wfs[k - 1]) { 1nat } else { 0nat }
    }
}

/// The over-privileged workflows across the branches `bs[..k]`.
pub open spec fn repo_bad(bs: Seq<(String, Vec<Workflow>)>, k: int) -> nat
    decreases k,
{
    if k <= 0 || k > bs.len() {
        0
    } else {
        repo_bad(bs, k - 1) + bad_count(bs[k - 1].1@, bs[k - 1].1@.len() as int)
    }
}

/// Over `repos[..k]`: the repositories with workflows, those with an
/// over-privileged workflow, and the number of such workflows.
pub open spec fn tally(repos: Seq<&RepoContext>, k: int) -> (nat, nat, nat)
    decreases k,
{
    if k <= 0 || k > repos.len() {
        (0, 0, 0)
    } else {
        let (applicable, bad_repos, total_bad) = tally(repos, k - 1);
        let r = repos[k - 1];
        if !r.workflows.any_workflows() {
            (applicable, bad_repos, total_bad)
        } else {
            let n = repo_bad(r.workflows.branches@, r.workflows.branches@.len() as int);
            if n > 0 { (applicable + 1, bad_repos + 1, total_bad + n) } else { (applicable + 1, bad_repos, total_bad) }
        }
    }
}

/// The description of the current state.
pub open spec fn description_spec(repos: Seq<&RepoContext>) -> Option<Seq<char>> {
    let (applicable, bad_repos, total_bad) = tally(repos, repos.len() as int);
    if applicable == 0 {
        None
    } else if total_bad == 0 {
        Some("every workflow declares a read-only permissions block across all "@
            + dec(applicable) + " "@ + repos_word_spec(applicable) + " with workflows"@)
    } else {
        Some(dec(total_bad) + " "@ + noun_spec(total_bad, "workflow"@, "workflows"@)
            + " grant write or omit the permissions block across "@ + dec(bad_repos) + "/"@
            + dec(applicable) + " "@ + repos_word_spec(applicable) + " with workflows"@)
    }
}

proof fn lemma_tally_grows(repos: Seq<&RepoContext>, k: int, m: int)
    requires
        0 <= k <= m <= repos.len(),
    ensures
        tally(repos, k).2 <= tally(repos, m).2,
    decreases m - k,
{
    if k < m {
        lemma_tally_grows(repos, k, m - 1);
    }
}

proof fn lemma_repo_bad_grows(bs: Seq<(String, Vec<Workflow>)>, k: int, m: int)
    requires
        0 <= k <= m <= bs.len(),
    ensures
        repo_bad(bs, k) <= repo_bad(bs, m),
    decreases m - k,
{
    if k < m {
        lemma_repo_bad_grows(bs, k, m - 1);
    }
}

proof fn lemma_bad_count_le(wfs: Seq<Workflow>, k: int)
    requires
        0 <= k <= wfs.len(),
    ensures
        bad_count(wfs, k) <= k,
    decreases k,
{
    if k > 0 {
        lemma_bad_count_le(wfs, k - 1);
    }
}

fn count_bad(wfs: &Vec<Workflow>) -> (n: usize)
    ensures
        n == bad_count(wfs@, wfs@.len() as int),
{
    let mut n: usize = 0;
    let mut i: usize = 0;
    while i < wfs.len()
        invariant
            i <= wfs@.len(),
            n == bad_count(wfs@, i as int),
            n <= i,
        decreases wfs@.len() - i,
    {
        let mut found: Vec<String> = Vec::new();
        wf_findings_exec(&wfs[i], &mut found);
        assert(string_views(found@) =~= wf_findings(wfs@[i as int]));
        if found.len() > 0 {
            n = n + 1;
        }
        i = i + 1;
    }
    n
}

/// How many workflows grant write access or omit their permissions block.
/// The workflows are counted in a `usize`; should their number not fit, no
/// description is given.
pub fn description(ctx: StateCtx<'_>) -> (r: Option<String>)
    ensures
        tally(ctx.repos@, ctx.repos@.len() as int).2 <= usize::MAX ==> opt_view(r) == description_spec(ctx.repos@),
        tally(ctx.repos@, ctx.repos@.len() as int).2 > usize::MAX ==> r is None,
{
    let n = ctx.repos.len();
    let mut applicable: usize = 0;
    let mut bad_repos: usize = 0;
    let mut total_bad: usize = 0;
    let mut i: usize = 0;
    while i < n
        invariant
            n == ctx.repos@.len(),
            i <= n,
            (applicable as nat, bad_repos as nat, total_bad as nat) == tally(ctx.repos@, i as int),
            bad_repos <= applicable,
            applicable <= i,
        decreases n - i,
    {
        let r = ctx.repos[i];
        if r.workflows.has_any_workflows() {
            proof { lemma_tally_grows(ctx.repos@, i + 1, n as int); }
            let bs = &r.workflows.branches;
            let mut repo_bad_count: usize = 0;
            let mut j: usize = 0;
            while j < bs.len()
                invariant
                    j <= bs@.len(),
                    repo_bad_count == repo_bad(bs@, j as int),
                    tally(ctx.repos@, i + 1).2 == total_bad + repo_bad(bs@, bs@.len() as int),
                    tally(ctx.repos@, i + 1).2 <= tally(ctx.repos@, n as int).2,
                    n == ctx.repos@.len(),
                decreases bs@.len() - j,
            {
                proof { lemma_repo_bad_grows(bs@, j + 1, bs@.len() as int); }
                let c = count_bad(&bs[j].1);
                match repo_bad_count.checked_add(c) {
                    Some(v) => {
                        repo_bad_count = v;
                    },
                    None => {
                        return None;
                    },
                }
                j = j + 1;
            }
            applicable = applicable + 1;
            if repo_bad_count > 0 {
                bad_repos = bad_repos + 1;
                match total_bad.checked_add(repo_bad_count) {
                    Some(v) => {
                        total_bad = v;
                    },
                    None => {
                        return None;
                    },
                }
            }
        }
        i = i + 1;
    }
    if applicable == 0 {
        return None;
    }
    let mut s = String::new();
    if total_bad == 0 {
        s.append("every workflow declares a read-only permissions block across all ");
        push_dec(&mut s, applicable);
        s.append(" ");
        s.append(repos_word(applicable));
        s.append(" with workflows");
    } else {
        push_dec(&mut s, total_bad);
        s.append(" ");
        s.append(noun(total_bad, "workflow", "workflows"));
        s.append(" grant write or omit the permissions block across ");
        push_dec(&mut s, bad_repos);
        s.append("/");
        push_dec(&mut s, applicable);
        s.append(" ");
        s.append(repos_word(applicable));
        s.append(" with workflows");
    }
    Some(s)
}

} // verus!
