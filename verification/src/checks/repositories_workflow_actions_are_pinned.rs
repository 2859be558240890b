//! Workflow actions are pinned to full commit SHAs, and the repository
//! requires it.
use vstd::prelude::*;
use crate::checks::StateCtx;
use crate::checks::common::{noun, noun_spec, on_branch, on_branch_exec, repos_word, repos_word_spec};
use crate::checks::repo_context::{RepoContext, SHAPinningState};
use crate::support::outcome::{bare, no_data, with_branches, with_items, CheckOutcome, OutcomeView, Status};
use crate::support::workflows::{collect_uses, is_pinned, pinned_spec, uses_of, Workflow};
use crate::text::{
    chars_of, contains_string, dec, opt_view, push_chars, push_dec, push_unique, string_views, trim_end_set,
    trim_end_set_exec,
};

verus! {

pub const LABEL: &'static str = "Repositories workflow actions are pinned";
pub const HOW_TO_FIX: &'static str = "https://github.com/organizations/{org}/settings/actions > General actions permissions > *Check* -> Require actions to be pinned to a full-length commit SHA > *Click* -> Save\n\nThen, in each affected workflow file below, replace every tag or branch ref with the full-length commit SHA (keep the tag as a trailing comment for readability). For example:\n```diff\n    - name: Cache dependencies\n-      uses: actions/cache@v5\n+      uses: actions/cache@27d5ce7f107fe9357f9df03efb73ab90386fccae # v5\n```\nTip: hand the file list to your coding agent and ask it to pin every `uses:` ref — it can resolve each tag to its commit SHA for you.";
pub const WHY_ENABLE: &'static str = "Tags and branches are mutable — when tj-actions/changed-files was compromised in 2025, the attacker repointed the existing tags, so every workflow `@v1` instantly ran malicious code; SHA pins make that impossible, and the repo-level \"Require actions to be pinned\" setting prevents anyone from re-introducing unpinned refs. Note: enforcement happens at workflow run time — a push with unpinned `uses:` refs is not rejected, but any workflow it triggers will fail to start until the refs are pinned.";
pub const SETTING_OFF: &'static str = "repo setting \"Require actions to be pinned to a full-length commit SHA\" is OFF — settings → actions → general → Actions permissions";

/// The same remediation for organizations and user accounts.
pub fn how_to_fix(_ctx: StateCtx<'_>) -> (r: &'static str)
    ensures
        r@ == HOW_TO_FIX@,
{
    HOW_TO_FIX
}

/// The findings for the unpinned references among `uses[..k]` of the
/// workflow at `path`.
pub open spec fn unpinned_in(path: Seq<char>, uses: Seq<Seq<char>>, k: int) -> Seq<Seq<char>>
    decreases k,
{
    if k <= 0 || k > uses.len() {
        Seq::empty()
    } else {
        unpinned_in(path, uses, k - 1)
            + if !pinned_spec(uses[k - 1]) { seq!["unpinned ref — "@ + path + ": "@ + uses[k - 1]] } else { Seq::empty() }
    }
}

/// The findings for the workflows `wfs[..k]`, in order.
pub open spec fn unpinned_spec(wfs: Seq<Workflow>, k: int) -> Seq<Seq<char>>
    decreases k,
{
    if k <= 0 || k > wfs.len() {
        Seq::empty()
    } else {
        let u = uses_of(wfs[k - 1].doc);
        unpinned_spec(wfs, k - 1) + unpinned_in(wfs[k - 1].path@, u, u.len() as int)
    }
}

/// Over the branches `bs[..k]`: the findings (prefixed by branch when several
/// branches were scanned) and the branches that had any.
pub open spec fn scan(bs: Seq<(String, Vec<Workflow>)>, multi: bool, k: int) -> (Seq<Seq<char>>, Seq<Seq<char>>)
    decreases k,
{
    if k <= 0 || k > bs.len() {
        (Seq::empty(), Seq::empty())
    } else {
        let (items, branches) = scan(bs, multi, k - 1);
        let b = bs[k - 1].0@;
        let found = unpinned_spec(bs[k - 1].1@, bs[k - 1].1@.len() as int);
        (
            items + found.map_values(|f: Seq<char>| on_branch(multi, b, f)),
            if found.len() > 0 { push_unique(branches, b) } else { branches },
        )
    }
}

/// The repository outcome: not applicable without workflows; passes when
/// pinning is enforced and every reference is pinned; fails when pinning is
/// not enforced or a reference is unpinned; otherwise passes.
pub open spec fn repo_spec(ctx: RepoContext) -> OutcomeView {
    let bs = ctx.workflows.branches@;
    let (unpinned, branches) = scan(bs, bs.len() > 1, bs.len() as int);
    if !ctx.workflows.any_workflows() {
        no_data("N/A (no workflows)"@, "repos, no workflows"@)
    } else if ctx.sha_pinning == SHAPinningState::Enforced && unpinned.len() == 0 {
        bare(Status::Pass, "✓"@)
    } else if ctx.sha_pinning == SHAPinningState::NotEnforced || unpinned.len() > 0 {
        let items = (if ctx.sha_pinning == SHAPinningState::NotEnforced { seq![SETTING_OFF@] } else { Seq::empty() }) + unpinned;
        let o = with_items(bare(Status::Fail, "✗"@), items);
        if branches.len() > 0 { with_branches(o, branches) } else { o }
    } else {
        bare(Status::Pass, "✓"@)
    }
}

fn unpinned_exec(wfs: &Vec<Workflow>) -> (r: Vec<String>)
    ensures
        string_views(r@) == unpinned_spec(wfs@, wfs@.len() as int),
{
    let mut out: Vec<String> = Vec::new();
    let mut i: usize = 0;
    while i < wfs.len()
        invariant
            i <= wfs@.len(),
            string_views(out@) == unpinned_spec(wfs@, i as int),
        decreases wfs@.len() - i,
    {
        let wf = &wfs[i];
        let uses = collect_uses(&wf.doc);
        let ghost u = string_views(uses@);
        let ghost start = string_views(out@);
        let mut k: usize = 0;
        while k < uses.len()
            invariant
                k <= uses@.len(),
                u == string_views(uses@),
                string_views(out@) == start + unpinned_in(wf.path@, u, k as int),
            decreases uses@.len() - k,
        {
            let ghost before = string_views(out@);
            if !is_pinned(uses[k].as_str()) {
                let mut f = String::new();
                f.append("unpinned ref — ");
                f.append(wf.path.as_str());
                f.append(": ");
                f.append(uses[k].as_str());
                let ghost fv = f@;
                out.push(f);
                assert(string_views(out@) =~= before.push(fv));
            }
            k = k + 1;
            assert(string_views(out@) =~= start + unpinned_in(wf.path@, u, k as int));
        }
        i = i + 1;
        assert(string_views(out@) =~= unpinned_spec(wfs@, i as int));
    }
    out
}

/// Fails when the repository does not require pinned actions or a workflow on
/// some release branch uses an unpinned reference, listing each.
pub fn repo_check(ctx: &RepoContext) -> (o: CheckOutcome)
    ensures
        o@ == repo_spec(*ctx),
{
    let enforced = ctx.sha_pinning == SHAPinningState::Enforced;
    let not_enforced = ctx.sha_pinning == SHAPinningState::NotEnforced;
    let bs = &ctx.workflows.branches;
    let multi = bs.len() > 1;
    let mut unpinned: Vec<String> = Vec::new();
    let mut failing: Vec<String> = Vec::new();
    let has_workflows = ctx.workflows.has_any_workflows();
    let mut i: usize = 0;
    while i < bs.len()
        invariant
            i <= bs@.len(),
            multi == (bs@.len() > 1),
            (string_views(unpinned@), string_views(failing@)) == scan(bs@, multi, i as int),
        decreases bs@.len() - i,
    {
        let branch = &bs[i].0;
        let found = unpinned_exec(&bs[i].1);
        let ghost all0 = string_views(unpinned@);
        let ghost failing0 = string_views(failing@);
        if found.len() > 0 && !contains_string(&failing, branch.as_str()) {
            failing.push(branch.clone());
            assert(string_views(failing@) =~= failing0.push(branch@));
        }
        assert(string_views(failing@) == (if string_views(found@).len() > 0 { push_unique(failing0, branch@) } else { failing0 }));
        let mut k: usize = 0;
        while k < found.len()
            invariant
                k <= found@.len(),
                string_views(unpinned@) == all0 + string_views(found@).subrange(0, k as int).map_values(|f: Seq<char>| on_branch(multi, branch@, f)),
            decreases found@.len() - k,
        {
            let ghost a1 = string_views(unpinned@);
            let item = on_branch_exec(multi, branch.as_str(), found[k].as_str());
            let ghost iv = item@;
            unpinned.push(item);
            assert(string_views(unpinned@) =~= a1.push(iv));
            k = k + 1;
            assert(string_views(found@).subrange(0, k as int).map_values(|f: Seq<char>| on_branch(multi, branch@, f))
                =~= string_views(found@).subrange(0, k - 1 as int).map_values(|f: Seq<char>| on_branch(multi, branch@, f)).push(iv));
        }
        assert(string_views(found@).subrange(0, k as int) =~= string_views(found@));
        i = i + 1;
    }
    if !has_workflows {
        return CheckOutcome::skipped_no_data("N/A (no workflows)", "repos, no workflows");
    }
    if enforced && unpinned.len() == 0 {
        return CheckOutcome::pass("✓");
    }
    if not_enforced || unpinned.len() > 0 {
        let mut items: Vec<String> = Vec::new();
        if not_enforced {
            items.push(SETTING_OFF.to_owned());
        }
        let ghost head = string_views(items@);
        assert(head =~= (if not_enforced { seq![SETTING_OFF@] } else { Seq::<Seq<char>>::empty() }));
        let mut k: usize = 0;
        while k < unpinned.len()
            invariant
                k <= unpinned@.len(),
                string_views(items@) == head + string_views(unpinned@).subrange(0, k as int),
            decreases unpinned@.len() - k,
        {
            let ghost b = string_views(items@);
            let c = unpinned[k].clone();
            items.push(c);
            assert(string_views(items@) =~= b.push(unpinned@[k as int]@));
            k = k + 1;
            assert(string_views(items@) =~= head + string_views(unpinned@).subrange(0, k as int));
        }
        assert(string_views(unpinned@).subrange(0, k as int) =~= string_views(unpinned@));
        assert(string_views(items@) =~= head + string_views(unpinned@));
        let mut outcome = CheckOutcome::fail("✗").with_items(items);
        if failing.len() > 0 {
            outcome = outcome.with_failing_branches(failing);
        }
        return outcome;
    }
    CheckOutcome::pass("✓")
}

/// The unpinned references across the branches `bs[..k]`.
pub open spec fn repo_unpinned(bs: Seq<(String, Vec<Workflow>)>, k: int) -> nat
    decreases k,
{
    if k <= 0 || k > bs.len() {
        0
    } else {
        repo_unpinned(bs, k - 1) + unpinned_spec(bs[k - 1].1@, bs[k - 1].1@.len() as int).len()
    }
}

/// What the description counts over `repos[..k]`: the repositories with
/// workflows, those that enforce pinning, those that do not, those with an
/// unpinned reference or without enforcement, and the unpinned references in
/// those.
pub struct PinTally {
    pub applicable: nat,
    pub enforced: nat,
    pub not_enforced: nat,
    pub bad_repos: nat,
    pub unpinned: nat,
}

/// The counts over `repos[..k]`.
pub open spec fn tally(repos: Seq<&RepoContext>, k: int) -> PinTally
    decreases k,
{
    if k <= 0 || k > repos.len() {
        PinTally { applicable: 0, enforced: 0, not_enforced: 0, bad_repos: 0, unpinned: 0 }
    } else {
        let t = tally(repos, k - 1);
        let r = repos[k - 1];
        if !r.workflows.any_workflows() {
            t
        } else {
            let n = repo_unpinned(r.workflows.branches@, r.workflows.branches@.len() as int);
            let off = r.sha_pinning == SHAPinningState::NotEnforced;
            PinTally {
                applicable: t.applicable + 1,
                enforced: if r.sha_pinning == SHAPinningState::Enforced { t.enforced + 1 } else { t.enforced },
                not_enforced: if off { t.not_enforced + 1 } else { t.not_enforced },
                bad_repos: if n > 0 || off { t.bad_repos + 1 } else { t.bad_repos },
                unpinned: if n > 0 || off { t.unpinned + n } else { t.unpinned },
            }
        }
    }
}

/// "action reference" or "action references".
pub open spec fn refs_word(n: nat) -> Seq<char> {
    noun_spec(n, "action reference"@, "action references"@)
}

/// The description of the current state. (The one-repository wording drops
/// every trailing "s" of the repository noun.)
pub open spec fn description_spec(repos: Seq<&RepoContext>) -> Option<Seq<char>> {
    let t = tally(repos, repos.len() as int);
    let a = t.applicable;
    if a == 0 {
        None
    } else if t.bad_repos == 0 {
        if t.enforced == a {
            Some("every "@ + trim_end_set(repos_word_spec(a), "s"@) + " enforces SHA pinning at the repo level"@)
        } else {
            Some("every workflow action is SHA-pinned across all "@ + dec(a) + " "@ + repos_word_spec(a) + " with workflows"@)
        }
    } else if t.unpinned == 0 {
        Some(dec(t.not_enforced) + "/"@ + dec(a) + " "@ + repos_word_spec(a) + " don't enforce SHA pinning at the repo level"@)
    } else if t.not_enforced > 0 {
        Some(dec(t.unpinned) + " unpinned "@ + refs_word(t.unpinned) + " across "@ + dec(t.bad_repos) + "/"@ + dec(a) + " "@
            + repos_word_spec(a) + " with workflows"@ + " ("@ + dec(t.not_enforced) + " also don't enforce it at the repo level)"@)
    } else {
        Some(dec(t.unpinned) + " unpinned "@ + refs_word(t.unpinned) + " across "@ + dec(t.bad_repos) + "/"@ + dec(a) + " "@
            + repos_word_spec(a) + " with workflows"@)
    }
}

proof fn lemma_tally_grows(repos: Seq<&RepoContext>, k: int, m: int)
    requires
        0 <= k <= m <= repos.len(),
    ensures
        tally(repos, k).unpinned <= tally(repos, m).unpinned,
        tally(repos, m).enforced + tally(repos, m).not_enforced <= tally(repos, m).applicable,
        tally(repos, m).bad_repos <= tally(repos, m).applicable,
        tally(repos, m).applicable <= m,
    decreases m,
{
    if m > 0 {
        lemma_tally_grows(repos, if k == m { m - 1 } else { k }, m - 1);
    }
}

proof fn lemma_repo_unpinned_grows(bs: Seq<(String, Vec<Workflow>)>, k: int, m: int)
    requires
        0 <= k <= m <= bs.len(),
    ensures
        repo_unpinned(bs, k) <= repo_unpinned(bs, m),
    decreases m - k,
{
    if k < m {
        lemma_repo_unpinned_grows(bs, k, m - 1);
    }
}

fn count_repo_unpinned(bs: &Vec<(String, Vec<Workflow>)>) -> (n: Option<usize>)
    ensures
        repo_unpinned(bs@, bs@.len() as int) <= usize::MAX ==> n == Some(repo_unpinned(bs@, bs@.len() as int) as usize),
        repo_unpinned(bs@, bs@.len() as int) > usize::MAX ==> n is None,
{
    let mut n: usize = 0;
    let mut j: usize = 0;
    while j < bs.len()
        invariant
            j <= bs@.len(),
            n == repo_unpinned(bs@, j as int),
        decreases bs@.len() - j,
    {
        proof { lemma_repo_unpinned_grows(bs@, j + 1, bs@.len() as int); }
        let found = unpinned_exec(&bs[j].1);
        assert(found@.len() == string_views(found@).len());
        match n.checked_add(found.len()) {
            Some(v) => {
                n = v;
            },
            None => {
                return None;
            },
        }
        j = j + 1;
    }
    Some(n)
}

fn every_repo_text(a: usize) -> (r: String)
    ensures
        r@ == "every "@ + trim_end_set(repos_word_spec(a as nat), "s"@) + " enforces SHA pinning at the repo level"@,
{
    let mut s = String::new();
    s.append("every ");
    let word = trim_end_set_exec(&chars_of(repos_word(a)), &chars_of("s"));
    push_chars(&mut s, &word);
    s.append(" enforces SHA pinning at the repo level");
    s
}

/// How many action references are unpinned, and how many repositories do
/// not require pinning. The references are counted in a `usize`; should their
/// number not fit, no description is given.
pub fn description(ctx: StateCtx<'_>) -> (r: Option<String>)
    ensures
        tally(ctx.repos@, ctx.repos@.len() as int).unpinned <= usize::MAX ==> opt_view(r) == description_spec(ctx.repos@),
        tally(ctx.repos@, ctx.repos@.len() as int).unpinned > usize::MAX ==> r is None,
{
    let n = ctx.repos.len();
    let mut applicable: usize = 0;
    let mut enforced: usize = 0;
    let mut not_enforced: usize = 0;
    let mut bad_repos: usize = 0;
    let mut total: usize = 0;
    let mut i: usize = 0;
    while i < n
        invariant
            n == ctx.repos@.len(),
            i <= n,
            tally(ctx.repos@, i as int) == (PinTally {
                applicable: applicable as nat,
                enforced: enforced as nat,
                not_enforced: not_enforced as nat,
                bad_repos: bad_repos as nat,
                unpinned: total as nat,
            }),
        decreases n - i,
    {
        proof {
            lemma_tally_grows(ctx.repos@, i + 1, n as int);
            lemma_tally_grows(ctx.repos@, i as int, i as int);
        }
        let r = ctx.repos[i];
        if r.workflows.has_any_workflows() {
            let off = r.sha_pinning == SHAPinningState::NotEnforced;
            applicable = applicable + 1;
            if r.sha_pinning == SHAPinningState::Enforced {
                enforced = enforced + 1;
            }
            if off {
                not_enforced = not_enforced + 1;
            }
            let c = match count_repo_unpinned(&r.workflows.branches) {
                Some(c) => c,
                None => {
                    return None;
                },
            };
            if c > 0 || off {
                bad_repos = bad_repos + 1;
                match total.checked_add(c) {
                    Some(v) => {
                        total = v;
                    },
                    None => {
                        return None;
                    },
                }
            }
        }
        i = i + 1;
    }
    if applicable == 0 {
        return None;
    }
    let mut s = String::new();
    if bad_repos == 0 {
        if enforced == applicable {
            return Some(every_repo_text(applicable));
        }
        s.append("every workflow action is SHA-pinned across all ");
        push_dec(&mut s, applicable);
        s.append(" ");
        s.append(repos_word(applicable));
        s.append(" with workflows");
    } else if total == 0 {
        push_dec(&mut s, not_enforced);
        s.append("/");
        push_dec(&mut s, applicable);
        s.append(" ");
        s.append(repos_word(applicable));
        s.append(" don't enforce SHA pinning at the repo level");
    } else {
        push_dec(&mut s, total);
        s.append(" unpinned ");
        s.append(noun(total, "action reference", "action references"));
        s.append(" across ");
        push_dec(&mut s, bad_repos);
        s.append("/");
        push_dec(&mut s, applicable);
        s.append(" ");
        s.append(repos_word(applicable));
        s.append(" with workflows");
        if not_enforced > 0 {
            s.append(" (");
            push_dec(&mut s, not_enforced);
            s.append(" also don't enforce it at the repo level)");
        }
    }
    Some(s)
}

} // verus!
