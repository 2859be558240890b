//! Release branches are covered by a ruleset or branch protection.
use vstd::prelude::*;
use crate::checks::StateCtx;
use crate::checks::common::{repos_word, repos_word_spec};
use crate::checks::org_context::{OrgContext, RulesetsState};
use crate::checks::repo_context::{aggregate_spec, eval_views, law_any_failing_branch_fails, BranchEval, BranchEvalView, BranchProtectionState, BranchProtections, RepoContext};
use crate::support::outcome::{bare, CheckOutcome, OutcomeView, Status};
use crate::text::{dec, opt_view, push_dec};

verus! {

pub const LABEL: &'static str = "Repositories release branches are protected";
pub const HOW_TO_FIX: &'static str = "GitHub → organization (or repository) → settings → rules → \"New ruleset\" → \"New branch ruleset\" → target your release branches (main, master, x.x) and set enforcement status to \"Active\".";
pub const WHY_ENABLE: &'static str = "Every other branch-level safeguard (signed commits, required reviews, linear history) hangs off a ruleset — with no ruleset attached to your release branches, none of those protections apply.";

/// The organization outcome: unreadable rulesets are skipped, otherwise the
/// organization must have an active ruleset.
pub open spec fn org_spec(ctx: OrgContext) -> OutcomeView {
    if ctx.rulesets.state == RulesetsState::NoPermission {
        bare(Status::Skipped, "?"@)
    } else if ctx.rulesets.any_active {
        bare(Status::Pass, "At least one active org-level ruleset"@)
    } else {
        bare(Status::Fail, "No active org-level rulesets"@)
    }
}

/// At least one org-level ruleset must be active.
pub fn org_check(ctx: &OrgContext) -> (o: CheckOutcome)
    ensures
        o@ == org_spec(*ctx),
{
    if ctx.rulesets.state == RulesetsState::NoPermission {
        return CheckOutcome::skipped("?");
    }
    if ctx.rulesets.any_active {
        CheckOutcome::pass("At least one active org-level ruleset")
    } else {
        CheckOutcome::fail("No active org-level rulesets")
    }
}

/// A branch passes when it is protected at all.
pub open spec fn branch_spec(s: BranchProtectionState) -> BranchEvalView {
    match s {
        BranchProtectionState::Protected { .. } => BranchEvalView::Pass,
        BranchProtectionState::Unprotected => BranchEvalView::Fail(Seq::empty()),
        BranchProtectionState::NoPermission => BranchEvalView::Unknown,
        BranchProtectionState::PlanGated => BranchEvalView::PlanGated,
    }
}

/// The evaluation of every release branch of `bp`.
pub open spec fn evals_spec(bp: BranchProtections) -> Seq<BranchEvalView> {
    bp.branches@.map_values(|b: (String, BranchProtectionState)| branch_spec(b.1))
}

fn branch_eval(s: &BranchProtectionState) -> (e: BranchEval)
    ensures
        e@ == branch_spec(*s),
{
    match s {
        BranchProtectionState::Protected { .. } => BranchEval::Pass,
        BranchProtectionState::Unprotected => BranchEval::fail_bare(),
        BranchProtectionState::NoPermission => BranchEval::Unknown,
        BranchProtectionState::PlanGated => BranchEval::PlanGated,
    }
}

/// Every release branch of the repository must be protected.
pub fn repo_check(ctx: &RepoContext) -> (o: CheckOutcome)
    ensures
        o@ == aggregate_spec(ctx.branch_protections.names(), evals_spec(ctx.branch_protections)),
{
    let bp = &ctx.branch_protections;
    let mut evals: Vec<BranchEval> = Vec::new();
    let mut i: usize = 0;
    while i < bp.branches.len()
        invariant
            i <= bp.branches@.len(),
            eval_views(evals@) == evals_spec(*bp).subrange(0, i as int),
        decreases bp.branches@.len() - i,
    {
        let e = branch_eval(&bp.branches[i].1);
        assert(evals_spec(*bp)[i as int] == branch_spec(bp.branches@[i as int].1));
        let ghost before = eval_views(evals@);
        let ghost ev = e@;
        evals.push(e);
        assert(eval_views(evals@) =~= before.push(ev));
        i = i + 1;
        assert(eval_views(evals@) =~= evals_spec(*bp).subrange(0, i as int));
    }
    assert(evals_spec(*bp).subrange(0, i as int) =~= evals_spec(*bp));
    bp.aggregate(evals)
}

/// A repository has an unprotected release branch, or no release branch at
/// all.
pub open spec fn has_unprotected(r: RepoContext) -> bool {
    r.branch_protections.branches@.len() == 0
        || exists|i: int| 0 <= i < r.branch_protections.branches@.len()
            && (#[trigger] r.branch_protections.branches@[i]).1 is Unprotected
}

/// How many of `repos[..k]` have an unprotected release branch.
pub open spec fn count_unprotected(repos: Seq<&RepoContext>, k: int) -> nat
    decreases k,
{
    if k <= 0 || k > repos.len() {
        0
    } else {
        count_unprotected(repos, k - 1) + if has_unprotected(*repos[k - 1]) { 1nat } else { 0nat }
    }
}

/// Whether the organization has an active ruleset, when that is known.
pub open spec fn org_active(org: Option<&OrgContext>) -> Option<bool> {
    match org {
        Some(o) => if o.rulesets.state == RulesetsState::NoPermission { None } else { Some(o.rulesets.any_active) },
        None => None,
    }
}

/// The description of the current state, from the organization's rulesets
/// (if known), the number of repositories and how many of them have an
/// unprotected release branch.
pub open spec fn note_spec(active: Option<bool>, total: nat, n: nat) -> Option<Seq<char>> {
    match active {
        Some(true) => if n == 0 && total > 0 {
            Some("release branches are protected by an active org-level ruleset and by branch protection on all "@
                + dec(total) + " "@ + repos_word_spec(total))
        } else {
            Some("an org-level ruleset is active, but "@ + dec(n) + "/"@ + dec(total) + " "@
                + repos_word_spec(total) + " have unprotected release branches"@)
        },
        Some(false) => if n == 0 && total > 0 {
            Some("no active org-level rulesets, though release branches are protected across all "@
                + dec(total) + " "@ + repos_word_spec(total))
        } else if n > 0 {
            Some("no active org-level rulesets; "@ + dec(n) + "/"@ + dec(total) + " "@
                + repos_word_spec(total) + " have unprotected release branches"@)
        } else {
            Some("no active org-level rulesets"@)
        },
        None => if n == 0 && total > 0 {
            Some("release branches are protected across all "@ + dec(total) + " "@ + repos_word_spec(total))
        } else if n > 0 {
            Some(dec(n) + "/"@ + dec(total) + " "@ + repos_word_spec(total) + " have unprotected release branches"@)
        } else {
            None
        },
    }
}

#[verifier::loop_isolation(false)]
fn is_unprotected(r: &RepoContext) -> (b: bool)
    ensures
        b == has_unprotected(*r),
{
    let bs = &r.branch_protections.branches;
    if bs.len() == 0 {
        return true;
    }
    let mut i: usize = 0;
    while i < bs.len()
        invariant
            i <= bs@.len(),
            forall|j: int| 0 <= j < i ==> !((#[trigger] bs@[j]).1 is Unprotected),
        decreases bs@.len() - i,
    {
        match bs[i].1 {
            BranchProtectionState::Unprotected => {
                assert(bs@[i as int].1 is Unprotected);
                return true;
            },
            _ => {},
        }
        i = i + 1;
    }
    false
}

/// Whether release branches are protected, by ruleset and per repository.
pub fn state_note(ctx: StateCtx<'_>) -> (r: Option<String>)
    ensures
        opt_view(r) == note_spec(org_active(ctx.org), ctx.repos@.len(),
            count_unprotected(ctx.repos@, ctx.repos@.len() as int)),
{
    let total = ctx.repos.len();
    let mut n: usize = 0;
    let mut i: usize = 0;
    while i < total
        invariant
            total == ctx.repos@.len(),
            i <= total,
            n == count_unprotected(ctx.repos@, i as int),
            n <= i,
        decreases total - i,
    {
        if is_unprotected(ctx.repos[i]) {
            n = n + 1;
        }
        i = i + 1;
    }
    let active: Option<bool> = match ctx.org {
        Some(o) => if o.rulesets.state == RulesetsState::NoPermission { None } else { Some(o.rulesets.any_active) },
        None => None,
    };
    let mut s = String::new();
    match active {
        Some(true) => {
            if n == 0 && total > 0 {
                s.append("release branches are protected by an active org-level ruleset and by branch protection on all ");
                push_dec(&mut s, total);
                s.append(" ");
                s.append(repos_word(total));
            } else {
                s.append("an org-level ruleset is active, but ");
                push_dec(&mut s, n);
                s.append("/");
                push_dec(&mut s, total);
                s.append(" ");
                s.append(repos_word(total));
                s.append(" have unprotected release branches");
            }
        },
        Some(false) => {
            if n == 0 && total > 0 {
                s.append("no active org-level rulesets, though release branches are protected across all ");
                push_dec(&mut s, total);
                s.append(" ");
                s.append(repos_word(total));
            } else if n > 0 {
                s.append("no active org-level rulesets; ");
                push_dec(&mut s, n);
                s.append("/");
                push_dec(&mut s, total);
                s.append(" ");
                s.append(repos_word(total));
                s.append(" have unprotected release branches");
            } else {
                s.append("no active org-level rulesets");
            }
        },
        None => {
            if n == 0 && total > 0 {
                s.append("release branches are protected across all ");
                push_dec(&mut s, total);
                s.append(" ");
                s.append(repos_word(total));
            } else if n > 0 {
                push_dec(&mut s, n);
                s.append("/");
                push_dec(&mut s, total);
                s.append(" ");
                s.append(repos_word(total));
                s.append(" have unprotected release branches");
            } else {
                return None;
            }
        },
    }
    Some(s)
}


/// A release branch that is not protected, wherever it stands among the
/// release branches, fails the repository and is named among its failing
/// branches.
pub proof fn law_unprotected_release_branch_fails(bp: BranchProtections, i: int)
    requires
        0 <= i < bp.branches@.len(),
        bp.branches@[i].1 == BranchProtectionState::Unprotected,
    ensures
        aggregate_spec(bp.names(), evals_spec(bp)).status == Status::Fail,
        aggregate_spec(bp.names(), evals_spec(bp)).failing_branches.contains(bp.branches@[i].0@),
{
    assert(evals_spec(bp)[i] == branch_spec(bp.branches@[i].1));
    assert(bp.names()[i] == bp.branches@[i].0@);
    law_any_failing_branch_fails(bp.names(), evals_spec(bp), i);
}

/// When every release branch is protected, the repository passes.
pub proof fn law_all_protected_passes(bp: BranchProtections)
    requires
        bp.branches@.len() > 0,
        forall|i: int| 0 <= i < bp.branches@.len() ==> (#[trigger] bp.branches@[i]).1 is Protected,
    ensures
        aggregate_spec(bp.names(), evals_spec(bp)).status == Status::Pass,
{
    assert forall|i: int| 0 <= i < evals_spec(bp).len() implies #[trigger] evals_spec(bp)[i] == BranchEvalView::Pass by {
        assert(bp.branches@[i].1 is Protected);
    }
    assert(bp.names().len() > 0);
}

} // verus!
