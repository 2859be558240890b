//! Release branches require signed commits.
use vstd::prelude::*;
use crate::checks::repo_context::{aggregate_spec, eval_views, BranchEval, BranchEvalView, BranchProtectionState, BranchProtections, RepoContext};
use crate::support::outcome::CheckOutcome;

verus! {

pub const LABEL: &'static str = "signed commits";
pub const HOW_TO_FIX: &'static str = "github → repository → settings → branches → edit ruleset → require signed commits.";
pub const WHY_ENABLE: &'static str = "a stolen developer token can push commits authored as anyone; requiring a verified signature ties each commit to a key the attacker doesn't have, turning a leaked token from a code-push into a noisy failure.";

/// A branch passes when its protection requires signed commits.
pub open spec fn branch_spec(s: BranchProtectionState) -> BranchEvalView {
    match s {
        BranchProtectionState::Protected { signed_commits, .. } =>
            if signed_commits { BranchEvalView::Pass } else { BranchEvalView::Fail(Seq::empty()) },
        BranchProtectionState::Unprotected => BranchEvalView::Fail(Seq::empty()),
        BranchProtectionState::NoPermission => BranchEvalView::Unknown,
        BranchProtectionState::PlanGated => BranchEvalView::PlanGated,
    }
}

/// The evaluation of every release branch of `bp`.
pub open spec fn evals_spec(bp: BranchProtections) -> Seq<BranchEvalView> {
    bp.branches@.map_values(|b: (String, BranchProtectionState)| branch_spec(b.1))
}

fn branch_eval(s: &BranchProtectionState) -> (e: BranchEval)
    ensures
        e@ == branch_spec(*s),
{
    match s {
        BranchProtectionState::Protected { signed_commits, .. } => {
            if *signed_commits {
                BranchEval::Pass
            } else {
                BranchEval::fail_bare()
            }
        },
        BranchProtectionState::Unprotected => {
            BranchEval::fail_bare()
        },
        BranchProtectionState::NoPermission => BranchEval::Unknown,
        BranchProtectionState::PlanGated => BranchEval::PlanGated,
    }
}

/// Every release branch must require signed commits.
pub fn repo_check(ctx: &RepoContext) -> (o: CheckOutcome)
    ensures
        o@ == aggregate_spec(ctx.branch_protections.names(), evals_spec(ctx.branch_protections)),
{
    let bp = &ctx.branch_protections;
    let mut evals: Vec<BranchEval> = Vec::new();
    let mut i: usize = 0;
    while i < bp.branches.len()
        invariant
            i <= bp.branches@.len(),
            eval_views(evals@) == evals_spec(*bp).subrange(0, i as int),
        decreases bp.branches@.len() - i,
    {
        let e = branch_eval(&bp.branches[i].1);
        assert(evals_spec(*bp)[i as int] == branch_spec(bp.branches@[i as int].1));
        let ghost before = eval_views(evals@);
        let ghost ev = e@;
        evals.push(e);
        assert(eval_views(evals@) =~= before.push(ev));
        i = i + 1;
        assert(eval_views(evals@) =~= evals_spec(*bp).subrange(0, i as int));
    }
    assert(evals_spec(*bp).subrange(0, i as int)
        =~= evals_spec(*bp));
    bp.aggregate(evals)
}

} // verus!
