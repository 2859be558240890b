//! Release branches require reviewed pull requests.
use vstd::prelude::*;
use crate::checks::StateCtx;
use crate::checks::common::{count_inspectable, inspectable_branch_protection_repos, repos_word, repos_word_spec, FilePresence};
use crate::checks::org_context::OrgContext;
use crate::checks::repo_context::{aggregate_spec, eval_views, law_any_failing_branch_fails, BranchEval, BranchEvalView, BranchProtectionState, BranchProtections, RepoContext};
use crate::support::outcome::{bare, with_items, CheckOutcome, OutcomeView, Status};
use crate::text::{dec, opt_view, push_dec, string_views};

verus! {

pub const LABEL: &'static str = "Repositories pull requests require reviews";
pub const HOW_TO_FIX: &'static str = "https://github.com/organizations/{org}/settings/rules > (*Click* -> New ruleset -> New branch ruleset or *Edit* -> Existing one) > Enforcement status > *Select* -> Active > Target branches > *Add target* -> {branches} > Branch rules > *Check* -> Require a pull request before merging > Required approvals > *Set* -> 1 (or more) > *Check* -> Dismiss stale pull request approvals when new commits are pushed > *Check* -> Require approval of the most recent reviewable push > *Check* -> Require review from Code Owners > *Click* -> Create/Save changes";
pub const WHY_ENABLE: &'static str = "Without required reviews, a single compromised contributor account can push directly to a release branch — peer review is the cheapest mechanism that catches malicious patches before they ship. Stale-review dismissal and last-push approval close the gap where an attacker amends a previously-approved PR; code-owner review ensures changes to sensitive paths are seen by the right people.";

/// The remediation text.
pub fn how_to_fix(_ctx: StateCtx<'_>) -> (r: &'static str)
    ensures
        r@ == HOW_TO_FIX@,
{
    HOW_TO_FIX
}

/// The sub-requirements that the organization's rulesets leave out.
pub open spec fn org_missing(ctx: OrgContext) -> Seq<Seq<char>> {
    (if !ctx.rulesets.pr_dismiss_stale_reviews { seq!["stale reviews not dismissed on new push"@] } else { Seq::empty() })
        + (if !ctx.rulesets.pr_require_last_push_approval { seq!["last-push approval not required"@] } else { Seq::empty() })
        + (if !ctx.rulesets.pr_require_code_owner_review { seq!["code-owner review not required"@] } else { Seq::empty() })
}

/// The organization outcome.
pub open spec fn org_spec(ctx: OrgContext) -> OutcomeView {
    if !ctx.rulesets.pull_request {
        bare(Status::Fail, "Not required by any org-level ruleset"@)
    } else if org_missing(ctx).len() == 0 {
        bare(Status::Pass, "Required by an org-level ruleset"@)
    } else {
        with_items(
            bare(Status::Fail, "Required by an org-level ruleset, but some sub-requirements are missing"@),
            org_missing(ctx),
        )
    }
}

/// Passes when an organization ruleset requires pull-request reviews with
/// all their sub-requirements; otherwise lists what is missing.
pub fn org_check(ctx: &OrgContext) -> (o: CheckOutcome)
    ensures
        o@ == org_spec(*ctx),
{
    if !ctx.rulesets.pull_request {
        return CheckOutcome::fail("Not required by any org-level ruleset");
    }
    let mut missing: Vec<String> = Vec::new();
    if !ctx.rulesets.pr_dismiss_stale_reviews {
        missing.push("stale reviews not dismissed on new push".to_owned());
    }
    let ghost m1 = string_views(missing@);
    if !ctx.rulesets.pr_require_last_push_approval {
        missing.push("last-push approval not required".to_owned());
    }
    let ghost m2 = string_views(missing@);
    if !ctx.rulesets.pr_require_code_owner_review {
        missing.push("code-owner review not required".to_owned());
    }
    assert(string_views(missing@) =~= org_missing(*ctx));
    if missing.len() == 0 {
        CheckOutcome::pass("Required by an org-level ruleset")
    } else {
        CheckOutcome::fail("Required by an org-level ruleset, but some sub-requirements are missing")
            .with_items(missing)
    }
}

/// The reasons a protected branch falls short of the review policy.
pub open spec fn shortfalls(dismiss: bool, last_push: bool, code_owner: bool, codeowners_present: bool) -> Seq<Seq<char>> {
    (if !dismiss { seq!["stale reviews not dismissed on new push"@] } else { Seq::empty() })
        + (if !last_push { seq!["last-push approval not required"@] } else { Seq::empty() })
        + (if codeowners_present && !code_owner {
            seq!["code-owner review not required (CODEOWNERS present)"@]
        } else {
            Seq::empty()
        })
}

/// How one branch fares against the review policy.
pub open spec fn branch_spec(s: BranchProtectionState, codeowners_present: bool) -> BranchEvalView {
    match s {
        BranchProtectionState::Protected {
            pr_reviews, pr_dismiss_stale_reviews, pr_require_last_push_approval, pr_require_code_owner_review, ..
        } => if !pr_reviews {
            BranchEvalView::Fail(seq!["reviews not required"@])
        } else {
            let r = shortfalls(pr_dismiss_stale_reviews, pr_require_last_push_approval, pr_require_code_owner_review, codeowners_present);
            if r.len() == 0 { BranchEvalView::Pass } else { BranchEvalView::Fail(r) }
        },
        BranchProtectionState::Unprotected => BranchEvalView::Fail(Seq::empty()),
        BranchProtectionState::NoPermission => BranchEvalView::Unknown,
        BranchProtectionState::PlanGated => BranchEvalView::PlanGated,
    }
}

fn branch_eval(s: &BranchProtectionState, codeowners_present: bool) -> (e: BranchEval)
    ensures
        e@ == branch_spec(*s, codeowners_present),
{
    match s {
        BranchProtectionState::Protected {
            pr_reviews, pr_dismiss_stale_reviews, pr_require_last_push_approval, pr_require_code_owner_review, ..
        } => {
            if !*pr_reviews {
                let mut r: Vec<String> = Vec::new();
                r.push("reviews not required".to_owned());
                assert(string_views(r@) =~= seq!["reviews not required"@]);
                return BranchEval::Fail(r);
            }
            let mut reasons: Vec<String> = Vec::new();
            if !*pr_dismiss_stale_reviews {
                reasons.push("stale reviews not dismissed on new push".to_owned());
            }
            let ghost r1 = string_views(reasons@);
            if !*pr_require_last_push_approval {
                reasons.push("last-push approval not required".to_owned());
            }
            let ghost r2 = string_views(reasons@);
            if codeowners_present && !*pr_require_code_owner_review {
                reasons.push("code-owner review not required (CODEOWNERS present)".to_owned());
            }
            assert(string_views(reasons@) =~= shortfalls(*pr_dismiss_stale_reviews, *pr_require_last_push_approval, *pr_require_code_owner_review, codeowners_present));
            if reasons.len() == 0 {
                BranchEval::Pass
            } else {
                BranchEval::Fail(reasons)
            }
        },
        BranchProtectionState::Unprotected => BranchEval::fail_bare(),
        BranchProtectionState::NoPermission => BranchEval::Unknown,
        BranchProtectionState::PlanGated => BranchEval::PlanGated,
    }
}

/// The evaluation of every release branch of `bp`.
pub open spec fn evals_spec(bp: BranchProtections, codeowners_present: bool) -> Seq<BranchEvalView> {
    bp.branches@.map_values(|b: (String, BranchProtectionState)| branch_spec(b.1, codeowners_present))
}

/// The repository outcome.
pub open spec fn repo_spec(ctx: RepoContext) -> OutcomeView {
    aggregate_spec(ctx.branch_protections.names(), evals_spec(ctx.branch_protections, ctx.codeowners == FilePresence::Present))
}

/// Every release branch must require an approved pull request with stale
/// reviews dismissed, last-push approval and, when the repository has a
/// CODEOWNERS file, code-owner review.
pub fn repo_check(ctx: &RepoContext) -> (o: CheckOutcome)
    ensures
        o@ == repo_spec(*ctx),
{
    let codeowners_present = matches!(ctx.codeowners, FilePresence::Present);
    let bp = &ctx.branch_protections;
    let mut evals: Vec<BranchEval> = Vec::new();
    let mut i: usize = 0;
    while i < bp.branches.len()
        invariant
            i <= bp.branches@.len(),
            eval_views(evals@) == evals_spec(*bp, codeowners_present).subrange(0, i as int),
        decreases bp.branches@.len() - i,
    {
        let e = branch_eval(&bp.branches[i].1, codeowners_present);
        assert(evals_spec(*bp, codeowners_present)[i as int] == branch_spec(bp.branches@[i as int].1, codeowners_present));
        let ghost before = eval_views(evals@);
        let ghost ev = e@;
        evals.push(e);
        assert(eval_views(evals@) =~= before.push(ev));
        i = i + 1;
        assert(eval_views(evals@) =~= evals_spec(*bp, codeowners_present).subrange(0, i as int));
    }
    assert(evals_spec(*bp, codeowners_present).subrange(0, i as int) =~= evals_spec(*bp, codeowners_present));
    bp.aggregate(evals)
}

/// A release branch falls short of the full review policy.
pub open spec fn branch_short(s: BranchProtectionState, codeowners_present: bool) -> bool {
    match s {
        BranchProtectionState::Protected {
            pr_reviews, pr_dismiss_stale_reviews, pr_require_last_push_approval, pr_require_code_owner_review, ..
        } => !pr_reviews || !pr_dismiss_stale_reviews || !pr_require_last_push_approval
            || (codeowners_present && !pr_require_code_owner_review),
        BranchProtectionState::Unprotected => true,
        _ => false,
    }
}

/// Some release branch of `r` falls short of the full review policy.
pub open spec fn repo_short(r: RepoContext) -> bool {
    exists|i: int| 0 <= i < r.branch_protections.branches@.len()
        && branch_short((#[trigger] r.branch_protections.branches@[i]).1, r.codeowners == FilePresence::Present)
}

/// How many of `repos[..k]` fall short of the full review policy.
pub open spec fn count_short(repos: Seq<&RepoContext>, k: int) -> nat
    decreases k,
{
    if k <= 0 || k > repos.len() {
        0
    } else {
        count_short(repos, k - 1) + if repo_short(*repos[k - 1]) { 1nat } else { 0nat }
    }
}

#[verifier::loop_isolation(false)]
fn is_short(r: &RepoContext) -> (b: bool)
    ensures
        b == repo_short(*r),
{
    let codeowners_present = matches!(r.codeowners, FilePresence::Present);
    let bs = &r.branch_protections.branches;
    let mut i: usize = 0;
    while i < bs.len()
        invariant
            i <= bs@.len(),
            forall|j: int| 0 <= j < i ==> !branch_short((#[trigger] bs@[j]).1, codeowners_present),
        decreases bs@.len() - i,
    {
        let fails = match &bs[i].1 {
            BranchProtectionState::Protected {
                pr_reviews, pr_dismiss_stale_reviews, pr_require_last_push_approval, pr_require_code_owner_review, ..
            } => !*pr_reviews || !*pr_dismiss_stale_reviews || !*pr_require_last_push_approval
                || (codeowners_present && !*pr_require_code_owner_review),
            BranchProtectionState::Unprotected => true,
            _ => false,
        };
        if fails {
            assert(branch_short(bs@[i as int].1, codeowners_present));
            return true;
        }
        i = i + 1;
    }
    false
}

/// The number of repositories with a release branch that falls short of the
/// full pull-request review policy.
pub fn count_repos_missing_full_pr_reviews(repos: &[&RepoContext]) -> (n: usize)
    ensures
        n == count_short(repos@, repos@.len() as int),
{
    let mut n: usize = 0;
    let mut i: usize = 0;
    while i < repos.len()
        invariant
            i <= repos@.len(),
            n == count_short(repos@, i as int),
            n <= i,
        decreases repos@.len() - i,
    {
        if is_short(repos[i]) {
            n = n + 1;
        }
        i = i + 1;
    }
    n
}

/// The organization requires the whole review policy.
pub open spec fn org_full(o: OrgContext) -> bool {
    o.rulesets.pull_request && o.rulesets.pr_dismiss_stale_reviews && o.rulesets.pr_require_last_push_approval
        && o.rulesets.pr_require_code_owner_review
}

/// The description of the current state.
pub open spec fn description_spec(org: Option<&OrgContext>, repos: Seq<&RepoContext>) -> Option<Seq<char>> {
    let total = count_inspectable(repos, repos.len() as int);
    let n = count_short(repos, repos.len() as int);
    match org {
        Some(o) => if org_full(*o) {
            if n == 0 && total > 0 {
                Some("the full pull-request review policy (approval, stale dismissal, last-push approval, code-owner review) is required by an org-level ruleset and enforced on every release branch across all "@
                    + dec(total) + " "@ + repos_word_spec(total))
            } else {
                Some("the full pull-request review policy is required by an org-level ruleset but not fully enforced on release branches in "@
                    + dec(n) + " "@ + repos_word_spec(n))
            }
        } else if n == 0 && total > 0 {
            Some("no org-level ruleset requires the full pull-request review policy, though every release branch across "@
                + dec(total) + " "@ + repos_word_spec(total) + " enforces it"@)
        } else if n > 0 {
            Some("no org-level ruleset requires the full pull-request review policy; "@ + dec(n) + " "@
                + repos_word_spec(n)
                + " miss one or more sub-requirements (stale dismissal, last-push approval, or code-owner review when CODEOWNERS is present) on release branches"@)
        } else {
            Some("no org-level ruleset requires the full pull-request review policy"@)
        },
        None => if n == 0 && total > 0 {
            Some("the full pull-request review policy is enforced on release branches across all "@ + dec(total) + " "@
                + repos_word_spec(total))
        } else if n > 0 {
            Some(dec(n) + " "@ + repos_word_spec(n)
                + " miss one or more sub-requirements of the pull-request review policy (stale dismissal, last-push approval, or code-owner review when CODEOWNERS is present) on release branches"@)
        } else {
            None
        },
    }
}

/// Whether the organization and the repositories enforce the review policy.
pub fn description(ctx: StateCtx<'_>) -> (r: Option<String>)
    ensures
        opt_view(r) == description_spec(ctx.org, ctx.repos@),
{
    let total = inspectable_branch_protection_repos(ctx.repos);
    let n = count_repos_missing_full_pr_reviews(ctx.repos);
    let mut s = String::new();
    match ctx.org {
        Some(o) => {
            let full = o.rulesets.pull_request && o.rulesets.pr_dismiss_stale_reviews
                && o.rulesets.pr_require_last_push_approval && o.rulesets.pr_require_code_owner_review;
            if full {
                if n == 0 && total > 0 {
                    s.append("the full pull-request review policy (approval, stale dismissal, last-push approval, code-owner review) is required by an org-level ruleset and enforced on every release branch across all ");
                    push_dec(&mut s, total);
                    s.append(" ");
                    s.append(repos_word(total));
                } else {
                    s.append("the full pull-request review policy is required by an org-level ruleset but not fully enforced on release branches in ");
                    push_dec(&mut s, n);
                    s.append(" ");
                    s.append(repos_word(n));
                }
            } else if n == 0 && total > 0 {
                s.append("no org-level ruleset requires the full pull-request review policy, though every release branch across ");
                push_dec(&mut s, total);
                s.append(" ");
                s.append(repos_word(total));
                s.append(" enforces it");
            } else if n > 0 {
                s.append("no org-level ruleset requires the full pull-request review policy; ");
                push_dec(&mut s, n);
                s.append(" ");
                s.append(repos_word(n));
                s.append(" miss one or more sub-requirements (stale dismissal, last-push approval, or code-owner review when CODEOWNERS is present) on release branches");
            } else {
                s.append("no org-level ruleset requires the full pull-request review policy");
            }
        },
        None => {
            if n == 0 && total > 0 {
                s.append("the full pull-request review policy is enforced on release branches across all ");
                push_dec(&mut s, total);
                s.append(" ");
                s.append(repos_word(total));
            } else if n > 0 {
                push_dec(&mut s, n);
                s.append(" ");
                s.append(repos_word(n));
                s.append(" miss one or more sub-requirements of the pull-request review policy (stale dismissal, last-push approval, or code-owner review when CODEOWNERS is present) on release branches");
            } else {
                return None;
            }
        },
    }
    Some(s)
}


/// The review policy on one protected branch that requires reviews: each
/// missing requirement fails the branch with its own reason — stale reviews
/// not dismissed, last-push approval not required, and (when the repository
/// has a CODEOWNERS file) code-owner review not required; with nothing
/// missing the branch passes. A branch that does not require reviews fails.
pub proof fn law_review_requirements(s: BranchProtectionState, codeowners_present: bool)
    ensures
        (s matches BranchProtectionState::Protected { pr_reviews: true, pr_dismiss_stale_reviews: false, .. })
            ==> (branch_spec(s, codeowners_present) matches BranchEvalView::Fail(r)
                && r.contains("stale reviews not dismissed on new push"@)),
        (s matches BranchProtectionState::Protected { pr_reviews: true, pr_require_last_push_approval: false, .. })
            ==> (branch_spec(s, codeowners_present) matches BranchEvalView::Fail(r)
                && r.contains("last-push approval not required"@)),
        (codeowners_present && s matches BranchProtectionState::Protected { pr_reviews: true, pr_require_code_owner_review: false, .. })
            ==> (branch_spec(s, codeowners_present) matches BranchEvalView::Fail(r)
                && r.contains("code-owner review not required (CODEOWNERS present)"@)),
        (s matches BranchProtectionState::Protected { pr_reviews: false, .. })
            ==> branch_spec(s, codeowners_present) is Fail,
        (s matches BranchProtectionState::Protected {
            pr_reviews: true, pr_dismiss_stale_reviews: true, pr_require_last_push_approval: true, pr_require_code_owner_review: c, ..
        } && (c || !codeowners_present)) ==> branch_spec(s, codeowners_present) == BranchEvalView::Pass,
        (s is Unprotected) ==> branch_spec(s, codeowners_present) is Fail,
{
    match s {
        BranchProtectionState::Protected { pr_reviews, pr_dismiss_stale_reviews, pr_require_last_push_approval, pr_require_code_owner_review, .. } => {
            let r = shortfalls(pr_dismiss_stale_reviews, pr_require_last_push_approval, pr_require_code_owner_review, codeowners_present);
            let a: Seq<Seq<char>> = if !pr_dismiss_stale_reviews { seq!["stale reviews not dismissed on new push"@] } else { Seq::empty() };
            let b: Seq<Seq<char>> = if !pr_require_last_push_approval { seq!["last-push approval not required"@] } else { Seq::empty() };
            let c: Seq<Seq<char>> = if codeowners_present && !pr_require_code_owner_review {
                seq!["code-owner review not required (CODEOWNERS present)"@]
            } else {
                Seq::empty()
            };
            assert(r == a + b + c);
            if !pr_dismiss_stale_reviews {
                assert(r[0] == "stale reviews not dismissed on new push"@);
            }
            if !pr_require_last_push_approval {
                assert(r[a.len() as int] == "last-push approval not required"@);
            }
            if codeowners_present && !pr_require_code_owner_review {
                assert(r[(a.len() + b.len()) as int] == "code-owner review not required (CODEOWNERS present)"@);
            }
        },
        _ => {},
    }
}

/// A release branch that misses a review requirement fails the repository,
/// wherever it stands among the release branches, and is named among its
/// failing branches.
pub proof fn law_branch_missing_reviews_fails_repo(ctx: RepoContext, i: int)
    requires
        0 <= i < ctx.branch_protections.branches@.len(),
        branch_spec(ctx.branch_protections.branches@[i].1, ctx.codeowners == FilePresence::Present) is Fail,
    ensures
        repo_spec(ctx).status == Status::Fail,
        repo_spec(ctx).failing_branches.contains(ctx.branch_protections.branches@[i].0@),
{
    let bp = ctx.branch_protections;
    let co = ctx.codeowners == FilePresence::Present;
    assert(evals_spec(bp, co)[i] == branch_spec(bp.branches@[i].1, co));
    assert(bp.names()[i] == bp.branches@[i].0@);
    law_any_failing_branch_fails(bp.names(), evals_spec(bp, co), i);
}

} // verus!
