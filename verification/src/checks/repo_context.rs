//! Everything the checks know about one repository.
use vstd::prelude::*;
use crate::checks::common::{WebhooksState, WorkflowTokenState};
pub use crate::checks::common::FilePresence;
use crate::config::Config;
use crate::support::outcome::{bare, plan_gated, with_branches, with_items, CheckOutcome, OutcomeView, Status};
use crate::support::workflows::Workflow;
use crate::text::string_views;

verus! {

/// A security feature of one repository.
#[derive(Clone, Copy, PartialEq, Eq, Debug, Structural)]
pub enum FeatureState {
    Enabled,
    Disabled,
    Unknown,
    PlanGated,
}

/// The outcome for a repository feature.
pub open spec fn feature_outcome(s: FeatureState) -> OutcomeView {
    match s {
        FeatureState::Enabled => bare(Status::Pass, "✓"@),
        FeatureState::Disabled => bare(Status::Fail, "✗"@),
        FeatureState::Unknown => bare(Status::Skipped, "?"@),
        FeatureState::PlanGated => plan_gated("N/A (plan)"@),
    }
}

impl FeatureState {
    /// Enabled passes, disabled fails, unknown is skipped, and a feature the
    /// plan does not offer is skipped as plan-gated.
    pub fn to_outcome(&self) -> (o: CheckOutcome)
        ensures
            o@ == feature_outcome(*self),
    {
        match self {
            FeatureState::Enabled => CheckOutcome::pass("✓"),
            FeatureState::Disabled => CheckOutcome::fail("✗"),
            FeatureState::Unknown => CheckOutcome::skipped("?"),
            FeatureState::PlanGated => CheckOutcome::skipped_plan_gated("N/A (plan)"),
        }
    }
}

/// The dependabot configuration file of a repository.
#[derive(Clone, Copy, PartialEq, Eq, Debug, Structural)]
pub enum DependabotConfigState {
    /// Present; says whether it tracks the `github-actions` ecosystem.
    Present { github_actions: bool },
    Missing,
    Unknown,
}

/// Whether the repository enables immutable releases.
#[derive(Clone, Copy, PartialEq, Eq, Debug, Structural)]
pub enum ReleaseImmutabilityRepoState {
    Enabled,
    Disabled,
    PlanGated,
}

/// Whether the repository requires actions to be pinned to a full SHA.
#[derive(Clone, Copy, PartialEq, Eq, Debug, Structural)]
pub enum SHAPinningState {
    Enforced,
    NotEnforced,
    Unknown,
}

/// The protection of one release branch.
#[derive(Clone, Copy, PartialEq, Eq, Debug, Structural)]
pub enum BranchProtectionState {
    Protected {
        signed_commits: bool,
        pr_reviews: bool,
        pr_dismiss_stale_reviews: bool,
        pr_require_last_push_approval: bool,
        pr_require_code_owner_review: bool,
        enforce_admins: bool,
        required_linear_history: bool,
        allow_force_pushes: bool,
        allow_deletions: bool,
    },
    Unprotected,
    NoPermission,
    PlanGated,
}

/// How one branch fared against a branch rule.
pub enum BranchEval {
    Pass,
    /// Failed, with the reasons.
    Fail(Vec<String>),
    Unknown,
    PlanGated,
}

/// The abstract value of a `BranchEval`.
pub enum BranchEvalView {
    Pass,
    Fail(Seq<Seq<char>>),
    Unknown,
    PlanGated,
}

impl View for BranchEval {
    type V = BranchEvalView;

    open spec fn view(&self) -> BranchEvalView {
        match self {
            BranchEval::Pass => BranchEvalView::Pass,
            BranchEval::Fail(r) => BranchEvalView::Fail(string_views(r@)),
            BranchEval::Unknown => BranchEvalView::Unknown,
            BranchEval::PlanGated => BranchEvalView::PlanGated,
        }
    }
}

impl BranchEval {
    /// A failure without reasons.
    pub fn fail_bare() -> (e: Self)
        ensures
            e@ == BranchEvalView::Fail(Seq::empty()),
    {
        let v: Vec<String> = Vec::new();
        assert(string_views(v@) =~= Seq::empty());
        BranchEval::Fail(v)
    }
}

/// The protection state of each release branch of a repository, by name.
pub struct BranchProtections {
    pub branches: Vec<(String, BranchProtectionState)>,
}

/// The names of the branches whose evaluation failed, in order.
pub open spec fn failing_names(names: Seq<Seq<char>>, evals: Seq<BranchEvalView>, k: int) -> Seq<Seq<char>>
    decreases k,
{
    if k <= 0 || k > names.len() || k > evals.len() {
        Seq::empty()
    } else {
        failing_names(names, evals, k - 1) + (if evals[k - 1] is Fail { seq![names[k - 1]] } else { Seq::empty() })
    }
}

/// The reasons of the failing branches, each prefixed by its branch name
/// (a failing branch without reasons contributes its name alone).
pub open spec fn failing_items(names: Seq<Seq<char>>, evals: Seq<BranchEvalView>, k: int) -> Seq<Seq<char>>
    decreases k,
{
    if k <= 0 || k > names.len() || k > evals.len() {
        Seq::empty()
    } else {
        failing_items(names, evals, k - 1) + match evals[k - 1] {
            BranchEvalView::Fail(reasons) => if reasons.len() == 0 {
                seq![names[k - 1]]
            } else {
                reasons.map_values(|r: Seq<char>| names[k - 1] + ": "@ + r)
            },
            _ => Seq::empty(),
        }
    }
}

/// Combines per-branch evaluations into one outcome: no branch is skipped,
/// any failing branch fails, then an unreadable branch skips, then a
/// plan-gated branch skips as plan-gated, and otherwise the check passes.
pub open spec fn aggregate_spec(names: Seq<Seq<char>>, evals: Seq<BranchEvalView>) -> OutcomeView {
    if names.len() == 0 {
        bare(Status::Skipped, "—"@)
    } else if exists|i: int| 0 <= i < evals.len() && evals[i] is Fail {
        with_branches(
            with_items(bare(Status::Fail, "✗"@), failing_items(names, evals, names.len() as int)),
            failing_names(names, evals, names.len() as int),
        )
    } else if exists|i: int| 0 <= i < evals.len() && evals[i] is Unknown {
        bare(Status::Skipped, "?"@)
    } else if exists|i: int| 0 <= i < evals.len() && evals[i] is PlanGated {
        plan_gated("N/A (plan)"@)
    } else {
        bare(Status::Pass, "✓"@)
    }
}

proof fn lemma_failing_names_has(names: Seq<Seq<char>>, evals: Seq<BranchEvalView>, k: int, i: int)
    requires
        0 <= i < k <= names.len(),
        k <= evals.len(),
        evals[i] is Fail,
    ensures
        failing_names(names, evals, k).contains(names[i]),
    decreases k,
{
    let prev = failing_names(names, evals, k - 1);
    if i < k - 1 {
        lemma_failing_names_has(names, evals, k - 1, i);
        let j = choose|j: int| 0 <= j < prev.len() && prev[j] == names[i];
        assert(failing_names(names, evals, k)[j] == names[i]);
    } else {
        assert(failing_names(names, evals, k) == prev + seq![names[i]]);
        assert(failing_names(names, evals, k)[prev.len() as int] == names[i]);
    }
}

/// A failing branch, wherever it stands among the branches, fails the
/// combined outcome, and it is listed among the failing branches.
pub proof fn law_any_failing_branch_fails(names: Seq<Seq<char>>, evals: Seq<BranchEvalView>, i: int)
    requires
        names.len() == evals.len(),
        0 <= i < evals.len(),
        evals[i] is Fail,
    ensures
        aggregate_spec(names, evals).status == Status::Fail,
        aggregate_spec(names, evals).failing_branches.contains(names[i]),
{
    lemma_failing_names_has(names, evals, names.len() as int, i);
}

/// Without a failing branch, the combined outcome never fails and lists no
/// failing branch.
pub proof fn law_no_failing_branch_no_failure(names: Seq<Seq<char>>, evals: Seq<BranchEvalView>)
    requires
        forall|i: int| 0 <= i < evals.len() ==> !(#[trigger] evals[i] is Fail),
    ensures
        aggregate_spec(names, evals).status != Status::Fail,
        aggregate_spec(names, evals).failing_branches.len() == 0,
{
}

/// The abstract values of a sequence of evaluations.
pub open spec fn eval_views(v: Seq<BranchEval>) -> Seq<BranchEvalView> {
    v.map_values(|e: BranchEval| e@)
}

impl BranchProtections {
    /// The branch names, in order.
    pub open spec fn names(self) -> Seq<Seq<char>> {
        self.branches@.map_values(|b: (String, BranchProtectionState)| b.0@)
    }

    /// The protection of a single branch.
    pub fn from_single(name: &str, state: BranchProtectionState) -> (b: Self)
        ensures
            b.branches@.len() == 1,
            b.branches@[0].0@ == name@,
            b.branches@[0].1 == state,
    {
        let mut branches: Vec<(String, BranchProtectionState)> = Vec::new();
        branches.push((name.to_owned(), state));
        BranchProtections { branches }
    }

    /// No release branch is known.
    pub fn none() -> (b: Self)
        ensures
            b.branches@.len() == 0,
    {
        BranchProtections { branches: Vec::new() }
    }

    /// Combines the evaluation of each branch (in branch order) into one
    /// outcome.
    pub fn aggregate(&self, evals: Vec<BranchEval>) -> (o: CheckOutcome)
        requires
            evals@.len() == self.branches@.len(),
        ensures
            o@ == aggregate_spec(self.names(), eval_views(evals@)),
    {
        let ghost names = self.names();
        let ghost ev = eval_views(evals@);
        let n = self.branches.len();
        if n == 0 {
            return CheckOutcome::skipped("—");
        }
        let mut items: Vec<String> = Vec::new();
        let mut failing: Vec<String> = Vec::new();
        let mut any_unknown = false;
        let mut any_gated = false;
        let mut i: usize = 0;
        while i < n
            invariant
                n == self.branches@.len(),
                n == evals@.len(),
                names == self.names(),
                ev == eval_views(evals@),
                i <= n,
                string_views(items@) == failing_items(names, ev, i as int),
                string_views(failing@) == failing_names(names, ev, i as int),
                (failing@.len() > 0) == exists|j: int| 0 <= j < i && ev[j] is Fail,
                any_unknown == exists|j: int| 0 <= j < i && ev[j] is Unknown,
                any_gated == exists|j: int| 0 <= j < i && ev[j] is PlanGated,
            decreases n - i,
        {
            let name = &self.branches[i].0;
            assert(names[i as int] == name@);
            assert(ev[i as int] == evals@[i as int]@);
            let ghost items_before = string_views(items@);
            let ghost failing_before = string_views(failing@);
            match &evals[i] {
                BranchEval::Fail(reasons) => {
                    failing.push(name.clone());
                    assert(string_views(failing@) =~= failing_before.push(name@));
                    if reasons.len() == 0 {
                        items.push(name.clone());
                        assert(string_views(items@) =~= items_before.push(name@));
                    } else {
                        let mut k: usize = 0;
                        while k < reasons.len()
                            invariant
                                k <= reasons@.len(),
                                string_views(items@) == items_before
                                    + string_views(reasons@).subrange(0, k as int).map_values(|r: Seq<char>| name@ + ": "@ + r),
                            decreases reasons@.len() - k,
                        {
                            let mut item = name.clone();
                            item.append(": ");
                            item.append(reasons[k].as_str());
                            let ghost before_k = string_views(items@);
                            let ghost itemv = item@;
                            assert(itemv == name@ + ": "@ + reasons@[k as int]@);
                            items.push(item);
                            assert(string_views(items@) =~= before_k.push(itemv));
                            k = k + 1;
                            assert(string_views(reasons@).subrange(0, k as int).map_values(|r: Seq<char>| name@ + ": "@ + r)
                                =~= string_views(reasons@).subrange(0, k - 1 as int).map_values(|r: Seq<char>| name@ + ": "@ + r).push(itemv));
                            assert(string_views(items@) =~= items_before
                                + string_views(reasons@).subrange(0, k as int).map_values(|r: Seq<char>| name@ + ": "@ + r));
                        }
                        assert(string_views(reasons@).subrange(0, k as int) =~= string_views(reasons@));
                    }
                },
                BranchEval::Unknown => {
                    any_unknown = true;
                },
                BranchEval::PlanGated => {
                    any_gated = true;
                },
                BranchEval::Pass => {},
            }
            i = i + 1;
            assert(string_views(items@) =~= failing_items(names, ev, i as int));
            assert(string_views(failing@) =~= failing_names(names, ev, i as int));
        }
        assert(names.len() == n);
        if failing.len() > 0 {
            CheckOutcome::fail("✗").with_items(items).with_failing_branches(failing)
        } else if any_unknown {
            CheckOutcome::skipped("?")
        } else if any_gated {
            CheckOutcome::skipped_plan_gated("N/A (plan)")
        } else {
            CheckOutcome::pass("✓")
        }
    }
}

/// The workflows of the release branches of a repository: one entry per
/// branch whose workflow directory could be read.
pub struct RepoWorkflows {
    pub branches: Vec<(String, Vec<Workflow>)>,
}

impl RepoWorkflows {
    /// Some branch has at least one workflow.
    pub open spec fn any_workflows(self) -> bool {
        exists|i: int| 0 <= i < self.branches@.len() && (#[trigger] self.branches@[i]).1@.len() > 0
    }

    /// The workflows were read and there are none.
    pub open spec fn known_empty(self) -> bool {
        self.branches@.len() > 0 && !self.any_workflows()
    }

    /// Were the workflows read, and are there none?
    pub fn is_known_empty(&self) -> (b: bool)
        ensures
            b == self.known_empty(),
    {
        !self.is_empty() && !self.has_any_workflows()
    }

    /// No branch's workflows could be read.
    pub fn is_empty(&self) -> (b: bool)
        ensures
            b == (self.branches@.len() == 0),
    {
        self.branches.len() == 0
    }

    /// The number of branches whose workflows were read.
    pub fn len(&self) -> (n: usize)
        ensures
            n == self.branches@.len(),
    {
        self.branches.len()
    }

    /// Does some branch have a workflow?
    pub fn has_any_workflows(&self) -> (b: bool)
        ensures
            b == self.any_workflows(),
    {
        let mut i: usize = 0;
        while i < self.branches.len()
            invariant
                i <= self.branches@.len(),
                forall|j: int| 0 <= j < i ==> (#[trigger] self.branches@[j]).1@.len() == 0,
            decreases self.branches@.len() - i,
        {
            if self.branches[i].1.len() > 0 {
                assert(self.branches@[i as int].1@.len() > 0);
                return true;
            }
            i = i + 1;
        }
        false
    }
}

/// The admin flag of the viewer on a listed repository.
pub struct RepoPermissions {
    pub admin: bool,
}

/// A repository as the listing endpoints return it.
pub struct RepoListing {
    pub name: String,
    pub archived: bool,
    pub fork: bool,
    pub private: bool,
    pub default_branch: Option<String>,
    pub permissions: Option<RepoPermissions>,
}

/// Everything the checks read about one repository.
pub struct RepoContext {
    pub name: String,
    pub archived: bool,
    pub private: bool,
    pub default_branch: Option<String>,
    pub branch_protections: BranchProtections,
    pub workflow_token: WorkflowTokenState,
    pub secret_scanning: FeatureState,
    pub push_protection: FeatureState,
    pub workflows: RepoWorkflows,
    pub security_md: FilePresence,
    pub codeowners: FilePresence,
    pub dependabot_config: DependabotConfigState,
    pub webhooks: WebhooksState,
    pub direct_collaborators: Vec<String>,
    pub config: Config,
    pub release_immutability: ReleaseImmutabilityRepoState,
    pub sha_pinning: SHAPinningState,
}

} // verus!
