//! Running the checks: which ones apply, how each is evaluated across the
//! organization and its repositories, and how the outcomes add up to one
//! result per check.
pub mod access;
pub mod checks_panel;
pub mod fix;
pub mod order;
pub mod panels;

use vstd::prelude::*;
use crate::checks::StateCtx;
use crate::checks::catalog::{all, all_spec, Check, Scope};
use crate::checks::org_context::{OrgContext, OrgPlan};
use crate::checks::repo_context::RepoContext;
use crate::config::CheckState;
use crate::support::outcome::{OutcomeView, Status};
use crate::text::{contains_string, dec, opt_view, push_dec, string_views};

verus! {

/// The kind of GitHub account being audited.
#[derive(Clone, Copy, PartialEq, Eq, Debug, Structural)]
pub enum AccountKind {
    Organization,
    User,
}

/// What the checks run against: the organization (if the account is one) and
/// the repositories.
pub struct CheckContext<'a> {
    pub org: Option<&'a OrgContext>,
    pub repos: &'a [RepoContext],
}

/// Why a check was skipped, where that is more than "no data".
#[derive(Clone, Copy, PartialEq, Eq, Debug, Structural)]
pub enum SkipReason {
    /// Every repository the check applies to switched it off in `moat.toml`.
    DisabledByConfig,
}

/// The result of one check over the whole account.
pub struct CheckResult {
    pub check: Check,
    pub status: Status,
    pub summary: String,
    pub description: Option<String>,
    pub how_to_fix: &'static str,
    /// One entry per failing repository (one per failing branch for
    /// branch-aware checks), parallel to the two vectors below.
    pub affected_repos: Vec<String>,
    pub affected_repo_branches: Vec<Option<String>>,
    pub affected_repo_release_branches: Vec<Vec<String>>,
    /// The organization's default failed or warned.
    pub org_default_issue: bool,
    /// Only the organization's default is at fault; no repository is.
    pub org_only_issue: bool,
    /// Private repositories skipped because the plan does not offer the
    /// feature.
    pub private_repos_excluded_by_plan: usize,
    /// Private repositories the check evaluated.
    pub private_repos_in_scope: usize,
    /// Private repositories the check does not apply to.
    pub private_repos_filtered_out: usize,
    /// Repositories skipped for lack of data.
    pub repos_skipped_no_data: usize,
    /// What the last repository skipped for lack of data was missing.
    pub no_data_label: Option<String>,
    pub skip_reason: Option<SkipReason>,
}

/// The process exit code: 1 when some check failed, 0 otherwise.
pub open spec fn exit_code_spec(statuses: Seq<Status>) -> int {
    if exists|i: int| 0 <= i < statuses.len() && statuses[i] == Status::Fail { 1 } else { 0 }
}

/// The statuses of the results, in order.
pub open spec fn statuses(results: Seq<CheckResult>) -> Seq<Status> {
    results.map_values(|r: CheckResult| r.status)
}

/// 1 when any check failed, 0 otherwise.
pub fn exit_code(results: &[CheckResult]) -> (code: i32)
    ensures
        code == exit_code_spec(statuses(results@)),
{
    let mut i: usize = 0;
    while i < results.len()
        invariant
            i <= results@.len(),
            forall|j: int| 0 <= j < i ==> statuses(results@)[j] != Status::Fail,
        decreases results@.len() - i,
    {
        if results[i].status == Status::Fail {
            assert(statuses(results@)[i as int] == Status::Fail);
            return 1;
        }
        i = i + 1;
    }
    0
}

/// The repository counts towards the check: it is not archived and the check
/// applies to it.
pub open spec fn in_scope(c: Check, r: RepoContext) -> bool {
    !r.archived && (!c.public_only_spec() || !r.private)
}

/// The repository switched the check off in its `moat.toml`.
pub open spec fn switched_off(c: Check, r: RepoContext) -> bool {
    r.config.state(c.id_spec()) == Some(CheckState::Off)
}

/// What scanning the repositories collects for one check.
pub struct Scan<'a> {
    pub affected: Seq<Seq<char>>,
    pub branches: Seq<Option<Seq<char>>>,
    pub release: Seq<Seq<Seq<char>>>,
    pub passed: nat,
    pub warned: nat,
    pub skipped: nat,
    pub applicable: nat,
    pub disabled: nat,
    pub active: Seq<&'a RepoContext>,
    pub private_in_scope: nat,
    pub private_filtered_out: nat,
    pub plan_excluded: nat,
    pub no_data: nat,
    pub no_data_label: Option<Seq<char>>,
}

/// Nothing scanned yet.
pub open spec fn empty_scan<'a>() -> Scan<'a> {
    Scan {
        affected: Seq::empty(),
        branches: Seq::empty(),
        release: Seq::empty(),
        passed: 0,
        warned: 0,
        skipped: 0,
        applicable: 0,
        disabled: 0,
        active: Seq::empty(),
        private_in_scope: 0,
        private_filtered_out: 0,
        plan_excluded: 0,
        no_data: 0,
        no_data_label: None,
    }
}

/// The characters of an optional string.
pub open spec fn opt_chars(o: Option<String>) -> Option<Seq<char>> {
    match o {
        Some(s) => Some(s@),
        None => None,
    }
}

/// The affected entries for a failing repository: one per failing branch, or
/// one for the repository (at its default branch, with its release branches
/// for ruleset-based checks).
pub open spec fn record_failure<'a>(c: Check, s: Scan<'a>, r: RepoContext, fb: Seq<Seq<char>>) -> Scan<'a> {
    if fb.len() > 0 {
        Scan {
            affected: s.affected + Seq::new(fb.len(), |_i: int| r.name@),
            branches: s.branches + fb.map_values(|b: Seq<char>| Some(b)),
            release: s.release + Seq::new(fb.len(), |_i: int| Seq::<Seq<char>>::empty()),
            ..s
        }
    } else {
        Scan {
            affected: s.affected.push(r.name@),
            branches: s.branches.push(opt_chars(r.default_branch)),
            release: s.release.push(
                if c.ruleset_based_spec() { r.branch_protections.names() } else { Seq::<Seq<char>>::empty() },
            ),
            ..s
        }
    }
}

/// Counts one evaluated repository's outcome.
pub open spec fn record_outcome<'a>(c: Check, s: Scan<'a>, r: RepoContext, o: OutcomeView) -> Scan<'a> {
    let s1 = Scan {
        plan_excluded: if o.plan_gated && r.private { s.plan_excluded + 1 } else { s.plan_excluded },
        no_data: if o.no_data_label is Some { s.no_data + 1 } else { s.no_data },
        no_data_label: if o.no_data_label is Some { o.no_data_label } else { s.no_data_label },
        ..s
    };
    match o.status {
        Status::Fail => record_failure(c, s1, r, o.failing_branches),
        Status::Pass => Scan { passed: s1.passed + 1, ..s1 },
        Status::Warn => Scan { warned: s1.warned + 1, ..s1 },
        Status::Skipped => Scan { skipped: s1.skipped + 1, ..s1 },
    }
}

/// Scans one more repository: archived ones and those the check does not
/// apply to are passed over, those that switched the check off are counted
/// as disabled, and the others are evaluated.
pub open spec fn scan_step<'a>(c: Check, s: Scan<'a>, r: &'a RepoContext) -> Scan<'a> {
    if r.archived {
        s
    } else if !in_scope(c, *r) {
        Scan { private_filtered_out: s.private_filtered_out + 1, ..s }
    } else if switched_off(c, *r) {
        Scan { disabled: s.disabled + 1, ..s }
    } else {
        let s1 = Scan {
            applicable: s.applicable + 1,
            active: s.active.push(r),
            private_in_scope: if r.private { s.private_in_scope + 1 } else { s.private_in_scope },
            ..s
        };
        record_outcome(c, s1, *r, c.repo_eval_spec(*r)->0)
    }
}

/// The scan of `repos[..k]`.
pub open spec fn scan<'a>(c: Check, repos: Seq<RepoContext>, k: int) -> Scan<'a>
    decreases k,
{
    if k <= 0 || k > repos.len() {
        empty_scan()
    } else {
        scan_step(c, scan(c, repos, k - 1), &repos[k - 1])
    }
}

/// The scan as it is built.
pub struct ScanState<'a> {
    pub affected: Vec<String>,
    pub branches: Vec<Option<String>>,
    pub release: Vec<Vec<String>>,
    pub passed: usize,
    pub warned: usize,
    pub skipped: usize,
    pub applicable: usize,
    pub disabled: usize,
    pub active: Vec<&'a RepoContext>,
    pub private_in_scope: usize,
    pub private_filtered_out: usize,
    pub plan_excluded: usize,
    pub no_data: usize,
    pub no_data_label: Option<String>,
}

/// The characters of each optional string.
pub open spec fn opt_views(v: Seq<Option<String>>) -> Seq<Option<Seq<char>>> {
    v.map_values(|o: Option<String>| opt_chars(o))
}

/// The characters of each string of each vector.
pub open spec fn nested_views(v: Seq<Vec<String>>) -> Seq<Seq<Seq<char>>> {
    v.map_values(|w: Vec<String>| string_views(w@))
}

impl<'a> ScanState<'a> {
    /// The abstract scan.
    pub open spec fn scan_view(&self) -> Scan<'a> {
        Scan {
            affected: string_views(self.affected@),
            branches: opt_views(self.branches@),
            release: nested_views(self.release@),
            passed: self.passed as nat,
            warned: self.warned as nat,
            skipped: self.skipped as nat,
            applicable: self.applicable as nat,
            disabled: self.disabled as nat,
            active: self.active@,
            private_in_scope: self.private_in_scope as nat,
            private_filtered_out: self.private_filtered_out as nat,
            plan_excluded: self.plan_excluded as nat,
            no_data: self.no_data as nat,
            no_data_label: opt_chars(self.no_data_label),
        }
    }
}

proof fn lemma_scan_counts(c: Check, repos: Seq<RepoContext>, k: int)
    requires
        0 <= k <= repos.len(),
    ensures
        ({
            let s = scan(c, repos, k);
            &&& s.passed + s.warned + s.skipped <= s.applicable
            &&& s.applicable + s.disabled + s.private_filtered_out <= k
            &&& s.private_in_scope <= s.applicable
            &&& s.plan_excluded <= s.applicable
            &&& s.no_data <= s.applicable
            &&& s.affected.len() == s.branches.len()
            &&& s.affected.len() == s.release.len()
        }),
    decreases k,
{
    if k > 0 {
        lemma_scan_counts(c, repos, k - 1);
    }
}

fn clone_opt(o: &Option<String>) -> (r: Option<String>)
    ensures
        opt_chars(r) == opt_chars(*o),
{
    match o {
        Some(s) => Some(s.clone()),
        None => None,
    }
}

fn release_names(c: Check, r: &RepoContext) -> (v: Vec<String>)
    ensures
        string_views(v@) == (if c.ruleset_based_spec() { r.branch_protections.names() } else { Seq::<Seq<char>>::empty() }),
{
    let mut v: Vec<String> = Vec::new();
    if c.ruleset_based() {
        let bs = &r.branch_protections.branches;
        let mut i: usize = 0;
        while i < bs.len()
            invariant
                i <= bs@.len(),
                bs@ == r.branch_protections.branches@,
                string_views(v@) == r.branch_protections.names().subrange(0, i as int),
            decreases bs@.len() - i,
        {
            let ghost before = string_views(v@);
            v.push(bs[i].0.clone());
            assert(string_views(v@) =~= before.push(bs@[i as int].0@));
            i = i + 1;
            assert(string_views(v@) =~= r.branch_protections.names().subrange(0, i as int));
        }
        assert(r.branch_protections.names().subrange(0, i as int) =~= r.branch_protections.names());
    } else {
        assert(string_views(v@) =~= Seq::<Seq<char>>::empty());
    }
    v
}

fn record_failure_exec<'a>(c: Check, st: &mut ScanState<'a>, r: &RepoContext, failing: &Vec<String>)
    ensures
        final(st).scan_view() == record_failure(c, old(st).scan_view(), *r, string_views(failing@)),
        final(st).passed == old(st).passed,
        final(st).warned == old(st).warned,
        final(st).skipped == old(st).skipped,
        final(st).applicable == old(st).applicable,
        final(st).disabled == old(st).disabled,
        final(st).active == old(st).active,
{
    let ghost s0 = st.scan_view();
    let ghost fb = string_views(failing@);
    if failing.len() > 0 {
        let mut k: usize = 0;
        while k < failing.len()
            invariant
                k <= failing@.len(),
                fb == string_views(failing@),
                string_views(st.affected@) == s0.affected + Seq::new(k as nat, |_i: int| r.name@),
                opt_views(st.branches@) == s0.branches + fb.subrange(0, k as int).map_values(|b: Seq<char>| Some(b)),
                nested_views(st.release@) == s0.release + Seq::new(k as nat, |_i: int| Seq::<Seq<char>>::empty()),
                st.passed == old(st).passed,
                st.warned == old(st).warned,
                st.skipped == old(st).skipped,
                st.applicable == old(st).applicable,
                st.disabled == old(st).disabled,
                st.active == old(st).active,
                st.private_in_scope == old(st).private_in_scope,
                st.private_filtered_out == old(st).private_filtered_out,
                st.plan_excluded == old(st).plan_excluded,
                st.no_data == old(st).no_data,
                opt_chars(st.no_data_label) == opt_chars(old(st).no_data_label),
                s0 == old(st).scan_view(),
            decreases failing@.len() - k,
        {
            let ghost a0 = string_views(st.affected@);
            let ghost b0 = opt_views(st.branches@);
            let ghost r0 = nested_views(st.release@);
            st.affected.push(r.name.clone());
            st.branches.push(Some(failing[k].clone()));
            let empty: Vec<String> = Vec::new();
            assert(string_views(empty@) =~= Seq::<Seq<char>>::empty());
            st.release.push(empty);
            assert(string_views(st.affected@) =~= a0.push(r.name@));
            assert(opt_views(st.branches@) =~= b0.push(Some(fb[k as int])));
            assert(nested_views(st.release@) =~= r0.push(Seq::<Seq<char>>::empty()));
            k = k + 1;
            assert(string_views(st.affected@) =~= s0.affected + Seq::new(k as nat, |_i: int| r.name@));
            assert(fb.subrange(0, k as int).map_values(|b: Seq<char>| Some(b))
                =~= fb.subrange(0, k - 1 as int).map_values(|b: Seq<char>| Some(b)).push(Some(fb[k - 1])));
            assert(nested_views(st.release@) =~= s0.release + Seq::new(k as nat, |_i: int| Seq::<Seq<char>>::empty()));
        }
        assert(fb.subrange(0, k as int) =~= fb);
    } else {
        let ghost a0 = string_views(st.affected@);
        let ghost b0 = opt_views(st.branches@);
        let ghost r0 = nested_views(st.release@);
        st.affected.push(r.name.clone());
        st.branches.push(clone_opt(&r.default_branch));
        st.release.push(release_names(c, r));
        assert(string_views(st.affected@) =~= a0.push(r.name@));
        assert(opt_views(st.branches@) =~= b0.push(opt_chars(r.default_branch)));
        assert(nested_views(st.release@) =~= r0.push(
            if c.ruleset_based_spec() { r.branch_protections.names() } else { Seq::<Seq<char>>::empty() }));
    }
}

/// Scans the repositories for a check that evaluates repositories.
fn scan_repos<'a>(c: Check, repos: &'a [RepoContext]) -> (st: ScanState<'a>)
    requires
        c.has_repo_eval_spec(),
    ensures
        st.scan_view() == scan(c, repos@, repos@.len() as int),
{
    let mut st = ScanState {
        affected: Vec::new(),
        branches: Vec::new(),
        release: Vec::new(),
        passed: 0,
        warned: 0,
        skipped: 0,
        applicable: 0,
        disabled: 0,
        active: Vec::new(),
        private_in_scope: 0,
        private_filtered_out: 0,
        plan_excluded: 0,
        no_data: 0,
        no_data_label: None,
    };
    assert(string_views(st.affected@) =~= Seq::<Seq<char>>::empty());
    assert(opt_views(st.branches@) =~= Seq::<Option<Seq<char>>>::empty());
    assert(nested_views(st.release@) =~= Seq::<Seq<Seq<char>>>::empty());
    assert(st.active@ =~= Seq::<&RepoContext>::empty());
    assert(st.scan_view() == empty_scan::<'a>());
    let mut i: usize = 0;
    while i < repos.len()
        invariant
            i <= repos@.len(),
            c.has_repo_eval_spec(),
            st.scan_view() == scan(c, repos@, i as int),
        decreases repos@.len() - i,
    {
        proof { lemma_scan_counts(c, repos@, i as int); }
        let ghost s0 = st.scan_view();
        let r = &repos[i];
        if r.archived {
        } else if !c.applies_to_repo(r) {
            st.private_filtered_out = st.private_filtered_out + 1;
        } else if r.config.is_off(c.id()) {
            st.disabled = st.disabled + 1;
        } else {
            st.applicable = st.applicable + 1;
            let ghost a0 = st.active@;
            st.active.push(r);
            assert(st.active@ =~= a0.push(r));
            if r.private {
                st.private_in_scope = st.private_in_scope + 1;
            }
            let ghost s1 = st.scan_view();
            match c.repo_eval(r) {
                Some(o) => {
                    if o.plan_gated && r.private {
                        st.plan_excluded = st.plan_excluded + 1;
                    }
                    match &o.no_data_label {
                        Some(l) => {
                            st.no_data = st.no_data + 1;
                            st.no_data_label = Some(l.clone());
                        },
                        None => {},
                    }
                    match o.status {
                        Status::Fail => {
                            record_failure_exec(c, &mut st, r, &o.failing_branches);
                        },
                        Status::Pass => {
                            st.passed = st.passed + 1;
                        },
                        Status::Warn => {
                            st.warned = st.warned + 1;
                        },
                        Status::Skipped => {
                            st.skipped = st.skipped + 1;
                        },
                    }
                },
                None => {},
            }
        }
        i = i + 1;
        assert(st.scan_view() =~= scan(c, repos@, i as int));
    }
    st
}

/// The abstract value of a result.
pub struct ResultView {
    pub check: Check,
    pub status: Status,
    pub summary: Seq<char>,
    pub description: Option<Seq<char>>,
    pub how_to_fix: Seq<char>,
    pub affected_repos: Seq<Seq<char>>,
    pub affected_repo_branches: Seq<Option<Seq<char>>>,
    pub affected_repo_release_branches: Seq<Seq<Seq<char>>>,
    pub org_default_issue: bool,
    pub org_only_issue: bool,
    pub private_repos_excluded_by_plan: nat,
    pub private_repos_in_scope: nat,
    pub private_repos_filtered_out: nat,
    pub repos_skipped_no_data: nat,
    pub no_data_label: Option<Seq<char>>,
    pub skip_reason: Option<SkipReason>,
}

impl View for CheckResult {
    type V = ResultView;

    open spec fn view(&self) -> ResultView {
        ResultView {
            check: self.check,
            status: self.status,
            summary: self.summary@,
            description: opt_chars(self.description),
            how_to_fix: self.how_to_fix@,
            affected_repos: string_views(self.affected_repos@),
            affected_repo_branches: opt_views(self.affected_repo_branches@),
            affected_repo_release_branches: nested_views(self.affected_repo_release_branches@),
            org_default_issue: self.org_default_issue,
            org_only_issue: self.org_only_issue,
            private_repos_excluded_by_plan: self.private_repos_excluded_by_plan as nat,
            private_repos_in_scope: self.private_repos_in_scope as nat,
            private_repos_filtered_out: self.private_repos_filtered_out as nat,
            repos_skipped_no_data: self.repos_skipped_no_data as nat,
            no_data_label: opt_chars(self.no_data_label),
            skip_reason: self.skip_reason,
        }
    }
}

/// The organization's outcome for the check, when there is an organization
/// and the check looks at it.
pub open spec fn org_outcome_spec(c: Check, org: Option<&OrgContext>) -> Option<OutcomeView> {
    match org {
        Some(o) => c.org_eval_spec(*o),
        None => None,
    }
}

/// The optional outcome has the given status.
pub open spec fn has_status(o: Option<OutcomeView>, s: Status) -> bool {
    match o {
        Some(v) => v.status == s,
        None => false,
    }
}

/// The number of distinct values among `s[..k]`.
pub open spec fn distinct_count(s: Seq<Seq<char>>, k: int) -> nat
    decreases k,
{
    if k <= 0 || k > s.len() {
        0
    } else {
        distinct_count(s, k - 1) + if s.subrange(0, k - 1).contains(s[k - 1]) { 0nat } else { 1nat }
    }
}

/// `a - b`, or 0 when `b` is larger.
pub open spec fn saturating_sub(a: nat, b: nat) -> nat {
    if a >= b { (a - b) as nat } else { 0 }
}

/// The overall status: a failing repository, then a warning repository, then
/// a check switched off everywhere, then the organization's failure or
/// warning, then any pass; otherwise skipped when nothing was evaluated or
/// something was skipped, and passing if not.
pub open spec fn status_spec(
    any_repo_fail: bool,
    any_repo_warn: bool,
    all_repos_disabled: bool,
    org_failed: bool,
    org_warned: bool,
    org_passed: bool,
    any_repo_pass: bool,
    org_skipped: bool,
    repo_skipped: nat,
    repo_applicable: nat,
) -> Status {
    if any_repo_fail {
        Status::Fail
    } else if any_repo_warn {
        Status::Warn
    } else if all_repos_disabled {
        Status::Skipped
    } else if org_failed {
        Status::Fail
    } else if org_warned {
        Status::Warn
    } else if org_passed || any_repo_pass {
        Status::Pass
    } else if org_skipped || repo_skipped > 0 || repo_applicable == 0 {
        Status::Skipped
    } else {
        Status::Pass
    }
}

/// The summary shown beside the check.
pub open spec fn summary_spec(
    c: Check,
    failing_repos: nat,
    repo_applicable: nat,
    status: Status,
    active_total: nat,
    org_only_issue: bool,
) -> Seq<char> {
    let noun = if c.public_only_spec() { "public repos"@ } else { "repos"@ };
    let denom = if c.has_repo_eval_spec() { repo_applicable } else { active_total };
    if c.scope_spec() == Scope::Org {
        "org-wide"@
    } else if active_total == 0 {
        Seq::empty()
    } else if org_only_issue && (status == Status::Warn || status == Status::Fail) {
        dec(active_total) + "/"@ + dec(active_total) + " enabled · default policy missing"@
    } else {
        match status {
            Status::Fail => dec(failing_repos) + "/"@ + dec(denom) + " "@ + noun + " failing"@,
            Status::Pass => dec(denom) + "/"@ + dec(denom) + " "@ + noun + " passing"@,
            Status::Warn => dec(denom) + " "@ + noun + " with warnings"@,
            Status::Skipped => Seq::empty(),
        }
    }
}

/// The result of check `c` over the organization and the repositories, of
/// which `active_total` are not archived.
pub open spec fn evaluate_spec(c: Check, org: Option<&OrgContext>, repos: Seq<RepoContext>, active_total: nat) -> ResultView {
    let s = if c.has_repo_eval_spec() { scan(c, repos, repos.len() as int) } else { empty_scan() };
    let oo = org_outcome_spec(c, org);
    let plan_free = match org {
        Some(o) => o.plan == OrgPlan::Free,
        None => false,
    };
    let org_failed0 = has_status(oo, Status::Fail);
    let org_warned0 = has_status(oo, Status::Warn);
    // Org rulesets need a paid plan: on a free plan an org-default finding of
    // a ruleset-based check that no repository shares is not actionable.
    let suppressed = plan_free && c.ruleset_based_spec() && c.has_repo_eval_spec()
        && (org_failed0 || org_warned0) && s.affected.len() == 0 && s.warned == 0;
    let org_failed = org_failed0 && !suppressed;
    let org_warned = org_warned0 && !suppressed;
    let any_repo_fail = s.affected.len() > 0;
    let any_repo_warn = s.warned > 0;
    let failing = distinct_count(s.affected, s.affected.len() as int);
    let all_disabled = c.has_repo_eval_spec() && s.passed + s.warned + failing == 0 && s.disabled > 0;
    let status = status_spec(
        any_repo_fail,
        any_repo_warn,
        all_disabled,
        org_failed,
        org_warned,
        has_status(oo, Status::Pass),
        s.passed > 0,
        has_status(oo, Status::Skipped),
        s.skipped,
        s.applicable,
    );
    let org_only = (org_failed || org_warned) && !any_repo_fail && !any_repo_warn;
    ResultView {
        check: c,
        status,
        summary: summary_spec(c, failing, saturating_sub(s.applicable, s.skipped), status, active_total, org_only),
        description: c.description_spec(org, s.active),
        how_to_fix: c.how_to_fix_spec(org),
        affected_repos: s.affected,
        affected_repo_branches: s.branches,
        affected_repo_release_branches: s.release,
        org_default_issue: org_failed || org_warned,
        org_only_issue: org_only,
        private_repos_excluded_by_plan: s.plan_excluded,
        private_repos_in_scope: s.private_in_scope,
        private_repos_filtered_out: s.private_filtered_out,
        repos_skipped_no_data: s.no_data,
        no_data_label: s.no_data_label,
        skip_reason: if all_disabled { Some(SkipReason::DisabledByConfig) } else { None },
    }
}

fn prefix_contains(v: &Vec<String>, k: usize, s: &str) -> (b: bool)
    requires
        k <= v@.len(),
    ensures
        b == string_views(v@).subrange(0, k as int).contains(s@),
{
    let mut i: usize = 0;
    while i < k
        invariant
            i <= k <= v@.len(),
            forall|j: int| 0 <= j < i ==> string_views(v@)[j] != s@,
        decreases k - i,
    {
        if crate::text::str_eq(v[i].as_str(), s) {
            assert(string_views(v@).subrange(0, k as int)[i as int] == s@);
            return true;
        }
        i = i + 1;
    }
    assert forall|j: int| 0 <= j < k implies string_views(v@).subrange(0, k as int)[j] != s@ by {
        assert(string_views(v@).subrange(0, k as int)[j] == string_views(v@)[j]);
    }
    false
}

/// The number of distinct names in `v`.
pub(crate) fn count_distinct(v: &Vec<String>) -> (n: usize)
    ensures
        n == distinct_count(string_views(v@), v@.len() as int),
{
    let mut n: usize = 0;
    let mut i: usize = 0;
    while i < v.len()
        invariant
            i <= v@.len(),
            n == distinct_count(string_views(v@), i as int),
            n <= i,
        decreases v@.len() - i,
    {
        if !prefix_contains(v, i, v[i].as_str()) {
            n = n + 1;
        }
        i = i + 1;
    }
    n
}

fn build_summary(
    c: Check,
    failing_repos: usize,
    repo_applicable: usize,
    status: Status,
    active_total: usize,
    org_only_issue: bool,
) -> (r: String)
    ensures
        r@ == summary_spec(c, failing_repos as nat, repo_applicable as nat, status, active_total as nat, org_only_issue),
{
    let mut s = String::new();
    if c.scope() == Scope::Org {
        s.append("org-wide");
        return s;
    }
    if active_total == 0 {
        return s;
    }
    let noun = c.repo_noun();
    if org_only_issue && (status == Status::Warn || status == Status::Fail) {
        push_dec(&mut s, active_total);
        s.append("/");
        push_dec(&mut s, active_total);
        s.append(" enabled · default policy missing");
        return s;
    }
    let denom = if c.has_repo_eval() { repo_applicable } else { active_total };
    match status {
        Status::Fail => {
            push_dec(&mut s, failing_repos);
            s.append("/");
            push_dec(&mut s, denom);
            s.append(" ");
            s.append(noun);
            s.append(" failing");
        },
        Status::Pass => {
            push_dec(&mut s, denom);
            s.append("/");
            push_dec(&mut s, denom);
            s.append(" ");
            s.append(noun);
            s.append(" passing");
        },
        Status::Warn => {
            push_dec(&mut s, denom);
            s.append(" ");
            s.append(noun);
            s.append(" with warnings");
        },
        Status::Skipped => {},
    }
    s
}

fn status_of(o: &Option<crate::support::outcome::CheckOutcome>, s: Status) -> (b: bool)
    ensures
        b == has_status(crate::checks::catalog::opt_outcome(*o), s),
{
    match o {
        Some(v) => v.status == s,
        None => false,
    }
}

/// Evaluates one check over the organization and the repositories, of which
/// `active_total` are not archived.
pub fn evaluate(c: Check, ctx: &CheckContext<'_>, active_total: usize) -> (r: CheckResult)
    ensures
        r@ == evaluate_spec(c, ctx.org, ctx.repos@, active_total as nat),
{
    let org_outcome = match ctx.org {
        Some(o) => c.org_eval(o),
        None => None,
    };
    let st = if c.has_repo_eval() {
        scan_repos(c, ctx.repos)
    } else {
        let st = ScanState {
            affected: Vec::new(),
            branches: Vec::new(),
            release: Vec::new(),
            passed: 0,
            warned: 0,
            skipped: 0,
            applicable: 0,
            disabled: 0,
            active: Vec::new(),
            private_in_scope: 0,
            private_filtered_out: 0,
            plan_excluded: 0,
            no_data: 0,
            no_data_label: None,
        };
        assert(string_views(st.affected@) =~= Seq::<Seq<char>>::empty());
        assert(opt_views(st.branches@) =~= Seq::<Option<Seq<char>>>::empty());
        assert(nested_views(st.release@) =~= Seq::<Seq<Seq<char>>>::empty());
        assert(st.active@ =~= Seq::<&RepoContext>::empty());
        st
    };
    let ghost s = st.scan_view();
    assert(s == (if c.has_repo_eval_spec() { scan(c, ctx.repos@, ctx.repos@.len() as int) } else { empty_scan() }));
    proof {
        if c.has_repo_eval_spec() {
            lemma_scan_counts(c, ctx.repos@, ctx.repos@.len() as int);
        }
    }
    let plan_free = match ctx.org {
        Some(o) => o.plan == OrgPlan::Free,
        None => false,
    };
    let org_failed0 = status_of(&org_outcome, Status::Fail);
    let org_warned0 = status_of(&org_outcome, Status::Warn);
    let suppressed = plan_free && c.ruleset_based() && c.has_repo_eval()
        && (org_failed0 || org_warned0) && st.affected.len() == 0 && st.warned == 0;
    let org_failed = org_failed0 && !suppressed;
    let org_warned = org_warned0 && !suppressed;
    let org_passed = status_of(&org_outcome, Status::Pass);
    let org_skipped = status_of(&org_outcome, Status::Skipped);
    let any_repo_fail = st.affected.len() > 0;
    let any_repo_warn = st.warned > 0;
    let any_repo_pass = st.passed > 0;
    let failing = count_distinct(&st.affected);
    assert(st.affected@.len() == s.affected.len());
    proof {
        lemma_distinct_le(s.affected, s.affected.len() as int);
    }
    let all_disabled = c.has_repo_eval() && st.passed == 0 && st.warned == 0 && failing == 0 && st.disabled > 0;
    let status = if any_repo_fail {
        Status::Fail
    } else if any_repo_warn {
        Status::Warn
    } else if all_disabled {
        Status::Skipped
    } else if org_failed {
        Status::Fail
    } else if org_warned {
        Status::Warn
    } else if org_passed || any_repo_pass {
        Status::Pass
    } else if org_skipped || st.skipped > 0 || st.applicable == 0 {
        Status::Skipped
    } else {
        Status::Pass
    };
    let org_only = (org_failed || org_warned) && !any_repo_fail && !any_repo_warn;
    let repo_applicable = if st.applicable >= st.skipped { st.applicable - st.skipped } else { 0 };
    let summary = build_summary(c, failing, repo_applicable, status, active_total, org_only);
    let description = c.description(StateCtx { org: ctx.org, repos: st.active.as_slice() });
    let how_to_fix = c.how_to_fix(StateCtx { org: ctx.org, repos: st.active.as_slice() });
    CheckResult {
        check: c,
        status,
        summary,
        description,
        how_to_fix,
        affected_repos: st.affected,
        affected_repo_branches: st.branches,
        affected_repo_release_branches: st.release,
        org_default_issue: org_failed || org_warned,
        org_only_issue: org_only,
        private_repos_excluded_by_plan: st.plan_excluded,
        private_repos_in_scope: st.private_in_scope,
        private_repos_filtered_out: st.private_filtered_out,
        repos_skipped_no_data: st.no_data,
        no_data_label: st.no_data_label,
        skip_reason: if all_disabled { Some(SkipReason::DisabledByConfig) } else { None },
    }
}

proof fn lemma_distinct_le(s: Seq<Seq<char>>, k: int)
    requires
        0 <= k <= s.len(),
    ensures
        distinct_count(s, k) <= k,
    decreases k,
{
    if k > 0 {
        lemma_distinct_le(s, k - 1);
    }
}

/// Checks that look only at the organization need one; the others always
/// run.
pub open spec fn scope_matches(scope: Scope, has_org: bool) -> bool {
    match scope {
        Scope::Org => has_org,
        _ => true,
    }
}

/// A check runs when its scope matches and, if it is limited to
/// organizations, an organization is audited.
pub open spec fn runs(c: Check, has_org: bool) -> bool {
    scope_matches(c.scope_spec(), has_org) && (!c.org_only_spec() || has_org)
}

/// The checks of `checks[..k]` that run, in order.
pub open spec fn selected(checks: Seq<Check>, has_org: bool, k: int) -> Seq<Check>
    decreases k,
{
    if k <= 0 || k > checks.len() {
        Seq::empty()
    } else {
        selected(checks, has_org, k - 1) + if runs(checks[k - 1], has_org) {
            seq![checks[k - 1]]
        } else {
            Seq::empty()
        }
    }
}

/// How many of `repos[..k]` are not archived.
pub open spec fn active_count(repos: Seq<RepoContext>, k: int) -> nat
    decreases k,
{
    if k <= 0 || k > repos.len() {
        0
    } else {
        active_count(repos, k - 1) + if repos[k - 1].archived { 0nat } else { 1nat }
    }
}

/// The results of a run: one per check that runs, in catalog order.
pub open spec fn run_spec(org: Option<&OrgContext>, repos: Seq<RepoContext>) -> Seq<ResultView> {
    let checks = selected(all_spec(), org is Some, all_spec().len() as int);
    let total = active_count(repos, repos.len() as int);
    checks.map_values(|c: Check| evaluate_spec(c, org, repos, total))
}

/// The abstract values of the results.
pub open spec fn result_views(v: Seq<CheckResult>) -> Seq<ResultView> {
    v.map_values(|r: CheckResult| r@)
}

/// Runs every check that applies to the context, in catalog order.
pub fn run_checks(ctx: &CheckContext<'_>) -> (results: Vec<CheckResult>)
    ensures
        result_views(results@) == run_spec(ctx.org, ctx.repos@),
{
    let mut active_total: usize = 0;
    let mut i: usize = 0;
    while i < ctx.repos.len()
        invariant
            i <= ctx.repos@.len(),
            active_total == active_count(ctx.repos@, i as int),
            active_total <= i,
        decreases ctx.repos@.len() - i,
    {
        if !ctx.repos[i].archived {
            active_total = active_total + 1;
        }
        i = i + 1;
    }
    let checks = all();
    let has_org = ctx.org.is_some();
    let ghost chosen = selected(all_spec(), has_org, all_spec().len() as int);
    let mut results: Vec<CheckResult> = Vec::new();
    let mut k: usize = 0;
    while k < checks.len()
        invariant
            k <= checks@.len(),
            checks@ == all_spec(),
            has_org == (ctx.org is Some),
            active_total == active_count(ctx.repos@, ctx.repos@.len() as int),
            result_views(results@) == selected(all_spec(), has_org, k as int).map_values(
                |c: Check| evaluate_spec(c, ctx.org, ctx.repos@, active_total as nat),
            ),
        decreases checks@.len() - k,
    {
        let c = checks[k];
        let ghost before = result_views(results@);
        let run = match c.scope() {
            Scope::Org => has_org,
            _ => true,
        } && (!c.org_only() || has_org);
        if run {
            let r = evaluate(c, ctx, active_total);
            let ghost rv = r@;
            results.push(r);
            assert(result_views(results@) =~= before.push(rv));
        }
        k = k + 1;
        assert(selected(all_spec(), has_org, k as int).map_values(
            |c: Check| evaluate_spec(c, ctx.org, ctx.repos@, active_total as nat),
        ) =~= result_views(results@));
    }
    results
}

proof fn lemma_all_off_scan(c: Check, repos: Seq<RepoContext>, k: int)
    requires
        0 <= k <= repos.len(),
        forall|i: int| 0 <= i < repos.len() && in_scope(c, #[trigger] repos[i]) ==> switched_off(c, repos[i]),
    ensures
        scan(c, repos, k).affected.len() == 0,
        scan(c, repos, k).passed == 0,
        scan(c, repos, k).warned == 0,
        (exists|i: int| 0 <= i < k && in_scope(c, #[trigger] repos[i])) ==> scan(c, repos, k).disabled > 0,
    decreases k,
{
    if k > 0 {
        lemma_all_off_scan(c, repos, k - 1);
        if exists|i: int| 0 <= i < k && in_scope(c, #[trigger] repos[i]) {
            let i = choose|i: int| 0 <= i < k && in_scope(c, #[trigger] repos[i]);
            if i < k - 1 {
                assert(exists|j: int| 0 <= j < k - 1 && in_scope(c, #[trigger] repos[j]));
            }
        }
    }
}

/// A check that every repository it applies to has switched off in
/// `moat.toml` is skipped, and lists no affected repository: switched-off
/// checks never count as failures.
pub proof fn law_switched_off_everywhere_is_skipped(c: Check, org: Option<&OrgContext>, repos: Seq<RepoContext>, active_total: nat)
    requires
        c.has_repo_eval_spec(),
        exists|i: int| 0 <= i < repos.len() && in_scope(c, #[trigger] repos[i]),
        forall|i: int| 0 <= i < repos.len() && in_scope(c, #[trigger] repos[i]) ==> switched_off(c, repos[i]),
    ensures
        evaluate_spec(c, org, repos, active_total).status == Status::Skipped,
        evaluate_spec(c, org, repos, active_total).affected_repos.len() == 0,
{
    lemma_all_off_scan(c, repos, repos.len() as int);
    let s = scan(c, repos, repos.len() as int);
    assert(distinct_count(s.affected, 0) == 0);
}

proof fn lemma_affected_grows(c: Check, repos: Seq<RepoContext>, j: int, k: int, x: Seq<char>)
    requires
        0 <= j <= k <= repos.len(),
        scan(c, repos, j).affected.contains(x),
    ensures
        scan(c, repos, k).affected.contains(x),
    decreases k,
{
    if k > j {
        lemma_affected_grows(c, repos, j, k - 1, x);
        let a = scan(c, repos, k - 1).affected;
        let b = scan(c, repos, k).affected;
        let w = choose|w: int| 0 <= w < a.len() && a[w] == x;
        assert(b.len() >= a.len() && b.subrange(0, a.len() as int) =~= a);
        assert(b[w] == x);
    }
}

/// A repository that the check applies to, that keeps it switched on and
/// whose own outcome fails, fails the check and is listed among the affected
/// repositories.
pub proof fn law_failing_repository_fails_check(
    c: Check,
    org: Option<&OrgContext>,
    repos: Seq<RepoContext>,
    active_total: nat,
    i: int,
)
    requires
        c.has_repo_eval_spec(),
        0 <= i < repos.len(),
        in_scope(c, repos[i]),
        !switched_off(c, repos[i]),
        (c.repo_eval_spec(repos[i])->0).status == Status::Fail,
    ensures
        evaluate_spec(c, org, repos, active_total).status == Status::Fail,
        evaluate_spec(c, org, repos, active_total).affected_repos.contains(repos[i].name@),
{
    let a = scan(c, repos, i + 1).affected;
    let prev = scan(c, repos, i).affected;
    let fb = (c.repo_eval_spec(repos[i])->0).failing_branches;
    assert(a.len() > prev.len());
    assert(a[prev.len() as int] == repos[i].name@);
    assert(a.contains(repos[i].name@));
    lemma_affected_grows(c, repos, i + 1, repos.len() as int, repos[i].name@);
}

/// On a free plan, where organization rulesets cannot be enforced, the
/// organization default of a ruleset-based check is no finding by itself:
/// with no failing or warning repository, the check neither fails nor warns.
pub proof fn law_free_plan_org_default_is_not_a_finding(c: Check, org: &OrgContext, repos: Seq<RepoContext>, active_total: nat)
    requires
        org.plan == OrgPlan::Free,
        c.ruleset_based_spec(),
        scan(c, repos, repos.len() as int).affected.len() == 0,
        scan(c, repos, repos.len() as int).warned == 0,
    ensures
        evaluate_spec(c, Some(org), repos, active_total).status != Status::Fail,
        evaluate_spec(c, Some(org), repos, active_total).status != Status::Warn,
        !evaluate_spec(c, Some(org), repos, active_total).org_default_issue,
{
}

proof fn lemma_selected_runs(checks: Seq<Check>, has_org: bool, k: int)
    requires
        0 <= k <= checks.len(),
    ensures
        forall|i: int| 0 <= i < selected(checks, has_org, k).len() ==> runs(#[trigger] selected(checks, has_org, k)[i], has_org),
        forall|i: int| 0 <= i < k && runs(#[trigger] checks[i], has_org) ==> selected(checks, has_org, k).contains(checks[i]),
    decreases k,
{
    if k > 0 {
        lemma_selected_runs(checks, has_org, k - 1);
        let prev = selected(checks, has_org, k - 1);
        let cur = selected(checks, has_org, k);
        assert forall|i: int| 0 <= i < cur.len() implies runs(#[trigger] cur[i], has_org) by {
            if i < prev.len() {
                assert(cur[i] == prev[i]);
            }
        }
        assert forall|i: int| 0 <= i < k && runs(#[trigger] checks[i], has_org) implies cur.contains(checks[i]) by {
            if i < k - 1 {
                let j = choose|j: int| 0 <= j < prev.len() && prev[j] == checks[i];
                assert(cur[j] == checks[i]);
            } else {
                assert(cur[cur.len() - 1] == checks[i]);
            }
        }
    }
}

/// A run reports exactly the checks of the catalogue that run for the
/// context, each evaluated for itself: without an organization, no check
/// that looks only at the organization or is limited to organizations is
/// reported, and every other check is.
pub proof fn law_reported_checks(org: Option<&OrgContext>, repos: Seq<RepoContext>)
    ensures
        forall|i: int| 0 <= i < run_spec(org, repos).len() ==> runs(#[trigger] run_spec(org, repos)[i].check, org is Some),
        forall|c: Check| all_spec().contains(c) && runs(c, org is Some)
            ==> exists|i: int| 0 <= i < run_spec(org, repos).len() && #[trigger] run_spec(org, repos)[i].check == c,
        org is None ==> forall|i: int| 0 <= i < run_spec(org, repos).len()
            ==> (#[trigger] run_spec(org, repos)[i].check).scope_spec() != Scope::Org && !run_spec(org, repos)[i].check.org_only_spec(),
{
    let has_org = org is Some;
    let chosen = selected(all_spec(), has_org, all_spec().len() as int);
    lemma_selected_runs(all_spec(), has_org, all_spec().len() as int);
    let total = active_count(repos, repos.len() as int);
    assert forall|i: int| 0 <= i < run_spec(org, repos).len() implies runs(#[trigger] run_spec(org, repos)[i].check, has_org) by {
        assert(run_spec(org, repos)[i] == evaluate_spec(chosen[i], org, repos, total));
        assert(runs(chosen[i], has_org));
    }
    assert forall|c: Check| all_spec().contains(c) && runs(c, has_org)
        implies exists|i: int| 0 <= i < run_spec(org, repos).len() && #[trigger] run_spec(org, repos)[i].check == c by {
        let k = choose|k: int| 0 <= k < all_spec().len() && all_spec()[k] == c;
        assert(runs(all_spec()[k], has_org));
        assert(chosen.contains(all_spec()[k]));
        let j = choose|j: int| 0 <= j < chosen.len() && chosen[j] == c;
        assert(run_spec(org, repos)[j] == evaluate_spec(chosen[j], org, repos, total));
        assert(evaluate_spec(c, org, repos, total).check == c);
        assert(run_spec(org, repos)[j].check == c);
    }
}

/// The exit code is 1 exactly when some check failed.
pub proof fn law_exit_code(results: Seq<CheckResult>)
    ensures
        exit_code_spec(statuses(results)) == 1 <==> exists|i: int| 0 <= i < results.len() && results[i].status == Status::Fail,
        exit_code_spec(statuses(results)) == 0 <==> forall|i: int| 0 <= i < results.len() ==> results[i].status != Status::Fail,
{
    if exists|i: int| 0 <= i < results.len() && results[i].status == Status::Fail {
        let i = choose|i: int| 0 <= i < results.len() && results[i].status == Status::Fail;
        assert(statuses(results)[i] == Status::Fail);
    }
    if exists|i: int| 0 <= i < statuses(results).len() && statuses(results)[i] == Status::Fail {
        let i = choose|i: int| 0 <= i < statuses(results).len() && statuses(results)[i] == Status::Fail;
        assert(results[i].status == Status::Fail);
    }
}

} // verus!
