//! How GitHub's answers are read into the states the checks evaluate. The
//! requests are sent at the edge; each answer, reduced to plain values, is
//! turned into a state here.
use vstd::prelude::*;
use crate::checks::common::{FilePresence, WebhookInfo, WorkflowTokenState};
use crate::checks::org_context::{FeatureDefaultState, OrgPlan, OrgRulesets, ReleaseImmutabilityState, RulesetsState, TwoFactorState};
use crate::checks::repo_context::{BranchProtectionState, DependabotConfigState, FeatureState, ReleaseImmutabilityRepoState, SHAPinningState};
use crate::support::github::{Fetch, Fetch403};
use crate::support::workflows::{get, get_exec, is_str, parse_workflow_yaml, yaml_doc, YamlValue};
use crate::text::{clone_strings, str_eq, string_views};

verus! {

/// The plan named by `plan.name`.
pub open spec fn plan_spec(name: Option<Seq<char>>) -> OrgPlan {
    match name {
        Some(n) => if n == "free"@ {
            OrgPlan::Free
        } else if n == "team"@ {
            OrgPlan::Team
        } else if n == "enterprise"@ {
            OrgPlan::Enterprise
        } else {
            OrgPlan::Unknown
        },
        None => OrgPlan::Unknown,
    }
}

/// Reads the organization's plan from its name.
pub fn plan_from_name(name: Option<&str>) -> (p: OrgPlan)
    ensures
        p == plan_spec(match name { Some(n) => Some(n@), None => None }),
{
    match name {
        Some(n) => {
            if str_eq(n, "free") {
                OrgPlan::Free
            } else if str_eq(n, "team") {
                OrgPlan::Team
            } else if str_eq(n, "enterprise") {
                OrgPlan::Enterprise
            } else {
                OrgPlan::Unknown
            }
        },
        None => OrgPlan::Unknown,
    }
}

/// Reads `two_factor_requirement_enabled` (absent when not visible).
pub fn two_factor_from(flag: Option<bool>) -> (s: TwoFactorState)
    ensures
        s == match flag {
            Some(true) => TwoFactorState::Required,
            Some(false) => TwoFactorState::NotRequired,
            None => TwoFactorState::Unknown,
        },
{
    match flag {
        Some(true) => TwoFactorState::Required,
        Some(false) => TwoFactorState::NotRequired,
        None => TwoFactorState::Unknown,
    }
}

/// Reads `enforced_repositories`: `all`, `selected`, anything else none.
pub fn release_immutability_from(enforced: &str) -> (s: ReleaseImmutabilityState)
    ensures
        s == if enforced@ == "all"@ {
            ReleaseImmutabilityState::All
        } else if enforced@ == "selected"@ {
            ReleaseImmutabilityState::Selected
        } else {
            ReleaseImmutabilityState::NoRepositories
        },
{
    if str_eq(enforced, "all") {
        ReleaseImmutabilityState::All
    } else if str_eq(enforced, "selected") {
        ReleaseImmutabilityState::Selected
    } else {
        ReleaseImmutabilityState::NoRepositories
    }
}

/// Reads `default_workflow_permissions`: `read` or `write` when it could be
/// read, else unavailable.
pub fn workflow_token_from(answer: &Fetch<String>) -> (s: WorkflowTokenState)
    ensures
        s == match answer {
            Fetch::Found(v) => if v@ == "read"@ {
                WorkflowTokenState::Read
            } else if v@ == "write"@ {
                WorkflowTokenState::Write
            } else {
                WorkflowTokenState::Unavailable
            },
            _ => WorkflowTokenState::Unavailable,
        },
{
    match answer {
        Fetch::Found(v) => {
            if str_eq(v.as_str(), "read") {
                WorkflowTokenState::Read
            } else if str_eq(v.as_str(), "write") {
                WorkflowTokenState::Write
            } else {
                WorkflowTokenState::Unavailable
            }
        },
        _ => WorkflowTokenState::Unavailable,
    }
}

/// Reads an organization default for a security feature (`enabled` or
/// `disabled`); a plan-gated answer is kept apart, anything else is unknown.
pub fn feature_default_from(answer: &Fetch403<Option<String>>) -> (s: FeatureDefaultState)
    ensures
        s == match answer {
            Fetch403::Found(Some(v)) => if v@ == "enabled"@ {
                FeatureDefaultState::Enabled
            } else if v@ == "disabled"@ {
                FeatureDefaultState::Disabled
            } else {
                FeatureDefaultState::Unknown
            },
            Fetch403::PlanGated => FeatureDefaultState::PlanGated,
            _ => FeatureDefaultState::Unknown,
        },
{
    match answer {
        Fetch403::Found(Some(v)) => {
            if str_eq(v.as_str(), "enabled") {
                FeatureDefaultState::Enabled
            } else if str_eq(v.as_str(), "disabled") {
                FeatureDefaultState::Disabled
            } else {
                FeatureDefaultState::Unknown
            }
        },
        Fetch403::PlanGated => FeatureDefaultState::PlanGated,
        _ => FeatureDefaultState::Unknown,
    }
}

/// Reads a repository's `security_and_analysis` status for a feature.
pub fn feature_state_from(status: Option<&str>) -> (s: FeatureState)
    ensures
        s == match status {
            Some(v) => if v@ == "enabled"@ {
                FeatureState::Enabled
            } else if v@ == "disabled"@ {
                FeatureState::Disabled
            } else {
                FeatureState::Unknown
            },
            None => FeatureState::Unknown,
        },
{
    match status {
        Some(v) => {
            if str_eq(v, "enabled") {
                FeatureState::Enabled
            } else if str_eq(v, "disabled") {
                FeatureState::Disabled
            } else {
                FeatureState::Unknown
            }
        },
        None => FeatureState::Unknown,
    }
}

/// A file is present when any of the places probed holds it.
pub fn file_presence_from(probes: &Vec<bool>) -> (p: FilePresence)
    ensures
        (p == FilePresence::Present) == probes@.contains(true),
{
    let mut i: usize = 0;
    while i < probes.len()
        invariant
            i <= probes@.len(),
            forall|j: int| 0 <= j < i ==> !probes@[j],
        decreases probes@.len() - i,
    {
        if probes[i] {
            assert(probes@[i as int]);
            return FilePresence::Present;
        }
        i = i + 1;
    }
    FilePresence::Absent
}

/// A webhook has a secret when its configuration shows a non-empty one.
pub fn webhook_info(url: &str, secret: Option<&str>) -> (w: WebhookInfo)
    ensures
        w.url@ == url@,
        w.has_secret == match secret { Some(s) => s@.len() > 0, None => false },
{
    let has_secret = match secret {
        Some(s) => s.unicode_len() > 0,
        None => false,
    };
    WebhookInfo { url: String::from_str(url), has_secret }
}

/// Reads whether a repository has immutable releases: yes or no when the
/// setting could be read, gated by the plan when it says so.
pub fn repo_release_immutability_from(answer: &Fetch403<bool>) -> (s: ReleaseImmutabilityRepoState)
    ensures
        s == match answer {
            Fetch403::Found(true) => ReleaseImmutabilityRepoState::Enabled,
            Fetch403::PlanGated => ReleaseImmutabilityRepoState::PlanGated,
            _ => ReleaseImmutabilityRepoState::Disabled,
        },
{
    match answer {
        Fetch403::Found(true) => ReleaseImmutabilityRepoState::Enabled,
        Fetch403::PlanGated => ReleaseImmutabilityRepoState::PlanGated,
        _ => ReleaseImmutabilityRepoState::Disabled,
    }
}

/// Reads `sha_pinning_required` from a repository's actions permissions.
pub fn sha_pinning_from(answer: &Fetch<Option<bool>>) -> (s: SHAPinningState)
    ensures
        s == match answer {
            Fetch::Found(Some(true)) => SHAPinningState::Enforced,
            Fetch::Found(Some(false)) => SHAPinningState::NotEnforced,
            _ => SHAPinningState::Unknown,
        },
{
    match answer {
        Fetch::Found(Some(true)) => SHAPinningState::Enforced,
        Fetch::Found(Some(false)) => SHAPinningState::NotEnforced,
        _ => SHAPinningState::Unknown,
    }
}

/// The flags of a branch protection, as the API shows them.
#[derive(Clone, Copy, PartialEq, Eq, Debug, Structural)]
pub struct ProtectionFlags {
    pub signed_commits: bool,
    /// Pull-request reviews are required at all.
    pub pr_reviews: bool,
    pub pr_dismiss_stale_reviews: bool,
    pub pr_require_last_push_approval: bool,
    pub pr_require_code_owner_review: bool,
    pub enforce_admins: bool,
    pub required_linear_history: bool,
    pub allow_force_pushes: bool,
    pub allow_deletions: bool,
}

/// Reads a branch's protection: its flags when it is protected; a missing
/// protection means unprotected, a refusal means no permission.
pub fn protection_from(answer: Fetch403<ProtectionFlags>) -> (s: BranchProtectionState)
    ensures
        s == match answer {
            Fetch403::Found(f) => BranchProtectionState::Protected {
                signed_commits: f.signed_commits,
                pr_reviews: f.pr_reviews,
                pr_dismiss_stale_reviews: f.pr_dismiss_stale_reviews,
                pr_require_last_push_approval: f.pr_require_last_push_approval,
                pr_require_code_owner_review: f.pr_require_code_owner_review,
                enforce_admins: f.enforce_admins,
                required_linear_history: f.required_linear_history,
                allow_force_pushes: f.allow_force_pushes,
                allow_deletions: f.allow_deletions,
            },
            Fetch403::NotFound => BranchProtectionState::Unprotected,
            Fetch403::Forbidden => BranchProtectionState::NoPermission,
            Fetch403::PlanGated => BranchProtectionState::PlanGated,
        },
{
    match answer {
        Fetch403::Found(f) => BranchProtectionState::Protected {
            signed_commits: f.signed_commits,
            pr_reviews: f.pr_reviews,
            pr_dismiss_stale_reviews: f.pr_dismiss_stale_reviews,
            pr_require_last_push_approval: f.pr_require_last_push_approval,
            pr_require_code_owner_review: f.pr_require_code_owner_review,
            enforce_admins: f.enforce_admins,
            required_linear_history: f.required_linear_history,
            allow_force_pushes: f.allow_force_pushes,
            allow_deletions: f.allow_deletions,
        },
        Fetch403::NotFound => BranchProtectionState::Unprotected,
        Fetch403::Forbidden => BranchProtectionState::NoPermission,
        Fetch403::PlanGated => BranchProtectionState::PlanGated,
    }
}

/// The sub-requirements of a pull-request rule.
#[derive(Clone, Copy, PartialEq, Eq, Debug, Structural)]
pub struct PrRule {
    pub dismiss_stale_reviews: bool,
    pub require_last_push_approval: bool,
    pub require_code_owner_review: bool,
}

/// One organization ruleset: whether it is an active branch ruleset and its
/// pull-request rule, if it has one.
#[derive(Clone, Copy, PartialEq, Eq, Debug, Structural)]
pub struct RulesetSummary {
    pub active_branch_ruleset: bool,
    pub pull_request: Option<PrRule>,
}

/// Some active ruleset among `s[..k]` satisfies `p`.
pub open spec fn any_active(s: Seq<RulesetSummary>, k: int, p: spec_fn(RulesetSummary) -> bool) -> bool {
    exists|i: int| 0 <= i < k && (#[trigger] s[i]).active_branch_ruleset && p(s[i])
}

/// A ruleset with a pull-request rule.
pub open spec fn has_pr(r: RulesetSummary) -> bool {
    r.pull_request is Some
}

/// A ruleset whose pull-request rule dismisses stale reviews.
pub open spec fn dismisses(r: RulesetSummary) -> bool {
    r.pull_request matches Some(f) && f.dismiss_stale_reviews
}

/// A ruleset whose pull-request rule requires last-push approval.
pub open spec fn last_push(r: RulesetSummary) -> bool {
    r.pull_request matches Some(f) && f.require_last_push_approval
}

/// A ruleset whose pull-request rule requires code-owner review.
pub open spec fn code_owner(r: RulesetSummary) -> bool {
    r.pull_request matches Some(f) && f.require_code_owner_review
}

/// Any ruleset at all.
pub open spec fn any_rule(r: RulesetSummary) -> bool {
    true
}

/// What the active branch rulesets among `s[..k]` require together.
pub open spec fn rulesets_upto(s: Seq<RulesetSummary>, k: int) -> OrgRulesets {
    OrgRulesets {
        state: RulesetsState::Loaded,
        any_active: any_active(s, k, |r: RulesetSummary| any_rule(r)),
        pull_request: any_active(s, k, |r: RulesetSummary| has_pr(r)),
        pr_dismiss_stale_reviews: any_active(s, k, |r: RulesetSummary| dismisses(r)),
        pr_require_last_push_approval: any_active(s, k, |r: RulesetSummary| last_push(r)),
        pr_require_code_owner_review: any_active(s, k, |r: RulesetSummary| code_owner(r)),
    }
}

/// What the active branch rulesets require together: a pull-request rule
/// when any of them has one, and each sub-requirement when any of those
/// rules sets it.
pub open spec fn rulesets_spec(s: Seq<RulesetSummary>) -> OrgRulesets {
    rulesets_upto(s, s.len() as int)
}

/// Combines the organization's rulesets.
pub fn rulesets_from(rules: &Vec<RulesetSummary>) -> (r: OrgRulesets)
    ensures
        r == rulesets_spec(rules@),
{
    let mut acc = OrgRulesets {
        state: RulesetsState::Loaded,
        any_active: false,
        pull_request: false,
        pr_dismiss_stale_reviews: false,
        pr_require_last_push_approval: false,
        pr_require_code_owner_review: false,
    };
    let mut i: usize = 0;
    while i < rules.len()
        invariant
            i <= rules@.len(),
            acc == rulesets_upto(rules@, i as int),
        decreases rules@.len() - i,
    {
        let r = rules[i];
        if r.active_branch_ruleset {
            acc.any_active = true;
            match r.pull_request {
                Some(p) => {
                    acc.pull_request = true;
                    acc.pr_dismiss_stale_reviews = acc.pr_dismiss_stale_reviews || p.dismiss_stale_reviews;
                    acc.pr_require_last_push_approval = acc.pr_require_last_push_approval || p.require_last_push_approval;
                    acc.pr_require_code_owner_review = acc.pr_require_code_owner_review || p.require_code_owner_review;
                },
                None => {},
            }
        }
        proof {
            let s = rules@;
            let k = i as int;
            assert(s[k] == r);
            let f1 = |x: RulesetSummary| any_rule(x);
            let f2 = |x: RulesetSummary| has_pr(x);
            let f3 = |x: RulesetSummary| dismisses(x);
            let f4 = |x: RulesetSummary| last_push(x);
            let f5 = |x: RulesetSummary| code_owner(x);
            assert(any_active(s, k + 1, f1) == (any_active(s, k, f1) || (s[k].active_branch_ruleset && f1(s[k]))));
            assert(any_active(s, k + 1, f2) == (any_active(s, k, f2) || (s[k].active_branch_ruleset && f2(s[k]))));
            assert(any_active(s, k + 1, f3) == (any_active(s, k, f3) || (s[k].active_branch_ruleset && f3(s[k]))));
            assert(any_active(s, k + 1, f4) == (any_active(s, k, f4) || (s[k].active_branch_ruleset && f4(s[k]))));
            assert(any_active(s, k + 1, f5) == (any_active(s, k, f5) || (s[k].active_branch_ruleset && f5(s[k]))));
        }
        i = i + 1;
    }
    acc
}

/// The release branches of a repository: its default branch, then each
/// configured branch not already listed.
pub open spec fn release_branches_spec(default: Option<Seq<char>>, configured: Seq<Seq<char>>) -> Seq<Seq<char>>
    decreases configured.len(),
{
    if configured.len() == 0 {
        match default {
            Some(d) => seq![d],
            None => Seq::empty(),
        }
    } else {
        let before = release_branches_spec(default, configured.drop_last());
        if before.contains(configured.last()) { before } else { before.push(configured.last()) }
    }
}

/// The branches whose protection and workflows are read.
pub fn release_branch_names(default: Option<&str>, configured: &Vec<String>) -> (r: Vec<String>)
    ensures
        string_views(r@) == release_branches_spec(match default { Some(d) => Some(d@), None => None }, string_views(configured@)),
{
    let ghost d = match default { Some(d) => Some(d@), None => None::<Seq<char>> };
    let mut r: Vec<String> = Vec::new();
    if let Some(x) = default {
        r.push(String::from_str(x));
    }
    assert(string_views(r@) =~= release_branches_spec(d, string_views(configured@).subrange(0, 0)));
    let mut i: usize = 0;
    while i < configured.len()
        invariant
            i <= configured@.len(),
            string_views(r@) == release_branches_spec(d, string_views(configured@).subrange(0, i as int)),
        decreases configured@.len() - i,
    {
        let ghost before = string_views(r@);
        assert(string_views(configured@).subrange(0, i + 1).drop_last() =~= string_views(configured@).subrange(0, i as int));
        if !crate::text::contains_string(&r, configured[i].as_str()) {
            r.push(configured[i].clone());
            assert(string_views(r@) =~= before.push(configured@[i as int]@));
        }
        i = i + 1;
    }
    assert(string_views(configured@).subrange(0, configured@.len() as int) =~= string_views(configured@));
    r
}

/// `doc.updates` lists an entry whose `package-ecosystem` is
/// `github-actions`.
pub open spec fn tracks_actions_spec(doc: YamlValue) -> bool {
    match doc {
        YamlValue::Mapping(top) => match get(top@, "updates"@) {
            Some(YamlValue::Sequence(items)) => exists|i: int| 0 <= i < items@.len() && (#[trigger] items@[i] matches YamlValue::Mapping(m)
                && get(m@, "package-ecosystem"@) matches Some(v) && is_str(v, "github-actions"@)),
            _ => false,
        },
        _ => false,
    }
}

/// Does the dependabot configuration keep the GitHub Actions pins updated?
#[verifier::loop_isolation(false)]
pub fn dependabot_tracks_actions(doc: &YamlValue) -> (b: bool)
    ensures
        b == tracks_actions_spec(*doc),
{
    match doc {
        YamlValue::Mapping(top) => match get_exec(top, "updates") {
            Some(YamlValue::Sequence(items)) => {
                let mut i: usize = 0;
                while i < items.len()
                    invariant
                        i <= items@.len(),
                        forall|j: int| 0 <= j < i ==> !(#[trigger] items@[j] matches YamlValue::Mapping(m)
                            && get(m@, "package-ecosystem"@) matches Some(v) && is_str(v, "github-actions"@)),
                    decreases items@.len() - i,
                {
                    match &items[i] {
                        YamlValue::Mapping(m) => {
                            match get_exec(m, "package-ecosystem") {
                                Some(YamlValue::Str(s)) => {
                                    if str_eq(s.as_str(), "github-actions") {
                                        assert(is_str(YamlValue::Str(*s), "github-actions"@));
                                        assert(items@[i as int] == YamlValue::Mapping(*m));
                                        assert(get(m@, "package-ecosystem"@) == Some(YamlValue::Str(*s)));
                                        return true;
                                    }
                                },
                                _ => {},
                            }
                        },
                        _ => {},
                    }
                    i = i + 1;
                }
                false
            },
            _ => false,
        },
        _ => false,
    }
}


/// Summarizes a ruleset: it counts when its enforcement is `active` and it
/// targets branches.
pub fn ruleset_summary(target: Option<&str>, enforcement: &str, pull_request: Option<PrRule>) -> (r: RulesetSummary)
    ensures
        r.active_branch_ruleset == (enforcement@ == "active"@ && match target { Some(t) => t@ == "branch"@, None => false }),
        r.pull_request == pull_request,
{
    let branch = match target {
        Some(t) => str_eq(t, "branch"),
        None => false,
    };
    RulesetSummary { active_branch_ruleset: str_eq(enforcement, "active") && branch, pull_request }
}

/// Rulesets that could not be listed.
pub fn rulesets_unreadable() -> (r: OrgRulesets)
    ensures
        r.state == RulesetsState::NoPermission,
        !r.any_active && !r.pull_request && !r.pr_dismiss_stale_reviews,
        !r.pr_require_last_push_approval && !r.pr_require_code_owner_review,
{
    OrgRulesets {
        state: RulesetsState::NoPermission,
        any_active: false,
        pull_request: false,
        pr_dismiss_stale_reviews: false,
        pr_require_last_push_approval: false,
        pr_require_code_owner_review: false,
    }
}


/// What fetching `.github/dependabot.yml` says: present (tracking GitHub
/// Actions or not) when it was read and is YAML; missing when there is no
/// such file; unknown when it could not be read or is not YAML.
pub open spec fn dependabot_spec(answer: Fetch<String>) -> DependabotConfigState {
    match answer {
        Fetch::Found(text) => match yaml_doc(text@) {
            Some(doc) => DependabotConfigState::Present { github_actions: tracks_actions_spec(doc) },
            None => DependabotConfigState::Unknown,
        },
        Fetch::NotFound => DependabotConfigState::Missing,
        Fetch::Forbidden => DependabotConfigState::Unknown,
    }
}

/// Reads a repository's dependabot configuration from what fetching it gave.
pub fn dependabot_config_from(answer: &Fetch<String>) -> (s: DependabotConfigState)
    ensures
        s == dependabot_spec(*answer),
{
    match answer {
        Fetch::Found(text) => match parse_workflow_yaml(text.as_str()) {
            Some(doc) => DependabotConfigState::Present { github_actions: dependabot_tracks_actions(&doc) },
            None => DependabotConfigState::Unknown,
        },
        Fetch::NotFound => DependabotConfigState::Missing,
        Fetch::Forbidden => DependabotConfigState::Unknown,
    }
}

} // verus!
