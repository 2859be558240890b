//! Vocabulary shared by the checks: small states, wording helpers and the
//! webhook evaluation used for both organizations and repositories.
use vstd::prelude::*;
use crate::support::outcome::{bare, with_items, CheckOutcome, OutcomeView, Status};
use crate::checks::repo_context::{BranchProtectionState, FeatureState, RepoContext};
use crate::text::{dec, push_dec, starts_with, str_starts_with, string_views};

verus! {

/// Whether a file exists in the repository.
#[derive(Clone, Copy, PartialEq, Eq, Debug, Structural)]
pub enum FilePresence {
    Present,
    Absent,
}

/// The default permission of the `GITHUB_TOKEN` given to workflows.
#[derive(Clone, Copy, PartialEq, Eq, Debug, Structural)]
pub enum WorkflowTokenState {
    Read,
    Write,
    Unavailable,
}

/// One configured webhook.
pub struct WebhookInfo {
    pub url: String,
    pub has_secret: bool,
}

/// `singular` when `n` is one, `plural` otherwise.
pub open spec fn noun_spec(n: nat, singular: Seq<char>, plural: Seq<char>) -> Seq<char> {
    if n == 1 { singular } else { plural }
}

/// `singular` when `n` is one, `plural` otherwise.
pub fn noun(n: usize, singular: &'static str, plural: &'static str) -> (r: &'static str)
    ensures
        r@ == noun_spec(n as nat, singular@, plural@),
{
    if n == 1 { singular } else { plural }
}

/// "repository" or "repositories".
pub open spec fn repos_word_spec(n: nat) -> Seq<char> {
    noun_spec(n, "repository"@, "repositories"@)
}

/// "repository" or "repositories".
pub fn repos_word(n: usize) -> (r: &'static str)
    ensures
        r@ == repos_word_spec(n as nat),
{
    noun(n, "repository", "repositories")
}

/// "public repository" or "public repositories".
pub open spec fn public_repos_word_spec(n: nat) -> Seq<char> {
    noun_spec(n, "public repository"@, "public repositories"@)
}

/// "public repository" or "public repositories".
pub fn public_repos_word(n: usize) -> (r: &'static str)
    ensures
        r@ == public_repos_word_spec(n as nat),
{
    noun(n, "public repository", "public repositories")
}

/// A webhook is secure when it posts to an `https://` URL and has a secret.
pub open spec fn hook_secure(h: WebhookInfo) -> bool {
    starts_with(h.url@, "https://"@) && h.has_secret
}

/// The findings for the webhooks `hooks[..k]`: for each webhook, one line
/// when its URL is not HTTPS and one when it has no secret.
pub open spec fn hook_findings(hooks: Seq<WebhookInfo>, k: int) -> Seq<Seq<char>>
    decreases k,
{
    if k <= 0 || k > hooks.len() {
        Seq::empty()
    } else {
        let h = hooks[k - 1];
        let name = if h.url@.len() == 0 { "<unknown>"@ } else { h.url@ };
        hook_findings(hooks, k - 1)
            + (if !starts_with(h.url@, "https://"@) { seq![name + ": not HTTPS"@] } else { Seq::empty() })
            + (if !h.has_secret { seq![name + ": no secret"@] } else { Seq::empty() })
    }
}

/// The webhooks give no finding exactly when every one of them is secure:
/// it posts to an `https://` URL and has a secret.
pub proof fn law_no_findings_iff_all_secure(hooks: Seq<WebhookInfo>)
    ensures
        (hook_findings(hooks, hooks.len() as int).len() == 0)
            <==> (forall|i: int| 0 <= i < hooks.len() ==> #[trigger] hook_secure(hooks[i])),
{
    lemma_findings_prefix(hooks, hooks.len() as int);
}

proof fn lemma_findings_prefix(hooks: Seq<WebhookInfo>, k: int)
    requires
        0 <= k <= hooks.len(),
    ensures
        (hook_findings(hooks, k).len() == 0) <==> (forall|i: int| 0 <= i < k ==> #[trigger] hook_secure(hooks[i])),
    decreases k,
{
    if k > 0 {
        lemma_findings_prefix(hooks, k - 1);
        let h = hooks[k - 1];
        assert(hook_findings(hooks, k).len() == hook_findings(hooks, k - 1).len()
            + (if !starts_with(h.url@, "https://"@) { 1int } else { 0int })
            + (if !h.has_secret { 1int } else { 0int }));
        if hook_findings(hooks, k).len() == 0 {
            assert forall|i: int| 0 <= i < k implies #[trigger] hook_secure(hooks[i]) by {
                if i < k - 1 {
                    assert(hook_secure(hooks[i]));
                }
            }
        }
        if forall|i: int| 0 <= i < k ==> #[trigger] hook_secure(hooks[i]) {
            assert(hook_secure(hooks[k - 1]));
            assert forall|i: int| 0 <= i < k - 1 implies #[trigger] hook_secure(hooks[i]) by {
                assert(hook_secure(hooks[i]));
            }
        }
    }
}

/// The findings for every webhook in `hooks`.
pub fn webhook_findings(hooks: &Vec<WebhookInfo>) -> (r: Vec<String>)
    ensures
        string_views(r@) == hook_findings(hooks@, hooks@.len() as int),
{
    let mut out: Vec<String> = Vec::new();
    let mut i: usize = 0;
    while i < hooks.len()
        invariant
            i <= hooks@.len(),
            string_views(out@) == hook_findings(hooks@, i as int),
        decreases hooks@.len() - i,
    {
        let h = &hooks[i];
        let ghost before = string_views(out@);
        let mut name = String::new();
        if h.url.unicode_len() == 0 {
            name.append("<unknown>");
        } else {
            name.append(h.url.as_str());
        }
        let https = str_starts_with(h.url.as_str(), "https://");
        if !https {
            let mut f = name.clone();
            f.append(": not HTTPS");
            out.push(f);
        }
        let ghost mid = string_views(out@);
        if !h.has_secret {
            let mut f = name.clone();
            f.append(": no secret");
            out.push(f);
        }
        i = i + 1;
        assert(string_views(out@) =~= hook_findings(hooks@, i as int));
    }
    out
}

/// Repository webhooks, or the fact that they could not be listed.
pub enum WebhooksState {
    Listed(Vec<WebhookInfo>),
    NoPermission,
}

impl WebhooksState {
    /// The listed webhooks (none when they could not be listed).
    pub open spec fn hooks_spec(self) -> Seq<WebhookInfo> {
        match self {
            WebhooksState::Listed(v) => v@,
            WebhooksState::NoPermission => Seq::empty(),
        }
    }
}

/// The outcome of the repository webhook check.
pub open spec fn webhooks_outcome(state: WebhooksState) -> OutcomeView {
    match state {
        WebhooksState::NoPermission => bare(Status::Skipped, "?"@),
        WebhooksState::Listed(hooks) => if hooks@.len() == 0 {
            bare(Status::Pass, "—"@)
        } else if hook_findings(hooks@, hooks@.len() as int).len() == 0 {
            bare(Status::Pass, "✓"@)
        } else {
            with_items(bare(Status::Fail, "✗"@), hook_findings(hooks@, hooks@.len() as int))
        },
    }
}

/// Evaluates the webhooks of one repository: every webhook must use HTTPS and
/// carry a secret.
pub fn evaluate_webhooks(state: &WebhooksState) -> (o: CheckOutcome)
    ensures
        o@ == webhooks_outcome(*state),
{
    let hooks = match state {
        WebhooksState::Listed(v) => v,
        WebhooksState::NoPermission => return CheckOutcome::skipped("?"),
    };
    if hooks.len() == 0 {
        return CheckOutcome::pass("—");
    }
    let findings = webhook_findings(hooks);
    if findings.len() == 0 {
        CheckOutcome::pass("✓")
    } else {
        CheckOutcome::fail("✗").with_items(findings)
    }
}

/// A finding, prefixed by its branch when several branches were scanned.
pub open spec fn on_branch(multi: bool, branch: Seq<char>, finding: Seq<char>) -> Seq<char> {
    if multi { branch + ": "@ + finding } else { finding }
}

/// A finding, prefixed by its branch when several branches were scanned.
pub fn on_branch_exec(multi: bool, branch: &str, finding: &str) -> (r: String)
    ensures
        r@ == on_branch(multi, branch@, finding@),
{
    let mut s = String::new();
    if multi {
        s.append(branch);
        s.append(": ");
    }
    s.append(finding);
    s
}

/// The branch protection of `r` could be read for at least one branch.
pub open spec fn inspectable(r: RepoContext) -> bool {
    exists|i: int| 0 <= i < r.branch_protections.branches@.len()
        && ((#[trigger] r.branch_protections.branches@[i]).1 is Protected
            || r.branch_protections.branches@[i].1 is Unprotected)
}

/// How many of `repos[..k]` have inspectable branch protection.
pub open spec fn count_inspectable(repos: Seq<&RepoContext>, k: int) -> nat
    decreases k,
{
    if k <= 0 || k > repos.len() {
        0
    } else {
        count_inspectable(repos, k - 1) + if inspectable(*repos[k - 1]) { 1nat } else { 0nat }
    }
}

#[verifier::loop_isolation(false)]
fn is_inspectable(r: &RepoContext) -> (b: bool)
    ensures
        b == inspectable(*r),
{
    let bs = &r.branch_protections.branches;
    let mut i: usize = 0;
    while i < bs.len()
        invariant
            i <= bs@.len(),
            forall|j: int| 0 <= j < i ==> !((#[trigger] bs@[j]).1 is Protected || bs@[j].1 is Unprotected),
        decreases bs@.len() - i,
    {
        match bs[i].1 {
            BranchProtectionState::Protected { .. } | BranchProtectionState::Unprotected => {
                assert(bs@[i as int].1 is Protected || bs@[i as int].1 is Unprotected);
                return true;
            },
            _ => {},
        }
        i = i + 1;
    }
    false
}

/// The number of repositories whose branch protection could be read.
pub fn inspectable_branch_protection_repos(repos: &[&RepoContext]) -> (n: usize)
    ensures
        n == count_inspectable(repos@, repos@.len() as int),
{
    let mut n: usize = 0;
    let mut i: usize = 0;
    while i < repos.len()
        invariant
            i <= repos@.len(),
            n == count_inspectable(repos@, i as int),
            n <= i,
        decreases repos@.len() - i,
    {
        if is_inspectable(repos[i]) {
            n = n + 1;
        }
        i = i + 1;
    }
    n
}

/// A per-repository security feature that a description can summarize.
#[derive(Clone, Copy, PartialEq, Eq, Debug, Structural)]
pub enum RepoFeature {
    SecretScanning,
    PushProtection,
}

/// The state of `feature` in repository `r`.
pub open spec fn feature_of(r: RepoContext, feature: RepoFeature) -> FeatureState {
    match feature {
        RepoFeature::SecretScanning => r.secret_scanning,
        RepoFeature::PushProtection => r.push_protection,
    }
}

/// Over `repos[..k]`: how many have `feature` enabled, and how many have it
/// disabled.
pub open spec fn feature_tally(repos: Seq<&RepoContext>, feature: RepoFeature, k: int) -> (nat, nat)
    decreases k,
{
    if k <= 0 || k > repos.len() {
        (0, 0)
    } else {
        let (e, d) = feature_tally(repos, feature, k - 1);
        match feature_of(*repos[k - 1], feature) {
            FeatureState::Enabled => (e + 1, d),
            FeatureState::Disabled => (e, d + 1),
            _ => (e, d),
        }
    }
}

/// The repository half of a feature description.
pub open spec fn feature_repo_phrase(label: Seq<char>, total: nat, enabled: nat, disabled: nat) -> Option<Seq<char>> {
    if total == 0 {
        None
    } else if disabled > 0 {
        Some(label + " is disabled on "@ + dec(disabled) + "/"@ + dec(total) + " "@ + repos_word_spec(total))
    } else if enabled == total {
        Some(label + " is enabled on all "@ + dec(total) + " "@ + repos_word_spec(total))
    } else {
        Some(label + " is enabled on "@ + dec(enabled) + "/"@ + dec(total) + " "@ + repos_word_spec(total))
    }
}

/// The organization half of a feature description: whether the feature is
/// off by default for new repositories, when there is an organization.
pub open spec fn feature_org_phrase(label: Seq<char>, org_off: Option<bool>) -> Option<Seq<char>> {
    match org_off {
        Some(true) => Some(label + " is not enabled by default for new repositories"@),
        Some(false) => Some(label + " is enabled by default for new repositories"@),
        None => None,
    }
}

/// Two optional phrases joined by "; ".
pub open spec fn join_phrases(a: Option<Seq<char>>, b: Option<Seq<char>>) -> Option<Seq<char>> {
    match (a, b) {
        (Some(x), Some(y)) => Some(x + "; "@ + y),
        (Some(x), None) => Some(x),
        (None, Some(y)) => Some(y),
        (None, None) => None,
    }
}

/// The description of a per-repository feature with an organization default.
pub open spec fn feature_phrase_spec(label: Seq<char>, repos: Seq<&RepoContext>, feature: RepoFeature, org_off: Option<bool>) -> Option<Seq<char>> {
    let (e, d) = feature_tally(repos, feature, repos.len() as int);
    join_phrases(feature_org_phrase(label, org_off), feature_repo_phrase(label, repos.len(), e, d))
}

fn feature_state(r: &RepoContext, feature: RepoFeature) -> (s: FeatureState)
    ensures
        s == feature_of(*r, feature),
{
    match feature {
        RepoFeature::SecretScanning => r.secret_scanning,
        RepoFeature::PushProtection => r.push_protection,
    }
}

/// Describes a per-repository feature: whether the organization turns it on
/// for new repositories, and on how many repositories it is on or off.
pub fn feature_state_phrase(label: &str, repos: &[&RepoContext], feature: RepoFeature, org_off: Option<bool>) -> (r: Option<String>)
    ensures
        crate::text::opt_view(r) == feature_phrase_spec(label@, repos@, feature, org_off),
{
    let total = repos.len();
    let mut enabled: usize = 0;
    let mut disabled: usize = 0;
    let mut i: usize = 0;
    while i < total
        invariant
            total == repos@.len(),
            i <= total,
            (enabled as nat, disabled as nat) == feature_tally(repos@, feature, i as int),
            enabled + disabled <= i,
        decreases total - i,
    {
        match feature_state(repos[i], feature) {
            FeatureState::Enabled => {
                enabled = enabled + 1;
            },
            FeatureState::Disabled => {
                disabled = disabled + 1;
            },
            _ => {},
        }
        i = i + 1;
    }
    let org = match org_off {
        Some(off) => {
            let mut o = String::new();
            o.append(label);
            if off {
                o.append(" is not enabled by default for new repositories");
            } else {
                o.append(" is enabled by default for new repositories");
            }
            Some(o)
        },
        None => None,
    };
    let rp = feature_repo_text(label, total, enabled, disabled);
    join_texts(org, rp)
}

fn feature_repo_text(label: &str, total: usize, enabled: usize, disabled: usize) -> (r: Option<String>)
    ensures
        crate::text::opt_view(r) == feature_repo_phrase(label@, total as nat, enabled as nat, disabled as nat),
{
    if total == 0 {
        return None;
    }
    let mut s = String::new();
    s.append(label);
    if disabled > 0 {
        s.append(" is disabled on ");
        push_dec(&mut s, disabled);
        s.append("/");
    } else if enabled == total {
        s.append(" is enabled on all ");
    } else {
        s.append(" is enabled on ");
        push_dec(&mut s, enabled);
        s.append("/");
    }
    push_dec(&mut s, total);
    s.append(" ");
    s.append(repos_word(total));
    Some(s)
}

/// Two optional phrases joined by "; ".
pub fn join_texts(a: Option<String>, b: Option<String>) -> (r: Option<String>)
    ensures
        crate::text::opt_view(r) == join_phrases(crate::text::opt_view(a), crate::text::opt_view(b)),
{
    match (a, b) {
        (Some(x), Some(y)) => {
            let mut s = x;
            s.append("; ");
            s.append(y.as_str());
            Some(s)
        },
        (Some(x), None) => Some(x),
        (None, Some(y)) => Some(y),
        (None, None) => None,
    }
}

} // verus!
