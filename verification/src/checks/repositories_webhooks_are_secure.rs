//! Organization and repository webhooks use HTTPS and carry a secret.
use vstd::prelude::*;
use crate::checks::StateCtx;
use crate::checks::common::{
    evaluate_webhooks, hook_findings, join_phrases, join_texts, noun, noun_spec, repos_word,
    repos_word_spec, webhook_findings, webhooks_outcome, WebhookInfo, WebhooksState,
};
use crate::checks::org_context::OrgContext;
use crate::checks::repo_context::RepoContext;
use crate::support::outcome::{bare, with_items, CheckOutcome, OutcomeView, Status};
use crate::text::{dec, opt_view, push_dec, starts_with, str_starts_with};

verus! {

pub const LABEL: &'static str = "Repositories webhooks are secure";
pub const HOW_TO_FIX: &'static str = "https://github.com/{org}/{repo}/settings/hooks > *Edit* -> Each webhook > Payload URL > *Set* -> https:// endpoint > Secret > *Set* -> A secret token > *Click* -> Update webhook";
pub const WHY_ENABLE: &'static str = "Plain-HTTP hooks leak payloads (and any secrets inside them) to any network on the path, and a hook without a shared secret has no way to prove the request actually came from GitHub.";

/// The same remediation for organizations and user accounts.
pub fn how_to_fix(_ctx: StateCtx<'_>) -> (r: &'static str)
    ensures
        r@ == HOW_TO_FIX@,
{
    HOW_TO_FIX
}

/// The organization outcome: passes without webhooks or when every webhook
/// is secure, and fails with one finding per problem otherwise.
pub open spec fn org_spec(ctx: OrgContext) -> OutcomeView {
    let hooks = ctx.webhooks@;
    if hooks.len() == 0 {
        bare(Status::Pass, "No organization webhooks configured"@)
    } else if hook_findings(hooks, hooks.len() as int).len() == 0 {
        bare(Status::Pass, "All organization webhooks use HTTPS and have a secret"@)
    } else {
        with_items(bare(Status::Fail, "One or more organization webhooks are insecure"@),
            hook_findings(hooks, hooks.len() as int))
    }
}

/// Every organization webhook must use HTTPS and carry a secret.
pub fn org_check(ctx: &OrgContext) -> (o: CheckOutcome)
    ensures
        o@ == org_spec(*ctx),
{
    if ctx.webhooks.len() == 0 {
        return CheckOutcome::pass("No organization webhooks configured");
    }
    let findings = webhook_findings(&ctx.webhooks);
    if findings.len() == 0 {
        CheckOutcome::pass("All organization webhooks use HTTPS and have a secret")
    } else {
        CheckOutcome::fail("One or more organization webhooks are insecure").with_items(findings)
    }
}

/// Every repository webhook must use HTTPS and carry a secret.
pub fn repo_check(ctx: &RepoContext) -> (o: CheckOutcome)
    ensures
        o@ == webhooks_outcome(ctx.webhooks),
{
    evaluate_webhooks(&ctx.webhooks)
}

/// How many of `hooks[..k]` lack HTTPS or a secret.
pub open spec fn insecure_count(hooks: Seq<WebhookInfo>, k: int) -> nat
    decreases k,
{
    if k <= 0 || k > hooks.len() {
        0
    } else {
        insecure_count(hooks, k - 1)
            + if !starts_with(hooks[k - 1].url@, "https://"@) || !hooks[k - 1].has_secret { 1nat } else { 0nat }
    }
}

fn count_insecure(hooks: &Vec<WebhookInfo>) -> (n: usize)
    ensures
        n == insecure_count(hooks@, hooks@.len() as int),
        n <= hooks@.len(),
{
    let mut n: usize = 0;
    let mut i: usize = 0;
    while i < hooks.len()
        invariant
            i <= hooks@.len(),
            n == insecure_count(hooks@, i as int),
            n <= i,
        decreases hooks@.len() - i,
    {
        let h = &hooks[i];
        if !str_starts_with(h.url.as_str(), "https://") || !h.has_secret {
            n = n + 1;
        }
        i = i + 1;
    }
    n
}

/// Over `repos[..k]`: the repositories with an insecure webhook, the number
/// of webhooks, and the number of insecure webhooks.
pub open spec fn repo_tally(repos: Seq<&RepoContext>, k: int) -> (nat, nat, nat)
    decreases k,
{
    if k <= 0 || k > repos.len() {
        (0, 0, 0)
    } else {
        let (b, t, i) = repo_tally(repos, k - 1);
        let hooks = repos[k - 1].webhooks.hooks_spec();
        let bad = insecure_count(hooks, hooks.len() as int);
        (if bad > 0 { b + 1 } else { b }, t + hooks.len(), i + bad)
    }
}

/// "webhook" or "webhooks".
pub open spec fn hooks_word(n: nat) -> Seq<char> {
    noun_spec(n, "webhook"@, "webhooks"@)
}

/// The organization half of the description.
pub open spec fn org_phrase(org: Option<&OrgContext>) -> Option<Seq<char>> {
    match org {
        Some(o) => {
            let t = o.webhooks@.len();
            let bad = insecure_count(o.webhooks@, t as int);
            if t == 0 {
                Some("no organization webhooks are configured"@)
            } else if bad == 0 {
                Some("all "@ + dec(t) + " organization "@ + hooks_word(t) + " use HTTPS with a secret"@)
            } else {
                Some(dec(bad) + "/"@ + dec(t) + " organization "@ + hooks_word(t) + " lack HTTPS or a secret"@)
            }
        },
        None => None,
    }
}

/// The repository half of the description.
pub open spec fn repo_phrase(total: nat, bad_repos: nat, hook_total: nat, insecure: nat) -> Option<Seq<char>> {
    if total == 0 {
        None
    } else if hook_total == 0 {
        Some("no repository webhooks across "@ + dec(total) + " "@ + repos_word_spec(total))
    } else if insecure == 0 {
        Some("all "@ + dec(hook_total) + " repository "@ + hooks_word(hook_total) + " use HTTPS with a secret"@)
    } else {
        Some(dec(insecure) + " repository "@ + hooks_word(insecure) + " across "@ + dec(bad_repos) + " "@
            + repos_word_spec(bad_repos) + " lack HTTPS or a secret"@)
    }
}

/// The whole description.
pub open spec fn description_spec(org: Option<&OrgContext>, repos: Seq<&RepoContext>) -> Option<Seq<char>> {
    let (b, t, i) = repo_tally(repos, repos.len() as int);
    join_phrases(org_phrase(org), repo_phrase(repos.len(), b, t, i))
}

/// The total number of repository webhooks, which must fit in a `usize`.
pub open spec fn hook_total(repos: Seq<&RepoContext>) -> nat {
    repo_tally(repos, repos.len() as int).1
}

proof fn lemma_tally_mono(repos: Seq<&RepoContext>, j: int, k: int)
    requires
        0 <= j <= k <= repos.len(),
    ensures
        repo_tally(repos, j).1 <= repo_tally(repos, k).1,
        repo_tally(repos, k).2 <= repo_tally(repos, k).1,
        repo_tally(repos, k).0 <= k,
    decreases k,
{
    if k > 0 {
        lemma_tally_mono(repos, if j == k { k - 1 } else { j }, k - 1);
        let hooks = repos[k - 1].webhooks.hooks_spec();
        lemma_insecure_le(hooks, hooks.len() as int);
    }
}

proof fn lemma_insecure_le(hooks: Seq<WebhookInfo>, k: int)
    requires
        0 <= k <= hooks.len(),
    ensures
        insecure_count(hooks, k) <= k,
    decreases k,
{
    if k > 0 {
        lemma_insecure_le(hooks, k - 1);
    }
}

fn hook_counts(state: &WebhooksState) -> (r: (usize, usize))
    ensures
        r.0 == state.hooks_spec().len(),
        r.1 == insecure_count(state.hooks_spec(), state.hooks_spec().len() as int),
{
    match state {
        WebhooksState::Listed(v) => (v.len(), count_insecure(v)),
        WebhooksState::NoPermission => (0, 0),
    }
}

fn org_text(org: Option<&OrgContext>) -> (r: Option<String>)
    ensures
        opt_view(r) == org_phrase(org),
{
    match org {
        Some(o) => {
            let t = o.webhooks.len();
            let bad = count_insecure(&o.webhooks);
            let mut s = String::new();
            if t == 0 {
                s.append("no organization webhooks are configured");
            } else if bad == 0 {
                s.append("all ");
                push_dec(&mut s, t);
                s.append(" organization ");
                s.append(noun(t, "webhook", "webhooks"));
                s.append(" use HTTPS with a secret");
            } else {
                push_dec(&mut s, bad);
                s.append("/");
                push_dec(&mut s, t);
                s.append(" organization ");
                s.append(noun(t, "webhook", "webhooks"));
                s.append(" lack HTTPS or a secret");
            }
            Some(s)
        },
        None => None,
    }
}

fn repo_text(total: usize, bad_repos: usize, hook_total: usize, insecure: usize) -> (r: Option<String>)
    ensures
        opt_view(r) == repo_phrase(total as nat, bad_repos as nat, hook_total as nat, insecure as nat),
{
    if total == 0 {
        return None;
    }
    let mut s = String::new();
    if hook_total == 0 {
        s.append("no repository webhooks across ");
        push_dec(&mut s, total);
        s.append(" ");
        s.append(repos_word(total));
    } else if insecure == 0 {
        s.append("all ");
        push_dec(&mut s, hook_total);
        s.append(" repository ");
        s.append(noun(hook_total, "webhook", "webhooks"));
        s.append(" use HTTPS with a secret");
    } else {
        push_dec(&mut s, insecure);
        s.append(" repository ");
        s.append(noun(insecure, "webhook", "webhooks"));
        s.append(" across ");
        push_dec(&mut s, bad_repos);
        s.append(" ");
        s.append(repos_word(bad_repos));
        s.append(" lack HTTPS or a secret");
    }
    Some(s)
}

/// How secure the organization's and the repositories' webhooks are. The
/// repository webhooks are counted in a `usize`; should their number not
/// fit, no description is given.
pub fn description(ctx: StateCtx<'_>) -> (r: Option<String>)
    ensures
        hook_total(ctx.repos@) <= usize::MAX ==> opt_view(r) == description_spec(ctx.org, ctx.repos@),
        hook_total(ctx.repos@) > usize::MAX ==> r is None,
{
    let total = ctx.repos.len();
    let mut bad_repos: usize = 0;
    let mut hook_sum: usize = 0;
    let mut insecure: usize = 0;
    let mut i: usize = 0;
    while i < total
        invariant
            total == ctx.repos@.len(),
            i <= total,
            (bad_repos as nat, hook_sum as nat, insecure as nat) == repo_tally(ctx.repos@, i as int),
        decreases total - i,
    {
        proof {
            lemma_tally_mono(ctx.repos@, i + 1, total as int);
            lemma_tally_mono(ctx.repos@, i + 1, i + 1);
        }
        let (t, bad) = hook_counts(&ctx.repos[i].webhooks);
        match hook_sum.checked_add(t) {
            Some(v) => {
                hook_sum = v;
            },
            None => {
                return None;
            },
        }
        insecure = insecure + bad;
        if bad > 0 {
            bad_repos = bad_repos + 1;
        }
        i = i + 1;
    }
    join_texts(org_text(ctx.org), repo_text(total, bad_repos, hook_sum, insecure))
}

} // verus!
