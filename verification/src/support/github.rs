//! The GitHub REST API as moat sees it: which token is used, how a reply is
//! read (found, missing, refused, gated by the plan, rate limited), how
//! pages follow each other, and the messages that explain a failure. The
//! requests themselves are sent at the edge; every decision taken on what
//! comes back is made here.
use vstd::prelude::*;
use crate::text::{
    chars_of, contains, contains_exec, dec, ends_with, ends_with_exec, find, find_from_exec, lemma_find_from,
    lower, lower_exec, opt_view, parse_i64, parse_i64_exec, push_chars, push_dec, push_dec_u64, push_range,
    push_str, split, split_exec, string_views, starts_with, starts_with_exec, string_of, trim, trim_end_set,
    trim_end_set_exec, trim_exec, views,
};

verus! {

/// The API root used unless another one is configured.
pub const DEFAULT_API: &'static str = "https://api.github.com";

/// The `User-Agent` moat sends.
pub fn user_agent() -> (s: String)
    ensures
        s@ == "moat/0.1.0"@,
{
    String::from_str("moat/0.1.0")
}

/// Where the GitHub token came from. Drives the remediation copy moat shows
/// when the token turns out to be under-scoped, SAML-blocked, or rejected.
#[derive(Clone, Copy, Debug, PartialEq, Eq, Structural)]
pub enum AuthSource {
    /// `GITHUB_TOKEN` environment variable.
    GithubTokenEnv,
    /// `GH_TOKEN` environment variable.
    GhTokenEnv,
    /// Output of `gh auth token`.
    GhCli,
}

/// How a token source is named to the user.
pub open spec fn auth_source_label(s: AuthSource) -> Seq<char> {
    match s {
        AuthSource::GithubTokenEnv => "GITHUB_TOKEN"@,
        AuthSource::GhTokenEnv => "GH_TOKEN"@,
        AuthSource::GhCli => "gh auth token"@,
    }
}

impl AuthSource {
    /// The name of the source, as messages show it.
    pub fn label(&self) -> (s: &'static str)
        ensures
            s@ == auth_source_label(*self),
    {
        match self {
            AuthSource::GithubTokenEnv => "GITHUB_TOKEN",
            AuthSource::GhTokenEnv => "GH_TOKEN",
            AuthSource::GhCli => "gh auth token",
        }
    }
}

/// The token to use from the two environment variables, in order: the first
/// whose value is not blank, with its source.
pub open spec fn token_choice(github_token: Option<Seq<char>>, gh_token: Option<Seq<char>>) -> Option<(Seq<char>, AuthSource)> {
    match github_token {
        Some(v) if trim(v).len() > 0 => Some((v, AuthSource::GithubTokenEnv)),
        _ => match gh_token {
            Some(v) if trim(v).len() > 0 => Some((v, AuthSource::GhTokenEnv)),
            _ => None,
        },
    }
}

fn not_blank(v: &str) -> (b: bool)
    ensures
        b == (trim(v@).len() > 0),
{
    trim_exec(&chars_of(v)).len() > 0
}

/// Picks the token from `GITHUB_TOKEN`, then `GH_TOKEN`; `None` when both are
/// unset or blank (the gh CLI is asked next).
pub fn choose_token(github_token: Option<&str>, gh_token: Option<&str>) -> (r: Option<(String, AuthSource)>)
    ensures
        match r {
            Some((t, src)) => token_choice(
                match github_token { Some(v) => Some(v@), None => None },
                match gh_token { Some(v) => Some(v@), None => None },
            ) == Some((t@, src)),
            None => token_choice(
                match github_token { Some(v) => Some(v@), None => None },
                match gh_token { Some(v) => Some(v@), None => None },
            ) is None,
        },
{
    if let Some(v) = github_token {
        if not_blank(v) {
            return Some((String::from_str(v), AuthSource::GithubTokenEnv));
        }
    }
    if let Some(v) = gh_token {
        if not_blank(v) {
            return Some((String::from_str(v), AuthSource::GhTokenEnv));
        }
    }
    None
}

/// The message when `gh auth token` printed nothing.
pub const GH_EMPTY_TOKEN: &'static str = "`gh auth token` returned empty output; run `gh auth login` first";

/// What `gh auth token` gives: the trimmed token when it succeeded and
/// printed one, else the message explaining why there is none.
pub open spec fn gh_token_spec(success: bool, stdout: Seq<char>, stderr: Seq<char>) -> Result<Seq<char>, Seq<char>> {
    if !success {
        Err("`gh auth token` failed: "@ + trim(stderr))
    } else if trim(stdout).len() == 0 {
        Err(GH_EMPTY_TOKEN@)
    } else {
        Ok(trim(stdout))
    }
}

/// Reads the outcome of running `gh auth token` (its exit status and output).
pub fn gh_cli_token(success: bool, stdout: &str, stderr: &str) -> (r: Result<String, String>)
    ensures
        match r {
            Ok(t) => gh_token_spec(success, stdout@, stderr@) == Ok::<Seq<char>, Seq<char>>(t@),
            Err(m) => gh_token_spec(success, stdout@, stderr@) == Err::<Seq<char>, Seq<char>>(m@),
        },
{
    if !success {
        let mut m = String::from_str("`gh auth token` failed: ");
        push_chars(&mut m, &trim_exec(&chars_of(stderr)));
        return Err(m);
    }
    let t = trim_exec(&chars_of(stdout));
    if t.len() == 0 {
        return Err(String::from_str(GH_EMPTY_TOKEN));
    }
    Ok(string_of(&t))
}

/// `base` without trailing slashes.
pub fn normalize_base(base: &str) -> (r: String)
    ensures
        r@ == trim_end_set(base@, "/"@),
{
    let slash = chars_of("/");
    string_of(&trim_end_set_exec(&chars_of(base), &slash))
}

/// The URL of `path`: a full URL is kept, anything else is put after the base.
pub open spec fn api_url_spec(base: Seq<char>, path: Seq<char>) -> Seq<char> {
    if starts_with(path, "http"@) { path } else { base + path }
}

/// The URL of `path` under the API root `base`.
pub fn api_url(base: &str, path: &str) -> (r: String)
    ensures
        r@ == api_url_spec(base@, path@),
{
    let p = chars_of(path);
    if starts_with_exec(&p, &chars_of("http")) {
        String::from_str(path)
    } else {
        let mut r = String::from_str(base);
        push_str(&mut r, path);
        r
    }
}

/// The first page of a listing: 100 items a page, the parameter joined with
/// `&` when the path already has a query.
pub open spec fn first_page_spec(url: Seq<char>, path: Seq<char>) -> Seq<char> {
    url + (if contains(path, "?"@) { "&"@ } else { "?"@ }) + "per_page=100"@
}

/// The URL of the first page of the listing at `path`, whose full URL is `url`.
pub fn first_page_url(url: &str, path: &str) -> (r: String)
    ensures
        r@ == first_page_spec(url@, path@),
{
    let mut r = String::from_str(url);
    if contains_exec(&chars_of(path), &chars_of("?")) {
        push_str(&mut r, "&");
    } else {
        push_str(&mut r, "?");
    }
    push_str(&mut r, "per_page=100");
    r
}

/// Result of probing `GET /user` at startup.
pub struct Preflight {
    /// Granted OAuth scopes for classic PATs / gh OAuth tokens. `None` when the
    /// token type doesn't expose scopes (fine-grained PATs, GitHub App tokens).
    pub scopes: Option<Vec<String>>,
    /// If the org under audit requires SAML SSO and the token isn't authorized
    /// for it, this carries the authorization URL GitHub returned.
    pub sso_url: Option<String>,
    /// True when GitHub returned 401 Unauthorized for `GET /user`.
    pub rejected: bool,
}

/// What a request for one resource found.
pub enum Fetch<T> {
    /// The resource, read.
    Found(T),
    NotFound,
    Forbidden,
}

/// What a request for a resource that some plans lack found.
pub enum Fetch403<T> {
    /// The resource, read.
    Found(T),
    NotFound,
    Forbidden,
    PlanGated,
}

// ---------------------------------------------------------------------------
// Rate limits
// ---------------------------------------------------------------------------

/// `""` for one, `"s"` otherwise.
pub open spec fn plural(n: int) -> Seq<char> {
    if n == 1 { Seq::<char>::empty() } else { "s"@ }
}

/// `"in <n> <unit>"` with the unit made plural unless `n` is one.
pub open spec fn in_units(n: nat, unit: Seq<char>) -> Seq<char> {
    "in "@ + dec(n) + " "@ + unit + plural(n as int)
}

/// When to retry, in words: seconds under a minute, else whole minutes
/// rounded up, shown as hours and minutes from an hour on.
pub open spec fn retry_hint_spec(secs: int) -> Seq<char> {
    if secs <= 0 {
        "now (please retry)"@
    } else if secs < 60 {
        in_units(secs as nat, "second"@)
    } else {
        let mins = (secs + 59) / 60;
        if mins < 60 {
            in_units(mins as nat, "minute"@)
        } else {
            let hours = mins / 60;
            let rem = mins % 60;
            if rem == 0 {
                in_units(hours as nat, "hour"@)
            } else {
                in_units(hours as nat, "hour"@) + " "@ + dec(rem as nat) + " minute"@ + plural(rem)
            }
        }
    }
}

fn push_units(s: &mut String, n: u64, unit: &str)
    ensures
        final(s)@ == old(s)@ + in_units(n as nat, unit@),
{
    push_str(s, "in ");
    push_dec_u64(s, n);
    push_str(s, " ");
    push_str(s, unit);
    if n != 1 {
        push_str(s, "s");
    }
    proof {
        if n == 1 {
            assert(plural(n as int) =~= Seq::<char>::empty());
        }
    }
}

/// Words for "retry in `secs` seconds".
pub fn format_retry_hint(secs: i64) -> (r: String)
    ensures
        r@ == retry_hint_spec(secs as int),
{
    let mut r = String::new();
    if secs <= 0 {
        push_str(&mut r, "now (please retry)");
        return r;
    }
    let s: u64 = secs as u64;
    if s < 60 {
        push_units(&mut r, s, "second");
        return r;
    }
    let mins: u64 = s / 60 + if s % 60 != 0 { 1u64 } else { 0u64 };
    assert(mins == (secs + 59) / 60) by (nonlinear_arith)
        requires
            mins == s / 60 + if s % 60 != 0 { 1int } else { 0int },
            s == secs,
            s > 0,
    ;
    if mins < 60 {
        push_units(&mut r, mins, "minute");
        return r;
    }
    let hours: u64 = mins / 60;
    let rem: u64 = mins % 60;
    push_units(&mut r, hours, "hour");
    if rem != 0 {
        push_str(&mut r, " ");
        push_dec_u64(&mut r, rem);
        push_str(&mut r, " minute");
        if rem != 1 {
            push_str(&mut r, "s");
        } else {
            assert(plural(rem as int) =~= Seq::<char>::empty());
        }
    }
    r
}

/// Seconds until a retry is allowed: `Retry-After` when it holds a number
/// (negative read as 0), else the time left until `X-RateLimit-Reset` (a unix
/// time) from `now`, not below 0.
pub open spec fn retry_after_spec(retry_after: Option<Seq<char>>, reset: Option<Seq<char>>, now: int) -> Option<int> {
    let from_retry = match retry_after {
        Some(v) => parse_i64(trim(v)),
        None => None,
    };
    match from_retry {
        Some(secs) => Some(if secs < 0 { 0 } else { secs as int }),
        None => match reset {
            Some(r) => match parse_i64(r) {
                Some(x) => Some(if x - now < 0 { 0 } else { x - now }),
                None => None,
            },
            None => None,
        },
    }
}

/// Seconds until a retry is allowed, from the two headers and the current
/// unix time `now`.
pub fn retry_after_seconds(retry_after: Option<&str>, reset: Option<&str>, now: i64) -> (r: Option<i64>)
    requires
        now >= 0,
    ensures
        match r {
            Some(x) => retry_after_spec(
                match retry_after { Some(v) => Some(v@), None => None },
                match reset { Some(v) => Some(v@), None => None },
                now as int,
            ) == Some(x as int),
            None => retry_after_spec(
                match retry_after { Some(v) => Some(v@), None => None },
                match reset { Some(v) => Some(v@), None => None },
                now as int,
            ) is None,
        },
{
    if let Some(v) = retry_after {
        if let Some(secs) = parse_i64_exec(&trim_exec(&chars_of(v))) {
            return Some(if secs < 0 { 0 } else { secs });
        }
    }
    if let Some(rv) = reset {
        if let Some(x) = parse_i64_exec(&chars_of(rv)) {
            return Some(if x <= now { 0 } else { x - now });
        }
    }
    None
}

/// Advice after a primary (hourly quota) rate limit.
pub const PRIMARY_ADVICE: &'static str = "\n\nAuthenticated requests get 5,000/hour. To raise this, run moat against fewer repos at once, or use a token tied to a GitHub App installation (15,000/hour).";

/// Advice after a secondary (burst) rate limit.
pub const SECONDARY_ADVICE: &'static str = "\n\nGitHub throttles bursts of concurrent requests. Wait for the window above to pass and re-run moat.";

/// The rate-limit message: its kind, when to retry, and advice.
pub open spec fn rate_limit_text(primary: bool, retry: Option<int>) -> Seq<char> {
    "GitHub API rate limit reached ("@ + (if primary { "primary"@ } else { "secondary"@ }) + "). Try again "@
        + (match retry { Some(s) => retry_hint_spec(s), None => "in a few minutes"@ }) + "."@
        + (if primary { PRIMARY_ADVICE@ } else { SECONDARY_ADVICE@ })
}

/// `X-RateLimit-Remaining` says no request is left.
pub open spec fn remaining_zero(remaining: Option<Seq<char>>) -> bool {
    match remaining {
        Some(v) => parse_i64(v) == Some(0i64),
        None => false,
    }
}

/// The body speaks of a rate limit (compared in lower case).
pub open spec fn mentions_rate_limit(body: Seq<char>) -> bool {
    contains(lower(body), "rate limit"@) || contains(lower(body), "secondary rate limit"@)
        || contains(lower(body), "abuse detection"@)
}

/// A reply is a rate limit when it is a 429, or a 403 whose quota is spent or
/// whose body says so; the message then names the kind (primary when the
/// quota is spent) and when to retry.
pub open spec fn rate_limit_spec(status: u16, remaining: Option<Seq<char>>, body: Seq<char>, retry: Option<int>) -> Option<Seq<char>> {
    if status == 429 || (status == 403 && (remaining_zero(remaining) || mentions_rate_limit(body))) {
        Some(rate_limit_text(remaining_zero(remaining), retry))
    } else {
        None
    }
}

/// The message for a rate-limited reply, or `None` for any other reply.
pub fn rate_limit_message(status: u16, remaining: Option<&str>, body: &str, retry: Option<i64>) -> (r: Option<String>)
    ensures
        match r {
            Some(m) => rate_limit_spec(status, match remaining { Some(v) => Some(v@), None => None }, body@,
                match retry { Some(x) => Some(x as int), None => None }) == Some(m@),
            None => rate_limit_spec(status, match remaining { Some(v) => Some(v@), None => None }, body@,
                match retry { Some(x) => Some(x as int), None => None }) is None,
        },
{
    let zero = match remaining {
        Some(v) => match parse_i64_exec(&chars_of(v)) {
            Some(n) => n == 0,
            None => false,
        },
        None => false,
    };
    let lc = lower_exec(&chars_of(body));
    let mentions = contains_exec(&lc, &chars_of("rate limit")) || contains_exec(&lc, &chars_of("secondary rate limit"))
        || contains_exec(&lc, &chars_of("abuse detection"));
    if !(status == 429 || (status == 403 && (zero || mentions))) {
        return None;
    }
    let mut m = String::from_str("GitHub API rate limit reached (");
    push_str(&mut m, if zero { "primary" } else { "secondary" });
    push_str(&mut m, "). Try again ");
    match retry {
        Some(secs) => {
            let h = format_retry_hint(secs);
            push_str(&mut m, h.as_str());
        },
        None => push_str(&mut m, "in a few minutes"),
    }
    push_str(&mut m, ".");
    push_str(&mut m, if zero { PRIMARY_ADVICE } else { SECONDARY_ADVICE });
    Some(m)
}

// ---------------------------------------------------------------------------
// Replies
// ---------------------------------------------------------------------------

/// The reason phrase that the `http` crate (through `reqwest::StatusCode`)
/// knows for a status code, if it knows one.
pub uninterp spec fn canonical_reason_of(code: u16) -> Option<Seq<char>>;

/// Calls `reqwest::StatusCode::from_u16` and `StatusCode::canonical_reason`.
/// Claimed: the result is the phrase named `canonical_reason_of(code)`, a
/// fixed table of the crate; every code from 100 to 999 is accepted.
#[verifier::external_body]
fn canonical_reason(code: u16) -> (r: Option<&'static str>)
    requires
        100 <= code <= 999,
    ensures
        match r {
            Some(t) => canonical_reason_of(code) == Some(t@),
            None => canonical_reason_of(code) is None,
        },
{
    match reqwest::StatusCode::from_u16(code) {
        Ok(status) => status.canonical_reason(),
        Err(_) => None,
    }
}

/// A status as `StatusCode` displays it: the number, then the reason phrase
/// or `<unknown status code>`.
pub open spec fn status_line_spec(code: u16, reason: Option<Seq<char>>) -> Seq<char> {
    dec(code as nat) + " "@ + match reason {
        Some(t) => t,
        None => "<unknown status code>"@,
    }
}

/// The status line for `code`, given its reason phrase.
pub fn status_line(code: u16, reason: Option<&str>) -> (r: String)
    ensures
        r@ == status_line_spec(code, match reason { Some(t) => Some(t@), None => None }),
{
    let mut r = String::new();
    push_dec(&mut r, code as usize);
    push_str(&mut r, " ");
    match reason {
        Some(t) => push_str(&mut r, t),
        None => push_str(&mut r, "<unknown status code>"),
    }
    r
}

/// The status line for `code`.
pub open spec fn status_text_spec(code: u16) -> Seq<char> {
    status_line_spec(code, canonical_reason_of(code))
}

/// The status line for `code`, as the error messages show it.
pub fn status_text(code: u16) -> (r: String)
    requires
        100 <= code <= 999,
    ensures
        r@ == status_text_spec(code),
{
    let reason = canonical_reason(code);
    status_line(code, reason)
}

/// The error for a reply moat has no use for.
pub open spec fn http_error_spec(url: Seq<char>, status: Seq<char>, body: Seq<char>) -> Seq<char> {
    "GET "@ + url + " -> "@ + status + ": "@ + body
}

/// `GET <url> -> <status>: <body>`.
pub fn http_error(url: &str, status: &str, body: &str) -> (r: String)
    ensures
        r@ == http_error_spec(url@, status@, body@),
{
    let mut r = String::from_str("GET ");
    push_str(&mut r, url);
    push_str(&mut r, " -> ");
    push_str(&mut r, status);
    push_str(&mut r, ": ");
    push_str(&mut r, body);
    r
}

/// What came back for one request: the status, the body, and the headers
/// that the decisions read (each `None` when absent or not visible ASCII).
pub struct Reply {
    pub status: u16,
    pub body: String,
    pub ratelimit_remaining: Option<String>,
    pub retry_after: Option<String>,
    pub ratelimit_reset: Option<String>,
}

/// The rate-limit message for a reply received at unix time `now`.
pub open spec fn reply_rate_limit(r: Reply, now: int) -> Option<Seq<char>> {
    rate_limit_spec(r.status, opt_view(r.ratelimit_remaining), r.body@,
        retry_after_spec(opt_view(r.retry_after), opt_view(r.ratelimit_reset), now))
}

fn opt_str(o: &Option<String>) -> (r: Option<&str>)
    ensures
        match r { Some(v) => Some(v@), None => None::<Seq<char>> } == opt_view(*o),
{
    match o {
        Some(v) => Some(v.as_str()),
        None => None,
    }
}

/// The rate-limit message for `reply`, or `None` when it is not rate limited.
pub fn reply_rate_limit_message(reply: &Reply, now: i64) -> (r: Option<String>)
    requires
        now >= 0,
    ensures
        match r {
            Some(m) => reply_rate_limit(*reply, now as int) == Some(m@),
            None => reply_rate_limit(*reply, now as int) is None,
        },
{
    let retry = retry_after_seconds(opt_str(&reply.retry_after), opt_str(&reply.ratelimit_reset), now);
    rate_limit_message(reply.status, opt_str(&reply.ratelimit_remaining), reply.body.as_str(), retry)
}

/// The kinds of single requests.
#[derive(Clone, Copy, Debug, PartialEq, Eq, Structural)]
pub enum Request {
    /// A JSON document.
    Json,
    /// A file's raw contents.
    Raw,
    /// Whether the resource exists (an empty 204 counts).
    Presence,
}

/// The body says the feature needs another plan.
pub open spec fn plan_gated_body(body: Seq<char>) -> bool {
    contains(body, "Upgrade to GitHub"@)
}

/// How a reply to a single request is read: 200 (and 204 for a presence
/// probe) is found; a 204 where JSON is expected is an error; 404 is not
/// found; 403 and 422 are refused (plan-gated when asked for and the body
/// says so) unless rate limited; a 429 is an error with the rate-limit
/// message when there is one; anything else is an error naming the status.
pub open spec fn classify_spec(kind: Request, plan_aware: bool, r: Reply, url: Seq<char>, now: int) -> Result<Fetch403<()>, Seq<char>> {
    let generic = http_error_spec(url, status_text_spec(r.status), r.body@);
    if r.status == 200 || (r.status == 204 && kind == Request::Presence) {
        Ok(Fetch403::Found(()))
    } else if r.status == 204 && kind == Request::Json {
        Err("expected JSON body, got 204 from "@ + url)
    } else if r.status == 404 {
        Ok(Fetch403::NotFound)
    } else if r.status == 403 || r.status == 422 {
        match reply_rate_limit(r, now) {
            Some(m) => Err(m),
            None => Ok(if plan_aware && plan_gated_body(r.body@) { Fetch403::PlanGated } else { Fetch403::Forbidden }),
        }
    } else if r.status == 429 {
        match reply_rate_limit(r, now) {
            Some(m) => Err(m),
            None => Err(generic),
        }
    } else {
        Err(generic)
    }
}

/// The view of a classified reply.
pub open spec fn classified_view(r: Result<Fetch403<()>, String>) -> Result<Fetch403<()>, Seq<char>> {
    match r {
        Ok(f) => Ok(f),
        Err(m) => Err(m@),
    }
}

/// Reads the reply to a single request for `url`, received at unix time
/// `now`. `Found` means the body is to be read.
pub fn classify(kind: Request, plan_aware: bool, reply: &Reply, url: &str, now: i64) -> (r: Result<Fetch403<()>, String>)
    requires
        100 <= reply.status <= 999,
        now >= 0,
    ensures
        classified_view(r) == classify_spec(kind, plan_aware, *reply, url@, now as int),
{
    let st = reply.status;
    if st == 200 || (st == 204 && kind == Request::Presence) {
        Ok(Fetch403::Found(()))
    } else if st == 204 && kind == Request::Json {
        let mut m = String::from_str("expected JSON body, got 204 from ");
        push_str(&mut m, url);
        Err(m)
    } else if st == 404 {
        Ok(Fetch403::NotFound)
    } else if st == 403 || st == 422 {
        match reply_rate_limit_message(reply, now) {
            Some(m) => Err(m),
            None => {
                if plan_aware && contains_exec(&chars_of(reply.body.as_str()), &chars_of("Upgrade to GitHub")) {
                    Ok(Fetch403::PlanGated)
                } else {
                    Ok(Fetch403::Forbidden)
                }
            },
        }
    } else if st == 429 {
        match reply_rate_limit_message(reply, now) {
            Some(m) => Err(m),
            None => Err(http_error(url, status_text(st).as_str(), reply.body.as_str())),
        }
    } else {
        Err(http_error(url, status_text(st).as_str(), reply.body.as_str()))
    }
}

// ---------------------------------------------------------------------------
// Pages
// ---------------------------------------------------------------------------

/// The marker of the next page in a `Link` header.
pub const REL_NEXT: &'static str = "rel=\"next\"";

/// The target of the first of `parts[i..]` (each trimmed) that ends with
/// `rel="next"`: the text between its first `<` and its first `>`, or `None`
/// when either is missing or no part is marked.
pub open spec fn next_link_from(parts: Seq<Seq<char>>, i: int) -> Option<Seq<char>>
    decreases parts.len() - i,
{
    if i < 0 || i >= parts.len() {
        None
    } else {
        let p = trim(parts[i]);
        if ends_with(p, REL_NEXT@) {
            let a = find(p, "<"@);
            let b = find(p, ">"@);
            if a < 0 || b < 0 { None } else { Some(p.subrange(a + 1, b)) }
        } else {
            next_link_from(parts, i + 1)
        }
    }
}

/// The marked part of `parts[i..]`, if any, has its `>` after its `<`
/// whenever both occur (else the link cannot be cut out of it).
pub open spec fn link_ok_from(parts: Seq<Seq<char>>, i: int) -> bool
    decreases parts.len() - i,
{
    if i < 0 || i >= parts.len() {
        true
    } else {
        let p = trim(parts[i]);
        if ends_with(p, REL_NEXT@) {
            let a = find(p, "<"@);
            let b = find(p, ">"@);
            a < 0 || b < 0 || a + 1 <= b
        } else {
            link_ok_from(parts, i + 1)
        }
    }
}

/// The next page named by a `Link` header.
pub open spec fn next_link_spec(link: Seq<char>) -> Option<Seq<char>> {
    next_link_from(split(link, ","@), 0)
}

/// A `Link` header whose next page can be cut out.
pub open spec fn link_ok(link: Seq<char>) -> bool {
    link_ok_from(split(link, ","@), 0)
}

/// Can the next page be cut out of this `Link` header?
pub fn link_is_well_formed(link: &str) -> (b: bool)
    ensures
        b == link_ok(link@),
{
    proof { reveal_strlit(","); }
    let parts = split_exec(&chars_of(link), &chars_of(","));
    let ghost ps = views(parts@);
    let mut i: usize = 0;
    while i < parts.len()
        invariant
            ps == views(parts@),
            ps == split(link@, ","@),
            i <= parts@.len(),
            link_ok_from(ps, i as int) == link_ok_from(ps, 0),
        decreases parts@.len() - i,
    {
        let p = trim_exec(&parts[i]);
        assert(p@ == trim(ps[i as int]));
        if ends_with_exec(&p, &chars_of(REL_NEXT)) {
            let a = find_from_exec(&p, &chars_of("<"), 0);
            let b = find_from_exec(&p, &chars_of(">"), 0);
            return match (a, b) {
                (Some(x), Some(y)) => x < y,
                _ => true,
            };
        }
        i = i + 1;
    }
    true
}

/// The next page named by a `Link` header.
pub fn next_link(link: &str) -> (r: Option<String>)
    requires
        link_ok(link@),
    ensures
        opt_view(r) == next_link_spec(link@),
{
    proof { reveal_strlit(","); }
    let parts = split_exec(&chars_of(link), &chars_of(","));
    let ghost ps = views(parts@);
    let mut i: usize = 0;
    while i < parts.len()
        invariant
            ps == views(parts@),
            ps == split(link@, ","@),
            i <= parts@.len(),
            next_link_from(ps, i as int) == next_link_from(ps, 0),
            link_ok_from(ps, i as int),
        decreases parts@.len() - i,
    {
        let p = trim_exec(&parts[i]);
        assert(p@ == trim(ps[i as int]));
        if ends_with_exec(&p, &chars_of(REL_NEXT)) {
            let a = find_from_exec(&p, &chars_of("<"), 0);
            let b = find_from_exec(&p, &chars_of(">"), 0);
            match (a, b) {
                (Some(x), Some(y)) => {
                    proof { lemma_find_from(p@, ">"@, 0); }
                    let mut out: Vec<char> = Vec::new();
                    push_range(&mut out, &p, x + 1, y);
                    return Some(string_of(&out));
                },
                _ => {
                    return None;
                },
            }
        }
        i = i + 1;
    }
    None
}

/// The abstract value of a pagination step.
pub enum PageView {
    /// The page is read; the next one is fetched when there is one.
    Next(Option<Seq<char>>),
    /// The listing ends here with this answer.
    Stop(Fetch403<()>),
}

/// What one page of a listing leads to.
pub enum PageStep {
    /// The page's items are to be read; then the next page, if named.
    Next(Option<String>),
    /// The listing ends here with this answer.
    Stop(Fetch403<()>),
}

/// The abstract value of a page step or its error.
pub open spec fn page_view(r: Result<PageStep, String>) -> Result<PageView, Seq<char>> {
    match r {
        Ok(PageStep::Next(n)) => Ok(PageView::Next(opt_view(n))),
        Ok(PageStep::Stop(f)) => Ok(PageView::Stop(f)),
        Err(m) => Err(m@),
    }
}

/// How a page is read. A success (2xx) names the next page through the
/// `Link` header. On the first page a 403 or 422 is refused (plan-gated when
/// asked for and the body says so) unless rate limited, a 404 is not found,
/// a 429 is an error; on a later page a 403 or 429 is an error, with the
/// rate-limit message when there is one. Any other failure is an error
/// naming the status.
pub open spec fn page_step_spec(first: bool, plan_aware: bool, r: Reply, url: Seq<char>, link: Option<Seq<char>>, now: int) -> Result<PageView, Seq<char>> {
    let generic = http_error_spec(url, status_text_spec(r.status), r.body@);
    if 200 <= r.status <= 299 {
        Ok(PageView::Next(match link { Some(l) => next_link_spec(l), None => None }))
    } else if first && (r.status == 403 || r.status == 422) {
        match reply_rate_limit(r, now) {
            Some(m) => Err(m),
            None => Ok(PageView::Stop(if plan_aware && plan_gated_body(r.body@) { Fetch403::PlanGated } else { Fetch403::Forbidden })),
        }
    } else if first && r.status == 404 {
        Ok(PageView::Stop(Fetch403::NotFound))
    } else if r.status == 429 || (!first && r.status == 403) {
        match reply_rate_limit(r, now) {
            Some(m) => Err(m),
            None => Err(generic),
        }
    } else {
        Err(generic)
    }
}

/// Reads the reply for one page of a listing (`first` for the first page),
/// with the `Link` header that came with it.
pub fn page_step(first: bool, plan_aware: bool, reply: &Reply, url: &str, link: Option<&str>, now: i64) -> (r: Result<PageStep, String>)
    requires
        100 <= reply.status <= 999,
        now >= 0,
        match link { Some(l) => link_ok(l@), None => true },
    ensures
        page_view(r) == page_step_spec(first, plan_aware, *reply, url@, match link { Some(l) => Some(l@), None => None }, now as int),
{
    let st = reply.status;
    if 200 <= st && st <= 299 {
        let n = match link {
            Some(l) => next_link(l),
            None => None,
        };
        Ok(PageStep::Next(n))
    } else if first && (st == 403 || st == 422) {
        match reply_rate_limit_message(reply, now) {
            Some(m) => Err(m),
            None => {
                if plan_aware && contains_exec(&chars_of(reply.body.as_str()), &chars_of("Upgrade to GitHub")) {
                    Ok(PageStep::Stop(Fetch403::PlanGated))
                } else {
                    Ok(PageStep::Stop(Fetch403::Forbidden))
                }
            },
        }
    } else if first && st == 404 {
        Ok(PageStep::Stop(Fetch403::NotFound))
    } else if st == 429 || (!first && st == 403) {
        match reply_rate_limit_message(reply, now) {
            Some(m) => Err(m),
            None => Err(http_error(url, status_text(st).as_str(), reply.body.as_str())),
        }
    } else {
        Err(http_error(url, status_text(st).as_str(), reply.body.as_str()))
    }
}

// ---------------------------------------------------------------------------
// The startup probe
// ---------------------------------------------------------------------------

/// The rest of the first of `parts[i..]` (each trimmed) that begins with `url=`.
pub open spec fn sso_from(parts: Seq<Seq<char>>, i: int) -> Option<Seq<char>>
    decreases parts.len() - i,
{
    if i < 0 || i >= parts.len() {
        None
    } else if starts_with(trim(parts[i]), "url="@) {
        Some(trim(parts[i]).skip(4))
    } else {
        sso_from(parts, i + 1)
    }
}

/// The authorization URL in an `X-GitHub-SSO` header (`...; url=<url>`).
pub open spec fn sso_url_spec(raw: Seq<char>) -> Option<Seq<char>> {
    sso_from(split(raw, ";"@), 0)
}

/// Reads the authorization URL out of an `X-GitHub-SSO` header.
pub fn sso_url_from(raw: &str) -> (r: Option<String>)
    ensures
        opt_view(r) == sso_url_spec(raw@),
{
    proof { reveal_strlit(";"); reveal_strlit("url="); }
    let parts = split_exec(&chars_of(raw), &chars_of(";"));
    let ghost ps = views(parts@);
    let prefix = chars_of("url=");
    let mut i: usize = 0;
    while i < parts.len()
        invariant
            ps == views(parts@),
            ps == split(raw@, ";"@),
            prefix@ == "url="@,
            prefix@.len() == 4,
            i <= parts@.len(),
            sso_from(ps, i as int) == sso_from(ps, 0),
        decreases parts@.len() - i,
    {
        let p = trim_exec(&parts[i]);
        assert(p@ == trim(ps[i as int]));
        if starts_with_exec(&p, &prefix) {
            assert(p@.len() >= 4);
            let mut out: Vec<char> = Vec::new();
            push_range(&mut out, &p, 4, p.len());
            assert(p@.subrange(4, p@.len() as int) =~= p@.skip(4));
            return Some(string_of(&out));
        }
        i = i + 1;
    }
    None
}

/// The non-blank trimmed pieces of `parts[..k]`, in order.
pub open spec fn scope_items(parts: Seq<Seq<char>>, k: int) -> Seq<Seq<char>>
    decreases k,
{
    if k <= 0 || k > parts.len() {
        Seq::<Seq<char>>::empty()
    } else if trim(parts[k - 1]).len() == 0 {
        scope_items(parts, k - 1)
    } else {
        scope_items(parts, k - 1).push(trim(parts[k - 1]))
    }
}

/// The scopes listed in an `X-OAuth-Scopes` header: split on commas, trimmed,
/// blanks dropped.
pub open spec fn scopes_spec(header: Seq<char>) -> Seq<Seq<char>> {
    let parts = split(header, ","@);
    scope_items(parts, parts.len() as int)
}

/// Reads the scopes of an `X-OAuth-Scopes` header.
pub fn parse_scopes(header: &str) -> (r: Vec<String>)
    ensures
        string_views(r@) == scopes_spec(header@),
{
    proof { reveal_strlit(","); }
    let parts = split_exec(&chars_of(header), &chars_of(","));
    let ghost ps = views(parts@);
    let mut r: Vec<String> = Vec::new();
    let mut i: usize = 0;
    while i < parts.len()
        invariant
            ps == views(parts@),
            ps == split(header@, ","@),
            i <= parts@.len(),
            string_views(r@) == scope_items(ps, i as int),
        decreases parts@.len() - i,
    {
        let p = trim_exec(&parts[i]);
        assert(p@ == trim(ps[i as int]));
        if p.len() > 0 {
            let ghost before = string_views(r@);
            r.push(string_of(&p));
            assert(string_views(r@) =~= before.push(p@));
        }
        i = i + 1;
    }
    r
}

/// The abstract value of a probe's outcome.
pub struct PreflightView {
    pub scopes: Option<Seq<Seq<char>>>,
    pub sso_url: Option<Seq<char>>,
    pub rejected: bool,
}

/// The abstract value of a probe's outcome, or its error.
pub open spec fn preflight_view(r: Result<Preflight, String>) -> Result<PreflightView, Seq<char>> {
    match r {
        Ok(p) => Ok(PreflightView {
            scopes: match p.scopes { Some(v) => Some(string_views(v@)), None => None },
            sso_url: opt_view(p.sso_url),
            rejected: p.rejected,
        }),
        Err(m) => Err(m@),
    }
}

/// How `GET /user` is read at startup: a 200 lists the token's scopes when
/// the scope header is there (classic tokens); a 401 means the token was
/// rejected; a 403 with an SSO authorization URL carries that URL; anything
/// else is an error naming the status.
pub open spec fn preflight_spec(status: u16, scopes: Option<Seq<char>>, sso: Option<Seq<char>>, url: Seq<char>, body: Seq<char>) -> Result<PreflightView, Seq<char>> {
    let sso_url = match sso { Some(h) => sso_url_spec(h), None => None };
    if status == 200 {
        Ok(PreflightView {
            scopes: match scopes { Some(h) => Some(scopes_spec(h)), None => None },
            sso_url: None,
            rejected: false,
        })
    } else if status == 401 {
        Ok(PreflightView { scopes: None, sso_url: None, rejected: true })
    } else if status == 403 && sso_url is Some {
        Ok(PreflightView { scopes: None, sso_url, rejected: false })
    } else {
        Err(http_error_spec(url, status_text_spec(status), body))
    }
}

/// Reads the reply to the startup probe of `url` (`GET /user`): its status,
/// its `X-OAuth-Scopes` and `X-GitHub-SSO` headers, and its body.
pub fn preflight_from(status: u16, scopes: Option<&str>, sso: Option<&str>, url: &str, body: &str) -> (r: Result<Preflight, String>)
    requires
        100 <= status <= 999,
    ensures
        preflight_view(r) == preflight_spec(status, match scopes { Some(h) => Some(h@), None => None },
            match sso { Some(h) => Some(h@), None => None }, url@, body@),
{
    let sso_url = match sso {
        Some(h) => sso_url_from(h),
        None => None,
    };
    if status == 200 {
        let list = match scopes {
            Some(h) => Some(parse_scopes(h)),
            None => None,
        };
        Ok(Preflight { scopes: list, sso_url: None, rejected: false })
    } else if status == 401 {
        Ok(Preflight { scopes: None, sso_url: None, rejected: true })
    } else if status == 403 && sso_url.is_some() {
        Ok(Preflight { scopes: None, sso_url, rejected: false })
    } else {
        Err(http_error(url, status_text(status).as_str(), body))
    }
}


// ---------------------------------------------------------------------------
// Laws
// ---------------------------------------------------------------------------

/// A variable that is set and not blank.
pub open spec fn usable_token(v: Option<Seq<char>>) -> bool {
    match v {
        Some(t) => trim(t).len() > 0,
        None => false,
    }
}

/// `GITHUB_TOKEN` wins over `GH_TOKEN` whenever it is set and not blank;
/// `GH_TOKEN` is used when `GITHUB_TOKEN` is unset or blank and it is not.
pub proof fn law_token_order(github_token: Option<Seq<char>>, gh_token: Option<Seq<char>>)
    ensures
        usable_token(github_token) ==> token_choice(github_token, gh_token)
            == Some((github_token->0, AuthSource::GithubTokenEnv)),
        !usable_token(github_token) && usable_token(gh_token)
            ==> token_choice(github_token, gh_token) == Some((gh_token->0, AuthSource::GhTokenEnv)),
        !usable_token(github_token) && !usable_token(gh_token) ==> token_choice(github_token, gh_token) is None,
{
}

/// A reply of 429 Too Many Requests is never read as an answer: whatever the
/// request, it ends in an error, on a single request and on any page.
pub proof fn law_too_many_requests_is_an_error(kind: Request, plan_aware: bool, first: bool, r: Reply, url: Seq<char>, link: Option<Seq<char>>, now: int)
    requires
        r.status == 429,
    ensures
        classify_spec(kind, plan_aware, r, url, now) is Err,
        page_step_spec(first, plan_aware, r, url, link, now) is Err,
{
}

/// Once a listing is under way, a refused page is an error, never a quiet
/// "forbidden" or "not found" that would drop the pages already read.
pub proof fn law_later_pages_never_stop_quietly(plan_aware: bool, r: Reply, url: Seq<char>, link: Option<Seq<char>>, now: int)
    ensures
        !(page_step_spec(false, plan_aware, r, url, link, now) matches Ok(PageView::Stop(_))),
{
}

/// A refusal is reported as gated by the plan only when the request asked for
/// that distinction.
pub proof fn law_plan_gated_only_when_asked(kind: Request, r: Reply, url: Seq<char>, now: int)
    ensures
        !(classify_spec(kind, false, r, url, now) matches Ok(Fetch403::PlanGated)),
{
}

} // verus!
