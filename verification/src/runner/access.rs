//! Who may be audited and what is listed: the target named on the command
//! line, the checks that the viewer administers it, the repositories kept
//! for the scan and their order, and the header shown above the report.
use vstd::prelude::*;
use crate::checks::repo_context::{RepoContext, RepoListing};
use crate::runner::AccountKind;
use crate::support::github::Fetch;
use crate::support::panel::{header_panel, header_panel_spec};
use crate::text::{chars_of, find, lower, lower_exec, push_range, push_str, str_eq, str_less, str_lt, string_of, string_views, lemma_str_order};

verus! {

broadcast use vstd::seq_lib::group_to_multiset_ensures;

/// How many progress ticks an org-context fetch emits.
pub const ORG_TICKS: usize = 11;

/// How many progress ticks a per-repo scan emits (excluding the initial
/// "scanning N" tick).
pub const REPO_TICKS: usize = 15;

/// The refusal when the viewer does not administer `target`.
pub open spec fn not_admin_spec(target: Seq<char>) -> Seq<char> {
    "You are not an admin of `"@ + target
        + "`. moat requires admin access to surface the data it audits — run it on an organization or repository you administer."@
}

/// The refusal when the viewer does not administer `target`.
pub fn not_admin_message(target: &str) -> (r: String)
    ensures
        r@ == not_admin_spec(target@),
{
    let mut r = String::from_str("You are not an admin of `");
    push_str(&mut r, target);
    push_str(
        &mut r,
        "`. moat requires admin access to surface the data it audits — run it on an organization or repository you administer.",
    );
    r
}

/// The audit target named on the command line.
pub enum Target {
    /// An organization or user account.
    Account(String),
    /// One repository, as owner and name.
    Repo(String, String),
}

/// The abstract value of a target.
pub enum TargetView {
    Account(Seq<char>),
    Repo(Seq<char>, Seq<char>),
}

/// The message for a target that is neither `owner/repo` nor an account.
pub open spec fn invalid_target_spec(account: Seq<char>) -> Seq<char> {
    "Invalid target `"@ + account + "` — expected `owner/repo` or `account`."@
}

/// How the command line's target is read: with no `/` it is an account;
/// else it is split at the first `/`, and both sides must be non-empty with
/// no further `/`.
pub open spec fn target_spec(account: Seq<char>) -> Result<TargetView, Seq<char>> {
    let k = find(account, "/"@);
    if k < 0 {
        Ok(TargetView::Account(account))
    } else {
        let owner = account.subrange(0, k);
        let repo = account.subrange(k + 1, account.len() as int);
        if owner.len() == 0 || repo.len() == 0 || find(repo, "/"@) >= 0 {
            Err(invalid_target_spec(account))
        } else {
            Ok(TargetView::Repo(owner, repo))
        }
    }
}

/// The abstract value of a read target.
pub open spec fn target_view(r: Result<Target, String>) -> Result<TargetView, Seq<char>> {
    match r {
        Ok(Target::Account(a)) => Ok(TargetView::Account(a@)),
        Ok(Target::Repo(o, n)) => Ok(TargetView::Repo(o@, n@)),
        Err(m) => Err(m@),
    }
}

fn first_slash(v: &Vec<char>, start: usize) -> (r: Option<usize>)
    requires
        start <= v@.len(),
    ensures
        match r {
            Some(k) => crate::text::find_from(v@, "/"@, start as int) == k as int,
            None => crate::text::find_from(v@, "/"@, start as int) == -1,
        },
{
    crate::text::find_from_exec(v, &chars_of("/"), start)
}

/// Reads the target named on the command line.
pub fn parse_target(account: &str) -> (r: Result<Target, String>)
    ensures
        target_view(r) == target_spec(account@),
{
    proof { reveal_strlit("/"); }
    let v = chars_of(account);
    match first_slash(&v, 0) {
        None => Ok(Target::Account(String::from_str(account))),
        Some(k) => {
            proof {
                crate::text::lemma_find_from(v@, "/"@, 0);
                assert("/"@.len() == 1);
                assert(k + 1 <= v@.len());
            }
            let n = v.len();
            assert(k + 1 <= n);
            let mut owner: Vec<char> = Vec::new();
            push_range(&mut owner, &v, 0, k);
            let mut repo: Vec<char> = Vec::new();
            push_range(&mut repo, &v, k + 1, v.len());
            let more = first_slash(&repo, 0);
            if owner.len() == 0 || repo.len() == 0 || more.is_some() {
                let mut m = String::from_str("Invalid target `");
                push_str(&mut m, account);
                push_str(&mut m, "` — expected `owner/repo` or `account`.");
                Err(m)
            } else {
                Ok(Target::Repo(string_of(&owner), string_of(&repo)))
            }
        },
    }
}

/// An account's `type` field read as its kind: `Organization` or `User`;
/// anything else, a refusal or a missing account is an error.
pub open spec fn account_kind_spec(reply: Fetch<Seq<char>>, name: Seq<char>) -> Result<AccountKind, Seq<char>> {
    match reply {
        Fetch::Found(t) => if t == "Organization"@ {
            Ok(AccountKind::Organization)
        } else if t == "User"@ {
            Ok(AccountKind::User)
        } else {
            Err("unexpected account type `"@ + t + "` for `"@ + name + "`"@)
        },
        Fetch::Forbidden => Err("No access to `"@ + name + "` — check your token scopes (`read:org` for private orgs)"@),
        Fetch::NotFound => Err("no GitHub account named `"@ + name + "` was found."@),
    }
}

/// The abstract value of a fetched string.
pub open spec fn fetch_str_view(f: Fetch<String>) -> Fetch<Seq<char>> {
    match f {
        Fetch::Found(s) => Fetch::Found(s@),
        Fetch::NotFound => Fetch::NotFound,
        Fetch::Forbidden => Fetch::Forbidden,
    }
}

/// The abstract value of a result carrying a message.
pub open spec fn msg_view<T>(r: Result<T, String>) -> Result<T, Seq<char>> {
    match r {
        Ok(x) => Ok(x),
        Err(m) => Err(m@),
    }
}

/// Reads what `GET /users/<name>` said of the account's type.
pub fn account_kind_from(reply: &Fetch<String>, name: &str) -> (r: Result<AccountKind, String>)
    ensures
        msg_view(r) == account_kind_spec(fetch_str_view(*reply), name@),
{
    match reply {
        Fetch::Found(t) => {
            if str_eq(t.as_str(), "Organization") {
                Ok(AccountKind::Organization)
            } else if str_eq(t.as_str(), "User") {
                Ok(AccountKind::User)
            } else {
                let mut m = String::from_str("unexpected account type `");
                push_str(&mut m, t.as_str());
                push_str(&mut m, "` for `");
                push_str(&mut m, name);
                push_str(&mut m, "`");
                Err(m)
            }
        },
        Fetch::Forbidden => {
            let mut m = String::from_str("No access to `");
            push_str(&mut m, name);
            push_str(&mut m, "` — check your token scopes (`read:org` for private orgs)");
            Err(m)
        },
        Fetch::NotFound => {
            let mut m = String::from_str("no GitHub account named `");
            push_str(&mut m, name);
            push_str(&mut m, "` was found.");
            Err(m)
        },
    }
}

/// The viewer's membership in an organization.
pub struct OrgMembership {
    pub role: String,
    pub state: String,
}

/// The viewer may audit an organization only as an active admin of it.
pub open spec fn membership_ok(m: Fetch<OrgMembership>) -> bool {
    match m {
        Fetch::Found(ms) => ms.role@ == "admin"@ && ms.state@ == "active"@,
        _ => false,
    }
}

/// Decides from the viewer's membership whether `account` may be audited.
pub fn membership_verdict(m: &Fetch<OrgMembership>, account: &str) -> (r: Result<(), String>)
    ensures
        msg_view(r) == (if membership_ok(*m) { Ok::<(), Seq<char>>(()) } else { Err(not_admin_spec(account@)) }),
{
    let ok = match m {
        Fetch::Found(ms) => str_eq(ms.role.as_str(), "admin") && str_eq(ms.state.as_str(), "active"),
        _ => false,
    };
    if ok { Ok(()) } else { Err(not_admin_message(account)) }
}

/// The two texts are equal when ASCII letters are compared without case
/// (`str::eq_ignore_ascii_case`).
pub open spec fn eq_ignore_case(a: Seq<char>, b: Seq<char>) -> bool {
    lower(a) == lower(b)
}

/// The message when the viewer cannot be read.
pub const VIEWER_UNREADABLE: &'static str = "Could not read authenticated viewer (`GET /user`) — check your token scopes";

/// A user account may be audited only by that user: the viewer's login must
/// name it, ignoring ASCII case.
pub open spec fn viewer_spec(viewer: Fetch<Seq<char>>, account: Seq<char>) -> Result<(), Seq<char>> {
    match viewer {
        Fetch::Found(login) => if eq_ignore_case(login, account) { Ok(()) } else { Err(not_admin_spec(account)) },
        _ => Err(VIEWER_UNREADABLE@),
    }
}

/// Decides from the viewer's login whether the user `account` may be audited.
pub fn viewer_verdict(viewer: &Fetch<String>, account: &str) -> (r: Result<(), String>)
    ensures
        msg_view(r) == viewer_spec(fetch_str_view(*viewer), account@),
{
    match viewer {
        Fetch::Found(login) => {
            let a = lower_exec(&chars_of(login.as_str()));
            let b = lower_exec(&chars_of(account));
            let mut same = a.len() == b.len();
            let mut i: usize = 0;
            while same && i < a.len()
                invariant
                    a@ == lower(login@),
                    b@ == lower(account@),
                    i <= a@.len(),
                    same ==> a@.len() == b@.len(),
                    same ==> a@.subrange(0, i as int) == b@.subrange(0, i as int),
                    !same ==> a@ != b@,
                decreases a@.len() - i + (if same { 1int } else { 0int }),
            {
                if a[i] != b[i] {
                    same = false;
                } else {
                    assert(a@.subrange(0, i + 1) =~= a@.subrange(0, i as int).push(a@[i as int]));
                    assert(b@.subrange(0, i + 1) =~= b@.subrange(0, i as int).push(b@[i as int]));
                    i = i + 1;
                }
            }
            proof {
                if same {
                    assert(a@ =~= a@.subrange(0, i as int));
                    assert(b@ =~= b@.subrange(0, i as int));
                }
            }
            if same { Ok(()) } else { Err(not_admin_message(account)) }
        },
        _ => Err(String::from_str(VIEWER_UNREADABLE)),
    }
}

/// `<owner>/<repo>`.
pub open spec fn slug(owner: Seq<char>, repo: Seq<char>) -> Seq<char> {
    owner + "/"@ + repo
}

/// A single repository may be audited when it is found, the viewer
/// administers it, and it is not a fork.
pub open spec fn repo_access_spec(listing: Fetch<RepoListing>, owner: Seq<char>, repo: Seq<char>) -> Result<RepoListing, Seq<char>> {
    match listing {
        Fetch::Found(l) => {
            let admin = match l.permissions { Some(p) => p.admin, None => false };
            if !admin {
                Err(not_admin_spec(slug(owner, repo)))
            } else if l.fork {
                Err("`"@ + slug(owner, repo) + "` is a fork — moat does not audit forks (their settings inherit from upstream)"@)
            } else {
                Ok(l)
            }
        },
        Fetch::Forbidden => Err(not_admin_spec(slug(owner, repo))),
        Fetch::NotFound => Err("no repository named `"@ + slug(owner, repo) + "` was found"@),
    }
}

/// Decides from `GET /repos/<owner>/<repo>` whether that repository may be
/// audited, handing its listing back when it may.
pub fn repo_access_verdict(listing: Fetch<RepoListing>, owner: &str, repo: &str) -> (r: Result<RepoListing, String>)
    ensures
        msg_view(r) == repo_access_spec(listing, owner@, repo@),
{
    let mut s = String::from_str(owner);
    push_str(&mut s, "/");
    push_str(&mut s, repo);
    match listing {
        Fetch::Found(l) => {
            let admin = match &l.permissions {
                Some(p) => p.admin,
                None => false,
            };
            if !admin {
                Err(not_admin_message(s.as_str()))
            } else if l.fork {
                let mut m = String::from_str("`");
                push_str(&mut m, s.as_str());
                push_str(&mut m, "` is a fork — moat does not audit forks (their settings inherit from upstream)");
                Err(m)
            } else {
                Ok(l)
            }
        },
        Fetch::Forbidden => Err(not_admin_message(s.as_str())),
        Fetch::NotFound => {
            let mut m = String::from_str("no repository named `");
            push_str(&mut m, s.as_str());
            push_str(&mut m, "` was found");
            Err(m)
        },
    }
}

/// Where an account's repositories are listed.
pub open spec fn listing_path_spec(account: Seq<char>, kind: AccountKind) -> Seq<char> {
    match kind {
        AccountKind::Organization => "/orgs/"@ + account + "/repos?type=all"@,
        AccountKind::User => "/users/"@ + account + "/repos"@,
    }
}

/// The path that lists the repositories of `account`.
pub fn listing_path(account: &str, kind: AccountKind) -> (r: String)
    ensures
        r@ == listing_path_spec(account@, kind),
{
    match kind {
        AccountKind::Organization => {
            let mut r = String::from_str("/orgs/");
            push_str(&mut r, account);
            push_str(&mut r, "/repos?type=all");
            r
        },
        AccountKind::User => {
            let mut r = String::from_str("/users/");
            push_str(&mut r, account);
            push_str(&mut r, "/repos");
            r
        },
    }
}

/// A listed repository is scanned unless it is a fork or archived.
pub open spec fn scanned(l: RepoListing) -> bool {
    !l.fork && !l.archived
}

/// The scanned listings of `s`, in order.
pub open spec fn kept(s: Seq<RepoListing>) -> Seq<RepoListing>
    decreases s.len(),
{
    if s.len() == 0 {
        s
    } else if scanned(s[0]) {
        seq![s[0]] + kept(s.drop_first())
    } else {
        kept(s.drop_first())
    }
}

/// The repositories listed for an account: forks and archived ones dropped;
/// a missing listing is empty; a refused one is an error.
pub open spec fn listed_spec(fetch: Fetch<Vec<RepoListing>>, account: Seq<char>) -> Result<Seq<RepoListing>, Seq<char>> {
    match fetch {
        Fetch::Found(v) => Ok(kept(v@)),
        Fetch::Forbidden => Err("No permission to list repositories for `"@ + account + "` — check your token scopes"@),
        Fetch::NotFound => Ok(Seq::<RepoListing>::empty()),
    }
}

fn keep_scanned(v: Vec<RepoListing>) -> (r: Vec<RepoListing>)
    ensures
        r@ == kept(v@),
{
    let ghost orig = v@;
    let mut v = v;
    let mut out: Vec<RepoListing> = Vec::new();
    while v.len() > 0
        invariant
            v@ == orig.subrange(0, v@.len() as int),
            v@.len() <= orig.len(),
            out@ == kept(orig.subrange(v@.len() as int, orig.len() as int)),
        decreases v@.len(),
    {
        let ghost n = v@.len();
        let x = v.pop().unwrap();
        let ghost tail = orig.subrange(n as int, orig.len() as int);
        assert(orig.subrange(n - 1, orig.len() as int).drop_first() =~= tail);
        assert(orig.subrange(n - 1, orig.len() as int)[0] == x);
        if !x.fork && !x.archived {
            out.insert(0, x);
            assert(out@ =~= seq![x] + kept(tail));
        }
        assert(v@ =~= orig.subrange(0, v@.len() as int));
    }
    assert(orig.subrange(0, orig.len() as int) =~= orig);
    out
}

/// The repositories of `account` to scan, from what its listing returned.
pub fn listed_repos(fetch: Fetch<Vec<RepoListing>>, account: &str) -> (r: Result<Vec<RepoListing>, String>)
    ensures
        match r {
            Ok(v) => listed_spec(fetch, account@) == Ok::<Seq<RepoListing>, Seq<char>>(v@),
            Err(m) => listed_spec(fetch, account@) == Err::<Seq<RepoListing>, Seq<char>>(m@),
        },
{
    match fetch {
        Fetch::Found(v) => Ok(keep_scanned(v)),
        Fetch::Forbidden => {
            let mut m = String::from_str("No permission to list repositories for `");
            push_str(&mut m, account);
            push_str(&mut m, "` — check your token scopes");
            Err(m)
        },
        Fetch::NotFound => Ok(Vec::new()),
    }
}

/// Repositories in order of their names.
pub open spec fn sorted_by_name(s: Seq<RepoContext>) -> bool {
    forall|i: int, j: int| 0 <= i < j < s.len() ==> !str_lt(#[trigger] s[j].name@, #[trigger] s[i].name@)
}

/// The repositories in order of their names (the same repositories).
pub fn sort_contexts(v: Vec<RepoContext>) -> (r: Vec<RepoContext>)
    ensures
        sorted_by_name(r@),
        r@.to_multiset() == v@.to_multiset(),
        r@.len() == v@.len(),
{
    let ghost orig = v@;
    let mut v = v;
    let mut out: Vec<RepoContext> = Vec::new();
    while v.len() > 0
        invariant
            sorted_by_name(out@),
            v@.to_multiset().add(out@.to_multiset()) == orig.to_multiset(),
            v@.len() + out@.len() == orig.len(),
        decreases v@.len(),
    {
        let ghost before = v@;
        let x = v.pop().unwrap();
        proof {
            assert(before == v@.push(x));
            vstd::seq_lib::to_multiset_build(v@, x);
        }
        let mut k: usize = 0;
        while k < out.len() && !str_less(x.name.as_str(), out[k].name.as_str())
            invariant
                k <= out@.len(),
                forall|i: int| 0 <= i < k ==> !str_lt(x.name@, #[trigger] out@[i].name@),
            decreases out@.len() - k,
        {
            k = k + 1;
        }
        let ghost old_out = out@;
        out.insert(k, x);
        proof {
            vstd::seq_lib::to_multiset_insert(old_out, k as int, x);
            assert(out@ == old_out.insert(k as int, x));
            assert forall|i: int, j: int| 0 <= i < j < out@.len() implies !str_lt(#[trigger] out@[j].name@, #[trigger] out@[i].name@) by {
                if j == k {
                    assert(out@[i] == old_out[i]);
                } else if i == k {
                    let y = old_out[j - 1];
                    assert(out@[j] == y);
                    if str_lt(y.name@, x.name@) {
                        assert(k < old_out.len());
                        assert(str_lt(x.name@, old_out[k as int].name@));
                        lemma_str_order(y.name@, x.name@, old_out[k as int].name@);
                        if j - 1 > k {
                            assert(!str_lt(old_out[j - 1].name@, old_out[k as int].name@));
                        } else {
                            lemma_str_order(x.name@, y.name@, y.name@);
                        }
                    }
                } else {
                    let ii = if i < k { i } else { i - 1 };
                    let jj = if j < k { j } else { j - 1 };
                    assert(out@[i] == old_out[ii]);
                    assert(out@[j] == old_out[jj]);
                }
            }
        }
    }
    out
}

/// The repositories still active (not archived).
pub open spec fn active_count(s: Seq<RepoContext>) -> nat
    decreases s.len(),
{
    if s.len() == 0 {
        0
    } else {
        active_count(s.drop_last()) + if s.last().archived { 0nat } else { 1nat }
    }
}

/// How many of the repositories are not archived.
pub fn active_total(repos: &Vec<RepoContext>) -> (n: usize)
    ensures
        n == active_count(repos@),
{
    let mut n: usize = 0;
    let mut i: usize = 0;
    while i < repos.len()
        invariant
            i <= repos@.len(),
            n == active_count(repos@.subrange(0, i as int)),
            n <= i,
        decreases repos@.len() - i,
    {
        assert(repos@.subrange(0, i + 1).drop_last() =~= repos@.subrange(0, i as int));
        if !repos[i].archived {
            n = n + 1;
        }
        i = i + 1;
    }
    assert(repos@.subrange(0, repos@.len() as int) =~= repos@);
    n
}

/// The progress ticks of a whole audit: one for the scan's start, the
/// per-repository ticks, and the organization's when there is one.
pub open spec fn ticks_spec(repos: nat, org: bool) -> nat {
    1 + (REPO_TICKS as nat) * repos + if org { ORG_TICKS as nat } else { 0nat }
}

/// The progress ticks of an audit of `repos` repositories.
pub fn progress_ticks(repos: usize, org: bool) -> (n: usize)
    requires
        ticks_spec(repos as nat, org) <= usize::MAX,
    ensures
        n == ticks_spec(repos as nat, org),
{
    let mut n: usize = 1 + REPO_TICKS * repos;
    if org {
        n = n + ORG_TICKS;
    }
    n
}

/// The long name of an account kind.
pub open spec fn kind_long(kind: AccountKind) -> Seq<char> {
    match kind {
        AccountKind::Organization => "Organization"@,
        AccountKind::User => "User"@,
    }
}

/// The lower-case name of an account kind, as reports show it.
pub fn kind_name(kind: AccountKind) -> (s: &'static str)
    ensures
        s@ == match kind {
            AccountKind::Organization => "organization"@,
            AccountKind::User => "user"@,
        },
{
    match kind {
        AccountKind::Organization => "organization",
        AccountKind::User => "user",
    }
}

/// The long name of an account kind.
pub fn kind_long_name(kind: AccountKind) -> (s: &'static str)
    ensures
        s@ == kind_long(kind),
{
    match kind {
        AccountKind::Organization => "Organization",
        AccountKind::User => "User",
    }
}

/// The header above an account's report, `width` columns wide: the brand on
/// the left with the account, its kind on the right.
pub fn print_header(account: &str, kind: AccountKind, width: usize) -> (lines: Vec<String>)
    requires
        width >= 2,
        account@.len() + 32 <= usize::MAX,
    ensures
        string_views(lines@) == header_panel_spec("◈"@, "moat"@, account@, kind_long(kind), width as nat),
{
    proof { reveal_strlit("◈"); reveal_strlit("moat"); }
    let right = kind_long_name(kind);
    proof {
        reveal_strlit("Organization");
        reveal_strlit("User");
    }
    header_panel("◈", "moat", account, right, width)
}

/// The header above a single repository's report: `<owner>/<repo>` on the
/// left, `Repository` on the right.
pub fn print_repo_header(owner: &str, repo: &str, width: usize) -> (lines: Vec<String>)
    requires
        width >= 2,
        owner@.len() + repo@.len() + 40 <= usize::MAX,
    ensures
        string_views(lines@) == header_panel_spec("◈"@, "moat"@, slug(owner@, repo@), "Repository"@, width as nat),
{
    proof { reveal_strlit("◈"); reveal_strlit("moat"); reveal_strlit("Repository"); reveal_strlit("/"); }
    let mut left = String::from_str(owner);
    push_str(&mut left, "/");
    push_str(&mut left, repo);
    header_panel("◈", "moat", left.as_str(), "Repository", width)
}


/// An `owner/repo` slug whose two sides are non-empty and hold no `/` is
/// read back as that repository; a name without `/` is read as an account.
pub proof fn law_target_round_trip(owner: Seq<char>, repo: Seq<char>)
    requires
        owner.len() > 0,
        repo.len() > 0,
        !crate::text::contains(owner, "/"@),
        !crate::text::contains(repo, "/"@),
    ensures
        target_spec(slug(owner, repo)) == Ok::<TargetView, Seq<char>>(TargetView::Repo(owner, repo)),
        target_spec(owner) == Ok::<TargetView, Seq<char>>(TargetView::Account(owner)),
{
    reveal_strlit("/");
    let s = slug(owner, repo);
    let k = owner.len() as int;
    crate::text::lemma_find_from(s, "/"@, 0);
    crate::text::lemma_contains_iff(owner, "/"@);
    crate::text::lemma_find_from(owner, "/"@, 0);
    assert(s.subrange(k, k + 1) =~= "/"@);
    assert(crate::text::matches_at(s, "/"@, k));
    assert forall|j: int| 0 <= j < k implies !crate::text::matches_at(s, "/"@, j) by {
        if crate::text::matches_at(s, "/"@, j) {
            assert(owner.subrange(j, j + 1) =~= s.subrange(j, j + 1));
            assert(crate::text::matches_at(owner, "/"@, j));
        }
    }
    assert(find(s, "/"@) == k);
    assert(s.subrange(0, k) =~= owner);
    assert(s.subrange(k + 1, s.len() as int) =~= repo);
}

} // verus!
