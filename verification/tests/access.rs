use moat::checks::repo_context::{RepoListing, RepoPermissions};
use moat::runner::access::{
    account_kind_from, listed_repos, listing_path, membership_verdict, not_admin_message, parse_target,
    progress_ticks, repo_access_verdict, viewer_verdict, OrgMembership, Target,
};
use moat::runner::AccountKind;
use moat::support::github::Fetch;

fn listing(name: &str, fork: bool, archived: bool, admin: Option<bool>) -> RepoListing {
    RepoListing {
        name: name.to_string(),
        archived,
        fork,
        private: false,
        default_branch: Some("main".into()),
        permissions: admin.map(|a| RepoPermissions { admin: a }),
    }
}

#[test]
fn targets() {
    match parse_target("acme").unwrap() {
        Target::Account(a) => assert_eq!(a, "acme"),
        _ => panic!("expected an account"),
    }
    match parse_target("acme/site").unwrap() {
        Target::Repo(o, r) => {
            assert_eq!(o, "acme");
            assert_eq!(r, "site");
        }
        _ => panic!("expected a repository"),
    }
    for bad in ["/site", "acme/", "a/b/c"] {
        assert_eq!(
            parse_target(bad).err().unwrap(),
            format!("Invalid target `{bad}` — expected `owner/repo` or `account`.")
        );
    }
}

#[test]
fn account_kinds() {
    assert_eq!(account_kind_from(&Fetch::Found("Organization".into()), "acme").unwrap(), AccountKind::Organization);
    assert_eq!(account_kind_from(&Fetch::Found("User".into()), "nuno").unwrap(), AccountKind::User);
    assert_eq!(
        account_kind_from(&Fetch::Found("Bot".into()), "x").err().unwrap(),
        "unexpected account type `Bot` for `x`"
    );
    assert_eq!(
        account_kind_from(&Fetch::NotFound, "ghost").err().unwrap(),
        "no GitHub account named `ghost` was found."
    );
    assert!(account_kind_from(&Fetch::Forbidden, "secret").err().unwrap().contains("scope"));
}

#[test]
fn membership_and_viewer() {
    let admin = Fetch::Found(OrgMembership { role: "admin".into(), state: "active".into() });
    assert!(membership_verdict(&admin, "acme").is_ok());
    let pending = Fetch::Found(OrgMembership { role: "admin".into(), state: "pending".into() });
    assert_eq!(membership_verdict(&pending, "acme").err().unwrap(), not_admin_message("acme"));
    assert!(not_admin_message("acme").starts_with("You are not an admin of `acme`."));
    assert!(viewer_verdict(&Fetch::Found("NuNo".into()), "nuno").is_ok());
    assert!(viewer_verdict(&Fetch::Found("other".into()), "nuno").is_err());
    assert_eq!(
        viewer_verdict(&Fetch::Forbidden, "nuno").err().unwrap(),
        "Could not read authenticated viewer (`GET /user`) — check your token scopes"
    );
}

#[test]
fn single_repository_access() {
    assert!(repo_access_verdict(Fetch::Found(listing("r", false, false, Some(true))), "o", "r").is_ok());
    assert_eq!(
        repo_access_verdict(Fetch::Found(listing("r", false, false, None)), "o", "r").err().unwrap(),
        not_admin_message("o/r")
    );
    assert_eq!(
        repo_access_verdict(Fetch::Found(listing("r", true, false, Some(true))), "o", "r").err().unwrap(),
        "`o/r` is a fork — moat does not audit forks (their settings inherit from upstream)"
    );
    assert_eq!(
        repo_access_verdict(Fetch::NotFound, "o", "r").err().unwrap(),
        "no repository named `o/r` was found"
    );
}

#[test]
fn listings() {
    assert_eq!(listing_path("acme", AccountKind::Organization), "/orgs/acme/repos?type=all");
    assert_eq!(listing_path("nuno", AccountKind::User), "/users/nuno/repos");
    let v = vec![
        listing("a", false, false, None),
        listing("fork", true, false, None),
        listing("old", false, true, None),
        listing("b", false, false, None),
    ];
    let kept = listed_repos(Fetch::Found(v), "acme").unwrap();
    let names: Vec<&str> = kept.iter().map(|l| l.name.as_str()).collect();
    assert_eq!(names, vec!["a", "b"]);
    assert!(listed_repos(Fetch::NotFound, "acme").unwrap().is_empty());
    assert_eq!(
        listed_repos(Fetch::Forbidden, "acme").err().unwrap(),
        "No permission to list repositories for `acme` — check your token scopes"
    );
    assert_eq!(progress_ticks(2, true), 1 + 30 + 11);
    assert_eq!(progress_ticks(0, false), 1);
}
