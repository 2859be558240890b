use moat::support::github::{
    api_url, choose_token, classify, first_page_url, format_retry_hint, gh_cli_token, link_is_well_formed,
    next_link, normalize_base, page_step, parse_scopes, preflight_from, rate_limit_message, retry_after_seconds,
    sso_url_from, status_text, user_agent, AuthSource, Fetch403, PageStep, Reply, Request,
};

fn reply(status: u16, body: &str) -> Reply {
    Reply {
        status,
        body: body.to_string(),
        ratelimit_remaining: None,
        retry_after: None,
        ratelimit_reset: None,
    }
}

#[test]
fn token_sources_in_order() {
    let (t, s) = choose_token(Some("abc"), Some("def")).unwrap();
    assert_eq!(t, "abc");
    assert_eq!(s, AuthSource::GithubTokenEnv);
    let (t, s) = choose_token(Some("  "), Some("def")).unwrap();
    assert_eq!(t, "def");
    assert_eq!(s, AuthSource::GhTokenEnv);
    assert!(choose_token(None, Some("")).is_none());
    assert_eq!(AuthSource::GhCli.label(), "gh auth token");
    assert_eq!(AuthSource::GithubTokenEnv.label(), "GITHUB_TOKEN");
}

#[test]
fn gh_cli_outcomes() {
    assert_eq!(gh_cli_token(true, " tok\n", "").unwrap(), "tok");
    assert_eq!(
        gh_cli_token(true, "\n", "").unwrap_err(),
        "`gh auth token` returned empty output; run `gh auth login` first"
    );
    assert_eq!(gh_cli_token(false, "", "not logged in\n").unwrap_err(), "`gh auth token` failed: not logged in");
}

#[test]
fn urls() {
    assert_eq!(user_agent(), "moat/0.1.0");
    assert_eq!(normalize_base("https://example.com/api//"), "https://example.com/api");
    assert_eq!(api_url("https://api.github.com", "/user"), "https://api.github.com/user");
    assert_eq!(api_url("https://api.github.com", "https://other/x"), "https://other/x");
    assert_eq!(first_page_url("https://h/orgs/a/repos?type=all", "/orgs/a/repos?type=all"), "https://h/orgs/a/repos?type=all&per_page=100");
    assert_eq!(first_page_url("https://h/users/a/repos", "/users/a/repos"), "https://h/users/a/repos?per_page=100");
}

#[test]
fn retry_hints() {
    assert_eq!(format_retry_hint(0), "now (please retry)");
    assert_eq!(format_retry_hint(1), "in 1 second");
    assert_eq!(format_retry_hint(45), "in 45 seconds");
    assert_eq!(format_retry_hint(61), "in 2 minutes");
    assert_eq!(format_retry_hint(60), "in 1 minute");
    assert_eq!(format_retry_hint(3600), "in 1 hour");
    assert_eq!(format_retry_hint(3661), "in 1 hour 2 minutes");
    assert_eq!(format_retry_hint(7260), "in 2 hours 1 minute");
}

#[test]
fn retry_after_reads_headers() {
    assert_eq!(retry_after_seconds(Some(" 30 "), Some("999"), 0), Some(30));
    assert_eq!(retry_after_seconds(Some("-5"), None, 0), Some(0));
    assert_eq!(retry_after_seconds(Some("soon"), Some("1100"), 1000), Some(100));
    assert_eq!(retry_after_seconds(None, Some("900"), 1000), Some(0));
    assert_eq!(retry_after_seconds(None, None, 1000), None);
}

#[test]
fn rate_limit_messages() {
    assert_eq!(rate_limit_message(403, None, "Forbidden", None), None);
    assert_eq!(rate_limit_message(404, Some("0"), "rate limit", None), None);
    let m = rate_limit_message(403, Some("0"), "", Some(30)).unwrap();
    assert!(m.starts_with("GitHub API rate limit reached (primary). Try again in 30 seconds."));
    assert!(m.contains("5,000/hour"));
    let m = rate_limit_message(429, None, "", None).unwrap();
    assert!(m.starts_with("GitHub API rate limit reached (secondary). Try again in a few minutes."));
    let m = rate_limit_message(403, None, "You have exceeded a Secondary Rate Limit", None).unwrap();
    assert!(m.contains("(secondary)"));
}

#[test]
fn status_lines_name_the_reason() {
    assert_eq!(status_text(404), "404 Not Found");
    assert_eq!(status_text(500), "500 Internal Server Error");
    assert_eq!(status_text(599), "599 <unknown status code>");
}

#[test]
fn classify_single_requests() {
    let url = "https://api.github.com/x";
    assert!(matches!(classify(Request::Json, false, &reply(200, "{}"), url, 0), Ok(Fetch403::Found(()))));
    assert_eq!(
        classify(Request::Json, false, &reply(204, ""), url, 0).err().unwrap(),
        "expected JSON body, got 204 from https://api.github.com/x"
    );
    assert!(matches!(classify(Request::Presence, false, &reply(204, ""), url, 0), Ok(Fetch403::Found(()))));
    assert!(matches!(classify(Request::Raw, false, &reply(404, ""), url, 0), Ok(Fetch403::NotFound)));
    assert!(matches!(classify(Request::Json, false, &reply(422, ""), url, 0), Ok(Fetch403::Forbidden)));
    assert!(matches!(
        classify(Request::Json, true, &reply(403, "Upgrade to GitHub Enterprise"), url, 0),
        Ok(Fetch403::PlanGated)
    ));
    assert!(matches!(
        classify(Request::Json, false, &reply(403, "Upgrade to GitHub Enterprise"), url, 0),
        Ok(Fetch403::Forbidden)
    ));
    assert_eq!(
        classify(Request::Raw, false, &reply(500, "boom"), url, 0).err().unwrap(),
        "GET https://api.github.com/x -> 500 Internal Server Error: boom"
    );
    assert_eq!(
        classify(Request::Raw, false, &reply(204, ""), url, 0).err().unwrap(),
        "GET https://api.github.com/x -> 204 No Content: "
    );
    let mut limited = reply(403, "");
    limited.ratelimit_remaining = Some("0".into());
    limited.ratelimit_reset = Some("160".into());
    let e = classify(Request::Json, false, &limited, url, 100).err().unwrap();
    assert!(e.starts_with("GitHub API rate limit reached (primary). Try again in 1 minute."));
}

#[test]
fn link_headers() {
    let l = "<https://api.github.com/x?page=2>; rel=\"next\", <https://api.github.com/x?page=5>; rel=\"last\"";
    assert!(link_is_well_formed(l));
    assert_eq!(next_link(l).as_deref(), Some("https://api.github.com/x?page=2"));
    assert_eq!(next_link("<https://a/x?page=1>; rel=\"prev\""), None);
    assert!(!link_is_well_formed("> oops <; rel=\"next\""));
}

#[test]
fn pages() {
    let url = "https://api.github.com/x";
    let link = "<https://api.github.com/x?page=2>; rel=\"next\"";
    match page_step(true, false, &reply(200, "[]"), url, Some(link), 0) {
        Ok(PageStep::Next(Some(n))) => assert_eq!(n, "https://api.github.com/x?page=2"),
        _ => panic!("expected a next page"),
    }
    assert!(matches!(page_step(true, false, &reply(200, "[]"), url, None, 0), Ok(PageStep::Next(None))));
    assert!(matches!(page_step(true, false, &reply(404, ""), url, None, 0), Ok(PageStep::Stop(Fetch403::NotFound))));
    assert!(matches!(page_step(true, true, &reply(403, "Upgrade to GitHub"), url, None, 0), Ok(PageStep::Stop(Fetch403::PlanGated))));
    assert_eq!(
        page_step(false, false, &reply(403, "nope"), url, None, 0).err().unwrap(),
        "GET https://api.github.com/x -> 403 Forbidden: nope"
    );
    assert_eq!(
        page_step(false, false, &reply(404, ""), url, None, 0).err().unwrap(),
        "GET https://api.github.com/x -> 404 Not Found: "
    );
}

#[test]
fn too_many_requests_is_always_an_error() {
    let url = "https://api.github.com/x";
    assert!(classify(Request::Presence, true, &reply(429, ""), url, 0).is_err());
    assert!(page_step(true, true, &reply(429, ""), url, None, 0).is_err());
    assert!(page_step(false, true, &reply(429, ""), url, None, 0).is_err());
}

#[test]
fn sso_and_scopes() {
    assert_eq!(sso_url_from("required; url=https://github.com/orgs/a/sso?x=1").as_deref(), Some("https://github.com/orgs/a/sso?x=1"));
    assert_eq!(sso_url_from("partial-results; organizations=1"), None);
    assert_eq!(parse_scopes("repo, read:org,, "), vec!["repo", "read:org"]);
}

#[test]
fn preflight_replies() {
    let p = preflight_from(200, Some("repo, read:org"), None, "u", "").unwrap();
    assert_eq!(p.scopes, Some(vec!["repo".to_string(), "read:org".to_string()]));
    assert!(!p.rejected);
    let p = preflight_from(200, None, None, "u", "").unwrap();
    assert!(p.scopes.is_none());
    assert!(preflight_from(401, None, None, "u", "").unwrap().rejected);
    let p = preflight_from(403, None, Some("required; url=https://s"), "u", "").unwrap();
    assert_eq!(p.sso_url.as_deref(), Some("https://s"));
    assert_eq!(preflight_from(403, None, None, "u", "no").err().unwrap(), "GET u -> 403 Forbidden: no");
}
