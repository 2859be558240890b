use moat::runner::fix::{
    chunk_is_action, parse_fix_atoms, render_fix_block, rewrite_fix_for_free_plan, split_fences,
    substitute_fix_template, Atom, Segment,
};

fn describe(atoms: &[Atom]) -> Vec<String> {
    atoms
        .iter()
        .map(|a| match a {
            Atom::Plain(s) => format!("p:{s}"),
            Atom::Url(s) => format!("u:{s}"),
            Atom::ParaBreak => "break".to_string(),
        })
        .collect()
}

#[test]
fn atoms_split_words_links_and_paragraphs() {
    let atoms = parse_fix_atoms("Open https://github.com/acme now\n\nThen save.");
    assert_eq!(
        describe(&atoms),
        vec!["p:Open", "u:https://github.com/acme", "p:now", "break", "p:Then", "p:save."]
    );
    // A paragraph break before any word is dropped.
    assert_eq!(describe(&parse_fix_atoms("\n\nword")), vec!["p:word"]);
}

#[test]
fn action_chunks() {
    assert!(chunk_is_action("*Click* -> Save"));
    assert!(chunk_is_action("settings → rules"));
    assert!(chunk_is_action("https://github.com"));
    assert!(chunk_is_action("(optional)"));
    assert!(!chunk_is_action("Advanced Security"));
}

#[test]
fn templates_are_filled() {
    let branches = vec!["main".to_string(), "1.x".to_string()];
    assert_eq!(
        substitute_fix_template("https://github.com/{org}/{repo} on {branches}", "acme", Some("site"), &branches),
        "https://github.com/acme/site on main, 1.x"
    );
    assert_eq!(
        substitute_fix_template("{org}: {branches}", "acme", None, &vec![]),
        "acme: Default + release branches"
    );
}

#[test]
fn free_plan_rewrite() {
    assert_eq!(
        rewrite_fix_for_free_plan("https://github.com/organizations/acme/settings/rules > *Click* -> New", "acme"),
        "In all the links below > *Click* -> New"
    );
    assert_eq!(rewrite_fix_for_free_plan("Something else", "acme"), "Something else");
}

#[test]
fn fences_are_separated() {
    let segs = split_fences("Do this:\n```yaml\nkey: value\n```\nDone");
    assert!(segs.iter().any(|s| matches!(s, Segment::Code(_))));
    let rows = render_fix_block("Do this:\n```yaml\nkey: value\n```\nDone", 60, false, 60);
    assert!(rows.iter().any(|r| r.contains("key: value")));
}
