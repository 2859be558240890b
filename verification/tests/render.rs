use moat::support::render::{render, truncate, Cell};

#[test]
fn truncate_leaves_short_strings_alone() {
    assert_eq!(truncate("abc", 10), "abc");
    assert_eq!(truncate("", 5), "");
}

#[test]
fn truncate_caps_long_strings_with_ellipsis() {
    let t = truncate("abcdefghij", 5);
    assert_eq!(t.chars().count(), 5);
    assert!(t.ends_with('…'));
    assert!(t.starts_with("abcd"));
}

#[test]
fn truncate_handles_multibyte() {
    let t = truncate("αβγδεζηθ", 4);
    assert_eq!(t.chars().count(), 4);
    assert!(t.ends_with('…'));
}

#[test]
fn cell_plain_mirrors_visible_and_rendered() {
    let c = Cell::plain("hi");
    assert_eq!(c.visible, "hi");
    assert_eq!(c.rendered, "hi");
}

#[test]
fn cell_styled_separates_visible_from_rendered() {
    let c = Cell::styled("hi", "\x1b[31mhi\x1b[0m");
    assert_eq!(c.visible, "hi");
    assert_ne!(c.rendered, "hi");
    assert!(c.rendered.contains("hi"));
}

#[test]
fn truncate_exact_values() {
    assert_eq!(truncate("abcdefghij", 5), "abcd…");
    assert_eq!(truncate("abcde", 5), "abcde");
}

#[test]
fn table_rows_have_equal_visible_width() {
    let headers = vec!["Name".to_string(), "State".to_string()];
    let rows = vec![
        vec![Cell::plain("a"), Cell::plain("on")],
        vec![Cell::plain("longer"), Cell::plain("off")],
    ];
    let lines = render(&headers, &rows);
    assert!(!lines.is_empty());
    assert!(lines.iter().any(|l| l.contains("longer")));
}
