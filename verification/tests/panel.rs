use moat::support::panel::{progress_label, width_for, wrap, Line, Progress};

#[test]
fn wrap_breaks_on_word_boundaries() {
    let lines = wrap("the quick brown fox jumps", 10);
    assert!(lines.iter().all(|l| l.chars().count() <= 10));
    assert_eq!(lines.join(" "), "the quick brown fox jumps");
}

#[test]
fn line_tracks_visible_separately_from_rendered() {
    let l = Line::new()
        .plain("hi")
        .styled("X", |s| format!("\x1b[31m{s}\x1b[0m"));
    assert_eq!(l.visible, 3);
    assert!(l.rendered.contains("hi"));
    assert!(l.rendered.contains("\x1b[31m"));
}

#[test]
fn wrap_exact_lines() {
    assert_eq!(wrap("the quick brown fox jumps", 10), vec!["the quick", "brown fox", "jumps"]);
}

#[test]
fn panel_width_is_clamped() {
    assert_eq!(width_for(None), 80);
    assert_eq!(width_for(Some(10)), 60);
    assert_eq!(width_for(Some(500)), 120);
    assert_eq!(width_for(Some(100)), 100);
}

#[test]
fn progress_label_counts_and_caps() {
    assert_eq!(progress_label(3, 10), "3/10 checks");
    assert_eq!(progress_label(12, 10), "10/10 checks");
    assert_eq!(progress_label(4, 0), "4 checks");
}

#[test]
fn progress_ticks_and_bumps() {
    let mut p = Progress::new("◈", "moat", "acme", true);
    assert_eq!(p.bump(5).as_deref(), Some("0/5 checks"));
    assert_eq!(p.tick().as_deref(), Some("1/5 checks"));
    let mut quiet = Progress::new("◈", "moat", "acme", false);
    assert_eq!(quiet.tick(), None);
    assert_eq!(quiet.done, 1);
}
