//! The terminal panels of a run, as the rows to print: the posture summary
//! and the list of checks.
use vstd::prelude::*;
use crate::runner::{statuses, CheckResult};
use crate::style::{ansi_rgb, ansi_style};
use crate::support::outcome::Status;
use crate::support::panel::{
    blank, blank_spec, bottom, bottom_spec, danger, danger_bold, muted, rep, row, row_spec, success,
    success_bold, text, text_bold, top_section, top_section_spec, warning, warning_bold, Line,
};
use crate::support::report::percent_spec;
use crate::text::{dec, fmt_usize, lemma_dec_len_usize, string_views};

verus! {

/// How many of `s[..k]` are `st`.
pub open spec fn count_of(s: Seq<Status>, st: Status, k: int) -> nat
    decreases k,
{
    if k <= 0 || k > s.len() {
        0
    } else {
        count_of(s, st, k - 1) + if s[k - 1] == st { 1nat } else { 0nat }
    }
}

/// The colour of the posture bar: red up to a third, yellow up to two
/// thirds, green above.
pub open spec fn bar_rgb(pct: nat) -> (u8, u8, u8) {
    if pct <= 33 {
        (239, 83, 80)
    } else if pct <= 66 {
        (242, 204, 96)
    } else {
        (126, 231, 135)
    }
}

/// Bold in the given colour.
pub open spec fn bold_rgb(c: (u8, u8, u8), s: Seq<char>) -> Seq<char> {
    ansi_style("1"@, ansi_rgb(c.0, c.1, c.2, s))
}

/// The counts row: what it shows, and how wide it is.
pub open spec fn counts_rendered(p: Seq<char>, f: Seq<char>, w: Seq<char>, s: Seq<char>, t: Seq<char>) -> Seq<char> {
    rep(' ', 3) + bold_rgb((126, 231, 135), "✓"@) + rep(' ', 2) + ansi_rgb(229, 231, 235, p)
        + rep(' ', 4) + bold_rgb((239, 83, 80), "✕"@) + rep(' ', 2) + ansi_rgb(229, 231, 235, f)
        + rep(' ', 4) + bold_rgb((242, 204, 96), "!"@) + rep(' ', 2) + ansi_rgb(229, 231, 235, w)
        + rep(' ', 4) + ansi_rgb(124, 132, 151, "—"@) + rep(' ', 2) + ansi_rgb(124, 132, 151, s)
        + rep(' ', 4) + ansi_rgb(124, 132, 151, "·"@) + rep(' ', 2) + ansi_rgb(124, 132, 151, t)
}

/// The row with the hardened share as a number.
pub open spec fn label_row_spec(pct: nat, width: nat) -> Seq<char> {
    let label = dec(pct) + "% hardened"@;
    row_spec(3 + label.len(), rep(' ', 3) + bold_rgb((229, 231, 235), label), width)
}

/// The row with the hardened share as a bar of 60 cells.
pub open spec fn bar_row_spec(pct: nat, width: nat) -> Seq<char> {
    let filled = (pct * 60) / 100;
    let c = bar_rgb(pct);
    row_spec(
        63,
        rep(' ', 3) + ansi_rgb(c.0, c.1, c.2, rep('█', filled as int)) + ansi_rgb(38, 50, 68, rep('░', 60 - filled)),
        width,
    )
}

/// The row with the counts per status.
pub open spec fn counts_row_spec(passed: nat, failed: nat, warned: nat, skipped: nat, total: nat, width: nat) -> Seq<char> {
    let p = dec(passed) + " passed"@;
    let f = dec(failed) + " critical"@;
    let w = dec(warned) + " warnings"@;
    let s = dec(skipped) + " skipped"@;
    let t = dec(total) + " total"@;
    row_spec(34 + p.len() + f.len() + w.len() + s.len() + t.len(), counts_rendered(p, f, w, s, t), width)
}

/// The rows of the posture panel for the given counts, at `width` columns.
pub open spec fn posture_spec(passed: nat, failed: nat, warned: nat, skipped: nat, total: nat, width: nat) -> Seq<Seq<char>> {
    let pct = percent_spec(passed, skipped, total);
    seq![
        top_section_spec("Security posture"@, width),
        blank_spec(width),
        label_row_spec(pct, width),
        bar_row_spec(pct, width),
        blank_spec(width),
        counts_row_spec(passed, failed, warned, skipped, total, width),
        blank_spec(width),
        bottom_spec(width),
        Seq::<char>::empty(),
    ]
}

proof fn lemma_count_le(s: Seq<Status>, st: Status, k: int)
    requires
        0 <= k <= s.len(),
    ensures
        count_of(s, st, k) <= k,
    decreases k,
{
    if k > 0 {
        lemma_count_le(s, st, k - 1);
    }
}

proof fn lemma_counts_sum(s: Seq<Status>, k: int)
    requires
        0 <= k <= s.len(),
    ensures
        count_of(s, Status::Pass, k) + count_of(s, Status::Fail, k) + count_of(s, Status::Warn, k)
            + count_of(s, Status::Skipped, k) == k,
    decreases k,
{
    if k > 0 {
        lemma_counts_sum(s, k - 1);
    }
}

fn count_label(n: usize, word: &str) -> (r: String)
    ensures
        r@ == dec(n as nat) + word@,
{
    let mut r = fmt_usize(n);
    r.append(word);
    r
}

fn bar_colour(pct: usize, s: &str) -> (r: String)
    ensures
        r@ == ({
            let c = bar_rgb(pct as nat);
            ansi_rgb(c.0, c.1, c.2, s@)
        }),
{
    if pct <= 33 {
        danger(s)
    } else if pct <= 66 {
        warning(s)
    } else {
        success(s)
    }
}

fn counts_row(passed: usize, failed: usize, warned: usize, skipped: usize, total: usize, width: usize) -> (r: String)
    requires
        width >= 2,
    ensures
        r@ == counts_row_spec(passed as nat, failed as nat, warned as nat, skipped as nat, total as nat, width as nat),
{
    let p = count_label(passed, " passed");
    let f = count_label(failed, " critical");
    let w = count_label(warned, " warnings");
    let s = count_label(skipped, " skipped");
    let t = count_label(total, " total");
    proof {
        lemma_dec_len_usize(passed);
        lemma_dec_len_usize(failed);
        lemma_dec_len_usize(warned);
        lemma_dec_len_usize(skipped);
        lemma_dec_len_usize(total);
        reveal_strlit(" passed");
        reveal_strlit(" critical");
        reveal_strlit(" warnings");
        reveal_strlit(" skipped");
        reveal_strlit(" total");
        reveal_strlit("✓");
        reveal_strlit("✕");
        reveal_strlit("!");
        reveal_strlit("—");
        reveal_strlit("·");
    }
    let counts = Line::new()
        .space(3)
        .raw("✓", success_bold("✓").as_str())
        .space(2)
        .raw(p.as_str(), text(p.as_str()).as_str())
        .space(4)
        .raw("✕", danger_bold("✕").as_str())
        .space(2)
        .raw(f.as_str(), text(f.as_str()).as_str())
        .space(4)
        .raw("!", warning_bold("!").as_str())
        .space(2)
        .raw(w.as_str(), text(w.as_str()).as_str())
        .space(4)
        .raw("—", muted("—").as_str())
        .space(2)
        .raw(s.as_str(), muted(s.as_str()).as_str())
        .space(4)
        .raw("·", muted("·").as_str())
        .space(2)
        .raw(t.as_str(), muted(t.as_str()).as_str());
    assert(counts.rendered@ =~= counts_rendered(p@, f@, w@, s@, t@));
    row(&counts, width)
}

fn label_row(pct: usize, width: usize) -> (r: String)
    requires
        width >= 2,
        pct <= 100,
    ensures
        r@ == label_row_spec(pct as nat, width as nat),
{
    let label = count_label(pct, "% hardened");
    proof { lemma_dec_len_usize(pct); reveal_strlit("% hardened"); }
    let line = Line::new().space(3).raw(label.as_str(), text_bold(label.as_str()).as_str());
    assert(line.rendered@ =~= rep(' ', 3) + bold_rgb((229, 231, 235), label@));
    row(&line, width)
}

fn bar_row(pct: usize, width: usize) -> (r: String)
    requires
        width >= 2,
        pct <= 100,
    ensures
        r@ == bar_row_spec(pct as nat, width as nat),
{
    let filled: usize = (pct * 60) / 100;
    assert(filled <= 60) by (nonlinear_arith)
        requires
            filled == (pct * 60) / 100,
            pct <= 100,
    ;
    let filled_str = crate::support::panel::repeat_char('█', filled);
    let empty_str = crate::support::panel::repeat_char('░', 60 - filled);
    let bar = Line::new().space(3)
        .raw(filled_str.as_str(), bar_colour(pct, filled_str.as_str()).as_str())
        .raw(empty_str.as_str(), crate::support::panel::border(empty_str.as_str()).as_str());
    assert(filled_str@ =~= rep('█', filled as int));
    assert(empty_str@ =~= rep('░', 60 - filled));
    assert(bar.rendered@ =~= rep(' ', 3) + ({
        let c = bar_rgb(pct as nat);
        ansi_rgb(c.0, c.1, c.2, rep('█', filled as int))
    }) + ansi_rgb(38, 50, 68, rep('░', 60 - filled)));
    row(&bar, width)
}

fn status_counts(results: &[CheckResult]) -> (r: (usize, usize, usize, usize))
    ensures
        ({
            let st = statuses(results@);
            let n = results@.len() as int;
            &&& r.0 == count_of(st, Status::Pass, n)
            &&& r.1 == count_of(st, Status::Fail, n)
            &&& r.2 == count_of(st, Status::Warn, n)
            &&& r.3 == count_of(st, Status::Skipped, n)
            &&& r.0 + r.1 + r.2 + r.3 == n
        }),
{
    let ghost st = statuses(results@);
    let total = results.len();
    let mut passed: usize = 0;
    let mut failed: usize = 0;
    let mut warned: usize = 0;
    let mut skipped: usize = 0;
    let mut i: usize = 0;
    while i < total
        invariant
            total == results@.len(),
            st == statuses(results@),
            i <= total,
            passed == count_of(st, Status::Pass, i as int),
            failed == count_of(st, Status::Fail, i as int),
            warned == count_of(st, Status::Warn, i as int),
            skipped == count_of(st, Status::Skipped, i as int),
            passed + failed + warned + skipped == i,
        decreases total - i,
    {
        assert(st[i as int] == results@[i as int].status);
        match results[i].status {
            Status::Pass => {
                passed = passed + 1;
            },
            Status::Fail => {
                failed = failed + 1;
            },
            Status::Warn => {
                warned = warned + 1;
            },
            Status::Skipped => {
                skipped = skipped + 1;
            },
        }
        i = i + 1;
    }
    (passed, failed, warned, skipped)
}

fn percent(passed: usize, skipped: usize, total: usize) -> (pct: usize)
    requires
        passed + skipped <= total,
    ensures
        pct == percent_spec(passed as nat, skipped as nat, total as nat),
        pct <= 100,
{
    if total == 0 {
        100
    } else {
        let p: u128 = ((passed as u128 + skipped as u128) * 100) / (total as u128);
        assert(p <= 100) by (nonlinear_arith)
            requires
                p == ((passed + skipped) * 100) / (total as int),
                passed + skipped <= total,
                total > 0,
        ;
        p as usize
    }
}

/// The posture panel: the hardened share as a number and a bar, then the
/// counts per status, at `width` columns.
pub fn render_posture_panel(results: &[CheckResult], width: usize) -> (rows: Vec<String>)
    requires
        60 <= width <= 120,
    ensures
        ({
            let st = statuses(results@);
            let n = results@.len() as int;
            string_views(rows@) == posture_spec(
                count_of(st, Status::Pass, n),
                count_of(st, Status::Fail, n),
                count_of(st, Status::Warn, n),
                count_of(st, Status::Skipped, n),
                results@.len(),
                width as nat,
            )
        }),
{
    let total = results.len();
    let (passed, failed, warned, skipped) = status_counts(results);
    let pct = percent(passed, skipped, total);
    let mut rows: Vec<String> = Vec::new();
    proof { reveal_strlit("Security posture"); }
    rows.push(top_section("Security posture", width));
    rows.push(blank(width));
    rows.push(label_row(pct, width));
    rows.push(bar_row(pct, width));
    rows.push(blank(width));
    rows.push(counts_row(passed, failed, warned, skipped, total, width));
    rows.push(blank(width));
    rows.push(bottom(width));
    rows.push(String::new());
    assert(string_views(rows@) =~= posture_spec(passed as nat, failed as nat, warned as nat, skipped as nat, total as nat, width as nat));
    rows
}

} // verus!
