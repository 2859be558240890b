//! The checks panel: one block per result, in panel order, with the
//! result's status and summary, what the check currently sees, why it
//! matters, how to fix it, and which repositories are affected.
use vstd::prelude::*;
use crate::checks::catalog::Check;
use crate::checks::org_context::{OrgContext, OrgPlan};
use crate::runner::{result_views, CheckResult, ResultView};
use crate::runner::order::{display_order, display_order_exec, ints};
use crate::runner::fix::{
    block_rows, fences_spec, free_plan_spec, osc8, push_all_rows, push_row, render_fix_block, rewrite_fix_for_free_plan,
    substitute_fix_template, substitute_spec,
};
use crate::style::{ansi_rgb, ansi_style};
use crate::support::outcome::Status;
use crate::support::panel::{
    accent_bold, blank, blank_spec, bottom, bottom_spec, danger_bold, divider, divider_spec, top_section, top_section_spec, empty_line, gap, holds_parts, muted, parts_row, push_gap, push_raw,
    rep, row, sat_sub, success_bold, text, text_bold, warning, warning_bold, wrap, wrap_spec, Line,
};
use crate::text::{dec, join, replace, string_views};

verus! {

/// The word shown for a status.
pub open spec fn severity_spec(s: Status) -> Seq<char> {
    match s {
        Status::Fail => "CRITICAL"@,
        Status::Warn => "WARNING"@,
        Status::Pass => "PASS"@,
        Status::Skipped => "SKIPPED"@,
    }
}

/// The glyph shown for a status.
pub open spec fn glyph_spec(s: Status) -> Seq<char> {
    match s {
        Status::Fail => "✕"@,
        Status::Warn => "!"@,
        Status::Pass => "✓"@,
        Status::Skipped => "—"@,
    }
}

/// Text in the colour of a status: bold red, yellow or green, or muted.
pub open spec fn sev_render(s: Status, t: Seq<char>) -> Seq<char> {
    match s {
        Status::Fail => ansi_style("1"@, ansi_rgb(239, 83, 80, t)),
        Status::Warn => ansi_style("1"@, ansi_rgb(242, 204, 96, t)),
        Status::Pass => ansi_style("1"@, ansi_rgb(126, 231, 135, t)),
        Status::Skipped => ansi_rgb(124, 132, 151, t),
    }
}

/// The summary in its colour: an organization-wide summary is muted.
pub open spec fn summary_render(r: ResultView) -> Seq<char> {
    if r.summary == "org-wide"@ { ansi_rgb(124, 132, 151, r.summary) } else { sev_render(r.status, r.summary) }
}

/// Bold body text.
pub open spec fn bold_text(t: Seq<char>) -> Seq<char> {
    ansi_style("1"@, ansi_rgb(229, 231, 235, t))
}

/// The leading parts of a block's heading: glyph, status word and title.
pub open spec fn head_parts(r: ResultView) -> Seq<(Seq<char>, Seq<char>)> {
    let g = glyph_spec(r.status);
    let sev = severity_spec(r.status);
    let title = r.check.label_spec();
    seq![gap(2), (g, sev_render(r.status, g)), gap(2), (sev, sev_render(r.status, sev)), gap(3), (title, bold_text(title))]
}

/// The heading rows of a block: the summary at the right edge when it fits,
/// otherwise on a row of its own; no summary when it is empty.
pub open spec fn head_rows(r: ResultView, pw: nat) -> Seq<Seq<char>> {
    let inner = pw - 2;
    let left = 2 + 1 + 2 + severity_spec(r.status).len() + 3 + r.check.label_spec().len();
    let right = if r.summary.len() == 0 { 0 } else { r.summary.len() + 2 };
    if left + 3 + right <= inner && r.summary.len() > 0 {
        let avail = (inner - left - right) as nat;
        seq![parts_row(head_parts(r) + seq![gap(avail), (r.summary, summary_render(r)), gap(2)], pw)]
    } else if r.summary.len() == 0 {
        seq![parts_row(head_parts(r), pw)]
    } else {
        seq![parts_row(head_parts(r), pw), parts_row(seq![gap(5), (r.summary, summary_render(r))], pw)]
    }
}

/// The colours of wrapped body text.
#[derive(Clone, Copy, PartialEq, Eq, Debug, Structural)]
pub enum Tone {
    Text,
    Muted,
    Warning,
}

/// Text in a tone.
pub open spec fn tone_render(tone: Tone, t: Seq<char>) -> Seq<char> {
    match tone {
        Tone::Text => ansi_rgb(229, 231, 235, t),
        Tone::Muted => ansi_rgb(124, 132, 151, t),
        Tone::Warning => ansi_rgb(242, 204, 96, t),
    }
}

/// One row per line, indented and in a tone.
pub open spec fn tone_rows(lines: Seq<Seq<char>>, indent: nat, tone: Tone, pw: nat) -> Seq<Seq<char>> {
    lines.map_values(|l: Seq<char>| parts_row(seq![gap(indent), (l, tone_render(tone, l))], pw))
}

fn tone_exec(tone: Tone, t: &str) -> (r: String)
    ensures
        r@ == tone_render(tone, t@),
{
    match tone {
        Tone::Text => text(t),
        Tone::Muted => muted(t),
        Tone::Warning => warning(t),
    }
}

fn sev_exec(s: Status, t: &str) -> (r: String)
    ensures
        r@ == sev_render(s, t@),
{
    match s {
        Status::Fail => danger_bold(t),
        Status::Warn => warning_bold(t),
        Status::Pass => success_bold(t),
        Status::Skipped => muted(t),
    }
}

fn severity(s: Status) -> (r: &'static str)
    ensures
        r@ == severity_spec(s),
{
    match s {
        Status::Fail => "CRITICAL",
        Status::Warn => "WARNING",
        Status::Pass => "PASS",
        Status::Skipped => "SKIPPED",
    }
}

fn glyph(s: Status) -> (r: &'static str)
    ensures
        r@ == glyph_spec(s),
{
    match s {
        Status::Fail => "✕",
        Status::Warn => "!",
        Status::Pass => "✓",
        Status::Skipped => "—",
    }
}

/// A line holding the given parts: leading spaces, then text drawn as
/// `rendered`.
fn indented(n: usize, vis: &str, rendered: &str) -> (l: Line)
    ensures
        holds_parts(l, seq![gap(n as nat), (vis@, rendered@)]),
{
    let ghost p0 = Seq::<(Seq<char>, Seq<char>)>::empty();
    let l = push_gap(empty_line(), n, Ghost(p0));
    let ghost p1 = seq![gap(n as nat)];
    assert(p0.push(gap(n as nat)) =~= p1);
    let l = push_raw(l, vis, rendered, Ghost(p1));
    assert(Seq::<(Seq<char>, Seq<char>)>::empty().push(gap(n as nat)) =~= seq![gap(n as nat)]);
    assert(seq![gap(n as nat)].push((vis@, rendered@)) =~= seq![gap(n as nat), (vis@, rendered@)]);
    l
}

/// One row per line, indented and in a tone.
fn tone_rows_exec(lines: &Vec<String>, indent: usize, tone: Tone, pw: usize) -> (rows: Vec<String>)
    requires
        pw >= 2,
    ensures
        string_views(rows@) == tone_rows(string_views(lines@), indent as nat, tone, pw as nat),
{
    let mut rows: Vec<String> = Vec::new();
    let mut i: usize = 0;
    while i < lines.len()
        invariant
            pw >= 2,
            i <= lines@.len(),
            string_views(rows@) == tone_rows(string_views(lines@).subrange(0, i as int), indent as nat, tone, pw as nat),
        decreases lines@.len() - i,
    {
        let ghost before = string_views(rows@);
        let l = lines[i].as_str();
        let line = indented(indent, l, tone_exec(tone, l).as_str());
        let r = row(&line, pw);
        let ghost rv = r@;
        rows.push(r);
        assert(string_views(rows@) =~= before.push(rv));
        assert(tone_rows(string_views(lines@).subrange(0, i + 1), indent as nat, tone, pw as nat)
            =~= tone_rows(string_views(lines@).subrange(0, i as int), indent as nat, tone, pw as nat).push(rv));
        i = i + 1;
    }
    assert(string_views(lines@).subrange(0, i as int) =~= string_views(lines@));
    rows
}

fn head_line(r: &CheckResult) -> (l: Line)
    ensures
        holds_parts(l, head_parts(r@)),
{
    let g = glyph(r.status);
    let sev = severity(r.status);
    let title = r.check.label();
    let ghost p0 = Seq::<(Seq<char>, Seq<char>)>::empty();
    let l = push_gap(empty_line(), 2, Ghost(p0));
    let ghost p1 = p0.push(gap(2));
    let gr = sev_exec(r.status, g);
    let l = push_raw(l, g, gr.as_str(), Ghost(p1));
    let ghost p2 = p1.push((g@, gr@));
    let l = push_gap(l, 2, Ghost(p2));
    let ghost p3 = p2.push(gap(2));
    let sr = sev_exec(r.status, sev);
    let l = push_raw(l, sev, sr.as_str(), Ghost(p3));
    let ghost p4 = p3.push((sev@, sr@));
    let l = push_gap(l, 3, Ghost(p4));
    let ghost p5 = p4.push(gap(3));
    let tr = text_bold(title);
    let l = push_raw(l, title, tr.as_str(), Ghost(p5));
    assert(p5.push((title@, tr@)) =~= head_parts(r@));
    l
}

fn summary_exec(r: &CheckResult) -> (s: String)
    ensures
        s@ == summary_render(r@),
{
    proof { reveal_strlit("org-wide"); }
    if crate::text::str_eq(r.summary.as_str(), "org-wide") {
        muted(r.summary.as_str())
    } else {
        sev_exec(r.status, r.summary.as_str())
    }
}

fn head_fits(r: &CheckResult, inner: usize) -> (b: bool)
    ensures
        b == (2 + 1 + 2 + severity_spec(r@.status).len() + 3 + r@.check.label_spec().len() + 3
            + (if r@.summary.len() == 0 { 0 } else { r@.summary.len() + 2 }) <= inner),
{
    let left = 8usize.saturating_add(severity(r.status).unicode_len()).saturating_add(r.check.label().unicode_len());
    let slen = r.summary.unicode_len();
    let right: usize = if slen == 0 { 0 } else { slen.saturating_add(2) };
    left <= inner && 3 <= inner - left && right <= inner - left - 3
}

/// The heading rows of a block.
fn head_rows_exec(r: &CheckResult, pw: usize) -> (rows: Vec<String>)
    requires
        pw >= 2,
    ensures
        string_views(rows@) == head_rows(r@, pw as nat),
{
    let inner = pw - 2;
    let head = head_line(r);
    let ghost hp = head_parts(r@);
    let srend = summary_exec(r);
    let slen = r.summary.unicode_len();
    let fits = head_fits(r, inner);
    let mut rows: Vec<String> = Vec::new();
    if fits && slen > 0 {
        let left = 8 + severity(r.status).unicode_len() + r.check.label().unicode_len();
        let avail = inner - left - (slen + 2);
        let h = push_gap(head, avail, Ghost(hp));
        let ghost q1 = hp.push(gap(avail as nat));
        let h = push_raw(h, r.summary.as_str(), srend.as_str(), Ghost(q1));
        let ghost q2 = q1.push((r.summary@, srend@));
        let h = push_gap(h, 2, Ghost(q2));
        assert(hp.push(gap(avail as nat)).push((r.summary@, srend@)).push(gap(2))
            =~= hp + seq![gap(avail as nat), (r@.summary, summary_render(r@)), gap(2)]);
        rows.push(row(&h, pw));
    } else if slen == 0 {
        rows.push(row(&head, pw));
    } else {
        rows.push(row(&head, pw));
        let second = indented(5, r.summary.as_str(), srend.as_str());
        rows.push(row(&second, pw));
    }
    assert(string_views(rows@) =~= head_rows(r@, pw as nat));
    rows
}

/// Why a check whose only finding is the organization default matters.
pub const ORG_DEFAULT_WHY: &'static str = "Every new repository inherits the organization's defaults; without this control set at the org level, the next repo someone creates lands unprotected and stays that way until somebody toggles it by hand.";

/// The caution shown under the remediation of a ruleset-based finding.
pub const BYPASS_NOTE: &'static str = "Strict enforcement can create friction — for example, a solo maintainer can be blocked from merging their own changes. If that's your situation, configure this ruleset's Bypass list to choose which roles, teams, GitHub Apps, or users may bypass it, rather than weakening the rule for everyone.";

/// The width of body text in a panel `pw` columns wide.
pub open spec fn text_width(pw: nat) -> nat {
    sat_sub(pw - 2, 6) as nat
}

/// What the check currently sees, wrapped, then a blank row.
pub open spec fn description_rows(r: ResultView, tw: nat, pw: nat) -> Seq<Seq<char>> {
    match r.description {
        Some(note) => tone_rows(wrap_spec("Currently: "@ + note + "."@, tw), 5, Tone::Text, pw) + seq![blank_spec(pw)],
        None => Seq::empty(),
    }
}

/// Why the control matters: the organization-default text when only the
/// default is at fault, otherwise the check's own reason (arrows as "›").
pub open spec fn why_text(r: ResultView) -> Seq<char> {
    if r.org_only_issue { ORG_DEFAULT_WHY@ } else { replace(r.check.why_spec(), "→"@, "›"@) }
}

/// The result is a finding (it failed or warned).
pub open spec fn is_finding(r: ResultView) -> bool {
    r.status == Status::Fail || r.status == Status::Warn
}

/// The organization is on the free plan.
pub open spec fn plan_free(org: Option<&OrgContext>) -> bool {
    match org {
        Some(o) => o.plan == OrgPlan::Free,
        None => false,
    }
}

/// The remediation points to per-repository rules pages: a ruleset-based
/// finding on a free plan.
pub open spec fn rules_link(r: ResultView, org: Option<&OrgContext>) -> bool {
    is_finding(r) && r.check.ruleset_based_spec() && plan_free(org)
}

/// The lists of `v[..k]` one after the other.
pub open spec fn flatten(v: Seq<Seq<Seq<char>>>, k: int) -> Seq<Seq<char>>
    decreases k,
{
    if k <= 0 || k > v.len() {
        Seq::empty()
    } else {
        flatten(v, k - 1) + v[k - 1]
    }
}

/// The first affected repository, if any.
pub open spec fn first_repo(r: ResultView) -> Option<Seq<char>> {
    if r.affected_repos.len() > 0 { Some(r.affected_repos[0]) } else { None }
}

/// The remediation text of a finding, filled in for the account.
pub open spec fn fix_text(r: ResultView, org: Option<&OrgContext>, account: Seq<char>) -> Seq<char> {
    let branches = crate::text::sorted_set(flatten(r.affected_repo_release_branches, r.affected_repo_release_branches.len() as int));
    let t = substitute_spec(r.how_to_fix, account, first_repo(r), branches);
    if rules_link(r, org) { free_plan_spec(t, account) } else { t }
}

/// How to fix a finding.
pub open spec fn fix_rows(r: ResultView, org: Option<&OrgContext>, account: Seq<char>, hyperlinks: bool, tw: nat, pw: nat) -> Seq<Seq<char>> {
    if is_finding(r) {
        seq![parts_row(seq![gap(5), ("How to fix:"@, bold_text("How to fix:"@))], pw)]
            + block_rows(fences_spec(fix_text(r, org, account)), 0, sat_sub(tw as int, 2) as nat, hyperlinks, pw)
    } else {
        Seq::empty()
    }
}

/// The caution about strict rulesets, under a ruleset-based finding.
pub open spec fn note_rows(r: ResultView, tw: nat, pw: nat) -> Seq<Seq<char>> {
    if is_finding(r) && r.check.ruleset_based_spec() {
        seq![blank_spec(pw)] + tone_rows(wrap_spec(BYPASS_NOTE@, sat_sub(tw as int, 2) as nat), 5, Tone::Warning, pw)
    } else {
        Seq::empty()
    }
}

/// Bold accent text.
pub open spec fn accent_text(t: Seq<char>) -> Seq<char> {
    ansi_style("1"@, ansi_rgb(192, 132, 252, t))
}

/// The list of members: all of them when asked or when there are at most
/// six, otherwise the first five and how many more there are.
pub open spec fn preview_spec(list: Seq<Seq<char>>, verbose: bool) -> Seq<char> {
    if verbose || list.len() <= 6 {
        join(list, "  "@)
    } else {
        join(list.subrange(0, 5), "  "@) + "  +"@ + dec((list.len() - 5) as nat) + " more · --verbose to list"@
    }
}

/// A titled list of accounts (such as outside collaborators).
pub open spec fn member_block(title: Seq<char>, list: Seq<Seq<char>>, tw: nat, verbose: bool, pw: nat) -> Seq<Seq<char>> {
    seq![blank_spec(pw)] + if list.len() == 0 {
        seq![
            parts_row(seq![gap(5), (title + " (0)"@, accent_text(title + " (0)"@))], pw),
            parts_row(seq![gap(7), ("None"@, ansi_rgb(124, 132, 151, "None"@))], pw),
        ]
    } else {
        let lbl = title + " ("@ + dec(list.len()) + ")"@;
        seq![parts_row(seq![gap(5), (lbl, accent_text(lbl))], pw)]
            + tone_rows(wrap_spec(preview_spec(list, verbose), sat_sub(tw as int, 2) as nat), 7, Tone::Text, pw)
    }
}

/// The outside collaborators, under the direct-collaborators check of an
/// organization.
pub open spec fn member_rows(r: ResultView, org: Option<&OrgContext>, tw: nat, verbose: bool, pw: nat) -> Seq<Seq<char>> {
    match org {
        Some(o) => if r.check == Check::HaveNoDirectCollaborators {
            member_block("Outside collaborators"@, string_views(o.outside_collaborators@), tw, verbose, pw)
        } else {
            Seq::empty()
        },
        None => Seq::empty(),
    }
}

/// The link row of affected entry `idx`: the check's page of the repository
/// (the repository itself when the check names none), or its rules page on
/// a free plan; `{branch}` in the page is the entry's branch (`HEAD` when
/// it has none).
pub open spec fn link_row(r: ResultView, idx: int, account: Seq<char>, rules: bool, hyperlinks: bool, pw: nat) -> Seq<char> {
    let name = r.affected_repos[idx];
    let branch = if idx < r.affected_repo_branches.len() {
        match r.affected_repo_branches[idx] {
            Some(b) => b,
            None => "HEAD"@,
        }
    } else {
        "HEAD"@
    };
    let path = if rules { Some("/settings/rules"@) } else { r.check.repo_link_path_spec() };
    let suffix = match path {
        Some(p) => replace(p, "{branch}"@, branch),
        None => Seq::empty(),
    };
    let url = "https://github.com/"@ + account + "/"@ + name + suffix;
    let styled = ansi_rgb(229, 231, 235, url);
    parts_row(seq![gap(5), (url, if hyperlinks { osc8(url, styled) } else { styled })], pw)
}

/// The affected repositories of a finding: how many distinct ones, then a
/// link for each entry (at most four unless asked for all).
pub open spec fn affected_rows(r: ResultView, org: Option<&OrgContext>, account: Seq<char>, verbose: bool, hyperlinks: bool, pw: nat) -> Seq<Seq<char>> {
    let total = r.affected_repos.len();
    if is_finding(r) && total > 0 {
        let distinct = crate::runner::distinct_count(r.affected_repos, total as int);
        let lbl = "Affected repositories ("@ + dec(distinct) + ")"@;
        let show: nat = if verbose || total <= 4 { total } else { 4 };
        let links = Seq::new(show, |i: int| link_row(r, i, account, rules_link(r, org), hyperlinks, pw));
        seq![blank_spec(pw), parts_row(seq![gap(5), (lbl, accent_text(lbl))], pw)] + links + if show < total {
            let more = "+"@ + dec((total - show) as nat) + " more · --verbose to list"@;
            seq![parts_row(seq![gap(5), (more, ansi_rgb(124, 132, 151, more))], pw)]
        } else {
            Seq::empty()
        }
    } else {
        Seq::empty()
    }
}

fn description_rows_exec(r: &CheckResult, tw: usize, pw: usize) -> (rows: Vec<String>)
    requires
        pw >= 2,
    ensures
        string_views(rows@) == description_rows(r@, tw as nat, pw as nat),
{
    match &r.description {
        Some(note) => {
            let mut line_text = String::new();
            line_text.append("Currently: ");
            line_text.append(note.as_str());
            line_text.append(".");
            let lines = wrap(line_text.as_str(), tw);
            let mut rows = tone_rows_exec(&lines, 5, Tone::Text, pw);
            let ghost before = string_views(rows@);
            rows.push(blank(pw));
            assert(string_views(rows@) =~= before.push(blank_spec(pw as nat)));
            rows
        },
        None => {
            let rows: Vec<String> = Vec::new();
            assert(string_views(rows@) =~= Seq::<Seq<char>>::empty());
            rows
        },
    }
}

fn why_rows_exec(r: &CheckResult, tw: usize, pw: usize) -> (rows: Vec<String>)
    requires
        pw >= 2,
    ensures
        string_views(rows@) == tone_rows(wrap_spec(why_text(r@), tw as nat), 5, Tone::Muted, pw as nat),
{
    let why = if r.org_only_issue {
        ORG_DEFAULT_WHY.to_owned()
    } else {
        proof { reveal_strlit("→"); }
        assert("→"@.len() == 1);
        crate::text::str_replace(r.check.why_enable(), "→", "›")
    };
    let lines = wrap(why.as_str(), tw);
    tone_rows_exec(&lines, 5, Tone::Muted, pw)
}

fn flatten_exec(v: &Vec<Vec<String>>) -> (r: Vec<String>)
    ensures
        string_views(r@) == flatten(crate::runner::nested_views(v@), v@.len() as int),
{
    let ghost nv = crate::runner::nested_views(v@);
    let mut out: Vec<String> = Vec::new();
    let mut i: usize = 0;
    while i < v.len()
        invariant
            i <= v@.len(),
            nv == crate::runner::nested_views(v@),
            string_views(out@) == flatten(nv, i as int),
        decreases v@.len() - i,
    {
        let ghost before = string_views(out@);
        assert(nv[i as int] == string_views(v@[i as int]@));
        let inner = &v[i];
        let mut j: usize = 0;
        while j < inner.len()
            invariant
                j <= inner@.len(),
                string_views(out@) == before + string_views(inner@).subrange(0, j as int),
            decreases inner@.len() - j,
        {
            let ghost b1 = string_views(out@);
            out.push(inner[j].clone());
            assert(string_views(out@) =~= b1.push(inner@[j as int]@));
            assert(string_views(inner@).subrange(0, j + 1) =~= string_views(inner@).subrange(0, j as int).push(inner@[j as int]@));
            j = j + 1;
        }
        assert(string_views(inner@).subrange(0, j as int) =~= string_views(inner@));
        i = i + 1;
    }
    out
}

fn fix_text_exec(r: &CheckResult, org: Option<&OrgContext>, account: &str) -> (t: String)
    ensures
        t@ == fix_text(r@, org, account@),
{
    let all = flatten_exec(&r.affected_repo_release_branches);
    let branches = crate::text::sort_dedup(&all);
    let repo: Option<&str> = if r.affected_repos.len() > 0 { Some(r.affected_repos[0].as_str()) } else { None };
    let t = substitute_fix_template(r.how_to_fix, account, repo, &branches);
    let free = match org {
        Some(o) => o.plan == OrgPlan::Free,
        None => false,
    };
    let finding = r.status == Status::Fail || r.status == Status::Warn;
    if finding && r.check.ruleset_based() && free {
        rewrite_fix_for_free_plan(t.as_str(), account)
    } else {
        t
    }
}

fn fix_rows_exec(r: &CheckResult, org: Option<&OrgContext>, account: &str, hyperlinks: bool, tw: usize, pw: usize) -> (rows: Vec<String>)
    requires
        pw >= 2,
    ensures
        string_views(rows@) == fix_rows(r@, org, account@, hyperlinks, tw as nat, pw as nat),
{
    let mut rows: Vec<String> = Vec::new();
    if r.status == Status::Fail || r.status == Status::Warn {
        let head = indented(5, "How to fix:", text_bold("How to fix:").as_str());
        rows.push(row(&head, pw));
        let t = fix_text_exec(r, org, account);
        let w = if tw > 2 { tw - 2 } else { 0 };
        let more = render_fix_block(t.as_str(), w, hyperlinks, pw);
        push_all_rows(&mut rows, more);
    }
    assert(string_views(rows@) =~= fix_rows(r@, org, account@, hyperlinks, tw as nat, pw as nat));
    rows
}

fn note_rows_exec(r: &CheckResult, tw: usize, pw: usize) -> (rows: Vec<String>)
    requires
        pw >= 2,
    ensures
        string_views(rows@) == note_rows(r@, tw as nat, pw as nat),
{
    let mut rows: Vec<String> = Vec::new();
    if (r.status == Status::Fail || r.status == Status::Warn) && r.check.ruleset_based() {
        rows.push(blank(pw));
        let w = if tw > 2 { tw - 2 } else { 0 };
        let lines = wrap(BYPASS_NOTE, w);
        push_all_rows(&mut rows, tone_rows_exec(&lines, 5, Tone::Warning, pw));
    }
    assert(string_views(rows@) =~= note_rows(r@, tw as nat, pw as nat));
    rows
}

fn preview_exec(list: &Vec<String>, verbose: bool) -> (p: String)
    ensures
        p@ == preview_spec(string_views(list@), verbose),
{
    if verbose || list.len() <= 6 {
        crate::text::join_strings(list, "  ")
    } else {
        let mut first: Vec<String> = Vec::new();
        let mut i: usize = 0;
        while i < 5
            invariant
                i <= 5,
                list@.len() > 6,
                string_views(first@) == string_views(list@).subrange(0, i as int),
            decreases 5 - i,
        {
            let ghost b = string_views(first@);
            first.push(list[i].clone());
            assert(string_views(first@) =~= b.push(list@[i as int]@));
            i = i + 1;
            assert(string_views(first@) =~= string_views(list@).subrange(0, i as int));
        }
        let mut p = crate::text::join_strings(&first, "  ");
        p.append("  +");
        crate::text::push_dec(&mut p, list.len() - 5);
        p.append(" more · --verbose to list");
        p
    }
}

fn member_block_exec(title: &str, list: &Vec<String>, tw: usize, verbose: bool, pw: usize) -> (rows: Vec<String>)
    requires
        pw >= 2,
    ensures
        string_views(rows@) == member_block(title@, string_views(list@), tw as nat, verbose, pw as nat),
{
    let mut rows: Vec<String> = Vec::new();
    rows.push(blank(pw));
    if list.len() == 0 {
        let mut lbl = String::new();
        lbl.append(title);
        lbl.append(" (0)");
        rows.push(row(&indented(5, lbl.as_str(), accent_bold(lbl.as_str()).as_str()), pw));
        rows.push(row(&indented(7, "None", muted("None").as_str()), pw));
    } else {
        let mut lbl = String::new();
        lbl.append(title);
        lbl.append(" (");
        crate::text::push_dec(&mut lbl, list.len());
        lbl.append(")");
        rows.push(row(&indented(5, lbl.as_str(), accent_bold(lbl.as_str()).as_str()), pw));
        let w = if tw > 2 { tw - 2 } else { 0 };
        let lines = wrap(preview_exec(list, verbose).as_str(), w);
        push_all_rows(&mut rows, tone_rows_exec(&lines, 7, Tone::Text, pw));
    }
    assert(string_views(rows@) =~= member_block(title@, string_views(list@), tw as nat, verbose, pw as nat));
    rows
}

fn member_rows_exec(r: &CheckResult, org: Option<&OrgContext>, tw: usize, verbose: bool, pw: usize) -> (rows: Vec<String>)
    requires
        pw >= 2,
    ensures
        string_views(rows@) == member_rows(r@, org, tw as nat, verbose, pw as nat),
{
    match org {
        Some(o) => {
            if r.check == Check::HaveNoDirectCollaborators {
                return member_block_exec("Outside collaborators", &o.outside_collaborators, tw, verbose, pw);
            }
        },
        None => {},
    }
    let rows: Vec<String> = Vec::new();
    assert(string_views(rows@) =~= Seq::<Seq<char>>::empty());
    rows
}

fn link_row_exec(r: &CheckResult, idx: usize, account: &str, rules: bool, hyperlinks: bool, pw: usize) -> (s: String)
    requires
        pw >= 2,
        idx < r.affected_repos@.len(),
    ensures
        s@ == link_row(r@, idx as int, account@, rules, hyperlinks, pw as nat),
{
    let branch: &str = if idx < r.affected_repo_branches.len() {
        match &r.affected_repo_branches[idx] {
            Some(b) => b.as_str(),
            None => "HEAD",
        }
    } else {
        "HEAD"
    };
    assert(crate::runner::opt_views(r.affected_repo_branches@).len() == r.affected_repo_branches@.len());
    let mut url = String::new();
    url.append("https://github.com/");
    url.append(account);
    url.append("/");
    url.append(r.affected_repos[idx].as_str());
    let path: Option<&'static str> = if rules { Some("/settings/rules") } else { r.check.repo_link_path() };
    match path {
        Some(p) => {
            proof { reveal_strlit("{branch}"); }
            assert("{branch}"@.len() == 8);
            url.append(crate::text::str_replace(p, "{branch}", branch).as_str());
        },
        None => {},
    }
    let styled = text(url.as_str());
    let cell = if hyperlinks {
        let mut c = String::new();
        c.append("\x1b]8;;");
        c.append(url.as_str());
        c.append("\x1b\\");
        c.append(styled.as_str());
        c.append("\x1b]8;;\x1b\\");
        c
    } else {
        styled
    };
    row(&indented(5, url.as_str(), cell.as_str()), pw)
}

fn affected_rows_exec(r: &CheckResult, org: Option<&OrgContext>, account: &str, verbose: bool, hyperlinks: bool, pw: usize) -> (rows: Vec<String>)
    requires
        pw >= 2,
    ensures
        string_views(rows@) == affected_rows(r@, org, account@, verbose, hyperlinks, pw as nat),
{
    let mut rows: Vec<String> = Vec::new();
    let total = r.affected_repos.len();
    if (r.status == Status::Fail || r.status == Status::Warn) && total > 0 {
        rows.push(blank(pw));
        let distinct = crate::runner::count_distinct(&r.affected_repos);
        let mut lbl = String::new();
        lbl.append("Affected repositories (");
        crate::text::push_dec(&mut lbl, distinct);
        lbl.append(")");
        rows.push(row(&indented(5, lbl.as_str(), accent_bold(lbl.as_str()).as_str()), pw));
        let free = match org {
            Some(o) => o.plan == OrgPlan::Free,
            None => false,
        };
        let rules = r.check.ruleset_based() && free;
        let ghost rl = rules_link(r@, org);
        assert(rules == rl);
        let show: usize = if verbose || total <= 4 { total } else { 4 };
        let ghost head = string_views(rows@);
        let mut i: usize = 0;
        while i < show
            invariant
                pw >= 2,
                show <= total,
                total == r.affected_repos@.len(),
                i <= show,
                string_views(rows@) == head + Seq::new(i as nat, |k: int| link_row(r@, k, account@, rules, hyperlinks, pw as nat)),
            decreases show - i,
        {
            let ghost b = string_views(rows@);
            let lr = link_row_exec(r, i, account, rules, hyperlinks, pw);
            let ghost lv = lr@;
            rows.push(lr);
            assert(string_views(rows@) =~= b.push(lv));
            i = i + 1;
            assert(string_views(rows@) =~= head + Seq::new(i as nat, |k: int| link_row(r@, k, account@, rules, hyperlinks, pw as nat)));
        }
        assert(Seq::new(show as nat, |k: int| link_row(r@, k, account@, rules, hyperlinks, pw as nat))
            =~= Seq::new(show as nat, |k: int| link_row(r@, k, account@, rules_link(r@, org), hyperlinks, pw as nat)));
        assert(head =~= seq![blank_spec(pw as nat), parts_row(seq![gap(5), (lbl@, accent_text(lbl@))], pw as nat)]);
        if show < total {
            let mut more = String::new();
            more.append("+");
            crate::text::push_dec(&mut more, total - show);
            more.append(" more · --verbose to list");
            rows.push(row(&indented(5, more.as_str(), muted(more.as_str()).as_str()), pw));
        }
    }
    assert(string_views(rows@) =~= affected_rows(r@, org, account@, verbose, hyperlinks, pw as nat));
    rows
}

/// The block of one result; `last` leaves out the divider below it.
#[verifier::opaque]
pub open spec fn result_block(
    r: ResultView,
    org: Option<&OrgContext>,
    account: Seq<char>,
    verbose: bool,
    hyperlinks: bool,
    pw: nat,
    last: bool,
) -> Seq<Seq<char>> {
    let tw = text_width(pw);
    seq![blank_spec(pw)] + head_rows(r, pw) + seq![blank_spec(pw)] + description_rows(r, tw, pw)
        + tone_rows(wrap_spec(why_text(r), tw), 5, Tone::Muted, pw) + seq![blank_spec(pw)]
        + fix_rows(r, org, account, hyperlinks, tw, pw) + note_rows(r, tw, pw) + member_rows(r, org, tw, verbose, pw)
        + affected_rows(r, org, account, verbose, hyperlinks, pw) + seq![blank_spec(pw)]
        + if last { Seq::empty() } else { seq![divider_spec(pw)] }
}

/// The blocks of the results `order[k..]`.
pub open spec fn blocks(
    rs: Seq<ResultView>,
    order: Seq<int>,
    k: int,
    org: Option<&OrgContext>,
    account: Seq<char>,
    verbose: bool,
    hyperlinks: bool,
    pw: nat,
) -> Seq<Seq<char>>
    decreases order.len() - k,
{
    if k < 0 || k >= order.len() {
        Seq::empty()
    } else {
        result_block(rs[order[k]], org, account, verbose, hyperlinks, pw, k + 1 == order.len())
            + blocks(rs, order, k + 1, org, account, verbose, hyperlinks, pw)
    }
}

/// The whole checks panel: nothing without results; otherwise its top edge,
/// a block per result in panel order, its bottom edge and an empty line.
pub open spec fn checks_panel_spec(
    rs: Seq<ResultView>,
    org: Option<&OrgContext>,
    account: Seq<char>,
    verbose: bool,
    hyperlinks: bool,
    pw: nat,
) -> Seq<Seq<char>> {
    if rs.len() == 0 {
        Seq::empty()
    } else {
        seq![top_section_spec("Checks"@, pw)] + blocks(rs, display_order(rs), 0, org, account, verbose, hyperlinks, pw)
            + seq![bottom_spec(pw), Seq::<char>::empty()]
    }
}

fn result_block_exec(
    r: &CheckResult,
    org: Option<&OrgContext>,
    account: &str,
    verbose: bool,
    hyperlinks: bool,
    pw: usize,
    last: bool,
) -> (rows: Vec<String>)
    requires
        4 <= pw,
    ensures
        string_views(rows@) == result_block(r@, org, account@, verbose, hyperlinks, pw as nat, last),
{
    let inner = pw - 2;
    let tw: usize = if inner > 6 { inner - 6 } else { 0 };
    reveal(result_block);
    let ghost p = pw as nat;
    let ghost t = tw as nat;
    assert(t == text_width(p));
    let mut rows: Vec<String> = Vec::new();
    push_row(&mut rows, blank(pw));
    push_all_rows(&mut rows, head_rows_exec(r, pw));
    push_row(&mut rows, blank(pw));
    let ghost a1 = seq![blank_spec(p)] + head_rows(r@, p) + seq![blank_spec(p)];
    assert(string_views(rows@) =~= a1);
    push_all_rows(&mut rows, description_rows_exec(r, tw, pw));
    push_all_rows(&mut rows, why_rows_exec(r, tw, pw));
    push_row(&mut rows, blank(pw));
    let ghost a2 = a1 + description_rows(r@, t, p) + tone_rows(wrap_spec(why_text(r@), t), 5, Tone::Muted, p) + seq![blank_spec(p)];
    assert(string_views(rows@) =~= a2);
    push_all_rows(&mut rows, fix_rows_exec(r, org, account, hyperlinks, tw, pw));
    push_all_rows(&mut rows, note_rows_exec(r, tw, pw));
    let ghost a3 = a2 + fix_rows(r@, org, account@, hyperlinks, t, p) + note_rows(r@, t, p);
    assert(string_views(rows@) =~= a3);
    push_all_rows(&mut rows, member_rows_exec(r, org, tw, verbose, pw));
    push_all_rows(&mut rows, affected_rows_exec(r, org, account, verbose, hyperlinks, pw));
    push_row(&mut rows, blank(pw));
    let ghost a4 = a3 + member_rows(r@, org, t, verbose, p) + affected_rows(r@, org, account@, verbose, hyperlinks, p) + seq![blank_spec(p)];
    assert(string_views(rows@) =~= a4);
    if !last {
        push_row(&mut rows, divider(pw));
    }
    assert(string_views(rows@) =~= a4 + if last { Seq::<Seq<char>>::empty() } else { seq![divider_spec(p)] });
    rows
}

/// The checks panel at `width` columns: one block per result, failures
/// last; `hyperlinks` makes links clickable. (`active_total` is not used.)
pub fn render_checks_panel(
    results: &[CheckResult],
    org: Option<&OrgContext>,
    account: &str,
    active_total: usize,
    verbose: bool,
    width: usize,
    hyperlinks: bool,
) -> (rows: Vec<String>)
    requires
        60 <= width <= 120,
    ensures
        string_views(rows@) == checks_panel_spec(result_views(results@), org, account@, verbose, hyperlinks, width as nat),
{
    let mut rows: Vec<String> = Vec::new();
    if results.len() == 0 {
        assert(string_views(rows@) =~= Seq::<Seq<char>>::empty());
        return rows;
    }
    let ghost rs = result_views(results@);
    let order = display_order_exec(results);
    let ghost ov = ints(order@);
    proof { reveal_strlit("Checks"); }
    push_row(&mut rows, top_section("Checks", width));
    let ghost head = string_views(rows@);
    let count = order.len();
    let mut i: usize = 0;
    while i < count
        invariant
            60 <= width <= 120,
            count == order@.len(),
            ov == ints(order@),
            rs == result_views(results@),
            ov == display_order(rs),
            forall|a: int| 0 <= a < order@.len() ==> #[trigger] order@[a] < results@.len(),
            i <= count,
            string_views(rows@) + blocks(rs, ov, i as int, org, account@, verbose, hyperlinks, width as nat)
                == head + blocks(rs, ov, 0, org, account@, verbose, hyperlinks, width as nat),
        decreases count - i,
    {
        let ghost before = string_views(rows@);
        let idx = order[i];
        assert(idx < results@.len());
        assert(ov[i as int] == idx as int);
        assert(rs[idx as int] == results@[idx as int]@);
        let block = result_block_exec(&results[idx], org, account, verbose, hyperlinks, width, i + 1 == count);
        push_all_rows(&mut rows, block);
        i = i + 1;
        assert(string_views(rows@) + blocks(rs, ov, i as int, org, account@, verbose, hyperlinks, width as nat)
            =~= before + blocks(rs, ov, i - 1, org, account@, verbose, hyperlinks, width as nat));
    }
    assert(string_views(rows@) =~= head + blocks(rs, ov, 0, org, account@, verbose, hyperlinks, width as nat));
    push_row(&mut rows, bottom(width));
    push_row(&mut rows, String::new());
    assert(string_views(rows@) =~= checks_panel_spec(rs, org, account@, verbose, hyperlinks, width as nat));
    rows
}

} // verus!
