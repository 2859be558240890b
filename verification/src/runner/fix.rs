//! The remediation text of a check: filling in its template, and cutting it
//! into the pieces the checks panel lays out (code fences, paragraphs,
//! numbered steps, words and links).
use vstd::prelude::*;
use crate::style::{ansi_rgb, ansi_style};
use crate::support::panel::{blank, blank_spec, gap, holds_parts, info, info_underline, lemma_no_parts, lemma_push_part, muted, parts_row, rep, row, Line};
use crate::text::{
    contains, dec, push_dec, replace, split, split_exec, starts_with, str_contains, str_replace, str_starts_with, string_views, trim,
    trim_end_set, trim_end_set_exec, trim_exec, views,
    chars_of, find_from, find_from_exec, is_ws, is_ws_exec, lemma_find_from, matches_at, matches_at_exec,
    push_range, skip_ws, string_of,
};

verus! {

/// A piece of remediation prose.
pub enum Atom {
    /// A word (or run of words glued to punctuation).
    Plain(String),
    /// A link.
    Url(String),
    /// A paragraph break.
    ParaBreak,
}

/// The abstract value of an atom.
pub enum AtomView {
    Plain(Seq<char>),
    Url(Seq<char>),
    ParaBreak,
}

impl View for Atom {
    type V = AtomView;

    open spec fn view(&self) -> AtomView {
        match self {
            Atom::Plain(s) => AtomView::Plain(s@),
            Atom::Url(s) => AtomView::Url(s@),
            Atom::ParaBreak => AtomView::ParaBreak,
        }
    }
}

/// The abstract values of a sequence of atoms.
pub open spec fn atom_views(v: Seq<Atom>) -> Seq<AtomView> {
    v.map_values(|a: Atom| a@)
}

/// A space or a tab.
pub open spec fn is_blank(c: char) -> bool {
    c == ' ' || c == '\t'
}

/// The first index `>= i` that is not a space or a tab (or `s.len()`).
pub open spec fn skip_blanks(s: Seq<char>, i: int) -> int
    decreases s.len() - i,
{
    if 0 <= i < s.len() && is_blank(s[i]) {
        skip_blanks(s, i + 1)
    } else {
        i
    }
}

/// Where a paragraph break starting at `i` ends: blanks, a newline, blanks
/// and a second newline.
pub open spec fn para_break_end(s: Seq<char>, i: int) -> Option<int> {
    let j = skip_blanks(s, i);
    if 0 <= j < s.len() && s[j] == '\n' {
        let k = skip_blanks(s, j + 1);
        if 0 <= k < s.len() && s[k] == '\n' {
            Some(k + 1)
        } else {
            None
        }
    } else {
        None
    }
}

/// A link starts at `k`.
pub open spec fn url_at(s: Seq<char>, k: int) -> bool {
    matches_at(s, "https://"@, k) || matches_at(s, "http://"@, k)
}

/// The first index `>= k` holding whitespace (or `s.len()`).
pub open spec fn next_ws(s: Seq<char>, k: int) -> int
    decreases s.len() - k,
{
    if k < 0 || k >= s.len() {
        s.len() as int
    } else if is_ws(s[k]) {
        k
    } else {
        next_ws(s, k + 1)
    }
}

/// The first index `>= j` where whitespace or a link starts (or `s.len()`).
pub open spec fn plain_end(s: Seq<char>, j: int) -> int
    decreases s.len() - j,
{
    if j < 0 || j >= s.len() {
        s.len() as int
    } else if is_ws(s[j]) || url_at(s, j) {
        j
    } else {
        plain_end(s, j + 1)
    }
}

/// `skip_blanks` moves forward and stays within the text once inside it.
pub proof fn lemma_skip_blanks(s: Seq<char>, i: int)
    requires
        0 <= i,
    ensures
        i <= skip_blanks(s, i),
        skip_blanks(s, i) <= s.len() || skip_blanks(s, i) == i,
    decreases s.len() - i,
{
    if 0 <= i < s.len() && is_blank(s[i]) {
        lemma_skip_blanks(s, i + 1);
    }
}

/// `skip_ws` moves forward and stops on a non-space character or the end.
pub proof fn lemma_skip_ws(s: Seq<char>, i: int)
    requires
        0 <= i,
    ensures
        i <= skip_ws(s, i),
        skip_ws(s, i) < s.len() ==> !is_ws(s[skip_ws(s, i)]),
        skip_ws(s, i) <= s.len() || skip_ws(s, i) == i,
    decreases s.len() - i,
{
    if 0 <= i < s.len() && is_ws(s[i]) {
        lemma_skip_ws(s, i + 1);
    }
}

/// `next_ws` moves forward, past at least one character of a word.
pub proof fn lemma_next_ws(s: Seq<char>, k: int)
    requires
        0 <= k <= s.len(),
    ensures
        k <= next_ws(s, k) <= s.len(),
        k < s.len() && !is_ws(s[k]) ==> k < next_ws(s, k),
    decreases s.len() - k,
{
    if k < s.len() && !is_ws(s[k]) {
        lemma_next_ws(s, k + 1);
    }
}

/// `plain_end` moves forward and stays within the text.
pub proof fn lemma_plain_end(s: Seq<char>, j: int)
    requires
        0 <= j <= s.len(),
    ensures
        j <= plain_end(s, j) <= s.len(),
    decreases s.len() - j,
{
    if j < s.len() && !(is_ws(s[j]) || url_at(s, j)) {
        lemma_plain_end(s, j + 1);
    }
}

/// The atoms of `s[i..]`; `started` tells whether an atom came before (a
/// paragraph break is only recorded after one).
pub open spec fn atoms_from(s: Seq<char>, i: int, started: bool) -> Seq<AtomView>
    decreases s.len() - i,
{
    if i < 0 || i >= s.len() {
        Seq::empty()
    } else {
        match para_break_end(s, i) {
            Some(j) => {
                proof {
                    lemma_skip_blanks(s, i);
                    lemma_skip_blanks(s, skip_blanks(s, i) + 1);
                }
                (if started { seq![AtomView::ParaBreak] } else { Seq::empty() }) + atoms_from(s, j, started)
            },
            None => {
                let k = skip_ws(s, i);
                proof {
                    lemma_skip_ws(s, i);
                }
                if k >= s.len() {
                    Seq::empty()
                } else if url_at(s, k) {
                    let e = next_ws(s, k);
                    proof {
                        lemma_next_ws(s, k);
                    }
                    seq![AtomView::Url(s.subrange(k, e))] + atoms_from(s, e, true)
                } else {
                    let e = plain_end(s, k + 1);
                    proof {
                        lemma_plain_end(s, k + 1);
                    }
                    seq![AtomView::Plain(s.subrange(k, e))] + atoms_from(s, e, true)
                }
            },
        }
    }
}

/// The atoms of remediation prose: paragraph breaks (a blank line between
/// two atoms), links (up to the next whitespace) and runs of other text (up
/// to whitespace or a link).
pub open spec fn atoms_spec(s: Seq<char>) -> Seq<AtomView> {
    atoms_from(s, 0, false)
}

fn skip_blanks_exec(v: &Vec<char>, i: usize) -> (j: usize)
    requires
        i <= v@.len(),
    ensures
        j == skip_blanks(v@, i as int),
        i <= j <= v@.len(),
{
    let mut j = i;
    while j < v.len() && (v[j] == ' ' || v[j] == '\t')
        invariant
            i <= j <= v@.len(),
            skip_blanks(v@, j as int) == skip_blanks(v@, i as int),
        decreases v@.len() - j,
    {
        j = j + 1;
    }
    j
}

fn para_break_end_exec(v: &Vec<char>, i: usize) -> (r: Option<usize>)
    requires
        i <= v@.len(),
    ensures
        match r {
            Some(j) => para_break_end(v@, i as int) == Some(j as int) && j <= v@.len(),
            None => para_break_end(v@, i as int) is None,
        },
{
    let j = skip_blanks_exec(v, i);
    if j < v.len() && v[j] == '\n' {
        let k = skip_blanks_exec(v, j + 1);
        if k < v.len() && v[k] == '\n' {
            return Some(k + 1);
        }
    }
    None
}

fn skip_ws_exec(v: &Vec<char>, i: usize) -> (j: usize)
    requires
        i <= v@.len(),
    ensures
        j == skip_ws(v@, i as int),
        i <= j <= v@.len(),
{
    let mut j = i;
    while j < v.len() && is_ws_exec(v[j])
        invariant
            i <= j <= v@.len(),
            skip_ws(v@, j as int) == skip_ws(v@, i as int),
        decreases v@.len() - j,
    {
        j = j + 1;
    }
    j
}

fn url_at_exec(v: &Vec<char>, https: &Vec<char>, http: &Vec<char>, k: usize) -> (b: bool)
    requires
        https@ == "https://"@,
        http@ == "http://"@,
    ensures
        b == url_at(v@, k as int),
{
    matches_at_exec(v, https, k) || matches_at_exec(v, http, k)
}

fn next_ws_exec(v: &Vec<char>, k: usize) -> (e: usize)
    requires
        k <= v@.len(),
    ensures
        e == next_ws(v@, k as int),
{
    let mut e = k;
    while e < v.len() && !is_ws_exec(v[e])
        invariant
            k <= e <= v@.len(),
            next_ws(v@, e as int) == next_ws(v@, k as int),
        decreases v@.len() - e,
    {
        e = e + 1;
    }
    e
}

fn plain_end_exec(v: &Vec<char>, https: &Vec<char>, http: &Vec<char>, j: usize) -> (e: usize)
    requires
        j <= v@.len(),
        https@ == "https://"@,
        http@ == "http://"@,
    ensures
        e == plain_end(v@, j as int),
{
    let mut e = j;
    while e < v.len() && !(is_ws_exec(v[e]) || url_at_exec(v, https, http, e))
        invariant
            j <= e <= v@.len(),
            https@ == "https://"@,
            http@ == "http://"@,
            plain_end(v@, e as int) == plain_end(v@, j as int),
        decreases v@.len() - e,
    {
        e = e + 1;
    }
    e
}

fn piece(v: &Vec<char>, a: usize, b: usize) -> (s: String)
    requires
        a <= b <= v@.len(),
    ensures
        s@ == v@.subrange(a as int, b as int),
{
    let mut w: Vec<char> = Vec::new();
    push_range(&mut w, v, a, b);
    string_of(&w)
}

/// Cuts remediation prose into atoms.
pub fn parse_fix_atoms(s: &str) -> (atoms: Vec<Atom>)
    ensures
        atom_views(atoms@) == atoms_spec(s@),
{
    let v = chars_of(s);
    let https = chars_of("https://");
    let http = chars_of("http://");
    let mut atoms: Vec<Atom> = Vec::new();
    let mut i: usize = 0;
    while i < v.len()
        invariant
            v@ == s@,
            https@ == "https://"@,
            http@ == "http://"@,
            i <= v@.len(),
            atom_views(atoms@) + atoms_from(v@, i as int, atoms@.len() > 0) == atoms_spec(s@),
        decreases v@.len() - i,
    {
        let ghost before = atom_views(atoms@);
        let ghost started = atoms@.len() > 0;
        match para_break_end_exec(&v, i) {
            Some(j) => {
                proof {
                    lemma_skip_blanks(v@, i as int);
                    lemma_skip_blanks(v@, skip_blanks(v@, i as int) + 1);
                }
                if atoms.len() > 0 {
                    atoms.push(Atom::ParaBreak);
                    assert(atom_views(atoms@) =~= before.push(AtomView::ParaBreak));
                } else {
                    assert(before =~= Seq::<AtomView>::empty());
                }
                assert(atom_views(atoms@) + atoms_from(v@, j as int, atoms@.len() > 0) =~= before + atoms_from(v@, i as int, started));
                i = j;
            },
            None => {
                let k = skip_ws_exec(&v, i);
                if k >= v.len() {
                    assert(atoms_from(v@, i as int, started) =~= Seq::<AtomView>::empty());
                    i = v.len();
                    assert(atoms_from(v@, i as int, atoms@.len() > 0) =~= Seq::<AtomView>::empty());
                } else if url_at_exec(&v, &https, &http, k) {
                    proof {
                        lemma_skip_ws(v@, i as int);
                        lemma_next_ws(v@, k as int);
                    }
                    let e = next_ws_exec(&v, k);
                    let ghost a = AtomView::Url(v@.subrange(k as int, e as int));
                    atoms.push(Atom::Url(piece(&v, k, e)));
                    assert(atom_views(atoms@) =~= before.push(a));
                    assert(atom_views(atoms@) + atoms_from(v@, e as int, true) =~= before + atoms_from(v@, i as int, started));
                    i = e;
                } else {
                    proof {
                        lemma_plain_end(v@, k + 1);
                    }
                    let e = plain_end_exec(&v, &https, &http, k + 1);
                    let ghost a = AtomView::Plain(v@.subrange(k as int, e as int));
                    atoms.push(Atom::Plain(piece(&v, k, e)));
                    assert(atom_views(atoms@) =~= before.push(a));
                    assert(atom_views(atoms@) + atoms_from(v@, e as int, true) =~= before + atoms_from(v@, i as int, started));
                    i = e;
                }
            },
        }
    }
    assert(atoms_from(v@, i as int, atoms@.len() > 0) =~= Seq::<AtomView>::empty());
    assert(atom_views(atoms@) =~= atoms_spec(s@));
    atoms
}

/// The visible text of an atom.
pub open spec fn atom_text(a: AtomView) -> Seq<char> {
    match a {
        AtomView::Plain(s) => s,
        AtomView::Url(s) => s,
        AtomView::ParaBreak => Seq::empty(),
    }
}

/// A terminal hyperlink (OSC 8) to `url` showing `shown`.
pub open spec fn osc8(url: Seq<char>, shown: Seq<char>) -> Seq<char> {
    "\x1b]8;;"@ + url + "\x1b\\"@ + shown + "\x1b]8;;\x1b\\"@
}

/// How an atom is drawn: text in the info colour, links underlined (and
/// clickable when the terminal supports hyperlinks).
pub open spec fn render_atom_spec(a: AtomView, hyperlinks: bool) -> Seq<char> {
    match a {
        AtomView::Plain(s) => ansi_rgb(138, 180, 255, s),
        AtomView::Url(u) => {
            let styled = ansi_style("4"@, ansi_rgb(138, 180, 255, u));
            if hyperlinks { osc8(u, styled) } else { styled }
        },
        AtomView::ParaBreak => Seq::empty(),
    }
}

/// A stretch of the atoms making one line, or a paragraph break.
pub enum Span {
    /// The atoms `start..end`.
    Run(int, int),
    Break,
}

/// Greedy layout of `atoms[k..]` into lines at most `avail` columns wide
/// (a longer atom gets a line of its own), given that the current line holds
/// `atoms[start..k]` and is `cur_w` wide; atoms on a line are separated by
/// one space, and a paragraph break ends the line.
pub open spec fn layout(atoms: Seq<AtomView>, k: int, start: int, cur_w: nat, avail: nat) -> Seq<Span>
    decreases atoms.len() - k,
{
    if k < 0 || k >= atoms.len() {
        if k > start { seq![Span::Run(start, k)] } else { Seq::empty() }
    } else {
        match atoms[k] {
            AtomView::ParaBreak => (if k > start { seq![Span::Run(start, k)] } else { Seq::empty() })
                + seq![Span::Break] + layout(atoms, k + 1, k + 1, 0, avail),
            a => {
                let w = atom_text(a).len();
                let sep: nat = if k > start { 1 } else { 0 };
                if cur_w + sep + w > avail && k > start {
                    seq![Span::Run(start, k)] + layout(atoms, k + 1, k, w, avail)
                } else {
                    layout(atoms, k + 1, start, cur_w + sep + w, avail)
                }
            },
        }
    }
}

/// The parts of a line showing `x`, one space between atoms.
pub open spec fn atom_parts(x: Seq<AtomView>, hyperlinks: bool) -> Seq<(Seq<char>, Seq<char>)>
    decreases x.len(),
{
    if x.len() == 0 {
        Seq::empty()
    } else {
        atom_parts(x.drop_last(), hyperlinks) + (if x.len() > 1 { seq![gap(1)] } else { Seq::empty() })
            + seq![(atom_text(x.last()), render_atom_spec(x.last(), hyperlinks))]
    }
}

fn exceeds(cur_w: usize, sep: usize, w: usize, avail: usize) -> (b: bool)
    ensures
        b == (cur_w + sep + w > avail),
{
    if cur_w > avail {
        true
    } else if sep > avail - cur_w {
        true
    } else {
        w > avail - cur_w - sep
    }
}

fn atom_width(a: &Atom) -> (w: usize)
    ensures
        w == atom_text(a@).len(),
{
    match a {
        Atom::Plain(s) => s.unicode_len(),
        Atom::Url(s) => s.unicode_len(),
        Atom::ParaBreak => 0,
    }
}

/// The exec form of a span.
pub enum SpanExec {
    Run(usize, usize),
    Break,
}

/// The spans of a layout.
pub open spec fn span_views(v: Seq<SpanExec>) -> Seq<Span> {
    v.map_values(|s: SpanExec| match s {
        SpanExec::Run(a, b) => Span::Run(a as int, b as int),
        SpanExec::Break => Span::Break,
    })
}

/// Lays the atoms out into lines at most `avail` columns wide.
fn layout_exec(atoms: &Vec<Atom>, avail: usize) -> (spans: Vec<SpanExec>)
    ensures
        span_views(spans@) == layout(atom_views(atoms@), 0, 0, 0, avail as nat),
        forall|i: int| 0 <= i < spans@.len() ==> (#[trigger] spans@[i] matches SpanExec::Run(a, b) ==> a <= b <= atoms@.len()),
{
    let ghost av = atom_views(atoms@);
    let mut spans: Vec<SpanExec> = Vec::new();
    let mut start: usize = 0;
    let mut cur_w: usize = 0;
    let mut k: usize = 0;
    while k < atoms.len()
        invariant
            av == atom_views(atoms@),
            start <= k <= atoms@.len(),
            k == start ==> cur_w == 0,
            span_views(spans@) + layout(av, k as int, start as int, cur_w as nat, avail as nat)
                == layout(av, 0, 0, 0, avail as nat),
            forall|i: int| 0 <= i < spans@.len() ==> (#[trigger] spans@[i] matches SpanExec::Run(a, b) ==> a <= b <= atoms@.len()),
        decreases atoms@.len() - k,
    {
        let ghost before = span_views(spans@);
        assert(av[k as int] == atoms@[k as int]@);
        match &atoms[k] {
            Atom::ParaBreak => {
                if k > start {
                    spans.push(SpanExec::Run(start, k));
                }
                spans.push(SpanExec::Break);
                assert(span_views(spans@) =~= before
                    + (if k > start { seq![Span::Run(start as int, k as int)] } else { Seq::<Span>::empty() })
                    + seq![Span::Break]);
                start = k + 1;
                cur_w = 0;
            },
            a => {
                let w = atom_width(a);
                let sep: usize = if k > start { 1 } else { 0 };
                if exceeds(cur_w, sep, w, avail) && k > start {
                    spans.push(SpanExec::Run(start, k));
                    assert(span_views(spans@) =~= before.push(Span::Run(start as int, k as int)));
                    start = k;
                    cur_w = w;
                } else {
                    cur_w = cur_w + sep + w;
                }
            },
        }
        k = k + 1;
    }
    let ghost before = span_views(spans@);
    if k > start {
        spans.push(SpanExec::Run(start, k));
        assert(span_views(spans@) =~= before.push(Span::Run(start as int, k as int)));
    } else {
        assert(layout(av, k as int, start as int, cur_w as nat, avail as nat) =~= Seq::<Span>::empty());
    }
    assert(span_views(spans@) =~= layout(av, 0, 0, 0, avail as nat));
    spans
}

/// The rows of wrapped prose for the spans `spans[k..]`: each run is a row
/// indented by `indent`, each paragraph break a blank row.
pub open spec fn wrapped_rows(atoms: Seq<AtomView>, spans: Seq<Span>, k: int, indent: nat, hyperlinks: bool, pw: nat) -> Seq<Seq<char>>
    decreases spans.len() - k,
{
    if k < 0 || k >= spans.len() {
        Seq::empty()
    } else {
        let here: Seq<Seq<char>> = match spans[k] {
            Span::Run(a, b) => seq![parts_row(seq![gap(indent)] + atom_parts(atoms.subrange(a, b), hyperlinks), pw)],
            Span::Break => seq![blank_spec(pw)],
        };
        here + wrapped_rows(atoms, spans, k + 1, indent, hyperlinks, pw)
    }
}

/// Prose wrapped to `width` columns (less any indent beyond five) and
/// indented by `indent`, in a panel `pw` columns wide.
pub open spec fn wrapped_atoms_spec(text: Seq<char>, width: nat, hyperlinks: bool, indent: nat, pw: nat) -> Seq<Seq<char>> {
    let atoms = atoms_spec(text);
    let avail = crate::support::panel::sat_sub(width as int, crate::support::panel::sat_sub(indent as int, 5)) as nat;
    wrapped_rows(atoms, layout(atoms, 0, 0, 0, avail), 0, indent, hyperlinks, pw)
}

/// The rows of a numbered step for the spans `spans[k..]`: the first row
/// starts with the step's number, the following ones with as many spaces;
/// paragraph breaks only end a row.
pub open spec fn step_rows(atoms: Seq<AtomView>, spans: Seq<Span>, k: int, prefix: Seq<char>, hyperlinks: bool, pw: nat, first: bool) -> Seq<Seq<char>>
    decreases spans.len() - k,
{
    if k < 0 || k >= spans.len() {
        Seq::empty()
    } else {
        match spans[k] {
            Span::Run(a, b) => {
                let pfx = if first { prefix } else { rep(' ', prefix.len() as int) };
                seq![parts_row(seq![gap(5), (pfx, ansi_rgb(124, 132, 151, pfx))] + atom_parts(atoms.subrange(a, b), hyperlinks), pw)]
                    + step_rows(atoms, spans, k + 1, prefix, hyperlinks, pw, false)
            },
            Span::Break => step_rows(atoms, spans, k + 1, prefix, hyperlinks, pw, first),
        }
    }
}

/// One numbered step: `prefix` then the text, wrapped to `width` columns less
/// the prefix, in a panel `pw` columns wide.
pub open spec fn step_line_spec(prefix: Seq<char>, text: Seq<char>, width: nat, hyperlinks: bool, pw: nat) -> Seq<Seq<char>> {
    let atoms = atoms_spec(text);
    let avail = crate::support::panel::sat_sub(width as int, prefix.len() as int) as nat;
    step_rows(atoms, layout(atoms, 0, 0, 0, avail), 0, prefix, hyperlinks, pw, true)
}

fn render_atom(a: &Atom, hyperlinks: bool) -> (r: String)
    ensures
        r@ == render_atom_spec(a@, hyperlinks),
{
    match a {
        Atom::Plain(s) => info(s.as_str()),
        Atom::Url(u) => {
            let styled = info_underline(u.as_str());
            if hyperlinks {
                let mut r = String::new();
                r.append("\x1b]8;;");
                r.append(u.as_str());
                r.append("\x1b\\");
                r.append(styled.as_str());
                r.append("\x1b]8;;\x1b\\");
                r
            } else {
                styled
            }
        },
        Atom::ParaBreak => String::new(),
    }
}

fn append_atoms(line: Line, atoms: &Vec<Atom>, a: usize, b: usize, hyperlinks: bool, Ghost(parts): Ghost<Seq<(Seq<char>, Seq<char>)>>) -> (l: Line)
    requires
        a <= b <= atoms@.len(),
        holds_parts(line, parts),
    ensures
        holds_parts(l, parts + atom_parts(atom_views(atoms@).subrange(a as int, b as int), hyperlinks)),
{
    let ghost av = atom_views(atoms@);
    let mut l = line;
    let mut i: usize = a;
    while i < b
        invariant
            a <= i <= b <= atoms@.len(),
            av == atom_views(atoms@),
            holds_parts(l, parts + atom_parts(av.subrange(a as int, i as int), hyperlinks)),
        decreases b - i,
    {
        let ghost p0 = parts + atom_parts(av.subrange(a as int, i as int), hyperlinks);
        let ghost l0 = l;
        let ghost mut p1 = p0;
        if i > a {
            let l1 = l.space(1);
            proof {
                lemma_push_part(l0, p0, rep(' ', 1), rep(' ', 1), l1);
                assert(rep(' ', 1) =~= Seq::new(1nat, |_i: int| ' '));
                p1 = p0.push(gap(1));
            }
            l = l1;
        }
        let ghost l1 = l;
        let vis = match &atoms[i] {
            Atom::Plain(s) => s.clone(),
            Atom::Url(s) => s.clone(),
            Atom::ParaBreak => String::new(),
        };
        let rendered = render_atom(&atoms[i], hyperlinks);
        assert(av[i as int] == atoms@[i as int]@);
        assert(vis@ == atom_text(av[i as int]));
        l = l.raw(vis.as_str(), rendered.as_str());
        proof {
            lemma_push_part(l1, p1, vis@, rendered@, l);
            let x = av.subrange(a as int, i + 1);
            assert(x.drop_last() =~= av.subrange(a as int, i as int));
            assert(x.last() == av[i as int]);
            assert(p1.push((vis@, rendered@)) =~= parts + atom_parts(x, hyperlinks));
        }
        i = i + 1;
    }
    l
}

/// Lays out prose: wrapped to `width` columns (less any indent beyond five),
/// each row indented by `indent`, a blank row for each paragraph break, in a
/// panel `pw` columns wide.
pub fn render_wrapped_atoms(text: &str, width: usize, hyperlinks: bool, indent: usize, pw: usize) -> (rows: Vec<String>)
    requires
        pw >= 2,
    ensures
        crate::text::string_views(rows@) == wrapped_atoms_spec(text@, width as nat, hyperlinks, indent as nat, pw as nat),
{
    let atoms = parse_fix_atoms(text);
    let extra: usize = if indent > 5 { indent - 5 } else { 0 };
    let avail: usize = if width > extra { width - extra } else { 0 };
    let spans = layout_exec(&atoms, avail);
    let ghost av = atom_views(atoms@);
    let ghost sv = span_views(spans@);
    let mut rows: Vec<String> = Vec::new();
    let mut k: usize = 0;
    while k < spans.len()
        invariant
            pw >= 2,
            av == atom_views(atoms@),
            sv == span_views(spans@),
            k <= spans@.len(),
            forall|i: int| 0 <= i < spans@.len() ==> (#[trigger] spans@[i] matches SpanExec::Run(a, b) ==> a <= b <= atoms@.len()),
            crate::text::string_views(rows@) + wrapped_rows(av, sv, k as int, indent as nat, hyperlinks, pw as nat)
                == wrapped_rows(av, sv, 0, indent as nat, hyperlinks, pw as nat),
        decreases spans@.len() - k,
    {
        let ghost before = crate::text::string_views(rows@);
        match &spans[k] {
            SpanExec::Run(a, b) => {
                let l0 = Line::new();
                proof { lemma_no_parts(l0); }
                let l1 = l0.space(indent);
                proof {
                    lemma_push_part(l0, Seq::empty(), rep(' ', indent as int), rep(' ', indent as int), l1);
                    assert(rep(' ', indent as int) =~= Seq::new(indent as nat, |_i: int| ' '));
                    assert(Seq::<(Seq<char>, Seq<char>)>::empty().push(gap(indent as nat)) =~= seq![gap(indent as nat)]);
                }
                let ghost p1 = seq![gap(indent as nat)];
                let l2 = append_atoms(l1, &atoms, *a, *b, hyperlinks, Ghost(p1));
                let r = row(&l2, pw);
                rows.push(r);
            },
            SpanExec::Break => {
                rows.push(blank(pw));
            },
        }
        assert(crate::text::string_views(rows@) + wrapped_rows(av, sv, k + 1, indent as nat, hyperlinks, pw as nat)
            =~= before + wrapped_rows(av, sv, k as int, indent as nat, hyperlinks, pw as nat));
        k = k + 1;
    }
    assert(crate::text::string_views(rows@) + wrapped_rows(av, sv, k as int, indent as nat, hyperlinks, pw as nat)
        =~= crate::text::string_views(rows@));
    rows
}

/// Lays out one numbered step: `prefix` (muted) then the text, wrapped to
/// `width` columns less the prefix; continuation rows start with as many
/// spaces as the prefix is wide.
pub fn render_step_line(prefix: &str, text: &str, width: usize, hyperlinks: bool, pw: usize) -> (rows: Vec<String>)
    requires
        pw >= 2,
    ensures
        crate::text::string_views(rows@) == step_line_spec(prefix@, text@, width as nat, hyperlinks, pw as nat),
{
    let atoms = parse_fix_atoms(text);
    let prefix_w = prefix.unicode_len();
    let avail: usize = if width > prefix_w { width - prefix_w } else { 0 };
    let spans = layout_exec(&atoms, avail);
    let blank_prefix = crate::support::panel::repeat_char(' ', prefix_w);
    let ghost av = atom_views(atoms@);
    let ghost sv = span_views(spans@);
    let mut rows: Vec<String> = Vec::new();
    let mut first = true;
    let mut k: usize = 0;
    while k < spans.len()
        invariant
            pw >= 2,
            av == atom_views(atoms@),
            sv == span_views(spans@),
            k <= spans@.len(),
            blank_prefix@ == rep(' ', prefix@.len() as int),
            forall|i: int| 0 <= i < spans@.len() ==> (#[trigger] spans@[i] matches SpanExec::Run(a, b) ==> a <= b <= atoms@.len()),
            crate::text::string_views(rows@) + step_rows(av, sv, k as int, prefix@, hyperlinks, pw as nat, first)
                == step_rows(av, sv, 0, prefix@, hyperlinks, pw as nat, true),
        decreases spans@.len() - k,
    {
        let ghost before = crate::text::string_views(rows@);
        let ghost first0 = first;
        match &spans[k] {
            SpanExec::Run(a, b) => {
                let pfx: &str = if first { prefix } else { blank_prefix.as_str() };
                let l0 = Line::new();
                proof { lemma_no_parts(l0); }
                let l1 = l0.space(5);
                proof {
                    lemma_push_part(l0, Seq::empty(), rep(' ', 5), rep(' ', 5), l1);
                    assert(rep(' ', 5) =~= Seq::new(5nat, |_i: int| ' '));
                    assert(Seq::<(Seq<char>, Seq<char>)>::empty().push(gap(5)) =~= seq![gap(5)]);
                }
                let shown = muted(pfx);
                let l2 = l1.raw(pfx, shown.as_str());
                proof {
                    lemma_push_part(l1, seq![gap(5)], pfx@, shown@, l2);
                    assert(seq![gap(5)].push((pfx@, shown@)) =~= seq![gap(5), (pfx@, ansi_rgb(124, 132, 151, pfx@))]);
                }
                let ghost p2 = seq![gap(5), (pfx@, ansi_rgb(124, 132, 151, pfx@))];
                let l3 = append_atoms(l2, &atoms, *a, *b, hyperlinks, Ghost(p2));
                rows.push(row(&l3, pw));
                first = false;
            },
            SpanExec::Break => {},
        }
        assert(crate::text::string_views(rows@) + step_rows(av, sv, k + 1, prefix@, hyperlinks, pw as nat, first)
            =~= before + step_rows(av, sv, k as int, prefix@, hyperlinks, pw as nat, first0));
        k = k + 1;
    }
    assert(crate::text::string_views(rows@) + step_rows(av, sv, k as int, prefix@, hyperlinks, pw as nat, first)
        =~= crate::text::string_views(rows@));
    rows
}

/// The trimmed pieces among `parts[..k]` that are not empty.
pub open spec fn trimmed_nonempty(parts: Seq<Seq<char>>, k: int) -> Seq<Seq<char>>
    decreases k,
{
    if k <= 0 || k > parts.len() {
        Seq::empty()
    } else {
        trimmed_nonempty(parts, k - 1) + if trim(parts[k - 1]).len() > 0 { seq![trim(parts[k - 1])] } else { Seq::empty() }
    }
}

fn trimmed_nonempty_exec(parts: &Vec<Vec<char>>) -> (r: Vec<String>)
    ensures
        string_views(r@) == trimmed_nonempty(views(parts@), parts@.len() as int),
{
    let mut out: Vec<String> = Vec::new();
    let mut i: usize = 0;
    while i < parts.len()
        invariant
            i <= parts@.len(),
            string_views(out@) == trimmed_nonempty(views(parts@), i as int),
        decreases parts@.len() - i,
    {
        let t = trim_exec(&parts[i]);
        assert(views(parts@)[i as int] == parts@[i as int]@);
        if t.len() > 0 {
            let ghost before = string_views(out@);
            out.push(string_of(&t));
            assert(string_views(out@) =~= before.push(t@));
        }
        i = i + 1;
    }
    out
}

/// A step is an action (rather than a section label to merge into the next
/// step) when it has an arrow, is a link, or opens a parenthesis.
pub open spec fn chunk_is_action_spec(chunk: Seq<char>) -> bool {
    contains(chunk, "->"@) || contains(chunk, "→"@) || starts_with(chunk, "http://"@) || starts_with(chunk, "https://"@)
        || starts_with(chunk, "("@)
}

/// Is the step an action?
pub fn chunk_is_action(chunk: &str) -> (b: bool)
    ensures
        b == chunk_is_action_spec(chunk@),
{
    str_contains(chunk, "->") || str_contains(chunk, "→") || str_starts_with(chunk, "http://")
        || str_starts_with(chunk, "https://") || str_starts_with(chunk, "(")
}

/// Joins two step texts with the step separator.
pub open spec fn join_step(a: Seq<char>, b: Seq<char>) -> Seq<char> {
    a + " › "@ + b
}

/// The steps from `chunks[k..]`, where `pending` holds labels waiting for
/// the next action: each label is merged into the action that follows it,
/// and trailing labels form a last step.
pub open spec fn merge_steps(chunks: Seq<Seq<char>>, k: int, pending: Option<Seq<char>>) -> Seq<Seq<char>>
    decreases chunks.len() - k,
{
    if k < 0 || k >= chunks.len() {
        match pending {
            Some(t) => seq![t],
            None => Seq::empty(),
        }
    } else if chunk_is_action_spec(chunks[k]) {
        let merged = match pending {
            Some(label) => join_step(label, chunks[k]),
            None => chunks[k],
        };
        seq![merged] + merge_steps(chunks, k + 1, None)
    } else {
        merge_steps(chunks, k + 1, Some(match pending {
            Some(prev) => join_step(prev, chunks[k]),
            None => chunks[k],
        }))
    }
}

/// The number of step `n` right-aligned to `w` columns, then ". ".
pub open spec fn step_prefix(n: nat, w: nat) -> Seq<char> {
    rep(' ', w - dec(n).len()) + dec(n) + ". "@
}

/// The text of step `idx`: arrows turned into "›", and a leading link
/// introduced with "Open: ".
pub open spec fn step_body(step: Seq<char>, idx: int) -> Seq<char> {
    let body = replace(step, " -> "@, " › "@);
    if idx == 0 && (starts_with(body, "http://"@) || starts_with(body, "https://"@)) {
        "Open: "@ + body
    } else {
        body
    }
}

/// The rows of the steps `steps[k..]`.
pub open spec fn steps_rows(steps: Seq<Seq<char>>, k: int, width: nat, hyperlinks: bool, pw: nat) -> Seq<Seq<char>>
    decreases steps.len() - k,
{
    if k < 0 || k >= steps.len() {
        Seq::empty()
    } else {
        step_line_spec(step_prefix((k + 1) as nat, dec(steps.len()).len()), step_body(steps[k], k), width, hyperlinks, pw)
            + steps_rows(steps, k + 1, width, hyperlinks, pw)
    }
}

/// The steps of a remediation written as `a > b > c`.
pub open spec fn fix_steps_spec(text: Seq<char>) -> Seq<Seq<char>> {
    let chunks = trimmed_nonempty(split(text, " > "@), split(text, " > "@).len() as int);
    merge_steps(chunks, 0, None)
}

/// A remediation written as `a > b > c` laid out as numbered steps.
pub open spec fn fix_steps_rows_spec(text: Seq<char>, width: nat, hyperlinks: bool, pw: nat) -> Seq<Seq<char>> {
    steps_rows(fix_steps_spec(text), 0, width, hyperlinks, pw)
}

fn join_step_exec(a: &str, b: &str) -> (r: String)
    ensures
        r@ == join_step(a@, b@),
{
    let mut r = String::new();
    r.append(a);
    r.append(" › ");
    r.append(b);
    r
}

fn merge_steps_exec(chunks: &Vec<String>) -> (steps: Vec<String>)
    ensures
        string_views(steps@) == merge_steps(string_views(chunks@), 0, None),
{
    let ghost cs = string_views(chunks@);
    let mut steps: Vec<String> = Vec::new();
    let mut pending: Option<String> = None;
    let mut k: usize = 0;
    while k < chunks.len()
        invariant
            cs == string_views(chunks@),
            k <= chunks@.len(),
            string_views(steps@) + merge_steps(cs, k as int, crate::runner::opt_chars(pending)) == merge_steps(cs, 0, None),
        decreases chunks@.len() - k,
    {
        let chunk = chunks[k].as_str();
        assert(cs[k as int] == chunk@);
        let ghost before = string_views(steps@);
        let ghost pend0 = crate::runner::opt_chars(pending);
        if chunk_is_action(chunk) {
            let merged = match &pending {
                Some(label) => join_step_exec(label.as_str(), chunk),
                None => chunk.to_owned(),
            };
            let ghost mv = merged@;
            steps.push(merged);
            pending = None;
            assert(string_views(steps@) =~= before.push(mv));
            assert(string_views(steps@) + merge_steps(cs, k + 1, crate::runner::opt_chars(pending))
                =~= before + merge_steps(cs, k as int, pend0));
        } else {
            let next = match &pending {
                Some(prev) => join_step_exec(prev.as_str(), chunk),
                None => chunk.to_owned(),
            };
            pending = Some(next);
        }
        k = k + 1;
    }
    let ghost before = string_views(steps@);
    match pending {
        Some(tail) => {
            let ghost tv = tail@;
            steps.push(tail);
            assert(string_views(steps@) =~= before.push(tv));
        },
        None => {},
    }
    assert(string_views(steps@) =~= merge_steps(cs, 0, None));
    steps
}

fn step_prefix_exec(n: usize, w: usize) -> (r: String)
    ensures
        r@ == step_prefix(n as nat, w as nat),
{
    let digits = crate::text::fmt_usize(n);
    let len = digits.unicode_len();
    let pad: usize = if w > len { w - len } else { 0 };
    let mut r = crate::support::panel::repeat_char(' ', pad);
    r.append(digits.as_str());
    r.append(". ");
    assert(crate::support::panel::sat_sub(w as int, len as int) == w - dec(n as nat).len() || w < len);
    assert(r@ =~= step_prefix(n as nat, w as nat));
    r
}

fn step_body_exec(step: &str, idx: usize) -> (r: String)
    ensures
        r@ == step_body(step@, idx as int),
{
    proof { reveal_strlit(" -> "); }
    assert(" -> "@.len() == 4);
    let body = str_replace(step, " -> ", " › ");
    if idx == 0 && (str_starts_with(body.as_str(), "http://") || str_starts_with(body.as_str(), "https://")) {
        let mut r = String::new();
        r.append("Open: ");
        r.append(body.as_str());
        r
    } else {
        body
    }
}

/// Lays out a remediation written as `a > b > c` as numbered steps, merging
/// section labels into the action that follows them.
pub fn render_fix_steps(text: &str, width: usize, hyperlinks: bool, pw: usize) -> (rows: Vec<String>)
    requires
        pw >= 2,
    ensures
        string_views(rows@) == fix_steps_rows_spec(text@, width as nat, hyperlinks, pw as nat),
{
    proof { reveal_strlit(" > "); }
    assert(" > "@.len() == 3);
    let parts = split_exec(&chars_of(text), &chars_of(" > "));
    let chunks = trimmed_nonempty_exec(&parts);
    let steps = merge_steps_exec(&chunks);
    let ghost sv = string_views(steps@);
    assert(sv == fix_steps_spec(text@));
    let total = steps.len();
    let num_width = crate::text::fmt_usize(total).unicode_len();
    let mut rows: Vec<String> = Vec::new();
    let mut idx: usize = 0;
    while idx < total
        invariant
            pw >= 2,
            total == steps@.len(),
            sv == string_views(steps@),
            num_width == dec(total as nat).len(),
            idx <= total,
            string_views(rows@) + steps_rows(sv, idx as int, width as nat, hyperlinks, pw as nat)
                == steps_rows(sv, 0, width as nat, hyperlinks, pw as nat),
        decreases total - idx,
    {
        let ghost before = string_views(rows@);
        let prefix = step_prefix_exec(idx + 1, num_width);
        let body = step_body_exec(steps[idx].as_str(), idx);
        assert(sv[idx as int] == steps@[idx as int]@);
        let lines = render_step_line(prefix.as_str(), body.as_str(), width, hyperlinks, pw);
        let mut j: usize = 0;
        while j < lines.len()
            invariant
                j <= lines@.len(),
                string_views(rows@) == before + string_views(lines@).subrange(0, j as int),
            decreases lines@.len() - j,
        {
            let ghost b1 = string_views(rows@);
            rows.push(lines[j].clone());
            assert(string_views(rows@) =~= b1.push(lines@[j as int]@));
            assert(string_views(lines@).subrange(0, j + 1) =~= string_views(lines@).subrange(0, j as int).push(lines@[j as int]@));
            j = j + 1;
        }
        assert(string_views(lines@).subrange(0, j as int) =~= string_views(lines@));
        idx = idx + 1;
        assert(string_views(rows@) + steps_rows(sv, idx as int, width as nat, hyperlinks, pw as nat)
            =~= before + steps_rows(sv, idx - 1, width as nat, hyperlinks, pw as nat));
    }
    assert(string_views(rows@) + steps_rows(sv, idx as int, width as nat, hyperlinks, pw as nat) =~= string_views(rows@));
    rows
}

/// The paragraphs of a prose segment: the pieces between blank lines,
/// trimmed, without the empty ones.
pub open spec fn paragraphs_spec(text: Seq<char>) -> Seq<Seq<char>> {
    trimmed_nonempty(split(text, "\n\n"@), split(text, "\n\n"@).len() as int)
}

/// The rows of the paragraphs `paras[k..]`: a blank row between
/// paragraphs; a paragraph written as `a > b` becomes numbered steps, any
/// other is wrapped prose.
pub open spec fn prose_rows(paras: Seq<Seq<char>>, k: int, width: nat, hyperlinks: bool, pw: nat) -> Seq<Seq<char>>
    decreases paras.len() - k,
{
    if k < 0 || k >= paras.len() {
        Seq::empty()
    } else {
        (if k > 0 { seq![blank_spec(pw)] } else { Seq::empty() })
            + (if contains(paras[k], " > "@) {
                fix_steps_rows_spec(paras[k], width, hyperlinks, pw)
            } else {
                wrapped_atoms_spec(paras[k], width, hyperlinks, 5, pw)
            })
            + prose_rows(paras, k + 1, width, hyperlinks, pw)
    }
}

/// Appends one row.
pub fn push_row(rows: &mut Vec<String>, r: String)
    ensures
        string_views(final(rows)@) == string_views(old(rows)@).push(r@),
{
    let ghost before = string_views(rows@);
    let ghost rv = r@;
    rows.push(r);
    assert(string_views(rows@) =~= before.push(rv));
}

/// Appends the rows of `more` to `rows`.
pub fn push_all_rows(rows: &mut Vec<String>, more: Vec<String>)
    ensures
        string_views(final(rows)@) == string_views(old(rows)@) + string_views(more@),
{
    let ghost start = string_views(rows@);
    let mut j: usize = 0;
    while j < more.len()
        invariant
            j <= more@.len(),
            start == string_views(old(rows)@),
            string_views(rows@) == start + string_views(more@).subrange(0, j as int),
        decreases more@.len() - j,
    {
        let ghost b1 = string_views(rows@);
        rows.push(more[j].clone());
        assert(string_views(rows@) =~= b1.push(more@[j as int]@));
        assert(string_views(more@).subrange(0, j + 1) =~= string_views(more@).subrange(0, j as int).push(more@[j as int]@));
        j = j + 1;
    }
    assert(string_views(more@).subrange(0, j as int) =~= string_views(more@));
}

/// Lays out a prose segment of a remediation.
pub fn render_fix_prose(text: &str, width: usize, hyperlinks: bool, pw: usize) -> (rows: Vec<String>)
    requires
        pw >= 2,
    ensures
        string_views(rows@) == prose_rows(paragraphs_spec(text@), 0, width as nat, hyperlinks, pw as nat),
{
    proof { reveal_strlit("\n\n"); }
    assert("\n\n"@.len() == 2);
    let parts = split_exec(&chars_of(text), &chars_of("\n\n"));
    let paras = trimmed_nonempty_exec(&parts);
    let ghost ps = string_views(paras@);
    let mut rows: Vec<String> = Vec::new();
    let mut i: usize = 0;
    while i < paras.len()
        invariant
            pw >= 2,
            ps == string_views(paras@),
            i <= paras@.len(),
            string_views(rows@) + prose_rows(ps, i as int, width as nat, hyperlinks, pw as nat)
                == prose_rows(ps, 0, width as nat, hyperlinks, pw as nat),
        decreases paras@.len() - i,
    {
        let ghost before = string_views(rows@);
        if i > 0 {
            rows.push(blank(pw));
        }
        let para = paras[i].as_str();
        assert(ps[i as int] == para@);
        let more = if str_contains(para, " > ") {
            render_fix_steps(para, width, hyperlinks, pw)
        } else {
            render_wrapped_atoms(para, width, hyperlinks, 5, pw)
        };
        push_all_rows(&mut rows, more);
        i = i + 1;
        assert(string_views(rows@) + prose_rows(ps, i as int, width as nat, hyperlinks, pw as nat)
            =~= before + prose_rows(ps, i - 1, width as nat, hyperlinks, pw as nat));
    }
    assert(string_views(rows@) + prose_rows(ps, i as int, width as nat, hyperlinks, pw as nat) =~= string_views(rows@));
    rows
}

/// A piece of remediation text: prose, or the lines of a fenced code block.
pub enum Segment {
    Prose(String),
    Code(Vec<String>),
}

/// The abstract value of a segment.
pub enum SegmentView {
    Prose(Seq<char>),
    Code(Seq<Seq<char>>),
}

impl View for Segment {
    type V = SegmentView;

    open spec fn view(&self) -> SegmentView {
        match self {
            Segment::Prose(s) => SegmentView::Prose(s@),
            Segment::Code(lines) => SegmentView::Code(string_views(lines@)),
        }
    }
}

/// The segments of `t[i..]`: prose between code fences (kept when not
/// blank), and for each fence the lines of its body (the rest of the opening
/// line is dropped, as are trailing newlines). A fence that is never closed
/// turns everything from `i` on into one prose segment.
pub open spec fn fences_from(t: Seq<char>, i: int) -> Seq<SegmentView>
    decreases t.len() + 1 - i,
{
    if i < 0 || i > t.len() {
        Seq::empty()
    } else {
        let open = find_from(t, "```"@, i);
        if open < 0 {
            let rest = t.subrange(i, t.len() as int);
            if trim(rest).len() > 0 { seq![SegmentView::Prose(rest)] } else { Seq::empty() }
        } else {
            proof {
                reveal_strlit("```");
                reveal_strlit("\n");
                lemma_find_from(t, "```"@, i);
            }
            let prose = t.subrange(i, open);
            let pre = if trim(prose).len() > 0 { seq![SegmentView::Prose(prose)] } else { Seq::empty() };
            let after_open = open + 3;
            let nl = find_from(t, "\n"@, after_open);
            let body_start = if nl >= 0 { nl + 1 } else { after_open };
            let close = find_from(t, "```"@, body_start);
            proof {
                lemma_find_from(t, "\n"@, after_open);
                lemma_find_from(t, "```"@, body_start);
            }
            if close >= 0 {
                let code = t.subrange(body_start, close);
                pre + seq![SegmentView::Code(split(trim_end_set(code, "\n"@), "\n"@))] + fences_from(t, close + 3)
            } else {
                pre + seq![SegmentView::Prose(t.subrange(i, t.len() as int))]
            }
        }
    }
}

/// The segments of remediation text.
pub open spec fn fences_spec(t: Seq<char>) -> Seq<SegmentView> {
    fences_from(t, 0)
}

/// The abstract values of segments.
pub open spec fn segment_views(v: Seq<Segment>) -> Seq<SegmentView> {
    v.map_values(|s: Segment| s@)
}

/// Cuts remediation text into prose and fenced code.
pub fn split_fences(text: &str) -> (segs: Vec<Segment>)
    ensures
        segment_views(segs@) == fences_spec(text@),
{
    let t = chars_of(text);
    let fence = chars_of("```");
    let nl = chars_of("\n");
    proof {
        reveal_strlit("```");
        reveal_strlit("\n");
    }
    assert(fence@.len() == 3);
    assert(nl@.len() == 1);
    let mut out: Vec<Segment> = Vec::new();
    let mut i: usize = 0;
    loop
        invariant
            t@ == text@,
            fence@ == "```"@,
            nl@ == "\n"@,
            fence@.len() == 3,
            nl@.len() == 1,
            i <= t@.len(),
            segment_views(out@) + fences_from(t@, i as int) == fences_spec(text@),
        decreases t@.len() + 1 - i,
    {
        let ghost before = segment_views(out@);
        proof { lemma_find_from(t@, fence@, i as int); }
        match find_from_exec(&t, &fence, i) {
            None => {
                let rest = piece(&t, i, t.len());
                let trimmed = trim_exec(&chars_of(rest.as_str()));
                if trimmed.len() > 0 {
                    let ghost rv = rest@;
                    out.push(Segment::Prose(rest));
                    assert(segment_views(out@) =~= before.push(SegmentView::Prose(rv)));
                }
                assert(segment_views(out@) =~= before + fences_from(t@, i as int));
                return out;
            },
            Some(open) => {
                assert(matches_at(t@, fence@, open as int));
                let prose = piece(&t, i, open);
                let trimmed = trim_exec(&chars_of(prose.as_str()));
                let ghost pv = prose@;
                if trimmed.len() > 0 {
                    out.push(Segment::Prose(prose));
                    assert(segment_views(out@) =~= before.push(SegmentView::Prose(pv)));
                }
                let ghost mid = segment_views(out@);
                let tl = t.len();
                assert(open + 3 <= tl);
                let after_open = open + 3;
                proof { lemma_find_from(t@, nl@, after_open as int); }
                let body_start = match find_from_exec(&t, &nl, after_open) {
                    Some(n) => {
                        assert(matches_at(t@, nl@, n as int));
                        n + 1
                    },
                    None => after_open,
                };
                proof { lemma_find_from(t@, fence@, body_start as int); }
                match find_from_exec(&t, &fence, body_start) {
                    Some(close) => {
                        assert(matches_at(t@, fence@, close as int));
                        assert(close + 3 <= tl);
                        let code = piece(&t, body_start, close);
                        let trimmed_code = trim_end_set_exec(&chars_of(code.as_str()), &nl);
                        let lines = crate::text::strings_of(&split_exec(&trimmed_code, &nl));
                        let ghost lv = string_views(lines@);
                        out.push(Segment::Code(lines));
                        assert(segment_views(out@) =~= mid.push(SegmentView::Code(lv)));
                        assert(segment_views(out@) + fences_from(t@, close + 3) =~= before + fences_from(t@, i as int));
                        i = close + 3;
                    },
                    None => {
                        let all = piece(&t, i, t.len());
                        let ghost av = all@;
                        out.push(Segment::Prose(all));
                        assert(segment_views(out@) =~= mid.push(SegmentView::Prose(av)));
                        assert(segment_views(out@) =~= before + fences_from(t@, i as int));
                        return out;
                    },
                }
            },
        }
    }
}

/// The rows of the segments `segs[k..]`: prose laid out, and each code block
/// as its muted lines (after a blank row, unless it comes first) followed by
/// a blank row.
pub open spec fn block_rows(segs: Seq<SegmentView>, k: int, width: nat, hyperlinks: bool, pw: nat) -> Seq<Seq<char>>
    decreases segs.len() - k,
{
    if k < 0 || k >= segs.len() {
        Seq::empty()
    } else {
        let here: Seq<Seq<char>> = match segs[k] {
            SegmentView::Prose(p) => prose_rows(paragraphs_spec(p), 0, width, hyperlinks, pw),
            SegmentView::Code(lines) => (if k > 0 { seq![blank_spec(pw)] } else { Seq::empty() })
                + lines.map_values(|l: Seq<char>| ansi_rgb(124, 132, 151, l)) + seq![blank_spec(pw)],
        };
        here + block_rows(segs, k + 1, width, hyperlinks, pw)
    }
}

/// Lays out remediation text: prose as paragraphs and steps, code blocks as
/// muted lines.
pub fn render_fix_block(text: &str, width: usize, hyperlinks: bool, pw: usize) -> (rows: Vec<String>)
    requires
        pw >= 2,
    ensures
        string_views(rows@) == block_rows(fences_spec(text@), 0, width as nat, hyperlinks, pw as nat),
{
    let segs = split_fences(text);
    let ghost sv = segment_views(segs@);
    let mut rows: Vec<String> = Vec::new();
    let mut i: usize = 0;
    while i < segs.len()
        invariant
            pw >= 2,
            sv == segment_views(segs@),
            i <= segs@.len(),
            string_views(rows@) + block_rows(sv, i as int, width as nat, hyperlinks, pw as nat)
                == block_rows(sv, 0, width as nat, hyperlinks, pw as nat),
        decreases segs@.len() - i,
    {
        let ghost before = string_views(rows@);
        assert(sv[i as int] == segs@[i as int]@);
        match &segs[i] {
            Segment::Prose(p) => {
                let more = render_fix_prose(p.as_str(), width, hyperlinks, pw);
                push_all_rows(&mut rows, more);
            },
            Segment::Code(lines) => {
                if i > 0 {
                    rows.push(blank(pw));
                }
                let ghost mid = string_views(rows@);
                let mut j: usize = 0;
                while j < lines.len()
                    invariant
                        j <= lines@.len(),
                        string_views(rows@) == mid + string_views(lines@).subrange(0, j as int).map_values(|l: Seq<char>| ansi_rgb(124, 132, 151, l)),
                    decreases lines@.len() - j,
                {
                    let ghost b1 = string_views(rows@);
                    let m = muted(lines[j].as_str());
                    let ghost mv = m@;
                    rows.push(m);
                    assert(string_views(rows@) =~= b1.push(mv));
                    assert(string_views(lines@).subrange(0, j + 1).map_values(|l: Seq<char>| ansi_rgb(124, 132, 151, l))
                        =~= string_views(lines@).subrange(0, j as int).map_values(|l: Seq<char>| ansi_rgb(124, 132, 151, l)).push(mv));
                    j = j + 1;
                }
                assert(string_views(lines@).subrange(0, j as int) =~= string_views(lines@));
                let ghost b2 = string_views(rows@);
                rows.push(blank(pw));
                assert(string_views(rows@) =~= b2.push(blank_spec(pw as nat)));
            },
        }
        i = i + 1;
        assert(string_views(rows@) + block_rows(sv, i as int, width as nat, hyperlinks, pw as nat)
            =~= before + block_rows(sv, i - 1, width as nat, hyperlinks, pw as nat));
    }
    assert(string_views(rows@) + block_rows(sv, i as int, width as nat, hyperlinks, pw as nat) =~= string_views(rows@));
    rows
}

/// The remediation template filled in: `{org}` with the account, `{repo}`
/// with the first affected repository (when there is one) and `{branches}`
/// with the release branches (or a generic phrase when there are none).
pub open spec fn substitute_spec(template: Seq<char>, account: Seq<char>, repo: Option<Seq<char>>, branches: Seq<Seq<char>>) -> Seq<char> {
    let with_org = replace(template, "{org}"@, account);
    let with_repo = match repo {
        Some(r) => replace(with_org, "{repo}"@, r),
        None => with_org,
    };
    let branches_text = if branches.len() == 0 {
        "Default + release branches"@
    } else {
        crate::text::join(branches, ", "@)
    };
    replace(with_repo, "{branches}"@, branches_text)
}

/// Fills in a remediation template.
pub fn substitute_fix_template(template: &str, account: &str, repo: Option<&str>, branches: &Vec<String>) -> (r: String)
    ensures
        r@ == substitute_spec(template@, account@, match repo {
            Some(x) => Some(x@),
            None => None,
        }, string_views(branches@)),
{
    proof {
        reveal_strlit("{org}");
        reveal_strlit("{repo}");
        reveal_strlit("{branches}");
    }
    assert("{org}"@.len() == 5);
    assert("{repo}"@.len() == 6);
    assert("{branches}"@.len() == 10);
    let with_org = str_replace(template, "{org}", account);
    let with_repo = match repo {
        Some(x) => str_replace(with_org.as_str(), "{repo}", x),
        None => with_org,
    };
    let branches_text = if branches.len() == 0 {
        "Default + release branches".to_owned()
    } else {
        crate::text::join_strings(branches, ", ")
    };
    str_replace(with_repo.as_str(), "{branches}", branches_text.as_str())
}

/// On a free plan the organization rules page cannot be used: a remediation
/// that opens it is told to go through the per-repository links instead.
pub open spec fn free_plan_spec(fix: Seq<char>, account: Seq<char>) -> Seq<char> {
    let prefix = "https://github.com/organizations/"@ + account + "/settings/rules "@;
    if starts_with(fix, prefix) {
        "In all the links below "@ + fix.subrange(prefix.len() as int, fix.len() as int)
    } else {
        fix
    }
}

/// Rewrites a remediation for a free-plan organization.
pub fn rewrite_fix_for_free_plan(fix_text: &str, account: &str) -> (r: String)
    ensures
        r@ == free_plan_spec(fix_text@, account@),
{
    let mut prefix = String::new();
    prefix.append("https://github.com/organizations/");
    prefix.append(account);
    prefix.append("/settings/rules ");
    if str_starts_with(fix_text, prefix.as_str()) {
        let v = chars_of(fix_text);
        let plen = prefix.unicode_len();
        let mut r = String::new();
        r.append("In all the links below ");
        let rest = piece(&v, plen, v.len());
        r.append(rest.as_str());
        r
    } else {
        fix_text.to_owned()
    }
}

} // verus!
