//! Panel drawing: colours, rows that track their visible width, word
//! wrapping, and the box-drawing text of each panel element. Writing the
//! text to the terminal is left to the caller.
use vstd::prelude::*;
use crate::style;
use crate::style::ansi_rgb;
use crate::text::{chars_of, contains, dec, ends_with, ends_with_exec, find, find_from_exec, is_hex, is_hex_exec, lemma_find_from, lower, lower_exec, push_all, push_dec, push_range, starts_with, str_contains, str_eq, str_starts_with, string_of, string_views, strings_of, views, words, words_exec, words_acc, is_ws, join};

verus! {

/// Appends `n` copies of `c` to `s`.
pub fn push_repeat(s: &mut String, c: char, n: usize)
    ensures
        final(s)@ == old(s)@ + Seq::new(n as nat, |_i: int| c),
{
    let mut i: usize = 0;
    while i < n
        invariant
            i <= n,
            s@ == old(s)@ + Seq::new(i as nat, |_i: int| c),
        decreases n - i,
    {
        s.push(c);
        i = i + 1;
        assert(Seq::new(i as nat, |_i: int| c) =~= Seq::new((i - 1) as nat, |_i: int| c).push(c));
    }
}

/// `n` copies of `c`.
pub fn repeat_char(c: char, n: usize) -> (s: String)
    ensures
        s@ == Seq::new(n as nat, |_i: int| c),
{
    let mut s = String::new();
    push_repeat(&mut s, c, n);
    assert(s@ =~= Seq::new(n as nat, |_i: int| c));
    s
}

/// The border colour.
pub fn border(s: &str) -> (r: String)
    ensures
        r@ == ansi_rgb(38, 50, 68, s@),
{
    style::truecolor(s, 38, 50, 68)
}

/// The body-text colour.
pub fn text(s: &str) -> (r: String)
    ensures
        r@ == ansi_rgb(229, 231, 235, s@),
{
    style::truecolor(s, 229, 231, 235)
}

/// Bold body text.
pub fn text_bold(s: &str) -> (r: String)
    ensures
        r@ == style::ansi_style("1"@, ansi_rgb(229, 231, 235, s@)),
{
    style::bold(text(s).as_str())
}

/// The muted colour.
pub fn muted(s: &str) -> (r: String)
    ensures
        r@ == ansi_rgb(124, 132, 151, s@),
{
    style::truecolor(s, 124, 132, 151)
}

/// The success colour.
pub fn success(s: &str) -> (r: String)
    ensures
        r@ == ansi_rgb(126, 231, 135, s@),
{
    style::truecolor(s, 126, 231, 135)
}

/// Bold success colour.
pub fn success_bold(s: &str) -> (r: String)
    ensures
        r@ == style::ansi_style("1"@, ansi_rgb(126, 231, 135, s@)),
{
    style::bold(success(s).as_str())
}

/// The warning colour.
pub fn warning(s: &str) -> (r: String)
    ensures
        r@ == ansi_rgb(242, 204, 96, s@),
{
    style::truecolor(s, 242, 204, 96)
}

/// Bold warning colour.
pub fn warning_bold(s: &str) -> (r: String)
    ensures
        r@ == style::ansi_style("1"@, ansi_rgb(242, 204, 96, s@)),
{
    style::bold(warning(s).as_str())
}

/// The danger colour.
pub fn danger(s: &str) -> (r: String)
    ensures
        r@ == ansi_rgb(239, 83, 80, s@),
{
    style::truecolor(s, 239, 83, 80)
}

/// Bold danger colour.
pub fn danger_bold(s: &str) -> (r: String)
    ensures
        r@ == style::ansi_style("1"@, ansi_rgb(239, 83, 80, s@)),
{
    style::bold(danger(s).as_str())
}

/// The informational colour.
pub fn info(s: &str) -> (r: String)
    ensures
        r@ == ansi_rgb(138, 180, 255, s@),
{
    style::truecolor(s, 138, 180, 255)
}

/// Underlined informational colour (used for links).
pub fn info_underline(s: &str) -> (r: String)
    ensures
        r@ == style::ansi_style("4"@, ansi_rgb(138, 180, 255, s@)),
{
    style::underline(info(s).as_str())
}

/// The accent colour.
pub fn accent(s: &str) -> (r: String)
    ensures
        r@ == ansi_rgb(192, 132, 252, s@),
{
    style::truecolor(s, 192, 132, 252)
}

/// Bold accent colour.
pub fn accent_bold(s: &str) -> (r: String)
    ensures
        r@ == style::ansi_style("1"@, ansi_rgb(192, 132, 252, s@)),
{
    style::bold(accent(s).as_str())
}

/// The `i`-th stop of the red → yellow → green gradient (20 stops).
pub open spec fn stop(i: int) -> (u8, u8, u8) {
    if i <= 0 { (239, 83, 80) }
    else if i == 1 { (239, 96, 82) }
    else if i == 2 { (240, 110, 84) }
    else if i == 3 { (240, 123, 85) }
    else if i == 4 { (240, 137, 87) }
    else if i == 5 { (241, 150, 89) }
    else if i == 6 { (241, 164, 91) }
    else if i == 7 { (241, 177, 92) }
    else if i == 8 { (242, 191, 94) }
    else if i == 9 { (242, 204, 96) }
    else if i == 10 { (229, 207, 100) }
    else if i == 11 { (216, 210, 105) }
    else if i == 12 { (203, 213, 109) }
    else if i == 13 { (190, 216, 113) }
    else if i == 14 { (177, 219, 118) }
    else if i == 15 { (164, 222, 122) }
    else if i == 16 { (152, 225, 126) }
    else if i == 17 { (139, 228, 130) }
    else if i == 18 { (132, 230, 133) }
    else { (126, 231, 135) }
}

fn stop_exec(i: usize) -> (c: (u8, u8, u8))
    ensures
        c == stop(i as int),
{
    if i == 0 { (239, 83, 80) }
    else if i == 1 { (239, 96, 82) }
    else if i == 2 { (240, 110, 84) }
    else if i == 3 { (240, 123, 85) }
    else if i == 4 { (240, 137, 87) }
    else if i == 5 { (241, 150, 89) }
    else if i == 6 { (241, 164, 91) }
    else if i == 7 { (241, 177, 92) }
    else if i == 8 { (242, 191, 94) }
    else if i == 9 { (242, 204, 96) }
    else if i == 10 { (229, 207, 100) }
    else if i == 11 { (216, 210, 105) }
    else if i == 12 { (203, 213, 109) }
    else if i == 13 { (190, 216, 113) }
    else if i == 14 { (177, 219, 118) }
    else if i == 15 { (164, 222, 122) }
    else if i == 16 { (152, 225, 126) }
    else if i == 17 { (139, 228, 130) }
    else if i == 18 { (132, 230, 133) }
    else { (126, 231, 135) }
}

/// The gradient bucket of position `idx` out of `total`: `idx * 20 / max(total, 1)`,
/// capped at the last stop.
pub open spec fn gradient_bucket(idx: nat, total: nat) -> int {
    let n = if total == 0 { 1 } else { total };
    let b = (idx * 20) / n;
    if b > 19 { 19 } else { b as int }
}

/// `s` coloured by the gradient stop for position `idx` of `total`.
pub fn gradient(s: &str, idx: usize, total: usize) -> (r: String)
    requires
        idx * 20 <= usize::MAX,
    ensures
        r@ == ({
            let c = stop(gradient_bucket(idx as nat, total as nat));
            ansi_rgb(c.0, c.1, c.2, s@)
        }),
{
    let n: usize = if total == 0 { 1 } else { total };
    let b: usize = (idx * 20) / n;
    let k: usize = if b > 19 { 19 } else { b };
    let c = stop_exec(k);
    style::truecolor(s, c.0, c.1, c.2)
}

/// `a + b`, capped at `usize::MAX`.
pub open spec fn sat_add(a: nat, b: nat) -> nat {
    if a + b > usize::MAX { usize::MAX as nat } else { a + b }
}

/// A row under construction: the styled text, and how many terminal columns
/// it occupies once the escape codes are stripped (a count that stops at
/// `usize::MAX`, which no terminal row reaches).
pub struct Line {
    pub visible: usize,
    pub rendered: String,
}

impl Line {
    /// An empty row.
    pub fn new() -> (l: Self)
        ensures
            l.visible == 0,
            l.rendered@.len() == 0,
    {
        Line { visible: 0, rendered: String::new() }
    }

    /// Appends `rendered`, counting the characters of `vis` as its width.
    pub fn raw(self, vis: &str, rendered: &str) -> (l: Self)
        ensures
            l.visible == sat_add(self.visible as nat, vis@.len()),
            l.rendered@ == self.rendered@ + rendered@,
    {
        let mut l = self;
        l.visible = l.visible.saturating_add(vis.unicode_len());
        l.rendered.append(rendered);
        l
    }

    /// Appends `n` spaces.
    pub fn space(self, n: usize) -> (l: Self)
        ensures
            l.visible == sat_add(self.visible as nat, n as nat),
            l.rendered@ == self.rendered@ + Seq::new(n as nat, |_i: int| ' '),
    {
        let s = repeat_char(' ', n);
        self.raw(s.as_str(), s.as_str())
    }

    /// Appends unstyled text.
    pub fn plain(self, s: &str) -> (l: Self)
        ensures
            l.visible == sat_add(self.visible as nat, s@.len()),
            l.rendered@ == self.rendered@ + s@,
    {
        self.raw(s, s)
    }

    /// Appends `s` as styled by `f`, counting only the characters of `s`.
    pub fn styled<F: FnOnce(&str) -> String>(self, s: &str, f: F) -> (l: Self)
        requires
            call_requires(f, (s,)),
        ensures
            l.visible == sat_add(self.visible as nat, s@.len()),
            exists|r: String| call_ensures(f, (s,), r) && l.rendered@ == self.rendered@ + r@,
    {
        let r = f(s);
        self.raw(s, r.as_str())
    }
}

/// The width of a row made of `(visible, rendered)` parts, counted as a
/// `Line` counts it.
pub open spec fn parts_visible(parts: Seq<(Seq<char>, Seq<char>)>) -> nat
    decreases parts.len(),
{
    if parts.len() == 0 {
        0
    } else {
        sat_add(parts_visible(parts.drop_last()), parts.last().0.len())
    }
}

/// The text of a row made of `(visible, rendered)` parts.
pub open spec fn parts_text(parts: Seq<(Seq<char>, Seq<char>)>) -> Seq<char>
    decreases parts.len(),
{
    if parts.len() == 0 {
        Seq::empty()
    } else {
        parts_text(parts.drop_last()) + parts.last().1
    }
}

/// The panel row showing the given parts.
pub open spec fn parts_row(parts: Seq<(Seq<char>, Seq<char>)>, width: nat) -> Seq<char> {
    row_spec(parts_visible(parts), parts_text(parts), width)
}

/// A part of `n` spaces.
pub open spec fn gap(n: nat) -> (Seq<char>, Seq<char>) {
    (rep(' ', n as int), rep(' ', n as int))
}

/// The line holds exactly the given parts.
pub open spec fn holds_parts(l: Line, parts: Seq<(Seq<char>, Seq<char>)>) -> bool {
    l.visible == parts_visible(parts) && l.rendered@ == parts_text(parts)
}

/// Appending a part to a line that holds `parts` gives a line holding
/// `parts` followed by the new part.
pub proof fn lemma_push_part(l: Line, parts: Seq<(Seq<char>, Seq<char>)>, vis: Seq<char>, rendered: Seq<char>, l2: Line)
    requires
        holds_parts(l, parts),
        l2.visible == sat_add(l.visible as nat, vis.len()),
        l2.rendered@ == l.rendered@ + rendered,
    ensures
        holds_parts(l2, parts.push((vis, rendered))),
{
    assert(parts.push((vis, rendered)).drop_last() =~= parts);
}

/// An empty line holds no parts.
pub proof fn lemma_no_parts(l: Line)
    requires
        l.visible == 0,
        l.rendered@.len() == 0,
    ensures
        holds_parts(l, Seq::empty()),
{
    assert(l.rendered@ =~= Seq::<char>::empty());
}

/// Appends text drawn as `rendered` to a line holding `parts`.
pub(crate) fn push_raw(l: Line, vis: &str, rendered: &str, Ghost(parts): Ghost<Seq<(Seq<char>, Seq<char>)>>) -> (r: Line)
    requires
        holds_parts(l, parts),
    ensures
        holds_parts(r, parts.push((vis@, rendered@))),
{
    let ghost l0 = l;
    let r = l.raw(vis, rendered);
    proof { lemma_push_part(l0, parts, vis@, rendered@, r); }
    r
}

/// Appends `n` spaces to a line holding `parts`.
pub(crate) fn push_gap(l: Line, n: usize, Ghost(parts): Ghost<Seq<(Seq<char>, Seq<char>)>>) -> (r: Line)
    requires
        holds_parts(l, parts),
    ensures
        holds_parts(r, parts.push(gap(n as nat))),
{
    let ghost l0 = l;
    let r = l.space(n);
    proof {
        lemma_push_part(l0, parts, rep(' ', n as int), rep(' ', n as int), r);
        assert(rep(' ', n as int) =~= Seq::new(n as nat, |_i: int| ' '));
    }
    r
}

/// A line holding no parts.
pub(crate) fn empty_line() -> (l: Line)
    ensures
        holds_parts(l, Seq::empty()),
{
    let l = Line::new();
    proof { lemma_no_parts(l); }
    l
}

/// Greedy word wrapping of the words `ws[k..]`, where `cur` is the line being
/// filled: a word joins the current line (after one space) when the line
/// stays within `width` characters, and otherwise starts a new line.
pub open spec fn wrap_acc(ws: Seq<Seq<char>>, k: int, cur: Seq<char>, width: nat) -> Seq<Seq<char>>
    decreases ws.len() - k,
{
    if k < 0 || k >= ws.len() {
        if cur.len() > 0 { seq![cur] } else { Seq::empty() }
    } else if cur.len() == 0 {
        wrap_acc(ws, k + 1, ws[k], width)
    } else if cur.len() + 1 + ws[k].len() <= width {
        wrap_acc(ws, k + 1, cur + seq![' '] + ws[k], width)
    } else {
        seq![cur] + wrap_acc(ws, k + 1, ws[k], width)
    }
}

/// The lines of `text` wrapped at `width` columns.
pub open spec fn wrap_spec(text: Seq<char>, width: nat) -> Seq<Seq<char>> {
    wrap_acc(words(text), 0, Seq::empty(), width)
}

/// Wraps `text` into lines of at most `width` characters, breaking only
/// between words (a word longer than `width` gets a line of its own).
pub fn wrap(text: &str, width: usize) -> (lines: Vec<String>)
    ensures
        string_views(lines@) == wrap_spec(text@, width as nat),
{
    let ws = words_exec(&chars_of(text));
    let mut out: Vec<Vec<char>> = Vec::new();
    let mut cur: Vec<char> = Vec::new();
    let mut k: usize = 0;
    while k < ws.len()
        invariant
            k <= ws@.len(),
            views(ws@) == words(text@),
            views(out@) + wrap_acc(views(ws@), k as int, cur@, width as nat) == wrap_spec(text@, width as nat),
        decreases ws@.len() - k,
    {
        let w = &ws[k];
        assert(views(ws@)[k as int] == w@);
        if cur.len() == 0 {
            cur = w.clone();
        } else if cur.len() < width && w.len() <= width - cur.len() - 1 {
            let ghost c0 = cur@;
            cur.push(' ');
            push_all(&mut cur, w);
            assert(cur@ =~= c0 + seq![' '] + w@);
        } else {
            let ghost before = views(out@);
            let done = cur;
            out.push(done);
            assert(views(out@) =~= before.push(done@));
            cur = w.clone();
        }
        k = k + 1;
    }
    if cur.len() > 0 {
        let ghost before = views(out@);
        let done = cur;
        out.push(done);
        assert(views(out@) =~= before.push(done@));
    } else {
        assert(views(out@) + wrap_acc(views(ws@), k as int, cur@, width as nat) =~= views(out@));
    }
    strings_of(&out)
}

/// A word: non-empty, with no whitespace in it.
pub open spec fn word_ok(w: Seq<char>) -> bool {
    w.len() > 0 && forall|t: int| 0 <= t < w.len() ==> !is_ws(#[trigger] w[t])
}

/// A wrapped line: non-empty, with no space at either end, and within
/// `width` characters unless it is a single word (holds no space).
pub open spec fn line_ok(l: Seq<char>, width: nat) -> bool {
    &&& l.len() > 0
    &&& l[0] != ' '
    &&& l[l.len() - 1] != ' '
    &&& (l.len() <= width || forall|t: int| 0 <= t < l.len() ==> #[trigger] l[t] != ' ')
}

proof fn lemma_words_acc_shape(s: Seq<char>, i: int, cur: Seq<char>)
    requires
        0 <= i,
        forall|t: int| 0 <= t < cur.len() ==> !is_ws(#[trigger] cur[t]),
    ensures
        forall|j: int| 0 <= j < words_acc(s, i, cur).len() ==> word_ok(#[trigger] words_acc(s, i, cur)[j]),
    decreases s.len() - i,
{
    if i >= s.len() {
        if cur.len() > 0 {
            assert(words_acc(s, i, cur) == seq![cur]);
            assert(word_ok(cur));
        }
    } else if is_ws(s[i]) {
        lemma_words_acc_shape(s, i + 1, Seq::empty());
        let pre = if cur.len() > 0 { seq![cur] } else { Seq::<Seq<char>>::empty() };
        let rest = words_acc(s, i + 1, Seq::empty());
        assert(words_acc(s, i, cur) == pre + rest);
        assert forall|j: int| 0 <= j < words_acc(s, i, cur).len() implies word_ok(#[trigger] words_acc(s, i, cur)[j]) by {
            if j < pre.len() {
                assert(words_acc(s, i, cur)[j] == cur);
            } else {
                assert(words_acc(s, i, cur)[j] == rest[j - pre.len()]);
            }
        }
    } else {
        assert forall|t: int| 0 <= t < cur.push(s[i]).len() implies !is_ws(#[trigger] cur.push(s[i])[t]) by {
            if t < cur.len() {
                assert(cur.push(s[i])[t] == cur[t]);
            }
        }
        lemma_words_acc_shape(s, i + 1, cur.push(s[i]));
        assert(words_acc(s, i, cur) == words_acc(s, i + 1, cur.push(s[i])));
    }
}

/// Every word of a text is non-empty and holds no whitespace.
pub proof fn lemma_words_shape(s: Seq<char>)
    ensures
        forall|j: int| 0 <= j < words(s).len() ==> word_ok(#[trigger] words(s)[j]),
{
    lemma_words_acc_shape(s, 0, Seq::empty());
}

/// Joining `a` followed by `s` puts `sep` after `a` when `s` is not empty.
pub proof fn lemma_join_cons(a: Seq<char>, s: Seq<Seq<char>>, sep: Seq<char>)
    ensures
        join(seq![a] + s, sep) == if s.len() == 0 { a } else { a + sep + join(s, sep) },
    decreases s.len(),
{
    if s.len() == 0 {
        assert(seq![a] + s =~= seq![a]);
    } else if s.len() == 1 {
        assert((seq![a] + s).drop_last() =~= seq![a]);
        assert((seq![a] + s).last() == s[0]);
        assert(join(seq![a], sep) == a);
        assert(join(s, sep) == s[0]);
    } else {
        lemma_join_cons(a, s.drop_last(), sep);
        assert((seq![a] + s).drop_last() =~= seq![a] + s.drop_last());
        assert((seq![a] + s).last() == s.last());
        assert((seq![a] + s).len() > 1);
        assert(a + sep + join(s.drop_last(), sep) + sep + s.last() =~= a + sep + (join(s.drop_last(), sep) + sep + s.last()));
    }
}

proof fn lemma_wrap_lines(ws: Seq<Seq<char>>, k: int, cur: Seq<char>, width: nat)
    requires
        0 <= k,
        forall|j: int| k <= j < ws.len() ==> word_ok(#[trigger] ws[j]),
        cur.len() == 0 || line_ok(cur, width),
    ensures
        forall|i: int| 0 <= i < wrap_acc(ws, k, cur, width).len() ==> line_ok(#[trigger] wrap_acc(ws, k, cur, width)[i], width),
        cur.len() > 0 ==> wrap_acc(ws, k, cur, width).len() > 0,
    decreases ws.len() - k,
{
    if k >= ws.len() {
    } else if cur.len() == 0 {
        let w = ws[k];
        assert(line_ok(w, width)) by {
            assert(!is_ws(w[0]));
            assert(!is_ws(w[w.len() - 1]));
            assert forall|t: int| 0 <= t < w.len() implies #[trigger] w[t] != ' ' by {
                assert(!is_ws(w[t]));
            }
        }
        lemma_wrap_lines(ws, k + 1, w, width);
    } else if cur.len() + 1 + ws[k].len() <= width {
        let w = ws[k];
        let n = cur + seq![' '] + w;
        assert(n[0] == cur[0]);
        assert(n[n.len() - 1] == w[w.len() - 1]);
        assert(!is_ws(w[w.len() - 1]));
        lemma_wrap_lines(ws, k + 1, n, width);
    } else {
        let w = ws[k];
        assert(line_ok(w, width)) by {
            assert(!is_ws(w[0]));
            assert(!is_ws(w[w.len() - 1]));
            assert forall|t: int| 0 <= t < w.len() implies #[trigger] w[t] != ' ' by {
                assert(!is_ws(w[t]));
            }
        }
        lemma_wrap_lines(ws, k + 1, w, width);
        let rest = wrap_acc(ws, k + 1, w, width);
        assert forall|i: int| 0 <= i < wrap_acc(ws, k, cur, width).len() implies line_ok(#[trigger] wrap_acc(ws, k, cur, width)[i], width) by {
            if i > 0 {
                assert(wrap_acc(ws, k, cur, width)[i] == rest[i - 1]);
            }
        }
    }
}

/// The line being filled, as a list of at most one line.
pub open spec fn pending(cur: Seq<char>) -> Seq<Seq<char>> {
    if cur.len() > 0 { seq![cur] } else { Seq::empty() }
}

proof fn lemma_wrap_join(ws: Seq<Seq<char>>, k: int, cur: Seq<char>, width: nat)
    requires
        0 <= k <= ws.len(),
        forall|j: int| k <= j < ws.len() ==> word_ok(#[trigger] ws[j]),
        cur.len() == 0 || line_ok(cur, width),
    ensures
        join(wrap_acc(ws, k, cur, width), " "@) == join(pending(cur) + ws.subrange(k, ws.len() as int), " "@),
    decreases ws.len() - k,
{
    let sp = " "@;
    let s1 = ws.subrange(k + 1, ws.len() as int);
    if k == ws.len() {
        assert(pending(cur) + ws.subrange(k, ws.len() as int) =~= pending(cur));
    } else if cur.len() == 0 {
        let w = ws[k];
        lemma_wrap_lines(ws, k, cur, width);
        assert(line_ok(w, width)) by {
            assert(!is_ws(w[0]));
            assert(!is_ws(w[w.len() - 1]));
            assert forall|t: int| 0 <= t < w.len() implies #[trigger] w[t] != ' ' by {
                assert(!is_ws(w[t]));
            }
        }
        lemma_wrap_join(ws, k + 1, w, width);
        assert(pending(w) + s1 =~= pending(cur) + ws.subrange(k, ws.len() as int));
    } else if cur.len() + 1 + ws[k].len() <= width {
        let w = ws[k];
        let n = cur + seq![' '] + w;
        assert(n[0] == cur[0]);
        assert(n[n.len() - 1] == w[w.len() - 1]);
        assert(!is_ws(w[w.len() - 1]));
        lemma_wrap_join(ws, k + 1, n, width);
        lemma_join_cons(n, s1, sp);
        lemma_join_cons(w, s1, sp);
        assert(ws.subrange(k, ws.len() as int) =~= seq![w] + s1);
        lemma_join_cons(cur, seq![w] + s1, sp);
        assert(pending(n) == seq![n]);
        assert(pending(cur) == seq![cur]);
        assert(seq![' '] =~= sp) by { reveal_strlit(" "); }
        if s1.len() == 0 {
            assert(n =~= cur + sp + w);
        } else {
            assert(n + sp + join(s1, sp) =~= cur + sp + (w + sp + join(s1, sp)));
        }
    } else {
        let w = ws[k];
        assert(line_ok(w, width)) by {
            assert(!is_ws(w[0]));
            assert(!is_ws(w[w.len() - 1]));
            assert forall|t: int| 0 <= t < w.len() implies #[trigger] w[t] != ' ' by {
                assert(!is_ws(w[t]));
            }
        }
        lemma_wrap_lines(ws, k + 1, w, width);
        lemma_wrap_join(ws, k + 1, w, width);
        let rest = wrap_acc(ws, k + 1, w, width);
        lemma_join_cons(cur, rest, sp);
        assert(ws.subrange(k, ws.len() as int) =~= seq![w] + s1);
        assert(pending(w) == seq![w]);
        assert(pending(cur) == seq![cur]);
        lemma_join_cons(cur, seq![w] + s1, sp);
    }
}

/// The first word of a line: the text before its first space.
pub open spec fn first_word(l: Seq<char>) -> Seq<char> {
    let k = find(l, " "@);
    if k < 0 { l } else { l.subrange(0, k) }
}

proof fn lemma_first_word_ext(cur: Seq<char>, x: Seq<char>)
    requires
        cur.len() > 0,
    ensures
        first_word(cur + seq![' '] + x) == first_word(cur),
{
    reveal_strlit(" ");
    let sp = " "@;
    let s = cur + seq![' '] + x;
    lemma_find_from(cur, sp, 0);
    lemma_find_from(s, sp, 0);
    assert forall|j: int| 0 <= j < cur.len() implies (crate::text::matches_at(s, sp, j) <==> crate::text::matches_at(cur, sp, j)) by {
        assert(s.subrange(j, j + 1) =~= seq![s[j]]);
        assert(cur.subrange(j, j + 1) =~= seq![cur[j]]);
        assert(s[j] == cur[j]);
    }
    assert(s.subrange(cur.len() as int, cur.len() as int + 1) =~= sp);
    assert(crate::text::matches_at(s, sp, cur.len() as int));
    let k = find(cur, sp);
    if k >= 0 {
        assert(crate::text::matches_at(s, sp, k));
        assert(find(s, sp) == k);
        assert(s.subrange(0, k) =~= cur.subrange(0, k));
    } else {
        assert(find(s, sp) == cur.len());
        assert(s.subrange(0, cur.len() as int) =~= cur);
    }
}

proof fn lemma_first_line(ws: Seq<Seq<char>>, k: int, cur: Seq<char>, width: nat)
    requires
        0 <= k,
        cur.len() > 0,
    ensures
        wrap_acc(ws, k, cur, width).len() > 0,
        first_word(wrap_acc(ws, k, cur, width)[0]) == first_word(cur),
    decreases ws.len() - k,
{
    if k >= ws.len() {
    } else if cur.len() + 1 + ws[k].len() <= width {
        lemma_first_line(ws, k + 1, cur + seq![' '] + ws[k], width);
        lemma_first_word_ext(cur, ws[k]);
    } else {
    }
}

proof fn lemma_word_is_first_word(w: Seq<char>)
    requires
        word_ok(w),
    ensures
        first_word(w) == w,
{
    reveal_strlit(" ");
    lemma_find_from(w, " "@, 0);
    if find(w, " "@) >= 0 {
        let j = find(w, " "@);
        assert(crate::text::matches_at(w, " "@, j));
        assert(w.subrange(j, j + 1)[0] == w[j]);
        assert(" "@[0] == ' ');
        assert(w[j] == ' ');
        assert(!is_ws(w[j]));
    }
}

proof fn lemma_wrap_greedy(ws: Seq<Seq<char>>, k: int, cur: Seq<char>, width: nat)
    requires
        0 <= k,
        forall|j: int| k <= j < ws.len() ==> word_ok(#[trigger] ws[j]),
    ensures
        forall|i: int| 0 <= i < wrap_acc(ws, k, cur, width).len() - 1 ==>
            #[trigger] wrap_acc(ws, k, cur, width)[i].len() + 1 + first_word(wrap_acc(ws, k, cur, width)[i + 1]).len() > width,
    decreases ws.len() - k,
{
    if k >= ws.len() {
    } else if cur.len() == 0 {
        lemma_wrap_greedy(ws, k + 1, ws[k], width);
        assert(wrap_acc(ws, k, cur, width) == wrap_acc(ws, k + 1, ws[k], width));
    } else if cur.len() + 1 + ws[k].len() <= width {
        lemma_wrap_greedy(ws, k + 1, cur + seq![' '] + ws[k], width);
        assert(wrap_acc(ws, k, cur, width) == wrap_acc(ws, k + 1, cur + seq![' '] + ws[k], width));
    } else {
        let w = ws[k];
        lemma_wrap_greedy(ws, k + 1, w, width);
        lemma_first_line(ws, k + 1, w, width);
        lemma_word_is_first_word(w);
        let rest = wrap_acc(ws, k + 1, w, width);
        let all = wrap_acc(ws, k, cur, width);
        assert(all == seq![cur] + rest);
        assert forall|i: int| 0 <= i < all.len() - 1 implies #[trigger] all[i].len() + 1 + first_word(all[i + 1]).len() > width by {
            if i == 0 {
                assert(all[0] == cur);
                assert(all[1] == rest[0]);
            } else {
                assert(all[i] == rest[i - 1]);
                assert(all[i + 1] == rest[i]);
            }
        }
    }
}

/// Wrapping keeps the words: joined with single spaces, the lines give the
/// words of the text joined with single spaces. Every line is non-empty,
/// has no space at either end, and is within `width` characters unless it
/// is a single word longer than that. Wrapping is greedy: no line could
/// have taken the first word of the next one.
pub proof fn law_wrap(text: Seq<char>, width: nat)
    ensures
        join(wrap_spec(text, width), " "@) == join(words(text), " "@),
        forall|i: int| 0 <= i < wrap_spec(text, width).len() ==> line_ok(#[trigger] wrap_spec(text, width)[i], width),
        forall|i: int| 0 <= i < wrap_spec(text, width).len() - 1 ==>
            #[trigger] wrap_spec(text, width)[i].len() + 1 + first_word(wrap_spec(text, width)[i + 1]).len() > width,
{
    lemma_words_shape(text);
    lemma_wrap_greedy(words(text), 0, Seq::empty(), width);
    lemma_wrap_lines(words(text), 0, Seq::empty(), width);
    lemma_wrap_join(words(text), 0, Seq::empty(), width);
    assert(pending(Seq::<char>::empty()) + words(text).subrange(0, words(text).len() as int) =~= words(text));
}

/// `n` copies of `c`.
pub open spec fn rep(c: char, n: int) -> Seq<char> {
    Seq::new(if n < 0 { 0 } else { n as nat }, |_i: int| c)
}

/// `a - b`, or zero when `b > a` (`usize::saturating_sub`).
pub open spec fn sat_sub(a: int, b: int) -> int {
    if a > b { a - b } else { 0 }
}

/// The opening line of a panel whose title carries a badge.
pub open spec fn top_titled_spec(title: Seq<char>, badge: Seq<char>, width: nat) -> Seq<char> {
    let used = ("╭─ "@.len() + badge.len() + 1) + title.len() + 1;
    let dashes = sat_sub(width as int, (used + 1) as int);
    ansi_rgb(38, 50, 68, "╭─ "@) + style::ansi_style("1"@, ansi_rgb(192, 132, 252, badge))
        + " "@ + style::ansi_style("1"@, ansi_rgb(229, 231, 235, title)) + " "@
        + ansi_rgb(38, 50, 68, rep('─', dashes) + "─╮"@)
}

/// The opening line of a panel whose title carries a badge.
pub fn top_titled(title: &str, badge: &str, width: usize) -> (r: String)
    requires
        badge@.len() + title@.len() + 6 <= usize::MAX,
    ensures
        r@ == top_titled_spec(title@, badge@, width as nat),
{
    let used: usize = 3 + badge.unicode_len() + 1 + title.unicode_len() + 1;
    let dashes: usize = if width > used + 1 { width - (used + 1) } else { 0 };
    let mut r = border("╭─ ");
    r.append(accent_bold(badge).as_str());
    r.append(" ");
    r.append(text_bold(title).as_str());
    r.append(" ");
    let mut tail = repeat_char('─', dashes);
    tail.append("─╮");
    r.append(border(tail.as_str()).as_str());
    proof { reveal_strlit("╭─ "); }
    r
}

/// The opening line of a section panel.
pub open spec fn top_section_spec(label: Seq<char>, width: nat) -> Seq<char> {
    let used = "╭─ "@.len() + label.len() + 1;
    let dashes = sat_sub(width as int, (used + 1) as int);
    ansi_rgb(38, 50, 68, "╭─ "@) + style::ansi_style("1"@, ansi_rgb(229, 231, 235, label))
        + ansi_rgb(38, 50, 68, " "@ + rep('─', dashes) + "╮"@)
}

/// The opening line of a section panel.
pub fn top_section(label: &str, width: usize) -> (r: String)
    requires
        label@.len() + 5 <= usize::MAX,
    ensures
        r@ == top_section_spec(label@, width as nat),
{
    let used: usize = 3 + label.unicode_len() + 1;
    let dashes: usize = if width > used + 1 { width - (used + 1) } else { 0 };
    let mut r = border("╭─ ");
    r.append(text_bold(label).as_str());
    let mut tail = String::new();
    tail.append(" ");
    push_repeat(&mut tail, '─', dashes);
    tail.append("╮");
    r.append(border(tail.as_str()).as_str());
    proof { reveal_strlit("╭─ "); }
    assert(tail@ == " "@ + rep('─', dashes as int) + "╮"@);
    r
}

/// The closing line of a panel.
pub open spec fn bottom_spec(width: nat) -> Seq<char> {
    ansi_rgb(38, 50, 68, "╰"@ + rep('─', width - 2) + "╯"@)
}

/// The closing line of a panel.
pub fn bottom(width: usize) -> (r: String)
    requires
        width >= 2,
    ensures
        r@ == bottom_spec(width as nat),
{
    let mut t = String::new();
    t.append("╰");
    push_repeat(&mut t, '─', width - 2);
    t.append("╯");
    border(t.as_str())
}

/// An empty row inside a panel.
pub open spec fn blank_spec(width: nat) -> Seq<char> {
    ansi_rgb(38, 50, 68, "│"@) + rep(' ', width - 2) + ansi_rgb(38, 50, 68, "│"@)
}

/// An empty row inside a panel.
pub fn blank(width: usize) -> (r: String)
    requires
        width >= 2,
    ensures
        r@ == blank_spec(width as nat),
{
    let mut r = border("│");
    push_repeat(&mut r, ' ', width - 2);
    r.append(border("│").as_str());
    r
}

/// A content row: the line, padded with spaces to the inner width.
pub open spec fn row_spec(visible: nat, rendered: Seq<char>, width: nat) -> Seq<char> {
    ansi_rgb(38, 50, 68, "│"@) + rendered + rep(' ', sat_sub(width - 2, visible as int))
        + ansi_rgb(38, 50, 68, "│"@)
}

/// A content row: the line, padded with spaces to the inner width.
pub fn row(line: &Line, width: usize) -> (r: String)
    requires
        width >= 2,
    ensures
        r@ == row_spec(line.visible as nat, line.rendered@, width as nat),
{
    let inner = width - 2;
    let pad: usize = if inner > line.visible { inner - line.visible } else { 0 };
    let mut r = border("│");
    r.append(line.rendered.as_str());
    push_repeat(&mut r, ' ', pad);
    r.append(border("│").as_str());
    r
}

/// A horizontal divider inside a panel.
pub open spec fn divider_spec(width: nat) -> Seq<char> {
    ansi_rgb(38, 50, 68, "│"@) + ansi_rgb(38, 50, 68, " "@ + rep('─', width - 4) + " "@)
        + ansi_rgb(38, 50, 68, "│"@)
}

/// A horizontal divider inside a panel.
pub fn divider(width: usize) -> (r: String)
    requires
        width >= 4,
    ensures
        r@ == divider_spec(width as nat),
{
    let mut r = border("│");
    let mut mid = String::new();
    mid.append(" ");
    push_repeat(&mut mid, '─', width - 4);
    mid.append(" ");
    r.append(border(mid.as_str()).as_str());
    r.append(border("│").as_str());
    r
}

/// The inside of the header row: badge, brand, a dot, the left text, then
/// the right text pushed to the right edge.
pub open spec fn header_row_spec(badge: Seq<char>, brand: Seq<char>, left: Seq<char>, right: Seq<char>, width: nat) -> Seq<char> {
    let used = 2 + badge.len() + 1 + brand.len() + 3 + left.len() + right.len() + 2;
    let pad = sat_sub(width - 2, used as int);
    "  "@ + style::ansi_style("1"@, ansi_rgb(192, 132, 252, badge)) + " "@
        + style::ansi_style("1"@, ansi_rgb(229, 231, 235, brand)) + " "@ + ansi_rgb(124, 132, 151, "·"@)
        + " "@ + style::ansi_style("1"@, ansi_rgb(229, 231, 235, left)) + rep(' ', pad)
        + ansi_rgb(124, 132, 151, right) + "  "@
}

/// The inside of the header row.
pub fn header_row(badge: &str, brand: &str, left: &str, right: &str, width: usize) -> (r: String)
    requires
        width >= 2,
        badge@.len() + brand@.len() + left@.len() + right@.len() + 8 <= usize::MAX,
    ensures
        r@ == header_row_spec(badge@, brand@, left@, right@, width as nat),
{
    let inner = width - 2;
    let used: usize = 2 + badge.unicode_len() + 1 + brand.unicode_len() + 3 + left.unicode_len()
        + right.unicode_len() + 2;
    let pad: usize = if inner > used { inner - used } else { 0 };
    let mut r = String::new();
    r.append("  ");
    r.append(accent_bold(badge).as_str());
    r.append(" ");
    r.append(text_bold(brand).as_str());
    r.append(" ");
    r.append(muted("·").as_str());
    r.append(" ");
    r.append(text_bold(left).as_str());
    push_repeat(&mut r, ' ', pad);
    r.append(muted(right).as_str());
    r.append("  ");
    r
}

/// The header panel: a blank line, the top edge, the header row, the bottom
/// edge and a blank line.
pub open spec fn header_panel_spec(badge: Seq<char>, brand: Seq<char>, left: Seq<char>, right: Seq<char>, width: nat) -> Seq<Seq<char>> {
    seq![
        Seq::<char>::empty(),
        ansi_rgb(38, 50, 68, "╭"@ + rep('─', width - 2) + "╮"@),
        ansi_rgb(38, 50, 68, "│"@) + header_row_spec(badge, brand, left, right, width)
            + ansi_rgb(38, 50, 68, "│"@),
        bottom_spec(width),
        Seq::<char>::empty(),
    ]
}

/// The header panel's lines.
pub fn header_panel(badge: &str, brand: &str, left: &str, right: &str, width: usize) -> (lines: Vec<String>)
    requires
        width >= 2,
        badge@.len() + brand@.len() + left@.len() + right@.len() + 8 <= usize::MAX,
    ensures
        string_views(lines@) == header_panel_spec(badge@, brand@, left@, right@, width as nat),
{
    let mut lines: Vec<String> = Vec::new();
    lines.push(String::new());
    let mut top = String::new();
    top.append("╭");
    push_repeat(&mut top, '─', width - 2);
    top.append("╮");
    lines.push(border(top.as_str()));
    let mut mid = border("│");
    mid.append(header_row(badge, brand, left, right, width).as_str());
    mid.append(border("│").as_str());
    lines.push(mid);
    lines.push(bottom(width));
    lines.push(String::new());
    assert(string_views(lines@) =~= seq![
        Seq::<char>::empty(),
        ansi_rgb(38, 50, 68, "╭"@ + rep('─', width - 2) + "╮"@),
        ansi_rgb(38, 50, 68, "│"@) + header_row_spec(badge@, brand@, left@, right@, width as nat)
            + ansi_rgb(38, 50, 68, "│"@),
        bottom_spec(width as nat),
        Seq::<char>::empty(),
    ]);
    lines
}

/// The progress counter shown at the right of the header row.
pub open spec fn progress_label_spec(done: nat, total: nat) -> Seq<char> {
    if total > 0 {
        dec(if done < total { done } else { total }) + "/"@ + dec(total) + " checks"@
    } else {
        dec(done) + " checks"@
    }
}

/// The progress counter shown at the right of the header row.
pub fn progress_label(done: usize, total: usize) -> (r: String)
    ensures
        r@ == progress_label_spec(done as nat, total as nat),
{
    let mut r = String::new();
    if total > 0 {
        push_dec(&mut r, if done < total { done } else { total });
        r.append("/");
        push_dec(&mut r, total);
    } else {
        push_dec(&mut r, done);
    }
    r.append(" checks");
    r
}


/// The narrowest panel.
pub const MIN_WIDTH: usize = 60;
/// The widest panel.
pub const MAX_WIDTH: usize = 120;
/// The panel width when the terminal's is unknown.
pub const DEFAULT_WIDTH: usize = 80;

/// The panel width for a terminal of `cols` columns (80 when unknown),
/// kept between 60 and 120.
pub open spec fn width_spec(cols: Option<usize>) -> nat {
    let c: nat = match cols { Some(w) => w as nat, None => DEFAULT_WIDTH as nat };
    if c < MIN_WIDTH { MIN_WIDTH as nat } else if c > MAX_WIDTH { MAX_WIDTH as nat } else { c }
}

/// The panel width for a terminal of `cols` columns.
pub fn width_for(cols: Option<usize>) -> (w: usize)
    ensures
        w == width_spec(cols),
        MIN_WIDTH <= w <= MAX_WIDTH,
{
    let c = match cols {
        Some(w) => w,
        None => DEFAULT_WIDTH,
    };
    if c < MIN_WIDTH { MIN_WIDTH } else if c > MAX_WIDTH { MAX_WIDTH } else { c }
}

/// The live progress counter in the header panel: what the header shows
/// and how many of the expected steps are done.
pub struct Progress {
    pub badge: String,
    pub brand: String,
    pub left: String,
    /// Whether the output is a terminal whose header can be redrawn.
    pub tty: bool,
    pub done: usize,
    pub total: usize,
}

/// The counter after the total grew: always `done/total checks`.
pub open spec fn bumped_label_spec(done: nat, total: nat) -> Seq<char> {
    dec(if done < total { done } else { total }) + "/"@ + dec(total) + " checks"@
}

impl Progress {
    /// A counter for the header showing `badge`, `brand` and `left`.
    pub fn new(badge: &str, brand: &str, left: &str, tty: bool) -> (p: Self)
        ensures
            p.badge@ == badge@,
            p.brand@ == brand@,
            p.left@ == left@,
            p.tty == tty,
            p.done == 0,
            p.total == 0,
    {
        Progress {
            badge: String::from_str(badge),
            brand: String::from_str(brand),
            left: String::from_str(left),
            tty,
            done: 0,
            total: 0,
        }
    }

    /// One more step is done; on a terminal, the new counter to show.
    pub fn tick(&mut self) -> (r: Option<String>)
        requires
            old(self).done < usize::MAX,
        ensures
            final(self).done == old(self).done + 1,
            final(self).total == old(self).total,
            final(self).tty == old(self).tty,
            final(self).badge@ == old(self).badge@,
            final(self).brand@ == old(self).brand@,
            final(self).left@ == old(self).left@,
            match r {
                Some(t) => old(self).tty && t@ == progress_label_spec(final(self).done as nat, final(self).total as nat),
                None => !old(self).tty,
            },
    {
        self.done = self.done + 1;
        if self.tty {
            Some(progress_label(self.done, self.total))
        } else {
            None
        }
    }

    /// `extra` more steps are expected; on a terminal, the new counter.
    pub fn bump(&mut self, extra: usize) -> (r: Option<String>)
        requires
            old(self).total + extra <= usize::MAX,
        ensures
            final(self).total == old(self).total + extra,
            final(self).done == old(self).done,
            final(self).tty == old(self).tty,
            final(self).badge@ == old(self).badge@,
            final(self).brand@ == old(self).brand@,
            final(self).left@ == old(self).left@,
            match r {
                Some(t) => old(self).tty && t@ == bumped_label_spec(final(self).done as nat, final(self).total as nat),
                None => !old(self).tty,
            },
    {
        self.total = self.total + extra;
        if self.tty {
            let mut t = String::new();
            push_dec(&mut t, if self.done < self.total { self.done } else { self.total });
            t.append("/");
            push_dec(&mut t, self.total);
            t.append(" checks");
            Some(t)
        } else {
            None
        }
    }

    /// The header row redrawn with `right` at its right edge, borders
    /// included.
    pub fn header_line(&self, right: &str, width: usize) -> (r: String)
        requires
            width >= 2,
            self.badge@.len() + self.brand@.len() + self.left@.len() + right@.len() + 8 <= usize::MAX,
        ensures
            r@ == ansi_rgb(38, 50, 68, "│"@) + header_row_spec(self.badge@, self.brand@, self.left@, right@, width as nat)
                + ansi_rgb(38, 50, 68, "│"@),
    {
        let mut r = border("│");
        r.append(header_row(self.badge.as_str(), self.brand.as_str(), self.left.as_str(), right, width).as_str());
        r.append(border("│").as_str());
        r
    }
}

} // verus!
