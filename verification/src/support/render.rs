//! Plain tables: cells that keep their visible text apart from their styled
//! rendering, column layout, and truncation with an ellipsis.
use vstd::prelude::*;
use crate::style;
use crate::text::{chars_of, push_range, string_of, string_views};
use crate::support::panel::{push_repeat, rep};

verus! {

/// A table cell: what the reader sees and what is written (with escapes).
pub struct Cell {
    pub visible: String,
    pub rendered: String,
}

impl Cell {
    /// A cell without styling.
    pub fn plain(s: &str) -> (c: Self)
        ensures
            c.visible@ == s@,
            c.rendered@ == s@,
    {
        Cell { visible: s.to_owned(), rendered: s.to_owned() }
    }

    /// A cell whose rendering differs from its visible text.
    pub fn styled(visible: &str, rendered: &str) -> (c: Self)
        ensures
            c.visible@ == visible@,
            c.rendered@ == rendered@,
    {
        Cell { visible: visible.to_owned(), rendered: rendered.to_owned() }
    }
}

/// `s` cut to at most `max` characters, the last one replaced by `…` when
/// anything was cut.
pub open spec fn truncate_spec(s: Seq<char>, max: nat) -> Seq<char> {
    if s.len() <= max {
        s
    } else {
        s.subrange(0, if max >= 1 { max - 1 } else { 0 }) + seq!['…']
    }
}

/// `s` cut to at most `max` characters, ending in `…` when cut.
pub fn truncate(s: &str, max: usize) -> (r: String)
    ensures
        r@ == truncate_spec(s@, max as nat),
{
    let v = chars_of(s);
    if v.len() <= max {
        s.to_owned()
    } else {
        let keep: usize = if max >= 1 { max - 1 } else { 0 };
        let mut out: Vec<char> = Vec::new();
        push_range(&mut out, &v, 0, keep);
        out.push('…');
        string_of(&out)
    }
}

/// Truncation never yields more than `max` characters (for `max >= 1`), keeps
/// short text unchanged, and otherwise keeps a prefix of the text followed by
/// the ellipsis.
pub proof fn truncate_law(s: Seq<char>, max: nat)
    requires
        max >= 1,
    ensures
        truncate_spec(s, max).len() <= max,
        s.len() <= max ==> truncate_spec(s, max) == s,
        s.len() > max ==> truncate_spec(s, max).len() == max
            && truncate_spec(s, max).last() == '…'
            && truncate_spec(s, max).subrange(0, max - 1) == s.subrange(0, max - 1),
{
    if s.len() > max {
        let t = truncate_spec(s, max);
        assert(t.subrange(0, max - 1) =~= s.subrange(0, max - 1));
    }
}

/// The width of column `i`: the widest of its header and its cells.
pub open spec fn column_width(headers: Seq<Seq<char>>, rows: Seq<Seq<Cell>>, i: int, r: int) -> nat
    decreases r,
{
    if r <= 0 {
        headers[i].len()
    } else {
        let w = column_width(headers, rows, i, r - 1);
        if i < rows[r - 1].len() && rows[r - 1][i].visible@.len() > w {
            rows[r - 1][i].visible@.len()
        } else {
            w
        }
    }
}

/// The width of every column over all rows.
pub open spec fn column_widths(headers: Seq<Seq<char>>, rows: Seq<Seq<Cell>>) -> Seq<nat> {
    Seq::new(headers.len(), |i: int| column_width(headers, rows, i, rows.len() as int))
}

/// The text of the columns `0..k` of one table line: two spaces of margin,
/// then each entry followed by padding to its column width, columns
/// separated by two spaces.
pub open spec fn table_line(entries: Seq<(Seq<char>, nat)>, widths: Seq<nat>, k: int) -> Seq<char>
    decreases k,
{
    if k <= 0 {
        "  "@
    } else {
        table_line(entries, widths, k - 1) + (if k - 1 > 0 { "  "@ } else { Seq::empty() })
            + entries[k - 1].0 + rep(' ', widths[k - 1] - entries[k - 1].1)
    }
}

/// The header entries: the bold header text and its width.
pub open spec fn header_entries(headers: Seq<Seq<char>>) -> Seq<(Seq<char>, nat)> {
    Seq::new(headers.len(), |i: int| (style::ansi_style("1"@, headers[i]), headers[i].len()))
}

/// The entries of one row, cut to `n` columns.
pub open spec fn row_entries(row: Seq<Cell>, n: nat) -> Seq<(Seq<char>, nat)> {
    Seq::new(if row.len() < n { row.len() } else { n }, |i: int| (row[i].rendered@, row[i].visible@.len()))
}

/// The lines of a table: the header line, a rule under each column, then one
/// line per row (cells past the last header are dropped).
pub open spec fn table_spec(headers: Seq<Seq<char>>, rows: Seq<Seq<Cell>>) -> Seq<Seq<char>> {
    let widths = column_widths(headers, rows);
    let n = headers.len();
    let rule = Seq::new(n, |i: int| (style::ansi_fg("90"@, rep('─', widths[i] as int)), widths[i]));
    seq![table_line(header_entries(headers), widths, n as int), table_line(rule, widths, n as int)]
        + Seq::new(rows.len(), |r: int| table_line(row_entries(rows[r], n), widths, row_entries(rows[r], n).len() as int))
}

/// The rows of a table as sequences of cells.
pub open spec fn row_views(rows: Seq<Vec<Cell>>) -> Seq<Seq<Cell>> {
    rows.map_values(|r: Vec<Cell>| r@)
}

fn widths_exec(headers: &Vec<String>, rows: &Vec<Vec<Cell>>) -> (widths: Vec<usize>)
    ensures
        widths@.len() == headers@.len(),
        forall|i: int| 0 <= i < headers@.len() ==> #[trigger] widths@[i] == column_widths(string_views(headers@), row_views(rows@))[i],
{
    let ghost hs = string_views(headers@);
    let ghost rs = row_views(rows@);
    let n = headers.len();
    let mut widths: Vec<usize> = Vec::new();
    let mut i: usize = 0;
    while i < n
        invariant
            n == headers@.len(),
            hs == string_views(headers@),
            i <= n,
            widths@.len() == i,
            forall|j: int| 0 <= j < i ==> #[trigger] widths@[j] == column_width(hs, rs, j, 0),
        decreases n - i,
    {
        widths.push(headers[i].unicode_len());
        i = i + 1;
    }
    let mut r: usize = 0;
    while r < rows.len()
        invariant
            n == headers@.len(),
            hs == string_views(headers@),
            rs == row_views(rows@),
            r <= rows@.len(),
            widths@.len() == n,
            forall|j: int| 0 <= j < n ==> #[trigger] widths@[j] == column_width(hs, rs, j, r as int),
        decreases rows@.len() - r,
    {
        let row = &rows[r];
        assert(rs[r as int] == row@);
        let mut k: usize = 0;
        let ghost w0 = widths@;
        while k < n
            invariant
                n == headers@.len(),
                k <= n,
                r < rows@.len(),
                rs == row_views(rows@),
                rs[r as int] == row@,
                widths@.len() == n,
                forall|j: int| 0 <= j < n ==> #[trigger] w0[j] == column_width(hs, rs, j, r as int),
                forall|j: int| 0 <= j < k ==> #[trigger] widths@[j] == column_width(hs, rs, j, r + 1),
                forall|j: int| k <= j < n ==> #[trigger] widths@[j] == w0[j],
            decreases n - k,
        {
            if k < row.len() {
                let w = row[k].visible.unicode_len();
                if w > widths[k] {
                    widths.set(k, w);
                }
            }
            k = k + 1;
        }
        r = r + 1;
    }
    assert forall|i: int| 0 <= i < headers@.len() implies #[trigger] widths@[i] == column_widths(hs, rs)[i] by {}
    widths
}

fn push_entry(line: &mut String, k: usize, entry: &str, pad: usize)
    ensures
        final(line)@ == old(line)@ + (if k > 0 { "  "@ } else { Seq::<char>::empty() }) + entry@ + rep(' ', pad as int),
{
    if k > 0 {
        line.append("  ");
    }
    line.append(entry);
    crate::support::panel::push_repeat(line, ' ', pad);
    assert(Seq::new(pad as nat, |_i: int| ' ') =~= rep(' ', pad as int));
}

/// The lines of a table: bold headers, a rule under each column, and one
/// line per row, each column padded to its widest entry (cells past the last
/// header are dropped).
pub fn render(headers: &Vec<String>, rows: &Vec<Vec<Cell>>) -> (lines: Vec<String>)
    ensures
        string_views(lines@) == table_spec(string_views(headers@), row_views(rows@)),
{
    let ghost hs = string_views(headers@);
    let ghost rs = row_views(rows@);
    let widths = widths_exec(headers, rows);
    let ghost ws = column_widths(hs, rs);
    assert(widths@.len() == ws.len());
    let n = headers.len();
    let mut lines: Vec<String> = Vec::new();
    let mut head = String::new();
    head.append("  ");
    let mut rule = String::new();
    rule.append("  ");
    let ghost he = header_entries(hs);
    let ghost re = Seq::new(n as nat, |i: int| (style::ansi_fg("90"@, rep('─', ws[i] as int)), ws[i]));
    let mut i: usize = 0;
    while i < n
        invariant
            n == headers@.len(),
            hs == string_views(headers@),
            widths@.len() == n,
            forall|j: int| 0 <= j < n ==> #[trigger] widths@[j] == ws[j],
            ws == column_widths(hs, rs),
            i <= n,
            he == header_entries(hs),
            re == Seq::new(n as nat, |i: int| (style::ansi_fg("90"@, rep('─', ws[i] as int)), ws[i])),
            head@ == table_line(he, ws, i as int),
            rule@ == table_line(re, ws, i as int),
        decreases n - i,
    {
        let h = headers[i].as_str();
        assert(hs[i as int] == h@);
        let hl = h.unicode_len();
        assert(ws[i as int] >= hs[i as int].len()) by {
            lemma_width_ge_header(hs, rs, i as int, rs.len() as int);
        }
        let pad = widths[i] - hl;
        assert(he[i as int] == (style::ansi_style("1"@, hs[i as int]), hs[i as int].len()));
        assert(re[i as int] == (style::ansi_fg("90"@, rep('─', ws[i as int] as int)), ws[i as int]));
        push_entry(&mut head, i, style::bold(h).as_str(), pad);
        let dashes = crate::support::panel::repeat_char('─', widths[i]);
        assert(dashes@ =~= rep('─', ws[i as int] as int));
        push_entry(&mut rule, i, style::bright_black(dashes.as_str()).as_str(), 0);
        assert(rep(' ', 0) =~= Seq::<char>::empty());
        i = i + 1;
    }
    lines.push(head);
    lines.push(rule);
    let mut r: usize = 0;
    while r < rows.len()
        invariant
            n == headers@.len(),
            rs == row_views(rows@),
            widths@.len() == n,
            forall|j: int| 0 <= j < n ==> #[trigger] widths@[j] == ws[j],
            ws == column_widths(hs, rs),
            hs == string_views(headers@),
            r <= rows@.len(),
            string_views(lines@) == seq![table_line(he, ws, n as int), table_line(re, ws, n as int)]
                + Seq::new(r as nat, |q: int| table_line(row_entries(rs[q], n as nat), ws, row_entries(rs[q], n as nat).len() as int)),
        decreases rows@.len() - r,
    {
        let row = &rows[r];
        assert(rs[r as int] == row@);
        let ghost es = row_entries(row@, n as nat);
        let cols: usize = if row.len() < n { row.len() } else { n };
        let mut line = String::new();
        line.append("  ");
        let mut k: usize = 0;
        while k < cols
            invariant
                cols <= n,
                cols <= row@.len(),
                widths@.len() == n,
                forall|j: int| 0 <= j < n ==> #[trigger] widths@[j] == ws[j],
                ws == column_widths(hs, rs),
                rs == row_views(rows@),
                r < rows@.len(),
                rs[r as int] == row@,
                es == row_entries(row@, n as nat),
                es.len() == cols,
                hs == string_views(headers@),
                n == headers@.len(),
                k <= cols,
                line@ == table_line(es, ws, k as int),
            decreases cols - k,
        {
            let cell = &row[k];
            let vl = cell.visible.unicode_len();
            assert(ws[k as int] >= vl) by {
                assert(rs[r as int][k as int] == row@[k as int]);
                assert(hs.len() == n);
                assert(ws[k as int] == column_width(hs, rs, k as int, rs.len() as int));
                lemma_width_ge_cell(hs, rs, k as int, r as int, rs.len() as int);
            }
            assert(es[k as int] == (cell.rendered@, cell.visible@.len()));
            let pad = widths[k] - vl;
            push_entry(&mut line, k, cell.rendered.as_str(), pad);
            k = k + 1;
        }
        let ghost before = string_views(lines@);
        lines.push(line);
        assert(string_views(lines@) =~= before.push(table_line(es, ws, cols as int)));
        r = r + 1;
        assert(string_views(lines@) =~= seq![table_line(he, ws, n as int), table_line(re, ws, n as int)]
            + Seq::new(r as nat, |q: int| table_line(row_entries(rs[q], n as nat), ws, row_entries(rs[q], n as nat).len() as int)));
    }
    assert(string_views(lines@) =~= table_spec(hs, rs));
    lines
}

proof fn lemma_width_ge_header(headers: Seq<Seq<char>>, rows: Seq<Seq<Cell>>, i: int, r: int)
    requires
        0 <= r,
    ensures
        column_width(headers, rows, i, r) >= headers[i].len(),
    decreases r,
{
    if r > 0 {
        lemma_width_ge_header(headers, rows, i, r - 1);
    }
}

proof fn lemma_width_ge_cell(headers: Seq<Seq<char>>, rows: Seq<Seq<Cell>>, i: int, q: int, r: int)
    requires
        0 <= q < r,
        i < rows[q].len(),
    ensures
        column_width(headers, rows, i, r) >= rows[q][i].visible@.len(),
    decreases r,
{
    if r > q + 1 {
        lemma_width_ge_cell(headers, rows, i, q, r - 1);
    }
}

} // verus!
