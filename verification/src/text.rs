//! Character-level text utilities shared by the whole crate.
//!
//! Strings are modelled by their view, a `Seq<char>`; every helper here is
//! specified over that view.
use vstd::prelude::*;
use vstd::string::StrSliceExecFns;

verus! {

/// `String::push` appends one character (std documentation).
pub assume_specification[ std::string::String::push ](s: &mut std::string::String, ch: char)
    ensures
        final(s)@ == old(s)@.push(ch),
;

/// The characters of `s`, in order.
pub fn chars_of(s: &str) -> (v: Vec<char>)
    ensures
        v@ == s@,
{
    let n = s.unicode_len();
    let mut v: Vec<char> = Vec::new();
    let mut i: usize = 0;
    while i < n
        invariant
            n == s@.len(),
            i <= n,
            v@ == s@.subrange(0, i as int),
        decreases n - i,
    {
        v.push(s.get_char(i));
        i = i + 1;
    }
    v
}

/// Appends the characters `v` to `s`.
pub fn push_chars(s: &mut String, v: &Vec<char>)
    ensures
        final(s)@ == old(s)@ + v@,
{
    let mut i: usize = 0;
    while i < v.len()
        invariant
            i <= v@.len(),
            s@ == old(s)@ + v@.subrange(0, i as int),
        decreases v@.len() - i,
    {
        s.push(v[i]);
        i = i + 1;
        assert(v@.subrange(0, i as int) == v@.subrange(0, i - 1 as int).push(v@[i - 1]));
    }
    assert(v@.subrange(0, v@.len() as int) == v@);
}

/// A `String` holding exactly the characters `v`.
pub fn string_of(v: &Vec<char>) -> (s: String)
    ensures
        s@ == v@,
{
    let mut s = String::new();
    push_chars(&mut s, v);
    s
}

} // verus!

verus! {

// ---------------------------------------------------------------------------
// Decimal rendering of integers
// ---------------------------------------------------------------------------

/// The ASCII digit for `d` (meaningful for `d < 10`).
pub open spec fn digit(d: nat) -> char {
    if d == 0 { '0' }
    else if d == 1 { '1' }
    else if d == 2 { '2' }
    else if d == 3 { '3' }
    else if d == 4 { '4' }
    else if d == 5 { '5' }
    else if d == 6 { '6' }
    else if d == 7 { '7' }
    else if d == 8 { '8' }
    else { '9' }
}

/// The decimal rendering of `n`, without sign or leading zeros.
pub open spec fn dec(n: nat) -> Seq<char>
    decreases n,
{
    if n < 10 {
        seq![digit(n)]
    } else {
        dec(n / 10).push(digit(n % 10))
    }
}

/// `10^d`.
pub open spec fn pow10(d: nat) -> nat
    decreases d,
{
    if d == 0 { 1 } else { 10 * pow10((d - 1) as nat) }
}

proof fn lemma_dec_len_below(n: nat, d: nat)
    requires
        d >= 1,
        n < pow10(d),
    ensures
        dec(n).len() <= d,
    decreases d,
{
    if n >= 10 {
        assert(d >= 2) by {
            if d == 1 {
                assert(pow10(1) == 10 * pow10(0));
            }
        }
        let e = (d - 1) as nat;
        assert(pow10(d) == 10 * pow10(e));
        assert(n / 10 < pow10(e)) by (nonlinear_arith)
            requires
                n < 10 * pow10(e),
        ;
        lemma_dec_len_below(n / 10, e);
    }
}

/// The decimal rendering of a `usize` has at most 20 digits.
pub proof fn lemma_dec_len_usize(n: usize)
    ensures
        dec(n as nat).len() <= 20,
{
    assert(pow10(20) == 100000000000000000000nat) by {
        reveal_with_fuel(pow10, 21);
    }
    lemma_dec_len_below(n as nat, 20);
}

fn digit_char(d: usize) -> (c: char)
    requires
        d < 10,
    ensures
        c == digit(d as nat),
{
    if d == 0 { '0' }
    else if d == 1 { '1' }
    else if d == 2 { '2' }
    else if d == 3 { '3' }
    else if d == 4 { '4' }
    else if d == 5 { '5' }
    else if d == 6 { '6' }
    else if d == 7 { '7' }
    else if d == 8 { '8' }
    else { '9' }
}

/// Appends the decimal rendering of `n` to `s`.
pub fn push_dec(s: &mut String, n: usize)
    ensures
        final(s)@ == old(s)@ + dec(n as nat),
    decreases n,
{
    if n >= 10 {
        push_dec(s, n / 10);
    }
    s.push(digit_char(n % 10));
    assert(old(s)@ + dec(n as nat) == (if n >= 10 { old(s)@ + dec((n / 10) as nat) } else { old(s)@ }).push(digit((n % 10) as nat)));
}

/// The decimal rendering of `n` as a new string.
pub fn fmt_usize(n: usize) -> (s: String)
    ensures
        s@ == dec(n as nat),
{
    let mut s = String::new();
    push_dec(&mut s, n);
    s
}

/// Appends the decimal rendering of the 64-bit `n` to `s`.
pub fn push_dec_u64(s: &mut String, n: u64)
    ensures
        final(s)@ == old(s)@ + dec(n as nat),
    decreases n,
{
    if n >= 10 {
        push_dec_u64(s, n / 10);
    }
    s.push(digit_char((n % 10) as usize));
    assert(old(s)@ + dec(n as nat) == (if n >= 10 { old(s)@ + dec((n / 10) as nat) } else { old(s)@ }).push(digit((n % 10) as nat)));
}

/// Appends `t` to `s` (the view is concatenated).
pub fn push_str(s: &mut String, t: &str)
    ensures
        final(s)@ == old(s)@ + t@,
{
    s.append(t);
}

// ---------------------------------------------------------------------------
// Searching
// ---------------------------------------------------------------------------

/// `p` occurs in `s` starting at index `i`.
pub open spec fn matches_at(s: Seq<char>, p: Seq<char>, i: int) -> bool {
    0 <= i && i + p.len() <= s.len() && s.subrange(i, i + p.len()) == p
}

/// `s` begins with `p`.
pub open spec fn starts_with(s: Seq<char>, p: Seq<char>) -> bool {
    matches_at(s, p, 0)
}

/// `s` ends with `p`.
pub open spec fn ends_with(s: Seq<char>, p: Seq<char>) -> bool {
    p.len() <= s.len() && matches_at(s, p, s.len() - p.len())
}

/// The first index `>= i` at which `p` occurs in `s`, or `-1` when there is none.
pub open spec fn find_from(s: Seq<char>, p: Seq<char>, i: int) -> int
    decreases s.len() + 1 - i,
{
    if i < 0 || i + p.len() > s.len() {
        -1
    } else if matches_at(s, p, i) {
        i
    } else {
        find_from(s, p, i + 1)
    }
}

/// The first index at which `p` occurs in `s`, or `-1`.
pub open spec fn find(s: Seq<char>, p: Seq<char>) -> int {
    find_from(s, p, 0)
}

/// `p` occurs somewhere in `s`.
pub open spec fn contains(s: Seq<char>, p: Seq<char>) -> bool {
    find(s, p) >= 0
}

/// `find_from` finds a real occurrence, and nothing earlier from `i` on.
pub proof fn lemma_find_from(s: Seq<char>, p: Seq<char>, i: int)
    requires
        0 <= i,
    ensures
        find_from(s, p, i) == -1 || (i <= find_from(s, p, i) && matches_at(s, p, find_from(s, p, i))),
        find_from(s, p, i) == -1 ==> forall|j: int| i <= j ==> !matches_at(s, p, j),
        forall|j: int| i <= j < find_from(s, p, i) ==> !matches_at(s, p, j),
    decreases s.len() + 1 - i,
{
    if i + p.len() > s.len() {
    } else if matches_at(s, p, i) {
    } else {
        lemma_find_from(s, p, i + 1);
    }
}

/// `p` occurs in `s` at index `k` exactly when `contains` holds and the
/// first occurrence is at most `k`.
pub proof fn lemma_contains_iff(s: Seq<char>, p: Seq<char>)
    ensures
        contains(s, p) <==> exists|k: int| matches_at(s, p, k),
{
    lemma_find_from(s, p, 0);
    if contains(s, p) {
        assert(matches_at(s, p, find(s, p)));
    }
}

/// Do the characters `p` occur at position `i` of `v`?
pub fn matches_at_exec(v: &Vec<char>, p: &Vec<char>, i: usize) -> (b: bool)
    ensures
        b == matches_at(v@, p@, i as int),
{
    if i > v.len() || p.len() > v.len() - i {
        return false;
    }
    let vl = v.len();
    let mut k: usize = 0;
    while k < p.len()
        invariant
            vl == v@.len(),
            i + p@.len() <= v@.len(),
            k <= p@.len(),
            forall|j: int| 0 <= j < k ==> v@[i + j] == p@[j],
        decreases p@.len() - k,
    {
        assert(i + k < vl);
        if v[i + k] != p[k] {
            assert(v@.subrange(i as int, i + p@.len())[k as int] != p@[k as int]);
            return false;
        }
        k = k + 1;
    }
    assert(v@.subrange(i as int, i + p@.len()) =~= p@);
    true
}

/// The first index `>= start` at which `p` occurs in `v`.
pub fn find_from_exec(v: &Vec<char>, p: &Vec<char>, start: usize) -> (r: Option<usize>)
    ensures
        match r {
            Some(k) => find_from(v@, p@, start as int) == k as int,
            None => find_from(v@, p@, start as int) == -1,
        },
{
    if start > v.len() || p.len() > v.len() - start {
        return None;
    }
    let mut i: usize = start;
    while p.len() <= v.len() - i
        invariant
            start <= i,
            i <= v@.len(),
            find_from(v@, p@, start as int) == find_from(v@, p@, i as int),
        decreases v@.len() - i,
    {
        if matches_at_exec(v, p, i) {
            return Some(i);
        }
        proof {
            if p@.len() == 0 {
                assert(v@.subrange(i as int, i as int) =~= p@);
            }
        }
        i = i + 1;
    }
    None
}

/// Does `v` begin with `p`?
pub fn starts_with_exec(v: &Vec<char>, p: &Vec<char>) -> (b: bool)
    ensures
        b == starts_with(v@, p@),
{
    matches_at_exec(v, p, 0)
}

/// Does `v` end with `p`?
pub fn ends_with_exec(v: &Vec<char>, p: &Vec<char>) -> (b: bool)
    ensures
        b == ends_with(v@, p@),
{
    if p.len() > v.len() {
        false
    } else {
        matches_at_exec(v, p, v.len() - p.len())
    }
}

/// Does `p` occur anywhere in `v`?
pub fn contains_exec(v: &Vec<char>, p: &Vec<char>) -> (b: bool)
    ensures
        b == contains(v@, p@),
{
    find_from_exec(v, p, 0).is_some()
}

/// Does the string `s` begin with `p`?
pub fn str_starts_with(s: &str, p: &str) -> (b: bool)
    ensures
        b == starts_with(s@, p@),
{
    starts_with_exec(&chars_of(s), &chars_of(p))
}

/// Does the string `s` end with `p`?
pub fn str_ends_with(s: &str, p: &str) -> (b: bool)
    ensures
        b == ends_with(s@, p@),
{
    ends_with_exec(&chars_of(s), &chars_of(p))
}

/// Does `p` occur in the string `s`?
pub fn str_contains(s: &str, p: &str) -> (b: bool)
    ensures
        b == contains(s@, p@),
{
    contains_exec(&chars_of(s), &chars_of(p))
}

/// Are the two strings equal?
pub fn str_eq(a: &str, b: &str) -> (r: bool)
    ensures
        r == (a@ == b@),
{
    let va = chars_of(a);
    let vb = chars_of(b);
    if va.len() != vb.len() {
        return false;
    }
    let mut i: usize = 0;
    while i < va.len()
        invariant
            va@.len() == vb@.len(),
            va@ == a@,
            vb@ == b@,
            i <= va@.len(),
            forall|j: int| 0 <= j < i ==> va@[j] == vb@[j],
        decreases va@.len() - i,
    {
        if va[i] != vb[i] {
            assert(a@[i as int] != b@[i as int]);
            return false;
        }
        i = i + 1;
    }
    assert(va@ =~= vb@);
    true
}

// ---------------------------------------------------------------------------
// Replacing and splitting
// ---------------------------------------------------------------------------

/// `s[i..]` with every non-overlapping occurrence of `from` (scanning left to
/// right) replaced by `to`.
pub open spec fn replace_from(s: Seq<char>, from: Seq<char>, to: Seq<char>, i: int) -> Seq<char>
    decreases s.len() + 1 - i,
{
    if i < 0 || i > s.len() || from.len() == 0 {
        s.subrange(if 0 <= i <= s.len() { i } else { s.len() as int }, s.len() as int)
    } else {
        let k = find_from(s, from, i);
        if k < i {
            s.subrange(i, s.len() as int)
        } else {
            proof {
                lemma_find_from(s, from, i);
            }
            s.subrange(i, k) + to + replace_from(s, from, to, k + from.len())
        }
    }
}

/// `s` with every occurrence of `from` replaced by `to` (as `str::replace`).
pub open spec fn replace(s: Seq<char>, from: Seq<char>, to: Seq<char>) -> Seq<char> {
    replace_from(s, from, to, 0)
}

/// Appends `v[a..b]` to `out`.
pub fn push_range(out: &mut Vec<char>, v: &Vec<char>, a: usize, b: usize)
    requires
        a <= b <= v@.len(),
    ensures
        final(out)@ == old(out)@ + v@.subrange(a as int, b as int),
{
    let mut j = a;
    while j < b
        invariant
            a <= j <= b <= v@.len(),
            out@ == old(out)@ + v@.subrange(a as int, j as int),
        decreases b - j,
    {
        out.push(v[j]);
        j = j + 1;
        assert(v@.subrange(a as int, j as int) == v@.subrange(a as int, j - 1 as int).push(v@[j - 1]));
    }
}

/// Appends all of `w` to `out`.
pub fn push_all(out: &mut Vec<char>, w: &Vec<char>)
    ensures
        final(out)@ == old(out)@ + w@,
{
    push_range(out, w, 0, w.len());
    assert(w@.subrange(0, w@.len() as int) == w@);
}

/// Replaces every occurrence of `from` in `v` by `to`.
pub fn replace_exec(v: &Vec<char>, from: &Vec<char>, to: &Vec<char>) -> (r: Vec<char>)
    requires
        from@.len() > 0,
    ensures
        r@ == replace(v@, from@, to@),
{
    let mut out: Vec<char> = Vec::new();
    let mut pos: usize = 0;
    let vl = v.len();
    loop
        invariant
            vl == v@.len(),
            from@.len() > 0,
            pos <= v@.len(),
            out@ + replace_from(v@, from@, to@, pos as int) == replace(v@, from@, to@),
        decreases v@.len() - pos,
    {
        proof { lemma_find_from(v@, from@, pos as int); }
        match find_from_exec(v, from, pos) {
            None => {
                push_range(&mut out, v, pos, v.len());
                return out;
            },
            Some(k) => {
                assert(matches_at(v@, from@, k as int));
                assert(k + from@.len() <= vl);
                push_range(&mut out, v, pos, k);
                push_all(&mut out, to);
                pos = k + from.len();
            },
        }
    }
}

/// Replaces every occurrence of `from` in the string `s` by `to`.
pub fn str_replace(s: &str, from: &str, to: &str) -> (r: String)
    requires
        from@.len() > 0,
    ensures
        r@ == replace(s@, from@, to@),
{
    string_of(&replace_exec(&chars_of(s), &chars_of(from), &chars_of(to)))
}

// ---------------------------------------------------------------------------
// Whitespace, trimming and word splitting
// ---------------------------------------------------------------------------

/// Unicode `White_Space`, as `char::is_whitespace` decides it.
pub open spec fn is_ws(c: char) -> bool {
    ('\t' <= c && c <= '\r') || c == ' ' || c == '\u{85}' || c == '\u{a0}' || c == '\u{1680}'
        || ('\u{2000}' <= c && c <= '\u{200a}') || c == '\u{2028}' || c == '\u{2029}'
        || c == '\u{202f}' || c == '\u{205f}' || c == '\u{3000}'
}

/// Is `c` whitespace?
pub fn is_ws_exec(c: char) -> (b: bool)
    ensures
        b == is_ws(c),
{
    ('\t' <= c && c <= '\r') || c == ' ' || c == '\u{85}' || c == '\u{a0}' || c == '\u{1680}'
        || ('\u{2000}' <= c && c <= '\u{200a}') || c == '\u{2028}' || c == '\u{2029}'
        || c == '\u{202f}' || c == '\u{205f}' || c == '\u{3000}'
}

/// The first index `>= i` whose character is not whitespace (or `s.len()`).
pub open spec fn skip_ws(s: Seq<char>, i: int) -> int
    decreases s.len() - i,
{
    if 0 <= i < s.len() && is_ws(s[i]) {
        skip_ws(s, i + 1)
    } else {
        i
    }
}

/// The end index after dropping trailing whitespace from `s[..j]`.
pub open spec fn skip_ws_back(s: Seq<char>, j: int) -> int
    decreases j,
{
    if 0 < j <= s.len() && is_ws(s[j - 1]) {
        skip_ws_back(s, j - 1)
    } else {
        j
    }
}

/// `s` without leading whitespace (`str::trim_start`).
pub open spec fn trim_start(s: Seq<char>) -> Seq<char> {
    s.subrange(skip_ws(s, 0), s.len() as int)
}

/// `s` without trailing whitespace (`str::trim_end`).
pub open spec fn trim_end(s: Seq<char>) -> Seq<char> {
    s.subrange(0, skip_ws_back(s, s.len() as int))
}

/// `s` without leading and trailing whitespace (`str::trim`).
pub open spec fn trim(s: Seq<char>) -> Seq<char> {
    trim_end(trim_start(s))
}

proof fn lemma_skip_ws_bounds(s: Seq<char>, i: int)
    requires
        0 <= i <= s.len(),
    ensures
        i <= skip_ws(s, i) <= s.len(),
    decreases s.len() - i,
{
    if i < s.len() && is_ws(s[i]) {
        lemma_skip_ws_bounds(s, i + 1);
    }
}

proof fn lemma_skip_ws_back_bounds(s: Seq<char>, j: int)
    requires
        0 <= j <= s.len(),
    ensures
        0 <= skip_ws_back(s, j) <= j,
    decreases j,
{
    if 0 < j && is_ws(s[j - 1]) {
        lemma_skip_ws_back_bounds(s, j - 1);
    }
}

/// `v` without leading whitespace.
pub fn trim_start_exec(v: &Vec<char>) -> (r: Vec<char>)
    ensures
        r@ == trim_start(v@),
{
    let mut i: usize = 0;
    while i < v.len() && is_ws_exec(v[i])
        invariant
            i <= v@.len(),
            skip_ws(v@, i as int) == skip_ws(v@, 0),
        decreases v@.len() - i,
    {
        i = i + 1;
    }
    let mut r: Vec<char> = Vec::new();
    push_range(&mut r, v, i, v.len());
    r
}

/// `v` without trailing whitespace.
pub fn trim_end_exec(v: &Vec<char>) -> (r: Vec<char>)
    ensures
        r@ == trim_end(v@),
{
    let mut j: usize = v.len();
    while j > 0 && is_ws_exec(v[j - 1])
        invariant
            j <= v@.len(),
            skip_ws_back(v@, j as int) == skip_ws_back(v@, v@.len() as int),
        decreases j,
    {
        j = j - 1;
    }
    let mut r: Vec<char> = Vec::new();
    push_range(&mut r, v, 0, j);
    r
}

/// `v` without leading and trailing whitespace.
pub fn trim_exec(v: &Vec<char>) -> (r: Vec<char>)
    ensures
        r@ == trim(v@),
{
    trim_end_exec(&trim_start_exec(v))
}

/// The index after the run of characters of `cs` that starts at `i`.
pub open spec fn skip_set(s: Seq<char>, cs: Seq<char>, i: int) -> int
    decreases s.len() - i,
{
    if 0 <= i < s.len() && cs.contains(s[i]) {
        skip_set(s, cs, i + 1)
    } else {
        i
    }
}

/// The start of the run of characters of `cs` that ends at `j`.
pub open spec fn skip_set_back(s: Seq<char>, cs: Seq<char>, j: int) -> int
    decreases j,
{
    if 0 < j <= s.len() && cs.contains(s[j - 1]) {
        skip_set_back(s, cs, j - 1)
    } else {
        j
    }
}

/// `s` without its leading characters that belong to `cs`
/// (`str::trim_start_matches` with a character or a set of characters).
pub open spec fn trim_start_set(s: Seq<char>, cs: Seq<char>) -> Seq<char> {
    s.subrange(skip_set(s, cs, 0), s.len() as int)
}

/// `s` without its trailing characters that belong to `cs`
/// (`str::trim_end_matches` with a character or a set of characters).
pub open spec fn trim_end_set(s: Seq<char>, cs: Seq<char>) -> Seq<char> {
    s.subrange(0, skip_set_back(s, cs, s.len() as int))
}

fn in_set(cs: &Vec<char>, c: char) -> (b: bool)
    ensures
        b == cs@.contains(c),
{
    let mut i: usize = 0;
    while i < cs.len()
        invariant
            i <= cs@.len(),
            forall|j: int| 0 <= j < i ==> cs@[j] != c,
        decreases cs@.len() - i,
    {
        if cs[i] == c {
            return true;
        }
        i = i + 1;
    }
    false
}

/// `v` without leading characters of `cs`.
pub fn trim_start_set_exec(v: &Vec<char>, cs: &Vec<char>) -> (r: Vec<char>)
    ensures
        r@ == trim_start_set(v@, cs@),
{
    let mut i: usize = 0;
    while i < v.len() && in_set(cs, v[i])
        invariant
            i <= v@.len(),
            skip_set(v@, cs@, i as int) == skip_set(v@, cs@, 0),
        decreases v@.len() - i,
    {
        i = i + 1;
    }
    let mut r: Vec<char> = Vec::new();
    push_range(&mut r, v, i, v.len());
    r
}

/// `v` without trailing characters of `cs`.
pub fn trim_end_set_exec(v: &Vec<char>, cs: &Vec<char>) -> (r: Vec<char>)
    ensures
        r@ == trim_end_set(v@, cs@),
{
    let mut j: usize = v.len();
    while j > 0 && in_set(cs, v[j - 1])
        invariant
            j <= v@.len(),
            skip_set_back(v@, cs@, j as int) == skip_set_back(v@, cs@, v@.len() as int),
        decreases j,
    {
        j = j - 1;
    }
    let mut r: Vec<char> = Vec::new();
    push_range(&mut r, v, 0, j);
    r
}

/// The words of `s[i..]` (`str::split_whitespace`), given that `cur` holds
/// the characters of the word being read.
pub open spec fn words_acc(s: Seq<char>, i: int, cur: Seq<char>) -> Seq<Seq<char>>
    decreases s.len() - i,
{
    if i < 0 || i >= s.len() {
        if cur.len() > 0 { seq![cur] } else { Seq::empty() }
    } else if is_ws(s[i]) {
        (if cur.len() > 0 { seq![cur] } else { Seq::<Seq<char>>::empty() }) + words_acc(s, i + 1, Seq::empty())
    } else {
        words_acc(s, i + 1, cur.push(s[i]))
    }
}

/// The whitespace-separated words of `s`.
pub open spec fn words(s: Seq<char>) -> Seq<Seq<char>> {
    words_acc(s, 0, Seq::empty())
}

/// The character sequences held by a vector of character vectors.
pub open spec fn views(v: Seq<Vec<char>>) -> Seq<Seq<char>> {
    v.map_values(|w: Vec<char>| w@)
}

/// The whitespace-separated words of `v`.
pub fn words_exec(v: &Vec<char>) -> (r: Vec<Vec<char>>)
    ensures
        views(r@) == words(v@),
{
    let mut out: Vec<Vec<char>> = Vec::new();
    let mut cur: Vec<char> = Vec::new();
    let mut i: usize = 0;
    while i < v.len()
        invariant
            i <= v@.len(),
            views(out@) + words_acc(v@, i as int, cur@) == words(v@),
        decreases v@.len() - i,
    {
        let c = v[i];
        if is_ws_exec(c) {
            if cur.len() > 0 {
                let ghost before = views(out@);
                let w = cur;
                out.push(w);
                assert(views(out@) =~= before.push(w@));
                cur = Vec::new();
                assert(views(out@) + words_acc(v@, i + 1, cur@) =~= before + (seq![w@] + words_acc(v@, i + 1, Seq::empty())));
            } else {
                assert(cur@ =~= Seq::<char>::empty());
                assert(words_acc(v@, i as int, cur@) =~= Seq::<Seq<char>>::empty() + words_acc(v@, i + 1, Seq::empty()));
            }
        } else {
            cur.push(c);
        }
        i = i + 1;
    }
    if cur.len() > 0 {
        let ghost before = views(out@);
        let w = cur;
        out.push(w);
        assert(views(out@) =~= before.push(w@));
    } else {
        assert(views(out@) + words_acc(v@, i as int, cur@) =~= views(out@));
    }
    out
}

// ---------------------------------------------------------------------------
// Splitting on a separator
// ---------------------------------------------------------------------------

/// The pieces of `s[i..]` between the occurrences of `sep` (`str::split`).
pub open spec fn split_from(s: Seq<char>, sep: Seq<char>, i: int) -> Seq<Seq<char>>
    decreases s.len() + 1 - i,
{
    if i < 0 || i > s.len() || sep.len() == 0 {
        seq![s.subrange(if 0 <= i <= s.len() { i } else { s.len() as int }, s.len() as int)]
    } else {
        let k = find_from(s, sep, i);
        if k < i {
            seq![s.subrange(i, s.len() as int)]
        } else {
            proof {
                lemma_find_from(s, sep, i);
            }
            seq![s.subrange(i, k)] + split_from(s, sep, k + sep.len())
        }
    }
}

/// The pieces of `s` between the occurrences of `sep`.
pub open spec fn split(s: Seq<char>, sep: Seq<char>) -> Seq<Seq<char>> {
    split_from(s, sep, 0)
}

/// Splits `v` on every occurrence of `sep`.
pub fn split_exec(v: &Vec<char>, sep: &Vec<char>) -> (r: Vec<Vec<char>>)
    requires
        sep@.len() > 0,
    ensures
        views(r@) == split(v@, sep@),
{
    let mut out: Vec<Vec<char>> = Vec::new();
    let mut pos: usize = 0;
    let vl = v.len();
    loop
        invariant
            vl == v@.len(),
            sep@.len() > 0,
            pos <= v@.len(),
            views(out@) + split_from(v@, sep@, pos as int) == split(v@, sep@),
        decreases v@.len() - pos,
    {
        proof { lemma_find_from(v@, sep@, pos as int); }
        let ghost before = views(out@);
        match find_from_exec(v, sep, pos) {
            None => {
                let mut piece: Vec<char> = Vec::new();
                push_range(&mut piece, v, pos, v.len());
                out.push(piece);
                assert(views(out@) =~= before + split_from(v@, sep@, pos as int));
                return out;
            },
            Some(k) => {
                assert(matches_at(v@, sep@, k as int));
                assert(k + sep@.len() <= vl);
                let mut piece: Vec<char> = Vec::new();
                push_range(&mut piece, v, pos, k);
                out.push(piece);
                assert(views(out@) =~= before.push(v@.subrange(pos as int, k as int)));
                assert(before + split_from(v@, sep@, pos as int) =~= views(out@) + split_from(v@, sep@, k + sep@.len()));
                pos = k + sep.len();
            },
        }
    }
}

// ---------------------------------------------------------------------------
// ASCII classification and case folding
// ---------------------------------------------------------------------------

/// `c` lowered if it is an ASCII capital letter (`char::to_ascii_lowercase`).
pub open spec fn lower_char(c: char) -> char {
    if 'A' <= c && c <= 'Z' { ((c as u32) + 32) as char } else { c }
}

/// `s` with ASCII capitals lowered (`str::to_ascii_lowercase`).
pub open spec fn lower(s: Seq<char>) -> Seq<char> {
    s.map_values(|c: char| lower_char(c))
}

/// Lowers one ASCII capital letter.
pub fn lower_char_exec(c: char) -> (r: char)
    ensures
        r == lower_char(c),
{
    if 'A' <= c && c <= 'Z' {
        let u: u32 = c as u32;
        let b: u8 = (u + 32) as u8;
        assert(b as u32 == u + 32);
        b as char
    } else {
        c
    }
}

/// `v` with ASCII capitals lowered.
pub fn lower_exec(v: &Vec<char>) -> (r: Vec<char>)
    ensures
        r@ == lower(v@),
{
    let mut r: Vec<char> = Vec::new();
    let mut i: usize = 0;
    while i < v.len()
        invariant
            i <= v@.len(),
            r@ == lower(v@.subrange(0, i as int)),
        decreases v@.len() - i,
    {
        r.push(lower_char_exec(v[i]));
        i = i + 1;
        assert(lower(v@.subrange(0, i as int)) =~= lower(v@.subrange(0, i - 1 as int)).push(lower_char(v@[i - 1])));
    }
    assert(v@.subrange(0, v@.len() as int) =~= v@);
    r
}

/// Is `c` an ASCII hexadecimal digit?
pub open spec fn is_hex(c: char) -> bool {
    ('0' <= c && c <= '9') || ('a' <= c && c <= 'f') || ('A' <= c && c <= 'F')
}

/// Is `c` an ASCII hexadecimal digit?
pub fn is_hex_exec(c: char) -> (b: bool)
    ensures
        b == is_hex(c),
{
    ('0' <= c && c <= '9') || ('a' <= c && c <= 'f') || ('A' <= c && c <= 'F')
}

// ---------------------------------------------------------------------------
// Parsing integers (`str::parse` for `u32` and `i64`)
// ---------------------------------------------------------------------------

/// Is `c` an ASCII decimal digit?
pub open spec fn is_digit(c: char) -> bool {
    '0' <= c && c <= '9'
}

/// The value of the decimal digit `c`.
pub open spec fn digit_val(c: char) -> nat {
    ((c as u32) - ('0' as u32)) as nat
}

/// Every character of `s` is a decimal digit.
pub open spec fn all_digits(s: Seq<char>) -> bool {
    forall|i: int| 0 <= i < s.len() ==> is_digit(#[trigger] s[i])
}

/// The number written by the decimal digits `s`.
pub open spec fn digits_value(s: Seq<char>) -> nat
    decreases s.len(),
{
    if s.len() == 0 {
        0
    } else {
        digits_value(s.drop_last()) * 10 + digit_val(s.last())
    }
}

/// A number in decimal, with an optional leading `+`, as `str::parse` reads
/// an unsigned integer; `None` when the text is not such a number.
pub open spec fn parse_unsigned(s: Seq<char>) -> Option<nat> {
    let b = if s.len() > 0 && s[0] == '+' { s.skip(1) } else { s };
    if b.len() > 0 && all_digits(b) { Some(digits_value(b)) } else { None }
}

/// `str::parse::<u32>`.
pub open spec fn parse_u32(s: Seq<char>) -> Option<u32> {
    match parse_unsigned(s) {
        Some(v) => if v <= u32::MAX { Some(v as u32) } else { None },
        None => None,
    }
}

/// `str::parse::<i64>`: an optional sign, then decimal digits.
pub open spec fn parse_i64(s: Seq<char>) -> Option<i64> {
    if s.len() > 0 && s[0] == '-' {
        let b = s.skip(1);
        if b.len() > 0 && all_digits(b) && digits_value(b) <= 0x8000_0000_0000_0000 {
            Some((0 - digits_value(b)) as i64)
        } else {
            None
        }
    } else {
        match parse_unsigned(s) {
            Some(v) => if v <= i64::MAX { Some(v as i64) } else { None },
            None => None,
        }
    }
}

proof fn lemma_digits_value_grows(s: Seq<char>, k: int)
    requires
        0 <= k <= s.len(),
        all_digits(s),
    ensures
        digits_value(s.subrange(0, k)) <= digits_value(s),
    decreases s.len(),
{
    if k < s.len() {
        assert(s.drop_last() =~= s.subrange(0, s.len() - 1));
        assert(s.subrange(0, k) =~= s.drop_last().subrange(0, k));
        lemma_digits_value_grows(s.drop_last(), k);
    } else {
        assert(s.subrange(0, k) =~= s);
    }
}

/// The value of the digits `v[start..]` when they are all digits, at least
/// one, and the value is at most `limit`.
fn digits_upto(v: &Vec<char>, start: usize, limit: u64) -> (r: Option<u64>)
    requires
        start <= v@.len(),
    ensures
        ({
            let b = v@.subrange(start as int, v@.len() as int);
            match r {
                Some(x) => b.len() > 0 && all_digits(b) && digits_value(b) == x && x <= limit,
                None => !(b.len() > 0 && all_digits(b) && digits_value(b) <= limit),
            }
        }),
{
    let ghost b = v@.subrange(start as int, v@.len() as int);
    if start == v.len() {
        return None;
    }
    let mut acc: u64 = 0;
    let mut i: usize = start;
    while i < v.len()
        invariant
            start <= i <= v@.len(),
            b == v@.subrange(start as int, v@.len() as int),
            all_digits(v@.subrange(start as int, i as int)),
            acc == digits_value(v@.subrange(start as int, i as int)),
            acc <= limit,
        decreases v@.len() - i,
    {
        let c = v[i];
        if !('0' <= c && c <= '9') {
            assert(b[i - start] == c);
            return None;
        }
        let d: u64 = ((c as u32) - ('0' as u32)) as u64;
        assert(v@.subrange(start as int, i + 1) =~= v@.subrange(start as int, i as int).push(c));
        assert(v@.subrange(start as int, i + 1).drop_last() =~= v@.subrange(start as int, i as int));
        if d > limit || acc > (limit - d) / 10 {
            proof {
                if d <= limit {
                    assert(acc * 10 + d > limit) by (nonlinear_arith)
                        requires
                            acc > (limit - d) / 10,
                            d <= limit;
                }
                if all_digits(b) {
                    assert(v@.subrange(start as int, i + 1) =~= b.subrange(0, i + 1 - start));
                    lemma_digits_value_grows(b, i + 1 - start);
                }
            }
            return None;
        }
        acc = acc * 10 + d;
        i = i + 1;
    }
    assert(v@.subrange(start as int, i as int) =~= b);
    Some(acc)
}

/// `str::parse::<u32>` on the characters `v`.
pub fn parse_u32_exec(v: &Vec<char>) -> (r: Option<u32>)
    ensures
        r == parse_u32(v@),
{
    let start: usize = if v.len() > 0 && v[0] == '+' { 1 } else { 0 };
    assert(v@.subrange(start as int, v@.len() as int) =~= (if v@.len() > 0 && v@[0] == '+' { v@.skip(1) } else { v@ }));
    match digits_upto(v, start, 0xffff_ffff) {
        Some(x) => Some(x as u32),
        None => None,
    }
}

/// `str::parse::<i64>` on the characters `v`.
pub fn parse_i64_exec(v: &Vec<char>) -> (r: Option<i64>)
    ensures
        r == parse_i64(v@),
{
    if v.len() > 0 && v[0] == '-' {
        assert(v@.subrange(1, v@.len() as int) =~= v@.skip(1));
        match digits_upto(v, 1, 0x8000_0000_0000_0000) {
            Some(x) => {
                if x == 0x8000_0000_0000_0000 {
                    Some(i64::MIN)
                } else {
                    Some(0 - (x as i64))
                }
            },
            None => None,
        }
    } else {
        let start: usize = if v.len() > 0 && v[0] == '+' { 1 } else { 0 };
        assert(v@.subrange(start as int, v@.len() as int) =~= (if v@.len() > 0 && v@[0] == '+' { v@.skip(1) } else { v@ }));
        match digits_upto(v, start, 0x7fff_ffff_ffff_ffff) {
            Some(x) => Some(x as i64),
            None => None,
        }
    }
}

// ---------------------------------------------------------------------------
// Joining
// ---------------------------------------------------------------------------

/// The character sequences held by a vector of strings.
pub open spec fn string_views(v: Seq<String>) -> Seq<Seq<char>> {
    v.map_values(|s: String| s@)
}

/// The parts separated by `sep` (`slice::join`).
pub open spec fn join(parts: Seq<Seq<char>>, sep: Seq<char>) -> Seq<char>
    decreases parts.len(),
{
    if parts.len() == 0 {
        Seq::empty()
    } else if parts.len() == 1 {
        parts[0]
    } else {
        join(parts.drop_last(), sep) + sep + parts.last()
    }
}

/// Joins the strings with `sep` between them.
pub fn join_strings(parts: &Vec<String>, sep: &str) -> (r: String)
    ensures
        r@ == join(string_views(parts@), sep@),
{
    let mut r = String::new();
    let mut i: usize = 0;
    while i < parts.len()
        invariant
            i <= parts@.len(),
            r@ == join(string_views(parts@).subrange(0, i as int), sep@),
        decreases parts@.len() - i,
    {
        let ghost prev = string_views(parts@).subrange(0, i as int);
        if i > 0 {
            r.append(sep);
        }
        r.append(parts[i].as_str());
        i = i + 1;
        assert(string_views(parts@).subrange(0, i as int).drop_last() =~= prev);
        if i == 1 {
            assert(prev =~= Seq::<Seq<char>>::empty());
        }
    }
    assert(string_views(parts@).subrange(0, parts@.len() as int) =~= string_views(parts@));
    r
}

/// A vector of strings holding the given character vectors.
pub fn strings_of(v: &Vec<Vec<char>>) -> (r: Vec<String>)
    ensures
        string_views(r@) == views(v@),
{
    let mut r: Vec<String> = Vec::new();
    let mut i: usize = 0;
    while i < v.len()
        invariant
            i <= v@.len(),
            string_views(r@) == views(v@).subrange(0, i as int),
        decreases v@.len() - i,
    {
        let ghost before = string_views(r@);
        let piece = string_of(&v[i]);
        r.push(piece);
        assert(string_views(r@) =~= before.push(v@[i as int]@));
        i = i + 1;
        assert(string_views(r@) =~= views(v@).subrange(0, i as int));
    }
    assert(views(v@).subrange(0, v@.len() as int) =~= views(v@));
    r
}

/// The characters of an optional string.
pub open spec fn opt_view(o: Option<String>) -> Option<Seq<char>> {
    match o {
        Some(s) => Some(s@),
        None => None,
    }
}

/// A copy of a vector of strings.
pub fn clone_strings(v: &Vec<String>) -> (r: Vec<String>)
    ensures
        string_views(r@) == string_views(v@),
{
    let mut r: Vec<String> = Vec::new();
    let mut i: usize = 0;
    while i < v.len()
        invariant
            i <= v@.len(),
            string_views(r@) == string_views(v@).subrange(0, i as int),
        decreases v@.len() - i,
    {
        let ghost before = string_views(r@);
        let c = v[i].clone();
        r.push(c);
        assert(string_views(r@) =~= before.push(v@[i as int]@));
        i = i + 1;
        assert(string_views(r@) =~= string_views(v@).subrange(0, i as int));
    }
    assert(string_views(v@).subrange(0, v@.len() as int) =~= string_views(v@));
    r
}

/// Does the vector of strings hold `s`?
pub fn contains_string(v: &Vec<String>, s: &str) -> (b: bool)
    ensures
        b == string_views(v@).contains(s@),
{
    let mut i: usize = 0;
    while i < v.len()
        invariant
            i <= v@.len(),
            forall|j: int| 0 <= j < i ==> string_views(v@)[j] != s@,
        decreases v@.len() - i,
    {
        if str_eq(v[i].as_str(), s) {
            assert(string_views(v@)[i as int] == s@);
            return true;
        }
        i = i + 1;
    }
    false
}

/// `list` with `s` appended unless it already holds it.
pub open spec fn push_unique(list: Seq<Seq<char>>, s: Seq<char>) -> Seq<Seq<char>> {
    if list.contains(s) { list } else { list.push(s) }
}

// ---------------------------------------------------------------------------
// Ordering
// ---------------------------------------------------------------------------

/// `a` comes before `b` in the order of their characters from index `i` on
/// (a proper prefix comes first): the order of `str` and `String`.
pub open spec fn lt_from(a: Seq<char>, b: Seq<char>, i: int) -> bool
    decreases a.len() - i,
{
    if i < 0 || i > a.len() || i > b.len() {
        false
    } else if i == a.len() {
        i < b.len()
    } else if i == b.len() {
        false
    } else if a[i] != b[i] {
        a[i] < b[i]
    } else {
        lt_from(a, b, i + 1)
    }
}

/// `a` comes before `b`.
pub open spec fn str_lt(a: Seq<char>, b: Seq<char>) -> bool {
    lt_from(a, b, 0)
}

proof fn lemma_lt_from_irrefl(a: Seq<char>, i: int)
    requires
        0 <= i <= a.len(),
    ensures
        !lt_from(a, a, i),
    decreases a.len() - i,
{
    if i < a.len() {
        lemma_lt_from_irrefl(a, i + 1);
    }
}

proof fn lemma_lt_from_trans(a: Seq<char>, b: Seq<char>, c: Seq<char>, i: int)
    requires
        0 <= i,
        lt_from(a, b, i),
        lt_from(b, c, i),
    ensures
        lt_from(a, c, i),
    decreases a.len() - i,
{
    if i < a.len() && i < b.len() && i < c.len() && a[i] == b[i] && b[i] == c[i] {
        lemma_lt_from_trans(a, b, c, i + 1);
    }
}

proof fn lemma_lt_from_total(a: Seq<char>, b: Seq<char>, i: int)
    requires
        0 <= i <= a.len(),
        i <= b.len(),
        a.subrange(i, a.len() as int) != b.subrange(i, b.len() as int),
    ensures
        lt_from(a, b, i) || lt_from(b, a, i),
    decreases a.len() - i,
{
    if i < a.len() && i < b.len() && a[i] == b[i] {
        if a.subrange(i + 1, a.len() as int) == b.subrange(i + 1, b.len() as int) {
            assert(a.subrange(i, a.len() as int) =~= seq![a[i]] + a.subrange(i + 1, a.len() as int));
            assert(b.subrange(i, b.len() as int) =~= seq![b[i]] + b.subrange(i + 1, b.len() as int));
        }
        lemma_lt_from_total(a, b, i + 1);
    } else if i == a.len() && i == b.len() {
        assert(a.subrange(i, a.len() as int) =~= b.subrange(i, b.len() as int));
    }
}

/// The order of strings is a strict total order.
pub proof fn lemma_str_order(a: Seq<char>, b: Seq<char>, c: Seq<char>)
    ensures
        !str_lt(a, a),
        str_lt(a, b) && str_lt(b, c) ==> str_lt(a, c),
        a != b ==> str_lt(a, b) || str_lt(b, a),
        str_lt(a, b) ==> !str_lt(b, a),
{
    lemma_lt_from_irrefl(a, 0);
    if str_lt(a, b) && str_lt(b, c) {
        lemma_lt_from_trans(a, b, c, 0);
    }
    if a != b {
        assert(a.subrange(0, a.len() as int) =~= a);
        assert(b.subrange(0, b.len() as int) =~= b);
        lemma_lt_from_total(a, b, 0);
    }
    if str_lt(a, b) && str_lt(b, a) {
        lemma_lt_from_trans(a, b, a, 0);
    }
}

/// Does `a` come before `b`?
pub fn str_less(a: &str, b: &str) -> (r: bool)
    ensures
        r == str_lt(a@, b@),
{
    let va = chars_of(a);
    let vb = chars_of(b);
    let mut i: usize = 0;
    while i < va.len() && i < vb.len() && va[i] == vb[i]
        invariant
            va@ == a@,
            vb@ == b@,
            i <= va@.len(),
            i <= vb@.len(),
            lt_from(a@, b@, 0) == lt_from(a@, b@, i as int),
        decreases va@.len() - i,
    {
        i = i + 1;
    }
    if i == va.len() {
        i < vb.len()
    } else if i == vb.len() {
        false
    } else {
        va[i] < vb[i]
    }
}

/// The strictly increasing list of the distinct strings of `v`.
pub open spec fn sorted_unique(r: Seq<Seq<char>>) -> bool {
    forall|i: int, j: int| 0 <= i < j < r.len() ==> str_lt(#[trigger] r[i], #[trigger] r[j])
}

/// The strings of `v`, sorted and without repeats.
pub fn sort_dedup(v: &Vec<String>) -> (r: Vec<String>)
    ensures
        sorted_unique(string_views(r@)),
        string_views(r@).to_set() == string_views(v@).to_set(),
        string_views(r@) == sorted_set(string_views(v@)),
{
    let mut r: Vec<String> = Vec::new();
    let mut k: usize = 0;
    while k < v.len()
        invariant
            k <= v@.len(),
            sorted_unique(string_views(r@)),
            string_views(r@).to_set() == string_views(v@).subrange(0, k as int).to_set(),
        decreases v@.len() - k,
    {
        let x = v[k].as_str();
        let ghost rs = string_views(r@);
        assert(sorted_unique(rs));
        let mut p: usize = 0;
        while p < r.len() && str_less(r[p].as_str(), x)
            invariant
                p <= r@.len(),
                rs == string_views(r@),
                forall|i: int| 0 <= i < p ==> str_lt(#[trigger] rs[i], x@),
            decreases r@.len() - p,
        {
            p = p + 1;
        }
        if p < r.len() && str_eq(r[p].as_str(), x) {
            assert(rs[p as int] == x@);
        } else {
            proof {
                assert forall|j: int| p <= j < rs.len() implies str_lt(x@, #[trigger] rs[j]) by {
                    lemma_str_order(rs[p as int], x@, rs[j]);
                    lemma_str_order(x@, rs[p as int], rs[j]);
                    assert(!str_lt(rs[p as int], x@));
                    if j > p {
                        assert(str_lt(rs[p as int], rs[j]));
                    }
                }
            }
            r.insert(p, x.to_owned());
            proof {
                let ns = string_views(r@);
                assert(ns =~= rs.insert(p as int, x@));
                assert forall|i: int, j: int| 0 <= i < j < ns.len() implies str_lt(#[trigger] ns[i], #[trigger] ns[j]) by {
                    if j < p {
                        assert(str_lt(rs[i], rs[j]));
                    } else if i < p && j == p {
                    } else if i < p && j > p {
                        lemma_str_order(rs[i], x@, rs[j - 1]);
                        assert(str_lt(rs[i], rs[j - 1]));
                    } else if i == p {
                    } else {
                        assert(0 <= i - 1 < j - 1 < rs.len());
                        assert(str_lt(rs[i - 1], rs[j - 1]));
                    }
                }
            }
        }
        proof {
            let ns = string_views(r@);
            let pre = string_views(v@).subrange(0, k as int);
            assert(string_views(v@).subrange(0, k + 1) =~= pre.push(x@));
            assert forall|y: Seq<char>| pre.push(x@).contains(y) <==> pre.to_set().insert(x@).contains(y) by {
                if pre.push(x@).contains(y) {
                    let w = choose|w: int| 0 <= w < pre.push(x@).len() && pre.push(x@)[w] == y;
                    if w < pre.len() {
                        assert(pre[w] == y);
                    }
                }
                if pre.contains(y) {
                    let w = choose|w: int| 0 <= w < pre.len() && pre[w] == y;
                    assert(pre.push(x@)[w] == y);
                }
                if y == x@ {
                    assert(pre.push(x@)[pre.len() as int] == y);
                }
            }
            assert(pre.push(x@).to_set() =~= pre.to_set().insert(x@));
            if ns == rs {
                assert(rs.contains(x@));
                assert(rs.to_set().insert(x@) =~= rs.to_set());
            } else {
                assert(ns.to_set() =~= rs.to_set().insert(x@)) by {
                    assert forall|y: Seq<char>| ns.to_set().contains(y) <==> rs.to_set().insert(x@).contains(y) by {
                        if ns.contains(y) {
                            let w = choose|w: int| 0 <= w < ns.len() && ns[w] == y;
                            if w < p {
                                assert(rs[w] == y);
                            } else if w > p {
                                assert(rs[w - 1] == y);
                            }
                        }
                        if rs.contains(y) {
                            let w = choose|w: int| 0 <= w < rs.len() && rs[w] == y;
                            if w < p {
                                assert(ns[w] == y);
                            } else {
                                assert(ns[w + 1] == y);
                            }
                        }
                        if y == x@ {
                            assert(ns[p as int] == y);
                        }
                    }
                }
            }
        }
        k = k + 1;
    }
    assert(string_views(v@).subrange(0, k as int) =~= string_views(v@));
    proof {
        let c = sorted_set(string_views(v@));
        assert(sorted_unique(c) && c.to_set() == string_views(v@).to_set());
        lemma_sorted_unique_eq(c, string_views(r@));
    }
    r
}

proof fn lemma_sorted_rest(a: Seq<Seq<char>>, b: Seq<Seq<char>>)
    requires
        sorted_unique(a),
        sorted_unique(b),
        a.len() > 0,
        b.len() > 0,
        a[0] == b[0],
        a.to_set() == b.to_set(),
    ensures
        a.drop_first().to_set() == b.drop_first().to_set(),
{
    assert forall|y: Seq<char>| a.drop_first().contains(y) implies b.drop_first().contains(y) by {
        let i = choose|i: int| 0 <= i < a.drop_first().len() && a.drop_first()[i] == y;
        assert(a[i + 1] == y);
        assert(a.to_set().contains(y));
        assert(b.contains(y));
        let j = choose|j: int| 0 <= j < b.len() && b[j] == y;
        assert(str_lt(a[0], a[i + 1]));
        lemma_str_order(a[0], y, y);
        assert(j != 0);
        assert(b.drop_first()[j - 1] == y);
    }
    assert forall|y: Seq<char>| b.drop_first().contains(y) implies a.drop_first().contains(y) by {
        let j = choose|j: int| 0 <= j < b.drop_first().len() && b.drop_first()[j] == y;
        assert(b[j + 1] == y);
        assert(b.to_set().contains(y));
        assert(a.contains(y));
        let i = choose|i: int| 0 <= i < a.len() && a[i] == y;
        assert(str_lt(b[0], b[j + 1]));
        lemma_str_order(b[0], y, y);
        assert(i != 0);
        assert(a.drop_first()[i - 1] == y);
    }
    assert(a.drop_first().to_set() =~= b.drop_first().to_set());
}

/// A strictly increasing list of strings is determined by its elements.
pub proof fn lemma_sorted_unique_eq(a: Seq<Seq<char>>, b: Seq<Seq<char>>)
    requires
        sorted_unique(a),
        sorted_unique(b),
        a.to_set() == b.to_set(),
    ensures
        a == b,
    decreases a.len() + b.len(),
{
    if a.len() == 0 {
        if b.len() > 0 {
            assert(b.to_set().contains(b[0]));
            assert(!a.contains(b[0]));
        }
        assert(a =~= b);
    } else if b.len() == 0 {
        assert(a.to_set().contains(a[0]));
        assert(!b.contains(a[0]));
    } else {
        assert(a.to_set().contains(a[0]));
        assert(b.contains(a[0]));
        let j = choose|j: int| 0 <= j < b.len() && b[j] == a[0];
        assert(b.to_set().contains(b[0]));
        assert(a.contains(b[0]));
        let i = choose|i: int| 0 <= i < a.len() && a[i] == b[0];
        lemma_str_order(a[0], b[0], a[0]);
        lemma_str_order(b[0], a[0], b[0]);
        if j > 0 {
            assert(str_lt(b[0], b[j]));
            if i > 0 {
                assert(str_lt(a[0], a[i]));
            }
        }
        assert(a[0] == b[0]);
        lemma_sorted_rest(a, b);
        assert(sorted_unique(a.drop_first())) by {
            assert forall|x: int, y: int| 0 <= x < y < a.drop_first().len() implies str_lt(#[trigger] a.drop_first()[x], #[trigger] a.drop_first()[y]) by {
                assert(str_lt(a[x + 1], a[y + 1]));
            }
        }
        assert(sorted_unique(b.drop_first())) by {
            assert forall|x: int, y: int| 0 <= x < y < b.drop_first().len() implies str_lt(#[trigger] b.drop_first()[x], #[trigger] b.drop_first()[y]) by {
                assert(str_lt(b[x + 1], b[y + 1]));
            }
        }
        lemma_sorted_unique_eq(a.drop_first(), b.drop_first());
        assert(a =~= seq![a[0]] + a.drop_first());
        assert(b =~= seq![b[0]] + b.drop_first());
    }
}

/// The strictly increasing list of the strings of a set given by a list.
pub open spec fn sorted_set(s: Seq<Seq<char>>) -> Seq<Seq<char>> {
    choose|r: Seq<Seq<char>>| sorted_unique(r) && r.to_set() == s.to_set()
}

} // verus!
