//! Small text utilities: decimal rendering and parsing of unsigned integers,
//! character-level trimming and replacement, all specified over `Seq<char>`.

use vstd::prelude::*;

verus! {

/// The ASCII character of a decimal digit `d < 10`.
pub open spec fn digit_char(d: nat) -> char {
    (48 + d) as char
}

/// The shortest decimal rendering of `n` (no sign, no leading zeros).
pub open spec fn decimal_text(n: nat) -> Seq<char>
    decreases n,
{
    if n < 10 {
        seq![digit_char(n)]
    } else {
        decimal_text(n / 10).push(digit_char(n % 10))
    }
}

/// Appends `c` to `s` (std's `String::push`).
#[verifier::external_body]
pub(crate) fn push_char(s: &mut String, c: char)
    ensures
        final(s)@ == old(s)@.push(c),
{
    s.push(c);
}

fn digit(d: u64) -> (c: char)
    requires
        d < 10,
    ensures
        c == digit_char(d as nat),
{
    if d == 0 { '0' }
    else if d == 1 { '1' }
    else if d == 2 { '2' }
    else if d == 3 { '3' }
    else if d == 4 { '4' }
    else if d == 5 { '5' }
    else if d == 6 { '6' }
    else if d == 7 { '7' }
    else if d == 8 { '8' }
    else { '9' }
}

/// Renders `n` in decimal, as `u64::to_string` does.
pub fn u64_to_text(n: u64) -> (s: String)
    ensures
        s@ == decimal_text(n as nat),
    decreases n,
{
    if n < 10 {
        let mut s = String::new();
        push_char(&mut s, digit(n));
        s
    } else {
        let mut s = u64_to_text(n / 10);
        push_char(&mut s, digit(n % 10));
        s
    }
}

} // verus!
verus! {

/// The characters of `s`, in order.
pub fn chars_of(s: &str) -> (v: Vec<char>)
    ensures
        v@ == s@,
{
    broadcast use vstd::string::group_string_axioms;
    let mut v: Vec<char> = Vec::new();
    for c in it: s.chars()
        invariant
            v@ == it.seq().take(it.index() as int),
            it.seq() == s@,
    {
        v.push(c);
    }
    v
}

} // verus!
verus! {

/// The string made of `v[from..to]`.
pub fn string_of_range(v: &Vec<char>, from: usize, to: usize) -> (s: String)
    requires
        from <= to <= v.len(),
    ensures
        s@ == v@.subrange(from as int, to as int),
{
    let mut s = String::new();
    let mut i = from;
    while i < to
        invariant
            from <= i <= to <= v.len(),
            s@ == v@.subrange(from as int, i as int),
        decreases to - i,
    {
        push_char(&mut s, v[i]);
        i += 1;
    }
    s
}

/// Whether `c` does not occur in `s`.
pub open spec fn lacks(s: Seq<char>, c: char) -> bool {
    forall|i: int| 0 <= i < s.len() ==> s[i] != c
}

/// Appends `t` to `s`.
pub fn push_str(s: &mut String, t: &str)
    ensures
        final(s)@ == old(s)@ + t@,
{
    s.append(t);
}

} // verus!
verus! {

/// `s` with every leading copy of the non-empty `p` removed, as
/// `str::trim_start_matches` does.
pub open spec fn trim_start_all(s: Seq<char>, p: Seq<char>) -> Seq<char>
    decreases s.len(),
{
    if p.len() > 0 && s.len() >= p.len() && s.take(p.len() as int) == p {
        trim_start_all(s.skip(p.len() as int), p)
    } else {
        s
    }
}

/// `s` with every trailing `c` removed, as `str::trim_end_matches` does.
pub open spec fn trim_end_char(s: Seq<char>, c: char) -> Seq<char>
    decreases s.len(),
{
    if s.len() > 0 && s.last() == c {
        trim_end_char(s.drop_last(), c)
    } else {
        s
    }
}

/// `s` with every leading and trailing `c` removed, as `str::trim_matches` does.
pub open spec fn trim_char(s: Seq<char>, c: char) -> Seq<char> {
    trim_end_char(trim_start_all(s, seq![c]), c)
}

/// Whether `v[i..]` starts with `p`.
fn starts_at(v: &Vec<char>, i: usize, p: &Vec<char>) -> (b: bool)
    requires
        i <= v.len(),
    ensures
        b == (v@.len() - i >= p@.len() && v@.skip(i as int).take(p@.len() as int) == p@),
{
    if v.len() - i < p.len() {
        return false;
    }
    let n = v.len();
    let mut j: usize = 0;
    while j < p.len()
        invariant
            j <= p.len(),
            n == v@.len(),
            i + p@.len() <= n,
            forall|k: int| 0 <= k < j ==> v@[i + k] == p@[k],
        decreases p.len() - j,
    {
        if v[i + j] != p[j] {
            assert(v@.skip(i as int).take(p@.len() as int)[j as int] != p@[j as int]);
            return false;
        }
        j += 1;
    }
    assert(v@.skip(i as int).take(p@.len() as int) =~= p@);
    true
}

/// The position in `v` where `trim_start_all(v[from..], p)` starts.
fn trim_start_pos(v: &Vec<char>, from: usize, p: &Vec<char>) -> (i: usize)
    requires
        from <= v.len(),
        p@.len() > 0,
    ensures
        from <= i <= v.len(),
        v@.skip(i as int) == trim_start_all(v@.skip(from as int), p@),
{
    let mut i = from;
    while starts_at(v, i, p)
        invariant
            from <= i <= v.len(),
            p@.len() > 0,
            trim_start_all(v@.skip(i as int), p@) == trim_start_all(v@.skip(from as int), p@),
        decreases v.len() - i,
    {
        assert(v@.skip(i as int).skip(p@.len() as int) =~= v@.skip(i + p@.len()));
        i = i + p.len();
    }
    i
}

/// The end position `j` such that `v[from..j]` is `trim_end_char(v[from..to], c)`.
fn trim_end_pos(v: &Vec<char>, from: usize, to: usize, c: char) -> (j: usize)
    requires
        from <= to <= v.len(),
    ensures
        from <= j <= to,
        v@.subrange(from as int, j as int) == trim_end_char(v@.subrange(from as int, to as int), c),
{
    let mut j = to;
    while j > from && v[j - 1] == c
        invariant
            from <= j <= to <= v.len(),
            trim_end_char(v@.subrange(from as int, j as int), c) == trim_end_char(v@.subrange(from as int, to as int), c),
        decreases j,
    {
        assert(v@.subrange(from as int, j as int).drop_last() =~= v@.subrange(from as int, j - 1));
        j = j - 1;
    }
    j
}

/// `str::trim_matches(c)`.
pub fn trim_matches(s: &str, c: char) -> (r: String)
    ensures
        r@ == trim_char(s@, c),
{
    let v = chars_of(s);
    let mut p: Vec<char> = Vec::new();
    p.push(c);
    assert(p@ =~= seq![c]);
    let i = trim_start_pos(&v, 0, &p);
    let j = trim_end_pos(&v, i, v.len(), c);
    assert(v@.skip(0) =~= v@);
    assert(v@.subrange(i as int, v.len() as int) =~= v@.skip(i as int));
    string_of_range(&v, i, j)
}

/// `s.trim_start_matches(p1).trim_start_matches(p2).trim_end_matches(c)`.
pub fn trim_prefixes_and_end(s: &str, p1: &str, p2: &str, c: char) -> (r: String)
    requires
        p1@.len() > 0,
        p2@.len() > 0,
    ensures
        r@ == trim_end_char(trim_start_all(trim_start_all(s@, p1@), p2@), c),
{
    let v = chars_of(s);
    let a = chars_of(p1);
    let b = chars_of(p2);
    let i = trim_start_pos(&v, 0, &a);
    let k = trim_start_pos(&v, i, &b);
    let j = trim_end_pos(&v, k, v.len(), c);
    assert(v@.skip(0) =~= v@);
    assert(v@.subrange(k as int, v.len() as int) =~= v@.skip(k as int));
    string_of_range(&v, k, j)
}

/// `s.trim_end_matches(c)`.
pub fn trim_end_matches(s: &str, c: char) -> (r: String)
    ensures
        r@ == trim_end_char(s@, c),
{
    let v = chars_of(s);
    let j = trim_end_pos(&v, 0, v.len(), c);
    assert(v@.subrange(0, v.len() as int) =~= v@);
    string_of_range(&v, 0, j)
}

/// The value of a string of decimal digits.
pub open spec fn digits_value(s: Seq<char>) -> nat
    decreases s.len(),
{
    if s.len() == 0 {
        0
    } else {
        digits_value(s.drop_last()) * 10 + ((s.last() as int - 48) as nat)
    }
}

/// Whether every character of `s` is an ASCII digit.
pub open spec fn all_digits(s: Seq<char>) -> bool {
    forall|i: int| 0 <= i < s.len() ==> '0' <= #[trigger] s[i] <= '9'
}

/// What `str::parse::<u64>` yields: an optional `+` followed by at least one
/// digit, of a value that fits in `u64`.
pub open spec fn u64_from_text(s: Seq<char>) -> Option<u64> {
    let d = if s.len() > 0 && s[0] == '+' { s.skip(1) } else { s };
    if d.len() > 0 && all_digits(d) && digits_value(d) <= u64::MAX {
        Some(digits_value(d) as u64)
    } else {
        None
    }
}

/// `str::parse::<u64>().ok()`.
pub fn parse_u64(s: &str) -> (r: Option<u64>)
    ensures
        r == u64_from_text(s@),
{
    let v = chars_of(s);
    let start: usize = if v.len() > 0 && v[0] == '+' { 1 } else { 0 };
    let ghost d = if v@.len() > 0 && v@[0] == '+' { v@.skip(1) } else { v@ };
    assert(d =~= v@.skip(start as int));
    if start == v.len() {
        return None;
    }
    let mut acc: u64 = 0;
    let mut over = false;
    let mut i = start;
    while i < v.len()
        invariant
            start <= i <= v.len(),
            v@ == s@,
            d == (if s@.len() > 0 && s@[0] == '+' { s@.skip(1) } else { s@ }),
            d == v@.skip(start as int),
            all_digits(v@.subrange(start as int, i as int)),
            !over ==> acc == digits_value(v@.subrange(start as int, i as int)),
            over ==> digits_value(v@.subrange(start as int, i as int)) > u64::MAX,
        decreases v.len() - i,
    {
        let c = v[i];
        if !('0' <= c && c <= '9') {
            assert(d[i - start] == c);
            assert(!all_digits(d));
            return None;
        }
        let digit = (c as u32 - 48) as u64;
        assert(digit == (c as int - 48));
        assert(v@.subrange(start as int, i + 1).drop_last() =~= v@.subrange(start as int, i as int));
        assert(v@.subrange(start as int, i + 1).last() == c);
        if !over {
            if acc <= (u64::MAX - digit) / 10 {
                acc = acc * 10 + digit;
            } else {
                over = true;
            }
        }
        i += 1;
    }
    assert(v@.subrange(start as int, v.len() as int) =~= d);
    if over {
        None
    } else {
        Some(acc)
    }
}

} // verus!
verus! {

/// The character of a decimal digit.
pub fn digit_of(d: u64) -> (c: char)
    requires
        d < 10,
    ensures
        c == digit_char(d as nat),
{
    digit(d)
}

} // verus!
verus! {

/// The position of the first `\n` in `s` at or after `i`, or `s.len()`.
pub open spec fn newline_from(s: Seq<char>, i: int) -> int
    decreases s.len() - i,
{
    if i >= s.len() {
        s.len() as int
    } else if s[i] == '\n' {
        i
    } else {
        newline_from(s, i + 1)
    }
}

/// `newline_from` stays between `i` and the end.
pub proof fn lemma_newline_from_bounds(s: Seq<char>, i: int)
    requires
        0 <= i,
    ensures
        i <= newline_from(s, i) || (i > s.len() && newline_from(s, i) == s.len()),
        newline_from(s, i) <= s.len(),
        newline_from(s, i) < s.len() ==> s[newline_from(s, i)] == '\n',
    decreases s.len() - i,
{
    if i < s.len() && s[i] != '\n' {
        lemma_newline_from_bounds(s, i + 1);
    }
}

/// A line ended by `\n` loses a `\r` before it.
pub open spec fn strip_cr(l: Seq<char>) -> Seq<char> {
    if l.len() > 0 && l.last() == '\r' { l.drop_last() } else { l }
}

/// The lines of a text, as `str::lines` gives them: split at `\n`, a `\r`
/// before the `\n` removed, no empty line after a final `\n`.
pub open spec fn lines_of(s: Seq<char>) -> Seq<Seq<char>>
    decreases s.len(),
{
    if s.len() == 0 {
        Seq::empty()
    } else {
        let k = newline_from(s, 0);
        if k >= s.len() {
            seq![s]
        } else {
            proof { lemma_newline_from_bounds(s, 0); }
            seq![strip_cr(s.take(k))] + lines_of(s.skip(k + 1))
        }
    }
}

/// Where the first `\n` of `s.skip(start)` is, counted in `s`.
proof fn lemma_newline_shift(s: Seq<char>, start: int, i: int)
    requires
        0 <= start <= i <= s.len(),
        forall|j: int| start <= j < i ==> s[j] != '\n',
    ensures
        newline_from(s.skip(start), i - start) == newline_from(s.skip(start), 0),
    decreases i - start,
{
    if i > start {
        lemma_newline_shift(s, start, i - 1);
        lemma_newline_step(s.skip(start), 0, i - 1 - start);
    }
}

proof fn lemma_newline_step(t: Seq<char>, a: int, b: int)
    requires
        0 <= a <= b < t.len(),
        forall|j: int| a <= j <= b ==> t[j] != '\n',
    ensures
        newline_from(t, a) == newline_from(t, b + 1),
    decreases b - a,
{
    if a < b {
        lemma_newline_step(t, a + 1, b);
    }
}

/// Splits a text into lines (see [`lines_of`]).
pub fn split_lines(text: &str) -> (lines: Vec<String>)
    ensures
        lines@.map_values(|l: String| l@) == lines_of(text@),
{
    let v = chars_of(text);
    let n = v.len();
    let mut lines: Vec<String> = Vec::new();
    let mut start: usize = 0;
    let mut i: usize = 0;
    assert(v@.skip(0) =~= v@);
    while i < n
        invariant
            n == v@.len(),
            v@ == text@,
            start <= i <= n,
            forall|j: int| start <= j < i ==> v@[j] != '\n',
            lines@.map_values(|l: String| l@) + lines_of(v@.skip(start as int)) == lines_of(text@),
        decreases n - i,
    {
        if v[i] == '\n' {
            let ghost t = v@.skip(start as int);
            proof {
                lemma_newline_shift(v@, start as int, i as int);
                assert(t[i - start] == '\n');
                assert(newline_from(t, 0) == i - start);
                assert(t.take(i - start) =~= v@.subrange(start as int, i as int));
                assert(t.skip(i - start + 1) =~= v@.skip(i + 1));
            }
            let mut end = i;
            if end > start && v[end - 1] == '\r' {
                end = end - 1;
            }
            let line = string_of_range(&v, start, end);
            assert(line@ == strip_cr(t.take(i - start)));
            let ghost prev = lines@.map_values(|l: String| l@);
            lines.push(line);
            assert(lines@.map_values(|l: String| l@) =~= prev.push(strip_cr(t.take(i - start))));
            assert(lines_of(t) =~= seq![strip_cr(t.take(i - start))] + lines_of(v@.skip(i + 1)));
            start = i + 1;
        }
        i += 1;
    }
    if start < n {
        let ghost t = v@.skip(start as int);
        proof {
            lemma_newline_shift(v@, start as int, n as int);
            lemma_newline_from_bounds(t, 0);
            assert(newline_from(t, n - start) == t.len());
        }
        let line = string_of_range(&v, start, n);
        assert(line@ =~= t);
        let ghost prev = lines@.map_values(|l: String| l@);
        lines.push(line);
        assert(lines@.map_values(|l: String| l@) =~= prev.push(t));
        assert(lines_of(t) =~= seq![t]);
    } else {
        assert(v@.skip(start as int) =~= Seq::<char>::empty());
    }
    lines
}

} // verus!
