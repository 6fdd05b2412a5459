//! Character-level helpers on strings: building, decimal numbers, whitespace and lines.
use vstd::prelude::*;

verus! {

broadcast use vstd::string::group_string_axioms;

/// Appends one character to a string (`String::push`).
#[verifier::external_body]
pub(crate) fn push_char(s: &mut String, c: char)
    ensures
        final(s)@ == old(s)@.push(c),
{
    s.push(c);
}

/// The characters of `s`, in order.
pub fn chars_of(s: &str) -> (v: Vec<char>)
    ensures
        v@ == s@,
{
    let mut v: Vec<char> = Vec::new();
    for c in it: s.chars()
        invariant
            v@ == it.seq().take(it.index()),
    {
        v.push(c);
    }
    v
}

/// The string made of `v[from..to]`.
pub fn string_from_chars(v: &Vec<char>, from: usize, to: usize) -> (s: String)
    requires
        from <= to <= v@.len(),
    ensures
        s@ == v@.subrange(from as int, to as int),
{
    let mut s = String::new();
    let mut i = from;
    while i < to
        invariant
            from <= i <= to <= v@.len(),
            s@ == v@.subrange(from as int, i as int),
        decreases to - i,
    {
        push_char(&mut s, v[i]);
        assert(v@.subrange(from as int, i + 1) == v@.subrange(from as int, i as int).push(v@[i as int]));
        i = i + 1;
    }
    s
}

// ---------------------------------------------------------------------------------------
// Decimal numbers
// ---------------------------------------------------------------------------------------

/// The ASCII digit for `d`, for `d < 10`.
pub open spec fn digit_char(d: nat) -> char {
    (d + 48) as char
}

/// Whether `c` is an ASCII decimal digit.
pub open spec fn is_digit(c: char) -> bool {
    '0' <= c && c <= '9'
}

/// The value of an ASCII digit.
pub open spec fn digit_value(c: char) -> nat {
    (c as int - 48) as nat
}

/// The shortest decimal writing of `n`, without sign (how `Display` writes an unsigned
/// integer).
pub open spec fn decimal(n: nat) -> Seq<char>
    decreases n,
{
    if n < 10 {
        seq![digit_char(n)]
    } else {
        decimal(n / 10).push(digit_char(n % 10))
    }
}

/// How `Display` writes a signed integer: a minus sign before the magnitude when negative.
pub open spec fn signed_decimal(i: int) -> Seq<char> {
    if i < 0 {
        seq!['-'] + decimal((-i) as nat)
    } else {
        decimal(i as nat)
    }
}

fn digit(d: u64) -> (c: char)
    requires
        d < 10,
    ensures
        c == digit_char(d as nat),
{
    let b: u8 = (d as u8) + 48;
    b as char
}

/// `n.to_string()` for `u64`.
pub fn u64_to_decimal(n: u64) -> (s: String)
    ensures
        s@ == decimal(n as nat),
    decreases n,
{
    if n < 10 {
        let mut s = String::new();
        push_char(&mut s, digit(n));
        assert(s@ == seq![digit_char(n as nat)]);
        s
    } else {
        let mut s = u64_to_decimal(n / 10);
        push_char(&mut s, digit(n % 10));
        s
    }
}

/// `n.to_string()` for `i64`.
pub fn i64_to_decimal(n: i64) -> (s: String)
    ensures
        s@ == signed_decimal(n as int),
{
    if n < 0 {
        let magnitude: u64 = if n == i64::MIN {
            9223372036854775808u64
        } else {
            (-n) as u64
        };
        let digits = u64_to_decimal(magnitude);
        let mut s = String::new();
        push_char(&mut s, '-');
        s.append(digits.as_str());
        s
    } else {
        u64_to_decimal(n as u64)
    }
}

/// How `Debug` writes an `Option<i32>`: `Some(..)` around the number, or `None`.
pub open spec fn option_i32_debug(v: Option<i32>) -> Seq<char> {
    match v {
        Some(x) => "Some("@ + signed_decimal(x as int) + ")"@,
        None => "None"@,
    }
}

/// `format!("{:?}", v)` for `Option<i32>`.
pub fn option_i32_to_debug(v: Option<i32>) -> (s: String)
    ensures
        s@ == option_i32_debug(v),
{
    match v {
        Some(x) => {
            let mut s = String::from_str("Some(");
            let digits = i64_to_decimal(x as i64);
            s.append(digits.as_str());
            s.append(")");
            s
        },
        None => String::from_str("None"),
    }
}

// ---------------------------------------------------------------------------------------
// Parsing unsigned integers as `str::parse` does
// ---------------------------------------------------------------------------------------

/// The value of a string of decimal digits.
pub open spec fn digits_value(s: Seq<char>) -> nat
    decreases s.len(),
{
    if s.len() == 0 {
        0
    } else {
        digits_value(s.drop_last()) * 10 + digit_value(s.last())
    }
}

/// The digits that an unsigned parse reads: one leading `+` is allowed.
pub open spec fn unsigned_body(s: Seq<char>) -> Seq<char> {
    if s.len() > 0 && s[0] == '+' {
        s.drop_first()
    } else {
        s
    }
}

/// What `str::parse` gives for an unsigned integer type whose largest value is `max`: the
/// value of an optional `+` followed by at least one ASCII digit and nothing else, when that
/// value is at most `max`; otherwise an error (here `None`).
pub open spec fn parse_unsigned(s: Seq<char>, max: nat) -> Option<nat> {
    let body = unsigned_body(s);
    if body.len() > 0 && (forall|i: int| 0 <= i < body.len() ==> is_digit(#[trigger] body[i]))
        && digits_value(body) <= max {
        Some(digits_value(body))
    } else {
        None
    }
}

proof fn digits_value_prefix_bound(s: Seq<char>, k: int)
    requires
        0 <= k <= s.len(),
        forall|i: int| 0 <= i < s.len() ==> is_digit(#[trigger] s[i]),
    ensures
        digits_value(s.take(k)) <= digits_value(s),
    decreases s.len() - k,
{
    if k < s.len() {
        digits_value_prefix_bound(s, k + 1);
        assert(s.take(k + 1).drop_last() == s.take(k));
        assert(is_digit(s.take(k + 1).last()));
    } else {
        assert(s.take(k) == s);
    }
}

/// Parses `s` as an unsigned number no larger than `max`, as `str::parse` does for an
/// unsigned type whose largest value is `max`.
pub fn parse_unsigned_max(s: &str, max: u64) -> (r: Option<u64>)
    ensures
        r matches Some(v) ==> parse_unsigned(s@, max as nat) == Some(v as nat),
        r is None ==> parse_unsigned(s@, max as nat) is None,
{
    let cs = chars_of(s);
    let n = cs.len();
    let start: usize = if n > 0 && cs[0] == '+' { 1 } else { 0 };
    let ghost body = unsigned_body(s@);
    assert(body == cs@.subrange(start as int, n as int));
    if start >= n {
        return None;
    }
    let mut value: u64 = 0;
    let mut i = start;
    while i < n
        invariant
            start <= i <= n == cs@.len(),
            cs@ == s@,
            body == cs@.subrange(start as int, n as int),
            body == unsigned_body(s@),
            forall|j: int| 0 <= j < i - start ==> is_digit(#[trigger] body[j]),
            value as nat == digits_value(body.take(i - start)),
            value <= max,
        decreases n - i,
    {
        let c = cs[i];
        if !('0' <= c && c <= '9') {
            assert(!is_digit(body[i - start]));
            assert(!(forall|j: int| 0 <= j < body.len() ==> is_digit(#[trigger] body[j])));
            return None;
        }
        let d: u64 = ((c as u32) - 48) as u64;
        assert(body.take(i - start + 1).drop_last() == body.take(i - start));
        assert(body.take(i - start + 1).last() == c);
        if d > max || value > (max - d) / 10 {
            proof {
                // the remaining digits are either invalid or only make the value larger
                assert(value * 10 + d > max) by (nonlinear_arith)
                    requires d > max || value > (max - d) / 10, value >= 0;
                assert(digit_value(c) == d);
                assert(digits_value(body.take(i - start + 1)) == value * 10 + d);
                if forall|j: int| 0 <= j < body.len() ==> is_digit(#[trigger] body[j]) {
                    digits_value_prefix_bound(body, i - start + 1);
                    assert(digits_value(body) > max);
                }
            }
            return None;
        }
        assert(value * 10 + d <= max) by (nonlinear_arith)
            requires value <= (max - d) / 10, d <= max;
        value = value * 10 + d;
        i = i + 1;
    }
    assert(body.take(n - start) == body);
    Some(value)
}

// ---------------------------------------------------------------------------------------
// Whitespace, trimming and prefixes
// ---------------------------------------------------------------------------------------

/// `char::is_whitespace`: the characters with the Unicode `White_Space` property.
pub open spec fn is_white_space(c: char) -> bool {
    let u = c as u32;
    ||| 0x9 <= u <= 0xd
    ||| u == 0x20
    ||| u == 0x85
    ||| u == 0xa0
    ||| u == 0x1680
    ||| 0x2000 <= u <= 0x200a
    ||| u == 0x2028
    ||| u == 0x2029
    ||| u == 0x202f
    ||| u == 0x205f
    ||| u == 0x3000
}

pub fn is_white_space_char(c: char) -> (b: bool)
    ensures
        b == is_white_space(c),
{
    let u = c as u32;
    (0x9 <= u && u <= 0xd) || u == 0x20 || u == 0x85 || u == 0xa0 || u == 0x1680 || (0x2000 <= u
        && u <= 0x200a) || u == 0x2028 || u == 0x2029 || u == 0x202f || u == 0x205f || u == 0x3000
}

/// `s` without its leading whitespace.
pub open spec fn trim_start(s: Seq<char>) -> Seq<char>
    decreases s.len(),
{
    if s.len() > 0 && is_white_space(s[0]) {
        trim_start(s.drop_first())
    } else {
        s
    }
}

/// `s` without its trailing whitespace.
pub open spec fn trim_end(s: Seq<char>) -> Seq<char>
    decreases s.len(),
{
    if s.len() > 0 && is_white_space(s.last()) {
        trim_end(s.drop_last())
    } else {
        s
    }
}

/// `str::trim`: `s` without leading and trailing whitespace.
pub open spec fn trim(s: Seq<char>) -> Seq<char> {
    trim_end(trim_start(s))
}

/// The bounds `lo..hi` of `v[from..to]` once its leading and trailing whitespace is removed.
pub fn trim_bounds(v: &Vec<char>, from: usize, to: usize) -> (r: (usize, usize))
    requires
        from <= to <= v@.len(),
    ensures
        from <= r.0 <= r.1 <= to,
        v@.subrange(r.0 as int, r.1 as int) == trim(v@.subrange(from as int, to as int)),
{
    let mut lo = from;
    while lo < to && is_white_space_char(v[lo])
        invariant
            from <= lo <= to <= v@.len(),
            trim_start(v@.subrange(from as int, to as int)) == trim_start(
                v@.subrange(lo as int, to as int),
            ),
        decreases to - lo,
    {
        assert(v@.subrange(lo as int, to as int).drop_first() == v@.subrange(lo + 1, to as int));
        lo = lo + 1;
    }
    assert(trim_start(v@.subrange(lo as int, to as int)) == v@.subrange(lo as int, to as int));
    let mut hi = to;
    while hi > lo && is_white_space_char(v[hi - 1])
        invariant
            from <= lo <= hi <= to <= v@.len(),
            trim(v@.subrange(from as int, to as int)) == trim_end(
                v@.subrange(lo as int, hi as int),
            ),
        decreases hi - lo,
    {
        assert(v@.subrange(lo as int, hi as int).drop_last() == v@.subrange(lo as int, hi - 1));
        hi = hi - 1;
    }
    (lo, hi)
}

/// `s.trim().to_string()`.
pub fn trim_string(s: &str) -> (t: String)
    ensures
        t@ == trim(s@),
{
    let v = chars_of(s);
    let (lo, hi) = trim_bounds(&v, 0, v.len());
    assert(v@.subrange(0, v@.len() as int) == v@);
    string_from_chars(&v, lo, hi)
}

/// `s.trim().is_empty()`.
pub fn is_blank(s: &str) -> (b: bool)
    ensures
        b == (trim(s@).len() == 0),
{
    let v = chars_of(s);
    let (lo, hi) = trim_bounds(&v, 0, v.len());
    assert(v@.subrange(0, v@.len() as int) == v@);
    lo == hi
}

/// `str::trim_end_matches` with one character: `s` without the copies of `c` at its end.
pub open spec fn trim_end_char(s: Seq<char>, c: char) -> Seq<char>
    decreases s.len(),
{
    if s.len() > 0 && s.last() == c {
        trim_end_char(s.drop_last(), c)
    } else {
        s
    }
}

/// `s.trim_end_matches(c).to_string()`.
pub fn trim_end_matches_char(s: &str, c: char) -> (t: String)
    ensures
        t@ == trim_end_char(s@, c),
{
    let v = chars_of(s);
    let mut hi = v.len();
    assert(v@.subrange(0, v@.len() as int) == v@);
    while hi > 0 && v[hi - 1] == c
        invariant
            hi <= v@.len(),
            trim_end_char(s@, c) == trim_end_char(v@.subrange(0, hi as int), c),
            v@ == s@,
        decreases hi,
    {
        assert(v@.subrange(0, hi as int).drop_last() == v@.subrange(0, hi - 1));
        hi = hi - 1;
    }
    assert(v@.subrange(0, v@.len() as int) == v@);
    string_from_chars(&v, 0, hi)
}

/// Whether `s` begins with `p`.
pub open spec fn has_prefix(s: Seq<char>, p: Seq<char>) -> bool {
    p.len() <= s.len() && s.subrange(0, p.len() as int) == p
}

/// `s.starts_with(p)`.
pub fn starts_with(s: &str, p: &str) -> (b: bool)
    ensures
        b == has_prefix(s@, p@),
{
    let sv = chars_of(s);
    let pv = chars_of(p);
    if pv.len() > sv.len() {
        return false;
    }
    let mut i: usize = 0;
    while i < pv.len()
        invariant
            pv@.len() <= sv@.len(),
            sv@ == s@,
            pv@ == p@,
            i <= pv@.len(),
            forall|j: int| 0 <= j < i ==> sv@[j] == pv@[j],
        decreases pv@.len() - i,
    {
        if sv[i] != pv[i] {
            assert(sv@.subrange(0, pv@.len() as int)[i as int] != pv@[i as int]);
            assert(sv@.subrange(0, pv@.len() as int) != pv@);
            return false;
        }
        i = i + 1;
    }
    assert(sv@.subrange(0, pv@.len() as int) == pv@);
    true
}

/// Whether two strings hold the same characters.
pub fn str_equal(a: &str, b: &str) -> (r: bool)
    ensures
        r == (a@ == b@),
{
    let av = chars_of(a);
    let bv = chars_of(b);
    if av.len() != bv.len() {
        return false;
    }
    let mut i: usize = 0;
    while i < av.len()
        invariant
            av@.len() == bv@.len(),
            av@ == a@,
            bv@ == b@,
            i <= av@.len(),
            forall|j: int| 0 <= j < i ==> av@[j] == bv@[j],
        decreases av@.len() - i,
    {
        if av[i] != bv[i] {
            assert(av@[i as int] != bv@[i as int]);
            assert(av@ != bv@);
            return false;
        }
        i = i + 1;
    }
    assert(av@ == bv@);
    true
}

// ---------------------------------------------------------------------------------------
// Lines
// ---------------------------------------------------------------------------------------

/// The index of the first `\n` in `s` at or after `i`, or the length of `s` when none is.
pub open spec fn newline_from(s: Seq<char>, i: nat) -> nat
    decreases s.len() - i,
{
    if i >= s.len() {
        s.len()
    } else if s[i as int] == '\n' {
        i
    } else {
        newline_from(s, i + 1)
    }
}

/// The index of the first `c` in `s` at or after `i`, or the length of `s` when none is.
pub open spec fn char_from(s: Seq<char>, c: char, i: nat) -> nat
    decreases s.len() - i,
{
    if i >= s.len() {
        s.len()
    } else if s[i as int] == c {
        i
    } else {
        char_from(s, c, i + 1)
    }
}

/// `str::split` on one character: the pieces between the copies of `c`, always at least
/// one (possibly empty) piece.
pub open spec fn split_on(s: Seq<char>, c: char) -> Seq<Seq<char>>
    decreases s.len(),
{
    let e = char_from(s, c, 0);
    if e >= s.len() {
        seq![s]
    } else {
        seq![s.take(e as int)] + split_on(s.skip(e + 1 as int), c)
    }
}

proof fn char_from_skips(t: Seq<char>, c: char, k: nat)
    requires
        k <= t.len(),
        forall|j: int| 0 <= j < k ==> t[j] != c,
    ensures
        char_from(t, c, 0) == char_from(t, c, k),
    decreases k,
{
    if k > 0 {
        char_from_skips(t, c, (k - 1) as nat);
    }
}

/// Past a prefix `a`, the first `c` from `i` is the one in `a` when `a` has one there, and
/// otherwise the first in what follows `a`.
proof fn char_from_in_prefix(a: Seq<char>, t: Seq<char>, c: char, i: nat)
    requires
        i <= a.len(),
    ensures
        char_from(a, c, i) < a.len() ==> char_from(a + t, c, i) == char_from(a, c, i),
        char_from(a, c, i) >= a.len() ==> char_from(a + t, c, i) == a.len() + char_from(t, c, 0),
    decreases a.len() - i,
{
    if i < a.len() {
        assert((a + t)[i as int] == a[i as int]);
        if a[i as int] != c {
            char_from_in_prefix(a, t, c, i + 1);
        }
    } else {
        char_from_shift(a, t, c, 0);
    }
}

/// The first `c` in `a + t` from `a.len() + k` is `a.len()` past the first in `t` from `k`.
proof fn char_from_shift(a: Seq<char>, t: Seq<char>, c: char, k: nat)
    requires
        k <= t.len(),
    ensures
        char_from(a + t, c, a.len() + k) == a.len() + char_from(t, c, k),
    decreases t.len() - k,
{
    if k < t.len() {
        assert((a + t)[(a.len() + k) as int] == t[k as int]);
        if t[k as int] != c {
            char_from_shift(a, t, c, k + 1);
        }
    }
}

/// A text without `c` is one piece.
pub proof fn split_without_separator(s: Seq<char>, c: char)
    requires
        !s.contains(c),
    ensures
        split_on(s, c) == seq![s],
{
    assert forall|j: int| 0 <= j < s.len() implies s[j] != c by {
        if s[j] == c {
            assert(s.contains(c));
        }
    }
    char_from_skips(s, c, s.len());
}

/// Splitting `a`, `c`, `b` on `c` gives the pieces of `a` followed by the pieces of `b`.
pub proof fn split_on_joined(a: Seq<char>, b: Seq<char>, c: char)
    ensures
        split_on(a + seq![c] + b, c) == split_on(a, c) + split_on(b, c),
    decreases a.len(),
{
    let s = a + seq![c] + b;
    let t = seq![c] + b;
    assert(s == a + t);
    let e = char_from(a, c, 0);
    char_from_in_prefix(a, t, c, 0);
    if e >= a.len() {
        assert(char_from(t, c, 0) == 0);
        assert(s.take(a.len() as int) == a);
        assert(s.skip((a.len() + 1) as int) == b);
    } else {
        let rest = a.skip(e + 1 as int);
        assert(s.take(e as int) == a.take(e as int));
        assert(s.skip(e + 1 as int) == rest + seq![c] + b);
        split_on_joined(rest, b, c);
        assert(split_on(s, c) == seq![a.take(e as int)] + split_on(rest + seq![c] + b, c));
        assert(split_on(a, c) == seq![a.take(e as int)] + split_on(rest, c));
    }
}

/// The character ranges of the pieces of `v` split on `c`.
pub fn split_bounds(v: &Vec<char>, c: char) -> (b: Vec<(usize, usize)>)
    ensures
        forall|k: int| #![trigger b@[k]] 0 <= k < b@.len() ==> b@[k].0 <= b@[k].1 <= v@.len(),
        b@.map_values(|r: (usize, usize)| v@.subrange(r.0 as int, r.1 as int)) == split_on(v@, c),
{
    let n = v.len();
    let mut bounds: Vec<(usize, usize)> = Vec::new();
    let mut ls: usize = 0;
    let mut i: usize = 0;
    assert(v@.skip(0) == v@);
    while i < n
        invariant
            n == v@.len(),
            ls <= i <= n,
            forall|j: int| ls <= j < i ==> v@[j] != c,
            forall|k: int| #![trigger bounds@[k]] 0 <= k < bounds@.len() ==> bounds@[k].0 <= bounds@[k].1 <= n,
            split_on(v@, c) == bounds@.map_values(
                |r: (usize, usize)| v@.subrange(r.0 as int, r.1 as int),
            ) + split_on(v@.skip(ls as int), c),
        decreases n - i,
    {
        if v[i] == c {
            proof {
                let t = v@.skip(ls as int);
                let k = (i - ls) as nat;
                assert forall|j: int| 0 <= j < k implies t[j] != c by {
                    assert(t[j] == v@[ls + j]);
                }
                char_from_skips(t, c, k);
                assert(t[k as int] == c);
                assert(char_from(t, c, 0) == k);
                assert(t.take(k as int) == v@.subrange(ls as int, i as int));
                assert(t.skip(k + 1 as int) == v@.skip(i + 1));
            }
            let ghost old_bounds = bounds@;
            bounds.push((ls, i));
            proof {
                let f = |r: (usize, usize)| v@.subrange(r.0 as int, r.1 as int);
                assert(bounds@.map_values(f) == old_bounds.map_values(f).push(
                    v@.subrange(ls as int, i as int),
                ));
            }
            ls = i + 1;
        }
        i = i + 1;
    }
    proof {
        let t = v@.skip(ls as int);
        assert forall|j: int| 0 <= j < t.len() implies t[j] != c by {
            assert(t[j] == v@[ls + j]);
        }
        char_from_skips(t, c, t.len());
    }
    let ghost old_bounds = bounds@;
    bounds.push((ls, n));
    proof {
        let f = |r: (usize, usize)| v@.subrange(r.0 as int, r.1 as int);
        assert(bounds@.map_values(f) == old_bounds.map_values(f).push(
            v@.subrange(ls as int, n as int),
        ));
        assert(v@.skip(ls as int) == v@.subrange(ls as int, n as int));
    }
    bounds
}

/// A line without the `\r` that ended it, if any.
pub open spec fn strip_cr(line: Seq<char>) -> Seq<char> {
    if line.len() > 0 && line.last() == '\r' {
        line.drop_last()
    } else {
        line
    }
}

/// `str::lines`: the pieces between `\n` characters; a piece that a `\n` ends loses one
/// `\r` before it, and a final `\n` starts no further (empty) line.
pub open spec fn lines(s: Seq<char>) -> Seq<Seq<char>>
    decreases s.len(),
{
    if s.len() == 0 {
        seq![]
    } else {
        let e = newline_from(s, 0);
        if e >= s.len() {
            seq![s]
        } else {
            seq![strip_cr(s.take(e as int))] + lines(s.skip(e + 1 as int))
        }
    }
}

/// The pieces of `parts` put one after another with a `\n` between each two.
pub open spec fn join_lines(parts: Seq<Seq<char>>) -> Seq<char>
    decreases parts.len(),
{
    if parts.len() == 0 {
        seq![]
    } else if parts.len() == 1 {
        parts[0]
    } else {
        join_lines(parts.drop_last()) + seq!['\n'] + parts.last()
    }
}

proof fn newline_from_skips(t: Seq<char>, k: nat)
    requires
        k <= t.len(),
        forall|j: int| 0 <= j < k ==> t[j] != '\n',
    ensures
        newline_from(t, 0) == newline_from(t, k),
    decreases k,
{
    if k > 0 {
        newline_from_skips(t, (k - 1) as nat);
    }
}

/// The character ranges of the lines of `v`, as `lines` cuts them.
pub fn line_bounds(v: &Vec<char>) -> (b: Vec<(usize, usize)>)
    ensures
        forall|k: int| #![trigger b@[k]] 0 <= k < b@.len() ==> b@[k].0 <= b@[k].1 <= v@.len(),
        b@.map_values(|r: (usize, usize)| v@.subrange(r.0 as int, r.1 as int)) == lines(v@),
{
    let n = v.len();
    let mut bounds: Vec<(usize, usize)> = Vec::new();
    let mut ls: usize = 0;
    let mut i: usize = 0;
    assert(v@.skip(0) == v@);
    while i < n
        invariant
            n == v@.len(),
            ls <= i <= n,
            forall|j: int| ls <= j < i ==> v@[j] != '\n',
            forall|k: int| #![trigger bounds@[k]] 0 <= k < bounds@.len() ==> bounds@[k].0 <= bounds@[k].1 <= n,
            lines(v@) == bounds@.map_values(
                |r: (usize, usize)| v@.subrange(r.0 as int, r.1 as int),
            ) + lines(v@.skip(ls as int)),
        decreases n - i,
    {
        if v[i] == '\n' {
            let end = if i > ls && v[i - 1] == '\r' {
                i - 1
            } else {
                i
            };
            proof {
                let t = v@.skip(ls as int);
                let k = (i - ls) as nat;
                assert forall|j: int| 0 <= j < k implies t[j] != '\n' by {
                    assert(t[j] == v@[ls + j]);
                }
                newline_from_skips(t, k);
                assert(t[k as int] == '\n');
                assert(newline_from(t, 0) == k);
                assert(t.take(k as int) == v@.subrange(ls as int, i as int));
                assert(strip_cr(t.take(k as int)) == v@.subrange(ls as int, end as int));
                assert(t.skip(k + 1 as int) == v@.skip(i + 1));
            }
            let ghost old_bounds = bounds@;
            bounds.push((ls, end));
            proof {
                let f = |r: (usize, usize)| v@.subrange(r.0 as int, r.1 as int);
                assert(bounds@.map_values(f) == old_bounds.map_values(f).push(
                    v@.subrange(ls as int, end as int),
                ));
            }
            ls = i + 1;
        }
        i = i + 1;
    }
    proof {
        let t = v@.skip(ls as int);
        assert forall|j: int| 0 <= j < t.len() implies t[j] != '\n' by {
            assert(t[j] == v@[ls + j]);
        }
        newline_from_skips(t, t.len());
    }
    if ls < n {
        let ghost old_bounds = bounds@;
        bounds.push((ls, n));
        proof {
            let f = |r: (usize, usize)| v@.subrange(r.0 as int, r.1 as int);
            assert(bounds@.map_values(f) == old_bounds.map_values(f).push(
                v@.subrange(ls as int, n as int),
            ));
            assert(v@.skip(ls as int) == v@.subrange(ls as int, n as int));
        }
    } else {
        assert(v@.skip(ls as int).len() == 0);
    }
    bounds
}

} // verus!
