//! Reading numbers, flags and colours out of configuration text.
use vstd::prelude::*;
use vstd::string::StrSliceExecFns;

verus! {

/// The characters that `char::is_whitespace` accepts (Unicode `White_Space`).
pub open spec fn is_space(c: char) -> bool {
    ('\t' <= c && c <= '\r') || c == ' ' || c == '\u{85}' || c == '\u{a0}' || c == '\u{1680}' || (
    '\u{2000}' <= c && c <= '\u{200a}') || c == '\u{2028}' || c == '\u{2029}' || c == '\u{202f}'
        || c == '\u{205f}' || c == '\u{3000}'
}

/// `s` without its leading white space.
pub open spec fn trim_start(s: Seq<char>) -> Seq<char>
    decreases s.len(),
{
    if s.len() > 0 && is_space(s[0]) {
        trim_start(s.drop_first())
    } else {
        s
    }
}

/// `s` without its trailing white space.
pub open spec fn trim_end(s: Seq<char>) -> Seq<char>
    decreases s.len(),
{
    if s.len() > 0 && is_space(s.last()) {
        trim_end(s.drop_last())
    } else {
        s
    }
}

pub open spec fn trim(s: Seq<char>) -> Seq<char> {
    trim_end(trim_start(s))
}

/// `s` with every leading repetition of the two-character prefix `a b` removed.
pub open spec fn strip_prefixes(s: Seq<char>, a: char, b: char) -> Seq<char>
    decreases s.len(),
{
    if s.len() >= 2 && s[0] == a && s[1] == b {
        strip_prefixes(s.subrange(2, s.len() as int), a, b)
    } else {
        s
    }
}

/// The value of a digit in bases up to 36; 36 for a character that is none.
pub open spec fn digit_of(c: char) -> int {
    if '0' <= c && c <= '9' {
        c as int - '0' as int
    } else if 'a' <= c && c <= 'z' {
        c as int - 'a' as int + 10
    } else if 'A' <= c && c <= 'Z' {
        c as int - 'A' as int + 10
    } else {
        36
    }
}

pub open spec fn all_digits(s: Seq<char>, radix: int) -> bool {
    forall|i: int| 0 <= i < s.len() ==> #[trigger] digit_of(s[i]) < radix
}

/// The number that the digits `s` write in base `radix`.
pub open spec fn value_of(s: Seq<char>, radix: int) -> int
    decreases s.len(),
{
    if s.len() == 0 {
        0
    } else {
        value_of(s.drop_last(), radix) * radix + digit_of(s.last())
    }
}

/// A non-empty run of digits whose value is at most `limit`.
pub open spec fn digits_within(s: Seq<char>, radix: int, limit: int) -> Option<int> {
    if s.len() > 0 && all_digits(s, radix) && value_of(s, radix) <= limit {
        Some(value_of(s, radix))
    } else {
        None
    }
}

/// A base-16 `u32` with an optional leading `+`, as `u32::from_str_radix` reads it.
pub open spec fn hex_u32(s: Seq<char>) -> Option<int> {
    if s.len() > 0 && s[0] == '+' {
        digits_within(s.drop_first(), 16, u32::MAX as int)
    } else {
        digits_within(s, 16, u32::MAX as int)
    }
}

/// A colour written in base 16, surrounded by optional white space and
/// preceded by optional `0x` or `0X` prefixes.
pub open spec fn color_of(s: Seq<char>) -> Option<int> {
    hex_u32(strip_prefixes(strip_prefixes(trim(s), '0', 'x'), '0', 'X'))
}

/// A decimal `i32` with an optional sign, as `str::parse::<i32>` reads it.
pub open spec fn decimal_i32(s: Seq<char>) -> Option<int> {
    if s.len() > 0 && s[0] == '-' {
        match digits_within(s.drop_first(), 10, 0x8000_0000) {
            Some(v) => Some(-v),
            None => None,
        }
    } else if s.len() > 0 && s[0] == '+' {
        digits_within(s.drop_first(), 10, i32::MAX as int)
    } else {
        digits_within(s, 10, i32::MAX as int)
    }
}

/// `true` or `false`, as `str::parse::<bool>` reads them.
pub open spec fn flag_of(s: Seq<char>) -> Option<bool> {
    if s == seq!['t', 'r', 'u', 'e'] {
        Some(true)
    } else if s == seq!['f', 'a', 'l', 's', 'e'] {
        Some(false)
    } else {
        None
    }
}

proof fn lemma_value_grows(s: Seq<char>, radix: int, i: int)
    requires
        radix >= 1,
        0 <= i <= s.len(),
        all_digits(s, radix),
    ensures
        0 <= value_of(s.subrange(0, i), radix) <= value_of(s, radix),
    decreases s.len() - i,
{
    if i < s.len() {
        lemma_value_grows(s, radix, i + 1);
        let p = s.subrange(0, i + 1);
        assert(p.drop_last() =~= s.subrange(0, i));
        assert(digit_of(s[i]) >= 0);
        lemma_value_nonneg(s.subrange(0, i), radix);
        let v = value_of(s.subrange(0, i), radix);
        assert(v * radix >= v) by (nonlinear_arith)
            requires
                v >= 0,
                radix >= 1,
        ;
    } else {
        assert(s.subrange(0, i) =~= s);
        lemma_value_nonneg(s, radix);
    }
}

proof fn lemma_value_nonneg(s: Seq<char>, radix: int)
    requires
        radix >= 1,
    ensures
        value_of(s, radix) >= 0,
    decreases s.len(),
{
    if s.len() > 0 {
        lemma_value_nonneg(s.drop_last(), radix);
        let v = value_of(s.drop_last(), radix);
        assert(v * radix >= 0) by (nonlinear_arith)
            requires
                v >= 0,
                radix >= 1,
        ;
        assert(digit_of(s.last()) >= 0);
    }
}

/// A decimal read as an `i32` lies in the range of `i32`.
pub proof fn lemma_decimal_in_range(s: Seq<char>)
    ensures
        decimal_i32(s) matches Some(v) ==> i32::MIN <= v <= i32::MAX,
{
    lemma_value_nonneg(s.drop_first(), 10);
    lemma_value_nonneg(s, 10);
}

fn digit_value(c: char) -> (r: u32)
    ensures
        r == digit_of(c),
{
    if '0' <= c && c <= '9' {
        (c as u32) - ('0' as u32)
    } else if 'a' <= c && c <= 'z' {
        (c as u32) - ('a' as u32) + 10
    } else if 'A' <= c && c <= 'Z' {
        (c as u32) - ('A' as u32) + 10
    } else {
        36
    }
}

/// Reads the characters `lo..hi` of `s` as digits in base `radix`.
fn parse_digits(s: &str, lo: usize, hi: usize, radix: u32, limit: u64) -> (r: Option<u64>)
    requires
        2 <= radix <= 36,
        lo <= hi <= s@.len(),
        limit <= u32::MAX,
    ensures
        r matches Some(v) ==> digits_within(s@.subrange(lo as int, hi as int), radix as int, limit as int) == Some(v as int),
        r is None ==> digits_within(s@.subrange(lo as int, hi as int), radix as int, limit as int) is None,
{
    let ghost t = s@.subrange(lo as int, hi as int);
    if lo == hi {
        return None;
    }
    let mut acc: u64 = 0;
    let mut i: usize = lo;
    while i < hi
        invariant
            2 <= radix <= 36,
            lo <= i <= hi <= s@.len(),
            limit <= u32::MAX,
            t == s@.subrange(lo as int, hi as int),
            acc <= limit,
            all_digits(t.subrange(0, i - lo), radix as int),
            acc == value_of(t.subrange(0, i - lo), radix as int),
        decreases hi - i,
    {
        let c = s.get_char(i);
        let d = digit_value(c);
        let ghost p = t.subrange(0, i + 1 - lo);
        assert(p.drop_last() =~= t.subrange(0, i - lo));
        assert(p.last() == c);
        if d >= radix {
            proof {
                assert(digit_of(t[i - lo]) >= radix);
            }
            return None;
        }
        assert(all_digits(p, radix as int)) by {
            assert forall|k: int| 0 <= k < p.len() implies #[trigger] digit_of(p[k]) < radix by {
                if k < p.len() - 1 {
                    assert(p[k] == t.subrange(0, i - lo)[k]);
                }
            }
        }
        assert(acc * radix <= u32::MAX * 36) by (nonlinear_arith)
            requires
                acc <= u32::MAX,
                radix <= 36,
        ;
        let next: u64 = acc * (radix as u64) + (d as u64);
        if next > limit {
            proof {
                if all_digits(t, radix as int) {
                    lemma_value_grows(t, radix as int, i + 1 - lo);
                }
            }
            return None;
        }
        acc = next;
        i = i + 1;
    }
    assert(t.subrange(0, hi - lo) =~= t);
    Some(acc)
}

/// The index of the first character of `s[lo..hi]` that is not white space.
fn skip_space_forward(s: &str, lo: usize, hi: usize) -> (r: usize)
    requires
        lo <= hi <= s@.len(),
    ensures
        lo <= r <= hi,
        trim_start(s@.subrange(lo as int, hi as int)) == s@.subrange(r as int, hi as int),
{
    let mut i: usize = lo;
    while i < hi
        invariant
            lo <= i <= hi <= s@.len(),
            trim_start(s@.subrange(lo as int, hi as int)) == trim_start(
                s@.subrange(i as int, hi as int),
            ),
        decreases hi - i,
    {
        let c = s.get_char(i);
        if !is_white(c) {
            return i;
        }
        assert(s@.subrange(i as int, hi as int).drop_first() =~= s@.subrange(i + 1, hi as int));
        i = i + 1;
    }
    i
}

/// The end of `s[lo..hi]` once its trailing white space is dropped.
fn skip_space_backward(s: &str, lo: usize, hi: usize) -> (r: usize)
    requires
        lo <= hi <= s@.len(),
    ensures
        lo <= r <= hi,
        trim_end(s@.subrange(lo as int, hi as int)) == s@.subrange(lo as int, r as int),
{
    let mut j: usize = hi;
    while j > lo
        invariant
            lo <= j <= hi <= s@.len(),
            trim_end(s@.subrange(lo as int, hi as int)) == trim_end(
                s@.subrange(lo as int, j as int),
            ),
        decreases j - lo,
    {
        let c = s.get_char(j - 1);
        if !is_white(c) {
            return j;
        }
        assert(s@.subrange(lo as int, j as int).drop_last() =~= s@.subrange(lo as int, j - 1));
        j = j - 1;
    }
    j
}

/// Skips every repetition of the prefix `a b` at the start of `s[lo..hi]`.
fn skip_prefixes(s: &str, lo: usize, hi: usize, a: char, b: char) -> (r: usize)
    requires
        lo <= hi <= s@.len(),
    ensures
        lo <= r <= hi,
        strip_prefixes(s@.subrange(lo as int, hi as int), a, b) == s@.subrange(r as int, hi as int),
{
    let mut i: usize = lo;
    while hi - i >= 2
        invariant
            lo <= i <= hi <= s@.len(),
            strip_prefixes(s@.subrange(lo as int, hi as int), a, b) == strip_prefixes(
                s@.subrange(i as int, hi as int),
                a,
                b,
            ),
        decreases hi - i,
    {
        if s.get_char(i) != a || s.get_char(i + 1) != b {
            return i;
        }
        assert(s@.subrange(i as int, hi as int).subrange(2, hi - i) =~= s@.subrange(
            i + 2,
            hi as int,
        ));
        i = i + 2;
    }
    i
}

fn is_white(c: char) -> (r: bool)
    ensures
        r == is_space(c),
{
    ('\t' <= c && c <= '\r') || c == ' ' || c == '\u{85}' || c == '\u{a0}' || c == '\u{1680}' || (
    '\u{2000}' <= c && c <= '\u{200a}') || c == '\u{2028}' || c == '\u{2029}' || c == '\u{202f}'
        || c == '\u{205f}' || c == '\u{3000}'
}

/// Reads a colour such as `0xFFCED46A`; `None` where the text is no colour.
pub fn parse_color(s: &str) -> (r: Option<u32>)
    ensures
        r matches Some(v) ==> color_of(s@) == Some(v as int),
        r is None ==> color_of(s@) is None,
{
    let n = s.unicode_len();
    assert(s@.subrange(0, n as int) =~= s@);
    let lo = skip_space_forward(s, 0, n);
    let hi = skip_space_backward(s, lo, n);
    assert(trim(s@) == s@.subrange(lo as int, hi as int));
    let p = skip_prefixes(s, lo, hi, '0', 'x');
    let q = skip_prefixes(s, p, hi, '0', 'X');
    let ghost t = s@.subrange(q as int, hi as int);
    if q < hi && s.get_char(q) == '+' {
        assert(t.drop_first() =~= s@.subrange(q + 1, hi as int));
        match parse_digits(s, q + 1, hi, 16, 0xFFFF_FFFF) {
            Some(v) => Some(v as u32),
            None => None,
        }
    } else {
        match parse_digits(s, q, hi, 16, 0xFFFF_FFFF) {
            Some(v) => Some(v as u32),
            None => None,
        }
    }
}

/// Reads a decimal `i32` such as `-15` or `+50`.
pub fn parse_i32(s: &str) -> (r: Option<i32>)
    ensures
        r matches Some(v) ==> decimal_i32(s@) == Some(v as int),
        r is None ==> decimal_i32(s@) is None,
{
    let n = s.unicode_len();
    assert(s@.subrange(0, n as int) =~= s@);
    if n > 0 && s.get_char(0) == '-' {
        assert(s@.drop_first() =~= s@.subrange(1, n as int));
        match parse_digits(s, 1, n, 10, 0x8000_0000) {
            Some(v) => Some((0 - (v as i64)) as i32),
            None => None,
        }
    } else if n > 0 && s.get_char(0) == '+' {
        assert(s@.drop_first() =~= s@.subrange(1, n as int));
        match parse_digits(s, 1, n, 10, 0x7FFF_FFFF) {
            Some(v) => Some(v as i32),
            None => None,
        }
    } else {
        match parse_digits(s, 0, n, 10, 0x7FFF_FFFF) {
            Some(v) => Some(v as i32),
            None => None,
        }
    }
}

/// Reads `true` or `false`.
pub fn parse_flag(s: &str) -> (r: Option<bool>)
    ensures
        r == flag_of(s@),
{
    let n = s.unicode_len();
    if n == 4 && s.get_char(0) == 't' && s.get_char(1) == 'r' && s.get_char(2) == 'u' && s.get_char(3) == 'e' {
        assert(s@ =~= seq!['t', 'r', 'u', 'e']);
        Some(true)
    } else if n == 5 && s.get_char(0) == 'f' && s.get_char(1) == 'a' && s.get_char(2) == 'l'
        && s.get_char(3) == 's' && s.get_char(4) == 'e' {
        assert(s@ =~= seq!['f', 'a', 'l', 's', 'e']);
        Some(false)
    } else {
        proof {
            if s@ == seq!['t', 'r', 'u', 'e'] {
                assert(s@[0] == 't' && s@[1] == 'r' && s@[2] == 'u' && s@[3] == 'e');
            }
            if s@ == seq!['f', 'a', 'l', 's', 'e'] {
                assert(s@[0] == 'f' && s@[1] == 'a' && s@[2] == 'l' && s@[3] == 's' && s@[4] == 'e');
            }
        }
        None
    }
}

} // verus!
