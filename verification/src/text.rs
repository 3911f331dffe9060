//! Character-level text helpers for the craft-spec language: character
//! access, Unicode whitespace, trimming, substring search, lower-casing and
//! decimal parsing.

use vstd::prelude::*;
use vstd::string::StrSliceExecFns;
use vstd::string::StringExecFns;

verus! {

/// The characters of a string, in order.
pub fn chars_of(s: &str) -> (r: Vec<char>)
    ensures
        r@ == s@,
{
    let mut v: Vec<char> = Vec::new();
    for c in it: s.chars()
        invariant
            v@ == it.seq().take(it.index() as int),
    {
        v.push(c);
    }
    v
}

/// Whether `c` has the Unicode `White_Space` property (as `char::is_whitespace`
/// tests it): tab, line feed, vertical tab, form feed, carriage return,
/// space, next line, no-break space, ogham space mark, the spaces U+2000 to
/// U+200A, line and paragraph separators, narrow no-break space, medium
/// mathematical space and ideographic space.
pub open spec fn unicode_whitespace(c: char) -> bool {
    ||| ('\u{9}' <= c && c <= '\u{d}')
    ||| c == ' '
    ||| c == '\u{85}'
    ||| c == '\u{a0}'
    ||| c == '\u{1680}'
    ||| ('\u{2000}' <= c && c <= '\u{200a}')
    ||| c == '\u{2028}'
    ||| c == '\u{2029}'
    ||| c == '\u{202f}'
    ||| c == '\u{205f}'
    ||| c == '\u{3000}'
}

/// Whether `c` is Unicode whitespace.
pub fn is_whitespace(c: char) -> (r: bool)
    ensures
        r == unicode_whitespace(c),
{
    ('\u{9}' <= c && c <= '\u{d}') || c == ' ' || c == '\u{85}' || c == '\u{a0}' || c == '\u{1680}'
        || ('\u{2000}' <= c && c <= '\u{200a}') || c == '\u{2028}' || c == '\u{2029}' || c == '\u{202f}'
        || c == '\u{205f}' || c == '\u{3000}'
}

/// The lower-case mapping of a string (Unicode `Lowercase_Mapping`, with
/// the final-sigma rule), as `str::to_lowercase` computes it.
pub uninterp spec fn lowercase(s: Seq<char>) -> Seq<char>;

/// `str::to_lowercase`: the contract says that the result is the
/// lower-case mapping of the argument, a function of the argument alone;
/// the Unicode mapping itself is not restated here.
#[verifier::external_body]
pub(crate) fn to_lowercase(s: &str) -> (r: String)
    ensures
        r@ == lowercase(s@),
{
    s.to_lowercase()
}

/// Leading whitespace removed.
pub open spec fn trim_start(s: Seq<char>) -> Seq<char>
    decreases s.len(),
{
    if s.len() > 0 && unicode_whitespace(s[0]) {
        trim_start(s.drop_first())
    } else {
        s
    }
}

/// Trailing whitespace removed.
pub open spec fn trim_end(s: Seq<char>) -> Seq<char>
    decreases s.len(),
{
    if s.len() > 0 && unicode_whitespace(s.last()) {
        trim_end(s.drop_last())
    } else {
        s
    }
}

/// Leading and trailing whitespace removed, as `str::trim` does.
pub open spec fn trim(s: Seq<char>) -> Seq<char> {
    trim_end(trim_start(s))
}

/// The bounds `(a, b)` of the trimmed core of `v[from..to]`.
pub fn trim_bounds(v: &Vec<char>, from: usize, to: usize) -> (r: (usize, usize))
    requires
        from <= to <= v@.len(),
    ensures
        from <= r.0 <= r.1 <= to,
        v@.subrange(r.0 as int, r.1 as int) == trim(v@.subrange(from as int, to as int)),
{
    let mut a = from;
    while a < to && is_whitespace(v[a])
        invariant
            from <= a <= to <= v@.len(),
            trim_start(v@.subrange(from as int, to as int)) == trim_start(v@.subrange(a as int, to as int)),
        decreases to - a,
    {
        assert(v@.subrange(a as int, to as int).drop_first() =~= v@.subrange(a + 1, to as int));
        a += 1;
    }
    let mut b = to;
    while b > a && is_whitespace(v[b - 1])
        invariant
            from <= a <= b <= to <= v@.len(),
            trim_end(v@.subrange(a as int, to as int)) == trim_end(v@.subrange(a as int, b as int)),
        decreases b - a,
    {
        assert(v@.subrange(a as int, b as int).drop_last() =~= v@.subrange(a as int, b - 1));
        b -= 1;
    }
    (a, b)
}

/// `needle` occurs in `hay` as a contiguous run (the empty needle occurs
/// everywhere).
pub open spec fn seq_contains(hay: Seq<char>, needle: Seq<char>) -> bool {
    exists|i: int| 0 <= i && i + needle.len() <= hay.len() && #[trigger] hay.subrange(i, i + needle.len()) == needle
}

/// Whether `needle` occurs at position `i` of `hay`.
fn occurs_at(hay: &Vec<char>, needle: &Vec<char>, i: usize) -> (r: bool)
    requires
        i + needle@.len() <= hay@.len(),
    ensures
        r == (hay@.subrange(i as int, i + needle@.len()) == needle@),
{
    let hl = hay.len();
    let mut j: usize = 0;
    while j < needle.len()
        invariant
            hl == hay@.len(),
            j <= needle@.len(),
            i + needle@.len() <= hay@.len(),
            forall|k: int| 0 <= k < j ==> hay@[i + k] == needle@[k],
        decreases needle.len() - j,
    {
        if hay[i + j] != needle[j] {
            assert(hay@.subrange(i as int, i + needle@.len())[j as int] != needle@[j as int]);
            return false;
        }
        j += 1;
    }
    assert(hay@.subrange(i as int, i + needle@.len()) =~= needle@);
    true
}

/// Substring search, as `str::contains` with a string pattern.
pub fn str_contains(hay: &str, needle: &str) -> (r: bool)
    ensures
        r == seq_contains(hay@, needle@),
{
    let h = chars_of(hay);
    let n = chars_of(needle);
    if n.len() > h.len() {
        return false;
    }
    let last = h.len() - n.len();
    let mut i: usize = 0;
    loop
        invariant
            h@ == hay@,
            n@ == needle@,
            last == h@.len() - n@.len(),
            i <= last,
            forall|k: int| 0 <= k < i ==> #[trigger] h@.subrange(k, k + n@.len()) != n@,
        decreases last - i,
    {
        if occurs_at(&h, &n, i) {
            return true;
        }
        if i == last {
            return false;
        }
        i += 1;
    }
}

/// Value of an ASCII decimal digit; other characters count as zero.
pub open spec fn digit_value(c: char) -> nat {
    if '0' <= c && c <= '9' {
        (c as nat - '0' as nat) as nat
    } else {
        0
    }
}

pub open spec fn is_digit(c: char) -> bool {
    '0' <= c && c <= '9'
}

/// Decimal value of a run of digits.
pub open spec fn decimal_value(s: Seq<char>) -> nat
    decreases s.len(),
{
    if s.len() == 0 {
        0
    } else {
        decimal_value(s.drop_last()) * 10 + digit_value(s.last())
    }
}

pub open spec fn all_digits(s: Seq<char>) -> bool {
    forall|i: int| 0 <= i < s.len() ==> is_digit(#[trigger] s[i])
}

/// `u16::from_str`: an optional `+`, then one or more ASCII digits whose
/// value fits in 16 bits.
pub open spec fn parse_u16_spec(s: Seq<char>) -> Option<u16> {
    let d = if s.len() > 0 && s[0] == '+' { s.drop_first() } else { s };
    if d.len() > 0 && all_digits(d) && decimal_value(d) <= u16::MAX {
        Some(decimal_value(d) as u16)
    } else {
        None
    }
}

/// The digit value of an ASCII digit.
pub fn digit_of(c: char) -> (r: Option<u32>)
    ensures
        match r {
            Some(d) => is_digit(c) && d == digit_value(c),
            None => !is_digit(c),
        },
{
    let v = c as u32;
    if 48 <= v && v <= 57 {
        Some(v - 48)
    } else {
        None
    }
}

/// `min(decimal_value(v[from..to]), cap)`, for a run of digits.
pub fn decimal_value_capped(v: &Vec<char>, from: usize, to: usize, cap: u32) -> (r: u32)
    requires
        from <= to <= v@.len(),
        all_digits(v@.subrange(from as int, to as int)),
        cap <= 100_000,
    ensures
        r == if decimal_value(v@.subrange(from as int, to as int)) <= cap {
            decimal_value(v@.subrange(from as int, to as int))
        } else {
            cap as nat
        },
{
    let mut val: u32 = 0;
    let mut i = from;
    while i < to
        invariant
            from <= i <= to <= v@.len(),
            all_digits(v@.subrange(from as int, to as int)),
            cap <= 100_000,
            val == if decimal_value(v@.subrange(from as int, i as int)) <= cap {
                decimal_value(v@.subrange(from as int, i as int))
            } else {
                cap as nat
            },
        decreases to - i,
    {
        assert(v@.subrange(from as int, to as int)[i - from] == v@[i as int]);
        let d = digit_of(v[i]).unwrap();
        let ghost prev = v@.subrange(from as int, i as int);
        assert(v@.subrange(from as int, i + 1).drop_last() =~= prev);
        let next = val * 10 + d;
        val = if next <= cap { next } else { cap };
        i += 1;
    }
    val
}

/// `u16::from_str` on a string.
pub fn parse_u16(s: &str) -> (r: Option<u16>)
    ensures
        r == parse_u16_spec(s@),
{
    let v = chars_of(s);
    let start: usize = if v.len() > 0 && v[0] == '+' { 1 } else { 0 };
    let ghost d = if v@.len() > 0 && v@[0] == '+' { v@.drop_first() } else { v@ };
    assert(d =~= v@.subrange(start as int, v@.len() as int));
    if start == v.len() {
        return None;
    }
    let mut i = start;
    while i < v.len()
        invariant
            start <= i <= v@.len(),
            v@ == s@,
            d == (if v@.len() > 0 && v@[0] == '+' { v@.drop_first() } else { v@ }),
            d == v@.subrange(start as int, v@.len() as int),
            forall|k: int| start <= k < i ==> is_digit(#[trigger] v@[k]),
        decreases v.len() - i,
    {
        if digit_of(v[i]).is_none() {
            assert(d[i - start] == v@[i as int]);
            assert(!all_digits(d));
            return None;
        }
        i += 1;
    }
    assert(all_digits(v@.subrange(start as int, v@.len() as int))) by {
        assert forall|k: int| 0 <= k < v@.len() - start implies is_digit(
            #[trigger] v@.subrange(start as int, v@.len() as int)[k],
        ) by {
            assert(v@.subrange(start as int, v@.len() as int)[k] == v@[start + k]);
        }
    }
    let val = decimal_value_capped(&v, start, v.len(), 65536);
    if val <= 65535 {
        Some(val as u16)
    } else {
        None
    }
}


/// The string with leading and trailing whitespace removed, as
/// `str::trim` returns it.
pub fn trim_str(s: &str) -> (r: &str)
    ensures
        r@ == trim(s@),
{
    let v = chars_of(s);
    let (a, b) = trim_bounds(&v, 0, v.len());
    assert(v@.subrange(0, v@.len() as int) =~= v@);
    s.substring_char(a, b)
}

/// Whether two strings hold the same characters.
pub fn str_eq(a: &str, b: &str) -> (r: bool)
    ensures
        r == (a@ == b@),
{
    let x = chars_of(a);
    let y = chars_of(b);
    if x.len() != y.len() {
        return false;
    }
    let mut i: usize = 0;
    while i < x.len()
        invariant
            i <= x@.len(),
            x@ == a@,
            y@ == b@,
            x@.len() == y@.len(),
            forall|k: int| 0 <= k < i ==> x@[k] == y@[k],
        decreases x.len() - i,
    {
        if x[i] != y[i] {
            assert(a@[i as int] != b@[i as int]);
            return false;
        }
        i += 1;
    }
    assert(x@ =~= y@);
    true
}


/// Decimal digits of a number.
pub open spec fn decimal_string(n: nat) -> Seq<char>
    decreases n,
{
    if n < 10 {
        seq![digit_char(n)]
    } else {
        decimal_string(n / 10).push(digit_char(n % 10))
    }
}

pub open spec fn digit_char(d: nat) -> char {
    if d == 0 { '0' } else if d == 1 { '1' } else if d == 2 { '2' } else if d == 3 { '3' } else if d == 4 { '4' }
    else if d == 5 { '5' } else if d == 6 { '6' } else if d == 7 { '7' } else if d == 8 { '8' } else { '9' }
}

/// The decimal digits of a number read back as the number: they are one
/// or more ASCII digits, without a sign, whose value is the number.
pub proof fn lemma_decimal_string_value(n: nat)
    ensures
        decimal_string(n).len() > 0,
        all_digits(decimal_string(n)),
        decimal_string(n)[0] != '+',
        decimal_value(decimal_string(n)) == n,
    decreases n,
{
    if n < 10 {
        lemma_digit_char_value(n);
        assert(decimal_string(n).drop_last() =~= Seq::<char>::empty());
        assert(decimal_value(Seq::<char>::empty()) == 0);
        assert(decimal_value(decimal_string(n)) == decimal_value(decimal_string(n).drop_last()) * 10 + digit_value(digit_char(n)));
    } else {
        lemma_digit_char_value(n % 10);
        lemma_decimal_string_value(n / 10);
        let s = decimal_string(n / 10);
        let c = digit_char(n % 10);
        assert(decimal_string(n) == s.push(c));
        assert(s.push(c).drop_last() =~= s);
        assert(s.push(c)[0] == s[0]);
        assert forall|i: int| 0 <= i < s.push(c).len() implies is_digit(#[trigger] s.push(c)[i]) by {
            if i < s.len() {
                assert(s.push(c)[i] == s[i]);
            }
        }
        assert(decimal_value(s.push(c)) == decimal_value(s) * 10 + digit_value(c));
        assert(decimal_value(s) == n / 10);
        assert(digit_value(c) == n % 10);
        assert(n == (n / 10) * 10 + n % 10);
        assert(decimal_value(s) * 10 + digit_value(c) == n);
    }
}

proof fn lemma_digit_char_value(d: nat)
    requires
        d < 10,
    ensures
        is_digit(digit_char(d)),
        digit_char(d) != '+',
        digit_value(digit_char(d)) == d,
{
}

/// A number printed in decimal parses back to itself (when it fits).
pub proof fn lemma_parse_decimal_string(n: nat, max: nat)
    requires
        n <= max,
    ensures
        parse_unsigned_spec(decimal_string(n), max) == Some(n),
{
    lemma_decimal_string_value(n);
}

pub fn digit_str(d: u64) -> (r: &'static str)
    requires
        d < 10,
    ensures
        r@ == seq![digit_char(d as nat)],
{
    proof {
        reveal_strlit("0");
        reveal_strlit("1");
        reveal_strlit("2");
        reveal_strlit("3");
        reveal_strlit("4");
        reveal_strlit("5");
        reveal_strlit("6");
        reveal_strlit("7");
        reveal_strlit("8");
        reveal_strlit("9");
    }
    if d == 0 { "0" } else if d == 1 { "1" } else if d == 2 { "2" } else if d == 3 { "3" } else if d == 4 { "4" }
    else if d == 5 { "5" } else if d == 6 { "6" } else if d == 7 { "7" } else if d == 8 { "8" } else { "9" }
}

/// Append the decimal digits of `n`.
pub fn append_decimal(s: &mut String, n: u64)
    ensures
        final(s)@ == old(s)@ + decimal_string(n as nat),
    decreases n,
{
    if n < 10 {
        s.append(digit_str(n));
    } else {
        append_decimal(s, n / 10);
        s.append(digit_str(n % 10));
        assert(old(s)@ + decimal_string(n as nat) =~= old(s)@ + decimal_string((n / 10) as nat) + seq![digit_char((n % 10) as nat)]);
    }
}


/// `min(decimal_value(v[from..to]), cap)` for a run of digits, with a wide
/// accumulator.
pub fn decimal_value_capped_wide(v: &Vec<char>, from: usize, to: usize, cap: u128) -> (r: u128)
    requires
        from <= to <= v@.len(),
        all_digits(v@.subrange(from as int, to as int)),
        cap <= 0x2_0000_0000_0000_0000,
    ensures
        r == if decimal_value(v@.subrange(from as int, to as int)) <= cap {
            decimal_value(v@.subrange(from as int, to as int))
        } else {
            cap as nat
        },
{
    let mut val: u128 = 0;
    let mut i = from;
    while i < to
        invariant
            from <= i <= to <= v@.len(),
            all_digits(v@.subrange(from as int, to as int)),
            cap <= 0x2_0000_0000_0000_0000,
            val == if decimal_value(v@.subrange(from as int, i as int)) <= cap {
                decimal_value(v@.subrange(from as int, i as int))
            } else {
                cap as nat
            },
        decreases to - i,
    {
        assert(v@.subrange(from as int, to as int)[i - from] == v@[i as int]);
        let d = digit_of(v[i]).unwrap();
        assert(v@.subrange(from as int, i + 1).drop_last() =~= v@.subrange(from as int, i as int));
        let next = val * 10 + d as u128;
        val = if next <= cap { next } else { cap };
        i += 1;
    }
    val
}

/// `from_str` of an unsigned integer type whose maximum is `max`: an
/// optional `+`, then one or more ASCII digits whose value is at most `max`.
pub open spec fn parse_unsigned_spec(s: Seq<char>, max: nat) -> Option<nat> {
    let d = if s.len() > 0 && s[0] == '+' { s.drop_first() } else { s };
    if d.len() > 0 && all_digits(d) && decimal_value(d) <= max {
        Some(decimal_value(d))
    } else {
        None
    }
}

/// Parse an unsigned decimal of at most `max` (`u32::from_str` for
/// `max == u32::MAX`, `u64::from_str` for `u64::MAX`).
pub fn parse_unsigned(s: &str, max: u64) -> (r: Option<u64>)
    ensures
        match r {
            Some(v) => parse_unsigned_spec(s@, max as nat) == Some(v as nat),
            None => parse_unsigned_spec(s@, max as nat) is None,
        },
{
    let v = chars_of(s);
    let start: usize = if v.len() > 0 && v[0] == '+' { 1 } else { 0 };
    let ghost d = if v@.len() > 0 && v@[0] == '+' { v@.drop_first() } else { v@ };
    assert(d =~= v@.subrange(start as int, v@.len() as int));
    if start == v.len() {
        return None;
    }
    let mut i = start;
    while i < v.len()
        invariant
            start <= i <= v@.len(),
            v@ == s@,
            d == (if v@.len() > 0 && v@[0] == '+' { v@.drop_first() } else { v@ }),
            d == v@.subrange(start as int, v@.len() as int),
            forall|k: int| start <= k < i ==> is_digit(#[trigger] v@[k]),
        decreases v.len() - i,
    {
        if digit_of(v[i]).is_none() {
            assert(d[i - start] == v@[i as int]);
            assert(!all_digits(d));
            return None;
        }
        i += 1;
    }
    assert(all_digits(v@.subrange(start as int, v@.len() as int))) by {
        assert forall|k: int| 0 <= k < v@.len() - start implies is_digit(
            #[trigger] v@.subrange(start as int, v@.len() as int)[k],
        ) by {
            assert(v@.subrange(start as int, v@.len() as int)[k] == v@[start + k]);
        }
    }
    let cap: u128 = max as u128 + 1;
    let val = decimal_value_capped_wide(&v, start, v.len(), cap);
    if val <= max as u128 {
        Some(val as u64)
    } else {
        None
    }
}


/// A string of the given characters, as `String::from_iter` builds it.
#[verifier::external_body]
pub(crate) fn string_from_chars(v: Vec<char>) -> (r: String)
    ensures
        r@ == v@,
{
    String::from_iter(v)
}

/// `prefix` is a prefix of `s`.
pub open spec fn starts_with(s: Seq<char>, prefix: Seq<char>) -> bool {
    prefix.len() <= s.len() && s.subrange(0, prefix.len() as int) == prefix
}

/// `str::starts_with` with a string pattern.
pub fn str_starts_with(s: &str, prefix: &str) -> (r: bool)
    ensures
        r == starts_with(s@, prefix@),
{
    let h = chars_of(s);
    let p = chars_of(prefix);
    if p.len() > h.len() {
        return false;
    }
    occurs_at(&h, &p, 0)
}

} // verus!
