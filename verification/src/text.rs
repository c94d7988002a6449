//! Small verified string utilities shared across the library: equality,
//! suffix tests, searching, splitting and decimal parsing over character
//! views.

use vstd::prelude::*;

verus! {

/// Character-for-character string equality.
pub fn str_eq(a: &str, b: &str) -> (r: bool)
    ensures
        r <==> a@ == b@,
{
    let na = a.unicode_len();
    let nb = b.unicode_len();
    if na != nb {
        assert(a@.len() != b@.len());
        return false;
    }
    for i in 0..na
        invariant
            na == a@.len(),
            na == b@.len(),
            forall|j: int| 0 <= j < i ==> a@[j] == b@[j],
    {
        if a.get_char(i) != b.get_char(i) {
            return false;
        }
    }
    assert(a@ =~= b@);
    true
}

/// Whether `s` ends with `suffix`.
pub open spec fn spec_ends_with(s: Seq<char>, suffix: Seq<char>) -> bool {
    s.len() >= suffix.len() && s.skip(s.len() - suffix.len()) == suffix
}

/// Whether `s` starts with `prefix`.
pub open spec fn spec_starts_with(s: Seq<char>, prefix: Seq<char>) -> bool {
    s.len() >= prefix.len() && s.take(prefix.len() as int) == prefix
}

/// Suffix test over characters.
pub fn ends_with(s: &str, suffix: &str) -> (r: bool)
    ensures
        r <==> spec_ends_with(s@, suffix@),
{
    let n = s.unicode_len();
    let m = suffix.unicode_len();
    if n < m {
        return false;
    }
    let tail = s.substring_char(n - m, n);
    assert(tail@ =~= s@.skip(s@.len() - suffix@.len()));
    str_eq(tail, suffix)
}

/// Prefix test over characters.
pub fn starts_with(s: &str, prefix: &str) -> (r: bool)
    ensures
        r <==> spec_starts_with(s@, prefix@),
{
    let n = s.unicode_len();
    let m = prefix.unicode_len();
    if n < m {
        return false;
    }
    let head = s.substring_char(0, m);
    assert(head@ =~= s@.take(prefix@.len() as int));
    str_eq(head, prefix)
}

/// Find the first occurrence of a character.
pub fn find_char(s: &str, c: char) -> (r: Option<usize>)
    ensures
        r matches Some(i) ==> i < s@.len() && s@[i as int] == c && forall|j: int|
            0 <= j < i ==> s@[j] != c,
        r is None ==> forall|j: int| 0 <= j < s@.len() ==> s@[j] != c,
{
    let n = s.unicode_len();
    for i in 0..n
        invariant
            n == s@.len(),
            forall|j: int| 0 <= j < i ==> s@[j] != c,
    {
        if s.get_char(i) == c {
            return Some(i);
        }
    }
    None
}

/// The number of occurrences of a character in a string.
pub open spec fn spec_count_char(s: Seq<char>, c: char) -> int
    decreases s.len(),
{
    if s.len() == 0 {
        0
    } else {
        spec_count_char(s.drop_last(), c) + if s.last() == c {
            1int
        } else {
            0int
        }
    }
}

/// Count the occurrences of a character.
pub fn count_char(s: &str, c: char) -> (r: usize)
    ensures
        r == spec_count_char(s@, c),
        r <= s@.len(),
{
    let n = s.unicode_len();
    let mut count: usize = 0;
    proof {
        lemma_count_char_le(s@.take(0), c);
    }
    for i in 0..n
        invariant
            n == s@.len(),
            count == spec_count_char(s@.take(i as int), c),
            count <= i,
    {
        proof {
            assert(s@.take(i + 1).drop_last() =~= s@.take(i as int));
            assert(s@.take(i + 1).last() == s@[i as int]);
        }
        if s.get_char(i) == c {
            count = count + 1;
        }
    }
    proof {
        assert(s@.take(n as int) =~= s@);
    }
    count
}

/// Occurrence counts never exceed the string's length.
pub proof fn lemma_count_char_le(s: Seq<char>, c: char)
    ensures
        0 <= spec_count_char(s, c) <= s.len(),
    decreases s.len(),
{
    if s.len() > 0 {
        lemma_count_char_le(s.drop_last(), c);
    }
}

/// The index after the last occurrence of `pat` in `s`, if `pat` occurs;
/// used to pick what follows the final separator.
pub open spec fn spec_contains_at(s: Seq<char>, pat: Seq<char>, i: int) -> bool {
    0 <= i && i + pat.len() <= s.len() && s.subrange(i, i + pat.len()) == pat
}

/// Find the start of the last occurrence of `pat` in `s`.
pub fn rfind_str(s: &str, pat: &str) -> (r: Option<usize>)
    requires
        pat@.len() >= 1,
    ensures
        r matches Some(i) ==> spec_contains_at(s@, pat@, i as int) && forall|j: int|
            i < j ==> !spec_contains_at(s@, pat@, j),
        r is None ==> forall|j: int| !spec_contains_at(s@, pat@, j),
{
    let n = s.unicode_len();
    let m = pat.unicode_len();
    if n < m {
        proof {
            assert forall|j: int| !spec_contains_at(s@, pat@, j) by {}
        }
        return None;
    }
    let mut i: usize = n - m;
    loop
        invariant
            n == s@.len(),
            m == pat@.len(),
            m >= 1,
            i <= n - m,
            forall|j: int| i < j ==> !spec_contains_at(s@, pat@, j),
        decreases i + 1,
    {
        let cand = s.substring_char(i, i + m);
        if str_eq(cand, pat) {
            proof {
                assert(cand@ =~= s@.subrange(i as int, i + pat@.len()));
            }
            return Some(i);
        }
        proof {
            assert(cand@ =~= s@.subrange(i as int, i + pat@.len()));
            assert(!spec_contains_at(s@, pat@, i as int));
        }
        if i == 0 {
            return None;
        }
        i = i - 1;
    }
}

/// The numeric value of a decimal digit string, or nothing if any
/// character is not a digit or the string is empty.
pub open spec fn spec_parse_decimal(s: Seq<char>) -> Option<int>
    decreases s.len(),
{
    if s.len() == 0 {
        None
    } else if !('0' <= s.last() <= '9') {
        None
    } else if s.len() == 1 {
        Some(s.last() as int - '0' as int)
    } else {
        match spec_parse_decimal(s.drop_last()) {
            Some(high) => Some(high * 10 + (s.last() as int - '0' as int)),
            None => None,
        }
    }
}

/// Parse a decimal port number; `None` on an empty string, a non-digit,
/// or a value above 65535.
pub fn parse_port(s: &str) -> (r: Option<u16>)
    ensures
        r matches Some(v) ==> spec_parse_decimal(s@) == Some(v as int),
        r is None ==> spec_parse_decimal(s@) is None || (spec_parse_decimal(s@) matches Some(v)
            && v > 65535),
{
    let n = s.unicode_len();
    if n == 0 {
        return None;
    }
    let mut value: u32 = 0;
    for i in 0..n
        invariant
            n == s@.len(),
            n >= 1,
            spec_parse_decimal(s@.take(i as int)) == if i == 0 {
                None
            } else {
                Some(value as int)
            },
            i == 0 ==> value == 0,
            value <= 65535,
    {
        let c = s.get_char(i);
        if c < '0' || c > '9' {
            proof {
                lemma_parse_decimal_bad_digit(s@, i as int);
            }
            return None;
        }
        let d = c as u32 - '0' as u32;
        proof {
            assert(s@.take(i + 1).drop_last() =~= s@.take(i as int));
            assert(s@.take(i + 1).last() == s@[i as int]);
            assert('0' <= c <= '9');
            assert(d as int == c as int - '0' as int);
            assert(spec_parse_decimal(s@.take(i + 1)) == Some(value as int * 10 + d as int));
        }
        let next = value * 10 + d;
        if next > 65535 {
            proof {
                lemma_parse_decimal_grows(s@, i + 1);
            }
            return None;
        }
        value = next;
    }
    proof {
        assert(s@.take(n as int) =~= s@);
    }
    Some(value as u16)
}

/// A parsed digit string is never negative.
proof fn lemma_parse_decimal_nonneg(s: Seq<char>)
    ensures
        spec_parse_decimal(s) matches Some(v) ==> v >= 0,
    decreases s.len(),
{
    if s.len() > 1 {
        lemma_parse_decimal_nonneg(s.drop_last());
    }
}

/// A non-digit anywhere makes the whole string unparsable.
proof fn lemma_parse_decimal_bad_digit(s: Seq<char>, i: int)
    requires
        0 <= i < s.len(),
        !('0' <= s[i] <= '9'),
    ensures
        spec_parse_decimal(s) is None,
    decreases s.len(),
{
    if s.len() > 0 {
        if i < s.len() - 1 {
            lemma_parse_decimal_bad_digit(s.drop_last(), i);
        }
    }
}

/// Extending a digit string only raises its value.
proof fn lemma_parse_decimal_grows(s: Seq<char>, i: int)
    requires
        0 < i <= s.len(),
        spec_parse_decimal(s.take(i)) is Some,
    ensures
        spec_parse_decimal(s) is None || (spec_parse_decimal(s) matches Some(v) && v
            >= spec_parse_decimal(s.take(i))->0),
    decreases s.len() - i,
{
    if i == s.len() {
        assert(s.take(i) =~= s);
    } else {
        let t = s.take(i + 1);
        assert(t.drop_last() =~= s.take(i));
        assert(t.last() == s[i]);
        if '0' <= s[i] <= '9' {
            lemma_parse_decimal_nonneg(s.take(i));
            assert(spec_parse_decimal(t) matches Some(v) && v >= spec_parse_decimal(s.take(i))->0);
            lemma_parse_decimal_grows(s, i + 1);
        } else {
            lemma_parse_decimal_bad_digit(s, i);
        }
    }
}

/// The decimal rendering of a non-negative number, without leading
/// zeros; digits reuse the hex digit table, which agrees on 0 through 9.
pub open spec fn spec_dec(v: int) -> Seq<char>
    recommends
        v >= 0,
    decreases v,
{
    if v < 10 {
        seq![crate::hexcode::hex_digit(v)]
    } else {
        spec_dec(v / 10).push(crate::hexcode::hex_digit(v % 10))
    }
}

/// Render a port number in decimal.
pub fn u16_to_dec(v: u16) -> (r: String)
    ensures
        r@ == spec_dec(v as int),
    decreases v,
{
    let mut out = if v >= 10 {
        u16_to_dec(v / 10)
    } else {
        String::new()
    };
    crate::hexcode::string_push(&mut out, crate::hexcode::hex_digit_char((v % 10) as u8));
    proof {
        if v < 10 {
            assert(out@ =~= spec_dec(v as int));
        }
    }
    out
}

/// Render a timestamp or other wide number in decimal.
pub fn u64_to_dec(v: u64) -> (r: String)
    ensures
        r@ == spec_dec(v as int),
    decreases v,
{
    let mut out = if v >= 10 {
        u64_to_dec(v / 10)
    } else {
        String::new()
    };
    crate::hexcode::string_push(&mut out, crate::hexcode::hex_digit_char((v % 10) as u8));
    proof {
        if v < 10 {
            assert(out@ =~= spec_dec(v as int));
        }
    }
    out
}

/// Find the start of the first occurrence of `pat` in `s`.
pub fn find_str(s: &str, pat: &str) -> (r: Option<usize>)
    requires
        pat@.len() >= 1,
    ensures
        r matches Some(i) ==> spec_contains_at(s@, pat@, i as int) && forall|j: int|
            0 <= j < i ==> !spec_contains_at(s@, pat@, j),
        r is None ==> forall|j: int| !spec_contains_at(s@, pat@, j),
{
    let n = s.unicode_len();
    let m = pat.unicode_len();
    if n < m {
        return None;
    }
    for i in 0..(n - m) + 1
        invariant
            n == s@.len(),
            m == pat@.len(),
            m >= 1,
            n >= m,
            forall|j: int| 0 <= j < i ==> !spec_contains_at(s@, pat@, j),
    {
        let cand = s.substring_char(i, i + m);
        proof {
            assert(cand@ =~= s@.subrange(i as int, i + pat@.len()));
        }
        if str_eq(cand, pat) {
            return Some(i);
        }
    }
    None
}

/// Whether `pat` occurs anywhere in `s`.
pub fn contains_str(s: &str, pat: &str) -> (r: bool)
    requires
        pat@.len() >= 1,
    ensures
        r <==> exists|i: int| spec_contains_at(s@, pat@, i),
{
    find_str(s, pat).is_some()
}

} // verus!
