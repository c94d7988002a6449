//! Lowercase hexadecimal encoding and decoding of byte strings, verified
//! against a direct mathematical description.

use vstd::prelude::*;

verus! {

/// The lowercase hex digit for a value below sixteen.
pub open spec fn hex_digit(n: int) -> char
    recommends
        0 <= n < 16,
{
    if n == 0 {
        '0'
    } else if n == 1 {
        '1'
    } else if n == 2 {
        '2'
    } else if n == 3 {
        '3'
    } else if n == 4 {
        '4'
    } else if n == 5 {
        '5'
    } else if n == 6 {
        '6'
    } else if n == 7 {
        '7'
    } else if n == 8 {
        '8'
    } else if n == 9 {
        '9'
    } else if n == 10 {
        'a'
    } else if n == 11 {
        'b'
    } else if n == 12 {
        'c'
    } else if n == 13 {
        'd'
    } else if n == 14 {
        'e'
    } else {
        'f'
    }
}

/// The value of a hex digit, or -1 for any other character. Uppercase
/// digits are not accepted: the library emits and compares lowercase hex.
pub open spec fn hex_val(c: char) -> int {
    if c == '0' {
        0
    } else if c == '1' {
        1
    } else if c == '2' {
        2
    } else if c == '3' {
        3
    } else if c == '4' {
        4
    } else if c == '5' {
        5
    } else if c == '6' {
        6
    } else if c == '7' {
        7
    } else if c == '8' {
        8
    } else if c == '9' {
        9
    } else if c == 'a' {
        10
    } else if c == 'b' {
        11
    } else if c == 'c' {
        12
    } else if c == 'd' {
        13
    } else if c == 'e' {
        14
    } else if c == 'f' {
        15
    } else {
        -1
    }
}

/// The lowercase hex encoding of a byte string: two digits per byte,
/// high nibble first.
pub open spec fn hex_of(bytes: Seq<u8>) -> Seq<char>
    decreases bytes.len(),
{
    if bytes.len() == 0 {
        seq![]
    } else {
        seq![hex_digit(bytes.first() as int / 16), hex_digit(bytes.first() as int % 16)] + hex_of(
            bytes.drop_first(),
        )
    }
}

/// Whether a character string is a well-formed lowercase hex encoding.
pub open spec fn is_hex_str(s: Seq<char>) -> bool {
    &&& s.len() % 2 == 0
    &&& forall|i: int| 0 <= i < s.len() ==> hex_val(#[trigger] s[i]) >= 0
}

/// The bytes a well-formed hex string denotes.
pub open spec fn hex_bytes_of(s: Seq<char>) -> Seq<u8>
    recommends
        is_hex_str(s),
    decreases s.len(),
{
    if s.len() < 2 {
        seq![]
    } else {
        seq![(hex_val(s[0]) * 16 + hex_val(s[1])) as u8] + hex_bytes_of(s.skip(2))
    }
}

/// Relies on String::push: appends exactly one character.
#[verifier::external_body]
pub(crate) fn string_push(s: &mut String, c: char)
    ensures
        final(s)@ == old(s)@.push(c),
{
    s.push(c);
}

/// The lowercase hex digit character for a nibble.
pub fn hex_digit_char(n: u8) -> (c: char)
    requires
        n < 16,
    ensures
        c == hex_digit(n as int),
{
    match n {
        0 => '0',
        1 => '1',
        2 => '2',
        3 => '3',
        4 => '4',
        5 => '5',
        6 => '6',
        7 => '7',
        8 => '8',
        9 => '9',
        10 => 'a',
        11 => 'b',
        12 => 'c',
        13 => 'd',
        14 => 'e',
        _ => 'f',
    }
}

/// The value of a hex digit character, or 255 for any other character.
fn hex_digit_val(c: char) -> (v: u8)
    ensures
        hex_val(c) >= 0 ==> v == hex_val(c),
        hex_val(c) < 0 ==> v == 255,
{
    match c {
        '0' => 0,
        '1' => 1,
        '2' => 2,
        '3' => 3,
        '4' => 4,
        '5' => 5,
        '6' => 6,
        '7' => 7,
        '8' => 8,
        '9' => 9,
        'a' => 10,
        'b' => 11,
        'c' => 12,
        'd' => 13,
        'e' => 14,
        'f' => 15,
        _ => 255,
    }
}

/// Encode a byte string as lowercase hex, two digits per byte.
pub fn hex_encode(bytes: &[u8]) -> (r: String)
    ensures
        r@ == hex_of(bytes@),
{
    let mut out = String::new();
    let n = bytes.len();
    assert(bytes@.skip(0) == bytes@);
    for i in 0..n
        invariant
            n == bytes@.len(),
            hex_of(bytes@) =~= out@ + hex_of(bytes@.skip(i as int)),
    {
        let b = bytes[i];
        string_push(&mut out, hex_digit_char(b / 16));
        string_push(&mut out, hex_digit_char(b % 16));
        assert(bytes@.skip(i as int).drop_first() == bytes@.skip(i + 1));
    }
    out
}

/// Decode a lowercase hex string; `None` unless the whole string is a
/// well-formed encoding.
pub fn hex_decode(s: &str) -> (r: Option<Vec<u8>>)
    ensures
        r is Some <==> is_hex_str(s@),
        r matches Some(v) ==> v@ == hex_bytes_of(s@),
{
    let n = s.unicode_len();
    if n % 2 != 0 {
        return None;
    }
    let mut out: Vec<u8> = Vec::new();
    let mut i: usize = 0;
    assert(s@.skip(0) == s@);
    while i < n
        invariant
            n == s@.len(),
            n % 2 == 0,
            i % 2 == 0,
            i <= n,
            forall|j: int| 0 <= j < i ==> hex_val(#[trigger] s@[j]) >= 0,
            is_hex_str(s@) ==> hex_bytes_of(s@) =~= out@ + hex_bytes_of(s@.skip(i as int)),
            out@.len() == i / 2,
        decreases n - i,
    {
        let hi = hex_digit_val(s.get_char(i));
        let lo = hex_digit_val(s.get_char(i + 1));
        if hi == 255 || lo == 255 {
            return None;
        }
        out.push(hi * 16 + lo);
        assert(s@.skip(i as int).skip(2) == s@.skip(i + 2));
        i = i + 2;
    }
    assert(s@.skip(n as int) =~= Seq::<char>::empty());
    Some(out)
}

/// A hex encoding is twice as long as the bytes it encodes.
pub proof fn lemma_hex_of_len(bytes: Seq<u8>)
    ensures
        hex_of(bytes).len() == 2 * bytes.len(),
    decreases bytes.len(),
{
    if bytes.len() > 0 {
        lemma_hex_of_len(bytes.drop_first());
    }
}

/// A well-formed hex string denotes half as many bytes as it has digits.
pub proof fn lemma_hex_bytes_len(s: Seq<char>)
    requires
        s.len() % 2 == 0,
    ensures
        hex_bytes_of(s).len() == s.len() / 2,
    decreases s.len(),
{
    if s.len() >= 2 {
        lemma_hex_bytes_len(s.skip(2));
    }
}

/// Hex decoding inverts hex encoding: the digits written for a byte
/// string denote that byte string again.
pub proof fn lemma_hex_round_trip(bytes: Seq<u8>)
    ensures
        is_hex_str(hex_of(bytes)),
        hex_bytes_of(hex_of(bytes)) == bytes,
    decreases bytes.len(),
{
    if bytes.len() == 0 {
        assert(hex_bytes_of(hex_of(bytes)) =~= bytes);
    } else {
        lemma_hex_round_trip(bytes.drop_first());
        let b = bytes.first() as int;
        let enc = hex_of(bytes);
        assert(enc[0] == hex_digit(b / 16));
        assert(enc[1] == hex_digit(b % 16));
        assert(hex_val(hex_digit(b / 16)) == b / 16);
        assert(hex_val(hex_digit(b % 16)) == b % 16);
        assert(enc.skip(2) =~= hex_of(bytes.drop_first()));
        assert(hex_bytes_of(enc) =~= seq![b as u8] + hex_bytes_of(enc.skip(2)));
        assert(hex_bytes_of(hex_of(bytes)) =~= bytes);
    }
}

} // verus!
