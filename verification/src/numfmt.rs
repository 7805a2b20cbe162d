//! Decimal and hexadecimal rendering of unsigned integers.
//!
//! Trace tags and evidence identifiers carry numbers as text; these helpers
//! pin the exact character sequences produced.

use vstd::prelude::*;
use vstd::string::StringExecFns;

verus! {

/// The decimal digit character for a value below ten.
pub open spec fn spec_digit_char(d: int) -> char
    recommends
        0 <= d < 10,
{
    if d == 0 {
        '0'
    } else if d == 1 {
        '1'
    } else if d == 2 {
        '2'
    } else if d == 3 {
        '3'
    } else if d == 4 {
        '4'
    } else if d == 5 {
        '5'
    } else if d == 6 {
        '6'
    } else if d == 7 {
        '7'
    } else if d == 8 {
        '8'
    } else {
        '9'
    }
}

/// The lowercase hexadecimal digit character for a value below sixteen.
pub open spec fn spec_hex_char(d: int) -> char
    recommends
        0 <= d < 16,
{
    if d < 10 {
        spec_digit_char(d)
    } else if d == 10 {
        'a'
    } else if d == 11 {
        'b'
    } else if d == 12 {
        'c'
    } else if d == 13 {
        'd'
    } else if d == 14 {
        'e'
    } else {
        'f'
    }
}

/// The usual decimal rendering of a natural number, without leading zeros.
pub open spec fn spec_dec(n: nat) -> Seq<char>
    decreases n,
{
    if n < 10 {
        seq![spec_digit_char(n as int)]
    } else {
        spec_dec(n / 10) + seq![spec_digit_char((n % 10) as int)]
    }
}

/// The lowercase two-digit hexadecimal rendering of one byte.
pub open spec fn spec_hex_byte(b: u8) -> Seq<char> {
    seq![spec_hex_char(b as int / 16), spec_hex_char(b as int % 16)]
}

/// The lowercase hexadecimal rendering of a byte sequence, two digits a byte.
pub open spec fn spec_hex(bytes: Seq<u8>) -> Seq<char>
    decreases bytes.len(),
{
    if bytes.len() == 0 {
        Seq::empty()
    } else {
        spec_hex_byte(bytes[0]) + spec_hex(bytes.drop_first())
    }
}

/// A single lowercase hexadecimal digit as a string slice.
fn hex_digit_str(d: u8) -> (r: &'static str)
    requires
        d < 16,
    ensures
        r@ == seq![spec_hex_char(d as int)],
{
    proof {
        reveal_strlit("0");
        reveal_strlit("1");
        reveal_strlit("2");
        reveal_strlit("3");
        reveal_strlit("4");
        reveal_strlit("5");
        reveal_strlit("6");
        reveal_strlit("7");
        reveal_strlit("8");
        reveal_strlit("9");
        reveal_strlit("a");
        reveal_strlit("b");
        reveal_strlit("c");
        reveal_strlit("d");
        reveal_strlit("e");
        reveal_strlit("f");
    }
    match d {
        0 => "0",
        1 => "1",
        2 => "2",
        3 => "3",
        4 => "4",
        5 => "5",
        6 => "6",
        7 => "7",
        8 => "8",
        9 => "9",
        10 => "a",
        11 => "b",
        12 => "c",
        13 => "d",
        14 => "e",
        _ => "f",
    }
}

/// A single decimal digit as a string slice.
fn digit_str(d: u64) -> (r: &'static str)
    requires
        d < 10,
    ensures
        r@ == seq![spec_digit_char(d as int)],
{
    hex_digit_str(d as u8)
}

/// Renders a number in decimal, producing exactly [`spec_dec`].
pub fn u64_to_dec(n: u64) -> (r: String)
    ensures
        r@ == spec_dec(n as nat),
    decreases n,
{
    if n < 10 {
        String::from_str(digit_str(n))
    } else {
        let mut s = u64_to_dec(n / 10);
        s.append(digit_str(n % 10));
        s
    }
}

/// Renders bytes as lowercase hexadecimal, producing exactly [`spec_hex`].
pub fn bytes_to_hex(bytes: &[u8]) -> (r: String)
    ensures
        r@ == spec_hex(bytes@),
{
    let mut out = String::new();
    let n = bytes.len();
    let mut i: usize = 0;
    proof {
        assert(bytes@.skip(0) == bytes@);
    }
    while i < n
        invariant
            n == bytes@.len(),
            i <= n,
            spec_hex(bytes@) == out@ + spec_hex(bytes@.skip(i as int)),
        decreases n - i,
    {
        let b = bytes[i];
        out.append(hex_digit_str(b / 16));
        out.append(hex_digit_str(b % 16));
        proof {
            assert(bytes@.skip(i as int).drop_first() == bytes@.skip(i + 1));
            assert(bytes@.skip(i as int)[0] == bytes@[i as int]);
        }
        i = i + 1;
    }
    proof {
        assert(bytes@.skip(n as int) =~= Seq::<u8>::empty());
        assert(spec_hex(bytes@) =~= out@);
    }
    out
}

/// The fixed-point rendering of a parts-per-million ratio with two places
/// after the point, truncating: `850000` renders as `0.85`, `1000000` as `1.00`.
pub open spec fn spec_ratio2(ppm: u32) -> Seq<char>
    recommends
        ppm <= 1_000_000,
{
    let h = ppm as int / 10_000;
    if h >= 100 {
        "1.00"@
    } else {
        seq!['0', '.', spec_digit_char(h / 10), spec_digit_char(h % 10)]
    }
}

/// Renders a parts-per-million ratio as its two-place fixed-point form.
pub fn ratio2_string(ppm: u32) -> (r: String)
    requires
        ppm <= 1_000_000,
    ensures
        r@ == spec_ratio2(ppm),
{
    let h = ppm / 10_000;
    if h >= 100 {
        let s = String::from_str("1.00");
        s
    } else {
        let mut s = String::from_str("0.");
        s.append(digit_str((h / 10) as u64));
        s.append(digit_str((h % 10) as u64));
        proof {
            reveal_strlit("0.");
            assert(s@ =~= spec_ratio2(ppm));
        }
        s
    }
}

} // verus!
