//! Rendering helpers for the human-readable reason strings that filters
//! attach to an ignored record.

use vstd::prelude::*;

verus! {

use vstd::string::StringExecFns;

/// What `String::from_utf8_lossy` returns for the given bytes; the result is
/// a function of the bytes alone.
pub uninterp spec fn utf8_lossy_of(bytes: Seq<u8>) -> Seq<char>;

/// Relies on `String::from_utf8_lossy`: the decoding depends on the bytes
/// alone, and bytes that are valid UTF-8 decode to exactly their scalar
/// sequence.
#[verifier::external_body]
pub(crate) fn utf8_lossy(bytes: &[u8]) -> (r: String)
    ensures
        r@ == utf8_lossy_of(bytes@),
        vstd::utf8::valid_utf8(bytes@) ==> r@ == vstd::utf8::decode_utf8(bytes@),
{
    String::from_utf8_lossy(bytes).into_owned()
}

/// Relies on `std::str::from_utf8`: it returns `Ok` exactly on valid UTF-8.
#[verifier::external_body]
pub(crate) fn is_valid_utf8(bytes: &[u8]) -> (r: bool)
    ensures
        r == vstd::utf8::valid_utf8(bytes@),
{
    std::str::from_utf8(bytes).is_ok()
}

/// The lower-case hexadecimal digit for a nibble.
pub open spec fn spec_hex_digit(d: u8) -> Seq<char> {
    if d == 0 {
        "0"@
    } else if d == 1 {
        "1"@
    } else if d == 2 {
        "2"@
    } else if d == 3 {
        "3"@
    } else if d == 4 {
        "4"@
    } else if d == 5 {
        "5"@
    } else if d == 6 {
        "6"@
    } else if d == 7 {
        "7"@
    } else if d == 8 {
        "8"@
    } else if d == 9 {
        "9"@
    } else if d == 10 {
        "a"@
    } else if d == 11 {
        "b"@
    } else if d == 12 {
        "c"@
    } else if d == 13 {
        "d"@
    } else {
        if d == 14 {
            "e"@
        } else {
            "f"@
        }
    }
}

fn push_hex_digit(s: &mut String, d: u8)
    ensures
        final(s)@ == old(s)@ + spec_hex_digit(d),
{
    if d == 0 {
        s.append("0");
    } else if d == 1 {
        s.append("1");
    } else if d == 2 {
        s.append("2");
    } else if d == 3 {
        s.append("3");
    } else if d == 4 {
        s.append("4");
    } else if d == 5 {
        s.append("5");
    } else if d == 6 {
        s.append("6");
    } else if d == 7 {
        s.append("7");
    } else if d == 8 {
        s.append("8");
    } else if d == 9 {
        s.append("9");
    } else if d == 10 {
        s.append("a");
    } else if d == 11 {
        s.append("b");
    } else if d == 12 {
        s.append("c");
    } else if d == 13 {
        s.append("d");
    } else if d == 14 {
        s.append("e");
    } else {
        s.append("f");
    }
}

/// The eight lower-case hexadecimal digits of a 32-bit value, most
/// significant first.
pub open spec fn spec_hex_u32(h: u32) -> Seq<char> {
    spec_hex_digit(((h >> 28) & 0xf) as u8) + spec_hex_digit(((h >> 24) & 0xf) as u8)
        + spec_hex_digit(((h >> 20) & 0xf) as u8) + spec_hex_digit(((h >> 16) & 0xf) as u8)
        + spec_hex_digit(((h >> 12) & 0xf) as u8) + spec_hex_digit(((h >> 8) & 0xf) as u8)
        + spec_hex_digit(((h >> 4) & 0xf) as u8) + spec_hex_digit((h & 0xf) as u8)
}

/// The sixteen lower-case hexadecimal digits of a 64-bit value, most
/// significant first.
pub open spec fn spec_hex_u64(n: u64) -> Seq<char> {
    spec_hex_digit(((n >> 60) & 0xf) as u8) + spec_hex_digit(((n >> 56) & 0xf) as u8)
        + spec_hex_digit(((n >> 52) & 0xf) as u8) + spec_hex_digit(((n >> 48) & 0xf) as u8)
        + spec_hex_digit(((n >> 44) & 0xf) as u8) + spec_hex_digit(((n >> 40) & 0xf) as u8)
        + spec_hex_digit(((n >> 36) & 0xf) as u8) + spec_hex_digit(((n >> 32) & 0xf) as u8)
        + spec_hex_digit(((n >> 28) & 0xf) as u8) + spec_hex_digit(((n >> 24) & 0xf) as u8)
        + spec_hex_digit(((n >> 20) & 0xf) as u8) + spec_hex_digit(((n >> 16) & 0xf) as u8)
        + spec_hex_digit(((n >> 12) & 0xf) as u8) + spec_hex_digit(((n >> 8) & 0xf) as u8)
        + spec_hex_digit(((n >> 4) & 0xf) as u8) + spec_hex_digit((n & 0xf) as u8)
}

/// Appends the eight hexadecimal digits of `h` to `s`.
pub(crate) fn push_hex_u32(s: &mut String, h: u32)
    ensures
        final(s)@ == old(s)@ + spec_hex_u32(h),
{
    proof {
        assert(((h >> 28) & 0xf) < 16 && ((h >> 24) & 0xf) < 16 && ((h >> 20) & 0xf) < 16 && ((h
            >> 16) & 0xf) < 16 && ((h >> 12) & 0xf) < 16 && ((h >> 8) & 0xf) < 16 && ((h >> 4)
            & 0xf) < 16 && (h & 0xf) < 16) by (bit_vector);
    }
    push_hex_digit(s, ((h >> 28) & 0xf) as u8);
    push_hex_digit(s, ((h >> 24) & 0xf) as u8);
    push_hex_digit(s, ((h >> 20) & 0xf) as u8);
    push_hex_digit(s, ((h >> 16) & 0xf) as u8);
    push_hex_digit(s, ((h >> 12) & 0xf) as u8);
    push_hex_digit(s, ((h >> 8) & 0xf) as u8);
    push_hex_digit(s, ((h >> 4) & 0xf) as u8);
    push_hex_digit(s, (h & 0xf) as u8);
    proof {
        assert(s@ =~= old(s)@ + spec_hex_u32(h));
    }
}

/// Appends the sixteen hexadecimal digits of `n` to `s`.
#[verifier::rlimit(60)]
pub(crate) fn push_hex_u64(s: &mut String, n: u64)
    ensures
        final(s)@ == old(s)@ + spec_hex_u64(n),
{
    proof {
        assert(((n >> 60) & 0xf) < 16 && ((n >> 56) & 0xf) < 16 && ((n >> 52) & 0xf) < 16 && ((n
            >> 48) & 0xf) < 16 && ((n >> 44) & 0xf) < 16 && ((n >> 40) & 0xf) < 16 && ((n >> 36)
            & 0xf) < 16 && ((n >> 32) & 0xf) < 16 && ((n >> 28) & 0xf) < 16 && ((n >> 24) & 0xf)
            < 16 && ((n >> 20) & 0xf) < 16 && ((n >> 16) & 0xf) < 16 && ((n >> 12) & 0xf) < 16 && (
        (n >> 8) & 0xf) < 16 && ((n >> 4) & 0xf) < 16 && (n & 0xf) < 16) by (bit_vector);
    }
    push_hex_digit(s, ((n >> 60) & 0xf) as u8);
    push_hex_digit(s, ((n >> 56) & 0xf) as u8);
    push_hex_digit(s, ((n >> 52) & 0xf) as u8);
    push_hex_digit(s, ((n >> 48) & 0xf) as u8);
    push_hex_digit(s, ((n >> 44) & 0xf) as u8);
    push_hex_digit(s, ((n >> 40) & 0xf) as u8);
    push_hex_digit(s, ((n >> 36) & 0xf) as u8);
    push_hex_digit(s, ((n >> 32) & 0xf) as u8);
    push_hex_digit(s, ((n >> 28) & 0xf) as u8);
    push_hex_digit(s, ((n >> 24) & 0xf) as u8);
    push_hex_digit(s, ((n >> 20) & 0xf) as u8);
    push_hex_digit(s, ((n >> 16) & 0xf) as u8);
    push_hex_digit(s, ((n >> 12) & 0xf) as u8);
    push_hex_digit(s, ((n >> 8) & 0xf) as u8);
    push_hex_digit(s, ((n >> 4) & 0xf) as u8);
    push_hex_digit(s, (n & 0xf) as u8);
    proof {
        assert(s@ =~= old(s)@ + spec_hex_u64(n));
    }
}

} // verus!
