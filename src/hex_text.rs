//! Hexadecimal text as the decoder of the outside crates reads it: an optional
//! `0x` (or `0X`) prefix followed by exactly two digits per byte, in any case.
use vstd::prelude::*;

verus! {

/// The value of one hexadecimal digit, if `c` is one.
pub open spec fn hex_digit_value(c: char) -> Option<nat> {
    if '0' <= c && c <= '9' {
        Some((c as nat - '0' as nat) as nat)
    } else if 'a' <= c && c <= 'f' {
        Some((c as nat - 'a' as nat + 10) as nat)
    } else if 'A' <= c && c <= 'F' {
        Some((c as nat - 'A' as nat + 10) as nat)
    } else {
        None
    }
}

pub open spec fn is_hex_digit(c: char) -> bool {
    hex_digit_value(c).is_some()
}

/// `c` with an ASCII capital letter turned into its small letter.
pub open spec fn ascii_lower(c: char) -> char {
    if 'A' <= c && c <= 'Z' {
        ((c as u32) + 32) as char
    } else {
        c
    }
}

/// Two texts that are equal when ASCII case is ignored.
pub open spec fn equal_ignoring_case(a: Seq<char>, b: Seq<char>) -> bool {
    &&& a.len() == b.len()
    &&& forall|i: int| 0 <= i < a.len() ==> #[trigger] ascii_lower(a[i]) == ascii_lower(b[i])
}

/// The digits of `s`, with a leading `0x` or `0X` taken off.
pub open spec fn hex_body(s: Seq<char>) -> Seq<char> {
    if s.len() >= 2 && s[0] == '0' && (s[1] == 'x' || s[1] == 'X') {
        s.subrange(2, s.len() as int)
    } else {
        s
    }
}

/// `s` encodes exactly `n` bytes.
pub open spec fn is_hex_text(s: Seq<char>, n: nat) -> bool {
    &&& hex_body(s).len() == 2 * n
    &&& forall|i: int| 0 <= i < hex_body(s).len() ==> #[trigger] is_hex_digit(hex_body(s)[i])
}

/// The byte that the digits at `2 * i` and `2 * i + 1` of `d` stand for.
pub open spec fn hex_byte_at(d: Seq<char>, i: int) -> u8 {
    (hex_digit_value(d[2 * i]).unwrap() * 16 + hex_digit_value(d[2 * i + 1]).unwrap()) as u8
}

/// The `n` bytes that the hexadecimal text `s` encodes.
pub open spec fn hex_decoded(s: Seq<char>, n: nat) -> Seq<u8> {
    Seq::new(n, |i: int| hex_byte_at(hex_body(s), i))
}

/// The small-letter digit of a value below sixteen.
pub open spec fn lower_hex_digit(v: nat) -> char {
    if v < 10 {
        ((v + '0' as nat) as u32) as char
    } else {
        ((v - 10 + 'a' as nat) as u32) as char
    }
}

/// The small-letter hexadecimal text of `b`, two digits per byte, without prefix.
pub open spec fn lower_hex_of(b: Seq<u8>) -> Seq<char> {
    Seq::new(
        2 * b.len(),
        |k: int|
            if k % 2 == 0 {
                lower_hex_digit(b[k / 2] as nat / 16)
            } else {
                lower_hex_digit(b[k / 2] as nat % 16)
            },
    )
}

/// Case does not change what a digit is worth.
pub proof fn lemma_digit_value_ignores_case(a: char, b: char)
    requires
        ascii_lower(a) == ascii_lower(b),
    ensures
        hex_digit_value(a) == hex_digit_value(b),
{
}

/// A digit's value, written back in small letters, gives the digit in small letters.
pub proof fn lemma_lower_digit_of_value(c: char)
    requires
        is_hex_digit(c),
    ensures
        hex_digit_value(c).unwrap() < 16,
        lower_hex_digit(hex_digit_value(c).unwrap()) == ascii_lower(c),
{
}

} // verus!
