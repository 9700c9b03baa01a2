//! Account addresses: twenty bytes written as forty hexadecimal digits.
use vstd::prelude::*;
use crate::error::TransferError;
use crate::hex_text::{
    ascii_lower, equal_ignoring_case, hex_body, hex_decoded, hex_digit_value, is_hex_digit,
    is_hex_text, lemma_digit_value_ignores_case, lemma_lower_digit_of_value, lower_hex_of,
};

verus! {

/// A parsed account address.
#[derive(Debug, Clone, Copy, PartialEq, Eq)]
pub struct Address {
    pub bytes: [u8; 20],
}

impl View for Address {
    type V = Seq<u8>;

    open spec fn view(&self) -> Seq<u8> {
        self.bytes@
    }
}

/// `s` is the text of an address: forty digits, with or without `0x`.
pub open spec fn is_address_text(s: Seq<char>) -> bool {
    is_hex_text(s, 20)
}

/// The twenty bytes that the address text `s` stands for.
pub open spec fn address_bytes_of(s: Seq<char>) -> Seq<u8> {
    hex_decoded(s, 20)
}

/// Relies on alloy's `Address::from_str`, which decodes with const-hex's
/// `decode_to_array`: an optional `0x`/`0X` prefix, then exactly two digits per
/// byte in either case; anything else is refused. Checksum casing is not checked.
#[verifier::external_body]
fn decode_address(s: &str) -> (r: Option<[u8; 20]>)
    ensures
        r.is_some() <==> is_address_text(s@),
        r matches Some(b) ==> b@ == address_bytes_of(s@),
{
    match s.parse::<alloy::primitives::Address>() {
        Ok(a) => Some(a.into_array()),
        Err(_) => None,
    }
}

/// Parses `text` as an address; `label` names it in the error.
pub fn validate_address(text: &str, label: &str) -> (r: Result<Address, TransferError>)
    ensures
        r is Ok <==> is_address_text(text@),
        r matches Ok(a) ==> a@ == address_bytes_of(text@),
        r matches Err(e) ==> (e matches TransferError::InvalidAddress { text: t, label: l }
            && t@ == text@ && l@ == label@),
{
    match decode_address(text) {
        Some(bytes) => Ok(Address { bytes }),
        None => Err(TransferError::InvalidAddress { text: text.to_string(), label: label.to_string() }),
    }
}

impl Address {
    /// The address's bytes.
    pub fn as_bytes(&self) -> (r: [u8; 20])
        ensures
            r@ == self@,
    {
        self.bytes
    }
}

/// An address text, read back in small letters, is its own digits in small
/// letters: the parsed address equals the text up to case.
pub proof fn lemma_address_matches_text(s: Seq<char>)
    requires
        is_address_text(s),
    ensures
        address_bytes_of(s).len() == 20,
        lower_hex_of(address_bytes_of(s)).len() == hex_body(s).len(),
        forall|k: int|
            0 <= k < 40 ==> #[trigger] lower_hex_of(address_bytes_of(s))[k] == ascii_lower(
                hex_body(s)[k],
            ),
{
    let d = hex_body(s);
    let b = address_bytes_of(s);
    assert forall|k: int| 0 <= k < 40 implies #[trigger] lower_hex_of(b)[k] == ascii_lower(
        d[k],
    ) by {
        let i = k / 2;
        assert(is_hex_digit(d[2 * i]));
        assert(is_hex_digit(d[2 * i + 1]));
        lemma_lower_digit_of_value(d[2 * i]);
        lemma_lower_digit_of_value(d[2 * i + 1]);
        let hi = hex_digit_value(d[2 * i]).unwrap();
        let lo = hex_digit_value(d[2 * i + 1]).unwrap();
        assert(b[i] as nat == hi * 16 + lo);
        assert((hi * 16 + lo) / 16 == hi && (hi * 16 + lo) % 16 == lo) by (nonlinear_arith)
            requires
                hi < 16,
                lo < 16,
        ;
    }
}

/// Two address texts that differ only in case (checksum casing or none) are
/// both accepted or both refused, and name the same address.
pub proof fn lemma_address_case_insensitive(s: Seq<char>, t: Seq<char>)
    requires
        equal_ignoring_case(s, t),
    ensures
        is_address_text(s) <==> is_address_text(t),
        is_address_text(s) ==> address_bytes_of(s) == address_bytes_of(t),
{
    let ds = hex_body(s);
    let dt = hex_body(t);
    if s.len() >= 2 {
        assert(ascii_lower(s[0]) == ascii_lower(t[0]));
        assert(ascii_lower(s[1]) == ascii_lower(t[1]));
    }
    assert(ds.len() == dt.len());
    assert(forall|i: int| 0 <= i < ds.len() ==> ascii_lower(#[trigger] ds[i]) == ascii_lower(dt[i])) by {
        assert forall|i: int| 0 <= i < ds.len() implies ascii_lower(#[trigger] ds[i]) == ascii_lower(dt[i]) by {
            if s.len() >= 2 && s[0] == '0' && (s[1] == 'x' || s[1] == 'X') {
                assert(ds[i] == s[i + 2] && dt[i] == t[i + 2]);
            } else {
                assert(ds[i] == s[i] && dt[i] == t[i]);
            }
        }
    }
    assert forall|i: int| 0 <= i < ds.len() implies hex_digit_value(#[trigger] ds[i])
        == hex_digit_value(dt[i]) by {
        lemma_digit_value_ignores_case(ds[i], dt[i]);
    }
    if is_address_text(s) {
        assert forall|i: int| 0 <= i < dt.len() implies #[trigger] is_hex_digit(dt[i]) by {
            assert(is_hex_digit(ds[i]));
        }
        assert(address_bytes_of(s) =~= address_bytes_of(t));
    }
    if is_address_text(t) {
        assert forall|i: int| 0 <= i < ds.len() implies #[trigger] is_hex_digit(ds[i]) by {
            assert(is_hex_digit(dt[i]));
        }
    }
}

} // verus!
