//! The signing key handed to a transfer, as the environment holds it.
use vstd::prelude::*;
use crate::error::TransferError;
use crate::hex_text::{hex_decoded, is_hex_text};

verus! {

/// The number that the bytes `b` spell, most significant first.
pub open spec fn big_endian_value(b: Seq<u8>) -> nat
    decreases b.len(),
{
    if b.len() == 0 {
        0
    } else {
        big_endian_value(b.drop_last()) * 256 + b.last() as nat
    }
}

/// The order of the secp256k1 group,
/// `FFFFFFFFFFFFFFFFFFFFFFFFFFFFFFFEBAAEDCE6AF48A03BBFD25E8CD0364141`.
pub open spec fn secp256k1_order() -> nat {
    0xFFFF_FFFF_FFFF_FFFF_FFFF_FFFF_FFFF_FFFEnat * 0x1_0000_0000_0000_0000_0000_0000_0000_0000nat
        + 0xBAAE_DCE6_AF48_A03B_BFD2_5E8C_D036_4141nat
}

/// The bytes are a secret key: read big-endian, a number above zero and below
/// the group order.
pub open spec fn is_secret_scalar(b: Seq<u8>) -> bool {
    0 < big_endian_value(b) < secp256k1_order()
}

/// The text is a usable signing key: 32 bytes in hexadecimal that form a secret scalar.
pub open spec fn is_signing_key_text(s: Seq<char>) -> bool {
    is_hex_text(s, 32) && is_secret_scalar(hex_decoded(s, 32))
}

/// Relies on alloy's `PrivateKeySigner::from_str`: it decodes exactly 32 bytes
/// with const-hex (optional `0x`/`0X`, two digits per byte, either case), then
/// elliptic-curve's `SecretKey::from_slice` reads them big-endian and accepts
/// the value when it is neither zero nor at least the secp256k1 order.
#[verifier::external_body]
fn signer_accepts(key: &str) -> (r: bool)
    ensures
        r == is_signing_key_text(key@),
{
    key.parse::<alloy::signers::local::PrivateKeySigner>().is_ok()
}

/// Checks the key found in the environment (`None` when the variable is not
/// set) and hands it back when a signer can be made from it.
pub fn load_credential(value: Option<String>) -> (r: Result<String, TransferError>)
    ensures
        value is None ==> r == Err::<String, TransferError>(TransferError::MissingCredential),
        value is Some && is_signing_key_text(value.unwrap()@) ==> r == Ok::<String, TransferError>(
            value.unwrap(),
        ),
        value is Some && !is_signing_key_text(value.unwrap()@) ==> r == Err::<String, TransferError>(
            TransferError::InvalidCredentialFormat,
        ),
{
    match value {
        None => Err(TransferError::MissingCredential),
        Some(key) => {
            if signer_accepts(key.as_str()) {
                Ok(key)
            } else {
                Err(TransferError::InvalidCredentialFormat)
            }
        },
    }
}

} // verus!
