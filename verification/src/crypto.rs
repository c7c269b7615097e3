//! HMAC-SHA256 (from the `hmac` and `sha2` crates) and lowercase hex (from
//! the `hex` crate), the two outside computations behind callback signatures.

use vstd::prelude::*;
use crate::text::digit_char;
use hmac::Mac;

verus! {

/// The HMAC-SHA256 tag of `message` under `key`, as `hmac::Hmac<sha2::Sha256>`
/// computes it (RFC 2104 over FIPS 180-4 SHA-256).
pub uninterp spec fn spec_hmac_sha256(key: Seq<u8>, message: Seq<u8>) -> Seq<u8>;

/// The lowercase hex digit for `n`, for `0 <= n < 16`.
pub open spec fn hex_char(n: int) -> char {
    if n < 10 {
        digit_char(n)
    } else if n == 10 {
        'a'
    } else if n == 11 {
        'b'
    } else if n == 12 {
        'c'
    } else if n == 13 {
        'd'
    } else if n == 14 {
        'e'
    } else {
        'f'
    }
}

/// The lowercase hex text of `bytes`: two digits per byte, high nibble first.
pub open spec fn hex_lower(bytes: Seq<u8>) -> Seq<char>
    decreases bytes.len(),
{
    if bytes.len() == 0 {
        Seq::empty()
    } else {
        hex_lower(bytes.drop_last()) + seq![
            hex_char(bytes.last() as int / 16),
            hex_char(bytes.last() as int % 16),
        ]
    }
}

/// Each byte becomes two hex digits.
pub proof fn lemma_hex_lower_len(bytes: Seq<u8>)
    ensures
        hex_lower(bytes).len() == 2 * bytes.len(),
    decreases bytes.len(),
{
    if bytes.len() > 0 {
        lemma_hex_lower_len(bytes.drop_last());
    }
}

/// The error type of `KeyInit::new_from_slice` (`crypto_common::InvalidLength`).
#[verifier::external_type_specification]
#[verifier::external_body]
pub struct ExInvalidLength(hmac::digest::InvalidLength);

/// The HMAC-SHA256 tag of `message` under `key`, computed by
/// `Hmac::<Sha256>::new_from_slice(key)`, `Mac::update(message)` and
/// `Mac::finalize().into_bytes()`. The contract states that the tag is the one
/// named by `spec_hmac_sha256`, that it is 32 bytes long (SHA-256's output
/// size), and that the call always succeeds: hmac 0.12 accepts a key of any
/// length, hashing a long one.
#[verifier::external_body]
pub(crate) fn hmac_sha256(key: &[u8], message: &[u8]) -> (r: Result<Vec<u8>, hmac::digest::InvalidLength>)
    ensures
        r is Ok,
        r matches Ok(tag) ==> tag@ == spec_hmac_sha256(key@, message@),
        r matches Ok(tag) ==> tag@.len() == 32,
{
    let mut mac = <hmac::Hmac<sha2::Sha256> as Mac>::new_from_slice(key)?;
    mac.update(message);
    Ok(mac.finalize().into_bytes().to_vec())
}

/// The lowercase hex text of `data`, computed by `hex::encode(data)`. The
/// contract states that it is `hex_lower(data)`: each byte as two digits from
/// `0123456789abcdef`, high nibble first.
#[verifier::external_body]
pub(crate) fn hex_encode(data: &[u8]) -> (r: String)
    ensures
        r@ == hex_lower(data@),
{
    hex::encode(data)
}

} // verus!
