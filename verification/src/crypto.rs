//! Trusted boundary around the cryptographic and encoding primitives.
//!
//! Each outside call is wrapped once, with a contract that says no more
//! than the outside crate's own source shows. Results that would take
//! pages to state (a digest, a base64 decode, a signature check) are given
//! names instead, and the verified logic speaks of those names exactly.

use vstd::prelude::*;

use sha2::Digest;

verus! {

/// What `base64::decode` returns on the given input: `Some` of the decoded
/// bytes when the input is valid standard-alphabet base64, `None` otherwise.
pub uninterp spec fn b64_decode_of(input: Seq<u8>) -> Option<Seq<u8>>;

/// The SHA-256 digest of the given bytes.
pub uninterp spec fn sha256_of(data: Seq<u8>) -> Seq<u8>;

/// Whether the RSA PKCS#1 v1.5 signature check (no hash prefix) accepts
/// `signature` for `digest` under the public key encoded by `key_der`
/// (PKCS#1 DER). False whenever `key_der` is not a decodable key.
pub uninterp spec fn rsa_pkcs1v15_ok(key_der: Seq<u8>, digest: Seq<u8>, signature: Seq<u8>) -> bool;

/// Relies on `base64::decode` (standard alphabet): the result depends on
/// the input bytes alone; invalid input yields an error, never a panic.
#[verifier::external_body]
pub(crate) fn base64_decode(input: &Vec<u8>) -> (r: Option<Vec<u8>>)
    ensures
        (match r {
            Some(v) => b64_decode_of(input@) == Some(v@),
            None => b64_decode_of(input@) is None,
        }),
{
    base64::decode(input.as_slice()).ok()
}

/// Relies on `sha2::Sha256` through `Digest::digest`: the digest depends on
/// the input bytes alone and is always 32 bytes long.
#[verifier::external_body]
pub(crate) fn sha256(data: &Vec<u8>) -> (r: Vec<u8>)
    ensures
        r@ == sha256_of(data@),
        r@.len() == 32,
{
    sha2::Sha256::digest(data.as_slice()).to_vec()
}

/// Relies on `rsa::RSAPublicKey::from_pkcs1` and `rsa::PublicKey::verify`
/// with `PaddingScheme::new_pkcs1v15_sign(None)`: key parsing and PKCS#1
/// v1.5 verification are both deterministic in the key bytes, the digest
/// and the signature, and a key that does not parse verifies nothing.
#[verifier::external_body]
pub(crate) fn rsa_pkcs1v15_verify(key_der: &Vec<u8>, digest: &Vec<u8>, signature: &Vec<u8>) -> (r: bool)
    ensures
        r == rsa_pkcs1v15_ok(key_der@, digest@, signature@),
{
    match rsa::RSAPublicKey::from_pkcs1(key_der.as_slice()) {
        Ok(key) => {
            let padding = rsa::PaddingScheme::new_pkcs1v15_sign(None);
            rsa::PublicKey::verify(&key, padding, digest.as_slice(), signature.as_slice()).is_ok()
        }
        Err(_) => false,
    }
}

} // verus!
