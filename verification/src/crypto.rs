//! Digests, randomness and constant-time comparison, each from its crate.
use crate::text::{hex, hex_lower};
use sha2::Digest;
use subtle::ConstantTimeEq;
use vstd::string::StringSliceAdditionalSpecFns;
use vstd::prelude::*;

verus! {

/// The SHA-256 digest of `data`, as the `sha2` crate computes it.
pub uninterp spec fn sha256_digest(data: Seq<u8>) -> Seq<u8>;

/// Calls `sha2::Sha256::digest`. Trusted: the result is the SHA-256 digest
/// of the bytes, 32 bytes long (`Sha256`'s output size).
#[verifier::external_body]
fn sha256(data: &[u8]) -> (r: Vec<u8>)
    ensures
        r@ == sha256_digest(data@),
        r@.len() == 32,
{
    sha2::Sha256::digest(data).to_vec()
}

/// The digest under which a credential is stored: SHA-256 of its UTF-8 bytes.
pub open spec fn credential_digest(token: Seq<char>) -> Seq<u8> {
    sha256_digest(vstd::utf8::encode_utf8(token))
}

/// The stored form of a credential. Only this digest is ever written to the
/// database, never the credential itself.
pub fn token_hash(token: &str) -> (r: Vec<u8>)
    ensures
        r@ == credential_digest(token@),
        r@.len() == 32,
{
    sha256(token.as_bytes())
}

#[verifier::external_type_specification]
#[verifier::external_body]
pub struct ExRandomError(getrandom::Error);

/// Calls `getrandom::fill`. Trusted: the buffer keeps its length; what it
/// holds afterwards, and whether the call succeeds, depend on the operating
/// system's random source and are not stated.
#[verifier::external_body]
fn fill_random(dest: &mut Vec<u8>) -> (r: Result<(), getrandom::Error>)
    ensures
        final(dest)@.len() == old(dest)@.len(),
{
    getrandom::fill(dest.as_mut_slice())
}

/// The random source could not be read.
pub struct RandomUnavailable;

/// `len` random bytes from the operating system, written as lower-case hex.
pub fn random_hex(len: usize) -> (r: Result<String, RandomUnavailable>)
    ensures
        r matches Ok(s) ==> exists|bytes: Seq<u8>| bytes.len() == len && s@ == hex(bytes),
        r matches Ok(s) ==> s@.len() == 2 * len,
{
    let mut bytes: Vec<u8> = Vec::new();
    let mut i: usize = 0;
    while i < len
        invariant
            i <= len,
            bytes@.len() == i,
        decreases len - i,
    {
        bytes.push(0u8);
        i = i + 1;
    }
    match fill_random(&mut bytes) {
        Ok(()) => {
            let s = hex_lower(bytes.as_slice());
            Ok(s)
        },
        Err(_) => Err(RandomUnavailable),
    }
}

/// Calls `subtle::ConstantTimeEq::ct_eq` on two byte slices. Trusted, as its
/// source shows: the choice is 1 exactly when both slices have the same
/// length and the same bytes (unequal lengths are decided early).
#[verifier::external_body]
fn ct_eq_bytes(a: &[u8], b: &[u8]) -> (r: bool)
    ensures
        r == (a@ == b@),
{
    bool::from(a.ct_eq(b))
}

/// Compares two texts by their UTF-8 bytes in time independent of where they
/// differ.
pub fn constant_time_eq(a: &str, b: &str) -> (r: bool)
    ensures
        r == (a@ == b@),
{
    let r = ct_eq_bytes(a.as_bytes(), b.as_bytes());
    proof {
        if a.spec_bytes() == b.spec_bytes() {
            vstd::utf8::encode_utf8_decode_utf8(a@);
            vstd::utf8::encode_utf8_decode_utf8(b@);
        }
    }
    r
}

} // verus!
