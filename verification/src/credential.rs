//! Salted one-way credential hashing.
//!
//! A plaintext password is turned into an encoded hash string carrying the
//! algorithm parameters, the salt and the digest; verification recomputes
//! the digest from the plaintext and the stored parameters and compares in
//! constant time. Both directions are delegated to `pwhash`'s bcrypt behind
//! trusted wrappers, related here through the one name [`bcrypt_matches`].

use vstd::prelude::*;

verus! {

/// The credential hasher failed internally (entropy for a fresh salt could
/// not be drawn). Fatal and non-retryable for the request that hit it.
#[derive(Debug, Clone, Copy, PartialEq, Eq, Structural)]
pub struct HashingError;

/// Whether bcrypt verification accepts the plaintext against the encoded
/// hash string: true exactly when recomputing the digest from the plaintext
/// with the salt and cost stored in the hash yields the hash's own digest.
/// A pure function of the two strings.
pub uninterp spec fn bcrypt_matches(pass: Seq<char>, hash: Seq<char>) -> bool;

#[verifier::external_type_specification]
#[verifier::external_body]
pub struct ExPwhashError(pwhash::error::Error);

/// Relies on `pwhash::bcrypt::hash`: an encoded hash under a fresh random
/// salt and the default cost, which `pwhash::bcrypt::verify` accepts for the
/// same plaintext. The salt is random, so nothing relates two calls; each
/// `Ok` result is only promised to match the plaintext it was made from.
#[verifier::external_body]
fn bcrypt_hash(pass: &str) -> (r: Result<String, pwhash::error::Error>)
    ensures
        r matches Ok(h) ==> bcrypt_matches(pass@, h@),
{
    pwhash::bcrypt::hash(pass)
}

/// Relies on `pwhash::bcrypt::verify`: recomputes the digest from the
/// plaintext and the parameters stored in the hash string and compares in
/// constant time; a deterministic function of the two strings.
#[verifier::external_body]
fn bcrypt_verify(pass: &str, hash: &str) -> (r: bool)
    ensures
        r == bcrypt_matches(pass@, hash@),
{
    pwhash::bcrypt::verify(pass, hash)
}

/// Hashes a plaintext password under a fresh random salt. Every hash handed
/// out matches its plaintext; a failure to draw the salt is reported as
/// [`HashingError`].
pub fn hash(plaintext: &str) -> (r: Result<String, HashingError>)
    ensures
        r matches Ok(h) ==> bcrypt_matches(plaintext@, h@),
{
    match bcrypt_hash(plaintext) {
        Ok(h) => Ok(h),
        Err(_) => Err(HashingError),
    }
}

/// Checks a plaintext against a stored hash: true exactly when the hash was
/// made from this plaintext (same digest under the hash's own salt).
pub fn verify(plaintext: &str, stored_hash: &str) -> (r: bool)
    ensures
        r == bcrypt_matches(plaintext@, stored_hash@),
{
    bcrypt_verify(plaintext, stored_hash)
}

} // verus!
