//! One-way salted hashing and verification of account passwords.
//!
//! A fresh random salt is drawn for every hash, and the result is a single
//! self-describing string carrying algorithm parameters, salt and digest,
//! so verification needs no side channel.

use vstd::prelude::*;

verus! {

/// The encoded hash string that `argon2::hash_encoded` derives from a
/// password and a salt under its default configuration.
pub uninterp spec fn argon2_encoded(password: Seq<u8>, salt: Seq<u8>) -> Seq<char>;

/// What `argon2::verify_encoded` answers for an encoded hash string and a
/// password: `None` when the encoded string cannot be decoded, otherwise
/// whether the recomputed digest matches.
pub uninterp spec fn argon2_verifies(encoded: Seq<char>, password: Seq<u8>) -> Option<bool>;

/// An encoded string that verification accepts exactly for `p`: it decodes,
/// matches `p`, and matches nothing else.
pub open spec fn is_password_hash(encoded: Seq<char>, p: Seq<u8>) -> bool {
    &&& argon2_verifies(encoded, p) == Some(true)
    &&& forall|q: Seq<u8>| q != p ==> argon2_verifies(encoded, q) == Some(false)
}

/// What verifying a password against a stored encoded hash returns: an
/// undecodable stored string is a crypto failure, distinct from a mismatch.
pub open spec fn spec_verify_password(encoded: Seq<char>, password: Seq<u8>) -> Result<
    bool,
    crate::errors::Error,
> {
    match argon2_verifies(encoded, password) {
        Some(b) => Ok(b),
        None => Err(crate::errors::Error::CryptoError),
    }
}

/// Relies on `rand::random`: a fresh 32-byte value from the thread-local
/// cryptographic generator. Nothing is assumed of its content.
#[verifier::external_body]
fn random_salt() -> (r: Vec<u8>)
    ensures
        r@.len() == 32,
{
    rand::random::<[u8; 32]>().to_vec()
}

/// Relies on `argon2::hash_encoded` under `argon2::Config::default()`: with
/// a 32-byte salt and a password within the library's length bound it
/// returns the encoded hash string, a deterministic function of password
/// and salt. `argon2::verify_encoded` decodes that string and answers
/// `true` for the hashed password; that it answers `false` for every other
/// password assumes digest collisions do not occur.
#[verifier::external_body]
fn argon2_hash(password: &[u8], salt: &Vec<u8>) -> (r: String)
    requires
        salt@.len() == 32,
        password@.len() <= 0xffff_ffff,
    ensures
        r@ == argon2_encoded(password@, salt@),
        is_password_hash(r@, password@),
{
    argon2::hash_encoded(password, salt, &argon2::Config::default()).unwrap()
}

/// Relies on `argon2::verify_encoded`: decodes the encoded string, errors
/// exactly when decoding fails, and otherwise recomputes the digest with
/// the embedded parameters and compares in constant time. The outcome is a
/// deterministic function of the encoded string and the password.
#[verifier::external_body]
fn argon2_verify(encoded: &str, password: &[u8]) -> (r: Option<bool>)
    ensures
        r == argon2_verifies(encoded@, password@),
{
    match argon2::verify_encoded(encoded, password) {
        Ok(b) => Some(b),
        Err(_) => None,
    }
}

/// Hashes a password under a fresh 32-byte random salt, returning the
/// self-describing encoded hash string.
pub fn hashed_password(password: &[u8]) -> (r: String)
    requires
        password@.len() <= 0xffff_ffff,
    ensures
        is_password_hash(r@, password@),
        exists|s: Seq<u8>| s.len() == 32 && r@ == argon2_encoded(password@, s),
{
    let salt = random_salt();
    let r = argon2_hash(password, &salt);
    proof {
        assert(salt@.len() == 32 && r@ == argon2_encoded(password@, salt@));
    }
    r
}

/// Verifies a password against a stored encoded hash. A malformed stored
/// hash is a `CryptoError`, distinct from a mismatch, which is `Ok(false)`.
pub fn verify_password(hash: &str, password: &[u8]) -> (r: Result<bool, crate::errors::Error>)
    ensures
        r == spec_verify_password(hash@, password@),
{
    match argon2_verify(hash, password) {
        Some(b) => Ok(b),
        None => Err(crate::errors::Error::CryptoError),
    }
}

/// Verification accepts a freshly hashed password and rejects every other
/// password against the same hash.
pub proof fn lemma_hash_verify_round_trip(h: Seq<char>, p: Seq<u8>, q: Seq<u8>)
    requires
        is_password_hash(h, p),
    ensures
        spec_verify_password(h, p) == Ok::<bool, crate::errors::Error>(true),
        q != p ==> spec_verify_password(h, q) == Ok::<bool, crate::errors::Error>(false),
{
}

} // verus!
