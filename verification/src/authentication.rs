//! Registration, login and the authentication gate: the decisions around
//! credential hashing and session tokens. Fetching and storing accounts is
//! the storage collaborator's part; these functions take the fetched values
//! and hand back the values to store.

use vstd::prelude::*;
use vstd::utf8::encode_utf8;
use crate::credentials::{hashed_password, is_password_hash, spec_verify_password, verify_password};
use crate::errors::Error;
use crate::token::{issue_token, spec_verify_token, token_has_claims, verify_token};
use crate::types::{Account, Session};

verus! {

/// What the authentication gate answers for an `Authorization` header
/// value at time `now`: a missing header, a malformed token and an expired
/// token are one and the same rejection, so the caller learns nothing
/// about which check failed.
pub open spec fn spec_auth(key: Seq<u8>, header: Option<Seq<char>>, now: u64) -> Result<
    Session,
    Error,
> {
    match header {
        None => Err(Error::Unauthenticated),
        Some(t) => match spec_verify_token(key, t, now) {
            Ok(s) => Ok(s),
            Err(_) => Err(Error::Unauthenticated),
        },
    }
}

/// The authentication gate: extracts the session from the request's
/// `Authorization` header value, if any, by verifying the token against
/// the process-wide key at time `now`. Purely CPU-bound; performs no
/// lookup.
pub fn auth(key: &Vec<u8>, header: Option<&String>, now: u64) -> (r: Result<Session, Error>)
    requires
        key@.len() == 32,
    ensures
        header is None ==> r == spec_auth(key@, None::<Seq<char>>, now),
        header matches Some(h) ==> r == spec_auth(key@, Some(h@), now),
{
    match header {
        None => Err(Error::Unauthenticated),
        Some(h) => match verify_token(key, h.as_str(), now) {
            Ok(s) => Ok(s),
            Err(_) => Err(Error::Unauthenticated),
        },
    }
}

/// Prepares an account for persistence: replaces the plaintext password
/// with its salted encoded hash, leaving id and email as they are. Only
/// the returned value is ever handed to storage, so the plaintext form is
/// never persisted.
pub fn register(account: Account) -> (r: Account)
    requires
        encode_utf8(account.password@).len() <= 0xffff_ffff,
    ensures
        r.id == account.id,
        r.email == account.email,
        is_password_hash(r.password@, encode_utf8(account.password@)),
{
    let hashed = hashed_password(account.password.as_str().as_bytes());
    Account { id: account.id, email: account.email, password: hashed }
}

/// Login against the stored account that the storage collaborator fetched
/// for the claimed email: verifies the password against the stored hash
/// and, exactly on a match, issues a session token for the account's id
/// valid from `now` for `ttl` seconds. A mismatch is `WrongPassword`; a
/// malformed stored hash, or a failing crypto layer, is `CryptoError`.
pub fn login(account: &Account, password: &String, key: &Vec<u8>, now: u64, ttl: u64) -> (r:
    Result<String, Error>)
    requires
        key@.len() == 32,
        account.id matches Some(id) && id.0 >= 0,
        now + ttl <= u64::MAX,
    ensures
        match spec_verify_password(account.password@, encode_utf8(password@)) {
            Err(e) => r == Err::<String, Error>(e),
            Ok(false) => r == Err::<String, Error>(Error::WrongPassword),
            Ok(true) => match r {
                Ok(t) => token_has_claims(key@, t@, account.id->0, (now + ttl) as u64),
                Err(e) => e == Error::CryptoError,
            },
        },
{
    match verify_password(account.password.as_str(), password.as_str().as_bytes()) {
        Ok(true) => match account.id {
            Some(id) => issue_token(key, id, now, ttl),
            None => Err(Error::CryptoError),
        },
        Ok(false) => Err(Error::WrongPassword),
        Err(e) => Err(e),
    }
}

} // verus!
