//! Stateless session tokens: encrypted, self-contained and time-bounded.
//!
//! A token carries `{account_id, expires_at}` encrypted under a process-wide
//! 32-byte symmetric key with an authenticated-encryption scheme, so
//! verification is a pure computation needing no store access. The claims
//! travel as thirty decimal digits: ten for the account id, twenty for the
//! expiration timestamp.

use vstd::prelude::*;
use crate::numbers::{dec_fixed, pow10, spec_parse_u64, lemma_parse_dec_fixed, lemma_dec_fixed,
    lemma_dec_fixed_exact, lemma_digits_val_nonneg, lemma_digits_unique, to_dec_fixed,
    parse_u64_range};
use crate::types::{AccountId, Session};
use crate::errors::TokenError;

verus! {

/// The payload that `paseto::v2::local::decrypt_paseto` recovers from a
/// token under a key: `None` when authentication or decoding fails,
/// otherwise the exact plaintext. A deterministic function of key and
/// token.
pub uninterp spec fn paseto_payload_of(key: Seq<u8>, token: Seq<char>) -> Option<Seq<char>>;

/// A character of the url-safe base64 alphabet without padding.
pub open spec fn is_b64url_char(c: char) -> bool {
    ||| 65 <= c as int <= 90
    ||| 97 <= c as int <= 122
    ||| 48 <= c as int <= 57
    ||| c as int == 45
    ||| c as int == 95
}

/// The outward shape of every encrypted token: the version-and-purpose
/// header followed by one base64 body long enough to hold the nonce, with
/// no footer. Anything else cannot have come out of encryption and is
/// rejected before decryption is attempted.
pub open spec fn token_shape_ok(t: Seq<char>) -> bool {
    &&& t.len() >= 41
    &&& t.subrange(0, 9) == "v2.local."@
    &&& forall|i: int| 9 <= i < t.len() ==> is_b64url_char(#[trigger] t[i])
}

/// The decimal rendering of the claims: ten digits of account id, then
/// twenty digits of expiration timestamp.
pub open spec fn spec_claims(account_id: u64, exp: u64) -> Seq<char> {
    dec_fixed(account_id as nat, 10) + dec_fixed(exp as nat, 20)
}

/// What reading a payload back as claims yields.
pub open spec fn spec_parse_claims(p: Seq<char>) -> Option<(u64, u64)> {
    if p.len() == 30 {
        match (spec_parse_u64(p.subrange(0, 10)), spec_parse_u64(p.subrange(10, 30))) {
            (Some(a), Some(e)) => Some((a, e)),
            _ => None,
        }
    } else {
        None
    }
}

/// A token that decrypts under `key` to exactly the claims of `account_id`
/// expiring at `exp`.
pub open spec fn token_has_claims(key: Seq<u8>, t: Seq<char>, account_id: AccountId, exp: u64) -> bool {
    &&& token_shape_ok(t)
    &&& paseto_payload_of(key, t) == Some(spec_claims(account_id.0 as u64, exp))
}

/// What verifying a token at time `now` yields: a failure to decrypt,
/// authenticate or decode is `Malformed`; claims past their expiration are
/// `Expired`; otherwise the embedded session.
pub open spec fn spec_verify_token(key: Seq<u8>, t: Seq<char>, now: u64) -> Result<
    Session,
    TokenError,
> {
    if !token_shape_ok(t) {
        Err(TokenError::Malformed)
    } else {
        match paseto_payload_of(key, t) {
            None => Err(TokenError::Malformed),
            Some(p) => match spec_parse_claims(p) {
                None => Err(TokenError::Malformed),
                Some((a, e)) => if a > 0x7fff_ffff {
                    Err(TokenError::Malformed)
                } else if e <= now {
                    Err(TokenError::Expired)
                } else {
                    Ok(Session { account_id: AccountId(a as i32) })
                },
            },
        }
    }
}

/// Relies on `paseto::v2::local::local_paseto`: encrypts the payload under
/// the 32-byte key with a fresh random nonce. Whatever token comes back
/// decrypts under the same key to exactly the payload, and is the header
/// `v2.local.` followed by at least 54 url-safe base64 characters and no
/// footer.
#[verifier::external_body]
fn paseto_encrypt(payload: &str, key: &Vec<u8>) -> (r: Option<String>)
    requires
        key@.len() == 32,
    ensures
        r matches Some(t) ==> token_has_claims_payload(key@, t@, payload@),
{
    match paseto::v2::local::local_paseto(payload, None, key) {
        Ok(t) => Some(t),
        Err(_) => None,
    }
}

/// A token of the right shape whose decryption is exactly `payload`.
pub open spec fn token_has_claims_payload(key: Seq<u8>, t: Seq<char>, payload: Seq<char>) -> bool {
    &&& token_shape_ok(t)
    &&& paseto_payload_of(key, t) == Some(payload)
}

/// Relies on `paseto::v2::local::decrypt_paseto`: deterministically
/// decodes and authenticates the token under the key, answering the
/// plaintext exactly when authentication succeeds. The shape bound keeps
/// the call away from the inputs on which the library would panic while
/// splitting off the nonce.
#[verifier::external_body]
fn paseto_decrypt(token: &str, key: &Vec<u8>) -> (r: Option<String>)
    requires
        key@.len() == 32,
        token_shape_ok(token@),
    ensures
        match r {
            Some(p) => paseto_payload_of(key@, token@) == Some(p@),
            None => paseto_payload_of(key@, token@) is None,
        },
{
    match paseto::v2::local::decrypt_paseto(token, None, key) {
        Ok(p) => Some(p),
        Err(_) => None,
    }
}

/// Issues a token for `account_id` at time `now` that expires `ttl`
/// seconds later. Fails only if the crypto layer does; the token then
/// carries exactly those claims.
pub fn issue_token(key: &Vec<u8>, account_id: AccountId, now: u64, ttl: u64) -> (r: Result<
    String,
    crate::errors::Error,
>)
    requires
        key@.len() == 32,
        account_id.0 >= 0,
        now + ttl <= u64::MAX,
    ensures
        match r {
            Ok(t) => token_has_claims(key@, t@, account_id, (now + ttl) as u64),
            Err(e) => e == crate::errors::Error::CryptoError,
        },
{
    let exp = now + ttl;
    let mut payload = to_dec_fixed(account_id.0 as u64, 10);
    let epart = to_dec_fixed(exp, 20);
    payload.append(epart.as_str());
    assert(payload@ == spec_claims(account_id.0 as u64, exp));
    match paseto_encrypt(payload.as_str(), key) {
        Some(t) => Ok(t),
        None => Err(crate::errors::Error::CryptoError),
    }
}

/// Verifies a token at time `now`: decrypts and authenticates it, reads
/// the claims back, and checks the expiration against `now`.
pub fn verify_token(key: &Vec<u8>, token: &str, now: u64) -> (r: Result<Session, TokenError>)
    requires
        key@.len() == 32,
    ensures
        r == spec_verify_token(key@, token@, now),
{
    if !check_token_shape(token) {
        return Err(TokenError::Malformed);
    }
    let payload = match paseto_decrypt(token, key) {
        Some(p) => p,
        None => {
            return Err(TokenError::Malformed);
        },
    };
    let plen = payload.as_str().unicode_len();
    if plen != 30 {
        return Err(TokenError::Malformed);
    }
    let a = match parse_u64_range(payload.as_str(), 0, 10) {
        Some(a) => a,
        None => {
            return Err(TokenError::Malformed);
        },
    };
    let e = match parse_u64_range(payload.as_str(), 10, 30) {
        Some(e) => e,
        None => {
            return Err(TokenError::Malformed);
        },
    };
    if a > 0x7fff_ffff {
        Err(TokenError::Malformed)
    } else if e <= now {
        Err(TokenError::Expired)
    } else {
        Ok(Session { account_id: AccountId(a as i32) })
    }
}

/// Checks the outward token shape: header, length, base64 body.
fn check_token_shape(token: &str) -> (r: bool)
    ensures
        r == token_shape_ok(token@),
{
    let len = token.unicode_len();
    if len < 41 {
        return false;
    }
    let header = "v2.local.";
    proof {
        reveal_strlit("v2.local.");
    }
    let mut i: usize = 0;
    while i < 9
        invariant
            0 <= i <= 9,
            token@.len() >= 41,
            header@ =~= "v2.local."@,
            header@.len() == 9,
            forall|j: int| 0 <= j < i ==> token@[j] == header@[j],
        decreases 9 - i,
    {
        if token.get_char(i) != header.get_char(i) {
            assert(token@.subrange(0, 9) != "v2.local."@) by {
                assert(token@.subrange(0, 9)[i as int] == token@[i as int]);
            }
            return false;
        }
        i = i + 1;
    }
    assert(token@.subrange(0, 9) =~= "v2.local."@);
    let mut k: usize = 9;
    while k < len
        invariant
            9 <= k <= len,
            len == token@.len(),
            forall|j: int| 9 <= j < k ==> is_b64url_char(#[trigger] token@[j]),
        decreases len - k,
    {
        let c = token.get_char(k);
        let u = c as u32;
        let ok = (65 <= u && u <= 90) || (97 <= u && u <= 122) || (48 <= u && u <= 57) || u == 45
            || u == 95;
        if !ok {
            assert(!is_b64url_char(token@[k as int]));
            return false;
        }
        k = k + 1;
    }
    true
}

/// Round trip of the claims rendering: the thirty digits read back as the
/// account id and expiration they were rendered from.
pub proof fn lemma_claims_round_trip(account_id: u64, exp: u64)
    requires
        account_id <= 0x7fff_ffff,
    ensures
        spec_parse_claims(spec_claims(account_id, exp)) == Some((account_id, exp)),
{
    lemma_pow10_bounds();
    lemma_dec_fixed(account_id as nat, 10);
    lemma_dec_fixed(exp as nat, 20);
    lemma_parse_dec_fixed(account_id, 10);
    lemma_parse_dec_fixed(exp, 20);
    let p = spec_claims(account_id, exp);
    assert(p.subrange(0, 10) =~= dec_fixed(account_id as nat, 10));
    assert(p.subrange(10, 30) =~= dec_fixed(exp as nat, 20));
}

/// Ten to the tenth holds every account id, ten to the twentieth every
/// 64-bit timestamp.
proof fn lemma_pow10_bounds()
    ensures
        pow10(10) > 0x7fff_ffff,
        pow10(20) > u64::MAX,
{
    reveal_with_fuel(pow10, 21);
}

/// A token issued for `account_id` at `now` with a positive lifetime
/// verifies at `now` to exactly that session, and verifies as `Expired`
/// at every instant from its expiration on.
pub proof fn lemma_issue_verify_round_trip(
    key: Seq<u8>,
    t: Seq<char>,
    account_id: AccountId,
    now: u64,
    ttl: u64,
    later: u64,
)
    requires
        account_id.0 >= 0,
        ttl > 0,
        now + ttl <= u64::MAX,
        token_has_claims(key, t, account_id, (now + ttl) as u64),
    ensures
        spec_verify_token(key, t, now) == Ok::<Session, TokenError>(
            Session { account_id },
        ),
        later >= now + ttl ==> spec_verify_token(key, t, later) == Err::<Session, TokenError>(
            TokenError::Expired,
        ),
{
    lemma_claims_round_trip(account_id.0 as u64, (now + ttl) as u64);
}

/// Verification never invents an identity: a token accepted at `now`
/// decrypts under the key to exactly the claims of the session it
/// returns, with an expiration still in the future. A tampered token that
/// no longer authenticates can therefore only be rejected as `Malformed`,
/// never accepted for a different account.
pub proof fn lemma_verify_sound(key: Seq<u8>, t: Seq<char>, now: u64)
    ensures
        spec_verify_token(key, t, now) matches Ok(s) ==> exists|e: u64|
            e > now && paseto_payload_of(key, t) == Some(
                #[trigger] spec_claims(s.account_id.0 as u64, e),
            ) && s.account_id.0 >= 0,
{
    let r = spec_verify_token(key, t, now);
    if r is Ok {
        let s = r->Ok_0;
        let p = paseto_payload_of(key, t)->0;
        let (a, e) = spec_parse_claims(p)->0;
        lemma_claims_parse_exact(p, a, e);
        assert(e > now && paseto_payload_of(key, t) == Some(
            spec_claims(s.account_id.0 as u64, e),
        ) && s.account_id.0 >= 0);
    }
}

/// A payload that parses as claims is exactly the rendering of those
/// claims: the rendering is the unique thirty-digit string with that
/// reading.
proof fn lemma_claims_parse_exact(p: Seq<char>, a: u64, e: u64)
    requires
        spec_parse_claims(p) == Some((a, e)),
    ensures
        a <= 0x7fff_ffff ==> p == spec_claims(a, e),
{
    if a <= 0x7fff_ffff {
        lemma_pow10_bounds();
        lemma_dec_fixed_exact(a as nat, 10);
        lemma_dec_fixed_exact(e as nat, 20);
        let s1 = p.subrange(0, 10);
        let s2 = p.subrange(10, 30);
        lemma_digits_val_nonneg(s1);
        lemma_digits_val_nonneg(s2);
        lemma_digits_unique(s1, dec_fixed(a as nat, 10));
        lemma_digits_unique(s2, dec_fixed(e as nat, 20));
        assert(p =~= s1 + s2);
    }
}

} // verus!
