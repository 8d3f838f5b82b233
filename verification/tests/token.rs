use rust_web_dev::{auth, issue_token, verify_token, AccountId, Error, Session, TokenError};

fn key() -> Vec<u8> {
    b"RANDOM WORDS WINTER MACINTOSH PC".to_vec()
}

const NOW: u64 = 1_700_000_000;
const TTL: u64 = 86_400;

#[test]
fn post_questions_auth() {
    let key = key();
    let token = issue_token(&key, AccountId(3), NOW, TTL).unwrap();

    let res = auth(&key, Some(&token), NOW);

    assert_eq!(AccountId(3), res.unwrap().account_id);
}

#[test]
fn issued_token_verifies_to_its_session() {
    let key = key();
    let token = issue_token(&key, AccountId(7), NOW, TTL).unwrap();
    let session = verify_token(&key, &token, NOW).unwrap();
    assert_eq!(Session { account_id: AccountId(7) }, session);
}

#[test]
fn issued_token_expires() {
    let key = key();
    let token = issue_token(&key, AccountId(7), NOW, TTL).unwrap();
    assert_eq!(
        Err(TokenError::Expired),
        verify_token(&key, &token, NOW + TTL)
    );
    assert_eq!(
        Err(TokenError::Expired),
        verify_token(&key, &token, NOW + TTL + 1)
    );
    assert!(verify_token(&key, &token, NOW + TTL - 1).is_ok());
}

#[test]
fn tampering_any_byte_is_malformed_never_another_account() {
    let key = key();
    let token = issue_token(&key, AccountId(3), NOW, TTL).unwrap();
    let bytes = token.as_bytes();
    for i in 0..bytes.len() {
        let mut tampered = bytes.to_vec();
        tampered[i] = if tampered[i] == b'A' { b'B' } else { b'A' };
        let tampered = String::from_utf8(tampered).unwrap();
        if tampered == token {
            continue;
        }
        assert_eq!(
            Err(TokenError::Malformed),
            verify_token(&key, &tampered, NOW),
            "byte {} of the token was tampered and verification did not fail as Malformed",
            i
        );
    }
}

#[test]
fn wrong_key_is_malformed() {
    let key = key();
    let other = b"ANOTHER WINTER MACINTOSH PC WORD".to_vec();
    let token = issue_token(&key, AccountId(3), NOW, TTL).unwrap();
    assert_eq!(Err(TokenError::Malformed), verify_token(&other, &token, NOW));
}

#[test]
fn garbage_tokens_are_malformed() {
    let key = key();
    assert_eq!(Err(TokenError::Malformed), verify_token(&key, "", NOW));
    assert_eq!(
        Err(TokenError::Malformed),
        verify_token(&key, "v2.local.AAAA", NOW)
    );
    assert_eq!(
        Err(TokenError::Malformed),
        verify_token(&key, "not a token at all, not even close!!!!!!!", NOW)
    );
}

#[test]
fn auth_gate_folds_every_failure_into_unauthenticated() {
    let key = key();
    assert_eq!(Err(Error::Unauthenticated), auth(&key, None, NOW));

    let garbage = "v2.local.zzzz".to_string();
    assert_eq!(Err(Error::Unauthenticated), auth(&key, Some(&garbage), NOW));

    let expired = issue_token(&key, AccountId(3), NOW, 10).unwrap();
    assert_eq!(
        Err(Error::Unauthenticated),
        auth(&key, Some(&expired), NOW + 11)
    );
}
