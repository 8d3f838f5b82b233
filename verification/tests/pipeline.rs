use rust_web_dev::{
    apply_moderation, apply_ownership, classify_response, exists_with_owner, finish_submission,
    issue_token, moderation_texts, ownership_check, ownership_target, register, login,
    start_submission, Account, AccountId, Error, ModerationError, NewAnswer, NewQuestion,
    PersistCommand, Question, QuestionId, Stage, StorageError, SubmissionRequest, TokenError,
};

fn key() -> Vec<u8> {
    b"RANDOM WORDS WINTER MACINTOSH PC".to_vec()
}

const NOW: u64 = 1_700_000_000;
const TTL: u64 = 86_400;

/// The moderation provider's stub: the success body it would answer for a
/// submitted text, censoring the one flagged term.
fn stub_provider_body(content: &str) -> String {
    if content.contains("shitty") {
        "{\"content\":\"this is a shitty sentence\",\"bad_words_total\":1,\"bad_words_list\":[],\"censored_content\":\"this is a ****** sentence\"}".to_string()
    } else {
        "{\"content\":\"\",\"bad_words_total\":0,\"bad_words_list\":[],\"censored_content\":\"\"}".to_string()
    }
}

#[test]
fn register_login_and_verify_round_trip() {
    let key = key();

    // Register: the stored account carries the hash, never the plaintext.
    let submitted = Account {
        id: None,
        email: "a@b.com".to_string(),
        password: "pw".to_string(),
    };
    let prepared = register(submitted);
    assert_eq!("a@b.com", prepared.email);
    assert_ne!("pw", prepared.password);

    // The store assigns an id on insert.
    let stored = Account { id: Some(AccountId(1)), ..prepared };

    // A login with the right password yields a token whose verification
    // recovers the stored account id.
    let token = login(&stored, &"pw".to_string(), &key, NOW, TTL).unwrap();
    let session = rust_web_dev::verify_token(&key, &token, NOW).unwrap();
    assert_eq!(AccountId(1), session.account_id);

    // Login with the wrong password fails as WrongPassword, no token.
    let denied = login(&stored, &"guess".to_string(), &key, NOW, TTL);
    assert_eq!(Err(Error::WrongPassword), denied);
}

#[test]
fn foreign_update_is_unauthorized_before_any_moderation_or_persistence() {
    let key = key();
    let token_a = issue_token(&key, AccountId(1), NOW, TTL).unwrap();
    let token_b = issue_token(&key, AccountId(2), NOW, TTL).unwrap();

    let mut moderation_calls = 0;
    let mut store: Vec<(i32, i32)> = Vec::new();

    // User A creates a question: no ownership check on a create.
    let request = SubmissionRequest::CreateQuestion(NewQuestion {
        title: "First Question".to_string(),
        content: "How can I test?".to_string(),
        tags: None,
    });
    let stage = start_submission(&key, Some(&token_a), NOW, request).unwrap();
    let (title, content) = moderation_texts(&stage);
    let title_result = title.map(|t| {
        moderation_calls += 1;
        classify_response(200, &stub_provider_body(&t))
    });
    moderation_calls += 1;
    let content_result = classify_response(200, &stub_provider_body(&content.unwrap()));
    let stage = apply_moderation(stage, title_result, content_result).unwrap();
    let command = match stage {
        Stage::Persist(c) => c,
        other => panic!("expected a persistence command, got {:?}", other),
    };
    match &command {
        PersistCommand::AddQuestion { account_id, .. } => {
            assert_eq!(&AccountId(1), account_id);
            store.push((7, account_id.0));
        }
        other => panic!("expected a question insert, got {:?}", other),
    }
    assert_eq!(2, moderation_calls);

    // User B tries to update A's question.
    moderation_calls = 0;
    let request = SubmissionRequest::UpdateQuestion(
        7,
        Question {
            id: QuestionId(7),
            title: "Hijacked".to_string(),
            content: "Mine now".to_string(),
            tags: None,
        },
    );
    let stage = start_submission(&key, Some(&token_b), NOW, request).unwrap();
    let rid = match &stage {
        Stage::NeedOwnership { request, .. } => ownership_target(request),
        other => panic!("an update must confirm ownership first, got {:?}", other),
    };
    let owned = exists_with_owner(&store, rid, 2);
    assert!(!owned);
    let rejected = apply_ownership(stage, owned).unwrap_err();
    assert_eq!(Error::Unauthorized, rejected);
    assert_eq!(0, moderation_calls);
    assert_eq!(1, store.len());

    // A delete by B dies the same way.
    let stage = start_submission(&key, Some(&token_b), NOW, SubmissionRequest::DeleteQuestion(7))
        .unwrap();
    let rejected = apply_ownership(stage, exists_with_owner(&store, 7, 2)).unwrap_err();
    assert_eq!(Error::Unauthorized, rejected);
    assert_eq!(0, moderation_calls);
}

#[test]
fn answering_a_question_is_a_create_and_skips_the_ownership_gate() {
    let key = key();
    // User B answers user A's question: a create, so no ownership check
    // stands between authentication and moderation.
    let token_b = issue_token(&key, AccountId(2), NOW, TTL).unwrap();
    let request = SubmissionRequest::CreateAnswer(NewAnswer {
        content: "This is a shitty sentence".to_string(),
        question_id: QuestionId(7),
    });
    let stage = start_submission(&key, Some(&token_b), NOW, request).unwrap();
    assert!(matches!(stage, Stage::NeedModeration { .. }));

    let (title, content) = moderation_texts(&stage);
    assert!(title.is_none());
    let content_result = classify_response(200, &stub_provider_body(&content.unwrap()));
    let stage = apply_moderation(stage, None, content_result).unwrap();
    match stage {
        Stage::Persist(PersistCommand::AddAnswer { account_id, answer }) => {
            assert_eq!(AccountId(2), account_id);
            assert_eq!(QuestionId(7), answer.question_id);
            assert_eq!("this is a ****** sentence", answer.content);
        }
        other => panic!("expected an answer insert, got {:?}", other),
    }
}

#[test]
fn nonexistent_and_foreign_resources_reject_identically() {
    let empty: Vec<(i32, i32)> = Vec::new();
    let foreign = vec![(7, 1)];

    let missing = ownership_check(exists_with_owner(&empty, 7, 2));
    let not_mine = ownership_check(exists_with_owner(&foreign, 7, 2));

    assert_eq!(Err(Error::Unauthorized), missing);
    assert_eq!(missing, not_mine);
}

#[test]
fn flagged_content_is_persisted_censored() {
    let key = key();
    let token = issue_token(&key, AccountId(1), NOW, TTL).unwrap();

    let request = SubmissionRequest::CreateQuestion(NewQuestion {
        title: "plain title".to_string(),
        content: "This is a shitty sentence".to_string(),
        tags: None,
    });
    let stage = start_submission(&key, Some(&token), NOW, request).unwrap();
    let (title, content) = moderation_texts(&stage);
    let title_result = title.map(|t| classify_response(200, &stub_provider_body(&t)));
    let content_result = classify_response(200, &stub_provider_body(&content.unwrap()));
    let stage = apply_moderation(stage, title_result, content_result).unwrap();

    match stage {
        Stage::Persist(PersistCommand::AddQuestion { question, .. }) => {
            assert_eq!("this is a ****** sentence", question.content);
            assert_ne!("This is a shitty sentence", question.content);
        }
        other => panic!("expected a question insert, got {:?}", other),
    }
}

#[test]
fn one_failed_moderation_fails_the_whole_submission() {
    let key = key();
    let token = issue_token(&key, AccountId(1), NOW, TTL).unwrap();

    let request = SubmissionRequest::CreateQuestion(NewQuestion {
        title: "fine".to_string(),
        content: "fine too".to_string(),
        tags: None,
    });
    let stage = start_submission(&key, Some(&token), NOW, request).unwrap();
    let title_result = Some(classify_response(200, &stub_provider_body("fine")));
    let content_result = classify_response(400, &"{\"message\":\"bad\"}".to_string());
    let failed = apply_moderation(stage, title_result, content_result).unwrap_err();
    assert!(matches!(failed, Error::Moderation(_)));
}

#[test]
fn unauthenticated_requests_never_reach_the_pipeline() {
    let key = key();
    let request = SubmissionRequest::DeleteQuestion(7);
    let r = start_submission(&key, None, NOW, request);
    assert_eq!(Err(Error::Unauthenticated), r.map(|_| ()));
}

#[test]
fn storage_answers_map_to_the_pipeline_error_kinds() {
    assert_eq!(Ok(5), finish_submission::<i32>(Ok(5)));
    assert_eq!(
        Err(Error::Storage(StorageError::DuplicateKey)),
        finish_submission::<i32>(Err(StorageError::DuplicateKey))
    );
    assert_eq!(
        Err(Error::Storage(StorageError::Other)),
        finish_submission::<i32>(Err(StorageError::Other))
    );
}

#[test]
fn error_kinds_translate_to_their_statuses_and_messages() {
    assert_eq!(401, Error::WrongPassword.http_status());
    assert_eq!(
        "Wrong E-Mail/Password combination",
        Error::WrongPassword.message()
    );
    assert_eq!(401, Error::Unauthorized.http_status());
    assert_eq!(
        "No permission to change underlying resource",
        Error::Unauthorized.message()
    );
    assert_eq!(404, Error::Unauthenticated.http_status());
    assert_eq!(
        422,
        Error::Storage(StorageError::DuplicateKey).http_status()
    );
    assert_eq!(
        "Account already exsists",
        Error::Storage(StorageError::DuplicateKey).message()
    );
    assert_eq!("Cannot update data", Error::Storage(StorageError::Other).message());
    assert_eq!(422, Error::CryptoError.http_status());
    assert_eq!("Cannot verifiy password", Error::CryptoError.message());
    assert_eq!(404, Error::Token(TokenError::Malformed).http_status());
    assert_eq!(404, Error::Token(TokenError::Expired).http_status());
    assert_eq!(
        500,
        Error::Moderation(ModerationError::TransportError).http_status()
    );
}
