use rust_web_dev::{
    classify_response, moderation_step, run_moderation, AttemptOutcome, Error, ModerationError,
    ModerationState, RetryPolicy,
};

fn success_body(censored: &str) -> String {
    format!(
        "{{\"content\":\"this is a shitty sentence\",\"bad_words_total\":1,\"bad_words_list\":[],\"censored_content\":\"{}\"}}",
        censored
    )
}

fn error_body(message: &str) -> String {
    format!("{{\"message\":\"{}\"}}", message)
}

#[test]
fn success_response_yields_censored_content() {
    let body = success_body("this is a ****** sentence");
    let r = classify_response(200, &body).unwrap();
    assert_eq!("this is a ****** sentence", r);
}

#[test]
fn empty_censored_content_comes_back_empty() {
    let body = success_body("");
    let r = classify_response(200, &body).unwrap();
    assert_eq!("", r);
}

#[test]
fn unreadable_success_body_is_a_transport_error() {
    let body = "not json at all".to_string();
    let r = classify_response(200, &body);
    assert_eq!(Err(ModerationError::TransportError), r);
}

#[test]
fn client_error_carries_status_and_message() {
    let body = error_body("invalid api key");
    match classify_response(401, &body) {
        Err(ModerationError::ClientError(e)) => {
            assert_eq!(401, e.status);
            assert_eq!("invalid api key", e.message);
        }
        other => panic!("expected a client error, got {:?}", other),
    }
}

#[test]
fn unreadable_error_body_keeps_the_status_with_an_empty_message() {
    let body = "<html>gateway</html>".to_string();
    match classify_response(502, &body) {
        Err(ModerationError::ServerError(e)) => {
            assert_eq!(502, e.status);
            assert_eq!("", e.message);
        }
        other => panic!("expected a server error, got {:?}", other),
    }
}

#[test]
fn transient_failures_retry_until_success_within_the_cap() {
    let policy = RetryPolicy::standard();
    let outcomes = vec![
        AttemptOutcome::Response { status: 503, body: error_body("overloaded") },
        AttemptOutcome::Response { status: 500, body: error_body("overloaded") },
        AttemptOutcome::Transport,
        AttemptOutcome::Response {
            status: 200,
            body: success_body("this is a ****** sentence"),
        },
    ];
    match run_moderation(&policy, &outcomes) {
        ModerationState::Finished(Ok(censored)) => {
            assert_eq!("this is a ****** sentence", censored)
        }
        other => panic!("expected success after retries, got {:?}", other),
    }
}

#[test]
fn exhausted_retries_end_as_server_error_not_a_loop() {
    let policy = RetryPolicy::standard();
    let outcomes = vec![
        AttemptOutcome::Response { status: 500, body: error_body("a") },
        AttemptOutcome::Response { status: 502, body: error_body("b") },
        AttemptOutcome::Response { status: 503, body: error_body("c") },
        AttemptOutcome::Response { status: 504, body: error_body("d") },
        AttemptOutcome::Response { status: 200, body: success_body("late") },
    ];
    match run_moderation(&policy, &outcomes) {
        ModerationState::Finished(Err(ModerationError::ServerError(e))) => {
            assert_eq!(504, e.status);
            assert_eq!("d", e.message);
        }
        other => panic!("expected the provider's error after the budget, got {:?}", other),
    }
}

#[test]
fn client_error_fails_immediately_without_retrying() {
    let policy = RetryPolicy::standard();
    let mut state = ModerationState::Sending { attempt: 0 };
    let mut calls = 0;
    loop {
        match state {
            ModerationState::Sending { .. } => {
                calls += 1;
                let outcome = AttemptOutcome::Response {
                    status: 400,
                    body: error_body("bad payload"),
                };
                state = moderation_step(&policy, &state, &outcome);
            }
            ModerationState::Finished(r) => {
                match r {
                    Err(ModerationError::ClientError(e)) => {
                        assert_eq!(400, e.status);
                        assert_eq!("bad payload", e.message);
                    }
                    other => panic!("expected a client error, got {:?}", other),
                }
                break;
            }
        }
    }
    assert_eq!(1, calls);
}

#[test]
fn exhausted_transport_failures_end_as_transport_error() {
    let policy = RetryPolicy::standard();
    let outcomes = vec![
        AttemptOutcome::Transport,
        AttemptOutcome::Transport,
        AttemptOutcome::Transport,
        AttemptOutcome::Transport,
    ];
    assert_eq!(
        ModerationState::Finished(Err(ModerationError::TransportError)),
        run_moderation(&policy, &outcomes)
    );
}

#[test]
fn backoff_delays_come_from_the_policy() {
    let policy = RetryPolicy::standard();
    assert_eq!(0, policy.backoff_delay_millis(0));
    assert_eq!(200, policy.backoff_delay_millis(1));
    assert_eq!(400, policy.backoff_delay_millis(2));
    assert_eq!(800, policy.backoff_delay_millis(3));
    assert_eq!(25_600, policy.backoff_delay_millis(9));

    let wide = RetryPolicy {
        max_retries: 3,
        base_delay_millis: u64::MAX / 2,
    };
    assert_eq!(u64::MAX, wide.backoff_delay_millis(4));
}

#[test]
fn provider_errors_surface_as_a_generic_internal_failure() {
    let body = error_body("secret diagnostics");
    let e = match classify_response(500, &body) {
        Err(e) => Error::Moderation(e),
        Ok(_) => panic!("a 5xx must not classify as success"),
    };
    assert_eq!(500, e.http_status());
    assert_eq!("Internal Server Error", e.message());
}
