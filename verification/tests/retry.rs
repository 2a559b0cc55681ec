use renamed::{
    is_error_status, response_outcome, AttemptOutcome, ErrorKind, RenamedClient, RenamedError,
    RetryDecision, RetryPolicy, RetryState,
};

/// A transport error that is neither a timeout nor a failed connection.
fn transport_error(target: &str) -> reqwest::Error {
    reqwest::Client::new().get(target).build().unwrap_err()
}

/// What the transport error was caused by, in its own words.
fn cause(err: &reqwest::Error) -> String {
    std::error::Error::source(err).map(|e| e.to_string()).unwrap_or_default()
}

fn refused() -> AttemptOutcome {
    AttemptOutcome::TransportFailure(transport_error("not a url"))
}

fn answered(status_code: u16, body: &str) -> AttemptOutcome {
    AttemptOutcome::Response {
        status_code,
        body: body.to_string(),
        error_payload: None,
    }
}

/// Runs one execution the way a transport loop does, feeding it `outcomes`
/// in order. Returns the result, the attempts made and the waits.
fn run(
    policy: RetryPolicy,
    outcomes: Vec<AttemptOutcome>,
) -> (Result<String, RenamedError>, usize, Vec<u64>) {
    let mut state = RetryState::start(policy);
    let mut attempts = 0;
    let mut waits = Vec::new();
    for outcome in outcomes {
        attempts += 1;
        match state.step(outcome) {
            RetryDecision::Retry { delay_ms, next } => {
                waits.push(delay_ms);
                state = next;
            }
            RetryDecision::Finished(result) => return (result, attempts, waits),
        }
    }
    panic!("the execution asked for more attempts than outcomes were given");
}

#[test]
fn persistent_failure_uses_every_attempt() {
    let policy = RetryPolicy::new(2, 100);
    let (result, attempts, waits) = run(policy, vec![refused(), refused(), refused(), refused()]);
    assert_eq!(attempts, 3);
    assert_eq!(waits, vec![100, 200]);
    match result {
        Err(RenamedError::Network { message, source }) => {
            assert_eq!(message, transport_error("not a url").to_string());
            assert!(source.is_some());
        }
        other => panic!("unexpected {:?}", other),
    }
}

#[test]
fn the_last_failure_is_the_one_returned() {
    let first = transport_error("not a url");
    let last = transport_error("http://[::1");
    assert_ne!(cause(&first), cause(&last));
    let expected = cause(&last);
    let outcomes = vec![
        AttemptOutcome::TransportFailure(first),
        AttemptOutcome::TransportFailure(last),
    ];
    let (result, attempts, waits) = run(RetryPolicy::new(1, 100), outcomes);
    assert_eq!(attempts, 2);
    assert_eq!(waits, vec![100]);
    match result {
        Err(err) => {
            assert_eq!(err.kind(), ErrorKind::Network);
            match err {
                RenamedError::Network { source: Some(source), .. } => {
                    assert_eq!(cause(&source), expected)
                }
                other => panic!("unexpected {:?}", other),
            }
        }
        other => panic!("unexpected {:?}", other),
    }
}

#[test]
fn zero_retries_means_one_attempt() {
    let (result, attempts, waits) = run(RetryPolicy::new(0, 100), vec![refused(), refused()]);
    assert_eq!(attempts, 1);
    assert!(waits.is_empty());
    assert!(result.is_err());
}

#[test]
fn a_server_error_is_not_retried() {
    let (result, attempts, waits) = run(
        RetryPolicy::new(5, 100),
        vec![answered(500, "oops"), answered(200, "ok")],
    );
    assert_eq!(attempts, 1);
    assert!(waits.is_empty());
    match result {
        Err(err) => {
            assert_eq!(err.kind(), ErrorKind::Api);
            assert_eq!(err.message(), "HTTP 500");
        }
        other => panic!("unexpected {:?}", other),
    }
}

#[test]
fn every_answer_ends_the_execution() {
    for status in [200u16, 204, 302, 399, 400, 401, 402, 422, 429, 500, 503] {
        let (result, attempts, waits) = run(RetryPolicy::new(3, 100), vec![answered(status, "b")]);
        assert_eq!(attempts, 1);
        assert!(waits.is_empty());
        assert_eq!(result.is_err(), status >= 400);
    }
}

#[test]
fn success_after_a_failure() {
    let (result, attempts, waits) = run(
        RetryPolicy::new(2, 100),
        vec![refused(), answered(200, "{\"ok\":true}")],
    );
    assert_eq!(attempts, 2);
    assert_eq!(waits, vec![100]);
    assert_eq!(result.unwrap(), "{\"ok\":true}");
}

#[test]
fn a_lost_body_ends_the_execution() {
    let lost = AttemptOutcome::BodyLost(transport_error("not a url"));
    let (result, attempts, waits) = run(RetryPolicy::new(2, 100), vec![lost]);
    assert_eq!(attempts, 1);
    assert!(waits.is_empty());
    let err = result.unwrap_err();
    assert_eq!(err.kind(), ErrorKind::Network);
    assert_eq!(err.message(), transport_error("not a url").to_string());
}

#[test]
fn a_request_that_cannot_be_sent_again() {
    let (result, attempts, _) = run(RetryPolicy::new(2, 100), vec![AttemptOutcome::NotResendable]);
    assert_eq!(attempts, 1);
    match result {
        Err(RenamedError::Network { message, source }) => {
            assert_eq!(message, "Failed to clone request for retry");
            assert!(source.is_none());
        }
        other => panic!("unexpected {:?}", other),
    }
}

#[test]
fn delays_double() {
    let policy = RetryPolicy::new(10, 100);
    assert_eq!(policy.delay_after(0), 100);
    assert_eq!(policy.delay_after(1), 200);
    assert_eq!(policy.delay_after(2), 400);
    assert_eq!(policy.delay_after(3), 800);
    assert_eq!(policy.delay_after(10), 102400);
    assert_eq!(RetryPolicy::new(3, 7).delay_after(3), 56);
    assert_eq!(RetryPolicy::new(3, 0).delay_after(3), 0);
    assert_eq!(RetryPolicy::new(3, 0).delay_after(u32::MAX), 0);
}

#[test]
fn delays_stop_at_the_longest_wait() {
    let policy = RetryPolicy::new(u32::MAX, 100);
    assert_eq!(policy.delay_after(57), 100u64 << 57);
    assert_eq!(policy.delay_after(58), u64::MAX);
    assert_eq!(policy.delay_after(64), u64::MAX);
    assert_eq!(policy.delay_after(u32::MAX), u64::MAX);
    assert_eq!(RetryPolicy::new(1, 1).delay_after(63), 1u64 << 63);
    assert_eq!(RetryPolicy::new(1, 1).delay_after(64), u64::MAX);
    assert_eq!(RetryPolicy::new(1, u64::MAX).delay_after(0), u64::MAX);
    assert_eq!(RetryPolicy::new(1, u64::MAX).delay_after(1), u64::MAX);
}

#[test]
fn the_clients_policy() {
    let client = RenamedClient::builder("k").max_retries(4).build();
    let (_, attempts, waits) = run(
        client.retry_policy(),
        vec![refused(), refused(), refused(), refused(), refused()],
    );
    assert_eq!(attempts, 5);
    assert_eq!(waits, vec![100, 200, 400, 800]);
}

#[test]
fn error_statuses_begin_at_400() {
    assert!(!is_error_status(0));
    assert!(!is_error_status(200));
    assert!(!is_error_status(399));
    assert!(is_error_status(400));
    assert!(is_error_status(599));
    assert_eq!(response_outcome(200, "b".to_string(), None).unwrap(), "b");
    assert_eq!(response_outcome(399, String::new(), None).unwrap(), "");
    let err = response_outcome(401, "b".to_string(), None).unwrap_err();
    assert_eq!(err.kind(), ErrorKind::Authentication);
}
