use reinfer_client::error::Error;
use reinfer_client::retry::{backoff_delay, decide, run_retry, AttemptReport, Retry, RetryConfig,
    RetryDecision, RetryPolicy};

fn transient() -> Error {
    Error::ReqwestError { message: String::from("connection reset") }
}

fn server_error() -> Error {
    Error::Api { status_code: 503, message: String::from("unavailable") }
}

fn client_error() -> Error {
    Error::Api { status_code: 404, message: String::from("not found") }
}

fn config(max_attempts: u64, base_delay_ms: u64, policy: RetryPolicy) -> RetryConfig {
    RetryConfig { max_attempts, base_delay_ms, policy }
}

#[test]
fn retryable_classification() {
    assert!(transient().is_retryable());
    assert!(server_error().is_retryable());
    assert!(Error::Api { status_code: 429, message: String::new() }.is_retryable());
    assert!(!client_error().is_retryable());
    assert!(!Error::BadJsonResponse { message: String::new() }.is_retryable());
    assert!(!Error::BadProtocol { status_code: 200, message: String::new() }.is_retryable());
    assert!(!Error::BadDatasetIdentifier { identifier: String::from("x") }.is_retryable());
}

#[test]
fn permanently_failing_call_attempted_exactly_max_times() {
    let cfg = config(3, 10, RetryPolicy::Fixed);
    let outcomes = vec![
        AttemptReport::Failed(transient()),
        AttemptReport::Failed(server_error()),
        AttemptReport::Failed(transient()),
    ];
    let (attempts, result) = run_retry(&cfg, Retry::Yes, &outcomes);
    assert_eq!(attempts, 3);
    match result {
        Err(Error::ReqwestError { message }) => assert_eq!(message, "connection reset"),
        _ => panic!("expected the last error to surface"),
    }
}

#[test]
fn fatal_error_attempted_exactly_once() {
    let cfg = config(5, 10, RetryPolicy::Fixed);
    let outcomes = vec![
        AttemptReport::Failed(client_error()),
        AttemptReport::Failed(transient()),
        AttemptReport::Failed(transient()),
        AttemptReport::Failed(transient()),
        AttemptReport::Failed(transient()),
    ];
    let (attempts, result) = run_retry(&cfg, Retry::Yes, &outcomes);
    assert_eq!(attempts, 1);
    match result {
        Err(Error::Api { status_code, .. }) => assert_eq!(status_code, 404),
        _ => panic!("expected the fatal error to surface"),
    }
}

#[test]
fn no_retry_flag_attempted_exactly_once() {
    let cfg = config(5, 10, RetryPolicy::Fixed);
    let outcomes = vec![
        AttemptReport::Failed(transient()),
        AttemptReport::Failed(transient()),
        AttemptReport::Failed(transient()),
        AttemptReport::Failed(transient()),
        AttemptReport::Failed(transient()),
    ];
    let (attempts, result) = run_retry(&cfg, Retry::No, &outcomes);
    assert_eq!(attempts, 1);
    assert!(result.is_err());
}

#[test]
fn success_stops_the_loop() {
    let cfg = config(4, 10, RetryPolicy::Fixed);
    let outcomes = vec![
        AttemptReport::Failed(transient()),
        AttemptReport::Completed,
        AttemptReport::Failed(transient()),
        AttemptReport::Failed(transient()),
    ];
    let (attempts, result) = run_retry(&cfg, Retry::Yes, &outcomes);
    assert_eq!(attempts, 2);
    assert!(result.is_ok());
}

#[test]
fn exponential_backoff_doubles() {
    let cfg = config(10, 100, RetryPolicy::Exponential);
    assert_eq!(backoff_delay(&cfg, 1), 100);
    assert_eq!(backoff_delay(&cfg, 2), 200);
    assert_eq!(backoff_delay(&cfg, 3), 400);
    assert_eq!(backoff_delay(&cfg, 4), 800);
}

#[test]
fn exponential_backoff_saturates() {
    let cfg = config(200, u64::MAX / 2 + 1, RetryPolicy::Exponential);
    assert_eq!(backoff_delay(&cfg, 2), u64::MAX);
    assert_eq!(backoff_delay(&cfg, 3), u64::MAX);
}

#[test]
fn fixed_backoff_is_constant() {
    let cfg = config(10, 250, RetryPolicy::Fixed);
    assert_eq!(backoff_delay(&cfg, 1), 250);
    assert_eq!(backoff_delay(&cfg, 5), 250);
}

#[test]
fn decide_retries_transient_until_budget_spent() {
    let cfg = config(3, 50, RetryPolicy::Fixed);
    let e = transient();
    assert!(matches!(decide(&cfg, Retry::Yes, 1, &e), RetryDecision::RetryAfter { delay_ms: 50 }));
    assert!(matches!(decide(&cfg, Retry::Yes, 2, &e), RetryDecision::RetryAfter { delay_ms: 50 }));
    assert!(matches!(decide(&cfg, Retry::Yes, 3, &e), RetryDecision::GiveUp));
}

#[test]
fn decide_gives_up_on_fatal_or_forbidden() {
    let cfg = config(3, 50, RetryPolicy::Fixed);
    assert!(matches!(decide(&cfg, Retry::Yes, 1, &client_error()), RetryDecision::GiveUp));
    assert!(matches!(decide(&cfg, Retry::No, 1, &transient()), RetryDecision::GiveUp));
}
