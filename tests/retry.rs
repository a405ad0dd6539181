use interview_spark::retry::{is_retryable, is_retryable_lowered, RetryPolicy, RetryState, RetryStep};

/// Runs `op` under `policy` without sleeping; returns the outcome and the
/// waits asked for.
fn drive<T, E>(policy: &RetryPolicy, mut op: impl FnMut() -> Result<T, E>) -> (Result<T, E>, Vec<u64>) {
    let mut state = policy.start();
    let mut waits = Vec::new();
    loop {
        match policy.settle(&mut state, op()) {
            RetryStep::Done(r) => return (r, waits),
            RetryStep::RetryAfter(ms) => waits.push(ms),
        }
    }
}

#[test]
fn test_retry_success_on_second_attempt() {
    let policy = RetryPolicy::default();
    let mut attempt = 0;

    let (result, _) = drive(&policy, || {
        attempt += 1;
        if attempt == 1 {
            Err("First attempt fails".to_string())
        } else {
            Ok("Success")
        }
    });

    assert!(result.is_ok());
    assert_eq!(result.unwrap(), "Success");
    assert_eq!(attempt, 2);
}

#[test]
fn test_retry_exhausted() {
    let policy = RetryPolicy { max_retries: 2, initial_delay_ms: 10, ..Default::default() };
    let mut attempt = 0;

    let (result, _): (Result<(), String>, _) = drive(&policy, || {
        attempt += 1;
        Err("Always fails".to_string())
    });

    assert!(result.is_err());
    assert_eq!(attempt, 2);
}

#[test]
fn retry_last_error_is_returned_unchanged() {
    let policy = RetryPolicy::default();
    let mut attempt = 0;
    let (result, waits): (Result<(), String>, _) = drive(&policy, || {
        attempt += 1;
        Err(format!("failure {}", attempt))
    });
    assert_eq!(result, Err("failure 3".to_string()));
    assert_eq!(waits, vec![1000, 2000]);
}

#[test]
fn retry_max_minus_one_failures_then_success() {
    let policy = RetryPolicy { max_retries: 4, ..Default::default() };
    let mut attempt = 0;
    let (result, waits) = drive(&policy, || {
        attempt += 1;
        if attempt < 4 { Err(attempt) } else { Ok(attempt) }
    });
    assert_eq!(result, Ok(4));
    assert_eq!(waits.len(), 3);
}

#[test]
fn retry_delay_grows_and_caps() {
    let policy = RetryPolicy::default();
    assert_eq!(policy.next_delay(1000), 2000);
    assert_eq!(policy.next_delay(8000), 10000);
    let slow = RetryPolicy { backoff_percent: 150, ..Default::default() };
    assert_eq!(slow.next_delay(1000), 1500);
    assert_eq!(policy.next_delay(u64::MAX), 10000);
}

#[test]
fn retry_settle_state() {
    let policy = RetryPolicy::default();
    let mut s = policy.start();
    assert_eq!(s, RetryState { attempts: 0, delay_ms: 1000 });
    match policy.settle::<(), &str>(&mut s, Err("x")) {
        RetryStep::RetryAfter(ms) => assert_eq!(ms, 1000),
        RetryStep::Done(_) => panic!("should retry"),
    }
    assert_eq!(s, RetryState { attempts: 1, delay_ms: 2000 });
}

#[test]
fn retryable_errors_are_recognised() {
    assert!(is_retryable("Request Timeout"));
    assert!(is_retryable("CONNECTION refused"));
    assert!(is_retryable("HTTP 503 Service Unavailable"));
    assert!(!is_retryable("invalid api key"));
    assert!(!is_retryable(""));
    assert!(is_retryable_lowered("network down"));
    assert!(!is_retryable_lowered("NETWORK down"));
}

#[test]
fn retry_only_transient_stops_on_other_errors() {
    let policy = RetryPolicy { retry_only_transient: true, ..Default::default() };
    let mut s = policy.start();
    match policy.settle_classified::<(), &str>(&mut s, Err("bad request"), false) {
        RetryStep::Done(r) => assert_eq!(r, Err("bad request")),
        RetryStep::RetryAfter(_) => panic!("should stop"),
    }
    let mut s = policy.start();
    assert!(matches!(policy.settle_classified::<(), &str>(&mut s, Err("timeout"), true), RetryStep::RetryAfter(1000)));
    let lenient = RetryPolicy::default();
    let mut s = lenient.start();
    assert!(matches!(lenient.settle_classified::<(), &str>(&mut s, Err("bad request"), false), RetryStep::RetryAfter(1000)));
}
