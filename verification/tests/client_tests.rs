use lambda_telemetry::client::{
    backoff_secs, retry_give_up, retry_start, retry_step, run_retry_schedule, status_is_success,
    ClientError, RetryDecision,
};

#[test]
fn three_failing_attempts_back_off_two_then_four_seconds() {
    // The retry-timing contract on concrete values: three allowed attempts,
    // a transport that always fails, delays of 2 s and 4 s, and the final
    // attempt's error as the result.
    let outcomes: Vec<Result<u32, ClientError>> = vec![
        Err(ClientError::NetworkError("first".to_string())),
        Err(ClientError::HttpError(500)),
        Err(ClientError::ParseError("third".to_string())),
    ];
    let (result, delays, attempts) = run_retry_schedule(outcomes, 3);
    assert_eq!(result, Err(ClientError::ParseError("third".to_string())));
    assert_eq!(delays, vec![2, 4]);
    assert_eq!(attempts, 3);
}

#[test]
fn first_success_finishes_without_sleeping() {
    let outcomes: Vec<Result<u32, ClientError>> = vec![
        Ok(7),
        Err(ClientError::TimeoutError),
        Err(ClientError::TimeoutError),
    ];
    let (result, delays, attempts) = run_retry_schedule(outcomes, 3);
    assert_eq!(result, Ok(7));
    assert_eq!(delays, Vec::<u64>::new());
    assert_eq!(attempts, 1);
}

#[test]
fn success_after_one_failure_sleeps_once() {
    let outcomes: Vec<Result<u32, ClientError>> = vec![
        Err(ClientError::HttpError(503)),
        Ok(9),
        Err(ClientError::TimeoutError),
    ];
    let (result, delays, attempts) = run_retry_schedule(outcomes, 3);
    assert_eq!(result, Ok(9));
    assert_eq!(delays, vec![2]);
    assert_eq!(attempts, 2);
}

#[test]
fn zero_allowed_attempts_time_out() {
    let outcomes: Vec<Result<u32, ClientError>> = vec![];
    let (result, delays, attempts) = run_retry_schedule(outcomes, 0);
    assert_eq!(result, Err(ClientError::TimeoutError));
    assert_eq!(delays, Vec::<u64>::new());
    assert_eq!(attempts, 0);
}

#[test]
fn single_attempt_default_never_sleeps() {
    // The default allowance of one attempt means no retry at all.
    let outcomes: Vec<Result<u32, ClientError>> =
        vec![Err(ClientError::NetworkError("down".to_string()))];
    let (result, delays, attempts) = run_retry_schedule(outcomes, 1);
    assert_eq!(result, Err(ClientError::NetworkError("down".to_string())));
    assert_eq!(delays, Vec::<u64>::new());
    assert_eq!(attempts, 1);
}

#[test]
fn backoff_is_exponential_in_the_attempt_number() {
    assert_eq!(backoff_secs(0), 1);
    assert_eq!(backoff_secs(1), 2);
    assert_eq!(backoff_secs(2), 4);
    assert_eq!(backoff_secs(6), 64);
    assert_eq!(backoff_secs(63), 1u64 << 63);
}

#[test]
fn status_classification_is_the_2xx_range() {
    assert!(status_is_success(200));
    assert!(status_is_success(204));
    assert!(status_is_success(299));
    assert!(!status_is_success(199));
    assert!(!status_is_success(300));
    assert!(!status_is_success(404));
    assert!(!status_is_success(500));
}

#[test]
fn retry_step_books_failures_and_passes_successes_through() {
    let mut s = retry_start(2);
    let d = retry_step::<u32>(&mut s, Err(ClientError::HttpError(500)));
    assert_eq!(d, RetryDecision::Backoff(2));
    assert_eq!(s.attempts, 1);
    assert_eq!(s.last_error, Some(ClientError::HttpError(500)));
    let d = retry_step::<u32>(&mut s, Err(ClientError::HttpError(502)));
    assert_eq!(d, RetryDecision::Finished(Err(ClientError::HttpError(502))));
    assert_eq!(s.attempts, 2);

    let mut s = retry_start(2);
    let d = retry_step::<u32>(&mut s, Ok(5));
    assert_eq!(d, RetryDecision::Finished(Ok(5)));
    assert_eq!(s.attempts, 0);
}

#[test]
fn give_up_returns_the_last_error_or_a_timeout() {
    let s = retry_start(0);
    assert_eq!(retry_give_up::<u32>(s), Err(ClientError::TimeoutError));
}
