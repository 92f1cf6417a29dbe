use d365_odata_mcp::retry::{
    ODataError, RetryPolicy, RetryState, RetryStep, SleepAmount,
};

fn policy(max_retries: u32, initial_delay_ms: u64) -> RetryPolicy {
    RetryPolicy { max_retries, initial_delay_ms }
}

#[test]
fn test_retry_succeeds_on_third_attempt() {
    // responses [429, 429, 200] with max_retries = 3: two sleeps with
    // doubling delay, success on attempt 3
    let p = policy(3, 2000);
    let mut st = RetryState::begin(&p);
    assert_eq!(st.attempt, 1);

    match st.step(&p, 429, None, String::new()) {
        RetryStep::Backoff(s) => assert_eq!(s, SleepAmount::Secs(2)),
        _ => panic!("expected a backoff"),
    }
    assert_eq!(st.attempt, 2);
    assert_eq!(st.delay_ms, 4000);

    match st.step(&p, 429, None, String::new()) {
        RetryStep::Backoff(s) => assert_eq!(s, SleepAmount::Secs(4)),
        _ => panic!("expected a backoff"),
    }
    assert_eq!(st.attempt, 3);
    assert_eq!(st.delay_ms, 8000);

    match st.step(&p, 200, None, String::new()) {
        RetryStep::Done => {}
        _ => panic!("expected success"),
    }
    assert_eq!(st.attempt, 3);
}

#[test]
fn test_retry_rate_limit_budget_exhausted() {
    // responses [429, 429, 429] with max_retries = 2: the second 429
    // fails rate-limited; attempt 3 is never made
    let p = policy(2, 2000);
    let mut st = RetryState::begin(&p);

    match st.step(&p, 429, None, String::new()) {
        RetryStep::Backoff(s) => assert_eq!(s, SleepAmount::Secs(2)),
        _ => panic!("expected a backoff"),
    }
    assert_eq!(st.attempt, 2);

    match st.step(&p, 429, None, String::new()) {
        RetryStep::Fail(ODataError::RateLimited(w)) => assert_eq!(w, 4),
        _ => panic!("expected a rate-limited failure"),
    }
    assert_eq!(st.attempt, 2);
}

#[test]
fn test_retry_honors_retry_after_header() {
    let p = policy(5, 1000);
    let mut st = RetryState::begin(&p);
    match st.step(&p, 429, Some(7), String::new()) {
        RetryStep::Backoff(s) => assert_eq!(s, SleepAmount::Secs(7)),
        _ => panic!("expected a backoff"),
    }
}

#[test]
fn test_not_found_never_retried() {
    // a 404 gives exactly one attempt and an immediate not-found failure,
    // whatever the budget
    let p = policy(100, 1000);
    let mut st = RetryState::begin(&p);
    match st.step(&p, 404, None, "no such entity".to_string()) {
        RetryStep::Fail(ODataError::NotFound(b)) => assert_eq!(b, "no such entity"),
        _ => panic!("expected a not-found failure"),
    }
    assert_eq!(st.attempt, 1);
}

#[test]
fn test_server_error_retried_with_millis_backoff() {
    let p = policy(3, 500);
    let mut st = RetryState::begin(&p);
    match st.step(&p, 503, None, String::new()) {
        RetryStep::Backoff(s) => assert_eq!(s, SleepAmount::Millis(500)),
        _ => panic!("expected a backoff"),
    }
    assert_eq!(st.attempt, 2);
    assert_eq!(st.delay_ms, 1000);
    match st.step(&p, 500, None, String::new()) {
        RetryStep::Backoff(s) => assert_eq!(s, SleepAmount::Millis(1000)),
        _ => panic!("expected a backoff"),
    }
    match st.step(&p, 500, None, "worker crashed".to_string()) {
        RetryStep::Fail(ODataError::ServerError(status, b)) => {
            assert_eq!(status, 500);
            assert_eq!(b, "worker crashed");
        }
        _ => panic!("expected a server-error failure"),
    }
}

#[test]
fn test_unexpected_status_fails_at_once() {
    let p = policy(10, 1000);
    let mut st = RetryState::begin(&p);
    match st.step(&p, 403, None, "forbidden".to_string()) {
        RetryStep::Fail(ODataError::ServerError(status, b)) => {
            assert_eq!(status, 403);
            assert_eq!(b, "forbidden");
        }
        _ => panic!("expected a server-error failure"),
    }
    assert_eq!(st.attempt, 1);

    // 202 is not among the retry executor's success statuses
    let mut st2 = RetryState::begin(&p);
    match st2.step(&p, 202, None, String::new()) {
        RetryStep::Fail(ODataError::ServerError(status, _)) => assert_eq!(status, 202),
        _ => panic!("expected a server-error failure"),
    }
}

#[test]
fn test_success_statuses() {
    let p = policy(1, 1000);
    for status in [200u16, 201, 204] {
        let mut st = RetryState::begin(&p);
        match st.step(&p, status, None, String::new()) {
            RetryStep::Done => {}
            _ => panic!("expected success"),
        }
    }
}
