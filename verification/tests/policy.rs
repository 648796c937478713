//! What policies answer, and what their builder is told.
use reqwest::header::HeaderMap;
use rs_retryablehttp::method::contains;
use rs_retryablehttp::{
    DefaultRetryPolicy, Duration, Method, NoRetry, ResponseHead, RetryPolicy, RetryableOutcome,
    TransportError,
};

fn ms(millis: u64) -> Duration {
    Duration::from_millis(millis)
}

fn failure(timeout: bool, connect: bool) -> TransportError {
    let error = reqwest::Client::new().get("no url").build().unwrap_err();
    TransportError { timeout, connect, error }
}

fn retries_status<P: RetryPolicy>(policy: &P, status: u16) -> bool {
    let head = ResponseHead { status, headers: HeaderMap::new() };
    policy.should_retry(0, RetryableOutcome::Response(&head))
}

fn retries_error<P: RetryPolicy>(policy: &P, timeout: bool, connect: bool) -> bool {
    policy.should_retry(0, RetryableOutcome::Error(&failure(timeout, connect)))
}

#[test]
fn defaults_are_as_documented() {
    let policy = DefaultRetryPolicy::builder().build();
    assert_eq!(policy.max_retries(), 3);
    assert_eq!(policy.max_retry_after(), Duration::from_secs(30));
    assert_eq!(
        policy.retryable_methods(),
        &[
            Method::GET,
            Method::HEAD,
            Method::PUT,
            Method::DELETE,
            Method::OPTIONS,
            Method::TRACE
        ]
    );
    for attempt in 0..40 {
        assert!(policy.backoff(attempt) <= Duration::from_secs(30));
    }
    assert!(policy.backoff(0) <= ms(100));
    assert!(policy.backoff(1) <= ms(200));
}

#[test]
fn default_predicate_retries_by_status() {
    let policy = DefaultRetryPolicy::builder().build();
    for status in [408, 429, 500, 502, 503, 504, 599] {
        assert!(retries_status(&policy, status), "{status}");
    }
    for status in [100, 200, 204, 301, 400, 401, 404, 407, 409, 428, 430, 499, 600, 999] {
        assert!(!retries_status(&policy, status), "{status}");
    }
}

#[test]
fn default_predicate_retries_by_error() {
    let policy = DefaultRetryPolicy::builder().build();
    assert!(retries_error(&policy, true, false));
    assert!(retries_error(&policy, false, true));
    assert!(retries_error(&policy, true, true));
    assert!(!retries_error(&policy, false, false));
}

#[test]
fn cap_follows_the_longest_backoff() {
    let policy = DefaultRetryPolicy::builder().backoff(ms(1), ms(5)).build();
    assert_eq!(policy.max_retry_after(), ms(5));
    // It is the policy's own longest backoff that counts, not one that was replaced.
    let policy = DefaultRetryPolicy::builder().backoff(ms(1), ms(5)).backoff(ms(1), ms(9)).build();
    assert_eq!(policy.max_retry_after(), ms(9));
}

#[test]
fn explicit_cap_wins_in_either_order() {
    let policy = DefaultRetryPolicy::builder().max_retry_after(ms(7)).backoff(ms(1), ms(5)).build();
    assert_eq!(policy.max_retry_after(), ms(7));
    let policy = DefaultRetryPolicy::builder().backoff(ms(1), ms(5)).max_retry_after(ms(7)).build();
    assert_eq!(policy.max_retry_after(), ms(7));
    let policy = DefaultRetryPolicy::builder().max_retry_after(ms(7)).build();
    assert_eq!(policy.max_retry_after(), ms(7));
}

#[test]
fn custom_predicate_keeps_the_rest() {
    let policy = DefaultRetryPolicy::builder()
        .max_retries(8)
        .backoff(ms(1), ms(5))
        .retryable_methods(&[Method::PATCH])
        .check_retry(|attempt, _| attempt == 0)
        .build();
    assert_eq!(policy.max_retries(), 8);
    assert_eq!(policy.max_retry_after(), ms(5));
    assert_eq!(policy.retryable_methods(), &[Method::PATCH]);
    assert!(policy.backoff(3) <= ms(5));
    assert!(retries_status(&policy, 200));
    assert!(!policy.should_retry(1, RetryableOutcome::Error(&failure(true, true))));
}

#[test]
fn no_retry_refuses_everything() {
    assert_eq!(NoRetry.max_retries(), 0);
    assert_eq!(NoRetry.backoff(9), Duration::zero());
    assert!(NoRetry.retryable_methods().is_empty());
    assert_eq!(NoRetry.max_retry_after(), Duration::from_secs(300));
    assert!(!retries_status(&NoRetry, 503));
    assert!(!retries_error(&NoRetry, true, true));
}

#[test]
fn methods_compare_by_name() {
    assert_eq!(Method::from_name("GET"), Method::GET);
    assert_ne!(Method::from_name("get"), Method::GET);
    assert_eq!(Method::Extension("PURGE".to_string()), Method::from_name("PURGE"));
    for name in [
        "OPTIONS", "GET", "POST", "PUT", "DELETE", "HEAD", "TRACE", "CONNECT", "PATCH", "PURGE",
    ] {
        assert_eq!(Method::from_name(name).as_str(), name);
        assert_eq!(Method::from_name(name).clone(), Method::from_name(name));
    }
    assert_eq!(Method::TRACE.as_str(), "TRACE");
    assert!(contains(&[Method::HEAD, Method::PUT], &Method::PUT));
    assert!(!contains(&[Method::HEAD, Method::PUT], &Method::GET));
    assert!(!contains(&[], &Method::GET));
}
