//! Whole requests, against servers that answer by a script.
use std::sync::atomic::{AtomicU32, Ordering};
use std::sync::Arc;

use reqwest::header::{HeaderMap, HeaderValue, RETRY_AFTER};
use reqwest::{Request, Url};
use rs_retryablehttp::execution::{request_to_send, Verdict};
use rs_retryablehttp::{
    Client, DefaultRetryPolicy, Duration, Error, Execution, Method, NoRetry, ResponseHead,
    RetryPolicy, RetryableOutcome, Step, TransportError,
};

/// What a scripted server does with an attempt.
enum Reply {
    /// Answers with this status.
    Status(u16),
    /// Answers with this status and this `Retry-After` header.
    RetryAfter(u16, String),
    /// Does not answer in time.
    Timeout,
    /// Takes no connection.
    Refused,
    /// Breaks off for some other reason.
    Broken,
}

/// What became of a request.
struct Course {
    result: Result<u16, Error>,
    sent: usize,
    waits: Vec<Duration>,
}

/// Some transport error.
fn transport_error() -> reqwest::Error {
    reqwest::Client::new().get("no url").build().unwrap_err()
}

/// A failure of this kind.
fn failure(timeout: bool, connect: bool) -> TransportError {
    TransportError { timeout, connect, error: transport_error() }
}

/// Plays a request of this method through, without the waits.
fn play<P: RetryPolicy>(
    client: &Client<P>,
    method: Method,
    mut server: impl FnMut(usize) -> Reply,
) -> Course {
    let policy = client.retry_policy();
    let mut execution = client.begin(&method);
    let mut sent: usize = 0;
    let mut waits = Vec::new();
    loop {
        assert_eq!(execution.attempt() as usize, sent);
        let reply = server(sent);
        sent += 1;
        let mut headers = HeaderMap::new();
        let step = match reply {
            Reply::Status(status) => {
                execution.on_response(policy, &ResponseHead { status, headers }, status)
            }
            Reply::RetryAfter(status, value) => {
                headers.insert(RETRY_AFTER, HeaderValue::from_str(&value).unwrap());
                execution.on_response(policy, &ResponseHead { status, headers }, status)
            }
            Reply::Timeout => {
                execution.on_error(policy, failure(true, false))
            }
            Reply::Refused => {
                execution.on_error(policy, failure(false, true))
            }
            Reply::Broken => {
                execution.on_error(policy, failure(false, false))
            }
        };
        match step {
            Step::Wait(wait) => waits.push(wait),
            Step::Done(result) => return Course { result, sent, waits },
        }
    }
}

/// A client with the default policy, but for the number of retries and the waits.
fn client(max_retries: u32, max_wait_ms: u64) -> Client<DefaultRetryPolicy> {
    Client::builder()
        .with_client(reqwest::Client::new())
        .with_retry_policy(
            DefaultRetryPolicy::builder()
                .max_retries(max_retries)
                .backoff(Duration::from_millis(1), Duration::from_millis(max_wait_ms))
                .build(),
        )
        .build()
}

#[test]
fn successful_request_no_retry() {
    let client = Client::builder()
        .with_client(reqwest::Client::new())
        .with_retry_policy(DefaultRetryPolicy::builder().max_retries(3).build())
        .build();
    let course = play(&client, Method::GET, |_| Reply::Status(200));
    assert_eq!(course.result.unwrap(), 200);
    assert_eq!(course.sent, 1);
}

#[test]
fn retries_on_server_error_then_succeeds() {
    let course = play(&client(3, 100), Method::GET, |n| {
        Reply::Status(if n == 0 { 500 } else { 200 })
    });
    assert_eq!(course.result.unwrap(), 200);
    assert_eq!(course.sent, 2);
    assert!(course.waits[0] <= Duration::from_millis(100));
}

#[test]
fn max_retries_exceeded_returns_error() {
    let course = play(&client(3, 100), Method::GET, |_| Reply::Status(500));
    assert_eq!(course.sent, 4);
    assert!(matches!(
        course.result.unwrap_err(),
        Error::MaxRetriesExceeded { attempts: 4, .. }
    ));
}

#[test]
fn no_retry_on_client_error() {
    let client = Client::builder()
        .with_client(reqwest::Client::new())
        .with_retry_policy(DefaultRetryPolicy::builder().max_retries(3).build())
        .build();
    let course = play(&client, Method::GET, |_| Reply::Status(400));
    assert_eq!(course.result.unwrap(), 400);
    assert_eq!(course.sent, 1);
}

#[test]
fn retries_on_timeout() {
    let course = play(&client(2, 100), Method::GET, |_| Reply::Timeout);
    assert_eq!(course.sent, 3);
    assert!(matches!(
        course.result.unwrap_err(),
        Error::MaxRetriesExceeded { attempts: 3, .. }
    ));
}

#[test]
fn custom_policy_respected() {
    struct NoRetryPolicy;

    impl RetryPolicy for NoRetryPolicy {
        fn max_retries(&self) -> u32 {
            0
        }

        fn should_retry(&self, _attempt: u32, _outcome: RetryableOutcome<'_>) -> bool {
            false
        }

        fn backoff(&self, _attempt: u32) -> Duration {
            Duration::zero()
        }

        fn retryable_methods(&self) -> &[Method] {
            &[]
        }
    }

    let client = Client::builder()
        .with_client(reqwest::Client::new())
        .with_retry_policy(NoRetryPolicy)
        .build();
    let course = play(&client, Method::GET, |_| Reply::Status(500));
    assert_eq!(course.result.unwrap(), 500);
    assert_eq!(course.sent, 1);
    // The cap on server-supplied waits that a policy has if it sets none.
    assert_eq!(client.retry_policy().max_retry_after(), Duration::from_secs(300));
}

#[test]
fn body_is_rewinded_on_retry() {
    let client = Client::builder()
        .with_client(reqwest::Client::new())
        .with_retry_policy(
            DefaultRetryPolicy::builder()
                .max_retries(3)
                .retryable_methods(&[Method::POST]) // POST is not retryable by default; opt it in
                .backoff(Duration::from_millis(1), Duration::from_millis(100))
                .build(),
        )
        .build();
    let mut req = Request::new(
        reqwest::Method::POST,
        "http://127.0.0.1/echo".parse::<Url>().unwrap(),
    );
    *req.body_mut() = Some("hello".into());
    let course = play(&client, Method::from_name(req.method().as_str()), |n| {
        let sent = request_to_send(req.try_clone()).unwrap();
        assert_eq!(sent.body().unwrap().as_bytes().unwrap(), b"hello");
        Reply::Status(if n == 0 { 500 } else { 200 })
    });
    assert_eq!(course.result.unwrap(), 200);
    assert_eq!(course.sent, 2);
}

#[test]
fn post_not_retried_by_default() {
    let client = Client::builder().build();
    let course = play(&client, Method::POST, |_| Reply::Status(500));
    assert_eq!(course.result.unwrap(), 500);
    assert_eq!(course.sent, 1);
}

#[test]
fn default_builder_retries() {
    let client = Client::builder().build();
    let course = play(&client, Method::GET, |_| Reply::Status(500));
    assert!(matches!(
        course.result.unwrap_err(),
        Error::MaxRetriesExceeded { attempts: 4, .. }
    ));
    assert_eq!(course.sent, 4, "default builder must retry up to default max");
}

#[test]
fn client_new_retries() {
    let client = Client::new(reqwest::Client::new());
    let course = play(&client, Method::GET, |_| Reply::Status(500));
    assert!(matches!(
        course.result.unwrap_err(),
        Error::MaxRetriesExceeded { attempts: 4, .. }
    ));
    assert_eq!(course.sent, 4);
}

#[test]
fn max_retries_above_3_is_honored() {
    let course = play(&client(5, 10), Method::GET, |_| Reply::Status(500));
    assert!(matches!(
        course.result.unwrap_err(),
        Error::MaxRetriesExceeded { attempts: 6, .. }
    ));
    assert_eq!(course.sent, 6, "max_retries=5 must yield 6 total attempts");
}

#[test]
fn non_retryable_method_not_retried() {
    let policy = DefaultRetryPolicy::builder()
        .max_retries(3)
        .retryable_methods(&[Method::GET, Method::HEAD]) // POST excluded
        .backoff(Duration::from_millis(1), Duration::from_millis(10))
        .build();
    let client = Client::builder()
        .with_client(reqwest::Client::new())
        .with_retry_policy(policy)
        .build();
    let course = play(&client, Method::POST, |_| Reply::Status(500));
    assert_eq!(course.result.unwrap(), 500);
    assert_eq!(
        course.sent, 1,
        "POST must not be retried when excluded from retryable_methods"
    );
}

#[test]
fn no_retry_exported_never_retries() {
    let client = Client::builder()
        .with_client(reqwest::Client::new())
        .with_retry_policy(NoRetry)
        .build();
    let course = play(&client, Method::GET, |_| Reply::Status(500));
    assert_eq!(course.result.unwrap(), 500);
    assert_eq!(course.sent, 1);
}

#[test]
fn streaming_body_is_not_rewindable() {
    let stream = futures_util::stream::once(async { Ok::<_, std::io::Error>(b"hello".to_vec()) });
    let mut req = Request::new(
        reqwest::Method::POST,
        "http://127.0.0.1/".parse::<Url>().unwrap(),
    );
    *req.body_mut() = Some(reqwest::Body::wrap_stream(stream));

    match request_to_send(req.try_clone()) {
        Err(Error::BodyNotRewindable) => {}
        other => panic!("expected BodyNotRewindable, got {:?}", other.map(|r| r.method().clone())),
    }
}

#[test]
fn retries_on_429_too_many_requests() {
    let client = Client::builder().build();
    let course = play(&client, Method::GET, |n| {
        Reply::Status(if n == 0 { 429 } else { 200 })
    });
    assert_eq!(course.result.unwrap(), 200);
    assert_eq!(course.sent, 2);
}

#[test]
fn retries_on_408_request_timeout() {
    let course = play(&client(3, 10), Method::GET, |n| {
        Reply::Status(if n == 0 { 408 } else { 200 })
    });
    assert_eq!(course.result.unwrap(), 200);
    assert_eq!(course.sent, 2);
}

/// A client whose backoff starts at a minute, and whose cap is two.
fn slow_client() -> Client<DefaultRetryPolicy> {
    let policy = DefaultRetryPolicy::builder()
        .max_retries(3)
        .backoff(Duration::from_secs(60), Duration::from_secs(120))
        .build();
    Client::builder()
        .with_client(reqwest::Client::new())
        .with_retry_policy(policy)
        .build()
}

#[test]
fn honors_retry_after_delay_seconds() {
    let course = play(&slow_client(), Method::GET, |n| {
        if n == 0 {
            Reply::RetryAfter(429, "0".to_string())
        } else {
            Reply::Status(200)
        }
    });
    assert_eq!(course.result.unwrap(), 200);
    assert_eq!(course.sent, 2);
    assert_eq!(course.waits, vec![Duration::zero()]);
}

#[test]
fn honors_retry_after_on_503_not_just_429() {
    let course = play(&slow_client(), Method::GET, |n| {
        if n == 0 {
            Reply::RetryAfter(503, "0".to_string())
        } else {
            Reply::Status(200)
        }
    });
    assert_eq!(course.result.unwrap(), 200);
    assert_eq!(course.sent, 2);
    assert_eq!(
        course.waits,
        vec![Duration::zero()],
        "503 Retry-After: 0 was ignored; fell back to 60s backoff"
    );
}

#[test]
fn honors_retry_after_http_date() {
    // A Retry-After date 1 second in the future.
    let soon = std::time::SystemTime::now() + std::time::Duration::from_secs(1);
    let retry_after = httpdate::fmt_http_date(soon);
    let course = play(&slow_client(), Method::GET, |n| {
        if n == 0 {
            Reply::RetryAfter(429, retry_after.clone())
        } else {
            Reply::Status(200)
        }
    });
    assert_eq!(course.result.unwrap(), 200);
    assert_eq!(course.sent, 2);
    assert!(course.waits[0] <= Duration::from_secs(1));
}

#[test]
fn retries_on_connect_error() {
    let course = play(&client(2, 10), Method::GET, |_| Reply::Refused);
    let err = course.result.unwrap_err();
    assert!(
        matches!(err, Error::MaxRetriesExceeded { attempts: 3, .. }),
        "expected MaxRetriesExceeded after 3 connect-error attempts, got {err:?}"
    );
}

#[test]
fn custom_check_retry_closure_respected() {
    let policy = DefaultRetryPolicy::builder()
        .max_retries(3)
        .check_retry(|_, _| false)
        .backoff(Duration::from_millis(1), Duration::from_millis(10))
        .build();
    let client = Client::builder()
        .with_client(reqwest::Client::new())
        .with_retry_policy(policy)
        .build();
    let course = play(&client, Method::GET, |_| Reply::Status(500));
    assert_eq!(course.result.unwrap(), 500);
    assert_eq!(course.sent, 1);
}

#[test]
fn max_retries_zero_makes_one_attempt() {
    let policy = DefaultRetryPolicy::builder().max_retries(0).build();
    let client = Client::builder()
        .with_client(reqwest::Client::new())
        .with_retry_policy(policy)
        .build();
    let course = play(&client, Method::GET, |_| Reply::Status(500));
    assert_eq!(course.result.unwrap(), 500);
    assert_eq!(course.sent, 1);
}

#[test]
fn max_retries_one_makes_two_attempts() {
    let course = play(&client(1, 10), Method::GET, |_| Reply::Status(500));
    assert!(matches!(
        course.result.unwrap_err(),
        Error::MaxRetriesExceeded { attempts: 2, .. }
    ));
    assert_eq!(course.sent, 2);
}

#[test]
fn client_is_send_sync_and_concurrently_usable() {
    fn assert_send_sync<T: Send + Sync>() {}
    assert_send_sync::<Client>();

    // Twenty requests under way at once, each with a course of its own.
    let client = Client::builder().build();
    let mut executions: Vec<Execution> = (0..20).map(|_| client.begin(&Method::GET)).collect();
    for execution in &mut executions {
        let head = ResponseHead { status: 200, headers: HeaderMap::new() };
        match execution.on_response(client.retry_policy(), &head, 200u16) {
            Step::Done(result) => assert_eq!(result.unwrap(), 200),
            Step::Wait(wait) => panic!("waits {wait:?}"),
        }
    }
}

#[test]
fn inner_accessor_returns_underlying_client() {
    let client = Client::builder().build();
    let _: &reqwest::Client = client.inner();
    // Smoke-test that the accessor type is correct and the client is usable directly.
    assert!(client.inner().get("http://127.0.0.1:1/").build().is_ok());
}

#[test]
fn success_on_final_allowed_attempt_is_returned() {
    // 500, 500, 500, then 200 on the 4th call (attempt == max_retries).
    let course = play(&client(3, 5), Method::GET, |n| {
        Reply::Status(if n < 3 { 500 } else { 200 })
    });
    assert_eq!(course.result.expect("final 200 must be returned"), 200);
    assert_eq!(course.sent, 4);
}

#[test]
fn oversized_retry_after_is_capped() {
    let course = play(&client(3, 5), Method::GET, |n| {
        if n == 0 {
            Reply::RetryAfter(429, "999999".to_string())
        } else {
            Reply::Status(200)
        }
    });
    assert_eq!(course.result.unwrap(), 200);
    assert_eq!(course.sent, 2);
    // Cap is the configured max_wait (5ms).
    assert_eq!(course.waits, vec![Duration::from_millis(5)]);
}

#[test]
fn max_retries_exceeded_preserves_transport_error_cause() {
    let client = client(2, 10);
    let runtime = tokio::runtime::Builder::new_current_thread().enable_all().build().unwrap();
    let mut execution = client.begin(&Method::GET);
    let err = loop {
        // A port that takes no connections.
        let req = Request::new(
            reqwest::Method::GET,
            "http://127.0.0.1:1/".parse::<Url>().unwrap(),
        );
        let err = runtime.block_on(client.inner().execute(req)).unwrap_err();
        let failure = TransportError {
            timeout: err.is_timeout(),
            connect: err.is_connect(),
            error: err,
        };
        match execution.on_error::<_, u16>(client.retry_policy(), failure) {
            Step::Wait(_) => {}
            Step::Done(result) => break result.unwrap_err(),
        }
    };

    match err {
        Error::MaxRetriesExceeded { attempts: 3, source: Some(ref e) } => {
            assert!(e.is_connect(), "expected a connect error as the cause, got {e:?}");
        }
        other => panic!("expected MaxRetriesExceeded with a source, got {other:?}"),
    }
}

#[test]
fn max_retries_exceeded_on_response_has_no_cause() {
    let course = play(&client(2, 10), Method::GET, |_| Reply::Status(500));
    let err = course.result.unwrap_err();
    assert!(
        matches!(err, Error::MaxRetriesExceeded { attempts: 3, source: None }),
        "response-path exhaustion must carry no source, got {err:?}"
    );
}

#[test]
fn other_transport_errors_are_handed_back() {
    let course = play(&client(3, 10), Method::GET, |n| {
        if n == 0 { Reply::Refused } else { Reply::Broken }
    });
    assert!(matches!(course.result.unwrap_err(), Error::Reqwest(_)));
    assert_eq!(course.sent, 2);
}

#[test]
fn transport_error_without_retries_is_handed_back() {
    let course = play(&client(0, 10), Method::GET, |_| Reply::Timeout);
    assert!(matches!(course.result.unwrap_err(), Error::Reqwest(_)));
    assert_eq!(course.sent, 1);
}

#[test]
fn errors_after_responses_count_as_attempts() {
    // The last attempt decides about the cause, all of them about the count.
    let course = play(&client(2, 10), Method::GET, |n| {
        if n < 2 { Reply::Status(503) } else { Reply::Timeout }
    });
    assert!(matches!(
        course.result.unwrap_err(),
        Error::MaxRetriesExceeded { attempts: 3, source: Some(_) }
    ));
    let course = play(&client(2, 10), Method::GET, |n| {
        if n < 2 { Reply::Timeout } else { Reply::Status(503) }
    });
    assert!(matches!(
        course.result.unwrap_err(),
        Error::MaxRetriesExceeded { attempts: 3, source: None }
    ));
}

#[test]
fn total_wait_is_bounded() {
    let course = play(&client(5, 7), Method::GET, |n| {
        if n % 2 == 0 {
            Reply::RetryAfter(503, "3600".to_string())
        } else {
            Reply::Status(502)
        }
    });
    assert_eq!(course.waits.len(), 5);
    let total: u128 = course.waits.iter().map(|wait| wait.as_millis()).sum();
    assert!(total <= 5 * 7);
}

#[test]
fn policy_is_told_attempt_and_outcome() {
    let asked = Arc::new(AtomicU32::new(0));
    let counter = asked.clone();
    let policy = DefaultRetryPolicy::builder()
        .check_retry(move |attempt, outcome| {
            assert_eq!(attempt, counter.fetch_add(1, Ordering::SeqCst));
            match outcome {
                RetryableOutcome::Response(head) => head.status == 404,
                RetryableOutcome::Error(err) => err.timeout && err.error.is_builder(),
            }
        })
        .build();
    let client = Client::with_policy(reqwest::Client::new(), policy);
    let course = play(&client, Method::GET, |n| match n {
        0 => Reply::Status(404),
        1 => Reply::Timeout,
        _ => Reply::Status(500),
    });
    assert_eq!(course.result.unwrap(), 500);
    assert_eq!(course.sent, 3);
    assert_eq!(asked.load(Ordering::SeqCst), 3);
}

#[test]
fn policy_is_not_asked_about_other_methods() {
    let policy = DefaultRetryPolicy::builder()
        .check_retry(|_, _| panic!("asked about a method that may not be retried"))
        .build();
    let client = Client::with_policy(reqwest::Client::new(), policy);
    let course = play(&client, Method::PATCH, |_| Reply::Timeout);
    assert!(matches!(course.result.unwrap_err(), Error::Reqwest(_)));
    assert_eq!(course.sent, 1);
}

#[test]
fn conclusions_follow_the_limit() {
    let execution = Execution::new(true, 1);
    assert!(matches!(execution.conclude::<u16>(true, Ok(500)), Verdict::Retry));
    assert!(matches!(execution.conclude::<u16>(false, Ok(500)), Verdict::Done(Ok(500))));
    let execution = Execution::new(true, 0);
    assert!(matches!(execution.conclude::<u16>(true, Ok(500)), Verdict::Done(Ok(500))));
    let execution = Execution::new(false, 9);
    assert!(matches!(execution.conclude::<u16>(true, Ok(500)), Verdict::Done(Ok(500))));
    assert!(matches!(
        execution.conclude::<u16>(true, Err(transport_error())),
        Verdict::Done(Err(Error::Reqwest(_)))
    ));
}

#[test]
fn transport_errors_convert() {
    assert!(matches!(Error::from(transport_error()), Error::Reqwest(_)));
}
