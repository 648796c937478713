//! Reading `Retry-After` values, and the waits that they lead to.
use std::time::SystemTime;

use reqwest::header::{HeaderMap, HeaderValue, RETRY_AFTER};
use rs_retryablehttp::retry_after::{
    delay_until, parse_delay_seconds, parse_retry_after, parse_retry_after_at,
    retry_after_or_backoff, retry_after_or_backoff_at, Timestamp,
};
use rs_retryablehttp::{Duration, ResponseHead};

/// Sun, 06 Nov 1994 08:49:37 GMT, in seconds since the epoch.
const DATE: u64 = 784111777;

fn at(secs: u64, nanos: u32) -> Timestamp {
    Timestamp::SinceEpoch(Duration::new(secs, nanos))
}

fn head(values: &[&[u8]]) -> ResponseHead {
    let mut headers = HeaderMap::new();
    for value in values {
        headers.append(RETRY_AFTER, HeaderValue::from_bytes(value).unwrap());
    }
    ResponseHead { status: 503, headers }
}

#[test]
fn parse_retry_after_delay_seconds() {
    assert_eq!(parse_retry_after("0"), Some(Duration::zero()));
    assert_eq!(parse_retry_after("120"), Some(Duration::from_secs(120)));
}

#[test]
fn parse_retry_after_invalid_returns_none() {
    assert_eq!(parse_retry_after("not-a-date"), None);
    assert_eq!(parse_retry_after(""), None);
    assert_eq!(parse_retry_after("-1"), None);
}

#[test]
fn parse_retry_after_http_date_future() {
    let future = SystemTime::now() + std::time::Duration::from_secs(10);
    let s = httpdate::fmt_http_date(future);
    let parsed = parse_retry_after(&s).expect("future HTTP-date must parse");
    assert!(parsed <= Duration::from_secs(10));
    // Allow minor clock skew.
    assert!(parsed > Duration::from_secs(7));
}

#[test]
fn parse_retry_after_http_date_past_is_zero() {
    let past = SystemTime::now() - std::time::Duration::from_secs(60);
    let s = httpdate::fmt_http_date(past);
    assert_eq!(parse_retry_after(&s), Some(Duration::zero()));
}

#[test]
fn delay_seconds_take_a_plus_sign_and_leading_zeros() {
    assert_eq!(parse_delay_seconds("+5"), Some(5));
    assert_eq!(parse_delay_seconds("0007"), Some(7));
    assert_eq!(parse_delay_seconds("18446744073709551615"), Some(u64::MAX));
}

#[test]
fn delay_seconds_take_nothing_else() {
    for value in [
        "", "+", "++1", "-0", " 1", "1 ", "1.5", "0x10", "12a", "\u{0665}", "+\u{e9}", "1\u{e9}",
    ] {
        assert_eq!(parse_delay_seconds(value), None, "{value:?}");
    }
    assert_eq!(parse_delay_seconds("18446744073709551616"), None);
    assert_eq!(parse_delay_seconds("99999999999999999999999"), None);
}

#[test]
fn delay_seconds_agree_with_the_standard_parser() {
    for value in ["", "+", "-", "0", "00", "+0", "-1", "9", "10", "x1", "1x", "184467440737095516150"] {
        assert_eq!(parse_delay_seconds(value), value.parse::<u64>().ok(), "{value:?}");
    }
}

#[test]
fn delay_until_counts_to_the_nanosecond() {
    assert_eq!(delay_until(100, at(40, 0)), Duration::from_secs(60));
    assert_eq!(delay_until(100, at(40, 1)), Duration::new(59, 999_999_999));
    assert_eq!(delay_until(100, at(99, 999_999_999)), Duration::new(0, 1));
    assert_eq!(delay_until(100, at(100, 0)), Duration::zero());
    assert_eq!(delay_until(100, at(100, 5)), Duration::zero());
    assert_eq!(delay_until(100, at(101, 0)), Duration::zero());
    let before = Timestamp::BeforeEpoch(Duration::new(2, 7));
    assert_eq!(delay_until(100, before), Duration::new(102, 7));
    let long_before = Timestamp::BeforeEpoch(Duration::from_secs(u64::MAX));
    assert_eq!(delay_until(1, long_before), Duration::new(u64::MAX, 999_999_999));
}

#[test]
fn wait_for_a_date_runs_down() {
    assert!(delay_until(DATE, at(DATE - 5, 0)) > delay_until(DATE, at(DATE - 4, 0)));
    assert_eq!(delay_until(DATE, at(DATE + 5, 0)), Duration::zero());
}

#[test]
fn all_forms_of_http_dates_are_read() {
    let now = at(DATE - 10, 0);
    for value in [
        "Sun, 06 Nov 1994 08:49:37 GMT",
        "Sunday, 06-Nov-94 08:49:37 GMT",
        "Sun Nov  6 08:49:37 1994",
    ] {
        assert_eq!(parse_retry_after_at(value, now), Some(Duration::from_secs(10)), "{value}");
    }
    // The day of the week must fit the date.
    assert_eq!(parse_retry_after_at("Mon, 06 Nov 1994 08:49:37 GMT", now), None);
}

#[test]
fn seconds_do_not_depend_on_the_clock() {
    assert_eq!(parse_retry_after_at("7", at(0, 0)), Some(Duration::from_secs(7)));
    assert_eq!(parse_retry_after_at("7", at(DATE, 0)), Some(Duration::from_secs(7)));
}

#[test]
fn header_replaces_backoff() {
    let cap = Duration::from_secs(120);
    for default in [Duration::zero(), Duration::from_secs(60)] {
        assert_eq!(
            retry_after_or_backoff(&head(&[b"3"]), default, cap),
            Duration::from_secs(3)
        );
    }
}

#[test]
fn header_is_capped() {
    let cap = Duration::from_millis(5);
    assert_eq!(retry_after_or_backoff(&head(&[b"999999"]), Duration::from_millis(1), cap), cap);
    let date = Some(b"Sun, 06 Nov 1994 08:49:37 GMT".to_vec());
    assert_eq!(
        retry_after_or_backoff_at(date, at(0, 0), Duration::from_millis(1), cap),
        cap
    );
}

#[test]
fn missing_or_unreadable_header_leaves_backoff() {
    let default = Duration::from_millis(250);
    let cap = Duration::from_millis(5);
    assert_eq!(retry_after_or_backoff(&head(&[]), default, cap), default);
    assert_eq!(retry_after_or_backoff(&head(&[b"soon"]), default, cap), default);
    assert_eq!(retry_after_or_backoff(&head(&[b"1\xff"]), default, cap), default);
    assert_eq!(retry_after_or_backoff_at(None, at(0, 0), default, cap), default);
    assert_eq!(
        retry_after_or_backoff_at(Some(b"1\x00".to_vec()), at(0, 0), default, cap),
        default
    );
}

#[test]
fn first_of_several_headers_counts() {
    let cap = Duration::from_secs(120);
    let wait = retry_after_or_backoff(&head(&[b"4", b"8"]), Duration::zero(), cap);
    assert_eq!(wait, Duration::from_secs(4));
    // The second is not looked at, even where the first cannot be read.
    let wait = retry_after_or_backoff(&head(&[b"soon", b"8"]), Duration::from_secs(1), cap);
    assert_eq!(wait, Duration::from_secs(1));
}

#[test]
fn header_names_ignore_case() {
    let mut headers = HeaderMap::new();
    headers.insert(
        reqwest::header::HeaderName::from_bytes(b"ReTrY-aFtEr").unwrap(),
        HeaderValue::from_static("2"),
    );
    let head = ResponseHead { status: 429, headers };
    let wait = retry_after_or_backoff(&head, Duration::zero(), Duration::from_secs(120));
    assert_eq!(wait, Duration::from_secs(2));
}
