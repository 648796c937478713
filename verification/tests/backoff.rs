//! Exponential backoff, and the spans of time that it is made of.
use rs_retryablehttp::backoff::{exponential_jitter_backoff, jittered_wait};
use rs_retryablehttp::Duration;

fn ms(millis: u64) -> Duration {
    Duration::from_millis(millis)
}

#[test]
fn backoff_always_within_bounds() {
    for attempt in 0..32u32 {
        for _ in 0..100 {
            let wait = exponential_jitter_backoff(
                Duration::from_millis(100),
                Duration::from_secs(30),
                attempt,
            );
            assert!(
                wait <= Duration::from_secs(30),
                "attempt {attempt}: {wait:?} > max"
            );
        }
    }
}

#[test]
fn backoff_huge_attempt_does_not_panic() {
    // A very large attempt count must not panic or overflow.
    let _ = exponential_jitter_backoff(
        Duration::from_millis(100),
        Duration::from_secs(30),
        u32::MAX,
    );
}

#[test]
fn backoff_respects_custom_max() {
    for _ in 0..1000 {
        let wait =
            exponential_jitter_backoff(Duration::from_secs(1), Duration::from_millis(5), 10);
        assert!(wait <= Duration::from_millis(5));
    }
}

#[test]
fn random_number_picks_the_wait() {
    // After the fourth attempt up to 800 ms, so 801 choices.
    assert_eq!(jittered_wait(ms(100), ms(30_000), 3, 0), ms(0));
    assert_eq!(jittered_wait(ms(100), ms(30_000), 3, 800), ms(800));
    assert_eq!(jittered_wait(ms(100), ms(30_000), 3, 801), ms(0));
    assert_eq!(jittered_wait(ms(100), ms(30_000), 3, 900), ms(99));
}

#[test]
fn ceiling_doubles_up_to_the_maximum() {
    let ceilings: [u64; 5] = [100, 200, 400, 800, 1000];
    for (attempt, ceiling) in ceilings.into_iter().enumerate() {
        let attempt = attempt as u32;
        assert_eq!(jittered_wait(ms(100), ms(1000), attempt, ceiling), ms(ceiling));
        assert_eq!(jittered_wait(ms(100), ms(1000), attempt, ceiling + 1), ms(0));
    }
}

#[test]
fn ceiling_saturates() {
    for attempt in [40, 63, 64, 65, u32::MAX] {
        assert_eq!(jittered_wait(ms(100), ms(1000), attempt, 1000), ms(1000));
        assert_eq!(jittered_wait(ms(100), ms(1000), attempt, 1001), ms(0));
    }
}

#[test]
fn longest_span_does_not_overflow() {
    let longest = Duration::new(u64::MAX, 999_999_999);
    assert_eq!(jittered_wait(longest, longest, 0, u64::MAX), ms(u64::MAX));
    let wait = exponential_jitter_backoff(longest, longest, u32::MAX);
    assert!(wait <= longest);
}

#[test]
fn no_wait_allowed_means_no_wait() {
    for random in [0, 1, 2, u64::MAX] {
        assert_eq!(jittered_wait(ms(100), ms(0), 5, random), ms(0));
        // Less than a millisecond is no whole millisecond.
        assert_eq!(jittered_wait(ms(100), Duration::new(0, 999_999), 5, random), ms(0));
    }
}

#[test]
fn no_shortest_wait_leaves_a_millisecond() {
    assert_eq!(jittered_wait(ms(0), ms(1000), 5, 0), ms(0));
    assert_eq!(jittered_wait(ms(0), ms(1000), 5, 1), ms(1));
    assert_eq!(jittered_wait(ms(0), ms(1000), 5, 2), ms(0));
}

#[test]
fn random_waits_differ() {
    let longest = ms(1_000_000_000);
    let first = exponential_jitter_backoff(longest, longest, 0);
    assert!((0..20).any(|_| exponential_jitter_backoff(longest, longest, 0) != first));
}

#[test]
fn spans_count_nanoseconds() {
    let span = Duration::new(1, 2_500_000_000);
    assert_eq!(span.as_secs(), 3);
    assert_eq!(span.subsec_nanos(), 500_000_000);
    assert_eq!(span.as_millis(), 3_500);
    assert_eq!(span, ms(3_500));
    assert_eq!(ms(1_001).subsec_nanos(), 1_000_000);
    assert_eq!(Duration::from_secs(2).min(ms(1_999)), ms(1_999));
    assert_eq!(ms(1_999).min(Duration::from_secs(2)), ms(1_999));
    assert_eq!(Duration::new(2, 1).min(Duration::new(2, 0)), Duration::from_secs(2));
    assert_eq!(Duration::zero(), Duration::from_secs(0));
}
