//! Exponential backoff with full jitter.
use vstd::arithmetic::power2::pow2;
use vstd::prelude::*;

use crate::duration::{Duration, NANOS_PER_MILLI};
use crate::outside::random_u64;

verus! {

/// The whole milliseconds of a span of `nanos` nanoseconds, as 64 bits hold them.
pub open spec fn millis(nanos: nat) -> nat {
    (nanos / (NANOS_PER_MILLI as nat)) % 0x1_0000_0000_0000_0000
}

/// The longest wait after an attempt, in milliseconds: `min_wait` doubled with every attempt, but at
/// most `max_wait`. Where that comes to nothing, one millisecond, if `max_wait` allows one.
pub open spec fn wait_ceiling(min_wait: nat, max_wait: nat, attempt: u32) -> nat {
    let grown = millis(min_wait) * pow2(attempt as nat);
    let max_ms = millis(max_wait);
    if grown >= max_ms {
        max_ms
    } else if grown == 0 {
        1
    } else {
        grown
    }
}

/// Two to the power of `attempt`, or the largest number of 64 bits if that is less.
fn saturating_pow2(attempt: u32) -> (power: u64)
    ensures
        power == if pow2(attempt as nat) <= u64::MAX {
            pow2(attempt as nat)
        } else {
            u64::MAX as nat
        },
{
    proof {
        vstd::arithmetic::power2::lemma2_to64();
        vstd::arithmetic::power2::lemma2_to64_rest();
    }
    if attempt < 64 {
        proof {
            if attempt < 63 {
                vstd::arithmetic::power2::lemma_pow2_strictly_increases(attempt as nat, 63);
            }
            vstd::bits::lemma_u64_shl_is_mul(1, attempt as u64);
        }
        1u64 << attempt
    } else {
        proof {
            if attempt > 64 {
                vstd::arithmetic::power2::lemma_pow2_strictly_increases(64, attempt as nat);
            }
        }
        u64::MAX
    }
}

/// The whole milliseconds of a span, cut to 64 bits.
fn millis_u64(span: Duration) -> (ms: u64)
    ensures
        ms == millis(span@),
{
    let whole: u128 = span.as_millis();
    assert(whole as u64 == whole % 0x1_0000_0000_0000_0000) by (bit_vector);
    #[verifier::truncate] (whole as u64)
}

/// The longest wait after an attempt, in milliseconds.
fn ceiling_millis(min_wait: Duration, max_wait: Duration, attempt: u32) -> (ms: u64)
    ensures
        ms == wait_ceiling(min_wait@, max_wait@, attempt),
{
    let min_ms: u64 = millis_u64(min_wait);
    let max_ms: u64 = millis_u64(max_wait);
    let power: u64 = saturating_pow2(attempt);
    proof {
        let p = pow2(attempt as nat) as int;
        vstd::arithmetic::power2::lemma_pow2_pos(attempt as nat);
        assert(0 <= min_ms * power <= u64::MAX * u64::MAX) by (nonlinear_arith)
            requires
                0 <= min_ms <= u64::MAX,
                0 <= power <= u64::MAX,
        ;
        assert(min_ms == 0 ==> min_ms * p == 0 && min_ms * power == 0) by (nonlinear_arith);
        assert(min_ms >= 1 && power == u64::MAX && p >= u64::MAX ==> min_ms * p >= u64::MAX
            && min_ms * power >= u64::MAX) by (nonlinear_arith);
        assert(min_ms >= 1 && p >= 1 ==> min_ms * p >= 1) by (nonlinear_arith);
    }
    let grown: u128 = min_ms as u128 * power as u128;
    if grown >= max_ms as u128 {
        max_ms
    } else if grown == 0 {
        1
    } else {
        grown as u64
    }
}

/// The wait that a random number picks, in nanoseconds: one of the whole milliseconds from none up to
/// the longest wait after the attempt.
pub open spec fn jittered(min_wait: nat, max_wait: nat, attempt: u32, random: u64) -> nat {
    (random as nat % (wait_ceiling(min_wait, max_wait, attempt) + 1)) * (NANOS_PER_MILLI as nat)
}

/// Exponential backoff with the jitter that a given random number makes.
pub fn jittered_wait(min_wait: Duration, max_wait: Duration, attempt: u32, random: u64) -> (wait:
    Duration)
    ensures
        wait@ == jittered(min_wait@, max_wait@, attempt, random),
        wait@ <= max_wait@,
{
    let ceiling: u64 = ceiling_millis(min_wait, max_wait, attempt);
    let ms: u64 = if ceiling == u64::MAX {
        random
    } else {
        random % (ceiling + 1)
    };
    proof {
        let choices = wait_ceiling(min_wait@, max_wait@, attempt) + 1;
        if ceiling == u64::MAX {
            vstd::arithmetic::div_mod::lemma_small_mod(random as nat, choices);
        }
        assert(ms as nat == random as nat % choices);
    }
    Duration::from_millis(ms)
}

/// Whether a number is one that the random number generator may draw when it is asked.
pub closed spec fn generator_draws(random: u64) -> bool {
    call_ensures(random_u64, (), random)
}

/// Exponential backoff with full jitter. The result is always in `[0, max_wait]`.
///
/// The jitter is by a number that the random number generator draws, of which no more is known.
pub fn exponential_jitter_backoff(min_wait: Duration, max_wait: Duration, attempt: u32) -> (wait:
    Duration)
    ensures
        wait@ <= max_wait@,
        exists|random: u64|
            {
                &&& generator_draws(random)
                &&& wait@ == #[trigger] jittered(min_wait@, max_wait@, attempt, random)
            },
{
    jittered_wait(min_wait, max_wait, attempt, random_u64())
}

/// Every wait is a whole number of milliseconds from none up to the ceiling, which never passes the
/// longest wait; and, for full jitter, each of them is picked by some random number.
pub proof fn law_full_jitter(min_wait: nat, max_wait: nat, attempt: u32)
    ensures
        wait_ceiling(min_wait, max_wait, attempt) * (NANOS_PER_MILLI as nat) <= max_wait,
        forall|random: u64| #[trigger]
            jittered(min_wait, max_wait, attempt, random) <= wait_ceiling(
                min_wait,
                max_wait,
                attempt,
            ) * (NANOS_PER_MILLI as nat),
        forall|ms: u64|
            ms <= wait_ceiling(min_wait, max_wait, attempt) ==> #[trigger] jittered(
                min_wait,
                max_wait,
                attempt,
                ms,
            ) == ms * NANOS_PER_MILLI,
{
    let ceiling = wait_ceiling(min_wait, max_wait, attempt);
    assert forall|ms: u64| ms <= ceiling implies #[trigger] jittered(
        min_wait,
        max_wait,
        attempt,
        ms,
    ) == ms * NANOS_PER_MILLI by {
        vstd::arithmetic::div_mod::lemma_small_mod(ms as nat, ceiling + 1);
    }
}

/// The longest wait never shrinks from one attempt to a later one.
pub proof fn law_ceiling_grows(min_wait: nat, max_wait: nat, attempt: u32, later: u32)
    requires
        attempt <= later,
    ensures
        wait_ceiling(min_wait, max_wait, attempt) <= wait_ceiling(min_wait, max_wait, later),
{
    if attempt < later {
        vstd::arithmetic::power2::lemma_pow2_strictly_increases(attempt as nat, later as nat);
    }
    let min_ms = millis(min_wait);
    let a = pow2(attempt as nat);
    let b = pow2(later as nat);
    assert(min_ms * a <= min_ms * b) by (nonlinear_arith)
        requires
            a <= b,
    ;
}

/// From one attempt to the next, the longest wait doubles until it reaches its limit.
pub proof fn law_ceiling_doubles(min_wait: nat, max_wait: nat, attempt: u32)
    requires
        attempt < u32::MAX,
        millis(min_wait) > 0,
    ensures
        wait_ceiling(min_wait, max_wait, (attempt + 1) as u32) == {
            let doubled = 2 * wait_ceiling(min_wait, max_wait, attempt);
            if doubled <= millis(max_wait) {
                doubled
            } else {
                millis(max_wait)
            }
        },
{
    let min_ms = millis(min_wait);
    let a = pow2(attempt as nat);
    vstd::arithmetic::power2::lemma_pow2_pos(attempt as nat);
    vstd::arithmetic::power2::lemma_pow2_unfold((attempt + 1) as nat);
    assert(min_ms * (2 * a) == 2 * (min_ms * a)) by (nonlinear_arith);
    assert(min_ms * a > 0) by (nonlinear_arith)
        requires
            min_ms > 0,
            a > 0,
    ;
}

/// The whole milliseconds of a span are those that fit into it, as long as 64 bits hold their number.
pub proof fn law_whole_milliseconds(nanos: nat)
    ensures
        nanos < 0x1_0000_0000_0000_0000 * 1_000_000 ==> millis(nanos) * 1_000_000 <= nanos < (millis(
            nanos,
        ) + 1) * 1_000_000,
        millis(nanos + 0x1_0000_0000_0000_0000 * 1_000_000) == millis(nanos),
{
    assert((nanos + 0x1_0000_0000_0000_0000 * 1_000_000) / 1_000_000 == nanos / 1_000_000
        + 0x1_0000_0000_0000_0000);
}

/// After the first attempt, the longest wait is the shortest one that was configured, within the limit;
/// where that is no whole millisecond, it is one millisecond, within the limit, after every attempt.
pub proof fn law_ceiling_starts_at_min_wait(min_wait: nat, max_wait: nat, attempt: u32)
    ensures
        0 < millis(min_wait) <= millis(max_wait) ==> wait_ceiling(min_wait, max_wait, 0) == millis(
            min_wait,
        ),
        millis(min_wait) > millis(max_wait) ==> wait_ceiling(min_wait, max_wait, attempt) == millis(
            max_wait,
        ),
        millis(min_wait) == 0 && millis(max_wait) > 0 ==> wait_ceiling(min_wait, max_wait, attempt)
            == 1,
        millis(max_wait) == 0 ==> wait_ceiling(min_wait, max_wait, attempt) == 0,
{
    vstd::arithmetic::power2::lemma2_to64();
    vstd::arithmetic::power2::lemma_pow2_pos(attempt as nat);
    let min_ms = millis(min_wait);
    let a = pow2(attempt as nat);
    assert(min_ms * a >= min_ms) by (nonlinear_arith)
        requires
            a >= 1,
            min_ms >= 0,
    ;
    assert(min_ms == 0 ==> min_ms * a == 0) by (nonlinear_arith);
}

/// The longest wait after an attempt is, in milliseconds, the least of the limit and of the shortest
/// wait doubled once for each retry before.
pub proof fn law_ceiling_is_exponential(min_wait: nat, max_wait: nat, attempt: u32)
    requires
        millis(min_wait) > 0,
    ensures
        wait_ceiling(min_wait, max_wait, attempt) <= millis(max_wait),
        wait_ceiling(min_wait, max_wait, attempt) <= millis(min_wait) * pow2(attempt as nat),
        wait_ceiling(min_wait, max_wait, attempt) == millis(max_wait) || wait_ceiling(
            min_wait,
            max_wait,
            attempt,
        ) == millis(min_wait) * pow2(attempt as nat),
{
    vstd::arithmetic::power2::lemma_pow2_pos(attempt as nat);
    let min_ms = millis(min_wait);
    let a = pow2(attempt as nat);
    assert(min_ms * a > 0) by (nonlinear_arith)
        requires
            min_ms > 0,
            a > 0,
    ;
}

/// Which wait a random number picks, and so how likely each is: a number up to the longest wait picks
/// itself, and numbers that lie as far apart as there are waits pick the same.
pub proof fn law_random_numbers_pick_evenly(
    min_wait: Duration,
    max_wait: Duration,
    attempt: u32,
    random: u64,
    wait: Duration,
    next: u64,
    next_wait: Duration,
)
    requires
        call_ensures(jittered_wait, (min_wait, max_wait, attempt, random), wait),
        call_ensures(jittered_wait, (min_wait, max_wait, attempt, next), next_wait),
    ensures
        random <= wait_ceiling(min_wait@, max_wait@, attempt) ==> wait@ == random * 1_000_000,
        next == random + wait_ceiling(min_wait@, max_wait@, attempt) + 1 ==> next_wait@ == wait@,
        wait@ <= wait_ceiling(min_wait@, max_wait@, attempt) * 1_000_000 <= max_wait@,
{
    let choices = wait_ceiling(min_wait@, max_wait@, attempt) + 1;
    law_full_jitter(min_wait@, max_wait@, attempt);
    assert(jittered(min_wait@, max_wait@, attempt, random) == wait@);
    if next == random + choices {
        vstd::arithmetic::div_mod::lemma_mod_add_multiples_vanish(random as int, choices as int);
        assert(random as int + choices as int == choices as int + random as int);
    }
}

/// The waits before the retries of a request grow: with the same random numbers at hand, a later attempt
/// has every wait to choose from that an earlier one has.
pub proof fn law_later_waits_reach_earlier_ones(
    min_wait: nat,
    max_wait: nat,
    attempt: u32,
    later: u32,
    random: u64,
)
    requires
        attempt <= later,
    ensures
        exists|other: u64| #[trigger]
            jittered(min_wait, max_wait, later, other) == jittered(
                min_wait,
                max_wait,
                attempt,
                random,
            ),
{
    law_ceiling_grows(min_wait, max_wait, attempt, later);
    law_full_jitter(min_wait, max_wait, later);
    let choices = wait_ceiling(min_wait, max_wait, attempt) + 1;
    let ms = random as nat % choices;
    assert(ms <= random as nat) by {
        vstd::arithmetic::div_mod::lemma_mod_decreases(random as nat, choices);
    }
    assert(jittered(min_wait, max_wait, later, ms as u64) == ms * 1_000_000);
}

/// A drawn number is one that the random number generator returned.
pub(crate) proof fn law_draws_are_the_generators(random: u64)
    requires
        generator_draws(random),
    ensures
        call_ensures(random_u64, (), random),
{
}

/// The wait after an attempt is a whole number of milliseconds, never longer than the longest wait, nor
/// than the shortest one doubled once for each retry before; and a number that the random number
/// generator draws picks it: itself in milliseconds, if it is no larger than the ceiling.
pub proof fn law_backoff_is_exponential(
    min_wait: Duration,
    max_wait: Duration,
    attempt: u32,
    wait: Duration,
)
    requires
        millis(min_wait@) > 0,
        call_ensures(exponential_jitter_backoff, (min_wait, max_wait, attempt), wait),
    ensures
        wait@ <= max_wait@,
        wait@ % 1_000_000 == 0,
        wait@ <= millis(min_wait@) * pow2(attempt as nat) * 1_000_000,
        exists|random: u64|
            {
                &&& #[trigger] generator_draws(random)
                &&& random <= wait_ceiling(min_wait@, max_wait@, attempt) ==> wait@ == random
                    * 1_000_000
            },
{
    law_full_jitter(min_wait@, max_wait@, attempt);
    law_ceiling_is_exponential(min_wait@, max_wait@, attempt);
    let random = choose|random: u64|
        {
            &&& generator_draws(random)
            &&& wait@ == #[trigger] jittered(min_wait@, max_wait@, attempt, random)
        };
    assert(generator_draws(random));
}

} // verus!
