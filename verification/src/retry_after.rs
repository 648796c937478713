//! The `Retry-After` header: how long a server asks its clients to stay away.
use vstd::prelude::*;

use crate::duration::{max_nanos, Duration, NANOS_PER_SEC};
use crate::outcome::ResponseHead;
use crate::outside::{
    first_retry_after, header_contents, header_text, http_date_seconds, parse_http_date,
    system_now, text_of,
};

verus! {

/// The byte of a plus sign.
const PLUS: u8 = 43;

/// The byte of the digit 0.
const ZERO: u8 = 48;

/// The byte of the digit 9.
const NINE: u8 = 57;

/// A decimal digit.
pub open spec fn is_digit(c: char) -> bool {
    '0' <= c <= '9'
}

/// The number that a row of decimal digits stands for.
pub open spec fn decimal(digits: Seq<char>) -> nat
    decreases digits.len(),
{
    if digits.len() == 0 {
        0
    } else {
        decimal(digits.drop_last()) * 10 + (digits.last() as nat - '0' as nat) as nat
    }
}

/// The digits of a delay: the text without a leading plus sign.
pub open spec fn delay_digits(value: Seq<char>) -> Seq<char> {
    if value.len() > 0 && value[0] == '+' {
        value.skip(1)
    } else {
        value
    }
}

/// The delay-seconds form: an optional plus sign and then digits only, at least one, for a number
/// that fits 64 bits.
pub open spec fn delay_seconds(value: Seq<char>) -> Option<u64> {
    let digits = delay_digits(value);
    if digits.len() > 0 && (forall|i: int| 0 <= i < digits.len() ==> is_digit(#[trigger] digits[i]))
        && decimal(digits) <= u64::MAX {
        Some(decimal(digits) as u64)
    } else {
        None
    }
}

/// More digits never make a smaller number.
proof fn lemma_decimal_prefix(digits: Seq<char>, n: int)
    requires
        0 <= n <= digits.len(),
        forall|i: int| 0 <= i < digits.len() ==> is_digit(#[trigger] digits[i]),
    ensures
        decimal(digits.take(n)) <= decimal(digits),
    decreases digits.len(),
{
    if n == digits.len() {
        assert(digits.take(n) =~= digits);
    } else {
        let shorter = digits.drop_last();
        lemma_decimal_prefix(shorter, n);
        assert(shorter.take(n) =~= digits.take(n));
    }
}

/// Reads the delay-seconds form of a `Retry-After` value.
pub fn parse_delay_seconds(value: &str) -> (seconds: Option<u64>)
    ensures
        seconds == delay_seconds(value@),
{
    let ghost digits = delay_digits(value@);
    if !value.is_ascii() {
        proof {
            let i = choose|i: int|
                0 <= i < value@.len() && !('\0' <= #[trigger] value@[i] <= '\u{7f}');
            let at: int = if value@[0] == '+' {
                i - 1
            } else {
                i
            };
            assert(!is_digit(digits[at]));
        }
        return None;
    }
    proof {
        vstd::string::is_ascii_spec_bytes(value);
    }
    let bytes: &[u8] = value.as_bytes();
    let start: usize = if bytes.len() > 0 && bytes[0] == PLUS {
        1
    } else {
        0
    };
    if start == bytes.len() {
        return None;
    }
    let mut total: u64 = 0;
    let mut i: usize = start;
    while i < bytes.len()
        invariant
            start <= i <= bytes@.len(),
            start <= 1,
            bytes@.len() == value@.len(),
            digits == delay_digits(value@),
            digits.len() == bytes@.len() - start,
            digits.len() > 0,
            forall|k: int| 0 <= k < bytes@.len() ==> bytes@[k] == (#[trigger] value@[k]) as u8,
            forall|k: int| 0 <= k < value@.len() ==> '\0' <= #[trigger] value@[k] <= '\u{7f}',
            forall|k: int| 0 <= k < digits.len() ==> #[trigger] digits[k] == value@[k + start],
            forall|k: int| 0 <= k < i - start ==> is_digit(#[trigger] digits[k]),
            total == decimal(digits.take(i - start)),
        decreases bytes@.len() - i,
    {
        let b: u8 = bytes[i];
        assert(digits[i - start] == value@[i as int]);
        if b < ZERO || b > NINE {
            assert(!is_digit(digits[i - start]));
            return None;
        }
        assert(digits.take(i - start + 1).drop_last() =~= digits.take(i - start));
        let next: u128 = total as u128 * 10 + (b - ZERO) as u128;
        assert(next == decimal(digits.take(i - start + 1)));
        if next > u64::MAX as u128 {
            proof {
                if forall|k: int| 0 <= k < digits.len() ==> is_digit(#[trigger] digits[k]) {
                    lemma_decimal_prefix(digits, i - start + 1);
                }
            }
            return None;
        }
        total = next as u64;
        i = i + 1;
    }
    assert(digits.take(i - start) =~= digits);
    Some(total)
}

/// A moment, told by its distance from the Unix epoch.
///
/// Its view is the signed number of nanoseconds since the epoch.
#[derive(Clone, Copy, Debug, PartialEq, Eq)]
pub enum Timestamp {
    /// This long after the epoch.
    SinceEpoch(Duration),
    /// This long before the epoch.
    BeforeEpoch(Duration),
}

impl View for Timestamp {
    type V = int;

    open spec fn view(&self) -> int {
        match self {
            Timestamp::SinceEpoch(span) => span@ as int,
            Timestamp::BeforeEpoch(span) => -(span@ as int),
        }
    }
}

/// The moment that a reading of the system clock tells, in nanoseconds since the epoch: the reading is
/// of seconds and nanoseconds, since the epoch in `Ok` and before it in `Err`.
pub open spec fn moment_of(reading: Result<(u64, u32), (u64, u32)>) -> int {
    match reading {
        Ok((secs, nanos)) => secs * NANOS_PER_SEC + nanos,
        Err((secs, nanos)) => -(secs * NANOS_PER_SEC + nanos),
    }
}

/// Whether a moment is one that the system clock may tell when it is asked.
pub closed spec fn clock_tells(moment: int) -> bool {
    exists|reading: Result<(u64, u32), (u64, u32)>|
        {
            &&& #[trigger] call_ensures(system_now, (), reading)
            &&& moment == moment_of(reading)
        }
}

impl Timestamp {
    /// The current moment, as the system clock tells it.
    fn now() -> (now: Timestamp)
        ensures
            clock_tells(now@),
    {
        match system_now() {
            Ok((secs, nanos)) => Timestamp::SinceEpoch(Duration::new(secs, nanos)),
            Err((secs, nanos)) => Timestamp::BeforeEpoch(Duration::new(secs, nanos)),
        }
    }
}

/// The nanoseconds from the moment `now` until `date` seconds after the epoch: none once the date
/// has passed, and no more than a [`Duration`] holds.
pub open spec fn span_until(date: u64, now: int) -> nat {
    let span: int = date * NANOS_PER_SEC - now;
    if span <= 0 {
        0
    } else if span > max_nanos() {
        max_nanos()
    } else {
        span as nat
    }
}

/// How long it is from `now` until `date` seconds after the epoch. A date in the past is no time
/// away.
pub fn delay_until(date: u64, now: Timestamp) -> (delay: Duration)
    ensures
        delay@ == span_until(date, now@),
{
    match now {
        Timestamp::SinceEpoch(span) => {
            let secs: u64 = span.as_secs();
            let nanos: u32 = span.subsec_nanos();
            if date <= secs {
                Duration::zero()
            } else if nanos == 0 {
                Duration::new(date - secs, 0)
            } else {
                Duration::new(date - secs - 1, NANOS_PER_SEC - nanos)
            }
        },
        Timestamp::BeforeEpoch(span) => {
            let secs: u64 = span.as_secs();
            let nanos: u32 = span.subsec_nanos();
            if date > u64::MAX - secs {
                Duration::new(u64::MAX, NANOS_PER_SEC - 1)
            } else {
                Duration::new(date + secs, nanos)
            }
        },
    }
}

/// What a `Retry-After` value asks for at the moment `now`, in nanoseconds: a number of seconds, or
/// the time left until a date. `None` if the value is neither.
pub open spec fn retry_after_nanos(value: Seq<char>, now: int) -> Option<nat> {
    match delay_seconds(value) {
        Some(seconds) => Some((seconds * NANOS_PER_SEC) as nat),
        None => match http_date_seconds(value) {
            Some(date) => Some(span_until(date, now)),
            None => None,
        },
    }
}

/// The length of an optional span.
pub open spec fn optional_nanos(span: Option<Duration>) -> Option<nat> {
    match span {
        Some(d) => Some(d@),
        None => None,
    }
}

/// Reads a `Retry-After` value at the moment `now`: delay-seconds or an HTTP-date.
pub fn parse_retry_after_at(value: &str, now: Timestamp) -> (delay: Option<Duration>)
    ensures
        optional_nanos(delay) == retry_after_nanos(value@, now@),
{
    match parse_delay_seconds(value) {
        Some(seconds) => Some(Duration::from_secs(seconds)),
        None => match parse_http_date(value) {
            Some(date) => Some(delay_until(date, now)),
            None => None,
        },
    }
}

/// Reads a `Retry-After` value now: delay-seconds or an HTTP-date.
///
/// The moment is one that the system clock tells, of which no more is known; only a date depends on it.
pub fn parse_retry_after(value: &str) -> (delay: Option<Duration>)
    ensures
        exists|now: int|
            {
                &&& clock_tells(now)
                &&& optional_nanos(delay) == #[trigger] retry_after_nanos(value@, now)
            },
{
    let now = Timestamp::now();
    parse_retry_after_at(value, now)
}

/// The bytes of the `Retry-After` header in a header map, if there is one; of several, the first.
pub open spec fn retry_after_header(contents: Map<Seq<char>, Seq<Seq<u8>>>) -> Option<Seq<u8>> {
    if contents.contains_key("retry-after"@) {
        Some(contents["retry-after"@][0])
    } else {
        None
    }
}

/// The wait before a retry, in nanoseconds: what the `Retry-After` header asks for at the moment
/// `now`, but at most `cap`; without a header, or with one that cannot be read, `default`.
pub open spec fn retry_wait(header: Option<Seq<u8>>, now: int, default: nat, cap: nat) -> nat {
    match header {
        None => default,
        Some(raw) => match text_of(raw) {
            None => default,
            Some(text) => match retry_after_nanos(text, now) {
                None => default,
                Some(delay) => if delay <= cap {
                    delay
                } else {
                    cap
                },
            },
        },
    }
}

/// The wait that a `Retry-After` header with these bytes leads to at the moment `now`.
pub fn retry_after_or_backoff_at(
    header: Option<Vec<u8>>,
    now: Timestamp,
    default: Duration,
    cap: Duration,
) -> (wait: Duration)
    ensures
        wait@ == retry_wait(
            match header {
                Some(raw) => Some(raw@),
                None => None,
            },
            now@,
            default@,
            cap@,
        ),
{
    match header {
        None => default,
        Some(raw) => match header_text(raw.as_slice()) {
            None => default,
            Some(text) => match parse_retry_after_at(text.as_str(), now) {
                None => default,
                Some(delay) => delay.min(cap),
            },
        },
    }
}

/// Honors the `Retry-After` header of a response that is about to be retried.
///
/// The header replaces the wait `default`, capped at `cap` so that no server can pin the client. A
/// missing or unreadable header leaves `default`. The current moment is one that the system clock tells,
/// of which no more is known; only a date in the header depends on it.
pub fn retry_after_or_backoff(head: &ResponseHead, default: Duration, cap: Duration) -> (wait:
    Duration)
    ensures
        exists|now: int|
            {
                &&& clock_tells(now)
                &&& wait@ == #[trigger] retry_wait(
                    retry_after_header(header_contents(head.headers)),
                    now,
                    default@,
                    cap@,
                )
            },
{
    let now = Timestamp::now();
    retry_after_or_backoff_at(first_retry_after(&head.headers), now, default, cap)
}

/// Whether a header asks for a wait at all: it is there, it is text, and the text can be read.
pub open spec fn asks_for_wait(header: Option<Seq<u8>>, now: int) -> bool {
    &&& header matches Some(raw)
    &&& text_of(raw) matches Some(text)
    &&& retry_after_nanos(text, now) is Some
}

/// No server makes a client wait longer than the cap, whatever its header says; and no header makes it
/// wait longer than the longer of the cap and the backoff.
pub proof fn law_server_wait_is_capped(header: Option<Seq<u8>>, now: int, default: nat, cap: nat)
    ensures
        asks_for_wait(header, now) ==> retry_wait(header, now, default, cap) <= cap,
        retry_wait(header, now, default, cap) <= cap || retry_wait(header, now, default, cap)
            == default,
{
}

/// A header that asks for a wait replaces the backoff: the wait is the same whatever the backoff is.
pub proof fn law_header_replaces_backoff(
    header: Option<Seq<u8>>,
    now: int,
    default: nat,
    other_default: nat,
    cap: nat,
)
    requires
        asks_for_wait(header, now),
    ensures
        retry_wait(header, now, default, cap) == retry_wait(header, now, other_default, cap),
{
}

/// A header that is missing or cannot be read leaves the backoff as it is.
pub proof fn law_unreadable_header_leaves_backoff(
    header: Option<Seq<u8>>,
    now: int,
    default: nat,
    cap: nat,
)
    requires
        !asks_for_wait(header, now),
    ensures
        retry_wait(header, now, default, cap) == default,
{
}

/// Whether a header asks for a wait does not depend on the time, nor does the wait that a number of
/// seconds asks for.
pub proof fn law_seconds_ignore_the_clock(header: Seq<u8>, now: int, later: int, default: nat, cap: nat)
    ensures
        asks_for_wait(Some(header), now) == asks_for_wait(Some(header), later),
        (text_of(header) matches Some(text) && delay_seconds(text) is Some) ==> retry_wait(
            Some(header),
            now,
            default,
            cap,
        ) == retry_wait(Some(header), later, default, cap),
{
}

/// A date in the past asks for no wait, and the wait for a date never grows as time passes.
pub proof fn law_wait_for_a_date_runs_down(date: u64, now: int, later: int)
    requires
        now <= later,
    ensures
        span_until(date, later) <= span_until(date, now),
        date * NANOS_PER_SEC <= now ==> span_until(date, now) == 0,
{
}

/// How a text becomes a number of seconds, character by character. The empty text is none. A character
/// other than a digit at its end leaves none. A digit after nothing, or after a plus sign alone, is its
/// own value; after a number it makes that ten times as large and adds itself, as long as 64 bits hold
/// the outcome; after anything else there is no number.
pub proof fn law_delay_seconds_digit_by_digit(text: Seq<char>, c: char)
    ensures
        delay_seconds(Seq::<char>::empty()) is None,
        delay_seconds(text.push(c)) == if !(48 <= c as int <= 57) {
            None::<u64>
        } else if text.len() == 0 || (text.len() == 1 && text[0] == '+') {
            Some((c as int - 48) as u64)
        } else {
            match delay_seconds(text) {
                None => None,
                Some(n) => if n * 10 + (c as int - 48) < 0x1_0000_0000_0000_0000 {
                    Some((n * 10 + (c as int - 48)) as u64)
                } else {
                    None
                },
            }
        },
{
    let longer = text.push(c);
    let digits = delay_digits(text);
    let more = delay_digits(longer);
    if text.len() == 0 {
        assert(text =~= Seq::<char>::empty());
        if c != '+' {
            assert(more =~= seq![c]);
            assert(more.drop_last() =~= Seq::<char>::empty());
            reveal_with_fuel(decimal, 2);
            assert(more[0] == c);
        }
    } else {
        assert(more =~= digits.push(c));
        assert(more.drop_last() =~= digits);
        assert(more.last() == c);
        assert(more[more.len() - 1] == c);
        assert(decimal(more) == decimal(digits) * 10 + (c as nat - '0' as nat) as nat);
        if 48 <= c as int <= 57 {
            let all = forall|i: int| 0 <= i < digits.len() ==> is_digit(#[trigger] digits[i]);
            let all_more = forall|i: int| 0 <= i < more.len() ==> is_digit(#[trigger] more[i]);
            if all {
                assert forall|i: int| 0 <= i < more.len() implies is_digit(#[trigger] more[i]) by {
                    if i < digits.len() {
                        assert(more[i] == digits[i]);
                    }
                }
            }
            if all_more {
                assert forall|i: int| 0 <= i < digits.len() implies is_digit(
                    #[trigger] digits[i],
                ) by {
                    assert(more[i] == digits[i]);
                }
            }
            assert(all == all_more);
            if digits.len() == 0 {
                assert(text.len() == 1 && text[0] == '+');
                assert(decimal(digits) == 0);
            } else {
                assert(!(text.len() == 1 && text[0] == '+'));
            }
        } else {
            assert(!is_digit(more[more.len() - 1]));
        }
    }
}

/// A value that is a number of seconds asks for exactly that many, whatever the time, and for a thousand
/// million nanoseconds each.
pub proof fn law_seconds_are_seconds(value: &str, now: Timestamp, delay: Option<Duration>, n: u64)
    requires
        delay_seconds(value@) == Some(n),
        call_ensures(parse_retry_after_at, (value, now), delay),
    ensures
        delay matches Some(span) && span@ == n * 1_000_000_000,
{
}

/// A response that asks for a number of seconds is retried after that many, or after the cap if that is
/// shorter.
pub proof fn law_seconds_header_sets_the_wait(
    raw: Seq<u8>,
    text: Seq<char>,
    n: u64,
    now: int,
    default: nat,
    cap: nat,
)
    requires
        text_of(raw) == Some(text),
        delay_seconds(text) == Some(n),
    ensures
        n * 1_000_000_000 <= cap ==> retry_wait(Some(raw), now, default, cap) == n * 1_000_000_000,
        n * 1_000_000_000 > cap ==> retry_wait(Some(raw), now, default, cap) == cap,
{
}

/// A response that asks to be left alone until a date, and not for a number of seconds, is retried at
/// that date: at once if it has passed, and after the cap if that is shorter.
pub proof fn law_date_header_sets_the_wait(
    raw: Seq<u8>,
    text: Seq<char>,
    date: u64,
    now: int,
    default: nat,
    cap: nat,
)
    requires
        text_of(raw) == Some(text),
        delay_seconds(text) is None,
        http_date_seconds(text) == Some(date),
        cap < 0x1_0000_0000_0000_0000 * 1_000_000_000,
    ensures
        date * 1_000_000_000 <= now ==> retry_wait(Some(raw), now, default, cap) == 0,
        now <= date * 1_000_000_000 <= now + cap ==> now + retry_wait(Some(raw), now, default, cap)
            == date * 1_000_000_000,
        now + cap < date * 1_000_000_000 ==> retry_wait(Some(raw), now, default, cap) == cap,
{
}

/// A text that is neither a number of seconds nor a date asks for nothing, and leaves the backoff; so
/// does a header that is no text.
pub proof fn law_other_headers_leave_backoff(
    raw: Seq<u8>,
    text: Seq<char>,
    now: int,
    default: nat,
    cap: nat,
)
    ensures
        text_of(raw) == Some(text) && delay_seconds(text) is None && http_date_seconds(text) is None
            ==> retry_after_nanos(text, now) is None && retry_wait(Some(raw), now, default, cap)
            == default,
        text_of(raw) is None ==> retry_wait(Some(raw), now, default, cap) == default,
        retry_wait(None, now, default, cap) == default,
{
}

/// Waiting out the time until a date ends at that date, if the date is to come and no further off than
/// a span of time can tell.
pub proof fn law_delay_ends_at_the_date(date: u64, now: Timestamp, delay: Duration)
    requires
        call_ensures(delay_until, (date, now), delay),
    ensures
        now@ <= date * 1_000_000_000 < now@ + 0x1_0000_0000_0000_0000 * 1_000_000_000 ==> now@
            + delay@ == date * 1_000_000_000,
        date * 1_000_000_000 < now@ ==> delay@ == 0,
        now@ + 0x1_0000_0000_0000_0000 * 1_000_000_000 <= date * 1_000_000_000 ==> delay@
            == 0x1_0000_0000_0000_0000 * 1_000_000_000 - 1,
{
}

/// Moments count forwards and backwards from the epoch, to the nanosecond.
pub proof fn law_moments(span: Duration, secs: u64, nanos: u32)
    ensures
        Timestamp::SinceEpoch(span)@ == span@,
        Timestamp::BeforeEpoch(span)@ + span@ == 0,
        moment_of(Ok((secs, nanos))) == secs * 1_000_000_000 + nanos,
        moment_of(Err((secs, nanos))) + moment_of(Ok((secs, nanos))) == 0,
{
}

/// Only the first value under the name `retry-after` is read.
pub proof fn law_first_retry_after_counts(contents: Map<Seq<char>, Seq<Seq<u8>>>, key: Seq<char>)
    requires
        key == seq!['r', 'e', 't', 'r', 'y', '-', 'a', 'f', 't', 'e', 'r'],
    ensures
        contents.contains_key(key) ==> retry_after_header(contents) == Some(contents[key][0]),
        !contents.contains_key(key) ==> retry_after_header(contents) is None,
{
    reveal_strlit("retry-after");
    assert("retry-after"@ =~= key);
}

/// The moments that the clock tells are those of its readings.
pub(crate) proof fn law_clock_tells_its_readings(moment: int)
    requires
        clock_tells(moment),
    ensures
        exists|reading: Result<(u64, u32), (u64, u32)>|
            {
                &&& #[trigger] call_ensures(system_now, (), reading)
                &&& match reading {
                    Ok((secs, nanos)) => moment == secs * 1_000_000_000 + nanos,
                    Err((secs, nanos)) => moment == -(secs * 1_000_000_000 + nanos),
                }
            },
{
}

/// Read now, too, a value that is a number of seconds asks for exactly that many, a value that is neither
/// a number nor a date for nothing, and a date for the time left until it from a moment that the clock
/// tells.
pub proof fn law_values_read_now(value: &str, delay: Option<Duration>)
    requires
        call_ensures(parse_retry_after, (value,), delay),
    ensures
        delay_seconds(value@) matches Some(n) ==> delay matches Some(span) && span@ == n
            * 1_000_000_000,
        delay_seconds(value@) is None && http_date_seconds(value@) is None ==> delay is None,
        delay_seconds(value@) is None ==> (http_date_seconds(value@) matches Some(date)
            ==> delay matches Some(span) && exists|now: int|
            {
                &&& #[trigger] clock_tells(now)
                &&& date * 1_000_000_000 <= now ==> span@ == 0
                &&& now <= date * 1_000_000_000 < now + 0x1_0000_0000_0000_0000 * 1_000_000_000
                    ==> now + span@ == date * 1_000_000_000
            }),
{
    let now = choose|now: int|
        {
            &&& clock_tells(now)
            &&& optional_nanos(delay) == #[trigger] retry_after_nanos(value@, now)
        };
    assert(clock_tells(now));
}

/// The number of seconds that is read from a text is the one that its digits make, one by one.
pub proof fn law_numbers_are_read(value: &str, seconds: Option<u64>)
    requires
        call_ensures(parse_delay_seconds, (value,), seconds),
    ensures
        seconds == delay_seconds(value@),
{
}

/// The bytes of a header set the wait: a number of seconds as many seconds, a date the time left until
/// it, either no longer than the cap; a header that is missing or says neither leaves the backoff.
pub proof fn law_header_bytes_set_the_wait(
    header: Option<Vec<u8>>,
    now: Timestamp,
    default: Duration,
    cap: Duration,
    wait: Duration,
)
    requires
        call_ensures(retry_after_or_backoff_at, (header, now, default, cap), wait),
        cap@ < 0x1_0000_0000_0000_0000 * 1_000_000_000,
    ensures
        header is None ==> wait@ == default@,
        header matches Some(raw) ==> match text_of(raw@) {
            None => wait@ == default@,
            Some(text) => match delay_seconds(text) {
                Some(n) => {
                    &&& wait@ <= cap@
                    &&& wait@ <= n * 1_000_000_000
                    &&& wait@ == cap@ || wait@ == n * 1_000_000_000
                },
                None => match http_date_seconds(text) {
                    Some(date) => {
                        &&& date * 1_000_000_000 <= now@ ==> wait@ == 0
                        &&& now@ <= date * 1_000_000_000 <= now@ + cap@ ==> now@ + wait@ == date
                            * 1_000_000_000
                        &&& now@ + cap@ < date * 1_000_000_000 ==> wait@ == cap@
                    },
                    None => wait@ == default@,
                },
            },
        },
{
}

/// The `Retry-After` header of a response sets the wait: a number of seconds as many seconds, no longer
/// than the cap, and a date the time left until it from a moment that the clock tells, no longer than the
/// cap either; without a header that says one of these, the backoff stays.
pub proof fn law_responses_set_the_wait(
    head: &ResponseHead,
    default: Duration,
    cap: Duration,
    wait: Duration,
)
    requires
        call_ensures(retry_after_or_backoff, (head, default, cap), wait),
        cap@ < 0x1_0000_0000_0000_0000 * 1_000_000_000,
    ensures
        match retry_after_header(header_contents(head.headers)) {
            None => wait@ == default@,
            Some(raw) => match text_of(raw) {
                None => wait@ == default@,
                Some(text) => match delay_seconds(text) {
                    Some(n) => {
                        &&& wait@ <= cap@
                        &&& wait@ <= n * 1_000_000_000
                        &&& wait@ == cap@ || wait@ == n * 1_000_000_000
                    },
                    None => match http_date_seconds(text) {
                        Some(date) => exists|now: int|
                            {
                                &&& #[trigger] clock_tells(now)
                                &&& date * 1_000_000_000 <= now ==> wait@ == 0
                                &&& now <= date * 1_000_000_000 <= now + cap@ ==> now + wait@ == date
                                    * 1_000_000_000
                                &&& now + cap@ < date * 1_000_000_000 ==> wait@ == cap@
                            },
                        None => wait@ == default@,
                    },
                },
            },
        },
{
    let now = choose|now: int|
        {
            &&& clock_tells(now)
            &&& wait@ == #[trigger] retry_wait(
                retry_after_header(header_contents(head.headers)),
                now,
                default@,
                cap@,
            )
        };
    assert(clock_tells(now));
}

} // verus!
