//! Spans of time, to the nanosecond.
use vstd::prelude::*;

verus! {

/// Nanoseconds in one second.
pub const NANOS_PER_SEC: u32 = 1_000_000_000;

/// Nanoseconds in one millisecond.
pub const NANOS_PER_MILLI: u32 = 1_000_000;

/// A span of time: whole seconds and the nanoseconds beyond them.
///
/// Its view is the length of the span in nanoseconds.
#[derive(Clone, Copy, Debug, PartialEq, Eq, PartialOrd, Ord, Structural)]
pub struct Duration {
    secs: u64,
    nanos: u32,
}

/// The longest span that a [`Duration`] holds, in nanoseconds.
pub open spec fn max_nanos() -> nat {
    (u64::MAX * NANOS_PER_SEC + NANOS_PER_SEC - 1) as nat
}

impl View for Duration {
    type V = nat;

    closed spec fn view(&self) -> nat {
        (self.secs * NANOS_PER_SEC + self.nanos) as nat
    }
}

impl Duration {
    #[verifier::type_invariant]
    spec fn normal(self) -> bool {
        self.nanos < NANOS_PER_SEC
    }

    /// A span of `secs` seconds and `nanos` nanoseconds. Nanoseconds that make up whole seconds
    /// carry over into the seconds.
    pub fn new(secs: u64, nanos: u32) -> (span: Duration)
        requires
            secs + nanos / NANOS_PER_SEC <= u64::MAX,
        ensures
            span@ == secs * NANOS_PER_SEC + nanos,
    {
        Duration { secs: secs + (nanos / NANOS_PER_SEC) as u64, nanos: nanos % NANOS_PER_SEC }
    }

    /// The empty span.
    pub fn zero() -> (span: Duration)
        ensures
            span@ == 0,
    {
        Duration { secs: 0, nanos: 0 }
    }

    /// A span of `secs` seconds.
    pub fn from_secs(secs: u64) -> (span: Duration)
        ensures
            span@ == secs * NANOS_PER_SEC,
    {
        Duration { secs, nanos: 0 }
    }

    /// A span of `millis` milliseconds.
    pub fn from_millis(millis: u64) -> (span: Duration)
        ensures
            span@ == millis * NANOS_PER_MILLI,
    {
        Duration { secs: millis / 1000, nanos: (millis % 1000) as u32 * NANOS_PER_MILLI }
    }

    /// The whole seconds of the span.
    pub fn as_secs(&self) -> (secs: u64)
        ensures
            secs == self@ / (NANOS_PER_SEC as nat),
    {
        proof {
            use_type_invariant(self);
        }
        self.secs
    }

    /// The nanoseconds beyond the whole seconds.
    pub fn subsec_nanos(&self) -> (nanos: u32)
        ensures
            nanos == self@ % (NANOS_PER_SEC as nat),
            nanos < NANOS_PER_SEC,
    {
        proof {
            use_type_invariant(self);
        }
        self.nanos
    }

    /// The whole milliseconds of the span.
    pub fn as_millis(&self) -> (millis: u128)
        ensures
            millis == self@ / (NANOS_PER_MILLI as nat),
    {
        proof {
            use_type_invariant(self);
        }
        self.secs as u128 * 1000 + (self.nanos / NANOS_PER_MILLI) as u128
    }

    /// The shorter of two spans.
    pub fn min(self, other: Duration) -> (span: Duration)
        ensures
            span == self || span == other,
            span@ == if self@ <= other@ {
                self@
            } else {
                other@
            },
    {
        proof {
            use_type_invariant(&self);
            use_type_invariant(&other);
        }
        if self.secs < other.secs || (self.secs == other.secs && self.nanos <= other.nanos) {
            self
        } else {
            other
        }
    }
}

/// The units that contracts count in: a second is a thousand million nanoseconds, and a millisecond a
/// million. The longest span is a nanosecond short of `2^64` seconds.
pub proof fn law_units()
    ensures
        NANOS_PER_SEC == 1_000_000_000,
        NANOS_PER_MILLI == 1_000_000,
        max_nanos() == 0x1_0000_0000_0000_0000 * 1_000_000_000 - 1,
{
}

/// A span is taken apart into the seconds and nanoseconds that it is made of, and counted in whole
/// milliseconds; a span made of seconds or of milliseconds gives their number back.
pub proof fn law_spans_keep_their_length(
    span: Duration,
    secs: u64,
    nanos: u32,
    millis: u128,
    made: Duration,
    count: u64,
)
    ensures
        call_ensures(Duration::as_secs, (&span,), secs) && call_ensures(
            Duration::subsec_nanos,
            (&span,),
            nanos,
        ) ==> secs * 1_000_000_000 + nanos == span@ && nanos < 1_000_000_000,
        call_ensures(Duration::as_millis, (&span,), millis) ==> millis * 1_000_000 <= span@ < (millis
            + 1) * 1_000_000,
        call_ensures(Duration::from_secs, (count,), made) ==> made@ == count * 1_000_000_000,
        call_ensures(Duration::from_millis, (count,), made) ==> made@ == count * 1_000_000,
{
}

/// A span is as long as its seconds and its nanoseconds together, the empty span has no length, and the
/// shorter of two spans is one of them and longer than neither.
pub proof fn law_spans_are_measured(
    secs: u64,
    nanos: u32,
    made: Duration,
    one: Duration,
    other: Duration,
    shorter: Duration,
)
    ensures
        call_ensures(Duration::new, (secs, nanos), made) ==> made@ == secs * 1_000_000_000 + nanos,
        call_ensures(Duration::zero, (), made) ==> made@ == 0,
        call_ensures(Duration::min, (one, other), shorter) ==> shorter@ <= one@ && shorter@ <= other@
            && (shorter == one || shorter == other),
{
}

} // verus!
