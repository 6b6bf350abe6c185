//! Spans of time, counted in whole nanoseconds.

use vstd::prelude::*;

verus! {

/// Nanoseconds in one millisecond.
pub const NANOS_PER_MILLI: u128 = 1_000_000;

/// Nanoseconds in one second.
pub const NANOS_PER_SEC: u128 = 1_000_000_000;

/// A span of time. Two spans are equal when they last equally long.
#[derive(Debug, Clone, Copy, PartialEq, Eq, PartialOrd, Ord, Hash, Structural)]
pub struct Duration {
    nanos: u128,
}

impl View for Duration {
    type V = nat;

    /// The span in nanoseconds.
    closed spec fn view(&self) -> nat {
        self.nanos as nat
    }
}

impl Duration {
    /// The span of so many whole milliseconds.
    pub closed spec fn of_millis(ms: nat) -> Duration {
        Duration { nanos: (ms * 1_000_000) as u128 }
    }

    /// The whole milliseconds in the span.
    pub open spec fn millis(self) -> nat {
        self@ / 1_000_000
    }

    /// A span of `ms` milliseconds.
    pub fn from_millis(ms: u64) -> (d: Duration)
        ensures
            d@ == ms * 1_000_000,
            d == Duration::of_millis(ms as nat),
    {
        Duration { nanos: ms as u128 * NANOS_PER_MILLI }
    }

    /// A span of `ms` milliseconds, for counts beyond 64 bits.
    pub fn from_millis_wide(ms: u128) -> (d: Duration)
        requires
            ms * 1_000_000 <= u128::MAX,
        ensures
            d@ == ms * 1_000_000,
            d == Duration::of_millis(ms as nat),
    {
        Duration { nanos: ms * NANOS_PER_MILLI }
    }

    /// A span of `nanos` nanoseconds.
    pub fn from_nanos(nanos: u128) -> (d: Duration)
        ensures
            d@ == nanos,
    {
        Duration { nanos }
    }

    /// A span of `secs` seconds.
    pub fn from_secs(secs: u64) -> (d: Duration)
        ensures
            d@ == secs * 1_000_000_000,
            d == Duration::of_millis(secs as nat * 1000),
    {
        Duration { nanos: secs as u128 * NANOS_PER_SEC }
    }

    /// The number of whole milliseconds in the span.
    pub fn as_millis(&self) -> (ms: u128)
        ensures
            ms == self.millis(),
    {
        self.nanos / NANOS_PER_MILLI
    }

    /// The number of nanoseconds in the span.
    pub fn as_nanos(&self) -> (ns: u128)
        ensures
            ns == self@,
    {
        self.nanos
    }

    /// The two spans one after the other.
    pub fn plus(&self, other: &Duration) -> (sum: Duration)
        requires
            self@ + other@ <= u128::MAX,
        ensures
            sum@ == self@ + other@,
    {
        Duration { nanos: self.nanos + other.nanos }
    }

    /// The two spans one after the other, if the sum can be counted.
    pub fn checked_add(&self, other: &Duration) -> (sum: Option<Duration>)
        ensures
            match sum {
                Some(d) => d@ == self@ + other@,
                None => self@ + other@ > u128::MAX,
            },
    {
        if self.nanos > u128::MAX - other.nanos {
            None
        } else {
            Some(Duration { nanos: self.nanos + other.nanos })
        }
    }

    /// What is left of the span after `other`, nothing if `other` is longer.
    pub fn saturating_sub(&self, other: &Duration) -> (rest: Duration)
        ensures
            rest@ == if self@ >= other@ {
                self@ - other@
            } else {
                0
            },
    {
        if self.nanos >= other.nanos {
            Duration { nanos: self.nanos - other.nanos }
        } else {
            Duration { nanos: 0 }
        }
    }

    /// Whether the span is no shorter than `other`.
    pub fn at_least(&self, other: &Duration) -> (r: bool)
        ensures
            r == (self@ >= other@),
    {
        self.nanos >= other.nanos
    }
}

/// A span has fewer milliseconds than a tenth of what 128 bits can count.
pub proof fn lemma_millis_bound(d: Duration)
    ensures
        d.millis() <= u128::MAX / 1_000_000,
{
}

/// Spans are equal exactly when they last equally long, and a span of whole
/// milliseconds lasts that many milliseconds.
pub proof fn lemma_duration_value(a: Duration, b: Duration, ms: nat)
    ensures
        (a == b) <==> (a@ == b@),
        ms * 1_000_000 <= u128::MAX ==> Duration::of_millis(ms)@ == ms * 1_000_000
            && Duration::of_millis(ms).millis() == ms,
{
}

} // verus!
