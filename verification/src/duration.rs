//! Spans of time, counted in whole nanoseconds.

use vstd::prelude::*;

verus! {

/// Nanoseconds in one second.
pub const NANOS_PER_SEC: u128 = 1_000_000_000;

/// Nanoseconds in one millisecond.
pub const NANOS_PER_MILLI: u128 = 1_000_000;

/// The longest span: `u64::MAX` seconds and 999,999,999 nanoseconds.
pub const MAX_NANOS: u128 = 18_446_744_073_709_551_615_999_999_999;

/// A span of time. Its view is its length in nanoseconds.
#[derive(Clone, Copy, Debug, Default, PartialEq, Eq, PartialOrd, Ord, Hash, Structural)]
pub struct Duration {
    nanos: u128,
}

impl View for Duration {
    type V = nat;

    closed spec fn view(&self) -> nat {
        self.nanos as nat
    }
}

/// The length of `millis` milliseconds, in nanoseconds.
pub open spec fn millis_span(millis: nat) -> nat {
    millis * 1_000_000
}

/// The length of `secs` seconds, in nanoseconds.
pub open spec fn secs_span(secs: nat) -> nat {
    secs * 1_000_000_000
}

/// The whole milliseconds in a span of `nanos` nanoseconds.
pub open spec fn whole_millis(nanos: nat) -> nat {
    nanos / 1_000_000
}

/// The shorter of two spans.
pub open spec fn shorter(a: nat, b: nat) -> nat {
    if a <= b {
        a
    } else {
        b
    }
}

impl Duration {
    /// A span of `secs` whole seconds and `nanos` nanoseconds.
    pub fn new(secs: u64, nanos: u32) -> (r: Duration)
        requires
            secs_span(secs as nat) + nanos <= MAX_NANOS,
        ensures
            r@ == secs_span(secs as nat) + nanos,
    {
        Duration { nanos: secs as u128 * NANOS_PER_SEC + nanos as u128 }
    }

    /// A span of `secs` whole seconds.
    pub fn from_secs(secs: u64) -> (r: Duration)
        ensures
            r@ == secs_span(secs as nat),
    {
        Duration { nanos: secs as u128 * NANOS_PER_SEC }
    }

    /// A span of `millis` whole milliseconds.
    pub fn from_millis(millis: u64) -> (r: Duration)
        ensures
            r@ == millis_span(millis as nat),
    {
        Duration { nanos: millis as u128 * NANOS_PER_MILLI }
    }

    /// The length in nanoseconds.
    pub fn as_nanos(&self) -> (r: u128)
        ensures
            r == self@,
    {
        self.nanos
    }

    /// The whole milliseconds in this span.
    pub fn as_millis(&self) -> (r: u128)
        ensures
            r == whole_millis(self@),
    {
        self.nanos / NANOS_PER_MILLI
    }

    /// Whether this span has no length.
    pub fn is_zero(&self) -> (r: bool)
        ensures
            r <==> self@ == 0,
    {
        self.nanos == 0
    }

    /// Whether this span is longer than `other`.
    pub fn is_longer_than(&self, other: &Duration) -> (r: bool)
        ensures
            r <==> self@ > other@,
    {
        self.nanos > other.nanos
    }

    /// The shorter of two spans.
    pub fn min(self, other: Duration) -> (r: Duration)
        ensures
            r@ == shorter(self@, other@),
    {
        if self.nanos <= other.nanos {
            self
        } else {
            other
        }
    }

    /// The two spans end to end, or `None` where that is longer than the longest span.
    pub fn checked_add(self, rhs: Duration) -> (r: Option<Duration>)
        ensures
            match r {
                Some(sum) => sum@ == self@ + rhs@ && self@ + rhs@ <= MAX_NANOS,
                None => self@ + rhs@ > MAX_NANOS,
            },
    {
        match self.nanos.checked_add(rhs.nanos) {
            Some(nanos) => if nanos <= MAX_NANOS {
                Some(Duration { nanos })
            } else {
                None
            },
            None => None,
        }
    }
}

} // verus!
