//! Points in time and spans of time, counted in nanoseconds.
use vstd::prelude::*;

verus! {

/// Nanoseconds in one second.
pub const NANOS_PER_SEC: u128 = 1_000_000_000;

/// Nanoseconds in one millisecond.
pub const NANOS_PER_MILLI: u128 = 1_000_000;

/// A span of time, in nanoseconds.
#[derive(Clone, Copy, Debug, PartialEq, Eq, Structural)]
pub struct Duration {
    pub nanos: u128,
}

/// A point on a monotonic clock, in nanoseconds since the clock's origin.
#[derive(Clone, Copy, Debug, PartialEq, Eq, Structural)]
pub struct Instant {
    pub nanos: u128,
}

impl Duration {
    /// A duration of `secs` seconds.
    pub fn from_secs(secs: u64) -> (d: Duration)
        ensures
            d.nanos == secs * NANOS_PER_SEC,
    {
        Duration { nanos: secs as u128 * NANOS_PER_SEC }
    }

    /// A duration of `millis` milliseconds.
    pub fn from_millis(millis: u64) -> (d: Duration)
        ensures
            d.nanos == millis * NANOS_PER_MILLI,
    {
        Duration { nanos: millis as u128 * NANOS_PER_MILLI }
    }

    /// A duration of `nanos` nanoseconds.
    pub fn from_nanos(nanos: u128) -> (d: Duration)
        ensures
            d.nanos == nanos,
    {
        Duration { nanos }
    }

    /// The length of this duration in nanoseconds.
    pub fn as_nanos(&self) -> (n: u128)
        ensures
            n == self.nanos,
    {
        self.nanos
    }
}

impl Instant {
    /// The instant `nanos` nanoseconds after the clock's origin.
    pub fn from_nanos(nanos: u128) -> (t: Instant)
        ensures
            t.nanos == nanos,
    {
        Instant { nanos }
    }

    /// Whether `d` can be added to this instant without leaving the clock's range.
    pub open spec fn can_add(self, d: Duration) -> bool {
        self.nanos + d.nanos <= u128::MAX
    }

    /// The instant `d` after this one.
    pub open spec fn spec_add(self, d: Duration) -> Instant {
        Instant { nanos: (self.nanos + d.nanos) as u128 }
    }

    /// The instant `d` after this one, or `None` when it lies beyond the clock's range.
    pub fn checked_add(&self, d: Duration) -> (r: Option<Instant>)
        ensures
            r == (if self.can_add(d) { Some(self.spec_add(d)) } else { None::<Instant> }),
    {
        match self.nanos.checked_add(d.nanos) {
            Some(n) => Some(Instant { nanos: n }),
            None => None,
        }
    }

    /// The instant `d` after this one.
    pub fn add(&self, d: Duration) -> (r: Instant)
        requires
            self.can_add(d),
        ensures
            r == self.spec_add(d),
    {
        Instant { nanos: self.nanos + d.nanos }
    }

    /// The time elapsed from `earlier` to this instant, or zero when `earlier` is later.
    pub fn saturating_duration_since(&self, earlier: Instant) -> (d: Duration)
        ensures
            d.nanos == (if self.nanos >= earlier.nanos { self.nanos - earlier.nanos } else { 0 }),
    {
        if self.nanos >= earlier.nanos {
            Duration { nanos: self.nanos - earlier.nanos }
        } else {
            Duration { nanos: 0 }
        }
    }
}

} // verus!
