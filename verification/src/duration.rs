//! A plain model of a span of time.
//!
//! The engine's policies compute with intervals, so the library keeps its own
//! transparent duration type: a count of nanoseconds.  Arithmetic on it
//! saturates at the largest representable span rather than overflowing.

use vstd::prelude::*;

verus! {

pub const NANOS_PER_MICRO: u64 = 1_000;

pub const NANOS_PER_MILLI: u64 = 1_000_000;

pub const NANOS_PER_SEC: u64 = 1_000_000_000;

/// A non-negative span of time, counted in whole nanoseconds.
#[derive(Clone, Copy, Debug, PartialEq, Eq, Structural)]
pub struct Duration {
    pub nanos: u64,
}

impl Duration {
    /// The empty span.
    pub fn zero() -> (r: Duration)
        ensures
            r.nanos == 0,
    {
        Duration { nanos: 0 }
    }

    /// The longest representable span.
    pub fn max() -> (r: Duration)
        ensures
            r.nanos == u64::MAX,
    {
        Duration { nanos: u64::MAX }
    }

    pub fn from_nanos(nanos: u64) -> (r: Duration)
        ensures
            r.nanos == nanos,
    {
        Duration { nanos }
    }

    /// The span of `micros` microseconds, saturating at the largest span.
    pub fn from_micros(micros: u64) -> (r: Duration)
        ensures
            r == Duration::from_nanos_saturating(micros * NANOS_PER_MICRO),
    {
        Duration::from_nanos(micros).saturating_scale(NANOS_PER_MICRO)
    }

    /// The span of `millis` milliseconds, saturating at the largest span.
    pub fn from_millis(millis: u64) -> (r: Duration)
        ensures
            r == Duration::from_nanos_saturating(millis * NANOS_PER_MILLI),
    {
        Duration::from_nanos(millis).saturating_scale(NANOS_PER_MILLI)
    }

    /// The span of `secs` seconds, saturating at the largest span.
    pub fn from_secs(secs: u64) -> (r: Duration)
        ensures
            r == Duration::from_nanos_saturating(secs * NANOS_PER_SEC),
    {
        Duration::from_nanos(secs).saturating_scale(NANOS_PER_SEC)
    }

    pub fn as_nanos(self) -> (r: u64)
        ensures
            r == self.nanos,
    {
        self.nanos
    }

    /// The nanosecond span `n`, clamped to what a `u64` can hold.
    pub open spec fn from_nanos_saturating(n: int) -> Duration {
        if n > u64::MAX {
            Duration { nanos: u64::MAX }
        } else {
            Duration { nanos: n as u64 }
        }
    }

    /// `self` scaled by `k`, saturating at the largest span.
    pub open spec fn spec_scale(self, k: nat) -> Duration {
        Duration::from_nanos_saturating(self.nanos * k)
    }

    /// Scales the span by `k`, saturating at the largest span.
    pub fn saturating_scale(self, k: u64) -> (r: Duration)
        ensures
            r == self.spec_scale(k as nat),
    {
        match self.nanos.checked_mul(k) {
            Some(nanos) => Duration { nanos },
            None => Duration { nanos: u64::MAX },
        }
    }

    /// The sum of the two spans, saturating at the largest span.
    pub fn saturating_add(self, other: Duration) -> (r: Duration)
        ensures
            r == Duration::from_nanos_saturating(self.nanos + other.nanos),
    {
        match self.nanos.checked_add(other.nanos) {
            Some(nanos) => Duration { nanos },
            None => Duration { nanos: u64::MAX },
        }
    }
}

} // verus!
