//! The early-termination hook.
//!
//! Before sleeping, the engine shows the caller the error and the interval
//! the strategy and randomizer arrived at.  A [`RetryPeeker`] may approve
//! the retry — optionally overriding the interval, say after a hint from
//! the failing service — or abort retrying immediately, say because the
//! planned wait is longer than the caller can afford.

use vstd::prelude::*;

use crate::duration::Duration;

verus! {

/// A pure judgement on whether, and after what wait, to retry.
pub trait RetryPeeker<E> {
    /// The approved interval, or `None` to abort retrying.
    spec fn spec_peek(&self, error: E, planned: Duration, attempt: u32) -> Option<Duration>;

    /// Given the error, the planned interval and the 1-based attempt
    /// number, either approves retrying — returning the interval actually
    /// to wait — or returns `None` to abort.
    fn peek_retry(&self, error: &E, planned: Duration, attempt: u32) -> (r: Option<Duration>)
        ensures
            r == self.spec_peek(*error, planned, attempt),
    ;
}

/// A peeker that approves every retry with the planned interval unchanged.
pub struct ApprovePlanned {}

impl ApprovePlanned {
    pub fn new() -> ApprovePlanned {
        ApprovePlanned {  }
    }
}

impl<E> RetryPeeker<E> for ApprovePlanned {
    open spec fn spec_peek(&self, error: E, planned: Duration, attempt: u32) -> Option<Duration> {
        Some(planned)
    }

    fn peek_retry(&self, error: &E, planned: Duration, attempt: u32) -> (r: Option<Duration>) {
        Some(planned)
    }
}

/// A peeker that approves attempts below a fixed number, with the planned
/// interval unchanged, and aborts retrying from that attempt on.
pub struct ApproveUntil {
    /// The first 1-based attempt number at which retrying is aborted.
    pub cutoff: u32,
}

impl ApproveUntil {
    pub fn new(cutoff: u32) -> (r: ApproveUntil)
        ensures
            r.cutoff == cutoff,
    {
        ApproveUntil { cutoff }
    }
}

impl<E> RetryPeeker<E> for ApproveUntil {
    open spec fn spec_peek(&self, error: E, planned: Duration, attempt: u32) -> Option<Duration> {
        if attempt < self.cutoff {
            Some(planned)
        } else {
            None
        }
    }

    fn peek_retry(&self, error: &E, planned: Duration, attempt: u32) -> (r: Option<Duration>) {
        if attempt < self.cutoff {
            Some(planned)
        } else {
            None
        }
    }
}

/// A peeker that approves every retry but caps the wait: a planned
/// interval longer than the cap is replaced by the cap itself.
pub struct CapInterval {
    /// No approved wait exceeds this span.
    pub cap: Duration,
}

impl CapInterval {
    pub fn new(cap: Duration) -> (r: CapInterval)
        ensures
            r.cap == cap,
    {
        CapInterval { cap }
    }
}

impl<E> RetryPeeker<E> for CapInterval {
    open spec fn spec_peek(&self, error: E, planned: Duration, attempt: u32) -> Option<Duration> {
        if planned.nanos <= self.cap.nanos {
            Some(planned)
        } else {
            Some(self.cap)
        }
    }

    fn peek_retry(&self, error: &E, planned: Duration, attempt: u32) -> (r: Option<Duration>) {
        if planned.nanos <= self.cap.nanos {
            Some(planned)
        } else {
            Some(self.cap)
        }
    }
}

} // verus!
