//! The pause between attempts.
//!
//! The timer primitive itself is outside this library: whoever runs the
//! engine supplies the suspension.  A [`Sleeper`] stands for it; a ghost
//! record keeps every pause requested, in order, so that a caller of the
//! engine can account for each one.

use vstd::prelude::*;

use crate::duration::Duration;

verus! {

/// Pauses the current flow of control for a requested span.
pub trait Sleeper: Sized {
    /// Every pause requested so far, in order.
    spec fn history(&self) -> Seq<Duration>;

    /// Pauses for `interval`.
    fn sleep(&mut self, interval: Duration)
        ensures
            final(self).history() == old(self).history().push(interval),
    ;
}

/// A sleeper that does not pause: it only records the requested pauses,
/// for later inspection.  Useful where the caller paces itself, and for
/// observing what the engine asked for.
pub struct RecordingSleeper {
    /// Every pause requested, in order.
    pub slept: Vec<Duration>,
}

impl RecordingSleeper {
    pub fn new() -> (r: RecordingSleeper)
        ensures
            r.slept@ == Seq::<Duration>::empty(),
    {
        RecordingSleeper { slept: Vec::new() }
    }
}

impl Sleeper for RecordingSleeper {
    open spec fn history(&self) -> Seq<Duration> {
        self.slept@
    }

    fn sleep(&mut self, interval: Duration) {
        self.slept.push(interval);
    }
}

} // verus!
