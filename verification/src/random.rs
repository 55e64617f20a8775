//! The jitter hook.
//!
//! Randomization desynchronizes concurrent retriers: many requests that
//! fail together would otherwise retry together, which may exacerbate the
//! problem or even trigger overload protections.  A [`Randomizer`] perturbs
//! each planned interval once, before the interval is offered to the
//! early-termination hook.  Many random number generators are stateful, so
//! the hook is a trait on values that own that state; the engine takes
//! exclusive access to it for the duration of one call and never inspects
//! or reseeds it.

use vstd::prelude::*;

use crate::duration::Duration;

verus! {

/// Perturbs planned backoff intervals.
///
/// Implementations keep a ghost record of the perturbations made — each a
/// `(planned, produced)` pair — so that callers can account for every
/// consultation, and they describe the results they may produce with the
/// per-implementation relation [`spec_randomize`].  A result is always a
/// valid, non-negative span: the type admits nothing else.
///
/// [`spec_randomize`]: Randomizer::spec_randomize
pub trait Randomizer: Sized {
    /// The `(planned, produced)` pairs of every perturbation made so far,
    /// in order.
    spec fn history(&self) -> Seq<(Duration, Duration)>;

    /// Which results this kind of randomizer may produce for a planned
    /// interval, whatever generator state it holds.
    spec fn spec_randomize(interval: Duration, result: Duration) -> bool;

    /// Given a planned interval, applies a function to randomize it,
    /// returning the randomized interval.
    fn randomize(&mut self, interval: Duration) -> (r: Duration)
        ensures
            final(self).history() == old(self).history().push((interval, r)),
            Self::spec_randomize(interval, r),
    ;
}

/// A `Randomizer` that does nothing.
///
/// This can save cycles and memory if randomization is deemed unnecessary:
/// it hands every interval back unchanged.
pub struct NoRandomization {
    history: Ghost<Seq<(Duration, Duration)>>,
}

impl NoRandomization {
    pub fn new() -> (r: NoRandomization)
        ensures
            r.history() == Seq::<(Duration, Duration)>::empty(),
    {
        NoRandomization { history: Ghost(Seq::empty()) }
    }
}

impl Default for NoRandomization {
    fn default() -> (r: NoRandomization)
        ensures
            r.history() == Seq::<(Duration, Duration)>::empty(),
    {
        NoRandomization::new()
    }
}

impl Randomizer for NoRandomization {
    closed spec fn history(&self) -> Seq<(Duration, Duration)> {
        self.history@
    }

    /// The no-op randomizer only ever hands the interval back unchanged.
    open spec fn spec_randomize(interval: Duration, result: Duration) -> bool {
        result == interval
    }

    /// Always returns the interval it is given, doing nothing.
    fn randomize(&mut self, interval: Duration) -> (r: Duration) {
        self.history = Ghost(self.history@.push((interval, interval)));
        interval
    }
}

} // verus!
