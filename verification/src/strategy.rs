//! The backoff-interval policy.
//!
//! A [`BackoffStrategy`] is an immutable configuration that plans, per
//! 1-based attempt number, either the interval to wait before the next
//! attempt or `None` to stop retrying regardless of how the error was
//! classified.  It also fixes the overall attempt ceiling, which is always
//! at least one.  Callers may implement the trait themselves; [`Constant`],
//! [`Linear`], [`Exponential`] and [`Windowed`] are ready-made instances.

use vstd::prelude::*;

use crate::duration::Duration;

verus! {

/// Plans retry intervals and fixes the attempt ceiling.
///
/// Both methods are pure functions of the strategy's fixed configuration;
/// the per-implementation spec functions [`spec_interval`] and
/// [`spec_limit`] say what they return.
///
/// [`spec_interval`]: BackoffStrategy::spec_interval
/// [`spec_limit`]: BackoffStrategy::spec_limit
pub trait BackoffStrategy: Sized {
    /// The interval planned before the retry that follows attempt
    /// `attempt`, or `None` to stop retrying now.
    spec fn spec_interval(&self, attempt: u32) -> Option<Duration>;

    /// The maximum number of attempts; always at least one.
    spec fn spec_limit(&self) -> u32;

    /// The interval computed for the backoff that follows `attempt`.
    /// Returning `Some(_)` lets the retry loop progress once more with the
    /// contained interval; returning `None` halts it immediately, which is
    /// useful for implementing timeouts.
    fn interval(&self, attempt: u32) -> (r: Option<Duration>)
        ensures
            r == self.spec_interval(attempt),
    ;

    /// The maximum number of attempts a retry loop using this strategy
    /// will make.  Never zero: a limit of one means exactly one attempt
    /// and no retries.
    fn limit(&self) -> (r: u32)
        ensures
            r == self.spec_limit(),
            r >= 1,
    ;
}

/// Retry strategy whose backoffs do not grow with time.
pub struct Constant {
    /// The fixed amount by which the backoffs will be spaced.
    constant: Duration,
    /// The maximum number of attempts that may be made.
    limit: u32,
}

impl Constant {
    #[verifier::type_invariant]
    spec fn wf(self) -> bool {
        self.limit >= 1
    }

    /// A strategy that always plans `constant` and allows `limit` attempts.
    pub fn new(constant: Duration, limit: u32) -> (r: Constant)
        requires
            limit >= 1,
        ensures
            r.spec_limit() == limit,
            forall|a: u32| #[trigger] r.spec_interval(a) == Some(constant),
    {
        Constant { constant, limit }
    }
}

impl BackoffStrategy for Constant {
    closed spec fn spec_interval(&self, attempt: u32) -> Option<Duration> {
        Some(self.constant)
    }

    closed spec fn spec_limit(&self) -> u32 {
        self.limit
    }

    fn interval(&self, attempt: u32) -> (r: Option<Duration>) {
        Some(self.constant)
    }

    fn limit(&self) -> (r: u32) {
        proof {
            use_type_invariant(self);
        }
        self.limit
    }
}

/// Retry strategy whose backoffs grow linearly: the interval planned after
/// attempt `a` is `constant * a`, saturating at the largest span.
pub struct Linear {
    /// The constant factor of the backoff.  The first backoff interval will
    /// be this long; all successive intervals are this value multiplied by
    /// the attempt number.
    constant: Duration,
    /// The maximum number of attempts that may be made.
    limit: u32,
}

impl Linear {
    #[verifier::type_invariant]
    spec fn wf(self) -> bool {
        self.limit >= 1
    }

    /// A strategy that plans `constant * attempt` and allows `limit`
    /// attempts.
    pub fn new(constant: Duration, limit: u32) -> (r: Linear)
        requires
            limit >= 1,
        ensures
            r.spec_limit() == limit,
            forall|a: u32| #[trigger] r.spec_interval(a) == Some(constant.spec_scale(a as nat)),
    {
        Linear { constant, limit }
    }
}

impl BackoffStrategy for Linear {
    closed spec fn spec_interval(&self, attempt: u32) -> Option<Duration> {
        Some(self.constant.spec_scale(attempt as nat))
    }

    closed spec fn spec_limit(&self) -> u32 {
        self.limit
    }

    fn interval(&self, attempt: u32) -> (r: Option<Duration>) {
        Some(self.constant.saturating_scale(attempt as u64))
    }

    fn limit(&self) -> (r: u32) {
        proof {
            use_type_invariant(self);
        }
        self.limit
    }
}

/// Retry strategy whose backoffs grow with the attempt number scaled by a
/// fixed factor: the interval planned after attempt `a` is
/// `constant * (factor * a)`, saturating at the largest span.
///
/// Note the multiplier is `factor * a`, not `factor` raised to the power
/// `a`: growth is multiplicative by the attempt number, which spaces
/// retries more gently than classical exponentiation.
pub struct Exponential {
    /// The first backoff will take `constant * factor`; further backoffs
    /// scale that by the attempt number, up to `limit` attempts.
    constant: Duration,
    /// The factor by which the constant will grow.
    factor: u32,
    /// The maximum number of attempts that may be made.
    limit: u32,
}

impl Exponential {
    #[verifier::type_invariant]
    spec fn wf(self) -> bool {
        self.limit >= 1 && self.factor >= 1
    }

    /// A strategy that plans `constant * (factor * attempt)` and allows
    /// `limit` attempts.  `factor` is positive.
    pub fn new(constant: Duration, factor: u32, limit: u32) -> (r: Exponential)
        requires
            factor >= 1,
            limit >= 1,
        ensures
            r.spec_limit() == limit,
            forall|a: u32| #[trigger] r.spec_interval(a) == Some(
                constant.spec_scale((factor * a) as nat),
            ),
    {
        Exponential { constant, factor, limit }
    }
}

impl BackoffStrategy for Exponential {
    closed spec fn spec_interval(&self, attempt: u32) -> Option<Duration> {
        Some(self.constant.spec_scale((self.factor * attempt) as nat))
    }

    closed spec fn spec_limit(&self) -> u32 {
        self.limit
    }

    fn interval(&self, attempt: u32) -> (r: Option<Duration>) {
        proof {
            assert((self.factor as nat) * (attempt as nat) <= u64::MAX) by (nonlinear_arith)
                requires
                    self.factor <= u32::MAX,
                    attempt <= u32::MAX,
            ;
        }
        let scale = (self.factor as u64) * (attempt as u64);
        Some(self.constant.saturating_scale(scale))
    }

    fn limit(&self) -> (r: u32) {
        proof {
            use_type_invariant(self);
        }
        self.limit
    }
}

/// Retry strategy with constant backoffs and a hard cutoff: from attempt
/// `cutoff` on it plans no further interval, stopping the loop regardless
/// of how the error was classified and before the attempt ceiling is
/// reached.
pub struct Windowed {
    /// The fixed amount by which the backoffs will be spaced.
    constant: Duration,
    /// The first attempt for which no further interval is planned.
    cutoff: u32,
    /// The maximum number of attempts that may be made.
    limit: u32,
}

impl Windowed {
    #[verifier::type_invariant]
    spec fn wf(self) -> bool {
        self.limit >= 1
    }

    /// A strategy that plans `constant` for attempts below `cutoff` and
    /// nothing from `cutoff` on, within a ceiling of `limit` attempts.
    pub fn new(constant: Duration, cutoff: u32, limit: u32) -> (r: Windowed)
        requires
            limit >= 1,
        ensures
            r.spec_limit() == limit,
            forall|a: u32| #[trigger] r.spec_interval(a) == if a < cutoff {
                Some(constant)
            } else {
                None::<Duration>
            },
    {
        Windowed { constant, cutoff, limit }
    }
}

impl BackoffStrategy for Windowed {
    closed spec fn spec_interval(&self, attempt: u32) -> Option<Duration> {
        if attempt < self.cutoff {
            Some(self.constant)
        } else {
            None
        }
    }

    closed spec fn spec_limit(&self) -> u32 {
        self.limit
    }

    fn interval(&self, attempt: u32) -> (r: Option<Duration>) {
        if attempt < self.cutoff {
            Some(self.constant)
        } else {
            None
        }
    }

    fn limit(&self) -> (r: u32) {
        proof {
            use_type_invariant(self);
        }
        self.limit
    }
}

} // verus!
