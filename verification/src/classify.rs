//! The recoverability predicate.
//!
//! After a failed attempt the engine first asks whether the error is worth
//! retrying at all: a service owning up to transient overload may resolve
//! itself on a later call, while a request for something that does not
//! exist will not.  An [`ErrorClassifier`] makes that pure judgement.

use vstd::prelude::*;

verus! {

/// A pure classification of failures into recoverable and not.
pub trait ErrorClassifier<E> {
    /// Whether `error` is classified as possibly resolved by retrying.
    spec fn spec_recoverable(&self, error: E) -> bool;

    /// Returns true if the error is able to be recovered, false otherwise.
    fn is_recoverable(&self, error: &E) -> (r: bool)
        ensures
            r == self.spec_recoverable(*error),
    ;
}

/// A classifier that deems every failure worth retrying.
pub struct AlwaysRecoverable {}

impl AlwaysRecoverable {
    pub fn new() -> AlwaysRecoverable {
        AlwaysRecoverable {  }
    }
}

impl<E> ErrorClassifier<E> for AlwaysRecoverable {
    open spec fn spec_recoverable(&self, error: E) -> bool {
        true
    }

    fn is_recoverable(&self, error: &E) -> (r: bool) {
        true
    }
}

/// A classifier that deems no failure worth retrying.
pub struct NeverRecoverable {}

impl NeverRecoverable {
    pub fn new() -> NeverRecoverable {
        NeverRecoverable {  }
    }
}

impl<E> ErrorClassifier<E> for NeverRecoverable {
    open spec fn spec_recoverable(&self, error: E) -> bool {
        false
    }

    fn is_recoverable(&self, error: &E) -> (r: bool) {
        false
    }
}

/// A classifier for numeric error codes that deems a failure recoverable
/// exactly when its code is below a fixed threshold.
pub struct RecoverableBelow {
    /// Codes below this threshold are recoverable; the rest are not.
    pub threshold: u32,
}

impl RecoverableBelow {
    pub fn new(threshold: u32) -> (r: RecoverableBelow)
        ensures
            r.threshold == threshold,
    {
        RecoverableBelow { threshold }
    }
}

impl ErrorClassifier<u32> for RecoverableBelow {
    open spec fn spec_recoverable(&self, error: u32) -> bool {
        error < self.threshold
    }

    fn is_recoverable(&self, error: &u32) -> (r: bool) {
        *error < self.threshold
    }
}

} // verus!
