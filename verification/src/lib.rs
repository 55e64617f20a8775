//! A retry-with-backoff engine.
//!
//! Given a fallible, repeatable operation, the engine re-invokes it under a
//! caller-supplied policy until it succeeds, is judged unrecoverable, is
//! explicitly aborted, or exhausts its retry limit.  The policies — backoff
//! interval, jitter, early termination, recoverability and observability —
//! are open traits that callers may implement themselves; ready-made
//! instances are provided for each.

pub mod classify;
pub mod duration;
pub mod errors;
pub mod handler;
pub mod laws;
pub mod logging;
pub mod operation;
pub mod peek;
pub mod random;
pub mod sleeper;
pub mod strategy;

pub use classify::ErrorClassifier;
pub use duration::Duration;
pub use errors::BackoffError;
pub use errors::BackoffErrorKind;
pub use handler::BackoffHandler;
pub use handler::RetryDecision;
pub use logging::BackoffLogger;
pub use operation::Fallible;
pub use peek::RetryPeeker;
pub use random::Randomizer;
pub use sleeper::Sleeper;
pub use strategy::BackoffStrategy;
