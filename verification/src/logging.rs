//! The observability hook.
//!
//! A [`BackoffLogger`] is notified by the engine at two well-defined
//! points: once per retried (non-terminal) failure, and exactly once on a
//! terminal failure, immediately before the engine discards the
//! [`BackoffError`] wrapper and returns the bare caller error.  It is never
//! notified when the operation ultimately succeeds.
//!
//! Implementations keep a ghost record of the notifications received, so
//! that a caller of the engine can account for every one of them:
//! [`terminal_log`] holds the kind and wrapped error of every terminal
//! error seen, and [`nonterminal_log`] the attempt number and error of
//! every retried failure.
//!
//! [`terminal_log`]: BackoffLogger::terminal_log
//! [`nonterminal_log`]: BackoffLogger::nonterminal_log

use std::io::Write;

use vstd::prelude::*;

use crate::errors::BackoffError;
use crate::errors::BackoffErrorKind;
use crate::errors::decimal_string;

verus! {

/// An observability sink for the retry engine.
pub trait BackoffLogger<E>: Sized {
    /// The kind and wrapped error of every terminal error logged so far,
    /// in order.
    spec fn terminal_log(&self) -> Seq<(BackoffErrorKind, E)>;

    /// The attempt number and error of every non-terminal failure logged
    /// so far, in order.
    spec fn nonterminal_log(&self) -> Seq<(u32, E)>;

    /// Called once per failure that will be retried, with the failing
    /// attempt's error and 1-based number.
    fn log_nonterminal(&mut self, error: &E, attempt: u32)
        ensures
            final(self).nonterminal_log() == old(self).nonterminal_log().push(
                (attempt, *error),
            ),
            final(self).terminal_log() == old(self).terminal_log(),
    ;

    /// Called exactly once per failing `handle` call, with the wrapped
    /// terminal error, before the wrapper is discarded.
    fn log_terminal(&mut self, error: &BackoffError<E>)
        ensures
            final(self).terminal_log() == old(self).terminal_log().push(
                (error.spec_kind(), error.spec_error()),
            ),
            final(self).nonterminal_log() == old(self).nonterminal_log(),
    ;
}

/// A logger that does nothing and costs nothing: it carries only the ghost
/// record of the notifications it swallowed.
pub struct NoLogging<E> {
    terminal: Ghost<Seq<(BackoffErrorKind, E)>>,
    nonterminal: Ghost<Seq<(u32, E)>>,
}

impl<E> NoLogging<E> {
    pub fn new() -> (r: NoLogging<E>)
        ensures
            r.terminal_log() == Seq::<(BackoffErrorKind, E)>::empty(),
            r.nonterminal_log() == Seq::<(u32, E)>::empty(),
    {
        NoLogging { terminal: Ghost(Seq::empty()), nonterminal: Ghost(Seq::empty()) }
    }
}

impl<E> Default for NoLogging<E> {
    fn default() -> (r: NoLogging<E>)
        ensures
            r.terminal_log() == Seq::<(BackoffErrorKind, E)>::empty(),
            r.nonterminal_log() == Seq::<(u32, E)>::empty(),
    {
        NoLogging::new()
    }
}

impl<E> BackoffLogger<E> for NoLogging<E> {
    closed spec fn terminal_log(&self) -> Seq<(BackoffErrorKind, E)> {
        self.terminal@
    }

    closed spec fn nonterminal_log(&self) -> Seq<(u32, E)> {
        self.nonterminal@
    }

    fn log_nonterminal(&mut self, error: &E, attempt: u32) {
        self.nonterminal = Ghost(self.nonterminal@.push((attempt, *error)));
    }

    fn log_terminal(&mut self, error: &BackoffError<E>) {
        self.terminal = Ghost(self.terminal@.push((error.spec_kind(), error.spec_error())));
    }
}

/// A logger that keeps what it was told, for later inspection: the kind
/// of every terminal error and the attempt number of every retried
/// failure in plain vectors, with the error values themselves kept
/// alongside in a ghost record.
pub struct RecordingLogger<E> {
    /// The kind of every terminal error logged, in order.
    pub terminal: Vec<BackoffErrorKind>,
    /// The attempt number of every non-terminal failure logged, in order.
    pub nonterminal: Vec<u32>,
    /// The wrapped error of every terminal error logged, in order.
    pub terminal_errors: Ghost<Seq<E>>,
    /// The error of every non-terminal failure logged, in order.
    pub nonterminal_errors: Ghost<Seq<E>>,
}

impl<E> RecordingLogger<E> {
    pub fn new() -> (r: RecordingLogger<E>)
        ensures
            r.terminal_log() == Seq::<(BackoffErrorKind, E)>::empty(),
            r.nonterminal_log() == Seq::<(u32, E)>::empty(),
            r.terminal@ == Seq::<BackoffErrorKind>::empty(),
            r.nonterminal@ == Seq::<u32>::empty(),
    {
        RecordingLogger {
            terminal: Vec::new(),
            nonterminal: Vec::new(),
            terminal_errors: Ghost(Seq::empty()),
            nonterminal_errors: Ghost(Seq::empty()),
        }
    }
}

impl<E> BackoffLogger<E> for RecordingLogger<E> {
    /// The recorded kinds, paired with the ghost record of the errors:
    /// stated over the inspectable vector, so what the engine promises of
    /// this log is a promise about the vector's contents.
    open spec fn terminal_log(&self) -> Seq<(BackoffErrorKind, E)> {
        Seq::new(self.terminal@.len(), |i: int| (self.terminal@[i], self.terminal_errors@[i]))
    }

    open spec fn nonterminal_log(&self) -> Seq<(u32, E)> {
        Seq::new(
            self.nonterminal@.len(),
            |i: int| (self.nonterminal@[i], self.nonterminal_errors@[i]),
        )
    }

    fn log_nonterminal(&mut self, error: &E, attempt: u32) {
        // Settle the ghost record to the vector's length before both grow
        // by one: the pairing stays intact from any starting state.
        self.nonterminal_errors = Ghost(
            Seq::new(self.nonterminal@.len(), |i: int| self.nonterminal_errors@[i]).push(*error),
        );
        self.nonterminal.push(attempt);
        proof {
            assert(self.nonterminal_log() =~= old(self).nonterminal_log().push(
                (attempt, *error),
            ));
            assert(self.terminal_log() =~= old(self).terminal_log());
        }
    }

    fn log_terminal(&mut self, error: &BackoffError<E>) {
        self.terminal_errors = Ghost(
            Seq::new(self.terminal@.len(), |i: int| self.terminal_errors@[i]).push(
                error.spec_error(),
            ),
        );
        self.terminal.push(*error.kind());
        proof {
            assert(self.terminal_log() =~= old(self).terminal_log().push(
                (error.spec_kind(), error.spec_error()),
            ));
            assert(self.nonterminal_log() =~= old(self).nonterminal_log());
        }
    }
}

/// Relies on std::io::Stderr: writes one line of text to the standard
/// error stream, ignoring write errors.
#[verifier::external_body]
fn write_stderr_line(line: &str) {
    let _ = writeln!(std::io::stderr(), "{}", line);
}

/// Relies on std::io::Stdout: writes one line of text to the standard
/// output stream, ignoring write errors.
#[verifier::external_body]
fn write_stdout_line(line: &str) {
    let _ = writeln!(std::io::stdout(), "{}", line);
}

/// A logger that prints to the standard error stream.
pub struct StdErr<E> {
    terminal: Ghost<Seq<(BackoffErrorKind, E)>>,
    nonterminal: Ghost<Seq<(u32, E)>>,
}

impl<E> StdErr<E> {
    pub fn new() -> (r: StdErr<E>)
        ensures
            r.terminal_log() == Seq::<(BackoffErrorKind, E)>::empty(),
            r.nonterminal_log() == Seq::<(u32, E)>::empty(),
    {
        StdErr { terminal: Ghost(Seq::empty()), nonterminal: Ghost(Seq::empty()) }
    }
}

impl<E> BackoffLogger<E> for StdErr<E> {
    closed spec fn terminal_log(&self) -> Seq<(BackoffErrorKind, E)> {
        self.terminal@
    }

    closed spec fn nonterminal_log(&self) -> Seq<(u32, E)> {
        self.nonterminal@
    }

    fn log_nonterminal(&mut self, error: &E, attempt: u32) {
        let mut line = decimal_string(attempt);
        line.append(" attempt(s) made; retrying.");
        write_stderr_line(line.as_str());
        self.nonterminal = Ghost(self.nonterminal@.push((attempt, *error)));
    }

    fn log_terminal(&mut self, error: &BackoffError<E>) {
        let line = error.kind().message();
        write_stderr_line(line.as_str());
        self.terminal = Ghost(self.terminal@.push((error.spec_kind(), error.spec_error())));
    }
}

/// A logger that prints to the standard output stream.
pub struct StdOut<E> {
    terminal: Ghost<Seq<(BackoffErrorKind, E)>>,
    nonterminal: Ghost<Seq<(u32, E)>>,
}

impl<E> StdOut<E> {
    pub fn new() -> (r: StdOut<E>)
        ensures
            r.terminal_log() == Seq::<(BackoffErrorKind, E)>::empty(),
            r.nonterminal_log() == Seq::<(u32, E)>::empty(),
    {
        StdOut { terminal: Ghost(Seq::empty()), nonterminal: Ghost(Seq::empty()) }
    }
}

impl<E> BackoffLogger<E> for StdOut<E> {
    closed spec fn terminal_log(&self) -> Seq<(BackoffErrorKind, E)> {
        self.terminal@
    }

    closed spec fn nonterminal_log(&self) -> Seq<(u32, E)> {
        self.nonterminal@
    }

    fn log_nonterminal(&mut self, error: &E, attempt: u32) {
        let mut line = decimal_string(attempt);
        line.append(" attempt(s) made; retrying.");
        write_stdout_line(line.as_str());
        self.nonterminal = Ghost(self.nonterminal@.push((attempt, *error)));
    }

    fn log_terminal(&mut self, error: &BackoffError<E>) {
        let line = error.kind().message();
        write_stdout_line(line.as_str());
        self.terminal = Ghost(self.terminal@.push((error.spec_kind(), error.spec_error())));
    }
}

} // verus!
