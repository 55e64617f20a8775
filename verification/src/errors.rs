//! The terminal error taxonomy.
//!
//! When the retry engine gives up it wraps the operation's last error in a
//! [`BackoffError`], tagged with the [`BackoffErrorKind`] that names the exit
//! path taken and the 1-based count of operation invocations made.  The
//! wrapper lives only for the handoff to the logger: the engine unwraps it
//! back to the caller's error immediately after logging.

use vstd::prelude::*;

verus! {

/// The closed set of reasons for which the retry engine stops retrying.
///
/// Each variant carries the 1-based count of operation invocations made by
/// the time the engine stopped; the engine never records a count of zero.
#[derive(Clone, Copy, Debug, PartialEq, Eq, Structural)]
pub enum BackoffErrorKind {
    /// The recoverability predicate rejected a failure before the limit was
    /// reached.
    Unrecoverable(u32),
    /// The `limit`-th invocation failed but was still classified recoverable.
    ExhaustedLimit(u32),
    /// The `limit`-th invocation failed and was classified unrecoverable.
    UnrecoverableAndExhaustedLimit(u32),
    /// The early-termination hook asked for retrying to stop.
    PeekTerminated(u32),
    /// The strategy returned no further interval.
    IntervalTerminated(u32),
}

/// The decimal digit `d` as a character.
pub open spec fn spec_digit_char(d: nat) -> char {
    if d == 0 {
        '0'
    } else if d == 1 {
        '1'
    } else if d == 2 {
        '2'
    } else if d == 3 {
        '3'
    } else if d == 4 {
        '4'
    } else if d == 5 {
        '5'
    } else if d == 6 {
        '6'
    } else if d == 7 {
        '7'
    } else if d == 8 {
        '8'
    } else {
        '9'
    }
}

/// The usual decimal rendering of `n`, most significant digit first, with no
/// leading zeros (except for `n == 0` itself).
pub open spec fn spec_decimal(n: nat) -> Seq<char>
    decreases n,
{
    if n < 10 {
        seq![spec_digit_char(n)]
    } else {
        spec_decimal(n / 10) + seq![spec_digit_char(n % 10)]
    }
}

/// Appends the decimal rendering of `n` to `s`.
fn append_decimal(s: &mut String, n: u32)
    ensures
        final(s)@ == old(s)@ + spec_decimal(n as nat),
    decreases n,
{
    let ghost entry = s@;
    if n >= 10 {
        append_decimal(s, n / 10);
    }
    let digit: &str = match n % 10 {
        0 => "0",
        1 => "1",
        2 => "2",
        3 => "3",
        4 => "4",
        5 => "5",
        6 => "6",
        7 => "7",
        8 => "8",
        _ => "9",
    };
    proof {
        reveal_strlit("0");
        reveal_strlit("1");
        reveal_strlit("2");
        reveal_strlit("3");
        reveal_strlit("4");
        reveal_strlit("5");
        reveal_strlit("6");
        reveal_strlit("7");
        reveal_strlit("8");
        reveal_strlit("9");
        assert(digit@ =~= seq![spec_digit_char((n % 10) as nat)]);
    }
    s.append(digit);
    proof {
        assert(s@ =~= entry + spec_decimal(n as nat));
    }
}

/// The decimal rendering of `n`, as a fresh string.
pub fn decimal_string(n: u32) -> (s: String)
    ensures
        s@ == spec_decimal(n as nat),
{
    let mut s = String::from_str("");
    proof {
        reveal_strlit("");
        assert(s@ =~= Seq::<char>::empty());
    }
    append_decimal(&mut s, n);
    proof {
        assert(s@ =~= spec_decimal(n as nat));
    }
    s
}

impl BackoffErrorKind {
    /// The 1-based invocation count carried by this kind.
    pub open spec fn spec_attempt(self) -> u32 {
        match self {
            BackoffErrorKind::Unrecoverable(i) => i,
            BackoffErrorKind::ExhaustedLimit(i) => i,
            BackoffErrorKind::UnrecoverableAndExhaustedLimit(i) => i,
            BackoffErrorKind::PeekTerminated(i) => i,
            BackoffErrorKind::IntervalTerminated(i) => i,
        }
    }

    /// The 1-based invocation count carried by this kind.
    pub fn attempt(&self) -> (r: u32)
        ensures
            r == self.spec_attempt(),
    {
        match self {
            BackoffErrorKind::Unrecoverable(i) => *i,
            BackoffErrorKind::ExhaustedLimit(i) => *i,
            BackoffErrorKind::UnrecoverableAndExhaustedLimit(i) => *i,
            BackoffErrorKind::PeekTerminated(i) => *i,
            BackoffErrorKind::IntervalTerminated(i) => *i,
        }
    }

    /// The human-readable account of this kind: it names the attempt or
    /// limit count and the terminating condition, distinctly per variant.
    pub open spec fn spec_message(self) -> Seq<char> {
        match self {
            BackoffErrorKind::Unrecoverable(i) => "After "@ + spec_decimal(i as nat)
                + " attempt(s) an unrecoverable error was encountered."@,
            BackoffErrorKind::ExhaustedLimit(i) => "Limit of "@ + spec_decimal(i as nat)
                + " was exhausted."@,
            BackoffErrorKind::UnrecoverableAndExhaustedLimit(i) =>
                "An unrecoverable error was encountered and the limit of "@ + spec_decimal(i as nat)
                + " was exhausted."@,
            BackoffErrorKind::PeekTerminated(i) => "After "@ + spec_decimal(i as nat)
                + " attempt(s), retrying was terminated by peek_retry"@,
            BackoffErrorKind::IntervalTerminated(i) => "After "@ + spec_decimal(i as nat)
                + " attempt(s), retrying was terminated by BackoffStrategy::interval()."@,
        }
    }

    /// Renders the message this kind stands for.
    pub fn message(&self) -> (r: String)
        ensures
            r@ == self.spec_message(),
    {
        match self {
            BackoffErrorKind::Unrecoverable(i) => {
                let mut s = String::from_str("After ");
                append_decimal(&mut s, *i);
                s.append(" attempt(s) an unrecoverable error was encountered.");
                proof {
                    assert(s@ =~= self.spec_message());
                }
                s
            },
            BackoffErrorKind::ExhaustedLimit(i) => {
                let mut s = String::from_str("Limit of ");
                append_decimal(&mut s, *i);
                s.append(" was exhausted.");
                proof {
                    assert(s@ =~= self.spec_message());
                }
                s
            },
            BackoffErrorKind::UnrecoverableAndExhaustedLimit(i) => {
                let mut s = String::from_str(
                    "An unrecoverable error was encountered and the limit of ",
                );
                append_decimal(&mut s, *i);
                s.append(" was exhausted.");
                proof {
                    assert(s@ =~= self.spec_message());
                }
                s
            },
            BackoffErrorKind::PeekTerminated(i) => {
                let mut s = String::from_str("After ");
                append_decimal(&mut s, *i);
                s.append(" attempt(s), retrying was terminated by peek_retry");
                proof {
                    assert(s@ =~= self.spec_message());
                }
                s
            },
            BackoffErrorKind::IntervalTerminated(i) => {
                let mut s = String::from_str("After ");
                append_decimal(&mut s, *i);
                s.append(" attempt(s), retrying was terminated by BackoffStrategy::interval().");
                proof {
                    assert(s@ =~= self.spec_message());
                }
                s
            },
        }
    }
}

/// A caller error together with the reason retrying stopped.
///
/// Constructed by the engine exactly once per failed `handle` call, shown to
/// the logger, and then immediately taken apart again.
#[derive(Debug)]
pub struct BackoffError<E> {
    error: E,
    kind: BackoffErrorKind,
}

impl<E> BackoffError<E> {
    /// The wrapped caller error.
    pub closed spec fn spec_error(self) -> E {
        self.error
    }

    /// The reason retrying stopped.
    pub closed spec fn spec_kind(self) -> BackoffErrorKind {
        self.kind
    }

    /// Wraps `error` with the reason retrying stopped.  A kind always
    /// carries the positive count of invocations actually made.
    pub fn new(error: E, kind: BackoffErrorKind) -> (r: BackoffError<E>)
        requires
            kind.spec_attempt() >= 1,
        ensures
            r.spec_error() == error,
            r.spec_kind() == kind,
    {
        BackoffError { error, kind }
    }

    /// Get a reference to the contained error value.
    pub fn error(&self) -> (r: &E)
        ensures
            *r == self.spec_error(),
    {
        &self.error
    }

    /// Get a reference to the contained kind.
    pub fn kind(&self) -> (r: &BackoffErrorKind)
        ensures
            *r == self.spec_kind(),
    {
        &self.kind
    }

    /// Take the contained error and kind from this instance.
    pub fn into_error_and_kind(self) -> (r: (E, BackoffErrorKind))
        ensures
            r.0 == self.spec_error(),
            r.1 == self.spec_kind(),
    {
        (self.error, self.kind)
    }

    /// Take the contained error from this instance.
    pub fn into_error(self) -> (r: E)
        ensures
            r == self.spec_error(),
    {
        self.error
    }

    /// Take the contained kind from this instance.
    pub fn into_kind(self) -> (r: BackoffErrorKind)
        ensures
            r == self.spec_kind(),
    {
        self.kind
    }
}

} // verus!
