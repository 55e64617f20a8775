//! Laws of the retry engine.
//!
//! Each proof function here states, over the engine's public contract
//! ([`engine_post`]) alone, one guarantee a caller may rely on: how many
//! invocations a run makes, which terminal kind it logs, and when.  The
//! scripted hypotheses describe the operation's behaviour — `outcomes ==
//! script.take(n)` holds, for instance, of every run against a
//! [`ScriptedOperation`], by [`lemma_scripted_replay`].
//!
//! [`ScriptedOperation`]: crate::operation::ScriptedOperation
//! [`lemma_scripted_replay`]: crate::operation::lemma_scripted_replay

use vstd::prelude::*;

use crate::classify::ErrorClassifier;
use crate::duration::Duration;
use crate::errors::BackoffErrorKind;
use crate::handler::engine_post;
use crate::handler::retried_attempt;
use crate::handler::terminal_account;
use crate::peek::RetryPeeker;
use crate::random::NoRandomization;
use crate::random::Randomizer;
use crate::strategy::BackoffStrategy;

verus! {

/// The first `k` scripted outcomes are failures, every one of them
/// classified recoverable.
pub open spec fn failing_prefix<T, E, C: ErrorClassifier<E>>(
    classifier: C,
    script: Seq<Result<T, E>>,
    k: int,
) -> bool {
    forall|i: int|
        0 <= i < k ==> (#[trigger] script[i]) is Err && classifier.spec_recoverable(
            script[i]->Err_0,
        )
}

/// The strategy plans an interval for every attempt up to `k`.
pub open spec fn always_planning<St: BackoffStrategy>(strategy: St, k: int) -> bool {
    forall|a: u32| 1 <= a <= k ==> (#[trigger] strategy.spec_interval(a)) is Some
}

/// The peeker approves every retry up to attempt `k`, whatever the error
/// and the interval.
pub open spec fn always_approving<E, P: RetryPeeker<E>>(peeker: P, k: int) -> bool {
    forall|e: E, d: Duration, a: u32|
        1 <= a <= k ==> (#[trigger] peeker.spec_peek(e, d, a)) is Some
}

/// A permanently failing, always recoverable operation is invoked exactly
/// `limit` times, sleeps `limit - 1` times, and ends in
/// `ExhaustedLimit(limit)` with the last failure handed back.
pub proof fn lemma_limit_exhaustion<T, E, C: ErrorClassifier<E>, St: BackoffStrategy, P: RetryPeeker<E>>(
    classifier: C,
    strategy: St,
    peeker: P,
    script: Seq<Result<T, E>>,
    outcomes: Seq<Result<T, E>>,
    randomized: Seq<(Duration, Duration)>,
    slept: Seq<Duration>,
    logged_retries: Seq<(u32, E)>,
    logged_terminal: Seq<(BackoffErrorKind, E)>,
    result: Result<T, E>,
)
    requires
        engine_post(
            classifier,
            strategy,
            peeker,
            outcomes,
            randomized,
            slept,
            logged_retries,
            logged_terminal,
            result,
        ),
        outcomes == script.take(outcomes.len() as int),
        outcomes.len() <= script.len(),
        script.len() >= strategy.spec_limit(),
        failing_prefix(classifier, script, script.len() as int),
        always_planning(strategy, strategy.spec_limit() - 1),
        always_approving(peeker, strategy.spec_limit() - 1),
    ensures
        outcomes.len() == strategy.spec_limit(),
        slept.len() == strategy.spec_limit() - 1,
        logged_terminal =~= seq![
            (
                BackoffErrorKind::ExhaustedLimit(strategy.spec_limit()),
                script[strategy.spec_limit() - 1]->Err_0,
            ),
        ],
        result == Result::<T, E>::Err(script[strategy.spec_limit() - 1]->Err_0),
{
    let n = outcomes.len() as int;
    assert forall|i: int| 0 <= i < n implies outcomes[i] == script[i] by {
        assert(outcomes[i] == script.subrange(0, n)[i]);
    }
    assert(script[n - 1] is Err);
}

/// An operation that fails once, recoverably, and then succeeds is
/// invoked exactly twice, sleeps once, logs one non-terminal failure and
/// no terminal one, and returns the success — whatever the limit, as long
/// as it admits a retry.
pub proof fn lemma_success_after_transient_failure<
    T,
    E,
    C: ErrorClassifier<E>,
    St: BackoffStrategy,
    P: RetryPeeker<E>,
>(
    classifier: C,
    strategy: St,
    peeker: P,
    script: Seq<Result<T, E>>,
    outcomes: Seq<Result<T, E>>,
    randomized: Seq<(Duration, Duration)>,
    slept: Seq<Duration>,
    logged_retries: Seq<(u32, E)>,
    logged_terminal: Seq<(BackoffErrorKind, E)>,
    result: Result<T, E>,
)
    requires
        engine_post(
            classifier,
            strategy,
            peeker,
            outcomes,
            randomized,
            slept,
            logged_retries,
            logged_terminal,
            result,
        ),
        outcomes == script.take(outcomes.len() as int),
        outcomes.len() <= script.len(),
        script.len() >= 2,
        script[0] is Err,
        classifier.spec_recoverable(script[0]->Err_0),
        script[1] is Ok,
        strategy.spec_limit() >= 2,
        always_planning(strategy, 1),
        always_approving(peeker, 1),
    ensures
        outcomes.len() == 2,
        slept.len() == 1,
        logged_retries =~= seq![(1u32, script[0]->Err_0)],
        logged_terminal =~= Seq::<(BackoffErrorKind, E)>::empty(),
        result == Result::<T, E>::Ok(script[1]->Ok_0),
{
    let n = outcomes.len() as int;
    assert forall|i: int| 0 <= i < n implies outcomes[i] == script[i] by {
        assert(outcomes[i] == script.subrange(0, n)[i]);
    }
    if n == 1 {
        assert(outcomes.last() == outcomes[0]);
        assert(outcomes.last() is Err);
        assert(terminal_account(
            classifier,
            strategy,
            peeker,
            outcomes.last()->Err_0,
            n as u32,
            randomized,
            logged_terminal[0].0,
        ));
        assert(false);
    }
    if n > 2 {
        assert(retried_attempt(
            classifier,
            strategy,
            peeker,
            outcomes[1],
            2u32,
            randomized[1],
            slept[1],
            logged_retries[1],
        ));
        assert(false);
    }
    assert(logged_retries =~= seq![(1u32, script[0]->Err_0)]);
    assert(logged_terminal =~= Seq::<(BackoffErrorKind, E)>::empty());
}

/// If recoverability is denied on attempt `k`, before the limit, the loop
/// stops at exactly `k` invocations with `Unrecoverable(k)` — it never
/// reaches the limit.
pub proof fn lemma_unrecoverable_stops_early<
    T,
    E,
    C: ErrorClassifier<E>,
    St: BackoffStrategy,
    P: RetryPeeker<E>,
>(
    classifier: C,
    strategy: St,
    peeker: P,
    script: Seq<Result<T, E>>,
    outcomes: Seq<Result<T, E>>,
    randomized: Seq<(Duration, Duration)>,
    slept: Seq<Duration>,
    logged_retries: Seq<(u32, E)>,
    logged_terminal: Seq<(BackoffErrorKind, E)>,
    result: Result<T, E>,
    k: int,
)
    requires
        engine_post(
            classifier,
            strategy,
            peeker,
            outcomes,
            randomized,
            slept,
            logged_retries,
            logged_terminal,
            result,
        ),
        outcomes == script.take(outcomes.len() as int),
        outcomes.len() <= script.len(),
        1 <= k < strategy.spec_limit(),
        script.len() >= k,
        failing_prefix(classifier, script, k - 1),
        script[k - 1] is Err,
        !classifier.spec_recoverable(script[k - 1]->Err_0),
        always_planning(strategy, k - 1),
        always_approving(peeker, k - 1),
    ensures
        outcomes.len() == k,
        logged_terminal =~= seq![(BackoffErrorKind::Unrecoverable(k as u32), script[k - 1]->Err_0)],
        result == Result::<T, E>::Err(script[k - 1]->Err_0),
{
    let n = outcomes.len() as int;
    assert forall|i: int| 0 <= i < n implies outcomes[i] == script[i] by {
        assert(outcomes[i] == script.subrange(0, n)[i]);
    }
    if n < k {
        assert(outcomes.last() == outcomes[n - 1]);
        assert(outcomes.last() is Err);
        assert(terminal_account(
            classifier,
            strategy,
            peeker,
            outcomes.last()->Err_0,
            n as u32,
            randomized,
            logged_terminal[0].0,
        ));
        assert(false);
    }
    if n > k {
        assert(retried_attempt(
            classifier,
            strategy,
            peeker,
            outcomes[k - 1],
            k as u32,
            randomized[k - 1],
            slept[k - 1],
            logged_retries[k - 1],
        ));
        assert(false);
    }
    assert(logged_terminal =~= seq![
        (BackoffErrorKind::Unrecoverable(k as u32), script[k - 1]->Err_0),
    ]);
}

/// If recoverability is denied on the very last, `limit`-th invocation,
/// the run ends in `UnrecoverableAndExhaustedLimit(limit)`, not in plain
/// `Unrecoverable`.
pub proof fn lemma_unrecoverable_at_limit<
    T,
    E,
    C: ErrorClassifier<E>,
    St: BackoffStrategy,
    P: RetryPeeker<E>,
>(
    classifier: C,
    strategy: St,
    peeker: P,
    script: Seq<Result<T, E>>,
    outcomes: Seq<Result<T, E>>,
    randomized: Seq<(Duration, Duration)>,
    slept: Seq<Duration>,
    logged_retries: Seq<(u32, E)>,
    logged_terminal: Seq<(BackoffErrorKind, E)>,
    result: Result<T, E>,
)
    requires
        engine_post(
            classifier,
            strategy,
            peeker,
            outcomes,
            randomized,
            slept,
            logged_retries,
            logged_terminal,
            result,
        ),
        outcomes == script.take(outcomes.len() as int),
        outcomes.len() <= script.len(),
        script.len() >= strategy.spec_limit(),
        failing_prefix(classifier, script, strategy.spec_limit() - 1),
        script[strategy.spec_limit() - 1] is Err,
        !classifier.spec_recoverable(script[strategy.spec_limit() - 1]->Err_0),
        always_planning(strategy, strategy.spec_limit() - 1),
        always_approving(peeker, strategy.spec_limit() - 1),
    ensures
        outcomes.len() == strategy.spec_limit(),
        logged_terminal =~= seq![
            (
                BackoffErrorKind::UnrecoverableAndExhaustedLimit(strategy.spec_limit()),
                script[strategy.spec_limit() - 1]->Err_0,
            ),
        ],
        result == Result::<T, E>::Err(script[strategy.spec_limit() - 1]->Err_0),
{
    let n = outcomes.len() as int;
    assert forall|i: int| 0 <= i < n implies outcomes[i] == script[i] by {
        assert(outcomes[i] == script.subrange(0, n)[i]);
    }
    let limit = strategy.spec_limit() as int;
    if n < limit {
        assert(outcomes.last() == outcomes[n - 1]);
        assert(outcomes.last() is Err);
        assert(terminal_account(
            classifier,
            strategy,
            peeker,
            outcomes.last()->Err_0,
            n as u32,
            randomized,
            logged_terminal[0].0,
        ));
        assert(false);
    }
    assert(logged_terminal =~= seq![
        (
            BackoffErrorKind::UnrecoverableAndExhaustedLimit(strategy.spec_limit()),
            script[strategy.spec_limit() - 1]->Err_0,
        ),
    ]);
}

/// If the peeker aborts on attempt `k`, exactly `k` invocations occur,
/// the run ends in `PeekTerminated(k)`, and no sleep happens for attempt
/// `k`: exactly `k - 1` pauses were requested.
pub proof fn lemma_peek_termination<
    T,
    E,
    C: ErrorClassifier<E>,
    St: BackoffStrategy,
    P: RetryPeeker<E>,
>(
    classifier: C,
    strategy: St,
    peeker: P,
    script: Seq<Result<T, E>>,
    outcomes: Seq<Result<T, E>>,
    randomized: Seq<(Duration, Duration)>,
    slept: Seq<Duration>,
    logged_retries: Seq<(u32, E)>,
    logged_terminal: Seq<(BackoffErrorKind, E)>,
    result: Result<T, E>,
    k: int,
)
    requires
        engine_post(
            classifier,
            strategy,
            peeker,
            outcomes,
            randomized,
            slept,
            logged_retries,
            logged_terminal,
            result,
        ),
        outcomes == script.take(outcomes.len() as int),
        outcomes.len() <= script.len(),
        1 <= k < strategy.spec_limit(),
        script.len() >= k,
        failing_prefix(classifier, script, k),
        always_planning(strategy, k),
        always_approving(peeker, k - 1),
        forall|d: Duration| (#[trigger] peeker.spec_peek(script[k - 1]->Err_0, d, k as u32))
            is None,
    ensures
        outcomes.len() == k,
        slept.len() == k - 1,
        logged_terminal =~= seq![
            (BackoffErrorKind::PeekTerminated(k as u32), script[k - 1]->Err_0),
        ],
        result == Result::<T, E>::Err(script[k - 1]->Err_0),
{
    let n = outcomes.len() as int;
    assert forall|i: int| 0 <= i < n implies outcomes[i] == script[i] by {
        assert(outcomes[i] == script.subrange(0, n)[i]);
    }
    if n < k {
        assert(outcomes.last() == outcomes[n - 1]);
        assert(outcomes.last() is Err);
        assert(terminal_account(
            classifier,
            strategy,
            peeker,
            outcomes.last()->Err_0,
            n as u32,
            randomized,
            logged_terminal[0].0,
        ));
        assert(false);
    }
    if n > k {
        assert(retried_attempt(
            classifier,
            strategy,
            peeker,
            outcomes[k - 1],
            k as u32,
            randomized[k - 1],
            slept[k - 1],
            logged_retries[k - 1],
        ));
        assert(false);
    }
    assert(outcomes.last() == outcomes[n - 1]);
    assert(terminal_account(
        classifier,
        strategy,
        peeker,
        outcomes.last()->Err_0,
        n as u32,
        randomized,
        logged_terminal[0].0,
    ));
    assert(logged_terminal =~= seq![
        (BackoffErrorKind::PeekTerminated(k as u32), script[k - 1]->Err_0),
    ]);
}

/// If the strategy plans no interval for attempt `k`, exactly `k`
/// invocations occur, the run ends in `IntervalTerminated(k)`, and
/// neither the randomizer nor the peeker is consulted for that attempt:
/// both were consulted exactly `k - 1` times.
pub proof fn lemma_interval_termination<
    T,
    E,
    C: ErrorClassifier<E>,
    St: BackoffStrategy,
    P: RetryPeeker<E>,
>(
    classifier: C,
    strategy: St,
    peeker: P,
    script: Seq<Result<T, E>>,
    outcomes: Seq<Result<T, E>>,
    randomized: Seq<(Duration, Duration)>,
    slept: Seq<Duration>,
    logged_retries: Seq<(u32, E)>,
    logged_terminal: Seq<(BackoffErrorKind, E)>,
    result: Result<T, E>,
    k: int,
)
    requires
        engine_post(
            classifier,
            strategy,
            peeker,
            outcomes,
            randomized,
            slept,
            logged_retries,
            logged_terminal,
            result,
        ),
        outcomes == script.take(outcomes.len() as int),
        outcomes.len() <= script.len(),
        1 <= k < strategy.spec_limit(),
        script.len() >= k,
        failing_prefix(classifier, script, k),
        always_planning(strategy, k - 1),
        strategy.spec_interval(k as u32) is None,
        always_approving(peeker, k - 1),
    ensures
        outcomes.len() == k,
        slept.len() == k - 1,
        randomized.len() == k - 1,
        logged_terminal =~= seq![
            (BackoffErrorKind::IntervalTerminated(k as u32), script[k - 1]->Err_0),
        ],
        result == Result::<T, E>::Err(script[k - 1]->Err_0),
{
    let n = outcomes.len() as int;
    assert forall|i: int| 0 <= i < n implies outcomes[i] == script[i] by {
        assert(outcomes[i] == script.subrange(0, n)[i]);
    }
    if n < k {
        assert(outcomes.last() == outcomes[n - 1]);
        assert(outcomes.last() is Err);
        assert(terminal_account(
            classifier,
            strategy,
            peeker,
            outcomes.last()->Err_0,
            n as u32,
            randomized,
            logged_terminal[0].0,
        ));
        assert(false);
    }
    if n > k {
        assert(retried_attempt(
            classifier,
            strategy,
            peeker,
            outcomes[k - 1],
            k as u32,
            randomized[k - 1],
            slept[k - 1],
            logged_retries[k - 1],
        ));
        assert(false);
    }
    assert(outcomes.last() == outcomes[n - 1]);
    assert(terminal_account(
        classifier,
        strategy,
        peeker,
        outcomes.last()->Err_0,
        n as u32,
        randomized,
        logged_terminal[0].0,
    ));
    assert(logged_terminal =~= seq![
        (BackoffErrorKind::IntervalTerminated(k as u32), script[k - 1]->Err_0),
    ]);
}

/// The no-op randomizer is the identity: whatever it may return for an
/// interval is that interval itself.
pub proof fn lemma_no_randomization_identity(interval: Duration, produced: Duration)
    requires
        <NoRandomization as Randomizer>::spec_randomize(interval, produced),
    ensures
        produced == interval,
{
}

/// A failing run logs exactly one terminal error — wrapping the very
/// error handed back to the caller — and a succeeding run none;
/// non-terminal failures are logged once per retried attempt, one fewer
/// than the invocations made.
pub proof fn lemma_terminal_logged_exactly_once<
    T,
    E,
    C: ErrorClassifier<E>,
    St: BackoffStrategy,
    P: RetryPeeker<E>,
>(
    classifier: C,
    strategy: St,
    peeker: P,
    outcomes: Seq<Result<T, E>>,
    randomized: Seq<(Duration, Duration)>,
    slept: Seq<Duration>,
    logged_retries: Seq<(u32, E)>,
    logged_terminal: Seq<(BackoffErrorKind, E)>,
    result: Result<T, E>,
)
    requires
        engine_post(
            classifier,
            strategy,
            peeker,
            outcomes,
            randomized,
            slept,
            logged_retries,
            logged_terminal,
            result,
        ),
    ensures
        result is Err <==> logged_terminal.len() == 1,
        result is Ok <==> logged_terminal.len() == 0,
        result is Err ==> logged_terminal[0].1 == result->Err_0,
        logged_retries.len() == outcomes.len() - 1,
{
}

/// Every kind a run logs carries the positive count of invocations made:
/// never zero.
pub proof fn lemma_logged_attempt_positive<
    T,
    E,
    C: ErrorClassifier<E>,
    St: BackoffStrategy,
    P: RetryPeeker<E>,
>(
    classifier: C,
    strategy: St,
    peeker: P,
    outcomes: Seq<Result<T, E>>,
    randomized: Seq<(Duration, Duration)>,
    slept: Seq<Duration>,
    logged_retries: Seq<(u32, E)>,
    logged_terminal: Seq<(BackoffErrorKind, E)>,
    result: Result<T, E>,
)
    requires
        engine_post(
            classifier,
            strategy,
            peeker,
            outcomes,
            randomized,
            slept,
            logged_retries,
            logged_terminal,
            result,
        ),
    ensures
        forall|i: int| 0 <= i < logged_terminal.len() ==> (#[trigger] logged_terminal[i]).0.spec_attempt() >= 1,
{
}

} // verus!
