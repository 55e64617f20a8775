//! The retry execution engine.
//!
//! [`BackoffHandler::handle`] owns the loop: it re-invokes the operation
//! under the caller's policies until one of five exits is taken — success,
//! an unrecoverable error, an exhausted limit, an abort by the
//! early-termination hook, or a strategy that plans no further interval.
//!
//! Everything the engine does is visible in the ghost records of its
//! collaborators: the outcomes consumed from the operation, the
//! perturbations asked of the randomizer, the pauses asked of the sleeper
//! and the notifications given to the logger.  The contract of `handle`
//! pins all of them down at once, through [`engine_post`]: exactly which
//! attempts were made, what was slept between them, which errors the
//! logger was shown, and — on failure — exactly which
//! [`BackoffErrorKind`] was logged, exactly once, wrapping the very error
//! handed back.

use vstd::prelude::*;

use crate::classify::ErrorClassifier;
use crate::duration::Duration;
use crate::errors::BackoffError;
use crate::errors::BackoffErrorKind;
use crate::logging::BackoffLogger;
use crate::operation::Fallible;
use crate::operation::invoke_chain;
use crate::operation::lemma_invoke_chain_extend;
use crate::peek::RetryPeeker;
use crate::random::Randomizer;
use crate::sleeper::Sleeper;
use crate::strategy::BackoffStrategy;

verus! {

/// What one retried (non-terminal) attempt looks like.
///
/// Attempt `attempt` failed with a recoverable error before the limit was
/// reached; the strategy planned `randomized.0`, the randomizer turned it
/// into `randomized.1`, the peeker approved the wait `slept`, and the
/// failure was logged as non-terminal with the attempt's number and its
/// error.
pub open spec fn retried_attempt<
    T,
    E,
    C: ErrorClassifier<E>,
    St: BackoffStrategy,
    P: RetryPeeker<E>,
>(
    classifier: C,
    strategy: St,
    peeker: P,
    outcome: Result<T, E>,
    attempt: u32,
    randomized: (Duration, Duration),
    slept: Duration,
    logged: (u32, E),
) -> bool {
    &&& outcome is Err
    &&& classifier.spec_recoverable(outcome->Err_0)
    &&& attempt < strategy.spec_limit()
    &&& strategy.spec_interval(attempt) == Some(randomized.0)
    &&& peeker.spec_peek(outcome->Err_0, randomized.1, attempt) == Some(slept)
    &&& logged == (attempt, outcome->Err_0)
}

/// Which kind a run ending in failure at attempt `attempt` logs, and how
/// often the randomizer was consulted along the way.
///
/// `randomized` is the whole run's record of randomizer consultations:
/// one per retried attempt, plus one more exactly when the terminal
/// attempt got as far as the early-termination hook.
pub open spec fn terminal_account<E, C: ErrorClassifier<E>, St: BackoffStrategy, P: RetryPeeker<E>>(
    classifier: C,
    strategy: St,
    peeker: P,
    error: E,
    attempt: u32,
    randomized: Seq<(Duration, Duration)>,
    kind: BackoffErrorKind,
) -> bool {
    let limit = strategy.spec_limit();
    let recoverable = classifier.spec_recoverable(error);
    if attempt == limit {
        &&& randomized.len() == attempt - 1
        &&& kind == (if recoverable {
            BackoffErrorKind::ExhaustedLimit(limit)
        } else {
            BackoffErrorKind::UnrecoverableAndExhaustedLimit(limit)
        })
    } else if !recoverable {
        &&& randomized.len() == attempt - 1
        &&& kind == BackoffErrorKind::Unrecoverable(attempt)
    } else if strategy.spec_interval(attempt) is None {
        &&& randomized.len() == attempt - 1
        &&& kind == BackoffErrorKind::IntervalTerminated(attempt)
    } else {
        let pair = randomized.last();
        &&& randomized.len() == attempt
        &&& strategy.spec_interval(attempt) == Some(pair.0)
        &&& peeker.spec_peek(error, pair.1, attempt) is None
        &&& kind == BackoffErrorKind::PeekTerminated(attempt)
    }
}

/// The whole account of one engine run.
///
/// `outcomes`, `randomized`, `slept`, `logged_retries` and `logged_terminal`
/// are what the run added to the ghost records of the operation, the
/// randomizer, the sleeper and the logger.  The predicate says: between
/// one and `limit` attempts were made; every attempt but the last was a
/// retried failure, slept for exactly the approved interval and logged as
/// non-terminal; and the last attempt either succeeded — the result is its
/// value and nothing terminal was logged — or failed, in which case the
/// result is its error and exactly one terminal entry was logged,
/// carrying that same error and the kind fixed by [`terminal_account`].
pub open spec fn engine_post<T, E, C: ErrorClassifier<E>, St: BackoffStrategy, P: RetryPeeker<E>>(
    classifier: C,
    strategy: St,
    peeker: P,
    outcomes: Seq<Result<T, E>>,
    randomized: Seq<(Duration, Duration)>,
    slept: Seq<Duration>,
    logged_retries: Seq<(u32, E)>,
    logged_terminal: Seq<(BackoffErrorKind, E)>,
    result: Result<T, E>,
) -> bool {
    let n = outcomes.len() as int;
    &&& 1 <= n <= strategy.spec_limit()
    &&& slept.len() == n - 1
    &&& logged_retries.len() == n - 1
    &&& forall|i: int|
        0 <= i < n - 1 ==> retried_attempt(
            classifier,
            strategy,
            peeker,
            #[trigger] outcomes[i],
            (i + 1) as u32,
            randomized[i],
            slept[i],
            logged_retries[i],
        )
    &&& match outcomes.last() {
        Result::Ok(value) => {
            &&& result == Result::<T, E>::Ok(value)
            &&& logged_terminal.len() == 0
            &&& randomized.len() == n - 1
        },
        Result::Err(error) => {
            &&& result == Result::<T, E>::Err(error)
            &&& logged_terminal.len() == 1
            &&& logged_terminal[0].1 == error
            &&& terminal_account(
                classifier,
                strategy,
                peeker,
                error,
                n as u32,
                randomized,
                logged_terminal[0].0,
            )
        },
    }
}

/// What the engine does after one failed attempt: wait and try again, or
/// give the error up.
pub enum RetryDecision<E> {
    /// Wait this long, then invoke the operation once more.
    Retry(Duration),
    /// Stop retrying: hand this error back to the caller.
    Stop(E),
}

/// The engine's single wrap → log → unwrap choke point.
///
/// Given the error of the `attempt`-th invocation, either approves one
/// more retry — consulting, in order, the recoverability predicate, the
/// strategy, the randomizer and the early-termination hook, and logging
/// the failure as non-terminal — or stops, logging the terminal
/// [`BackoffError`] exactly once and handing the bare error back.  On the
/// final (`limit`-th) attempt neither the strategy nor the hook is
/// consulted, since no further retry could follow.
pub fn decide<
    E,
    C: ErrorClassifier<E>,
    St: BackoffStrategy,
    R: Randomizer,
    P: RetryPeeker<E>,
    L: BackoffLogger<E>,
>(
    error: E,
    attempt: u32,
    is_recoverable: &C,
    strategy: &St,
    randomizer: &mut R,
    peek_retry: &P,
    logger: &mut L,
) -> (decision: RetryDecision<E>)
    requires
        1 <= attempt <= strategy.spec_limit(),
    ensures
        match decision {
            RetryDecision::Retry(wait) => {
                let pair = final(randomizer).history().last();
                &&& attempt < strategy.spec_limit()
                &&& is_recoverable.spec_recoverable(error)
                &&& final(randomizer).history() == old(randomizer).history().push(pair)
                &&& strategy.spec_interval(attempt) == Some(pair.0)
                &&& R::spec_randomize(pair.0, pair.1)
                &&& peek_retry.spec_peek(error, pair.1, attempt) == Some(wait)
                &&& final(logger).nonterminal_log() == old(logger).nonterminal_log().push(
                    (attempt, error),
                )
                &&& final(logger).terminal_log() == old(logger).terminal_log()
            },
            RetryDecision::Stop(returned) => {
                let limit = strategy.spec_limit();
                let recoverable = is_recoverable.spec_recoverable(error);
                let entry = final(logger).terminal_log().last();
                &&& returned == error
                &&& entry.1 == error
                &&& final(logger).terminal_log() == old(logger).terminal_log().push(entry)
                &&& final(logger).nonterminal_log() == old(logger).nonterminal_log()
                &&& if attempt == limit {
                    &&& *final(randomizer) == *old(randomizer)
                    &&& entry.0 == (if recoverable {
                        BackoffErrorKind::ExhaustedLimit(limit)
                    } else {
                        BackoffErrorKind::UnrecoverableAndExhaustedLimit(limit)
                    })
                } else if !recoverable {
                    &&& *final(randomizer) == *old(randomizer)
                    &&& entry.0 == BackoffErrorKind::Unrecoverable(attempt)
                } else if strategy.spec_interval(attempt) is None {
                    &&& *final(randomizer) == *old(randomizer)
                    &&& entry.0 == BackoffErrorKind::IntervalTerminated(attempt)
                } else {
                    let pair = final(randomizer).history().last();
                    &&& final(randomizer).history() == old(randomizer).history().push(pair)
                    &&& strategy.spec_interval(attempt) == Some(pair.0)
                    &&& R::spec_randomize(pair.0, pair.1)
                    &&& peek_retry.spec_peek(error, pair.1, attempt) is None
                    &&& entry.0 == BackoffErrorKind::PeekTerminated(attempt)
                }
            },
        },
{
    let limit = strategy.limit();
    if attempt == limit {
        let kind = if is_recoverable.is_recoverable(&error) {
            BackoffErrorKind::ExhaustedLimit(limit)
        } else {
            BackoffErrorKind::UnrecoverableAndExhaustedLimit(limit)
        };
        let wrapped = BackoffError::new(error, kind);
        logger.log_terminal(&wrapped);
        RetryDecision::Stop(wrapped.into_error())
    } else if !is_recoverable.is_recoverable(&error) {
        let wrapped = BackoffError::new(error, BackoffErrorKind::Unrecoverable(attempt));
        logger.log_terminal(&wrapped);
        RetryDecision::Stop(wrapped.into_error())
    } else {
        match strategy.interval(attempt) {
            Option::None => {
                let wrapped = BackoffError::new(
                    error,
                    BackoffErrorKind::IntervalTerminated(attempt),
                );
                logger.log_terminal(&wrapped);
                RetryDecision::Stop(wrapped.into_error())
            },
            Option::Some(planned) => {
                let randomized = randomizer.randomize(planned);
                match peek_retry.peek_retry(&error, randomized, attempt) {
                    Option::None => {
                        let wrapped = BackoffError::new(
                            error,
                            BackoffErrorKind::PeekTerminated(attempt),
                        );
                        logger.log_terminal(&wrapped);
                        RetryDecision::Stop(wrapped.into_error())
                    },
                    Option::Some(wait) => {
                        logger.log_nonterminal(&error, attempt);
                        RetryDecision::Retry(wait)
                    },
                }
            },
        }
    }
}

/// The retry execution engine, for any value that can supply jitter.
///
/// The handler is itself the [`Randomizer`] consulted for every planned
/// interval, so a randomizer — even the no-op one — is a ready-made
/// handler.
pub trait BackoffHandler: Randomizer {
    /// Runs `fallible` and retries it under the given policies.
    ///
    /// Attempts are counted from 1, so the number reported in every
    /// [`BackoffErrorKind`] equals the true count of invocations, and the
    /// strategy is never asked for an interval before an attempt was
    /// made.  The loop runs the strategy → randomize → peek → sleep
    /// pipeline exactly `limit - 1` times in the worst case and makes at
    /// most `limit` invocations — never more; the `limit`-th failure is
    /// classified without consulting the strategy or the hook again.
    ///
    /// The operation must be ready for up to `limit` invocations; one
    /// that is safe to call any number of times — as the wrapped
    /// operation should be — is ready for all of them.
    ///
    /// The contract accounts for the run through the collaborators' ghost
    /// records: their earlier entries are kept, and what this call added
    /// is exactly an [`engine_post`] transcript.
    fn handle<
        T,
        E,
        Op: Fallible<T, E>,
        C: ErrorClassifier<E>,
        P: RetryPeeker<E>,
        Sl: Sleeper,
        St: BackoffStrategy,
        L: BackoffLogger<E>,
    >(
        &mut self,
        fallible: &mut Op,
        is_recoverable: &C,
        peek_retry: &P,
        sleep: &mut Sl,
        strategy: &St,
        logger: &mut L,
    ) -> (result: Result<T, E>)
        requires
            old(fallible).ready_for(strategy.spec_limit() as nat),
        ensures
            old(fallible).history().is_prefix_of(final(fallible).history()),
            old(self).history().is_prefix_of(final(self).history()),
            old(sleep).history().is_prefix_of(final(sleep).history()),
            old(logger).nonterminal_log().is_prefix_of(final(logger).nonterminal_log()),
            old(logger).terminal_log().is_prefix_of(final(logger).terminal_log()),
            engine_post(
                *is_recoverable,
                *strategy,
                *peek_retry,
                final(fallible).history().skip(old(fallible).history().len() as int),
                final(self).history().skip(old(self).history().len() as int),
                final(sleep).history().skip(old(sleep).history().len() as int),
                final(logger).nonterminal_log().skip(
                    old(logger).nonterminal_log().len() as int,
                ),
                final(logger).terminal_log().skip(old(logger).terminal_log().len() as int),
                result,
            ),
            invoke_chain(
                *old(fallible),
                *final(fallible),
                final(fallible).history().skip(old(fallible).history().len() as int),
            ),
            forall|j: int|
                old(self).history().len() <= j < final(self).history().len()
                    ==> Self::spec_randomize(
                    (#[trigger] final(self).history()[j]).0,
                    final(self).history()[j].1,
                ),
    {
        let ghost pre_op = *fallible;
        let ghost pre_rand = *self;
        let ghost pre_sleep = *sleep;
        let ghost pre_log = *logger;
        let ghost opsb = pre_op.history().len() as int;
        let ghost randb = pre_rand.history().len() as int;
        let ghost sleepb = pre_sleep.history().len() as int;
        let ghost logb = pre_log.nonterminal_log().len() as int;
        let ghost kindb = pre_log.terminal_log().len() as int;
        let limit = strategy.limit();
        let mut attempt: u32 = 1;
        #[verifier::loop_isolation(false)]
        while attempt < limit
            invariant
                1 <= attempt <= limit,
                limit == strategy.spec_limit(),
                fallible.ready_for((limit - attempt + 1) as nat),
                pre_op.history().is_prefix_of(fallible.history()),
                fallible.history().len() == opsb + attempt - 1,
                pre_rand.history().is_prefix_of(self.history()),
                self.history().len() == randb + attempt - 1,
                pre_sleep.history().is_prefix_of(sleep.history()),
                sleep.history().len() == sleepb + attempt - 1,
                pre_log.nonterminal_log().is_prefix_of(logger.nonterminal_log()),
                logger.nonterminal_log().len() == logb + attempt - 1,
                logger.terminal_log() == pre_log.terminal_log(),
                invoke_chain(pre_op, *fallible, fallible.history().skip(opsb)),
                forall|j: int|
                    randb <= j < self.history().len() ==> Self::spec_randomize(
                        (#[trigger] self.history()[j]).0,
                        self.history()[j].1,
                    ),
                forall|i: int|
                    0 <= i < attempt - 1 ==> #[trigger] retried_attempt(
                        *is_recoverable,
                        *strategy,
                        *peek_retry,
                        fallible.history()[opsb + i],
                        (i + 1) as u32,
                        self.history()[randb + i],
                        sleep.history()[sleepb + i],
                        logger.nonterminal_log()[logb + i],
                    ),
            decreases limit - attempt,
        {
            proof {
                fallible.ready_for_decrease(1, (limit - attempt + 1) as nat);
            }
            let ghost op_top = *fallible;
            let ghost rand_top = *self;
            let ghost log_top = *logger;
            let outcome = fallible.invoke();
            proof {
                assert(fallible.history().skip(opsb) =~= op_top.history().skip(opsb).push(
                    outcome,
                ));
                lemma_invoke_chain_extend(
                    pre_op,
                    op_top,
                    *fallible,
                    op_top.history().skip(opsb),
                    outcome,
                );
            }
            match outcome {
                Result::Ok(value) => {
                    proof {
                        let outcomes = fallible.history().skip(opsb);
                        assert forall|i: int|
                            0 <= i < outcomes.len() - 1 implies #[trigger] retried_attempt(
                            *is_recoverable,
                            *strategy,
                            *peek_retry,
                            outcomes[i],
                            (i + 1) as u32,
                            self.history().skip(randb)[i],
                            sleep.history().skip(sleepb)[i],
                            logger.nonterminal_log().skip(logb)[i],
                        ) by {
                            assert(retried_attempt(
                                *is_recoverable,
                                *strategy,
                                *peek_retry,
                                op_top.history()[opsb + i],
                                (i + 1) as u32,
                                self.history()[randb + i],
                                sleep.history()[sleepb + i],
                                logger.nonterminal_log()[logb + i],
                            ));
                            assert(outcomes[i] == op_top.history()[opsb + i]);
                            assert(self.history().skip(randb)[i] == self.history()[randb + i]);
                            assert(sleep.history().skip(sleepb)[i] == sleep.history()[sleepb + i]);
                            assert(logger.nonterminal_log().skip(logb)[i]
                                == logger.nonterminal_log()[logb + i]);
                        }
                        assert(outcomes.last() == outcome);
                        assert(logger.terminal_log().skip(kindb)
                            =~= Seq::<(BackoffErrorKind, E)>::empty());
                    }
                    return Result::Ok(value);
                },
                Result::Err(error) => {
                    let ghost err = error;
                    match decide(error, attempt, is_recoverable, strategy, self, peek_retry,
                        logger) {
                        RetryDecision::Retry(wait) => {
                            sleep.sleep(wait);
                            proof {
                                assert(fallible.ready_for((limit - (attempt + 1) + 1) as nat));
                            }
                            attempt = attempt + 1;
                        },
                        RetryDecision::Stop(returned) => {
                            proof {
                                let outcomes = fallible.history().skip(opsb);
                                let rands = self.history().skip(randb);
                                let entry = logger.terminal_log().last();
                                assert forall|i: int|
                                    0 <= i < outcomes.len() - 1 implies #[trigger] retried_attempt(
                                    *is_recoverable,
                                    *strategy,
                                    *peek_retry,
                                    outcomes[i],
                                    (i + 1) as u32,
                                    rands[i],
                                    sleep.history().skip(sleepb)[i],
                                    logger.nonterminal_log().skip(logb)[i],
                                ) by {
                                    assert(retried_attempt(
                                        *is_recoverable,
                                        *strategy,
                                        *peek_retry,
                                        op_top.history()[opsb + i],
                                        (i + 1) as u32,
                                        rand_top.history()[randb + i],
                                        sleep.history()[sleepb + i],
                                        log_top.nonterminal_log()[logb + i],
                                    ));
                                    assert(outcomes[i] == op_top.history()[opsb + i]);
                                    assert(rands[i] == rand_top.history()[randb + i]);
                                    assert(sleep.history().skip(sleepb)[i] == sleep.history()[
                                        sleepb + i]);
                                    assert(logger.nonterminal_log().skip(logb)[i]
                                        == logger.nonterminal_log()[logb + i]);
                                }
                                assert(outcomes.last() == Result::<T, E>::Err(err));
                                assert(terminal_account(
                                    *is_recoverable,
                                    *strategy,
                                    *peek_retry,
                                    err,
                                    attempt,
                                    rands,
                                    entry.0,
                                ));
                                assert(logger.terminal_log().skip(kindb) =~= seq![entry]);
                            }
                            return Result::Err(returned);
                        },
                    }
                },
            }
        }
        proof {
            fallible.ready_for_decrease(1, (limit - attempt + 1) as nat);
        }
        let ghost op_top = *fallible;
        let ghost rand_top = *self;
        let ghost log_top = *logger;
        let outcome = fallible.invoke();
        proof {
            assert(fallible.history().skip(opsb) =~= op_top.history().skip(opsb).push(outcome));
            lemma_invoke_chain_extend(
                pre_op,
                op_top,
                *fallible,
                op_top.history().skip(opsb),
                outcome,
            );
        }
        match outcome {
            Result::Ok(value) => {
                proof {
                    let outcomes = fallible.history().skip(opsb);
                    assert forall|i: int|
                        0 <= i < outcomes.len() - 1 implies #[trigger] retried_attempt(
                        *is_recoverable,
                        *strategy,
                        *peek_retry,
                        outcomes[i],
                        (i + 1) as u32,
                        self.history().skip(randb)[i],
                        sleep.history().skip(sleepb)[i],
                        logger.nonterminal_log().skip(logb)[i],
                    ) by {
                        assert(retried_attempt(
                            *is_recoverable,
                            *strategy,
                            *peek_retry,
                            op_top.history()[opsb + i],
                            (i + 1) as u32,
                            self.history()[randb + i],
                            sleep.history()[sleepb + i],
                            logger.nonterminal_log()[logb + i],
                        ));
                        assert(outcomes[i] == op_top.history()[opsb + i]);
                        assert(self.history().skip(randb)[i] == self.history()[randb + i]);
                        assert(sleep.history().skip(sleepb)[i] == sleep.history()[sleepb + i]);
                        assert(logger.nonterminal_log().skip(logb)[i]
                            == logger.nonterminal_log()[logb + i]);
                    }
                    assert(outcomes.last() == outcome);
                    assert(logger.terminal_log().skip(kindb) =~= Seq::<(BackoffErrorKind, E)>::empty());
                }
                Result::Ok(value)
            },
            Result::Err(error) => {
                let ghost err = error;
                match decide(error, attempt, is_recoverable, strategy, self, peek_retry, logger) {
                    RetryDecision::Stop(returned) => {
                        proof {
                            let outcomes = fallible.history().skip(opsb);
                            let rands = self.history().skip(randb);
                            let entry = logger.terminal_log().last();
                            assert forall|i: int|
                                0 <= i < outcomes.len() - 1 implies #[trigger] retried_attempt(
                                *is_recoverable,
                                *strategy,
                                *peek_retry,
                                outcomes[i],
                                (i + 1) as u32,
                                rands[i],
                                sleep.history().skip(sleepb)[i],
                                logger.nonterminal_log().skip(logb)[i],
                            ) by {
                                assert(retried_attempt(
                                    *is_recoverable,
                                    *strategy,
                                    *peek_retry,
                                    op_top.history()[opsb + i],
                                    (i + 1) as u32,
                                    rand_top.history()[randb + i],
                                    sleep.history()[sleepb + i],
                                    log_top.nonterminal_log()[logb + i],
                                ));
                                assert(outcomes[i] == op_top.history()[opsb + i]);
                                assert(rands[i] == rand_top.history()[randb + i]);
                                assert(sleep.history().skip(sleepb)[i] == sleep.history()[sleepb
                                    + i]);
                                assert(logger.nonterminal_log().skip(logb)[i]
                                    == logger.nonterminal_log()[logb + i]);
                            }
                            assert(outcomes.last() == Result::<T, E>::Err(err));
                            assert(terminal_account(
                                *is_recoverable,
                                *strategy,
                                *peek_retry,
                                err,
                                attempt,
                                rands,
                                entry.0,
                            ));
                            assert(logger.terminal_log().skip(kindb) =~= seq![entry]);
                        }
                        Result::Err(returned)
                    },
                    RetryDecision::Retry(wait) => {
                        vstd::pervasive::unreached()
                    },
                }
            },
        }
    }
}

impl<R: Randomizer> BackoffHandler for R {

}

} // verus!
