//! The operation under retry.
//!
//! The engine re-invokes a fallible computation any number of times; it
//! makes no attempt to deduplicate or cache invocations.  A [`Fallible`]
//! value stands for such a computation: each invocation produces a fresh
//! `Result`, and a ghost record keeps the outcomes produced so far, so
//! that a caller of the engine can account for every invocation made.

use vstd::prelude::*;

verus! {

/// A fallible, repeatable operation.
///
/// The outcome of an invocation is left entirely open: the trait promises
/// only that the ghost [`history`] grows by exactly the outcome returned,
/// and whatever the per-implementation relation [`invoke_post`] adds.
///
/// [`history`]: Fallible::history
/// [`invoke_post`]: Fallible::invoke_post
pub trait Fallible<T, E>: Sized {
    /// Every outcome produced so far, in order.
    spec fn history(&self) -> Seq<Result<T, E>>;

    /// Whether `calls` more invocations may still be made.  An operation
    /// that can always be re-invoked holds this for every count.
    spec fn ready_for(&self, calls: nat) -> bool;

    /// The per-implementation account of a single invocation.
    spec fn invoke_post(&self, next: Self, outcome: Result<T, E>) -> bool;

    /// Readiness for many invocations includes readiness for fewer.
    proof fn ready_for_decrease(&self, fewer: nat, more: nat)
        requires
            fewer <= more,
            self.ready_for(more),
        ensures
            self.ready_for(fewer),
    ;

    /// Runs the operation once, producing a fresh outcome.
    fn invoke(&mut self) -> (outcome: Result<T, E>)
        requires
            old(self).ready_for(1),
        ensures
            final(self).history() == old(self).history().push(outcome),
            forall|k: nat| old(self).ready_for(k + 1) ==> #[trigger] final(self).ready_for(k),
            old(self).invoke_post(*final(self), outcome),
    ;
}

/// A run of successive invocations: some operation state `end` is
/// reachable from `start` by invoking once per element of `outcomes`, in
/// order, with each invocation answering for itself through the
/// per-implementation [`invoke_post`] relation.
///
/// The engine promises this of the operation it ran, which lets a caller
/// carry implementation-specific knowledge — say, that a scripted
/// operation replays its script — across the whole run.
///
/// [`invoke_post`]: Fallible::invoke_post
pub open spec fn invoke_chain<T, E, Op: Fallible<T, E>>(
    start: Op,
    end: Op,
    outcomes: Seq<Result<T, E>>,
) -> bool
    decreases outcomes.len(),
{
    if outcomes.len() == 0 {
        end == start
    } else {
        exists|mid: Op|
            #[trigger] start.invoke_post(mid, outcomes[0]) && invoke_chain(
                mid,
                end,
                outcomes.skip(1),
            )
    }
}

/// A chain grows by one invocation at its end.
pub proof fn lemma_invoke_chain_extend<T, E, Op: Fallible<T, E>>(
    start: Op,
    mid: Op,
    end: Op,
    outcomes: Seq<Result<T, E>>,
    outcome: Result<T, E>,
)
    requires
        invoke_chain(start, mid, outcomes),
        mid.invoke_post(end, outcome),
    ensures
        invoke_chain(start, end, outcomes.push(outcome)),
    decreases outcomes.len(),
{
    let extended = outcomes.push(outcome);
    if outcomes.len() == 0 {
        assert(extended.skip(1) =~= Seq::<Result<T, E>>::empty());
        assert(start.invoke_post(end, extended[0]) && invoke_chain(end, end, extended.skip(1)));
    } else {
        let step = choose|step: Op|
            #[trigger] start.invoke_post(step, outcomes[0]) && invoke_chain(
                step,
                mid,
                outcomes.skip(1),
            );
        lemma_invoke_chain_extend(step, mid, end, outcomes.skip(1), outcome);
        assert(extended.skip(1) =~= outcomes.skip(1).push(outcome));
        assert(start.invoke_post(step, extended[0]) && invoke_chain(step, end, extended.skip(1)));
    }
}

/// An operation that replays a fixed script of outcomes, front to back.
///
/// Useful wherever the outcomes are known up front — above all for
/// exercising the engine: the caller scripts the failures and successes,
/// and the ghost history then shows exactly which of them the engine
/// consumed.
pub struct ScriptedOperation<T, E> {
    script: Vec<Result<T, E>>,
    past: Ghost<Seq<Result<T, E>>>,
}

impl<T, E> ScriptedOperation<T, E> {
    /// The outcomes not yet replayed, in the order they will come.
    pub closed spec fn remaining(&self) -> Seq<Result<T, E>> {
        self.script@
    }

    /// An operation that will produce the outcomes of `script` in order.
    pub fn new(script: Vec<Result<T, E>>) -> (r: ScriptedOperation<T, E>)
        ensures
            r.remaining() == script@,
            r.history() == Seq::<Result<T, E>>::empty(),
    {
        ScriptedOperation { script, past: Ghost(Seq::empty()) }
    }

    /// How many outcomes are left to replay.
    pub fn remaining_len(&self) -> (n: usize)
        ensures
            n == self.remaining().len(),
    {
        self.script.len()
    }
}

impl<T, E> Fallible<T, E> for ScriptedOperation<T, E> {
    closed spec fn history(&self) -> Seq<Result<T, E>> {
        self.past@
    }

    open spec fn ready_for(&self, calls: nat) -> bool {
        self.remaining().len() >= calls
    }

    /// Replaying hands out the front of the script and keeps the rest.
    open spec fn invoke_post(&self, next: Self, outcome: Result<T, E>) -> bool {
        &&& self.remaining().len() >= 1
        &&& outcome == self.remaining()[0]
        &&& next.remaining() == self.remaining().skip(1)
    }

    proof fn ready_for_decrease(&self, fewer: nat, more: nat) {
    }

    fn invoke(&mut self) -> (outcome: Result<T, E>) {
        let outcome = self.script.remove(0);
        self.past = Ghost(self.past@.push(outcome));
        proof {
            assert(self.script@ =~= old(self).script@.skip(1));
        }
        outcome
    }
}

/// A scripted operation replays exactly its script: a run of `n`
/// invocations consumes the script's first `n` outcomes, in order, and
/// leaves the rest.
pub proof fn lemma_scripted_replay<T, E>(
    start: ScriptedOperation<T, E>,
    end: ScriptedOperation<T, E>,
    outcomes: Seq<Result<T, E>>,
)
    requires
        invoke_chain(start, end, outcomes),
    ensures
        outcomes.len() <= start.remaining().len(),
        outcomes == start.remaining().take(outcomes.len() as int),
        end.remaining() == start.remaining().skip(outcomes.len() as int),
    decreases outcomes.len(),
{
    let n = outcomes.len() as int;
    if n == 0 {
        assert(outcomes =~= start.remaining().take(0));
        assert(end.remaining() =~= start.remaining().skip(0));
    } else {
        let mid = choose|mid: ScriptedOperation<T, E>|
            #[trigger] start.invoke_post(mid, outcomes[0]) && invoke_chain(
                mid,
                end,
                outcomes.skip(1),
            );
        lemma_scripted_replay(mid, end, outcomes.skip(1));
        assert forall|i: int| 0 <= i < n implies outcomes[i] == start.remaining()[i] by {
            if i > 0 {
                assert(outcomes[i] == outcomes.skip(1)[i - 1]);
                assert(outcomes.skip(1)[i - 1] == mid.remaining().take(n - 1)[i - 1]);
                assert(mid.remaining()[i - 1] == start.remaining().skip(1)[i - 1]);
            }
        }
        assert(outcomes =~= start.remaining().take(n));
        assert forall|i: int|
            0 <= i < end.remaining().len() implies end.remaining()[i] == start.remaining()[i
            + n] by {
            assert(end.remaining()[i] == mid.remaining().skip(n - 1)[i]);
            assert(mid.remaining()[i + n - 1] == start.remaining().skip(1)[i + n - 1]);
        }
        assert(end.remaining() =~= start.remaining().skip(n));
    }
}

} // verus!
