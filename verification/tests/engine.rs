use backoff::classify::AlwaysRecoverable;
use backoff::classify::RecoverableBelow;
use backoff::duration::Duration;
use backoff::errors::BackoffErrorKind;
use backoff::handler::BackoffHandler;
use backoff::handler::RetryDecision;
use backoff::handler::decide;
use backoff::logging::RecordingLogger;
use backoff::operation::ScriptedOperation;
use backoff::peek::ApprovePlanned;
use backoff::peek::ApproveUntil;
use backoff::random::NoRandomization;
use backoff::sleeper::RecordingSleeper;
use backoff::strategy::Constant;
use backoff::strategy::Windowed;

fn failing_script(codes: &[u32]) -> ScriptedOperation<u32, u32> {
    let mut script: Vec<Result<u32, u32>> = Vec::new();
    for c in codes {
        script.push(Err(*c));
    }
    ScriptedOperation::new(script)
}

#[test]
fn exhausts_limit_with_exact_invocations() {
    // A permanently failing recoverable operation is invoked exactly
    // `limit` times and ends in ExhaustedLimit(limit).
    let mut op = failing_script(&[5, 5, 5]);
    let mut sleeper = RecordingSleeper::new();
    let mut logger = RecordingLogger::new();
    let strategy = Constant::new(Duration::from_millis(25), 3);
    let result = NoRandomization::new().handle(
        &mut op,
        &AlwaysRecoverable::new(),
        &ApprovePlanned::new(),
        &mut sleeper,
        &strategy,
        &mut logger,
    );
    assert_eq!(result, Err(5));
    assert_eq!(op.remaining_len(), 0);
    assert_eq!(logger.terminal, vec![BackoffErrorKind::ExhaustedLimit(3)]);
    assert_eq!(logger.nonterminal, vec![1, 2]);
    assert_eq!(
        sleeper.slept,
        vec![Duration::from_millis(25), Duration::from_millis(25)]
    );
}

#[test]
fn transient_failure_then_success_takes_two_invocations() {
    // Fails once recoverably, then succeeds: exactly 2 invocations,
    // success returned, nothing terminal logged — although limit is 5.
    let mut script: Vec<Result<u32, u32>> = Vec::new();
    script.push(Err(5));
    script.push(Ok(7));
    script.push(Ok(0));
    script.push(Ok(0));
    script.push(Ok(0));
    let mut op = ScriptedOperation::new(script);
    let mut sleeper = RecordingSleeper::new();
    let mut logger = RecordingLogger::new();
    let strategy = Constant::new(Duration::from_millis(10), 5);
    let result = NoRandomization::new().handle(
        &mut op,
        &AlwaysRecoverable::new(),
        &ApprovePlanned::new(),
        &mut sleeper,
        &strategy,
        &mut logger,
    );
    assert_eq!(result, Ok(7));
    assert_eq!(op.remaining_len(), 3);
    assert!(logger.terminal.is_empty());
    assert_eq!(logger.nonterminal, vec![1]);
    assert_eq!(sleeper.slept.len(), 1);
}

#[test]
fn unrecoverable_error_stops_before_limit() {
    // Recoverability denied on attempt 2 of 5: exactly 2 invocations,
    // Unrecoverable(2), limit never reached.
    let mut op = failing_script(&[1, 500, 1, 1, 1]);
    let mut sleeper = RecordingSleeper::new();
    let mut logger = RecordingLogger::new();
    let strategy = Constant::new(Duration::from_millis(25), 5);
    let result = NoRandomization::new().handle(
        &mut op,
        &RecoverableBelow::new(100),
        &ApprovePlanned::new(),
        &mut sleeper,
        &strategy,
        &mut logger,
    );
    assert_eq!(result, Err(500));
    assert_eq!(op.remaining_len(), 3);
    assert_eq!(logger.terminal, vec![BackoffErrorKind::Unrecoverable(2)]);
    assert_eq!(logger.nonterminal, vec![1]);
    assert_eq!(sleeper.slept.len(), 1);
}

#[test]
fn unrecoverable_on_final_attempt_is_both_kinds() {
    // Recoverability denied on the limit-th invocation: the kind is
    // UnrecoverableAndExhaustedLimit, not plain Unrecoverable.
    let mut op = failing_script(&[1, 500]);
    let mut sleeper = RecordingSleeper::new();
    let mut logger = RecordingLogger::new();
    let strategy = Constant::new(Duration::from_millis(25), 2);
    let result = NoRandomization::new().handle(
        &mut op,
        &RecoverableBelow::new(100),
        &ApprovePlanned::new(),
        &mut sleeper,
        &strategy,
        &mut logger,
    );
    assert_eq!(result, Err(500));
    assert_eq!(
        logger.terminal,
        vec![BackoffErrorKind::UnrecoverableAndExhaustedLimit(2)]
    );
    assert_eq!(logger.nonterminal, vec![1]);
}

#[test]
fn peek_abort_stops_without_sleeping() {
    // The peeker aborts on attempt 2: exactly 2 invocations,
    // PeekTerminated(2), and no sleep for that attempt.
    let mut op = failing_script(&[5, 5, 5, 5, 5]);
    let mut sleeper = RecordingSleeper::new();
    let mut logger = RecordingLogger::new();
    let strategy = Constant::new(Duration::from_millis(25), 5);
    let result = NoRandomization::new().handle(
        &mut op,
        &AlwaysRecoverable::new(),
        &ApproveUntil::new(2),
        &mut sleeper,
        &strategy,
        &mut logger,
    );
    assert_eq!(result, Err(5));
    assert_eq!(op.remaining_len(), 3);
    assert_eq!(logger.terminal, vec![BackoffErrorKind::PeekTerminated(2)]);
    assert_eq!(logger.nonterminal, vec![1]);
    assert_eq!(sleeper.slept, vec![Duration::from_millis(25)]);
}

#[test]
fn interval_cutoff_stops_without_consulting_hooks() {
    // The strategy plans nothing for attempt 2: exactly 2 invocations,
    // IntervalTerminated(2), and only one sleep happened in all.
    let mut op = failing_script(&[5, 5, 5, 5, 5]);
    let mut sleeper = RecordingSleeper::new();
    let mut logger = RecordingLogger::new();
    let strategy = Windowed::new(Duration::from_millis(25), 2, 5);
    let result = NoRandomization::new().handle(
        &mut op,
        &AlwaysRecoverable::new(),
        &ApprovePlanned::new(),
        &mut sleeper,
        &strategy,
        &mut logger,
    );
    assert_eq!(result, Err(5));
    assert_eq!(op.remaining_len(), 3);
    assert_eq!(logger.terminal, vec![BackoffErrorKind::IntervalTerminated(2)]);
    assert_eq!(logger.nonterminal, vec![1]);
    assert_eq!(sleeper.slept, vec![Duration::from_millis(25)]);
}

#[test]
fn limit_of_one_makes_a_single_attempt() {
    // A limit of 1 is valid: one invocation, no strategy or peeker
    // consultation, no sleep.
    let mut op = failing_script(&[9]);
    let mut sleeper = RecordingSleeper::new();
    let mut logger = RecordingLogger::new();
    let strategy = Constant::new(Duration::from_millis(25), 1);
    let result = NoRandomization::new().handle(
        &mut op,
        &AlwaysRecoverable::new(),
        &ApprovePlanned::new(),
        &mut sleeper,
        &strategy,
        &mut logger,
    );
    assert_eq!(result, Err(9));
    assert_eq!(logger.terminal, vec![BackoffErrorKind::ExhaustedLimit(1)]);
    assert!(logger.nonterminal.is_empty());
    assert!(sleeper.slept.is_empty());
}

#[test]
fn immediate_success_touches_nothing() {
    // Success on the first invocation: no logging, no sleeping, no
    // randomization.
    let mut script: Vec<Result<u32, u32>> = Vec::new();
    script.push(Ok(42));
    script.push(Ok(0));
    script.push(Ok(0));
    let mut op = ScriptedOperation::new(script);
    let mut sleeper = RecordingSleeper::new();
    let mut logger = RecordingLogger::new();
    let strategy = Constant::new(Duration::from_millis(25), 3);
    let result = NoRandomization::new().handle(
        &mut op,
        &AlwaysRecoverable::new(),
        &ApprovePlanned::new(),
        &mut sleeper,
        &strategy,
        &mut logger,
    );
    assert_eq!(result, Ok(42));
    assert_eq!(op.remaining_len(), 2);
    assert!(logger.terminal.is_empty());
    assert!(logger.nonterminal.is_empty());
    assert!(sleeper.slept.is_empty());
}

#[test]
fn constant_scenario_sleeps_twice_25ms() {
    // Constant{interval=25ms, limit=3}, always failing recoverably:
    // 3 invocations, two sleeps of 25ms, ExhaustedLimit(3).
    let mut op = failing_script(&[8, 8, 8]);
    let mut sleeper = RecordingSleeper::new();
    let mut logger = RecordingLogger::new();
    let strategy = Constant::new(Duration::from_millis(25), 3);
    let result = NoRandomization::new().handle(
        &mut op,
        &AlwaysRecoverable::new(),
        &ApprovePlanned::new(),
        &mut sleeper,
        &strategy,
        &mut logger,
    );
    assert_eq!(result, Err(8));
    assert_eq!(op.remaining_len(), 0);
    assert_eq!(
        sleeper.slept,
        vec![Duration::from_millis(25), Duration::from_millis(25)]
    );
    assert_eq!(logger.terminal, vec![BackoffErrorKind::ExhaustedLimit(3)]);
}

#[test]
fn peek_override_caps_the_sleeps() {
    // CapInterval overrides long planned waits: with Linear{base=30ms}
    // and a 40ms cap, the engine sleeps 30ms then 40ms, not 60ms.
    let mut op = failing_script(&[5, 5, 5]);
    let mut sleeper = RecordingSleeper::new();
    let mut logger = RecordingLogger::new();
    let strategy = backoff::strategy::Linear::new(Duration::from_millis(30), 3);
    let result = NoRandomization::new().handle(
        &mut op,
        &AlwaysRecoverable::new(),
        &backoff::peek::CapInterval::new(Duration::from_millis(40)),
        &mut sleeper,
        &strategy,
        &mut logger,
    );
    assert_eq!(result, Err(5));
    assert_eq!(
        sleeper.slept,
        vec![Duration::from_millis(30), Duration::from_millis(40)]
    );
    assert_eq!(logger.terminal, vec![BackoffErrorKind::ExhaustedLimit(3)]);
}

#[test]
fn exponential_pacing_through_the_engine() {
    // Exponential{base=5ms, factor=2, limit=3}: sleeps 10ms then 20ms.
    let mut op = failing_script(&[5, 5, 5]);
    let mut sleeper = RecordingSleeper::new();
    let mut logger = RecordingLogger::new();
    let strategy = backoff::strategy::Exponential::new(Duration::from_millis(5), 2, 3);
    let result = NoRandomization::new().handle(
        &mut op,
        &AlwaysRecoverable::new(),
        &ApprovePlanned::new(),
        &mut sleeper,
        &strategy,
        &mut logger,
    );
    assert_eq!(result, Err(5));
    assert_eq!(
        sleeper.slept,
        vec![Duration::from_millis(10), Duration::from_millis(20)]
    );
}

#[test]
fn interval_cutoff_on_the_first_attempt() {
    // A strategy that never plans an interval terminates after one
    // invocation, without sleeping at all.
    let mut op = failing_script(&[5, 5, 5]);
    let mut sleeper = RecordingSleeper::new();
    let mut logger = RecordingLogger::new();
    let strategy = Windowed::new(Duration::from_millis(25), 1, 3);
    let result = NoRandomization::new().handle(
        &mut op,
        &AlwaysRecoverable::new(),
        &ApprovePlanned::new(),
        &mut sleeper,
        &strategy,
        &mut logger,
    );
    assert_eq!(result, Err(5));
    assert_eq!(op.remaining_len(), 2);
    assert_eq!(logger.terminal, vec![BackoffErrorKind::IntervalTerminated(1)]);
    assert!(logger.nonterminal.is_empty());
    assert!(sleeper.slept.is_empty());
}

#[test]
fn decide_classifies_final_attempt() {
    // At the limit-th attempt, decide stops without consulting the
    // strategy, the randomizer or the peeker.
    let strategy = Constant::new(Duration::from_millis(25), 3);
    let mut randomizer = NoRandomization::new();
    let mut logger = RecordingLogger::new();
    let decision = decide(
        7u32,
        3,
        &AlwaysRecoverable::new(),
        &strategy,
        &mut randomizer,
        &ApprovePlanned::new(),
        &mut logger,
    );
    match decision {
        RetryDecision::Stop(e) => assert_eq!(e, 7),
        RetryDecision::Retry(_) => panic!("final attempt must not retry"),
    }
    assert_eq!(logger.terminal, vec![BackoffErrorKind::ExhaustedLimit(3)]);
    assert!(logger.nonterminal.is_empty());
}

#[test]
fn decide_approves_a_retry_with_the_planned_interval() {
    let strategy = Constant::new(Duration::from_millis(40), 3);
    let mut randomizer = NoRandomization::new();
    let mut logger = RecordingLogger::new();
    let decision = decide(
        7u32,
        1,
        &AlwaysRecoverable::new(),
        &strategy,
        &mut randomizer,
        &ApprovePlanned::new(),
        &mut logger,
    );
    match decision {
        RetryDecision::Retry(wait) => assert_eq!(wait, Duration::from_millis(40)),
        RetryDecision::Stop(_) => panic!("a recoverable, approved failure must retry"),
    }
    assert!(logger.terminal.is_empty());
    assert_eq!(logger.nonterminal, vec![1]);
}
