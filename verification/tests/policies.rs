use backoff::classify::AlwaysRecoverable;
use backoff::classify::ErrorClassifier;
use backoff::classify::NeverRecoverable;
use backoff::classify::RecoverableBelow;
use backoff::duration::Duration;
use backoff::logging::BackoffLogger;
use backoff::logging::NoLogging;
use backoff::logging::StdErr;
use backoff::logging::StdOut;
use backoff::errors::BackoffError;
use backoff::errors::BackoffErrorKind;
use backoff::operation::Fallible;
use backoff::operation::ScriptedOperation;
use backoff::peek::ApprovePlanned;
use backoff::peek::ApproveUntil;
use backoff::peek::CapInterval;
use backoff::peek::RetryPeeker;
use backoff::random::NoRandomization;
use backoff::random::Randomizer;
use backoff::sleeper::RecordingSleeper;
use backoff::sleeper::Sleeper;
use backoff::strategy::BackoffStrategy;
use backoff::strategy::Constant;
use backoff::strategy::Exponential;
use backoff::strategy::Linear;
use backoff::strategy::Windowed;

#[test]
fn constant_strategy_plans_the_same_interval() {
    let strategy = Constant::new(Duration::from_millis(25), 3);
    assert_eq!(strategy.limit(), 3);
    assert_eq!(strategy.interval(1), Some(Duration::from_millis(25)));
    assert_eq!(strategy.interval(2), Some(Duration::from_millis(25)));
    assert_eq!(strategy.interval(100), Some(Duration::from_millis(25)));
}

#[test]
fn linear_strategy_scales_by_attempt() {
    // Linear{base=10ms, limit=5}: attempt 3 planned interval is 30ms.
    let strategy = Linear::new(Duration::from_millis(10), 5);
    assert_eq!(strategy.limit(), 5);
    assert_eq!(strategy.interval(1), Some(Duration::from_millis(10)));
    assert_eq!(strategy.interval(3), Some(Duration::from_millis(30)));
    assert_eq!(strategy.interval(5), Some(Duration::from_millis(50)));
}

#[test]
fn exponential_strategy_scales_by_factor_times_attempt() {
    // Exponential{base=5ms, factor=2, limit=5}: attempt 3 planned
    // interval is 5ms * (2 * 3) = 30ms — multiplicative by the attempt
    // number, not factor-to-the-power-of-attempt.
    let strategy = Exponential::new(Duration::from_millis(5), 2, 5);
    assert_eq!(strategy.limit(), 5);
    assert_eq!(strategy.interval(1), Some(Duration::from_millis(10)));
    assert_eq!(strategy.interval(3), Some(Duration::from_millis(30)));
    assert_eq!(strategy.interval(4), Some(Duration::from_millis(40)));
}

#[test]
fn windowed_strategy_plans_nothing_from_its_cutoff() {
    let strategy = Windowed::new(Duration::from_millis(25), 3, 10);
    assert_eq!(strategy.limit(), 10);
    assert_eq!(strategy.interval(1), Some(Duration::from_millis(25)));
    assert_eq!(strategy.interval(2), Some(Duration::from_millis(25)));
    assert_eq!(strategy.interval(3), None);
    assert_eq!(strategy.interval(4), None);
}

#[test]
fn saturating_scale_caps_at_the_largest_span() {
    let strategy = Linear::new(Duration::from_nanos(u64::MAX / 2), 5);
    assert_eq!(strategy.interval(2), Some(Duration::from_nanos(u64::MAX - 1)));
    assert_eq!(strategy.interval(3), Some(Duration::from_nanos(u64::MAX)));
}

#[test]
fn no_randomization_is_the_identity() {
    // randomize(d) == d, for all d: the no-op randomizer is idempotent.
    let mut randomizer = NoRandomization::new();
    for nanos in [0u64, 1, 25_000_000, u64::MAX] {
        let d = Duration::from_nanos(nanos);
        assert_eq!(randomizer.randomize(d), d);
    }
    let mut again = NoRandomization::default();
    let d = Duration::from_millis(7);
    let once = again.randomize(d);
    assert_eq!(again.randomize(once), d);
}

#[test]
fn classifiers_judge_as_documented() {
    assert!(AlwaysRecoverable::new().is_recoverable(&0u32));
    assert!(AlwaysRecoverable::new().is_recoverable(&999u32));
    assert!(!NeverRecoverable::new().is_recoverable(&0u32));
    let below = RecoverableBelow::new(100);
    assert!(below.is_recoverable(&99));
    assert!(!below.is_recoverable(&100));
    assert!(!below.is_recoverable(&500));
}

#[test]
fn approve_planned_hands_the_interval_through() {
    let peeker = ApprovePlanned::new();
    let d = Duration::from_millis(25);
    assert_eq!(peeker.peek_retry(&0u32, d, 1), Some(d));
    assert_eq!(peeker.peek_retry(&7u32, d, 99), Some(d));
}

#[test]
fn approve_until_aborts_from_its_cutoff() {
    let peeker = ApproveUntil::new(3);
    let d = Duration::from_millis(25);
    assert_eq!(peeker.peek_retry(&0u32, d, 1), Some(d));
    assert_eq!(peeker.peek_retry(&0u32, d, 2), Some(d));
    assert_eq!(peeker.peek_retry(&0u32, d, 3), None);
    assert_eq!(peeker.peek_retry(&0u32, d, 4), None);
}

#[test]
fn cap_interval_overrides_long_waits() {
    let peeker = CapInterval::new(Duration::from_millis(50));
    assert_eq!(
        peeker.peek_retry(&0u32, Duration::from_millis(25), 1),
        Some(Duration::from_millis(25))
    );
    assert_eq!(
        peeker.peek_retry(&0u32, Duration::from_millis(80), 1),
        Some(Duration::from_millis(50))
    );
}

#[test]
fn scripted_operation_replays_front_to_back() {
    let mut script: Vec<Result<u32, u32>> = Vec::new();
    script.push(Err(1));
    script.push(Ok(2));
    let mut op = ScriptedOperation::new(script);
    assert_eq!(op.remaining_len(), 2);
    assert_eq!(op.invoke(), Err(1));
    assert_eq!(op.remaining_len(), 1);
    assert_eq!(op.invoke(), Ok(2));
    assert_eq!(op.remaining_len(), 0);
}

#[test]
fn recording_sleeper_keeps_every_pause() {
    let mut sleeper = RecordingSleeper::new();
    sleeper.sleep(Duration::from_millis(1));
    sleeper.sleep(Duration::from_millis(2));
    assert_eq!(
        sleeper.slept,
        vec![Duration::from_millis(1), Duration::from_millis(2)]
    );
}

#[test]
fn silent_loggers_accept_notifications() {
    // NoLogging swallows everything; StdErr and StdOut print a line per
    // notification.  All three must accept both calls.
    let wrapped = BackoffError::new(7u32, BackoffErrorKind::Unrecoverable(2));
    let mut none = NoLogging::new();
    BackoffLogger::<u32>::log_nonterminal(&mut none, &7, 1);
    none.log_terminal(&wrapped);
    let mut err = StdErr::new();
    BackoffLogger::<u32>::log_nonterminal(&mut err, &7, 1);
    err.log_terminal(&wrapped);
    let mut out = StdOut::new();
    BackoffLogger::<u32>::log_nonterminal(&mut out, &7, 1);
    out.log_terminal(&wrapped);
    let mut defaulted = NoLogging::default();
    defaulted.log_terminal(&wrapped);
}
