use backoff::duration::Duration;
use backoff::errors::BackoffError;
use backoff::errors::BackoffErrorKind;
use backoff::errors::decimal_string;

#[test]
fn wrapper_exposes_error_and_kind() {
    let wrapped = BackoffError::new("boom".to_string(), BackoffErrorKind::Unrecoverable(3));
    assert_eq!(wrapped.error().as_str(), "boom");
    assert!(matches!(wrapped.kind(), BackoffErrorKind::Unrecoverable(3)));
    let (error, kind) = wrapped.into_error_and_kind();
    assert_eq!(error, "boom");
    assert_eq!(kind, BackoffErrorKind::Unrecoverable(3));
}

#[test]
fn wrapper_consuming_accessors() {
    let wrapped = BackoffError::new(9u32, BackoffErrorKind::PeekTerminated(1));
    assert_eq!(wrapped.into_error(), 9);
    let wrapped = BackoffError::new(9u32, BackoffErrorKind::PeekTerminated(1));
    assert_eq!(wrapped.into_kind(), BackoffErrorKind::PeekTerminated(1));
}

#[test]
fn kinds_carry_their_attempt_count() {
    assert_eq!(BackoffErrorKind::Unrecoverable(1).attempt(), 1);
    assert_eq!(BackoffErrorKind::ExhaustedLimit(3).attempt(), 3);
    assert_eq!(BackoffErrorKind::UnrecoverableAndExhaustedLimit(4).attempt(), 4);
    assert_eq!(BackoffErrorKind::PeekTerminated(2).attempt(), 2);
    assert_eq!(BackoffErrorKind::IntervalTerminated(7).attempt(), 7);
}

#[test]
fn five_distinct_messages_name_the_count() {
    assert_eq!(
        BackoffErrorKind::Unrecoverable(3).message(),
        "After 3 attempt(s) an unrecoverable error was encountered."
    );
    assert_eq!(
        BackoffErrorKind::ExhaustedLimit(17).message(),
        "Limit of 17 was exhausted."
    );
    assert_eq!(
        BackoffErrorKind::UnrecoverableAndExhaustedLimit(5).message(),
        "An unrecoverable error was encountered and the limit of 5 was exhausted."
    );
    assert_eq!(
        BackoffErrorKind::PeekTerminated(12).message(),
        "After 12 attempt(s), retrying was terminated by peek_retry"
    );
    assert_eq!(
        BackoffErrorKind::IntervalTerminated(250).message(),
        "After 250 attempt(s), retrying was terminated by BackoffStrategy::interval()."
    );
}

#[test]
fn decimal_rendering_is_exact() {
    assert_eq!(decimal_string(0), "0");
    assert_eq!(decimal_string(7), "7");
    assert_eq!(decimal_string(10), "10");
    assert_eq!(decimal_string(105), "105");
    assert_eq!(decimal_string(4_294_967_295), "4294967295");
}

#[test]
fn durations_convert_between_units() {
    assert_eq!(Duration::zero().as_nanos(), 0);
    assert_eq!(Duration::from_nanos(123).as_nanos(), 123);
    assert_eq!(Duration::from_micros(2).as_nanos(), 2_000);
    assert_eq!(Duration::from_millis(25).as_nanos(), 25_000_000);
    assert_eq!(Duration::from_secs(3).as_nanos(), 3_000_000_000);
    assert_eq!(Duration::max().as_nanos(), u64::MAX);
}

#[test]
fn duration_arithmetic_saturates() {
    let big = Duration::from_nanos(u64::MAX - 1);
    assert_eq!(big.saturating_add(Duration::from_nanos(1)).as_nanos(), u64::MAX);
    assert_eq!(big.saturating_add(Duration::from_nanos(5)).as_nanos(), u64::MAX);
    assert_eq!(big.saturating_scale(2).as_nanos(), u64::MAX);
    assert_eq!(
        Duration::from_nanos(3).saturating_scale(4).as_nanos(),
        12
    );
    assert_eq!(Duration::from_secs(u64::MAX).as_nanos(), u64::MAX);
}
