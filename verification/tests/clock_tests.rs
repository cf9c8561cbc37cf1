use timelapse::clock::{clamp_epoch_seconds, current_unix_seconds};

#[test]
fn clamp_keeps_nonnegative_times() {
    assert_eq!(clamp_epoch_seconds(0), 0);
    assert_eq!(clamp_epoch_seconds(1700000000), 1700000000);
    assert_eq!(clamp_epoch_seconds(i64::MAX), i64::MAX as u64);
}

#[test]
fn clamp_raises_pre_epoch_times_to_zero() {
    assert_eq!(clamp_epoch_seconds(-1), 0);
    assert_eq!(clamp_epoch_seconds(i64::MIN), 0);
}

#[test]
fn current_time_is_after_2020() {
    assert!(current_unix_seconds() >= 1_600_000_000);
}
