use timelapse::cycle::CycleOutcome;
use timelapse::errors::{CaptureError, RejectReason};
use timelapse::scheduler::{CaptureCounter, Scheduler};
use timelapse::source::snapshot_path;

fn failed() -> CycleOutcome {
    CycleOutcome::Failed(CaptureError::Network("timed out".to_string()))
}

fn rejected() -> CycleOutcome {
    CycleOutcome::Rejected(RejectReason::PlaceholderFrame)
}

#[test]
fn counter_starts_at_zero() {
    let counter = CaptureCounter::new();
    assert_eq!(counter.value(), 0);
}

#[test]
fn counter_counts_only_accepted() {
    let mut counter = CaptureCounter::new();
    counter.record(&CycleOutcome::Accepted);
    counter.record(&rejected());
    counter.record(&CycleOutcome::Accepted);
    counter.record(&failed());
    counter.record(&CycleOutcome::Accepted);
    assert_eq!(counter.value(), 3);
}

#[test]
fn counter_adds_n_to_its_pre_run_value() {
    let mut counter = CaptureCounter::new();
    counter.record(&CycleOutcome::Accepted);
    counter.record(&CycleOutcome::Accepted);
    let pre_run = counter.value();
    let n: u64 = 4;
    counter.record(&rejected());
    for _ in 0..n {
        counter.record(&CycleOutcome::Accepted);
        counter.record(&failed());
    }
    counter.record(&rejected());
    assert_eq!(counter.value(), pre_run + n);
}

#[test]
fn rejected_frame_leaves_counter_unchanged() {
    let mut counter = CaptureCounter::new();
    counter.record(&rejected());
    assert_eq!(counter.value(), 0);
}

#[test]
fn scheduler_starts_idle_with_configured_interval() {
    let scheduler = Scheduler::new(900);
    assert!(scheduler.is_idle());
    assert_eq!(scheduler.interval_secs(), 900);
    assert_eq!(scheduler.snapshot_count(), 0);
}

#[test]
fn scheduler_counts_across_mixed_cycles() {
    let mut scheduler = Scheduler::new(60);
    let outcomes = vec![
        CycleOutcome::Accepted,
        failed(),
        rejected(),
        CycleOutcome::Accepted,
        failed(),
        CycleOutcome::Accepted,
    ];
    for outcome in &outcomes {
        assert!(scheduler.is_idle());
        scheduler.begin_cycle();
        assert!(!scheduler.is_idle());
        scheduler.complete_cycle(outcome);
        assert!(scheduler.is_idle());
    }
    assert_eq!(scheduler.snapshot_count(), 3);
    assert_eq!(scheduler.interval_secs(), 60);
}

#[test]
fn same_second_paths_coincide() {
    let first = snapshot_path("out", 1700000000);
    let second = snapshot_path("out", 1700000000);
    assert_eq!(first, second);
    let later = snapshot_path("out", 1700000001);
    assert_ne!(first, later);
}
