use timelapse::config::CameraType;
use timelapse::cycle::{assess_frame, assess_http_fetch, conclude_process, conclude_write,
    plan_cycle, CycleOutcome, FetchPlan, HttpStep};
use timelapse::errors::{CaptureError, RejectReason};
use timelapse::source::{make_source, snapshot_path, FrameSource};
use timelapse::text::u64_to_decimal;

const SENTINEL: &str = "64a9507f752d598345378763b25bdcaf";

#[test]
fn snapshot_path_format() {
    assert_eq!(snapshot_path("frames", 1700000000).as_str(), "frames/1700000000.jpg");
}

#[test]
fn snapshot_path_zero() {
    assert_eq!(snapshot_path("out", 0).as_str(), "out/0.jpg");
}

#[test]
fn decimal_rendering() {
    assert_eq!(u64_to_decimal(0).as_str(), "0");
    assert_eq!(u64_to_decimal(907).as_str(), "907");
    assert_eq!(u64_to_decimal(u64::MAX).as_str(), "18446744073709551615");
}

#[test]
fn http_source_plans_a_get() {
    let source = make_source(CameraType::Http, "http://cam.example/frame.jpg".to_string());
    assert!(matches!(source, FrameSource::Http { .. }));
    let plan = plan_cycle(&source, "out", 5);
    assert_eq!(plan, FetchPlan::HttpGet { url: "http://cam.example/frame.jpg".to_string() });
}

#[test]
fn rtsp_source_plans_the_extraction_tool() {
    let source = make_source(CameraType::Rtsp, "rtsp://cam.example/stream".to_string());
    assert!(matches!(source, FrameSource::Process { .. }));
    let plan = plan_cycle(&source, "out", 1234);
    match plan {
        FetchPlan::RunExtractor { program, args, output_path } => {
            assert_eq!(program, "ffmpeg");
            assert_eq!(output_path, "out/1234.jpg");
            let expected: Vec<String> = vec![
                "-y".to_string(),
                "-rtsp_transport".to_string(),
                "tcp".to_string(),
                "-i".to_string(),
                "rtsp://cam.example/stream".to_string(),
                "-vframes".to_string(),
                "1".to_string(),
                "out/1234.jpg".to_string(),
            ];
            assert_eq!(args, expected);
        },
        FetchPlan::HttpGet { .. } => panic!("expected the extraction tool to be planned"),
    }
}

#[test]
fn transport_failure_becomes_failed_outcome() {
    let step = assess_http_fetch(Err("connection refused".to_string()), "out", 1);
    assert_eq!(
        step,
        HttpStep::Done(CycleOutcome::Failed(CaptureError::Network(
            "connection refused".to_string()
        )))
    );
}

#[test]
fn fresh_frame_is_persisted_unchanged() {
    let frame: Vec<u8> = vec![1, 2, 3, 255, 0];
    let step = assess_http_fetch(Ok(frame.clone()), "shots", 42);
    match step {
        HttpStep::Persist { path, bytes } => {
            assert_eq!(path, "shots/42.jpg");
            assert_eq!(bytes, frame);
        },
        HttpStep::Done(o) => panic!("expected a persist step, got {:?}", o),
    }
}

#[test]
fn sentinel_fingerprint_is_rejected_without_write() {
    let step = assess_frame(SENTINEL, vec![9, 9, 9], "shots", 7);
    assert_eq!(
        step,
        HttpStep::Done(CycleOutcome::Rejected(RejectReason::PlaceholderFrame))
    );
}

#[test]
fn other_fingerprint_is_persisted() {
    let step = assess_frame("d41d8cd98f00b204e9800998ecf8427e", vec![9, 9, 9], "shots", 7);
    match step {
        HttpStep::Persist { path, bytes } => {
            assert_eq!(path, "shots/7.jpg");
            assert_eq!(bytes, vec![9, 9, 9]);
        },
        HttpStep::Done(o) => panic!("expected a persist step, got {:?}", o),
    }
}

#[test]
fn successful_write_is_accepted() {
    assert_eq!(conclude_write(Ok(())), CycleOutcome::Accepted);
}

#[test]
fn failed_write_is_failed_outcome() {
    assert_eq!(
        conclude_write(Err("disk full".to_string())),
        CycleOutcome::Failed(CaptureError::Io("disk full".to_string()))
    );
}

#[test]
fn clean_tool_exit_is_accepted() {
    assert_eq!(conclude_process(Ok(true)), CycleOutcome::Accepted);
}

#[test]
fn nonzero_tool_exit_is_failed_outcome() {
    assert_eq!(
        conclude_process(Ok(false)),
        CycleOutcome::Failed(CaptureError::Process(
            "Failed to fetch snapshot from RTSP camera".to_string()
        ))
    );
}

#[test]
fn unlaunchable_tool_is_failed_outcome() {
    assert_eq!(
        conclude_process(Err("no such program".to_string())),
        CycleOutcome::Failed(CaptureError::Process("no such program".to_string()))
    );
}
