//! One acquisition cycle: plan the fetch, assess what came back, and
//! conclude the outcome. The surrounding process performs the network,
//! subprocess and filesystem work between these steps; every failure it
//! reports is converted into a `Failed` outcome, never raised further.

use vstd::prelude::*;
use crate::errors::{CaptureError, RejectReason};
use crate::fingerprint::{fingerprint_hex, fingerprint_matches_sentinel, md5_hex_of,
    sentinel_fingerprint};
use crate::source::{extractor_args, extractor_program, snapshot_path, spec_snapshot_path,
    FrameSource};

verus! {

/// How one acquisition cycle ended.
#[derive(Debug, PartialEq, Eq)]
pub enum CycleOutcome {
    /// A frame was fetched and persisted.
    Accepted,
    /// A frame was fetched and deliberately skipped.
    Rejected(RejectReason),
    /// The fetch or the write failed; the next scheduled cycle retries.
    Failed(CaptureError),
}

/// The one outside action a cycle asks of its caller before any bytes
/// can be assessed.
#[derive(Debug, PartialEq, Eq)]
pub enum FetchPlan {
    /// Issue a blocking HTTP GET to this URL and hand back the body.
    HttpGet { url: String },
    /// Run the external extraction tool, which writes the frame to the
    /// output path itself, and hand back how it exited.
    RunExtractor { program: String, args: Vec<String>, output_path: String },
}

/// Plans the single fetch attempt of a cycle that starts at `now_unix`
/// seconds since the Unix epoch. An HTTP source is fetched as bytes; a
/// process source is handed to the extraction tool with the fixed
/// argument template and a timestamped output path.
pub fn plan_cycle(source: &FrameSource, folder: &str, now_unix: u64) -> (p: FetchPlan)
    ensures
        (source matches FrameSource::Http { url } ==> (p matches FetchPlan::HttpGet {
            url: plan_url } && plan_url@ == url@)),
        (source matches FrameSource::Process { stream_url } ==> (p matches
            FetchPlan::RunExtractor { program, args, output_path } && {
            &&& program@ == "ffmpeg"@
            &&& output_path@ == spec_snapshot_path(folder@, now_unix)
            &&& args@.len() == 8
            &&& args@[0]@ == "-y"@
            &&& args@[1]@ == "-rtsp_transport"@
            &&& args@[2]@ == "tcp"@
            &&& args@[3]@ == "-i"@
            &&& args@[4]@ == stream_url@
            &&& args@[5]@ == "-vframes"@
            &&& args@[6]@ == "1"@
            &&& args@[7]@ == spec_snapshot_path(folder@, now_unix)
        })),
{
    match source {
        FrameSource::Http { url } => FetchPlan::HttpGet { url: url.clone() },
        FrameSource::Process { stream_url } => {
            let output_path = snapshot_path(folder, now_unix);
            let args = extractor_args(stream_url.as_str(), output_path.as_str());
            FetchPlan::RunExtractor { program: extractor_program(), args, output_path }
        },
    }
}

/// What an HTTP cycle still has to do after its frame was assessed.
#[derive(Debug, PartialEq, Eq)]
pub enum HttpStep {
    /// Write these bytes to this path, then conclude with
    /// `conclude_write`.
    Persist { path: String, bytes: Vec<u8> },
    /// Nothing: the cycle is over.
    Done(CycleOutcome),
}

/// Assesses a fetched frame by its already-computed fingerprint. A
/// sentinel fingerprint rejects the frame without writing; any other
/// frame is persisted unchanged to the timestamped path.
pub fn assess_frame(fingerprint: &str, bytes: Vec<u8>, folder: &str, now_unix: u64) -> (step:
    HttpStep)
    ensures
        fingerprint@ == sentinel_fingerprint() ==> step == HttpStep::Done(
            CycleOutcome::Rejected(RejectReason::PlaceholderFrame),
        ),
        fingerprint@ != sentinel_fingerprint() ==> (step matches HttpStep::Persist {
            path, bytes: persisted } && path@ == spec_snapshot_path(folder@, now_unix)
            && persisted@ == bytes@),
{
    if fingerprint_matches_sentinel(fingerprint) {
        HttpStep::Done(CycleOutcome::Rejected(RejectReason::PlaceholderFrame))
    } else {
        HttpStep::Persist { path: snapshot_path(folder, now_unix), bytes }
    }
}

/// Assesses the result of the HTTP fetch of a cycle that started at
/// `now_unix`. A transport failure fails the cycle; the placeholder
/// frame is rejected; any other frame is persisted unchanged.
pub fn assess_http_fetch(result: Result<Vec<u8>, String>, folder: &str, now_unix: u64) -> (step:
    HttpStep)
    ensures
        (match result {
            Result::Err(m) => (step matches HttpStep::Done(o) && o matches
                CycleOutcome::Failed(e) && e matches CaptureError::Network(msg) && msg@
                == m@),
            Result::Ok(b) => if md5_hex_of(b@) == sentinel_fingerprint() {
                step == HttpStep::Done(CycleOutcome::Rejected(RejectReason::PlaceholderFrame))
            } else {
                (step matches HttpStep::Persist { path, bytes } && path@
                    == spec_snapshot_path(folder@, now_unix) && bytes@ == b@)
            },
        }),
{
    match result {
        Err(m) => HttpStep::Done(CycleOutcome::Failed(CaptureError::Network(m))),
        Ok(b) => {
            let fp = fingerprint_hex(&b);
            assess_frame(fp.as_str(), b, folder, now_unix)
        },
    }
}

/// Concludes an HTTP cycle from the result of the snapshot write: a
/// successful write is accepted, a failed one fails the cycle with the
/// filesystem's message.
pub fn conclude_write(result: Result<(), String>) -> (o: CycleOutcome)
    ensures
        result is Ok ==> o == CycleOutcome::Accepted,
        (result matches Err(m) ==> (o matches CycleOutcome::Failed(e) && e matches
            CaptureError::Io(msg) && msg@ == m@)),
{
    match result {
        Ok(_) => CycleOutcome::Accepted,
        Err(m) => CycleOutcome::Failed(CaptureError::Io(m)),
    }
}

/// Concludes a process cycle from how the extraction tool ran:
/// `Ok(true)` if it exited successfully (the tool already wrote the
/// frame), `Ok(false)` if it exited non-zero, `Err` with a message if
/// it could not be launched.
pub fn conclude_process(result: Result<bool, String>) -> (o: CycleOutcome)
    ensures
        result == Ok::<bool, String>(true) ==> o == CycleOutcome::Accepted,
        result == Ok::<bool, String>(false) ==> (o matches CycleOutcome::Failed(e)
            && e matches CaptureError::Process(msg) && msg@
            == "Failed to fetch snapshot from RTSP camera"@),
        (result matches Err(m) ==> (o matches CycleOutcome::Failed(e) && e matches
            CaptureError::Process(msg) && msg@ == m@)),
{
    match result {
        Ok(true) => CycleOutcome::Accepted,
        Ok(false) => CycleOutcome::Failed(
            CaptureError::Process("Failed to fetch snapshot from RTSP camera".to_owned()),
        ),
        Err(m) => CycleOutcome::Failed(CaptureError::Process(m)),
    }
}

} // verus!
