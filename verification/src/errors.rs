//! The error taxonomy of the collector.

use vstd::prelude::*;

verus! {

/// A malformed or missing startup configuration value. Fatal: the caller
/// aborts before the acquisition loop starts, and never retries.
#[derive(Debug, Clone, Copy, PartialEq, Eq, Structural)]
pub enum ConfigError {
    /// FEED_URL was not provided.
    MissingFeedUrl,
    /// OUTPUT_FOLDER was not provided.
    MissingOutputFolder,
    /// CAMERA_TYPE was not provided.
    MissingCameraType,
    /// CAMERA_TYPE was neither `"RTSP"` nor `"HTTP"`.
    InvalidCameraType,
    /// SLEEP_SECS was not a decimal number that fits in a `u64`.
    InvalidSleepSecs,
}

/// A failure of one acquisition cycle. Recovered by skipping to the next
/// scheduled cycle; never fatal.
#[derive(Debug, PartialEq, Eq)]
pub enum CaptureError {
    /// Transport-level failure fetching an HTTP frame; carries the
    /// transport layer's message.
    Network(String),
    /// The external extraction tool failed or could not be launched.
    Process(String),
    /// The snapshot file could not be written.
    Io(String),
}

/// Why a fetched frame was skipped without being persisted. A recognized
/// condition, not an error.
#[derive(Debug, Clone, Copy, PartialEq, Eq, Structural)]
pub enum RejectReason {
    /// The frame was the known "preview unavailable" placeholder image.
    PlaceholderFrame,
}

} // verus!
