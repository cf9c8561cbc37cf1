//! Periodic snapshot collection for a single camera feed.
//!
//! The library holds the decision logic of the collector: validating the
//! startup configuration, choosing the frame source, detecting the
//! "preview unavailable" placeholder frame by its MD5 fingerprint,
//! building the timestamped snapshot path, assessing one acquisition
//! cycle, and keeping the running count of accepted snapshots.
//! The surrounding process performs the network, subprocess and
//! filesystem work and hands the results back as plain values.

pub mod clock;
pub mod config;
pub mod cycle;
pub mod errors;
pub mod fingerprint;
pub mod scheduler;
pub mod source;
pub mod text;
