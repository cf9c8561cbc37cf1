//! The wall clock, read once at the start of each cycle.

use vstd::prelude::*;

verus! {

/// Relies on chrono::Utc::now paired with chrono::DateTime::timestamp:
/// the current time as whole seconds since the Unix epoch. The result
/// depends on the clock, so nothing is promised of it.
#[verifier::external_body]
fn unix_now() -> i64 {
    chrono::Utc::now().timestamp()
}

/// Clamps a signed epoch timestamp at zero; times before the epoch are
/// reported as the epoch itself.
pub fn clamp_epoch_seconds(t: i64) -> (r: u64)
    ensures
        t >= 0 ==> r == t,
        t < 0 ==> r == 0,
{
    if t >= 0 {
        t as u64
    } else {
        0
    }
}

/// The current time as whole seconds since the Unix epoch, clamped at
/// zero. The value depends on the clock; every caller works for any
/// value of it.
pub fn current_unix_seconds() -> (r: u64) {
    let t = unix_now();
    clamp_epoch_seconds(t)
}

} // verus!
