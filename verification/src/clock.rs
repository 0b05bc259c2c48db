//! Wall-clock time in milliseconds since the Unix epoch, as the cache stamps it.
use vstd::prelude::*;
use std::time::{Duration, SystemTime, SystemTimeError};

verus! {

#[verifier::external_type_specification]
#[verifier::external_body]
pub struct ExSystemTime(SystemTime);

#[verifier::external_type_specification]
#[verifier::external_body]
pub struct ExSystemTimeError(SystemTimeError);

/// Calls `SystemTime::now`. Nothing is claimed of the time it reads.
#[verifier::external_body]
fn system_now() -> SystemTime {
    SystemTime::now()
}

/// Calls `SystemTime::duration_since` with the Unix epoch. Nothing is claimed: the time
/// value is opaque here, and the call fails when the clock reads before the epoch.
#[verifier::external_body]
fn since_unix_epoch(t: &SystemTime) -> Result<Duration, SystemTimeError> {
    t.duration_since(std::time::UNIX_EPOCH)
}

/// Calls `Duration::as_millis`. Nothing is claimed: the duration is opaque here.
#[verifier::external_body]
fn whole_millis(d: &Duration) -> u128 {
    d.as_millis()
}

/// The millisecond stamp for a reading of the clock: the elapsed milliseconds since the
/// epoch truncated to 64 bits, or 0 when the clock reads before the epoch.
pub open spec fn stamp_for(elapsed_ms: Option<u128>) -> u64 {
    match elapsed_ms {
        Some(ms) => (ms % 0x1_0000_0000_0000_0000) as u64,
        None => 0,
    }
}

/// Turns the elapsed milliseconds since the epoch (none when the clock reads before the
/// epoch) into the cache's stamp.
pub fn epoch_millis(elapsed_ms: Option<u128>) -> (stamp: u64)
    ensures
        stamp == stamp_for(elapsed_ms),
{
    match elapsed_ms {
        Some(ms) => {
            let stamp: u64 = ms as u64;
            assert(stamp == ms % 0x1_0000_0000_0000_0000) by (bit_vector)
                requires
                    stamp == ms as u64,
            ;
            stamp
        },
        None => 0,
    }
}

/// The current time in milliseconds since the Unix epoch (0 if the clock reads before the
/// epoch). Nothing is promised about the value: it is whatever the clock says.
pub fn now_millis() -> u64 {
    let now = system_now();
    match since_unix_epoch(&now) {
        Ok(elapsed) => epoch_millis(Some(whole_millis(&elapsed))),
        Err(_) => epoch_millis(None),
    }
}

} // verus!
