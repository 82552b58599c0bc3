//! The time of day, in whole seconds since the Unix epoch.

use vstd::prelude::*;
use std::time::{Duration, SystemTime, SystemTimeError, UNIX_EPOCH};

verus! {

/// Trusted: declares `std::time::SystemTime`, so that a value of it can be
/// handed on. Nothing is known of what it holds.
#[verifier::external_type_specification]
#[verifier::external_body]
pub struct ExSystemTime(SystemTime);

/// Trusted: declares `std::time::SystemTimeError`, the error of a time
/// that lies before the one it is measured from. Nothing is known of what
/// it holds.
#[verifier::external_type_specification]
#[verifier::external_body]
pub struct ExSystemTimeError(SystemTimeError);

/// Trusted: calls `SystemTime::now`. What the clock shows is not known
/// beforehand, so nothing is claimed of the result.
#[verifier::external_body]
fn system_now() -> SystemTime {
    SystemTime::now()
}

/// Trusted: calls `SystemTime::duration_since` with the Unix epoch. It
/// fails for a time before the epoch; nothing more is claimed.
#[verifier::external_body]
fn since_unix_epoch(time: &SystemTime) -> Result<Duration, SystemTimeError> {
    time.duration_since(UNIX_EPOCH)
}

/// Trusted: calls `Duration::as_secs`, the whole seconds of a duration.
/// Nothing is claimed of the result.
#[verifier::external_body]
fn whole_seconds(duration: &Duration) -> u64 {
    duration.as_secs()
}

/// The seconds that have passed since the Unix epoch, by the system's
/// clock: what [`epoch_seconds`] makes of what the clock shows.
pub fn now_epoch() -> u64 {
    let now = system_now();
    let elapsed = match since_unix_epoch(&now) {
        Ok(elapsed) => Some(whole_seconds(&elapsed)),
        Err(_) => None,
    };
    epoch_seconds(elapsed)
}

/// The seconds to report for what the clock shows: the whole seconds that
/// have passed since the Unix epoch, or zero where the clock shows a time
/// before the epoch and nothing has passed since.
pub open spec fn seconds_reported(elapsed: Option<u64>) -> u64 {
    match elapsed {
        Some(seconds) => seconds,
        None => 0,
    }
}

/// The seconds to report for what the clock shows. `elapsed` holds the
/// whole seconds since the Unix epoch, and is `None` where the clock shows
/// a time before the epoch.
pub fn epoch_seconds(elapsed: Option<u64>) -> (seconds: u64)
    ensures
        seconds == seconds_reported(elapsed),
{
    match elapsed {
        Some(seconds) => seconds,
        None => 0,
    }
}

} // verus!
