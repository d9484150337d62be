//! The time of day.
use vstd::prelude::*;

verus! {

/// A point in time of the system's clock.
#[verifier::external_type_specification]
#[verifier::external_body]
pub struct ExSystemTime(std::time::SystemTime);

/// The error for a point in time that lies before another.
#[verifier::external_type_specification]
#[verifier::external_body]
pub struct ExSystemTimeError(std::time::SystemTimeError);

/// `SystemTime::now`: what the system's clock says, of which nothing is known.
#[verifier::external_body]
fn clock_now() -> std::time::SystemTime {
    std::time::SystemTime::now()
}

/// `SystemTime::duration_since` the start of 1970, which fails for times before it. Nothing is
/// known of the times themselves.
#[verifier::external_body]
fn since_epoch(time: std::time::SystemTime) -> (elapsed: Result<
    std::time::Duration,
    std::time::SystemTimeError,
>) {
    time.duration_since(std::time::UNIX_EPOCH)
}

/// `Duration::as_secs`: the whole seconds of a duration, of which nothing is known.
#[verifier::external_body]
fn whole_seconds(elapsed: std::time::Duration) -> u64 {
    elapsed.as_secs()
}

/// The timestamp for the seconds that have passed since the start of 1970: zero where the clock
/// is set to an earlier time.
pub fn timestamp_of(elapsed_secs: Option<u64>) -> (timestamp: u64)
    ensures
        timestamp == (match elapsed_secs {
            Some(seconds) => seconds,
            None => 0,
        }),
{
    elapsed_secs.unwrap_or(0)
}

/// The seconds since the start of 1970, by the system's clock.
pub fn unix_timestamp() -> u64 {
    match since_epoch(clock_now()) {
        Ok(elapsed) => timestamp_of(Some(whole_seconds(elapsed))),
        Err(_) => timestamp_of(None),
    }
}

} // verus!
