//! The time of day, in milliseconds.

use std::time::{Duration, SystemTime, UNIX_EPOCH};
use vstd::prelude::*;

verus! {

/// `std::time::SystemTime`, carried from the clock to where it is measured.
#[verifier::external_type_specification]
#[verifier::external_body]
pub struct ExSystemTime(std::time::SystemTime);

/// How many nanoseconds after the Unix epoch an instant is; negative before it.
pub uninterp spec fn epoch_nanos(instant: std::time::SystemTime) -> int;

/// How many nanoseconds a duration takes.
pub uninterp spec fn duration_nanos(duration: std::time::Duration) -> nat;

/// `SystemTime::now`: what the system's clock says.
pub assume_specification[ SystemTime::now ]() -> SystemTime;

/// `SystemTime::duration_since` the Unix epoch: how long after it the instant is, none where
/// the instant is before it.
#[verifier::external_body]
fn since_epoch(instant: &SystemTime) -> (elapsed: Option<Duration>)
    ensures
        match elapsed {
            Some(elapsed) => duration_nanos(elapsed) == epoch_nanos(*instant),
            None => epoch_nanos(*instant) < 0,
        },
{
    instant.duration_since(UNIX_EPOCH).ok()
}

/// `Duration::as_millis`: the whole milliseconds in a duration.
pub assume_specification[ Duration::as_millis ](duration: &Duration) -> (millis: u128)
    ensures
        millis == duration_nanos(*duration) / 1_000_000,
;

/// An instant in milliseconds: whole ones since the epoch, zero before it, and the largest
/// number where they do not fit.
pub open spec fn millis_at(nanos: int) -> u64 {
    if nanos < 0 {
        0
    } else if nanos / 1_000_000 <= u64::MAX {
        (nanos / 1_000_000) as u64
    } else {
        u64::MAX
    }
}

/// An instant in milliseconds since the Unix epoch.
pub fn unix_ms(instant: &SystemTime) -> (millis: u64)
    ensures
        millis == millis_at(epoch_nanos(*instant)),
{
    match since_epoch(instant) {
        Some(elapsed) => {
            let millis: u128 = elapsed.as_millis();
            if millis <= u64::MAX as u128 {
                millis as u64
            } else {
                u64::MAX
            }
        },
        None => 0,
    }
}

/// Milliseconds since the Unix epoch, by the system's clock: `unix_ms` of what it says.
pub fn now_ms() -> (millis: u64)
    ensures
        exists|instant: SystemTime| #[trigger]
            call_ensures(SystemTime::now, (), instant) && millis == millis_at(epoch_nanos(instant)),
{
    unix_ms(&SystemTime::now())
}

} // verus!
