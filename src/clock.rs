//! Wall-clock time for persisted timestamps.

use std::time::{Duration, SystemTime};
use vstd::prelude::*;

verus! {

#[verifier::external_type_specification]
#[verifier::external_body]
pub struct ExSystemTime(SystemTime);

/// Relies on `SystemTime::now`: a reading of the wall clock.
pub assume_specification[ SystemTime::now ]() -> SystemTime;

/// Relies on `Duration::as_secs`: the whole seconds of a span.
pub assume_specification[ Duration::as_secs ](d: &Duration) -> u64;

/// Relies on `SystemTime::duration_since`: the span from the unix epoch to
/// `t`, or `None` for a reading before the epoch.
#[verifier::external_body]
fn since_unix_epoch(t: &SystemTime) -> Option<Duration> {
    t.duration_since(std::time::UNIX_EPOCH).ok()
}

/// The current unix time in whole seconds. A wall clock set before the
/// epoch reads as the epoch itself.
pub fn unixtime_now() -> u64 {
    let now = SystemTime::now();
    match since_unix_epoch(&now) {
        Some(d) => d.as_secs(),
        None => 0,
    }
}

} // verus!
