//! The wall clock, read at the edge of the runtime.
use vstd::prelude::*;

verus! {

/// Reads the wall clock: milliseconds since the Unix epoch, 0 when the
/// clock is set before the epoch. Nothing is promised of the value.
#[verifier::external_body]
pub(crate) fn unix_time_ms() -> u64 {
    std::time::SystemTime::now()
        .duration_since(std::time::UNIX_EPOCH)
        .unwrap_or_default()
        .as_millis() as u64
}

} // verus!
