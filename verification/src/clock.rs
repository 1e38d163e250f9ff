//! The crate's only view of wall-clock time: opaque monotonic instants and
//! epoch seconds, behind trusted wrappers.  Nothing is assumed about the
//! values they return; callers state what holds for every outcome.

use vstd::prelude::*;

verus! {

/// Declares std::time::Instant so that collectors and timers can hold an
/// opaque start timestamp.
#[verifier::external_type_specification]
#[verifier::external_body]
pub struct ExInstant(std::time::Instant);

/// Relies on std::time::Instant::now: an opaque timestamp for later
/// elapsed-time measurements.
#[verifier::external_body]
pub fn instant_now() -> std::time::Instant {
    std::time::Instant::now()
}

/// Relies on std::time::Instant::elapsed: the whole milliseconds since
/// `start` was taken.  The value depends on the clock, so no contract is
/// stated about it.
#[verifier::external_body]
pub fn elapsed_millis(start: &std::time::Instant) -> u64 {
    start.elapsed().as_millis() as u64
}

/// Relies on std::time::SystemTime::now and duration_since: the whole
/// seconds since the Unix epoch, or 0 if the system clock is set before it.
/// The value depends on the clock, so no contract is stated about it.
#[verifier::external_body]
pub fn now_unix_seconds() -> u64 {
    std::time::SystemTime::now()
        .duration_since(std::time::UNIX_EPOCH)
        .unwrap_or_default()
        .as_secs()
}

} // verus!
