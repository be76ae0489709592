//! Monotonic-clock readings for the pruner's soft deadline and its timing
//! events. A reading is opaque: nothing is promised of the values, which
//! depend on the machine's clock alone.

use vstd::prelude::*;

verus! {

#[verifier::external_type_specification]
#[verifier::external_body]
/// An opaque reading of the monotonic clock.
pub struct ExInstant(std::time::Instant);

/// Relies on `std::time::Instant::now`: a reading of the monotonic clock.
pub assume_specification[ std::time::Instant::now ]() -> std::time::Instant;

/// Relies on `std::time::Instant::elapsed`: the time since the reading was
/// taken; it never panics.
pub assume_specification[ std::time::Instant::elapsed ](
    earlier: &std::time::Instant,
) -> core::time::Duration;

/// Relies on `core::time::Duration::as_millis`: the span in whole
/// milliseconds.
pub assume_specification[ core::time::Duration::as_millis ](
    d: &core::time::Duration,
) -> u128;

/// Milliseconds elapsed since `start`, saturated to the `u64` range.
///
/// The value depends on the clock, so nothing is stated of it; callers treat
/// it as an arbitrary reading.
pub(crate) fn elapsed_millis(start: &std::time::Instant) -> u64 {
    let d = start.elapsed();
    let m = d.as_millis();
    if m > u64::MAX as u128 {
        u64::MAX
    } else {
        m as u64
    }
}

} // verus!
