use vstd::prelude::*;

verus! {

/// A reading of the monotonic clock, used as the origin of a controller's
/// millisecond timeline.
#[verifier::external_type_specification]
#[verifier::external_body]
pub struct ExInstant(std::time::Instant);

/// Relies on `Instant::now`: a reading of the monotonic clock. Nothing is
/// known of the value.
pub assume_specification[ std::time::Instant::now ]() -> std::time::Instant;

/// Relies on `Instant::elapsed`: the time passed since the reading. It
/// depends on when it is called, so nothing is known of the value.
pub assume_specification[ std::time::Instant::elapsed ](i: &std::time::Instant) -> core::time::Duration;

/// Relies on `Duration::as_millis`: the whole milliseconds of a duration.
/// `Duration` is opaque here, so nothing is known of the value.
pub assume_specification[ core::time::Duration::as_millis ](d: &core::time::Duration) -> u128;

/// Whole milliseconds passed since `origin`, saturated at `u64::MAX`.
pub fn millis_since(origin: &std::time::Instant) -> u64 {
    let ms: u128 = origin.elapsed().as_millis();
    if ms > u64::MAX as u128 {
        u64::MAX
    } else {
        ms as u64
    }
}

} // verus!
