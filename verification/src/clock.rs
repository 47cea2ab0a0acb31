//! The clock that latency is read from.

use vstd::prelude::*;

verus! {

/// `std::time::Instant`, a reading of the monotonic clock. Opaque to the verifier.
#[verifier::external_type_specification]
#[verifier::external_body]
pub struct ExInstant(std::time::Instant);

/// `Instant::now`: the clock's reading at the moment of the call. Nothing is claimed of it.
pub assume_specification[ std::time::Instant::now ]() -> (reading: std::time::Instant)
;

/// `Instant::elapsed`: the time since the reading was taken. Nothing is claimed of it.
pub assume_specification[ std::time::Instant::elapsed ](start: &std::time::Instant) -> (spent:
    std::time::Duration)
;

/// What `Duration::as_micros` returns for a duration: the whole microseconds it holds.
pub uninterp spec fn whole_micros(spent: std::time::Duration) -> u128;

/// `Duration::as_micros`: the whole microseconds of a duration, which depend on the
/// duration alone; they are the ones `whole_micros` names.
pub assume_specification[ std::time::Duration::as_micros ](spent: &std::time::Duration) -> (micros:
    u128)
    ensures
        micros == whole_micros(*spent),
;

} // verus!
