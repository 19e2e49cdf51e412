//! The monotonic clock that save throttling reads.
//!
//! Time is counted in whole nanoseconds since an instant that is fixed once,
//! when a manager is made. Nothing is known in advance of what the clock
//! reads, so none of the declarations here promises anything of its result;
//! the rules that use a reading are proved for every value of it.

use std::time::{Duration, Instant};
use vstd::prelude::*;

verus! {

/// `std::time::Instant`: a reading of the monotonic clock, carried as an
/// opaque value.
#[verifier::external_type_specification]
#[verifier::external_body]
pub struct ExInstant(Instant);

/// `Instant::now` reads the clock. The reading depends on the moment of the
/// call, so nothing is claimed of it.
pub assume_specification[ Instant::now ]() -> (now: Instant);

/// `Instant::saturating_duration_since` gives the time from `earlier` to
/// `later`, or zero where `earlier` is the later of the two. It never panics.
/// Nothing is claimed of the duration.
pub assume_specification[ Instant::saturating_duration_since ](
    later: &Instant,
    earlier: Instant,
) -> (elapsed: Duration);

/// `Duration::as_nanos` gives the duration in whole nanoseconds. A duration
/// is opaque here, so nothing is claimed of the number.
pub assume_specification[ Duration::as_nanos ](duration: &Duration) -> (nanos: u128);

/// Nanoseconds that have passed on the monotonic clock since `origin`. The
/// number is what the clock reads at the moment of the call: nothing holds of
/// it in advance, and what is decided on it is proved for every value.
pub(crate) fn nanos_since(origin: Instant) -> (nanos: u128) {
    let now = Instant::now();
    let elapsed = now.saturating_duration_since(origin);
    elapsed.as_nanos()
}

} // verus!
