use vstd::prelude::*;

use crate::span::Span;
use std::time::{Duration, Instant};

verus! {

/// A reading of the monotonic clock, carried through the clock's state; nothing here looks inside.
#[verifier::external_type_specification]
#[verifier::external_body]
pub struct ExInstant(Instant);

/// Relies on `Instant::now`: a reading of the monotonic clock. Nothing is known of its value.
pub assume_specification[ Instant::now ]() -> Instant;

/// Relies on `Instant::elapsed`: the time since a reading. It depends on when it is asked, and
/// it saturates to zero rather than panicking.
pub assume_specification[ Instant::elapsed ](start: &Instant) -> Duration;

/// Relies on `Duration::as_secs`: the whole seconds of a duration.
pub assume_specification[ Duration::as_secs ](d: &Duration) -> u64;

/// Relies on `Duration::subsec_nanos`: the nanoseconds beyond the whole seconds, always less than
/// one billion.
pub assume_specification[ Duration::subsec_nanos ](d: &Duration) -> (r: u32)
    ensures
        r < 1_000_000_000,
;

/// Relies on `Instant`'s `==`: whether two readings are the same.
pub assume_specification[ <Instant as PartialEq>::eq ](a: &Instant, b: &Instant) -> bool;

/// The time that has passed since the reading `start`.
pub(crate) fn time_since(start: &Instant) -> Span {
    let d: Duration = start.elapsed();
    Span::new(d.as_secs(), d.subsec_nanos())
}

} // verus!
