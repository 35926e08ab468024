use std::time::{Duration, Instant};
use vstd::prelude::*;

verus! {

/// `std::time::Instant`: a reading of the monotonic clock, carried through opaque.
#[verifier::external_type_specification]
#[verifier::external_body]
pub struct ExInstant(Instant);

/// `Instant::now` reads the clock. What it returns depends on the time of the
/// call, so nothing is stated of it.
pub assume_specification[ Instant::now ]() -> (r: Instant);

/// Holds of a span that the clock measured from the reading `start`: a value
/// that `Instant::elapsed` returned on `start`. Which span that is depends on
/// the time of the call; the name says only which reading it was measured from.
pub uninterp spec fn measured_from(span: Duration, start: Instant) -> bool;

/// `Instant::elapsed` is the time since the reading it is called on. How long
/// that is depends on the time of the call, so only the reading it was
/// measured from is stated.
pub assume_specification[ Instant::elapsed ](this: &Instant) -> (r: Duration)
    ensures
        measured_from(r, *this),
;

/// The number of whole milliseconds in a span of time.
pub uninterp spec fn whole_millis(span: Duration) -> u128;

/// `Duration::as_millis` is the number of whole milliseconds in a span: a
/// function of the span alone, named `whole_millis`. The span is opaque here,
/// so nothing more is stated.
pub assume_specification[ Duration::as_millis ](this: &Duration) -> (r: u128)
    ensures
        r == whole_millis(*this),
;

/// `millis` whole milliseconds were measured on the clock from the reading `start`.
pub open spec fn millis_since(start: Instant, millis: u128) -> bool {
    exists|span: Duration| #![trigger measured_from(span, start)]
        measured_from(span, start) && whole_millis(span) == millis
}

/// The whole milliseconds that passed since the reading `start`, read from the clock.
pub fn millis_elapsed_since(start: &Instant) -> (r: u128)
    ensures
        millis_since(*start, r),
{
    let span = start.elapsed();
    span.as_millis()
}

} // verus!
