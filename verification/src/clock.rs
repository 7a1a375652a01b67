//! The monotonic clock.

use vstd::prelude::*;
use std::time::{Duration, Instant};
use crate::span::Span;

verus! {

/// std's `Instant`: a reading of the monotonic clock. Opaque here.
#[verifier::external_type_specification]
#[verifier::external_body]
pub struct ExInstant(Instant);

/// Reads the clock: a call of std's `Instant::now`. Nothing is claimed of
/// the reading.
#[verifier::external_body]
pub(crate) fn now() -> Instant {
    Instant::now()
}

/// The time that has passed since `start`: a call of std's
/// `Instant::elapsed`. Nothing is claimed of the length.
#[verifier::external_body]
fn elapsed(start: &Instant) -> Duration {
    start.elapsed()
}

/// The whole seconds of a `Duration`: a call of std's `Duration::as_secs`.
/// Nothing is claimed of the number.
#[verifier::external_body]
fn whole_secs(duration: &Duration) -> u64 {
    duration.as_secs()
}

/// The nanoseconds of a `Duration` beyond its whole seconds: a call of std's
/// `Duration::subsec_nanos`. std documents the number to be a fraction of a
/// second, less than one billion; that much is claimed and no more.
#[verifier::external_body]
fn subsec_nanos(duration: &Duration) -> (nanos: u32)
    ensures
        nanos < 1_000_000_000,
{
    duration.subsec_nanos()
}

/// The time that has passed since `start`, by the clock: whatever it says,
/// in whole seconds and the nanoseconds beyond them.
pub(crate) fn since(start: &Instant) -> Span {
    let duration = elapsed(start);
    let secs: u64 = whole_secs(&duration);
    let nanos: u32 = subsec_nanos(&duration);
    Span::new(secs, nanos).unwrap()
}

} // verus!
