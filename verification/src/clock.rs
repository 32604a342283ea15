//! The monotonic clock by which requests are timed.
//!
//! Nothing in this file is proved, and nothing is claimed of what the clock
//! shows.

use vstd::prelude::*;

verus! {

/// `std::time::Instant`, a reading of the monotonic clock. Opaque.
#[verifier::external_type_specification]
#[verifier::external_body]
pub struct ExInstant(std::time::Instant);

/// Calls `std::time::Instant::now`.
#[verifier::external_body]
pub(crate) fn now() -> (start: std::time::Instant) {
    std::time::Instant::now()
}

/// Calls `std::time::Instant::elapsed`: the time gone by since `start`.
#[verifier::external_body]
pub(crate) fn elapsed(start: &std::time::Instant) -> (gone: std::time::Duration) {
    start.elapsed()
}

/// Calls `std::time::Duration::as_millis`: the whole milliseconds in `span`.
#[verifier::external_body]
pub(crate) fn whole_millis(span: &std::time::Duration) -> (millis: u128) {
    span.as_millis()
}

} // verus!
