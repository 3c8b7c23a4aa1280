//! The monotonic clock of the standard library.

use vstd::prelude::*;

verus! {

/// A point in time of the standard library's monotonic clock.
#[verifier::external_type_specification]
#[verifier::external_body]
pub struct ExInstant(std::time::Instant);

/// `Instant::now` of the standard library reads the clock; nothing is known
/// of what it returns.
pub assume_specification[ std::time::Instant::now ]() -> (r: std::time::Instant)
;

/// `Instant::elapsed` of the standard library gives the time that has passed
/// since the instant; nothing is known of how much that is.
pub assume_specification[ std::time::Instant::elapsed ](start: &std::time::Instant) -> (r:
    core::time::Duration)
;

/// The earlier of two instants, by the minimum that the standard library
/// takes of two ordered values: it is one of the two.
#[verifier::external_body]
pub(crate) fn earlier(a: std::time::Instant, b: std::time::Instant) -> (r: std::time::Instant)
    ensures
        r == a || r == b,
{
    a.min(b)
}

} // verus!
