//! The clock: when a notification was raised and how long ago that was.
use std::time::Instant;

use vstd::prelude::*;

verus! {

/// A point in time of `std`'s monotonic clock; carried through, never looked
/// into.
#[verifier::external_type_specification]
#[verifier::external_body]
pub struct ExInstant(std::time::Instant);

/// `Instant::now`: the present moment. Nothing is claimed of it.
pub assume_specification[ Instant::now ]() -> (r: Instant);

/// `Instant::elapsed`, in whole seconds. Nothing is claimed of the result,
/// which depends on when the call is made.
#[verifier::external_body]
pub(crate) fn elapsed_secs(since: &Instant) -> (r: u64) {
    since.elapsed().as_secs()
}

} // verus!
