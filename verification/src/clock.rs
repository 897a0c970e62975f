//! Time spans of the standard library.

use std::time::Duration;
use vstd::prelude::*;

verus! {

/// The `Duration` that `Duration::from_millis` makes of a number of milliseconds.
pub uninterp spec fn duration_of_millis(millis: u64) -> Duration;

/// Calls `Duration::from_millis`, which makes a time span of a whole number
/// of milliseconds. The contract gives that span the name
/// `duration_of_millis(millis)`; nothing else is claimed of it.
#[verifier::external_body]
pub(crate) fn duration_from_millis(millis: u64) -> (span: Duration)
    ensures
        span == duration_of_millis(millis),
{
    Duration::from_millis(millis)
}

} // verus!
