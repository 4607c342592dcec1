//! Durations, as `std::time::Duration`.

use vstd::prelude::*;
use std::time::Duration;

verus! {

/// The duration of `secs` whole seconds, as `Duration::from_secs` gives it.
pub uninterp spec fn secs_duration(secs: u64) -> Duration;

/// `Duration::from_secs`: a duration of `secs` whole seconds.
#[verifier::external_body]
pub(crate) fn duration_from_secs(secs: u64) -> (r: Duration)
    ensures
        r == secs_duration(secs),
{
    Duration::from_secs(secs)
}

/// The whole seconds of a duration, as `Duration::as_secs` gives them.
pub uninterp spec fn whole_secs(d: Duration) -> u64;

/// `Duration::as_secs`: the whole seconds of a duration; for a duration
/// made of whole seconds, those seconds.
#[verifier::external_body]
pub(crate) fn duration_as_secs(d: &Duration) -> (r: u64)
    ensures
        r == whole_secs(*d),
        forall|s: u64| #[trigger] secs_duration(s) == *d ==> r == s,
{
    d.as_secs()
}

/// `Duration` is `Copy`: a clone is the same duration.
pub assume_specification[ <Duration as Clone>::clone ](d: &Duration) -> (r: Duration)
    ensures
        r == *d,
;

} // verus!
