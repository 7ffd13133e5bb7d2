use core::time::Duration;
use vstd::prelude::*;

verus! {

/// The whole milliseconds that a `Duration` spans, as `Duration::as_millis` returns them.
pub uninterp spec fn duration_millis(d: Duration) -> u128;

/// Calls `Duration::as_millis`. Trusted: the result is the duration's whole
/// milliseconds, named by `duration_millis`.
#[verifier::external_body]
pub(crate) fn as_millis(d: &Duration) -> (ms: u128)
    ensures
        ms == duration_millis(*d),
{
    d.as_millis()
}

/// Calls `Duration::from_millis`. Trusted: the duration built from `ms`
/// milliseconds spans `ms` whole milliseconds (its `as_millis` gives `ms` back).
#[verifier::external_body]
pub(crate) fn from_millis(ms: u64) -> (d: Duration)
    ensures
        duration_millis(d) == ms as u128,
{
    Duration::from_millis(ms)
}

} // verus!
