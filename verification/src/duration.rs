//! What the library knows of `std::time::Duration`: its length in nanoseconds.
use std::time::Duration;
use vstd::prelude::*;

verus! {

/// The length of a `Duration` in nanoseconds, as `Duration::as_nanos` returns it.
pub uninterp spec fn duration_as_nanos(d: Duration) -> u128;

/// The length in nanoseconds of the longest `Duration` (`Duration::MAX`):
/// `u64::MAX` whole seconds and 999,999,999 nanoseconds.
pub open spec fn max_duration_nanos() -> int {
    u64::MAX * 1_000_000_000 + 999_999_999
}

/// `Duration::as_nanos`: the total number of nanoseconds that `d` spans.
/// A `Duration` holds its whole seconds in a `u64` and the rest in fewer
/// than 1,000,000,000 nanoseconds, so the result is at most `Duration::MAX`.
#[verifier::external_body]
pub(crate) fn as_nanos(d: &Duration) -> (n: u128)
    ensures
        n == duration_as_nanos(*d),
        n <= max_duration_nanos(),
{
    d.as_nanos()
}

/// `Duration::new`: the duration of `secs` whole seconds and `nanos`
/// nanoseconds. With `nanos` below one second no carry happens, so the call
/// cannot panic, and the result spans exactly `secs * 10^9 + nanos` nanoseconds.
#[verifier::external_body]
pub(crate) fn new_duration(secs: u64, nanos: u32) -> (d: Duration)
    requires
        nanos < 1_000_000_000,
    ensures
        duration_as_nanos(d) == secs * 1_000_000_000 + nanos,
{
    Duration::new(secs, nanos)
}

} // verus!
