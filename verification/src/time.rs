//! [`Duration`] as a whole number of nanoseconds, and back.

use std::time::Duration;
use vstd::prelude::*;

verus! {

/// Nanoseconds in one second.
pub const NANOS_PER_SEC: u128 = 1_000_000_000;

/// Nanoseconds in [`Duration::MAX`]: `u64::MAX` seconds and 999,999,999 nanoseconds.
pub const MAX_DURATION_NANOS: u128 = 18_446_744_073_709_551_615_999_999_999;

/// The length of a [`Duration`] in nanoseconds, as `Duration::as_nanos` returns it.
pub uninterp spec fn nanos_of(duration: Duration) -> nat;

/// `Duration::as_nanos`: the total number of nanoseconds contained by the
/// duration. No duration is longer than `Duration::MAX`.
#[verifier::external_body]
pub(crate) fn nanos(duration: Duration) -> (nanos: u128)
    ensures
        nanos == nanos_of(duration),
        nanos <= MAX_DURATION_NANOS,
{
    duration.as_nanos()
}

/// `Duration::new`: a duration of `secs` whole seconds and `nanos` more
/// nanoseconds. With less than a second of nanoseconds nothing carries, so the
/// call cannot panic.
#[verifier::external_body]
fn from_secs_and_nanos(secs: u64, nanos: u32) -> (duration: Duration)
    requires
        nanos < NANOS_PER_SEC,
    ensures
        nanos_of(duration) == secs * NANOS_PER_SEC + nanos,
{
    Duration::new(secs, nanos)
}

/// The duration of `nanos` nanoseconds, capped at `Duration::MAX`.
pub fn saturating_from_nanos(nanos: u128) -> (duration: Duration)
    ensures
        nanos_of(duration) == if nanos <= MAX_DURATION_NANOS { nanos } else { MAX_DURATION_NANOS },
{
    let capped: u128 = if nanos <= MAX_DURATION_NANOS { nanos } else { MAX_DURATION_NANOS };
    let secs: u128 = capped / NANOS_PER_SEC;
    let rest: u128 = capped % NANOS_PER_SEC;
    from_secs_and_nanos(secs as u64, rest as u32)
}

/// A number of nanoseconds comes back from the duration it makes, up to the longest
/// there is.
pub proof fn law_durations_keep_their_nanoseconds(nanos: u128, duration: Duration)
    requires
        call_ensures(saturating_from_nanos, (nanos,), duration),
    ensures
        nanos_of(duration) <= nanos,
        nanos <= 18_446_744_073_709_551_615_999_999_999 ==> nanos_of(duration) == nanos,
        nanos > 18_446_744_073_709_551_615_999_999_999 ==> nanos_of(duration)
            == 18_446_744_073_709_551_615_999_999_999,
{
}

} // verus!
