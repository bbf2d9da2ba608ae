//! The superblock writer's retry schedule, and the failure count at which a
//! persistently failing writer takes the process down.

use crate::time;
use std::time::Duration;
use vstd::arithmetic::power2::{lemma2_to64, lemma_pow2_strictly_increases, pow2};
use vstd::bits::lemma_u64_shl_is_mul;
use vstd::prelude::*;

verus! {

/// Unit of the retry schedule, in microseconds: failure `n` waits `2^n` of them.
pub const SUPERBLOCK_RETRY_BACKOFF_BASE_MICROS: u64 = 10_000;

/// Longest wait between two retries, in microseconds.
pub const SUPERBLOCK_RETRY_BACKOFF_MAX_MICROS: u64 = 1_000_000;

/// Doublings after which the schedule has reached its longest wait.
pub const SUPERBLOCK_RETRY_BACKOFF_MAX_SHIFT: u64 = 7;

/// Nanoseconds in one microsecond.
const NANOS_PER_MICRO: u128 = 1_000;

/// The wait armed after the `failures`-th consecutive failure: the base doubled
/// once per failure, up to the cap.
pub open spec fn retry_wait(failures: nat) -> nat {
    let doubled = SUPERBLOCK_RETRY_BACKOFF_BASE_MICROS as nat * pow2(failures);
    if doubled < SUPERBLOCK_RETRY_BACKOFF_MAX_MICROS {
        doubled
    } else {
        SUPERBLOCK_RETRY_BACKOFF_MAX_MICROS as nat
    }
}

/// The time spent in the first `waits` waits of the schedule, in microseconds.
pub open spec fn waited(waits: nat) -> nat
    decreases waits,
{
    if waits == 0 {
        0
    } else {
        waited((waits - 1) as nat) + retry_wait(waits)
    }
}

/// When the `failures`-th consecutive failure arrives, counted from the first:
/// the sum of the waits between them.
pub open spec fn arrival(failures: nat) -> nat
    recommends
        failures > 0,
{
    waited((failures - 1) as nat)
}

/// The microseconds in `window`, a started one counted whole: failures arrive on
/// whole microseconds, so that is when the window is over.
pub open spec fn micros_of(window: Duration) -> nat {
    (time::nanos_of(window) + 999) / 1_000
}

/// Whether the schedule's first `u64::MAX` waits cover `window`, so that a
/// failure count can express it.
pub open spec fn is_coverable(window: Duration) -> bool {
    micros_of(window) <= waited(u64::MAX as nat)
}

/// Whether `failures` is the first failure to arrive at or past `micros`.
pub open spec fn is_first_arrival_past(failures: nat, micros: nat) -> bool {
    &&& failures > 0
    &&& arrival(failures) >= micros
    &&& forall|earlier: nat| 0 < earlier < failures ==> #[trigger] arrival(earlier) < micros
}

/// Whether `failures` is the count for a fail-stop window: zero for the zero window,
/// else the first failure to arrive at or past it, as far as a `u64` counts.
pub open spec fn is_threshold(failures: u64, window: Duration) -> bool {
    if time::nanos_of(window) == 0 {
        failures == 0
    } else if micros_of(window) <= waited((u64::MAX - 1) as nat) {
        is_first_arrival_past(failures as nat, micros_of(window))
    } else {
        failures == u64::MAX
    }
}

/// Waiting longer never takes less time.
proof fn lemma_waited_grows(fewer: nat, more: nat)
    requires
        fewer <= more,
    ensures
        waited(fewer) <= waited(more),
    decreases more,
{
    if fewer < more {
        lemma_waited_grows(fewer, (more - 1) as nat);
    }
}

/// The schedule is flat at its cap from the seventh wait on.
proof fn lemma_waits_past_warmup(waits: nat)
    requires
        waits >= SUPERBLOCK_RETRY_BACKOFF_MAX_SHIFT,
    ensures
        retry_wait(waits) == SUPERBLOCK_RETRY_BACKOFF_MAX_MICROS,
{
    lemma2_to64();
    if waits > 7 {
        lemma_pow2_strictly_increases(7, waits);
    }
}

/// The first six waits are 20, 40, 80, 160, 320 and 640 milliseconds, and every
/// later one is a whole second.
pub proof fn law_schedule_values(waits: nat)
    ensures
        retry_wait(1) == 20_000,
        retry_wait(2) == 40_000,
        retry_wait(3) == 80_000,
        retry_wait(4) == 160_000,
        retry_wait(5) == 320_000,
        retry_wait(6) == 640_000,
        waits >= 7 ==> retry_wait(waits) == 1_000_000,
        waits >= 6 ==> waited(waits) == 1_260_000 + (waits - 6) * 1_000_000,
    decreases waits,
{
    lemma2_to64();
    reveal_with_fuel(waited, 8);
    if waits >= 7 {
        lemma_waits_past_warmup(waits);
        law_schedule_values((waits - 1) as nat);
    }
}

/// The wait armed after the `failures`-th consecutive failure, in microseconds.
pub fn superblock_retry_backoff_micros(failures: u64) -> (micros: u64)
    ensures
        micros == retry_wait(failures as nat),
{
    let shift: u64 = if failures < SUPERBLOCK_RETRY_BACKOFF_MAX_SHIFT {
        failures
    } else {
        SUPERBLOCK_RETRY_BACKOFF_MAX_SHIFT
    };
    proof {
        lemma2_to64();
        lemma_u64_shl_is_mul(1, shift);
        if failures >= SUPERBLOCK_RETRY_BACKOFF_MAX_SHIFT {
            lemma_waits_past_warmup(failures as nat);
        } else {
            lemma_pow2_strictly_increases(failures as nat, 7);
        }
    }
    let doubled: u64 = SUPERBLOCK_RETRY_BACKOFF_BASE_MICROS * (1u64 << shift);
    if doubled < SUPERBLOCK_RETRY_BACKOFF_MAX_MICROS {
        doubled
    } else {
        SUPERBLOCK_RETRY_BACKOFF_MAX_MICROS
    }
}

/// The microseconds in `window`, a started one counted whole.
fn window_micros(window: Duration) -> (micros: u128)
    ensures
        micros == micros_of(window),
        micros <= time::MAX_DURATION_NANOS,
{
    (time::nanos(window) + (NANOS_PER_MICRO - 1)) / NANOS_PER_MICRO
}

/// The failure count whose arrival time is the first at or past `window`, and
/// zero for the zero window, which disables the fail-stop.
///
/// Failure `n` arrives at the sum of the `n - 1` waits before it, so a nonempty
/// window never maps to a count that arrives inside it.
pub fn superblock_window_to_failures(window: Duration) -> (failures: u64)
    requires
        is_coverable(window),
    ensures
        is_threshold(failures, window),
{
    let window_micros: u128 = window_micros(window);
    if window_micros == 0 {
        return 0;
    }
    let mut elapsed: u128 = 0;
    let mut waits: u64 = 0;
    while elapsed < window_micros
        invariant
            window_micros == micros_of(window),
            window_micros <= time::MAX_DURATION_NANOS,
            is_coverable(window),
            elapsed == waited(waits as nat),
            elapsed <= window_micros + SUPERBLOCK_RETRY_BACKOFF_MAX_MICROS,
            forall|earlier: nat| 0 < earlier <= waits ==> #[trigger] arrival(earlier) < window_micros,
        decreases u64::MAX - waits,
    {
        proof {
            if waits == u64::MAX {
                assert(false);
            }
        }
        waits += 1;
        elapsed += superblock_retry_backoff_micros(waits) as u128;
    }
    proof {
        if waits == u64::MAX {
            assert(arrival(u64::MAX as nat) < window_micros);
        } else {
            lemma_waited_grows(waits as nat, (u64::MAX - 1) as nat);
        }
    }
    waits.saturating_add(1)
}

/// The consecutive-failure count of a configured fail-stop window, or `None`
/// where the window outlasts every count.
pub fn superblock_wedged_fatal_failures(window: Duration) -> (failures: Option<u64>)
    ensures
        failures is Some <==> is_coverable(window),
        failures matches Some(count) ==> is_threshold(count, window),
{
    let window_micros: u128 = window_micros(window);
    let longest: u128 = 1_260_000 + (u64::MAX as u128 - 6) * 1_000_000;
    proof {
        law_schedule_values(u64::MAX as nat);
    }
    if window_micros <= longest {
        Some(superblock_window_to_failures(window))
    } else {
        None
    }
}

/// The count a nonzero window converts to is a floor on elapsed time: that many
/// failures have lasted at least the window, to the nanosecond, and one fewer have
/// not. No other count has both properties.
pub proof fn law_threshold_is_tight(failures: u64, other: u64, window: Duration)
    requires
        is_threshold(failures, window),
        time::nanos_of(window) > 0,
        micros_of(window) <= waited((u64::MAX - 1) as nat),
    ensures
        1_000 * arrival(failures as nat) >= time::nanos_of(window),
        1_000 * arrival((failures - 1) as nat) < time::nanos_of(window),
        is_threshold(other, window) ==> other == failures,
{
    law_first_failure_is_never_fatal(failures, window);
    assert(arrival((failures - 1) as nat) < micros_of(window));
}

/// A nonzero window never stops the process on its first failure, which arrives at
/// time zero: no window that is not zero comes out as zero or one.
pub proof fn law_first_failure_is_never_fatal(failures: u64, window: Duration)
    requires
        is_threshold(failures, window),
        time::nanos_of(window) > 0,
    ensures
        failures >= 2,
{
    assert(waited(0) == 0);
}

/// The wait after a failure, by its number: ten milliseconds before any, twice the
/// last with each of the next six, and a second from the seventh on.
pub proof fn law_waits_double_up_to_a_second(failures: u64, micros: u64, next: u64)
    requires
        call_ensures(superblock_retry_backoff_micros, (failures,), micros),
        failures < u64::MAX,
        call_ensures(superblock_retry_backoff_micros, ((failures + 1) as u64,), next),
    ensures
        failures == 0 ==> micros == 10_000,
        failures < 6 ==> next == 2 * micros,
        failures >= 7 ==> micros == 1_000_000,
        failures == 6 ==> micros == 640_000 && next == 1_000_000,
{
    law_schedule_values(failures as nat);
    law_schedule_values((failures + 1) as nat);
    lemma2_to64();
}

/// The failure that a fail-stop window ends with, by the length of the window in
/// nanoseconds. The failures arrive 20, 60, 140, 300, 620 and 1,260 milliseconds
/// after the first, and then every second; the count is that of the first to arrive
/// at the window's end or past it. A zero window has none, and a window past the
/// last of all counts is refused.
pub proof fn law_a_window_ends_with_the_first_failure_past_it(
    window: Duration,
    failures: Option<u64>,
)
    requires
        call_ensures(superblock_wedged_fatal_failures, (window,), failures),
    ensures
        ({
            let nanos = time::nanos_of(window);
            let longest = 1_000 * (1_260_000 + (u64::MAX - 6) * 1_000_000);
            &&& failures is None <==> nanos > longest
            &&& failures == Some(0u64) <==> nanos == 0
            &&& failures != Some(1u64)
            &&& failures == Some(2u64) <==> 0 < nanos <= 20_000_000
            &&& failures == Some(3u64) <==> 20_000_000 < nanos <= 60_000_000
            &&& failures == Some(4u64) <==> 60_000_000 < nanos <= 140_000_000
            &&& failures == Some(5u64) <==> 140_000_000 < nanos <= 300_000_000
            &&& failures == Some(6u64) <==> 300_000_000 < nanos <= 620_000_000
            &&& failures == Some(7u64) <==> 620_000_000 < nanos <= 1_260_000_000
            &&& failures matches Some(count) ==> 8 <= count < u64::MAX ==> 260_000_000 + (count - 7)
                * 1_000_000_000 < nanos <= 1_260_000_000 + (count - 7) * 1_000_000_000
        }),
{
    reveal_with_fuel(waited, 8);
    law_schedule_values(0);
    assert(waited(0) == 0);
    assert(waited(1) == 20_000);
    assert(waited(2) == 60_000);
    assert(waited(3) == 140_000);
    assert(waited(4) == 300_000);
    assert(waited(5) == 620_000);
    law_schedule_values(6);
    law_schedule_values(u64::MAX as nat);
    law_schedule_values((u64::MAX - 1) as nat);
    if let Some(count) = failures {
        if time::nanos_of(window) > 0 {
            law_first_failure_is_never_fatal(count, window);
            if micros_of(window) <= waited((u64::MAX - 1) as nat) {
                law_threshold_is_tight(count, count, window);
                assert(arrival(count as nat) == waited((count - 1) as nat));
                assert(arrival((count - 1) as nat) == waited((count - 2) as nat));
                if count >= 8 {
                    law_schedule_values((count - 1) as nat);
                    law_schedule_values((count - 2) as nat);
                }
            }
        }
    }
}

/// A window that a count can express is converted the same way with and without the
/// check that it can.
pub proof fn law_checked_windows_convert_alike(
    window: Duration,
    failures: u64,
    checked: Option<u64>,
)
    requires
        call_ensures(superblock_window_to_failures, (window,), failures),
        call_ensures(superblock_wedged_fatal_failures, (window,), checked),
        checked is Some,
    ensures
        checked == Some(failures),
{
    if time::nanos_of(window) > 0 && micros_of(window) <= waited((u64::MAX - 1) as nat) {
        law_threshold_is_tight(failures, checked->0, window);
    }
}

} // verus!
