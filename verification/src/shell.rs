//! The cluster timers: configured intervals as consensus ticks.

use crate::time;
use std::time::Duration;
use vstd::prelude::*;

verus! {

/// Length of one consensus tick, in milliseconds.
pub const CONSENSUS_TICK_INTERVAL_MILLIS: u128 = 10;

/// Nanoseconds in one millisecond.
const NANOS_PER_MILLI: u128 = 1_000_000;

/// The configured cluster intervals.
#[derive(Clone, Copy)]
pub struct ClusterConfig {
    pub heartbeat_timeout: Duration,
    pub commit_broadcast_interval: Duration,
    pub prepare_retransmit_interval: Duration,
    pub view_change_retransmit_interval: Duration,
    pub view_change_status_timeout: Duration,
    pub request_start_view_retransmit_interval: Duration,
    pub view_probe_attempts_max: u32,
    pub repair_retry_interval: Duration,
    pub repair_gap_debounce_interval: Duration,
}

/// The timers every consensus group starts with, in ticks.
#[derive(Clone, Copy, Debug, PartialEq, Eq, Structural)]
pub struct ConsensusTimers {
    pub normal_heartbeat_ticks: u64,
    pub commit_message_ticks: u64,
    pub prepare_ticks: u64,
    pub view_change_retransmit_ticks: u64,
    pub view_change_status_ticks: u64,
    pub request_start_view_ticks: u64,
    pub probe_attempts_max: u32,
}

/// The whole ticks in `interval`, at least one and at most `limit`.
pub open spec fn ticks_of(interval: Duration, limit: nat) -> nat {
    let ticks = time::nanos_of(interval) / 1_000_000 / (CONSENSUS_TICK_INTERVAL_MILLIS as nat);
    if ticks < 1 {
        1
    } else if ticks <= limit {
        ticks
    } else {
        limit
    }
}

/// Whole ticks in a timer interval: at least one, so that an interval shorter
/// than a tick still fires, and saturating.
pub fn duration_to_ticks(interval: Duration) -> (ticks: u64)
    ensures
        ticks == ticks_of(interval, u64::MAX as nat),
{
    let millis: u128 = time::nanos(interval) / NANOS_PER_MILLI;
    let ticks: u128 = millis / CONSENSUS_TICK_INTERVAL_MILLIS;
    if ticks < 1 {
        1
    } else if ticks <= u64::MAX as u128 {
        ticks as u64
    } else {
        u64::MAX
    }
}

/// How long a backup waits for the primary's heartbeat, in ticks.
pub fn cluster_heartbeat_ticks(config: &ClusterConfig) -> (ticks: u64)
    ensures
        ticks == ticks_of(config.heartbeat_timeout, u64::MAX as nat),
{
    duration_to_ticks(config.heartbeat_timeout)
}

/// How often the primary broadcasts its commit point, in ticks.
pub fn commit_broadcast_ticks(config: &ClusterConfig) -> (ticks: u64)
    ensures
        ticks == ticks_of(config.commit_broadcast_interval, u64::MAX as nat),
{
    duration_to_ticks(config.commit_broadcast_interval)
}

/// How often the primary sends an unacknowledged prepare again, in ticks.
pub fn prepare_retransmit_ticks(config: &ClusterConfig) -> (ticks: u64)
    ensures
        ticks == ticks_of(config.prepare_retransmit_interval, u64::MAX as nat),
{
    duration_to_ticks(config.prepare_retransmit_interval)
}

/// How often a replica repeats its view-change messages, in ticks.
pub fn view_change_retransmit_ticks(config: &ClusterConfig) -> (ticks: u64)
    ensures
        ticks == ticks_of(config.view_change_retransmit_interval, u64::MAX as nat),
{
    duration_to_ticks(config.view_change_retransmit_interval)
}

/// How long a stalled view change lasts before a fresh election, in ticks.
pub fn view_change_status_ticks(config: &ClusterConfig) -> (ticks: u64)
    ensures
        ticks == ticks_of(config.view_change_status_timeout, u64::MAX as nat),
{
    duration_to_ticks(config.view_change_status_timeout)
}

/// How often a recovering backup asks for the current view again, in ticks.
pub fn request_start_view_ticks(config: &ClusterConfig) -> (ticks: u64)
    ensures
        ticks == ticks_of(config.request_start_view_retransmit_interval, u64::MAX as nat),
{
    duration_to_ticks(config.request_start_view_retransmit_interval)
}

/// The timer set that every consensus group starts with.
pub fn consensus_timers(config: &ClusterConfig) -> (timers: ConsensusTimers)
    ensures
        timers.normal_heartbeat_ticks == ticks_of(config.heartbeat_timeout, u64::MAX as nat),
        timers.commit_message_ticks == ticks_of(
            config.commit_broadcast_interval,
            u64::MAX as nat,
        ),
        timers.prepare_ticks == ticks_of(config.prepare_retransmit_interval, u64::MAX as nat),
        timers.view_change_retransmit_ticks == ticks_of(
            config.view_change_retransmit_interval,
            u64::MAX as nat,
        ),
        timers.view_change_status_ticks == ticks_of(
            config.view_change_status_timeout,
            u64::MAX as nat,
        ),
        timers.request_start_view_ticks == ticks_of(
            config.request_start_view_retransmit_interval,
            u64::MAX as nat,
        ),
        timers.probe_attempts_max == config.view_probe_attempts_max,
{
    ConsensusTimers {
        normal_heartbeat_ticks: cluster_heartbeat_ticks(config),
        commit_message_ticks: commit_broadcast_ticks(config),
        prepare_ticks: prepare_retransmit_ticks(config),
        view_change_retransmit_ticks: view_change_retransmit_ticks(config),
        view_change_status_ticks: view_change_status_ticks(config),
        request_start_view_ticks: request_start_view_ticks(config),
        probe_attempts_max: config.view_probe_attempts_max,
    }
}

/// `ticks` in the width of a session's idle counter.
fn clamp_ticks(ticks: u64) -> (clamped: u32)
    ensures
        clamped == if ticks <= u32::MAX { ticks as int } else { u32::MAX as int },
{
    if ticks <= u32::MAX as u64 {
        ticks as u32
    } else {
        u32::MAX
    }
}

/// How long a stalled repair stream waits before it asks for its window again, in
/// ticks.
pub fn repair_retry_ticks(config: &ClusterConfig) -> (ticks: u32)
    ensures
        ticks == ticks_of(config.repair_retry_interval, u32::MAX as nat),
{
    clamp_ticks(duration_to_ticks(config.repair_retry_interval))
}

/// How long a backup holds a gap before it opens a repair session for it, in
/// ticks.
pub fn repair_gap_debounce_ticks(config: &ClusterConfig) -> (ticks: u32)
    ensures
        ticks == ticks_of(config.repair_gap_debounce_interval, u32::MAX as nat),
{
    clamp_ticks(duration_to_ticks(config.repair_gap_debounce_interval))
}

/// A timer always fires: no interval becomes zero ticks. A longer interval never
/// fires sooner, and an interval within range waits no longer than it says.
pub proof fn law_ticks_fire_in_order(shorter: Duration, longer: Duration, limit: nat)
    requires
        limit >= 1,
        time::nanos_of(shorter) <= time::nanos_of(longer),
    ensures
        1 <= ticks_of(shorter, limit) <= limit,
        ticks_of(shorter, limit) <= ticks_of(longer, limit),
        time::nanos_of(shorter) >= 10_000_000 ==> ticks_of(shorter, limit) * 10_000_000
            <= time::nanos_of(shorter),
{
}

/// An interval is as many ticks as it has whole stretches of ten milliseconds, and
/// one where it has none, up to the largest count there is.
pub proof fn law_a_tick_is_ten_milliseconds(interval: Duration, ticks: u64)
    requires
        call_ensures(duration_to_ticks, (interval,), ticks),
    ensures
        time::nanos_of(interval) < 10_000_000 ==> ticks == 1,
        time::nanos_of(interval) >= 10_000_000 ==> ticks * 10_000_000 <= time::nanos_of(interval),
        ticks < u64::MAX ==> time::nanos_of(interval) < (ticks + 1) * 10_000_000,
{
}

/// Each timer of a group is its own interval in ticks, none that of another, and the
/// attempts are as many as configured.
pub proof fn law_each_timer_follows_its_own_interval(
    config: ClusterConfig,
    timers: ConsensusTimers,
    heartbeat: u64,
    commit: u64,
    prepare: u64,
    retransmit: u64,
    status: u64,
    start_view: u64,
)
    requires
        call_ensures(consensus_timers, (&config,), timers),
        call_ensures(duration_to_ticks, (config.heartbeat_timeout,), heartbeat),
        call_ensures(duration_to_ticks, (config.commit_broadcast_interval,), commit),
        call_ensures(duration_to_ticks, (config.prepare_retransmit_interval,), prepare),
        call_ensures(duration_to_ticks, (config.view_change_retransmit_interval,), retransmit),
        call_ensures(duration_to_ticks, (config.view_change_status_timeout,), status),
        call_ensures(
            duration_to_ticks,
            (config.request_start_view_retransmit_interval,),
            start_view,
        ),
    ensures
        timers.normal_heartbeat_ticks == heartbeat,
        timers.commit_message_ticks == commit,
        timers.prepare_ticks == prepare,
        timers.view_change_retransmit_ticks == retransmit,
        timers.view_change_status_ticks == status,
        timers.request_start_view_ticks == start_view,
        timers.probe_attempts_max == config.view_probe_attempts_max,
{
}

/// A timer asked for by itself is the one that the group starts with.
pub proof fn law_single_timers_agree_with_the_set(
    config: ClusterConfig,
    timers: ConsensusTimers,
    heartbeat: u64,
    commit: u64,
    prepare: u64,
    retransmit: u64,
    status: u64,
    start_view: u64,
)
    requires
        call_ensures(consensus_timers, (&config,), timers),
        call_ensures(cluster_heartbeat_ticks, (&config,), heartbeat),
        call_ensures(commit_broadcast_ticks, (&config,), commit),
        call_ensures(prepare_retransmit_ticks, (&config,), prepare),
        call_ensures(view_change_retransmit_ticks, (&config,), retransmit),
        call_ensures(view_change_status_ticks, (&config,), status),
        call_ensures(request_start_view_ticks, (&config,), start_view),
    ensures
        timers.normal_heartbeat_ticks == heartbeat,
        timers.commit_message_ticks == commit,
        timers.prepare_ticks == prepare,
        timers.view_change_retransmit_ticks == retransmit,
        timers.view_change_status_ticks == status,
        timers.request_start_view_ticks == start_view,
{
}

/// The repair timers are their own intervals in ticks, as far as their narrower
/// counter reaches.
pub proof fn law_repair_timers_follow_their_intervals(
    config: ClusterConfig,
    retry: u32,
    debounce: u32,
    whole_retry: u64,
    whole_debounce: u64,
)
    requires
        call_ensures(repair_retry_ticks, (&config,), retry),
        call_ensures(repair_gap_debounce_ticks, (&config,), debounce),
        call_ensures(duration_to_ticks, (config.repair_retry_interval,), whole_retry),
        call_ensures(duration_to_ticks, (config.repair_gap_debounce_interval,), whole_debounce),
    ensures
        whole_retry <= u32::MAX ==> retry == whole_retry,
        whole_retry > u32::MAX ==> retry == u32::MAX,
        whole_debounce <= u32::MAX ==> debounce == whole_debounce,
        whole_debounce > u32::MAX ==> debounce == u32::MAX,
{
}

} // verus!
