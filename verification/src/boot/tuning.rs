//! The per-shard settings that a configuration comes to, encryption among them.

use crate::boot::superblock::{
    is_coverable, is_threshold, law_first_failure_is_never_fatal, law_threshold_is_tight, micros_of,
    superblock_wedged_fatal_failures, waited,
};
use crate::shell::{repair_gap_debounce_ticks, repair_retry_ticks, ticks_of, ClusterConfig};
use crate::time;
use std::time::Duration;
use vstd::prelude::*;

verus! {

/// The configured values that every shard of a node shares.
#[derive(Clone, Copy)]
pub struct ShardConfig {
    pub cluster: ClusterConfig,
    pub superblock_wedged_fatal_timeout: Duration,
    pub transfer_served_cache_bytes_max: u64,
    pub transfer_artifact_bytes_max: u64,
    pub repair_chunk_max: u64,
    pub bus_max_message_size: u64,
}

/// The settings a shard is given once it is built.
#[derive(Clone, Copy, Debug, PartialEq, Eq, Structural)]
pub struct ShardTuning {
    pub repair_retry_ticks: u32,
    pub repair_gap_debounce_ticks: u32,
    /// How many failures in a row take the process down; zero never does.
    pub superblock_wedged_fatal_failures: u64,
    pub served_segment_cache_bytes_max: u64,
    pub partition_artifact_len_max: u64,
    pub repair_chunk_max: u64,
    pub bus_max_message_size: usize,
}

/// The largest bus frame in bytes, as far as this machine can address it.
pub fn bus_max_message_size(configured: u64) -> (size: usize)
    ensures
        size == if configured <= usize::MAX {
            configured as int
        } else {
            usize::MAX as int
        },
{
    if configured <= usize::MAX as u64 {
        configured as usize
    } else {
        usize::MAX
    }
}

/// The settings of a shard, or `None` where the fail-stop window is longer than
/// any count of failures covers.
pub fn shard_tuning(config: &ShardConfig) -> (tuning: Option<ShardTuning>)
    ensures
        tuning is Some <==> is_coverable(config.superblock_wedged_fatal_timeout),
        tuning matches Some(tuned) ==> {
            let window = config.superblock_wedged_fatal_timeout;
            &&& tuned.repair_retry_ticks == ticks_of(
                config.cluster.repair_retry_interval,
                u32::MAX as nat,
            )
            &&& tuned.repair_gap_debounce_ticks == ticks_of(
                config.cluster.repair_gap_debounce_interval,
                u32::MAX as nat,
            )
            &&& is_threshold(tuned.superblock_wedged_fatal_failures, window)
            &&& tuned.served_segment_cache_bytes_max == config.transfer_served_cache_bytes_max
            &&& tuned.partition_artifact_len_max == config.transfer_artifact_bytes_max
            &&& tuned.repair_chunk_max == config.repair_chunk_max
            &&& tuned.bus_max_message_size == if config.bus_max_message_size <= usize::MAX {
                config.bus_max_message_size as int
            } else {
                usize::MAX as int
            }
        },
{
    match superblock_wedged_fatal_failures(config.superblock_wedged_fatal_timeout) {
        None => None,
        Some(failures) => Some(
            ShardTuning {
                repair_retry_ticks: repair_retry_ticks(&config.cluster),
                repair_gap_debounce_ticks: repair_gap_debounce_ticks(&config.cluster),
                superblock_wedged_fatal_failures: failures,
                served_segment_cache_bytes_max: config.transfer_served_cache_bytes_max,
                partition_artifact_len_max: config.transfer_artifact_bytes_max,
                repair_chunk_max: config.repair_chunk_max,
                bus_max_message_size: bus_max_message_size(config.bus_max_message_size),
            },
        ),
    }
}

/// How stored messages are kept.
#[derive(Clone, Copy, Debug, PartialEq, Eq, Structural)]
pub enum AtRest {
    Plain,
    Encrypted,
    /// Not at all: the configured key is no key, and the boot fails.
    Refuse,
}

/// How stored messages are kept. Only a configuration without encryption keeps them
/// plain: a bad key never does.
pub fn at_rest_encryption(is_enabled: bool, is_key_valid: bool) -> (at_rest: AtRest)
    ensures
        at_rest == AtRest::Plain <==> !is_enabled,
        at_rest == AtRest::Encrypted <==> is_enabled && is_key_valid,
{
    if !is_enabled {
        AtRest::Plain
    } else if is_key_valid {
        AtRest::Encrypted
    } else {
        AtRest::Refuse
    }
}

/// Every setting of a shard is the configured value it is named for. There are none
/// exactly where the fail-stop window has no count.
pub proof fn law_a_shard_gets_the_configured_settings(
    config: ShardConfig,
    tuning: Option<ShardTuning>,
    retry: u32,
    debounce: u32,
    failures: Option<u64>,
    message_size: usize,
)
    requires
        call_ensures(shard_tuning, (&config,), tuning),
        call_ensures(repair_retry_ticks, (&config.cluster,), retry),
        call_ensures(repair_gap_debounce_ticks, (&config.cluster,), debounce),
        call_ensures(
            superblock_wedged_fatal_failures,
            (config.superblock_wedged_fatal_timeout,),
            failures,
        ),
        call_ensures(bus_max_message_size, (config.bus_max_message_size,), message_size),
    ensures
        tuning is Some <==> failures is Some,
        tuning matches Some(tuned) ==> {
            &&& tuned.repair_retry_ticks == retry
            &&& tuned.repair_gap_debounce_ticks == debounce
            &&& Some(tuned.superblock_wedged_fatal_failures) == failures
            &&& tuned.served_segment_cache_bytes_max == config.transfer_served_cache_bytes_max
            &&& tuned.partition_artifact_len_max == config.transfer_artifact_bytes_max
            &&& tuned.repair_chunk_max == config.repair_chunk_max
            &&& tuned.bus_max_message_size == message_size
        },
{
    let window = config.superblock_wedged_fatal_timeout;
    if let (Some(tuned), Some(count)) = (tuning, failures) {
        if time::nanos_of(window) > 0 && micros_of(window) <= waited((u64::MAX - 1) as nat) {
            law_threshold_is_tight(count, tuned.superblock_wedged_fatal_failures, window);
        }
    }
}

/// A shard never runs with a fail-stop that differs from its configured window: the
/// window is zero exactly where the fail-stop is off, and the first failure never
/// trips it.
pub proof fn law_the_fail_stop_is_off_only_for_a_zero_window(
    config: ShardConfig,
    tuning: Option<ShardTuning>,
)
    requires
        call_ensures(shard_tuning, (&config,), tuning),
    ensures
        tuning matches Some(tuned) ==> {
            let failures = tuned.superblock_wedged_fatal_failures;
            &&& failures == 0 <==> time::nanos_of(config.superblock_wedged_fatal_timeout) == 0
            &&& failures != 1
        },
{
    if let Some(tuned) = tuning {
        if time::nanos_of(config.superblock_wedged_fatal_timeout) > 0 {
            law_first_failure_is_never_fatal(
                tuned.superblock_wedged_fatal_failures,
                config.superblock_wedged_fatal_timeout,
            );
        }
    }
}

/// A frame may be as large as configured, and no larger than the machine can address.
pub proof fn law_frames_are_as_large_as_configured(configured: u64, size: usize)
    requires
        call_ensures(bus_max_message_size, (configured,), size),
    ensures
        size <= configured,
        size < usize::MAX ==> size == configured,
{
}

/// Messages are kept plain only where encryption is off, encrypted only under a key
/// that is one, and not at all under one that is not.
pub proof fn law_a_bad_key_never_means_plain(is_enabled: bool, is_key_valid: bool, at_rest: AtRest)
    requires
        call_ensures(at_rest_encryption, (is_enabled, is_key_valid), at_rest),
    ensures
        match at_rest {
            AtRest::Plain => !is_enabled,
            AtRest::Encrypted => is_enabled && is_key_valid,
            AtRest::Refuse => is_enabled && !is_key_valid,
        },
{
}

} // verus!
