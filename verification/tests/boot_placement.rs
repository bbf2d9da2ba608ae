use iggy_server::boot::placement::{
    build_shard_for_thread, load_outcome, owned_partitions_capacity, place_partitions, settle_loaded_partition,
    total_partitions, BootStep, LoadOutcome, PartitionRow, PlacedPartition, ShardBoot, StreamRow,
    TopicRow,
};
use iggy_server::boot::tuning::{
    at_rest_encryption, bus_max_message_size, shard_tuning, AtRest, ShardConfig,
};
use iggy_server::dispatch::request::Namespace;
use iggy_server::partition_helpers::error::PartitionLoadError;
use iggy_server::shell::ClusterConfig;
use std::time::Duration;

fn partition(id: usize, owning_shard: u16) -> PartitionRow {
    PartitionRow {
        id,
        created_revision: 100 + id as u64,
        owning_shard,
    }
}

fn placed(stream_id: usize, topic_id: usize, id: usize, owning_shard: u16) -> PlacedPartition {
    PlacedPartition {
        stream_id,
        topic_id,
        partition_id: id,
        created_revision: 100 + id as u64,
        owning_shard,
    }
}

fn streams() -> Vec<StreamRow> {
    vec![
        StreamRow {
            id: 1,
            topics: vec![
                TopicRow {
                    id: 10,
                    partitions: vec![partition(0, 0), partition(1, 1)],
                },
                TopicRow {
                    id: 11,
                    partitions: vec![],
                },
            ],
        },
        StreamRow {
            id: 2,
            topics: vec![TopicRow {
                id: 20,
                partitions: vec![partition(0, 1), partition(1, 0), partition(2, 2)],
            }],
        },
    ]
}

#[test]
fn partitions_are_split_by_their_shard_in_metadata_order() {
    assert_eq!(total_partitions(&streams()), 5);
    let placement = place_partitions(&streams(), 1);
    assert_eq!(placement.owned, vec![placed(1, 10, 1, 1), placed(2, 20, 0, 1)]);
    assert_eq!(
        placement.routed,
        vec![
            placed(1, 10, 0, 0),
            placed(2, 20, 1, 0),
            placed(2, 20, 2, 2)
        ]
    );
}

#[test]
fn every_partition_is_served_by_one_shard() {
    let mut served = 0;
    for shard in 0..3 {
        let placement = place_partitions(&streams(), shard);
        assert_eq!(placement.owned.len() + placement.routed.len(), 5);
        served += placement.owned.len();
    }
    assert_eq!(served, 5);
}

#[test]
fn capacity_is_twice_the_even_share_rounded_up() {
    assert_eq!(owned_partitions_capacity(0, 4), 0);
    assert_eq!(owned_partitions_capacity(8, 4), 4);
    assert_eq!(owned_partitions_capacity(9, 4), 6);
    assert_eq!(owned_partitions_capacity(9, 0), 18);
    assert_eq!(owned_partitions_capacity(usize::MAX, 1), usize::MAX);
    assert_eq!(owned_partitions_capacity(3, u16::MAX), 2);
}

#[test]
fn build_plan_sizes_both_tables() {
    let plan = build_shard_for_thread(2, 3, &streams());
    assert_eq!(plan.routes_capacity, 5);
    assert_eq!(plan.owned_capacity, 4);
    assert_eq!(plan.placement.owned, vec![placed(2, 20, 2, 2)]);
}

#[test]
fn load_outcomes_decide_the_boot() {
    assert_eq!(settle_loaded_partition(LoadOutcome::Loaded), BootStep::Serve);
    assert_eq!(settle_loaded_partition(LoadOutcome::Fenced), BootStep::Skip);
    assert_eq!(
        settle_loaded_partition(LoadOutcome::ReservationClaimRefused),
        BootStep::Skip
    );
    assert_eq!(settle_loaded_partition(LoadOutcome::Failed), BootStep::Fail);
}

#[test]
fn loads_are_told_apart_for_the_boot() {
    let namespace = Namespace {
        stream_id: 1,
        topic_id: 2,
        partition_id: 3,
    };
    let loads: [(Result<Option<&str>, PartitionLoadError<u8>>, LoadOutcome); 4] = [
        (Ok(Some("partition")), LoadOutcome::Loaded),
        (Ok(None), LoadOutcome::Fenced),
        (
            Err(PartitionLoadError::OffsetReservationClaim { namespace }),
            LoadOutcome::ReservationClaimRefused,
        ),
        (Err(PartitionLoadError::Source(5)), LoadOutcome::Failed),
    ];
    for (loaded, expected) in loads {
        assert_eq!(load_outcome(&loaded), expected);
    }
}

#[test]
fn clean_boot_routes_every_partition() {
    let mut boot = ShardBoot::start(place_partitions(&streams(), 0));
    let mut loaded = Vec::new();
    while let Some(partition) = boot.next_partition() {
        loaded.push(partition);
        let (next, step) = boot.settle(LoadOutcome::Loaded);
        assert_eq!(step, BootStep::Serve);
        boot = next;
    }
    assert_eq!(loaded, vec![placed(1, 10, 0, 0), placed(2, 20, 1, 0)]);
    let routes = boot.into_routes();
    assert_eq!(routes.len(), 5);
    for row in loaded {
        assert!(routes.contains(&row));
    }
}

#[test]
fn skipped_partition_is_not_routed() {
    let boot = ShardBoot::start(place_partitions(&streams(), 0));
    let (boot, step) = boot.settle(LoadOutcome::ReservationClaimRefused);
    assert_eq!(step, BootStep::Skip);
    let (boot, step) = boot.settle(LoadOutcome::Loaded);
    assert_eq!(step, BootStep::Serve);
    assert_eq!(boot.next_partition(), None);
    let routes = boot.into_routes();
    assert_eq!(routes.len(), 4);
    assert!(!routes.contains(&placed(1, 10, 0, 0)));
    assert!(routes.contains(&placed(2, 20, 1, 0)));
}

#[test]
fn tuning_follows_the_configuration() {
    let second = Duration::from_secs(1);
    let config = ShardConfig {
        cluster: ClusterConfig {
            heartbeat_timeout: second,
            commit_broadcast_interval: second,
            prepare_retransmit_interval: second,
            view_change_retransmit_interval: second,
            view_change_status_timeout: second,
            request_start_view_retransmit_interval: second,
            view_probe_attempts_max: 3,
            repair_retry_interval: Duration::from_millis(250),
            repair_gap_debounce_interval: Duration::MAX,
        },
        superblock_wedged_fatal_timeout: Duration::from_secs(30),
        transfer_served_cache_bytes_max: 11,
        transfer_artifact_bytes_max: 12,
        repair_chunk_max: 13,
        bus_max_message_size: 14,
    };
    let tuning = shard_tuning(&config).expect("a window that a count covers");
    assert_eq!(tuning.repair_retry_ticks, 25);
    assert_eq!(tuning.repair_gap_debounce_ticks, u32::MAX);
    assert_eq!(tuning.superblock_wedged_fatal_failures, 36);
    assert_eq!(tuning.served_segment_cache_bytes_max, 11);
    assert_eq!(tuning.partition_artifact_len_max, 12);
    assert_eq!(tuning.repair_chunk_max, 13);
    assert_eq!(tuning.bus_max_message_size, 14);

    let endless = ShardConfig {
        superblock_wedged_fatal_timeout: Duration::MAX,
        ..config
    };
    assert!(shard_tuning(&endless).is_none());
}

#[test]
fn bus_frames_are_bounded_by_the_machine() {
    assert_eq!(bus_max_message_size(64), 64);
    assert_eq!(
        bus_max_message_size(u64::MAX),
        usize::try_from(u64::MAX).unwrap_or(usize::MAX)
    );
}

#[test]
fn a_bad_key_never_means_plaintext() {
    assert_eq!(at_rest_encryption(false, false), AtRest::Plain);
    assert_eq!(at_rest_encryption(false, true), AtRest::Plain);
    assert_eq!(at_rest_encryption(true, true), AtRest::Encrypted);
    assert_eq!(at_rest_encryption(true, false), AtRest::Refuse);
}
