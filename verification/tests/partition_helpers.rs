use iggy_server::boot::recovery::{DurableView, JoinMode};
use iggy_server::dispatch::poll::ConsumerKind;
use iggy_server::dispatch::request::Namespace;
use iggy_server::offset_recovery::{ConsumerGroupId, ConsumerOffset, RecoveredOffsets};
use iggy_server::partition_helpers::error::{
    OffsetsLoadError, PartitionLoadError, PartitionRecoveryRefusal,
};
use iggy_server::partition_helpers::fence::{
    hydrate_reopen_error, load_partition_or_fence, settle_quarantine, settle_rebuild, FenceEnd,
    FenceStep, QuarantineStep, ReopenError,
};
use iggy_server::partition_helpers::files::{
    create_partition_file_hierarchy, delete_partitions_from_disk, effective_options,
    ensure_initial_segment, first_directory, hydrate_partition_log, EffectiveOptions,
    InitialSegment,
    PartitionDirectory, PartitionFilesError, RemoveOutcome, SegmentWriters, StorageHandles,
    TopicRuntimeOptions,
};
use iggy_server::partition_helpers::offsets::{
    configure_consumer_offsets, exceeds_admission_limit, fresh_offsets, offset_space_ceiling,
    restore_partition_offsets, settle_offsets_load, OffsetFrontiers, SeededOffset, SegmentExtent,
    StrandedOffset,
};
use iggy_server::partition_helpers::steps::{
    build_partition_fresh, first_claim, is_restart, load_partition, FreshProgress, FreshStep,
    LoadProgress, LoadStep,
};
use iggy_server::partition_helpers::superblock::{
    open_partition_superblock, restore_partition_group, IdentityField,
    ReplicaIdentity, SuperblockContents, SuperblockRefusal, VsrState,
};

const CLUSTER: u128 = 7;
const REPLICA: u8 = 1;
const REPLICAS: u8 = 3;

const NAMESPACE: Namespace = Namespace {
    stream_id: 1,
    topic_id: 2,
    partition_id: 3,
};

fn recorded_state(view: u32, log_view: u32) -> VsrState {
    VsrState {
        cluster: CLUSTER,
        replica_id: REPLICA,
        replica_count: REPLICAS,
        view,
        log_view,
        commit_max: 42,
        checkpoint_op: 0,
        checkpoint_checksum: 0,
        offset_frontier: 0,
        offset_reserved: 0,
    }
}

const fn test_identity() -> ReplicaIdentity {
    ReplicaIdentity {
        cluster: CLUSTER,
        replica_id: REPLICA,
        replica_count: REPLICAS,
    }
}

/// What a failed read or write is reported as here.
type Code = u8;

type Contents = Result<SuperblockContents<Code>, Code>;

const DIR: &str = "streams/1/topics/2/partitions/3";

fn present(state: VsrState) -> Contents {
    Ok(SuperblockContents::Present(Ok(state)))
}

fn open(contents: Contents) -> Result<Option<VsrState>, PartitionLoadError<Code>> {
    open_partition_superblock(DIR.to_owned(), contents, &test_identity())
}

fn untrusted(refusal: SuperblockRefusal<Code>) -> PartitionLoadError<Code> {
    PartitionLoadError::Superblock {
        dir: DIR.to_owned(),
        refusal,
    }
}

fn refused(reason: PartitionRecoveryRefusal) -> Result<&'static str, PartitionLoadError<Code>> {
    Err(PartitionLoadError::RecoveryRefused {
        dir: DIR.to_owned(),
        namespace: NAMESPACE,
        reason,
    })
}

fn tombstone(clears_counters: bool) -> FenceEnd<&'static str, Code> {
    FenceEnd {
        result: Ok(None),
        tombstones: true,
        clears_counters,
    }
}

#[test]
fn given_fresh_partition_dir_when_superblock_opened_should_yield_no_state() {
    assert_eq!(
        open(Ok(SuperblockContents::Empty)),
        Ok(None),
        "an empty superblock is a fresh group, never an error"
    );
}

#[test]
fn given_recorded_view_when_superblock_reopened_should_recover_state() {
    let state = recorded_state(3, 2);
    assert_eq!(
        open(present(state)),
        Ok(Some(state)),
        "a restarted partition must recover exactly the state it recorded"
    );
}

#[test]
fn given_foreign_cluster_record_when_superblock_opened_should_refuse_boot() {
    let foreign = VsrState {
        cluster: CLUSTER + 1,
        ..recorded_state(1, 1)
    };
    match open(present(foreign)) {
        Err(PartitionLoadError::Superblock {
            dir,
            refusal:
                SuperblockRefusal::IdentityMismatch {
                    field,
                    expected,
                    found,
                },
        }) => {
            assert_eq!(dir, DIR);
            assert_eq!(field, IdentityField::Cluster);
            assert_eq!((expected, found), (7, 8));
        }
        other => panic!("expected an identity mismatch, got {other:?}"),
    }
}

#[test]
fn identity_is_compared_part_by_part() {
    let other_replica = VsrState {
        replica_id: 2,
        replica_count: 5,
        ..recorded_state(1, 1)
    };
    assert_eq!(
        open(present(other_replica)),
        Err(untrusted(SuperblockRefusal::IdentityMismatch {
            field: IdentityField::ReplicaId,
            expected: 1,
            found: 2
        }))
    );
    let other_count = VsrState {
        replica_count: 5,
        ..recorded_state(1, 1)
    };
    assert_eq!(
        open(present(other_count)),
        Err(untrusted(SuperblockRefusal::IdentityMismatch {
            field: IdentityField::ReplicaCount,
            expected: 3,
            found: 5
        }))
    );
}

#[test]
fn damaged_records_are_refused_each_in_its_way() {
    let damaged: [fn() -> (Contents, SuperblockRefusal<Code>); 4] = [
        || (Err(11), SuperblockRefusal::Io(11)),
        || {
            (
                Ok(SuperblockContents::Unreadable { version: Some(9) }),
                SuperblockRefusal::VersionUnknown { version: 9 },
            )
        },
        || {
            (
                Ok(SuperblockContents::Unreadable { version: None }),
                SuperblockRefusal::Unverifiable,
            )
        },
        || {
            (
                Ok(SuperblockContents::Present(Err(12))),
                SuperblockRefusal::Undecodable(12),
            )
        },
    ];
    for make in damaged {
        let (contents, refusal) = make();
        assert_eq!(open(contents), Err(untrusted(refusal)));
        for replicas in [1, 3] {
            let (_, refusal) = make();
            assert_eq!(
                load_partition_or_fence::<&str, Code>(Err(untrusted(refusal)), replicas),
                FenceStep::End(tombstone(true)),
                "an untrusted record is never rebuilt"
            );
        }
    }
}

#[test]
fn recovered_groups_probe_their_peers() {
    let state = Some(recorded_state(3, 2));
    let restore = restore_partition_group(3, &state, 16);
    assert_eq!(
        restore.join,
        JoinMode::ProbeAsBackup {
            await_state_transfer: false
        }
    );
    assert_eq!(
        restore.durable_view,
        Some(DurableView {
            view: 3,
            log_view: 2
        })
    );
    assert_eq!(restore.prepare_capacity, 16);
    assert_eq!(restore.request_capacity, 32);
    let solo = restore_partition_group(1, &None, 16);
    assert_eq!(solo.join, JoinMode::Init);
    assert_eq!(solo.durable_view, None);
}

#[test]
fn refused_chains_are_rebuilt_only_without_loss() {
    let hole = |recoverable_bytes| PartitionRecoveryRefusal::Hole { recoverable_bytes };
    let empty =
        |recoverable_bytes| PartitionRecoveryRefusal::EmptyNonTailSegment { recoverable_bytes };
    for reason in [hole(0), empty(0)] {
        assert_eq!(
            load_partition_or_fence(refused(reason), 1),
            FenceStep::QuarantineAndRebuild
        );
    }
    for reason in [
        hole(1),
        empty(1),
        PartitionRecoveryRefusal::Damaged,
        PartitionRecoveryRefusal::StorageSizeMismatch {
            start_offset: 0,
            on_disk_bytes: 0,
            expected_bytes: 0,
        },
    ] {
        assert_eq!(
            load_partition_or_fence(refused(reason), 1),
            FenceStep::End(tombstone(true))
        );
        assert_eq!(
            load_partition_or_fence(refused(reason), 3),
            FenceStep::QuarantineAndRebuild
        );
    }
    assert_eq!(
        load_partition_or_fence::<_, Code>(Ok("partition"), 1),
        FenceStep::End(FenceEnd {
            result: Ok(Some("partition")),
            tombstones: false,
            clears_counters: false
        })
    );
}

#[test]
fn no_partition_comes_back_exactly_where_it_is_tombstoned() {
    assert_eq!(
        settle_quarantine::<&str, Code>(true),
        QuarantineStep::Rebuild
    );
    assert_eq!(
        settle_quarantine::<&str, Code>(false),
        QuarantineStep::End(tombstone(false)),
        "files that could not be put aside are not built over"
    );
    let rebuilt = settle_rebuild::<_, Code>(Ok("rebuilt"));
    assert_eq!(rebuilt.result, Ok(Some("rebuilt")));
    assert!(!rebuilt.tombstones);
    let failed = settle_rebuild::<&str, Code>(Err(PartitionLoadError::Source(4)));
    assert_eq!(failed.result, Err(PartitionLoadError::Source(4)));
    assert!(!failed.tombstones);
}

#[test]
fn given_a_failing_claim_when_rebuilding_a_fenced_chain_should_refuse_not_tombstone() {
    let loaded = refused(PartitionRecoveryRefusal::EmptyNonTailSegment {
        recoverable_bytes: 0,
    });
    assert_eq!(
        load_partition_or_fence(loaded, 1),
        FenceStep::QuarantineAndRebuild
    );
    let mut step = FreshStep::CreateHierarchy;
    while let FreshProgress::Next(next) =
        build_partition_fresh::<Code>(step, Ok(()), NAMESPACE)
    {
        step = next;
    }
    assert_eq!(step, FreshStep::ClaimReservation);
    let (error, clear_counters) =
        match build_partition_fresh(step, Err(PartitionLoadError::Source(3)), NAMESPACE) {
            FreshProgress::Fail {
                error,
                clear_counters,
            } => (error, clear_counters),
            other => panic!("the blocked write must fail the claim, got {other:?}"),
        };
    assert_eq!(
        error,
        PartitionLoadError::<Code>::OffsetReservationClaim {
            namespace: NAMESPACE
        }
    );
    assert!(
        clear_counters,
        "the rebuild counted its initial segment before the claim refused"
    );
    let end = settle_rebuild::<&str, Code>(Err(error));
    assert_eq!(
        end.result,
        Err(PartitionLoadError::OffsetReservationClaim {
            namespace: NAMESPACE
        }),
        "a refused claim must reach the caller, not be absorbed"
    );
    assert!(
        !end.tombstones,
        "a transient write failure must leave the namespace materialisable"
    );
}

fn solo_state(offset_frontier: u64, offset_reserved: u64) -> Option<VsrState> {
    Some(VsrState {
        replica_id: 0,
        replica_count: 1,
        offset_frontier,
        offset_reserved,
        ..recorded_state(0, 0)
    })
}

#[test]
fn first_claim_covers_the_first_offset_unless_it_is_covered() {
    assert_eq!(first_claim(&None, 1), Some(0), "a fresh solo partition");
    assert_eq!(first_claim(&solo_state(40, 0), 1), Some(0));
    assert_eq!(
        first_claim(&solo_state(0, 65_537), 1),
        None,
        "a rebuild resumes on its recorded reservation"
    );
    assert_eq!(first_claim(&solo_state(0, 1), 1), None);
    assert_eq!(first_claim(&None, 3), None, "a group with peers claims nothing");
}

#[test]
fn fresh_offsets_resume_where_the_record_leaves_them() {
    for (recorded, replicas, committed, append_point) in [
        (None, 1, 0, 0),
        (None, 3, 0, 0),
        (solo_state(0, 65_537), 1, 0, 65_537),
        (solo_state(40, 65_537), 1, 40, 65_537),
        (solo_state(70_000, 65_537), 1, 70_000, 70_000),
        (solo_state(40, 65_537), 3, 40, 40),
    ] {
        let fresh = fresh_offsets(&recorded, replicas);
        assert_eq!(
            fresh.frontiers,
            OffsetFrontiers {
                committed,
                append_point
            }
        );
        assert_eq!(fresh.counter, 0);
        assert!(!fresh.is_offset_space_used);
        assert!(!fresh.reanchors);
        assert_eq!(fresh.recorded, recorded);
    }
}

#[test]
fn given_a_recorded_reservation_when_building_fresh_should_plant_at_the_append_point() {
    const RESERVED: u64 = 65_537;
    let recorded = solo_state(0, RESERVED);
    let mut frontiers = OffsetFrontiers {
        committed: 0,
        append_point: 0,
    };
    let mut planted = Vec::new();
    let mut claimed = Vec::new();
    let mut step = FreshStep::CreateHierarchy;
    loop {
        match step {
            FreshStep::RestoreOffsets => frontiers = fresh_offsets(&recorded, 1).frontiers,
            FreshStep::EnsureInitialSegment => {
                let segment = ensure_initial_segment(
                    !planted.is_empty(),
                    frontiers.append_point,
                    &UNSET,
                    &DEFAULTS,
                )
                .expect("a partition without segments");
                planted.push(format!("{:0>20}.log", segment.writers.start_offset));
            }
            FreshStep::ClaimReservation => claimed.extend(first_claim(&recorded, 1)),
            _ => {}
        }
        match build_partition_fresh::<Code>(step, Ok(()), NAMESPACE) {
            FreshProgress::Next(next) => step = next,
            FreshProgress::Built => break,
            FreshProgress::Fail { .. } => panic!("no step failed"),
        }
    }
    assert_eq!(
        frontiers.append_point, RESERVED,
        "the append point must resume above every offset the reservation covered"
    );
    assert_eq!(
        frontiers.committed, 0,
        "nothing was flushed, so the committed frontier names no data"
    );
    assert_eq!(
        planted,
        vec![format!("{RESERVED:0>20}.log")],
        "the initial segment must be named for the append point, not offset 0"
    );
    assert!(
        claimed.is_empty(),
        "the recorded reservation stays as it is"
    );
}

#[test]
fn steps_run_in_order_and_stop_at_the_first_failure() {
    let mut steps = vec![LoadStep::OpenSuperblock];
    while let LoadProgress::Next(next) = load_partition::<Code>(steps[steps.len() - 1], Ok(())) {
        steps.push(next);
    }
    assert_eq!(
        steps,
        vec![
            LoadStep::OpenSuperblock,
            LoadStep::RecoverSegments,
            LoadStep::HydratePurgeGeneration,
            LoadStep::HydrateLog,
            LoadStep::RestoreOffsets,
            LoadStep::ConfigureConsumerOffsets,
            LoadStep::EnsureInitialSegment
        ]
    );
    let mut build = vec![FreshStep::CreateHierarchy];
    while let FreshProgress::Next(next) =
        build_partition_fresh::<Code>(build[build.len() - 1], Ok(()), NAMESPACE)
    {
        build.push(next);
    }
    assert_eq!(
        build,
        vec![
            FreshStep::CreateHierarchy,
            FreshStep::OpenSuperblock,
            FreshStep::HydratePurgeGeneration,
            FreshStep::RestoreOffsets,
            FreshStep::ConfigureConsumerOffsets,
            FreshStep::EnsureInitialSegment,
            FreshStep::ClaimReservation
        ]
    );
    assert_eq!(
        load_partition::<Code>(LoadStep::EnsureInitialSegment, Ok(())),
        LoadProgress::Loaded
    );
    assert_eq!(
        load_partition(LoadStep::HydrateLog, Err(PartitionLoadError::<Code>::Source(7))),
        LoadProgress::Fail(PartitionLoadError::Source(7))
    );
    assert_eq!(
        build_partition_fresh(
            FreshStep::EnsureInitialSegment,
            Err(PartitionLoadError::<Code>::Source(7)),
            NAMESPACE
        ),
        FreshProgress::Fail {
            error: PartitionLoadError::Source(7),
            clear_counters: false
        }
    );
    assert_eq!(
        build_partition_fresh::<Code>(FreshStep::ClaimReservation, Ok(()), NAMESPACE),
        FreshProgress::Built
    );
    assert!(is_restart(3, true));
    assert!(!is_restart(1, true));
    assert!(!is_restart(3, false));
}

#[test]
fn reopen_failures_are_told_apart() {
    assert_eq!(
        hydrate_reopen_error::<Code>(
            ReopenError::SizeMismatch {
                on_disk_bytes: 5,
                expected_bytes: 6
            },
            DIR.to_owned(),
            NAMESPACE,
            40
        ),
        PartitionLoadError::RecoveryRefused {
            dir: DIR.to_owned(),
            namespace: NAMESPACE,
            reason: PartitionRecoveryRefusal::StorageSizeMismatch {
                start_offset: 40,
                on_disk_bytes: 5,
                expected_bytes: 6
            }
        }
    );
    assert_eq!(
        hydrate_reopen_error::<Code>(ReopenError::Source(9), DIR.to_owned(), NAMESPACE, 40),
        PartitionLoadError::Source(9),
        "any other failure is handed on as it came"
    );
}

const UNSET: TopicRuntimeOptions = TopicRuntimeOptions {
    segment_size: None,
    enforce_fsync: None,
    preallocate_segments: None,
};

const DEFAULTS: EffectiveOptions = EffectiveOptions {
    segment_size: 1_048_576,
    enforce_fsync: false,
    preallocate_segments: true,
};

#[test]
fn planted_segment_is_named_for_the_append_point() {
    const RESERVED: u64 = 65_537;
    assert_eq!(
        ensure_initial_segment(false, RESERVED, &UNSET, &DEFAULTS),
        Some(InitialSegment {
            writers: SegmentWriters {
                index: 0,
                start_offset: RESERVED,
                segment_size: 1_048_576,
                enforce_fsync: false,
                file_exists: false,
                preallocate: Some(1_048_576)
            },
            counted_segments: 1
        })
    );
    assert_eq!(
        ensure_initial_segment(true, RESERVED, &UNSET, &DEFAULTS),
        None
    );
}

#[test]
fn topic_options_override_the_defaults() {
    let topic = TopicRuntimeOptions {
        segment_size: Some(4_096),
        enforce_fsync: Some(true),
        preallocate_segments: Some(false),
    };
    assert_eq!(
        effective_options(&topic, &DEFAULTS),
        EffectiveOptions {
            segment_size: 4_096,
            enforce_fsync: true,
            preallocate_segments: false
        }
    );
    assert_eq!(effective_options(&UNSET, &DEFAULTS), DEFAULTS);
    let handles = StorageHandles {
        messages_reader: true,
        index_reader: true,
        messages_writer: true,
        index_writer: true,
    };
    assert_eq!(
        hydrate_partition_log(&vec![0, 10, 20], &handles, &topic, &DEFAULTS),
        Some(SegmentWriters {
            index: 2,
            start_offset: 20,
            segment_size: 4_096,
            enforce_fsync: true,
            file_exists: true,
            preallocate: None
        })
    );
    assert_eq!(
        hydrate_partition_log(&vec![], &handles, &topic, &DEFAULTS),
        None
    );
    let unwritable = StorageHandles {
        index_writer: false,
        ..handles
    };
    assert_eq!(
        hydrate_partition_log(&vec![0], &unwritable, &topic, &DEFAULTS),
        None
    );
}

#[test]
fn directories_are_created_outermost_first() {
    let mut created = vec![first_directory()];
    while let Ok(Some(next)) =
        create_partition_file_hierarchy(created[created.len() - 1], true, &NAMESPACE)
    {
        created.push(next);
    }
    assert_eq!(
        created,
        vec![
            PartitionDirectory::Partition,
            PartitionDirectory::Offsets,
            PartitionDirectory::ConsumerOffsets,
            PartitionDirectory::ConsumerGroupOffsets
        ]
    );
    assert_eq!(
        create_partition_file_hierarchy(PartitionDirectory::Partition, false, &NAMESPACE),
        Err(PartitionFilesError::CannotCreatePartitionDirectory {
            partition_id: 3,
            stream_id: 1,
            topic_id: 2
        })
    );
    assert_eq!(
        create_partition_file_hierarchy(PartitionDirectory::Offsets, false, &NAMESPACE),
        Err(PartitionFilesError::CannotCreatePartition {
            partition_id: 3,
            stream_id: 1,
            topic_id: 2
        })
    );
}

#[test]
fn deleting_an_absent_partition_succeeds() {
    assert_eq!(
        delete_partitions_from_disk(RemoveOutcome::Removed, &NAMESPACE),
        Ok(())
    );
    assert_eq!(
        delete_partitions_from_disk(RemoveOutcome::NotFound, &NAMESPACE),
        Ok(())
    );
    assert_eq!(
        delete_partitions_from_disk(RemoveOutcome::Failed, &NAMESPACE),
        Err(PartitionFilesError::CannotDeletePartitionDirectory {
            partition_id: 3,
            stream_id: 1,
            topic_id: 2
        })
    );
}

fn segment(start_offset: u64, end_offset: u64, size: u64) -> SegmentExtent {
    SegmentExtent {
        start_offset,
        end_offset,
        size,
    }
}

#[test]
fn offset_counter_follows_the_data() {
    let restored = restore_partition_offsets(
        &vec![segment(0, 9, 100), segment(10, 19, 100), segment(20, 20, 0)],
        &solo_state(500, 900),
        3,
    );
    assert_eq!(
        restored.frontiers,
        OffsetFrontiers {
            committed: 500,
            append_point: 500
        },
        "the record is a lower bound, and a group with peers has no reservation"
    );
    assert_eq!(restored.recovered_durable_offset, Some(19));
    assert_eq!(restored.counter, 19);
    assert!(restored.is_offset_space_used);
    assert!(!restored.reanchors);
}

#[test]
fn data_beyond_the_record_wins() {
    let chain = vec![segment(0, 99, 100)];
    for (recorded, append_point) in [
        (None, 100),
        (solo_state(40, 0), 100),
        (solo_state(40, 60), 100),
        (solo_state(40, 300), 300),
    ] {
        let restored = restore_partition_offsets(&chain, &recorded, 1);
        assert_eq!(restored.counter, 99);
        assert_eq!(
            restored.frontiers,
            OffsetFrontiers {
                committed: 100,
                append_point
            }
        );
    }
    let full = restore_partition_offsets(&vec![segment(0, u64::MAX, 1)], &None, 3);
    assert_eq!(full.frontiers.append_point, u64::MAX);
}

#[test]
fn an_empty_chains_name_is_bounded_by_the_record() {
    let chain = vec![segment(65_537, 65_537, 0)];
    let unrecorded = restore_partition_offsets(&chain, &None, 1);
    assert_eq!(
        unrecorded.frontiers,
        OffsetFrontiers {
            committed: 0,
            append_point: 0
        }
    );
    assert_eq!(unrecorded.recovered_durable_offset, None);
    assert_eq!(unrecorded.counter, 0);
    assert!(!unrecorded.is_offset_space_used);
    assert!(unrecorded.reanchors);

    let reserved = restore_partition_offsets(&chain, &solo_state(0, 65_537), 1);
    assert_eq!(reserved.counter, 0);
    assert!(!reserved.is_offset_space_used);
    assert_eq!(
        reserved.frontiers,
        OffsetFrontiers {
            committed: 0,
            append_point: 65_537
        },
        "a reservation names no data"
    );

    let recorded = restore_partition_offsets(&chain, &solo_state(40, 0), 1);
    assert_eq!(recorded.counter, 39);
    assert!(recorded.is_offset_space_used);

    let beyond = restore_partition_offsets(&chain, &solo_state(100_000, 0), 3);
    assert_eq!(beyond.counter, 65_536);

    let nothing = restore_partition_offsets(&vec![], &solo_state(40, 0), 3);
    assert_eq!(nothing.counter, 0);
    assert!(!nothing.is_offset_space_used);
}

fn entry(kind: ConsumerKind, consumer_id: u32, offset: u64) -> ConsumerOffset {
    ConsumerOffset {
        kind,
        consumer_id,
        offset,
        path: format!("offsets/{consumer_id}"),
    }
}

#[test]
fn consumer_positions_are_bounded_to_the_offset_space() {
    assert_eq!(offset_space_ceiling(10, 0), 10);
    assert_eq!(offset_space_ceiling(10, 5), 10);
    assert_eq!(offset_space_ceiling(10, 21), 20);
    let consumers = RecoveredOffsets {
        entries: vec![
            entry(ConsumerKind::Consumer, 1, 20),
            entry(ConsumerKind::Consumer, 2, 21),
        ],
        stranded_ids: vec![7],
    };
    let groups = RecoveredOffsets {
        entries: vec![
            (
                ConsumerGroupId(3),
                entry(ConsumerKind::ConsumerGroup, 3, u64::MAX),
            ),
            (ConsumerGroupId(4), entry(ConsumerKind::ConsumerGroup, 4, 0)),
        ],
        stranded_ids: vec![8, 9],
    };
    let plan = configure_consumer_offsets(consumers, groups, 10, 21);
    let positions: Vec<(u32, u64)> = plan
        .consumers
        .iter()
        .map(|kept| (kept.consumer_id, kept.offset))
        .collect();
    assert_eq!(positions, vec![(1, 20), (2, 10)]);
    assert_eq!(plan.groups[0].0, ConsumerGroupId(3));
    assert_eq!(plan.groups[0].1.offset, 10);
    assert_eq!(plan.groups[1].1.offset, 0);
    assert_eq!(plan.consumers[0].path, "offsets/1");
    let seed = |kind, consumer_id, committed_offset, recovered_offset| SeededOffset {
        kind,
        consumer_id,
        committed_offset,
        recovered_offset,
    };
    assert_eq!(
        plan.seeds,
        vec![
            seed(ConsumerKind::Consumer, 1, 20, 20),
            seed(ConsumerKind::Consumer, 2, 10, 21),
            seed(ConsumerKind::ConsumerGroup, 3, 10, u64::MAX),
            seed(ConsumerKind::ConsumerGroup, 4, 0, 0)
        ]
    );
    assert_eq!(
        plan.stranded,
        vec![
            StrandedOffset {
                kind: ConsumerKind::Consumer,
                id: 7
            },
            StrandedOffset {
                kind: ConsumerKind::ConsumerGroup,
                id: 8
            },
            StrandedOffset {
                kind: ConsumerKind::ConsumerGroup,
                id: 9
            }
        ]
    );
    assert!(exceeds_admission_limit(5, 4));
    assert!(!exceeds_admission_limit(4, 4));
}

#[test]
fn missing_offset_directories_mean_no_offsets() {
    let settle = |existed, loaded, exists| {
        settle_offsets_load(
            ConsumerKind::ConsumerGroup,
            NAMESPACE,
            "offsets".to_owned(),
            existed,
            loaded,
            exists,
        )
    };
    let recovered = || {
        Ok(RecoveredOffsets {
            entries: vec![5u8],
            stranded_ids: vec![6],
        })
    };
    let unreadable = || {
        Err(OffsetsLoadError::CannotReadConsumerOffsets {
            path: "offsets".to_owned(),
        })
    };
    let failed = |source| PartitionLoadError::<Code>::ConsumerOffsetsLoad {
        kind: ConsumerKind::ConsumerGroup,
        namespace: NAMESPACE,
        path: "offsets".to_owned(),
        source,
    };
    let used = settle(true, recovered(), true).unwrap_or_else(|_| panic!("loaded offsets"));
    assert_eq!(used.entries, vec![5]);
    assert_eq!(used.stranded_ids, vec![6]);
    for (existed, loaded) in [(false, recovered()), (true, unreadable())] {
        let empty = settle(existed, loaded, false).unwrap_or_else(|_| panic!("no offsets"));
        assert!(empty.entries.is_empty());
        assert!(empty.stranded_ids.is_empty());
    }
    assert_eq!(
        settle(true, unreadable(), true).err(),
        Some(failed(OffsetsLoadError::CannotReadConsumerOffsets {
            path: "offsets".to_owned()
        }))
    );
    assert_eq!(
        settle(true, Err(OffsetsLoadError::Source(8)), false).err(),
        Some(failed(OffsetsLoadError::Source(8)))
    );
}
