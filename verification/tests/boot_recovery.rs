use iggy_server::boot::recovery::{
    incarnation_from, plan_metadata_restore, recovery_barrier_deadline, repipeline_suffix,
    restore_metadata_consensus, DurableView, JoinMode, PrepareHead, RecoveredOwnerState,
    RestoreTuning,
};
use iggy_server::boot::superblock::{
    superblock_retry_backoff_micros, superblock_wedged_fatal_failures,
    superblock_window_to_failures,
};
use std::time::Duration;

const RECOVERY_BARRIER_DEADLINE_FLOOR: Duration = Duration::from_secs(15);

#[test]
fn superblock_fatal_window_converts_to_capped_backoff_retries() {
    assert_eq!(
        superblock_window_to_failures(Duration::ZERO),
        0,
        "zero window must stay the disabled sentinel"
    );
    assert_eq!(
        superblock_window_to_failures(Duration::from_secs(120)),
        126,
        "the six warmup retries spend 1.26s, not 6s: 120 would fire at ~114.26s"
    );
    assert_eq!(
        superblock_window_to_failures(Duration::from_secs(30)),
        36,
        "the configured floor for a nonzero window"
    );
    assert_eq!(
        superblock_window_to_failures(Duration::from_micros(500)),
        2,
        "a window shorter than the first retry must not fail-stop on the \
         very first failure, before any of it elapsed"
    );
}

#[test]
fn given_a_fatal_window_when_converted_should_never_fire_before_it_elapses() {
    for window in [
        Duration::from_secs(30),
        Duration::from_secs(45),
        Duration::from_secs(120),
        Duration::from_secs(600),
    ] {
        let threshold = superblock_window_to_failures(window);
        let arrival = |count: u64| -> u128 {
            (1..count)
                .map(|wait| u128::from(superblock_retry_backoff_micros(wait)))
                .sum()
        };
        assert!(
            arrival(threshold) >= window.as_micros(),
            "{window:?}: failure {threshold} arrives at {}us, inside the window",
            arrival(threshold)
        );
        assert!(
            arrival(threshold - 1) < window.as_micros(),
            "{window:?}: failure {} already covers the window, so {threshold} is late",
            threshold - 1
        );
    }
}

#[test]
fn retry_schedule_doubles_up_to_its_cap() {
    let waits: Vec<u64> = (0..10).map(superblock_retry_backoff_micros).collect();
    assert_eq!(
        waits,
        vec![
            10_000, 20_000, 40_000, 80_000, 160_000, 320_000, 640_000, 1_000_000, 1_000_000,
            1_000_000
        ]
    );
    assert_eq!(superblock_retry_backoff_micros(u64::MAX), 1_000_000);
}

#[test]
fn fatal_window_edges() {
    assert_eq!(
        superblock_window_to_failures(Duration::from_nanos(500)),
        2,
        "failure one arrives at zero, inside every nonzero window"
    );
    assert_eq!(superblock_window_to_failures(Duration::from_nanos(1)), 2);
    assert_eq!(superblock_window_to_failures(Duration::from_millis(20)), 2);
    assert_eq!(superblock_window_to_failures(Duration::from_micros(20_001)), 3);
    assert_eq!(
        superblock_window_to_failures(Duration::from_nanos(20_000_500)),
        3,
        "failure two arrives 500ns before this window ends"
    );
    assert_eq!(
        superblock_wedged_fatal_failures(Duration::from_secs(30)),
        Some(36)
    );
    assert_eq!(superblock_wedged_fatal_failures(Duration::ZERO), Some(0));
    assert_eq!(superblock_wedged_fatal_failures(Duration::MAX), None);
}

#[test]
fn recovery_barrier_deadline_holds_the_floor_for_small_heartbeats() {
    assert_eq!(
        recovery_barrier_deadline(Duration::from_secs(1), Duration::from_secs(5)),
        RECOVERY_BARRIER_DEADLINE_FLOOR
    );
    assert_eq!(
        recovery_barrier_deadline(Duration::from_secs(5), Duration::from_secs(5)),
        RECOVERY_BARRIER_DEADLINE_FLOOR
    );
}

#[test]
fn recovery_barrier_deadline_scales_past_the_floor_for_large_heartbeats() {
    assert_eq!(
        recovery_barrier_deadline(Duration::from_secs(10), Duration::from_secs(5)),
        Duration::from_secs(30)
    );
    assert_eq!(
        recovery_barrier_deadline(Duration::from_secs(15), Duration::from_secs(5)),
        Duration::from_secs(45)
    );
}

#[test]
fn recovery_barrier_deadline_scales_with_the_status_backstop() {
    assert_eq!(
        recovery_barrier_deadline(Duration::from_secs(1), Duration::from_secs(10)),
        Duration::from_secs(30)
    );
}

#[test]
fn recovery_barrier_deadline_at_config_defaults_matches_the_floor() {
    let heartbeat_timeout = Duration::from_secs(5);
    let view_change_status_timeout = Duration::from_secs(5);
    assert_eq!(
        recovery_barrier_deadline(heartbeat_timeout, view_change_status_timeout),
        RECOVERY_BARRIER_DEADLINE_FLOOR
    );
}

#[test]
fn recovery_barrier_deadline_saturates_instead_of_panicking() {
    assert_eq!(
        recovery_barrier_deadline(Duration::MAX, Duration::from_secs(5)),
        Duration::MAX
    );
    assert_eq!(
        recovery_barrier_deadline(Duration::from_secs(5), Duration::MAX),
        Duration::MAX
    );
}

#[test]
fn recovery_barrier_deadline_keeps_fractions() {
    assert_eq!(
        recovery_barrier_deadline(Duration::new(7, 333_333_333), Duration::ZERO),
        Duration::new(21, 999_999_999)
    );
}

const NOTHING: RecoveredOwnerState = RecoveredOwnerState {
    snapshot_op: None,
    last_applied_op: None,
    last_journaled_op: None,
    recovered_state: None,
    last_header: None,
};

const HEAD: PrepareHead = PrepareHead {
    view: 4,
    checksum: 0xfeed,
    timestamp: 77,
};

fn tuning() -> RestoreTuning {
    RestoreTuning {
        heartbeat_timeout: Duration::from_secs(5),
        view_change_status_timeout: Duration::from_secs(20),
        prepare_queue_depth: 32,
    }
}

#[test]
fn fresh_replica_initialises_in_place() {
    let restore = plan_metadata_restore(&NOTHING, 3, &tuning(), 6);
    assert_eq!(restore.join, JoinMode::Init);
    assert_eq!(restore.durable_view, None);
    assert_eq!(restore.view_fallback, None);
    assert_eq!(restore.incarnation, 7);
    assert_eq!(restore.prepare_capacity, 32);
    assert_eq!(restore.request_capacity, 64);
    assert_eq!(restore.restored_op, 0);
    assert_eq!(restore.commit_watermark, 0);
    assert!(restore.recovery_barrier.is_none());
}

#[test]
fn restarted_replica_probes_even_with_an_empty_journal() {
    let owner = RecoveredOwnerState {
        recovered_state: Some(DurableView {
            view: 3,
            log_view: 2,
        }),
        ..NOTHING
    };
    let restore = plan_metadata_restore(&owner, 3, &tuning(), 0);
    assert_eq!(
        restore.join,
        JoinMode::ProbeAsBackup {
            await_state_transfer: true
        }
    );
    assert_eq!(
        restore.durable_view,
        Some(DurableView {
            view: 3,
            log_view: 2
        })
    );
}

#[test]
fn uncommitted_suffix_raises_the_barrier_in_a_cluster_only() {
    let owner = RecoveredOwnerState {
        snapshot_op: Some(10),
        last_applied_op: Some(14),
        last_journaled_op: Some(17),
        recovered_state: None,
        last_header: Some(HEAD),
    };
    let restore = plan_metadata_restore(&owner, 3, &tuning(), 0);
    assert_eq!(restore.commit_watermark, 14);
    assert_eq!(restore.restored_op, 17);
    assert_eq!(restore.view_fallback, Some(4));
    assert_eq!(restore.last_prepare, Some(HEAD));
    let barrier = restore.recovery_barrier.expect("an uncommitted suffix");
    assert_eq!(barrier.barrier_op, 17);
    assert_eq!(barrier.deadline, Duration::from_secs(60));

    let solo = plan_metadata_restore(&owner, 1, &tuning(), 0);
    assert_eq!(solo.commit_watermark, 17);
    assert_eq!(solo.join, JoinMode::Init);
    assert!(solo.recovery_barrier.is_none());
}

#[test]
fn snapshot_stands_for_a_missing_journal() {
    let owner = RecoveredOwnerState {
        snapshot_op: Some(10),
        ..NOTHING
    };
    let restore = plan_metadata_restore(&owner, 3, &tuning(), 0);
    assert_eq!(restore.restored_op, 10);
    assert_eq!(restore.commit_watermark, 10);
    assert!(restore.recovery_barrier.is_none());
    assert_eq!(
        restore.join,
        JoinMode::ProbeAsBackup {
            await_state_transfer: true
        }
    );
}

#[test]
fn incarnations_are_never_zero() {
    assert_eq!(incarnation_from(0), 1);
    assert_eq!(incarnation_from(5), 5);
    assert_eq!(incarnation_from(u128::MAX), u128::MAX);
    for _ in 0..16 {
        let restore = restore_metadata_consensus(&NOTHING, 3, &tuning());
        assert_eq!(restore.incarnation % 2, 1);
    }
}

#[test]
fn two_boots_draw_different_incarnations() {
    let first = restore_metadata_consensus(&NOTHING, 1, &tuning()).incarnation;
    let second = restore_metadata_consensus(&NOTHING, 1, &tuning()).incarnation;
    assert_ne!(first, second);
}

#[test]
fn suffix_is_repipelined_up_to_the_first_gap() {
    let owner = RecoveredOwnerState {
        last_applied_op: Some(14),
        last_journaled_op: Some(18),
        ..NOTHING
    };
    let restore = plan_metadata_restore(&owner, 3, &tuning(), 0);
    let headers = vec![Some(HEAD), Some(HEAD), None, Some(HEAD)];
    let entries =
        repipeline_suffix(&restore, true, false, 2, &headers).expect("a primary's suffix");
    assert_eq!(entries.len(), 2);
    assert_eq!(entries[0].op, 15);
    assert_eq!(entries[1].op, 16);
    assert_eq!(entries[0].acked_by, 2);
    assert_eq!(entries[1].header, HEAD);
    assert!(repipeline_suffix(&restore, false, false, 2, &headers).is_none());
    assert!(repipeline_suffix(&restore, true, true, 2, &headers).is_none());
    let committed = plan_metadata_restore(&owner, 1, &tuning(), 0);
    assert!(repipeline_suffix(&committed, true, false, 2, &vec![]).is_none());
}
