use iggy_server::shell::{
    cluster_heartbeat_ticks, commit_broadcast_ticks, consensus_timers, duration_to_ticks,
    prepare_retransmit_ticks, repair_gap_debounce_ticks, repair_retry_ticks,
    request_start_view_ticks, view_change_retransmit_ticks, view_change_status_ticks,
    ClusterConfig, ConsensusTimers,
};
use std::time::Duration;

fn config() -> ClusterConfig {
    ClusterConfig {
        heartbeat_timeout: Duration::from_millis(100),
        commit_broadcast_interval: Duration::from_millis(200),
        prepare_retransmit_interval: Duration::from_millis(300),
        view_change_retransmit_interval: Duration::from_millis(400),
        view_change_status_timeout: Duration::from_millis(500),
        request_start_view_retransmit_interval: Duration::from_millis(600),
        view_probe_attempts_max: 7,
        repair_retry_interval: Duration::from_millis(800),
        repair_gap_debounce_interval: Duration::from_millis(900),
    }
}

#[test]
fn ticks_round_down_to_at_least_one() {
    assert_eq!(duration_to_ticks(Duration::ZERO), 1);
    assert_eq!(duration_to_ticks(Duration::from_millis(9)), 1);
    assert_eq!(duration_to_ticks(Duration::from_millis(19)), 1);
    assert_eq!(duration_to_ticks(Duration::from_millis(20)), 2);
    assert_eq!(duration_to_ticks(Duration::from_secs(5)), 500);
    assert_eq!(duration_to_ticks(Duration::MAX), u64::MAX);
}

#[test]
fn every_timer_reads_its_own_interval() {
    assert_eq!(
        consensus_timers(&config()),
        ConsensusTimers {
            normal_heartbeat_ticks: 10,
            commit_message_ticks: 20,
            prepare_ticks: 30,
            view_change_retransmit_ticks: 40,
            view_change_status_ticks: 50,
            request_start_view_ticks: 60,
            probe_attempts_max: 7,
        }
    );
    assert_eq!(cluster_heartbeat_ticks(&config()), 10);
    assert_eq!(commit_broadcast_ticks(&config()), 20);
    assert_eq!(prepare_retransmit_ticks(&config()), 30);
    assert_eq!(view_change_retransmit_ticks(&config()), 40);
    assert_eq!(view_change_status_ticks(&config()), 50);
    assert_eq!(request_start_view_ticks(&config()), 60);
    assert_eq!(repair_retry_ticks(&config()), 80);
    assert_eq!(repair_gap_debounce_ticks(&config()), 90);
}

#[test]
fn repair_ticks_are_clamped_to_the_idle_counter() {
    let slow = ClusterConfig {
        repair_retry_interval: Duration::MAX,
        repair_gap_debounce_interval: Duration::from_secs(42_949_672),
        ..config()
    };
    assert_eq!(repair_retry_ticks(&slow), u32::MAX);
    assert_eq!(repair_gap_debounce_ticks(&slow), 4_294_967_200);
}
