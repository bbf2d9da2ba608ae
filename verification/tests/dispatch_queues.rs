use iggy_server::dispatch::queues::{ClientRequestQueues, Enqueued, MAX_QUEUED_CLIENT_REQUESTS};

fn frame(number: usize) -> Vec<u8> {
    number.to_le_bytes().to_vec()
}

#[test]
fn draining_a_client_queue_frees_its_entry() {
    const CLIENT: u128 = 7;
    let mut queues = ClientRequestQueues::new();
    assert!(matches!(
        queues.enqueue_client_request(CLIENT, frame(1)),
        Enqueued::StartDrain
    ));

    assert!(!queues.is_empty());
    assert!(queues.pop_next_client_request(CLIENT).is_some());
    assert!(
        queues.is_empty(),
        "the entry must be freed as soon as it drains empty"
    );
    assert!(
        queues.pop_next_client_request(CLIENT).is_none(),
        "a drained client has nothing left to pop"
    );
}

#[test]
fn requests_of_a_client_come_out_in_order() {
    const CLIENT: u128 = 7;
    const OTHER: u128 = 8;
    let mut queues = ClientRequestQueues::new();
    for number in 0..5 {
        queues.enqueue_client_request(CLIENT, frame(number));
        queues.enqueue_client_request(OTHER, frame(100 + number));
    }
    for number in 0..5 {
        assert_eq!(queues.pop_next_client_request(CLIENT), Some(frame(number)));
    }
    assert_eq!(queues.pop_next_client_request(CLIENT), None);
    assert_eq!(queues.pop_next_client_request(OTHER), Some(frame(100)));
}

#[test]
fn one_drain_runs_per_client() {
    const CLIENT: u128 = 7;
    let mut queues = ClientRequestQueues::new();
    assert!(matches!(
        queues.enqueue_client_request(CLIENT, frame(1)),
        Enqueued::StartDrain
    ));
    assert!(matches!(
        queues.enqueue_client_request(CLIENT, frame(2)),
        Enqueued::Waiting
    ));
    assert!(matches!(
        queues.enqueue_client_request(CLIENT + 1, frame(3)),
        Enqueued::StartDrain
    ));
    queues.release_drain(CLIENT);
    assert!(matches!(
        queues.enqueue_client_request(CLIENT, frame(4)),
        Enqueued::StartDrain
    ));
}

#[test]
fn a_frame_that_beats_the_shard_is_drained_with_the_next_one() {
    const TRANSPORT: u128 = 98;
    let mut queues = ClientRequestQueues::new();
    assert!(matches!(
        queues.enqueue_client_request(TRANSPORT, frame(1)),
        Enqueued::StartDrain
    ));
    queues.release_drain(TRANSPORT);
    assert!(matches!(
        queues.enqueue_client_request(TRANSPORT, frame(2)),
        Enqueued::StartDrain
    ));
    assert_eq!(queues.pop_next_client_request(TRANSPORT), Some(frame(1)));
    assert_eq!(queues.pop_next_client_request(TRANSPORT), Some(frame(2)));
    assert_eq!(queues.pop_next_client_request(TRANSPORT), None);
}

#[test]
fn a_full_queue_hands_the_request_back() {
    const CLIENT: u128 = 7;
    let mut queues = ClientRequestQueues::new();
    for number in 0..MAX_QUEUED_CLIENT_REQUESTS {
        assert!(!matches!(
            queues.enqueue_client_request(CLIENT, frame(number)),
            Enqueued::QueueFull(_)
        ));
    }
    match queues.enqueue_client_request(CLIENT, frame(9_999)) {
        Enqueued::QueueFull(refused) => assert_eq!(refused, frame(9_999)),
        _ => panic!("a full queue must refuse"),
    }
    assert_eq!(queues.pop_next_client_request(CLIENT), Some(frame(0)));
    assert!(matches!(
        queues.enqueue_client_request(CLIENT, frame(10_000)),
        Enqueued::Waiting
    ));
    let mut last = None;
    let mut count = 0;
    while let Some(popped) = queues.pop_next_client_request(CLIENT) {
        last = Some(popped);
        count += 1;
    }
    assert_eq!(count, MAX_QUEUED_CLIENT_REQUESTS);
    assert_eq!(last, Some(frame(10_000)));
}

#[test]
fn a_lost_connection_forgets_requests_but_keeps_the_drain() {
    const CLIENT: u128 = 7;
    let mut queues = ClientRequestQueues::new();
    queues.enqueue_client_request(CLIENT, frame(1));
    queues.enqueue_client_request(CLIENT, frame(2));
    queues.connection_lost(CLIENT);
    assert!(matches!(
        queues.enqueue_client_request(CLIENT, frame(3)),
        Enqueued::Waiting
    ));
    assert_eq!(queues.pop_next_client_request(CLIENT), Some(frame(3)));
    assert_eq!(queues.pop_next_client_request(CLIENT), None);
}
