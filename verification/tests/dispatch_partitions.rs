use iggy_server::dispatch::auto_commit::{
    auto_commit_build_status, build_auto_commit_body, build_auto_commit_request,
    deny_for_capacity, poll_reply,
    settle_auto_commit_submit, settle_reservation, submit_auto_commit, warn_auto_commit_capacity,
    AckLevel, AdmissionFacts, AutoCommitApplied, AutoCommitBuildError, AutoCommitStep, CapacityWarning,
    ConsumerOffsetCapacityError, PolledBatch, ReservationStep,
};
use iggy_server::dispatch::body::{
    empty_poll_fallback, empty_polled_messages_body, no_offset_body, FrameChannel,
};
use iggy_server::dispatch::partition::{
    consumer_offset_kind, counts_offset_denial, dispatch_partition_request, relay_partition_reply,
    wait_for_partition_routable, PartitionWrite, RelayStep, RoutableStep, RoutableWrite, RouteWait,
    ROUTABLE_ATTEMPT_DELAY_MILLIS, ROUTABLE_MAX_ATTEMPTS,
};
use iggy_server::dispatch::poll::{
    admit_read, answer_consumer_offset, clear_group_last_polled_reply, consumer_offset_reply,
    group_offset_state_reply, place_poll, polling_consumer_from_wire, polling_strategy_from_wire,
    read_polled_messages, resolve_consumer_offset_request, resolve_poll_request,
    segment_delete_reply, start_poll, ConsumerKind, GetConsumerOffsetRequest, OffsetAnswer,
    PartitionReadReply, PollAnswer, PollMessagesRequest, PollPlacement, PollStep, PollingConsumer,
    PollingKind, PollingStrategy, WireConsumer, WireIdentifier, WirePollingStrategy,
};
use iggy_server::dispatch::request::{Group, Namespace, Operation, RoutedRequestHeader};
use iggy_server::dispatch::segments::{
    finish_delete_segments, refuse_delete_segments, resolve_delete_segments_truncate,
    start_delete_segments, DeleteSegmentsEnd, DeleteSegmentsRefusal, DeleteSegmentsStep, Truncate,
    TruncateTarget,
};
use iggy_server::dispatch::session::BoundTransport;
use iggy_server::dispatch::status::Status;

const RESYNC: u32 = u32::MAX;
const STREAM_ID_NOT_FOUND: Status = Status::Code(1009);

const NAMESPACE: Namespace = Namespace {
    stream_id: 1,
    topic_id: 2,
    partition_id: 3,
};

const BOUND: BoundTransport = BoundTransport {
    client: 1,
    session: 77,
};

fn truncate(target: TruncateTarget, up_to_offset: u64) -> Truncate {
    Truncate {
        client: 1,
        session: 77,
        request: 502,
        target,
        up_to_offset,
    }
}

fn write(operation: Operation) -> PartitionWrite {
    PartitionWrite {
        header: RoutedRequestHeader {
            operation,
            client: 500,
            session: 501,
            request: 502,
            user_id: 503,
            group: Group::Unset,
            reserved: [9, 8, 7, 6],
        },
        bound: BoundTransport {
            client: 1,
            session: 1,
        },
        transport_client_id: 91,
        acting_user_id: Some(0),
    }
}

fn routable(write: PartitionWrite) -> RoutableWrite {
    dispatch_partition_request(write)
        .resolved(Ok(NAMESPACE))
        .unwrap_or_else(|_| panic!("a known partition"))
        .authorized(None)
        .unwrap_or_else(|_| panic!("an allowed user"))
        .routable(true)
        .unwrap_or_else(|_| panic!("a partition with a route"))
}

#[test]
fn given_invalid_partition_writes_when_resolving_should_preserve_offset_error_codes() {
    let consumer_group_id_not_found = Status::Code(5000);
    let consumer_group_name_not_found = Status::Code(5006);
    let mut cases = Vec::new();
    for operation in [
        Operation::StoreConsumerOffset,
        Operation::DeleteConsumerOffset,
    ] {
        cases.push((operation, Status::InvalidCommand, Status::InvalidCommand));
        cases.push((operation, STREAM_ID_NOT_FOUND, STREAM_ID_NOT_FOUND));
        cases.push((
            operation,
            consumer_group_id_not_found,
            consumer_group_id_not_found,
        ));
        cases.push((
            operation,
            consumer_group_name_not_found,
            consumer_group_name_not_found,
        ));
    }
    cases.push((
        Operation::SendMessages,
        Status::InvalidCommand,
        Status::ResourceNotFound,
    ));
    for (operation, error, expected) in cases {
        match dispatch_partition_request(write(operation)).resolved(Err(error)) {
            Err(denial) => {
                assert_eq!(denial.status, expected, "{operation:?}");
                assert_eq!(denial.header.client, 500);
            }
            Ok(_) => panic!("{operation:?} must be denied"),
        }
    }
}

#[test]
fn unroutable_partition_send_must_reply_transient_error_not_success() {
    let denial = dispatch_partition_request(write(Operation::SendMessages))
        .resolved(Ok(NAMESPACE))
        .unwrap_or_else(|_| panic!("a known partition"))
        .authorized(None)
        .unwrap_or_else(|_| panic!("an allowed user"))
        .routable(false)
        .err()
        .expect("a partition without a route");
    assert_eq!(denial.status, Status::TransientNotAccepted);
    assert_eq!(denial.header.request, 502);
}

#[test]
fn denied_users_never_reach_the_route() {
    let denial = dispatch_partition_request(write(Operation::SendMessages))
        .resolved(Ok(NAMESPACE))
        .unwrap_or_else(|_| panic!("a known partition"))
        .authorized(Some(Status::Code(41)))
        .err()
        .expect("a denied user");
    assert_eq!(denial.status, Status::Code(41));
}

#[test]
fn writes_are_stamped_with_the_transports_identity() {
    let delivery = routable(write(Operation::SendMessages))
        .delivered(Ok(()))
        .unwrap_or_else(|_| panic!("a rewrite that passes"));
    assert_eq!(delivery.namespace, NAMESPACE);
    assert_eq!(delivery.header.group, Group::Partition(NAMESPACE));
    assert_eq!(delivery.header.client, 1);
    assert_eq!(delivery.header.session, 1);
    assert_eq!(delivery.header.user_id, 0);
    assert_eq!(delivery.header.request, 502);
    assert_eq!(delivery.header.reserved, [9, 8, 7, 6]);
    assert!(delivery.relays_reply);

    let own_id = PartitionWrite {
        transport_client_id: 1,
        acting_user_id: Some(12),
        ..write(Operation::SendMessages)
    };
    let delivery = routable(own_id)
        .delivered(Ok(()))
        .unwrap_or_else(|_| panic!("a rewrite that passes"));
    assert!(!delivery.relays_reply);
    assert_eq!(delivery.header.user_id, 12);

    let denial = routable(write(Operation::StoreConsumerOffset))
        .delivered(Err(Status::Code(5000)))
        .err()
        .expect("a rewrite that fails");
    assert_eq!(denial.status, Status::Code(5000));
    assert_eq!(denial.header.client, 500);
}

#[test]
fn route_wait_gives_up_after_sixty_sleeps() {
    let mut wait = RouteWait::start();
    let mut sleeps = 0;
    loop {
        match wait_for_partition_routable(wait, false) {
            RoutableStep::Sleep(next) => wait = next,
            RoutableStep::GiveUp => break,
            RoutableStep::Routable => panic!("no route was found"),
        }
        sleeps += 1;
    }
    assert_eq!(sleeps, 60);
    assert_eq!(sleeps, ROUTABLE_MAX_ATTEMPTS);
    assert_eq!(u64::from(sleeps) * ROUTABLE_ATTEMPT_DELAY_MILLIS, 3_000);
}

#[test]
fn a_route_found_after_any_sleep_ends_the_wait() {
    for slept in 0..=60 {
        let mut wait = RouteWait::start();
        for _ in 0..slept {
            wait = match wait_for_partition_routable(wait, false) {
                RoutableStep::Sleep(next) => next,
                step => panic!("the wait goes on, not {step:?}"),
            };
        }
        assert_eq!(
            wait_for_partition_routable(wait, true),
            RoutableStep::Routable
        );
    }
}

#[test]
fn refused_offsets_are_counted_by_kind() {
    let store = Operation::StoreConsumerOffset;
    assert_eq!(
        consumer_offset_kind(store, &[1, 9]),
        Some(ConsumerKind::Consumer)
    );
    assert_eq!(
        consumer_offset_kind(store, &[2]),
        Some(ConsumerKind::ConsumerGroup)
    );
    assert_eq!(consumer_offset_kind(store, &[3]), None);
    assert_eq!(consumer_offset_kind(store, &[]), None);
    assert_eq!(consumer_offset_kind(Operation::SendMessages, &[1]), None);
    let kind = Some(ConsumerKind::Consumer);
    assert_eq!(
        counts_offset_denial(kind, Some(Status::TooManyConsumerOffsets)),
        kind
    );
    assert_eq!(counts_offset_denial(kind, Some(Status::Code(0))), None);
    assert_eq!(counts_offset_denial(kind, None), None);
    assert_eq!(
        counts_offset_denial(None, Some(Status::TooManyConsumerOffsets)),
        None
    );
}

#[test]
fn refused_relay_is_denied_at_once() {
    let header = write(Operation::SendMessages).header;
    assert!(matches!(
        relay_partition_reply(&header, true),
        RelayStep::AwaitReply
    ));
    match relay_partition_reply(&header, false) {
        RelayStep::Deny(denial) => {
            assert_eq!(denial.status, Status::TransientNotAccepted);
            assert_eq!(denial.header.client, 500);
        }
        RelayStep::AwaitReply => panic!("a refused submit"),
    }
}

#[test]
fn undecodable_read_bodies_must_deny_typed_not_fabricate_success() {
    assert_eq!(admit_read(false, None), Err(Status::InvalidCommand));
    let header = write(Operation::DeleteSegments).header;
    assert_eq!(
        start_delete_segments(&header, BOUND, false, &Ok(NAMESPACE)),
        DeleteSegmentsStep::Fail(Status::InvalidCommand)
    );
    match refuse_delete_segments(&header, BOUND, Status::InvalidCommand) {
        DeleteSegmentsRefusal::Deny(denial) => {
            assert_eq!(denial.status, Status::InvalidCommand);
            assert_eq!(denial.header.operation, Operation::DeleteSegments);
            assert_eq!(denial.header.client, 500);
        }
        DeleteSegmentsRefusal::Reject { .. } => panic!("not a transient failure"),
    }
    assert_eq!(
        admit_read(true, Some(Status::Code(41))),
        Err(Status::Code(41))
    );
    assert_eq!(admit_read(true, None), Ok(()));
}

fn poll(kind: u8, partition_id: Option<u32>) -> PollMessagesRequest {
    PollMessagesRequest {
        consumer: WireConsumer {
            kind,
            id: WireIdentifier::Numeric(1),
        },
        partition_id,
        strategy: WirePollingStrategy { kind: 1, value: 0 },
        count: 10,
        auto_commit: false,
    }
}

#[test]
fn unresolved_read_targets_must_deny_typed_not_read_as_empty() {
    let resolved = resolve_poll_request(&poll(1, Some(1)), 1, None, &Err(STREAM_ID_NOT_FOUND));
    assert_eq!(resolved, Err(STREAM_ID_NOT_FOUND));
    assert!(matches!(
        start_poll(&resolved, RESYNC),
        PollStep::Deny(status) if status == STREAM_ID_NOT_FOUND
    ));
    let wire = GetConsumerOffsetRequest {
        consumer: WireConsumer {
            kind: 1,
            id: WireIdentifier::Numeric(1),
        },
        partition_id: Some(1),
    };
    let resolved = resolve_consumer_offset_request(&wire, None, &Err(STREAM_ID_NOT_FOUND));
    assert_eq!(resolved, Err(STREAM_ID_NOT_FOUND));
    assert!(matches!(
        answer_consumer_offset(&resolved, &None),
        OffsetAnswer::Deny(status) if status == STREAM_ID_NOT_FOUND
    ));
}

#[test]
fn polling_strategies_keep_their_value() {
    let kinds = [
        PollingKind::Offset,
        PollingKind::Timestamp,
        PollingKind::First,
        PollingKind::Last,
        PollingKind::Next,
    ];
    for (at, kind) in kinds.into_iter().enumerate() {
        let wire = WirePollingStrategy {
            kind: at as u8 + 1,
            value: 77,
        };
        assert_eq!(
            polling_strategy_from_wire(&wire),
            Ok(PollingStrategy { kind, value: 77 })
        );
    }
    for kind in [0, 6, 255] {
        assert_eq!(
            polling_strategy_from_wire(&WirePollingStrategy { kind, value: 1 }),
            Err(Status::InvalidCommand)
        );
    }
}

#[test]
fn consumers_are_keyed_by_number_or_hash() {
    let numeric = WireConsumer {
        kind: 1,
        id: WireIdentifier::Numeric(5),
    };
    let named = WireConsumer {
        kind: 2,
        id: WireIdentifier::Named { hash: 0xABCD },
    };
    assert_eq!(
        polling_consumer_from_wire(&numeric, 4),
        Ok(PollingConsumer::Consumer(5, 4))
    );
    assert_eq!(
        polling_consumer_from_wire(&named, 4),
        Ok(PollingConsumer::ConsumerGroup(0xABCD, 4))
    );
    assert_eq!(
        polling_consumer_from_wire(&WireConsumer { kind: 3, ..numeric }, 4),
        Err(Status::InvalidCommand)
    );
}

#[test]
fn plain_polls_default_to_the_first_partition() {
    assert_eq!(poll(1, None).partition(), Some(0));
    assert_eq!(poll(2, None).partition(), None);
    assert_eq!(poll(2, Some(6)).partition(), Some(6));
    let resolved = resolve_poll_request(&poll(1, None), 1, None, &Ok(NAMESPACE))
        .expect("a poll that resolves");
    assert_eq!(resolved.partition_id, 0);
    assert_eq!(resolved.consumer, PollingConsumer::Consumer(1, 0));
    assert_eq!(resolved.args.count, 10);
    assert_eq!(resolved.namespace, NAMESPACE);
}

#[test]
fn group_polls_are_fenced() {
    let wire = poll(2, Some(6));
    assert_eq!(
        resolve_poll_request(&poll(2, None), 1, Some(3), &Ok(NAMESPACE)),
        Err(Status::InvalidIdentifier)
    );
    let client_id = (1u128 << 64) + 42;
    let fenced = resolve_poll_request(&wire, client_id, None, &Ok(NAMESPACE));
    assert_eq!(
        fenced,
        Err(Status::ConsumerGroupPartitionNotOwned {
            client_id: 42,
            partition_id: 6
        })
    );
    match start_poll(&fenced, RESYNC) {
        PollStep::AnswerEmpty(body, channel) => {
            assert_eq!(channel, FrameChannel::ResyncSentinel);
            assert_eq!(&body[..4], &RESYNC.to_le_bytes());
        }
        _ => panic!("a fence asks for a resync"),
    }
    let granted = resolve_poll_request(&wire, client_id, Some(900), &Ok(NAMESPACE))
        .expect("a granted partition");
    assert_eq!(granted.consumer, PollingConsumer::ConsumerGroup(900, 6));
    let odd = PollMessagesRequest {
        strategy: WirePollingStrategy { kind: 9, value: 0 },
        ..wire
    };
    assert_eq!(
        resolve_poll_request(&odd, client_id, None, &Ok(NAMESPACE)),
        Err(Status::InvalidCommand),
        "the strategy is judged first"
    );
    assert!(matches!(
        start_poll(&Ok(granted), RESYNC),
        PollStep::Read(decoded) if decoded == granted
    ));
}

#[test]
fn empty_polls_are_sixteen_bytes() {
    let body = empty_polled_messages_body(0x0102_0304);
    assert_eq!(
        body.as_ref(),
        &[4, 3, 2, 1, 0, 0, 0, 0, 0, 0, 0, 0, 0, 0, 0, 0]
    );
    let (body, channel) = empty_poll_fallback(7, RESYNC);
    assert_eq!(body.len(), 16);
    assert_eq!(channel, FrameChannel::EmptyFrame);
    let (_, channel) = empty_poll_fallback(RESYNC, RESYNC);
    assert_eq!(channel, FrameChannel::ResyncSentinel);
    assert!(no_offset_body().is_empty());
}

#[test]
fn polls_are_answered_by_what_the_partition_said() {
    let polled = Some(PartitionReadReply::Poll { current_offset: 4 });
    assert!(matches!(
        read_polled_messages(7, &polled, true, RESYNC),
        PollAnswer::Reply
    ));
    let rejected = Some(PartitionReadReply::Rejected(Status::TransientNotAccepted));
    assert!(matches!(
        read_polled_messages(7, &rejected, true, RESYNC),
        PollAnswer::Deny(Status::TransientNotAccepted)
    ));
    for (reply, is_rendered) in [
        (polled, false),
        (None, true),
        (Some(PartitionReadReply::NotFound), true),
        (Some(PartitionReadReply::Ack), true),
    ] {
        match read_polled_messages(7, &reply, is_rendered, RESYNC) {
            PollAnswer::AnswerEmpty(body, channel) => {
                assert_eq!(&body[..4], &7u32.to_le_bytes());
                assert_eq!(channel, FrameChannel::EmptyFrame);
            }
            _ => panic!("an empty poll"),
        }
    }
}

#[test]
fn offsets_are_answered_by_what_is_stored() {
    let wire = GetConsumerOffsetRequest {
        consumer: WireConsumer {
            kind: 2,
            id: WireIdentifier::Numeric(8),
        },
        partition_id: None,
    };
    assert_eq!(wire.partition(), 0);
    assert_eq!(
        resolve_consumer_offset_request(&wire, None, &Ok(NAMESPACE)),
        Ok(None),
        "an unknown group has no offset"
    );
    let resolved = resolve_consumer_offset_request(&wire, Some(30), &Ok(NAMESPACE));
    let decoded = resolved.expect("a known group").expect("a known group");
    assert_eq!(decoded.consumer, PollingConsumer::ConsumerGroup(30, 0));
    let odd = GetConsumerOffsetRequest {
        consumer: WireConsumer {
            kind: 7,
            id: WireIdentifier::Numeric(8),
        },
        ..wire
    };
    assert_eq!(
        resolve_consumer_offset_request(&odd, None, &Ok(NAMESPACE)),
        Err(Status::InvalidCommand)
    );
    let stored = Some(PartitionReadReply::ConsumerOffset {
        stored: Some(5),
        current_offset: 9,
    });
    match answer_consumer_offset(&Ok(Some(decoded)), &stored) {
        OffsetAnswer::Stored {
            partition_id,
            current_offset,
            stored_offset,
        } => assert_eq!((partition_id, current_offset, stored_offset), (0, 9, 5)),
        _ => panic!("a stored offset"),
    }
    let unstored = Some(PartitionReadReply::ConsumerOffset {
        stored: None,
        current_offset: 9,
    });
    for (request, reply) in [(Some(decoded), unstored), (None, stored), (None, None)] {
        match answer_consumer_offset(&Ok(request), &reply) {
            OffsetAnswer::NothingStored(body) => assert!(body.is_empty()),
            _ => panic!("nothing stored"),
        }
    }
    for reply in [
        None,
        Some(PartitionReadReply::NotFound),
        Some(PartitionReadReply::Ack),
    ] {
        assert!(
            matches!(
                answer_consumer_offset(&Ok(Some(decoded)), &reply),
                OffsetAnswer::Deny(Status::TransientNotAccepted)
            ),
            "a read without an answer must not pass for a fresh consumer"
        );
    }
}

#[test]
fn owning_shard_answers_reads() {
    assert_eq!(place_poll(None), PollPlacement::NotFound);
    assert_eq!(place_poll(Some(true)), PollPlacement::OffPump);
    assert_eq!(place_poll(Some(false)), PollPlacement::Resident);
    assert_eq!(consumer_offset_reply(None), PartitionReadReply::NotFound);
    assert_eq!(
        consumer_offset_reply(Some((Some(1), 2))),
        PartitionReadReply::ConsumerOffset {
            stored: Some(1),
            current_offset: 2
        }
    );
    assert_eq!(group_offset_state_reply(None), PartitionReadReply::NotFound);
    assert_eq!(
        group_offset_state_reply(Some((None, Some(4)))),
        PartitionReadReply::GroupOffsetState {
            last_polled: None,
            committed: Some(4)
        }
    );
    assert_eq!(clear_group_last_polled_reply(true), PartitionReadReply::Ack);
    assert_eq!(
        clear_group_last_polled_reply(false),
        PartitionReadReply::NotFound
    );
    assert_eq!(segment_delete_reply(None), PartitionReadReply::NotFound);
    assert_eq!(
        segment_delete_reply(Some((Some(6), true))),
        PartitionReadReply::SegmentDeleteOffset {
            up_to_offset: Some(6),
            lagging: true
        }
    );
}

fn capacity_error(uncertain: bool, first_in_episode: bool) -> ConsumerOffsetCapacityError {
    ConsumerOffsetCapacityError {
        kind: ConsumerKind::Consumer,
        uncertain,
        first_in_episode,
        occupied: 3,
        limit: 3,
        status: Status::TooManyConsumerOffsets,
    }
}

#[test]
fn capacity_refusals_are_counted_and_logged_once() {
    assert_eq!(
        warn_auto_commit_capacity(&capacity_error(true, true)),
        CapacityWarning::AccountingUnavailable
    );
    assert_eq!(
        warn_auto_commit_capacity(&capacity_error(false, true)),
        CapacityWarning::LimitReached
    );
    assert_eq!(
        warn_auto_commit_capacity(&capacity_error(true, false)),
        CapacityWarning::Nothing
    );
    assert_eq!(
        deny_for_capacity(ConsumerKind::Consumer, &capacity_error(true, true)).counted,
        None
    );
    let denial = deny_for_capacity(ConsumerKind::Consumer, &capacity_error(false, false));
    assert_eq!(denial.counted, Some(ConsumerKind::Consumer));
    assert_eq!(denial.warning, CapacityWarning::Nothing);
    assert_eq!(denial.status, Status::TooManyConsumerOffsets);
}

#[test]
fn a_refused_commit_withholds_the_batch() {
    let batch = |auto_commit| PolledBatch {
        current_offset: 12,
        auto_commit,
    };
    for auto_commit in [None, Some(Ok(()))] {
        let settled = poll_reply(&Ok(batch(auto_commit)));
        assert_eq!(
            settled.reply,
            PartitionReadReply::Poll { current_offset: 12 }
        );
        assert!(settled.denial.is_none());
    }
    let settled = poll_reply(&Ok(batch(Some(Err(Status::TransientNotAccepted)))));
    assert_eq!(
        settled.reply,
        PartitionReadReply::Rejected(Status::TransientNotAccepted)
    );
    let settled = poll_reply(&Err(capacity_error(false, true)));
    assert_eq!(
        settled.reply,
        PartitionReadReply::Rejected(Status::TooManyConsumerOffsets)
    );
    assert_eq!(
        settled.denial.expect("a refusal to count").warning,
        CapacityWarning::LimitReached
    );
}

#[test]
fn offsets_are_replicated_by_the_serving_primary_only() {
    let serving = AdmissionFacts {
        is_ready: true,
        is_primary: true,
        is_normal: true,
        is_transferring: false,
    };
    assert_eq!(submit_auto_commit(&Some(serving)), AutoCommitStep::Replicate);
    for facts in [
        AdmissionFacts {
            is_primary: false,
            ..serving
        },
        AdmissionFacts {
            is_normal: false,
            ..serving
        },
        AdmissionFacts {
            is_transferring: true,
            ..serving
        },
    ] {
        assert_eq!(submit_auto_commit(&Some(facts)), AutoCommitStep::KeepLocal);
    }
    let refused = AutoCommitStep::Refuse(Status::TransientNotAccepted);
    assert_eq!(submit_auto_commit(&None), refused);
    assert_eq!(
        submit_auto_commit(&Some(AdmissionFacts {
            is_ready: false,
            ..serving
        })),
        refused
    );
    let applied = AutoCommitApplied {
        kind: ConsumerKind::ConsumerGroup,
        consumer_id: 1,
        offset: 2,
    };
    assert_eq!(
        settle_reservation(&applied, &Ok(true)),
        ReservationStep::Submit
    );
    assert_eq!(
        settle_reservation(&applied, &Ok(false)),
        ReservationStep::Covered
    );
    match settle_reservation(&applied, &Err(capacity_error(false, true))) {
        ReservationStep::Refuse(denial) => {
            assert_eq!(
                denial.counted,
                Some(ConsumerKind::ConsumerGroup),
                "counted under the kind of the committed offset"
            );
            assert_eq!(denial.status, Status::TooManyConsumerOffsets);
        }
        other => panic!("a refused reservation, got {other:?}"),
    }
    assert_eq!(settle_auto_commit_submit(true), Ok(()));
    assert_eq!(
        settle_auto_commit_submit(false),
        Err(Status::TransientNotAccepted)
    );
}

#[test]
fn auto_commit_requests_carry_the_reserved_client() {
    let applied = AutoCommitApplied {
        kind: ConsumerKind::ConsumerGroup,
        consumer_id: 15,
        offset: 99,
    };
    let body = build_auto_commit_body(&NAMESPACE, &applied).expect("numbers that fit");
    assert_eq!(body.consumer_kind, 2);
    assert_eq!(body.consumer_id, 15);
    assert_eq!(body.ack, AckLevel::Quorum);
    assert_eq!(
        (body.stream_id, body.topic_id, body.partition_id, body.offset),
        (1, 2, 3, 99)
    );
    let wide = Namespace {
        topic_id: u32::MAX as usize + 1,
        ..NAMESPACE
    };
    assert_eq!(
        build_auto_commit_body(&wide, &applied),
        Err(AutoCommitBuildError::IdOutOfRange)
    );
    let frame = build_auto_commit_request(&NAMESPACE, 0xA0, 256, 40).expect("a small frame");
    assert_eq!(frame.size, 296);
    assert_eq!(frame.header.client, 0xA0);
    assert_eq!(frame.header.session, 1);
    assert_eq!(frame.header.request, 1);
    assert_eq!(frame.header.operation, Operation::StoreConsumerOffset);
    assert_eq!(frame.header.group, Group::Partition(NAMESPACE));
    assert_eq!(
        build_auto_commit_request(&NAMESPACE, 0xA0, 256, u32::MAX as usize).err(),
        Some(AutoCommitBuildError::FrameTooLarge)
    );
    let out_of_range = Status::Code(17);
    assert_eq!(
        auto_commit_build_status(AutoCommitBuildError::FrameTooLarge, out_of_range),
        Status::InvalidConfiguration
    );
    assert_eq!(
        auto_commit_build_status(AutoCommitBuildError::IdOutOfRange, out_of_range),
        out_of_range
    );
}

#[test]
fn segment_deletion_becomes_a_truncation() {
    let header = write(Operation::DeleteSegments).header;
    assert_eq!(
        start_delete_segments(&header, BOUND, true, &Ok(NAMESPACE)),
        DeleteSegmentsStep::AskOwner(NAMESPACE)
    );
    assert_eq!(
        start_delete_segments(&header, BOUND, true, &Err(STREAM_ID_NOT_FOUND)),
        DeleteSegmentsStep::Commit(truncate(TruncateTarget::Raw, 0))
    );
    let target = TruncateTarget::Resolved {
        stream_id: 1,
        topic_id: 2,
        partition_id: 3,
    };
    let reply = |up_to_offset, lagging| {
        Some(PartitionReadReply::SegmentDeleteOffset {
            up_to_offset,
            lagging,
        })
    };
    for (reply, up_to_offset) in [
        (reply(Some(55), true), 55),
        (reply(Some(55), false), 55),
        (reply(None, false), 0),
        (Some(PartitionReadReply::NotFound), 0),
        (None, 0),
    ] {
        assert_eq!(
            resolve_delete_segments_truncate(&header, BOUND, &NAMESPACE, &reply),
            Ok(truncate(target, up_to_offset))
        );
    }
    assert_eq!(
        resolve_delete_segments_truncate(&header, BOUND, &NAMESPACE, &reply(None, true)),
        Err(Status::TransientNotAccepted)
    );
    match refuse_delete_segments(&header, BOUND, Status::TransientNotAccepted) {
        DeleteSegmentsRefusal::Reject {
            truncate: rejected,
            status,
        } => {
            assert_eq!(status, Status::TransientNotAccepted);
            let nothing = TruncateTarget::Resolved {
                stream_id: 0,
                topic_id: 0,
                partition_id: 0,
            };
            assert_eq!(rejected, truncate(nothing, 0));
        }
        DeleteSegmentsRefusal::Deny(_) => panic!("the client is to replay"),
    }
    assert_eq!(finish_delete_segments(true), DeleteSegmentsEnd::ForwardReply);
    assert_eq!(finish_delete_segments(false), DeleteSegmentsEnd::Silent);
}
