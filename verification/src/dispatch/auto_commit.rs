//! Replicating the offset that a poll commits by itself.

use crate::dispatch::poll::{
    consumer_kind_from_code, ConsumerKind, PartitionReadReply, KIND_CONSUMER, KIND_CONSUMER_GROUP,
};
use crate::dispatch::request::{Group, Namespace, Operation, RoutedRequestHeader};
use crate::dispatch::status::Status;
use vstd::prelude::*;

verus! {

/// The offset that a poll committed locally.
#[derive(Clone, Copy, Debug, PartialEq, Eq, Structural)]
pub struct AutoCommitApplied {
    pub kind: ConsumerKind,
    pub consumer_id: u32,
    pub offset: u64,
}

/// A partition that keeps as many consumer offsets as it may, or cannot tell.
#[derive(Clone, Copy, Debug, PartialEq, Eq, Structural)]
pub struct ConsumerOffsetCapacityError {
    pub kind: ConsumerKind,
    /// Whether the number of stored offsets is not known.
    pub uncertain: bool,
    /// Whether this is the first refusal since the last success.
    pub first_in_episode: bool,
    pub occupied: usize,
    pub limit: usize,
    /// What the client is told.
    pub status: Status,
}

/// What is logged about a refusal for capacity.
#[derive(Clone, Copy, Debug, PartialEq, Eq, Structural)]
pub enum CapacityWarning {
    Nothing,
    AccountingUnavailable,
    LimitReached,
}

/// How a refusal for capacity is counted, logged and answered.
#[derive(Clone, Copy, Debug, PartialEq, Eq, Structural)]
pub struct CapacityDenial {
    /// The kind to count a refused offset under.
    pub counted: Option<ConsumerKind>,
    pub warning: CapacityWarning,
    pub status: Status,
}

/// What the partition says when a committed offset is to be replicated.
#[derive(Clone, Copy, Debug, PartialEq, Eq, Structural)]
pub struct AdmissionFacts {
    /// Whether the partition still is the one that was polled.
    pub is_ready: bool,
    pub is_primary: bool,
    pub is_normal: bool,
    pub is_transferring: bool,
}

/// What becomes of a locally committed offset.
#[derive(Clone, Copy, Debug, PartialEq, Eq, Structural)]
pub enum AutoCommitStep {
    /// Reserve room for it and replicate it.
    Replicate,
    /// Leave it local.
    KeepLocal,
    /// Refuse the poll.
    Refuse(Status),
}

/// What becomes of a locally committed offset once room was asked for.
#[derive(Clone, Copy, Debug, PartialEq, Eq, Structural)]
pub enum ReservationStep {
    /// Submit it.
    Submit,
    /// The durable offset covers it already.
    Covered,
    Refuse(CapacityDenial),
}

/// Why the request for a committed offset could not be built.
#[derive(Clone, Copy, Debug, PartialEq, Eq, Structural)]
pub enum AutoCommitBuildError {
    /// A number of its partition's name has no room on the wire.
    IdOutOfRange,
    /// The frame has no room for its own size.
    FrameTooLarge,
}

/// When a stored offset counts as stored.
#[derive(Clone, Copy, Debug, PartialEq, Eq, Structural)]
pub enum AckLevel {
    /// Before a quorum has it, or without any acknowledgement.
    Weaker,
    /// Once a quorum has it.
    Quorum,
}

/// The body of the request that stores a committed offset.
#[derive(Clone, Copy, Debug, PartialEq, Eq, Structural)]
pub struct StoreConsumerOffset {
    pub consumer_kind: u8,
    pub consumer_id: u32,
    pub stream_id: u32,
    pub topic_id: u32,
    pub partition_id: u32,
    pub offset: u64,
    pub ack: AckLevel,
}

/// The frame that a request for a committed offset has.
#[derive(Clone, Copy, Debug)]
pub struct AutoCommitFrame {
    pub header: RoutedRequestHeader,
    pub size: u32,
}

/// The outcome of running a poll on its owning shard: the current offset and the
/// outcome of the automatic commit, if it made one.
pub struct PolledBatch {
    pub current_offset: u64,
    pub auto_commit: Option<Result<(), Status>>,
}

/// What is done about a poll that the owning shard ran.
#[derive(Clone, Copy, Debug, PartialEq, Eq, Structural)]
pub struct PollSettled {
    pub reply: PartitionReadReply,
    /// The refusal to count and log.
    pub denial: Option<CapacityDenial>,
}

/// What is logged about a refusal for capacity: the first of an episode, and for
/// an unknown count something else than for a full one.
pub open spec fn capacity_warning(error: ConsumerOffsetCapacityError) -> CapacityWarning {
    if !error.first_in_episode {
        CapacityWarning::Nothing
    } else if error.uncertain {
        CapacityWarning::AccountingUnavailable
    } else {
        CapacityWarning::LimitReached
    }
}

/// How a refusal for capacity of an offset of `kind` is counted, logged and
/// answered.
pub open spec fn capacity_denial(
    kind: ConsumerKind,
    error: ConsumerOffsetCapacityError,
) -> CapacityDenial {
    CapacityDenial {
        counted: if error.uncertain {
            None
        } else {
            Some(kind)
        },
        warning: capacity_warning(error),
        status: error.status,
    }
}

/// The wire kind of a consumer kind.
pub open spec fn kind_code(kind: ConsumerKind) -> u8 {
    match kind {
        ConsumerKind::Consumer => KIND_CONSUMER,
        ConsumerKind::ConsumerGroup => KIND_CONSUMER_GROUP,
    }
}

/// What is logged about a refusal for capacity.
pub fn warn_auto_commit_capacity(error: &ConsumerOffsetCapacityError) -> (warning: CapacityWarning)
    ensures
        warning == capacity_warning(*error),
{
    if error.first_in_episode && error.uncertain {
        CapacityWarning::AccountingUnavailable
    } else if error.first_in_episode {
        CapacityWarning::LimitReached
    } else {
        CapacityWarning::Nothing
    }
}

/// How a refusal for capacity of an offset of `kind` is counted, logged and
/// answered. A count that is not known is not counted as a refusal.
pub fn deny_for_capacity(kind: ConsumerKind, error: &ConsumerOffsetCapacityError) -> (denial:
    CapacityDenial)
    ensures
        denial == capacity_denial(kind, *error),
{
    CapacityDenial {
        counted: if error.uncertain {
            None
        } else {
            Some(kind)
        },
        warning: warn_auto_commit_capacity(error),
        status: error.status,
    }
}

/// What the owning shard answers a poll with, and what it counts and logs.
pub open spec fn poll_settlement(
    polled: Result<PolledBatch, ConsumerOffsetCapacityError>,
) -> PollSettled {
    match polled {
        Ok(batch) => PollSettled {
            reply: match batch.auto_commit {
                Some(Err(status)) => PartitionReadReply::Rejected(status),
                _ => PartitionReadReply::Poll { current_offset: batch.current_offset },
            },
            denial: None,
        },
        Err(error) => PollSettled {
            reply: PartitionReadReply::Rejected(error.status),
            denial: Some(capacity_denial(error.kind, error)),
        },
    }
}

/// What the owning shard answers a poll with. A batch whose offset could not be
/// committed is withheld.
pub fn poll_reply(polled: &Result<PolledBatch, ConsumerOffsetCapacityError>) -> (settled:
    PollSettled)
    ensures
        settled == poll_settlement(*polled),
{
    match polled {
        Ok(batch) => PollSettled {
            reply: match batch.auto_commit {
                Some(Err(status)) => PartitionReadReply::Rejected(status),
                _ => PartitionReadReply::Poll { current_offset: batch.current_offset },
            },
            denial: None,
        },
        Err(error) => PollSettled {
            reply: PartitionReadReply::Rejected(error.status),
            denial: Some(deny_for_capacity(error.kind, error)),
        },
    }
}

/// Whether a committed offset is replicated. The partition may be gone or another
/// one than was polled, which refuses the poll; on a replica that is not its
/// serving primary the offset stays local.
pub fn submit_auto_commit(partition: &Option<AdmissionFacts>) -> (step: AutoCommitStep)
    ensures
        step == match *partition {
            Some(facts) if facts.is_ready => if facts.is_primary && facts.is_normal
                && !facts.is_transferring {
                AutoCommitStep::Replicate
            } else {
                AutoCommitStep::KeepLocal
            },
            _ => AutoCommitStep::Refuse(Status::TransientNotAccepted),
        },
{
    match partition {
        Some(facts) if facts.is_ready => {
            if facts.is_primary && facts.is_normal && !facts.is_transferring {
                AutoCommitStep::Replicate
            } else {
                AutoCommitStep::KeepLocal
            }
        },
        _ => AutoCommitStep::Refuse(Status::TransientNotAccepted),
    }
}

/// What becomes of a committed offset, given what the reservation of room for it
/// said: granted, not needed, or refused. A refusal is counted under the kind of the
/// committed offset.
pub fn settle_reservation(
    applied: &AutoCommitApplied,
    reservation: &Result<bool, ConsumerOffsetCapacityError>,
) -> (step: ReservationStep)
    ensures
        step == match *reservation {
            Ok(true) => ReservationStep::Submit,
            Ok(false) => ReservationStep::Covered,
            Err(error) => ReservationStep::Refuse(capacity_denial(applied.kind, error)),
        },
{
    match reservation {
        Ok(is_granted) => if *is_granted {
            ReservationStep::Submit
        } else {
            ReservationStep::Covered
        },
        Err(error) => ReservationStep::Refuse(deny_for_capacity(applied.kind, error)),
    }
}

/// What a poll is told of its committed offset, given whether the owning shard's
/// inbox took it.
pub fn settle_auto_commit_submit(is_accepted: bool) -> (outcome: Result<(), Status>)
    ensures
        outcome == if is_accepted {
            Ok(())
        } else {
            Err(Status::TransientNotAccepted)
        },
{
    if is_accepted {
        Ok(())
    } else {
        Err(Status::TransientNotAccepted)
    }
}

/// A number of a partition's name on the wire.
fn wire_id(id: usize) -> (wire: Option<u32>)
    ensures
        wire == if id <= u32::MAX {
            Some(id as u32)
        } else {
            None
        },
{
    if id <= u32::MAX as usize {
        Some(id as u32)
    } else {
        None
    }
}

/// Whether every number of a partition's name has room on the wire.
pub open spec fn fits_wire(namespace: Namespace) -> bool {
    &&& namespace.stream_id <= u32::MAX
    &&& namespace.topic_id <= u32::MAX
    &&& namespace.partition_id <= u32::MAX
}

/// The body of the request that stores a committed offset, acknowledged by a quorum
/// so that the offset is replicated.
pub fn build_auto_commit_body(namespace: &Namespace, applied: &AutoCommitApplied) -> (body: Result<
    StoreConsumerOffset,
    AutoCommitBuildError,
>)
    ensures
        body == if fits_wire(*namespace) {
            Ok(
                StoreConsumerOffset {
                    consumer_kind: kind_code(applied.kind),
                    consumer_id: applied.consumer_id,
                    stream_id: namespace.stream_id as u32,
                    topic_id: namespace.topic_id as u32,
                    partition_id: namespace.partition_id as u32,
                    offset: applied.offset,
                    ack: AckLevel::Quorum,
                },
            )
        } else {
            Err(AutoCommitBuildError::IdOutOfRange)
        },
{
    let consumer_kind: u8 = match applied.kind {
        ConsumerKind::Consumer => KIND_CONSUMER,
        ConsumerKind::ConsumerGroup => KIND_CONSUMER_GROUP,
    };
    match (
        wire_id(namespace.stream_id),
        wire_id(namespace.topic_id),
        wire_id(namespace.partition_id),
    ) {
        (Some(stream_id), Some(topic_id), Some(partition_id)) => Ok(
            StoreConsumerOffset {
                consumer_kind,
                consumer_id: applied.consumer_id,
                stream_id,
                topic_id,
                partition_id,
                offset: applied.offset,
                ack: AckLevel::Quorum,
            },
        ),
        _ => Err(AutoCommitBuildError::IdOutOfRange),
    }
}

/// The frame around an encoded body: stamped with the reserved client that nobody
/// replies to, and meant for the partition's own group.
pub fn build_auto_commit_request(
    namespace: &Namespace,
    auto_commit_client_id: u128,
    header_size: usize,
    body_len: usize,
) -> (frame: Result<AutoCommitFrame, AutoCommitBuildError>)
    requires
        header_size + body_len <= usize::MAX,
    ensures
        frame is Ok <==> header_size + body_len <= u32::MAX,
        frame matches Ok(built) ==> {
            &&& built.size == header_size + body_len
            &&& built.header.operation == Operation::StoreConsumerOffset
            &&& built.header.client == auto_commit_client_id
            &&& built.header.session == 1
            &&& built.header.request == 1
            &&& built.header.user_id == 0
            &&& built.header.group == Group::Partition(*namespace)
            &&& built.header.reserved@ == seq![0u8, 0u8, 0u8, 0u8]
        },
        frame matches Err(error) ==> error == AutoCommitBuildError::FrameTooLarge,
{
    let total_size: usize = header_size + body_len;
    if total_size > u32::MAX as usize {
        return Err(AutoCommitBuildError::FrameTooLarge);
    }
    let reserved: [u8; 4] = [0, 0, 0, 0];
    assert(reserved@ =~= seq![0u8, 0u8, 0u8, 0u8]);
    Ok(
        AutoCommitFrame {
            header: RoutedRequestHeader {
                operation: Operation::StoreConsumerOffset,
                client: auto_commit_client_id,
                session: 1,
                request: 1,
                user_id: 0,
                group: Group::Partition(*namespace),
                reserved,
            },
            size: total_size as u32,
        },
    )
}

/// What a poll is told where the request for its committed offset could not be
/// built. `id_out_of_range` is what the wire format calls a number without room.
pub fn auto_commit_build_status(error: AutoCommitBuildError, id_out_of_range: Status) -> (status:
    Status)
    ensures
        status == match error {
            AutoCommitBuildError::IdOutOfRange => id_out_of_range,
            AutoCommitBuildError::FrameTooLarge => Status::InvalidConfiguration,
        },
{
    match error {
        AutoCommitBuildError::IdOutOfRange => id_out_of_range,
        AutoCommitBuildError::FrameTooLarge => Status::InvalidConfiguration,
    }
}

/// A poll hands out messages only where their offset was committed, kept local or
/// not asked for: a refused commit withholds them.
pub proof fn law_refused_commit_withholds_the_batch(
    polled: Result<PolledBatch, ConsumerOffsetCapacityError>,
)
    ensures
        poll_settlement(polled).reply is Poll <==> (polled matches Ok(batch)
            && !(batch.auto_commit matches Some(outcome) && outcome is Err)),
        poll_settlement(polled).reply is Poll || poll_settlement(polled).reply is Rejected,
{
}

/// The kind byte of a replicated offset reads back as the kind of the committed one,
/// so a consumer's commit and a group's never have the same.
pub proof fn law_the_kind_byte_reads_back(
    namespace: Namespace,
    applied: AutoCommitApplied,
    body: StoreConsumerOffset,
    read_back: Option<ConsumerKind>,
    other: AutoCommitApplied,
    other_body: StoreConsumerOffset,
)
    requires
        call_ensures(build_auto_commit_body, (&namespace, &applied), Ok(body)),
        call_ensures(consumer_kind_from_code, (body.consumer_kind,), read_back),
        call_ensures(build_auto_commit_body, (&namespace, &other), Ok(other_body)),
    ensures
        read_back == Some(applied.kind),
        applied.kind == ConsumerKind::Consumer <==> body.consumer_kind == 1,
        applied.kind == ConsumerKind::ConsumerGroup <==> body.consumer_kind == 2,
        body.consumer_kind == other_body.consumer_kind <==> applied.kind == other.kind,
{
}

/// A committed offset is replicated as it was committed: its consumer and its offset,
/// in the partition it was committed in, once a quorum has it. It cannot be exactly
/// where a number of the partition's name is past what the wire has room for.
pub proof fn law_a_committed_offset_is_replicated_as_it_is(
    namespace: Namespace,
    applied: AutoCommitApplied,
    body: Result<StoreConsumerOffset, AutoCommitBuildError>,
)
    requires
        call_ensures(build_auto_commit_body, (&namespace, &applied), body),
    ensures
        body is Ok <==> namespace.stream_id <= 0xffff_ffff && namespace.topic_id <= 0xffff_ffff
            && namespace.partition_id <= 0xffff_ffff,
        body matches Err(error) ==> error == AutoCommitBuildError::IdOutOfRange,
        body matches Ok(stored) ==> {
            &&& stored.consumer_id == applied.consumer_id
            &&& stored.offset == applied.offset
            &&& stored.stream_id == namespace.stream_id
            &&& stored.topic_id == namespace.topic_id
            &&& stored.partition_id == namespace.partition_id
            &&& stored.ack == AckLevel::Quorum
        },
{
}

/// The frame of a committed offset is a consumer offset write for the partition's own
/// group, under the reserved client that nobody answers, and as long as its two parts.
/// A length past what the wire has room for is refused.
pub proof fn law_the_commit_frame_is_an_offset_write(
    namespace: Namespace,
    auto_commit_client_id: u128,
    header_size: usize,
    body_len: usize,
    frame: Result<AutoCommitFrame, AutoCommitBuildError>,
)
    requires
        call_ensures(
            build_auto_commit_request,
            (&namespace, auto_commit_client_id, header_size, body_len),
            frame,
        ),
    ensures
        frame is Err <==> header_size + body_len > 0xffff_ffff,
        frame matches Err(error) ==> error == AutoCommitBuildError::FrameTooLarge,
        frame matches Ok(built) ==> {
            &&& built.size == header_size + body_len
            &&& built.header.operation == Operation::StoreConsumerOffset
            &&& built.header.group == Group::Partition(namespace)
            &&& built.header.client == auto_commit_client_id
            &&& built.header.session == 1 && built.header.request == 1
            &&& built.header.user_id == 0
        },
{
}

/// A refusal for capacity is answered with its own status. It is counted under the
/// kind it refused exactly where the number of offsets is known, and logged exactly
/// where it is the first of its episode.
pub proof fn law_a_refusal_is_counted_where_it_is_certain(
    kind: ConsumerKind,
    error: ConsumerOffsetCapacityError,
    denial: CapacityDenial,
    warning: CapacityWarning,
)
    requires
        call_ensures(deny_for_capacity, (kind, &error), denial),
        call_ensures(warn_auto_commit_capacity, (&error,), warning),
    ensures
        denial.status == error.status,
        denial.counted is None <==> error.uncertain,
        denial.counted matches Some(counted) ==> counted == kind,
        denial.warning == warning,
        warning == CapacityWarning::Nothing <==> !error.first_in_episode,
        warning == CapacityWarning::AccountingUnavailable <==> error.first_in_episode
            && error.uncertain,
        warning == CapacityWarning::LimitReached <==> error.first_in_episode && !error.uncertain,
{
}

/// A poll that ran is answered with its current offset unless its commit was refused,
/// and then with that refusal and no messages. Only a poll that found no room is
/// counted and logged, under the kind that it was refused for.
pub proof fn law_a_poll_is_settled_by_its_commit(
    polled: Result<PolledBatch, ConsumerOffsetCapacityError>,
    settled: PollSettled,
)
    requires
        call_ensures(poll_reply, (&polled,), settled),
    ensures
        polled matches Ok(batch) ==> {
            &&& settled.denial is None
            &&& match batch.auto_commit {
                Some(Err(status)) => settled.reply == PartitionReadReply::Rejected(status),
                Some(Ok(_)) => settled.reply == (PartitionReadReply::Poll {
                    current_offset: batch.current_offset,
                }),
                None => settled.reply == (PartitionReadReply::Poll {
                    current_offset: batch.current_offset,
                }),
            }
        },
        polled matches Err(error) ==> {
            &&& settled.reply == PartitionReadReply::Rejected(error.status)
            &&& settled.denial matches Some(denial) && denial.status == error.status && (
            denial.counted is None <==> error.uncertain) && (denial.counted is Some
                ==> denial.counted == Some(error.kind))
        },
{
}

/// A committed offset is replicated by the serving primary alone: one that is primary,
/// in normal operation and not taking over state. Any other replica of the partition
/// keeps it to itself, and one that lost the polled partition refuses the poll.
pub proof fn law_only_the_serving_primary_replicates(
    partition: Option<AdmissionFacts>,
    step: AutoCommitStep,
)
    requires
        call_ensures(submit_auto_commit, (&partition,), step),
    ensures
        step == AutoCommitStep::Replicate <==> partition is Some && partition->0.is_ready
            && partition->0.is_primary && partition->0.is_normal && !partition->0.is_transferring,
        step is Refuse <==> partition is None || !partition->0.is_ready,
        step matches AutoCommitStep::Refuse(status) ==> status == Status::TransientNotAccepted,
{
}

/// Room that is granted submits a committed offset, room that is not needed leaves it
/// covered, and a refusal is counted under the kind of the committed offset, with the
/// status it came with.
pub proof fn law_reservations_settle_the_commit(
    applied: AutoCommitApplied,
    reservation: Result<bool, ConsumerOffsetCapacityError>,
    step: ReservationStep,
)
    requires
        call_ensures(settle_reservation, (&applied, &reservation), step),
    ensures
        step == ReservationStep::Submit <==> reservation is Ok && reservation->Ok_0,
        step == ReservationStep::Covered <==> reservation is Ok && !reservation->Ok_0,
        step matches ReservationStep::Refuse(denial) ==> reservation is Err && denial.status
            == reservation->Err_0.status && (denial.counted is None
            <==> reservation->Err_0.uncertain) && (denial.counted is Some ==> denial.counted
            == Some(applied.kind)),
{
}

/// A poll is told that its offset was taken exactly where the owning shard took it,
/// and otherwise that it may be sent again anywhere. An offset whose frame has no room
/// is a matter of the configuration, and one whose numbers have none is what the wire
/// calls it.
pub proof fn law_a_poll_is_told_what_became_of_its_offset(
    is_accepted: bool,
    outcome: Result<(), Status>,
    error: AutoCommitBuildError,
    id_out_of_range: Status,
    status: Status,
)
    requires
        call_ensures(settle_auto_commit_submit, (is_accepted,), outcome),
        call_ensures(auto_commit_build_status, (error, id_out_of_range), status),
    ensures
        outcome is Ok <==> is_accepted,
        outcome matches Err(refused) ==> refused == Status::TransientNotAccepted,
        error == AutoCommitBuildError::IdOutOfRange ==> status == id_out_of_range,
        error == AutoCommitBuildError::FrameTooLarge ==> status == Status::InvalidConfiguration,
{
}

} // verus!
