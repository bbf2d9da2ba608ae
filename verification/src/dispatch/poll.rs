//! Partition reads: polls and consumer offsets, from the decoded request to the
//! answer.

use crate::dispatch::body::{
    bytes_held, empty_poll_fallback, empty_polled_messages_body, is_empty_poll,
    lemma_empty_polls_agree, no_offset_body, FrameChannel,
};
use crate::dispatch::request::Namespace;
use crate::dispatch::status::Status;
use bytes::Bytes;
use vstd::prelude::*;

verus! {

/// The wire kind of a consumer of its own.
pub const KIND_CONSUMER: u8 = 1;

/// The wire kind of a member of a consumer group.
pub const KIND_CONSUMER_GROUP: u8 = 2;

/// Whose offset is meant.
#[derive(Clone, Copy, Debug, PartialEq, Eq, Structural)]
pub enum ConsumerKind {
    Consumer,
    ConsumerGroup,
}

/// How a request names a consumer.
#[derive(Clone, Copy, Debug, PartialEq, Eq, Structural)]
pub enum WireIdentifier {
    Numeric(u32),
    /// By a name, of which this is the stable 32-bit hash.
    Named { hash: u32 },
}

/// The consumer of a request.
#[derive(Clone, Copy, Debug, PartialEq, Eq, Structural)]
pub struct WireConsumer {
    pub kind: u8,
    pub id: WireIdentifier,
}

/// The polling strategy of a request.
#[derive(Clone, Copy, Debug, PartialEq, Eq, Structural)]
pub struct WirePollingStrategy {
    pub kind: u8,
    pub value: u64,
}

/// A decoded poll.
#[derive(Clone, Copy, Debug, PartialEq, Eq, Structural)]
pub struct PollMessagesRequest {
    pub consumer: WireConsumer,
    pub partition_id: Option<u32>,
    pub strategy: WirePollingStrategy,
    pub count: u32,
    pub auto_commit: bool,
}

/// A decoded consumer offset read.
#[derive(Clone, Copy, Debug, PartialEq, Eq, Structural)]
pub struct GetConsumerOffsetRequest {
    pub consumer: WireConsumer,
    pub partition_id: Option<u32>,
}

/// Where a poll starts.
#[derive(Clone, Copy, Debug, PartialEq, Eq, Structural)]
pub enum PollingKind {
    Offset,
    Timestamp,
    First,
    Last,
    Next,
}

/// A polling strategy with the value it was sent with.
#[derive(Clone, Copy, Debug, PartialEq, Eq, Structural)]
pub struct PollingStrategy {
    pub kind: PollingKind,
    pub value: u64,
}

/// How much a poll reads, and from where.
#[derive(Clone, Copy, Debug, PartialEq, Eq, Structural)]
pub struct PollingArgs {
    pub strategy: PollingStrategy,
    pub count: u32,
    pub auto_commit: bool,
}

/// A consumer, or a group by its own number, on one partition.
#[derive(Clone, Copy, Debug, PartialEq, Eq, Structural)]
pub enum PollingConsumer {
    Consumer(usize, usize),
    ConsumerGroup(usize, usize),
}

/// A poll ready to be run by the shard that owns its partition.
#[derive(Clone, Copy, Debug, PartialEq, Eq, Structural)]
pub struct DecodedPollRequest {
    pub namespace: Namespace,
    pub partition_id: u32,
    pub consumer: PollingConsumer,
    pub args: PollingArgs,
}

/// A consumer offset read ready to be run by the shard that owns its partition.
#[derive(Clone, Copy, Debug, PartialEq, Eq, Structural)]
pub struct DecodedOffsetRequest {
    pub namespace: Namespace,
    pub partition_id: u32,
    pub consumer: PollingConsumer,
}

/// What the owning shard answers a read with. The messages of a poll travel
/// beside it.
#[derive(Clone, Copy, Debug, PartialEq, Eq, Structural)]
pub enum PartitionReadReply {
    NotFound,
    Poll { current_offset: u64 },
    Rejected(Status),
    ConsumerOffset { stored: Option<u64>, current_offset: u64 },
    GroupOffsetState { last_polled: Option<u64>, committed: Option<u64> },
    Ack,
    SegmentDeleteOffset { up_to_offset: Option<u64>, lagging: bool },
}

/// Where the owning shard runs a poll.
#[derive(Clone, Copy, Debug, PartialEq, Eq, Structural)]
pub enum PollPlacement {
    /// There is no such partition.
    NotFound,
    /// All of it is in memory: answer at once.
    Resident,
    /// It reads from disk: run it beside the shard's own loop.
    OffPump,
}

/// What a poll request comes to before its partition is read.
pub enum PollStep {
    Read(DecodedPollRequest),
    /// Answer with an empty poll on a channel.
    AnswerEmpty(Bytes, FrameChannel),
    Deny(Status),
}

/// What a poll is answered with once its partition was read.
pub enum PollAnswer {
    /// The rendered reply.
    Reply,
    AnswerEmpty(Bytes, FrameChannel),
    Deny(Status),
}

/// What a consumer offset read is answered with.
pub enum OffsetAnswer {
    /// A body with these three numbers.
    Stored { partition_id: u32, current_offset: u64, stored_offset: u64 },
    /// This body, which holds nothing.
    NothingStored(Bytes),
    Deny(Status),
}

impl WireIdentifier {
    /// The number a consumer is stored under.
    pub open spec fn key(self) -> u32 {
        match self {
            WireIdentifier::Numeric(id) => id,
            WireIdentifier::Named { hash } => hash,
        }
    }
}

/// The polling strategy of a wire kind.
pub open spec fn strategy_kind(kind: u8) -> Option<PollingKind> {
    if kind == 1 {
        Some(PollingKind::Offset)
    } else if kind == 2 {
        Some(PollingKind::Timestamp)
    } else if kind == 3 {
        Some(PollingKind::First)
    } else if kind == 4 {
        Some(PollingKind::Last)
    } else if kind == 5 {
        Some(PollingKind::Next)
    } else {
        None
    }
}

/// The consumer kind of a wire kind.
pub open spec fn consumer_kind(kind: u8) -> Option<ConsumerKind> {
    if kind == KIND_CONSUMER {
        Some(ConsumerKind::Consumer)
    } else if kind == KIND_CONSUMER_GROUP {
        Some(ConsumerKind::ConsumerGroup)
    } else {
        None
    }
}

/// The consumer of a kind, number and partition.
pub open spec fn polling_consumer(kind: ConsumerKind, id: u32, partition_id: u32) -> PollingConsumer {
    match kind {
        ConsumerKind::Consumer => PollingConsumer::Consumer(id as usize, partition_id as usize),
        ConsumerKind::ConsumerGroup => PollingConsumer::ConsumerGroup(
            id as usize,
            partition_id as usize,
        ),
    }
}

/// The consumer kind of a wire kind.
pub fn consumer_kind_from_code(kind: u8) -> (consumer: Option<ConsumerKind>)
    ensures
        consumer == consumer_kind(kind),
{
    if kind == KIND_CONSUMER {
        Some(ConsumerKind::Consumer)
    } else if kind == KIND_CONSUMER_GROUP {
        Some(ConsumerKind::ConsumerGroup)
    } else {
        None
    }
}

/// The strategy a request asks for, with the value it sent.
pub fn polling_strategy_from_wire(strategy: &WirePollingStrategy) -> (mapped: Result<
    PollingStrategy,
    Status,
>)
    ensures
        mapped == match strategy_kind(strategy.kind) {
            Some(kind) => Ok(PollingStrategy { kind, value: strategy.value }),
            None => Err(Status::InvalidCommand),
        },
{
    let kind = match strategy.kind {
        1 => PollingKind::Offset,
        2 => PollingKind::Timestamp,
        3 => PollingKind::First,
        4 => PollingKind::Last,
        5 => PollingKind::Next,
        _ => return Err(Status::InvalidCommand),
    };
    Ok(PollingStrategy { kind, value: strategy.value })
}

/// The consumer a request means on a partition: by its number, or by the hash of
/// its name, which is what a stored offset is found under.
pub fn polling_consumer_from_wire(consumer: &WireConsumer, partition_id: u32) -> (mapped: Result<
    PollingConsumer,
    Status,
>)
    ensures
        mapped == match consumer_kind(consumer.kind) {
            Some(kind) => Ok(polling_consumer(kind, consumer.id.key(), partition_id)),
            None => Err(Status::InvalidCommand),
        },
{
    let consumer_id: u32 = match consumer.id {
        WireIdentifier::Numeric(id) => id,
        WireIdentifier::Named { hash } => hash,
    };
    match consumer_kind_from_code(consumer.kind) {
        Some(ConsumerKind::Consumer) => Ok(
            PollingConsumer::Consumer(consumer_id as usize, partition_id as usize),
        ),
        Some(ConsumerKind::ConsumerGroup) => Ok(
            PollingConsumer::ConsumerGroup(consumer_id as usize, partition_id as usize),
        ),
        None => Err(Status::InvalidCommand),
    }
}

impl PollMessagesRequest {
    /// Whether a group member polls.
    pub open spec fn is_group_poll(self) -> bool {
        self.consumer.kind == KIND_CONSUMER_GROUP
    }

    /// The partition a poll reads. A group member has to name one; any other
    /// consumer reads the first by default.
    pub open spec fn spec_partition(self) -> Option<u32> {
        match self.partition_id {
            Some(partition_id) => Some(partition_id),
            None => if self.is_group_poll() {
                None
            } else {
                Some(0)
            },
        }
    }

    /// The partition a poll reads, or `None` for a group poll that names none.
    pub fn partition(&self) -> (partition: Option<u32>)
        ensures
            partition == self.spec_partition(),
    {
        match self.partition_id {
            Some(partition_id) => Some(partition_id),
            None => if self.consumer.kind == KIND_CONSUMER_GROUP {
                None
            } else {
                Some(0)
            },
        }
    }

    /// What this poll resolves to. `fence` is the number of the group if it grants
    /// the partition to the client, `namespace` what the partition is called.
    ///
    /// A strategy out of range is the first failure reported, then for a group
    /// poll a missing partition and a partition the client does not own, then the
    /// name, and last for any other poll its consumer kind.
    pub open spec fn resolution(
        self,
        client_id: u128,
        fence: Option<u64>,
        namespace: Result<Namespace, Status>,
    ) -> Result<DecodedPollRequest, Status> {
        if strategy_kind(self.strategy.kind) is None {
            Err(Status::InvalidCommand)
        } else if self.spec_partition() is None {
            Err(Status::InvalidIdentifier)
        } else if self.is_group_poll() && fence is None {
            Err(
                Status::ConsumerGroupPartitionNotOwned {
                    client_id: client_id as u32,
                    partition_id: self.spec_partition()->0,
                },
            )
        } else if namespace is Err {
            Err(namespace->Err_0)
        } else if consumer_kind(self.consumer.kind) is None {
            Err(Status::InvalidCommand)
        } else {
            let partition_id = self.spec_partition()->0;
            Ok(
                DecodedPollRequest {
                    namespace: namespace->Ok_0,
                    partition_id,
                    consumer: if self.is_group_poll() {
                        PollingConsumer::ConsumerGroup(fence->0 as usize, partition_id as usize)
                    } else {
                        PollingConsumer::Consumer(
                            self.consumer.id.key() as usize,
                            partition_id as usize,
                        )
                    },
                    args: PollingArgs {
                        strategy: PollingStrategy {
                            kind: strategy_kind(self.strategy.kind)->0,
                            value: self.strategy.value,
                        },
                        count: self.count,
                        auto_commit: self.auto_commit,
                    },
                },
            )
        }
    }
}

/// Resolves a poll, given what the metadata says of its group and partition.
pub fn resolve_poll_request(
    wire: &PollMessagesRequest,
    client_id: u128,
    fence: Option<u64>,
    namespace: &Result<Namespace, Status>,
) -> (resolved: Result<DecodedPollRequest, Status>)
    ensures
        resolved == wire.resolution(client_id, fence, *namespace),
{
    let strategy = match polling_strategy_from_wire(&wire.strategy) {
        Ok(strategy) => strategy,
        Err(status) => return Err(status),
    };
    let args = PollingArgs { strategy, count: wire.count, auto_commit: wire.auto_commit };
    if wire.consumer.kind == KIND_CONSUMER_GROUP {
        let partition_id: u32 = match wire.partition_id {
            Some(partition_id) => partition_id,
            None => return Err(Status::InvalidIdentifier),
        };
        let group_id: u64 = match fence {
            Some(group_id) => group_id,
            None => return Err(
                Status::ConsumerGroupPartitionNotOwned {
                    client_id: #[verifier::truncate] (client_id as u32),
                    partition_id,
                },
            ),
        };
        return match namespace {
            Ok(namespace) => Ok(
                DecodedPollRequest {
                    namespace: *namespace,
                    partition_id,
                    consumer: PollingConsumer::ConsumerGroup(
                        #[verifier::truncate] (group_id as usize),
                        partition_id as usize,
                    ),
                    args,
                },
            ),
            Err(status) => Err(*status),
        };
    }
    let partition_id: u32 = match wire.partition_id {
        Some(partition_id) => partition_id,
        None => 0,
    };
    let namespace = match namespace {
        Ok(namespace) => *namespace,
        Err(status) => return Err(*status),
    };
    match polling_consumer_from_wire(&wire.consumer, partition_id) {
        Ok(consumer) => Ok(DecodedPollRequest { namespace, partition_id, consumer, args }),
        Err(status) => Err(status),
    }
}

impl GetConsumerOffsetRequest {
    /// The partition the offset is of: the first by default.
    pub open spec fn spec_partition(self) -> u32 {
        match self.partition_id {
            Some(partition_id) => partition_id,
            None => 0,
        }
    }

    /// The partition the offset is of.
    pub fn partition(&self) -> (partition: u32)
        ensures
            partition == self.spec_partition(),
    {
        match self.partition_id {
            Some(partition_id) => partition_id,
            None => 0,
        }
    }
}

/// Resolves a consumer offset read, given what the metadata says of its group and
/// partition. An unknown group has no offset, which is an answer and no error.
pub fn resolve_consumer_offset_request(
    wire: &GetConsumerOffsetRequest,
    group: Option<u64>,
    namespace: &Result<Namespace, Status>,
) -> (resolved: Result<Option<DecodedOffsetRequest>, Status>)
    ensures
        ({
            let partition_id = wire.spec_partition();
            let is_group = wire.consumer.kind == KIND_CONSUMER_GROUP;
            &&& *namespace matches Err(status) ==> resolved == Result::<
                Option<DecodedOffsetRequest>,
                Status,
            >::Err(status)
            &&& *namespace matches Ok(name) ==> resolved == if is_group {
                match group {
                    Some(group_id) => Ok(
                        Some(
                            DecodedOffsetRequest {
                                namespace: name,
                                partition_id,
                                consumer: PollingConsumer::ConsumerGroup(
                                    group_id as usize,
                                    partition_id as usize,
                                ),
                            },
                        ),
                    ),
                    None => Ok(None),
                }
            } else if wire.consumer.kind == KIND_CONSUMER {
                Ok(
                    Some(
                        DecodedOffsetRequest {
                            namespace: name,
                            partition_id,
                            consumer: PollingConsumer::Consumer(
                                wire.consumer.id.key() as usize,
                                partition_id as usize,
                            ),
                        },
                    ),
                )
            } else {
                Err(Status::InvalidCommand)
            }
        }),
{
    let partition_id: u32 = wire.partition();
    let namespace = match namespace {
        Ok(namespace) => *namespace,
        Err(status) => return Err(*status),
    };
    let consumer = if wire.consumer.kind == KIND_CONSUMER_GROUP {
        let group_id: u64 = match group {
            Some(group_id) => group_id,
            None => return Ok(None),
        };
        PollingConsumer::ConsumerGroup(
            #[verifier::truncate] (group_id as usize),
            partition_id as usize,
        )
    } else {
        match polling_consumer_from_wire(&wire.consumer, partition_id) {
            Ok(consumer) => consumer,
            Err(status) => return Err(status),
        }
    };
    Ok(Some(DecodedOffsetRequest { namespace, partition_id, consumer }))
}

/// Whether a read may touch the partition plane: its body was decodable, and its
/// user is allowed to. Each failure is a denial, since an empty reply would say
/// that the read succeeded.
pub fn admit_read(is_decoded: bool, denied: Option<Status>) -> (admitted: Result<(), Status>)
    ensures
        admitted == if !is_decoded {
            Err(Status::InvalidCommand)
        } else {
            match denied {
                Some(status) => Err(status),
                None => Ok(()),
            }
        },
{
    if !is_decoded {
        return Err(Status::InvalidCommand);
    }
    match denied {
        Some(status) => Err(status),
        None => Ok(()),
    }
}

/// What a resolved poll does next. A partition that went to another group member
/// is answered with the empty poll of the sentinel, so that the client fetches its
/// assignment again; every other failure to resolve is a denial.
pub fn start_poll(resolved: &Result<DecodedPollRequest, Status>, resync_sentinel: u32) -> (step:
    PollStep)
    ensures
        *resolved matches Ok(decoded) ==> step == PollStep::Read(decoded),
        *resolved matches Err(status) ==> if status is ConsumerGroupPartitionNotOwned {
            step matches PollStep::AnswerEmpty(body, channel) && is_empty_poll(
                bytes_held(body),
                resync_sentinel,
            ) && channel == FrameChannel::ResyncSentinel
        } else {
            step == PollStep::Deny(status)
        },
{
    match resolved {
        Ok(decoded) => PollStep::Read(*decoded),
        Err(Status::ConsumerGroupPartitionNotOwned { .. }) => {
            let (body, channel) = empty_poll_fallback(resync_sentinel, resync_sentinel);
            PollStep::AnswerEmpty(body, channel)
        },
        Err(status) => PollStep::Deny(*status),
    }
}

/// What a poll is answered with. `is_rendered` says whether the messages of a poll
/// could be encoded; a partition that could not answer, and messages that could
/// not be encoded, give an empty poll of the partition.
pub fn read_polled_messages(
    partition_id: u32,
    reply: &Option<PartitionReadReply>,
    is_rendered: bool,
    resync_sentinel: u32,
) -> (answer: PollAnswer)
    ensures
        match *reply {
            Some(PartitionReadReply::Rejected(status)) => answer == PollAnswer::Deny(status),
            Some(PartitionReadReply::Poll { .. }) if is_rendered => answer is Reply,
            _ => {
                &&& answer matches PollAnswer::AnswerEmpty(body, channel)
                &&& is_empty_poll(bytes_held(body), partition_id)
                &&& channel == if partition_id == resync_sentinel {
                    FrameChannel::ResyncSentinel
                } else {
                    FrameChannel::EmptyFrame
                }
            },
        },
{
    match reply {
        Some(PartitionReadReply::Rejected(status)) => PollAnswer::Deny(*status),
        Some(PartitionReadReply::Poll { .. }) if is_rendered => PollAnswer::Reply,
        _ => {
            let (body, channel) = empty_poll_fallback(partition_id, resync_sentinel);
            PollAnswer::AnswerEmpty(body, channel)
        },
    }
}

/// What a consumer offset read is answered with, given the owning shard's reply
/// where the read got that far.
///
/// The empty body is kept for "nothing stored", which only the owning shard can
/// say of a consumer, and which holds of a group that is not there. A shard that
/// did not answer, or does not have the partition, is a failed read that may be
/// sent again, and no news of the consumer.
pub fn answer_consumer_offset(
    resolved: &Result<Option<DecodedOffsetRequest>, Status>,
    reply: &Option<PartitionReadReply>,
) -> (answer: OffsetAnswer)
    ensures
        match *resolved {
            Err(status) => answer == OffsetAnswer::Deny(status),
            Ok(Some(decoded)) => match *reply {
                Some(
                    PartitionReadReply::ConsumerOffset { stored: Some(stored_offset), current_offset },
                ) => answer == (OffsetAnswer::Stored {
                    partition_id: decoded.partition_id,
                    current_offset,
                    stored_offset,
                }),
                Some(PartitionReadReply::ConsumerOffset { stored: None, .. }) => {
                    answer matches OffsetAnswer::NothingStored(body) && bytes_held(body)
                        == Seq::<u8>::empty()
                },
                _ => answer == OffsetAnswer::Deny(Status::TransientNotAccepted),
            },
            Ok(None) => answer matches OffsetAnswer::NothingStored(body) && bytes_held(body)
                == Seq::<u8>::empty(),
        },
{
    match resolved {
        Err(status) => OffsetAnswer::Deny(*status),
        Ok(Some(decoded)) => match reply {
            Some(
                PartitionReadReply::ConsumerOffset { stored: Some(stored_offset), current_offset },
            ) => OffsetAnswer::Stored {
                partition_id: decoded.partition_id,
                current_offset: *current_offset,
                stored_offset: *stored_offset,
            },
            Some(PartitionReadReply::ConsumerOffset { stored: None, .. }) => {
                OffsetAnswer::NothingStored(no_offset_body())
            },
            _ => OffsetAnswer::Deny(Status::TransientNotAccepted),
        },
        Ok(None) => OffsetAnswer::NothingStored(no_offset_body()),
    }
}

/// Where the owning shard runs a poll: `plan` says whether the partition is here,
/// and if so whether the poll reads from disk.
pub fn place_poll(plan: Option<bool>) -> (placement: PollPlacement)
    ensures
        placement == match plan {
            None => PollPlacement::NotFound,
            Some(true) => PollPlacement::OffPump,
            Some(false) => PollPlacement::Resident,
        },
{
    match plan {
        None => PollPlacement::NotFound,
        Some(needs_off_pump_io) => if needs_off_pump_io {
            PollPlacement::OffPump
        } else {
            PollPlacement::Resident
        },
    }
}

/// The owning shard's answer to a consumer offset read.
pub fn consumer_offset_reply(found: Option<(Option<u64>, u64)>) -> (reply: PartitionReadReply)
    ensures
        reply == match found {
            Some((stored, current_offset)) => PartitionReadReply::ConsumerOffset {
                stored,
                current_offset,
            },
            None => PartitionReadReply::NotFound,
        },
{
    match found {
        Some((stored, current_offset)) => PartitionReadReply::ConsumerOffset {
            stored,
            current_offset,
        },
        None => PartitionReadReply::NotFound,
    }
}

/// The owning shard's answer to a read of a group's offsets.
pub fn group_offset_state_reply(found: Option<(Option<u64>, Option<u64>)>) -> (reply:
    PartitionReadReply)
    ensures
        reply == match found {
            Some((last_polled, committed)) => PartitionReadReply::GroupOffsetState {
                last_polled,
                committed,
            },
            None => PartitionReadReply::NotFound,
        },
{
    match found {
        Some((last_polled, committed)) => PartitionReadReply::GroupOffsetState {
            last_polled,
            committed,
        },
        None => PartitionReadReply::NotFound,
    }
}

/// The owning shard's answer to clearing a group's last polled offset.
pub fn clear_group_last_polled_reply(is_found: bool) -> (reply: PartitionReadReply)
    ensures
        reply == if is_found {
            PartitionReadReply::Ack
        } else {
            PartitionReadReply::NotFound
        },
{
    if is_found {
        PartitionReadReply::Ack
    } else {
        PartitionReadReply::NotFound
    }
}

/// The owning shard's answer to the offset up to which segments can be deleted.
pub fn segment_delete_reply(found: Option<(Option<u64>, bool)>) -> (reply: PartitionReadReply)
    ensures
        reply == match found {
            Some((up_to_offset, lagging)) => PartitionReadReply::SegmentDeleteOffset {
                up_to_offset,
                lagging,
            },
            None => PartitionReadReply::NotFound,
        },
{
    match found {
        Some((up_to_offset, lagging)) => PartitionReadReply::SegmentDeleteOffset {
            up_to_offset,
            lagging,
        },
        None => PartitionReadReply::NotFound,
    }
}

/// A group poll reads under the group's own number, never under the one its
/// request names, and only where the group grants the partition.
pub proof fn law_group_polls_are_fenced(
    wire: PollMessagesRequest,
    client_id: u128,
    fence: Option<u64>,
    namespace: Result<Namespace, Status>,
)
    requires
        wire.is_group_poll(),
        wire.resolution(client_id, fence, namespace) is Ok,
    ensures
        fence is Some,
        wire.partition_id is Some,
        wire.resolution(client_id, fence, namespace)->Ok_0.consumer
            == PollingConsumer::ConsumerGroup(
            fence->0 as usize,
            wire.partition_id->0 as usize,
        ),
{
}

/// Only a fenced partition makes a client fetch its assignment again; a fence is
/// never mistaken for a request that cannot succeed.
pub proof fn law_only_a_fence_asks_for_resync(
    wire: PollMessagesRequest,
    client_id: u128,
    fence: Option<u64>,
    namespace: Result<Namespace, Status>,
)
    requires
        !(namespace matches Err(status) && status is ConsumerGroupPartitionNotOwned),
    ensures
        wire.resolution(client_id, fence, namespace) matches Err(status) && status
            is ConsumerGroupPartitionNotOwned <==> {
            &&& wire.is_group_poll()
            &&& strategy_kind(wire.strategy.kind) is Some
            &&& wire.partition_id is Some
            &&& fence is None
        },
{
}

/// The wire kinds of a consumer: one for a consumer of its own, two for a member of a
/// group, and no other.
pub proof fn law_consumer_kinds_have_their_codes(kind: u8, consumer: Option<ConsumerKind>)
    requires
        call_ensures(consumer_kind_from_code, (kind,), consumer),
    ensures
        consumer == Some(ConsumerKind::Consumer) <==> kind == 1,
        consumer == Some(ConsumerKind::ConsumerGroup) <==> kind == 2,
{
}

/// A strategy is the one of its wire kind, one to five in the order of offset,
/// timestamp, first, last and next, and keeps the value it was sent with. Every other
/// kind is an invalid command.
pub proof fn law_a_strategy_keeps_its_kind_and_value(
    wire: WirePollingStrategy,
    mapped: Result<PollingStrategy, Status>,
)
    requires
        call_ensures(polling_strategy_from_wire, (&wire,), mapped),
    ensures
        mapped is Ok <==> 1 <= wire.kind <= 5,
        mapped matches Err(status) ==> status == Status::InvalidCommand,
        mapped matches Ok(strategy) ==> {
            &&& strategy.value == wire.value
            &&& strategy.kind == PollingKind::Offset <==> wire.kind == 1
            &&& strategy.kind == PollingKind::Timestamp <==> wire.kind == 2
            &&& strategy.kind == PollingKind::First <==> wire.kind == 3
            &&& strategy.kind == PollingKind::Last <==> wire.kind == 4
            &&& strategy.kind == PollingKind::Next <==> wire.kind == 5
        },
{
}

/// A consumer is the one of its wire kind, on the partition asked for, under the
/// number it names or the hash of its name.
pub proof fn law_a_consumer_keeps_its_number(
    wire: WireConsumer,
    partition_id: u32,
    mapped: Result<PollingConsumer, Status>,
)
    requires
        call_ensures(polling_consumer_from_wire, (&wire, partition_id), mapped),
    ensures
        mapped is Ok <==> wire.kind == 1 || wire.kind == 2,
        mapped matches Err(status) ==> status == Status::InvalidCommand,
        mapped matches Ok(PollingConsumer::Consumer(id, partition)) ==> wire.kind == 1
            && partition == partition_id && match wire.id {
            WireIdentifier::Numeric(number) => id == number,
            WireIdentifier::Named { hash } => id == hash,
        },
        mapped matches Ok(PollingConsumer::ConsumerGroup(id, partition)) ==> wire.kind == 2
            && partition == partition_id && match wire.id {
            WireIdentifier::Numeric(number) => id == number,
            WireIdentifier::Named { hash } => id == hash,
        },
{
}

/// A poll that resolves keeps what its request asked for: the strategy of its kind
/// byte with the value it sent, its count, its wish for an automatic commit, the
/// partition it named and the name that partition has.
pub proof fn law_a_resolved_poll_keeps_what_was_asked(
    wire: PollMessagesRequest,
    client_id: u128,
    fence: Option<u64>,
    namespace: Result<Namespace, Status>,
    decoded: DecodedPollRequest,
)
    requires
        call_ensures(
            resolve_poll_request,
            (&wire, client_id, fence, &namespace),
            Ok(decoded),
        ),
    ensures
        decoded.args.strategy.value == wire.strategy.value,
        match decoded.args.strategy.kind {
            PollingKind::Offset => wire.strategy.kind == 1,
            PollingKind::Timestamp => wire.strategy.kind == 2,
            PollingKind::First => wire.strategy.kind == 3,
            PollingKind::Last => wire.strategy.kind == 4,
            PollingKind::Next => wire.strategy.kind == 5,
        },
        decoded.args.count == wire.count,
        decoded.args.auto_commit == wire.auto_commit,
        namespace matches Ok(name) && decoded.namespace == name,
        wire.partition_id matches Some(partition_id) ==> decoded.partition_id == partition_id,
        wire.partition_id is None ==> wire.consumer.kind == 1 && decoded.partition_id == 0,
{
}

/// A resolved poll reads for the consumer that asked: a consumer of its own under the
/// number it named or the hash of its name, a group under the number that granted the
/// partition, and either on the partition that is read.
pub proof fn law_a_resolved_poll_reads_for_its_consumer(
    wire: PollMessagesRequest,
    client_id: u128,
    fence: Option<u64>,
    namespace: Result<Namespace, Status>,
    decoded: DecodedPollRequest,
)
    requires
        call_ensures(
            resolve_poll_request,
            (&wire, client_id, fence, &namespace),
            Ok(decoded),
        ),
    ensures
        match decoded.consumer {
            PollingConsumer::Consumer(id, partition) => {
                &&& wire.consumer.kind == 1
                &&& partition == decoded.partition_id
                &&& match wire.consumer.id {
                    WireIdentifier::Numeric(number) => id == number,
                    WireIdentifier::Named { hash } => id == hash,
                }
            },
            PollingConsumer::ConsumerGroup(id, partition) => {
                &&& wire.consumer.kind == 2
                &&& partition == decoded.partition_id
                &&& fence matches Some(group_id) && id == group_id as usize
            },
        },
{
}

/// A poll resolves exactly where its strategy is one of the five, its partition has a
/// name, and its consumer is one of its own or a group member that named a partition
/// which the group grants it. Otherwise the first of these that fails is reported:
/// the strategy, the missing partition, the fence, the name, the consumer.
pub proof fn law_a_poll_fails_by_the_first_thing_wrong(
    wire: PollMessagesRequest,
    client_id: u128,
    fence: Option<u64>,
    namespace: Result<Namespace, Status>,
    resolved: Result<DecodedPollRequest, Status>,
)
    requires
        call_ensures(
            resolve_poll_request,
            (&wire, client_id, fence, &namespace),
            resolved,
        ),
    ensures
        ({
            let is_strategy = 1 <= wire.strategy.kind <= 5;
            let is_group = wire.consumer.kind == 2;
            &&& resolved is Ok <==> is_strategy && namespace is Ok && (wire.consumer.kind == 1 || (
            is_group && wire.partition_id is Some && fence is Some))
            &&& !is_strategy ==> resolved == Result::<DecodedPollRequest, Status>::Err(
                Status::InvalidCommand,
            )
            &&& is_strategy && is_group && wire.partition_id is None ==> resolved == Result::<
                DecodedPollRequest,
                Status,
            >::Err(Status::InvalidIdentifier)
            &&& is_strategy && is_group && wire.partition_id is Some && fence is None ==> (
            resolved matches Err(Status::ConsumerGroupPartitionNotOwned { client_id: client, partition_id })
                && client == client_id as u32 && partition_id == wire.partition_id->0)
            &&& is_strategy && (!is_group || wire.partition_id is Some && fence is Some) ==> (
            namespace matches Err(status) ==> resolved == Result::<DecodedPollRequest, Status>::Err(
                status,
            ))
            &&& is_strategy && namespace is Ok && wire.consumer.kind != 1 && !is_group
                ==> resolved == Result::<DecodedPollRequest, Status>::Err(Status::InvalidCommand)
        }),
{
}

/// The partition that a poll is looked up under is the one that it reads: the one it
/// names, or the first for a consumer of its own.
pub proof fn law_a_poll_reads_the_partition_it_is_looked_up_under(
    wire: PollMessagesRequest,
    partition: Option<u32>,
    client_id: u128,
    fence: Option<u64>,
    namespace: Result<Namespace, Status>,
    resolved: Result<DecodedPollRequest, Status>,
)
    requires
        call_ensures(PollMessagesRequest::partition, (&wire,), partition),
        call_ensures(
            resolve_poll_request,
            (&wire, client_id, fence, &namespace),
            resolved,
        ),
    ensures
        wire.partition_id is Some ==> partition == wire.partition_id,
        wire.partition_id is None && wire.consumer.kind == 2 ==> partition is None,
        wire.partition_id is None && wire.consumer.kind != 2 ==> partition == Some(0u32),
        resolved matches Ok(decoded) ==> partition == Some(decoded.partition_id),
{
}

/// A consumer offset read that resolves keeps what its request asked for: its
/// partition, or the first without one, the name of that partition, and its consumer
/// under the number or hash of its own, or the group under the group's. A group that
/// is not there is no error and no consumer.
pub proof fn law_a_resolved_offset_read_keeps_what_was_asked(
    wire: GetConsumerOffsetRequest,
    group: Option<u64>,
    namespace: Result<Namespace, Status>,
    resolved: Result<Option<DecodedOffsetRequest>, Status>,
    partition: u32,
)
    requires
        call_ensures(
            resolve_consumer_offset_request,
            (&wire, group, &namespace),
            resolved,
        ),
        call_ensures(GetConsumerOffsetRequest::partition, (&wire,), partition),
    ensures
        wire.partition_id matches Some(partition_id) ==> partition == partition_id,
        wire.partition_id is None ==> partition == 0,
        namespace matches Err(status) ==> (resolved matches Err(refused) && refused == status),
        namespace is Ok && wire.consumer.kind != 1 && wire.consumer.kind != 2 ==> (
        resolved matches Err(refused) && refused == Status::InvalidCommand),
        namespace is Ok && wire.consumer.kind == 2 && group is None <==> resolved == Result::<
            Option<DecodedOffsetRequest>,
            Status,
        >::Ok(None),
        resolved matches Ok(Some(decoded)) ==> {
            &&& namespace matches Ok(name) && decoded.namespace == name
            &&& decoded.partition_id == partition
            &&& match decoded.consumer {
                PollingConsumer::Consumer(id, on) => wire.consumer.kind == 1 && on == partition
                    && match wire.consumer.id {
                    WireIdentifier::Numeric(number) => id == number,
                    WireIdentifier::Named { hash } => id == hash,
                },
                PollingConsumer::ConsumerGroup(id, on) => wire.consumer.kind == 2 && on == partition
                    && group is Some && id == group->0 as usize,
            }
        },
{
}

/// What the owning shard found of a consumer is what its reader is answered: the
/// stored offset with the current one and the partition that was asked, nothing where
/// nothing is stored, and a failure to be tried again where the partition is not
/// there.
pub proof fn law_stored_offsets_reach_their_reader(
    decoded: DecodedOffsetRequest,
    found: Option<(Option<u64>, u64)>,
    reply: PartitionReadReply,
    answer: OffsetAnswer,
)
    requires
        call_ensures(consumer_offset_reply, (found,), reply),
        call_ensures(answer_consumer_offset, (&Ok(Some(decoded)), &Some(reply)), answer),
    ensures
        match found {
            Some((Some(stored), current)) => answer == (OffsetAnswer::Stored {
                partition_id: decoded.partition_id,
                current_offset: current,
                stored_offset: stored,
            }),
            Some((None, _)) => answer is NothingStored,
            None => answer == OffsetAnswer::Deny(Status::TransientNotAccepted),
        },
{
}

/// "Nothing stored" is said only of a group that is not there, or where the owning
/// shard says so, and with no bytes. A read that did not resolve is denied as it
/// failed, and one that got no such answer may be tried again.
pub proof fn law_nothing_stored_is_never_a_guess(
    resolved: Result<Option<DecodedOffsetRequest>, Status>,
    reply: Option<PartitionReadReply>,
    answer: OffsetAnswer,
)
    requires
        call_ensures(answer_consumer_offset, (&resolved, &reply), answer),
    ensures
        resolved matches Err(status) ==> answer == OffsetAnswer::Deny(status),
        answer is NothingStored <==> resolved is Ok && (resolved->Ok_0 is None || (
        reply matches Some(PartitionReadReply::ConsumerOffset { stored, .. }) && stored is None)),
        answer matches OffsetAnswer::NothingStored(body) ==> bytes_held(body).len() == 0,
        answer is Stored ==> resolved is Ok && resolved->Ok_0 is Some && reply is Some
            && reply->0 is ConsumerOffset,
        resolved is Ok && resolved->Ok_0 is Some && !(reply is Some && reply->0 is ConsumerOffset)
            ==> answer == OffsetAnswer::Deny(Status::TransientNotAccepted),
{
}

/// A resolved poll is read as it resolved. One fenced off its partition is told, by
/// the empty poll of the sentinel, to fetch its assignment again; every other failure
/// is denied as it came.
pub proof fn law_a_poll_starts_as_it_resolved(
    resolved: Result<DecodedPollRequest, Status>,
    resync_sentinel: u32,
    step: PollStep,
    body: Bytes,
)
    requires
        call_ensures(start_poll, (&resolved, resync_sentinel), step),
        call_ensures(empty_polled_messages_body, (resync_sentinel,), body),
    ensures
        match resolved {
            Ok(decoded) => step == PollStep::Read(decoded),
            Err(Status::ConsumerGroupPartitionNotOwned { .. }) => {
                step matches PollStep::AnswerEmpty(sent, channel) && bytes_held(sent)
                    == bytes_held(body) && channel == FrameChannel::ResyncSentinel
            },
            Err(status) => step == PollStep::Deny(status),
        },
{
    if let PollStep::AnswerEmpty(sent, _) = step {
        lemma_empty_polls_agree(bytes_held(sent), bytes_held(body), resync_sentinel);
    }
}

/// Messages are handed out only where the partition gave them and they could be
/// rendered. A refusal is denied as it came, and everything else is an empty poll of
/// the partition that was read.
pub proof fn law_a_poll_is_answered_by_its_partition(
    partition_id: u32,
    reply: Option<PartitionReadReply>,
    is_rendered: bool,
    resync_sentinel: u32,
    answer: PollAnswer,
    body: Bytes,
)
    requires
        call_ensures(
            read_polled_messages,
            (partition_id, &reply, is_rendered, resync_sentinel),
            answer,
        ),
        call_ensures(empty_polled_messages_body, (partition_id,), body),
    ensures
        answer is Reply <==> is_rendered && reply is Some && reply->0 is Poll,
        answer is Deny <==> reply is Some && reply->0 is Rejected,
        reply matches Some(PartitionReadReply::Rejected(status)) ==> answer == PollAnswer::Deny(
            status,
        ),
        answer matches PollAnswer::AnswerEmpty(sent, channel) ==> bytes_held(sent) == bytes_held(
            body,
        ) && (channel == FrameChannel::ResyncSentinel <==> partition_id == resync_sentinel)
            && channel != FrameChannel::Reply,
{
    if let PollAnswer::AnswerEmpty(sent, _) = answer {
        lemma_empty_polls_agree(bytes_held(sent), bytes_held(body), partition_id);
    }
}

/// A read touches a partition only where its body was decoded and nothing denied it;
/// an undecodable body is an invalid command, and a denial is handed on as it came.
pub proof fn law_reads_are_admitted_or_denied(
    is_decoded: bool,
    denied: Option<Status>,
    admitted: Result<(), Status>,
)
    requires
        call_ensures(admit_read, (is_decoded, denied), admitted),
    ensures
        admitted is Ok <==> is_decoded && denied is None,
        !is_decoded ==> (admitted matches Err(status) && status == Status::InvalidCommand),
        is_decoded && denied is Some ==> (admitted matches Err(status) && status == denied->0),
{
}

/// A poll runs where its partition is: beside the shard's loop exactly where it reads
/// from disk, and nowhere without the partition.
pub proof fn law_polls_from_disk_leave_the_loop(plan: Option<bool>, placement: PollPlacement)
    requires
        call_ensures(place_poll, (plan,), placement),
    ensures
        placement == PollPlacement::NotFound <==> plan is None,
        placement == PollPlacement::OffPump <==> plan == Some(true),
        placement == PollPlacement::Resident <==> plan == Some(false),
{
}

/// What a shard found of a group and of its segments it says as it is, and a
/// partition that is not there is said to be missing.
pub proof fn law_owners_say_what_they_found(
    offsets: Option<(Option<u64>, Option<u64>)>,
    offsets_reply: PartitionReadReply,
    is_found: bool,
    cleared_reply: PartitionReadReply,
    segments: Option<(Option<u64>, bool)>,
    segments_reply: PartitionReadReply,
)
    requires
        call_ensures(group_offset_state_reply, (offsets,), offsets_reply),
        call_ensures(clear_group_last_polled_reply, (is_found,), cleared_reply),
        call_ensures(segment_delete_reply, (segments,), segments_reply),
    ensures
        offsets matches Some((polled, stored)) ==> (
        offsets_reply matches PartitionReadReply::GroupOffsetState { last_polled, committed }
            && last_polled == polled && committed == stored),
        offsets is None ==> offsets_reply is NotFound,
        is_found ==> cleared_reply is Ack,
        !is_found ==> cleared_reply is NotFound,
        segments matches Some((up_to, behind)) ==> (
        segments_reply matches PartitionReadReply::SegmentDeleteOffset { up_to_offset, lagging }
            && up_to_offset == up_to && lagging == behind),
        segments is None ==> segments_reply is NotFound,
{
}

} // verus!
