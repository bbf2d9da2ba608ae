//! Partition writes: from a bound request to the shard that owns its partition.

use crate::dispatch::funnel::Denial;
use crate::dispatch::poll::{consumer_kind, consumer_kind_from_code, ConsumerKind};
use crate::dispatch::request::{Group, Namespace, Operation, RoutedRequestHeader};
use crate::dispatch::session::BoundTransport;
use crate::dispatch::status::Status;
use vstd::prelude::*;

verus! {

/// How often a write asks again whether its partition can be routed.
pub const ROUTABLE_MAX_ATTEMPTS: u32 = 60;

/// How long it waits in between, in milliseconds.
pub const ROUTABLE_ATTEMPT_DELAY_MILLIS: u64 = 50;

/// What is fixed about a partition write from the start.
#[derive(Clone, Copy, Debug)]
pub struct PartitionWrite {
    /// The header that the client sent.
    pub header: RoutedRequestHeader,
    /// The session of its transport.
    pub bound: BoundTransport,
    pub transport_client_id: u128,
    pub acting_user_id: Option<u32>,
}

/// A partition write on its way; no partition is resolved yet.
pub struct UnresolvedWrite {
    write: PartitionWrite,
}

/// A partition write whose partition is known.
pub struct ResolvedWrite {
    write: PartitionWrite,
    namespace: Namespace,
}

/// A partition write that its user may do.
pub struct AuthorizedWrite {
    write: PartitionWrite,
    namespace: Namespace,
}

/// A partition write that can be routed.
pub struct RoutableWrite {
    write: PartitionWrite,
    namespace: Namespace,
}

/// A partition write as it leaves for the owning shard.
#[derive(Clone, Copy, Debug)]
pub struct PartitionDelivery {
    pub header: RoutedRequestHeader,
    pub namespace: Namespace,
    /// Whether this shard has to carry the reply to the socket itself: the bus can
    /// route a reply only where the session goes by the transport's own id.
    pub relays_reply: bool,
}

/// A wait for a route: how often it has slept.
#[derive(Debug, PartialEq, Eq, Structural)]
pub struct RouteWait {
    sleeps: u32,
}

/// What the wait for a route does next.
#[derive(Debug, PartialEq, Eq, Structural)]
pub enum RoutableStep {
    Routable,
    GiveUp,
    /// Sleep once, and go on with this wait.
    Sleep(RouteWait),
}

/// What an unresolved partition is answered with: consumer offset writes get the
/// error itself, every other write that there is no such resource.
pub open spec fn unresolved_status(operation: Operation, status: Status) -> Status {
    if operation == Operation::StoreConsumerOffset || operation == Operation::DeleteConsumerOffset {
        status
    } else {
        Status::ResourceNotFound
    }
}

/// The header as the owning shard gets it: in the partition's group, under the
/// session of the transport and the user that this shard resolved.
pub open spec fn partition_header(write: PartitionWrite, namespace: Namespace) -> RoutedRequestHeader {
    RoutedRequestHeader {
        group: Group::Partition(namespace),
        client: write.bound.client,
        session: write.bound.session,
        user_id: match write.acting_user_id {
            Some(user_id) => user_id,
            None => 0,
        },
        ..write.header
    }
}

/// Starts a partition write. Nothing of the partition plane is touched before its
/// partition is resolved, its user is allowed, and its route is there.
pub fn dispatch_partition_request(write: PartitionWrite) -> (started: UnresolvedWrite)
    ensures
        started@ == write,
{
    UnresolvedWrite { write }
}

impl UnresolvedWrite {
    pub closed spec fn view(&self) -> PartitionWrite {
        self.write
    }

    /// Takes the name of the partition. A write that names none is denied: it
    /// reached no partition, and success would acknowledge nothing.
    pub fn resolved(self, namespace: Result<Namespace, Status>) -> (resolved: Result<
        ResolvedWrite,
        Denial,
    >)
        ensures
            namespace matches Ok(name) ==> (resolved matches Ok(write) && write@ == self@
                && write.namespace() == name),
            namespace matches Err(status) ==> (resolved matches Err(denial) && denial.header
                == self@.header && denial.status == unresolved_status(
                self@.header.operation,
                status,
            )),
    {
        match namespace {
            Ok(namespace) => Ok(ResolvedWrite { write: self.write, namespace }),
            Err(error) => {
                let status = match self.write.header.operation {
                    Operation::StoreConsumerOffset | Operation::DeleteConsumerOffset => error,
                    _ => Status::ResourceNotFound,
                };
                Err(Denial { header: self.write.header, status })
            },
        }
    }
}

impl ResolvedWrite {
    pub closed spec fn view(&self) -> PartitionWrite {
        self.write
    }

    pub closed spec fn namespace(&self) -> Namespace {
        self.namespace
    }

    /// Takes the verdict of the permissions, before any wait.
    pub fn authorized(self, denied: Option<Status>) -> (authorized: Result<AuthorizedWrite, Denial>)
        ensures
            denied is None ==> (authorized matches Ok(write) && write@ == self@ && write.namespace()
                == self.namespace()),
            denied matches Some(status) ==> (authorized matches Err(denial) && denial.header
                == self@.header && denial.status == status),
    {
        match denied {
            None => Ok(AuthorizedWrite { write: self.write, namespace: self.namespace }),
            Some(status) => Err(Denial { header: self.write.header, status }),
        }
    }
}

impl AuthorizedWrite {
    pub closed spec fn view(&self) -> PartitionWrite {
        self.write
    }

    pub closed spec fn namespace(&self) -> Namespace {
        self.namespace
    }

    /// The partition whose route is waited for.
    pub fn partition(&self) -> (namespace: Namespace)
        ensures
            namespace == self.namespace(),
    {
        self.namespace
    }

    /// Takes the outcome of the wait for a route. A write that found none reached
    /// no partition, so it may be sent again anywhere.
    pub fn routable(self, is_routable: bool) -> (routable: Result<RoutableWrite, Denial>)
        ensures
            is_routable ==> (routable matches Ok(write) && write@ == self@ && write.namespace()
                == self.namespace()),
            !is_routable ==> (routable matches Err(denial) && denial.header == self@.header
                && denial.status == Status::TransientNotAccepted),
    {
        if is_routable {
            Ok(RoutableWrite { write: self.write, namespace: self.namespace })
        } else {
            Err(Denial { header: self.write.header, status: Status::TransientNotAccepted })
        }
    }
}

impl RoutableWrite {
    pub closed spec fn view(&self) -> PartitionWrite {
        self.write
    }

    pub closed spec fn namespace(&self) -> Namespace {
        self.namespace
    }

    /// Takes the verdict of the consumer offset rewrite and stamps the header. A
    /// group can be gone by now; that is denied as what it is.
    pub fn delivered(self, rewritten: Result<(), Status>) -> (delivered: Result<
        PartitionDelivery,
        Denial,
    >)
        ensures
            rewritten is Ok ==> (delivered matches Ok(delivery) && delivery.header
                == partition_header(self@, self.namespace()) && delivery.namespace
                == self.namespace() && delivery.relays_reply == (self@.bound.client
                != self@.transport_client_id)),
            rewritten matches Err(status) ==> (delivered matches Err(denial) && denial.header
                == self@.header && denial.status == status),
    {
        match rewritten {
            Err(status) => Err(Denial { header: self.write.header, status }),
            Ok(_) => {
                let mut header = self.write.header;
                header.group = Group::Partition(self.namespace);
                header.client = self.write.bound.client;
                header.session = self.write.bound.session;
                header.user_id = match self.write.acting_user_id {
                    Some(user_id) => user_id,
                    None => 0,
                };
                Ok(
                    PartitionDelivery {
                        header,
                        namespace: self.namespace,
                        relays_reply: self.write.bound.client != self.write.transport_client_id,
                    },
                )
            },
        }
    }
}

impl RouteWait {
    /// How often the wait has slept.
    pub closed spec fn sleeps(self) -> int {
        self.sleeps as int
    }

    /// A wait that has not slept yet.
    pub fn start() -> (wait: RouteWait)
        ensures
            wait.sleeps() == 0,
    {
        RouteWait { sleeps: 0 }
    }
}

/// Whether a step is what a wait does, given whether there is a route now.
pub open spec fn follows_wait(wait: RouteWait, has_route: bool, step: RoutableStep) -> bool {
    match step {
        RoutableStep::Routable => has_route,
        RoutableStep::GiveUp => !has_route && wait.sleeps() >= ROUTABLE_MAX_ATTEMPTS,
        RoutableStep::Sleep(next) => !has_route && wait.sleeps() < ROUTABLE_MAX_ATTEMPTS
            && next.sleeps() == wait.sleeps() + 1,
    }
}

/// What the wait for a route does, given whether there is one now.
pub fn wait_for_partition_routable(wait: RouteWait, has_route: bool) -> (step: RoutableStep)
    ensures
        follows_wait(wait, has_route, step),
{
    if has_route {
        RoutableStep::Routable
    } else if wait.sleeps >= ROUTABLE_MAX_ATTEMPTS {
        RoutableStep::GiveUp
    } else {
        RoutableStep::Sleep(RouteWait { sleeps: wait.sleeps + 1 })
    }
}

/// Whose offset a write stores: read off the first byte of its body, and `None`
/// for any other operation.
pub fn consumer_offset_kind(operation: Operation, body: &[u8]) -> (kind: Option<ConsumerKind>)
    ensures
        kind == if operation == Operation::StoreConsumerOffset && body@.len() > 0 {
            consumer_kind(body@[0])
        } else {
            None
        },
{
    if operation != Operation::StoreConsumerOffset || body.len() == 0 {
        return None;
    }
    consumer_kind_from_code(body[0])
}

/// Whether a relayed reply counts as a refused consumer offset, and of which kind.
/// `status` is what the reply's header says, where it could be read.
pub fn counts_offset_denial(kind: Option<ConsumerKind>, status: Option<Status>) -> (counted: Option<
    ConsumerKind,
>)
    ensures
        counted == if status == Some(Status::TooManyConsumerOffsets) {
            kind
        } else {
            None
        },
{
    match status {
        Some(Status::TooManyConsumerOffsets) => kind,
        _ => None,
    }
}

/// What a relayed write does once it was handed to the owning shard.
#[derive(Clone, Copy, Debug)]
pub enum RelayStep {
    /// It never left: deny it.
    Deny(Denial),
    /// Wait for the reply and send it on. Without one, stay silent: the write may
    /// commit yet.
    AwaitReply,
}

/// What a relayed write does, given whether the owning shard took it.
pub fn relay_partition_reply(header: &RoutedRequestHeader, is_accepted: bool) -> (step: RelayStep)
    ensures
        step == if is_accepted {
            RelayStep::AwaitReply
        } else {
            RelayStep::Deny(Denial { header: *header, status: Status::TransientNotAccepted })
        },
{
    if is_accepted {
        RelayStep::AwaitReply
    } else {
        RelayStep::Deny(Denial { header: *header, status: Status::TransientNotAccepted })
    }
}

/// A write is replicated under the session and user that this shard knows,
/// whatever its header claims; nothing else of the header changes.
pub proof fn law_writes_carry_the_transports_identity(write: PartitionWrite, namespace: Namespace)
    ensures
        ({
            let header = partition_header(write, namespace);
            &&& header.client == write.bound.client
            &&& header.session == write.bound.session
            &&& header.group == Group::Partition(namespace)
            &&& write.acting_user_id matches Some(user_id) ==> header.user_id == user_id
            &&& header.operation == write.header.operation
            &&& header.request == write.header.request
            &&& header.reserved == write.header.reserved
        }),
{
}

/// One look for a route.
pub struct RouteLook {
    pub wait: RouteWait,
    pub has_route: bool,
    pub step: RoutableStep,
}

/// Whether looks follow one another: the first is that of a wait that has not
/// slept, and each of the others goes on with the wait that slept.
pub open spec fn is_route_wait(looks: Seq<RouteLook>) -> bool {
    &&& looks.len() > 0 ==> looks[0].wait.sleeps() == 0
    &&& forall|i: int|
        0 <= i < looks.len() ==> {
            let look = #[trigger] looks[i];
            follows_wait(look.wait, look.has_route, look.step)
        }
    &&& forall|i: int|
        0 < i < looks.len() ==> looks[i - 1].step == RoutableStep::Sleep(
            (#[trigger] looks[i]).wait,
        )
}

/// A write sleeps once between two looks for a route, at most sixty times and
/// three seconds in all. It goes on exactly when a look finds a route, and gives
/// up exactly when the look after the last sleep finds none.
pub proof fn law_route_wait_is_bounded(looks: Seq<RouteLook>, at: int)
    requires
        is_route_wait(looks),
        0 <= at < looks.len(),
    ensures
        looks[at].wait.sleeps() == at,
        at <= ROUTABLE_MAX_ATTEMPTS,
        at * ROUTABLE_ATTEMPT_DELAY_MILLIS <= 3_000,
        looks[at].step == RoutableStep::Routable <==> looks[at].has_route,
        looks[at].step == RoutableStep::GiveUp <==> !looks[at].has_route && at
            == ROUTABLE_MAX_ATTEMPTS,
        forall|i: int| 0 <= i < at ==> !(#[trigger] looks[i]).has_route,
    decreases at,
{
    if at > 0 {
        law_route_wait_is_bounded(looks, at - 1);
        assert(looks[at - 1].step == RoutableStep::Sleep(looks[at].wait));
    }
}

/// A write that passes every stage arrives at the partition it was resolved to, under
/// the session of its transport and the user that this shard knows, or user zero
/// without one; its operation, its number and its reserved bytes are those that the
/// client sent. This shard carries the reply exactly where the session does not go by
/// the transport's own id.
pub proof fn law_a_write_arrives_as_it_was_sent(
    write: PartitionWrite,
    namespace: Namespace,
    unresolved: UnresolvedWrite,
    resolved: ResolvedWrite,
    authorized: AuthorizedWrite,
    looked_up: Namespace,
    routable: RoutableWrite,
    delivery: PartitionDelivery,
)
    requires
        call_ensures(dispatch_partition_request, (write,), unresolved),
        call_ensures(UnresolvedWrite::resolved, (unresolved, Ok(namespace)), Ok(resolved)),
        call_ensures(ResolvedWrite::authorized, (resolved, None), Ok(authorized)),
        call_ensures(AuthorizedWrite::partition, (&authorized,), looked_up),
        call_ensures(AuthorizedWrite::routable, (authorized, true), Ok(routable)),
        call_ensures(RoutableWrite::delivered, (routable, Ok(())), Ok(delivery)),
    ensures
        looked_up == namespace,
        delivery.namespace == namespace,
        delivery.header.group == Group::Partition(namespace),
        delivery.header.client == write.bound.client,
        delivery.header.session == write.bound.session,
        write.acting_user_id matches Some(user_id) ==> delivery.header.user_id == user_id,
        write.acting_user_id is None ==> delivery.header.user_id == 0,
        delivery.header.operation == write.header.operation,
        delivery.header.request == write.header.request,
        delivery.header.reserved == write.header.reserved,
        delivery.relays_reply <==> write.bound.client != write.transport_client_id,
{
}

/// A write whose partition is not found is denied with the header it came with: a
/// consumer offset write with the failure itself, and every other one as a resource
/// that is not there. Every found partition takes the write a stage further.
pub proof fn law_unresolved_writes_are_denied_by_operation(
    write: PartitionWrite,
    namespace: Result<Namespace, Status>,
    unresolved: UnresolvedWrite,
    resolved: Result<ResolvedWrite, Denial>,
)
    requires
        call_ensures(dispatch_partition_request, (write,), unresolved),
        call_ensures(UnresolvedWrite::resolved, (unresolved, namespace), resolved),
    ensures
        resolved is Ok <==> namespace is Ok,
        resolved matches Err(denial) ==> {
            &&& denial.header == write.header
            &&& match write.header.operation {
                Operation::StoreConsumerOffset => denial.status == namespace->Err_0,
                Operation::DeleteConsumerOffset => denial.status == namespace->Err_0,
                _ => denial.status == Status::ResourceNotFound,
            }
        },
{
}

/// A write that is not allowed, that finds no route, or whose rewrite fails is denied
/// with the header it came with and the status of that failure; no route is a failure
/// that may be sent again anywhere.
pub proof fn law_later_stages_deny_what_was_sent(
    resolved: ResolvedWrite,
    denied: Option<Status>,
    authorized: Result<AuthorizedWrite, Denial>,
    is_routable: bool,
    routable: Result<RoutableWrite, Denial>,
    rewritten: Result<(), Status>,
    delivered: Result<PartitionDelivery, Denial>,
)
    requires
        call_ensures(ResolvedWrite::authorized, (resolved, denied), authorized),
        authorized matches Ok(write) ==> call_ensures(
            AuthorizedWrite::routable,
            (write, is_routable),
            routable,
        ),
        authorized is Ok ==> (routable matches Ok(write) ==> call_ensures(
            RoutableWrite::delivered,
            (write, rewritten),
            delivered,
        )),
    ensures
        denied matches Some(status) ==> (authorized matches Err(denial) && denial.header
            == resolved@.header && denial.status == status),
        denied is None && !is_routable ==> (routable matches Err(denial) && denial.header
            == resolved@.header && denial.status == Status::TransientNotAccepted),
        denied is None && is_routable && rewritten is Err ==> (delivered matches Err(denial)
            && denial.header == resolved@.header && denial.status == rewritten->Err_0),
        denied is None && is_routable && rewritten is Ok ==> delivered is Ok,
{
}

/// Without a route a write sleeps sixty times and gives up after that, and with one it
/// goes on at once, however often it slept.
pub proof fn law_a_write_gives_up_after_sixty_sleeps(
    start: RouteWait,
    wait: RouteWait,
    has_route: bool,
    step: RoutableStep,
)
    requires
        call_ensures(RouteWait::start, (), start),
        call_ensures(wait_for_partition_routable, (wait, has_route), step),
    ensures
        start.sleeps() == 0,
        step is Routable <==> has_route,
        step is GiveUp <==> !has_route && wait.sleeps() >= 60,
        step matches RoutableStep::Sleep(next) ==> next.sleeps() == wait.sleeps() + 1,
        ROUTABLE_ATTEMPT_DELAY_MILLIS == 50,
{
}

/// A stored offset is of the kind that the first byte of its body names, one for a
/// consumer and two for a group. No other operation and no other byte names one.
pub proof fn law_an_offset_write_names_its_kind(
    operation: Operation,
    body: &[u8],
    kind: Option<ConsumerKind>,
)
    requires
        call_ensures(consumer_offset_kind, (operation, body), kind),
    ensures
        kind == Some(ConsumerKind::Consumer) <==> operation == Operation::StoreConsumerOffset
            && body@.len() > 0 && body@[0] == 1,
        kind == Some(ConsumerKind::ConsumerGroup) <==> operation == Operation::StoreConsumerOffset
            && body@.len() > 0 && body@[0] == 2,
{
}

/// A reply counts as a refused offset exactly where it says that there are too many,
/// and under the kind that was stored.
pub proof fn law_only_full_partitions_count_as_denials(
    kind: Option<ConsumerKind>,
    status: Option<Status>,
    counted: Option<ConsumerKind>,
)
    requires
        call_ensures(counts_offset_denial, (kind, status), counted),
    ensures
        counted is Some ==> counted == kind && status == Some(Status::TooManyConsumerOffsets),
        status == Some(Status::TooManyConsumerOffsets) ==> counted == kind,
{
}

/// A relayed write that the owning shard did not take is denied as one that may be
/// sent again anywhere, with the header it came with; one that it took is waited for.
pub proof fn law_an_untaken_write_is_denied(
    header: RoutedRequestHeader,
    is_accepted: bool,
    step: RelayStep,
)
    requires
        call_ensures(relay_partition_reply, (&header, is_accepted), step),
    ensures
        step is AwaitReply <==> is_accepted,
        step matches RelayStep::Deny(denial) ==> denial.header == header && denial.status
            == Status::TransientNotAccepted,
{
}

} // verus!
