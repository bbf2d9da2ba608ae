//! One client request on its way through the funnel, stage by stage.
//!
//! Each stage is a type of its own, so a request cannot skip one: the checksum is
//! judged before the transport is looked at, the header is stamped before anything
//! replicates it, and a commit is recorded before its reply is rendered.

use crate::dispatch::request::{
    classify, non_replicated_code, request_class, CommandCodes, Group, Operation, RequestClass,
    RoutedRequestHeader,
};
use crate::dispatch::session::BoundTransport;
use crate::dispatch::status::{EvictionReason, Status};
use vstd::prelude::*;

verus! {

/// A denied request: the header that the client sent, and the status it gets.
#[derive(Clone, Copy, Debug)]
pub struct Denial {
    pub header: RoutedRequestHeader,
    pub status: Status,
}

/// The rewrite that refused a request before consensus.
#[derive(Clone, Copy, Debug, PartialEq, Eq, Structural)]
pub enum RewriteStage {
    /// The chain that every metadata request passes.
    Chain,
    /// The enrichment of a consumer group's join or leave.
    ConsumerGroup,
}

/// A request denied by a rewrite.
#[derive(Clone, Copy, Debug)]
pub struct PreConsensusDenial {
    pub denial: Denial,
    pub stage: RewriteStage,
}

/// What the funnel knows of a transport.
#[derive(Clone, Copy, Debug, PartialEq, Eq, Structural)]
pub struct ConnectionContext {
    pub bound: Option<BoundTransport>,
    pub user_id: Option<u32>,
    /// The last metadata commit that the transport was told of.
    pub metadata_watermark: u64,
}

/// A request that its client's full queue refused.
#[derive(Clone, Copy, Debug)]
pub enum OverflowAnswer {
    /// There is no shard yet to answer or count it.
    DropUnbuilt,
    /// Counted, and dropped for its unreadable header.
    CountAndDrop,
    /// Counted and denied.
    CountAndDeny(Denial),
}

/// A request whose header is readable and whose checksum is not judged yet.
pub struct UncheckedRequest {
    header: RoutedRequestHeader,
}

/// A request whose body is what its client sent.
pub struct AdmittedRequest {
    header: RoutedRequestHeader,
}

/// A metadata request stamped for replication.
pub struct StampedRequest {
    sent: RoutedRequestHeader,
    stamped: RoutedRequestHeader,
}

/// A metadata request that the rewrite chain has passed.
pub struct ChainedRequest {
    sent: RoutedRequestHeader,
}

/// A metadata request ready to be proposed.
pub struct ProposableRequest {
    sent: RoutedRequestHeader,
}

/// A metadata request that committed.
pub struct CommittedRequest {
    sent: RoutedRequestHeader,
}

/// Where an admitted request goes.
pub enum Route {
    /// End the session under this id.
    Evict { client: u128, reason: EvictionReason },
    /// Deny it without naming a session.
    DenyUnbound(Denial),
    /// Read on behalf of this user, and not behind this commit.
    Read { user_id: Option<u32>, metadata_watermark: u64 },
    LoginRegister,
    Logout,
    /// Delete segments for this session.
    DeleteSegments { bound: BoundTransport },
    /// Run it on the partition plane for this session and user.
    Partition { bound: BoundTransport, user_id: Option<u32> },
    /// Replicate it through the metadata group.
    Metadata(StampedRequest),
}

/// What came of proposing a metadata request.
pub enum Proposed {
    /// Not committed for now: no frame, and the client's timeout replays it.
    Silent,
    /// Committed. The commit, where the reply names one, is recorded for the
    /// transport before the reply is rendered.
    Committed { watermark: Option<u64>, request: CommittedRequest },
}

/// The answer to a request that its client's full queue refused. It entered no
/// pipeline, so it may be sent again anywhere.
pub fn deny_overflowing_client_request(
    shard_is_built: bool,
    header: Option<RoutedRequestHeader>,
) -> (answer: OverflowAnswer)
    ensures
        answer == if !shard_is_built {
            OverflowAnswer::DropUnbuilt
        } else {
            match header {
                None => OverflowAnswer::CountAndDrop,
                Some(header) => OverflowAnswer::CountAndDeny(
                    Denial { header, status: Status::TransientNotAccepted },
                ),
            }
        },
{
    if !shard_is_built {
        return OverflowAnswer::DropUnbuilt;
    }
    match header {
        None => OverflowAnswer::CountAndDrop,
        Some(header) => OverflowAnswer::CountAndDeny(
            Denial { header, status: Status::TransientNotAccepted },
        ),
    }
}

/// The header as it is replicated: in the metadata group, under the identity the
/// transport is bound to.
pub open spec fn stamped_header(
    header: RoutedRequestHeader,
    bound: BoundTransport,
) -> RoutedRequestHeader {
    RoutedRequestHeader {
        group: Group::Metadata,
        client: bound.client,
        session: bound.session,
        ..header
    }
}

impl UncheckedRequest {
    /// The header that the client sent.
    pub closed spec fn view(&self) -> RoutedRequestHeader {
        self.header
    }

    /// Takes a frame with a readable header into the funnel. One without is
    /// dropped: there is nothing to answer it by.
    pub fn open(header: Option<RoutedRequestHeader>) -> (request: Option<UncheckedRequest>)
        ensures
            request is Some <==> header is Some,
            request matches Some(opened) ==> header == Some(opened@),
    {
        match header {
            Some(header) => Some(UncheckedRequest { header }),
            None => None,
        }
    }

    /// Judges the body against the checksum of its header, before anything else
    /// about the request is looked at.
    pub fn verified(self, checksum: Result<(), Status>) -> (request: Result<AdmittedRequest, Denial>)
        ensures
            request is Ok <==> checksum is Ok,
            request matches Ok(admitted) ==> admitted@ == self@,
            request matches Err(denial) ==> denial.header == self@ && checksum == Result::<
                (),
                Status,
            >::Err(denial.status),
    {
        match checksum {
            Ok(_) => Ok(AdmittedRequest { header: self.header }),
            Err(status) => Err(Denial { header: self.header, status }),
        }
    }
}

impl AdmittedRequest {
    /// The header that the client sent.
    pub closed spec fn view(&self) -> RoutedRequestHeader {
        self.header
    }

    /// Whether `route` is where this request goes from a transport.
    pub open spec fn goes_to(
        self,
        route: Route,
        transport_client_id: u128,
        context: ConnectionContext,
        codes: CommandCodes,
    ) -> bool {
        match request_class(self@, context.bound is Some, codes) {
            RequestClass::LegacyLogin => route == (Route::Evict {
                client: self@.client,
                reason: EvictionReason::MalformedLogin,
            }),
            RequestClass::UnauthenticatedRead => route == Route::DenyUnbound(
                Denial { header: self@, status: Status::Unauthenticated },
            ),
            RequestClass::NonReplicatedRead => route == (Route::Read {
                user_id: context.user_id,
                metadata_watermark: context.metadata_watermark,
            }),
            RequestClass::LoginRegister => route == Route::LoginRegister,
            RequestClass::Logout => route == Route::Logout,
            RequestClass::UnboundReplicated => route == (Route::Evict {
                client: transport_client_id,
                reason: EvictionReason::NoSession,
            }),
            RequestClass::DeleteSegments => route == (Route::DeleteSegments {
                bound: context.bound->0,
            }),
            RequestClass::Partition => route == (Route::Partition {
                bound: context.bound->0,
                user_id: context.user_id,
            }),
            RequestClass::ReplicatedMetadata => route matches Route::Metadata(request)
                && request.sent() == self@ && request@ == stamped_header(
                self@,
                context.bound->0,
            ),
        }
    }

    /// Sends the request on its way. A legacy login is evicted under the id it
    /// claims; a replicated operation without a session under the transport's own,
    /// there being no other.
    pub fn route(
        self,
        transport_client_id: u128,
        context: &ConnectionContext,
        codes: &CommandCodes,
    ) -> (route: Route)
        ensures
            self.goes_to(route, transport_client_id, *context, *codes),
    {
        let header = self.header;
        let bound = match context.bound {
            Some(bound) => bound,
            None => BoundTransport { client: 0, session: 0 },
        };
        match classify(&header, context.bound.is_some(), codes) {
            RequestClass::LegacyLogin => Route::Evict {
                client: header.client,
                reason: EvictionReason::MalformedLogin,
            },
            RequestClass::UnauthenticatedRead => Route::DenyUnbound(
                Denial { header, status: Status::Unauthenticated },
            ),
            RequestClass::NonReplicatedRead => Route::Read {
                user_id: context.user_id,
                metadata_watermark: context.metadata_watermark,
            },
            RequestClass::LoginRegister => Route::LoginRegister,
            RequestClass::Logout => Route::Logout,
            RequestClass::UnboundReplicated => Route::Evict {
                client: transport_client_id,
                reason: EvictionReason::NoSession,
            },
            RequestClass::DeleteSegments => Route::DeleteSegments { bound },
            RequestClass::Partition => Route::Partition { bound, user_id: context.user_id },
            RequestClass::ReplicatedMetadata => {
                let mut stamped = header;
                stamped.group = Group::Metadata;
                stamped.client = bound.client;
                stamped.session = bound.session;
                Route::Metadata(StampedRequest { sent: header, stamped })
            },
        }
    }
}

impl StampedRequest {
    /// The header that is replicated.
    pub closed spec fn view(&self) -> RoutedRequestHeader {
        self.stamped
    }

    /// The header that the client sent.
    pub closed spec fn sent(&self) -> RoutedRequestHeader {
        self.sent
    }

    /// The header to replicate.
    pub fn header(&self) -> (header: RoutedRequestHeader)
        ensures
            header == self@,
    {
        self.stamped
    }

    /// Takes the verdict of the rewrite chain. A denial echoes what the client
    /// sent, not what was stamped over it.
    pub fn chained(self, rewritten: Result<(), Status>) -> (request: Result<
        ChainedRequest,
        PreConsensusDenial,
    >)
        ensures
            request is Ok <==> rewritten is Ok,
            request matches Ok(chained) ==> chained@ == self.sent(),
            request matches Err(refused) ==> refused.denial.header == self.sent()
                && refused.stage == RewriteStage::Chain && rewritten == Result::<(), Status>::Err(
                refused.denial.status,
            ),
    {
        match rewritten {
            Ok(_) => Ok(ChainedRequest { sent: self.sent }),
            Err(status) => Err(
                PreConsensusDenial {
                    denial: Denial { header: self.sent, status },
                    stage: RewriteStage::Chain,
                },
            ),
        }
    }
}

impl ChainedRequest {
    /// The header that the client sent.
    pub closed spec fn view(&self) -> RoutedRequestHeader {
        self.sent
    }

    /// Takes the verdict of the consumer group enrichment.
    pub fn enriched(self, rewritten: Result<(), Status>) -> (request: Result<
        ProposableRequest,
        PreConsensusDenial,
    >)
        ensures
            request is Ok <==> rewritten is Ok,
            request matches Ok(proposable) ==> proposable@ == self@,
            request matches Err(refused) ==> refused.denial.header == self@ && refused.stage
                == RewriteStage::ConsumerGroup && rewritten == Result::<(), Status>::Err(
                refused.denial.status,
            ),
    {
        match rewritten {
            Ok(_) => Ok(ProposableRequest { sent: self.sent }),
            Err(status) => Err(
                PreConsensusDenial {
                    denial: Denial { header: self.sent, status },
                    stage: RewriteStage::ConsumerGroup,
                },
            ),
        }
    }
}

impl ProposableRequest {
    /// The header that the client sent.
    pub closed spec fn view(&self) -> RoutedRequestHeader {
        self.sent
    }

    /// Takes what the metadata owner answered: nothing, or a reply with the
    /// commit it names, if any.
    pub fn proposed(self, reply: Option<Option<u64>>) -> (proposed: Proposed)
        ensures
            reply is None ==> proposed is Silent,
            reply is Some ==> (proposed matches Proposed::Committed { watermark, request }
                && watermark == reply->0 && request@ == self@),
    {
        match reply {
            None => Proposed::Silent,
            Some(watermark) => Proposed::Committed {
                watermark,
                request: CommittedRequest { sent: self.sent },
            },
        }
    }
}

impl CommittedRequest {
    /// The header that the client sent.
    pub closed spec fn view(&self) -> RoutedRequestHeader {
        self.sent
    }

    /// Takes the rendering of the reply. Where it fails the operation has
    /// committed all the same, and the client gets a denial, not silence.
    pub fn rendered(self, rendering: Result<(), Status>) -> (answered: Result<(), Denial>)
        ensures
            answered is Ok <==> rendering is Ok,
            answered matches Err(denial) ==> denial.header == self@ && rendering == Result::<
                (),
                Status,
            >::Err(denial.status),
    {
        match rendering {
            Ok(_) => Ok(()),
            Err(status) => Err(Denial { header: self.sent, status }),
        }
    }
}

/// No request is replicated or run on a partition but under the identity that its
/// transport is bound to, whatever its header claims.
pub proof fn law_identity_comes_from_the_transport(
    request: AdmittedRequest,
    route: Route,
    transport_client_id: u128,
    context: ConnectionContext,
    codes: CommandCodes,
)
    requires
        request.goes_to(route, transport_client_id, context, codes),
    ensures
        route matches Route::Metadata(stamped) ==> context.bound == Some(
            BoundTransport { client: stamped@.client, session: stamped@.session },
        ) && stamped@.group == Group::Metadata,
        route matches Route::Partition { bound, .. } ==> context.bound == Some(bound),
        route matches Route::DeleteSegments { bound } ==> context.bound == Some(bound),
{
}

/// A transport without a session is evicted or denied, unless it pings, logs in or
/// logs out.
pub proof fn law_unbound_transport_is_refused(
    request: AdmittedRequest,
    route: Route,
    transport_client_id: u128,
    context: ConnectionContext,
    codes: CommandCodes,
)
    requires
        request.goes_to(route, transport_client_id, context, codes),
        context.bound is None,
    ensures
        route is Evict || route is DenyUnbound || route is LoginRegister || route is Logout
            || route is Read,
        route is Read ==> request@.code() == codes.ping,
{
}

/// On a transport with a session, a request of the partition plane is run for that
/// session and the transport's user, a deletion of segments for that session, and a
/// metadata request is replicated; a read is answered for the transport's user and
/// not behind the commit it was told of.
pub proof fn law_a_bound_request_goes_where_its_operation_says(
    request: AdmittedRequest,
    transport_client_id: u128,
    bound: BoundTransport,
    user_id: Option<u32>,
    metadata_watermark: u64,
    codes: CommandCodes,
    route: Route,
)
    requires
        call_ensures(
            AdmittedRequest::route,
            (
                request,
                transport_client_id,
                &ConnectionContext { bound: Some(bound), user_id, metadata_watermark },
                &codes,
            ),
            route,
        ),
    ensures
        match request@.operation {
            Operation::SendMessages => route == (Route::Partition { bound, user_id }),
            Operation::StoreConsumerOffset => route == (Route::Partition { bound, user_id }),
            Operation::DeleteConsumerOffset => route == (Route::Partition { bound, user_id }),
            Operation::OtherPartition => route == (Route::Partition { bound, user_id }),
            Operation::DeleteSegments => route == (Route::DeleteSegments { bound }),
            Operation::Logout => route == Route::Logout,
            Operation::CreateStream => route is Metadata,
            Operation::CreateTopic => route is Metadata,
            Operation::OtherMetadata => route is Metadata,
            Operation::Register => if request@.session == 0 && request@.request == 0 {
                route == Route::LoginRegister
            } else {
                route is Metadata
            },
            Operation::NonReplicated => route == (Route::Read { user_id, metadata_watermark })
                || route == (Route::Evict {
                client: request@.client,
                reason: EvictionReason::MalformedLogin,
            }),
        },
{
}

/// On a transport without a session, a request of either plane ends the session under
/// the transport's own id, a read other than a ping is denied with the header it came
/// with, and a login that is no longer served is evicted under the id it claims.
pub proof fn law_an_unbound_request_is_turned_away_by_name(
    request: AdmittedRequest,
    transport_client_id: u128,
    user_id: Option<u32>,
    metadata_watermark: u64,
    codes: CommandCodes,
    code: u32,
    route: Route,
)
    requires
        call_ensures(non_replicated_code, (&request@,), code),
        call_ensures(
            AdmittedRequest::route,
            (
                request,
                transport_client_id,
                &ConnectionContext { bound: None, user_id, metadata_watermark },
                &codes,
            ),
            route,
        ),
    ensures
        match request@.operation {
            Operation::Logout => route == Route::Logout,
            Operation::NonReplicated => if code == codes.login_user || code
                == codes.login_with_personal_access_token {
                route == (Route::Evict {
                    client: request@.client,
                    reason: EvictionReason::MalformedLogin,
                })
            } else if code == codes.ping {
                route == (Route::Read { user_id, metadata_watermark })
            } else {
                route == Route::DenyUnbound(
                    Denial { header: request@, status: Status::Unauthenticated },
                )
            },
            Operation::Register => if request@.session == 0 && request@.request == 0 {
                route == Route::LoginRegister
            } else {
                route == (Route::Evict {
                    client: transport_client_id,
                    reason: EvictionReason::NoSession,
                })
            },
            _ => route == (Route::Evict {
                client: transport_client_id,
                reason: EvictionReason::NoSession,
            }),
        },
{
}

/// A metadata request is replicated in the metadata group, under the session of its
/// transport; its operation, its number, its user and its reserved bytes stay what
/// the client sent.
pub proof fn law_stamping_changes_identity_and_group_only(
    request: AdmittedRequest,
    transport_client_id: u128,
    context: ConnectionContext,
    codes: CommandCodes,
    route: Route,
    stamped: StampedRequest,
    header: RoutedRequestHeader,
)
    requires
        call_ensures(
            AdmittedRequest::route,
            (request, transport_client_id, &context, &codes),
            route,
        ),
        route == Route::Metadata(stamped),
        call_ensures(StampedRequest::header, (&stamped,), header),
    ensures
        header.group == Group::Metadata,
        context.bound matches Some(bound) && header.client == bound.client && header.session
            == bound.session,
        header.operation == request@.operation,
        header.request == request@.request,
        header.user_id == request@.user_id,
        header.reserved == request@.reserved,
{
}

/// Whichever rewrite refuses a metadata request, the client gets the header it sent
/// back with the status of that refusal. A request that neither refuses is proposed,
/// and its commit is the one that the reply names.
pub proof fn law_refusals_echo_what_was_sent(
    sent: RoutedRequestHeader,
    unchecked: UncheckedRequest,
    admitted: AdmittedRequest,
    transport_client_id: u128,
    context: ConnectionContext,
    codes: CommandCodes,
    stamped: StampedRequest,
    verdict: Result<(), Status>,
    chained: Result<ChainedRequest, PreConsensusDenial>,
    enrichment: Result<(), Status>,
    proposable: Result<ProposableRequest, PreConsensusDenial>,
    reply: Option<Option<u64>>,
    proposed: Proposed,
)
    requires
        call_ensures(UncheckedRequest::open, (Some(sent),), Some(unchecked)),
        call_ensures(UncheckedRequest::verified, (unchecked, Ok(())), Ok(admitted)),
        call_ensures(
            AdmittedRequest::route,
            (admitted, transport_client_id, &context, &codes),
            Route::Metadata(stamped),
        ),
        call_ensures(StampedRequest::chained, (stamped, verdict), chained),
        chained matches Ok(request) ==> call_ensures(
            ChainedRequest::enriched,
            (request, enrichment),
            proposable,
        ),
        proposable matches Ok(request) ==> call_ensures(
            ProposableRequest::proposed,
            (request, reply),
            proposed,
        ),
    ensures
        admitted@ == sent,
        verdict matches Err(status) ==> (chained matches Err(refused) && refused.denial.header
            == sent && refused.denial.status == status && refused.stage == RewriteStage::Chain),
        verdict is Ok ==> chained is Ok,
        verdict is Ok ==> (enrichment matches Err(status) ==> (proposable matches Err(refused)
            && refused.denial.header == sent && refused.denial.status == status && refused.stage
            == RewriteStage::ConsumerGroup)),
        verdict is Ok && enrichment is Ok ==> proposable is Ok,
        verdict is Ok && enrichment is Ok && reply is None ==> proposed is Silent,
        verdict is Ok && enrichment is Ok ==> (reply matches Some(commit) ==> (
        proposed matches Proposed::Committed { watermark, request } && watermark == commit
            && request@ == sent)),
{
}

/// A body that fails its checksum is denied with the header it came with, before the
/// request goes anywhere, and a frame whose header cannot be read is dropped.
pub proof fn law_a_bad_body_is_denied_with_its_header(
    header: Option<RoutedRequestHeader>,
    opened: Option<UncheckedRequest>,
    checksum: Result<(), Status>,
    verified: Result<AdmittedRequest, Denial>,
)
    requires
        call_ensures(UncheckedRequest::open, (header,), opened),
        opened matches Some(unchecked) ==> call_ensures(
            UncheckedRequest::verified,
            (unchecked, checksum),
            verified,
        ),
    ensures
        header is None <==> opened is None,
        header is Some && checksum is Err ==> (verified matches Err(denial) && denial.header
            == header->0 && denial.status == checksum->Err_0),
        header is Some && checksum is Ok ==> (verified matches Ok(admitted) && admitted@
            == header->0),
{
}

/// A reply that cannot be rendered is denied with the header and the status of that
/// failure, although the request committed; one that can is not denied.
pub proof fn law_an_unrendered_reply_is_denied(
    request: CommittedRequest,
    rendering: Result<(), Status>,
    answered: Result<(), Denial>,
)
    requires
        call_ensures(CommittedRequest::rendered, (request, rendering), answered),
    ensures
        rendering is Ok ==> answered is Ok,
        rendering matches Err(status) ==> (answered matches Err(denial) && denial.header
            == request@ && denial.status == status),
{
}

/// A request that its client's full queue refused is denied as one that may be sent
/// again anywhere, with the header it came with. Only where no shard is there, or its
/// header cannot be read, is it dropped.
pub proof fn law_overflow_is_denied_as_not_accepted(
    shard_is_built: bool,
    header: Option<RoutedRequestHeader>,
    answer: OverflowAnswer,
)
    requires
        call_ensures(deny_overflowing_client_request, (shard_is_built, header), answer),
    ensures
        answer is DropUnbuilt <==> !shard_is_built,
        answer is CountAndDrop <==> shard_is_built && header is None,
        answer matches OverflowAnswer::CountAndDeny(denial) ==> header == Some(denial.header)
            && denial.status == Status::TransientNotAccepted,
{
}

} // verus!
