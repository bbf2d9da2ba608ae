//! Register and logout proposals: where they run, the one hop to the primary, and
//! what the primary's verdict means on the way back.

use crate::dispatch::status::Status;
use vstd::prelude::*;

verus! {

/// How long a forwarded proposal waits for the primary's verdict, in seconds.
pub const FORWARD_SUBMIT_TIMEOUT_SECS: u64 = 5;

/// The shard that owns the metadata consensus group.
pub const METADATA_OWNER_SHARD: u16 = 0;

/// Why a metadata proposal did not commit.
#[derive(Clone, Copy, Debug, PartialEq, Eq, Structural)]
pub enum MetadataSubmitError {
    NotPrimary,
    NotCaughtUp,
    PipelineFull,
    InProgress,
    Canceled,
    PrimaryUnreachable,
    ForwardTimedOut,
    /// The presented client id belongs to another user. No retry helps.
    ClientIdOwnedByAnotherUser,
}

/// A committed session: its fence epoch and its deduplication watermark.
#[derive(Clone, Copy, Debug, PartialEq, Eq, Structural)]
pub struct BoundSession {
    pub epoch: u64,
    pub watermark: u64,
}

/// The verdict on a forwarded register, as it crosses the interconnect.
#[derive(Clone, Copy, Debug, PartialEq, Eq, Structural)]
pub enum ForwardRegisterOutcome {
    Committed,
    NotPrimary,
    NotCaughtUp,
    PipelineFull,
    InProgress,
    Canceled,
    ClientIdOwnedByAnotherUser,
}

/// The verdict on a forwarded logout, as it crosses the interconnect.
#[derive(Clone, Copy, Debug, PartialEq, Eq, Structural)]
pub enum ForwardLogoutOutcome {
    Committed,
    NotPrimary,
    PipelineFull,
    InProgress,
    Canceled,
}

/// A replica's own place in its consensus group at one moment.
#[derive(Clone, Copy, Debug, PartialEq, Eq, Structural)]
pub struct ReplicaPosition {
    pub cluster: u128,
    pub view: u32,
    pub replica: u8,
}

/// The header of a forwarded register.
#[derive(Clone, Copy, Debug, PartialEq, Eq, Structural)]
pub struct ForwardRegisterHeader {
    pub origin: ReplicaPosition,
    pub client: u128,
    pub nonce: u128,
    pub user_id: u32,
}

/// The header of the verdict on a forwarded register.
#[derive(Clone, Copy, Debug, PartialEq, Eq, Structural)]
pub struct ForwardRegisterResultHeader {
    pub origin: ReplicaPosition,
    pub client: u128,
    pub nonce: u128,
    pub epoch: u64,
    pub watermark: u64,
    pub outcome: ForwardRegisterOutcome,
}

/// The header of a forwarded logout.
#[derive(Clone, Copy, Debug, PartialEq, Eq, Structural)]
pub struct ForwardLogoutHeader {
    pub origin: ReplicaPosition,
    pub client: u128,
    pub nonce: u128,
    pub session: u64,
    pub request: u64,
}

/// The header of the verdict on a forwarded logout.
#[derive(Clone, Copy, Debug, PartialEq, Eq, Structural)]
pub struct ForwardLogoutResultHeader {
    pub origin: ReplicaPosition,
    pub client: u128,
    pub nonce: u128,
    pub commit: u64,
    pub outcome: ForwardLogoutOutcome,
}

/// What a shard's metadata consensus says of itself when a proposal arrives.
#[derive(Clone, Copy, Debug, PartialEq, Eq, Structural)]
pub struct ConsensusFacts {
    pub position: ReplicaPosition,
    /// The replica that the current view names primary.
    pub primary: u8,
    /// Whether the replica is in normal operation, not in a view change.
    pub is_normal: bool,
}

/// Where a proposal runs.
#[derive(Clone, Copy, Debug, PartialEq, Eq, Structural)]
pub enum SubmitRoute {
    /// Nowhere: this shard has no metadata consensus.
    Refuse(MetadataSubmitError),
    /// In this process.
    Local,
    /// On the primary, as one hop over the interconnect.
    Forward { target: u8 },
}

/// What became of a forward.
#[derive(Debug)]
pub enum ForwardEvent<R> {
    SendFailed,
    Answered(R),
    /// The waiting end was torn down without an answer.
    ChannelDropped,
    TimedOut,
}

/// How a forward ends: whether its parked entry is to be taken back, and what the
/// proposer is told.
#[derive(Debug)]
pub struct ForwardSettled<T> {
    pub cancel_parked: bool,
    pub result: Result<T, MetadataSubmitError>,
}

impl MetadataSubmitError {
    /// Whether the same proposal may succeed later.
    pub open spec fn spec_is_transient(self) -> bool {
        self != MetadataSubmitError::ClientIdOwnedByAnotherUser
    }

    /// Whether the proposal may have committed although no verdict came back.
    pub open spec fn has_unknown_outcome(self) -> bool {
        ||| self == MetadataSubmitError::ForwardTimedOut
        ||| self == MetadataSubmitError::InProgress
        ||| self == MetadataSubmitError::Canceled
    }

    /// The retry status: an unknown outcome pins the retry to this connection, and
    /// a proposal that was never taken may be retried anywhere.
    pub open spec fn retry_status(self) -> Status {
        if self.has_unknown_outcome() {
            Status::TransientNotCommitted
        } else {
            Status::TransientNotAccepted
        }
    }

    /// Whether the same proposal may succeed later: true of every failure but the
    /// ownership refusal.
    pub fn is_transient(&self) -> (transient: bool)
        ensures
            transient == self.spec_is_transient(),
    {
        !matches!(self, MetadataSubmitError::ClientIdOwnedByAnotherUser)
    }
}

/// The wire code of a failed logout.
pub fn transient_logout_code(error: &MetadataSubmitError) -> (status: Status)
    ensures
        status == error.retry_status(),
{
    match error {
        MetadataSubmitError::ForwardTimedOut
        | MetadataSubmitError::InProgress
        | MetadataSubmitError::Canceled => Status::TransientNotCommitted,
        _ => Status::TransientNotAccepted,
    }
}

/// Where a proposal of this shard runs. Only a healthy backup forwards; the
/// view's own primary and a replica in a view change answer locally.
pub fn submit_route(consensus: &Option<ConsensusFacts>) -> (route: SubmitRoute)
    ensures
        *consensus is None <==> route == SubmitRoute::Refuse(MetadataSubmitError::NotPrimary),
        *consensus matches Some(facts) ==> {
            let forwards = facts.is_normal && facts.primary != facts.position.replica;
            &&& forwards ==> route == (SubmitRoute::Forward { target: facts.primary })
            &&& !forwards ==> route == SubmitRoute::Local
        },
{
    match consensus {
        None => SubmitRoute::Refuse(MetadataSubmitError::NotPrimary),
        Some(facts) => {
            if facts.primary == facts.position.replica || !facts.is_normal {
                SubmitRoute::Local
            } else {
                SubmitRoute::Forward { target: facts.primary }
            }
        },
    }
}

/// Where a forwarded proposal is answered from: this replica's own place, with the
/// proposal run in this process whatever the view says. A forward is never
/// forwarded again, so it takes one hop at most. Without metadata consensus there
/// is no answer.
pub fn answer_forwarded(consensus: &Option<ConsensusFacts>) -> (position: Option<ReplicaPosition>)
    ensures
        position == match *consensus {
            Some(facts) => Some(facts.position),
            None => None,
        },
{
    match consensus {
        Some(facts) => Some(facts.position),
        None => None,
    }
}

/// Whether a shard reaches the metadata consensus itself or asks its owner.
pub fn owns_metadata(shard_id: u16) -> (owns: bool)
    ensures
        owns == (shard_id == 0),
{
    shard_id == METADATA_OWNER_SHARD
}

/// The owner's answer to a peer shard, or `Canceled` where its end was dropped.
pub fn owner_answer<T>(answer: Option<Result<T, MetadataSubmitError>>) -> (result: Result<
    T,
    MetadataSubmitError,
>)
    ensures
        answer matches Some(answered) ==> result == answered,
        answer is None ==> (result matches Err(error) && error == MetadataSubmitError::Canceled),
{
    match answer {
        Some(answered) => answered,
        None => Err(MetadataSubmitError::Canceled),
    }
}

/// The verdict that a result header carries.
pub open spec fn register_verdict(header: ForwardRegisterResultHeader) -> Result<
    BoundSession,
    MetadataSubmitError,
> {
    match header.outcome {
        ForwardRegisterOutcome::Committed => Ok(
            BoundSession { epoch: header.epoch, watermark: header.watermark },
        ),
        ForwardRegisterOutcome::NotPrimary => Err(MetadataSubmitError::NotPrimary),
        ForwardRegisterOutcome::NotCaughtUp => Err(MetadataSubmitError::NotCaughtUp),
        ForwardRegisterOutcome::PipelineFull => Err(MetadataSubmitError::PipelineFull),
        ForwardRegisterOutcome::InProgress => Err(MetadataSubmitError::InProgress),
        ForwardRegisterOutcome::Canceled => Err(MetadataSubmitError::Canceled),
        ForwardRegisterOutcome::ClientIdOwnedByAnotherUser => Err(
            MetadataSubmitError::ClientIdOwnedByAnotherUser,
        ),
    }
}

/// What is left of a register's outcome after one hop: all of it, but for the two
/// failures of a hop itself, which a proposal in process does not have.
pub open spec fn register_after_hop(bound: Result<BoundSession, MetadataSubmitError>) -> Result<
    BoundSession,
    MetadataSubmitError,
> {
    match bound {
        Err(MetadataSubmitError::PrimaryUnreachable) => Err(MetadataSubmitError::Canceled),
        Err(MetadataSubmitError::ForwardTimedOut) => Err(MetadataSubmitError::Canceled),
        _ => bound,
    }
}

/// The verdict of the primary, in the vocabulary of the login path.
pub fn forward_register_result(result: &ForwardRegisterResultHeader) -> (bound: Result<
    BoundSession,
    MetadataSubmitError,
>)
    ensures
        bound == register_verdict(*result),
{
    match result.outcome {
        ForwardRegisterOutcome::Committed => Ok(
            BoundSession { epoch: result.epoch, watermark: result.watermark },
        ),
        ForwardRegisterOutcome::NotPrimary => Err(MetadataSubmitError::NotPrimary),
        ForwardRegisterOutcome::NotCaughtUp => Err(MetadataSubmitError::NotCaughtUp),
        ForwardRegisterOutcome::PipelineFull => Err(MetadataSubmitError::PipelineFull),
        ForwardRegisterOutcome::InProgress => Err(MetadataSubmitError::InProgress),
        ForwardRegisterOutcome::Canceled => Err(MetadataSubmitError::Canceled),
        ForwardRegisterOutcome::ClientIdOwnedByAnotherUser => Err(
            MetadataSubmitError::ClientIdOwnedByAnotherUser,
        ),
    }
}

/// The session and the outcome that the answering primary puts on the wire. A
/// failure carries the zero session.
pub fn forward_register_outcome(bound: &Result<BoundSession, MetadataSubmitError>) -> (wire: (
    BoundSession,
    ForwardRegisterOutcome,
))
    ensures
        forall|origin: ReplicaPosition, client: u128, nonce: u128|
            #![trigger register_result_header(origin, client, nonce, wire)]
            register_verdict(register_result_header(origin, client, nonce, wire))
                == register_after_hop(*bound),
        bound is Err ==> wire.0 == (BoundSession { epoch: 0, watermark: 0 }),
{
    let zero = BoundSession { epoch: 0, watermark: 0 };
    match bound {
        Ok(session) => (*session, ForwardRegisterOutcome::Committed),
        Err(MetadataSubmitError::NotPrimary) => (zero, ForwardRegisterOutcome::NotPrimary),
        Err(MetadataSubmitError::NotCaughtUp) => (zero, ForwardRegisterOutcome::NotCaughtUp),
        Err(MetadataSubmitError::PipelineFull) => (zero, ForwardRegisterOutcome::PipelineFull),
        Err(MetadataSubmitError::InProgress) => (zero, ForwardRegisterOutcome::InProgress),
        Err(MetadataSubmitError::ClientIdOwnedByAnotherUser) => {
            (zero, ForwardRegisterOutcome::ClientIdOwnedByAnotherUser)
        },
        Err(_) => (zero, ForwardRegisterOutcome::Canceled),
    }
}

/// The result header that carries a session and an outcome.
pub open spec fn register_result_header(
    origin: ReplicaPosition,
    client: u128,
    nonce: u128,
    wire: (BoundSession, ForwardRegisterOutcome),
) -> ForwardRegisterResultHeader {
    ForwardRegisterResultHeader {
        origin,
        client,
        nonce,
        epoch: wire.0.epoch,
        watermark: wire.0.watermark,
        outcome: wire.1,
    }
}

/// The register that a backup forwards: the verified identity and nothing else.
pub fn build_forward_register_message(
    origin: ReplicaPosition,
    client: u128,
    nonce: u128,
    user_id: u32,
) -> (header: ForwardRegisterHeader)
    ensures
        header == (ForwardRegisterHeader { origin, client, nonce, user_id }),
{
    ForwardRegisterHeader { origin, client, nonce, user_id }
}

/// The verdict that the primary sends back, under the nonce and the client of the
/// forward it answers.
pub fn build_forward_register_result_message(
    origin: ReplicaPosition,
    client: u128,
    nonce: u128,
    bound: &Result<BoundSession, MetadataSubmitError>,
) -> (header: ForwardRegisterResultHeader)
    ensures
        header.origin == origin,
        header.client == client,
        header.nonce == nonce,
        register_verdict(header) == register_after_hop(*bound),
        bound is Err ==> header.epoch == 0 && header.watermark == 0,
{
    let (session, outcome) = forward_register_outcome(bound);
    assert(register_verdict(register_result_header(origin, client, nonce, (session, outcome)))
        == register_after_hop(*bound));
    ForwardRegisterResultHeader {
        origin,
        client,
        nonce,
        epoch: session.epoch,
        watermark: session.watermark,
        outcome,
    }
}

/// How a forwarded register ends. The parked entry is taken back where no answer
/// can reach it any more; an answer or a teardown has consumed it already.
pub fn settle_register_forward(event: &ForwardEvent<ForwardRegisterResultHeader>) -> (settled:
    ForwardSettled<BoundSession>)
    ensures
        settled.cancel_parked <==> (*event is SendFailed || *event is TimedOut),
        settled.result == match *event {
            ForwardEvent::SendFailed => Err(MetadataSubmitError::PrimaryUnreachable),
            ForwardEvent::Answered(header) => register_verdict(header),
            ForwardEvent::ChannelDropped => Err(MetadataSubmitError::Canceled),
            ForwardEvent::TimedOut => Err(MetadataSubmitError::ForwardTimedOut),
        },
{
    match event {
        ForwardEvent::SendFailed => ForwardSettled {
            cancel_parked: true,
            result: Err(MetadataSubmitError::PrimaryUnreachable),
        },
        ForwardEvent::Answered(header) => ForwardSettled {
            cancel_parked: false,
            result: forward_register_result(header),
        },
        ForwardEvent::ChannelDropped => ForwardSettled {
            cancel_parked: false,
            result: Err(MetadataSubmitError::Canceled),
        },
        ForwardEvent::TimedOut => ForwardSettled {
            cancel_parked: true,
            result: Err(MetadataSubmitError::ForwardTimedOut),
        },
    }
}

/// The verdict that a logout result header carries: the commit, or the failure.
pub open spec fn logout_verdict(header: ForwardLogoutResultHeader) -> Result<
    u64,
    MetadataSubmitError,
> {
    match header.outcome {
        ForwardLogoutOutcome::Committed => Ok(header.commit),
        ForwardLogoutOutcome::NotPrimary => Err(MetadataSubmitError::NotPrimary),
        ForwardLogoutOutcome::PipelineFull => Err(MetadataSubmitError::PipelineFull),
        ForwardLogoutOutcome::InProgress => Err(MetadataSubmitError::InProgress),
        ForwardLogoutOutcome::Canceled => Err(MetadataSubmitError::Canceled),
    }
}

/// What is left of a logout's outcome after one hop: every failure that the wire
/// has no word for comes out as canceled.
pub open spec fn logout_after_hop(outcome: Result<u64, MetadataSubmitError>) -> Result<
    u64,
    MetadataSubmitError,
> {
    match outcome {
        Ok(commit) => Ok(commit),
        Err(MetadataSubmitError::NotPrimary) => outcome,
        Err(MetadataSubmitError::PipelineFull) => outcome,
        Err(MetadataSubmitError::InProgress) => outcome,
        Err(_) => Err(MetadataSubmitError::Canceled),
    }
}

/// The verdict of the primary on a logout.
pub fn forward_logout_result(result: &ForwardLogoutResultHeader) -> (outcome: Result<
    u64,
    MetadataSubmitError,
>)
    ensures
        outcome == logout_verdict(*result),
{
    match result.outcome {
        ForwardLogoutOutcome::Committed => Ok(result.commit),
        ForwardLogoutOutcome::NotPrimary => Err(MetadataSubmitError::NotPrimary),
        ForwardLogoutOutcome::PipelineFull => Err(MetadataSubmitError::PipelineFull),
        ForwardLogoutOutcome::InProgress => Err(MetadataSubmitError::InProgress),
        ForwardLogoutOutcome::Canceled => Err(MetadataSubmitError::Canceled),
    }
}

/// The commit and the outcome that the answering primary puts on the wire. A
/// failure carries commit zero.
pub fn forward_logout_outcome(outcome: &Result<u64, MetadataSubmitError>) -> (wire: (
    u64,
    ForwardLogoutOutcome,
))
    ensures
        forall|origin: ReplicaPosition, client: u128, nonce: u128|
            #![trigger logout_result_header(origin, client, nonce, wire)]
            logout_verdict(logout_result_header(origin, client, nonce, wire)) == logout_after_hop(
                *outcome,
            ),
        outcome is Err ==> wire.0 == 0,
{
    match outcome {
        Ok(commit) => (*commit, ForwardLogoutOutcome::Committed),
        Err(MetadataSubmitError::NotPrimary) => (0, ForwardLogoutOutcome::NotPrimary),
        Err(MetadataSubmitError::PipelineFull) => (0, ForwardLogoutOutcome::PipelineFull),
        Err(MetadataSubmitError::InProgress) => (0, ForwardLogoutOutcome::InProgress),
        Err(_) => (0, ForwardLogoutOutcome::Canceled),
    }
}

/// The result header that carries a commit and an outcome.
pub open spec fn logout_result_header(
    origin: ReplicaPosition,
    client: u128,
    nonce: u128,
    wire: (u64, ForwardLogoutOutcome),
) -> ForwardLogoutResultHeader {
    ForwardLogoutResultHeader { origin, client, nonce, commit: wire.0, outcome: wire.1 }
}

/// The logout that a backup forwards.
pub fn build_forward_logout_message(
    origin: ReplicaPosition,
    client: u128,
    nonce: u128,
    session: u64,
    request: u64,
) -> (header: ForwardLogoutHeader)
    ensures
        header == (ForwardLogoutHeader { origin, client, nonce, session, request }),
{
    ForwardLogoutHeader { origin, client, nonce, session, request }
}

/// The verdict on a logout that the primary sends back.
pub fn build_forward_logout_result_message(
    origin: ReplicaPosition,
    client: u128,
    nonce: u128,
    outcome: &Result<u64, MetadataSubmitError>,
) -> (header: ForwardLogoutResultHeader)
    ensures
        header.origin == origin,
        header.client == client,
        header.nonce == nonce,
        logout_verdict(header) == logout_after_hop(*outcome),
        outcome is Err ==> header.commit == 0,
{
    let (commit, wire_outcome) = forward_logout_outcome(outcome);
    assert(logout_verdict(logout_result_header(origin, client, nonce, (commit, wire_outcome)))
        == logout_after_hop(*outcome));
    ForwardLogoutResultHeader { origin, client, nonce, commit, outcome: wire_outcome }
}

/// How a forwarded logout ends.
pub fn settle_logout_forward(event: &ForwardEvent<ForwardLogoutResultHeader>) -> (settled:
    ForwardSettled<u64>)
    ensures
        settled.cancel_parked <==> (*event is SendFailed || *event is TimedOut),
        settled.result == match *event {
            ForwardEvent::SendFailed => Err(MetadataSubmitError::PrimaryUnreachable),
            ForwardEvent::Answered(header) => logout_verdict(header),
            ForwardEvent::ChannelDropped => Err(MetadataSubmitError::Canceled),
            ForwardEvent::TimedOut => Err(MetadataSubmitError::ForwardTimedOut),
        },
{
    match event {
        ForwardEvent::SendFailed => ForwardSettled {
            cancel_parked: true,
            result: Err(MetadataSubmitError::PrimaryUnreachable),
        },
        ForwardEvent::Answered(header) => ForwardSettled {
            cancel_parked: false,
            result: forward_logout_result(header),
        },
        ForwardEvent::ChannelDropped => ForwardSettled {
            cancel_parked: false,
            result: Err(MetadataSubmitError::Canceled),
        },
        ForwardEvent::TimedOut => ForwardSettled {
            cancel_parked: true,
            result: Err(MetadataSubmitError::ForwardTimedOut),
        },
    }
}

/// A hop changes no verdict that a primary can reach: a committed session and
/// every refusal of a proposal in process arrive as they left.
pub proof fn law_register_verdict_survives_the_hop(
    bound: Result<BoundSession, MetadataSubmitError>,
    header: ForwardRegisterResultHeader,
)
    requires
        register_verdict(header) == register_after_hop(bound),
        bound != Result::<BoundSession, MetadataSubmitError>::Err(
            MetadataSubmitError::PrimaryUnreachable,
        ),
        bound != Result::<BoundSession, MetadataSubmitError>::Err(
            MetadataSubmitError::ForwardTimedOut,
        ),
    ensures
        register_verdict(header) == bound,
{
}

/// Whether a register may be retried is the same on both ends of a hop: in
/// particular the ownership refusal stays terminal. And one whose outcome is
/// unknown is never reported as not taken.
pub proof fn law_hop_keeps_registers_terminal_or_transient(
    error: MetadataSubmitError,
    header: ForwardRegisterResultHeader,
)
    requires
        register_verdict(header) == register_after_hop(Err(error)),
    ensures
        register_verdict(header) is Err,
        register_verdict(header)->Err_0.spec_is_transient() == error.spec_is_transient(),
        error.has_unknown_outcome() ==> register_verdict(header)->Err_0.has_unknown_outcome(),
{
}

/// A hop never turns a failed logout into a committed one, nor the reverse, and
/// never claims that a proposal with an unknown outcome was not taken.
pub proof fn law_hop_keeps_unknown_logouts_unknown(
    outcome: Result<u64, MetadataSubmitError>,
    header: ForwardLogoutResultHeader,
)
    requires
        logout_verdict(header) == logout_after_hop(outcome),
    ensures
        logout_verdict(header) is Ok <==> outcome is Ok,
        outcome is Ok ==> logout_verdict(header) == outcome,
        outcome matches Err(error) && error.has_unknown_outcome()
            ==> logout_verdict(header)->Err_0.has_unknown_outcome(),
{
}

/// Every failure but a client id that belongs to another user may be tried again.
pub proof fn law_only_an_owned_id_is_final(error: MetadataSubmitError, transient: bool)
    requires
        call_ensures(MetadataSubmitError::is_transient, (&error,), transient),
    ensures
        !transient <==> error == MetadataSubmitError::ClientIdOwnedByAnotherUser,
{
}

/// A logout whose outcome is not known, because its forward timed out, it is still in
/// progress or its wait was canceled, is retried on this connection only; one that was
/// never taken may be retried anywhere.
pub proof fn law_unknown_outcomes_are_listed(error: MetadataSubmitError, status: Status)
    requires
        call_ensures(transient_logout_code, (&error,), status),
    ensures
        match error {
            MetadataSubmitError::ForwardTimedOut => status == Status::TransientNotCommitted,
            MetadataSubmitError::InProgress => status == Status::TransientNotCommitted,
            MetadataSubmitError::Canceled => status == Status::TransientNotCommitted,
            _ => status == Status::TransientNotAccepted,
        },
{
}

/// A proposal is forwarded only by a backup in normal operation, and to the primary of
/// its view; the primary, and a replica in a view change, keep it in process. Without
/// consensus it is refused. A forwarded one is answered in process, from the
/// replica's own place, so none is forwarded twice.
pub proof fn law_only_a_healthy_backup_forwards(
    consensus: Option<ConsensusFacts>,
    route: SubmitRoute,
    position: Option<ReplicaPosition>,
)
    requires
        call_ensures(submit_route, (&consensus,), route),
        call_ensures(answer_forwarded, (&consensus,), position),
    ensures
        match route {
            SubmitRoute::Refuse(error) => consensus is None && error
                == MetadataSubmitError::NotPrimary,
            SubmitRoute::Local => consensus is Some && (!consensus->0.is_normal
                || consensus->0.primary == consensus->0.position.replica),
            SubmitRoute::Forward { target } => consensus is Some && consensus->0.is_normal && target
                == consensus->0.primary && target != consensus->0.position.replica,
        },
        consensus is None <==> position is None,
        position matches Some(place) ==> place == consensus->0.position,
{
}

/// A peer shard gets what the metadata owner answered, and a canceled wait where it
/// answered nothing. The owner is the first shard.
pub proof fn law_peers_get_the_owners_answer<T>(
    answer: Option<Result<T, MetadataSubmitError>>,
    result: Result<T, MetadataSubmitError>,
    shard_id: u16,
    owns: bool,
)
    requires
        call_ensures(owner_answer::<T>, (answer,), result),
        call_ensures(owns_metadata, (shard_id,), owns),
    ensures
        answer matches Some(answered) ==> result == answered,
        answer is None ==> (result matches Err(error) && error == MetadataSubmitError::Canceled),
        owns <==> shard_id == 0,
{
}

/// A verdict on a register is read as what it says: the session that it carries where
/// it committed, and otherwise the failure of the same name.
pub proof fn law_register_verdicts_are_read_by_name(
    header: ForwardRegisterResultHeader,
    bound: Result<BoundSession, MetadataSubmitError>,
)
    requires
        call_ensures(forward_register_result, (&header,), bound),
    ensures
        bound is Ok <==> header.outcome == ForwardRegisterOutcome::Committed,
        bound matches Ok(session) ==> session.epoch == header.epoch && session.watermark
            == header.watermark,
        bound matches Err(error) ==> match error {
            MetadataSubmitError::NotPrimary => header.outcome == ForwardRegisterOutcome::NotPrimary,
            MetadataSubmitError::NotCaughtUp => header.outcome
                == ForwardRegisterOutcome::NotCaughtUp,
            MetadataSubmitError::PipelineFull => header.outcome
                == ForwardRegisterOutcome::PipelineFull,
            MetadataSubmitError::InProgress => header.outcome == ForwardRegisterOutcome::InProgress,
            MetadataSubmitError::Canceled => header.outcome == ForwardRegisterOutcome::Canceled,
            MetadataSubmitError::ClientIdOwnedByAnotherUser => header.outcome
                == ForwardRegisterOutcome::ClientIdOwnedByAnotherUser,
            MetadataSubmitError::PrimaryUnreachable => false,
            MetadataSubmitError::ForwardTimedOut => false,
        },
{
}

/// What the primary answers a forwarded register with is what the backup reads: the
/// session and every refusal of a proposal in process, and a canceled wait for the two
/// failures of a hop itself. The answer goes back under the client and the nonce of
/// the forward.
pub proof fn law_a_register_crosses_the_hop_unchanged(
    origin: ReplicaPosition,
    client: u128,
    nonce: u128,
    bound: Result<BoundSession, MetadataSubmitError>,
    header: ForwardRegisterResultHeader,
    arrived: Result<BoundSession, MetadataSubmitError>,
)
    requires
        call_ensures(
            build_forward_register_result_message,
            (origin, client, nonce, &bound),
            header,
        ),
        call_ensures(forward_register_result, (&header,), arrived),
    ensures
        header.origin == origin && header.client == client && header.nonce == nonce,
        match bound {
            Ok(session) => arrived matches Ok(same) && same == session,
            Err(MetadataSubmitError::PrimaryUnreachable) => {
                arrived matches Err(error) && error == MetadataSubmitError::Canceled
            },
            Err(MetadataSubmitError::ForwardTimedOut) => {
                arrived matches Err(error) && error == MetadataSubmitError::Canceled
            },
            Err(refused) => arrived matches Err(error) && error == refused,
        },
{
}

/// A verdict on a logout is read as what it says: the commit that it carries, or the
/// failure of the same name.
pub proof fn law_logout_verdicts_are_read_by_name(
    header: ForwardLogoutResultHeader,
    outcome: Result<u64, MetadataSubmitError>,
)
    requires
        call_ensures(forward_logout_result, (&header,), outcome),
    ensures
        match header.outcome {
            ForwardLogoutOutcome::Committed => outcome matches Ok(commit) && commit
                == header.commit,
            ForwardLogoutOutcome::NotPrimary => outcome matches Err(error) && error
                == MetadataSubmitError::NotPrimary,
            ForwardLogoutOutcome::PipelineFull => outcome matches Err(error) && error
                == MetadataSubmitError::PipelineFull,
            ForwardLogoutOutcome::InProgress => outcome matches Err(error) && error
                == MetadataSubmitError::InProgress,
            ForwardLogoutOutcome::Canceled => outcome matches Err(error) && error
                == MetadataSubmitError::Canceled,
        },
{
}

/// What the primary answers a forwarded logout with is what the backup reads: the
/// commit, and the three refusals that the wire has a word for; any other failure
/// arrives as a canceled wait. The answer goes back under the client and the nonce of
/// the forward.
pub proof fn law_a_logout_crosses_the_hop_unchanged(
    origin: ReplicaPosition,
    client: u128,
    nonce: u128,
    outcome: Result<u64, MetadataSubmitError>,
    header: ForwardLogoutResultHeader,
    arrived: Result<u64, MetadataSubmitError>,
)
    requires
        call_ensures(
            build_forward_logout_result_message,
            (origin, client, nonce, &outcome),
            header,
        ),
        call_ensures(forward_logout_result, (&header,), arrived),
    ensures
        header.origin == origin && header.client == client && header.nonce == nonce,
        match outcome {
            Ok(commit) => arrived matches Ok(same) && same == commit,
            Err(MetadataSubmitError::NotPrimary) => {
                arrived matches Err(error) && error == MetadataSubmitError::NotPrimary
            },
            Err(MetadataSubmitError::PipelineFull) => {
                arrived matches Err(error) && error == MetadataSubmitError::PipelineFull
            },
            Err(MetadataSubmitError::InProgress) => {
                arrived matches Err(error) && error == MetadataSubmitError::InProgress
            },
            Err(_) => arrived matches Err(error) && error == MetadataSubmitError::Canceled,
        },
{
}

/// A verdict on the wire says committed exactly where the proposal did, and carries
/// no session and no commit where it did not.
pub proof fn law_failures_carry_nothing_on_the_wire(
    bound: Result<BoundSession, MetadataSubmitError>,
    register: (BoundSession, ForwardRegisterOutcome),
    outcome: Result<u64, MetadataSubmitError>,
    logout: (u64, ForwardLogoutOutcome),
)
    requires
        call_ensures(forward_register_outcome, (&bound,), register),
        call_ensures(forward_logout_outcome, (&outcome,), logout),
    ensures
        register.1 == ForwardRegisterOutcome::Committed <==> bound is Ok,
        bound matches Ok(session) ==> register.0 == session,
        bound is Err ==> register.0.epoch == 0 && register.0.watermark == 0,
        logout.1 == ForwardLogoutOutcome::Committed <==> outcome is Ok,
        outcome matches Ok(commit) ==> logout.0 == commit,
        outcome is Err ==> logout.0 == 0,
{
    let place = ReplicaPosition { cluster: 0, view: 0, replica: 0 };
    let register_header = register_result_header(place, 0, 0, register);
    let logout_header = logout_result_header(place, 0, 0, logout);
    assert(register_verdict(register_header) == register_after_hop(bound));
    assert(logout_verdict(logout_header) == logout_after_hop(outcome));
}

/// A forward that got an answer ends as the answer reads, and its parked entry is
/// gone with it. One that could not be sent, or timed out, ends so, and takes its
/// entry back; one whose wait was torn down is canceled, with nothing left to take. A
/// forward times out after five seconds.
pub proof fn law_forwards_end_as_they_are_answered(
    register: ForwardEvent<ForwardRegisterResultHeader>,
    register_end: ForwardSettled<BoundSession>,
    logout: ForwardEvent<ForwardLogoutResultHeader>,
    logout_end: ForwardSettled<u64>,
    registered: Result<BoundSession, MetadataSubmitError>,
    logged_out: Result<u64, MetadataSubmitError>,
)
    requires
        call_ensures(settle_register_forward, (&register,), register_end),
        call_ensures(settle_logout_forward, (&logout,), logout_end),
        register matches ForwardEvent::Answered(header) ==> call_ensures(
            forward_register_result,
            (&header,),
            registered,
        ),
        logout matches ForwardEvent::Answered(header) ==> call_ensures(
            forward_logout_result,
            (&header,),
            logged_out,
        ),
    ensures
        register_end.cancel_parked <==> register is SendFailed || register is TimedOut,
        logout_end.cancel_parked <==> logout is SendFailed || logout is TimedOut,
        match register {
            ForwardEvent::Answered(_) => register_end.result == registered,
            ForwardEvent::SendFailed => register_end.result matches Err(error) && error
                == MetadataSubmitError::PrimaryUnreachable,
            ForwardEvent::ChannelDropped => register_end.result matches Err(error) && error
                == MetadataSubmitError::Canceled,
            ForwardEvent::TimedOut => register_end.result matches Err(error) && error
                == MetadataSubmitError::ForwardTimedOut,
        },
        match logout {
            ForwardEvent::Answered(_) => logout_end.result == logged_out,
            ForwardEvent::SendFailed => logout_end.result matches Err(error) && error
                == MetadataSubmitError::PrimaryUnreachable,
            ForwardEvent::ChannelDropped => logout_end.result matches Err(error) && error
                == MetadataSubmitError::Canceled,
            ForwardEvent::TimedOut => logout_end.result matches Err(error) && error
                == MetadataSubmitError::ForwardTimedOut,
        },
        FORWARD_SUBMIT_TIMEOUT_SECS == 5,
{
}

/// A forwarded proposal names who proposed it and for whom, under a nonce of its own:
/// a register the client and its user, a logout the client, its session and its
/// request.
pub proof fn law_forwards_carry_the_identity_they_are_for(
    origin: ReplicaPosition,
    client: u128,
    nonce: u128,
    user_id: u32,
    session: u64,
    request: u64,
    register: ForwardRegisterHeader,
    logout: ForwardLogoutHeader,
)
    requires
        call_ensures(
            build_forward_register_message,
            (origin, client, nonce, user_id),
            register,
        ),
        call_ensures(
            build_forward_logout_message,
            (origin, client, nonce, session, request),
            logout,
        ),
    ensures
        register.origin == origin && register.client == client && register.nonce == nonce,
        register.user_id == user_id,
        logout.origin == origin && logout.client == client && logout.nonce == nonce,
        logout.session == session && logout.request == request,
{
}

} // verus!
