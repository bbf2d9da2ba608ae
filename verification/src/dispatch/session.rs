//! Ending a session: logout, a lost connection, and a connection gone quiet.

use crate::dispatch::forward::{logout_after_hop, transient_logout_code, MetadataSubmitError};
use crate::dispatch::status::{EvictionReason, Status};
use crate::time;
use std::time::Duration;
use vstd::prelude::*;

verus! {

/// The session a transport is bound to.
#[derive(Clone, Copy, Debug, PartialEq, Eq, Structural)]
pub struct BoundTransport {
    pub client: u128,
    pub session: u64,
}

/// The frame that answers a logout.
#[derive(Clone, Copy, Debug, PartialEq, Eq, Structural)]
pub enum LogoutFrame {
    /// Done, as of this commit.
    Done { client: u128, session: u64, commit: u64 },
    /// Not done; try again as the status says.
    Deny { client: u128, session: u64, commit: u64, status: Status },
}

/// How a logout starts.
#[derive(Clone, Copy, Debug, PartialEq, Eq, Structural)]
pub enum LogoutStart {
    /// There is nothing to end: answer at once.
    Answer(LogoutFrame),
    /// Propose the logout of this session under this request number.
    Submit { bound: BoundTransport, request: u64 },
}

/// How a logout ends.
#[derive(Clone, Copy, Debug, PartialEq, Eq, Structural)]
pub struct LogoutEnd {
    /// Whether the connection's session is dropped here too.
    pub remove_connection: bool,
    pub frame: LogoutFrame,
}

/// What a lost connection leaves to do.
#[derive(Clone, Copy, Debug, PartialEq, Eq, Structural)]
pub enum LostConnectionStep {
    /// No shard is there to log it out: its session stays as it is.
    Leave,
    /// Drop the connection's session, and propose a logout of what it was bound to.
    RemoveSession,
}

/// What the eviction of a quiet connection consists of.
#[derive(Clone, Copy, Debug, PartialEq, Eq, Structural)]
pub struct StaleEviction {
    /// The session to log out across the cluster.
    pub logout: Option<BoundTransport>,
    /// The client named in the notice, and why.
    pub client: u128,
    pub reason: EvictionReason,
}

/// Starts a logout. On a transport without a session the wished state holds
/// already, so it is answered with success, under the transport's own id.
pub fn start_logout(
    transport_client_id: u128,
    bound: &Option<BoundTransport>,
    request: u64,
    current_commit: u64,
) -> (start: LogoutStart)
    ensures
        start == match *bound {
            None => LogoutStart::Answer(
                LogoutFrame::Done {
                    client: transport_client_id,
                    session: 0,
                    commit: current_commit,
                },
            ),
            Some(bound) => LogoutStart::Submit { bound, request },
        },
{
    match bound {
        None => LogoutStart::Answer(
            LogoutFrame::Done { client: transport_client_id, session: 0, commit: current_commit },
        ),
        Some(bound) => LogoutStart::Submit { bound: *bound, request },
    }
}

/// How a proposed logout ends.
pub open spec fn logout_end(
    bound: BoundTransport,
    submitted: Result<u64, MetadataSubmitError>,
    current_commit: u64,
) -> LogoutEnd {
    LogoutEnd {
        remove_connection: submitted is Ok,
        frame: match submitted {
            Ok(commit) => LogoutFrame::Done {
                client: bound.client,
                session: bound.session,
                commit,
            },
            Err(error) => LogoutFrame::Deny {
                client: bound.client,
                session: bound.session,
                commit: current_commit,
                status: error.retry_status(),
            },
        },
    }
}

/// Ends a logout that was proposed. Only a committed one drops the connection's
/// session; a failed one leaves it bound and says how to try again. Either way
/// the client gets a frame.
pub fn finish_logout(
    bound: BoundTransport,
    submitted: &Result<u64, MetadataSubmitError>,
    current_commit: u64,
) -> (end: LogoutEnd)
    ensures
        end == logout_end(bound, *submitted, current_commit),
{
    match submitted {
        Ok(commit) => LogoutEnd {
            remove_connection: true,
            frame: LogoutFrame::Done {
                client: bound.client,
                session: bound.session,
                commit: *commit,
            },
        },
        Err(error) => LogoutEnd {
            remove_connection: false,
            frame: LogoutFrame::Deny {
                client: bound.client,
                session: bound.session,
                commit: current_commit,
                status: transient_logout_code(error),
            },
        },
    }
}

/// What to do about a lost connection. Its session is dropped only where a shard
/// is there to propose the logout: dropped without one, the replicated entry and
/// its group memberships would have no owner left.
pub fn settle_lost_connection(shard_is_alive: bool) -> (step: LostConnectionStep)
    ensures
        step == if shard_is_alive {
            LostConnectionStep::RemoveSession
        } else {
            LostConnectionStep::Leave
        },
{
    if shard_is_alive {
        LostConnectionStep::RemoveSession
    } else {
        LostConnectionStep::Leave
    }
}

/// The age at which a connection is stale, in nanoseconds: 1.2 heartbeat
/// intervals, computed without overflow.
pub open spec fn max_age_nanos(interval: nat) -> nat {
    let sixfold = if 6 * interval <= time::MAX_DURATION_NANOS {
        6 * interval
    } else {
        time::MAX_DURATION_NANOS as nat
    };
    sixfold / 5
}

/// The age at which a connection is stale.
pub fn heartbeat_max_age(interval: Duration) -> (max_age: Duration)
    ensures
        time::nanos_of(max_age) == max_age_nanos(time::nanos_of(interval)),
{
    let sixfold: u128 = time::nanos(interval) * 6;
    let capped: u128 = if sixfold <= time::MAX_DURATION_NANOS {
        sixfold
    } else {
        time::MAX_DURATION_NANOS
    };
    time::saturating_from_nanos(capped / 5)
}

/// What the heartbeat verifier does after its wait.
#[derive(Clone, Copy, Debug, PartialEq, Eq, Structural)]
pub enum HeartbeatStep {
    Stop,
    /// Evict the stale connections.
    Sweep,
}

/// What the heartbeat verifier does after its wait: the stop signal ends it, an
/// interval that passes without one makes a sweep.
pub fn run_heartbeat_verifier(is_stopped: bool) -> (step: HeartbeatStep)
    ensures
        step == if is_stopped {
            HeartbeatStep::Stop
        } else {
            HeartbeatStep::Sweep
        },
{
    if is_stopped {
        HeartbeatStep::Stop
    } else {
        HeartbeatStep::Sweep
    }
}

/// Whether a stale connection is evicted. Only one that holds a consumer group
/// membership has anything to release.
pub fn evicts_stale_connection(bound_client: Option<u128>, memberships: usize) -> (evicts: bool)
    ensures
        evicts <==> bound_client is Some && memberships > 0,
{
    bound_client.is_some() && memberships > 0
}

/// The eviction of a stale connection, whose session, if it had one, has been
/// dropped.
pub fn evict_stale_client(transport_client_id: u128, removed: Option<BoundTransport>) -> (eviction:
    StaleEviction)
    ensures
        eviction == (StaleEviction {
            logout: removed,
            client: transport_client_id,
            reason: EvictionReason::StaleClient,
        }),
{
    StaleEviction {
        logout: removed,
        client: transport_client_id,
        reason: EvictionReason::StaleClient,
    }
}

/// A connection that pings once per interval is never stale, for every interval up
/// to a fifth of the longest duration: the limit is six fifths of the interval,
/// rounded down.
pub proof fn law_stale_limit_exceeds_the_interval(interval: nat)
    requires
        5 * interval <= time::MAX_DURATION_NANOS,
    ensures
        max_age_nanos(interval) >= interval,
        6 * interval <= time::MAX_DURATION_NANOS ==> 5 * max_age_nanos(interval) <= 6 * interval < 5
            * max_age_nanos(interval) + 5,
{
}

/// A logout that may have committed is retried under the same identity only, and
/// the session stays bound until a commit is known.
pub proof fn law_unknown_logout_keeps_the_session(
    bound: BoundTransport,
    error: MetadataSubmitError,
    current_commit: u64,
)
    ensures
        !logout_end(bound, Err(error), current_commit).remove_connection,
        error.has_unknown_outcome() <==> logout_end(bound, Err(error), current_commit).frame == (
        LogoutFrame::Deny {
            client: bound.client,
            session: bound.session,
            commit: current_commit,
            status: Status::TransientNotCommitted,
        }),
{
}

/// A hop never frees a logout to be retried elsewhere: what the client is told at a
/// backup is what the primary would have told it, or the stricter of the two
/// hints.
pub proof fn law_hops_only_pin_logouts(
    bound: BoundTransport,
    outcome: Result<u64, MetadataSubmitError>,
    current_commit: u64,
)
    ensures
        ({
            let here = logout_end(bound, outcome, current_commit);
            let behind_a_hop = logout_end(bound, logout_after_hop(outcome), current_commit);
            ||| behind_a_hop == here
            ||| behind_a_hop == (LogoutEnd {
                remove_connection: false,
                frame: LogoutFrame::Deny {
                    client: bound.client,
                    session: bound.session,
                    commit: current_commit,
                    status: Status::TransientNotCommitted,
                },
            }) && outcome is Err
        }),
{
}

/// A transport without a session is logged out already: it is told so at once, under
/// its own id and no session, as of the current commit. Any other logout is proposed
/// for the session it is bound to, under the number that the client gave it.
pub proof fn law_a_logout_is_proposed_for_its_session(
    transport_client_id: u128,
    bound: Option<BoundTransport>,
    request: u64,
    current_commit: u64,
    start: LogoutStart,
)
    requires
        call_ensures(start_logout, (transport_client_id, &bound, request, current_commit), start),
    ensures
        match start {
            LogoutStart::Submit { bound: submitted, request: number } => bound == Some(submitted)
                && number == request,
            LogoutStart::Answer(frame) => bound is None && (frame matches LogoutFrame::Done {
                client,
                session,
                commit,
            } && client == transport_client_id && session == 0 && commit == current_commit),
        },
{
}

/// A proposed logout is answered under the session it was for. Only a committed one
/// drops the connection's session, and reports its commit. A failed one keeps the
/// session, reports the current commit, and says to try again on this connection
/// exactly where its outcome is not known.
pub proof fn law_only_a_committed_logout_ends_the_session(
    bound: BoundTransport,
    submitted: Result<u64, MetadataSubmitError>,
    current_commit: u64,
    end: LogoutEnd,
)
    requires
        call_ensures(finish_logout, (bound, &submitted, current_commit), end),
    ensures
        end.remove_connection <==> submitted is Ok,
        match end.frame {
            LogoutFrame::Done { client, session, commit } => client == bound.client && session
                == bound.session && submitted is Ok && commit == submitted->Ok_0,
            LogoutFrame::Deny { client, session, commit, status } => {
                &&& client == bound.client && session == bound.session && commit == current_commit
                &&& submitted matches Err(error) && match error {
                    MetadataSubmitError::ForwardTimedOut => status == Status::TransientNotCommitted,
                    MetadataSubmitError::InProgress => status == Status::TransientNotCommitted,
                    MetadataSubmitError::Canceled => status == Status::TransientNotCommitted,
                    _ => status == Status::TransientNotAccepted,
                }
            },
        },
{
}

/// A connection is stale after six fifths of the heartbeat interval, rounded down to
/// the nanosecond, and never later than a fifth of the longest duration.
pub proof fn law_a_connection_is_stale_after_six_fifths(interval: Duration, max_age: Duration)
    requires
        call_ensures(heartbeat_max_age, (interval,), max_age),
    ensures
        ({
            let longest: nat = 18_446_744_073_709_551_615_999_999_999;
            let limit = time::nanos_of(max_age);
            let sixfold = 6 * time::nanos_of(interval);
            &&& sixfold <= longest ==> 5 * limit <= sixfold < 5 * limit + 5
            &&& sixfold > longest ==> 5 * limit <= longest < 5 * limit + 5
        }),
{
}

/// A connection that went quiet is evicted exactly where it is bound and a member of
/// some group. Its session is logged out, and the notice goes to the transport, as to
/// a stale client.
pub proof fn law_quiet_members_are_evicted(
    bound_client: Option<u128>,
    memberships: usize,
    evicts: bool,
    transport_client_id: u128,
    removed: Option<BoundTransport>,
    eviction: StaleEviction,
)
    requires
        call_ensures(evicts_stale_connection, (bound_client, memberships), evicts),
        call_ensures(evict_stale_client, (transport_client_id, removed), eviction),
    ensures
        evicts <==> bound_client is Some && memberships != 0,
        eviction.logout == removed,
        eviction.client == transport_client_id,
        eviction.reason == EvictionReason::StaleClient,
{
}

/// A lost connection drops its session exactly where a shard is there to log it out,
/// and the verifier sweeps until it is stopped.
pub proof fn law_sessions_are_dropped_only_with_a_shard(
    shard_is_alive: bool,
    lost: LostConnectionStep,
    is_stopped: bool,
    step: HeartbeatStep,
)
    requires
        call_ensures(settle_lost_connection, (shard_is_alive,), lost),
        call_ensures(run_heartbeat_verifier, (is_stopped,), step),
    ensures
        lost == LostConnectionStep::RemoveSession <==> shard_is_alive,
        step == HeartbeatStep::Stop <==> is_stopped,
{
}

} // verus!
