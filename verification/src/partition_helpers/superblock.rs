//! A partition group's durable record: whether to trust it, and what the group is
//! restored with.

use crate::boot::recovery::{DurableView, JoinMode};
use crate::partition_helpers::error::PartitionLoadError;
use vstd::prelude::*;

verus! {

/// Who a replica is.
#[derive(Clone, Copy, Debug, PartialEq, Eq, Structural)]
pub struct ReplicaIdentity {
    pub cluster: u128,
    pub replica_id: u8,
    pub replica_count: u8,
}

/// What a superblock records.
#[derive(Clone, Copy, Debug, PartialEq, Eq, Structural)]
pub struct VsrState {
    pub cluster: u128,
    pub replica_id: u8,
    pub replica_count: u8,
    pub view: u32,
    pub log_view: u32,
    pub commit_max: u64,
    pub checkpoint_op: u64,
    pub checkpoint_checksum: u128,
    /// The offset below which everything is accounted for.
    pub offset_frontier: u64,
    /// The offset below which any may have been handed out.
    pub offset_reserved: u64,
}

/// What the slots of a superblock hold.
#[derive(Debug, PartialEq)]
pub enum SuperblockContents<E> {
    /// Nothing was ever recorded.
    Empty,
    /// A verified record, and what it decodes to or why it does not.
    Present(Result<VsrState, E>),
    /// A record that cannot be verified, of the version it claims.
    Unreadable { version: Option<u32> },
}

/// A part of a replica's identity.
#[derive(Clone, Copy, Debug, PartialEq, Eq, Structural)]
pub enum IdentityField {
    Cluster,
    ReplicaId,
    ReplicaCount,
}

/// Why a superblock is not trusted.
#[derive(Debug, PartialEq)]
pub enum SuperblockRefusal<E> {
    /// It could not be read.
    Io(E),
    VersionUnknown { version: u32 },
    Unverifiable,
    Undecodable(E),
    /// It is another replica's.
    IdentityMismatch { field: IdentityField, expected: u128, found: u128 },
}

/// How a partition's consensus group is restored.
#[derive(Clone, Copy, Debug, PartialEq, Eq, Structural)]
pub struct PartitionRestore {
    pub join: JoinMode,
    pub durable_view: Option<DurableView>,
    pub prepare_capacity: usize,
    pub request_capacity: usize,
}

impl VsrState {
    /// Who recorded it.
    pub open spec fn identity(self) -> ReplicaIdentity {
        ReplicaIdentity {
            cluster: self.cluster,
            replica_id: self.replica_id,
            replica_count: self.replica_count,
        }
    }

    /// The view pair it recorded.
    pub open spec fn spec_durable_view(self) -> DurableView {
        DurableView { view: self.view, log_view: self.log_view }
    }

    /// The view pair it recorded.
    pub fn durable_view(&self) -> (durable_view: DurableView)
        ensures
            durable_view == self.spec_durable_view(),
    {
        DurableView { view: self.view, log_view: self.log_view }
    }
}

/// The first part in which a record's identity differs: the cluster before the
/// replica before the size of the group.
pub open spec fn identity_mismatch<E>(
    expected: ReplicaIdentity,
    found: ReplicaIdentity,
) -> Option<SuperblockRefusal<E>> {
    if expected.cluster != found.cluster {
        Some(
            SuperblockRefusal::IdentityMismatch {
                field: IdentityField::Cluster,
                expected: expected.cluster,
                found: found.cluster,
            },
        )
    } else if expected.replica_id != found.replica_id {
        Some(
            SuperblockRefusal::IdentityMismatch {
                field: IdentityField::ReplicaId,
                expected: expected.replica_id as u128,
                found: found.replica_id as u128,
            },
        )
    } else if expected.replica_count != found.replica_count {
        Some(
            SuperblockRefusal::IdentityMismatch {
                field: IdentityField::ReplicaCount,
                expected: expected.replica_count as u128,
                found: found.replica_count as u128,
            },
        )
    } else {
        None
    }
}

/// What a superblock says of a replica, or why it is not believed.
pub open spec fn superblock_verdict<E>(
    contents: Result<SuperblockContents<E>, E>,
    identity: ReplicaIdentity,
) -> Result<Option<VsrState>, SuperblockRefusal<E>> {
    match contents {
        Err(source) => Err(SuperblockRefusal::Io(source)),
        Ok(SuperblockContents::Empty) => Ok(None),
        Ok(SuperblockContents::Unreadable { version: Some(version) }) => Err(
            SuperblockRefusal::VersionUnknown { version },
        ),
        Ok(SuperblockContents::Unreadable { version: None }) => Err(
            SuperblockRefusal::Unverifiable,
        ),
        Ok(SuperblockContents::Present(Err(source))) => Err(SuperblockRefusal::Undecodable(source)),
        Ok(SuperblockContents::Present(Ok(state))) => match identity_mismatch::<E>(
            identity,
            state.identity(),
        ) {
            Some(refusal) => Err(refusal),
            None => Ok(Some(state)),
        },
    }
}

/// Judges what a superblock holds, or why it could not be read.
fn judge_superblock<E>(contents: Result<SuperblockContents<E>, E>, identity: &ReplicaIdentity) -> (verdict:
    Result<Option<VsrState>, SuperblockRefusal<E>>)
    ensures
        verdict == superblock_verdict(contents, *identity),
{
    let state = match contents {
        Err(source) => return Err(SuperblockRefusal::Io(source)),
        Ok(SuperblockContents::Empty) => return Ok(None),
        Ok(SuperblockContents::Unreadable { version: Some(version) }) => return Err(
            SuperblockRefusal::VersionUnknown { version },
        ),
        Ok(SuperblockContents::Unreadable { version: None }) => return Err(
            SuperblockRefusal::Unverifiable,
        ),
        Ok(SuperblockContents::Present(Err(source))) => return Err(
            SuperblockRefusal::Undecodable(source),
        ),
        Ok(SuperblockContents::Present(Ok(state))) => state,
    };
    if state.cluster != identity.cluster {
        return Err(
            SuperblockRefusal::IdentityMismatch {
                field: IdentityField::Cluster,
                expected: identity.cluster,
                found: state.cluster,
            },
        );
    }
    if state.replica_id != identity.replica_id {
        return Err(
            SuperblockRefusal::IdentityMismatch {
                field: IdentityField::ReplicaId,
                expected: identity.replica_id as u128,
                found: state.replica_id as u128,
            },
        );
    }
    if state.replica_count != identity.replica_count {
        return Err(
            SuperblockRefusal::IdentityMismatch {
                field: IdentityField::ReplicaCount,
                expected: identity.replica_count as u128,
                found: state.replica_count as u128,
            },
        );
    }
    Ok(Some(state))
}

/// Judges the superblock in a partition's directory, given what its slots hold or
/// why they could not be read. Only an empty one counts as a group that never
/// recorded anything: taking a record that cannot be trusted for none would let the
/// replica act again in a view it has left.
pub fn open_partition_superblock<E>(
    dir: String,
    contents: Result<SuperblockContents<E>, E>,
    identity: &ReplicaIdentity,
) -> (opened: Result<Option<VsrState>, PartitionLoadError<E>>)
    ensures
        opened == match superblock_verdict(contents, *identity) {
            Ok(state) => Ok(state),
            Err(refusal) => Err(PartitionLoadError::Superblock { dir, refusal }),
        },
{
    match judge_superblock(contents, identity) {
        Ok(state) => Ok(state),
        Err(refusal) => Err(PartitionLoadError::Superblock { dir, refusal }),
    }
}

/// How the group of a recovered partition is restored. With peers it joins as a
/// backup that asks for the view, its journal having died with the process; alone
/// it has nobody to ask.
pub fn restore_partition_group(
    replica_count: u8,
    recovered_state: &Option<VsrState>,
    prepare_queue_depth: usize,
) -> (restore: PartitionRestore)
    requires
        2 * prepare_queue_depth <= usize::MAX,
    ensures
        restore.join == if replica_count > 1 {
            JoinMode::ProbeAsBackup { await_state_transfer: false }
        } else {
            JoinMode::Init
        },
        restore.durable_view == match *recovered_state {
            Some(state) => Some(state.spec_durable_view()),
            None => None,
        },
        restore.prepare_capacity == prepare_queue_depth,
        restore.request_capacity == 2 * prepare_queue_depth,
{
    PartitionRestore {
        join: if replica_count > 1 {
            JoinMode::ProbeAsBackup { await_state_transfer: false }
        } else {
            JoinMode::Init
        },
        durable_view: match recovered_state {
            Some(state) => Some(state.durable_view()),
            None => None,
        },
        prepare_capacity: prepare_queue_depth,
        request_capacity: prepare_queue_depth * 2,
    }
}

/// A record is believed by the replica that wrote it and by no other.
pub proof fn law_only_the_own_record_is_believed<E>(state: VsrState, identity: ReplicaIdentity)
    ensures
        ({
            let contents: Result<SuperblockContents<E>, E> = Ok(
                SuperblockContents::Present(Ok(state)),
            );
            let verdict = superblock_verdict(contents, identity);
            &&& verdict == Result::<Option<VsrState>, SuperblockRefusal<E>>::Ok(Some(state))
                <==> state.identity() == identity
            &&& verdict is Err <==> state.identity() != identity
        }),
{
}

/// A replica starts without a record only where none was ever written: every
/// damaged one is refused.
pub proof fn law_damage_is_never_taken_for_absence<E>(
    contents: Result<SuperblockContents<E>, E>,
    identity: ReplicaIdentity,
)
    requires
        superblock_verdict(contents, identity) == Result::<
            Option<VsrState>,
            SuperblockRefusal<E>,
        >::Ok(None),
    ensures
        contents == Result::<SuperblockContents<E>, E>::Ok(SuperblockContents::Empty),
{
}

/// A record is believed exactly where it could be read and decoded and names this
/// replica of this group of this size, and then it is the one found. Nothing recorded
/// is no record. Everything else is refused, as the damage of the directory it is in.
pub proof fn law_a_superblock_is_believed_or_refused<E>(
    dir: String,
    contents: Result<SuperblockContents<E>, E>,
    identity: ReplicaIdentity,
    opened: Result<Option<VsrState>, PartitionLoadError<E>>,
)
    requires
        call_ensures(open_partition_superblock::<E>, (dir, contents, &identity), opened),
    ensures
        opened is Ok && opened->Ok_0 is None <==> contents is Ok && contents->Ok_0 is Empty,
        opened matches Ok(Some(state)) ==> {
            &&& contents == Result::<SuperblockContents<E>, E>::Ok(
                SuperblockContents::Present(Ok(state)),
            )
            &&& state.cluster == identity.cluster
            &&& state.replica_id == identity.replica_id
            &&& state.replica_count == identity.replica_count
        },
        contents matches Ok(SuperblockContents::Present(Ok(state))) ==> (state.cluster
            == identity.cluster && state.replica_id == identity.replica_id && state.replica_count
            == identity.replica_count ==> opened is Ok),
        opened matches Err(error) ==> (error matches PartitionLoadError::Superblock { dir: at, .. }
            && at == dir),
{
}

/// A refused record says what is wrong with it: why it could not be read or decoded,
/// the version it claims, or the first part in which it is another replica's, the
/// cluster before the replica before the size of the group, with both values.
pub proof fn law_a_refused_superblock_says_why<E>(
    dir: String,
    contents: Result<SuperblockContents<E>, E>,
    identity: ReplicaIdentity,
    refusal: SuperblockRefusal<E>,
)
    requires
        call_ensures(
            open_partition_superblock::<E>,
            (dir, contents, &identity),
            Err(PartitionLoadError::Superblock { dir, refusal }),
        ),
    ensures
        match refusal {
            SuperblockRefusal::Io(source) => contents == Result::<SuperblockContents<E>, E>::Err(
                source,
            ),
            SuperblockRefusal::VersionUnknown { version } => contents == Result::<
                SuperblockContents<E>,
                E,
            >::Ok(SuperblockContents::Unreadable { version: Some(version) }),
            SuperblockRefusal::Unverifiable => contents == Result::<SuperblockContents<E>, E>::Ok(
                SuperblockContents::Unreadable { version: None },
            ),
            SuperblockRefusal::Undecodable(source) => contents == Result::<
                SuperblockContents<E>,
                E,
            >::Ok(SuperblockContents::Present(Err(source))),
            SuperblockRefusal::IdentityMismatch { field, expected, found } => {
                contents matches Ok(SuperblockContents::Present(Ok(state))) && match field {
                    IdentityField::Cluster => expected == identity.cluster && found == state.cluster
                        && expected != found,
                    IdentityField::ReplicaId => expected == identity.replica_id && found
                        == state.replica_id && expected != found && state.cluster
                        == identity.cluster,
                    IdentityField::ReplicaCount => expected == identity.replica_count && found
                        == state.replica_count && expected != found && state.cluster
                        == identity.cluster && state.replica_id == identity.replica_id,
                }
            },
        },
{
}

/// A partition's group with peers asks them for the view, and waits for no state; a
/// solo one takes its place. It resumes the view pair that its record holds, with
/// room for as many prepares as configured and twice as many requests.
pub proof fn law_a_group_resumes_its_recorded_view(
    replica_count: u8,
    recovered: Option<VsrState>,
    prepare_queue_depth: usize,
    restore: PartitionRestore,
)
    requires
        call_ensures(
            restore_partition_group,
            (replica_count, &recovered, prepare_queue_depth),
            restore,
        ),
    ensures
        restore.join == JoinMode::Init <==> replica_count <= 1,
        restore.join matches JoinMode::ProbeAsBackup { await_state_transfer }
            ==> !await_state_transfer,
        restore.durable_view is Some <==> recovered is Some,
        restore.durable_view matches Some(recorded) ==> recorded.view == recovered->0.view
            && recorded.log_view == recovered->0.log_view,
        restore.prepare_capacity == prepare_queue_depth,
        restore.request_capacity == prepare_queue_depth + prepare_queue_depth,
{
}

/// The view pair of a record is the one it holds.
pub proof fn law_a_record_keeps_its_view_pair(state: VsrState, recorded: DurableView)
    requires
        call_ensures(VsrState::durable_view, (&state,), recorded),
    ensures
        recorded.view == state.view,
        recorded.log_view == state.log_view,
{
}

} // verus!
