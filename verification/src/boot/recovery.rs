//! Restoring metadata consensus from what a replica finds on its own disk.

use crate::time;
use std::time::Duration;
use vstd::prelude::*;

verus! {

/// Shortest post-restart read-recovery deadline, in nanoseconds: 15 seconds.
pub const RECOVERY_BARRIER_DEADLINE_FLOOR_NANOS: u128 = 15_000_000_000;

/// Safety factor on each configured interval that stretches a recovery.
pub const RECOVERY_BARRIER_MULTIPLIER: u128 = 3;

/// How a restored replica enters its consensus group.
#[derive(Clone, Copy, Debug, PartialEq, Eq, Structural)]
pub enum JoinMode {
    /// Takes its place in the recovered view at once.
    Init,
    /// Joins as a quorum-invisible backup that asks its peers for the current
    /// view, and with `await_state_transfer` replaces its snapshot-shaped state
    /// from the primary it finds.
    ProbeAsBackup { await_state_transfer: bool },
}

/// The view pair a durable superblock recorded.
#[derive(Clone, Copy, Debug, PartialEq, Eq, Structural)]
pub struct DurableView {
    pub view: u32,
    pub log_view: u32,
}

/// What recovery needs of the header of the journal's last prepare.
#[derive(Clone, Copy, Debug, PartialEq, Eq, Structural)]
pub struct PrepareHead {
    pub view: u32,
    pub checksum: u128,
    pub timestamp: u64,
}

/// What recovery read off this replica's own disk.
#[derive(Clone, Copy, Debug, PartialEq, Eq, Structural)]
pub struct RecoveredOwnerState {
    /// Sequence number of the snapshot, where there is one.
    pub snapshot_op: Option<u64>,
    /// Last op that was applied, as the journal's embedded watermark gives it.
    pub last_applied_op: Option<u64>,
    /// Last op that the journal holds.
    pub last_journaled_op: Option<u64>,
    /// The superblock's view pair, where a superblock was found.
    pub recovered_state: Option<DurableView>,
    /// Header of the last prepare of the journal.
    pub last_header: Option<PrepareHead>,
}

/// The configured values a restored metadata group starts with.
#[derive(Clone, Copy)]
pub struct RestoreTuning {
    pub heartbeat_timeout: Duration,
    pub view_change_status_timeout: Duration,
    pub prepare_queue_depth: usize,
}

/// Reads wait until `barrier_op` has committed again, for at most `deadline`.
#[derive(Clone, Copy)]
pub struct RecoveryBarrier {
    pub barrier_op: u64,
    pub deadline: Duration,
}

/// Everything a metadata consensus group is restored with.
#[derive(Clone, Copy)]
pub struct ConsensusRestore {
    pub join: JoinMode,
    pub durable_view: Option<DurableView>,
    pub view_fallback: Option<u32>,
    pub incarnation: u128,
    pub prepare_capacity: usize,
    pub request_capacity: usize,
    /// The op the sequencer resumes from.
    pub restored_op: u64,
    /// The op up to which the journal is known to have committed.
    pub commit_watermark: u64,
    pub last_prepare: Option<PrepareHead>,
    pub recovery_barrier: Option<RecoveryBarrier>,
}

/// One prepare of the recovered suffix as it goes back into the pipeline.
#[derive(Clone, Copy, Debug, PartialEq, Eq, Structural)]
pub struct PipelineEntry {
    pub op: u64,
    pub header: PrepareHead,
    /// The one replica whose acknowledgement the entry starts with.
    pub acked_by: u8,
}

/// `nanos` scaled by the recovery factor, up to the longest duration.
pub open spec fn scaled_nanos(nanos: nat) -> nat {
    let scaled = nanos * RECOVERY_BARRIER_MULTIPLIER as nat;
    if scaled <= time::MAX_DURATION_NANOS {
        scaled
    } else {
        time::MAX_DURATION_NANOS as nat
    }
}

/// The larger of two numbers.
pub open spec fn larger(left: nat, right: nat) -> nat {
    if left < right {
        right
    } else {
        left
    }
}

/// The recovery deadline in nanoseconds: the largest of the floor and the two
/// scaled intervals.
pub open spec fn deadline_nanos(heartbeat: nat, view_change_status: nat) -> nat {
    larger(
        larger(scaled_nanos(heartbeat), scaled_nanos(view_change_status)),
        RECOVERY_BARRIER_DEADLINE_FLOOR_NANOS as nat,
    )
}

impl RecoveredOwnerState {
    /// The op below which the snapshot stands for the journal.
    pub open spec fn snapshot_floor(self) -> u64 {
        match self.snapshot_op {
            Some(op) => op,
            None => 0,
        }
    }

    /// The last op this replica holds, journaled or in its snapshot.
    pub open spec fn restored_op(self) -> u64 {
        match self.last_journaled_op {
            Some(op) => op,
            None => self.snapshot_floor(),
        }
    }

    /// The last op known to have committed. A solo replica is its own quorum, so
    /// all that it journaled has.
    pub open spec fn commit_watermark(self, replica_count: u8) -> u64 {
        if replica_count == 1 {
            self.restored_op()
        } else {
            match self.last_applied_op {
                Some(op) => op,
                None => self.snapshot_floor(),
            }
        }
    }

    /// Whether this replica ran before: it holds an op or a superblock.
    pub open spec fn has_prior_life(self) -> bool {
        self.restored_op() > 0 || self.recovered_state is Some
    }

    /// How this replica joins a group of `replica_count`.
    pub open spec fn join(self, replica_count: u8) -> JoinMode {
        if replica_count > 1 && self.has_prior_life() {
            JoinMode::ProbeAsBackup { await_state_transfer: true }
        } else {
            JoinMode::Init
        }
    }
}

impl ConsensusRestore {
    /// Whether `self` restores what `owner` recovered into a group of
    /// `replica_count`, whatever the incarnation.
    pub open spec fn restores(
        self,
        owner: RecoveredOwnerState,
        replica_count: u8,
        tuning: RestoreTuning,
    ) -> bool {
        &&& self.join == owner.join(replica_count)
        &&& self.durable_view == owner.recovered_state
        &&& self.view_fallback == match owner.last_header {
            Some(header) => Some(header.view),
            None => None,
        }
        &&& self.prepare_capacity == tuning.prepare_queue_depth
        &&& self.request_capacity == 2 * tuning.prepare_queue_depth
        &&& self.restored_op == owner.restored_op()
        &&& self.commit_watermark == owner.commit_watermark(replica_count)
        &&& self.last_prepare == owner.last_header
        &&& self.recovery_barrier is Some <==> self.commit_watermark < self.restored_op
        &&& self.recovery_barrier matches Some(barrier) ==> {
            &&& barrier.barrier_op == self.restored_op
            &&& time::nanos_of(barrier.deadline) == deadline_nanos(
                time::nanos_of(tuning.heartbeat_timeout),
                time::nanos_of(tuning.view_change_status_timeout),
            )
        }
    }
}

/// How long post-restart reads wait for the recovered suffix to commit again:
/// the largest of the fixed floor and three times either configured interval,
/// saturating at the longest duration.
pub fn recovery_barrier_deadline(heartbeat: Duration, view_change_status: Duration) -> (deadline:
    Duration)
    ensures
        time::nanos_of(deadline) == deadline_nanos(
            time::nanos_of(heartbeat),
            time::nanos_of(view_change_status),
        ),
{
    let heartbeat_nanos: u128 = time::nanos(heartbeat);
    let status_nanos: u128 = time::nanos(view_change_status);
    let slower: u128 = if heartbeat_nanos < status_nanos { status_nanos } else { heartbeat_nanos };
    let scaled: u128 = slower * RECOVERY_BARRIER_MULTIPLIER;
    if scaled < RECOVERY_BARRIER_DEADLINE_FLOOR_NANOS {
        time::saturating_from_nanos(RECOVERY_BARRIER_DEADLINE_FLOOR_NANOS)
    } else {
        time::saturating_from_nanos(scaled)
    }
}

/// `rand::random::<u128>`: a value drawn from the thread's generator. Any `u128`
/// can come out, so nothing is claimed of it. It does not return where the system
/// has no entropy to seed the generator with.
#[verifier::external_body]
fn random_u128() -> (drawn: u128)
{
    rand::random::<u128>()
}

/// The incarnation for a drawn value: its lowest bit is set, so that it is never
/// the zero that means "unset".
pub fn incarnation_from(drawn: u128) -> (incarnation: u128)
    ensures
        incarnation == drawn | 1,
        incarnation == if drawn % 2 == 0 { drawn + 1 } else { drawn as int },
        incarnation != 0,
{
    assert((drawn | 1) == if drawn % 2 == 0 { (drawn + 1) as u128 } else { drawn }) by (bit_vector);
    assert(drawn % 2 == 0 ==> drawn < u128::MAX);
    drawn | 1
}

/// The restore parameters of a metadata group, with the incarnation made from
/// `drawn`.
pub fn plan_metadata_restore(
    owner: &RecoveredOwnerState,
    replica_count: u8,
    tuning: &RestoreTuning,
    drawn: u128,
) -> (restore: ConsensusRestore)
    requires
        2 * tuning.prepare_queue_depth <= usize::MAX,
    ensures
        restore.restores(*owner, replica_count, *tuning),
        restore.incarnation == drawn | 1,
{
    let snapshot_floor: u64 = match owner.snapshot_op {
        Some(op) => op,
        None => 0,
    };
    let restored_op: u64 = match owner.last_journaled_op {
        Some(op) => op,
        None => snapshot_floor,
    };
    let applied_op: u64 = match owner.last_applied_op {
        Some(op) => op,
        None => snapshot_floor,
    };
    let join = if replica_count > 1 && (restored_op > 0 || owner.recovered_state.is_some()) {
        JoinMode::ProbeAsBackup { await_state_transfer: true }
    } else {
        JoinMode::Init
    };
    let commit_watermark: u64 = if replica_count == 1 { restored_op } else { applied_op };
    let recovery_barrier = if commit_watermark < restored_op {
        Some(
            RecoveryBarrier {
                barrier_op: restored_op,
                deadline: recovery_barrier_deadline(
                    tuning.heartbeat_timeout,
                    tuning.view_change_status_timeout,
                ),
            },
        )
    } else {
        None
    };
    ConsensusRestore {
        join,
        durable_view: owner.recovered_state,
        view_fallback: match owner.last_header {
            Some(header) => Some(header.view),
            None => None,
        },
        incarnation: incarnation_from(drawn),
        prepare_capacity: tuning.prepare_queue_depth,
        request_capacity: tuning.prepare_queue_depth * 2,
        restored_op,
        commit_watermark,
        last_prepare: owner.last_header,
        recovery_barrier,
    }
}

/// The restore parameters of a metadata group under a freshly drawn incarnation,
/// so that a reply addressed to an earlier life of this replica is ignored.
pub fn restore_metadata_consensus(
    owner: &RecoveredOwnerState,
    replica_count: u8,
    tuning: &RestoreTuning,
) -> (restore: ConsensusRestore)
    requires
        2 * tuning.prepare_queue_depth <= usize::MAX,
    ensures
        restore.restores(*owner, replica_count, *tuning),
        restore.incarnation % 2 == 1,
{
    let drawn: u128 = random_u128();
    let restore = plan_metadata_restore(owner, replica_count, tuning, drawn);
    assert((drawn | 1) % 2 == 1) by (bit_vector);
    restore
}

/// The deadline never falls under the floor nor under three times either
/// interval, and raising an interval never shortens it.
pub proof fn law_deadline_covers_every_term(heartbeat: nat, view_change_status: nat, more: nat)
    requires
        heartbeat <= time::MAX_DURATION_NANOS,
        view_change_status <= time::MAX_DURATION_NANOS,
    ensures
        deadline_nanos(heartbeat, view_change_status) >= 15_000_000_000,
        deadline_nanos(heartbeat, view_change_status) >= scaled_nanos(heartbeat),
        deadline_nanos(heartbeat, view_change_status) >= scaled_nanos(view_change_status),
        deadline_nanos(heartbeat, view_change_status) <= time::MAX_DURATION_NANOS,
        deadline_nanos(heartbeat, view_change_status) <= deadline_nanos(
            heartbeat + more,
            view_change_status,
        ),
        deadline_nanos(heartbeat, view_change_status) <= deadline_nanos(
            heartbeat,
            view_change_status + more,
        ),
{
}

/// A solo replica comes up with everything it journaled committed: it has no
/// recovery barrier and nothing to replicate again, and it never probes.
pub proof fn law_solo_replica_recovers_committed(
    restore: ConsensusRestore,
    owner: RecoveredOwnerState,
    tuning: RestoreTuning,
)
    requires
        restore.restores(owner, 1, tuning),
    ensures
        restore.commit_watermark == restore.restored_op,
        restore.recovery_barrier is None,
        restore.join == JoinMode::Init,
{
}

/// A replica of a cluster that ran before never resumes its place by itself: it
/// probes its peers for the view, even where only a view change outlived it. One
/// that never ran takes its place in the first view.
pub proof fn law_restarted_replica_probes(
    restore: ConsensusRestore,
    owner: RecoveredOwnerState,
    replica_count: u8,
    tuning: RestoreTuning,
)
    requires
        restore.restores(owner, replica_count, tuning),
        replica_count > 1,
    ensures
        restore.join == JoinMode::Init <==> {
            &&& owner.recovered_state is None
            &&& restore.restored_op == 0
        },
        owner.recovered_state is Some ==> restore.join == (JoinMode::ProbeAsBackup {
            await_state_transfer: true,
        }),
        owner == (RecoveredOwnerState {
            snapshot_op: None,
            last_applied_op: None,
            last_journaled_op: None,
            recovered_state: None,
            last_header: None,
        }) ==> restore.join == JoinMode::Init && restore.recovery_barrier is None,
{
}

/// The number of leading headers of a suffix that are all present.
pub open spec fn unbroken_len(headers: Seq<Option<PrepareHead>>) -> nat
    decreases headers.len(),
{
    if headers.len() == 0 || headers[0] is None {
        0
    } else {
        1 + unbroken_len(headers.drop_first())
    }
}

/// The unbroken length is where the first gap is.
proof fn lemma_unbroken_len(headers: Seq<Option<PrepareHead>>)
    ensures
        unbroken_len(headers) <= headers.len(),
        forall|i: int| 0 <= i < unbroken_len(headers) ==> (#[trigger] headers[i]) is Some,
        unbroken_len(headers) < headers.len() ==> headers[unbroken_len(headers) as int] is None,
    decreases headers.len(),
{
    if headers.len() != 0 && headers[0] is Some {
        let rest = headers.drop_first();
        lemma_unbroken_len(rest);
        assert forall|i: int| 0 <= i < unbroken_len(headers) implies (#[trigger] headers[i]) is Some by {
            if i > 0 {
                assert(headers[i] == rest[i - 1]);
            }
        }
    }
}

/// A suffix without a gap goes back into the pipeline whole, and one with a gap up
/// to it: nothing after a missing op is replicated again.
pub proof fn law_suffix_is_replicated_up_to_its_gap(headers: Seq<Option<PrepareHead>>, gap: int)
    requires
        0 <= gap <= headers.len(),
        forall|i: int| 0 <= i < gap ==> (#[trigger] headers[i]) is Some,
        gap < headers.len() ==> headers[gap] is None,
    ensures
        unbroken_len(headers) == gap,
{
    lemma_unbroken_len(headers);
    if unbroken_len(headers) < gap {
        assert(headers[unbroken_len(headers) as int] is Some);
    }
}

/// The pipeline entries of the recovered, not yet committed suffix, in op order, or
/// `None` where it is not replicated again.
///
/// Only a primary that has not ceded its view re-replicates the suffix; a
/// backup's stays in the journal until the primary confirms or supersedes it.
/// `headers` holds the journal's answer for each op past the watermark, and the
/// walk stops at the first op the journal does not have.
pub fn repipeline_suffix(
    restore: &ConsensusRestore,
    is_primary: bool,
    has_ceded_primaryship: bool,
    self_replica_id: u8,
    headers: &Vec<Option<PrepareHead>>,
) -> (entries: Option<Vec<PipelineEntry>>)
    requires
        restore.commit_watermark <= restore.restored_op ==> headers@.len() == restore.restored_op
            - restore.commit_watermark,
    ensures
        entries is Some <==> is_primary && !has_ceded_primaryship && restore.commit_watermark
            < restore.restored_op,
        entries matches Some(entries) ==> {
            &&& entries@.len() == unbroken_len(headers@)
            &&& forall|i: int|
                0 <= i < entries@.len() ==> {
                    &&& (#[trigger] entries@[i]).op == restore.commit_watermark + 1 + i
                    &&& headers@[i] == Some(entries@[i].header)
                    &&& entries@[i].acked_by == self_replica_id
                }
        },
{
    if !is_primary || has_ceded_primaryship || restore.commit_watermark >= restore.restored_op {
        return None;
    }
    let mut entries: Vec<PipelineEntry> = Vec::new();
    proof {
        lemma_unbroken_len(headers@);
    }
    let mut at: usize = 0;
    while at < headers.len()
        invariant
            is_primary && !has_ceded_primaryship,
            at <= headers@.len(),
            restore.commit_watermark < restore.restored_op,
            headers@.len() == restore.restored_op - restore.commit_watermark,
            at <= unbroken_len(headers@) <= headers@.len(),
            forall|i: int| 0 <= i < unbroken_len(headers@) ==> (#[trigger] headers@[i]) is Some,
            unbroken_len(headers@) < headers@.len() ==> headers@[unbroken_len(headers@) as int]
                is None,
            entries@.len() == at,
            forall|i: int|
                0 <= i < entries@.len() ==> {
                    &&& (#[trigger] entries@[i]).op == restore.commit_watermark + 1 + i
                    &&& headers@[i] == Some(entries@[i].header)
                    &&& entries@[i].acked_by == self_replica_id
                },
        decreases headers@.len() - at,
    {
        match headers[at] {
            Some(header) => {
                let op: u64 = restore.commit_watermark + 1 + at as u64;
                entries.push(PipelineEntry { op, header, acked_by: self_replica_id });
            },
            None => {
                return Some(entries);
            },
        }
        at += 1;
    }
    Some(entries)
}

/// In a group with peers, what the journal holds is not known to have committed. The
/// commit watermark is the last applied op, and with none the snapshot's, or zero
/// without a snapshot: the journal never raises it. A journal that reaches past the
/// watermark leaves a barrier at its last op, where reads wait, and one that does
/// not leaves none. This holds under any incarnation.
pub proof fn law_journaled_is_not_committed(
    owner: RecoveredOwnerState,
    replica_count: u8,
    tuning: RestoreTuning,
    drawn: u128,
    restore: ConsensusRestore,
)
    requires
        call_ensures(
            plan_metadata_restore,
            (&owner, replica_count, &tuning, drawn),
            restore,
        ) || call_ensures(restore_metadata_consensus, (&owner, replica_count, &tuning), restore),
        replica_count != 1,
    ensures
        match (owner.last_applied_op, owner.snapshot_op) {
            (Some(applied), _) => restore.commit_watermark == applied,
            (None, Some(snapshot)) => restore.commit_watermark == snapshot,
            (None, None) => restore.commit_watermark == 0,
        },
        owner.last_journaled_op matches Some(journaled) ==> {
            &&& journaled > restore.commit_watermark <==> restore.recovery_barrier is Some
            &&& restore.recovery_barrier matches Some(barrier) ==> barrier.barrier_op == journaled
        },
{
}

/// The sequencer resumes after everything on disk: at the journal's last op, and
/// with an empty journal at the snapshot's, or zero without either. A solo replica
/// takes all of it for committed; with peers, only an op past the watermark leaves a
/// barrier, and it stands where the sequencer resumes.
pub proof fn law_restore_resumes_where_the_disk_ends(
    owner: RecoveredOwnerState,
    replica_count: u8,
    tuning: RestoreTuning,
    drawn: u128,
    restore: ConsensusRestore,
)
    requires
        call_ensures(
            plan_metadata_restore,
            (&owner, replica_count, &tuning, drawn),
            restore,
        ) || call_ensures(restore_metadata_consensus, (&owner, replica_count, &tuning), restore),
    ensures
        match (owner.last_journaled_op, owner.snapshot_op) {
            (Some(journaled), _) => restore.restored_op == journaled,
            (None, Some(snapshot)) => restore.restored_op == snapshot,
            (None, None) => restore.restored_op == 0,
        },
        replica_count == 1 ==> restore.commit_watermark == restore.restored_op,
        restore.recovery_barrier is None <==> restore.restored_op <= restore.commit_watermark,
        restore.recovery_barrier matches Some(barrier) ==> barrier.barrier_op
            == restore.restored_op,
{
}

/// What the disk and the configuration say reaches the group as it is: the recorded
/// view pair, the last prepare and its view, and room for as many prepares as
/// configured and twice as many requests. A replica takes its place at once where it
/// is alone, or where its disk holds no op past zero and no record; any other asks
/// its peers and takes their state.
pub proof fn law_restore_carries_the_disk_over(
    owner: RecoveredOwnerState,
    replica_count: u8,
    tuning: RestoreTuning,
    drawn: u128,
    restore: ConsensusRestore,
)
    requires
        call_ensures(
            plan_metadata_restore,
            (&owner, replica_count, &tuning, drawn),
            restore,
        ) || call_ensures(restore_metadata_consensus, (&owner, replica_count, &tuning), restore),
    ensures
        restore.durable_view == owner.recovered_state,
        restore.last_prepare == owner.last_header,
        owner.last_header matches Some(header) ==> restore.view_fallback == Some(header.view),
        owner.last_header is None ==> restore.view_fallback is None,
        restore.prepare_capacity == tuning.prepare_queue_depth,
        restore.request_capacity == tuning.prepare_queue_depth + tuning.prepare_queue_depth,
        restore.join == JoinMode::Init <==> {
            ||| replica_count <= 1
            ||| owner.recovered_state is None && match (
                owner.last_journaled_op,
                owner.snapshot_op,
            ) {
                (Some(journaled), _) => journaled == 0,
                (None, Some(snapshot)) => snapshot == 0,
                (None, None) => true,
            }
        },
        restore.join matches JoinMode::ProbeAsBackup { await_state_transfer }
            ==> await_state_transfer,
{
}

/// Two restores of one disk differ in nothing but their incarnation, which is odd,
/// and the drawn number itself where that is odd.
pub proof fn law_restores_differ_by_incarnation_only(
    owner: RecoveredOwnerState,
    replica_count: u8,
    tuning: RestoreTuning,
    drawn: u128,
    restore: ConsensusRestore,
    again: ConsensusRestore,
)
    requires
        call_ensures(
            plan_metadata_restore,
            (&owner, replica_count, &tuning, drawn),
            restore,
        ),
        call_ensures(restore_metadata_consensus, (&owner, replica_count, &tuning), again),
    ensures
        restore.join == again.join,
        restore.restored_op == again.restored_op,
        restore.commit_watermark == again.commit_watermark,
        restore.recovery_barrier is Some <==> again.recovery_barrier is Some,
        restore.incarnation % 2 == 1,
        again.incarnation % 2 == 1,
        drawn % 2 == 1 ==> restore.incarnation == drawn,
        drawn % 2 == 0 ==> restore.incarnation == drawn + 1,
{
    assert((drawn | 1) % 2 == 1) by (bit_vector);
    assert(drawn % 2 == 1 ==> (drawn | 1) == drawn) by (bit_vector);
    assert(drawn % 2 == 0 ==> (drawn | 1) == drawn + 1) by (bit_vector);
}

/// Reads wait at a barrier for fifteen seconds or for three times the slower of the
/// two configured intervals, whichever is longer, and never longer than a duration
/// can say.
pub proof fn law_reads_wait_three_of_the_slower_interval(
    heartbeat: Duration,
    view_change_status: Duration,
    deadline: Duration,
)
    requires
        call_ensures(recovery_barrier_deadline, (heartbeat, view_change_status), deadline),
    ensures
        ({
            let longest: nat = 18_446_744_073_709_551_615_999_999_999;
            let beats = 3 * time::nanos_of(heartbeat);
            let statuses = 3 * time::nanos_of(view_change_status);
            let waits = time::nanos_of(deadline);
            &&& 15_000_000_000 <= waits <= longest
            &&& waits < longest ==> waits >= beats && waits >= statuses
            &&& waits == 15_000_000_000 || waits == beats || waits == statuses || waits == longest
            &&& waits == longest ==> beats >= longest || statuses >= longest
        }),
{
}

/// A barrier waits as long as the deadline of the configured intervals.
pub proof fn law_a_barrier_waits_for_its_deadline(
    owner: RecoveredOwnerState,
    replica_count: u8,
    tuning: RestoreTuning,
    drawn: u128,
    restore: ConsensusRestore,
    deadline: Duration,
)
    requires
        call_ensures(
            plan_metadata_restore,
            (&owner, replica_count, &tuning, drawn),
            restore,
        ) || call_ensures(restore_metadata_consensus, (&owner, replica_count, &tuning), restore),
        call_ensures(
            recovery_barrier_deadline,
            (tuning.heartbeat_timeout, tuning.view_change_status_timeout),
            deadline,
        ),
    ensures
        restore.recovery_barrier matches Some(barrier) ==> time::nanos_of(barrier.deadline)
            == time::nanos_of(deadline),
{
}

/// A primary that has not ceded its view replicates the ops after the watermark
/// again, each under its own number and header and acknowledged by itself alone: all
/// of them up to the first that the journal lacks, and none after it. Nobody else
/// replicates any, and there is nothing to replicate where the watermark reaches the
/// end.
pub proof fn law_a_primary_replicates_its_suffix_again(
    restore: ConsensusRestore,
    is_primary: bool,
    has_ceded_primaryship: bool,
    self_replica_id: u8,
    headers: Vec<Option<PrepareHead>>,
    entries: Option<Vec<PipelineEntry>>,
    at: int,
)
    requires
        call_ensures(
            repipeline_suffix,
            (&restore, is_primary, has_ceded_primaryship, self_replica_id, &headers),
            entries,
        ),
    ensures
        entries is None <==> !is_primary || has_ceded_primaryship || restore.restored_op
            <= restore.commit_watermark,
        entries matches Some(entries) ==> {
            &&& entries@.len() <= headers@.len()
            &&& entries@.len() < headers@.len() ==> headers@[entries@.len() as int] is None
            &&& 0 <= at < entries@.len() ==> {
                &&& entries@[at].op == restore.commit_watermark + at + 1
                &&& headers@[at] == Some(entries@[at].header)
                &&& entries@[at].acked_by == self_replica_id
            }
        },
{
    lemma_unbroken_len(headers@);
}

} // verus!
