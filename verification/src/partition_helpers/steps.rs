//! The order in which a partition is loaded or built, and how far a failure goes.

use crate::dispatch::request::Namespace;
use crate::partition_helpers::error::PartitionLoadError;
use crate::partition_helpers::files::{initial_segment, EffectiveOptions};
use crate::partition_helpers::offsets::frontiers_after;
use crate::partition_helpers::superblock::VsrState;
use vstd::prelude::*;

verus! {

/// The steps of loading a partition from its directory, in order.
#[derive(Clone, Copy, Debug, PartialEq, Eq, Structural)]
pub enum LoadStep {
    /// Read the group's durable record.
    OpenSuperblock,
    /// Walk the segment files.
    RecoverSegments,
    /// Read which purge was applied last, under the partition's own incarnation.
    HydratePurgeGeneration,
    /// Open the writers over the last segment.
    HydrateLog,
    RestoreOffsets,
    ConfigureConsumerOffsets,
    EnsureInitialSegment,
}

/// The steps of building a partition afresh, in order.
#[derive(Clone, Copy, Debug, PartialEq, Eq, Structural)]
pub enum FreshStep {
    CreateHierarchy,
    OpenSuperblock,
    HydratePurgeGeneration,
    /// Take the append point from the record of an earlier life.
    RestoreOffsets,
    ConfigureConsumerOffsets,
    EnsureInitialSegment,
    /// Reserve the group's first block of offsets.
    ClaimReservation,
}

/// How a load goes on.
#[derive(Debug, PartialEq)]
pub enum LoadProgress<E> {
    Next(LoadStep),
    Loaded,
    Fail(PartitionLoadError<E>),
}

/// How a build goes on.
#[derive(Debug, PartialEq)]
pub enum FreshProgress<E> {
    Next(FreshStep),
    Built,
    /// Stop; with `clear_counters`, take back what was counted for the partition.
    Fail { error: PartitionLoadError<E>, clear_counters: bool },
}

impl LoadStep {
    /// Its place among the steps.
    pub open spec fn rank(self) -> int {
        match self {
            LoadStep::OpenSuperblock => 0,
            LoadStep::RecoverSegments => 1,
            LoadStep::HydratePurgeGeneration => 2,
            LoadStep::HydrateLog => 3,
            LoadStep::RestoreOffsets => 4,
            LoadStep::ConfigureConsumerOffsets => 5,
            LoadStep::EnsureInitialSegment => 6,
        }
    }
}

impl FreshStep {
    /// Its place among the steps.
    pub open spec fn rank(self) -> int {
        match self {
            FreshStep::CreateHierarchy => 0,
            FreshStep::OpenSuperblock => 1,
            FreshStep::HydratePurgeGeneration => 2,
            FreshStep::RestoreOffsets => 3,
            FreshStep::ConfigureConsumerOffsets => 4,
            FreshStep::EnsureInitialSegment => 5,
            FreshStep::ClaimReservation => 6,
        }
    }
}

/// Whether a load goes on so after a step: from one step to the next, to the end
/// after the last, and out of the first that fails with its error.
pub open spec fn load_goes_on<E>(
    step: LoadStep,
    outcome: Result<(), PartitionLoadError<E>>,
    progress: LoadProgress<E>,
) -> bool {
    match (outcome, progress) {
        (Err(error), LoadProgress::Fail(failed)) => failed == error,
        (Ok(_), LoadProgress::Next(next)) => next.rank() == step.rank() + 1,
        (Ok(_), LoadProgress::Loaded) => step.rank() == 6,
        _ => false,
    }
}

/// Whether the build of a partition goes on so after a step. The claim is the last
/// step, and its failure is its own error, whatever the write said.
pub open spec fn build_goes_on<E>(
    step: FreshStep,
    outcome: Result<(), PartitionLoadError<E>>,
    namespace: Namespace,
    progress: FreshProgress<E>,
) -> bool {
    match (outcome, progress) {
        (Err(error), FreshProgress::Fail { error: failed, clear_counters }) => {
            if step == FreshStep::ClaimReservation {
                failed == (PartitionLoadError::<E>::OffsetReservationClaim { namespace })
                    && clear_counters
            } else {
                failed == error && !clear_counters
            }
        },
        (Ok(_), FreshProgress::Next(next)) => next.rank() == step.rank() + 1,
        (Ok(_), FreshProgress::Built) => step.rank() == 6,
        _ => false,
    }
}

/// How a load goes on after a step.
pub fn load_partition<E>(step: LoadStep, outcome: Result<(), PartitionLoadError<E>>) -> (progress:
    LoadProgress<E>)
    ensures
        load_goes_on(step, outcome, progress),
{
    match outcome {
        Err(error) => LoadProgress::Fail(error),
        Ok(_) => match step {
            LoadStep::OpenSuperblock => LoadProgress::Next(LoadStep::RecoverSegments),
            LoadStep::RecoverSegments => LoadProgress::Next(LoadStep::HydratePurgeGeneration),
            LoadStep::HydratePurgeGeneration => LoadProgress::Next(LoadStep::HydrateLog),
            LoadStep::HydrateLog => LoadProgress::Next(LoadStep::RestoreOffsets),
            LoadStep::RestoreOffsets => LoadProgress::Next(LoadStep::ConfigureConsumerOffsets),
            LoadStep::ConfigureConsumerOffsets => LoadProgress::Next(
                LoadStep::EnsureInitialSegment,
            ),
            LoadStep::EnsureInitialSegment => LoadProgress::Loaded,
        },
    }
}

/// How the build of a partition goes on after a step. A partition whose claim
/// failed would refuse every write for a while, so it is given up; what was counted
/// for it goes back, since loading it again counts the same files.
pub fn build_partition_fresh<E>(
    step: FreshStep,
    outcome: Result<(), PartitionLoadError<E>>,
    namespace: Namespace,
) -> (progress: FreshProgress<E>)
    ensures
        build_goes_on(step, outcome, namespace, progress),
{
    match outcome {
        Err(error) => match step {
            FreshStep::ClaimReservation => FreshProgress::Fail {
                error: PartitionLoadError::OffsetReservationClaim { namespace },
                clear_counters: true,
            },
            _ => FreshProgress::Fail { error, clear_counters: false },
        },
        Ok(_) => match step {
            FreshStep::CreateHierarchy => FreshProgress::Next(FreshStep::OpenSuperblock),
            FreshStep::OpenSuperblock => FreshProgress::Next(FreshStep::HydratePurgeGeneration),
            FreshStep::HydratePurgeGeneration => FreshProgress::Next(FreshStep::RestoreOffsets),
            FreshStep::RestoreOffsets => FreshProgress::Next(FreshStep::ConfigureConsumerOffsets),
            FreshStep::ConfigureConsumerOffsets => FreshProgress::Next(
                FreshStep::EnsureInitialSegment,
            ),
            FreshStep::EnsureInitialSegment => FreshProgress::Next(FreshStep::ClaimReservation),
            FreshStep::ClaimReservation => FreshProgress::Built,
        },
    }
}

/// Whether a reservation that ends before `reserved` covers an offset.
pub open spec fn is_covered(offset: u64, reserved: u64) -> bool {
    reserved > offset
}

/// The offset that the first reservation of a fresh partition is to cover, `None`
/// where nothing is claimed.
pub open spec fn claim_through(recorded: Option<VsrState>, replica_count: u8) -> Option<u64> {
    if replica_count == 1 && (recorded matches Some(state) ==> !is_covered(
        0,
        state.offset_reserved,
    )) {
        Some(0)
    } else {
        None
    }
}

/// The offset that the first reservation of a fresh partition is to cover: the
/// first there is, and not the next to be minted. A solo partition that comes back
/// with a reservation mints next where that one ends, so a claim for its append
/// point would write the record again on every rebuild; the first offset is covered
/// by any reservation, and then nothing is claimed. A group with peers claims
/// nothing.
pub fn first_claim(recorded: &Option<VsrState>, replica_count: u8) -> (through: Option<u64>)
    ensures
        through == claim_through(*recorded, replica_count),
{
    if replica_count != 1 {
        return None;
    }
    match recorded {
        Some(state) => if state.offset_reserved > 0 {
            None
        } else {
            Some(0)
        },
        None => Some(0),
    }
}

/// A solo rebuild over a recorded reservation resumes there: its append point is the
/// reservation's end where no frontier lies beyond it, the segment it plants is
/// named for that offset, the committed frontier is the recorded one, and the record
/// is not claimed anew.
pub proof fn law_a_rebuild_resumes_at_its_reservation(state: VsrState, options: EffectiveOptions)
    requires
        state.offset_reserved > 0,
        state.offset_frontier <= state.offset_reserved,
    ensures
        ({
            let frontiers = frontiers_after(0, Some(state), 1);
            &&& frontiers.append_point == state.offset_reserved
            &&& frontiers.committed == state.offset_frontier
            &&& initial_segment(false, frontiers.append_point, options) matches Some(segment)
                && segment.writers.start_offset == state.offset_reserved
            &&& claim_through(Some(state), 1) is None
        }),
{
}

/// Whether a fresh partition is a restart: with peers, a directory from an earlier
/// life says so, which is looked for before any is created.
pub fn is_restart(replica_count: u8, had_directory: bool) -> (restarted: bool)
    ensures
        restarted == (replica_count > 1 && had_directory),
{
    replica_count > 1 && had_directory
}

/// A step of the build of a partition with what came of it, and how the build went
/// on.
pub struct BuildMove<E> {
    pub step: FreshStep,
    pub outcome: Result<(), PartitionLoadError<E>>,
    pub namespace: Namespace,
    pub progress: FreshProgress<E>,
}

/// Whether the build went on from a move as it should.
pub open spec fn is_sound_move<E>(run: Seq<BuildMove<E>>, at: int) -> bool {
    build_goes_on(run[at].step, run[at].outcome, run[at].namespace, run[at].progress)
}

/// Whether a move led to the one after it.
pub open spec fn leads_on<E>(run: Seq<BuildMove<E>>, at: int) -> bool {
    run[at].progress == FreshProgress::<E>::Next(run[at + 1].step)
}

/// A run of a build, from its first step on.
pub open spec fn is_build_run<E>(run: Seq<BuildMove<E>>) -> bool {
    &&& run.len() > 0 ==> run[0].step == FreshStep::CreateHierarchy
    &&& forall|i: int| 0 <= i < run.len() ==> #[trigger] is_sound_move(run, i)
    &&& forall|i: int| 0 <= i < run.len() - 1 ==> #[trigger] leads_on(run, i)
}

/// A claim is written only when everything else stands: every earlier step of the
/// run succeeded, and nothing follows it. So no failed build leaves a reservation
/// behind.
pub proof fn law_the_claim_comes_last<E>(run: Seq<BuildMove<E>>, at: int, earlier: int)
    requires
        is_build_run(run),
        0 <= earlier < at < run.len(),
    ensures
        run[at].step.rank() == at,
        run[earlier].outcome is Ok,
        run[at].step == FreshStep::ClaimReservation ==> at == run.len() - 1,
    decreases at,
{
    assert(is_sound_move(run, earlier));
    assert(leads_on(run, earlier));
    assert(is_sound_move(run, at - 1));
    assert(leads_on(run, at - 1));
    assert(is_sound_move(run, at));
    if at - 1 > 0 {
        law_the_claim_comes_last(run, at - 1, 0);
    }
    if at < run.len() - 1 {
        assert(leads_on(run, at));
    }
}

/// The append point is restored before anything is measured by it: a build sets up
/// consumer offsets or plants a segment only after it took the append point from the
/// record.
pub proof fn law_the_append_point_is_restored_first<E>(run: Seq<BuildMove<E>>, at: int)
    requires
        is_build_run(run),
        0 <= at < run.len(),
        run[at].step == FreshStep::ConfigureConsumerOffsets || run[at].step
            == FreshStep::EnsureInitialSegment,
    ensures
        exists|earlier: int|
            0 <= earlier < at && (#[trigger] run[earlier]).step == FreshStep::RestoreOffsets
                && run[earlier].outcome is Ok,
{
    assert(at > 0);
    law_the_claim_comes_last(run, at, 0);
    law_the_claim_comes_last(run, at, 3);
    law_the_claim_comes_last(run, 3, 0);
    assert(run[3].step == FreshStep::RestoreOffsets);
}

/// A load takes its steps in one order: the record, the segments, the purge, the
/// writers, the offsets, the consumers' offsets, and a first segment, which ends it.
/// The first step that fails ends it with its own error.
pub proof fn law_a_load_takes_its_steps_in_order<E>(
    step: LoadStep,
    outcome: Result<(), PartitionLoadError<E>>,
    progress: LoadProgress<E>,
)
    requires
        call_ensures(load_partition::<E>, (step, outcome), progress),
    ensures
        outcome matches Err(error) ==> progress == LoadProgress::<E>::Fail(error),
        outcome is Ok ==> match step {
            LoadStep::OpenSuperblock => progress == LoadProgress::<E>::Next(
                LoadStep::RecoverSegments,
            ),
            LoadStep::RecoverSegments => progress == LoadProgress::<E>::Next(
                LoadStep::HydratePurgeGeneration,
            ),
            LoadStep::HydratePurgeGeneration => progress == LoadProgress::<E>::Next(
                LoadStep::HydrateLog,
            ),
            LoadStep::HydrateLog => progress == LoadProgress::<E>::Next(LoadStep::RestoreOffsets),
            LoadStep::RestoreOffsets => progress == LoadProgress::<E>::Next(
                LoadStep::ConfigureConsumerOffsets,
            ),
            LoadStep::ConfigureConsumerOffsets => progress == LoadProgress::<E>::Next(
                LoadStep::EnsureInitialSegment,
            ),
            LoadStep::EnsureInitialSegment => progress is Loaded,
        },
{
}

/// A build takes its steps in one order: the directories, the record, the purge, the
/// offsets, the consumers' offsets, a first segment, and the claim of a reservation,
/// which ends it. The first step that fails ends it with its own error, but the claim
/// with the error of a claim; and only after the claim, with everything else counted,
/// are the counts taken back.
pub proof fn law_a_build_takes_its_steps_in_order<E>(
    step: FreshStep,
    outcome: Result<(), PartitionLoadError<E>>,
    namespace: Namespace,
    progress: FreshProgress<E>,
)
    requires
        call_ensures(build_partition_fresh::<E>, (step, outcome, namespace), progress),
    ensures
        outcome matches Err(error) ==> (progress matches FreshProgress::Fail {
            error: failed,
            clear_counters,
        } && if step == FreshStep::ClaimReservation {
            clear_counters && failed == (PartitionLoadError::<E>::OffsetReservationClaim {
                namespace,
            })
        } else {
            !clear_counters && failed == error
        }),
        outcome is Ok ==> match step {
            FreshStep::CreateHierarchy => progress == FreshProgress::<E>::Next(
                FreshStep::OpenSuperblock,
            ),
            FreshStep::OpenSuperblock => progress == FreshProgress::<E>::Next(
                FreshStep::HydratePurgeGeneration,
            ),
            FreshStep::HydratePurgeGeneration => progress == FreshProgress::<E>::Next(
                FreshStep::RestoreOffsets,
            ),
            FreshStep::RestoreOffsets => progress == FreshProgress::<E>::Next(
                FreshStep::ConfigureConsumerOffsets,
            ),
            FreshStep::ConfigureConsumerOffsets => progress == FreshProgress::<E>::Next(
                FreshStep::EnsureInitialSegment,
            ),
            FreshStep::EnsureInitialSegment => progress == FreshProgress::<E>::Next(
                FreshStep::ClaimReservation,
            ),
            FreshStep::ClaimReservation => progress is Built,
        },
{
}

/// A solo partition claims a reservation through its first offset exactly where its
/// record reserves nothing yet. One with peers claims none, and is a restart exactly
/// where a directory of an earlier life is there.
pub proof fn law_only_an_unreserved_solo_partition_claims(
    recorded: Option<VsrState>,
    replica_count: u8,
    through: Option<u64>,
    had_directory: bool,
    restarted: bool,
)
    requires
        call_ensures(first_claim, (&recorded, replica_count), through),
        call_ensures(is_restart, (replica_count, had_directory), restarted),
    ensures
        through is Some <==> replica_count == 1 && (recorded is None
            || recorded->0.offset_reserved == 0),
        through matches Some(offset) ==> offset == 0,
        restarted <==> replica_count > 1 && had_directory,
{
}

} // verus!
