//! What a partition that cannot be loaded comes to: rebuilt from its peers, fenced
//! off with its files in place, or failed.

use crate::dispatch::request::Namespace;
use crate::partition_helpers::error::{PartitionLoadError, PartitionRecoveryRefusal};
use crate::partition_helpers::steps::{is_build_run, BuildMove, FreshProgress};
use crate::partition_helpers::superblock::SuperblockRefusal;
use vstd::prelude::*;

verus! {

/// How an attempt to bring a partition up ends.
#[derive(Debug, PartialEq)]
pub struct FenceEnd<P, E> {
    /// The partition to serve, `None` where it is served no more, or the error.
    pub result: Result<Option<P>, PartitionLoadError<E>>,
    /// Whether the partition's name is tombstoned; its files stay where they are.
    pub tombstones: bool,
    /// Whether what was counted for it is taken back.
    pub clears_counters: bool,
}

/// What to do with a partition after trying to load it.
#[derive(Debug, PartialEq)]
pub enum FenceStep<P, E> {
    End(FenceEnd<P, E>),
    /// Take back what was counted for it, put its segment files aside, and build it
    /// afresh.
    QuarantineAndRebuild,
}

/// What follows the attempt to put segment files aside.
#[derive(Debug, PartialEq)]
pub enum QuarantineStep<P, E> {
    Rebuild,
    /// Building afresh would truncate what is still in its place.
    End(FenceEnd<P, E>),
}

/// Why a writer could not be opened over a recovered segment.
#[derive(Debug, PartialEq)]
pub enum ReopenError<E> {
    /// The file is not as long as recovery left it.
    SizeMismatch { on_disk_bytes: u64, expected_bytes: u64 },
    /// Any other failure, which may not come again.
    Source(E),
}

/// What to do with a partition after trying to load it.
pub open spec fn fence_step<P, E>(
    loaded: Result<P, PartitionLoadError<E>>,
    replica_count: u8,
) -> FenceStep<P, E> {
    match loaded {
        Ok(partition) => FenceStep::End(
            FenceEnd { result: Ok(Some(partition)), tombstones: false, clears_counters: false },
        ),
        Err(PartitionLoadError::RecoveryRefused { reason, .. }) if replica_count > 1
            || reason.spec_holds_nothing() => FenceStep::QuarantineAndRebuild,
        Err(PartitionLoadError::RecoveryRefused { .. }) => FenceStep::End(
            FenceEnd { result: Ok(None), tombstones: true, clears_counters: true },
        ),
        Err(PartitionLoadError::Superblock { .. }) => FenceStep::End(
            FenceEnd { result: Ok(None), tombstones: true, clears_counters: true },
        ),
        Err(error) => FenceStep::End(
            FenceEnd { result: Err(error), tombstones: false, clears_counters: false },
        ),
    }
}

/// What follows the attempt to put segment files aside.
pub open spec fn quarantine_step<P, E>(is_quarantined: bool) -> QuarantineStep<P, E> {
    if is_quarantined {
        QuarantineStep::Rebuild
    } else {
        QuarantineStep::End(
            FenceEnd { result: Ok(None), tombstones: true, clears_counters: false },
        )
    }
}

/// How a rebuild ends the attempt.
pub open spec fn rebuild_end<P, E>(rebuilt: Result<P, PartitionLoadError<E>>) -> FenceEnd<P, E> {
    FenceEnd {
        result: match rebuilt {
            Ok(partition) => Ok(Some(partition)),
            Err(error) => Err(error),
        },
        tombstones: false,
        clears_counters: false,
    }
}

/// What to do with a partition after trying to load it. One damaged partition does
/// not take the node down: a refused chain is rebuilt where a peer can refill it or
/// nothing is lost, and otherwise left as it is, unserved, so that the loss shows.
/// A record that is not trusted leaves the data out of doubt, so nothing is moved.
pub fn load_partition_or_fence<P, E>(
    loaded: Result<P, PartitionLoadError<E>>,
    replica_count: u8,
) -> (step: FenceStep<P, E>)
    ensures
        step == fence_step(loaded, replica_count),
{
    match loaded {
        Ok(partition) => FenceStep::End(
            FenceEnd { result: Ok(Some(partition)), tombstones: false, clears_counters: false },
        ),
        Err(PartitionLoadError::RecoveryRefused { dir, namespace, reason }) => {
            if replica_count > 1 || reason.holds_nothing() {
                FenceStep::QuarantineAndRebuild
            } else {
                FenceStep::End(
                    FenceEnd { result: Ok(None), tombstones: true, clears_counters: true },
                )
            }
        },
        Err(PartitionLoadError::Superblock { dir, refusal }) => FenceStep::End(
            FenceEnd { result: Ok(None), tombstones: true, clears_counters: true },
        ),
        Err(error) => FenceStep::End(
            FenceEnd { result: Err(error), tombstones: false, clears_counters: false },
        ),
    }
}

/// What follows the attempt to put segment files aside.
pub fn settle_quarantine<P, E>(is_quarantined: bool) -> (step: QuarantineStep<P, E>)
    ensures
        step == quarantine_step::<P, E>(is_quarantined),
{
    if is_quarantined {
        QuarantineStep::Rebuild
    } else {
        QuarantineStep::End(
            FenceEnd { result: Ok(None), tombstones: true, clears_counters: false },
        )
    }
}

/// How a rebuild ends the attempt: what it built is served, and what stopped it is
/// handed on. A claim that could not be written is no damage, so nothing is
/// tombstoned for it.
pub fn settle_rebuild<P, E>(rebuilt: Result<P, PartitionLoadError<E>>) -> (end: FenceEnd<P, E>)
    ensures
        end == rebuild_end(rebuilt),
{
    match rebuilt {
        Ok(partition) => FenceEnd {
            result: Ok(Some(partition)),
            tombstones: false,
            clears_counters: false,
        },
        Err(error) => FenceEnd { result: Err(error), tombstones: false, clears_counters: false },
    }
}

/// How a failure to open a writer over a recovered segment is taken: a length that
/// recovery did not leave is damage of this partition, everything else is handed on
/// as it came.
pub fn hydrate_reopen_error<E>(
    source: ReopenError<E>,
    dir: String,
    namespace: Namespace,
    start_offset: u64,
) -> (error: PartitionLoadError<E>)
    ensures
        error == match source {
            ReopenError::SizeMismatch { on_disk_bytes, expected_bytes } => {
                PartitionLoadError::RecoveryRefused {
                    dir,
                    namespace,
                    reason: PartitionRecoveryRefusal::StorageSizeMismatch {
                        start_offset,
                        on_disk_bytes,
                        expected_bytes,
                    },
                }
            },
            ReopenError::Source(other) => PartitionLoadError::Source(other),
        },
{
    match source {
        ReopenError::SizeMismatch { on_disk_bytes, expected_bytes } => {
            PartitionLoadError::RecoveryRefused {
                dir,
                namespace,
                reason: PartitionRecoveryRefusal::StorageSizeMismatch {
                    start_offset,
                    on_disk_bytes,
                    expected_bytes,
                },
            }
        },
        ReopenError::Source(other) => PartitionLoadError::Source(other),
    }
}

/// How bringing a partition up ends, given what came of each step it may take: the
/// load, the quarantine of its segment files, and the rebuild.
pub open spec fn fence_end<P, E>(
    loaded: Result<P, PartitionLoadError<E>>,
    replica_count: u8,
    is_quarantined: bool,
    rebuilt: Result<P, PartitionLoadError<E>>,
) -> FenceEnd<P, E> {
    match fence_step(loaded, replica_count) {
        FenceStep::End(end) => end,
        FenceStep::QuarantineAndRebuild => match quarantine_step::<P, E>(is_quarantined) {
            QuarantineStep::End(end) => end,
            QuarantineStep::Rebuild => rebuild_end(rebuilt),
        },
    }
}

/// What a finished run of a build gives: `built` where it came to its end, and
/// otherwise the error it stopped with.
pub open spec fn built_by<P, E>(run: Seq<BuildMove<E>>, built: P) -> Result<
    P,
    PartitionLoadError<E>,
>
    recommends
        run.len() > 0,
{
    match run.last().progress {
        FreshProgress::Fail { error, .. } => Err(error),
        _ => Ok(built),
    }
}

/// Whether a partition's name is tombstoned after an attempt to bring it up.
pub open spec fn is_tombstoned_after<P, E>(was_tombstoned: bool, end: FenceEnd<P, E>) -> bool {
    was_tombstoned || end.tombstones
}

/// No partition comes back exactly where its name is tombstoned, whichever way the
/// load, the quarantine and a finished run of the rebuild went: a partition that is
/// served, and an error that is handed on, leave the name free.
pub proof fn law_no_partition_exactly_where_tombstoned<P, E>(
    loaded: Result<P, PartitionLoadError<E>>,
    replica_count: u8,
    is_quarantined: bool,
    run: Seq<BuildMove<E>>,
    built: P,
    was_tombstoned: bool,
)
    requires
        !was_tombstoned,
        is_build_run(run),
        run.len() > 0,
        !(run.last().progress is Next),
    ensures
        ({
            let end = fence_end(loaded, replica_count, is_quarantined, built_by(run, built));
            let is_tombstoned = is_tombstoned_after(was_tombstoned, end);
            &&& (end.result matches Ok(None)) <==> is_tombstoned
            &&& (end.result matches Ok(Some(_))) ==> !is_tombstoned
            &&& end.result is Err ==> !is_tombstoned
        }),
{
}

/// An untrusted record always ends in a tombstone, however many peers there are and
/// whatever else would have come of it: a rebuild would start the group over in a
/// view that the record may have left.
pub proof fn law_an_untrusted_record_is_never_rebuilt<P, E>(
    dir: String,
    refusal: SuperblockRefusal<E>,
    replica_count: u8,
    is_quarantined: bool,
    rebuilt: Result<P, PartitionLoadError<E>>,
)
    ensures
        ({
            let loaded: Result<P, PartitionLoadError<E>> = Err(
                PartitionLoadError::Superblock { dir, refusal },
            );
            let end = fence_end(loaded, replica_count, is_quarantined, rebuilt);
            &&& fence_step(loaded, replica_count) is End
            &&& end.tombstones
            &&& end.result matches Ok(None)
        }),
{
}

/// Data that no peer holds is never rebuilt over: alone, a replica rebuilds a
/// partition only where the refused chain had nothing to serve.
pub proof fn law_a_solo_replica_never_discards_data<P, E>(loaded: Result<P, PartitionLoadError<E>>)
    requires
        fence_step(loaded, 1) is QuarantineAndRebuild,
    ensures
        loaded matches Err(PartitionLoadError::RecoveryRefused { reason, .. })
            && reason.spec_holds_nothing(),
{
}

/// Segment files that could not be put aside are never built over, and a partition
/// whose rebuild fails is not darkened for it: the error reaches the caller.
pub proof fn law_rebuilds_need_a_quarantine_and_report_their_failure<P, E>(
    loaded: Result<P, PartitionLoadError<E>>,
    replica_count: u8,
    error: PartitionLoadError<E>,
)
    requires
        fence_step(loaded, replica_count) is QuarantineAndRebuild,
    ensures
        forall|rebuilt: Result<P, PartitionLoadError<E>>| #[trigger]
            fence_end(loaded, replica_count, false, rebuilt).tombstones,
        fence_end(loaded, replica_count, true, Err(error)).result == Result::<
            Option<P>,
            PartitionLoadError<E>,
        >::Err(error),
        !fence_end(loaded, replica_count, true, Err(error)).tombstones,
{
}

/// Only an error that is neither damage nor distrust stops the caller, and it is
/// handed on as it came.
pub proof fn law_only_other_errors_propagate<P, E>(error: PartitionLoadError<E>, replica_count: u8)
    ensures
        ({
            let loaded: Result<P, PartitionLoadError<E>> = Err(error);
            let step = fence_step(loaded, replica_count);
            let handed_on = FenceStep::<P, E>::End(
                FenceEnd { result: Err(error), tombstones: false, clears_counters: false },
            );
            step == handed_on <==> !(error is RecoveryRefused) && !(error is Superblock)
        }),
{
}

/// A partition that loads is served. A refused chain is put aside and built afresh
/// exactly where there are peers, or where it holds nothing; one that only this
/// replica has, and an untrusted record, are left unserved under a tombstone, with
/// what was counted for them taken back. Any other failure is handed on, and leaves
/// the name and the counts alone.
pub proof fn law_a_failed_load_is_fenced_by_its_cause<P, E>(
    loaded: Result<P, PartitionLoadError<E>>,
    replica_count: u8,
    step: FenceStep<P, E>,
)
    requires
        call_ensures(load_partition_or_fence::<P, E>, (loaded, replica_count), step),
    ensures
        match loaded {
            Ok(partition) => step matches FenceStep::End(end) && end.result == Result::<
                Option<P>,
                PartitionLoadError<E>,
            >::Ok(Some(partition)) && !end.tombstones && !end.clears_counters,
            Err(PartitionLoadError::RecoveryRefused { reason, .. }) => {
                let holds_nothing = match reason {
                    PartitionRecoveryRefusal::Hole { recoverable_bytes } => recoverable_bytes == 0,
                    PartitionRecoveryRefusal::EmptyNonTailSegment { recoverable_bytes } => {
                        recoverable_bytes == 0
                    },
                    _ => false,
                };
                &&& replica_count > 1 || holds_nothing ==> step is QuarantineAndRebuild
                &&& replica_count <= 1 && !holds_nothing ==> (step matches FenceStep::End(end)
                    && end.result == Result::<Option<P>, PartitionLoadError<E>>::Ok(None)
                    && end.tombstones && end.clears_counters)
            },
            Err(PartitionLoadError::Superblock { .. }) => step matches FenceStep::End(end)
                && end.result == Result::<Option<P>, PartitionLoadError<E>>::Ok(None)
                && end.tombstones && end.clears_counters,
            Err(error) => step matches FenceStep::End(end) && end.result == Result::<
                Option<P>,
                PartitionLoadError<E>,
            >::Err(error) && !end.tombstones && !end.clears_counters,
        },
{
}

/// Files that were put aside are built over, and files that were not leave the
/// partition unserved under a tombstone. What a rebuild gives is served, and what
/// stopped it is handed on; neither tombstones the name.
pub proof fn law_a_rebuild_follows_its_quarantine<P, E>(
    is_quarantined: bool,
    step: QuarantineStep<P, E>,
    rebuilt: Result<P, PartitionLoadError<E>>,
    end: FenceEnd<P, E>,
)
    requires
        call_ensures(settle_quarantine::<P, E>, (is_quarantined,), step),
        call_ensures(settle_rebuild::<P, E>, (rebuilt,), end),
    ensures
        step is Rebuild <==> is_quarantined,
        step matches QuarantineStep::End(kept) ==> kept.tombstones && !kept.clears_counters
            && kept.result == Result::<Option<P>, PartitionLoadError<E>>::Ok(None),
        !end.tombstones && !end.clears_counters,
        rebuilt matches Ok(partition) ==> end.result == Result::<
            Option<P>,
            PartitionLoadError<E>,
        >::Ok(Some(partition)),
        rebuilt matches Err(error) ==> end.result == Result::<
            Option<P>,
            PartitionLoadError<E>,
        >::Err(error),
{
}

/// A file that is not as long as recovery left it is damage of its own partition, with
/// both lengths and the segment it is of; every other failure to open a writer is
/// handed on as it came.
pub proof fn law_only_a_wrong_length_is_damage<E>(
    source: ReopenError<E>,
    dir: String,
    namespace: Namespace,
    start_offset: u64,
    error: PartitionLoadError<E>,
)
    requires
        call_ensures(hydrate_reopen_error::<E>, (source, dir, namespace, start_offset), error),
    ensures
        source matches ReopenError::SizeMismatch { on_disk_bytes, expected_bytes } ==> (
        error matches PartitionLoadError::RecoveryRefused { dir: at, namespace: of, reason } && at
            == dir && of == namespace && reason == (PartitionRecoveryRefusal::StorageSizeMismatch {
            start_offset,
            on_disk_bytes,
            expected_bytes,
        })),
        source matches ReopenError::Source(other) ==> error == PartitionLoadError::<E>::Source(
            other,
        ),
{
}

} // verus!
