//! Why a partition could not be loaded or built.

use crate::dispatch::poll::ConsumerKind;
use crate::dispatch::request::Namespace;
use crate::partition_helpers::files::PartitionFilesError;
use crate::partition_helpers::superblock::SuperblockRefusal;
use vstd::prelude::*;

verus! {

/// What recovery found wrong with a chain of segments.
#[derive(Clone, Copy, Debug, PartialEq, Eq, Structural)]
pub enum PartitionRecoveryRefusal {
    /// Offsets are missing between two segments.
    Hole { recoverable_bytes: u64 },
    /// A segment in the middle holds nothing.
    EmptyNonTailSegment { recoverable_bytes: u64 },
    /// A file is not as long as recovery left it.
    StorageSizeMismatch { start_offset: u64, on_disk_bytes: u64, expected_bytes: u64 },
    /// Any other damage inside a segment.
    Damaged,
}

/// Why a directory of consumer offsets was not loaded.
#[derive(Debug, PartialEq)]
pub enum OffsetsLoadError<E> {
    /// The directory at this path could not be read.
    CannotReadConsumerOffsets { path: String },
    /// Any other failure.
    Source(E),
}

/// Why a partition could not be loaded or built. `E` is what a failed read or write
/// of the layer below is reported as.
#[derive(Debug, PartialEq)]
pub enum PartitionLoadError<E> {
    /// Its segments, in this directory, are damaged.
    RecoveryRefused { dir: String, namespace: Namespace, reason: PartitionRecoveryRefusal },
    /// The durable record in this directory cannot be read or is not trusted.
    Superblock { dir: String, refusal: SuperblockRefusal<E> },
    /// Its first offset reservation could not be written.
    OffsetReservationClaim { namespace: Namespace },
    /// The offsets of its consumers or groups, at this path, could not be loaded.
    ConsumerOffsetsLoad {
        kind: ConsumerKind,
        namespace: Namespace,
        path: String,
        source: OffsetsLoadError<E>,
    },
    /// Its directories could not be created.
    Files(PartitionFilesError),
    /// Any other failure, as it came.
    Source(E),
}

impl PartitionRecoveryRefusal {
    /// Whether the refused chain provably holds nothing that could be served.
    pub open spec fn spec_holds_nothing(self) -> bool {
        match self {
            PartitionRecoveryRefusal::Hole { recoverable_bytes } => recoverable_bytes == 0,
            PartitionRecoveryRefusal::EmptyNonTailSegment { recoverable_bytes } => recoverable_bytes
                == 0,
            PartitionRecoveryRefusal::StorageSizeMismatch { .. } => false,
            PartitionRecoveryRefusal::Damaged => false,
        }
    }

    /// Whether the refused chain provably holds nothing that could be served. The
    /// kind of damage alone does not say so: a chain with a hole can be full.
    pub fn holds_nothing(&self) -> (nothing: bool)
        ensures
            nothing == self.spec_holds_nothing(),
    {
        match self {
            PartitionRecoveryRefusal::Hole { recoverable_bytes } => *recoverable_bytes == 0,
            PartitionRecoveryRefusal::EmptyNonTailSegment { recoverable_bytes } => {
                *recoverable_bytes == 0
            },
            _ => false,
        }
    }
}

/// A refused chain holds nothing exactly where it was refused for a hole or an empty
/// segment and not one byte of it can be recovered. No other damage is proof of that.
pub proof fn law_only_an_empty_chain_holds_nothing(
    reason: PartitionRecoveryRefusal,
    nothing: bool,
)
    requires
        call_ensures(PartitionRecoveryRefusal::holds_nothing, (&reason,), nothing),
    ensures
        match reason {
            PartitionRecoveryRefusal::Hole { recoverable_bytes } => nothing <==> recoverable_bytes
                == 0,
            PartitionRecoveryRefusal::EmptyNonTailSegment { recoverable_bytes } => nothing
                <==> recoverable_bytes == 0,
            PartitionRecoveryRefusal::StorageSizeMismatch { .. } => !nothing,
            PartitionRecoveryRefusal::Damaged => !nothing,
        },
{
}

} // verus!
