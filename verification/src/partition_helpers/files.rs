//! The files of a partition: its directories, its first segment, and the writers
//! over a recovered one.

use crate::dispatch::request::Namespace;
use vstd::prelude::*;

verus! {

/// The directories of a partition, outermost first.
#[derive(Clone, Copy, Debug, PartialEq, Eq, Structural)]
pub enum PartitionDirectory {
    Partition,
    Offsets,
    ConsumerOffsets,
    ConsumerGroupOffsets,
}

/// A partition's files could not be changed as asked.
#[derive(Clone, Copy, Debug, PartialEq, Eq, Structural)]
pub enum PartitionFilesError {
    CannotCreatePartitionDirectory { partition_id: usize, stream_id: usize, topic_id: usize },
    CannotCreatePartition { partition_id: usize, stream_id: usize, topic_id: usize },
    CannotDeletePartitionDirectory { partition_id: usize, stream_id: usize, topic_id: usize },
}

/// The options a topic sets for its partitions.
#[derive(Clone, Copy, Debug, PartialEq, Eq, Structural)]
pub struct TopicRuntimeOptions {
    pub segment_size: Option<u64>,
    pub enforce_fsync: Option<bool>,
    pub preallocate_segments: Option<bool>,
}

/// The options a partition works with.
#[derive(Clone, Copy, Debug, PartialEq, Eq, Structural)]
pub struct EffectiveOptions {
    pub segment_size: u64,
    pub enforce_fsync: bool,
    pub preallocate_segments: bool,
}

/// The writers of a segment.
#[derive(Clone, Copy, Debug, PartialEq, Eq, Structural)]
pub struct SegmentWriters {
    /// The segment's place in the log.
    pub index: usize,
    pub start_offset: u64,
    pub segment_size: u64,
    pub enforce_fsync: bool,
    /// Whether the files are there and keep what they hold.
    pub file_exists: bool,
    /// How much of the messages file is claimed ahead.
    pub preallocate: Option<u64>,
}

/// The first segment of a partition, planted.
#[derive(Clone, Copy, Debug, PartialEq, Eq, Structural)]
pub struct InitialSegment {
    pub writers: SegmentWriters,
    /// How many segments the partition's count rises by.
    pub counted_segments: u64,
}

/// What the storage of the last segment has open.
#[derive(Clone, Copy, Debug, PartialEq, Eq, Structural)]
pub struct StorageHandles {
    pub messages_reader: bool,
    pub index_reader: bool,
    pub messages_writer: bool,
    pub index_writer: bool,
}

/// How a directory was left by removing it.
#[derive(Clone, Copy, Debug, PartialEq, Eq, Structural)]
pub enum RemoveOutcome {
    Removed,
    NotFound,
    Failed,
}

impl PartitionDirectory {
    /// Its place among a partition's directories.
    pub open spec fn rank(self) -> int {
        match self {
            PartitionDirectory::Partition => 0,
            PartitionDirectory::Offsets => 1,
            PartitionDirectory::ConsumerOffsets => 2,
            PartitionDirectory::ConsumerGroupOffsets => 3,
        }
    }
}

/// What a partition lacks where one of its directories does.
pub open spec fn directory_error(
    directory: PartitionDirectory,
    namespace: Namespace,
) -> PartitionFilesError {
    if directory == PartitionDirectory::Partition {
        PartitionFilesError::CannotCreatePartitionDirectory {
            partition_id: namespace.partition_id,
            stream_id: namespace.stream_id,
            topic_id: namespace.topic_id,
        }
    } else {
        PartitionFilesError::CannotCreatePartition {
            partition_id: namespace.partition_id,
            stream_id: namespace.stream_id,
            topic_id: namespace.topic_id,
        }
    }
}

/// The outermost directory of a partition, the first to be created.
pub fn first_directory() -> (directory: PartitionDirectory)
    ensures
        directory.rank() == 0,
{
    PartitionDirectory::Partition
}

/// Goes on from one directory of a partition to the next, given whether it is
/// there: found, or created just now. `None` after the last.
pub fn create_partition_file_hierarchy(
    directory: PartitionDirectory,
    is_there: bool,
    namespace: &Namespace,
) -> (next: Result<Option<PartitionDirectory>, PartitionFilesError>)
    ensures
        next is Ok <==> is_there,
        next matches Err(error) ==> error == directory_error(directory, *namespace),
        next matches Ok(Some(following)) ==> following.rank() == directory.rank() + 1,
        next matches Ok(None) ==> directory.rank() == 3,
{
    if !is_there {
        let partition_id: usize = namespace.partition_id;
        let stream_id: usize = namespace.stream_id;
        let topic_id: usize = namespace.topic_id;
        return Err(
            match directory {
                PartitionDirectory::Partition => {
                    PartitionFilesError::CannotCreatePartitionDirectory {
                        partition_id,
                        stream_id,
                        topic_id,
                    }
                },
                _ => PartitionFilesError::CannotCreatePartition {
                    partition_id,
                    stream_id,
                    topic_id,
                },
            },
        );
    }
    Ok(
        match directory {
            PartitionDirectory::Partition => Some(PartitionDirectory::Offsets),
            PartitionDirectory::Offsets => Some(PartitionDirectory::ConsumerOffsets),
            PartitionDirectory::ConsumerOffsets => Some(PartitionDirectory::ConsumerGroupOffsets),
            PartitionDirectory::ConsumerGroupOffsets => None,
        },
    )
}

/// The options a partition works with: the topic's where it sets them.
pub open spec fn effective(
    options: TopicRuntimeOptions,
    defaults: EffectiveOptions,
) -> EffectiveOptions {
    EffectiveOptions {
        segment_size: match options.segment_size {
            Some(size) => size,
            None => defaults.segment_size,
        },
        enforce_fsync: match options.enforce_fsync {
            Some(enforce) => enforce,
            None => defaults.enforce_fsync,
        },
        preallocate_segments: match options.preallocate_segments {
            Some(preallocate) => preallocate,
            None => defaults.preallocate_segments,
        },
    }
}

/// The options a partition works with.
pub fn effective_options(options: &TopicRuntimeOptions, defaults: &EffectiveOptions) -> (effective_options:
    EffectiveOptions)
    ensures
        effective_options == effective(*options, *defaults),
{
    EffectiveOptions {
        segment_size: match options.segment_size {
            Some(size) => size,
            None => defaults.segment_size,
        },
        enforce_fsync: match options.enforce_fsync {
            Some(enforce) => enforce,
            None => defaults.enforce_fsync,
        },
        preallocate_segments: match options.preallocate_segments {
            Some(preallocate) => preallocate,
            None => defaults.preallocate_segments,
        },
    }
}

/// The writers of a segment under options.
pub open spec fn writers_of(
    index: usize,
    start_offset: u64,
    options: EffectiveOptions,
    file_exists: bool,
) -> SegmentWriters {
    SegmentWriters {
        index,
        start_offset,
        segment_size: options.segment_size,
        enforce_fsync: options.enforce_fsync,
        file_exists,
        preallocate: if options.preallocate_segments {
            Some(options.segment_size)
        } else {
            None
        },
    }
}

/// The writers of a segment under options.
fn segment_writers(
    index: usize,
    start_offset: u64,
    options: &EffectiveOptions,
    file_exists: bool,
) -> (writers: SegmentWriters)
    ensures
        writers == writers_of(index, start_offset, *options, file_exists),
{
    SegmentWriters {
        index,
        start_offset,
        segment_size: options.segment_size,
        enforce_fsync: options.enforce_fsync,
        file_exists,
        preallocate: if options.preallocate_segments {
            Some(options.segment_size)
        } else {
            None
        },
    }
}

/// The first segment of a partition that has none.
pub open spec fn initial_segment(
    has_segments: bool,
    mint_frontier: u64,
    options: EffectiveOptions,
) -> Option<InitialSegment> {
    if has_segments {
        None
    } else {
        Some(
            InitialSegment {
                writers: writers_of(0, mint_frontier, options, false),
                counted_segments: 1,
            },
        )
    }
}

/// The writers over a recovered log.
pub open spec fn recovered_writers(
    start_offsets: Seq<u64>,
    handles: StorageHandles,
    options: EffectiveOptions,
) -> Option<SegmentWriters> {
    if start_offsets.len() > 0 && handles.messages_reader && handles.index_reader
        && handles.messages_writer && handles.index_writer {
        Some(
            writers_of((start_offsets.len() - 1) as usize, start_offsets.last(), options, true),
        )
    } else {
        None
    }
}

/// The first segment of a partition that has none. It is named for the next offset
/// to be minted, which need not be zero, starts out empty whatever an earlier life
/// left under its name, and counts as one segment more. A partition that has
/// segments keeps them and its count.
pub fn ensure_initial_segment(
    has_segments: bool,
    mint_frontier: u64,
    options: &TopicRuntimeOptions,
    defaults: &EffectiveOptions,
) -> (planted: Option<InitialSegment>)
    ensures
        planted == initial_segment(has_segments, mint_frontier, effective(*options, *defaults)),
        planted matches Some(segment) ==> segment.counted_segments == 1
            && segment.writers.start_offset == mint_frontier,
{
    if has_segments {
        return None;
    }
    let options = effective_options(options, defaults);
    Some(
        InitialSegment {
            writers: segment_writers(0, mint_frontier, &options, false),
            counted_segments: 1,
        },
    )
}

/// The writers to open over a recovered log: those of its last segment, where the
/// storage has that segment open for reading and writing. `start_offsets` are the
/// log's segments in order.
pub fn hydrate_partition_log(
    start_offsets: &Vec<u64>,
    handles: &StorageHandles,
    options: &TopicRuntimeOptions,
    defaults: &EffectiveOptions,
) -> (writers: Option<SegmentWriters>)
    ensures
        writers == recovered_writers(start_offsets@, *handles, effective(*options, *defaults)),
{
    if start_offsets.len() == 0 {
        return None;
    }
    let active: usize = start_offsets.len() - 1;
    if handles.messages_reader && handles.index_reader && handles.messages_writer
        && handles.index_writer {
        let options = effective_options(options, defaults);
        Some(segment_writers(active, start_offsets[active], &options, true))
    } else {
        None
    }
}

/// What deleting a partition's directory comes to. One that is not there is as
/// good as deleted.
pub fn delete_partitions_from_disk(outcome: RemoveOutcome, namespace: &Namespace) -> (deleted:
    Result<(), PartitionFilesError>)
    ensures
        deleted == if outcome == RemoveOutcome::Failed {
            Err(
                PartitionFilesError::CannotDeletePartitionDirectory {
                    partition_id: namespace.partition_id,
                    stream_id: namespace.stream_id,
                    topic_id: namespace.topic_id,
                },
            )
        } else {
            Ok(())
        },
{
    match outcome {
        RemoveOutcome::Removed => Ok(()),
        RemoveOutcome::NotFound => Ok(()),
        RemoveOutcome::Failed => Err(
            PartitionFilesError::CannotDeletePartitionDirectory {
                partition_id: namespace.partition_id,
                stream_id: namespace.stream_id,
                topic_id: namespace.topic_id,
            },
        ),
    }
}

/// A partition's segment count, given what was planted.
pub open spec fn segments_after(count: nat, planted: Option<InitialSegment>) -> nat {
    match planted {
        Some(segment) => count + segment.counted_segments as nat,
        None => count,
    }
}

/// Planting raises a partition's segment count by exactly one where it had no
/// segment, and a partition with segments keeps its count; doing it again then
/// changes nothing.
pub proof fn law_planting_counts_one_segment(
    has_segments: bool,
    mint_frontier: u64,
    options: EffectiveOptions,
    count: nat,
)
    ensures
        ({
            let planted = initial_segment(has_segments, mint_frontier, options);
            &&& !has_segments ==> segments_after(count, planted) == count + 1
            &&& has_segments ==> segments_after(count, planted) == count
            &&& planted is Some ==> segments_after(
                segments_after(count, planted),
                initial_segment(true, mint_frontier, options),
            ) == count + 1
        }),
{
}

/// A segment that is built afresh never keeps what was under its name, and one
/// that is opened again always does.
pub proof fn law_only_recovered_files_are_kept(
    has_segments: bool,
    mint_frontier: u64,
    options: EffectiveOptions,
    start_offsets: Seq<u64>,
    handles: StorageHandles,
)
    ensures
        initial_segment(has_segments, mint_frontier, options) matches Some(segment)
            ==> !segment.writers.file_exists && segment.writers.start_offset == mint_frontier,
        recovered_writers(start_offsets, handles, options) matches Some(writers)
            ==> writers.file_exists && writers.start_offset == start_offsets.last(),
{
}

/// The directories of a partition are made from the outermost in: its own, that of
/// the offsets, and in that those of consumers and of groups, after which there are
/// no more. The first that is missing ends it, with an error of its own for the
/// partition's, and of the partition it is of.
pub proof fn law_directories_are_made_outermost_first(
    first: PartitionDirectory,
    directory: PartitionDirectory,
    is_there: bool,
    namespace: Namespace,
    next: Result<Option<PartitionDirectory>, PartitionFilesError>,
)
    requires
        call_ensures(first_directory, (), first),
        call_ensures(create_partition_file_hierarchy, (directory, is_there, &namespace), next),
    ensures
        first == PartitionDirectory::Partition,
        is_there ==> match directory {
            PartitionDirectory::Partition => next matches Ok(following) && following == Some(
                PartitionDirectory::Offsets,
            ),
            PartitionDirectory::Offsets => next matches Ok(following) && following == Some(
                PartitionDirectory::ConsumerOffsets,
            ),
            PartitionDirectory::ConsumerOffsets => next matches Ok(following) && following == Some(
                PartitionDirectory::ConsumerGroupOffsets,
            ),
            PartitionDirectory::ConsumerGroupOffsets => next matches Ok(following) && following
                is None,
        },
        !is_there ==> match next {
            Err(
                PartitionFilesError::CannotCreatePartitionDirectory {
                    partition_id,
                    stream_id,
                    topic_id,
                },
            ) => directory == PartitionDirectory::Partition && partition_id
                == namespace.partition_id && stream_id == namespace.stream_id && topic_id
                == namespace.topic_id,
            Err(PartitionFilesError::CannotCreatePartition { partition_id, stream_id, topic_id }) => {
                directory != PartitionDirectory::Partition && partition_id == namespace.partition_id
                    && stream_id == namespace.stream_id && topic_id == namespace.topic_id
            },
            _ => false,
        },
{
}

/// Each option of a partition is its topic's where the topic sets it, and otherwise
/// the node's.
pub proof fn law_a_topic_overrides_each_default(
    options: TopicRuntimeOptions,
    defaults: EffectiveOptions,
    used: EffectiveOptions,
)
    requires
        call_ensures(effective_options, (&options, &defaults), used),
    ensures
        options.segment_size matches Some(size) ==> used.segment_size == size,
        options.segment_size is None ==> used.segment_size == defaults.segment_size,
        options.enforce_fsync matches Some(enforce) ==> used.enforce_fsync == enforce,
        options.enforce_fsync is None ==> used.enforce_fsync == defaults.enforce_fsync,
        options.preallocate_segments matches Some(preallocate) ==> used.preallocate_segments
            == preallocate,
        options.preallocate_segments is None ==> used.preallocate_segments
            == defaults.preallocate_segments,
{
}

/// A partition without segments gets exactly one: the first of its log, named for the
/// next offset to be minted, empty whatever is under its name, and under the options
/// in use. Its space is claimed ahead in full or not at all, as they say. A partition
/// with segments gets none.
pub proof fn law_the_first_segment_starts_at_the_append_point(
    has_segments: bool,
    mint_frontier: u64,
    options: TopicRuntimeOptions,
    defaults: EffectiveOptions,
    planted: Option<InitialSegment>,
    used: EffectiveOptions,
)
    requires
        call_ensures(
            ensure_initial_segment,
            (has_segments, mint_frontier, &options, &defaults),
            planted,
        ),
        call_ensures(effective_options, (&options, &defaults), used),
    ensures
        planted is None <==> has_segments,
        planted matches Some(segment) ==> {
            &&& segment.counted_segments == 1
            &&& segment.writers.index == 0
            &&& segment.writers.start_offset == mint_frontier
            &&& !segment.writers.file_exists
            &&& segment.writers.segment_size == used.segment_size
            &&& segment.writers.enforce_fsync == used.enforce_fsync
            &&& used.preallocate_segments ==> segment.writers.preallocate == Some(used.segment_size)
            &&& !used.preallocate_segments ==> segment.writers.preallocate is None
        },
{
}

/// A recovered log is written to at its last segment, which keeps what it holds, under
/// the options in use; and not at all without segments, or where the storage lacks one
/// of the four handles of that segment.
pub proof fn law_writers_open_over_the_last_segment(
    start_offsets: Vec<u64>,
    handles: StorageHandles,
    options: TopicRuntimeOptions,
    defaults: EffectiveOptions,
    writers: Option<SegmentWriters>,
    used: EffectiveOptions,
)
    requires
        call_ensures(
            hydrate_partition_log,
            (&start_offsets, &handles, &options, &defaults),
            writers,
        ),
        call_ensures(effective_options, (&options, &defaults), used),
        start_offsets@.len() <= usize::MAX,
    ensures
        writers is Some <==> start_offsets@.len() > 0 && handles.messages_reader
            && handles.index_reader && handles.messages_writer && handles.index_writer,
        writers matches Some(opened) ==> {
            &&& opened.index == start_offsets@.len() - 1
            &&& opened.start_offset == start_offsets@[start_offsets@.len() - 1]
            &&& opened.file_exists
            &&& opened.segment_size == used.segment_size
            &&& opened.enforce_fsync == used.enforce_fsync
            &&& used.preallocate_segments ==> opened.preallocate == Some(used.segment_size)
            &&& !used.preallocate_segments ==> opened.preallocate is None
        },
{
}

/// A partition is deleted unless its directory could not be removed: one that is not
/// there is as good as removed. The failure names the partition.
pub proof fn law_a_missing_directory_is_deleted(
    outcome: RemoveOutcome,
    namespace: Namespace,
    deleted: Result<(), PartitionFilesError>,
)
    requires
        call_ensures(delete_partitions_from_disk, (outcome, &namespace), deleted),
    ensures
        deleted is Err <==> outcome == RemoveOutcome::Failed,
        deleted matches Err(error) ==> error == (
        PartitionFilesError::CannotDeletePartitionDirectory {
            partition_id: namespace.partition_id,
            stream_id: namespace.stream_id,
            topic_id: namespace.topic_id,
        }),
{
}

} // verus!
