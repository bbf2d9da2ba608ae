//! The offset space of a recovered partition, and the consumer offsets in it.

use crate::dispatch::poll::ConsumerKind;
use crate::dispatch::request::Namespace;
use crate::offset_recovery::{ConsumerGroupId, ConsumerOffset, RecoveredOffsets};
use crate::partition_helpers::error::{OffsetsLoadError, PartitionLoadError};
use crate::partition_helpers::superblock::VsrState;
use vstd::prelude::*;

verus! {

/// What recovery knows of one segment.
#[derive(Clone, Copy, Debug, PartialEq, Eq, Structural)]
pub struct SegmentExtent {
    pub start_offset: u64,
    pub end_offset: u64,
    /// Its size in bytes.
    pub size: u64,
}

/// The offset counter of a recovered partition.
#[derive(Clone, Copy, Debug, PartialEq, Eq, Structural)]
pub struct RestoredOffsets {
    /// The last offset that data on disk proves.
    pub recovered_durable_offset: Option<u64>,
    pub counter: u64,
    /// Whether any offset was ever handed out.
    pub is_offset_space_used: bool,
    /// Whether the next append starts a segment of its own at the reservation.
    pub reanchors: bool,
    pub frontiers: OffsetFrontiers,
}

/// How far the offset space of a partition reaches.
#[derive(Clone, Copy, Debug, PartialEq, Eq, Structural)]
pub struct OffsetFrontiers {
    /// The offset below which everything is accounted for.
    pub committed: u64,
    /// The offset that the next append takes: above every offset that may have been
    /// handed out.
    pub append_point: u64,
}

/// The offsets that a partition built afresh starts from.
#[derive(Clone, Copy, Debug, PartialEq, Eq, Structural)]
pub struct FreshOffsets {
    /// Where the counter starts before the frontiers raise it.
    pub counter: u64,
    /// Whether any offset was ever handed out by this life of the partition.
    pub is_offset_space_used: bool,
    pub reanchors: bool,
    pub frontiers: OffsetFrontiers,
    /// The record that an earlier life left, the only anchor there is.
    pub recorded: Option<VsrState>,
}

/// A consumer offset as the partition is seeded with it.
#[derive(Clone, Copy, Debug, PartialEq, Eq, Structural)]
pub struct SeededOffset {
    pub kind: ConsumerKind,
    pub consumer_id: u32,
    /// The position the consumer resumes from.
    pub committed_offset: u64,
    /// The position its file held.
    pub recovered_offset: u64,
}

/// The largest end offset of the segments with data, `None` where none has any.
pub open spec fn sized_end(segments: Seq<SegmentExtent>) -> Option<u64>
    decreases segments.len(),
{
    if segments.len() == 0 {
        None
    } else {
        let earlier = sized_end(segments.drop_last());
        let segment = segments.last();
        if segment.size == 0 {
            earlier
        } else {
            match earlier {
                Some(end) if end >= segment.end_offset => Some(end),
                _ => Some(segment.end_offset),
            }
        }
    }
}

/// The largest start offset of the segments, `None` where there are none.
pub open spec fn last_start(segments: Seq<SegmentExtent>) -> Option<u64>
    decreases segments.len(),
{
    if segments.len() == 0 {
        None
    } else {
        match last_start(segments.drop_last()) {
            Some(start) if start >= segments.last().start_offset => Some(start),
            _ => Some(segments.last().start_offset),
        }
    }
}

/// The larger of two offsets.
pub open spec fn larger(left: u64, right: u64) -> u64 {
    if left < right {
        right
    } else {
        left
    }
}

/// How far the offset space of a partition reaches whose data ends before `next`.
///
/// The recorded frontier is a lower bound on top of what the data proves. The
/// recorded reservation bounds the append point alone: it names no data, only
/// offsets that may have been handed out, and a solo group alone makes one.
pub open spec fn frontiers_after(
    next: u64,
    recorded: Option<VsrState>,
    replica_count: u8,
) -> OffsetFrontiers {
    match recorded {
        None => OffsetFrontiers { committed: next, append_point: next },
        Some(state) => {
            let committed = larger(next, state.offset_frontier);
            OffsetFrontiers {
                committed,
                append_point: if replica_count == 1 {
                    larger(committed, state.offset_reserved)
                } else {
                    committed
                },
            }
        },
    }
}

/// The offset after the last one handed out, as far as a `u64` counts.
pub open spec fn offset_after(current: Option<u64>) -> u64 {
    match current {
        None => 0,
        Some(offset) => if offset < u64::MAX {
            (offset + 1) as u64
        } else {
            u64::MAX
        },
    }
}

/// The frontier that a record vouches for: zero without one.
pub open spec fn recorded_frontier(recorded: Option<VsrState>) -> u64 {
    match recorded {
        Some(state) => state.offset_frontier,
        None => 0,
    }
}

/// The smaller of two offsets.
pub open spec fn smaller(left: u64, right: u64) -> u64 {
    if left < right {
        left
    } else {
        right
    }
}

/// The last offset handed out, given the end of the data, the last segment's name
/// and the frontier that the superblock recorded: the end of the data, and without
/// data one below the name of the empty chain, as far as the record bears it out.
pub open spec fn current_offset(
    sized_end: Option<u64>,
    last_start: Option<u64>,
    durable_frontier: u64,
) -> Option<u64> {
    match (sized_end, last_start) {
        (Some(end), _) => Some(end),
        (None, Some(start)) if smaller(start, durable_frontier) > 0 => Some(
            (smaller(start, durable_frontier) - 1) as u64,
        ),
        _ => None,
    }
}

/// The largest end offset of the segments with data.
fn find_sized_end(segments: &Vec<SegmentExtent>) -> (end: Option<u64>)
    ensures
        end == sized_end(segments@),
{
    let mut end: Option<u64> = None;
    let mut at: usize = 0;
    while at < segments.len()
        invariant
            at <= segments@.len(),
            end == sized_end(segments@.take(at as int)),
        decreases segments@.len() - at,
    {
        let segment = segments[at];
        if segment.size > 0 {
            end = match end {
                Some(largest) if largest >= segment.end_offset => Some(largest),
                _ => Some(segment.end_offset),
            };
        }
        assert(segments@.take(at + 1).drop_last() =~= segments@.take(at as int));
        at += 1;
    }
    assert(segments@.take(at as int) =~= segments@);
    end
}

/// The largest start offset of the segments.
fn find_last_start(segments: &Vec<SegmentExtent>) -> (start: Option<u64>)
    ensures
        start == last_start(segments@),
{
    let mut start: Option<u64> = None;
    let mut at: usize = 0;
    while at < segments.len()
        invariant
            at <= segments@.len(),
            start == last_start(segments@.take(at as int)),
        decreases segments@.len() - at,
    {
        let segment = segments[at];
        start = match start {
            Some(largest) if largest >= segment.start_offset => Some(largest),
            _ => Some(segment.start_offset),
        };
        assert(segments@.take(at + 1).drop_last() =~= segments@.take(at as int));
        at += 1;
    }
    assert(segments@.take(at as int) =~= segments@);
    start
}

/// How far the offset space reaches of a partition whose data ends before `next`.
fn find_frontiers(next: u64, recorded: &Option<VsrState>, replica_count: u8) -> (frontiers:
    OffsetFrontiers)
    ensures
        frontiers == frontiers_after(next, *recorded, replica_count),
{
    match recorded {
        None => OffsetFrontiers { committed: next, append_point: next },
        Some(state) => {
            let committed: u64 = if next < state.offset_frontier {
                state.offset_frontier
            } else {
                next
            };
            let append_point: u64 = if replica_count == 1 && committed < state.offset_reserved {
                state.offset_reserved
            } else {
                committed
            };
            OffsetFrontiers { committed, append_point }
        },
    }
}

/// The offsets of a recovered partition.
pub open spec fn restored_offsets(
    segments: Seq<SegmentExtent>,
    recorded: Option<VsrState>,
    replica_count: u8,
) -> RestoredOffsets {
    let end = sized_end(segments);
    let current = current_offset(end, last_start(segments), recorded_frontier(recorded));
    RestoredOffsets {
        recovered_durable_offset: end,
        counter: match current {
            Some(offset) => offset,
            None => 0,
        },
        is_offset_space_used: current is Some,
        reanchors: replica_count == 1,
        frontiers: frontiers_after(offset_after(current), recorded, replica_count),
    }
}

/// Restores the offset counter of a recovered partition, and how far its offset
/// space reaches.
///
/// A solo partition mints from a reservation, which the next append point is moved
/// to; a replicated one lets its batches alone decide where segments begin.
pub fn restore_partition_offsets(
    segments: &Vec<SegmentExtent>,
    recorded: &Option<VsrState>,
    replica_count: u8,
) -> (restored: RestoredOffsets)
    ensures
        restored == restored_offsets(segments@, *recorded, replica_count),
{
    let durable_frontier: u64 = match recorded {
        Some(state) => state.offset_frontier,
        None => 0,
    };
    let end = find_sized_end(segments);
    let current: Option<u64> = match end {
        Some(offset) => Some(offset),
        None => match find_last_start(segments) {
            Some(name) => {
                let frontier: u64 = if name < durable_frontier {
                    name
                } else {
                    durable_frontier
                };
                if frontier > 0 {
                    Some(frontier - 1)
                } else {
                    None
                }
            },
            None => None,
        },
    };
    let next: u64 = match current {
        Some(offset) => offset.saturating_add(1),
        None => 0,
    };
    RestoredOffsets {
        recovered_durable_offset: end,
        counter: match current {
            Some(offset) => offset,
            None => 0,
        },
        is_offset_space_used: current.is_some(),
        reanchors: replica_count == 1,
        frontiers: find_frontiers(next, recorded, replica_count),
    }
}

/// The offsets that a partition built afresh starts from: nothing handed out, and
/// the append point where the record of an earlier life leaves it. A build over a
/// fenced chain has no segments to tell it, so the record is its only anchor.
pub fn fresh_offsets(recorded: &Option<VsrState>, replica_count: u8) -> (offsets: FreshOffsets)
    ensures
        offsets.counter == 0,
        !offsets.is_offset_space_used,
        !offsets.reanchors,
        offsets.frontiers == frontiers_after(0, *recorded, replica_count),
        offsets.recorded == *recorded,
{
    FreshOffsets {
        counter: 0,
        is_offset_space_used: false,
        reanchors: false,
        frontiers: find_frontiers(0, recorded, replica_count),
        recorded: *recorded,
    }
}

/// No offset is handed out twice: the append point lies above the data, at or above
/// the recorded frontier, and for a solo group at or above its reservation. And a
/// reservation is never taken for data: the committed frontier does not see it.
pub proof fn law_the_append_point_clears_every_bound(
    next: u64,
    state: VsrState,
    replica_count: u8,
    other_reservation: u64,
)
    ensures
        ({
            let frontiers = frontiers_after(next, Some(state), replica_count);
            &&& frontiers.append_point >= next
            &&& frontiers.append_point >= state.offset_frontier
            &&& replica_count == 1 ==> frontiers.append_point >= state.offset_reserved
            &&& frontiers.append_point >= frontiers.committed
            &&& frontiers.committed == frontiers_after(
                next,
                Some(VsrState { offset_reserved: other_reservation, ..state }),
                replica_count,
            ).committed
        }),
{
}

/// The restored end is the end of a segment with data and no such segment ends
/// after it: the counter resumes behind everything that can be served.
pub proof fn law_restored_end_covers_all_data(segments: Seq<SegmentExtent>, at: int)
    requires
        0 <= at < segments.len(),
        segments[at].size > 0,
    ensures
        sized_end(segments) matches Some(end) && segments[at].end_offset <= end && exists|i: int|
            0 <= i < segments.len() && (#[trigger] segments[i]).size > 0 && segments[i].end_offset
                == end,
    decreases segments.len(),
{
    let earlier = segments.drop_last();
    if at < earlier.len() {
        assert(earlier[at] == segments[at]);
        law_restored_end_covers_all_data(earlier, at);
        let end = sized_end(earlier)->0;
        let i = choose|i: int|
            0 <= i < earlier.len() && (#[trigger] earlier[i]).size > 0 && earlier[i].end_offset
                == end;
        assert(segments[i] == earlier[i]);
        assert(segments.last() == segments[segments.len() - 1]);
    } else {
        assert(segments.last() == segments[at]);
        if sized_end(earlier) is Some && sized_end(earlier)->0 >= segments[at].end_offset {
            lemma_sized_end_is_found(earlier);
            let i = choose|i: int|
                0 <= i < earlier.len() && (#[trigger] earlier[i]).size > 0 && earlier[i].end_offset
                    == sized_end(earlier)->0;
            assert(segments[i] == earlier[i]);
        }
    }
}

/// The largest end is the end of some segment with data.
proof fn lemma_sized_end_is_found(segments: Seq<SegmentExtent>)
    requires
        sized_end(segments) is Some,
    ensures
        exists|i: int|
            0 <= i < segments.len() && (#[trigger] segments[i]).size > 0 && segments[i].end_offset
                == sized_end(segments)->0,
    decreases segments.len(),
{
    let earlier = segments.drop_last();
    if sized_end(segments) == sized_end(earlier) {
        lemma_sized_end_is_found(earlier);
        let i = choose|i: int|
            0 <= i < earlier.len() && (#[trigger] earlier[i]).size > 0 && earlier[i].end_offset
                == sized_end(earlier)->0;
        assert(segments[i] == earlier[i]);
    } else {
        assert(segments[segments.len() - 1] == segments.last());
    }
}

/// A name alone proves nothing: without data, and without a recorded frontier, the
/// offset space is unused, whatever the segment is called. With data, the data
/// decides.
pub proof fn law_a_reservation_is_no_data(
    sized_end: Option<u64>,
    last_start: Option<u64>,
    durable_frontier: u64,
)
    ensures
        sized_end is None && durable_frontier == 0 ==> current_offset(
            sized_end,
            last_start,
            durable_frontier,
        ) is None,
        sized_end is Some ==> current_offset(sized_end, last_start, durable_frontier) == sized_end,
        sized_end is None ==> (current_offset(sized_end, last_start, durable_frontier) matches Some(
            offset,
        ) ==> offset < durable_frontier),
{
}

/// The last offset a partition could have handed out: the current one, or one
/// below what it may mint next.
pub open spec fn ceiling(current_offset: u64, mint_frontier: u64) -> u64 {
    if mint_frontier > 0 && mint_frontier - 1 > current_offset {
        (mint_frontier - 1) as u64
    } else {
        current_offset
    }
}

/// The position that a stored one is bounded to.
pub open spec fn bounded_offset(recovered: u64, current_offset: u64, mint_frontier: u64) -> u64 {
    if recovered > ceiling(current_offset, mint_frontier) {
        current_offset
    } else {
        recovered
    }
}

/// The last offset a partition could have handed out.
pub fn offset_space_ceiling(current_offset: u64, mint_frontier: u64) -> (last: u64)
    ensures
        last == ceiling(current_offset, mint_frontier),
{
    let minted: u64 = mint_frontier.saturating_sub(1);
    if minted > current_offset {
        minted
    } else {
        current_offset
    }
}

/// A recovered offset bounded to the offset space.
pub open spec fn bounded_entry(
    entry: ConsumerOffset,
    current_offset: u64,
    mint_frontier: u64,
) -> ConsumerOffset {
    ConsumerOffset {
        offset: bounded_offset(entry.offset, current_offset, mint_frontier),
        ..entry
    }
}

/// What a partition is seeded with for a recovered offset.
pub open spec fn seed_of(
    kind: ConsumerKind,
    consumer_id: u32,
    entry: ConsumerOffset,
    current_offset: u64,
    mint_frontier: u64,
) -> SeededOffset {
    SeededOffset {
        kind,
        consumer_id,
        committed_offset: bounded_offset(entry.offset, current_offset, mint_frontier),
        recovered_offset: entry.offset,
    }
}

/// What the partition is seeded with for each recovered offset of a consumer.
pub open spec fn consumer_seeds(
    entries: Seq<ConsumerOffset>,
    current_offset: u64,
    mint_frontier: u64,
) -> Seq<SeededOffset> {
    entries.map_values(
        |entry: ConsumerOffset|
            seed_of(
                ConsumerKind::Consumer,
                entry.consumer_id,
                entry,
                current_offset,
                mint_frontier,
            ),
    )
}

/// What the partition is seeded with for each recovered offset of a group.
pub open spec fn group_seeds(
    entries: Seq<(ConsumerGroupId, ConsumerOffset)>,
    current_offset: u64,
    mint_frontier: u64,
) -> Seq<SeededOffset> {
    entries.map_values(
        |entry: (ConsumerGroupId, ConsumerOffset)|
            seed_of(
                ConsumerKind::ConsumerGroup,
                entry.0.0 as u32,
                entry.1,
                current_offset,
                mint_frontier,
            ),
    )
}

/// Bounds one recovered offset in place, and says what it was.
fn bound_entry(entry: &mut ConsumerOffset, current_offset: u64, last: u64) -> (recovered: u64)
    ensures
        recovered == old(entry).offset,
        *final(entry) == (ConsumerOffset {
            offset: if old(entry).offset > last {
                current_offset
            } else {
                old(entry).offset
            },
            ..*old(entry)
        }),
{
    let recovered: u64 = entry.offset;
    if recovered > last {
        entry.offset = current_offset;
    }
    recovered
}

/// Bounds the recovered offsets of consumers in place, and adds what the partition
/// is seeded with, in order.
fn seed_consumer_offsets(
    entries: &mut Vec<ConsumerOffset>,
    seeds: &mut Vec<SeededOffset>,
    current_offset: u64,
    mint_frontier: u64,
)
    ensures
        final(entries)@ == old(entries)@.map_values(
            |entry: ConsumerOffset| bounded_entry(entry, current_offset, mint_frontier),
        ),
        final(seeds)@ == old(seeds)@ + consumer_seeds(
            old(entries)@,
            current_offset,
            mint_frontier,
        ),
{
    let last: u64 = offset_space_ceiling(current_offset, mint_frontier);
    let mut at: usize = 0;
    while at < entries.len()
        invariant
            at <= entries@.len(),
            entries@.len() == old(entries)@.len(),
            last == ceiling(current_offset, mint_frontier),
            forall|i: int| at <= i < entries@.len() ==> entries@[i] == old(entries)@[i],
            forall|i: int|
                0 <= i < at ==> #[trigger] entries@[i] == bounded_entry(
                    old(entries)@[i],
                    current_offset,
                    mint_frontier,
                ),
            seeds@ == old(seeds)@ + consumer_seeds(
                old(entries)@.take(at as int),
                current_offset,
                mint_frontier,
            ),
        decreases entries@.len() - at,
    {
        let consumer_id: u32 = entries[at].consumer_id;
        let recovered_offset: u64 = bound_entry(&mut entries[at], current_offset, last);
        let committed_offset: u64 = entries[at].offset;
        seeds.push(
            SeededOffset {
                kind: ConsumerKind::Consumer,
                consumer_id,
                committed_offset,
                recovered_offset,
            },
        );
        at += 1;
        assert(seeds@ =~= old(seeds)@ + consumer_seeds(
            old(entries)@.take(at as int),
            current_offset,
            mint_frontier,
        ));
    }
    assert(old(entries)@.take(at as int) =~= old(entries)@);
    assert(entries@ =~= old(entries)@.map_values(
        |entry: ConsumerOffset| bounded_entry(entry, current_offset, mint_frontier),
    ));
}

/// Bounds the recovered offsets of groups in place, and adds what the partition is
/// seeded with, in order.
fn seed_group_offsets(
    entries: &mut Vec<(ConsumerGroupId, ConsumerOffset)>,
    seeds: &mut Vec<SeededOffset>,
    current_offset: u64,
    mint_frontier: u64,
)
    requires
        forall|i: int| 0 <= i < old(entries)@.len() ==> (#[trigger] old(entries)@[i]).0.0 <= u32::MAX,
    ensures
        final(entries)@ == old(entries)@.map_values(
            |entry: (ConsumerGroupId, ConsumerOffset)|
                (entry.0, bounded_entry(entry.1, current_offset, mint_frontier)),
        ),
        final(seeds)@ == old(seeds)@ + group_seeds(old(entries)@, current_offset, mint_frontier),
{
    let last: u64 = offset_space_ceiling(current_offset, mint_frontier);
    let mut at: usize = 0;
    while at < entries.len()
        invariant
            at <= entries@.len(),
            entries@.len() == old(entries)@.len(),
            last == ceiling(current_offset, mint_frontier),
            forall|i: int|
                0 <= i < old(entries)@.len() ==> (#[trigger] old(entries)@[i]).0.0 <= u32::MAX,
            forall|i: int| at <= i < entries@.len() ==> entries@[i] == old(entries)@[i],
            forall|i: int|
                0 <= i < at ==> #[trigger] entries@[i] == (
                    old(entries)@[i].0,
                    bounded_entry(old(entries)@[i].1, current_offset, mint_frontier),
                ),
            seeds@ == old(seeds)@ + group_seeds(
                old(entries)@.take(at as int),
                current_offset,
                mint_frontier,
            ),
        decreases entries@.len() - at,
    {
        assert(entries@[at as int] == old(entries)@[at as int]);
        let consumer_id: u32 = entries[at].0.0 as u32;
        let recovered_offset: u64 = bound_entry(&mut entries[at].1, current_offset, last);
        let committed_offset: u64 = entries[at].1.offset;
        seeds.push(
            SeededOffset {
                kind: ConsumerKind::ConsumerGroup,
                consumer_id,
                committed_offset,
                recovered_offset,
            },
        );
        at += 1;
        assert(seeds@ =~= old(seeds)@ + group_seeds(
            old(entries)@.take(at as int),
            current_offset,
            mint_frontier,
        ));
    }
    assert(old(entries)@.take(at as int) =~= old(entries)@);
    assert(entries@ =~= old(entries)@.map_values(
        |entry: (ConsumerGroupId, ConsumerOffset)|
            (entry.0, bounded_entry(entry.1, current_offset, mint_frontier)),
    ));
}

/// A consumer or group whose offset file keeps its place without being usable.
#[derive(Clone, Copy, Debug, PartialEq, Eq, Structural)]
pub struct StrandedOffset {
    pub kind: ConsumerKind,
    pub id: u32,
}

/// The consumer offsets that a partition is set up with.
pub struct ConsumerOffsetPlan {
    pub consumers: Vec<ConsumerOffset>,
    pub groups: Vec<(ConsumerGroupId, ConsumerOffset)>,
    /// What the partition is seeded with: the consumers', then the groups'.
    pub seeds: Vec<SeededOffset>,
    /// The files that keep their place: the consumers', then the groups'.
    pub stranded: Vec<StrandedOffset>,
}

/// The stranded files of a kind.
pub open spec fn stranded_of(kind: ConsumerKind, ids: Seq<u32>) -> Seq<StrandedOffset> {
    ids.map_values(|id: u32| StrandedOffset { kind, id })
}

/// Adds the stranded files of a kind, in order.
fn add_stranded(stranded: &mut Vec<StrandedOffset>, kind: ConsumerKind, ids: &Vec<u32>)
    ensures
        final(stranded)@ == old(stranded)@ + stranded_of(kind, ids@),
{
    let mut at: usize = 0;
    while at < ids.len()
        invariant
            at <= ids@.len(),
            stranded@ == old(stranded)@ + stranded_of(kind, ids@.take(at as int)),
        decreases ids@.len() - at,
    {
        stranded.push(StrandedOffset { kind, id: ids[at] });
        at += 1;
        assert(stranded@ =~= old(stranded)@ + stranded_of(kind, ids@.take(at as int)));
    }
    assert(ids@.take(at as int) =~= ids@);
}

/// Sets up a partition's consumer offsets from what its directories yielded.
///
/// A stored position past the offset space is bounded to the current offset, so
/// that its consumer does not wait beyond the log; every other is kept. A group's
/// number came from a file name, so it fits the seed.
pub fn configure_consumer_offsets(
    consumers: RecoveredOffsets<ConsumerOffset>,
    groups: RecoveredOffsets<(ConsumerGroupId, ConsumerOffset)>,
    current_offset: u64,
    mint_frontier: u64,
) -> (plan: ConsumerOffsetPlan)
    requires
        forall|i: int|
            0 <= i < groups.entries@.len() ==> (#[trigger] groups.entries@[i]).0.0 <= u32::MAX,
    ensures
        plan.consumers@ == consumers.entries@.map_values(
            |entry: ConsumerOffset| bounded_entry(entry, current_offset, mint_frontier),
        ),
        plan.groups@ == groups.entries@.map_values(
            |entry: (ConsumerGroupId, ConsumerOffset)|
                (entry.0, bounded_entry(entry.1, current_offset, mint_frontier)),
        ),
        plan.seeds@ == consumer_seeds(consumers.entries@, current_offset, mint_frontier)
            + group_seeds(groups.entries@, current_offset, mint_frontier),
        plan.stranded@ == stranded_of(ConsumerKind::Consumer, consumers.stranded_ids@)
            + stranded_of(ConsumerKind::ConsumerGroup, groups.stranded_ids@),
{
    let mut seeds: Vec<SeededOffset> = Vec::new();
    let mut consumer_entries = consumers.entries;
    seed_consumer_offsets(&mut consumer_entries, &mut seeds, current_offset, mint_frontier);
    assert(seeds@ =~= consumer_seeds(consumers.entries@, current_offset, mint_frontier));
    let mut group_entries = groups.entries;
    seed_group_offsets(&mut group_entries, &mut seeds, current_offset, mint_frontier);
    let mut stranded: Vec<StrandedOffset> = Vec::new();
    add_stranded(&mut stranded, ConsumerKind::Consumer, &consumers.stranded_ids);
    assert(stranded@ =~= stranded_of(ConsumerKind::Consumer, consumers.stranded_ids@));
    add_stranded(&mut stranded, ConsumerKind::ConsumerGroup, &groups.stranded_ids);
    ConsumerOffsetPlan { consumers: consumer_entries, groups: group_entries, seeds, stranded }
}

/// Whether recovered offsets of a kind are more than the partition admits anew.
pub fn exceeds_admission_limit(count: usize, limit: usize) -> (exceeds: bool)
    ensures
        exceeds == (count > limit),
{
    count > limit
}

/// Whether a failed load means that there are no offsets: the directory it could
/// not read is gone.
pub open spec fn means_no_offsets<E>(source: OffsetsLoadError<E>, exists_after: bool) -> bool {
    source is CannotReadConsumerOffsets && !exists_after
}

/// What the offsets of a partition come to, given whether their directory at `path`
/// was there, what loading it gave, and whether the path that a failure names is
/// there after it. A directory that was not there, or is gone since, means no
/// offsets; any other failure stops the load, with its source.
pub fn settle_offsets_load<T, E>(
    kind: ConsumerKind,
    namespace: Namespace,
    path: String,
    existed_before: bool,
    loaded: Result<RecoveredOffsets<T>, OffsetsLoadError<E>>,
    exists_after: bool,
) -> (settled: Result<RecoveredOffsets<T>, PartitionLoadError<E>>)
    ensures
        match loaded {
            Ok(recovered) if existed_before => settled == Result::<
                RecoveredOffsets<T>,
                PartitionLoadError<E>,
            >::Ok(recovered),
            Err(source) if existed_before && !means_no_offsets(source, exists_after) => settled
                == Result::<RecoveredOffsets<T>, PartitionLoadError<E>>::Err(
                PartitionLoadError::ConsumerOffsetsLoad { kind, namespace, path, source },
            ),
            _ => settled matches Ok(empty) && empty.entries@ == Seq::<T>::empty()
                && empty.stranded_ids@ == Seq::<u32>::empty(),
        },
{
    if !existed_before {
        return Ok(RecoveredOffsets::default());
    }
    match loaded {
        Ok(recovered) => Ok(recovered),
        Err(source) => {
            let is_unreadable: bool = match &source {
                OffsetsLoadError::CannotReadConsumerOffsets { .. } => true,
                OffsetsLoadError::Source(_) => false,
            };
            if is_unreadable && !exists_after {
                Ok(RecoveredOffsets::default())
            } else {
                Err(PartitionLoadError::ConsumerOffsetsLoad { kind, namespace, path, source })
            }
        },
    }
}

/// A consumer never resumes past what its partition could have handed out, and is
/// never moved forward; a position within that space is kept as it was stored, a
/// position confirmed before a crash included.
pub proof fn law_positions_are_bounded_and_kept(
    recovered: u64,
    current_offset: u64,
    mint_frontier: u64,
)
    ensures
        bounded_offset(recovered, current_offset, mint_frontier) <= ceiling(
            current_offset,
            mint_frontier,
        ),
        bounded_offset(recovered, current_offset, mint_frontier) <= recovered,
        recovered < mint_frontier ==> bounded_offset(recovered, current_offset, mint_frontier)
            == recovered,
        recovered <= current_offset ==> bounded_offset(recovered, current_offset, mint_frontier)
            == recovered,
{
}

/// Every recovered offset is seeded once, in order and under its own consumer, and
/// no seed lies past the offset space or ahead of what was stored.
pub proof fn law_every_recovered_offset_is_seeded(
    consumers: Seq<ConsumerOffset>,
    groups: Seq<(ConsumerGroupId, ConsumerOffset)>,
    current_offset: u64,
    mint_frontier: u64,
    at: int,
)
    requires
        0 <= at < consumers.len() + groups.len(),
    ensures
        ({
            let seeds = consumer_seeds(consumers, current_offset, mint_frontier) + group_seeds(
                groups,
                current_offset,
                mint_frontier,
            );
            &&& seeds.len() == consumers.len() + groups.len()
            &&& seeds[at].committed_offset <= ceiling(current_offset, mint_frontier)
            &&& seeds[at].committed_offset <= seeds[at].recovered_offset
            &&& at < consumers.len() ==> seeds[at].consumer_id == consumers[at].consumer_id
                && seeds[at].recovered_offset == consumers[at].offset
            &&& at >= consumers.len() ==> seeds[at].kind == ConsumerKind::ConsumerGroup
                && seeds[at].recovered_offset == groups[at - consumers.len()].1.offset
        }),
{
}

/// The largest start is that of some segment, and no segment starts after it.
proof fn lemma_last_start_is_found(segments: Seq<SegmentExtent>)
    ensures
        last_start(segments) is None <==> segments.len() == 0,
        last_start(segments) matches Some(start) ==> {
            &&& exists|i: int|
                0 <= i < segments.len() && (#[trigger] segments[i]).start_offset == start
            &&& forall|i: int|
                0 <= i < segments.len() ==> (#[trigger] segments[i]).start_offset <= start
        },
    decreases segments.len(),
{
    if segments.len() > 0 {
        let earlier = segments.drop_last();
        lemma_last_start_is_found(earlier);
        let start = last_start(segments)->0;
        assert(segments.last() == segments[segments.len() - 1]);
        if earlier.len() > 0 && last_start(earlier)->0 >= segments.last().start_offset {
            let i = choose|i: int|
                0 <= i < earlier.len() && (#[trigger] earlier[i]).start_offset == start;
            assert(segments[i] == earlier[i]);
        }
        assert forall|i: int| 0 <= i < segments.len() implies (
        #[trigger] segments[i]).start_offset <= start by {
            if i < earlier.len() {
                assert(earlier[i] == segments[i]);
            }
        }
    }
}

/// Without data in any segment there is no end.
proof fn lemma_no_sized_end(segments: Seq<SegmentExtent>)
    requires
        forall|i: int| 0 <= i < segments.len() ==> (#[trigger] segments[i]).size == 0,
    ensures
        sized_end(segments) is None,
    decreases segments.len(),
{
    if segments.len() > 0 {
        let earlier = segments.drop_last();
        assert forall|i: int| 0 <= i < earlier.len() implies (#[trigger] earlier[i]).size == 0 by {
            assert(earlier[i] == segments[i]);
        }
        lemma_no_sized_end(earlier);
        assert(segments.last() == segments[segments.len() - 1]);
    }
}

/// With data on disk the counter resumes at its end: the largest end offset of the
/// segments that hold any, empty ones aside, whatever the record says.
pub proof fn law_the_counter_resumes_at_the_end_of_the_data(
    segments: Vec<SegmentExtent>,
    recorded: Option<VsrState>,
    replica_count: u8,
    restored: RestoredOffsets,
    at: int,
)
    requires
        call_ensures(
            restore_partition_offsets,
            (&segments, &recorded, replica_count),
            restored,
        ),
        0 <= at < segments@.len(),
        segments@[at].size > 0,
    ensures
        restored.is_offset_space_used,
        restored.recovered_durable_offset == Some(restored.counter),
        segments@[at].end_offset <= restored.counter,
        exists|i: int|
            0 <= i < segments@.len() && (#[trigger] segments@[i]).size > 0
                && segments@[i].end_offset == restored.counter,
{
    law_restored_end_covers_all_data(segments@, at);
}

/// Without data, an empty chain's name is believed only as far as the record bears it
/// out. The counter is one below the smaller of the recorded frontier and the largest
/// name, and where that is zero, or there is no chain or no record, no offset was
/// handed out.
pub proof fn law_an_empty_chain_is_believed_up_to_the_record(
    segments: Vec<SegmentExtent>,
    recorded: Option<VsrState>,
    replica_count: u8,
    restored: RestoredOffsets,
)
    requires
        call_ensures(
            restore_partition_offsets,
            (&segments, &recorded, replica_count),
            restored,
        ),
        forall|i: int| 0 <= i < segments@.len() ==> (#[trigger] segments@[i]).size == 0,
    ensures
        restored.recovered_durable_offset is None,
        recorded is None || segments@.len() == 0 ==> !restored.is_offset_space_used,
        !restored.is_offset_space_used ==> restored.counter == 0,
        !restored.is_offset_space_used ==> recorded is None || recorded->0.offset_frontier == 0 || (
        forall|i: int| 0 <= i < segments@.len() ==> (#[trigger] segments@[i]).start_offset == 0),
        restored.is_offset_space_used ==> {
            &&& recorded is Some && restored.counter < recorded->0.offset_frontier
            &&& exists|i: int|
                0 <= i < segments@.len() && restored.counter < (
                #[trigger] segments@[i]).start_offset
            &&& restored.counter + 1 == recorded->0.offset_frontier || (forall|i: int|
                0 <= i < segments@.len() ==> (#[trigger] segments@[i]).start_offset
                    <= restored.counter + 1)
        },
{
    lemma_no_sized_end(segments@);
    lemma_last_start_is_found(segments@);
    if segments@.len() > 0 {
        let start = last_start(segments@)->0;
        let i = choose|i: int|
            0 <= i < segments@.len() && (#[trigger] segments@[i]).start_offset == start;
        assert(segments@[i].start_offset == start);
    }
}

/// The offset space of a recovered partition reaches past what was handed out, as far
/// as there are offsets, and up to the recorded frontier, whichever is further. Its append point is
/// there too, but for a solo group not below its reservation, which it alone starts a
/// segment for.
pub proof fn law_a_recovered_partition_appends_past_every_bound(
    segments: Vec<SegmentExtent>,
    recorded: Option<VsrState>,
    replica_count: u8,
    restored: RestoredOffsets,
)
    requires
        call_ensures(
            restore_partition_offsets,
            (&segments, &recorded, replica_count),
            restored,
        ),
    ensures
        ({
            let next: int = if !restored.is_offset_space_used {
                0
            } else if restored.counter < u64::MAX {
                restored.counter + 1
            } else {
                u64::MAX as int
            };
            let committed = restored.frontiers.committed;
            let append_point = restored.frontiers.append_point;
            &&& restored.reanchors <==> replica_count == 1
            &&& committed >= next
            &&& recorded is None ==> committed == next && append_point == next
            &&& recorded matches Some(state) ==> {
                &&& committed >= state.offset_frontier
                &&& committed == next || committed == state.offset_frontier
                &&& append_point >= committed
                &&& replica_count != 1 ==> append_point == committed
                &&& replica_count == 1 ==> append_point >= state.offset_reserved && (append_point
                    == committed || append_point == state.offset_reserved)
            }
        }),
{
}

/// A partition that is built afresh has handed out nothing and starts no segment at a
/// reservation of its own, but takes up where its record ends: its committed frontier
/// is the recorded one, and its append point that too, or for a solo group the end of
/// its reservation where that is further.
pub proof fn law_a_fresh_partition_resumes_at_its_record(
    recorded: Option<VsrState>,
    replica_count: u8,
    fresh: FreshOffsets,
)
    requires
        call_ensures(fresh_offsets, (&recorded, replica_count), fresh),
    ensures
        fresh.counter == 0 && !fresh.is_offset_space_used && !fresh.reanchors,
        fresh.recorded == recorded,
        recorded is None ==> fresh.frontiers.committed == 0 && fresh.frontiers.append_point == 0,
        recorded matches Some(state) ==> {
            &&& fresh.frontiers.committed == state.offset_frontier
            &&& replica_count != 1 ==> fresh.frontiers.append_point == state.offset_frontier
            &&& replica_count == 1 ==> fresh.frontiers.append_point >= state.offset_frontier
                && fresh.frontiers.append_point >= state.offset_reserved && (
            fresh.frontiers.append_point == state.offset_frontier || fresh.frontiers.append_point
                == state.offset_reserved)
        },
{
}

/// The last offset a partition could have handed out is the later of the current one
/// and the one before the next to be minted.
pub proof fn law_the_ceiling_is_the_last_mintable_offset(
    current_offset: u64,
    mint_frontier: u64,
    last: u64,
)
    requires
        call_ensures(offset_space_ceiling, (current_offset, mint_frontier), last),
    ensures
        last >= current_offset,
        last + 1 >= mint_frontier,
        last == current_offset || last + 1 == mint_frontier,
{
}

/// A recovered consumer offset keeps its kind, its consumer, its file and its place,
/// and its position as well up to the last offset that could have been handed out; a
/// position past that becomes the current offset. The partition is seeded with it
/// under that consumer, and with what the file held. The same holds of groups, which
/// keep their numbers and are seeded after the consumers.
pub proof fn law_recovered_offsets_are_kept_or_bounded(
    consumers: RecoveredOffsets<ConsumerOffset>,
    groups: RecoveredOffsets<(ConsumerGroupId, ConsumerOffset)>,
    current_offset: u64,
    mint_frontier: u64,
    plan: ConsumerOffsetPlan,
    last: u64,
    at: int,
)
    requires
        call_ensures(
            configure_consumer_offsets,
            (consumers, groups, current_offset, mint_frontier),
            plan,
        ),
        call_ensures(offset_space_ceiling, (current_offset, mint_frontier), last),
    ensures
        plan.consumers@.len() == consumers.entries@.len(),
        plan.groups@.len() == groups.entries@.len(),
        plan.seeds@.len() == consumers.entries@.len() + groups.entries@.len(),
        0 <= at < consumers.entries@.len() ==> {
            let stored = consumers.entries@[at];
            let kept = plan.consumers@[at];
            let seed = plan.seeds@[at];
            &&& kept.kind == stored.kind
            &&& kept.consumer_id == stored.consumer_id
            &&& kept.path == stored.path
            &&& stored.offset <= last ==> kept.offset == stored.offset
            &&& stored.offset > last ==> kept.offset == current_offset
            &&& seed.kind == ConsumerKind::Consumer
            &&& seed.consumer_id == stored.consumer_id
            &&& seed.committed_offset == kept.offset
            &&& seed.recovered_offset == stored.offset
        },
        0 <= at < groups.entries@.len() ==> {
            let stored = groups.entries@[at];
            let kept = plan.groups@[at];
            let seed = plan.seeds@[consumers.entries@.len() + at];
            &&& kept.0 == stored.0
            &&& kept.1.kind == stored.1.kind
            &&& kept.1.consumer_id == stored.1.consumer_id
            &&& kept.1.path == stored.1.path
            &&& stored.1.offset <= last ==> kept.1.offset == stored.1.offset
            &&& stored.1.offset > last ==> kept.1.offset == current_offset
            &&& seed.kind == ConsumerKind::ConsumerGroup
            &&& stored.0.0 <= u32::MAX ==> seed.consumer_id == stored.0.0
            &&& seed.committed_offset == kept.1.offset
            &&& seed.recovered_offset == stored.1.offset
        },
{
}

/// Every file that keeps its place without being usable does so under its own kind and
/// number, the consumers' before the groups', each in the order it was found.
pub proof fn law_stranded_files_keep_their_place(
    consumers: RecoveredOffsets<ConsumerOffset>,
    groups: RecoveredOffsets<(ConsumerGroupId, ConsumerOffset)>,
    current_offset: u64,
    mint_frontier: u64,
    plan: ConsumerOffsetPlan,
    at: int,
)
    requires
        call_ensures(
            configure_consumer_offsets,
            (consumers, groups, current_offset, mint_frontier),
            plan,
        ),
    ensures
        plan.stranded@.len() == consumers.stranded_ids@.len() + groups.stranded_ids@.len(),
        0 <= at < consumers.stranded_ids@.len() ==> plan.stranded@[at] == (StrandedOffset {
            kind: ConsumerKind::Consumer,
            id: consumers.stranded_ids@[at],
        }),
        0 <= at < groups.stranded_ids@.len() ==> plan.stranded@[consumers.stranded_ids@.len() + at]
            == (StrandedOffset { kind: ConsumerKind::ConsumerGroup, id: groups.stranded_ids@[at] }),
{
}

/// Offsets are what their directory held. One that was not there, or that cannot be
/// read because it is gone since, holds none; any other failure to load it stops the
/// partition, with the kind, the partition, the path and the failure.
pub proof fn law_a_failed_load_of_offsets_is_not_no_offsets<T, E>(
    kind: ConsumerKind,
    namespace: Namespace,
    path: String,
    existed_before: bool,
    loaded: Result<RecoveredOffsets<T>, OffsetsLoadError<E>>,
    exists_after: bool,
    settled: Result<RecoveredOffsets<T>, PartitionLoadError<E>>,
)
    requires
        call_ensures(
            settle_offsets_load::<T, E>,
            (kind, namespace, path, existed_before, loaded, exists_after),
            settled,
        ),
    ensures
        settled is Err <==> existed_before && loaded is Err && (exists_after
            || loaded->Err_0 is Source),
        settled matches Err(error) ==> (error matches PartitionLoadError::ConsumerOffsetsLoad {
            kind: of,
            namespace: within,
            path: at,
            source,
        } && of == kind && within == namespace && at == path && source == loaded->Err_0),
        existed_before && loaded is Ok ==> settled->Ok_0 == loaded->Ok_0,
        settled is Ok && !(existed_before && loaded is Ok) ==> settled->Ok_0.entries@.len() == 0
            && settled->Ok_0.stranded_ids@.len() == 0,
{
}

/// Recovered offsets are too many exactly where they are more than the limit.
pub proof fn law_a_full_partition_is_not_over_its_limit(count: usize, limit: usize, exceeds: bool)
    requires
        call_ensures(exceeds_admission_limit, (count, limit), exceeds),
    ensures
        exceeds <==> count > limit,
{
}

} // verus!
