//! Recovering consumer offsets from their directory: one file per consumer, named
//! by the consumer's number.

use crate::dispatch::poll::ConsumerKind;
use vstd::prelude::*;

verus! {

/// The offsets a directory yielded, and the consumers whose file is there but
/// could not be used.
pub struct RecoveredOffsets<T> {
    pub entries: Vec<T>,
    pub stranded_ids: Vec<u32>,
}

/// The number of a consumer group.
#[derive(Clone, Copy, Debug, PartialEq, Eq, Structural)]
pub struct ConsumerGroupId(pub usize);

/// A recovered offset with the file it came from.
#[derive(Debug)]
pub struct ConsumerOffset {
    pub kind: ConsumerKind,
    pub consumer_id: u32,
    pub offset: u64,
    pub path: String,
}

/// What an offset file held.
#[derive(Clone, Copy, Debug, PartialEq, Eq, Structural)]
pub enum OffsetRecord {
    Value(u64),
    /// Cut short.
    Torn,
    /// Whole, but not what was written.
    Corrupt,
}

/// What became of an offset file.
#[derive(Clone, Copy, Debug, PartialEq, Eq, Structural)]
pub enum OffsetFileLoad {
    Loaded(u64),
    /// It is gone, and nothing of it is left to account for.
    Removed,
    /// It is still there, or may be again after a crash.
    Stranded,
}

/// What reading an offset file calls for.
#[derive(Clone, Copy, Debug, PartialEq, Eq, Structural)]
pub enum OffsetFileStep {
    Done(OffsetFileLoad),
    /// Remove the file: its cursor is not the one that was written.
    Remove,
}

/// What the enumeration of a directory says next.
#[derive(Clone, Copy, Debug, PartialEq, Eq, Structural)]
pub enum DirectoryEvent {
    Entry,
    /// All entries were listed.
    End,
    Failed,
    /// The enumeration stopped without saying so.
    Closed,
}

/// What the loader does with a directory entry.
#[derive(Clone, Copy, Debug, PartialEq, Eq, Structural)]
pub enum EntryStep {
    /// Remove what a crashed replacement left behind.
    RemoveReplacement,
    /// Not named like an offset file.
    SkipName,
    /// Its path cannot be written down.
    SkipPath,
    Read { consumer_id: u32 },
}

/// The value of a run of decimal digits.
pub open spec fn decimal_value(digits: Seq<u8>) -> nat
    decreases digits.len(),
{
    if digits.len() == 0 {
        0
    } else {
        10 * decimal_value(digits.drop_last()) + (digits.last() - 0x30) as nat
    }
}

/// Whether all bytes are decimal digits.
pub open spec fn all_digits(bytes: Seq<u8>) -> bool {
    forall|i: int| 0 <= i < bytes.len() ==> 0x30 <= #[trigger] bytes[i] <= 0x39
}

/// The digits of a number after its optional plus sign.
pub open spec fn unsigned_part(bytes: Seq<u8>) -> Seq<u8> {
    if bytes.len() > 0 && bytes[0] == 0x2b {
        bytes.drop_first()
    } else {
        bytes
    }
}

/// The number that a file name stands for: an optional plus sign and at least one
/// digit, no larger than a `u32`.
pub open spec fn consumer_id_of(name: Seq<u8>) -> Option<u32> {
    let digits = unsigned_part(name);
    if digits.len() > 0 && all_digits(digits) && decimal_value(digits) <= u32::MAX {
        Some(decimal_value(digits) as u32)
    } else {
        None
    }
}

/// More digits never make a number smaller.
proof fn lemma_decimal_value_grows(digits: Seq<u8>, count: int)
    requires
        0 <= count <= digits.len(),
        all_digits(digits),
    ensures
        decimal_value(digits.take(count)) <= decimal_value(digits),
    decreases digits.len(),
{
    if count < digits.len() {
        assert(digits.last() >= 0x30);
        assert(all_digits(digits.drop_last())) by {
            assert forall|i: int| 0 <= i < digits.drop_last().len() implies 0x30
                <= #[trigger] digits.drop_last()[i] <= 0x39 by {
                assert(digits.drop_last()[i] == digits[i]);
            }
        }
        lemma_decimal_value_grows(digits.drop_last(), count);
        assert(digits.drop_last().take(count) =~= digits.take(count));
    } else {
        assert(digits.take(count) =~= digits);
    }
}

/// The number that a file name stands for.
pub fn parse_consumer_id(name: &[u8]) -> (id: Option<u32>)
    ensures
        id == consumer_id_of(name@),
{
    let start: usize = if name.len() > 0 && name[0] == 0x2b {
        1
    } else {
        0
    };
    let ghost digits = unsigned_part(name@);
    proof {
        assert(digits =~= name@.skip(start as int));
    }
    if start >= name.len() {
        return None;
    }
    let mut value: u32 = 0;
    let mut at: usize = start;
    proof {
        assert(digits.take(0) =~= Seq::empty());
    }
    while at < name.len()
        invariant
            start <= at <= name@.len(),
            start < name@.len(),
            digits == unsigned_part(name@),
            digits =~= name@.skip(start as int),
            all_digits(digits.take(at - start)),
            value == decimal_value(digits.take(at - start)),
        decreases name@.len() - at,
    {
        let byte: u8 = name[at];
        let ghost seen = digits.take(at - start);
        let ghost more = digits.take(at - start + 1);
        proof {
            assert(digits[at - start] == byte);
            assert(more.drop_last() =~= seen);
            assert(more.last() == byte);
        }
        if byte < 0x30 || byte > 0x39 {
            assert(!all_digits(digits)) by {
                assert(digits[at - start] == byte);
            }
            return None;
        }
        proof {
            assert forall|i: int| 0 <= i < more.len() implies 0x30 <= #[trigger] more[i] <= 0x39 by {
                if i < seen.len() {
                    assert(more[i] == seen[i]);
                }
            }
        }
        let digit: u32 = (byte - 0x30) as u32;
        if value > (u32::MAX - digit) / 10 {
            proof {
                assert(10 * value + digit > u32::MAX);
                if all_digits(digits) {
                    lemma_decimal_value_grows(digits, at - start + 1);
                }
            }
            return None;
        }
        value = value * 10 + digit;
        at += 1;
    }
    proof {
        assert(digits.take(at - start) =~= digits);
    }
    Some(value)
}

/// Whether an enumeration passes an entry on: only files count, and an entry whose
/// kind cannot be read is left out, so that it does not stop the partition.
pub fn lists_entry(is_file: Option<bool>) -> (lists: bool)
    ensures
        lists == (is_file == Some(true)),
{
    match is_file {
        Some(is_file) => is_file,
        None => false,
    }
}

/// What the loader does with an entry: a leftover replacement goes, whatever is
/// not named by a consumer's number stays untouched, and the rest is read.
pub fn examine_entry(is_replacement: bool, name: &[u8], has_path: bool) -> (step: EntryStep)
    ensures
        step == if is_replacement {
            EntryStep::RemoveReplacement
        } else {
            match consumer_id_of(name@) {
                None => EntryStep::SkipName,
                Some(consumer_id) => if has_path {
                    EntryStep::Read { consumer_id }
                } else {
                    EntryStep::SkipPath
                },
            }
        },
{
    if is_replacement {
        return EntryStep::RemoveReplacement;
    }
    match parse_consumer_id(name) {
        None => EntryStep::SkipName,
        Some(consumer_id) => if has_path {
            EntryStep::Read { consumer_id }
        } else {
            EntryStep::SkipPath
        },
    }
}

/// The words for an offset of a kind.
pub fn offset_kind_label(kind: ConsumerKind) -> (label: &'static str)
    ensures
        label@ == match kind {
            ConsumerKind::Consumer => "consumer offset"@,
            ConsumerKind::ConsumerGroup => "consumer group offset"@,
        },
{
    match kind {
        ConsumerKind::Consumer => "consumer offset",
        ConsumerKind::ConsumerGroup => "consumer group offset",
    }
}

/// What an offset file calls for, given what it held, or `None` where it could not
/// be read. A cursor that is not the one written is not used: the file goes.
pub fn read_offset_file(record: Option<OffsetRecord>) -> (step: OffsetFileStep)
    ensures
        step == match record {
            None => OffsetFileStep::Done(OffsetFileLoad::Stranded),
            Some(OffsetRecord::Value(offset)) => OffsetFileStep::Done(
                OffsetFileLoad::Loaded(offset),
            ),
            Some(OffsetRecord::Torn) => OffsetFileStep::Remove,
            Some(OffsetRecord::Corrupt) => OffsetFileStep::Remove,
        },
{
    match record {
        None => OffsetFileStep::Done(OffsetFileLoad::Stranded),
        Some(OffsetRecord::Value(offset)) => OffsetFileStep::Done(OffsetFileLoad::Loaded(offset)),
        Some(OffsetRecord::Torn) => OffsetFileStep::Remove,
        Some(OffsetRecord::Corrupt) => OffsetFileStep::Remove,
    }
}

/// What became of an unusable file, given whether it was removed and whether its
/// directory, if it has one, was made durable after that. Until then the file may
/// come back and keeps its place.
pub fn remove_invalid_offset_file(is_unlinked: bool, directory_synced: Option<bool>) -> (load:
    OffsetFileLoad)
    ensures
        load == if is_unlinked && directory_synced != Some(false) {
            OffsetFileLoad::Removed
        } else {
            OffsetFileLoad::Stranded
        },
{
    if !is_unlinked {
        return OffsetFileLoad::Stranded;
    }
    match directory_synced {
        None => OffsetFileLoad::Removed,
        Some(is_synced) => if is_synced {
            OffsetFileLoad::Removed
        } else {
            OffsetFileLoad::Stranded
        },
    }
}

impl<T> Default for RecoveredOffsets<T> {
    fn default() -> (recovered: Self)
        ensures
            recovered.entries@ == Seq::<T>::empty(),
            recovered.stranded_ids@ == Seq::<u32>::empty(),
    {
        RecoveredOffsets { entries: Vec::new(), stranded_ids: Vec::new() }
    }
}

/// What a consumer offset file was settled as: the consumer, the file's path and
/// what became of it.
pub struct SettledFile {
    pub consumer_id: u32,
    pub path: String,
    pub load: OffsetFileLoad,
}

/// The offsets among settled files, in order.
pub open spec fn loaded_offsets(kind: ConsumerKind, files: Seq<SettledFile>) -> Seq<ConsumerOffset>
    decreases files.len(),
{
    if files.len() == 0 {
        Seq::empty()
    } else {
        let earlier = loaded_offsets(kind, files.drop_last());
        let file = files.last();
        match file.load {
            OffsetFileLoad::Loaded(offset) => earlier.push(
                ConsumerOffset { kind, consumer_id: file.consumer_id, offset, path: file.path },
            ),
            _ => earlier,
        }
    }
}

/// The consumers among settled files whose file is stranded, in order.
pub open spec fn stranded_consumers(files: Seq<SettledFile>) -> Seq<u32>
    decreases files.len(),
{
    if files.len() == 0 {
        Seq::empty()
    } else {
        let earlier = stranded_consumers(files.drop_last());
        if files.last().load == OffsetFileLoad::Stranded {
            earlier.push(files.last().consumer_id)
        } else {
            earlier
        }
    }
}

/// A directory being loaded.
pub struct OffsetScan {
    kind: ConsumerKind,
    recovered: RecoveredOffsets<ConsumerOffset>,
    settled: Ghost<Seq<SettledFile>>,
}

impl OffsetScan {
    /// The kind of offsets that the directory holds.
    pub closed spec fn kind(self) -> ConsumerKind {
        self.kind
    }

    /// The files settled so far, in order.
    pub closed spec fn settled(self) -> Seq<SettledFile> {
        self.settled@
    }

    /// What was recovered is what the settled files come to.
    #[verifier::type_invariant]
    closed spec fn is_valid(self) -> bool {
        &&& self.recovered.entries@ == loaded_offsets(self.kind, self.settled@)
        &&& self.recovered.stranded_ids@ == stranded_consumers(self.settled@)
    }

    /// Starts loading a directory of one kind of offsets.
    pub fn start(kind: ConsumerKind) -> (scan: OffsetScan)
        ensures
            scan.kind() == kind,
            scan.settled() == Seq::<SettledFile>::empty(),
    {
        OffsetScan { kind, recovered: RecoveredOffsets::default(), settled: Ghost(Seq::empty()) }
    }

    /// Settles one offset file: a loaded one becomes an entry, a stranded one is
    /// remembered, and a removed one leaves no trace.
    pub fn settle(self, consumer_id: u32, path: String, load: OffsetFileLoad) -> (scan: OffsetScan)
        ensures
            scan.kind() == self.kind(),
            scan.settled() == self.settled().push(SettledFile { consumer_id, path, load }),
    {
        proof {
            use_type_invariant(&self);
        }
        let ghost files = self.settled@.push(SettledFile { consumer_id, path, load });
        proof {
            assert(files.drop_last() =~= self.settled@);
        }
        let OffsetScan { kind, mut recovered, settled } = self;
        match load {
            OffsetFileLoad::Loaded(offset) => {
                recovered.entries.push(ConsumerOffset { kind, consumer_id, offset, path });
            },
            OffsetFileLoad::Removed => {},
            OffsetFileLoad::Stranded => {
                recovered.stranded_ids.push(consumer_id);
            },
        }
        OffsetScan { kind, recovered, settled: Ghost(files) }
    }

    /// Goes on with what the enumeration says next. Only an enumeration that said
    /// that it listed all entries finishes the load: one that failed, or that
    /// stopped without saying so, leaves no offset to be trusted.
    pub fn advance(self, event: DirectoryEvent) -> (step: ScanStep)
        ensures
            match step {
                ScanStep::Examine(scan) => event == DirectoryEvent::Entry && scan == self,
                ScanStep::Finished(scan) => event == DirectoryEvent::End && scan.kind()
                    == self.kind() && scan.settled() == self.settled(),
                ScanStep::Fail => event == DirectoryEvent::Failed || event
                    == DirectoryEvent::Closed,
            },
    {
        match event {
            DirectoryEvent::Entry => ScanStep::Examine(self),
            DirectoryEvent::End => ScanStep::Finished(FinishedScan { scan: self }),
            DirectoryEvent::Failed => ScanStep::Fail,
            DirectoryEvent::Closed => ScanStep::Fail,
        }
    }
}

/// A directory whose entries were all listed and settled.
pub struct FinishedScan {
    scan: OffsetScan,
}

impl FinishedScan {
    /// The kind of offsets that the directory holds.
    pub closed spec fn kind(self) -> ConsumerKind {
        self.scan.kind
    }

    /// The files settled, in order.
    pub closed spec fn settled(self) -> Seq<SettledFile> {
        self.scan.settled@
    }

    /// What the directory yielded.
    fn into_recovered(self) -> (recovered: RecoveredOffsets<ConsumerOffset>)
        ensures
            recovered.entries@ == loaded_offsets(self.kind(), self.settled()),
            recovered.stranded_ids@ == stranded_consumers(self.settled()),
    {
        let scan = self.scan;
        proof {
            use_type_invariant(&scan);
        }
        scan.recovered
    }
}

/// What a load does next.
pub enum ScanStep {
    /// Examine the entry, and go on.
    Examine(OffsetScan),
    Finished(FinishedScan),
    /// The directory could not be read: no offset of it is trusted.
    Fail,
}

/// Whether offsets are in the order of their consumers.
pub open spec fn is_sorted(offsets: Seq<ConsumerOffset>) -> bool {
    forall|i: int, j: int|
        0 <= i < j < offsets.len() ==> (#[trigger] offsets[i]).consumer_id
            <= (#[trigger] offsets[j]).consumer_id
}

/// The offsets of one consumer, in order.
pub open spec fn of_consumer(offsets: Seq<ConsumerOffset>, consumer_id: u32) -> Seq<ConsumerOffset> {
    offsets.filter(|offset: ConsumerOffset| offset.consumer_id == consumer_id)
}

/// Whether `sorted` is `offsets` in the order of consumers, with the offsets of
/// one consumer in the order they had.
pub open spec fn is_stable_sort(sorted: Seq<ConsumerOffset>, offsets: Seq<ConsumerOffset>) -> bool {
    &&& is_sorted(sorted)
    &&& sorted.len() == offsets.len()
    &&& forall|consumer_id: u32| #[trigger]
        of_consumer(sorted, consumer_id) == of_consumer(offsets, consumer_id)
}

/// No offset of a consumer among those of others.
proof fn lemma_of_consumer_none(offsets: Seq<ConsumerOffset>, consumer_id: u32)
    requires
        forall|i: int| 0 <= i < offsets.len() ==> (#[trigger] offsets[i]).consumer_id != consumer_id,
    ensures
        of_consumer(offsets, consumer_id) == Seq::<ConsumerOffset>::empty(),
    decreases offsets.len(),
{
    reveal(Seq::filter);
    if offsets.len() > 0 {
        assert forall|i: int| 0 <= i < offsets.drop_last().len() implies (
        #[trigger] offsets.drop_last()[i]).consumer_id != consumer_id by {
            assert(offsets.drop_last()[i] == offsets[i]);
        }
        lemma_of_consumer_none(offsets.drop_last(), consumer_id);
        assert(offsets.last() == offsets[offsets.len() - 1]);
    }
}

/// Putting an offset in front of the first that is not smaller puts it in front of
/// its consumer's own, and moves nothing else.
proof fn lemma_of_consumer_insert(
    sorted: Seq<ConsumerOffset>,
    at: int,
    offset: ConsumerOffset,
    consumer_id: u32,
)
    requires
        0 <= at <= sorted.len(),
        forall|i: int| 0 <= i < at ==> (#[trigger] sorted[i]).consumer_id < offset.consumer_id,
    ensures
        of_consumer(sorted.insert(at, offset), consumer_id) == of_consumer(
            seq![offset],
            consumer_id,
        ) + of_consumer(sorted, consumer_id),
{
    let pred = |other: ConsumerOffset| other.consumer_id == consumer_id;
    let before = sorted.take(at);
    let after = sorted.skip(at);
    assert(sorted =~= before + after);
    assert(sorted.insert(at, offset) =~= before + seq![offset] + after);
    Seq::filter_distributes_over_add(before, after, pred);
    Seq::filter_distributes_over_add(before + seq![offset], after, pred);
    Seq::filter_distributes_over_add(before, seq![offset], pred);
    if consumer_id == offset.consumer_id {
        assert forall|i: int| 0 <= i < before.len() implies (#[trigger] before[i]).consumer_id
            != consumer_id by {
            assert(before[i] == sorted[i]);
        }
        lemma_of_consumer_none(before, consumer_id);
        assert(of_consumer(sorted.insert(at, offset), consumer_id) =~= of_consumer(
            seq![offset],
            consumer_id,
        ) + of_consumer(sorted, consumer_id));
    } else {
        assert forall|i: int| 0 <= i < seq![offset].len() implies (
        #[trigger] seq![offset][i]).consumer_id != consumer_id by {}
        lemma_of_consumer_none(seq![offset], consumer_id);
        assert(of_consumer(sorted.insert(at, offset), consumer_id) =~= of_consumer(
            seq![offset],
            consumer_id,
        ) + of_consumer(sorted, consumer_id));
    }
}

/// The first place in sorted offsets that holds no smaller consumer.
fn first_not_smaller(sorted: &Vec<ConsumerOffset>, consumer_id: u32) -> (at: usize)
    requires
        is_sorted(sorted@),
    ensures
        at <= sorted@.len(),
        forall|i: int| 0 <= i < at ==> (#[trigger] sorted@[i]).consumer_id < consumer_id,
        forall|i: int| at <= i < sorted@.len() ==> (#[trigger] sorted@[i]).consumer_id >= consumer_id,
{
    let mut low: usize = 0;
    let mut high: usize = sorted.len();
    while low < high
        invariant
            low <= high <= sorted@.len(),
            is_sorted(sorted@),
            forall|i: int| 0 <= i < low ==> (#[trigger] sorted@[i]).consumer_id < consumer_id,
            forall|i: int|
                high <= i < sorted@.len() ==> (#[trigger] sorted@[i]).consumer_id >= consumer_id,
        decreases high - low,
    {
        let middle: usize = low + (high - low) / 2;
        let found: u32 = sorted[middle].consumer_id;
        if found < consumer_id {
            assert forall|i: int| 0 <= i < middle + 1 implies (#[trigger] sorted@[i]).consumer_id
                < consumer_id by {
                assert(i == middle || sorted@[i].consumer_id <= sorted@[middle as int].consumer_id);
            }
            low = middle + 1;
        } else {
            assert forall|i: int| middle <= i < sorted@.len() implies (
            #[trigger] sorted@[i]).consumer_id >= consumer_id by {
                assert(i == middle || sorted@[middle as int].consumer_id <= sorted@[i].consumer_id);
            }
            high = middle;
        }
    }
    low
}

/// Puts offsets in the order of their consumers, stably.
fn sort_by_consumer(offsets: Vec<ConsumerOffset>) -> (sorted: Vec<ConsumerOffset>)
    ensures
        is_stable_sort(sorted@, offsets@),
{
    let mut rest = offsets;
    let mut sorted: Vec<ConsumerOffset> = Vec::new();
    proof {
        reveal(Seq::filter);
        assert forall|consumer_id: u32| of_consumer(rest@, consumer_id) + of_consumer(
            sorted@,
            consumer_id,
        ) == #[trigger] of_consumer(offsets@, consumer_id) by {
            assert(of_consumer(sorted@, consumer_id) =~= Seq::empty());
            assert(of_consumer(rest@, consumer_id) + of_consumer(sorted@, consumer_id)
                =~= of_consumer(rest@, consumer_id));
        }
    }
    while rest.len() > 0
        invariant
            is_sorted(sorted@),
            rest@.len() + sorted@.len() == offsets@.len(),
            forall|consumer_id: u32|
                of_consumer(rest@, consumer_id) + of_consumer(sorted@, consumer_id)
                    == #[trigger] of_consumer(offsets@, consumer_id),
        decreases rest@.len(),
    {
        let ghost rest_before = rest@;
        let ghost sorted_before = sorted@;
        match rest.pop() {
            Some(offset) => {
                let at: usize = first_not_smaller(&sorted, offset.consumer_id);
                sorted.insert(at, offset);
                proof {
                    assert(rest_before =~= rest@ + seq![offset]);
                    assert forall|consumer_id: u32|
                        of_consumer(rest@, consumer_id) + of_consumer(sorted@, consumer_id)
                            == #[trigger] of_consumer(offsets@, consumer_id) by {
                        lemma_of_consumer_insert(sorted_before, at as int, offset, consumer_id);
                        Seq::filter_distributes_over_add(
                            rest@,
                            seq![offset],
                            |other: ConsumerOffset| other.consumer_id == consumer_id,
                        );
                        assert(of_consumer(rest@, consumer_id) + of_consumer(sorted@, consumer_id)
                            =~= of_consumer(rest_before, consumer_id) + of_consumer(
                            sorted_before,
                            consumer_id,
                        ));
                    }
                    assert forall|i: int, j: int| 0 <= i < j < sorted@.len() implies (
                    #[trigger] sorted@[i]).consumer_id <= (#[trigger] sorted@[j]).consumer_id by {
                        let left = if i < at {
                            i
                        } else {
                            i - 1
                        };
                        let right = if j < at {
                            j
                        } else {
                            j - 1
                        };
                        if i != at {
                            assert(sorted@[i] == sorted_before[left]);
                        }
                        if j != at {
                            assert(sorted@[j] == sorted_before[right]);
                        }
                    }
                }
            },
            None => {},
        }
    }
    proof {
        reveal(Seq::filter);
        assert forall|consumer_id: u32| #[trigger]
            of_consumer(sorted@, consumer_id) == of_consumer(offsets@, consumer_id) by {
            assert(of_consumer(rest@, consumer_id) + of_consumer(sorted@, consumer_id)
                =~= of_consumer(sorted@, consumer_id));
            assert(of_consumer(offsets@, consumer_id) == of_consumer(rest@, consumer_id)
                + of_consumer(sorted@, consumer_id));
        }
    }
    sorted
}

/// The consumer offsets of a loaded directory, in the order of their consumers.
pub fn load_consumer_offsets(scan: FinishedScan) -> (recovered: RecoveredOffsets<ConsumerOffset>)
    requires
        scan.kind() == ConsumerKind::Consumer,
    ensures
        is_stable_sort(
            recovered.entries@,
            loaded_offsets(ConsumerKind::Consumer, scan.settled()),
        ),
        recovered.stranded_ids@ == stranded_consumers(scan.settled()),
{
    let loaded = scan.into_recovered();
    RecoveredOffsets {
        entries: sort_by_consumer(loaded.entries),
        stranded_ids: loaded.stranded_ids,
    }
}

/// The group offsets of a loaded directory, each with its group, in the order the
/// directory gave them.
pub fn load_consumer_group_offsets(scan: FinishedScan) -> (recovered: RecoveredOffsets<
    (ConsumerGroupId, ConsumerOffset),
>)
    requires
        scan.kind() == ConsumerKind::ConsumerGroup,
    ensures
        ({
            let loaded = loaded_offsets(ConsumerKind::ConsumerGroup, scan.settled());
            &&& recovered.entries@.len() == loaded.len()
            &&& forall|i: int|
                0 <= i < loaded.len() ==> #[trigger] recovered.entries@[i] == (
                    ConsumerGroupId(loaded[i].consumer_id as usize),
                    loaded[i],
                )
        }),
        recovered.stranded_ids@ == stranded_consumers(scan.settled()),
{
    let loaded = scan.into_recovered();
    let ghost offsets = loaded.entries@;
    let mut rest = loaded.entries;
    let mut reversed: Vec<(ConsumerGroupId, ConsumerOffset)> = Vec::new();
    while rest.len() > 0
        invariant
            rest@.len() + reversed@.len() == offsets.len(),
            rest@ == offsets.take(rest@.len() as int),
            forall|i: int|
                0 <= i < reversed@.len() ==> #[trigger] reversed@[i] == (
                    ConsumerGroupId(offsets[offsets.len() - 1 - i].consumer_id as usize),
                    offsets[offsets.len() - 1 - i],
                ),
        decreases rest@.len(),
    {
        match rest.pop() {
            Some(offset) => {
                reversed.push((ConsumerGroupId(offset.consumer_id as usize), offset));
            },
            None => {},
        }
    }
    let mut entries: Vec<(ConsumerGroupId, ConsumerOffset)> = Vec::new();
    while reversed.len() > 0
        invariant
            reversed@.len() + entries@.len() == offsets.len(),
            forall|i: int|
                0 <= i < reversed@.len() ==> #[trigger] reversed@[i] == (
                    ConsumerGroupId(offsets[offsets.len() - 1 - i].consumer_id as usize),
                    offsets[offsets.len() - 1 - i],
                ),
            forall|i: int|
                0 <= i < entries@.len() ==> #[trigger] entries@[i] == (
                    ConsumerGroupId(offsets[i].consumer_id as usize),
                    offsets[i],
                ),
        decreases reversed@.len(),
    {
        match reversed.pop() {
            Some(entry) => {
                entries.push(entry);
            },
            None => {},
        }
    }
    RecoveredOffsets { entries, stranded_ids: loaded.stranded_ids }
}

/// Every file is accounted for once: an entry if it loaded, a stranded consumer if
/// it could neither be used nor removed, and nothing if it is gone.
pub proof fn law_every_file_is_accounted_for(kind: ConsumerKind, files: Seq<SettledFile>, at: int)
    requires
        0 <= at < files.len(),
    ensures
        loaded_offsets(kind, files).len() + stranded_consumers(files).len() <= files.len(),
        files[at].load matches OffsetFileLoad::Loaded(offset) ==> loaded_offsets(
            kind,
            files,
        ).contains(
            ConsumerOffset {
                kind,
                consumer_id: files[at].consumer_id,
                offset,
                path: files[at].path,
            },
        ),
        files[at].load == OffsetFileLoad::Stranded ==> stranded_consumers(files).contains(
            files[at].consumer_id,
        ),
    decreases files.len(),
{
    let earlier = files.drop_last();
    let loaded = loaded_offsets(kind, earlier);
    let stranded = stranded_consumers(earlier);
    lemma_accounts_fit(kind, earlier);
    if at < earlier.len() {
        law_every_file_is_accounted_for(kind, earlier, at);
        assert(earlier[at] == files[at]);
        if let OffsetFileLoad::Loaded(offset) = files[at].load {
            let entry = ConsumerOffset {
                kind,
                consumer_id: files[at].consumer_id,
                offset,
                path: files[at].path,
            };
            let i = choose|i: int| 0 <= i < loaded.len() && loaded[i] == entry;
            assert(loaded_offsets(kind, files)[i] == entry);
        }
        if files[at].load == OffsetFileLoad::Stranded {
            let i = choose|i: int| 0 <= i < stranded.len() && stranded[i] == files[at].consumer_id;
            assert(stranded_consumers(files)[i] == files[at].consumer_id);
        }
    } else {
        assert(files.last() == files[at]);
        if let OffsetFileLoad::Loaded(offset) = files[at].load {
            assert(loaded_offsets(kind, files).last() == ConsumerOffset {
                kind,
                consumer_id: files[at].consumer_id,
                offset,
                path: files[at].path,
            });
            assert(loaded_offsets(kind, files)[loaded.len() as int] == loaded_offsets(
                kind,
                files,
            ).last());
        }
        if files[at].load == OffsetFileLoad::Stranded {
            assert(stranded_consumers(files)[stranded.len() as int] == files[at].consumer_id);
        }
    }
}

/// Entries and stranded consumers are no more than the files.
proof fn lemma_accounts_fit(kind: ConsumerKind, files: Seq<SettledFile>)
    ensures
        loaded_offsets(kind, files).len() + stranded_consumers(files).len() <= files.len(),
    decreases files.len(),
{
    if files.len() > 0 {
        lemma_accounts_fit(kind, files.drop_last());
    }
}

/// One digit more behind a run of digits.
proof fn lemma_one_digit_more(digits: Seq<u8>, byte: u8)
    ensures
        all_digits(digits.push(byte)) <==> all_digits(digits) && 0x30 <= byte <= 0x39,
        decimal_value(digits.push(byte)) == 10 * decimal_value(digits) + (byte - 0x30) as nat,
{
    let longer = digits.push(byte);
    assert(longer.drop_last() =~= digits);
    assert(longer.last() == byte);
    if all_digits(longer) {
        assert forall|i: int| 0 <= i < digits.len() implies 0x30 <= #[trigger] digits[i] <= 0x39 by {
            assert(longer[i] == digits[i]);
        }
        assert(longer[digits.len() as int] == byte);
    }
    if all_digits(digits) && 0x30 <= byte <= 0x39 {
        assert forall|i: int| 0 <= i < longer.len() implies 0x30 <= #[trigger] longer[i] <= 0x39 by {
            if i < digits.len() {
                assert(longer[i] == digits[i]);
            }
        }
    }
}

/// A name is read as a decimal number, digit by digit, with or without a plus sign in
/// front: a digit behind a name that is a number makes it ten times that number and
/// the digit more, where that fits 32 bits. A name without any digit is no number, nor
/// is one with another byte in it or one past what fits, and no byte behind it makes it
/// one.
pub proof fn law_a_file_name_is_read_as_a_decimal(
    name: &[u8],
    byte: u8,
    longer: &[u8],
    id: Option<u32>,
    longer_id: Option<u32>,
)
    requires
        longer@ == name@.push(byte),
        call_ensures(parse_consumer_id, (name,), id),
        call_ensures(parse_consumer_id, (longer,), longer_id),
    ensures
        ({
            let is_digit = 0x30 <= byte <= 0x39;
            let has_digits = name@.len() > 0 && name@ != seq![0x2bu8];
            &&& !has_digits ==> id is None
            &&& !is_digit ==> longer_id is None
            &&& is_digit && !has_digits ==> longer_id == Some((byte - 0x30) as u32)
            &&& has_digits && id is None ==> longer_id is None
            &&& is_digit ==> (id matches Some(value) ==> {
                let more = 10 * value + (byte - 0x30);
                longer_id == if more <= u32::MAX {
                    Some(more as u32)
                } else {
                    None
                }
            })
        }),
{
    let digits = unsigned_part(name@);
    lemma_one_digit_more(digits, byte);
    if name@.len() == 0 {
        if byte == 0x2b {
            assert(longer@.drop_first() =~= Seq::<u8>::empty());
        } else {
            assert(longer@ =~= digits.push(byte));
        }
        assert(decimal_value(Seq::<u8>::empty()) == 0);
        assert(digits =~= Seq::<u8>::empty());
    } else {
        assert(longer@[0] == name@[0]);
        if name@[0] == 0x2b {
            assert(longer@.drop_first() =~= name@.drop_first().push(byte));
            if name@.len() == 1 {
                assert(name@ =~= seq![0x2bu8]);
                assert(digits =~= Seq::<u8>::empty());
            } else {
                assert(name@ != seq![0x2bu8]) by {
                    assert(name@.len() != seq![0x2bu8].len());
                }
            }
        }
    }
}

/// A replacement in the making is removed, whatever it is called. Of the others, a name
/// that is a consumer's number is read as that consumer's file, unless its path cannot
/// be written down, and any other name is left alone.
pub proof fn law_entries_are_read_by_their_number(
    is_replacement: bool,
    name: &[u8],
    has_path: bool,
    step: EntryStep,
    id: Option<u32>,
    is_file: Option<bool>,
    lists: bool,
)
    requires
        call_ensures(examine_entry, (is_replacement, name, has_path), step),
        call_ensures(parse_consumer_id, (name,), id),
        call_ensures(lists_entry, (is_file,), lists),
    ensures
        lists <==> is_file == Some(true),
        match step {
            EntryStep::RemoveReplacement => is_replacement,
            EntryStep::SkipName => !is_replacement && id is None,
            EntryStep::SkipPath => !is_replacement && id is Some && !has_path,
            EntryStep::Read { consumer_id } => !is_replacement && has_path && id == Some(
                consumer_id,
            ),
        },
{
}

/// An offset is used only as it was written. A file that is cut short or not what was
/// written is removed, and counts as gone only once its removal will last; until then,
/// and where it could not be read at all, it keeps its place.
pub proof fn law_only_a_whole_offset_is_used(
    record: Option<OffsetRecord>,
    step: OffsetFileStep,
    is_unlinked: bool,
    directory_synced: Option<bool>,
    load: OffsetFileLoad,
)
    requires
        call_ensures(read_offset_file, (record,), step),
        call_ensures(remove_invalid_offset_file, (is_unlinked, directory_synced), load),
    ensures
        match step {
            OffsetFileStep::Done(OffsetFileLoad::Loaded(offset)) => record == Some(
                OffsetRecord::Value(offset),
            ),
            OffsetFileStep::Done(OffsetFileLoad::Stranded) => record is None,
            OffsetFileStep::Done(OffsetFileLoad::Removed) => false,
            OffsetFileStep::Remove => record == Some(OffsetRecord::Torn) || record == Some(
                OffsetRecord::Corrupt,
            ),
        },
        load == OffsetFileLoad::Removed || load == OffsetFileLoad::Stranded,
        load == OffsetFileLoad::Removed <==> is_unlinked && (directory_synced is None
            || directory_synced == Some(true)),
{
    if let Some(is_synced) = directory_synced {
        assert(directory_synced == Some(is_synced));
        assert(is_synced ==> directory_synced != Some(false));
    }
}

/// A load finishes only where its directory says that all entries were listed, with
/// the files it settled and of the kind it was started for; it goes on with each entry
/// unchanged; and it fails where the listing failed or broke off.
pub proof fn law_only_a_complete_listing_finishes(
    kind: ConsumerKind,
    start: OffsetScan,
    scan: OffsetScan,
    event: DirectoryEvent,
    step: ScanStep,
)
    requires
        call_ensures(OffsetScan::start, (kind,), start),
        call_ensures(OffsetScan::advance, (scan, event), step),
    ensures
        start.kind() == kind && start.settled().len() == 0,
        step is Finished <==> event == DirectoryEvent::End,
        step is Examine <==> event == DirectoryEvent::Entry,
        step is Fail <==> event == DirectoryEvent::Failed || event == DirectoryEvent::Closed,
        step matches ScanStep::Finished(finished) ==> finished.kind() == scan.kind()
            && finished.settled() == scan.settled(),
        step matches ScanStep::Examine(going) ==> going.kind() == scan.kind() && going.settled()
            == scan.settled(),
{
}

/// The offsets among settled files are those of the loaded ones, file by file.
proof fn lemma_loaded_one_by_one(kind: ConsumerKind, files: Seq<SettledFile>)
    ensures
        loaded_offsets(kind, files) == files.filter(
            |file: SettledFile| file.load is Loaded,
        ).map_values(
            |file: SettledFile|
                ConsumerOffset {
                    kind,
                    consumer_id: file.consumer_id,
                    offset: file.load->Loaded_0,
                    path: file.path,
                },
        ),
        stranded_consumers(files) == files.filter(
            |file: SettledFile| file.load is Stranded,
        ).map_values(|file: SettledFile| file.consumer_id),
    decreases files.len(),
{
    let is_loaded = |file: SettledFile| file.load is Loaded;
    let is_stranded = |file: SettledFile| file.load is Stranded;
    let entry = |file: SettledFile|
        ConsumerOffset {
            kind,
            consumer_id: file.consumer_id,
            offset: file.load->Loaded_0,
            path: file.path,
        };
    let number = |file: SettledFile| file.consumer_id;
    reveal(Seq::filter);
    if files.len() > 0 {
        let earlier = files.drop_last();
        lemma_loaded_one_by_one(kind, earlier);
        assert(loaded_offsets(kind, earlier) == earlier.filter(is_loaded).map_values(entry));
        assert(stranded_consumers(earlier) == earlier.filter(is_stranded).map_values(number));
    }
    assert(loaded_offsets(kind, files) =~= files.filter(is_loaded).map_values(entry));
    assert(stranded_consumers(files) =~= files.filter(is_stranded).map_values(number));
}

/// The offsets of one consumer among settled files are those of its loaded files, in
/// order.
proof fn lemma_loaded_of_consumer(kind: ConsumerKind, files: Seq<SettledFile>, consumer_id: u32)
    ensures
        of_consumer(loaded_offsets(kind, files), consumer_id) == files.filter(
            |file: SettledFile| file.load is Loaded && file.consumer_id == consumer_id,
        ).map_values(
            |file: SettledFile|
                ConsumerOffset {
                    kind,
                    consumer_id: file.consumer_id,
                    offset: file.load->Loaded_0,
                    path: file.path,
                },
        ),
    decreases files.len(),
{
    let is_its = |file: SettledFile| file.load is Loaded && file.consumer_id == consumer_id;
    let of_it = |offset: ConsumerOffset| offset.consumer_id == consumer_id;
    let entry = |file: SettledFile|
        ConsumerOffset {
            kind,
            consumer_id: file.consumer_id,
            offset: file.load->Loaded_0,
            path: file.path,
        };
    reveal(Seq::filter);
    if files.len() > 0 {
        let earlier = files.drop_last();
        lemma_loaded_of_consumer(kind, earlier, consumer_id);
        let loaded = loaded_offsets(kind, files);
        if files.last().load is Loaded {
            assert(loaded.drop_last() =~= loaded_offsets(kind, earlier));
            assert(loaded.last() == entry(files.last()));
        }
        assert(loaded_offsets(kind, earlier).filter(of_it) == earlier.filter(is_its).map_values(
            entry,
        ));
    }
    assert(loaded_offsets(kind, files).filter(of_it) =~= files.filter(is_its).map_values(entry));
}

/// What a directory of consumer offsets yields are its loaded files and no others, in
/// the order of their consumers: each consumer has an entry for each of its loaded
/// files, with that file's offset and path, in the order the files were found. The
/// stranded files are those of the directory, in order.
pub proof fn law_consumers_get_the_offsets_of_their_files(
    scan: FinishedScan,
    recovered: RecoveredOffsets<ConsumerOffset>,
    left: int,
    right: int,
    consumer_id: u32,
)
    requires
        call_ensures(load_consumer_offsets, (scan,), recovered),
    ensures
        0 <= left < right < recovered.entries@.len() ==> recovered.entries@[left].consumer_id
            <= recovered.entries@[right].consumer_id,
        recovered.entries@.len() == scan.settled().filter(
            |file: SettledFile| file.load is Loaded,
        ).len(),
        recovered.entries@.filter(|entry: ConsumerOffset| entry.consumer_id == consumer_id)
            == scan.settled().filter(
            |file: SettledFile| file.load is Loaded && file.consumer_id == consumer_id,
        ).map_values(
            |file: SettledFile|
                ConsumerOffset {
                    kind: ConsumerKind::Consumer,
                    consumer_id: file.consumer_id,
                    offset: file.load->Loaded_0,
                    path: file.path,
                },
        ),
        recovered.stranded_ids@ == scan.settled().filter(
            |file: SettledFile| file.load is Stranded,
        ).map_values(|file: SettledFile| file.consumer_id),
{
    let files = scan.settled();
    let loaded = loaded_offsets(ConsumerKind::Consumer, files);
    lemma_loaded_one_by_one(ConsumerKind::Consumer, files);
    lemma_loaded_of_consumer(ConsumerKind::Consumer, files, consumer_id);
    assert(is_stable_sort(recovered.entries@, loaded));
    assert(of_consumer(recovered.entries@, consumer_id) == of_consumer(loaded, consumer_id));
}

/// What a directory of group offsets yields are its loaded files and no others, each
/// with the group of its number, in the order the files were found.
pub proof fn law_groups_get_the_offsets_of_their_files(
    scan: FinishedScan,
    recovered: RecoveredOffsets<(ConsumerGroupId, ConsumerOffset)>,
    at: int,
)
    requires
        call_ensures(load_consumer_group_offsets, (scan,), recovered),
    ensures
        ({
            let files = scan.settled().filter(|file: SettledFile| file.load is Loaded);
            &&& recovered.entries@.len() == files.len()
            &&& 0 <= at < files.len() ==> {
                let entry = recovered.entries@[at];
                &&& entry.0.0 == files[at].consumer_id
                &&& entry.1.kind == ConsumerKind::ConsumerGroup
                &&& entry.1.consumer_id == files[at].consumer_id
                &&& entry.1.offset == files[at].load->Loaded_0
                &&& entry.1.path == files[at].path
            }
        }),
        recovered.stranded_ids@ == scan.settled().filter(
            |file: SettledFile| file.load is Stranded,
        ).map_values(|file: SettledFile| file.consumer_id),
{
    lemma_loaded_one_by_one(ConsumerKind::ConsumerGroup, scan.settled());
}

/// Settling a file adds it, with its consumer, its path and what became of it, behind
/// those settled before, and changes nothing else.
pub proof fn law_a_settled_file_is_added(
    scan: OffsetScan,
    consumer_id: u32,
    path: String,
    load: OffsetFileLoad,
    settled: OffsetScan,
)
    requires
        call_ensures(OffsetScan::settle, (scan, consumer_id, path, load), settled),
    ensures
        settled.kind() == scan.kind(),
        settled.settled().len() == scan.settled().len() + 1,
        settled.settled().drop_last() == scan.settled(),
        settled.settled().last().consumer_id == consumer_id,
        settled.settled().last().path == path,
        settled.settled().last().load == load,
{
    assert(settled.settled().drop_last() =~= scan.settled());
}

/// The offsets of consumers and of groups are named apart.
pub proof fn law_offset_kinds_are_named_apart(consumer: &'static str, group: &'static str)
    requires
        call_ensures(offset_kind_label, (ConsumerKind::Consumer,), consumer),
        call_ensures(offset_kind_label, (ConsumerKind::ConsumerGroup,), group),
    ensures
        consumer@ == "consumer offset"@,
        group@ == "consumer group offset"@,
{
}

} // verus!
