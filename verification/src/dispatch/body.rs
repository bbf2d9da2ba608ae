//! Reply bodies that this layer builds itself.

use bytes::Bytes;
use vstd::prelude::*;

verus! {

/// `bytes::Bytes`.
#[verifier::external_type_specification]
#[verifier::external_body]
pub struct ExBytes(Bytes);

/// The bytes that a [`Bytes`] holds.
pub uninterp spec fn bytes_held(body: Bytes) -> Seq<u8>;

/// `Bytes::from` of a vector: it holds the vector's bytes.
#[verifier::external_body]
fn bytes_from_vec(bytes: Vec<u8>) -> (body: Bytes)
    ensures
        bytes_held(body) == bytes@,
{
    Bytes::from(bytes)
}

/// `Bytes::new`: it holds nothing.
#[verifier::external_body]
fn new_bytes() -> (body: Bytes)
    ensures
        bytes_held(body) == Seq::<u8>::empty(),
{
    Bytes::new()
}

/// The channel a reply frame is accounted under.
#[derive(Clone, Copy, Debug, PartialEq, Eq, Structural)]
pub enum FrameChannel {
    Reply,
    /// A successful poll of no messages.
    EmptyFrame,
    /// An empty poll that tells a group member to fetch its assignment again.
    ResyncSentinel,
}

/// The number that little-endian bytes stand for.
pub open spec fn little_endian(bytes: Seq<u8>) -> int
    decreases bytes.len(),
{
    if bytes.len() == 0 {
        0
    } else {
        bytes[0] + 0x100 * little_endian(bytes.drop_first())
    }
}

/// The four bytes of a number, least significant first.
fn push_u32(bytes: &mut Vec<u8>, value: u32)
    ensures
        final(bytes)@.len() == old(bytes)@.len() + 4,
        final(bytes)@.take(old(bytes)@.len() as int) == old(bytes)@,
        little_endian(final(bytes)@.skip(old(bytes)@.len() as int)) == value,
{
    bytes.push((value % 0x100) as u8);
    bytes.push((value / 0x100 % 0x100) as u8);
    bytes.push((value / 0x1_0000 % 0x100) as u8);
    bytes.push((value / 0x100_0000) as u8);
    proof {
        let start = old(bytes)@.len() as int;
        assert(bytes@.take(start) =~= old(bytes)@);
        let tail = bytes@.skip(start);
        assert(tail =~= seq![
            (value % 0x100) as u8,
            (value / 0x100 % 0x100) as u8,
            (value / 0x1_0000 % 0x100) as u8,
            (value / 0x100_0000) as u8,
        ]);
        reveal_with_fuel(little_endian, 5);
    }
}

/// The body of a poll that found nothing: the partition, then the current offset
/// and the message count, both zero.
pub open spec fn is_empty_poll(body: Seq<u8>, partition_id: u32) -> bool {
    &&& body.len() == 16
    &&& little_endian(body.take(4)) == partition_id
    &&& forall|i: int| 4 <= i < 16 ==> body[i] == 0
}

/// The body of a poll that found nothing. It is never shorter than a poll's own
/// header, which every decoder reads.
pub fn empty_polled_messages_body(partition_id: u32) -> (body: Bytes)
    ensures
        is_empty_poll(bytes_held(body), partition_id),
{
    let mut bytes: Vec<u8> = Vec::with_capacity(16);
    push_u32(&mut bytes, partition_id);
    assert(bytes@.skip(0) =~= bytes@);
    let ghost head = bytes@;
    let mut at: usize = 4;
    while at < 16
        invariant
            4 <= at <= 16,
            head.len() == 4,
            bytes@.len() == at,
            bytes@.take(4) == head,
            forall|i: int| 4 <= i < at ==> bytes@[i] == 0,
        decreases 16 - at,
    {
        bytes.push(0);
        assert(bytes@.take(4) =~= head);
        at += 1;
    }
    bytes_from_vec(bytes)
}

/// The reply of a poll whose partition could not answer: an empty poll, on the
/// channel that its partition number calls for.
pub fn empty_poll_fallback(partition_id: u32, resync_sentinel: u32) -> (fallback: (
    Bytes,
    FrameChannel,
))
    ensures
        is_empty_poll(bytes_held(fallback.0), partition_id),
        fallback.1 == if partition_id == resync_sentinel {
            FrameChannel::ResyncSentinel
        } else {
            FrameChannel::EmptyFrame
        },
{
    let channel = if partition_id == resync_sentinel {
        FrameChannel::ResyncSentinel
    } else {
        FrameChannel::EmptyFrame
    };
    (empty_polled_messages_body(partition_id), channel)
}

/// The body that says a consumer has no stored offset.
pub fn no_offset_body() -> (body: Bytes)
    ensures
        bytes_held(body) == Seq::<u8>::empty(),
{
    new_bytes()
}

/// An empty poll is told apart from "no stored offset", and two empty polls are
/// equal only for the same partition.
pub proof fn law_empty_poll_names_its_partition(body: Seq<u8>, partition_id: u32, other: u32)
    requires
        is_empty_poll(body, partition_id),
    ensures
        body != Seq::<u8>::empty(),
        is_empty_poll(body, other) ==> other == partition_id,
{
}

/// An empty poll is sixteen bytes: the number of its partition in the first four,
/// least significant first, and nothing in the others.
pub proof fn law_an_empty_poll_is_a_bare_header(partition_id: u32, body: Bytes)
    requires
        call_ensures(empty_polled_messages_body, (partition_id,), body),
    ensures
        ({
            let bytes = bytes_held(body);
            &&& bytes.len() == 16
            &&& bytes[0] == partition_id % 0x100
            &&& bytes[1] == partition_id / 0x100 % 0x100
            &&& bytes[2] == partition_id / 0x1_0000 % 0x100
            &&& bytes[3] == partition_id / 0x100_0000
            &&& forall|i: int| 4 <= i < 16 ==> #[trigger] bytes[i] == 0
        }),
{
    let bytes = bytes_held(body);
    lemma_four_bytes(bytes, partition_id);
}

/// The first four bytes of an empty poll are those of its partition.
proof fn lemma_four_bytes(bytes: Seq<u8>, partition_id: u32)
    requires
        is_empty_poll(bytes, partition_id),
    ensures
        bytes[0] == partition_id % 0x100,
        bytes[1] == partition_id / 0x100 % 0x100,
        bytes[2] == partition_id / 0x1_0000 % 0x100,
        bytes[3] == partition_id / 0x100_0000,
{
    let head = bytes.take(4);
    reveal_with_fuel(little_endian, 5);
    assert(head.drop_first()[0] == bytes[1]);
    assert(head.drop_first().drop_first()[0] == bytes[2]);
    assert(head.drop_first().drop_first().drop_first()[0] == bytes[3]);
    assert(partition_id == bytes[0] + 0x100 * bytes[1] + 0x1_0000 * bytes[2] + 0x100_0000
        * bytes[3]);
}

/// Two empty polls of one partition are the same bytes.
pub(crate) proof fn lemma_empty_polls_agree(left: Seq<u8>, right: Seq<u8>, partition_id: u32)
    requires
        is_empty_poll(left, partition_id),
        is_empty_poll(right, partition_id),
    ensures
        left == right,
{
    lemma_four_bytes(left, partition_id);
    lemma_four_bytes(right, partition_id);
    assert(left =~= right);
}

/// A poll whose partition could not answer gets the empty poll of that partition,
/// and tells its client to fetch its assignment again exactly where the number is the
/// sentinel.
pub proof fn law_the_fallback_is_the_empty_poll(
    partition_id: u32,
    resync_sentinel: u32,
    fallback: (Bytes, FrameChannel),
    body: Bytes,
)
    requires
        call_ensures(empty_poll_fallback, (partition_id, resync_sentinel), fallback),
        call_ensures(empty_polled_messages_body, (partition_id,), body),
    ensures
        bytes_held(fallback.0) == bytes_held(body),
        fallback.1 == FrameChannel::ResyncSentinel <==> partition_id == resync_sentinel,
        fallback.1 != FrameChannel::Reply,
{
    lemma_empty_polls_agree(bytes_held(fallback.0), bytes_held(body), partition_id);
}

/// The body that says nothing is stored is empty, and never one of a poll.
pub proof fn law_no_offset_is_no_bytes(body: Bytes, polled: Bytes, partition_id: u32)
    requires
        call_ensures(no_offset_body, (), body),
        call_ensures(empty_polled_messages_body, (partition_id,), polled),
    ensures
        bytes_held(body).len() == 0,
        bytes_held(body) != bytes_held(polled),
{
}

} // verus!
