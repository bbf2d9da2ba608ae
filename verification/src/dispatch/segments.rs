//! Deleting segments: a requested count becomes a replicated truncation.

use crate::dispatch::funnel::Denial;
use crate::dispatch::poll::{segment_delete_reply, PartitionReadReply};
use crate::dispatch::request::{Namespace, RoutedRequestHeader};
use crate::dispatch::session::BoundTransport;
use crate::dispatch::status::Status;
use vstd::prelude::*;

verus! {

/// What a truncation names its partition by.
#[derive(Clone, Copy, Debug, PartialEq, Eq, Structural)]
pub enum TruncateTarget {
    /// The numbers its name resolved to.
    Resolved { stream_id: u32, topic_id: u32, partition_id: u32 },
    /// The identifiers as the client sent them: they resolve to nothing, and the
    /// commit records that as the outcome.
    Raw,
}

/// The truncation that a segment deletion is replicated as. It goes through the
/// metadata group as a request of the client's own, so that a retry of the
/// deletion is recognised.
#[derive(Clone, Copy, Debug, PartialEq, Eq, Structural)]
pub struct Truncate {
    /// The session that the transport is bound to, whatever the request claims.
    pub client: u128,
    pub session: u64,
    /// The number that the client gave the deletion.
    pub request: u64,
    pub target: TruncateTarget,
    pub up_to_offset: u64,
}

/// What a segment deletion does after its name was looked up.
#[derive(Clone, Copy, Debug, PartialEq, Eq, Structural)]
pub enum DeleteSegmentsStep {
    /// Ask the owning shard which offset the requested count reaches.
    AskOwner(Namespace),
    /// Replicate this truncation.
    Commit(Truncate),
    Fail(Status),
}

/// The answer to a segment deletion that was not submitted.
#[derive(Clone, Copy, Debug)]
pub enum DeleteSegmentsRefusal {
    /// A rejection of the truncation, to be sent again.
    Reject { truncate: Truncate, status: Status },
    /// A denial of the request as it came.
    Deny(Denial),
}

/// What became of submitting a truncation.
#[derive(Clone, Copy, Debug, PartialEq, Eq, Structural)]
pub enum DeleteSegmentsEnd {
    /// Forward the reply as it is.
    ForwardReply,
    /// Stay silent: the same request sent again resolves and commits.
    Silent,
}

/// The truncation of a deletion: the client's own request, under the session of
/// its transport.
pub open spec fn truncation(
    template: RoutedRequestHeader,
    bound: BoundTransport,
    target: TruncateTarget,
    up_to_offset: u64,
) -> Truncate {
    Truncate {
        client: bound.client,
        session: bound.session,
        request: template.request,
        target,
        up_to_offset,
    }
}

/// The truncation of a deletion.
fn build_truncate(
    template: &RoutedRequestHeader,
    bound: BoundTransport,
    target: TruncateTarget,
    up_to_offset: u64,
) -> (truncate: Truncate)
    ensures
        truncate == truncation(*template, bound, target, up_to_offset),
{
    Truncate {
        client: bound.client,
        session: bound.session,
        request: template.request,
        target,
        up_to_offset,
    }
}

/// Starts a segment deletion. A body that cannot be decoded is an error; a name
/// that does not resolve is replicated all the same, so that the request has an
/// outcome and a retry of it is recognised.
pub fn start_delete_segments(
    template: &RoutedRequestHeader,
    bound: BoundTransport,
    is_decoded: bool,
    namespace: &Result<Namespace, Status>,
) -> (step: DeleteSegmentsStep)
    ensures
        step == if !is_decoded {
            DeleteSegmentsStep::Fail(Status::InvalidCommand)
        } else {
            match *namespace {
                Ok(namespace) => DeleteSegmentsStep::AskOwner(namespace),
                Err(_) => DeleteSegmentsStep::Commit(
                    truncation(*template, bound, TruncateTarget::Raw, 0),
                ),
            }
        },
{
    if !is_decoded {
        return DeleteSegmentsStep::Fail(Status::InvalidCommand);
    }
    match namespace {
        Ok(namespace) => DeleteSegmentsStep::AskOwner(*namespace),
        Err(_) => DeleteSegmentsStep::Commit(
            build_truncate(template, bound, TruncateTarget::Raw, 0),
        ),
    }
}

/// The offset that the owning shard's answer stands for, or `None` where the
/// partition lags behind the commit and cannot tell yet.
pub open spec fn delete_offset(reply: Option<PartitionReadReply>) -> Option<u64> {
    match reply {
        Some(PartitionReadReply::SegmentDeleteOffset { up_to_offset: Some(offset), .. }) => Some(
            offset,
        ),
        Some(PartitionReadReply::SegmentDeleteOffset { up_to_offset: None, lagging: true }) => None,
        _ => Some(0),
    }
}

/// Resolves a segment deletion from the owning shard's answer. With nothing to
/// delete it truncates up to zero, which deletes nothing and still commits the
/// request; a partition that lags answers nothing yet.
pub fn resolve_delete_segments_truncate(
    template: &RoutedRequestHeader,
    bound: BoundTransport,
    namespace: &Namespace,
    reply: &Option<PartitionReadReply>,
) -> (truncate: Result<Truncate, Status>)
    ensures
        truncate == match delete_offset(*reply) {
            Some(up_to_offset) => Ok(
                truncation(
                    *template,
                    bound,
                    TruncateTarget::Resolved {
                        stream_id: namespace.stream_id as u32,
                        topic_id: namespace.topic_id as u32,
                        partition_id: namespace.partition_id as u32,
                    },
                    up_to_offset,
                ),
            ),
            None => Err(Status::TransientNotAccepted),
        },
{
    let up_to_offset: u64 = match reply {
        Some(PartitionReadReply::SegmentDeleteOffset { up_to_offset: Some(offset), .. }) => *offset,
        Some(PartitionReadReply::SegmentDeleteOffset { up_to_offset: None, lagging: true }) => {
            return Err(Status::TransientNotAccepted);
        },
        _ => 0,
    };
    let target = TruncateTarget::Resolved {
        stream_id: #[verifier::truncate] (namespace.stream_id as u32),
        topic_id: #[verifier::truncate] (namespace.topic_id as u32),
        partition_id: #[verifier::truncate] (namespace.partition_id as u32),
    };
    Ok(build_truncate(template, bound, target, up_to_offset))
}

/// How a segment deletion that was not submitted is answered. A partition that
/// lags gets a rejection of the truncation, with no target, which the client
/// replays; everything else is denied.
pub fn refuse_delete_segments(
    template: &RoutedRequestHeader,
    bound: BoundTransport,
    status: Status,
) -> (refusal: DeleteSegmentsRefusal)
    ensures
        refusal == if status == Status::TransientNotAccepted {
            DeleteSegmentsRefusal::Reject {
                truncate: truncation(
                    *template,
                    bound,
                    TruncateTarget::Resolved { stream_id: 0, topic_id: 0, partition_id: 0 },
                    0,
                ),
                status,
            }
        } else {
            DeleteSegmentsRefusal::Deny(Denial { header: *template, status })
        },
{
    match status {
        Status::TransientNotAccepted => DeleteSegmentsRefusal::Reject {
            truncate: build_truncate(
                template,
                bound,
                TruncateTarget::Resolved { stream_id: 0, topic_id: 0, partition_id: 0 },
                0,
            ),
            status,
        },
        _ => DeleteSegmentsRefusal::Deny(Denial { header: *template, status }),
    }
}

/// What follows the submission of a truncation: its reply goes to the client as it
/// is, and without one there is no frame.
pub fn finish_delete_segments(has_reply: bool) -> (end: DeleteSegmentsEnd)
    ensures
        end == if has_reply {
            DeleteSegmentsEnd::ForwardReply
        } else {
            DeleteSegmentsEnd::Silent
        },
{
    if has_reply {
        DeleteSegmentsEnd::ForwardReply
    } else {
        DeleteSegmentsEnd::Silent
    }
}

/// A truncation is the client's own request under the session of its transport,
/// whatever its header claims and whatever it truncates: two of one deletion are
/// the same request.
pub proof fn law_a_truncation_is_the_clients_own_request(
    template: RoutedRequestHeader,
    retry: RoutedRequestHeader,
    bound: BoundTransport,
    target: TruncateTarget,
    retried_target: TruncateTarget,
    up_to_offset: u64,
    retried_offset: u64,
)
    requires
        template.request == retry.request,
    ensures
        ({
            let first = truncation(template, bound, target, up_to_offset);
            let second = truncation(retry, bound, retried_target, retried_offset);
            &&& first.client == bound.client && first.session == bound.session
            &&& first.request == template.request
            &&& (first.client, first.session, first.request) == (
                second.client,
                second.session,
                second.request,
            )
        }),
{
}

/// A deletion never truncates past what the owning shard said, and truncates
/// nothing where the shard named no offset.
pub proof fn law_deletion_truncates_only_what_was_named(
    reply: Option<PartitionReadReply>,
    up_to_offset: u64,
)
    requires
        delete_offset(reply) == Some(up_to_offset),
        up_to_offset > 0,
    ensures
        reply matches Some(PartitionReadReply::SegmentDeleteOffset { up_to_offset: Some(offset), .. })
            && offset == up_to_offset,
{
}

/// A deletion that resolves is a truncation of the partition that was named, up to
/// the offset that its owner gave, as a request of the client's own: the session of
/// its transport and the number it gave the deletion. Where the owner gave none it
/// truncates nothing, unless the owner lags, and then the client is to try again.
pub proof fn law_a_deletion_truncates_up_to_its_owners_offset(
    template: RoutedRequestHeader,
    bound: BoundTransport,
    namespace: Namespace,
    reply: Option<PartitionReadReply>,
    truncate: Result<Truncate, Status>,
)
    requires
        namespace.stream_id <= u32::MAX,
        namespace.topic_id <= u32::MAX,
        namespace.partition_id <= u32::MAX,
        call_ensures(
            resolve_delete_segments_truncate,
            (&template, bound, &namespace, &reply),
            truncate,
        ),
    ensures
        truncate is Err <==> reply == Some(
            PartitionReadReply::SegmentDeleteOffset { up_to_offset: None, lagging: true },
        ),
        truncate matches Err(status) ==> status == Status::TransientNotAccepted,
        truncate matches Ok(truncated) ==> {
            &&& truncated.client == bound.client
            &&& truncated.session == bound.session
            &&& truncated.request == template.request
            &&& truncated.target matches TruncateTarget::Resolved { stream_id, topic_id, partition_id }
                && stream_id == namespace.stream_id && topic_id == namespace.topic_id
                && partition_id == namespace.partition_id
            &&& match reply {
                Some(PartitionReadReply::SegmentDeleteOffset { up_to_offset: Some(offset), .. }) => {
                    truncated.up_to_offset == offset
                },
                _ => truncated.up_to_offset == 0,
            }
        },
{
}

/// What the owner found its segments to end at is what the deletion truncates up to.
pub proof fn law_the_owners_offset_reaches_the_truncation(
    template: RoutedRequestHeader,
    bound: BoundTransport,
    namespace: Namespace,
    found: Option<(Option<u64>, bool)>,
    reply: PartitionReadReply,
    truncate: Result<Truncate, Status>,
)
    requires
        call_ensures(segment_delete_reply, (found,), reply),
        call_ensures(
            resolve_delete_segments_truncate,
            (&template, bound, &namespace, &Some(reply)),
            truncate,
        ),
    ensures
        match found {
            Some((Some(offset), _)) => truncate matches Ok(truncated) && truncated.up_to_offset
                == offset,
            Some((None, true)) => truncate is Err,
            Some((None, false)) => truncate matches Ok(truncated) && truncated.up_to_offset == 0,
            None => truncate matches Ok(truncated) && truncated.up_to_offset == 0,
        },
{
}

/// A deletion whose body cannot be decoded fails as an invalid command; one whose name
/// resolves asks the owner of that partition; and one whose name does not is
/// replicated against what the client sent, so that the request has an outcome.
pub proof fn law_a_deletion_asks_the_owner_of_its_partition(
    template: RoutedRequestHeader,
    bound: BoundTransport,
    is_decoded: bool,
    namespace: Result<Namespace, Status>,
    step: DeleteSegmentsStep,
)
    requires
        call_ensures(
            start_delete_segments,
            (&template, bound, is_decoded, &namespace),
            step,
        ),
    ensures
        step is Fail <==> !is_decoded,
        step matches DeleteSegmentsStep::Fail(status) ==> status == Status::InvalidCommand,
        is_decoded && namespace is Ok ==> step == DeleteSegmentsStep::AskOwner(namespace->Ok_0),
        is_decoded && namespace is Err ==> (step matches DeleteSegmentsStep::Commit(truncated)
            && truncated.target == TruncateTarget::Raw && truncated.up_to_offset == 0
            && truncated.client == bound.client && truncated.session == bound.session
            && truncated.request == template.request),
{
}

/// A deletion that was not submitted is answered as what failed. A lagging partition
/// gets a rejection that names no partition, under the request's own number and
/// session; everything else is denied with the header it came with.
pub proof fn law_a_refused_deletion_is_answered(
    template: RoutedRequestHeader,
    bound: BoundTransport,
    status: Status,
    refusal: DeleteSegmentsRefusal,
    has_reply: bool,
    end: DeleteSegmentsEnd,
)
    requires
        call_ensures(refuse_delete_segments, (&template, bound, status), refusal),
        call_ensures(finish_delete_segments, (has_reply,), end),
    ensures
        refusal is Reject <==> status == Status::TransientNotAccepted,
        refusal matches DeleteSegmentsRefusal::Deny(denial) ==> denial.header == template
            && denial.status == status,
        refusal matches DeleteSegmentsRefusal::Reject { truncate, status: told } ==> told == status
            && truncate.client == bound.client && truncate.session == bound.session
            && truncate.request == template.request && truncate.up_to_offset == 0
            && truncate.target == (TruncateTarget::Resolved {
            stream_id: 0,
            topic_id: 0,
            partition_id: 0,
        }),
        end == DeleteSegmentsEnd::ForwardReply <==> has_reply,
{
}

} // verus!
