//! The answers a refused request can get.

use vstd::prelude::*;

verus! {

/// The status of a denied request.
///
/// A status that has a variant of its own is only ever written as that variant:
/// [`Status::Code`] never holds the wire code of a named one. Statuses are compared
/// on that footing, and whoever turns a wire code into a status keeps to it.
#[derive(Clone, Copy, Debug, PartialEq, Eq, Structural)]
pub enum Status {
    /// The request entered no pipeline: it may be sent again, to any node.
    TransientNotAccepted,
    /// The outcome is unknown: it may be sent again on this connection only.
    TransientNotCommitted,
    Unauthenticated,
    InvalidCommand,
    InvalidIdentifier,
    InvalidConfiguration,
    ResourceNotFound,
    /// The polled partition is no longer assigned to this group member.
    ConsumerGroupPartitionNotOwned { client_id: u32, partition_id: u32 },
    /// The partition keeps as many consumer offsets as it may.
    TooManyConsumerOffsets,
    /// The numeric code of an error that another layer reported.
    Code(u32),
}

/// Why a session is ended.
#[derive(Clone, Copy, Debug, PartialEq, Eq, Structural)]
pub enum EvictionReason {
    NoSession,
    MalformedLogin,
    IncompatibleProtocol,
    InvalidCredentials,
    InvalidToken,
    UserInactive,
    SessionError,
    StaleClient,
}

} // verus!
