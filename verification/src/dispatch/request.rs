//! The request funnel: how a client request is classified, and what each class
//! gets.

use vstd::prelude::*;

verus! {

/// The operation a request header names.
#[derive(Clone, Copy, Debug, PartialEq, Eq, Structural)]
pub enum Operation {
    /// A read that no log replicates; its command code stands in the header.
    NonReplicated,
    Register,
    Logout,
    /// Deletes segments: neither a partition nor a metadata operation.
    DeleteSegments,
    SendMessages,
    StoreConsumerOffset,
    DeleteConsumerOffset,
    /// Any other operation of the partition plane.
    OtherPartition,
    CreateStream,
    CreateTopic,
    /// Any other operation of the metadata plane.
    OtherMetadata,
}

/// The name of a partition.
#[derive(Clone, Copy, Debug, PartialEq, Eq, Structural)]
pub struct Namespace {
    pub stream_id: usize,
    pub topic_id: usize,
    pub partition_id: usize,
}

/// The consensus group a routed request is meant for.
#[derive(Clone, Copy, Debug, PartialEq, Eq, Structural)]
pub enum Group {
    /// Not resolved yet: the client wire carries no group.
    Unset,
    Metadata,
    Partition(Namespace),
}

/// What the funnel reads and stamps of a request header.
#[derive(Clone, Copy, Debug)]
pub struct RoutedRequestHeader {
    pub operation: Operation,
    pub client: u128,
    pub session: u64,
    pub request: u64,
    pub user_id: u32,
    pub group: Group,
    /// The first four reserved bytes: the command code of a non-replicated request.
    pub reserved: [u8; 4],
}

/// The non-replicated command codes that the funnel itself knows.
#[derive(Clone, Copy, Debug, PartialEq, Eq, Structural)]
pub struct CommandCodes {
    pub ping: u32,
    pub login_user: u32,
    pub login_with_personal_access_token: u32,
}

/// Where the funnel sends a request.
#[derive(Clone, Copy, Debug, PartialEq, Eq, Structural)]
pub enum RequestClass {
    /// A login by a code that is no longer served.
    LegacyLogin,
    /// A read other than a ping on a transport without a session.
    UnauthenticatedRead,
    /// A read for the reads router.
    NonReplicatedRead,
    /// The register handshake.
    LoginRegister,
    Logout,
    /// A replicated operation on a transport without a session.
    UnboundReplicated,
    DeleteSegments,
    Partition,
    /// Everything else: replicated metadata.
    ReplicatedMetadata,
}

impl Operation {
    /// Whether the operation belongs to the partition plane.
    pub open spec fn spec_is_partition(self) -> bool {
        ||| self == Operation::SendMessages
        ||| self == Operation::StoreConsumerOffset
        ||| self == Operation::DeleteConsumerOffset
        ||| self == Operation::OtherPartition
    }

    /// Whether the operation belongs to the partition plane.
    pub fn is_partition(&self) -> (is_partition: bool)
        ensures
            is_partition == self.spec_is_partition(),
    {
        matches!(
            self,
            Operation::SendMessages | Operation::StoreConsumerOffset
            | Operation::DeleteConsumerOffset | Operation::OtherPartition
        )
    }
}

impl RoutedRequestHeader {
    /// The command code: the first four reserved bytes, least significant first.
    pub open spec fn code(self) -> int {
        self.reserved@[0] + 0x100 * self.reserved@[1] + 0x1_0000 * self.reserved@[2] + 0x100_0000
            * self.reserved@[3]
    }

    /// Whether this is the handshake that opens a session.
    pub open spec fn is_handshake(self) -> bool {
        self.operation == Operation::Register && self.session == 0 && self.request == 0
    }
}

impl CommandCodes {
    /// Whether a code is one of the logins that are no longer served.
    pub open spec fn is_legacy_login(self, code: int) -> bool {
        code == self.login_user || code == self.login_with_personal_access_token
    }
}

/// The class of a request, given whether its transport has a session. The order
/// of the cases is part of what it says: a legacy login is recognised before the
/// session is asked for, the session gate comes before the planes are told apart,
/// and a segment deletion before either plane.
pub open spec fn request_class(
    header: RoutedRequestHeader,
    bound: bool,
    codes: CommandCodes,
) -> RequestClass {
    if header.operation == Operation::NonReplicated {
        if codes.is_legacy_login(header.code()) {
            RequestClass::LegacyLogin
        } else if !bound && header.code() != codes.ping {
            RequestClass::UnauthenticatedRead
        } else {
            RequestClass::NonReplicatedRead
        }
    } else if header.is_handshake() {
        RequestClass::LoginRegister
    } else if header.operation == Operation::Logout {
        RequestClass::Logout
    } else if !bound {
        RequestClass::UnboundReplicated
    } else if header.operation == Operation::DeleteSegments {
        RequestClass::DeleteSegments
    } else if header.operation.spec_is_partition() {
        RequestClass::Partition
    } else {
        RequestClass::ReplicatedMetadata
    }
}

/// The command code that a non-replicated header carries.
pub fn non_replicated_code(header: &RoutedRequestHeader) -> (code: u32)
    ensures
        code == header.code(),
{
    header.reserved[0] as u32 + 0x100 * header.reserved[1] as u32 + 0x1_0000 * header.reserved[2]
        as u32 + 0x100_0000 * header.reserved[3] as u32
}

/// The class of a request, given whether its transport has a session.
pub fn classify(header: &RoutedRequestHeader, bound: bool, codes: &CommandCodes) -> (class:
    RequestClass)
    ensures
        class == request_class(*header, bound, *codes),
{
    if header.operation == Operation::NonReplicated {
        let code: u32 = non_replicated_code(header);
        if code == codes.login_user || code == codes.login_with_personal_access_token {
            return RequestClass::LegacyLogin;
        }
        if code != codes.ping && !bound {
            return RequestClass::UnauthenticatedRead;
        }
        return RequestClass::NonReplicatedRead;
    }
    if header.operation == Operation::Register && header.session == 0 && header.request == 0 {
        return RequestClass::LoginRegister;
    }
    if header.operation == Operation::Logout {
        return RequestClass::Logout;
    }
    if !bound {
        return RequestClass::UnboundReplicated;
    }
    if header.operation == Operation::DeleteSegments {
        return RequestClass::DeleteSegments;
    }
    if header.operation.is_partition() {
        return RequestClass::Partition;
    }
    RequestClass::ReplicatedMetadata
}

/// What a transport without a session can reach: the handshake, a logout, a ping,
/// and refusals. No partition, no metadata and no other read.
pub proof fn law_unbound_transport_reaches_nothing(
    header: RoutedRequestHeader,
    codes: CommandCodes,
)
    ensures
        ({
            let class = request_class(header, false, codes);
            ||| class == RequestClass::LoginRegister && header.is_handshake()
            ||| class == RequestClass::Logout && header.operation == Operation::Logout
            ||| class == RequestClass::NonReplicatedRead && header.operation
                == Operation::NonReplicated && header.code() == codes.ping
            ||| class == RequestClass::LegacyLogin
            ||| class == RequestClass::UnauthenticatedRead
            ||| class == RequestClass::UnboundReplicated
        }),
{
}

/// A bound transport is never turned away for want of a session, and its session
/// changes nothing about a handshake, a logout or a legacy login.
pub proof fn law_session_gate_only_refuses(header: RoutedRequestHeader, codes: CommandCodes)
    ensures
        ({
            let bound = request_class(header, true, codes);
            let unbound = request_class(header, false, codes);
            &&& bound != RequestClass::UnauthenticatedRead
            &&& bound != RequestClass::UnboundReplicated
            &&& unbound != RequestClass::UnauthenticatedRead && unbound
                != RequestClass::UnboundReplicated ==> unbound == bound
        }),
{
}

/// The command code is the number whose bytes, least significant first, are the
/// reserved ones.
pub proof fn law_the_code_is_the_reserved_bytes(header: RoutedRequestHeader, code: u32)
    requires
        call_ensures(non_replicated_code, (&header,), code),
    ensures
        code % 0x100 == header.reserved@[0],
        code / 0x100 % 0x100 == header.reserved@[1],
        code / 0x1_0000 % 0x100 == header.reserved@[2],
        code / 0x100_0000 == header.reserved@[3],
{
}

/// The partition plane has sending messages, storing and deleting a consumer offset,
/// and its other operations; nothing else is on it, deleting segments included.
pub proof fn law_the_partition_plane_is_listed(operation: Operation, is_partition: bool)
    requires
        call_ensures(Operation::is_partition, (&operation,), is_partition),
    ensures
        match operation {
            Operation::SendMessages => is_partition,
            Operation::StoreConsumerOffset => is_partition,
            Operation::DeleteConsumerOffset => is_partition,
            Operation::OtherPartition => is_partition,
            Operation::NonReplicated => !is_partition,
            Operation::Register => !is_partition,
            Operation::Logout => !is_partition,
            Operation::DeleteSegments => !is_partition,
            Operation::CreateStream => !is_partition,
            Operation::CreateTopic => !is_partition,
            Operation::OtherMetadata => !is_partition,
        },
{
}

/// On a transport with a session the class follows the operation. Every operation of
/// the partition plane goes to its partition, the deletion of segments has a class of
/// its own, and only metadata operations, and a register that opens no session, are
/// replicated as metadata. A register opens a session exactly where its header names
/// neither a session nor a request.
pub proof fn law_the_class_follows_the_operation(
    header: RoutedRequestHeader,
    codes: CommandCodes,
    class: RequestClass,
)
    requires
        call_ensures(classify, (&header, true, &codes), class),
    ensures
        match header.operation {
            Operation::SendMessages => class == RequestClass::Partition,
            Operation::StoreConsumerOffset => class == RequestClass::Partition,
            Operation::DeleteConsumerOffset => class == RequestClass::Partition,
            Operation::OtherPartition => class == RequestClass::Partition,
            Operation::DeleteSegments => class == RequestClass::DeleteSegments,
            Operation::Logout => class == RequestClass::Logout,
            Operation::CreateStream => class == RequestClass::ReplicatedMetadata,
            Operation::CreateTopic => class == RequestClass::ReplicatedMetadata,
            Operation::OtherMetadata => class == RequestClass::ReplicatedMetadata,
            Operation::Register => if header.session == 0 && header.request == 0 {
                class == RequestClass::LoginRegister
            } else {
                class == RequestClass::ReplicatedMetadata
            },
            Operation::NonReplicated => class == RequestClass::NonReplicatedRead || class
                == RequestClass::LegacyLogin,
        },
{
}

/// On a transport without a session only three things are done: a register that opens
/// one, a logout, and a ping. Every other operation of either plane is turned away
/// for want of a session.
pub proof fn law_without_a_session_the_planes_are_closed(
    header: RoutedRequestHeader,
    codes: CommandCodes,
    class: RequestClass,
)
    requires
        call_ensures(classify, (&header, false, &codes), class),
    ensures
        match header.operation {
            Operation::Logout => class == RequestClass::Logout,
            Operation::Register => if header.session == 0 && header.request == 0 {
                class == RequestClass::LoginRegister
            } else {
                class == RequestClass::UnboundReplicated
            },
            Operation::NonReplicated => class == RequestClass::NonReplicatedRead || class
                == RequestClass::UnauthenticatedRead || class == RequestClass::LegacyLogin,
            _ => class == RequestClass::UnboundReplicated,
        },
{
}

/// A read is classed by its command code. The two logins that are no longer served
/// are recognised with and without a session; of the other codes a transport without
/// a session may only ping, and one with a session may send any.
pub proof fn law_reads_are_classed_by_their_code(
    header: RoutedRequestHeader,
    bound: bool,
    codes: CommandCodes,
    code: u32,
    class: RequestClass,
)
    requires
        header.operation == Operation::NonReplicated,
        call_ensures(non_replicated_code, (&header,), code),
        call_ensures(classify, (&header, bound, &codes), class),
    ensures
        class == RequestClass::LegacyLogin <==> code == codes.login_user || code
            == codes.login_with_personal_access_token,
        class == RequestClass::UnauthenticatedRead <==> !bound && code != codes.ping && code
            != codes.login_user && code != codes.login_with_personal_access_token,
        class == RequestClass::LegacyLogin || class == RequestClass::UnauthenticatedRead || class
            == RequestClass::NonReplicatedRead,
{
}

} // verus!
