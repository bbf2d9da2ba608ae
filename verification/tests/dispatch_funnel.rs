use iggy_server::dispatch::funnel::{
    deny_overflowing_client_request, AdmittedRequest, ConnectionContext, OverflowAnswer, Proposed,
    RewriteStage, Route, StampedRequest, UncheckedRequest,
};
use iggy_server::dispatch::request::{
    classify, non_replicated_code, CommandCodes, Group, Operation, RequestClass,
    RoutedRequestHeader,
};
use iggy_server::dispatch::session::BoundTransport;
use iggy_server::dispatch::status::{EvictionReason, Status};

const PING_CODE: u32 = 1;
const GET_CLUSTER_METADATA_CODE: u32 = 12;
const LOGIN_USER_CODE: u32 = 38;
const LOGIN_WITH_PERSONAL_ACCESS_TOKEN_CODE: u32 = 44;
const POLL_MESSAGES_CODE: u32 = 100;
const GET_CONSUMER_OFFSET_CODE: u32 = 120;

const CODES: CommandCodes = CommandCodes {
    ping: PING_CODE,
    login_user: LOGIN_USER_CODE,
    login_with_personal_access_token: LOGIN_WITH_PERSONAL_ACCESS_TOKEN_CODE,
};

const UNBOUND: ConnectionContext = ConnectionContext {
    bound: None,
    user_id: None,
    metadata_watermark: 0,
};

const BOUND: ConnectionContext = ConnectionContext {
    bound: Some(BoundTransport {
        client: 0xCAFE,
        session: 41,
    }),
    user_id: Some(9),
    metadata_watermark: 33,
};

fn routed(operation: Operation, session: u64, request: u64) -> RoutedRequestHeader {
    RoutedRequestHeader {
        operation,
        client: 7,
        session,
        request,
        user_id: 0,
        group: Group::Unset,
        reserved: [0; 4],
    }
}

fn nr(code: u32) -> RoutedRequestHeader {
    RoutedRequestHeader {
        reserved: code.to_le_bytes(),
        ..routed(Operation::NonReplicated, 0, 0)
    }
}

fn admitted(header: RoutedRequestHeader) -> AdmittedRequest {
    UncheckedRequest::open(Some(header))
        .expect("a readable header")
        .verified(Ok(()))
        .unwrap_or_else(|_| panic!("a body that matches its checksum"))
}

fn stamped(header: RoutedRequestHeader) -> StampedRequest {
    match admitted(header).route(3, &BOUND, &CODES) {
        Route::Metadata(request) => request,
        _ => panic!("a metadata request"),
    }
}

#[test]
fn classify_pins_probe_order() {
    let table = [
        (
            "legacy login beats the session gate (unbound)",
            nr(LOGIN_USER_CODE),
            false,
            RequestClass::LegacyLogin,
        ),
        (
            "legacy login beats the bound reads route",
            nr(LOGIN_USER_CODE),
            true,
            RequestClass::LegacyLogin,
        ),
        (
            "legacy PAT login beats the session gate (unbound)",
            nr(LOGIN_WITH_PERSONAL_ACCESS_TOKEN_CODE),
            false,
            RequestClass::LegacyLogin,
        ),
        (
            "legacy PAT login beats the bound reads route",
            nr(LOGIN_WITH_PERSONAL_ACCESS_TOKEN_CODE),
            true,
            RequestClass::LegacyLogin,
        ),
        (
            "ping is the only pre-auth code",
            nr(PING_CODE),
            false,
            RequestClass::NonReplicatedRead,
        ),
        (
            "cluster metadata is not pre-auth",
            nr(GET_CLUSTER_METADATA_CODE),
            false,
            RequestClass::UnauthenticatedRead,
        ),
        (
            "poll-messages is a non-replicated code, not a partition op",
            nr(POLL_MESSAGES_CODE),
            true,
            RequestClass::NonReplicatedRead,
        ),
        (
            "consumer-offset read is a non-replicated code, not a partition op",
            nr(GET_CONSUMER_OFFSET_CODE),
            true,
            RequestClass::NonReplicatedRead,
        ),
        (
            "the register handshake",
            routed(Operation::Register, 0, 0),
            false,
            RequestClass::LoginRegister,
        ),
        (
            "register with a session falls to the default",
            routed(Operation::Register, 1, 0),
            true,
            RequestClass::ReplicatedMetadata,
        ),
        (
            "register with a request number falls to the default",
            routed(Operation::Register, 0, 1),
            true,
            RequestClass::ReplicatedMetadata,
        ),
        (
            "logout, bound",
            routed(Operation::Logout, 1, 1),
            true,
            RequestClass::Logout,
        ),
        (
            "logout beats the session gate",
            routed(Operation::Logout, 1, 1),
            false,
            RequestClass::Logout,
        ),
        (
            "unbound metadata op",
            routed(Operation::CreateStream, 1, 1),
            false,
            RequestClass::UnboundReplicated,
        ),
        (
            "the session gate beats the delete-segments probe",
            routed(Operation::DeleteSegments, 1, 1),
            false,
            RequestClass::UnboundReplicated,
        ),
        (
            "the session gate beats the partition probe",
            routed(Operation::SendMessages, 1, 1),
            false,
            RequestClass::UnboundReplicated,
        ),
        (
            "delete-segments is neither partition nor metadata",
            routed(Operation::DeleteSegments, 1, 1),
            true,
            RequestClass::DeleteSegments,
        ),
        (
            "send-messages is partition-plane",
            routed(Operation::SendMessages, 1, 1),
            true,
            RequestClass::Partition,
        ),
        (
            "store-consumer-offset is partition-plane",
            routed(Operation::StoreConsumerOffset, 1, 1),
            true,
            RequestClass::Partition,
        ),
        (
            "create-topic is replicated metadata",
            routed(Operation::CreateTopic, 1, 1),
            true,
            RequestClass::ReplicatedMetadata,
        ),
    ];
    for (label, header, bound, expected) in table {
        assert_eq!(classify(&header, bound, &CODES), expected, "{label}");
    }
}

#[test]
fn command_codes_are_little_endian() {
    assert_eq!(non_replicated_code(&nr(0x0403_0201)), 0x0403_0201);
    assert_eq!(nr(0x0403_0201).reserved, [1, 2, 3, 4]);
    assert_eq!(non_replicated_code(&nr(u32::MAX)), u32::MAX);
}

#[test]
fn pre_auth_cluster_metadata_denied_on_every_roster() {
    const TRANSPORT: u128 = 91;
    let header = RoutedRequestHeader {
        client: TRANSPORT,
        ..nr(GET_CLUSTER_METADATA_CODE)
    };
    match admitted(header).route(TRANSPORT, &UNBOUND, &CODES) {
        Route::DenyUnbound(denial) => {
            assert_eq!(denial.status, Status::Unauthenticated);
            assert_eq!(denial.header.client, TRANSPORT);
        }
        _ => panic!("an unbound cluster-metadata read must be denied, not evicted"),
    }
}

#[test]
fn legacy_login_codes_evicted_before_session_gate() {
    const TRANSPORT: u128 = 94;
    for code in [LOGIN_USER_CODE, LOGIN_WITH_PERSONAL_ACCESS_TOKEN_CODE] {
        for context in [&UNBOUND, &BOUND] {
            match admitted(nr(code)).route(TRANSPORT, context, &CODES) {
                Route::Evict { client, reason } => {
                    assert_eq!(client, 7, "the id that the login claims");
                    assert_eq!(reason, EvictionReason::MalformedLogin);
                }
                _ => panic!("legacy code {code} must be evicted, not denied"),
            }
        }
    }
}

#[test]
fn unbound_replicated_request_gets_no_session_eviction() {
    const TRANSPORT: u128 = 95;
    match admitted(routed(Operation::CreateStream, 1, 1)).route(TRANSPORT, &UNBOUND, &CODES) {
        Route::Evict { client, reason } => {
            assert_eq!(client, TRANSPORT);
            assert_eq!(reason, EvictionReason::NoSession);
        }
        _ => panic!("unbound replicated op must be evicted, not denied or dropped"),
    }
}

#[test]
fn pre_auth_ping_allowed() {
    const TRANSPORT: u128 = 96;
    match admitted(nr(PING_CODE)).route(TRANSPORT, &UNBOUND, &CODES) {
        Route::Read { user_id, .. } => assert_eq!(user_id, None),
        _ => panic!("pre-auth ping must be read, not evicted"),
    }
}

#[test]
fn checksum_mismatch_denies_before_everything() {
    let invalid_format = Status::Code(4);
    let request = UncheckedRequest::open(Some(routed(Operation::CreateStream, 1, 1)))
        .expect("a readable header");
    match request.verified(Err(invalid_format)) {
        Err(denial) => {
            assert_eq!(denial.status, invalid_format);
            assert_eq!(denial.header.request, 1);
        }
        Ok(_) => panic!("a bad stamp must be denied before the session gate"),
    }
}

#[test]
fn unreadable_header_is_dropped() {
    assert!(UncheckedRequest::open(None).is_none());
}

#[test]
fn routes_of_a_bound_transport() {
    let bound = BOUND.bound.expect("a bound context");
    assert!(matches!(
        admitted(routed(Operation::Register, 0, 0)).route(3, &BOUND, &CODES),
        Route::LoginRegister
    ));
    assert!(matches!(
        admitted(routed(Operation::Logout, 1, 1)).route(3, &BOUND, &CODES),
        Route::Logout
    ));
    match admitted(routed(Operation::DeleteSegments, 1, 1)).route(3, &BOUND, &CODES) {
        Route::DeleteSegments { bound: session } => assert_eq!(session, bound),
        _ => panic!("a segment deletion"),
    }
    match admitted(routed(Operation::SendMessages, 1, 1)).route(3, &BOUND, &CODES) {
        Route::Partition {
            bound: session,
            user_id,
        } => {
            assert_eq!(session, bound);
            assert_eq!(user_id, Some(9));
        }
        _ => panic!("a partition write"),
    }
    match admitted(nr(POLL_MESSAGES_CODE)).route(3, &BOUND, &CODES) {
        Route::Read {
            user_id,
            metadata_watermark,
        } => assert_eq!((user_id, metadata_watermark), (Some(9), 33)),
        _ => panic!("a read"),
    }
}

#[test]
fn metadata_requests_are_stamped_with_the_bound_identity() {
    let request = stamped(routed(Operation::CreateTopic, 5, 6));
    let header = request.header();
    assert_eq!(header.group, Group::Metadata);
    assert_eq!(header.client, 0xCAFE);
    assert_eq!(header.session, 41);
    assert_eq!(header.request, 6);
    assert_eq!(header.operation, Operation::CreateTopic);
}

#[test]
fn rewrite_denials_echo_what_the_client_sent() {
    let denied = stamped(routed(Operation::CreateTopic, 5, 6))
        .chained(Err(Status::InvalidCommand))
        .err()
        .expect("a refused rewrite");
    assert_eq!(denied.stage, RewriteStage::Chain);
    assert_eq!(denied.denial.status, Status::InvalidCommand);
    assert_eq!(denied.denial.header.client, 7);
    assert_eq!(denied.denial.header.session, 5);
    assert_eq!(denied.denial.header.group, Group::Unset);

    let denied = stamped(routed(Operation::OtherMetadata, 5, 6))
        .chained(Ok(()))
        .unwrap_or_else(|_| panic!("a chain that passes"))
        .enriched(Err(Status::InvalidCommand))
        .err()
        .expect("a refused enrichment");
    assert_eq!(denied.stage, RewriteStage::ConsumerGroup);
    assert_eq!(denied.denial.header.client, 7);
}

#[test]
fn committed_reply_records_its_watermark_before_it_is_rendered() {
    let proposable = || {
        stamped(routed(Operation::CreateTopic, 5, 6))
            .chained(Ok(()))
            .unwrap_or_else(|_| panic!("a chain that passes"))
            .enriched(Ok(()))
            .unwrap_or_else(|_| panic!("an enrichment that passes"))
    };
    assert!(matches!(proposable().proposed(None), Proposed::Silent));
    match proposable().proposed(Some(Some(77))) {
        Proposed::Committed { watermark, request } => {
            assert_eq!(watermark, Some(77));
            assert!(request.rendered(Ok(())).is_ok());
        }
        Proposed::Silent => panic!("a committed reply"),
    }
    match proposable().proposed(Some(None)) {
        Proposed::Committed { watermark, request } => {
            assert_eq!(watermark, None);
            let denial = request
                .rendered(Err(Status::Code(3)))
                .expect_err("a reply that could not be rendered");
            assert_eq!(denial.status, Status::Code(3));
            assert_eq!(denial.header.client, 7);
        }
        Proposed::Silent => panic!("a committed reply"),
    }
}

#[test]
fn overflowing_requests_are_answered_where_they_can_be() {
    let header = routed(Operation::SendMessages, 1, 2);
    assert!(matches!(
        deny_overflowing_client_request(false, Some(header)),
        OverflowAnswer::DropUnbuilt
    ));
    assert!(matches!(
        deny_overflowing_client_request(true, None),
        OverflowAnswer::CountAndDrop
    ));
    match deny_overflowing_client_request(true, Some(header)) {
        OverflowAnswer::CountAndDeny(denial) => {
            assert_eq!(denial.status, Status::TransientNotAccepted);
            assert_eq!(denial.header.request, 2);
        }
        _ => panic!("a denial"),
    }
}
