use iggy_server::dispatch::forward::{
    answer_forwarded, build_forward_logout_message, build_forward_logout_result_message,
    build_forward_register_message, build_forward_register_result_message,
    forward_logout_outcome, forward_logout_result, forward_register_outcome,
    forward_register_result, owner_answer, owns_metadata, settle_logout_forward,
    settle_register_forward, submit_route, transient_logout_code, BoundSession, ConsensusFacts,
    ForwardEvent, ForwardLogoutOutcome, ForwardRegisterOutcome, MetadataSubmitError,
    ReplicaPosition, SubmitRoute, FORWARD_SUBMIT_TIMEOUT_SECS,
};
use iggy_server::dispatch::login::{
    check_password, complete_login_register, eviction_reason_for, gate_login,
    judge_password_attempt, judge_token_attempt, registered_session, start_register,
    surface_login_failure, transient_login_code, verify_login_credentials, verify_pat_credentials,
    verify_pat_credentials_with_expiry, warm_dummy_password_hash, CredentialBounds,
    DummyPasswordHash, LoginDecision, LoginFailureFrame, LoginRegisterError, LoginReply,
    LoginStage, PasswordCheck, RegisterStart, SessionError, TokenRecord, UserRecord,
    VersionPrefix,
};
use iggy_server::dispatch::session::{
    evict_stale_client, evicts_stale_connection, finish_logout, heartbeat_max_age,
    run_heartbeat_verifier, settle_lost_connection, start_logout, BoundTransport, HeartbeatStep,
    LogoutFrame, LogoutStart, LostConnectionStep,
};
use iggy_server::dispatch::status::{EvictionReason, Status};
use std::time::Duration;

const ALL_ERRORS: [MetadataSubmitError; 8] = [
    MetadataSubmitError::NotPrimary,
    MetadataSubmitError::NotCaughtUp,
    MetadataSubmitError::PipelineFull,
    MetadataSubmitError::InProgress,
    MetadataSubmitError::Canceled,
    MetadataSubmitError::PrimaryUnreachable,
    MetadataSubmitError::ForwardTimedOut,
    MetadataSubmitError::ClientIdOwnedByAnotherUser,
];

const BACKUP: ReplicaPosition = ReplicaPosition {
    cluster: 1,
    view: 0,
    replica: 1,
};

#[test]
fn terminal_vs_transient() {
    assert!(LoginRegisterError::InvalidCredentials.is_terminal());
    assert!(LoginRegisterError::InvalidToken.is_terminal());
    assert!(LoginRegisterError::UserInactive.is_terminal());
    assert!(LoginRegisterError::Session(SessionError::ConnectionNotFound(0)).is_terminal());
    assert!(!LoginRegisterError::Transient(MetadataSubmitError::PipelineFull).is_terminal());
    assert!(
        LoginRegisterError::Transient(MetadataSubmitError::ClientIdOwnedByAnotherUser)
            .is_terminal()
    );
}

#[test]
fn terminal_login_errors_map_to_typed_sdk_errors() {
    let cases = [
        (
            eviction_reason_for(&LoginRegisterError::InvalidCredentials),
            EvictionReason::InvalidCredentials,
        ),
        (
            eviction_reason_for(&LoginRegisterError::InvalidToken),
            EvictionReason::InvalidToken,
        ),
        (
            eviction_reason_for(&LoginRegisterError::UserInactive),
            EvictionReason::UserInactive,
        ),
    ];
    for (reason, expected) in cases {
        assert_eq!(
            reason, expected,
            "reason {reason:?} must surface as {expected:?}"
        );
    }
}

#[test]
fn terminal_login_failures_are_evicted() {
    let cases = [
        (
            LoginRegisterError::InvalidCredentials,
            EvictionReason::InvalidCredentials,
        ),
        (LoginRegisterError::InvalidToken, EvictionReason::InvalidToken),
        (LoginRegisterError::UserInactive, EvictionReason::UserInactive),
        (
            LoginRegisterError::Session(SessionError::InvalidTransition),
            EvictionReason::SessionError,
        ),
        (
            LoginRegisterError::Transient(MetadataSubmitError::ClientIdOwnedByAnotherUser),
            EvictionReason::SessionError,
        ),
    ];
    for (error, expected) in cases {
        assert_eq!(eviction_reason_for(&error), expected, "{error:?}");
        assert_eq!(
            surface_login_failure(5, &error),
            LoginFailureFrame::Evict {
                client: 5,
                reason: expected
            }
        );
    }
}

#[test]
fn unknown_register_outcomes_pin_the_client_identity() {
    for error in [
        MetadataSubmitError::ForwardTimedOut,
        MetadataSubmitError::InProgress,
        MetadataSubmitError::Canceled,
    ] {
        assert_eq!(
            transient_login_code(&LoginRegisterError::Transient(error)),
            Status::TransientNotCommitted,
        );
    }
    for error in [
        MetadataSubmitError::NotPrimary,
        MetadataSubmitError::NotCaughtUp,
        MetadataSubmitError::PipelineFull,
        MetadataSubmitError::PrimaryUnreachable,
    ] {
        assert_eq!(
            transient_login_code(&LoginRegisterError::Transient(error)),
            Status::TransientNotAccepted,
        );
    }
}

#[test]
fn unknown_logout_outcomes_pin_the_session() {
    for error in [
        MetadataSubmitError::ForwardTimedOut,
        MetadataSubmitError::InProgress,
        MetadataSubmitError::Canceled,
    ] {
        assert_eq!(transient_logout_code(&error), Status::TransientNotCommitted);
    }
    for error in [
        MetadataSubmitError::NotPrimary,
        MetadataSubmitError::PipelineFull,
        MetadataSubmitError::PrimaryUnreachable,
    ] {
        assert_eq!(transient_logout_code(&error), Status::TransientNotAccepted);
    }
}

#[test]
fn transient_login_reply_marks_a_timed_out_forward_not_committed() {
    for (submit_error, expected) in [
        (
            MetadataSubmitError::ForwardTimedOut,
            Status::TransientNotCommitted,
        ),
        (MetadataSubmitError::NotPrimary, Status::TransientNotAccepted),
    ] {
        let error = LoginRegisterError::Transient(submit_error);
        assert_eq!(
            surface_login_failure(0xCAFE, &error),
            LoginFailureFrame::Reject(expected)
        );
    }
}

#[test]
fn backup_forwards_register_and_completes_on_the_primary_verdict() {
    const CLIENT: u128 = 0xCAFE;
    const USER: u32 = 7;
    const EPOCH: u64 = 41;
    const WATERMARK: u64 = 9;
    const NONCE: u128 = 3;

    let route = submit_route(&Some(ConsensusFacts {
        position: BACKUP,
        primary: 0,
        is_normal: true,
    }));
    assert_eq!(
        route,
        SubmitRoute::Forward { target: 0 },
        "forward must address the view's primary"
    );
    let forward = build_forward_register_message(BACKUP, CLIENT, NONCE, USER);
    assert_eq!(forward.client, CLIENT);
    assert_eq!(forward.user_id, USER, "the forwarded identity is the payload");
    assert_eq!(
        forward.origin.replica, 1,
        "the origin names itself for the answer"
    );
    assert_ne!(forward.nonce, 0);

    let result = build_forward_register_result_message(
        BACKUP,
        forward.client,
        forward.nonce,
        &Ok(BoundSession {
            epoch: EPOCH,
            watermark: WATERMARK,
        }),
    );
    assert_eq!(result.nonce, NONCE);
    assert_eq!(result.client, CLIENT);
    let settled = settle_register_forward(&ForwardEvent::Answered(result));
    assert!(!settled.cancel_parked);
    assert_eq!(
        settled.result,
        Ok(BoundSession {
            epoch: EPOCH,
            watermark: WATERMARK,
        })
    );
}

#[test]
fn backup_forwards_logout_and_completes_on_the_primary_verdict() {
    const CLIENT: u128 = 0xCAFE;
    const SESSION: u64 = 41;
    const REQUEST: u64 = 9;
    const COMMIT: u64 = 42;

    let forward = build_forward_logout_message(BACKUP, CLIENT, 5, SESSION, REQUEST);
    assert_eq!(forward.client, CLIENT);
    assert_eq!(forward.session, SESSION);
    assert_eq!(forward.request, REQUEST);
    assert_eq!(forward.origin.replica, 1);
    assert_ne!(forward.nonce, 0);
    let result =
        build_forward_logout_result_message(BACKUP, forward.client, forward.nonce, &Ok(COMMIT));
    let settled = settle_logout_forward(&ForwardEvent::Answered(result));
    assert!(!settled.cancel_parked);
    assert_eq!(settled.result, Ok(COMMIT));
}

#[test]
fn unanswered_logout_forward_times_out_and_clears_the_waiter() {
    let settled = settle_logout_forward(&ForwardEvent::TimedOut);
    assert_eq!(settled.result, Err(MetadataSubmitError::ForwardTimedOut));
    assert!(settled.cancel_parked);
    let unsent = settle_logout_forward(&ForwardEvent::SendFailed);
    assert_eq!(unsent.result, Err(MetadataSubmitError::PrimaryUnreachable));
    assert!(unsent.cancel_parked);
    let dropped = settle_logout_forward(&ForwardEvent::ChannelDropped);
    assert_eq!(dropped.result, Err(MetadataSubmitError::Canceled));
    assert!(!dropped.cancel_parked);
    assert_eq!(FORWARD_SUBMIT_TIMEOUT_SECS, 5);
}

#[test]
fn unanswered_forward_times_out_and_clears_the_parked_login() {
    let settled = settle_register_forward(&ForwardEvent::TimedOut);
    assert_eq!(settled.result, Err(MetadataSubmitError::ForwardTimedOut));
    assert!(settled.cancel_parked);
    assert!(
        settled.result.unwrap_err().is_transient(),
        "a lost answer is replayable"
    );
    let unsent = settle_register_forward(&ForwardEvent::SendFailed);
    assert_eq!(unsent.result, Err(MetadataSubmitError::PrimaryUnreachable));
    assert!(unsent.cancel_parked);
    let dropped = settle_register_forward(&ForwardEvent::ChannelDropped);
    assert_eq!(dropped.result, Err(MetadataSubmitError::Canceled));
    assert!(!dropped.cancel_parked);
}

#[test]
fn forwarded_register_keeps_the_ownership_refusal_terminal() {
    let refused = Err(MetadataSubmitError::ClientIdOwnedByAnotherUser);
    let header = build_forward_register_result_message(BACKUP, 0xCAFE, 7, &refused);
    let error = settle_register_forward(&ForwardEvent::Answered(header))
        .result
        .expect_err("the refusal must surface");
    assert_eq!(error, MetadataSubmitError::ClientIdOwnedByAnotherUser);
    assert!(!error.is_transient(), "the refusal must stay terminal");
}

#[test]
fn primary_proposes_locally_instead_of_forwarding() {
    let primary = ConsensusFacts {
        position: ReplicaPosition {
            replica: 0,
            ..BACKUP
        },
        primary: 0,
        is_normal: true,
    };
    assert_eq!(
        submit_route(&Some(primary)),
        SubmitRoute::Local,
        "a primary must propose in process"
    );
    let electing = ConsensusFacts {
        position: BACKUP,
        primary: 0,
        is_normal: false,
    };
    assert_eq!(submit_route(&Some(electing)), SubmitRoute::Local);
    assert_eq!(
        submit_route(&None),
        SubmitRoute::Refuse(MetadataSubmitError::NotPrimary)
    );
}

#[test]
fn register_outcomes_survive_the_hop() {
    for error in ALL_ERRORS {
        let (session, outcome) = forward_register_outcome(&Err(error));
        assert_eq!(
            session,
            BoundSession {
                epoch: 0,
                watermark: 0
            }
        );
        let header = build_forward_register_result_message(BACKUP, 1, 2, &Err(error));
        assert_eq!(header.outcome, outcome);
        let expected = match error {
            MetadataSubmitError::PrimaryUnreachable | MetadataSubmitError::ForwardTimedOut => {
                MetadataSubmitError::Canceled
            }
            other => other,
        };
        assert_eq!(forward_register_result(&header), Err(expected));
        assert_eq!(expected.is_transient(), error.is_transient());
    }
    let bound = BoundSession {
        epoch: 3,
        watermark: 4,
    };
    assert_eq!(
        forward_register_outcome(&Ok(bound)),
        (bound, ForwardRegisterOutcome::Committed)
    );
}

#[test]
fn logout_outcomes_collapse_to_canceled_on_the_hop() {
    for error in ALL_ERRORS {
        let header = build_forward_logout_result_message(BACKUP, 1, 2, &Err(error));
        assert_eq!(header.commit, 0);
        let expected = match error {
            MetadataSubmitError::NotPrimary
            | MetadataSubmitError::PipelineFull
            | MetadataSubmitError::InProgress => error,
            _ => MetadataSubmitError::Canceled,
        };
        assert_eq!(forward_logout_result(&header), Err(expected));
    }
    assert_eq!(
        forward_logout_outcome(&Ok(42)),
        (42, ForwardLogoutOutcome::Committed)
    );
}

#[test]
fn forwarded_proposals_are_answered_in_place() {
    let facts = ConsensusFacts {
        position: BACKUP,
        primary: 0,
        is_normal: true,
    };
    assert_eq!(answer_forwarded(&Some(facts)), Some(BACKUP));
    assert_eq!(answer_forwarded(&None), None);
}

#[test]
fn owner_answers_reach_the_asking_shard_verbatim() {
    assert!(owns_metadata(0));
    assert!(!owns_metadata(1));
    assert_eq!(owner_answer(Some(Ok(9u64))), Ok(9));
    assert_eq!(
        owner_answer::<u64>(Some(Err(MetadataSubmitError::PipelineFull))),
        Err(MetadataSubmitError::PipelineFull)
    );
    assert_eq!(
        owner_answer::<u64>(None),
        Err(MetadataSubmitError::Canceled)
    );
}

const BOUNDS: CredentialBounds = CredentialBounds {
    min_username: 3,
    max_username: 6,
    min_password: 4,
    max_password: 8,
};

fn user(is_active: bool) -> UserRecord {
    UserRecord {
        id: 11,
        password_hash: "hash".to_owned(),
        is_active,
    }
}

#[test]
fn password_lengths_are_checked_before_any_hash() {
    let known = user(true);
    for (username, password) in [
        ("ab", "secret"),
        ("abcdefg", "secret"),
        ("abc", "abc"),
        ("abc", "123456789"),
        ("", ""),
    ] {
        let check = check_password(&BOUNDS, username, password, Some(&known));
        assert!(matches!(check, PasswordCheck::Refuse), "{username}/{password}");
        assert_eq!(
            verify_login_credentials(&check, true),
            Err(LoginRegisterError::InvalidCredentials)
        );
    }
    let check = check_password(&BOUNDS, "żółw", "12345678", Some(&known));
    assert!(
        matches!(check, PasswordCheck::Refuse),
        "lengths are counted in bytes"
    );
}

#[test]
fn refused_passwords_look_alike() {
    let active = user(true);
    let inactive = user(false);
    let unknown = check_password(&BOUNDS, "abc", "secret", None);
    assert!(matches!(unknown, PasswordCheck::VerifyDummy));
    let known = check_password(&BOUNDS, "abc", "secret", Some(&active));
    let disabled = check_password(&BOUNDS, "abc", "secret", Some(&inactive));
    assert!(matches!(
        known,
        PasswordCheck::VerifyUser(found) if found.password_hash == "hash"
    ));
    let refused = Err(LoginRegisterError::InvalidCredentials);
    assert_eq!(verify_login_credentials(&unknown, true), refused);
    assert_eq!(verify_login_credentials(&unknown, false), refused);
    assert_eq!(verify_login_credentials(&known, false), refused);
    assert_eq!(verify_login_credentials(&disabled, true), refused);
    assert_eq!(verify_login_credentials(&known, true), Ok(11));
}

#[test]
fn dummy_hash_is_computed_once() {
    let mut cell = DummyPasswordHash::cold();
    assert_eq!(cell.text_to_hash(), Some("http-login-timing-guard"));
    assert_eq!(cell.hash(), None);
    warm_dummy_password_hash(&mut cell, "first".to_owned());
    warm_dummy_password_hash(&mut cell, "second".to_owned());
    assert_eq!(cell.text_to_hash(), None);
    assert_eq!(cell.hash(), Some("first"));
}

#[test]
fn tokens_are_refused_for_what_they_lack() {
    let fresh = TokenRecord {
        is_expired: false,
        expiry_secs: Some(99),
    };
    let endless = TokenRecord {
        is_expired: false,
        expiry_secs: None,
    };
    let expired = TokenRecord {
        is_expired: true,
        expiry_secs: Some(1),
    };
    let active = user(true);
    let inactive = user(false);
    let invalid = Err(LoginRegisterError::InvalidToken);
    assert_eq!(verify_pat_credentials(&None, Some(&active)), invalid);
    assert_eq!(verify_pat_credentials(&Some(expired), Some(&active)), invalid);
    assert_eq!(verify_pat_credentials(&Some(fresh), None), invalid);
    assert_eq!(
        verify_pat_credentials(&Some(fresh), Some(&inactive)),
        Err(LoginRegisterError::UserInactive)
    );
    assert_eq!(verify_pat_credentials(&Some(fresh), Some(&active)), Ok(11));
    assert_eq!(
        verify_pat_credentials_with_expiry(&Some(fresh), Some(&active)),
        Ok((11, 99))
    );
    assert_eq!(
        verify_pat_credentials_with_expiry(&Some(endless), Some(&active)),
        Ok((11, u64::MAX))
    );
}

#[test]
fn login_prefix_is_judged_before_credentials() {
    assert_eq!(
        gate_login(VersionPrefix::Undecodable),
        LoginStage::Decided(LoginDecision::Evict(EvictionReason::MalformedLogin))
    );
    assert_eq!(
        gate_login(VersionPrefix::Incompatible),
        LoginStage::Decided(LoginDecision::Evict(EvictionReason::IncompatibleProtocol))
    );
    assert_eq!(gate_login(VersionPrefix::Compatible), LoginStage::TryPassword);
}

#[test]
fn login_body_is_read_both_ways() {
    assert_eq!(
        judge_password_attempt(&Some(Ok(3))),
        LoginStage::Decided(LoginDecision::Register(3))
    );
    assert_eq!(
        judge_password_attempt(&Some(Err(LoginRegisterError::UserInactive))),
        LoginStage::Decided(LoginDecision::Surface(LoginRegisterError::UserInactive))
    );
    assert_eq!(
        judge_password_attempt(&Some(Err(LoginRegisterError::InvalidCredentials))),
        LoginStage::TryToken {
            credentials_rejected: true
        }
    );
    assert_eq!(
        judge_password_attempt(&None),
        LoginStage::TryToken {
            credentials_rejected: false
        }
    );
    assert_eq!(
        judge_token_attempt(true, &Some(Ok(4))),
        LoginDecision::Register(4)
    );
    assert_eq!(
        judge_token_attempt(true, &Some(Err(LoginRegisterError::InvalidToken))),
        LoginDecision::Surface(LoginRegisterError::InvalidToken)
    );
    assert_eq!(
        judge_token_attempt(true, &None),
        LoginDecision::Evict(EvictionReason::InvalidCredentials)
    );
    assert_eq!(
        judge_token_attempt(false, &None),
        LoginDecision::Evict(EvictionReason::MalformedLogin)
    );
}

#[test]
fn login_reply_never_reports_a_commit_behind_its_session() {
    assert_eq!(
        start_register(5, 6, Some(40), 30),
        RegisterStart::Replay(LoginReply {
            client: 5,
            session: 40,
            commit: 40,
            user_id: 6
        })
    );
    assert_eq!(
        start_register(5, 6, None, 30),
        RegisterStart::Submit {
            client: 5,
            user_id: 6
        }
    );
    assert_eq!(
        complete_login_register(5, 6, 40, &Ok(()), &Ok(()), 50),
        Ok(LoginReply {
            client: 5,
            session: 40,
            commit: 50,
            user_id: 6
        })
    );
}

#[test]
fn login_failures_after_the_register() {
    assert_eq!(
        registered_session(&Ok(BoundSession {
            epoch: 12,
            watermark: 1
        })),
        Ok(12)
    );
    assert_eq!(
        registered_session(&Err(MetadataSubmitError::NotPrimary)),
        Err(LoginRegisterError::Transient(MetadataSubmitError::NotPrimary))
    );
    let missing = SessionError::ConnectionNotFound(5);
    assert_eq!(
        complete_login_register(5, 6, 40, &Err(missing), &Ok(()), 0),
        Err(LoginRegisterError::Session(missing))
    );
    assert_eq!(
        complete_login_register(
            5,
            6,
            40,
            &Ok(()),
            &Err(SessionError::InvalidTransition),
            0
        ),
        Err(LoginRegisterError::Session(SessionError::InvalidTransition))
    );
}

const SESSION: BoundTransport = BoundTransport {
    client: 1,
    session: 2,
};

#[test]
fn logout_of_an_unbound_transport_is_answered_ok() {
    assert_eq!(
        start_logout(77, &None, 9, 30),
        LogoutStart::Answer(LogoutFrame::Done {
            client: 77,
            session: 0,
            commit: 30
        })
    );
    assert_eq!(
        start_logout(77, &Some(SESSION), 9, 30),
        LogoutStart::Submit {
            bound: SESSION,
            request: 9
        }
    );
}

#[test]
fn logout_always_gets_a_frame() {
    let done = finish_logout(SESSION, &Ok(44), 30);
    assert!(done.remove_connection);
    assert_eq!(
        done.frame,
        LogoutFrame::Done {
            client: 1,
            session: 2,
            commit: 44
        }
    );
    for error in ALL_ERRORS {
        let denied = finish_logout(SESSION, &Err(error), 30);
        assert!(!denied.remove_connection);
        assert_eq!(
            denied.frame,
            LogoutFrame::Deny {
                client: 1,
                session: 2,
                commit: 30,
                status: transient_logout_code(&error)
            }
        );
    }
}

#[test]
fn lost_connection_needs_a_shard_to_log_out() {
    assert_eq!(
        settle_lost_connection(true),
        LostConnectionStep::RemoveSession
    );
    assert_eq!(settle_lost_connection(false), LostConnectionStep::Leave);
}

#[test]
fn stale_limit_is_six_fifths_of_the_interval() {
    assert_eq!(
        heartbeat_max_age(Duration::from_secs(5)),
        Duration::from_secs(6)
    );
    assert_eq!(
        heartbeat_max_age(Duration::from_nanos(4)),
        Duration::from_nanos(4)
    );
    assert_eq!(heartbeat_max_age(Duration::MAX), Duration::MAX / 5);
}

#[test]
fn only_group_members_are_evicted_for_silence() {
    assert!(evicts_stale_connection(Some(3), 1));
    assert!(!evicts_stale_connection(Some(3), 0));
    assert!(!evicts_stale_connection(None, 1));
    let eviction = evict_stale_client(9, Some(SESSION));
    assert_eq!(eviction.logout, Some(SESSION));
    assert_eq!(eviction.client, 9);
    assert_eq!(eviction.reason, EvictionReason::StaleClient);
    assert_eq!(evict_stale_client(9, None).logout, None);
    assert_eq!(run_heartbeat_verifier(true), HeartbeatStep::Stop);
    assert_eq!(run_heartbeat_verifier(false), HeartbeatStep::Sweep);
}
