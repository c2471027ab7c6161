use api_server::api::Fault;
use api_server::audit::AuditEntry;
use api_server::audit_log::{list_audit_logs, AuditQuery};
use api_server::auth::AccessClaims;
use api_server::codec::encode_hex;
use api_server::database::Database;
use api_server::device::{
    Architecture, Device, DeviceCapabilities, DeviceLifecycleStatus, Platform,
};
use api_server::hash::sha256_hex;
use api_server::internal::{
    authorized_participant, check_session_connectable, relay_authorize, signal_device_auth,
    FoundDevice, RelayAuthorizeRequest, SignalDeviceAuthRequest,
};
use api_server::loading::{load_accounts, load_idempotency, load_rows, verify_schema};
use api_server::persist::{
    check_account_session, check_device, codes_to_revoke, factors_to_disable, factors_to_store,
    new_audit_entries, plan_changes,
    recovery_code_status,
};
use api_server::account::{AccountSession, MfaFactor, RecoveryCode};
use api_server::risk_challenge::LockedDevice;
use api_server::rows::{account_from_row, AccountRow};
use api_server::session::{
    AuthMethod, IdempotencyRecord, PolicyEvaluation, Session, SessionEvent, SessionPermissions,
    SessionStatus,
};
use api_server::session_rows::{
    idempotency_from_row, idempotency_storage_key, replayed_registration_metadata,
    session_event_from_row, session_from_row, session_idempotency_claim,
    ExistingSessionIdempotency, IdempotencyRow, SessionEventRow, SessionRow,
};
use api_server::session_store::{
    create_session, is_terminal_session, publish_create_session, publish_transition,
    transition_session, CreateSessionCommand, CreateSessionDecision, CreateSessionOutcome,
    ReplayEvent, ReplayFacts, SessionDevices, TransitionDecision, TransitionSessionCommand,
    TransitionSessionOutcome,
};
use api_server::store::StoreError;
use api_server::table::{Record, Table};

const NOW: u64 = 4_000_000;

fn audit(audit_id: &str, account: &str, created: u64) -> AuditEntry {
    AuditEntry {
        audit_id: audit_id.into(),
        actor_type: "account".into(),
        actor_account_id: Some(account.into()),
        actor_device_id: None,
        actor_role: None,
        actor_service: None,
        target_device_id: None,
        session_id: None,
        action: "session_created".into(),
        result: "success".into(),
        reason: None,
        metadata: Table::new(),
        request_id: "request-1".into(),
        created_at_epoch_millis: created,
    }
}

fn session(status: SessionStatus) -> Session {
    Session {
        session_id: "remote-1".into(),
        controller_account_id: "account-1".into(),
        controller_device_id: "device-1".into(),
        controlled_device_id: "device-2".into(),
        auth_method: AuthMethod::AccountPrompt,
        status,
        permissions: SessionPermissions {
            document: "{\"allow_relay\":true}".into(),
            allow_relay: true,
        },
        permissions_digest: encode_hex(&[1; 32]),
        policy_evaluation_id: "policy-1".into(),
        relay_token_epoch: 3,
        session_expires_at_epoch_millis: NOW + 100_000,
        created_at_epoch_millis: 1,
        updated_at_epoch_millis: NOW,
        ended_at_epoch_millis: None,
    }
}

fn event(from: Option<SessionStatus>, to: SessionStatus) -> SessionEvent {
    SessionEvent {
        event_id: "event-1".into(),
        session_id: "remote-1".into(),
        event_type: "session_created".into(),
        from_status: from,
        to_status: to,
        actor_type: "account".into(),
        actor_account_id: Some("account-1".into()),
        actor_device_id: Some("device-1".into()),
        actor_role: Some("controller".into()),
        reason: None,
        idempotency_key_hash: encode_hex(&[2; 32]),
        request_id: "request-1".into(),
        created_at_epoch_millis: NOW,
        result_session: None,
    }
}

fn idempotency() -> IdempotencyRecord {
    IdempotencyRecord {
        account_id: "account-1".into(),
        device_id: "device-1".into(),
        method: "POST".into(),
        path: "/api/v1/sessions".into(),
        operation: "session.create".into(),
        idempotency_key: "key-1".into(),
        body_hash: encode_hex(&[3; 32]),
        request_id: "request-1".into(),
        session_id: "remote-1".into(),
        request_binding_hash: encode_hex(&[4; 32]),
        created_at_epoch_millis: NOW,
        expires_at_epoch_millis: NOW + 1,
    }
}

fn creation() -> CreateSessionCommand {
    CreateSessionCommand {
        storage_key: "storage-1".into(),
        idempotency: idempotency(),
        session: session(SessionStatus::WaitingApproval),
        policy_evaluation: PolicyEvaluation {
            policy_evaluation_id: "policy-1".into(),
            session_id: "remote-1".into(),
            account_id: "account-1".into(),
            controller_device_id: "device-1".into(),
            controlled_device_id: "device-2".into(),
            access_decision: "allow".into(),
            anti_abuse_decision: "allow".into(),
            session_access_decision: "allow".into(),
            effective_permissions: SessionPermissions {
                document: "{\"allow_relay\":true}".into(),
                allow_relay: true,
            },
            permissions_digest: encode_hex(&[1; 32]),
            evaluated_at_epoch_millis: NOW,
        },
        event: event(None, SessionStatus::WaitingApproval),
        audit_entry: audit("audit-1", "account-1", NOW),
    }
}

fn devices() -> SessionDevices {
    let online = || {
        Some(LockedDevice {
            account_id: "account-1".into(),
            status: "online".into(),
        })
    };
    SessionDevices {
        controller: online(),
        controlled: online(),
        allow_remote_desktop: Some(true),
    }
}

fn nothing() -> ReplayFacts {
    ReplayFacts {
        event: None,
        session: None,
    }
}

fn recorded(body: u8) -> Option<ExistingSessionIdempotency> {
    Some(ExistingSessionIdempotency {
        body_hash: [body; 32],
        resource_id: "remote-1".into(),
    })
}

#[test]
fn a_session_is_created_once_and_its_answer_is_repeated() {
    let command = creation();
    let decision = create_session(&command, None, nothing(), &devices()).expect("created");
    let mut database = Database::new();
    let outcome = publish_create_session(&mut database, &command, decision, &Ok(())).expect("published");
    assert_eq!(
        outcome,
        CreateSessionOutcome::Created(session(SessionStatus::WaitingApproval))
    );
    assert!(database.session_idempotency.contains_key("storage-1"));
    assert!(database.policy_evaluations.contains_key("policy-1"));
    assert_eq!(
        database.session_events[0].result_session,
        Some(session(SessionStatus::WaitingApproval))
    );

    let replay = || ReplayFacts {
        event: Some(ReplayEvent {
            event_id: "event-1".into(),
            result_session: Some(Ok(session(SessionStatus::WaitingApproval))),
        }),
        session: None,
    };
    assert_eq!(
        create_session(&command, recorded(3), replay(), &devices()),
        Ok(CreateSessionDecision::Replayed(session(
            SessionStatus::WaitingApproval
        )))
    );
    assert_eq!(
        create_session(&command, recorded(5), replay(), &devices()),
        Ok(CreateSessionDecision::BindingMismatch)
    );
    assert_eq!(
        create_session(&command, recorded(3), nothing(), &devices()),
        Err(StoreError::Unavailable)
    );
}

#[test]
fn a_session_needs_two_devices_that_may_act() {
    let refuse = |command: CreateSessionCommand, devices: SessionDevices| {
        assert_eq!(
            create_session(&command, None, nothing(), &devices),
            Err(StoreError::Conflict)
        );
    };
    let mut forbidden = devices();
    forbidden.allow_remote_desktop = Some(false);
    refuse(creation(), forbidden);
    let mut blocked = devices();
    blocked.controlled = Some(LockedDevice {
        account_id: "account-1".into(),
        status: "disabled".into(),
    });
    refuse(creation(), blocked);
    let mut foreign = devices();
    foreign.controller = Some(LockedDevice {
        account_id: "account-2".into(),
        status: "online".into(),
    });
    refuse(creation(), foreign);
    let mut own = creation();
    own.session.controlled_device_id = "device-1".into();
    refuse(own, devices());
    let mut unrelated = creation();
    unrelated.event.session_id = "remote-2".into();
    refuse(unrelated, devices());
}

fn stored(status: &str, epoch: i64) -> Option<SessionRow> {
    Some(SessionRow {
        session_id: "remote-1".into(),
        controller_account_id: "account-1".into(),
        controller_device_id: "device-1".into(),
        controlled_device_id: "device-2".into(),
        auth_method: "account_prompt".into(),
        status: status.into(),
        permissions: Ok(SessionPermissions {
            document: "{\"allow_relay\":true}".into(),
            allow_relay: true,
        }),
        permissions_digest: vec![1; 32],
        policy_evaluation_id: "policy-1".into(),
        relay_token_epoch: epoch,
        session_expires_at_epoch_millis: NOW as i64 + 100_000,
        created_at_epoch_millis: 1,
        updated_at_epoch_millis: 2,
        ended_at_epoch_millis: None,
    })
}

fn transition(to: SessionStatus) -> TransitionSessionCommand {
    TransitionSessionCommand {
        storage_key: "storage-2".into(),
        idempotency: idempotency(),
        session: session(to),
        expected_status: SessionStatus::Connected,
        apply_allowed: true,
        event: event(Some(SessionStatus::Connected), to),
        audit_entry: audit("audit-2", "account-1", NOW),
    }
}

#[test]
fn an_ended_session_gets_a_new_relay_epoch() {
    let command = transition(SessionStatus::Closed);
    let decision =
        transition_session(&command, None, nothing(), stored("connected", 3), false).expect("ok");
    let mut database = Database::new();
    match publish_transition(&mut database, &command, decision, &Ok(())).expect("published") {
        TransitionSessionOutcome::Applied { session, event_id } => {
            assert_eq!(session.status, SessionStatus::Closed);
            assert_eq!(session.relay_token_epoch, 4);
            assert_eq!(session.ended_at_epoch_millis, Some(NOW));
            assert_eq!(session.updated_at_epoch_millis, NOW);
            assert_eq!(event_id, "event-1");
        }
        other => panic!("unexpected outcome: {other:?}"),
    }
    let held = database.sessions.get("remote-1").expect("session");
    let outdated = relay_authorize(
        &relay_request(3),
        Some(held.duplicate()),
        Some(device(DeviceLifecycleStatus::Online)),
        true,
        NOW,
        "request",
    );
    assert_eq!(outdated.unwrap_err().code, "relay_not_authorized");

    let moved = transition_session(
        &transition(SessionStatus::Degraded),
        None,
        nothing(),
        stored("connected", 3),
        false,
    );
    match moved {
        Ok(TransitionDecision::Applied { session, .. }) => {
            assert_eq!(session.relay_token_epoch, 3);
            assert_eq!(session.ended_at_epoch_millis, None);
        }
        other => panic!("unexpected decision: {other:?}"),
    }
}

#[test]
fn a_moved_session_is_read_with_its_new_times() {
    let odd = |updated: i64, ended: Option<i64>, epoch: i64| {
        let mut row = stored("connected", epoch).expect("row");
        row.updated_at_epoch_millis = updated;
        row.ended_at_epoch_millis = ended;
        Some(row)
    };
    match transition_session(
        &transition(SessionStatus::Closed),
        None,
        nothing(),
        odd(-1, Some(-1), -1),
        false,
    ) {
        Ok(TransitionDecision::Applied { session, .. }) => {
            assert_eq!(session.updated_at_epoch_millis, NOW);
            assert_eq!(session.ended_at_epoch_millis, Some(NOW));
            assert_eq!(session.relay_token_epoch, 0);
        }
        other => panic!("unexpected decision: {other:?}"),
    }
    assert_eq!(
        transition_session(
            &transition(SessionStatus::Degraded),
            None,
            nothing(),
            odd(2, Some(-1), 3),
            false
        ),
        Err(StoreError::Unavailable)
    );
}

#[test]
fn factors_and_codes_are_listed_once_and_in_order() {
    let factor = |id: &str, active: bool| MfaFactor {
        factor_id: id.into(),
        account_id: "account-1".into(),
        secret_base32: "JBSWY3DPEHPK3PXP".into(),
        active,
        last_used_counter: None,
        created_at_epoch_millis: 1,
    };
    let mut before: Table<MfaFactor> = Table::new();
    let mut after: Table<MfaFactor> = Table::new();
    for id in ["c", "a", "b"] {
        before.insert(id.into(), factor(id, true));
    }
    after.insert("b".into(), factor("b", true));
    after.insert("c".into(), factor("c", false));
    after.insert("e".into(), factor("e", true));
    after.insert("d".into(), factor("d", true));
    assert_eq!(factors_to_disable(&before, &after), vec!["a", "c"]);
    let stored: Vec<&str> = factors_to_store(&before, &after)
        .iter()
        .map(|(id, _)| id.as_str())
        .collect();
    assert_eq!(stored, vec!["d", "e"]);

    let code = |id: &str| RecoveryCode {
        recovery_code_id: id.into(),
        account_id: "account-1".into(),
        code_hash: [1; 32],
        used_at_epoch_millis: None,
        expires_at_epoch_millis: None,
    };
    let mut held: Table<RecoveryCode> = Table::new();
    for id in ["z", "y", "x"] {
        held.insert(id.into(), code(id));
    }
    let mut kept: Table<RecoveryCode> = Table::new();
    kept.insert("y".into(), code("y"));
    assert_eq!(codes_to_revoke(&held, &kept), vec!["x", "z"]);
}

#[test]
fn a_transition_answers_why_it_was_not_made() {
    let closing = || transition(SessionStatus::Closed);
    assert_eq!(
        transition_session(&closing(), None, nothing(), None, false),
        Ok(TransitionDecision::NotFound)
    );
    assert_eq!(
        transition_session(&closing(), None, nothing(), stored("accepted", 3), false),
        Ok(TransitionDecision::StateConflict)
    );
    let mut stranger = closing();
    stranger.event.actor_role = Some("controlled".into());
    assert_eq!(
        transition_session(&stranger, None, nothing(), stored("connected", 3), true),
        Ok(TransitionDecision::StateConflict)
    );
    let mut not_allowed = closing();
    not_allowed.apply_allowed = false;
    assert_eq!(
        transition_session(&not_allowed, None, nothing(), stored("connected", 3), false),
        Ok(TransitionDecision::InvalidTransition)
    );
    assert_eq!(
        transition_session(&closing(), recorded(9), nothing(), None, false),
        Ok(TransitionDecision::BindingMismatch)
    );
    let mut unfit = closing();
    unfit.event.to_status = SessionStatus::Failed;
    assert_eq!(
        transition_session(&unfit, None, nothing(), stored("connected", 3), false),
        Err(StoreError::Conflict)
    );
    for status in [
        SessionStatus::Cancelled,
        SessionStatus::Closed,
        SessionStatus::Rejected,
        SessionStatus::Failed,
    ] {
        assert!(is_terminal_session(status));
    }
    assert!(!is_terminal_session(SessionStatus::Reconnecting));
}

fn device(status: DeviceLifecycleStatus) -> Device {
    Device {
        device_id: "device-1".into(),
        account_id: "account-1".into(),
        display_name: "Desk".into(),
        platform: Platform::Windows,
        os_version: "11".into(),
        arch: Architecture::Aarch64,
        capabilities: DeviceCapabilities {
            controller: true,
            controlled: true,
            file_transfer: false,
            unattended: false,
        },
        public_key_id: "key-1".into(),
        public_key: [7; 32],
        public_key_version: 1,
        public_key_revoked_at_epoch_millis: None,
        status,
        last_seen_epoch_millis: None,
        created_at_epoch_millis: 1,
        updated_at_epoch_millis: 1,
    }
}

fn relay_request(epoch: u64) -> RelayAuthorizeRequest {
    RelayAuthorizeRequest {
        session_id: "remote-1".into(),
        device_id: "device-1".into(),
        role: "controller".into(),
        permissions_digest: encode_hex(&[1; 32]),
        relay_token_epoch: epoch,
    }
}

#[test]
fn a_relay_is_authorised_for_a_minute_at_most() {
    let authorise = |session: Session, now: u64| {
        relay_authorize(
            &relay_request(3),
            Some(session),
            Some(device(DeviceLifecycleStatus::Busy)),
            true,
            now,
            "request",
        )
        .map(|granted| granted.authorization_expires_at_epoch_millis)
        .map_err(|error| error.code)
    };
    let live = || session(SessionStatus::Connected);
    assert_eq!(authorise(live(), NOW), Ok(NOW + 60_000));
    assert_eq!(authorise(live(), NOW + 99_999), Ok(NOW + 100_000));
    let refused: Result<u64, String> = Err("relay_not_authorized".into());
    assert_eq!(authorise(live(), NOW + 100_000), refused);
    let mut no_relay = live();
    no_relay.permissions.allow_relay = false;
    assert_eq!(authorise(no_relay, NOW), refused);
    let mut other_permissions = live();
    other_permissions.permissions_digest = encode_hex(&[2; 32]);
    assert_eq!(authorise(other_permissions, NOW), refused);
    assert_eq!(
        relay_authorize(&relay_request(3), None, None, true, NOW, "request")
            .unwrap_err()
            .status,
        404
    );
    assert_eq!(
        relay_authorize(&relay_request(3), Some(live()), None, true, NOW, "request")
            .unwrap_err()
            .code,
        "unknown_device"
    );
    assert!(relay_authorize(
        &relay_request(3),
        Some(live()),
        Some(device(DeviceLifecycleStatus::Busy)),
        false,
        NOW,
        "request"
    )
    .is_err());
}

#[test]
fn only_a_participant_is_authorised() {
    let check = |account: &str, device_id: &str, role: &str| {
        authorized_participant(
            Some(session(SessionStatus::Connected)),
            Some(Device {
                device_id: device_id.into(),
                ..device(DeviceLifecycleStatus::Online)
            }),
            account,
            device_id,
            role,
            "request",
        )
        .map(|_| ())
        .map_err(|error| error.code)
    };
    let mismatch: Result<(), String> = Err("session_participant_mismatch".into());
    assert_eq!(check("account-1", "device-1", "controller"), Ok(()));
    assert_eq!(check("account-1", "device-2", "controlled"), Ok(()));
    assert_eq!(check("account-1", "device-1", "controlled"), mismatch);
    assert_eq!(check("account-2", "device-1", "controller"), mismatch);
    assert_eq!(check("account-1", "device-1", "viewer"), mismatch);
    assert!(
        check_session_connectable(&session(SessionStatus::Accepted), true, NOW, "request").is_ok()
    );
    assert_eq!(
        check_session_connectable(
            &session(SessionStatus::Accepted),
            true,
            NOW + 100_000,
            "request"
        )
        .unwrap_err()
        .code,
        "session_not_connectable"
    );
    assert!(
        check_session_connectable(&session(SessionStatus::Accepted), false, NOW, "request")
            .is_err()
    );
}

#[test]
fn a_signalling_device_shows_its_current_key() {
    let asked = |version: u32| SignalDeviceAuthRequest {
        access_token: "token".into(),
        account_id: "account-1".into(),
        device_id: "device-1".into(),
        public_key_id: "key-1".into(),
        public_key_version: version,
    };
    let claims = |account: &str| AccessClaims {
        account_id: account.into(),
        account_session_id: "session-1".into(),
        issued_at_epoch_millis: 1,
        expires_at_epoch_millis: 2,
        mfa_verified: true,
        token_type: "access".into(),
    };
    let found = |session_valid: bool| {
        Some(FoundDevice {
            session_valid,
            device: device(DeviceLifecycleStatus::Online),
        })
    };
    let code = |result: Result<Device, Fault>| match result {
        Ok(_) => "ok".to_owned(),
        Err(Fault::Unauthorized) => "unauthorized".to_owned(),
        Err(Fault::Internal) => "internal".to_owned(),
        Err(Fault::Refused(error)) => error.code,
    };
    let mine = claims("account-1");
    assert_eq!(
        code(signal_device_auth(&asked(1), Some(&mine), found(true), "r")),
        "ok"
    );
    assert_eq!(
        code(signal_device_auth(&asked(1), None, found(true), "r")),
        "unauthorized"
    );
    assert_eq!(
        code(signal_device_auth(
            &asked(1),
            Some(&claims("account-2")),
            found(true),
            "r"
        )),
        "account_mismatch"
    );
    assert_eq!(
        code(signal_device_auth(&asked(1), Some(&mine), None, "r")),
        "unknown_device"
    );
    assert_eq!(
        code(signal_device_auth(&asked(1), Some(&mine), found(false), "r")),
        "unauthorized"
    );
    assert_eq!(
        code(signal_device_auth(&asked(2), Some(&mine), found(true), "r")),
        "device_key_mismatch"
    );
}

#[test]
fn audit_pages_are_newest_first_and_bounded() {
    let log: Vec<AuditEntry> = (0..120)
        .map(|i: u64| {
            audit(
                &format!("audit-{i}"),
                if i % 2 == 0 { "account-1" } else { "account-2" },
                i,
            )
        })
        .collect();
    let page = |limit: Option<usize>, before: Option<u64>| -> Vec<u64> {
        list_audit_logs(
            &log,
            "account-1",
            &AuditQuery {
                limit,
                before_epoch_millis: before,
            },
        )
        .iter()
        .map(|entry| entry.created_at_epoch_millis)
        .collect()
    };
    assert_eq!(page(Some(3), None), vec![118, 116, 114]);
    assert_eq!(page(Some(2), Some(10)), vec![8, 6]);
    assert_eq!(page(Some(0), None).len(), 1);
    assert_eq!(page(None, None).len(), 50);
    assert_eq!(page(Some(1_000), None).len(), 60);
}

#[test]
fn stored_rows_are_read_or_refused() {
    let row = stored("connected", 3).expect("row");
    let read = session_from_row(row).expect("session");
    assert_eq!(read.permissions_digest, encode_hex(&[1; 32]));
    let unknown = stored("paused", 3).expect("row");
    assert_eq!(
        session_from_row(unknown),
        Err("unsupported session status paused".into())
    );
    let early = stored("connected", -1).expect("row");
    assert!(session_from_row(early).is_err());

    let event_row = |to: Option<&str>| SessionEventRow {
        event_id: "event-1".into(),
        session_id: "remote-1".into(),
        event_type: "session_created".into(),
        actor_type: "account".into(),
        actor_account_id: None,
        actor_device_id: None,
        actor_role: "none".into(),
        reason: None,
        from_status: None,
        to_status: to.map(Into::into),
        idempotency_key_hash: None,
        request_id: None,
        result_session: None,
        created_at_epoch_millis: 5,
    };
    let read = session_event_from_row(event_row(Some("accepted"))).expect("event");
    assert_eq!(read.to_status, SessionStatus::Accepted);
    assert_eq!(read.actor_role, None);
    assert_eq!(
        session_event_from_row(event_row(None)),
        Err("session event metadata is missing to_status".into())
    );
}

#[test]
fn idempotency_keys_are_stored_under_their_request() {
    assert_eq!(
        idempotency_storage_key("account-1", "device-1", "post", "/api/v1/sessions", "key-1"),
        sha256_hex(b"account-1\0device-1\0POST\0/api/v1/sessions\0key-1")
    );
    let row = || IdempotencyRow {
        idempotency_key: "key-1".into(),
        account_id: "account-1".into(),
        device_id: "device-1".into(),
        method: "POST".into(),
        path: "/api/v1/sessions".into(),
        body_hash: vec![3; 32],
        request_id: "request-1".into(),
        resource_type: "session.create".into(),
        resource_id: "remote-1".into(),
        created_at_epoch_millis: NOW as i64,
        expires_at_epoch_millis: NOW as i64 + 1,
    };
    let (key, record) = idempotency_from_row(row(), Some(b"abc".to_vec())).expect("record");
    assert_eq!(
        key,
        sha256_hex(b"account-1\0device-1\0POST\0/api/v1/sessions\0key-1")
    );
    assert_eq!(
        record.request_binding_hash,
        "ba7816bf8f01cfea414140de5dae2223b00361a396177a9cb410ff61f20015ad"
    );
    assert_eq!(record.request_binding_hash, sha256_hex(b"abc"));
    assert!(idempotency_from_row(row(), None).is_err());
    let mut database = Database::new();
    load_idempotency(&mut database, vec![Ok((key.clone(), record))]).expect("load");
    assert!(database.session_idempotency.contains_key(&key));
    assert_eq!(
        load_idempotency(&mut database, vec![Err("unreadable".into())]),
        Err("unreadable".into())
    );
    assert_eq!(session_idempotency_claim(1, None), Ok(None));
    assert!(session_idempotency_claim(0, None).is_err());
    assert_eq!(session_idempotency_claim(0, recorded(3)), Ok(recorded(3)));
    assert_eq!(
        replayed_registration_metadata(Vec::new()),
        Err(StoreError::Unavailable)
    );
}

fn account_session(id: &str, reason: Option<&str>) -> AccountSession {
    AccountSession {
        account_session_id: id.into(),
        account_id: "account-1".into(),
        refresh_token_hash: [5; 32],
        mfa_verified: false,
        expires_at_epoch_millis: NOW,
        revoked_at_epoch_millis: reason.map(|_| NOW),
        revoked_reason: reason.map(Into::into),
    }
}

#[test]
fn only_changed_and_sound_rows_are_written() {
    let mut before: Table<AccountSession> = Table::new();
    before.insert("session-1".into(), account_session("session-1", None));
    before.insert("session-2".into(), account_session("session-2", None));
    let mut after = Table::new();
    after.insert("session-1".into(), account_session("session-1", None));
    after.insert("session-2".into(), account_session("session-2", Some("logout")));
    after.insert("session-3".into(), account_session("session-3", None));
    let writes = plan_changes(&before, &after).expect("plan");
    let ids: Vec<&str> = writes.iter().map(|write| write.id.as_str()).collect();
    assert_eq!(ids, vec!["session-2", "session-3"]);

    let mut undated = Table::new();
    undated.insert(
        "session-4".into(),
        AccountSession {
            revoked_at_epoch_millis: None,
            ..account_session("session-4", Some("logout"))
        },
    );
    assert_eq!(
        plan_changes(&before, &undated).map(|writes| writes.len()),
        Err("account_sessions revoked timestamp and reason differ for session-4".into())
    );
    let mut unlisted = Table::new();
    unlisted.insert(
        "session-4".into(),
        account_session("session-4", Some("forgotten")),
    );
    assert!(plan_changes(&before, &unlisted).is_err());
    assert!(check_account_session("session-1", &account_session("session-1", None)).is_ok());

    let offline = device(DeviceLifecycleStatus::Offline);
    assert_eq!(check_device("device-1", None, &offline), Ok(1));
    let disabled = device(DeviceLifecycleStatus::Disabled);
    assert_eq!(check_device("device-1", Some(&offline), &disabled), Ok(1));
    assert_eq!(
        check_device("device-1", Some(&disabled), &offline),
        Err("devices refused terminal status reactivation for device-1".into())
    );
    let mut rekeyed = device(DeviceLifecycleStatus::Offline);
    rekeyed.public_key = [8; 32];
    assert!(check_device("device-1", Some(&offline), &rekeyed).is_err());

    let code = |used: Option<u64>| RecoveryCode {
        recovery_code_id: "code-1".into(),
        account_id: "account-1".into(),
        code_hash: [1; 32],
        used_at_epoch_millis: used,
        expires_at_epoch_millis: None,
    };
    assert_eq!(recovery_code_status(&code(None)), "active");
    assert_eq!(recovery_code_status(&code(Some(1))), "used");
}

#[test]
fn a_log_is_stored_by_what_was_added() {
    let before = vec![audit("audit-1", "account-1", 1)];
    let after = vec![
        audit("audit-1", "account-1", 1),
        audit("audit-2", "account-1", 2),
    ];
    let added = new_audit_entries(&before, &after);
    assert_eq!(added.len(), 1);
    assert_eq!(added[0].audit_id, "audit-2");
    assert!(new_audit_entries(&after, &after).is_empty());
}

#[test]
fn loaded_rows_are_found_by_their_keys() {
    let row = |id: &str, status: &str| {
        account_from_row(AccountRow {
            account_id: id.into(),
            email: format!("{id}@example.com"),
            display_name: "A".into(),
            password_hash: "hash".into(),
            status: status.into(),
            created_at_epoch_millis: 1,
            updated_at_epoch_millis: 1,
        })
    };
    let mut database = Database::new();
    load_accounts(
        &mut database,
        vec![row("account-1", "active"), row("account-2", "active")],
    )
    .expect("load");
    assert_eq!(
        database
            .accounts
            .get("account-2")
            .map(|account| account.email.as_str()),
        Some("account-2@example.com")
    );
    assert!(load_accounts(&mut database, vec![row("account-3", "unheard_of")]).is_err());

    let mut sessions: Table<AccountSession> = Table::new();
    load_rows(&mut sessions, vec![Ok(account_session("session-1", None))]).expect("load");
    assert!(sessions.contains_key("session-1"));
    assert!(verify_schema(&vec![true; 64]).is_ok());
    assert!(verify_schema(&vec![false; 64]).is_err());
}
