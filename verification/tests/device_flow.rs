use api_server::account::AccountSession;
use api_server::api::Fault;
use api_server::audit::{AuditEntry, JsonValue};
use api_server::database::Database;
use api_server::device::{
    Architecture, Device, DeviceCapabilities, DeviceEnrollmentGrant, DeviceLifecycleStatus,
    DevicePublicKeyRecord, Platform, TrustedControllerDevice, TrustedDeviceStatus,
};
use api_server::device_authority::{
    device_management_revokes_account_sessions, is_authorizable, manage_device,
    publish_management, publish_rotation, rotate_device_key, DeviceKeyRotation,
    DeviceManagementAction, DeviceManagementCommand, ManagementEnd, ManagementFacts,
    RotationFacts,
};
use api_server::device_changes::{
    build_device_update, build_rotation, check_device_update, check_rotation,
    device_management_action_name, device_update_error, notify_forced_session_closures,
    rotation_error,
};
use api_server::device_requests::{
    build_registration, check_registration_request, device_to_register, device_view,
    device_view_with_presence, list_devices, own_device, parse_enrollment_grant,
    registration_answer, registration_error, validate_device_request, DeviceActionRequest, DevicePresence, DevicePresenceStatus,
    DeviceStatus, RegisterDeviceRequest, RegistrationDraws, RotateDeviceKeyRequest,
    UpdateDeviceRequest,
};
use api_server::hash::sha256;
use api_server::login_answer::grant_token;
use api_server::registration::{
    is_within_window, publish_registration, register_device, DeviceRegistrationCommand,
    DeviceRegistrationOutcome, EnrollmentChallengeRow, InitialDeviceSignatureProof,
    RegistrationDecision, RegistrationFacts,
};
use api_server::rows::{AccountSessionRow, TrustedDeviceRow};
use api_server::session::{AuthMethod, Session, SessionEvent, SessionPermissions, SessionStatus};
use api_server::session_rows::SessionRow;
use api_server::step_up::{LockedStepUp, StepUpExpectation};
use api_server::store::{PersistenceError, StoreError};
use api_server::table::{Record, Table};

const NOW: u64 = 3_000_000;

fn device(status: DeviceLifecycleStatus) -> Device {
    Device {
        device_id: "device-1".to_owned(),
        account_id: "account-1".to_owned(),
        display_name: "Ubuntu".to_owned(),
        platform: Platform::Ubuntu,
        os_version: "26.04".to_owned(),
        arch: Architecture::X86_64,
        capabilities: DeviceCapabilities {
            controller: true,
            controlled: true,
            file_transfer: false,
            unattended: false,
        },
        public_key_id: "key-1".to_owned(),
        public_key: [7; 32],
        public_key_version: 1,
        public_key_revoked_at_epoch_millis: None,
        status,
        last_seen_epoch_millis: None,
        created_at_epoch_millis: 1,
        updated_at_epoch_millis: 1,
    }
}

#[test]
fn presence_overlays_active_devices_but_not_management_blocks() {
    let presence = DevicePresence {
        device_id: "device-1".to_owned(),
        status: DevicePresenceStatus::Busy,
        last_seen_epoch_millis: 10,
    };

    assert_eq!(
        device_view_with_presence(&device(DeviceLifecycleStatus::Offline), Some(&presence)).status,
        DeviceStatus::Busy
    );
    for status in [
        DeviceLifecycleStatus::Suspended,
        DeviceLifecycleStatus::Disabled,
        DeviceLifecycleStatus::Unbound,
    ] {
        assert_eq!(
            device_view_with_presence(&device(status), Some(&presence)).status,
            DeviceStatus::Offline
        );
    }
}

fn request(
    platform: Platform,
    controller: bool,
    controlled: bool,
    file_transfer: bool,
    unattended: bool,
) -> RegisterDeviceRequest {
    RegisterDeviceRequest {
        device_enrollment_grant: Some("grant.secret".to_owned()),
        device_id: "device-1".to_owned(),
        display_name: "Device".to_owned(),
        platform,
        os_version: "26.04".to_owned(),
        arch: Architecture::X86_64,
        role_capabilities: DeviceCapabilities {
            controller,
            controlled,
            file_transfer,
            unattended,
        },
        public_key: "unused".to_owned(),
    }
}

#[test]
fn registration_capabilities_must_match_enrollment_policy() {
    assert!(validate_device_request(
        &request(Platform::Ubuntu, true, true, false, false),
        "request"
    )
    .is_ok());
    for invalid in [
        request(Platform::Ubuntu, false, true, false, false),
        request(Platform::Ubuntu, true, true, true, false),
        request(Platform::Ubuntu, true, true, false, true),
        request(Platform::Ios, true, true, false, false),
    ] {
        let error = validate_device_request(&invalid, "request").unwrap_err();
        assert_eq!(error.code, "invalid_platform_capability");
    }
}

#[test]
fn a_registration_request_names_its_device_plainly() {
    assert!(
        validate_device_request(&request(Platform::Ios, true, false, false, false), "request")
            .is_ok()
    );
    let mut spaced = request(Platform::Ubuntu, true, true, false, false);
    spaced.device_id = "device 1".into();
    let error = validate_device_request(&spaced, "request").unwrap_err();
    assert_eq!(error.code, "invalid_device_id");
    assert_eq!(error.status, 400);
    assert_eq!(error.request_id, "request");
    let mut long = request(Platform::Ubuntu, true, true, false, false);
    long.device_id = "d".repeat(129);
    assert_eq!(
        validate_device_request(&long, "request").unwrap_err().code,
        "invalid_device_id"
    );
    let mut blank = request(Platform::Ubuntu, true, true, false, false);
    blank.display_name = "  ".into();
    assert_eq!(
        validate_device_request(&blank, "request").unwrap_err().code,
        "invalid_device_metadata"
    );
}

#[test]
fn grant_tokens_are_read_back() {
    let token = grant_token("grant-1", "secret-1");
    assert_eq!(
        parse_enrollment_grant(&token, "request"),
        Ok(("grant-1", "secret-1"))
    );
    for malformed in ["grant-1", ".secret", "grant.", "grant.sec.ret"] {
        assert_eq!(
            parse_enrollment_grant(malformed, "request")
                .unwrap_err()
                .code,
            "device_enrollment_grant_required"
        );
    }
}

#[test]
fn only_a_presence_of_the_same_device_shows() {
    let presences = vec![DevicePresence {
        device_id: "device-2".into(),
        status: DevicePresenceStatus::Online,
        last_seen_epoch_millis: 10,
    }];
    let mut other = device(DeviceLifecycleStatus::Offline);
    other.device_id = "device-2".into();
    let views = list_devices(
        &vec![device(DeviceLifecycleStatus::Offline), other],
        &presences,
    );
    assert_eq!(views[0].status, DeviceStatus::Offline);
    assert_eq!(views[1].status, DeviceStatus::Online);
    assert_eq!(
        device_view(&device(DeviceLifecycleStatus::Busy)).device.display_name,
        "Ubuntu"
    );
    assert!(own_device(
        Some(device(DeviceLifecycleStatus::Online)),
        "account-1",
        "request"
    )
    .is_ok());
    assert_eq!(
        own_device(
            Some(device(DeviceLifecycleStatus::Online)),
            "account-2",
            "request"
        )
        .unwrap_err()
        .status,
        404
    );
    assert_eq!(
        own_device(None, "account-1", "request").unwrap_err().code,
        "device_not_found"
    );
}

fn audit(audit_id: &str, action: &str) -> AuditEntry {
    AuditEntry {
        audit_id: audit_id.into(),
        actor_type: "account".into(),
        actor_account_id: Some("account-1".into()),
        actor_device_id: Some("device-1".into()),
        actor_role: None,
        actor_service: None,
        target_device_id: Some("device-1".into()),
        session_id: None,
        action: action.into(),
        result: "success".into(),
        reason: None,
        metadata: Table::new(),
        request_id: "request-1".into(),
        created_at_epoch_millis: NOW,
    }
}

fn registration() -> DeviceRegistrationCommand {
    let asked = request(Platform::Ubuntu, true, true, false, false);
    let new_device = device_to_register(&asked, "account-1", "key-1".into(), [7; 32], NOW);
    build_registration(
        "grant-1",
        "secret-1",
        "session-1",
        1,
        [21; 32],
        new_device,
        InitialDeviceSignatureProof {
            target: "/api/v1/devices/register".into(),
            content_type: None,
            request_id: "request-1".into(),
            timestamp_epoch_millis: NOW - 30_000,
            nonce: "nonce-1".into(),
            signature: "signature-1".into(),
            canonical_body: Vec::new(),
        },
        RegistrationDraws {
            trusted_device_id: "trust-1".into(),
            registration_audit_id: "audit-registration".into(),
            grant_audit_id: "audit-grant".into(),
            trust_audit_id: "audit-trust".into(),
        },
        "request-1",
        NOW,
    )
}

fn grant(proof: Option<&str>) -> DeviceEnrollmentGrant {
    DeviceEnrollmentGrant {
        grant_id: "grant-1".into(),
        grant_secret_hash: sha256(b"secret-1"),
        account_id: "account-1".into(),
        device_id: "device-1".into(),
        device_public_key_fingerprint: sha256(&[7; 32]),
        login_challenge_id: "challenge-1".into(),
        login_challenge_binding_hash: [9; 32],
        trust_proof_type: proof.map(Into::into),
        trust_level: proof.map(|kind| {
            if kind == "device_signature_and_mfa" {
                "standard".into()
            } else {
                "high_risk_step_up_required".into()
            }
        }),
        establish_trust: proof.is_some(),
        protocol_version: 1,
        issued_account_session_id: "session-1".into(),
        issued_at_epoch_millis: NOW - 1_000,
        expires_at_epoch_millis: NOW + 1_000,
        consumed_at_epoch_millis: None,
        registration_request_binding_hash: None,
        registered_public_key_id: None,
        registered_trusted_device_id: None,
    }
}

fn registration_facts(proof: Option<&str>) -> RegistrationFacts {
    RegistrationFacts {
        grant: Some(Ok(grant(proof))),
        authority: Ok(()),
        signature_valid: true,
        challenge: Some(EnrollmentChallengeRow {
            account_id: "account-1".into(),
            operation_binding_hash: vec![9; 32],
            purpose: "login_mfa".into(),
            status: "consumed".into(),
            consumed_at_epoch_millis: Some(1),
            login_device_id: "device-1".into(),
            login_device_public_key_fingerprint: sha256(&[7; 32]).to_vec(),
            login_protocol_version: 1,
        }),
        registered_trust: None,
        registered_device: Err(StoreError::Unavailable),
        session_mfa_verified: Some(proof.is_some()),
        device_taken: false,
        result_audit: Ok(audit("audit-registration", "device_registered")),
    }
}

fn used(facts: RegistrationFacts) -> DeviceEnrollmentGrant {
    match register_device(&registration(), facts).expect("registered") {
        RegistrationDecision::Created { grant, .. } => grant,
        other => panic!("unexpected decision: {other:?}"),
    }
}

#[test]
fn a_grant_registers_a_device_with_the_trust_that_it_carries() {
    for (proof, ttl) in [
        ("device_signature_and_mfa", 30 * 24 * 60 * 60 * 1_000),
        ("device_signature_and_recovery_code", 24 * 60 * 60 * 1_000),
    ] {
        let command = registration();
        let decision = register_device(&command, registration_facts(Some(proof))).expect("created");
        let mut database = Database::new();
        let outcome = publish_registration(&mut database, &command, decision, &Ok(())).expect("published");
        assert_eq!(
            outcome,
            DeviceRegistrationOutcome::Created(command.device.duplicate())
        );
        let trusted = database
            .trusted_controller_devices
            .get("trust-1")
            .expect("trust");
        assert_eq!(trusted.expires_at_epoch_millis, NOW + ttl);
        assert_eq!(trusted.device_fingerprint_hash, sha256(&[7; 32]));
        assert!(database.devices.contains_key("device-1"));
        assert!(database.device_public_keys.contains_key("key-1"));
        let held = database
            .device_enrollment_grants
            .get("grant-1")
            .expect("grant");
        assert_eq!(held.consumed_at_epoch_millis, Some(NOW));
        assert_eq!(held.registration_request_binding_hash, Some([21; 32]));
        assert_eq!(
            database
                .audit_logs
                .iter()
                .filter(|entry| entry.action == "trusted_device_added")
                .count(),
            1
        );
    }
    let grant = used(registration_facts(None));
    assert_eq!(grant.registered_trusted_device_id, None);
    assert_eq!(grant.registered_public_key_id.as_deref(), Some("key-1"));
}

#[test]
fn a_used_grant_only_repeats_its_answer() {
    let held = used(registration_facts(None));
    let again = |binding: [u8; 32]| {
        let mut facts = registration_facts(None);
        facts.grant = Some(Ok(held.duplicate()));
        facts.registered_device = Ok(device(DeviceLifecycleStatus::Offline));
        let mut command = registration();
        command.registration_request_binding_hash = binding;
        register_device(&command, facts)
    };
    assert_eq!(
        again([21; 32]),
        Ok(RegistrationDecision::Replayed(device(
            DeviceLifecycleStatus::Offline
        )))
    );
    assert_eq!(again([22; 32]), Err(StoreError::Conflict));
}

#[test]
fn an_unfit_grant_registers_nothing() {
    let refused = |facts: RegistrationFacts| {
        assert_eq!(
            register_device(&registration(), facts),
            Ok(RegistrationDecision::InvalidGrant)
        );
    };
    let mut missing = registration_facts(None);
    missing.grant = None;
    refused(missing);
    let mut unsigned = registration_facts(None);
    unsigned.signature_valid = false;
    refused(unsigned);
    let mut other_secret = registration_facts(None);
    other_secret.grant = Some(Ok(DeviceEnrollmentGrant {
        grant_secret_hash: [0; 32],
        ..grant(None)
    }));
    refused(other_secret);
    let mut expired = registration_facts(None);
    expired.grant = Some(Ok(DeviceEnrollmentGrant {
        expires_at_epoch_millis: NOW,
        ..grant(None)
    }));
    refused(expired);
    let mut unreadable = registration_facts(None);
    unreadable.grant = Some(Err("unreadable".into()));
    assert_eq!(
        register_device(&registration(), unreadable),
        Err(StoreError::Unavailable)
    );
    let mut taken = registration_facts(None);
    taken.device_taken = true;
    assert_eq!(
        register_device(&registration(), taken),
        Err(StoreError::Conflict)
    );
    assert_eq!(
        registration_answer(DeviceRegistrationOutcome::InvalidGrant, "request")
            .unwrap_err()
            .code,
        "device_enrollment_grant_invalid"
    );
    let created = registration_answer(
        DeviceRegistrationOutcome::Created(device(DeviceLifecycleStatus::Offline)),
        "request",
    )
    .expect("created");
    let replayed = registration_answer(
        DeviceRegistrationOutcome::Replayed(device(DeviceLifecycleStatus::Offline)),
        "request",
    )
    .expect("replayed");
    assert_eq!((created.0, replayed.0), (201, 200));
    assert!(is_within_window(NOW, NOW + 30_000));
    assert!(!is_within_window(NOW, NOW + 30_001));
    assert!(!is_within_window(NOW, NOW - 30_001));
}

fn expectation() -> StepUpExpectation {
    StepUpExpectation {
        challenge_id: "risk-1".into(),
        account_id: "account-1".into(),
        device_id: "device-1".into(),
        purpose: "device_key_rotate".into(),
        operation_binding_hash: [9; 32],
        now_epoch_millis: NOW,
    }
}

fn session_row(status: &str, epoch: i64) -> SessionRow {
    SessionRow {
        session_id: "remote-1".into(),
        controller_account_id: "account-1".into(),
        controller_device_id: "device-1".into(),
        controlled_device_id: "device-2".into(),
        auth_method: "account_prompt".into(),
        status: status.into(),
        permissions: Ok(SessionPermissions {
            document: "{}".into(),
            allow_relay: true,
        }),
        permissions_digest: vec![1; 32],
        policy_evaluation_id: "policy-1".into(),
        relay_token_epoch: epoch,
        session_expires_at_epoch_millis: NOW as i64 + 1_000,
        created_at_epoch_millis: 1,
        updated_at_epoch_millis: 2,
        ended_at_epoch_millis: None,
    }
}

fn trust_row(id: &str, key: u8) -> TrustedDeviceRow {
    TrustedDeviceRow {
        trusted_device_id: id.into(),
        account_id: "account-1".into(),
        controller_device_id: "device-1".into(),
        device_fingerprint_hash: sha256(&[key; 32]).to_vec(),
        trust_level: "standard".into(),
        status: "active".into(),
        trust_proof_type: "device_signature_and_mfa".into(),
        created_at_epoch_millis: 1,
        last_used_at_epoch_millis: None,
        expires_at_epoch_millis: 2_592_000_001,
        revoked_at_epoch_millis: None,
    }
}

fn rotation() -> DeviceKeyRotation {
    build_rotation(
        "account-1",
        &device(DeviceLifecycleStatus::Online),
        "key-2".into(),
        [8; 32],
        expectation(),
        "audit-rotation".into(),
        "request-1",
        NOW,
    )
    .expect("rotation")
}

fn rotation_facts() -> RotationFacts {
    RotationFacts {
        step_up: Some(LockedStepUp {
            account_id: "account-1".into(),
            device_id: Some("device-1".into()),
            purpose: expectation().purpose,
            operation_binding_hash: vec![9; 32],
            status: "verified".into(),
            verified_at_epoch_millis: Some(1),
            consumed_at_epoch_millis: None,
            expires_at_epoch_millis: NOW as i64 + 1,
        }),
        device: Some(Ok(device(DeviceLifecycleStatus::Online))),
        key_id_taken: false,
        rotation_audit: Ok(audit("audit-rotation", "device_public_key_rotated")),
        sessions: vec![session_row("connected", 4)],
        trusts: vec![trust_row("trust-1", 7), trust_row("trust-2", 6)],
    }
}

#[test]
fn a_rotation_replaces_the_key_and_ends_what_rested_on_it() {
    let decision = rotate_device_key(&rotation(), rotation_facts()).expect("rotate");
    assert_eq!(decision.device.public_key_id, "key-2");
    assert_eq!(decision.device.public_key, [8; 32]);
    assert_eq!(decision.device.public_key_version, 2);
    assert_eq!(decision.closed.len(), 1);
    assert_eq!(decision.closed[0].from_status, SessionStatus::Connected);
    assert_eq!(decision.closed[0].session.status, SessionStatus::Closed);
    assert_eq!(decision.closed[0].session.relay_token_epoch, 5);
    assert_eq!(
        decision.closed[0].session.ended_at_epoch_millis,
        Some(NOW)
    );
    assert!(decision.revoked_trusts.contains_key("trust-1"));
    assert!(!decision.revoked_trusts.contains_key("trust-2"));
    assert_eq!(
        decision.trust_audits[0].audit_id,
        "audit-rotation:trusted-device:trust-1"
    );

    let mut database = Database::new();
    database.device_public_keys.insert(
        "key-1".into(),
        DevicePublicKeyRecord {
            public_key_id: "key-1".into(),
            device_id: "device-1".into(),
            public_key: [7; 32],
            version: 1,
            created_at_epoch_millis: 1,
            revoked_at_epoch_millis: None,
        },
    );
    let event = closing_event(&decision.closed[0].session);
    publish_rotation(
        &mut database,
        &rotation(),
        &decision,
        &vec![event],
        &vec![audit("audit-closing", "session_closed")],
        &Ok(()),
    ).expect("published");
    assert_eq!(
        database
            .device_public_keys
            .get("key-1")
            .and_then(|key| key.revoked_at_epoch_millis),
        Some(NOW)
    );
    assert_eq!(
        database.device_public_keys.get("key-2").map(|key| key.version),
        Some(2)
    );
    assert_eq!(
        database.sessions.get("remote-1").map(|held| held.status),
        Some(SessionStatus::Closed)
    );
    assert_eq!(database.audit_logs.len(), 3);
    assert_eq!(database.session_events.len(), 1);
}

fn closing_event(session: &Session) -> SessionEvent {
    SessionEvent {
        event_id: "event-1".into(),
        session_id: session.session_id.clone(),
        event_type: "session_closed".into(),
        from_status: Some(SessionStatus::Connected),
        to_status: SessionStatus::Closed,
        actor_type: "system".into(),
        actor_account_id: None,
        actor_device_id: None,
        actor_role: None,
        reason: Some("device_key_rotated".into()),
        idempotency_key_hash: "0".repeat(64),
        request_id: "request-1".into(),
        created_at_epoch_millis: NOW,
        result_session: Some(session.duplicate()),
    }
}

#[test]
fn a_rotation_that_does_not_fit_is_refused() {
    let refuse = |rotation: DeviceKeyRotation, facts: RotationFacts, error: StoreError| {
        assert_eq!(
            rotate_device_key(&rotation, facts).map(|decision| decision.device),
            Err(error)
        );
    };
    let mut taken = rotation_facts();
    taken.key_id_taken = true;
    refuse(rotation(), taken, StoreError::Conflict);
    let mut same_key = rotation();
    same_key.new_public_key = [7; 32];
    refuse(same_key, rotation_facts(), StoreError::Conflict);
    let mut skipping = rotation();
    skipping.new_public_key_version = 3;
    refuse(skipping, rotation_facts(), StoreError::Conflict);
    let mut uncovered = rotation_facts();
    uncovered.step_up = None;
    refuse(rotation(), uncovered, StoreError::Conflict);
    let mut unreadable = rotation_facts();
    unreadable.sessions = vec![session_row("unheard_of", 4)];
    refuse(rotation(), unreadable, StoreError::Unavailable);
    let mut spent = rotation_facts();
    spent.sessions = vec![session_row("connected", i64::MAX)];
    refuse(rotation(), spent, StoreError::Conflict);

    let mut last_version = device(DeviceLifecycleStatus::Online);
    last_version.public_key_version = u32::MAX;
    assert_eq!(
        build_rotation(
            "account-1",
            &last_version,
            "key-2".into(),
            [8; 32],
            expectation(),
            "audit-rotation".into(),
            "request-1",
            NOW
        )
        .map(|built| built.new_public_key_version)
        .unwrap_err()
        .code,
        "device_key_version_exhausted"
    );
}

#[test]
fn what_a_rotation_ends_is_read_as_it_leaves_it() {
    let mut odd = rotation_facts();
    odd.sessions[0].updated_at_epoch_millis = -1;
    odd.sessions[0].ended_at_epoch_millis = Some(-1);
    odd.sessions[0].relay_token_epoch = -1;
    odd.trusts[0].revoked_at_epoch_millis = Some(-1);
    let decision = rotate_device_key(&rotation(), odd).expect("rotate");
    let closed = &decision.closed[0].session;
    assert_eq!(closed.updated_at_epoch_millis, NOW);
    assert_eq!(closed.ended_at_epoch_millis, Some(NOW));
    assert_eq!(closed.relay_token_epoch, 0);
    assert_eq!(
        decision
            .revoked_trusts
            .get("trust-1")
            .and_then(|trusted| trusted.revoked_at_epoch_millis),
        Some(NOW)
    );
    let mut unreadable = rotation_facts();
    unreadable.sessions[0].created_at_epoch_millis = -1;
    assert!(rotate_device_key(&rotation(), unreadable).is_err());
}

#[test]
fn a_rotation_request_proves_the_new_key() {
    let asked = |version: u32| RotateDeviceKeyRequest {
        current_public_key_id: "key-1".into(),
        current_public_key_version: version,
        new_public_key: "encoded".into(),
        new_public_key_proof: "proof".into(),
    };
    let signed = device(DeviceLifecycleStatus::Online);
    let code = |version: u32, key: Option<[u8; 32]>, proved: bool| {
        check_rotation(&asked(version), "device-1", &signed, &key, proved, "request")
            .map_err(|error| error.code)
    };
    assert_eq!(code(1, Some([8; 32]), true), Ok([8; 32]));
    assert_eq!(
        code(2, Some([8; 32]), true),
        Err("current_device_key_mismatch".into())
    );
    assert_eq!(code(1, None, true), Err("invalid_public_key".into()));
    assert_eq!(
        code(1, Some([7; 32]), true),
        Err("unchanged_public_key".into())
    );
    assert_eq!(
        code(1, Some([8; 32]), false),
        Err("new_device_key_proof_failed".into())
    );
}

fn target(status: DeviceLifecycleStatus) -> Device {
    Device {
        device_id: "device-2".into(),
        public_key_id: "key-9".into(),
        ..device(status)
    }
}

fn change(
    display_name: Option<&str>,
    action: Option<DeviceManagementAction>,
) -> DeviceManagementCommand {
    build_device_update(
        "account-1",
        &device(DeviceLifecycleStatus::Online),
        &target(DeviceLifecycleStatus::Online),
        display_name.map(Into::into),
        action,
        "audit-change".into(),
        "request-1",
        NOW,
    )
}

fn management_facts(managed: Option<Device>) -> ManagementFacts {
    ManagementFacts {
        account_active: true,
        actor: Some(Ok(device(DeviceLifecycleStatus::Online))),
        target: Some(Ok(target(DeviceLifecycleStatus::Online))),
        managed,
        authority_audits: Ok(vec![audit("audit-change", "device_unregistered")]),
        close_reason: Some("device_unbound".into()),
        sessions: vec![session_row("accepted", 0)],
        trusts: vec![TrustedDeviceRow {
            controller_device_id: "device-2".into(),
            ..trust_row("trust-1", 7)
        }],
        account_sessions: vec![AccountSessionRow {
            account_session_id: "session-1".into(),
            account_id: "account-1".into(),
            refresh_token_hash: vec![7; 32],
            mfa_verified: true,
            expires_at_epoch_millis: NOW as i64 + 1,
            revoked_at_epoch_millis: None,
            revoked_reason: None,
        }],
    }
}

#[test]
fn an_unbound_device_loses_everything() {
    let command = change(None, Some(DeviceManagementAction::Unbind));
    let decision = manage_device(
        &command,
        management_facts(Some(target(DeviceLifecycleStatus::Unbound))),
    )
    .expect("managed");
    assert_eq!(decision.device.status, DeviceLifecycleStatus::Unbound);
    assert_eq!(decision.closed.len(), 1);
    assert_eq!(decision.closed[0].session.status, SessionStatus::Closed);
    assert!(decision.revoked_trusts.contains_key("trust-1"));
    let revoked: &AccountSession = decision
        .revoked_sessions
        .get("session-1")
        .expect("revoked session");
    assert_eq!(revoked.revoked_reason.as_deref(), Some("device_unbound"));

    let mut database = Database::new();
    let event = closing_event(&decision.closed[0].session);
    publish_management(&mut database, &command, &decision, &vec![event], &Vec::new(), &Ok(())).expect("published");
    assert_eq!(
        database.devices.get("device-2").map(|held| held.status),
        Some(DeviceLifecycleStatus::Unbound)
    );
    assert_eq!(
        database
            .trusted_controller_devices
            .get("trust-1")
            .map(|trusted| trusted.status),
        Some(TrustedDeviceStatus::Revoked)
    );
    assert_eq!(
        database
            .account_sessions
            .get("session-1")
            .and_then(|session| session.revoked_at_epoch_millis),
        Some(NOW)
    );
}

#[test]
fn account_sessions_outlive_a_disabled_device() {
    let decision = manage_device(
        &change(None, Some(DeviceManagementAction::Disable)),
        management_facts(Some(target(DeviceLifecycleStatus::Disabled))),
    )
    .expect("managed");
    assert_eq!(decision.revoked_sessions.len(), 0);
    assert_eq!(decision.revoked_trusts.len(), 1);
    assert!(!device_management_revokes_account_sessions(None));
    assert!(!device_management_revokes_account_sessions(Some(
        DeviceManagementAction::Disable
    )));
    assert!(!device_management_revokes_account_sessions(Some(
        DeviceManagementAction::Restore
    )));
    assert!(device_management_revokes_account_sessions(Some(
        DeviceManagementAction::Unbind
    )));
    assert!(device_management_revokes_account_sessions(Some(
        DeviceManagementAction::RevokePublicKey
    )));
    for status in [
        DeviceLifecycleStatus::Suspended,
        DeviceLifecycleStatus::Disabled,
        DeviceLifecycleStatus::Unbound,
    ] {
        assert!(!is_authorizable(status));
    }
    assert!(is_authorizable(DeviceLifecycleStatus::Busy));
}

#[test]
fn a_device_change_that_may_not_be_made_ends() {
    let command = change(None, Some(DeviceManagementAction::Unbind));
    let ended = |facts: ManagementFacts| {
        manage_device(&command, facts)
            .map(|decision| decision.device)
            .expect_err("ended")
    };
    assert_eq!(
        ended(management_facts(None)),
        ManagementEnd::InvalidTransition
    );
    let unbound = || Some(target(DeviceLifecycleStatus::Unbound));
    let mut no_target = management_facts(unbound());
    no_target.target = None;
    assert_eq!(ended(no_target), ManagementEnd::NotFound);
    let mut blocked_actor = management_facts(unbound());
    blocked_actor.actor = Some(Ok(device(DeviceLifecycleStatus::Disabled)));
    assert_eq!(
        ended(blocked_actor),
        ManagementEnd::Fail(StoreError::Conflict)
    );
    let mut unreadable = management_facts(unbound());
    unreadable.target = Some(Err("unreadable".into()));
    assert_eq!(
        ended(unreadable),
        ManagementEnd::Fail(StoreError::Unavailable)
    );
    let code = |end: ManagementEnd| match device_update_error(end, "request") {
        Fault::Refused(error) => error.code,
        other => panic!("unexpected fault: {other:?}"),
    };
    assert_eq!(code(ManagementEnd::NotFound), "device_not_found");
    assert_eq!(
        code(ManagementEnd::InvalidTransition),
        "invalid_device_transition"
    );
    assert_eq!(
        code(ManagementEnd::Fail(StoreError::Conflict)),
        "device_update_conflict"
    );
    assert_eq!(
        device_update_error(ManagementEnd::Fail(StoreError::Unavailable), "request"),
        Fault::Internal
    );
}

#[test]
fn an_update_names_one_change() {
    let asked = |name: Option<&str>, action: Option<DeviceActionRequest>| UpdateDeviceRequest {
        display_name: name.map(Into::into),
        action,
    };
    assert_eq!(
        check_device_update(&asked(Some("  Desk  "), None), "request"),
        Ok((Some("Desk".into()), None))
    );
    assert_eq!(
        check_device_update(&asked(None, Some(DeviceActionRequest::Restore)), "request"),
        Ok((None, Some(DeviceManagementAction::Restore)))
    );
    for refused in [
        asked(None, None),
        asked(Some("Desk"), Some(DeviceActionRequest::Disable)),
        asked(Some("   "), None),
        UpdateDeviceRequest {
            display_name: Some("n".repeat(101)),
            action: None,
        },
    ] {
        assert_eq!(
            check_device_update(&refused, "request").unwrap_err().code,
            "invalid_device_update"
        );
    }
    assert_eq!(
        device_management_action_name(DeviceManagementAction::RevokePublicKey),
        "revoke_public_key"
    );
    let command = change(None, Some(DeviceManagementAction::RevokePublicKey));
    assert_eq!(command.audit_entry.action, "device_public_key_revoked");
    assert_eq!(
        command.audit_entry.metadata.get("revocation_reason"),
        Some(&JsonValue::Text("user_requested".into()))
    );
    assert_eq!(
        command.audit_entry.metadata.get("revoked_at_epoch_millis"),
        Some(&JsonValue::Unsigned(NOW))
    );
}

#[test]
fn both_sides_of_a_closed_session_are_told() {
    let session = Session {
        session_id: "remote-1".into(),
        controller_account_id: "account-1".into(),
        controller_device_id: "device-1".into(),
        controlled_device_id: "device-2".into(),
        auth_method: AuthMethod::AccountPrompt,
        status: SessionStatus::Closed,
        permissions: SessionPermissions {
            document: "{}".into(),
            allow_relay: false,
        },
        permissions_digest: "0".repeat(64),
        policy_evaluation_id: "policy-1".into(),
        relay_token_epoch: 1,
        session_expires_at_epoch_millis: NOW,
        created_at_epoch_millis: 1,
        updated_at_epoch_millis: 2,
        ended_at_epoch_millis: Some(3),
    };
    let notices = notify_forced_session_closures(&vec![closing_event(&session)]);
    let told: Vec<(&str, usize)> = notices
        .iter()
        .map(|notice| (notice.device_id.as_str(), notice.event))
        .collect();
    assert_eq!(told, vec![("device-1", 0), ("device-2", 0)]);
}

#[test]
fn a_trusted_device_row_keeps_its_fields() {
    let trusted: TrustedControllerDevice =
        api_server::rows::trusted_device_from_row(trust_row("trust-1", 7)).expect("trust");
    assert_eq!(trusted.device_fingerprint_hash, sha256(&[7; 32]));
    assert_eq!(trusted.status, TrustedDeviceStatus::Active);
    let mut unknown = trust_row("trust-1", 7);
    unknown.status = "lapsed".into();
    assert!(api_server::rows::trusted_device_from_row(unknown).is_err());
}

#[test]
fn a_registration_request_is_refused_for_its_first_fault() {
    let asked = || request(Platform::Ubuntu, true, true, false, false);
    let code = |request: &RegisterDeviceRequest, key: Option<[u8; 32]>| {
        check_registration_request(request, &key, "request")
            .map(|parts| (parts.grant_id.to_owned(), parts.grant_secret.to_owned()))
            .map_err(|error| error.message)
    };
    assert_eq!(
        code(&asked(), Some([7; 32])),
        Ok(("grant".into(), "secret".into()))
    );
    assert_eq!(
        code(&asked(), None),
        Err("public_key must encode exactly 32 Ed25519 bytes".into())
    );
    let mut bare = asked();
    bare.device_enrollment_grant = None;
    assert_eq!(
        code(&bare, None),
        Err("device_enrollment_grant is required".into())
    );
    let mut malformed = asked();
    malformed.device_enrollment_grant = Some("grant".into());
    assert_eq!(
        code(&malformed, None),
        Err("device_enrollment_grant must contain a grant id and secret".into())
    );
    let mut unnamed = asked();
    unnamed.device_id = String::new();
    unnamed.device_enrollment_grant = None;
    assert_eq!(
        code(&unnamed, None),
        Err("device_id must contain 1 to 128 ASCII letters, digits, '-' or '_'".into())
    );
}

#[test]
fn conflicts_of_device_changes_are_told() {
    let code = |fault: Fault| match fault {
        Fault::Refused(error) => (error.status, error.code),
        other => panic!("unexpected fault: {other:?}"),
    };
    assert_eq!(
        code(registration_error(StoreError::Conflict, "request")),
        (409, "device_registration_conflict".into())
    );
    assert_eq!(
        code(rotation_error(StoreError::Conflict, "request")),
        (409, "device_key_rotation_conflict".into())
    );
    assert_eq!(
        registration_error(StoreError::Unavailable, "request"),
        Fault::Internal
    );
    assert_eq!(
        rotation_error(StoreError::Unavailable, "request"),
        Fault::Internal
    );
}

#[test]
fn a_device_change_that_cannot_be_written_changes_nothing() {
    let command = change(None, Some(DeviceManagementAction::Unbind));
    let decision = manage_device(
        &command,
        management_facts(Some(target(DeviceLifecycleStatus::Unbound))),
    )
    .expect("managed");
    let event = closing_event(&decision.closed[0].session);
    let mut database = Database::new();
    database
        .devices
        .insert("device-2".into(), target(DeviceLifecycleStatus::Online));
    let before = database.duplicate();
    assert_eq!(
        publish_management(
            &mut database,
            &command,
            &decision,
            &vec![event],
            &Vec::new(),
            &Err(PersistenceError::Database { key_taken: true })
        ),
        Err(StoreError::Conflict)
    );
    assert!(database == before);
}
