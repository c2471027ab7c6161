use api_server::account::{AccountSession, MfaFactor, RecoveryCode};
use api_server::audit::AuditEntry;
use api_server::challenge::{
    LoginChallengeAuthority, LoginChallengeContext, LoginDeviceState, RiskChallenge,
    RiskChallengeStatus,
};
use api_server::database::Database;
use api_server::device::{
    DeviceEnrollmentGrant, TrustedControllerDevice, TrustedDeviceStatus,
};
use api_server::factor::{find_recovery_code, AcceptedProof, LockedRecoveryCode};
use api_server::hash::sha256;
use api_server::login_finish::{
    finish_login, publish_login, publish_login_end, LockedAccount, LockedLoginDevice,
    LoginFinishCommand, LoginFinishEnd, LoginFinishFacts, LoginFinishOutcome,
};
use api_server::revocation::RevokedTrust;
use api_server::store::{PersistenceError, StoreError};
use api_server::table::{Record, Table};

const NOW: u64 = 1_000_000;

fn audit(audit_id: &str, action: &str, result: &str) -> AuditEntry {
    AuditEntry {
        audit_id: audit_id.into(),
        actor_type: "account".into(),
        actor_account_id: Some("account-1".into()),
        actor_device_id: None,
        actor_role: None,
        actor_service: None,
        target_device_id: None,
        session_id: None,
        action: action.into(),
        result: result.into(),
        reason: None,
        metadata: Table::new(),
        request_id: "request-1".into(),
        created_at_epoch_millis: NOW,
    }
}

fn factors(mfa: bool) -> Vec<String> {
    if mfa {
        vec!["totp".into(), "recovery_code".into()]
    } else {
        Vec::new()
    }
}

fn authority(mfa: bool) -> LoginChallengeAuthority {
    LoginChallengeAuthority {
        challenge: RiskChallenge {
            risk_challenge_id: "challenge-1".into(),
            account_id: "account-1".into(),
            device_id: Some("device-1".into()),
            purpose: "login_mfa".into(),
            operation_binding_hash: [9; 32],
            risk_level: "low".into(),
            required_methods: factors(mfa),
            status: RiskChallengeStatus::Issued,
            attempts_remaining: 5,
            ip_address: None,
            user_agent: None,
            expires_at_epoch_millis: NOW + 300_000,
            created_at_epoch_millis: NOW - 10,
            verified_at_epoch_millis: None,
            consumed_at_epoch_millis: None,
        },
        context: LoginChallengeContext {
            device_state: LoginDeviceState::Registered,
            device_id: "device-1".into(),
            account_updated_at_epoch_millis: 77,
            device_public_key: [3; 32],
            device_public_key_fingerprint: sha256(&[3; 32]),
            public_key_id: Some("key-1".into()),
            public_key_version: 1,
            client_nonce: [31; 32],
            server_nonce: [32; 32],
            login_request_binding_hash: [33; 32],
            login_challenge_binding_hash: [9; 32],
            ip_address_hash: [34; 32],
            user_agent_hash: [35; 32],
            required_factors: factors(mfa),
            trusted_device_id: None,
            protocol_version: 1,
            issued_at_epoch_millis: NOW - 10,
            attempts_limit: 5,
        },
    }
}

fn session() -> AccountSession {
    AccountSession {
        account_session_id: "session-1".into(),
        account_id: "account-1".into(),
        refresh_token_hash: [5; 32],
        mfa_verified: true,
        expires_at_epoch_millis: NOW + 600_000,
        revoked_at_epoch_millis: None,
        revoked_reason: None,
    }
}

fn trust(id: &str, proof: &str, level: &str, ttl: u64) -> TrustedControllerDevice {
    TrustedControllerDevice {
        trusted_device_id: id.into(),
        account_id: "account-1".into(),
        controller_device_id: "device-1".into(),
        device_fingerprint_hash: sha256(&[3; 32]),
        trust_level: level.into(),
        status: TrustedDeviceStatus::Active,
        trust_proof_type: proof.into(),
        created_at_epoch_millis: NOW,
        last_used_at_epoch_millis: None,
        expires_at_epoch_millis: NOW + ttl,
        revoked_at_epoch_millis: None,
    }
}

fn totp_trust(id: &str) -> TrustedControllerDevice {
    trust(id, "device_signature_and_mfa", "standard", 2_592_000_000)
}

fn command(factor: Option<&str>) -> LoginFinishCommand {
    let mut audit_entries = vec![
        audit("audit-mfa", "mfa_challenge_succeeded", "success"),
        audit("audit-login", "login_succeeded", "success"),
    ];
    let trusted_device_to_create = match factor {
        Some("recovery_code") => Some(trust(
            "trust-new",
            "device_signature_and_recovery_code",
            "high_risk_step_up_required",
            86_400_000,
        )),
        Some(_) => Some(totp_trust("trust-new")),
        None => None,
    };
    if trusted_device_to_create.is_some() {
        audit_entries.push(audit("audit-trust", "trusted_device_added", "success"));
    }
    LoginFinishCommand {
        challenge_id: "challenge-1".into(),
        account_id: "account-1".into(),
        account_updated_at_epoch_millis: 77,
        persistent_device_id: Some("device-1".into()),
        device_id: "device-1".into(),
        public_key_id: Some("key-1".into()),
        public_key_version: 1,
        device_public_key_fingerprint: sha256(&[3; 32]),
        challenge_binding_hash: [9; 32],
        required_factors: factors(factor.is_some()),
        factor_kind: factor.map(Into::into),
        factor_code: factor.map(|_| "123456".into()),
        trusted_device_id_to_use: None,
        account_session: session(),
        enrollment_grant: None,
        trusted_device_to_create,
        audit_entries,
        failure_audit_entry: audit("audit-failure", "mfa_challenge_failed", "failure"),
        now_epoch_millis: NOW,
    }
}

fn totp_factor() -> MfaFactor {
    MfaFactor {
        factor_id: "factor-1".into(),
        account_id: "account-1".into(),
        secret_base32: "JBSWY3DPEHPK3PXP".into(),
        active: true,
        last_used_counter: Some(41),
        created_at_epoch_millis: 1,
    }
}

fn device() -> LockedLoginDevice {
    LockedLoginDevice {
        account_id: "account-1".into(),
        public_key_id: "key-1".into(),
        public_key: vec![3; 32],
        public_key_version: 1,
        public_key_revoked_at_epoch_millis: None,
        status: "offline".into(),
    }
}

fn facts(mfa: bool) -> LoginFinishFacts {
    LoginFinishFacts {
        account: Some(LockedAccount {
            status: "active".into(),
            updated_at_epoch_millis: 77,
        }),
        authority: Some(Ok(authority(mfa))),
        binding_valid: true,
        artifacts: Ok(()),
        device: Some(device()),
        mfa_enabled: mfa,
        trusted: None,
        totp_factor: Some(Ok(totp_factor())),
        totp_counter: Some(42),
        recovery_code_id: Ok(None),
        active_trusts: Vec::new(),
    }
}

fn end(command: &LoginFinishCommand, facts: LoginFinishFacts) -> LoginFinishEnd {
    finish_login(command, facts).expect_err("the login ends early")
}

#[test]
fn a_login_without_a_second_factor_completes() {
    let decision = finish_login(&command(None), facts(false)).expect("complete");
    assert_eq!(decision.challenge.status, RiskChallengeStatus::Consumed);
    assert_eq!(decision.challenge.consumed_at_epoch_millis, Some(NOW));
    assert_eq!(decision.challenge.verified_at_epoch_millis, Some(NOW));
    assert_eq!(decision.accepted, AcceptedProof::Password);

    let mut database = Database::new();
    assert_eq!(
        publish_login(&mut database, &command(None), decision, &Ok(())).expect("published"),
        LoginFinishOutcome::Completed
    );
    assert!(database.account_sessions.get("session-1") == Some(&session()));
    assert_eq!(database.audit_logs.len(), 2);
}

#[test]
fn a_consumed_login_challenge_is_not_accepted_again() {
    let decision = finish_login(&command(Some("totp")), facts(true)).expect("complete");
    let mut later = facts(true);
    later.authority = Some(Ok(LoginChallengeAuthority {
        challenge: decision.challenge,
        ..authority(true)
    }));
    assert_eq!(
        end(&command(Some("totp")), later),
        LoginFinishEnd::Answer(LoginFinishOutcome::InvalidChallenge)
    );
}

#[test]
fn a_totp_login_uses_its_time_step_and_replaces_the_trust() {
    let mut given = facts(true);
    given.active_trusts = vec![RevokedTrust {
        trusted_device_id: "trust-old".into(),
        controller_device_id: "device-1".into(),
    }];
    let request = command(Some("totp"));
    let decision = finish_login(&request, given).expect("complete");
    assert_eq!(
        decision.accepted,
        AcceptedProof::Totp(MfaFactor {
            last_used_counter: Some(42),
            ..totp_factor()
        })
    );
    assert_eq!(decision.revocation_audits.len(), 1);
    assert_eq!(
        decision.revocation_audits[0].audit_id,
        "audit-trust:trusted-device:trust-old"
    );
    assert_eq!(
        decision.revocation_audits[0].reason.as_deref(),
        Some("refreshed")
    );

    let mut database = Database::new();
    database
        .mfa_factors
        .insert("factor-1".into(), totp_factor());
    database
        .trusted_controller_devices
        .insert("trust-old".into(), totp_trust("trust-old"));
    publish_login(&mut database, &request, decision, &Ok(())).expect("published");
    assert_eq!(
        database
            .mfa_factors
            .get("factor-1")
            .and_then(|factor| factor.last_used_counter),
        Some(42)
    );
    let old = database
        .trusted_controller_devices
        .get("trust-old")
        .expect("old trust");
    assert_eq!(old.status, TrustedDeviceStatus::Revoked);
    assert_eq!(old.revoked_at_epoch_millis, Some(NOW));
    let new = database
        .trusted_controller_devices
        .get("trust-new")
        .expect("new trust");
    assert_eq!(new.status, TrustedDeviceStatus::Active);
    let actions: Vec<&str> = database
        .audit_logs
        .iter()
        .map(|entry| entry.action.as_str())
        .collect();
    assert_eq!(
        actions,
        vec![
            "trusted_device_revoked",
            "mfa_challenge_succeeded",
            "login_succeeded",
            "trusted_device_added"
        ]
    );
}

#[test]
fn a_recovery_code_login_uses_the_code() {
    let mut given = facts(true);
    given.recovery_code_id = Ok(Some("code-1".into()));
    let request = command(Some("recovery_code"));
    let decision = finish_login(&request, given).expect("complete");
    assert_eq!(
        decision.accepted,
        AcceptedProof::RecoveryCode("code-1".into())
    );
    let mut database = Database::new();
    database.recovery_codes.insert(
        "code-1".into(),
        RecoveryCode {
            recovery_code_id: "code-1".into(),
            account_id: "account-1".into(),
            code_hash: [1; 32],
            used_at_epoch_millis: None,
            expires_at_epoch_millis: None,
        },
    );
    publish_login(&mut database, &request, decision, &Ok(())).expect("published");
    assert_eq!(
        database
            .recovery_codes
            .get("code-1")
            .and_then(|code| code.used_at_epoch_millis),
        Some(NOW)
    );
}

#[test]
fn a_wrong_code_costs_an_attempt_and_the_last_one_fails_the_challenge() {
    for (attempts, left, status) in [
        (5, 4, RiskChallengeStatus::Issued),
        (1, 0, RiskChallengeStatus::Failed),
    ] {
        let mut given = facts(true);
        given.totp_counter = None;
        let mut found = authority(true);
        found.challenge.attempts_remaining = attempts;
        given.authority = Some(Ok(found));
        match end(&command(Some("totp")), given) {
            LoginFinishEnd::Challenge {
                outcome,
                challenge,
                audit,
            } => {
                assert_eq!(outcome, LoginFinishOutcome::InvalidFactor);
                assert_eq!(challenge.attempts_remaining, left);
                assert_eq!(challenge.status, status);
                assert_eq!(audit.audit_id, "audit-failure");
                assert_eq!(audit.reason, None);
            }
            other => panic!("unexpected end: {other:?}"),
        }
    }
}

#[test]
fn an_expired_challenge_is_stored_as_expired() {
    let mut given = facts(false);
    let mut found = authority(false);
    found.challenge.expires_at_epoch_millis = NOW;
    given.authority = Some(Ok(found));
    let ended = end(&command(None), given);
    let mut database = Database::new();
    assert_eq!(
        publish_login_end(&mut database, ended, &Ok(())),
        Ok(LoginFinishOutcome::InvalidChallenge)
    );
    assert_eq!(
        database
            .risk_challenges
            .get("challenge-1")
            .map(|challenge| challenge.status),
        Some(RiskChallengeStatus::Expired)
    );
    assert_eq!(database.audit_logs[0].reason.as_deref(), Some("expired"));
    assert_eq!(database.account_sessions.len(), 0);
}

#[test]
fn a_changed_account_or_device_rejects_the_login() {
    let mut changed_account = facts(false);
    changed_account.account = Some(LockedAccount {
        status: "active".into(),
        updated_at_epoch_millis: 78,
    });
    let mut locked_account = facts(false);
    locked_account.account = Some(LockedAccount {
        status: "locked".into(),
        updated_at_epoch_millis: 77,
    });
    let mut revoked_key = facts(false);
    revoked_key.device = Some(LockedLoginDevice {
        public_key_revoked_at_epoch_millis: Some(1),
        ..device()
    });
    let mut blocked = facts(false);
    blocked.device = Some(LockedLoginDevice {
        status: "disabled".into(),
        ..device()
    });
    let mut other_key = facts(false);
    other_key.device = Some(LockedLoginDevice {
        public_key: vec![4; 32],
        ..device()
    });
    let mut gone = facts(false);
    gone.device = None;
    for (given, reason) in [
        (changed_account, "account_security_changed"),
        (locked_account, "account_security_changed"),
        (revoked_key, "device_authority_changed"),
        (blocked, "device_authority_changed"),
        (other_key, "device_authority_changed"),
        (gone, "device_authority_changed"),
    ] {
        match end(&command(None), given) {
            LoginFinishEnd::Challenge {
                outcome,
                challenge,
                audit,
            } => {
                assert_eq!(outcome, LoginFinishOutcome::Rejected);
                assert_eq!(challenge.attempts_remaining, 4);
                assert_eq!(audit.reason.as_deref(), Some(reason));
            }
            other => panic!("unexpected end: {other:?}"),
        }
    }
}

#[test]
fn a_trusted_login_updates_its_last_use_without_sliding_the_expiry() {
    let mut request = command(None);
    request.trusted_device_id_to_use = Some("trust-1".into());
    let mut given = facts(false);
    given.mfa_enabled = true;
    given.trusted = Some(Ok(totp_trust("trust-1")));
    let decision = finish_login(&request, given).expect("complete");
    match &decision.accepted {
        AcceptedProof::TrustedDevice(trusted) => {
            assert_eq!(trusted.last_used_at_epoch_millis, Some(NOW));
            assert_eq!(trusted.expires_at_epoch_millis, NOW + 2_592_000_000);
        }
        other => panic!("unexpected proof: {other:?}"),
    }
    let mut database = Database::new();
    publish_login(&mut database, &request, decision, &Ok(())).expect("published");
    assert_eq!(
        database
            .trusted_controller_devices
            .get("trust-1")
            .and_then(|trusted| trusted.last_used_at_epoch_millis),
        Some(NOW)
    );
}

#[test]
fn a_trust_that_does_not_hold_is_refused() {
    let request = |trusted: Option<&str>| {
        let mut request = command(None);
        request.trusted_device_id_to_use = trusted.map(Into::into);
        request
    };
    let given = |trusted: Option<Result<TrustedControllerDevice, String>>| {
        let mut given = facts(false);
        given.mfa_enabled = true;
        given.trusted = trusted;
        given
    };
    let invalid = LoginFinishEnd::Answer(LoginFinishOutcome::InvalidTrust);
    assert_eq!(end(&request(None), given(None)), invalid);
    assert_eq!(end(&request(Some("trust-1")), given(None)), invalid);
    assert_eq!(
        end(
            &request(Some("trust-1")),
            given(Some(Err("unreadable".into())))
        ),
        LoginFinishEnd::Fail(StoreError::Unavailable)
    );
    let mut other_device = totp_trust("trust-1");
    other_device.controller_device_id = "device-2".into();
    assert_eq!(
        end(&request(Some("trust-1")), given(Some(Ok(other_device)))),
        invalid
    );
    let mut expired = totp_trust("trust-1");
    expired.expires_at_epoch_millis = NOW;
    let ended = end(&request(Some("trust-1")), given(Some(Ok(expired))));
    let mut database = Database::new();
    assert_eq!(
        publish_login_end(&mut database, ended, &Ok(())),
        Ok(LoginFinishOutcome::InvalidTrust)
    );
    assert_eq!(
        database
            .trusted_controller_devices
            .get("trust-1")
            .map(|trusted| trusted.status),
        Some(TrustedDeviceStatus::Expired)
    );
    let mut no_factor = facts(false);
    no_factor.mfa_enabled = false;
    assert_eq!(end(&request(Some("trust-1")), no_factor), invalid);
}

#[test]
fn a_factor_that_was_not_asked_for_is_refused() {
    let refused = LoginFinishEnd::Answer(LoginFinishOutcome::InvalidFactor);
    let mut offered = command(None);
    offered.factor_kind = Some("totp".into());
    assert_eq!(end(&offered, facts(false)), refused);

    let mut missing_code = command(Some("totp"));
    missing_code.factor_code = None;
    assert_eq!(end(&missing_code, facts(true)), refused);

    let mut unlisted = command(Some("totp"));
    unlisted.factor_kind = Some("sms".into());
    assert_eq!(end(&unlisted, facts(true)), refused);

    let mut disabled = facts(true);
    disabled.mfa_enabled = false;
    assert_eq!(end(&command(Some("totp")), disabled), refused);
}

#[test]
fn a_challenge_that_is_not_the_one_answered_is_invalid() {
    let invalid = LoginFinishEnd::Answer(LoginFinishOutcome::InvalidChallenge);
    let mut no_account = facts(false);
    no_account.account = None;
    assert_eq!(end(&command(None), no_account), invalid);
    let mut no_challenge = facts(false);
    no_challenge.authority = None;
    assert_eq!(end(&command(None), no_challenge), invalid);
    let mut unbound = facts(false);
    unbound.binding_valid = false;
    assert_eq!(end(&command(None), unbound), invalid);
    let mut other_hash = command(None);
    other_hash.challenge_binding_hash = [8; 32];
    assert_eq!(end(&other_hash, facts(false)), invalid);

    let mut unreadable = facts(false);
    unreadable.authority = Some(Err("unreadable".into()));
    assert_eq!(
        end(&command(None), unreadable),
        LoginFinishEnd::Fail(StoreError::Unavailable)
    );
    let mut negative = facts(false);
    negative.account = Some(LockedAccount {
        status: "active".into(),
        updated_at_epoch_millis: -1,
    });
    assert_eq!(
        end(&command(None), negative),
        LoginFinishEnd::Fail(StoreError::Unavailable)
    );
    let mut artifacts = facts(false);
    artifacts.artifacts = Err(StoreError::Conflict);
    assert_eq!(
        end(&command(None), artifacts),
        LoginFinishEnd::Fail(StoreError::Conflict)
    );
}

#[test]
fn records_that_do_not_fit_the_login_conflict() {
    let conflict = LoginFinishEnd::Fail(StoreError::Conflict);
    let mut without_trust = command(Some("totp"));
    without_trust.trusted_device_to_create = None;
    assert_eq!(end(&without_trust, facts(true)), conflict);

    let mut unlogged = command(Some("totp"));
    unlogged.audit_entries.pop();
    assert_eq!(end(&unlogged, facts(true)), conflict);

    let mut long_trust = command(Some("totp"));
    long_trust.trusted_device_to_create = Some(trust(
        "trust-new",
        "device_signature_and_mfa",
        "standard",
        2_592_000_001,
    ));
    assert_eq!(end(&long_trust, facts(true)), conflict);

    let mut unreadable_factor = facts(true);
    unreadable_factor.totp_factor = Some(Err("sealed for another".into()));
    assert_eq!(
        end(&command(Some("totp")), unreadable_factor),
        LoginFinishEnd::Fail(StoreError::Unavailable)
    );
}

fn pending(factor: Option<&str>) -> (LoginFinishCommand, LoginFinishFacts) {
    let mut request = command(factor);
    request.persistent_device_id = None;
    request.public_key_id = None;
    request.public_key_version = 0;
    request.trusted_device_to_create = None;
    request
        .audit_entries
        .push(audit("audit-grant", "device_enrollment_grant_issued", "success"));
    let earned = factor.is_some();
    request.enrollment_grant = Some(DeviceEnrollmentGrant {
        grant_id: "grant-1".into(),
        grant_secret_hash: [6; 32],
        account_id: "account-1".into(),
        device_id: "device-1".into(),
        device_public_key_fingerprint: sha256(&[3; 32]),
        login_challenge_id: "challenge-1".into(),
        login_challenge_binding_hash: [9; 32],
        trust_proof_type: earned.then_some("device_signature_and_mfa".to_owned()),
        trust_level: earned.then_some("standard".to_owned()),
        establish_trust: earned,
        protocol_version: 1,
        issued_account_session_id: "session-1".into(),
        issued_at_epoch_millis: NOW,
        expires_at_epoch_millis: NOW + 300_000,
        consumed_at_epoch_millis: None,
        registration_request_binding_hash: None,
        registered_public_key_id: None,
        registered_trusted_device_id: None,
    });
    let mut given = facts(factor.is_some());
    let mut found = authority(factor.is_some());
    found.challenge.device_id = None;
    found.context.device_state = LoginDeviceState::PendingEnrollment;
    given.authority = Some(Ok(found));
    given.device = None;
    (request, given)
}

#[test]
fn a_login_from_a_new_device_issues_a_grant() {
    let (request, given) = pending(Some("totp"));
    let decision = finish_login(&request, given).expect("complete");
    let mut database = Database::new();
    publish_login(&mut database, &request, decision, &Ok(())).expect("published");
    assert!(database.device_enrollment_grants.contains_key("grant-1"));
    assert!(database
        .audit_logs
        .iter()
        .all(|entry| entry.action != "device_enrollment_grant_issued"));
}

#[test]
fn a_grant_with_more_trust_than_the_factor_earns_conflicts() {
    let (mut request, given) = pending(None);
    if let Some(grant) = &mut request.enrollment_grant {
        grant.establish_trust = true;
        grant.trust_proof_type = Some("device_signature_and_mfa".into());
        grant.trust_level = Some("standard".into());
    }
    assert_eq!(
        end(&request, given),
        LoginFinishEnd::Fail(StoreError::Conflict)
    );
    let (mut outliving, given) = pending(None);
    if let Some(grant) = &mut outliving.enrollment_grant {
        grant.issued_at_epoch_millis = NOW + 1;
        grant.expires_at_epoch_millis = NOW + 300_001;
    }
    assert_eq!(
        end(&outliving, given),
        LoginFinishEnd::Fail(StoreError::Conflict)
    );
}

#[test]
fn a_duplicate_command_is_the_same_command() {
    let entry = audit("audit-1", "login_succeeded", "success");
    assert!(entry.duplicate().same(&entry));
}

fn code_rows(status: &str) -> Vec<LockedRecoveryCode> {
    vec![LockedRecoveryCode {
        recovery_code_id: "code-1".into(),
        account_id: "account-1".into(),
        code_hash: sha256(b"123456").to_vec(),
        status: status.into(),
        expires_at_epoch_millis: None,
    }]
}

#[test]
fn a_recovery_code_completes_one_of_two_logins() {
    let request = command(Some("recovery_code"));
    let found = |status: &str| find_recovery_code(&code_rows(status), "account-1", "123456", NOW);
    let mut first = facts(true);
    first.recovery_code_id = found("active");
    assert!(finish_login(&request, first).is_ok());
    let mut second = facts(true);
    second.recovery_code_id = found("used");
    assert!(matches!(
        end(&request, second),
        LoginFinishEnd::Challenge { outcome: LoginFinishOutcome::InvalidFactor, challenge, .. }
            if challenge.attempts_remaining == 4
    ));
    let mut twice = facts(true);
    twice.recovery_code_id = Err("held twice".into());
    assert_eq!(
        end(&request, twice),
        LoginFinishEnd::Fail(StoreError::Unavailable)
    );
}

#[test]
fn a_totp_code_completes_one_of_two_logins() {
    let step = |last: Option<u64>| if last < Some(42) { Some(42) } else { None };
    let request = command(Some("totp"));
    let mut first = facts(true);
    first.totp_counter = step(Some(41));
    let used = match finish_login(&request, first).expect("complete").accepted {
        AcceptedProof::Totp(used) => used,
        other => panic!("unexpected proof: {other:?}"),
    };
    let mut second = facts(true);
    second.totp_counter = step(used.last_used_counter);
    second.totp_factor = Some(Ok(used));
    assert!(matches!(
        end(&request, second),
        LoginFinishEnd::Challenge { outcome: LoginFinishOutcome::InvalidFactor, .. }
    ));
}

#[test]
fn a_login_that_cannot_be_written_changes_nothing() {
    let taken = || Err(PersistenceError::Database { key_taken: true });
    let request = command(Some("recovery_code"));
    let mut given = facts(true);
    given.recovery_code_id = Ok(Some("code-1".into()));
    given.active_trusts = vec![RevokedTrust {
        trusted_device_id: "trust-old".into(),
        controller_device_id: "device-1".into(),
    }];
    let decision = finish_login(&request, given).expect("complete");
    let mut database = Database::new();
    database
        .trusted_controller_devices
        .insert("trust-old".into(), totp_trust("trust-old"));
    let before = database.duplicate();
    assert_eq!(
        publish_login(&mut database, &request, decision, &taken()),
        Err(StoreError::Conflict)
    );
    assert!(database == before);

    let mut expired = authority(true);
    expired.challenge.expires_at_epoch_millis = NOW;
    let mut late = facts(true);
    late.authority = Some(Ok(expired));
    let ended = end(&command(Some("totp")), late);
    assert_eq!(
        publish_login_end(&mut database, ended, &taken()),
        Err(StoreError::Conflict)
    );
    assert!(database == before);
}
