use api_server::account::{
    Account, AccountSession, AccountStatus, MfaFactor, RecoveryCode, RecoveryCodeDelivery,
};
use api_server::account_sessions::{
    publish_logout, publish_refresh, revoke_account_session, rotate_refresh_session,
};
use api_server::audit::{AuditEntry, JsonValue};
use api_server::challenge::{RiskChallenge, RiskChallengeStatus};
use api_server::database::Database;
use api_server::device::{TrustedControllerDevice, TrustedDeviceStatus};
use api_server::enrollment::{
    finish_totp_enrollment, load_mfa_status, publish_enrollment, replay_totp_enrollment,
    EnrollmentFacts, FoundDelivery, LockedAccountSession, MfaFactorRow, TotpEnrollmentCompletion,
    TotpEnrollmentReplayLookup, TotpEnrollmentReplayOutcome,
};
use api_server::factor::{find_recovery_code, AcceptedProof, LockedRecoveryCode};
use api_server::hash::sha256;
use api_server::revocation::RevokedTrust;
use api_server::risk_challenge::{
    cancel_risk_challenge, create_risk_challenge, publish_cancellation, publish_factor,
    publish_risk_challenge,
    publish_verification, reject_login_challenge, verify_factor, verify_risk_challenge,
    Cancellation, FactorFacts, LockedAttempts, LockedDevice, RiskChallengeCreationOutcome,
    RiskChallengeVerification, RiskChallengeVerificationOutcome, VerificationDecision,
    VerificationFacts,
};
use api_server::rows::{AccountSessionRow, RiskChallengeRow};
use api_server::step_up::{
    apply_step_up_action, consume_step_up, publish_step_up, publish_step_up_action, LockedStepUp,
    StepUpAction, StepUpExpectation, StepUpFacts,
};
use api_server::store::{PersistenceError, StoreError};
use api_server::table::{Record, Table};

const NOW: u64 = 2_000_000;

fn audit(audit_id: &str, action: &str, result: &str) -> AuditEntry {
    AuditEntry {
        audit_id: audit_id.into(),
        actor_type: "account".into(),
        actor_account_id: Some("account-1".into()),
        actor_device_id: None,
        actor_role: None,
        actor_service: None,
        target_device_id: None,
        session_id: None,
        action: action.into(),
        result: result.into(),
        reason: None,
        metadata: Table::new(),
        request_id: "request-1".into(),
        created_at_epoch_millis: NOW,
    }
}

fn challenge() -> RiskChallenge {
    RiskChallenge {
        risk_challenge_id: "risk-1".into(),
        account_id: "account-1".into(),
        device_id: Some("device-1".into()),
        purpose: "password_change".into(),
        operation_binding_hash: [9; 32],
        risk_level: "high".into(),
        required_methods: vec!["totp".into(), "recovery_code".into()],
        status: RiskChallengeStatus::Issued,
        attempts_remaining: 2,
        ip_address: None,
        user_agent: None,
        expires_at_epoch_millis: NOW + 300_000,
        created_at_epoch_millis: NOW,
        verified_at_epoch_millis: None,
        consumed_at_epoch_millis: None,
    }
}

fn device() -> Option<LockedDevice> {
    Some(LockedDevice {
        account_id: "account-1".into(),
        status: "online".into(),
    })
}

fn factor() -> MfaFactor {
    MfaFactor {
        factor_id: "factor-1".into(),
        account_id: "account-1".into(),
        secret_base32: "JBSWY3DPEHPK3PXP".into(),
        active: true,
        last_used_counter: None,
        created_at_epoch_millis: 1,
    }
}

fn totp(counter: Option<u64>) -> FactorFacts {
    FactorFacts {
        totp_factor: Some(Ok(factor())),
        totp_counter: counter,
        recovery_code_id: Ok(None),
    }
}

#[test]
fn a_requested_challenge_requires_what_the_account_can_give() {
    let mut asked = challenge();
    asked.required_methods.clear();
    match create_risk_challenge(&asked, true, &device(), true, false) {
        Ok(RiskChallengeCreationOutcome::Created(issued)) => {
            assert_eq!(issued.required_methods, vec!["totp", "recovery_code"]);
        }
        other => panic!("unexpected outcome: {other:?}"),
    }
    match create_risk_challenge(&asked, true, &device(), false, false) {
        Ok(RiskChallengeCreationOutcome::Created(issued)) => {
            assert_eq!(issued.required_methods, vec!["password"]);
        }
        other => panic!("unexpected outcome: {other:?}"),
    }
    let mut other_purpose = asked.duplicate();
    other_purpose.purpose = "remote_reboot".into();
    assert_eq!(
        create_risk_challenge(&other_purpose, true, &device(), false, false),
        Ok(RiskChallengeCreationOutcome::MfaEnrollmentRequired)
    );
    assert_eq!(
        create_risk_challenge(&asked, false, &device(), true, false),
        Ok(RiskChallengeCreationOutcome::NotAuthorized)
    );
    assert_eq!(
        create_risk_challenge(&asked, true, &None, true, false),
        Ok(RiskChallengeCreationOutcome::NotAuthorized)
    );
    let mut login = asked.duplicate();
    login.purpose = "login_mfa".into();
    assert_eq!(
        create_risk_challenge(&login, true, &device(), true, false),
        Err(StoreError::Conflict)
    );
    assert_eq!(
        create_risk_challenge(&challenge(), true, &device(), true, false),
        Err(StoreError::Conflict)
    );
    let mut long = asked.duplicate();
    long.expires_at_epoch_millis = NOW + 300_001;
    assert_eq!(
        create_risk_challenge(&long, true, &device(), true, false),
        Err(StoreError::Unavailable)
    );
}

#[test]
fn a_cancellation_is_terminal() {
    let entry = AuditEntry {
        reason: Some("cancelled".into()),
        ..audit("audit-cancel", "risk_challenge_failed", "failure")
    };
    let first = cancel_risk_challenge(Some(Ok(challenge())), &entry).expect("cancel");
    let mut database = Database::new();
    assert!(publish_cancellation(&mut database, "risk-1", &first, &entry, &Ok(())).expect("published"));
    let cancelled = match first {
        Cancellation::Cancelled(cancelled) => cancelled,
        other => panic!("unexpected cancellation: {other:?}"),
    };
    assert_eq!(cancelled.status, RiskChallengeStatus::Cancelled);
    let second = cancel_risk_challenge(Some(Ok(cancelled.duplicate())), &entry).expect("cancel");
    assert!(!publish_cancellation(
        &mut database,
        "risk-1",
        &second,
        &entry, &Ok(())
    ).expect("published"));
    assert_eq!(database.audit_logs.len(), 1);
    let missing = cancel_risk_challenge(None, &entry).expect("cancel");
    assert!(!publish_cancellation(
        &mut database,
        "risk-1",
        &missing,
        &entry, &Ok(())
    ).expect("published"));
    assert!(!database.risk_challenges.contains_key("risk-1"));
    assert_eq!(
        cancel_risk_challenge(
            Some(Ok(challenge())),
            &audit("audit-cancel", "risk_challenge_failed", "failure")
        ),
        Err(StoreError::Conflict)
    );
    assert_eq!(
        cancel_risk_challenge(Some(Err("unreadable".into())), &entry),
        Err(StoreError::Unavailable)
    );

    let decision =
        verify_risk_challenge(&verification("totp"), given(cancelled, totp(Some(1)), false));
    assert_eq!(decision, Ok(VerificationDecision::Rejected));
}

fn verification(kind: &str) -> RiskChallengeVerification {
    RiskChallengeVerification {
        challenge_id: "risk-1".into(),
        account_id: "account-1".into(),
        factor_kind: kind.into(),
        factor_code: "123456".into(),
        success_audit_entry: audit("audit-ok", "risk_challenge_succeeded", "success"),
        failure_audit_entry: audit("audit-bad", "risk_challenge_failed", "failure"),
        recovery_code_audit_entry: Some(audit("audit-code", "mfa_recovery_code_used", "success")),
        now_epoch_millis: NOW + 1,
    }
}

fn given(found: RiskChallenge, factor: FactorFacts, password_valid: bool) -> VerificationFacts {
    VerificationFacts {
        account_status: Some("active".into()),
        challenge: Some(Ok(found)),
        device: device(),
        password_valid,
        factor,
    }
}

#[test]
fn a_challenge_is_verified_once_by_a_required_method() {
    let decision = verify_risk_challenge(
        &verification("totp"),
        given(challenge(), totp(Some(7)), false),
    )
    .expect("verify");
    let mut database = Database::new();
    database.mfa_factors.insert("factor-1".into(), factor());
    let verified = match publish_verification(&mut database, decision, NOW + 1, &Ok(())).expect("published") {
        RiskChallengeVerificationOutcome::Verified(verified) => verified,
        other => panic!("unexpected outcome: {other:?}"),
    };
    assert_eq!(verified.status, RiskChallengeStatus::Verified);
    assert_eq!(verified.verified_at_epoch_millis, Some(NOW + 1));
    assert_eq!(verified.attempts_remaining, 2);
    assert_eq!(
        database
            .mfa_factors
            .get("factor-1")
            .and_then(|factor| factor.last_used_counter),
        Some(7)
    );
    assert_eq!(database.audit_logs[0].audit_id, "audit-ok");

    let again = verify_risk_challenge(
        &verification("totp"),
        given(verified.duplicate(), totp(None), false),
    );
    assert_eq!(again, Ok(VerificationDecision::AlreadyVerified(verified)));
}

#[test]
fn a_recovery_code_needs_its_audit_entry() {
    let with_code = || FactorFacts {
        totp_factor: None,
        totp_counter: None,
        recovery_code_id: Ok(Some("code-1".into())),
    };
    match verify_risk_challenge(
        &verification("recovery_code"),
        given(challenge(), with_code(), false),
    ) {
        Ok(VerificationDecision::Verified {
            accepted, audits, ..
        }) => {
            assert_eq!(accepted, AcceptedProof::RecoveryCode("code-1".into()));
            assert_eq!(audits.len(), 2);
        }
        other => panic!("unexpected decision: {other:?}"),
    }
    let mut unlogged = verification("recovery_code");
    unlogged.recovery_code_audit_entry = None;
    assert_eq!(
        verify_risk_challenge(&unlogged, given(challenge(), with_code(), false)),
        Err(StoreError::Conflict)
    );
}

#[test]
fn a_password_verifies_only_a_password_change() {
    let mut by_password = challenge();
    by_password.required_methods = vec!["password".into()];
    assert!(matches!(
        verify_risk_challenge(
            &verification("password"),
            given(by_password.duplicate(), totp(None), true)
        ),
        Ok(VerificationDecision::Verified { .. })
    ));
    match verify_risk_challenge(
        &verification("password"),
        given(by_password.duplicate(), totp(None), false),
    ) {
        Ok(VerificationDecision::Recorded { challenge, audit }) => {
            assert_eq!(challenge.attempts_remaining, 1);
            assert_eq!(challenge.status, RiskChallengeStatus::Issued);
            assert_eq!(audit.audit_id, "audit-bad");
        }
        other => panic!("unexpected decision: {other:?}"),
    }
    by_password.purpose = "remote_reboot".into();
    assert!(matches!(
        verify_risk_challenge(
            &verification("password"),
            given(by_password, totp(None), true)
        ),
        Ok(VerificationDecision::Recorded { .. })
    ));
}

#[test]
fn a_challenge_out_of_time_expires_and_an_unfit_one_is_rejected() {
    let mut old = challenge();
    old.expires_at_epoch_millis = NOW + 1;
    match verify_risk_challenge(&verification("totp"), given(old, totp(Some(1)), false)) {
        Ok(VerificationDecision::Recorded { challenge, audit }) => {
            assert_eq!(challenge.status, RiskChallengeStatus::Expired);
            assert_eq!(challenge.attempts_remaining, 2);
            assert_eq!(audit.reason.as_deref(), Some("expired"));
        }
        other => panic!("unexpected decision: {other:?}"),
    }
    let mut spent = challenge();
    spent.attempts_remaining = 0;
    let mut foreign = challenge();
    foreign.account_id = "account-2".into();
    let mut login = challenge();
    login.purpose = "login_mfa".into();
    for unfit in [spent, foreign, login] {
        assert_eq!(
            verify_risk_challenge(&verification("totp"), given(unfit, totp(Some(1)), false)),
            Ok(VerificationDecision::Rejected)
        );
    }
    let mut locked = given(challenge(), totp(Some(1)), false);
    locked.account_status = Some("locked".into());
    assert_eq!(
        verify_risk_challenge(&verification("totp"), locked),
        Ok(VerificationDecision::Rejected)
    );
    let mut misattributed = verification("totp");
    misattributed.success_audit_entry.actor_account_id = Some("account-2".into());
    assert_eq!(
        verify_risk_challenge(&misattributed, given(challenge(), totp(Some(1)), false)),
        Err(StoreError::Conflict)
    );
    let mut unreadable = given(challenge(), totp(Some(1)), false);
    unreadable.factor.totp_factor = Some(Err("sealed for another".into()));
    assert_eq!(
        verify_risk_challenge(&verification("totp"), unreadable),
        Err(StoreError::Unavailable)
    );
}

fn attempts(left: i16) -> Option<Option<LockedAttempts>> {
    Some(Some(LockedAttempts {
        account_id: "account-1".into(),
        status: "issued".into(),
        attempts_remaining: left,
        expires_at_epoch_millis: NOW as i64 + 10,
    }))
}

#[test]
fn a_factor_is_checked_on_a_challenge_or_on_its_own() {
    let mut database = Database::new();
    database.risk_challenges.insert("risk-1".into(), challenge());
    let accepted =
        verify_factor(attempts(2), "account-1", "totp", NOW, totp(Some(5))).expect("check");
    assert!(publish_factor(
        &mut database,
        &Some("risk-1".into()),
        accepted,
        NOW, &Ok(())
    ).expect("published"));
    let held = database.risk_challenges.get("risk-1").expect("challenge");
    assert_eq!(held.status, RiskChallengeStatus::Verified);
    assert_eq!(held.verified_at_epoch_millis, Some(NOW));

    let refused = verify_factor(attempts(1), "account-1", "totp", NOW, totp(None)).expect("check");
    let attempt = refused.attempt.expect("attempt");
    assert_eq!(attempt.attempts_remaining, 0);
    assert_eq!(attempt.status, RiskChallengeStatus::Failed);
    assert!(!publish_factor(
        &mut database,
        &Some("risk-1".into()),
        refused,
        NOW, &Ok(())
    ).expect("published"));

    let alone = verify_factor(None, "account-1", "totp", NOW, totp(Some(5))).expect("check");
    assert!(alone.attempt.is_none());
    assert!(alone.accepted.is_some());
    assert_eq!(
        verify_factor(Some(None), "account-1", "totp", NOW, totp(Some(5))),
        Err(StoreError::Conflict)
    );
    assert_eq!(
        verify_factor(attempts(0), "account-1", "totp", NOW, totp(Some(5))),
        Err(StoreError::Conflict)
    );
    assert_eq!(
        verify_factor(attempts(2), "account-2", "totp", NOW, totp(Some(5))),
        Err(StoreError::Conflict)
    );
    assert_eq!(
        verify_factor(attempts(300), "account-1", "totp", NOW, totp(Some(5))),
        Err(StoreError::Unavailable)
    );
}

fn login_row() -> RiskChallengeRow {
    RiskChallengeRow {
        risk_challenge_id: "risk-1".into(),
        account_id: "account-1".into(),
        device_id: None,
        purpose: "login_mfa".into(),
        operation_binding_hash: vec![9; 32],
        risk_level: "medium".into(),
        required_methods: Some(vec![
            JsonValue::Text("totp".into()),
            JsonValue::Text("recovery_code".into()),
        ]),
        status: "issued".into(),
        attempts_remaining: 2,
        ip_address: None,
        user_agent: None,
        expires_at_epoch_millis: NOW as i64 + 1,
        created_at_epoch_millis: 1,
        verified_at_epoch_millis: None,
        consumed_at_epoch_millis: None,
    }
}

#[test]
fn a_refused_login_counts_only_against_its_own_open_challenge() {
    let counted = reject_login_challenge(Some(login_row()), &[9; 32], NOW)
        .expect("readable")
        .expect("counted");
    assert_eq!(counted.attempts_remaining, 1);
    assert_eq!(counted.status, RiskChallengeStatus::Issued);
    let mut last = login_row();
    last.attempts_remaining = 1;
    let failed = reject_login_challenge(Some(last), &[9; 32], NOW)
        .expect("readable")
        .expect("counted");
    assert_eq!(failed.attempts_remaining, 0);
    assert_eq!(failed.status, RiskChallengeStatus::Failed);
    assert_eq!(reject_login_challenge(None, &[9; 32], NOW), Ok(None));
    assert_eq!(
        reject_login_challenge(Some(login_row()), &[8; 32], NOW),
        Ok(None)
    );
    assert_eq!(
        reject_login_challenge(Some(login_row()), &[9; 32], NOW + 1),
        Ok(None)
    );
    let mut other = login_row();
    other.purpose = "password_change".into();
    assert_eq!(reject_login_challenge(Some(other), &[9; 32], NOW), Ok(None));
}

#[test]
fn a_counted_challenge_is_read_with_the_attempt_taken_off() {
    let mut one_too_many = login_row();
    one_too_many.attempts_remaining = 6;
    let counted = reject_login_challenge(Some(one_too_many), &[9; 32], NOW)
        .expect("readable")
        .expect("counted");
    assert_eq!(counted.attempts_remaining, 5);
    let mut two_too_many = login_row();
    two_too_many.attempts_remaining = 7;
    assert_eq!(
        reject_login_challenge(Some(two_too_many), &[9; 32], NOW),
        Err(StoreError::Unavailable)
    );
    let mut unreadable = login_row();
    unreadable.created_at_epoch_millis = -1;
    assert_eq!(
        reject_login_challenge(Some(unreadable), &[9; 32], NOW),
        Err(StoreError::Unavailable)
    );
}

#[test]
fn a_challenge_that_is_there_is_not_created_again() {
    let mut asked = challenge();
    asked.required_methods.clear();
    let created = match create_risk_challenge(&asked, true, &device(), false, false) {
        Ok(RiskChallengeCreationOutcome::Created(created)) => created,
        other => panic!("unexpected outcome: {other:?}"),
    };
    let mut database = Database::new();
    let entry = audit("audit-1", "risk_challenge_issued", "success");
    publish_risk_challenge(&mut database, &created, &entry, &Ok(())).expect("published");
    let taken = database.risk_challenges.contains_key("risk-1");
    assert_eq!(
        create_risk_challenge(&asked, true, &device(), false, taken),
        Err(StoreError::Conflict)
    );
}

fn code_row(id: &str, code: &str, status: &str, expires: Option<i64>) -> LockedRecoveryCode {
    LockedRecoveryCode {
        recovery_code_id: id.into(),
        account_id: "account-1".into(),
        code_hash: sha256(code.as_bytes()).to_vec(),
        status: status.into(),
        expires_at_epoch_millis: expires,
    }
}

#[test]
fn a_recovery_code_is_found_while_it_is_active() {
    let find = |rows: Vec<LockedRecoveryCode>| find_recovery_code(&rows, "account-1", "abc", NOW);
    let later = Some(NOW as i64 + 1);
    assert_eq!(
        find(vec![
            code_row("code-1", "xyz", "active", None),
            code_row("code-2", "abc", "active", later),
        ]),
        Ok(Some("code-2".into()))
    );
    for refused in [
        code_row("code-1", "abc", "used", None),
        code_row("code-1", "abc", "revoked", None),
        code_row("code-1", "abc", "active", Some(NOW as i64)),
        code_row("code-1", "xyz", "active", None),
        LockedRecoveryCode {
            account_id: "account-2".into(),
            ..code_row("code-1", "abc", "active", None)
        },
    ] {
        assert_eq!(find(vec![refused]), Ok(None));
    }
    assert!(find(vec![
        code_row("code-1", "abc", "active", None),
        code_row("code-2", "abc", "active", None),
    ])
    .is_err());
    let mut ambiguous = totp(None);
    ambiguous.recovery_code_id = Err("held twice".into());
    assert_eq!(
        verify_factor(None, "account-1", "recovery_code", NOW, ambiguous),
        Err(StoreError::Unavailable)
    );
}

fn expectation(purpose: &str) -> StepUpExpectation {
    StepUpExpectation {
        challenge_id: "risk-1".into(),
        account_id: "account-1".into(),
        device_id: "device-1".into(),
        purpose: purpose.into(),
        operation_binding_hash: [9; 32],
        now_epoch_millis: NOW,
    }
}

fn covering(purpose: &str) -> LockedStepUp {
    LockedStepUp {
        account_id: "account-1".into(),
        device_id: Some("device-1".into()),
        purpose: purpose.into(),
        operation_binding_hash: vec![9; 32],
        status: "verified".into(),
        verified_at_epoch_millis: Some(1),
        consumed_at_epoch_millis: None,
        expires_at_epoch_millis: NOW as i64 + 1,
    }
}

fn step_up_facts(purpose: &str) -> StepUpFacts {
    StepUpFacts {
        account_active: true,
        device: device(),
        step_up: Some(covering(purpose)),
        factor_active: true,
        password_hash: Some("old-hash".into()),
        trust_active: true,
        sessions: vec!["session-1".into(), "session-2".into()],
        trusts: vec![RevokedTrust {
            trusted_device_id: "trust-1".into(),
            controller_device_id: "device-1".into(),
        }],
    }
}

fn held_session(id: &str, account: &str) -> AccountSession {
    AccountSession {
        account_session_id: id.into(),
        account_id: account.into(),
        refresh_token_hash: [1; 32],
        mfa_verified: true,
        expires_at_epoch_millis: NOW + 5,
        revoked_at_epoch_millis: None,
        revoked_reason: None,
    }
}

fn held_trust(id: &str, account: &str) -> TrustedControllerDevice {
    TrustedControllerDevice {
        trusted_device_id: id.into(),
        account_id: account.into(),
        controller_device_id: "device-1".into(),
        device_fingerprint_hash: [2; 32],
        trust_level: "standard".into(),
        status: TrustedDeviceStatus::Active,
        trust_proof_type: "device_signature_and_mfa".into(),
        created_at_epoch_millis: 1,
        last_used_at_epoch_millis: None,
        expires_at_epoch_millis: NOW + 5,
        revoked_at_epoch_millis: None,
    }
}

fn held_code(id: &str, account: &str, used: Option<u64>) -> RecoveryCode {
    RecoveryCode {
        recovery_code_id: id.into(),
        account_id: account.into(),
        code_hash: [id.len() as u8; 32],
        used_at_epoch_millis: used,
        expires_at_epoch_millis: None,
    }
}

fn held_database() -> Database {
    let mut database = Database::new();
    database.accounts.insert(
        "account-1".into(),
        Account {
            account_id: "account-1".into(),
            email: "a@example.com".into(),
            display_name: "A".into(),
            password_hash: "old-hash".into(),
            status: AccountStatus::Active,
            created_at_epoch_millis: 1,
            updated_at_epoch_millis: NOW + 9,
        },
    );
    for (id, account) in [("session-1", "account-1"), ("session-3", "account-2")] {
        database
            .account_sessions
            .insert(id.into(), held_session(id, account));
    }
    for (id, account) in [("trust-1", "account-1"), ("trust-2", "account-2")] {
        database
            .trusted_controller_devices
            .insert(id.into(), held_trust(id, account));
    }
    database
        .recovery_codes
        .insert("code-1".into(), held_code("code-1", "account-1", None));
    database
        .recovery_codes
        .insert("code-22".into(), held_code("code-22", "account-1", Some(1)));
    database
        .recovery_codes
        .insert("code-333".into(), held_code("code-333", "account-2", None));
    database.mfa_factors.insert("factor-1".into(), factor());
    database.risk_challenges.insert("risk-1".into(), challenge());
    database
}

#[test]
fn a_password_change_revokes_the_account_authority() {
    let action = StepUpAction::ChangePassword {
        expected_password_hash: "old-hash".into(),
        new_password_hash: "new-hash".into(),
        audit_entry: audit("audit-password", "password_changed", "success"),
    };
    let wanted = expectation("password_change");
    let audits =
        apply_step_up_action(&wanted, &action, &step_up_facts("password_change")).expect("apply");
    assert_eq!(audits.len(), 3);
    assert_eq!(
        audits[0].audit_id,
        "audit-password:account-session:session-1"
    );
    assert_eq!(audits[2].audit_id, "audit-password:trusted-device:trust-1");

    let mut database = held_database();
    publish_step_up_action(&mut database, &wanted, &action, &audits, &Ok(())).expect("published");
    let account = database.accounts.get("account-1").expect("account");
    assert_eq!(account.password_hash, "new-hash");
    assert_eq!(account.updated_at_epoch_millis, NOW + 10);
    let mine = database.account_sessions.get("session-1").expect("session");
    assert_eq!(mine.revoked_reason.as_deref(), Some("password_changed"));
    let other = database.account_sessions.get("session-3").expect("session");
    assert_eq!(other.revoked_at_epoch_millis, None);
    assert_eq!(
        database
            .trusted_controller_devices
            .get("trust-1")
            .map(|trusted| trusted.status),
        Some(TrustedDeviceStatus::Revoked)
    );
    assert_eq!(
        database
            .trusted_controller_devices
            .get("trust-2")
            .map(|trusted| trusted.status),
        Some(TrustedDeviceStatus::Active)
    );
    assert_eq!(
        database
            .risk_challenges
            .get("risk-1")
            .map(|challenge| challenge.status),
        Some(RiskChallengeStatus::Consumed)
    );
    assert_eq!(
        database
            .audit_logs
            .last()
            .map(|entry| entry.action.as_str()),
        Some("password_changed")
    );
}

#[test]
fn an_action_without_its_cover_or_target_conflicts() {
    let action = || StepUpAction::ChangePassword {
        expected_password_hash: "old-hash".into(),
        new_password_hash: "new-hash".into(),
        audit_entry: audit("audit-password", "password_changed", "success"),
    };
    let wanted = expectation("password_change");
    let refuse = |facts: StepUpFacts| {
        assert_eq!(
            apply_step_up_action(&wanted, &action(), &facts),
            Err(StoreError::Conflict)
        );
    };
    let mut inactive = step_up_facts("password_change");
    inactive.account_active = false;
    refuse(inactive);
    let mut blocked = step_up_facts("password_change");
    blocked.device = Some(LockedDevice {
        account_id: "account-1".into(),
        status: "suspended".into(),
    });
    refuse(blocked);
    let mut used = step_up_facts("password_change");
    used.step_up = Some(LockedStepUp {
        status: "consumed".into(),
        consumed_at_epoch_millis: Some(2),
        ..covering("password_change")
    });
    refuse(used);
    let mut late = step_up_facts("password_change");
    late.step_up = Some(LockedStepUp {
        expires_at_epoch_millis: NOW as i64,
        ..covering("password_change")
    });
    refuse(late);
    let mut changed = step_up_facts("password_change");
    changed.password_hash = Some("other-hash".into());
    refuse(changed);
    refuse(step_up_facts("remote_reboot"));
    assert_eq!(
        apply_step_up_action(
            &expectation("remote_reboot"),
            &action(),
            &step_up_facts("remote_reboot")
        ),
        Err(StoreError::Conflict)
    );
    assert_eq!(
        consume_step_up(&wanted, &Some(covering("password_change"))),
        Ok(())
    );
    assert_eq!(consume_step_up(&wanted, &None), Err(StoreError::Conflict));
    let mut database = held_database();
    publish_step_up(&mut database, &wanted, &Ok(())).expect("published");
    assert_eq!(
        database
            .risk_challenges
            .get("risk-1")
            .and_then(|challenge| challenge.consumed_at_epoch_millis),
        Some(NOW)
    );
}

#[test]
fn rotated_recovery_codes_replace_all_old_ones() {
    let action = StepUpAction::RotateRecoveryCodes {
        records: vec![held_code("code-4444", "account-1", None)],
        audit_entry: audit("audit-codes", "mfa_recovery_codes_rotated", "success"),
    };
    let wanted = expectation("recovery_code_rotate");
    let audits = apply_step_up_action(&wanted, &action, &step_up_facts("recovery_code_rotate"))
        .expect("apply");
    assert!(audits.is_empty());
    let mut database = held_database();
    publish_step_up_action(&mut database, &wanted, &action, &audits, &Ok(())).expect("published");
    assert!(!database.recovery_codes.contains_key("code-1"));
    assert!(!database.recovery_codes.contains_key("code-22"));
    assert!(database.recovery_codes.contains_key("code-333"));
    assert!(database.recovery_codes.contains_key("code-4444"));

    let foreign = StepUpAction::RotateRecoveryCodes {
        records: vec![held_code("code-4444", "account-2", None)],
        audit_entry: audit("audit-codes", "mfa_recovery_codes_rotated", "success"),
    };
    assert_eq!(
        apply_step_up_action(&wanted, &foreign, &step_up_facts("recovery_code_rotate")),
        Err(StoreError::Conflict)
    );
}

#[test]
fn the_last_disabled_factor_takes_the_recovery_codes_with_it() {
    let action = StepUpAction::DisableMfaFactor {
        factor_id: "factor-1".into(),
        audit_entry: audit("audit-disable", "mfa_factor_disabled", "success"),
    };
    let wanted = expectation("mfa_factor_change");
    let facts = step_up_facts("mfa_factor_change");
    let audits = apply_step_up_action(&wanted, &action, &facts).expect("apply");
    let mut database = held_database();
    publish_step_up_action(&mut database, &wanted, &action, &audits, &Ok(())).expect("published");
    assert!(!database.mfa_factors.contains_key("factor-1"));
    assert!(!database.recovery_codes.contains_key("code-1"));
    assert_eq!(
        database
            .account_sessions
            .get("session-1")
            .and_then(|session| session.revoked_reason.clone()),
        Some("mfa_disabled".to_owned())
    );

    let mut two = held_database();
    two.mfa_factors.insert(
        "factor-2".into(),
        MfaFactor {
            factor_id: "factor-2".into(),
            ..factor()
        },
    );
    publish_step_up_action(&mut two, &wanted, &action, &audits, &Ok(())).expect("published");
    assert!(two.recovery_codes.contains_key("code-1"));

    let mut missing = step_up_facts("mfa_factor_change");
    missing.factor_active = false;
    assert_eq!(
        apply_step_up_action(&wanted, &action, &missing),
        Err(StoreError::Conflict)
    );
}

#[test]
fn one_trusted_device_can_be_revoked_alone() {
    let action = StepUpAction::RevokeTrustedDevice {
        trusted_device_id: "trust-1".into(),
        audit_entry: audit("audit-trust", "trusted_device_revoked", "success"),
    };
    let wanted = expectation("trusted_device_change");
    let audits = apply_step_up_action(&wanted, &action, &step_up_facts("trusted_device_change"))
        .expect("apply");
    let mut database = held_database();
    publish_step_up_action(&mut database, &wanted, &action, &audits, &Ok(())).expect("published");
    assert_eq!(
        database
            .trusted_controller_devices
            .get("trust-1")
            .and_then(|trusted| trusted.revoked_at_epoch_millis),
        Some(NOW)
    );
    assert_eq!(
        database
            .account_sessions
            .get("session-1")
            .and_then(|session| session.revoked_at_epoch_millis),
        None
    );
}

fn delivery() -> RecoveryCodeDelivery {
    RecoveryCodeDelivery {
        delivery_id: "delivery-1".into(),
        account_id: "account-1".into(),
        account_session_id: "session-1".into(),
        factor_id: "factor-2".into(),
        idempotency_key_hash: [1; 32],
        finish_request_binding_hash: [2; 32],
        client_ephemeral_public_key: [3; 32],
        server_ephemeral_public_key: [4; 32],
        nonce: [5; 12],
        ciphertext: vec![6; 40],
        recovery_code_count: 2,
        created_at_epoch_millis: NOW,
        expires_at_epoch_millis: NOW + 1_000,
        acknowledged_at_epoch_millis: None,
    }
}

fn completion() -> TotpEnrollmentCompletion {
    TotpEnrollmentCompletion {
        factor: MfaFactor {
            factor_id: "factor-2".into(),
            last_used_counter: Some(9),
            ..factor()
        },
        recovery_codes: vec![
            held_code("code-4444", "account-1", None),
            held_code("code-55555", "account-1", None),
        ],
        delivery: delivery(),
        audit_entry: audit("audit-enroll", "mfa_enabled", "success"),
    }
}

fn enrollment_facts() -> EnrollmentFacts {
    EnrollmentFacts {
        delivery_binding_valid: true,
        account_active: true,
        idempotency_claimed: false,
        session: Some(LockedAccountSession {
            revoked_at_epoch_millis: None,
            revoked_reason: None,
            expires_at_epoch_millis: NOW as i64 + 1,
        }),
        factor_exists: false,
        sessions: vec!["session-1".into()],
        trusts: Vec::new(),
    }
}

#[test]
fn an_enrollment_activates_the_factor_and_ends_every_session() {
    let audits = finish_totp_enrollment(&completion(), &enrollment_facts()).expect("enroll");
    assert_eq!(audits.len(), 1);
    let mut database = held_database();
    publish_enrollment(&mut database, &completion(), &audits, &Ok(())).expect("published");
    assert!(database.mfa_factors.contains_key("factor-2"));
    assert!(!database.recovery_codes.contains_key("code-1"));
    assert!(database.recovery_codes.contains_key("code-22"));
    assert!(database.recovery_codes.contains_key("code-55555"));
    assert!(database.recovery_code_deliveries.contains_key("delivery-1"));
    assert_eq!(
        database
            .account_sessions
            .get("session-1")
            .and_then(|session| session.revoked_reason.clone()),
        Some("mfa_enabled".to_owned())
    );
}

#[test]
fn an_enrollment_whose_parts_do_not_fit_conflicts() {
    let refuse = |completion: TotpEnrollmentCompletion, facts: EnrollmentFacts| {
        assert_eq!(
            finish_totp_enrollment(&completion, &facts),
            Err(StoreError::Conflict)
        );
    };
    let mut unproved = completion();
    unproved.factor.last_used_counter = None;
    refuse(unproved, enrollment_facts());
    let mut repeated = completion();
    repeated.recovery_codes[1].recovery_code_id = "code-4444".into();
    refuse(repeated, enrollment_facts());
    let mut same_hash = completion();
    same_hash.recovery_codes[1].code_hash = same_hash.recovery_codes[0].code_hash;
    refuse(same_hash, enrollment_facts());
    let mut miscounted = completion();
    miscounted.delivery.recovery_code_count = 3;
    refuse(miscounted, enrollment_facts());
    let mut used = completion();
    used.recovery_codes[0].used_at_epoch_millis = Some(1);
    refuse(used, enrollment_facts());
    let mut foreign = completion();
    foreign.audit_entry.actor_account_id = Some("account-2".into());
    refuse(foreign, enrollment_facts());
    let mut exists = enrollment_facts();
    exists.factor_exists = true;
    refuse(completion(), exists);
    let mut claimed = enrollment_facts();
    claimed.idempotency_claimed = true;
    refuse(completion(), claimed);
    let mut ended = enrollment_facts();
    ended.session = None;
    refuse(completion(), ended);
    let mut unbound = enrollment_facts();
    unbound.delivery_binding_valid = false;
    refuse(completion(), unbound);
}

fn lookup() -> TotpEnrollmentReplayLookup {
    TotpEnrollmentReplayLookup {
        account_id: "account-1".into(),
        account_session_id: "session-1".into(),
        factor_id: "factor-2".into(),
        idempotency_key_hash: [1; 32],
        finish_request_binding_hash: Some([2; 32]),
        client_ephemeral_public_key: Some([3; 32]),
        access_token_expires_at_epoch_millis: NOW + 100,
        now_epoch_millis: NOW + 1,
    }
}

fn found() -> FoundDelivery {
    FoundDelivery {
        revoked_reason: Some("mfa_enabled".into()),
        revoked_at_epoch_millis: Some(1),
        delivery: Ok(delivery()),
    }
}

#[test]
fn recovery_codes_are_handed_out_again_only_to_their_request() {
    assert_eq!(
        replay_totp_enrollment(&lookup(), Some(found())),
        Ok(TotpEnrollmentReplayOutcome::Replayed(delivery()))
    );
    assert_eq!(
        replay_totp_enrollment(&lookup(), None),
        Ok(TotpEnrollmentReplayOutcome::NotFound)
    );
    let mut late = lookup();
    late.now_epoch_millis = NOW + 100;
    assert_eq!(
        replay_totp_enrollment(&late, Some(found())),
        Ok(TotpEnrollmentReplayOutcome::NotAuthorized)
    );
    let mut other_binding = lookup();
    other_binding.finish_request_binding_hash = Some([8; 32]);
    assert_eq!(
        replay_totp_enrollment(&other_binding, Some(found())),
        Ok(TotpEnrollmentReplayOutcome::BindingMismatch)
    );
    let mut live_session = found();
    live_session.revoked_reason = None;
    assert_eq!(
        replay_totp_enrollment(&lookup(), Some(live_session)),
        Ok(TotpEnrollmentReplayOutcome::NotAuthorized)
    );
    let mut acknowledged = found();
    acknowledged.delivery = Ok(RecoveryCodeDelivery {
        acknowledged_at_epoch_millis: Some(NOW),
        ..delivery()
    });
    assert_eq!(
        replay_totp_enrollment(&lookup(), Some(acknowledged)),
        Ok(TotpEnrollmentReplayOutcome::NotAuthorized)
    );
    let mut unreadable = found();
    unreadable.delivery = Err("unreadable".into());
    assert_eq!(
        replay_totp_enrollment(&lookup(), Some(unreadable)),
        Err(StoreError::Unavailable)
    );
}

#[test]
fn the_status_of_the_second_factors_is_read() {
    let status = load_mfa_status(
        vec![MfaFactorRow {
            factor_id: "factor-1".into(),
            created_at_epoch_millis: 4,
        }],
        3,
    )
    .expect("status");
    assert_eq!(status.recovery_codes_remaining, 3);
    assert_eq!(status.factors[0].factor_id, "factor-1");
    assert_eq!(
        load_mfa_status(Vec::new(), -1),
        Err(StoreError::Unavailable)
    );
}

fn session_row(id: &str) -> AccountSessionRow {
    AccountSessionRow {
        account_session_id: id.into(),
        account_id: "account-1".into(),
        refresh_token_hash: vec![7; 32],
        mfa_verified: true,
        expires_at_epoch_millis: NOW as i64 + 1,
        revoked_at_epoch_millis: None,
        revoked_reason: None,
    }
}

#[test]
fn a_refresh_token_is_consumed_once() {
    let replacement = held_session("session-9", "account-1");
    let entry = audit("audit-refresh", "token_refreshed", "success");
    let rotation = rotate_refresh_session(
        &[7; 32],
        &replacement,
        &entry,
        NOW,
        true,
        Some(session_row("session-1")),
    )
    .expect("rotate")
    .expect("rotated");
    assert_eq!(
        rotation.revoked.revoked_reason.as_deref(),
        Some("refresh_replay")
    );
    assert_eq!(
        rotation.revocation_audit.audit_id,
        "audit-refresh:account-session:session-1"
    );
    let mut database = held_database();
    publish_refresh(&mut database, rotation, &replacement, &entry, &Ok(())).expect("published");
    assert_eq!(
        database
            .account_sessions
            .get("session-1")
            .and_then(|session| session.revoked_at_epoch_millis),
        Some(NOW)
    );
    assert!(database.account_sessions.contains_key("session-9"));

    let mut spent = session_row("session-1");
    spent.revoked_at_epoch_millis = Some(NOW as i64);
    spent.revoked_reason = Some("refresh_replay".into());
    let mut expired = session_row("session-1");
    expired.expires_at_epoch_millis = NOW as i64;
    let mut weaker = session_row("session-1");
    weaker.mfa_verified = false;
    for refused in [spent, expired, weaker] {
        assert_eq!(
            rotate_refresh_session(&[7; 32], &replacement, &entry, NOW, true, Some(refused)),
            Ok(None)
        );
    }
    assert_eq!(
        rotate_refresh_session(
            &[7; 32],
            &replacement,
            &entry,
            NOW,
            false,
            Some(session_row("session-1"))
        ),
        Ok(None)
    );
    let mut revoked = held_session("session-9", "account-1");
    revoked.revoked_reason = Some("logout".into());
    assert_eq!(
        rotate_refresh_session(&[7; 32], &revoked, &entry, NOW, true, None),
        Err(StoreError::Conflict)
    );
}

#[test]
fn a_logout_revokes_its_session() {
    let entry = audit("audit-logout", "logout", "success");
    let revocation = revoke_account_session(
        "session-1",
        "account-1",
        &entry,
        &Some(session_row("session-1")),
    )
    .expect("logout")
    .expect("revoked");
    let mut database = held_database();
    publish_logout(&mut database, "session-1", NOW, revocation, &entry, &Ok(())).expect("published");
    assert_eq!(
        database
            .account_sessions
            .get("session-1")
            .and_then(|session| session.revoked_reason.clone()),
        Some("logout".to_owned())
    );
    assert_eq!(database.audit_logs.len(), 2);
    assert_eq!(
        revoke_account_session("session-1", "account-1", &entry, &None),
        Ok(None)
    );
    assert_eq!(
        revoke_account_session(
            "session-1",
            "account-1",
            &audit("audit-logout", "login", "success"),
            &None
        ),
        Err(StoreError::Conflict)
    );
}

#[test]
fn a_refresh_that_cannot_be_written_keeps_the_old_session() {
    let replacement = held_session("session-9", "account-1");
    let entry = audit("audit-refresh", "token_refreshed", "success");
    for (failure, answer) in [
        (
            PersistenceError::Database { key_taken: true },
            StoreError::Conflict,
        ),
        (
            PersistenceError::Database { key_taken: false },
            StoreError::Unavailable,
        ),
        (PersistenceError::Stale, StoreError::Conflict),
        (
            PersistenceError::Data("unfit".into()),
            StoreError::Unavailable,
        ),
    ] {
        let rotation = rotate_refresh_session(
            &[7; 32],
            &replacement,
            &entry,
            NOW,
            true,
            Some(session_row("session-1")),
        )
        .expect("rotate")
        .expect("rotated");
        let mut database = held_database();
        assert_eq!(
            publish_refresh(
                &mut database,
                rotation,
                &replacement,
                &entry,
                &Err(failure)
            ),
            Err(answer)
        );
        assert!(database == held_database());
    }
}
