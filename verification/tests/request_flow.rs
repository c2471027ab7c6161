use api_server::account::{Account, AccountSession, AccountStatus};
use api_server::api::{ApiError, Fault};
use api_server::auth::{
    access_claims, account_exists_error, add_account, add_account_session,
    auth_challenge_from_authority, build_token_bundle, check_registration, lifetimes_are_valid,
    login_failure_key, new_account, normalize_email, store_fault, validate_device_id,
    validate_password, validate_protocol_version, AuthPolicy, ChallengePurpose,
    ChangePasswordRequest, RegisterRequest, MAX_LOGIN_FAILURES,
};
use api_server::challenge::{LoginChallengeAuthority, LoginDeviceState, RiskChallengeStatus};
use api_server::codec::encode_hex;
use api_server::database::Database;
use api_server::device::{
    Architecture, Device, DeviceCapabilities, DeviceLifecycleStatus, Platform,
    TrustedControllerDevice, TrustedDeviceStatus,
};
use api_server::hash::{sha256, sha256_hex};
use api_server::login::{
    build_login_challenge, check_credentials, check_login_request, identify_login_device,
    login_challenge_response, login_failure_entries, plan_login, risk_decision,
    sanitized_user_agent, LoginBindings, LoginPlan, LoginRequest,
};
use api_server::login_answer::{
    after_finish, build_login_finish, check_finish_authority, check_finish_request,
    finish_context_is_valid, login_finish_response, login_mfa_verified, refused_attempt_entry,
    trust_decision, AfterFinish, DecodedFinish, FinishBindings, FinishObservations, LoginDraws,
    LoginFinishRequest,
};
use api_server::login_finish::{
    finish_login, LockedAccount, LockedLoginDevice, LoginFinishFacts, LoginFinishOutcome,
};
use api_server::password::{
    check_current_password, check_password_change, password_change_action, password_change_error,
};
use api_server::signature::{
    check_signature, check_signature_headers, login_nonce_key, nonce_key, SignatureHeaders,
};
use api_server::step_up::{StepUpAction, StepUpExpectation};
use api_server::store::StoreError;
use api_server::table::Record;

const NOW: u64 = 5_000_000;
const DAY: u64 = 24 * 60 * 60 * 1_000;

fn policy() -> AuthPolicy {
    AuthPolicy {
        access_ttl_seconds: 15 * 60,
        refresh_ttl_seconds: 30 * 24 * 60 * 60,
        challenge_ttl_seconds: 300,
        challenge_attempts: 5,
        protocol_version: 1,
    }
}

fn account() -> Account {
    new_account(
        "account-1".into(),
        "ada@example.com".into(),
        "Ada".into(),
        "hash".into(),
        77,
    )
}

fn code<T>(result: Result<T, ApiError>) -> String {
    match result {
        Ok(_) => "ok".into(),
        Err(error) => error.code,
    }
}

#[test]
fn addresses_are_normalised() {
    assert_eq!(
        normalize_email("  Ada@Example.COM ", "request"),
        Ok("ada@example.com".into())
    );
    for invalid in ["ada", "@example.com", "ada@", "  ", "@"] {
        assert_eq!(code(normalize_email(invalid, "request")), "invalid_email");
    }
    let long = format!("{}@e.org", "a".repeat(249));
    assert_eq!(code(normalize_email(&long, "request")), "invalid_email");
    let fits = format!("{}@e.org", "a".repeat(248));
    assert_eq!(code(normalize_email(&fits, "request")), "ok");
}

#[test]
fn request_fields_have_bounds() {
    assert_eq!(code(validate_password(&"p".repeat(11), "r")), "weak_password");
    assert_eq!(code(validate_password(&"p".repeat(12), "r")), "ok");
    assert_eq!(code(validate_password(&"p".repeat(256), "r")), "ok");
    assert_eq!(code(validate_password(&"p".repeat(257), "r")), "weak_password");
    assert_eq!(code(validate_device_id("", "r")), "invalid_device_id");
    assert_eq!(code(validate_device_id("ger\u{e4}t", "r")), "invalid_device_id");
    assert_eq!(code(validate_device_id(&"d".repeat(128), "r")), "ok");
    assert_eq!(
        validate_protocol_version(2, 1, "r").unwrap_err().status,
        426
    );
    assert!(validate_protocol_version(1, 1, "r").is_ok());
    let asked = |email: &str, password: &str, name: &str| RegisterRequest {
        email: email.into(),
        password: password.into(),
        display_name: name.into(),
    };
    assert_eq!(
        check_registration(&asked("Ada@Example.com", "long enough password", " Ada "), "r"),
        Ok(("ada@example.com".into(), "Ada".into()))
    );
    assert_eq!(
        code(check_registration(&asked("ada", "long enough password", "Ada"), "r")),
        "invalid_email"
    );
    assert_eq!(
        code(check_registration(&asked("ada@example.com", "short", "Ada"), "r")),
        "weak_password"
    );
    assert_eq!(
        code(check_registration(
            &asked("ada@example.com", "long enough password", "  "),
            "r"
        )),
        "invalid_display_name"
    );
}

#[test]
fn an_address_is_registered_once() {
    let mut database = Database::new();
    assert_eq!(add_account(&mut database, &account()), Ok(()));
    let mut second = account();
    second.account_id = "account-2".into();
    assert_eq!(
        add_account(&mut database, &second),
        Err(StoreError::Conflict)
    );
    second.email = "grace@example.com".into();
    assert_eq!(add_account(&mut database, &second), Ok(()));
    assert_eq!(database.accounts.len(), 2);
    assert_eq!(
        store_fault(StoreError::Conflict, account_exists_error("r")),
        Fault::Refused(account_exists_error("r"))
    );
    assert_eq!(account_exists_error("r").status, 409);
    assert_eq!(
        store_fault(StoreError::Unavailable, account_exists_error("r")),
        Fault::Internal
    );
    let session = AccountSession {
        account_session_id: "session-1".into(),
        account_id: "account-1".into(),
        refresh_token_hash: [1; 32],
        mfa_verified: false,
        expires_at_epoch_millis: NOW,
        revoked_at_epoch_millis: None,
        revoked_reason: None,
    };
    assert_eq!(add_account_session(&mut database, &session), Ok(()));
    assert!(database.account_sessions.contains_key("session-1"));
}

#[test]
fn tokens_live_as_long_as_the_policy_says() {
    assert!(lifetimes_are_valid(&policy(), NOW));
    assert!(!lifetimes_are_valid(&policy(), u64::MAX));
    let (tokens, session) = build_token_bundle(
        &policy(),
        "account-1",
        true,
        NOW,
        "session-1".into(),
        "refresh-1".into(),
        Some("access-1".into()),
    )
    .expect("tokens");
    assert_eq!(
        tokens.access_token_expires_at_epoch_millis,
        NOW + 15 * 60 * 1_000
    );
    assert_eq!(
        tokens.refresh_token_expires_at_epoch_millis
            - tokens.access_token_expires_at_epoch_millis,
        30 * DAY - 15 * 60 * 1_000
    );
    assert_eq!(session.refresh_token_hash, sha256(b"refresh-1"));
    assert!(session.mfa_verified);
    assert_eq!(
        build_token_bundle(
            &policy(),
            "account-1",
            true,
            NOW,
            "session-1".into(),
            "refresh-1".into(),
            None
        ),
        Err(Fault::Internal)
    );
    let claims = access_claims(&policy(), "account-1", "session-1", false, NOW);
    assert_eq!(claims.expires_at_epoch_millis, NOW + 900_000);
    assert_eq!(claims.issued_at_epoch_millis, NOW);
    assert!(!claims.mfa_verified);
}

#[test]
fn login_failures_are_counted_under_opaque_keys() {
    let known = login_failure_key(Some(&account()), "ada@example.com");
    let unknown = login_failure_key(None, "ada@example.com");
    assert_eq!(known.len(), 64);
    assert_ne!(known, unknown);
    assert_eq!(
        known,
        sha256_hex(b"rctl-login-limit-v1\0account\0account-1")
    );
    assert_eq!(
        unknown,
        sha256_hex(b"rctl-login-limit-v1\0email\0ada@example.com")
    );
}

fn login_request() -> LoginRequest {
    LoginRequest {
        email: "Ada@example.com".into(),
        password: "long enough password".into(),
        device_id: "device-1".into(),
        device_public_key: "encoded".into(),
        public_key_id: Some("key-1".into()),
        public_key_version: 1,
        client_nonce: "encoded".into(),
        protocol_version: 1,
    }
}

#[test]
fn a_login_request_is_refused_for_its_first_fault() {
    let key = Some([7; 32]);
    let nonce = Some([31; 32]);
    let check = |request: &LoginRequest, key: Option<[u8; 32]>, nonce: Option<[u8; 32]>| {
        check_login_request(request, 1, &key, &nonce, "r").map_err(|error| error.code)
    };
    assert_eq!(
        check(&login_request(), key, nonce),
        Ok("ada@example.com".into())
    );
    let mut old = login_request();
    old.protocol_version = 0;
    assert_eq!(check(&old, None, None), Err("unsupported_version".into()));
    let mut unnamed = login_request();
    unnamed.device_id = String::new();
    assert_eq!(check(&unnamed, None, None), Err("invalid_device_id".into()));
    assert_eq!(
        check(&login_request(), None, None),
        Err("invalid_device_public_key".into())
    );
    assert_eq!(
        check(&login_request(), key, None),
        Err("invalid_client_nonce".into())
    );
    let mut addressless = login_request();
    addressless.email = "ada".into();
    assert_eq!(
        check(&addressless, key, nonce),
        Err("invalid_email".into())
    );
}

#[test]
fn wrong_credentials_tell_nothing_apart() {
    let active = account();
    let mut disabled = account();
    disabled.status = AccountStatus::Disabled;
    assert!(check_credentials(Some(&active), false, true, "r").is_ok());
    let refusals = [
        check_credentials(None, false, true, "r"),
        check_credentials(Some(&active), false, false, "r"),
        check_credentials(Some(&active), true, true, "r"),
        check_credentials(Some(&disabled), false, true, "r"),
    ];
    for refused in &refusals {
        assert_eq!(refused, &refusals[0]);
    }
    assert_eq!(refusals[0].as_ref().unwrap_err().status, 401);
    let entries =
        login_failure_entries(true, true, "audit-lock".into(), "audit-fail".into(), "r", NOW);
    assert!(entries.iter().all(|entry| entry.actor_account_id.is_none()));
    assert_eq!(entries.len(), 2);
    assert_eq!(
        login_failure_entries(false, false, "a".into(), "b".into(), "r", NOW).len(),
        1
    );
}

#[test]
fn five_wrong_passwords_lock_the_right_one_out() {
    let active = account();
    let mut failures = 0;
    for _ in 0..MAX_LOGIN_FAILURES {
        let locked = failures >= MAX_LOGIN_FAILURES;
        assert!(check_credentials(Some(&active), locked, false, "r").is_err());
        failures += 1;
    }
    let locked = failures >= MAX_LOGIN_FAILURES;
    assert_eq!(
        check_credentials(Some(&active), locked, true, "r"),
        check_credentials(Some(&active), false, false, "r")
    );
}

fn device() -> Device {
    Device {
        device_id: "device-1".into(),
        account_id: "account-1".into(),
        display_name: "Desk".into(),
        platform: Platform::Ubuntu,
        os_version: "26.04".into(),
        arch: Architecture::X86_64,
        capabilities: DeviceCapabilities {
            controller: true,
            controlled: true,
            file_transfer: false,
            unattended: false,
        },
        public_key_id: "key-1".into(),
        public_key: [7; 32],
        public_key_version: 1,
        public_key_revoked_at_epoch_millis: None,
        status: DeviceLifecycleStatus::Offline,
        last_seen_epoch_millis: None,
        created_at_epoch_millis: 1,
        updated_at_epoch_millis: 1,
    }
}

fn trusted(id: &str, expires: u64) -> TrustedControllerDevice {
    TrustedControllerDevice {
        trusted_device_id: id.into(),
        account_id: "account-1".into(),
        controller_device_id: "device-1".into(),
        device_fingerprint_hash: sha256(&[7; 32]),
        trust_level: "standard".into(),
        status: TrustedDeviceStatus::Active,
        trust_proof_type: "device_signature_and_mfa".into(),
        created_at_epoch_millis: 1,
        last_used_at_epoch_millis: None,
        expires_at_epoch_millis: expires,
        revoked_at_epoch_millis: None,
    }
}

fn plan(known: bool, mfa: bool, trusts: Vec<TrustedControllerDevice>) -> LoginPlan {
    let found = device();
    let mut request = login_request();
    if !known {
        request.public_key_id = None;
        request.public_key_version = 0;
    }
    let identified = identify_login_device(
        "account-1",
        &request,
        &[7; 32],
        if known { Some(&found) } else { None },
        "r",
    )
    .expect("identified");
    plan_login(&policy(), "device-1", identified, mfa, &trusts, NOW)
}

#[test]
fn a_device_logs_in_under_its_registered_key() {
    let found = device();
    assert_eq!(
        code(identify_login_device(
            "account-1",
            &login_request(),
            &[8; 32],
            Some(&found),
            "r"
        )),
        "device_identity_invalid"
    );
    let mut blocked = device();
    blocked.status = DeviceLifecycleStatus::Disabled;
    assert_eq!(
        code(identify_login_device(
            "account-1",
            &login_request(),
            &[7; 32],
            Some(&blocked),
            "r"
        )),
        "device_identity_invalid"
    );
    assert_eq!(
        code(identify_login_device(
            "account-1",
            &login_request(),
            &[7; 32],
            None,
            "r"
        )),
        "device_identity_invalid"
    );
}

#[test]
fn a_plan_asks_for_factors_unless_the_device_is_trusted() {
    let open = plan(true, false, Vec::new());
    assert!(open.required_factors.is_empty());
    assert_eq!(open.expires_at_epoch_millis, NOW + 300_000);
    assert_eq!(risk_decision(&open.required_factors), "allow");

    let asked = plan(true, true, vec![trusted("trust-1", NOW)]);
    assert_eq!(asked.required_factors, vec!["totp", "recovery_code"]);
    assert_eq!(asked.trusted_device_id, None);

    let stands = plan(
        true,
        true,
        vec![trusted("trust-1", NOW), trusted("trust-2", NOW + 1)],
    );
    assert!(stands.required_factors.is_empty());
    assert_eq!(stands.trusted_device_id.as_deref(), Some("trust-2"));

    let new_device = plan(false, true, vec![trusted("trust-2", NOW + 1)]);
    assert_eq!(new_device.device.state, LoginDeviceState::PendingEnrollment);
    assert_eq!(new_device.required_factors.len(), 2);
}

fn authority(known: bool, mfa: bool) -> LoginChallengeAuthority {
    build_login_challenge(
        &policy(),
        &account(),
        "device-1",
        1,
        &plan(known, mfa, Vec::new()),
        &LoginBindings {
            challenge_id: "challenge-1".into(),
            client_nonce: [31; 32],
            server_nonce: [32; 32],
            request_binding_hash: [33; 32],
            challenge_binding_hash: [9; 32],
            ip_address_hash: [34; 32],
            user_agent_hash: [35; 32],
            ip_address: Some("192.0.2.1".into()),
            user_agent: String::new(),
        },
    )
}

#[test]
fn a_login_challenge_repeats_its_plan() {
    let built = authority(true, true);
    assert_eq!(built.challenge.status, RiskChallengeStatus::Issued);
    assert_eq!(built.challenge.attempts_remaining, 5);
    assert_eq!(built.challenge.user_agent, None);
    assert_eq!(built.challenge.device_id.as_deref(), Some("device-1"));
    assert_eq!(built.context.account_updated_at_epoch_millis, 77);
    assert_eq!(authority(false, true).challenge.device_id, None);
    let response = login_challenge_response(&built);
    assert_eq!(response.login_challenge_id, "challenge-1");
    assert_eq!(response.login_request_binding_hash, encode_hex(&[33; 32]));
    assert_eq!(response.login_challenge_binding_hash, encode_hex(&[9; 32]));
    assert_eq!(response.required_factors, vec!["totp", "recovery_code"]);
    let shown = auth_challenge_from_authority(&built);
    assert_eq!(shown.purpose, ChallengePurpose::LoginMfa);
    assert_eq!(shown.attempts_remaining, 5);
    assert_eq!(sanitized_user_agent(None), "");
    assert_eq!(sanitized_user_agent(Some(&"u".repeat(600))).len(), 512);
}

fn finish_request(factor: Option<&str>) -> LoginFinishRequest {
    LoginFinishRequest {
        login_challenge_id: "challenge-1".into(),
        login_request_binding_hash: encode_hex(&[33; 32]),
        login_challenge_binding_hash: encode_hex(&[9; 32]),
        client_nonce: "encoded".into(),
        server_nonce: "encoded".into(),
        factor: factor.map(Into::into),
        code: factor.map(|_| "123456".into()),
        protocol_version: 1,
    }
}

fn decoded() -> DecodedFinish {
    DecodedFinish {
        request_binding_hash: Some([33; 32]),
        challenge_binding_hash: Some([9; 32]),
        client_nonce: Some([31; 32]),
        server_nonce: Some([32; 32]),
    }
}

fn bindings() -> FinishBindings {
    check_finish_request(&finish_request(None), &decoded(), 1, "r").expect("bindings")
}

fn observed() -> FinishObservations {
    FinishObservations {
        recomputed_challenge_binding_hash: [9; 32],
        ip_address_hash: [34; 32],
        user_agent_hash: [35; 32],
    }
}

#[test]
fn an_answer_is_refused_for_its_first_fault() {
    let check = |decoded: DecodedFinish| {
        code(check_finish_request(
            &finish_request(None),
            &decoded,
            1,
            "r",
        ))
    };
    assert_eq!(
        check(DecodedFinish {
            request_binding_hash: None,
            ..decoded()
        }),
        "invalid_login_binding"
    );
    assert_eq!(
        check(DecodedFinish {
            challenge_binding_hash: None,
            ..decoded()
        }),
        "invalid_login_binding"
    );
    assert_eq!(
        check(DecodedFinish {
            client_nonce: None,
            ..decoded()
        }),
        "invalid_client_nonce"
    );
    assert_eq!(
        check(DecodedFinish {
            server_nonce: None,
            ..decoded()
        }),
        "invalid_server_nonce"
    );
    assert_eq!(
        check_finish_request(&finish_request(None), &decoded(), 2, "r")
            .err()
            .map(|error| error.status),
        Some(426)
    );
    let held = authority(true, true);
    assert!(check_finish_authority(Some(&held), &[9; 32], "r").is_ok());
    assert_eq!(
        code(check_finish_authority(Some(&held), &[8; 32], "r")),
        "login_verification_failed"
    );
    assert_eq!(
        code(check_finish_authority(None, &[9; 32], "r")),
        "login_verification_failed"
    );
}

#[test]
fn an_answer_comes_from_where_the_challenge_went() {
    let found = device();
    let held = authority(true, true);
    let fits = |request: &LoginFinishRequest, observed: &FinishObservations| {
        finish_context_is_valid(request, &bindings(), &held, Some(&found), observed)
    };
    assert!(fits(&finish_request(Some("totp")), &observed()));
    assert!(!fits(&finish_request(None), &observed()));
    assert!(!fits(&finish_request(Some("sms")), &observed()));
    assert!(!fits(
        &finish_request(Some("totp")),
        &FinishObservations {
            ip_address_hash: [0; 32],
            ..observed()
        }
    ));
    assert!(!fits(
        &finish_request(Some("totp")),
        &FinishObservations {
            recomputed_challenge_binding_hash: [0; 32],
            ..observed()
        }
    ));
    assert!(!finish_context_is_valid(
        &finish_request(Some("totp")),
        &bindings(),
        &held,
        None,
        &observed()
    ));
    assert_eq!(
        trust_decision(Some("totp")),
        (Some("device_signature_and_mfa"), Some("standard"))
    );
    assert_eq!(
        trust_decision(Some("recovery_code")),
        (
            Some("device_signature_and_recovery_code"),
            Some("high_risk_step_up_required")
        )
    );
    assert_eq!(trust_decision(None), (None, None));
}

fn draws() -> LoginDraws {
    LoginDraws {
        grant_id: "grant-1".into(),
        grant_secret: "secret-1".into(),
        trusted_device_id: "trust-1".into(),
        challenge_audit_id: "audit-challenge".into(),
        login_audit_id: "audit-login".into(),
        trust_audit_id: "audit-trust".into(),
        recovery_audit_id: "audit-recovery".into(),
        failure_audit_id: "audit-failure".into(),
    }
}

#[test]
fn the_records_of_an_answer_are_accepted() {
    for (known, factor) in [
        (true, Some("totp")),
        (true, Some("recovery_code")),
        (true, None),
        (false, Some("totp")),
        (false, None),
    ] {
        let held = authority(known, factor.is_some());
        let request = finish_request(factor);
        let mfa_verified = login_mfa_verified(&request, &held);
        assert_eq!(mfa_verified, factor.is_some());
        let (tokens, session) = build_token_bundle(
            &policy(),
            "account-1",
            mfa_verified,
            NOW,
            "session-1".into(),
            "refresh-1".into(),
            Some("access-1".into()),
        )
        .expect("tokens");
        let command = build_login_finish(
            &request,
            &bindings(),
            &held,
            session,
            "device-1",
            &draws(),
            "r",
            NOW,
        );
        assert_eq!(command.enrollment_grant.is_some(), !known);
        if factor == Some("recovery_code") {
            let trust = command.trusted_device_to_create.as_ref().expect("trust");
            assert_eq!(trust.expires_at_epoch_millis, NOW + DAY);
        }
        let response = login_finish_response(tokens, &command.enrollment_grant, &draws());
        assert_eq!(
            response.device_enrollment_grant.as_deref(),
            if known { None } else { Some("grant-1.secret-1") }
        );
        let facts = LoginFinishFacts {
            account: Some(LockedAccount {
                status: "active".into(),
                updated_at_epoch_millis: 77,
            }),
            authority: Some(Ok(held)),
            binding_valid: true,
            artifacts: Ok(()),
            device: if known {
                Some(LockedLoginDevice {
                    account_id: "account-1".into(),
                    public_key_id: "key-1".into(),
                    public_key: vec![7; 32],
                    public_key_version: 1,
                    public_key_revoked_at_epoch_millis: None,
                    status: "offline".into(),
                })
            } else {
                None
            },
            mfa_enabled: factor.is_some(),
            trusted: None,
            totp_factor: Some(Ok(api_server::account::MfaFactor {
                factor_id: "factor-1".into(),
                account_id: "account-1".into(),
                secret_base32: "JBSWY3DPEHPK3PXP".into(),
                active: true,
                last_used_counter: None,
                created_at_epoch_millis: 1,
            })),
            totp_counter: Some(1),
            recovery_code_id: Ok(Some("code-1".into())),
            active_trusts: Vec::new(),
        };
        assert!(finish_login(&command, facts).is_ok());
    }
}

#[test]
fn a_refused_answer_is_counted_where_the_store_did_not() {
    assert_eq!(after_finish(LoginFinishOutcome::Completed), AfterFinish::Respond);
    assert_ne!(
        after_finish(LoginFinishOutcome::InvalidFactor),
        AfterFinish::Respond
    );
    let entry = refused_attempt_entry(&authority(true, true), "audit-1".into(), "r", NOW);
    assert_eq!(entry.result, "failure");
    assert_eq!(entry.actor_account_id.as_deref(), Some("account-1"));
}

fn headers(timestamp: &str) -> SignatureHeaders {
    SignatureHeaders {
        device_id: Some("device-1".into()),
        timestamp: Some(timestamp.into()),
        nonce: Some("nonce-1".into()),
        signature: Some("signature-1".into()),
    }
}

#[test]
fn a_device_signature_is_complete_fresh_and_new() {
    let check = |headers: &SignatureHeaders| {
        check_signature_headers(headers, "device-1", "mismatch", "bad timestamp", NOW, "r")
    };
    let fields = check(&headers(&NOW.to_string())).expect("fields");
    assert_eq!(fields.timestamp_epoch_millis, NOW);
    assert_eq!(fields.nonce, "nonce-1");
    let mut unsigned = headers(&NOW.to_string());
    unsigned.signature = None;
    let error = check(&unsigned).err().expect("missing");
    assert_eq!(error.code, "missing_device_signature_header");
    assert_eq!(error.message, "missing required header x-rctl-device-signature");
    assert_eq!(
        code(check(&headers("soon"))),
        "invalid_device_signature"
    );
    assert_eq!(
        code(check(&headers(&(NOW - 30_001).to_string()))),
        "device_signature_expired"
    );
    let mut other = headers(&NOW.to_string());
    other.device_id = Some("device-2".into());
    assert_eq!(code(check(&other)), "device_signature_mismatch");
    assert!(check_signature(true, true, "r").is_ok());
    assert_eq!(
        code(check_signature(false, true, "r")),
        "invalid_device_signature"
    );
    assert_eq!(
        code(check_signature(true, false, "r")),
        "device_nonce_replayed"
    );
    assert_ne!(
        nonce_key("account-1", "device-1", "nonce-1"),
        login_nonce_key("account-1", "device-1", "nonce-1")
    );
}

#[test]
fn a_password_change_needs_the_current_password() {
    let asked = |current: &str, new: &str| ChangePasswordRequest {
        current_password: current.into(),
        new_password: new.into(),
    };
    assert!(check_password_change(&asked("old password 1", "new password 1"), "r").is_ok());
    assert_eq!(
        code(check_password_change(
            &asked("old password 1", "old password 1"),
            "r"
        )),
        "password_unchanged"
    );
    assert_eq!(
        code(check_password_change(&asked("old password 1", "new"), "r")),
        "weak_password"
    );
    assert_eq!(check_current_password(Some(&account()), true, "r"), Ok(()));
    assert!(matches!(
        check_current_password(Some(&account()), false, "r"),
        Err(Fault::Refused(error)) if error.code == "invalid_current_password"
    ));
    assert!(check_current_password(None, true, "r").is_err());
    assert!(matches!(
        password_change_error(StoreError::Conflict, "r"),
        Fault::Refused(error) if error.code == "password_change_conflict"
    ));
    assert_eq!(
        password_change_error(StoreError::Unavailable, "r"),
        Fault::Internal
    );
    let action = password_change_action(
        "audit-1".into(),
        "account-1",
        "old-hash".into(),
        "new-hash".into(),
        &StepUpExpectation {
            challenge_id: "risk-1".into(),
            account_id: "account-1".into(),
            device_id: "device-1".into(),
            purpose: "password_change".into(),
            operation_binding_hash: [9; 32],
            now_epoch_millis: NOW,
        },
        "r",
    );
    assert_eq!(action.audit_entry().action, "password_changed");
    assert_eq!(action.revoked_reason(), Some("password_changed"));
    match action {
        StepUpAction::ChangePassword {
            new_password_hash, ..
        } => assert_eq!(new_password_hash, "new-hash"),
        _ => panic!("unexpected action"),
    }
    assert!(account().duplicate().same(&account()));
}
