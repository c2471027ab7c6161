use api_server::account::MfaFactor;
use api_server::audit::{AuditEntry, JsonValue};
use api_server::challenge::{RiskChallenge, RiskChallengeStatus};
use api_server::codec::{
    decode_hex_32, encode_hex, fixed_32, from_i64, now_epoch_millis, optional_u64,
    parse_required_methods, to_i64_lossless, validate_fixed_enum,
};
use api_server::device::{DeviceLifecycleStatus, TrustedDeviceStatus};
use api_server::mfa::{decrypt_mfa, encrypt_mfa};
use api_server::names::{
    device_lifecycle_status_name, is_terminal_device_lifecycle_status, optional_role,
    parse_device_lifecycle_status, parse_risk_challenge_status, parse_trusted_device_status,
    role_name,
};
use api_server::revocation::{account_session_revocation_audit, trusted_device_revocation_audit};
use api_server::rules::{
    risk_challenge_cancel_audit_is_valid, RISK_CHALLENGE_PURPOSES, TRUST_PROOF_TYPES,
};
use api_server::sql::{
    INSERT_ACCOUNT_SESSION_SQL, LOAD_ACCOUNT_SESSIONS_SQL, LOAD_REFRESH_ACCOUNT_SESSION_SQL,
    ROTATE_REFRESH_ACCOUNT_SESSION_SQL, UPSERT_ACCOUNT_SESSION_SQL,
};
use api_server::table::{Record, Table};

fn issued_risk_challenge(
    risk_challenge_id: String,
    account_id: String,
    device_id: String,
    created_at_epoch_millis: u64,
) -> RiskChallenge {
    RiskChallenge {
        risk_challenge_id,
        account_id,
        device_id: Some(device_id),
        purpose: "password_change".into(),
        operation_binding_hash: [9; 32],
        risk_level: "high".into(),
        required_methods: Vec::new(),
        status: RiskChallengeStatus::Issued,
        attempts_remaining: 5,
        ip_address: Some("127.0.0.1".into()),
        user_agent: Some("postgres-multi-instance-test".into()),
        expires_at_epoch_millis: created_at_epoch_millis + 300_000,
        created_at_epoch_millis,
        verified_at_epoch_millis: None,
        consumed_at_epoch_millis: None,
    }
}

fn risk_challenge_cancelled_audit(challenge: &RiskChallenge) -> AuditEntry {
    AuditEntry {
        audit_id: format!("audit-cancelled-{}", challenge.risk_challenge_id),
        actor_type: "account".into(),
        actor_account_id: Some(challenge.account_id.clone()),
        actor_device_id: None,
        actor_role: None,
        actor_service: None,
        target_device_id: challenge.device_id.clone(),
        session_id: None,
        action: "risk_challenge_failed".into(),
        result: "failure".into(),
        reason: Some("cancelled".into()),
        metadata: Table::new(),
        request_id: format!("request-{}", challenge.risk_challenge_id),
        created_at_epoch_millis: challenge.created_at_epoch_millis,
    }
}

fn login_audit(
    audit_id: &str,
    account_id: &str,
    action: &str,
    result: &str,
    now_epoch_millis: u64,
) -> AuditEntry {
    AuditEntry {
        audit_id: audit_id.into(),
        actor_type: "account".into(),
        actor_account_id: Some(account_id.to_owned()),
        actor_device_id: None,
        actor_role: None,
        actor_service: None,
        target_device_id: None,
        session_id: None,
        action: action.to_owned(),
        result: result.to_owned(),
        reason: None,
        metadata: Table::new(),
        request_id: format!("request-{action}"),
        created_at_epoch_millis: now_epoch_millis,
    }
}

fn normalized_sql(sql: &str) -> String {
    sql.split_whitespace().collect::<Vec<_>>().join(" ")
}

#[test]
fn account_session_sql_persists_and_restores_mfa_verified() {
    let insert = normalized_sql(INSERT_ACCOUNT_SESSION_SQL);
    assert!(
        insert.contains("refresh_token_hash, mfa_verified, device_label, expires_at_epoch_millis")
    );
    assert!(insert.contains("VALUES ($1,$2,$3,$4,'unified-client',$5,NULL,NULL,$6,$6)"));

    for read_sql in [
        LOAD_REFRESH_ACCOUNT_SESSION_SQL,
        LOAD_ACCOUNT_SESSIONS_SQL,
        ROTATE_REFRESH_ACCOUNT_SESSION_SQL,
    ] {
        assert!(
            normalized_sql(read_sql).contains("mfa_verified"),
            "account session materialization must select mfa_verified"
        );
    }

    let rotate = normalized_sql(ROTATE_REFRESH_ACCOUNT_SESSION_SQL);
    assert!(rotate.contains("account_id=$2 AND mfa_verified=$4"));
    assert!(rotate
        .contains("RETURNING account_session_id, account_id, refresh_token_hash, mfa_verified"));

    let upsert = normalized_sql(UPSERT_ACCOUNT_SESSION_SQL);
    assert!(
        upsert.contains("refresh_token_hash, mfa_verified, device_label, expires_at_epoch_millis")
    );
    assert!(upsert.contains("mfa_verified=EXCLUDED.mfa_verified"));
}

#[test]
fn refresh_revocation_audits_use_frozen_reasons_and_object_ids() {
    let trusted_source = login_audit(
        "trusted-source",
        "account-1",
        "trusted_device_added",
        "success",
        10,
    );
    let trusted_audit =
        trusted_device_revocation_audit(&trusted_source, "trust-1", "device-1", "refreshed");
    assert_eq!(
        trusted_audit.audit_id,
        "trusted-source:trusted-device:trust-1"
    );
    assert_eq!(trusted_audit.action, "trusted_device_revoked");
    assert_eq!(trusted_audit.reason.as_deref(), Some("refreshed"));
    assert_eq!(trusted_audit.target_device_id.as_deref(), Some("device-1"));
    assert_eq!(
        trusted_audit.metadata.get("revoked_reason"),
        Some(&JsonValue::Text("refreshed".into()))
    );

    let refresh_source = login_audit(
        "refresh-source",
        "account-1",
        "token_refreshed",
        "success",
        11,
    );
    let session_audit = account_session_revocation_audit(
        &refresh_source,
        "account-session-1",
        "refresh_replay",
    );
    assert_eq!(
        session_audit.audit_id,
        "refresh-source:account-session:account-session-1"
    );
    assert_eq!(session_audit.action, "account_session_revoked");
    assert_eq!(session_audit.reason.as_deref(), Some("refresh_replay"));
    assert_eq!(
        session_audit.metadata.get("revoked_reason"),
        Some(&JsonValue::Text("refresh_replay".into()))
    );
}

#[test]
fn risk_challenge_cancel_audit_requires_frozen_fields() {
    let challenge = issued_risk_challenge(
        "risk-cancel".into(),
        "account-1".into(),
        "device-1".into(),
        1,
    );
    let audit = risk_challenge_cancelled_audit(&challenge);
    assert!(risk_challenge_cancel_audit_is_valid(&challenge, &audit));

    for invalid in [
        AuditEntry {
            actor_account_id: Some("other-account".into()),
            ..audit.duplicate()
        },
        AuditEntry {
            action: "risk_challenge_succeeded".into(),
            ..audit.duplicate()
        },
        AuditEntry {
            result: "success".into(),
            ..audit.duplicate()
        },
        AuditEntry {
            reason: Some("expired".into()),
            ..audit.duplicate()
        },
    ] {
        assert!(!risk_challenge_cancel_audit_is_valid(&challenge, &invalid));
    }
}

fn mfa_payload(secret_base32: &str, last_used_counter: Option<u64>) -> Vec<u8> {
    let mut object = serde_json::Map::new();
    object.insert(
        "secret_base32".into(),
        serde_json::Value::String(secret_base32.into()),
    );
    object.insert(
        "last_used_counter".into(),
        match last_used_counter {
            Some(counter) => serde_json::Value::from(counter),
            None => serde_json::Value::Null,
        },
    );
    serde_json::to_vec(&serde_json::Value::Object(object)).expect("encode MFA secret")
}

#[test]
fn mfa_envelope_round_trips_and_binds_factor() {
    let key = [7_u8; 32];
    let factor = MfaFactor {
        factor_id: "factor-1".into(),
        account_id: "account-1".into(),
        secret_base32: "JBSWY3DPEHPK3PXP".into(),
        active: true,
        last_used_counter: Some(42),
        created_at_epoch_millis: 1,
    };
    let plaintext = mfa_payload(&factor.secret_base32, factor.last_used_counter);
    let envelope = encrypt_mfa(&key, &factor, &plaintext).expect("encrypt");
    assert!(!envelope
        .windows(factor.secret_base32.len())
        .any(|window| { window == factor.secret_base32.as_bytes() }));
    let opened =
        decrypt_mfa(&key, &factor.account_id, &factor.factor_id, &envelope).expect("decrypt");
    let payload: serde_json::Value = serde_json::from_slice(&opened).expect("decode MFA secret");
    assert_eq!(
        payload.get("secret_base32").and_then(|value| value.as_str()),
        Some(factor.secret_base32.as_str())
    );
    assert_eq!(
        payload
            .get("last_used_counter")
            .and_then(|value| value.as_u64()),
        Some(42)
    );
    assert!(decrypt_mfa(&key, "other-account", &factor.factor_id, &envelope).is_err());
}

#[test]
fn required_methods_must_be_a_string_array() {
    assert_eq!(
        parse_required_methods(Some(vec![
            JsonValue::Text("totp".into()),
            JsonValue::Text("recovery_code".into()),
        ]))
        .expect("string array"),
        vec!["totp", "recovery_code"]
    );
    assert!(parse_required_methods(None).is_err());
    assert!(parse_required_methods(Some(vec![
        JsonValue::Text("totp".into()),
        JsonValue::Unsigned(1),
    ]))
    .is_err());
}

#[test]
fn account_security_enums_fail_closed() {
    assert_eq!(
        parse_risk_challenge_status("consumed").expect("known risk status"),
        RiskChallengeStatus::Consumed
    );
    assert!(parse_risk_challenge_status("reopened").is_err());
    assert_eq!(
        parse_trusted_device_status("revoked").expect("known trusted status"),
        TrustedDeviceStatus::Revoked
    );
    assert!(parse_trusted_device_status("restored").is_err());
    assert!(validate_fixed_enum(
        "unknown",
        "account_risk_challenges.purpose",
        &RISK_CHALLENGE_PURPOSES
    )
    .is_err());
    assert!(validate_fixed_enum(
        "unknown",
        "trusted_controller_devices.trust_proof_type",
        &TRUST_PROOF_TYPES
    )
    .is_err());
}

#[test]
fn account_security_hashes_require_exactly_32_bytes() {
    assert!(fixed_32(vec![0; 31], "hash").is_err());
    assert_eq!(
        fixed_32(vec![7; 32], "hash").expect("32-byte hash"),
        [7; 32]
    );
    assert!(fixed_32(vec![0; 33], "hash").is_err());
}

#[test]
fn device_lifecycle_status_round_trips_and_unknown_fails_closed() {
    let statuses = [
        DeviceLifecycleStatus::Online,
        DeviceLifecycleStatus::Offline,
        DeviceLifecycleStatus::Busy,
        DeviceLifecycleStatus::Suspended,
        DeviceLifecycleStatus::Disabled,
        DeviceLifecycleStatus::Unbound,
    ];

    for status in statuses {
        let persisted = device_lifecycle_status_name(status);
        assert_eq!(parse_device_lifecycle_status(persisted), Ok(status));
    }
    assert!(parse_device_lifecycle_status("active").is_err());
}

#[test]
fn device_lifecycle_terminal_statuses_are_fail_closed() {
    assert!(!is_terminal_device_lifecycle_status(
        DeviceLifecycleStatus::Online
    ));
    assert!(!is_terminal_device_lifecycle_status(
        DeviceLifecycleStatus::Offline
    ));
    assert!(!is_terminal_device_lifecycle_status(
        DeviceLifecycleStatus::Busy
    ));
    assert!(is_terminal_device_lifecycle_status(
        DeviceLifecycleStatus::Suspended
    ));
    assert!(is_terminal_device_lifecycle_status(
        DeviceLifecycleStatus::Disabled
    ));
    assert!(is_terminal_device_lifecycle_status(
        DeviceLifecycleStatus::Unbound
    ));
}

#[test]
fn an_envelope_of_another_shape_is_refused() {
    let key = [7_u8; 32];
    assert_eq!(
        decrypt_mfa(&key, "account-1", "factor-1", &[1; 13]),
        Err("MFA secret envelope is invalid".to_owned())
    );
    assert_eq!(
        decrypt_mfa(&key, "account-1", "factor-1", &[2; 40]),
        Err("MFA secret envelope is invalid".to_owned())
    );
    assert_eq!(
        decrypt_mfa(&key, "account-1", "factor-1", &[1; 40]),
        Err("MFA secret authentication failed".to_owned())
    );
}

#[test]
fn two_envelopes_of_one_secret_differ() {
    let key = [7_u8; 32];
    let factor = MfaFactor {
        factor_id: "factor-1".into(),
        account_id: "account-1".into(),
        secret_base32: "JBSWY3DPEHPK3PXP".into(),
        active: true,
        last_used_counter: None,
        created_at_epoch_millis: 1,
    };
    let plaintext = mfa_payload(&factor.secret_base32, None);
    let first = encrypt_mfa(&key, &factor, &plaintext).expect("encrypt");
    let second = encrypt_mfa(&key, &factor, &plaintext).expect("encrypt");
    assert_eq!(first.len(), 1 + 12 + plaintext.len() + 16);
    assert_ne!(first, second);
    assert!(decrypt_mfa(&[8; 32], "account-1", "factor-1", &first).is_err());
    assert!(decrypt_mfa(&key, "account-1", "factor-2", &first).is_err());
}

#[test]
fn times_saturate_on_the_way_into_the_store() {
    assert_eq!(to_i64_lossless(0), 0);
    assert_eq!(to_i64_lossless(i64::MAX as u64), i64::MAX);
    assert_eq!(to_i64_lossless(u64::MAX), i64::MAX);
    assert_eq!(from_i64(17), Ok(17));
    assert_eq!(
        from_i64(-1),
        Err("database timestamp is negative".to_owned())
    );
    assert_eq!(optional_u64(None), Ok(None));
    assert_eq!(optional_u64(Some(4)), Ok(Some(4)));
    assert!(optional_u64(Some(-4)).is_err());
}

#[test]
fn the_clock_is_cut_to_its_range() {
    assert_eq!(now_epoch_millis(None), 0);
    assert_eq!(now_epoch_millis(Some(1_700_000_000_000)), 1_700_000_000_000);
    assert_eq!(now_epoch_millis(Some(u128::MAX)), u64::MAX);
}

#[test]
fn digests_round_trip_through_hexadecimal() {
    let mut digest = [0_u8; 32];
    for (index, byte) in digest.iter_mut().enumerate() {
        *byte = (index * 8 + 3) as u8;
    }
    let text = encode_hex(&digest);
    assert_eq!(text.len(), 64);
    assert!(text.starts_with("030b131b"));
    assert_eq!(decode_hex_32(&text), Ok(digest));
    assert_eq!(decode_hex_32(&text.to_uppercase()), Ok(digest));
    assert_eq!(
        decode_hex_32("abc"),
        Err("digest is not 64 hexadecimal characters".to_owned())
    );
    assert_eq!(
        decode_hex_32(&"zz".repeat(32)),
        Err("digest contains invalid hexadecimal".to_owned())
    );
    assert_eq!(decode_hex_32(&"+f".repeat(32)), Ok([15; 32]));
    assert!(decode_hex_32(&"-f".repeat(32)).is_err());
    assert!(decode_hex_32(&"é".repeat(32)).is_err());
}

#[test]
fn a_list_of_methods_names_its_first_bad_element() {
    assert_eq!(
        parse_required_methods(Some(vec![
            JsonValue::Text("totp".into()),
            JsonValue::Null,
            JsonValue::Bool(true),
        ])),
        Err("account_risk_challenges.required_methods[1] is not a string".to_owned())
    );
    assert_eq!(
        parse_required_methods(None),
        Err("account_risk_challenges.required_methods is not an array".to_owned())
    );
    assert_eq!(parse_required_methods(Some(Vec::new())), Ok(Vec::new()));
}

#[test]
fn the_role_none_stands_for_no_role() {
    assert_eq!(optional_role("none".to_owned()), None);
    assert_eq!(
        optional_role("controller".to_owned()),
        Some("controller".to_owned())
    );
    assert_eq!(role_name(&None), "none");
    assert_eq!(role_name(&Some("controlled".to_owned())), "controlled");
}

#[test]
fn tables_walk_in_the_order_of_their_keys() {
    let mut table: Table<String> = Table::new();
    for key in ["m", "b", "z", "a", "ä", "b"] {
        table.insert(key.to_owned(), format!("row-{key}"));
    }
    assert_eq!(table.len(), 5);
    let keys: Vec<&str> = (0..5).map(|at| table.key_at(at).as_str()).collect();
    assert_eq!(keys, vec!["a", "b", "m", "z", "ä"]);
    assert_eq!(table.get("m").map(String::as_str), Some("row-m"));
    table.remove("m");
    table.remove("absent");
    assert!(!table.contains_key("m"));
    assert_eq!(table.len(), 4);
    table.set_at(0, "changed".to_owned());
    assert_eq!(table.get("a").map(String::as_str), Some("changed"));
    let copy = table.duplicate();
    assert!(copy.same(&table));
    table.insert("n".to_owned(), "row-n".to_owned());
    assert!(!copy.same(&table));
}
