use api_server::account::RecoveryCode;
use api_server::challenge::{LoginDeviceState, RiskChallenge, RiskChallengeStatus};
use api_server::codec::{decode_hex_32, encode_hex, to_i64_lossless, through_store};
use api_server::database::{changed_values, publish_transaction, Database};
use api_server::device::{Architecture, Platform, TrustedDeviceStatus};
use api_server::login_finish::reject_locked_login_challenge;
use api_server::mfa::{canonical_fields, mfa_aad};
use api_server::names::{
    architecture_name, auth_method_name, login_device_state_name,
    parse_architecture, parse_auth_method, parse_login_device_state, parse_platform,
    parse_risk_challenge_status, parse_session_status, parse_trusted_device_status,
    platform_name, risk_challenge_status_name, session_status_name,
    trusted_device_status_name,
};
use api_server::session::{AuthMethod, SessionStatus};
use api_server::store::{conflict_or_persistence_failure, PersistenceError, StoreError};
use api_server::table::Table;
use api_server::text::{is_blank, joined, parse_u64, text_before, trim_text};

#[test]
fn names_are_read_back() {
    for platform in [Platform::Windows, Platform::Ubuntu, Platform::Ios] {
        assert_eq!(parse_platform(platform_name(&platform)), Ok(platform));
    }
    for architecture in [Architecture::X86_64, Architecture::Aarch64] {
        assert_eq!(
            parse_architecture(architecture_name(&architecture)),
            Ok(architecture)
        );
    }
    for state in [
        LoginDeviceState::Registered,
        LoginDeviceState::PendingEnrollment,
    ] {
        assert_eq!(
            parse_login_device_state(login_device_state_name(state)),
            Ok(state)
        );
    }
    for method in [
        AuthMethod::AccountPrompt,
        AuthMethod::TemporaryCode,
        AuthMethod::Unattended,
    ] {
        assert_eq!(parse_auth_method(auth_method_name(method)), Ok(method));
    }
    for status in [
        SessionStatus::PendingCodeVerification,
        SessionStatus::PendingUnattendedVerification,
        SessionStatus::CodeVerified,
        SessionStatus::UnattendedVerified,
        SessionStatus::WaitingApproval,
        SessionStatus::Accepted,
        SessionStatus::Connected,
        SessionStatus::Degraded,
        SessionStatus::Reconnecting,
        SessionStatus::Cancelled,
        SessionStatus::Closed,
        SessionStatus::Rejected,
        SessionStatus::Failed,
    ] {
        assert_eq!(parse_session_status(session_status_name(status)), Ok(status));
    }
    for status in [
        RiskChallengeStatus::Issued,
        RiskChallengeStatus::Verified,
        RiskChallengeStatus::Failed,
        RiskChallengeStatus::Consumed,
        RiskChallengeStatus::Expired,
        RiskChallengeStatus::Cancelled,
    ] {
        assert_eq!(
            parse_risk_challenge_status(risk_challenge_status_name(status)),
            Ok(status)
        );
    }
    for status in [
        TrustedDeviceStatus::Active,
        TrustedDeviceStatus::Expired,
        TrustedDeviceStatus::Revoked,
    ] {
        assert_eq!(
            parse_trusted_device_status(trusted_device_status_name(status)),
            Ok(status)
        );
    }
    assert_eq!(parse_platform("plan9"), Err("unsupported platform plan9".into()));
}

#[test]
fn failed_attempts_of_a_login_run_out() {
    let mut challenge = RiskChallenge {
        risk_challenge_id: "challenge-1".into(),
        account_id: "account-1".into(),
        device_id: None,
        purpose: "login_mfa".into(),
        operation_binding_hash: [0; 32],
        risk_level: "medium".into(),
        required_methods: vec!["totp".into()],
        status: RiskChallengeStatus::Issued,
        attempts_remaining: 3,
        ip_address: None,
        user_agent: None,
        expires_at_epoch_millis: 1,
        created_at_epoch_millis: 0,
        verified_at_epoch_millis: None,
        consumed_at_epoch_millis: None,
    };
    for left in [2, 1] {
        challenge = reject_locked_login_challenge(challenge);
        assert_eq!(challenge.attempts_remaining, left);
        assert_eq!(challenge.status, RiskChallengeStatus::Issued);
    }
    challenge = reject_locked_login_challenge(challenge);
    assert_eq!(challenge.attempts_remaining, 0);
    assert_eq!(challenge.status, RiskChallengeStatus::Failed);
    challenge = reject_locked_login_challenge(challenge);
    assert_eq!(challenge.attempts_remaining, 0);
}

#[test]
fn stored_forms_are_read_back() {
    assert_eq!(through_store(17), 17);
    assert_eq!(to_i64_lossless(u64::MAX), i64::MAX);
    assert_eq!(through_store(u64::MAX), i64::MAX as u64);
    let digest: [u8; 32] = [0xa5; 32];
    assert_eq!(decode_hex_32(&encode_hex(&digest)), Ok(digest));
    assert_eq!(decode_hex_32(&encode_hex(&digest).to_uppercase()), Ok(digest));
    assert!(decode_hex_32("a5").is_err());
}

#[test]
fn framed_fields_keep_their_borders() {
    assert_ne!(mfa_aad("account-1", "1"), mfa_aad("account-", "11"));
    assert_ne!(
        canonical_fields("d", &[("a", b"bc".as_slice())]),
        canonical_fields("d", &[("ab", b"c".as_slice())])
    );
    assert_eq!(
        canonical_fields("d", &[("a", b"bc".as_slice())]),
        canonical_fields("d", &[("a", b"bc".as_slice())])
    );
}

fn code(id: &str, used: Option<u64>) -> RecoveryCode {
    RecoveryCode {
        recovery_code_id: id.into(),
        account_id: "account-1".into(),
        code_hash: [1; 32],
        used_at_epoch_millis: used,
        expires_at_epoch_millis: None,
    }
}

#[test]
fn changes_carry_one_table_to_another() {
    let mut before: Table<RecoveryCode> = Table::new();
    before.insert("b".into(), code("b", None));
    before.insert("a".into(), code("a", None));
    let mut after: Table<RecoveryCode> = Table::new();
    after.insert("a".into(), code("a", None));
    after.insert("b".into(), code("b", Some(1)));
    after.insert("c".into(), code("c", None));
    let changed: Vec<&str> = changed_values(&before, &after)
        .iter()
        .map(|(key, _)| key.as_str())
        .collect();
    assert_eq!(changed, vec!["b", "c"]);
    assert_eq!(before.key_at(0), "a");
    assert_eq!(before.row_at(1).recovery_code_id, "b");
    before.remove("a");
    assert_eq!(before.len(), 1);
    assert!(!before.contains_key("a"));
    let mut database = Database::new();
    database.recovery_codes = before;
    assert!(database.duplicate().recovery_codes.contains_key("b"));
    let mut candidate = database.duplicate();
    candidate.recovery_codes.remove("b");
    let refused = Err(PersistenceError::Data("unfit".into()));
    assert_eq!(
        publish_transaction(&mut database, candidate.duplicate(), &refused),
        Err(StoreError::Unavailable)
    );
    assert!(database.recovery_codes.contains_key("b"));
    assert_eq!(publish_transaction(&mut database, candidate, &Ok(())), Ok(()));
    assert!(!database.recovery_codes.contains_key("b"));
}

#[test]
fn texts_are_trimmed_and_ordered() {
    assert_eq!(trim_text(" \t\u{a0}a b\u{2003}\n"), "a b");
    assert_eq!(trim_text("\u{3000}"), "");
    assert!(is_blank(" \u{85}"));
    assert!(!is_blank("\u{200b}"));
    assert!(text_before("a", "b"));
    assert!(text_before("a", "aa"));
    assert!(!text_before("a", "a"));
    assert_eq!(joined("ab", "c"), "abc");
    assert_eq!(parse_u64("18446744073709551615"), Some(u64::MAX));
    assert_eq!(parse_u64("18446744073709551616"), None);
    assert_eq!(parse_u64("+7"), Some(7));
    assert_eq!(parse_u64("-7"), None);
    assert_eq!(parse_u64(""), None);
    assert_eq!(parse_u64("+"), None);
    for (text, value) in [("0", 0_u64), ("007", 7), ("42", 42)] {
        assert_eq!(parse_u64(text), text.parse().ok());
        assert_eq!(parse_u64(text), Some(value));
    }
}

#[test]
fn only_a_taken_key_is_a_conflict() {
    assert_eq!(
        conflict_or_persistence_failure(&PersistenceError::Database { key_taken: true }),
        StoreError::Conflict
    );
    assert_eq!(
        conflict_or_persistence_failure(&PersistenceError::Database { key_taken: false }),
        StoreError::Unavailable
    );
    assert_eq!(
        conflict_or_persistence_failure(&PersistenceError::Data("reason".into())),
        StoreError::Unavailable
    );
}
