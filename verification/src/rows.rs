use crate::account::{
    Account, AccountModel, AccountSession, AccountSessionModel, AccountStatus, MfaFactor,
    MfaFactorModel, RecoveryCode, RecoveryCodeDelivery, RecoveryCodeDeliveryModel,
    RecoveryCodeModel,
};
use crate::audit::JsonValue;
use crate::challenge::{
    LoginChallengeAuthority, LoginChallengeAuthorityModel, LoginChallengeContext,
    LoginChallengeContextModel, RiskChallenge, RiskChallengeModel, RiskChallengeStatus,
};
use crate::codec::{
    array_of, fixed_12, fixed_32, from_i64, negative_time, not_32_bytes, opt_time, opt_time_valid,
    optional_u64, parse_required_methods, required_methods_problem, stored_i64, stored_methods,
    unsupported_value, validate_fixed_enum,
};
use crate::device::{
    Device, DeviceCapabilities, DeviceEnrollmentGrant, DeviceEnrollmentGrantModel, DeviceModel,
    DevicePublicKeyRecord, DevicePublicKeyRecordModel, TrustedControllerDevice,
    TrustedControllerDeviceModel,
};
use crate::names::{
    architecture_of, device_lifecycle_status_of, login_device_state_of, parse_architecture,
    parse_device_lifecycle_status, parse_login_device_state, parse_platform,
    parse_risk_challenge_status, parse_trusted_device_status, platform_of, risk_challenge_status_of,
    trusted_device_status_of,
};
use crate::rules::{
    delivery_problem, grant_problem, listed, methods_fit_purpose,
    risk_challenge_required_methods_are_valid, validate_device_enrollment_grant,
    validate_recovery_code_delivery, ACCOUNT_SESSION_REVOKED_REASONS, MAX_CHALLENGE_ATTEMPTS,
    RISK_CHALLENGE_PURPOSES, RISK_LEVELS, TRUST_LEVELS, TRUST_PROOF_TYPES,
};
use crate::table::Record;
use crate::text::{joined, opt_text, text_eq, texts_copy};
use vstd::prelude::*;

verus! {

/// A risk challenge as its row holds it. `required_methods` is `None` where the stored value is no
/// list.
#[derive(Debug, PartialEq, Eq)]
pub struct RiskChallengeRow {
    pub risk_challenge_id: String,
    pub account_id: String,
    pub device_id: Option<String>,
    pub purpose: String,
    pub operation_binding_hash: Vec<u8>,
    pub risk_level: String,
    pub required_methods: Option<Vec<JsonValue>>,
    pub status: String,
    pub attempts_remaining: i16,
    pub ip_address: Option<String>,
    pub user_agent: Option<String>,
    pub expires_at_epoch_millis: i64,
    pub created_at_epoch_millis: i64,
    pub verified_at_epoch_millis: Option<i64>,
    pub consumed_at_epoch_millis: Option<i64>,
}

/// What is wrong with the row of a risk challenge.
pub open spec fn challenge_row_problem(row: RiskChallengeRow) -> Option<Seq<char>> {
    if !listed(RISK_CHALLENGE_PURPOSES@, row.purpose@) {
        Some(unsupported_value("account_risk_challenges.purpose"@, row.purpose@))
    } else if !listed(RISK_LEVELS@, row.risk_level@) {
        Some(unsupported_value("account_risk_challenges.risk_level"@, row.risk_level@))
    } else if !(0 <= row.attempts_remaining <= u8::MAX) {
        Some("account_risk_challenges.attempts_remaining is invalid"@)
    } else if row.attempts_remaining > MAX_CHALLENGE_ATTEMPTS {
        Some("account_risk_challenges.attempts_remaining exceeds 5"@)
    } else if required_methods_problem(row.required_methods) is Some {
        required_methods_problem(row.required_methods)
    } else if !methods_fit_purpose(row.purpose@, stored_methods(row.required_methods)) {
        Some("account_risk_challenges.required_methods violates the frozen purpose matrix"@)
    } else if row.operation_binding_hash@.len() != 32 {
        Some(not_32_bytes("account_risk_challenges.operation_binding_hash"@))
    } else if risk_challenge_status_of(row.status@) is None {
        Some("account_risk_challenges.status contains unsupported value "@ + row.status@)
    } else if row.expires_at_epoch_millis < 0 || row.created_at_epoch_millis < 0 || !opt_time_valid(
        row.verified_at_epoch_millis,
    ) || !opt_time_valid(row.consumed_at_epoch_millis) {
        Some(negative_time())
    } else {
        None
    }
}

/// The risk challenge that a row stands for.
pub open spec fn challenge_row_model(row: RiskChallengeRow) -> RiskChallengeModel {
    RiskChallengeModel {
        risk_challenge_id: row.risk_challenge_id@,
        account_id: row.account_id@,
        device_id: opt_text(row.device_id),
        purpose: row.purpose@,
        operation_binding_hash: array_of::<32>(row.operation_binding_hash@),
        risk_level: row.risk_level@,
        required_methods: stored_methods(row.required_methods),
        status: risk_challenge_status_of(row.status@)->0,
        attempts_remaining: row.attempts_remaining as u8,
        ip_address: opt_text(row.ip_address),
        user_agent: opt_text(row.user_agent),
        expires_at_epoch_millis: row.expires_at_epoch_millis as u64,
        created_at_epoch_millis: row.created_at_epoch_millis as u64,
        verified_at_epoch_millis: opt_time(row.verified_at_epoch_millis),
        consumed_at_epoch_millis: opt_time(row.consumed_at_epoch_millis),
    }
}

/// Reads the row of a risk challenge.
pub fn risk_challenge_from_row(row: RiskChallengeRow) -> (result: Result<RiskChallenge, String>)
    ensures
        result is Ok <==> challenge_row_problem(row) is None,
        result is Ok ==> result->Ok_0@ == challenge_row_model(row),
        result is Err ==> Some(result->Err_0@) == challenge_row_problem(row),
{
    validate_fixed_enum(
        row.purpose.as_str(),
        "account_risk_challenges.purpose",
        RISK_CHALLENGE_PURPOSES.as_slice(),
    )?;
    validate_fixed_enum(
        row.risk_level.as_str(),
        "account_risk_challenges.risk_level",
        RISK_LEVELS.as_slice(),
    )?;
    if row.attempts_remaining < 0 || row.attempts_remaining > 255 {
        return Err("account_risk_challenges.attempts_remaining is invalid".to_owned());
    }
    let attempts_remaining: u8 = row.attempts_remaining as u8;
    if attempts_remaining > MAX_CHALLENGE_ATTEMPTS {
        return Err("account_risk_challenges.attempts_remaining exceeds 5".to_owned());
    }
    let required_methods = parse_required_methods(row.required_methods)?;
    if !risk_challenge_required_methods_are_valid(row.purpose.as_str(), &required_methods) {
        return Err(
            "account_risk_challenges.required_methods violates the frozen purpose matrix".to_owned(),
        );
    }
    Ok(
        RiskChallenge {
            risk_challenge_id: row.risk_challenge_id,
            account_id: row.account_id,
            device_id: row.device_id,
            purpose: row.purpose,
            operation_binding_hash: fixed_32(
                row.operation_binding_hash,
                "account_risk_challenges.operation_binding_hash",
            )?,
            risk_level: row.risk_level,
            required_methods,
            status: parse_risk_challenge_status(row.status.as_str())?,
            attempts_remaining,
            ip_address: row.ip_address,
            user_agent: row.user_agent,
            expires_at_epoch_millis: from_i64(row.expires_at_epoch_millis)?,
            created_at_epoch_millis: from_i64(row.created_at_epoch_millis)?,
            verified_at_epoch_millis: optional_u64(row.verified_at_epoch_millis)?,
            consumed_at_epoch_millis: optional_u64(row.consumed_at_epoch_millis)?,
        },
    )
}

/// A login challenge with its context, as its row holds them.
#[derive(Debug, PartialEq, Eq)]
pub struct LoginChallengeRow {
    pub challenge: RiskChallengeRow,
    pub login_device_state: String,
    pub login_device_id: String,
    pub login_account_updated_at_epoch_millis: i64,
    pub login_device_public_key: Vec<u8>,
    pub login_device_public_key_fingerprint: Vec<u8>,
    pub login_public_key_id: Option<String>,
    pub login_public_key_version: i32,
    pub login_client_nonce: Vec<u8>,
    pub login_server_nonce: Vec<u8>,
    pub login_request_binding_hash: Vec<u8>,
    pub login_ip_address_hash: Vec<u8>,
    pub login_user_agent_hash: Vec<u8>,
    pub login_trusted_device_id: Option<String>,
    pub login_protocol_version: i32,
    pub login_attempts_limit: i16,
}

/// What is wrong with the row of a login challenge.
pub open spec fn login_row_problem(row: LoginChallengeRow) -> Option<Seq<char>> {
    if challenge_row_problem(row.challenge) is Some {
        challenge_row_problem(row.challenge)
    } else if row.challenge.purpose@ != "login_mfa"@ {
        Some("account_risk_challenges row is not a login challenge"@)
    } else if login_device_state_of(row.login_device_state@) is None {
        Some(
            "account_risk_challenges.login_device_state contains unsupported value "@
                + row.login_device_state@,
        )
    } else if row.login_public_key_version < 0 {
        Some("account_risk_challenges.login_public_key_version is invalid"@)
    } else if !(0 <= row.login_protocol_version <= u16::MAX) {
        Some("account_risk_challenges.login_protocol_version is invalid"@)
    } else if !(0 <= row.login_attempts_limit <= u8::MAX) {
        Some("account_risk_challenges.login_attempts_limit is invalid"@)
    } else if row.login_account_updated_at_epoch_millis < 0 {
        Some(negative_time())
    } else if row.login_device_public_key@.len() != 32 {
        Some(not_32_bytes("account_risk_challenges.login_device_public_key"@))
    } else if row.login_device_public_key_fingerprint@.len() != 32 {
        Some(not_32_bytes("account_risk_challenges.login_device_public_key_fingerprint"@))
    } else if row.login_client_nonce@.len() != 32 {
        Some(not_32_bytes("account_risk_challenges.login_client_nonce"@))
    } else if row.login_server_nonce@.len() != 32 {
        Some(not_32_bytes("account_risk_challenges.login_server_nonce"@))
    } else if row.login_request_binding_hash@.len() != 32 {
        Some(not_32_bytes("account_risk_challenges.login_request_binding_hash"@))
    } else if row.login_ip_address_hash@.len() != 32 {
        Some(not_32_bytes("account_risk_challenges.login_ip_address_hash"@))
    } else if row.login_user_agent_hash@.len() != 32 {
        Some(not_32_bytes("account_risk_challenges.login_user_agent_hash"@))
    } else {
        None
    }
}

/// The login challenge that a row stands for.
pub open spec fn login_row_model(row: LoginChallengeRow) -> LoginChallengeAuthorityModel {
    let challenge = challenge_row_model(row.challenge);
    LoginChallengeAuthorityModel {
        challenge,
        context: LoginChallengeContextModel {
            device_state: login_device_state_of(row.login_device_state@)->0,
            device_id: row.login_device_id@,
            account_updated_at_epoch_millis: row.login_account_updated_at_epoch_millis as u64,
            device_public_key: array_of::<32>(row.login_device_public_key@),
            device_public_key_fingerprint: array_of::<32>(
                row.login_device_public_key_fingerprint@,
            ),
            public_key_id: opt_text(row.login_public_key_id),
            public_key_version: row.login_public_key_version as u32,
            client_nonce: array_of::<32>(row.login_client_nonce@),
            server_nonce: array_of::<32>(row.login_server_nonce@),
            login_request_binding_hash: array_of::<32>(row.login_request_binding_hash@),
            login_challenge_binding_hash: challenge.operation_binding_hash,
            ip_address_hash: array_of::<32>(row.login_ip_address_hash@),
            user_agent_hash: array_of::<32>(row.login_user_agent_hash@),
            required_factors: challenge.required_methods,
            trusted_device_id: opt_text(row.login_trusted_device_id),
            protocol_version: row.login_protocol_version as u16,
            issued_at_epoch_millis: challenge.created_at_epoch_millis,
            attempts_limit: row.login_attempts_limit as u8,
        },
    }
}

/// Reads the row of a login challenge.
pub fn login_challenge_authority_from_row(row: LoginChallengeRow) -> (result: Result<
    LoginChallengeAuthority,
    String,
>)
    ensures
        result is Ok <==> login_row_problem(row) is None,
        result is Ok ==> result->Ok_0@ == login_row_model(row),
        result is Err ==> Some(result->Err_0@) == login_row_problem(row),
{
    let challenge = risk_challenge_from_row(row.challenge)?;
    if !text_eq(challenge.purpose.as_str(), "login_mfa") {
        return Err("account_risk_challenges row is not a login challenge".to_owned());
    }
    let device_state = parse_login_device_state(row.login_device_state.as_str())?;
    if row.login_public_key_version < 0 {
        return Err("account_risk_challenges.login_public_key_version is invalid".to_owned());
    }
    if row.login_protocol_version < 0 || row.login_protocol_version > 65535 {
        return Err("account_risk_challenges.login_protocol_version is invalid".to_owned());
    }
    if row.login_attempts_limit < 0 || row.login_attempts_limit > 255 {
        return Err("account_risk_challenges.login_attempts_limit is invalid".to_owned());
    }
    let context = LoginChallengeContext {
        device_state,
        device_id: row.login_device_id,
        account_updated_at_epoch_millis: from_i64(row.login_account_updated_at_epoch_millis)?,
        device_public_key: fixed_32(
            row.login_device_public_key,
            "account_risk_challenges.login_device_public_key",
        )?,
        device_public_key_fingerprint: fixed_32(
            row.login_device_public_key_fingerprint,
            "account_risk_challenges.login_device_public_key_fingerprint",
        )?,
        public_key_id: row.login_public_key_id,
        public_key_version: row.login_public_key_version as u32,
        client_nonce: fixed_32(
            row.login_client_nonce,
            "account_risk_challenges.login_client_nonce",
        )?,
        server_nonce: fixed_32(
            row.login_server_nonce,
            "account_risk_challenges.login_server_nonce",
        )?,
        login_request_binding_hash: fixed_32(
            row.login_request_binding_hash,
            "account_risk_challenges.login_request_binding_hash",
        )?,
        login_challenge_binding_hash: challenge.operation_binding_hash,
        ip_address_hash: fixed_32(
            row.login_ip_address_hash,
            "account_risk_challenges.login_ip_address_hash",
        )?,
        user_agent_hash: fixed_32(
            row.login_user_agent_hash,
            "account_risk_challenges.login_user_agent_hash",
        )?,
        required_factors: texts_copy(&challenge.required_methods),
        trusted_device_id: row.login_trusted_device_id,
        protocol_version: row.login_protocol_version as u16,
        issued_at_epoch_millis: challenge.created_at_epoch_millis,
        attempts_limit: row.login_attempts_limit as u8,
    };
    Ok(LoginChallengeAuthority { challenge, context })
}

/// A login challenge as it was issued: open, with all of its attempts.
pub open spec fn issued_shape(authority: LoginChallengeAuthorityModel) -> LoginChallengeAuthorityModel {
    LoginChallengeAuthorityModel {
        challenge: RiskChallengeModel {
            status: RiskChallengeStatus::Issued,
            attempts_remaining: authority.context.attempts_limit,
            ..authority.challenge
        },
        ..authority
    }
}

/// A login challenge as it was issued: open, with all of its attempts. In this shape the binding
/// of its context is checked, whatever has become of it.
pub fn login_authority_shape(authority: &LoginChallengeAuthority) -> (shape:
    LoginChallengeAuthority)
    ensures
        shape@ == issued_shape(authority@),
{
    let mut shape = authority.duplicate();
    shape.challenge.status = RiskChallengeStatus::Issued;
    shape.challenge.attempts_remaining = authority.context.attempts_limit;
    shape
}

/// Refuses a login challenge whose context is not bound to it.
pub fn check_login_authority(
    authority: LoginChallengeAuthority,
    shape_valid: bool,
) -> (result: Result<LoginChallengeAuthority, String>)
    ensures
        result is Ok <==> shape_valid,
        result is Ok ==> result->Ok_0@ == authority@,
        result is Err ==> result->Err_0@
            == "account_risk_challenges login context binding is invalid"@,
{
    if shape_valid {
        Ok(authority)
    } else {
        Err("account_risk_challenges login context binding is invalid".to_owned())
    }
}

/// An account as its row holds it.
#[derive(Debug, PartialEq, Eq)]
pub struct AccountRow {
    pub account_id: String,
    pub email: String,
    pub display_name: String,
    pub password_hash: String,
    pub status: String,
    pub created_at_epoch_millis: i64,
    pub updated_at_epoch_millis: i64,
}

/// The status of an account that a stored name stands for: a locked account counts as disabled.
pub open spec fn account_status_of(name: Seq<char>) -> Option<AccountStatus> {
    if name == "active"@ {
        Some(AccountStatus::Active)
    } else if name == "disabled"@ || name == "locked"@ {
        Some(AccountStatus::Disabled)
    } else {
        None
    }
}

/// What is wrong with the row of an account.
pub open spec fn account_row_problem(row: AccountRow) -> Option<Seq<char>> {
    if account_status_of(row.status@) is None {
        Some("accounts contains unsupported status "@ + row.status@)
    } else if row.created_at_epoch_millis < 0 || row.updated_at_epoch_millis < 0 {
        Some(negative_time())
    } else {
        None
    }
}

/// The account that a row stands for.
pub open spec fn account_row_model(row: AccountRow) -> AccountModel {
    AccountModel {
        account_id: row.account_id@,
        email: row.email@,
        display_name: row.display_name@,
        password_hash: row.password_hash@,
        status: account_status_of(row.status@)->0,
        created_at_epoch_millis: row.created_at_epoch_millis as u64,
        updated_at_epoch_millis: row.updated_at_epoch_millis as u64,
    }
}

/// Reads the row of an account.
pub fn account_from_row(row: AccountRow) -> (result: Result<Account, String>)
    ensures
        result is Ok <==> account_row_problem(row) is None,
        result is Ok ==> result->Ok_0@ == account_row_model(row),
        result is Err ==> Some(result->Err_0@) == account_row_problem(row),
{
    let status = if text_eq(row.status.as_str(), "active") {
        AccountStatus::Active
    } else if text_eq(row.status.as_str(), "disabled") || text_eq(row.status.as_str(), "locked") {
        AccountStatus::Disabled
    } else {
        return Err(joined("accounts contains unsupported status ", row.status.as_str()));
    };
    Ok(
        Account {
            account_id: row.account_id,
            email: row.email,
            display_name: row.display_name,
            password_hash: row.password_hash,
            status,
            created_at_epoch_millis: from_i64(row.created_at_epoch_millis)?,
            updated_at_epoch_millis: from_i64(row.updated_at_epoch_millis)?,
        },
    )
}

/// An account session as its row holds it.
#[derive(Debug, PartialEq, Eq)]
pub struct AccountSessionRow {
    pub account_session_id: String,
    pub account_id: String,
    pub refresh_token_hash: Vec<u8>,
    pub mfa_verified: bool,
    pub expires_at_epoch_millis: i64,
    pub revoked_at_epoch_millis: Option<i64>,
    pub revoked_reason: Option<String>,
}

/// What is wrong with the row of an account session.
pub open spec fn account_session_row_problem(row: AccountSessionRow) -> Option<Seq<char>> {
    if row.revoked_reason is Some && !listed(
        ACCOUNT_SESSION_REVOKED_REASONS@,
        row.revoked_reason->0@,
    ) {
        Some(unsupported_value("account_sessions.revoked_reason"@, row.revoked_reason->0@))
    } else if row.refresh_token_hash@.len() != 32 {
        Some(not_32_bytes("refresh_token_hash"@))
    } else if row.expires_at_epoch_millis < 0 || !opt_time_valid(row.revoked_at_epoch_millis) {
        Some(negative_time())
    } else {
        None
    }
}

/// The row of an account session with the time in place that its revocation writes.
pub open spec fn session_revoking_row(row: AccountSessionRow, now: u64) -> AccountSessionRow {
    AccountSessionRow { revoked_at_epoch_millis: Some(stored_i64(now)), ..row }
}

/// The account session that a row stands for.
pub open spec fn account_session_row_model(row: AccountSessionRow) -> AccountSessionModel {
    AccountSessionModel {
        account_session_id: row.account_session_id@,
        account_id: row.account_id@,
        refresh_token_hash: array_of::<32>(row.refresh_token_hash@),
        mfa_verified: row.mfa_verified,
        expires_at_epoch_millis: row.expires_at_epoch_millis as u64,
        revoked_at_epoch_millis: opt_time(row.revoked_at_epoch_millis),
        revoked_reason: opt_text(row.revoked_reason),
    }
}

/// Reads the row of an account session.
pub fn account_session_from_row(row: AccountSessionRow) -> (result: Result<AccountSession, String>)
    ensures
        result is Ok <==> account_session_row_problem(row) is None,
        result is Ok ==> result->Ok_0@ == account_session_row_model(row),
        result is Err ==> Some(result->Err_0@) == account_session_row_problem(row),
{
    if let Some(reason) = &row.revoked_reason {
        validate_fixed_enum(
            reason.as_str(),
            "account_sessions.revoked_reason",
            ACCOUNT_SESSION_REVOKED_REASONS.as_slice(),
        )?;
    }
    Ok(
        AccountSession {
            account_session_id: row.account_session_id,
            account_id: row.account_id,
            refresh_token_hash: fixed_32(row.refresh_token_hash, "refresh_token_hash")?,
            mfa_verified: row.mfa_verified,
            expires_at_epoch_millis: from_i64(row.expires_at_epoch_millis)?,
            revoked_at_epoch_millis: optional_u64(row.revoked_at_epoch_millis)?,
            revoked_reason: row.revoked_reason,
        },
    )
}

/// A TOTP factor, from its row and the secret that its envelope held. Only active factors are
/// read.
pub fn mfa_factor_from_row(
    factor_id: String,
    account_id: String,
    secret_base32: String,
    last_used_counter: Option<u64>,
    created_at_epoch_millis: i64,
) -> (result: Result<MfaFactor, String>)
    ensures
        result is Ok <==> created_at_epoch_millis >= 0,
        result is Ok ==> result->Ok_0@ == (MfaFactorModel {
            factor_id: factor_id@,
            account_id: account_id@,
            secret_base32: secret_base32@,
            active: true,
            last_used_counter,
            created_at_epoch_millis: created_at_epoch_millis as u64,
        }),
        result is Err ==> result->Err_0@ == negative_time(),
{
    Ok(
        MfaFactor {
            factor_id,
            account_id,
            secret_base32,
            active: true,
            last_used_counter,
            created_at_epoch_millis: from_i64(created_at_epoch_millis)?,
        },
    )
}

/// A recovery code as its row holds it.
#[derive(Debug, PartialEq, Eq)]
pub struct RecoveryCodeRow {
    pub recovery_code_id: String,
    pub account_id: String,
    pub code_hash: Vec<u8>,
    pub used_at_epoch_millis: Option<i64>,
    pub expires_at_epoch_millis: Option<i64>,
}

/// What is wrong with the row of a recovery code.
pub open spec fn recovery_code_row_problem(row: RecoveryCodeRow) -> Option<Seq<char>> {
    if row.code_hash@.len() != 32 {
        Some(not_32_bytes("code_hash"@))
    } else if !opt_time_valid(row.used_at_epoch_millis) || !opt_time_valid(
        row.expires_at_epoch_millis,
    ) {
        Some(negative_time())
    } else {
        None
    }
}

/// The recovery code that a row stands for.
pub open spec fn recovery_code_row_model(row: RecoveryCodeRow) -> RecoveryCodeModel {
    RecoveryCodeModel {
        recovery_code_id: row.recovery_code_id@,
        account_id: row.account_id@,
        code_hash: array_of::<32>(row.code_hash@),
        used_at_epoch_millis: opt_time(row.used_at_epoch_millis),
        expires_at_epoch_millis: opt_time(row.expires_at_epoch_millis),
    }
}

/// Reads the row of a recovery code.
pub fn recovery_code_from_row(row: RecoveryCodeRow) -> (result: Result<RecoveryCode, String>)
    ensures
        result is Ok <==> recovery_code_row_problem(row) is None,
        result is Ok ==> result->Ok_0@ == recovery_code_row_model(row),
        result is Err ==> Some(result->Err_0@) == recovery_code_row_problem(row),
{
    Ok(
        RecoveryCode {
            recovery_code_id: row.recovery_code_id,
            account_id: row.account_id,
            code_hash: fixed_32(row.code_hash, "code_hash")?,
            used_at_epoch_millis: optional_u64(row.used_at_epoch_millis)?,
            expires_at_epoch_millis: optional_u64(row.expires_at_epoch_millis)?,
        },
    )
}

/// A device with its policy, as their rows hold them.
#[derive(Debug, PartialEq, Eq)]
pub struct DeviceRow {
    pub device_id: String,
    pub account_id: String,
    pub display_name: String,
    pub platform: String,
    pub os_version: String,
    pub arch: String,
    pub public_key_id: String,
    pub public_key: Vec<u8>,
    pub public_key_version: i32,
    pub public_key_revoked_at_epoch_millis: Option<i64>,
    pub unattended_enabled: bool,
    pub status: String,
    pub last_seen_epoch_millis: Option<i64>,
    pub created_at_epoch_millis: i64,
    pub updated_at_epoch_millis: i64,
    pub allow_remote_desktop: bool,
    pub allow_file_transfer: bool,
    pub allow_unattended: bool,
}

/// What is wrong with the row of a device.
pub open spec fn device_row_problem(row: DeviceRow) -> Option<Seq<char>> {
    if row.public_key@.len() != 32 {
        Some(not_32_bytes("public_key"@))
    } else if row.public_key_version < 0 {
        Some("device public_key_version is negative"@)
    } else if row.created_at_epoch_millis < 0 || !opt_time_valid(
        row.public_key_revoked_at_epoch_millis,
    ) {
        Some(negative_time())
    } else if platform_of(row.platform@) is None {
        Some("unsupported platform "@ + row.platform@)
    } else if architecture_of(row.arch@) is None {
        Some("unsupported architecture "@ + row.arch@)
    } else if device_lifecycle_status_of(row.status@) is None {
        Some("devices.status contains unsupported value "@ + row.status@)
    } else if !opt_time_valid(row.last_seen_epoch_millis) || row.updated_at_epoch_millis < 0 {
        Some(negative_time())
    } else {
        None
    }
}

/// The device that a row stands for. Every device may be a controller; unattended access has to be
/// both allowed and enabled.
pub open spec fn device_row_model(row: DeviceRow) -> DeviceModel {
    DeviceModel {
        device_id: row.device_id@,
        account_id: row.account_id@,
        display_name: row.display_name@,
        platform: platform_of(row.platform@)->0,
        os_version: row.os_version@,
        arch: architecture_of(row.arch@)->0,
        capabilities: DeviceCapabilities {
            controller: true,
            controlled: row.allow_remote_desktop,
            file_transfer: row.allow_file_transfer,
            unattended: row.allow_unattended && row.unattended_enabled,
        },
        public_key_id: row.public_key_id@,
        public_key: array_of::<32>(row.public_key@),
        public_key_version: row.public_key_version as u32,
        public_key_revoked_at_epoch_millis: opt_time(row.public_key_revoked_at_epoch_millis),
        status: device_lifecycle_status_of(row.status@)->0,
        last_seen_epoch_millis: opt_time(row.last_seen_epoch_millis),
        created_at_epoch_millis: row.created_at_epoch_millis as u64,
        updated_at_epoch_millis: row.updated_at_epoch_millis as u64,
    }
}

/// The record of the key that a device has.
pub open spec fn key_record_of(device: DeviceModel) -> DevicePublicKeyRecordModel {
    DevicePublicKeyRecordModel {
        public_key_id: device.public_key_id,
        device_id: device.device_id,
        public_key: device.public_key,
        version: device.public_key_version,
        created_at_epoch_millis: device.created_at_epoch_millis,
        revoked_at_epoch_millis: device.public_key_revoked_at_epoch_millis,
    }
}

/// Reads the row of a device, and the record of its key.
pub fn device_from_row(row: DeviceRow) -> (result: Result<(Device, DevicePublicKeyRecord), String>)
    ensures
        result is Ok <==> device_row_problem(row) is None,
        result is Ok ==> result->Ok_0.0@ == device_row_model(row),
        result is Ok ==> result->Ok_0.1@ == key_record_of(device_row_model(row)),
        result is Err ==> Some(result->Err_0@) == device_row_problem(row),
{
    let public_key = fixed_32(row.public_key, "public_key")?;
    if row.public_key_version < 0 {
        return Err("device public_key_version is negative".to_owned());
    }
    let created_at_epoch_millis: u64 = from_i64(row.created_at_epoch_millis)?;
    let revoked_at: Option<u64> = optional_u64(row.public_key_revoked_at_epoch_millis)?;
    let device = Device {
        device_id: row.device_id,
        account_id: row.account_id,
        display_name: row.display_name,
        platform: parse_platform(row.platform.as_str())?,
        os_version: row.os_version,
        arch: parse_architecture(row.arch.as_str())?,
        capabilities: DeviceCapabilities {
            controller: true,
            controlled: row.allow_remote_desktop,
            file_transfer: row.allow_file_transfer,
            unattended: row.allow_unattended && row.unattended_enabled,
        },
        public_key_id: row.public_key_id,
        public_key,
        public_key_version: row.public_key_version as u32,
        public_key_revoked_at_epoch_millis: revoked_at,
        status: parse_device_lifecycle_status(row.status.as_str())?,
        last_seen_epoch_millis: optional_u64(row.last_seen_epoch_millis)?,
        created_at_epoch_millis,
        updated_at_epoch_millis: from_i64(row.updated_at_epoch_millis)?,
    };
    let key_record = DevicePublicKeyRecord {
        public_key_id: device.public_key_id.clone(),
        device_id: device.device_id.clone(),
        public_key,
        version: device.public_key_version,
        created_at_epoch_millis,
        revoked_at_epoch_millis: revoked_at,
    };
    Ok((device, key_record))
}

/// An enrollment grant as its row holds it.
#[derive(Debug, PartialEq, Eq)]
pub struct DeviceEnrollmentGrantRow {
    pub grant_id: String,
    pub grant_secret_hash: Vec<u8>,
    pub account_id: String,
    pub device_id: String,
    pub device_public_key_fingerprint: Vec<u8>,
    pub login_challenge_id: String,
    pub login_challenge_binding_hash: Vec<u8>,
    pub trust_proof_type: Option<String>,
    pub trust_level: Option<String>,
    pub establish_trust: bool,
    pub protocol_version: i32,
    pub issued_account_session_id: String,
    pub issued_at_epoch_millis: i64,
    pub expires_at_epoch_millis: i64,
    pub consumed_at_epoch_millis: Option<i64>,
    pub registration_request_binding_hash: Option<Vec<u8>>,
    pub registered_public_key_id: Option<String>,
    pub registered_trusted_device_id: Option<String>,
}

/// The digest that an optional stored digest stands for.
pub open spec fn opt_digest(value: Option<Vec<u8>>) -> Option<[u8; 32]> {
    match value {
        Some(bytes) => Some(array_of::<32>(bytes@)),
        None => None,
    }
}

/// The enrollment grant that a row stands for.
pub open spec fn grant_row_model(row: DeviceEnrollmentGrantRow) -> DeviceEnrollmentGrantModel {
    DeviceEnrollmentGrantModel {
        grant_id: row.grant_id@,
        grant_secret_hash: array_of::<32>(row.grant_secret_hash@),
        account_id: row.account_id@,
        device_id: row.device_id@,
        device_public_key_fingerprint: array_of::<32>(row.device_public_key_fingerprint@),
        login_challenge_id: row.login_challenge_id@,
        login_challenge_binding_hash: array_of::<32>(row.login_challenge_binding_hash@),
        trust_proof_type: opt_text(row.trust_proof_type),
        trust_level: opt_text(row.trust_level),
        establish_trust: row.establish_trust,
        protocol_version: row.protocol_version as u16,
        issued_account_session_id: row.issued_account_session_id@,
        issued_at_epoch_millis: row.issued_at_epoch_millis as u64,
        expires_at_epoch_millis: row.expires_at_epoch_millis as u64,
        consumed_at_epoch_millis: opt_time(row.consumed_at_epoch_millis),
        registration_request_binding_hash: opt_digest(row.registration_request_binding_hash),
        registered_public_key_id: opt_text(row.registered_public_key_id),
        registered_trusted_device_id: opt_text(row.registered_trusted_device_id),
    }
}

/// What is wrong with the row of an enrollment grant.
pub open spec fn grant_row_problem(row: DeviceEnrollmentGrantRow) -> Option<Seq<char>> {
    if row.grant_secret_hash@.len() != 32 {
        Some(not_32_bytes("device_enrollment_grants.grant_secret_hash"@))
    } else if row.device_public_key_fingerprint@.len() != 32 {
        Some(not_32_bytes("device_enrollment_grants.device_public_key_fingerprint"@))
    } else if row.login_challenge_binding_hash@.len() != 32 {
        Some(not_32_bytes("device_enrollment_grants.login_challenge_binding_hash"@))
    } else if !(0 <= row.protocol_version <= u16::MAX) {
        Some("device_enrollment_grants.protocol_version is invalid"@)
    } else if row.issued_at_epoch_millis < 0 || row.expires_at_epoch_millis < 0 || !opt_time_valid(
        row.consumed_at_epoch_millis,
    ) {
        Some(negative_time())
    } else if row.registration_request_binding_hash is Some
        && row.registration_request_binding_hash->0@.len() != 32 {
        Some(not_32_bytes("device_enrollment_grants.registration_request_binding_hash"@))
    } else {
        grant_problem(grant_row_model(row))
    }
}

/// Reads the row of an enrollment grant.
pub fn device_enrollment_grant_from_row(row: DeviceEnrollmentGrantRow) -> (result: Result<
    DeviceEnrollmentGrant,
    String,
>)
    ensures
        result is Ok <==> grant_row_problem(row) is None,
        result is Ok ==> result->Ok_0@ == grant_row_model(row),
        result is Err ==> Some(result->Err_0@) == grant_row_problem(row),
{
    let grant_secret_hash = fixed_32(
        row.grant_secret_hash,
        "device_enrollment_grants.grant_secret_hash",
    )?;
    let device_public_key_fingerprint = fixed_32(
        row.device_public_key_fingerprint,
        "device_enrollment_grants.device_public_key_fingerprint",
    )?;
    let login_challenge_binding_hash = fixed_32(
        row.login_challenge_binding_hash,
        "device_enrollment_grants.login_challenge_binding_hash",
    )?;
    if row.protocol_version < 0 || row.protocol_version > 65535 {
        return Err("device_enrollment_grants.protocol_version is invalid".to_owned());
    }
    let issued_at_epoch_millis: u64 = from_i64(row.issued_at_epoch_millis)?;
    let expires_at_epoch_millis: u64 = from_i64(row.expires_at_epoch_millis)?;
    let consumed_at_epoch_millis: Option<u64> = optional_u64(row.consumed_at_epoch_millis)?;
    let registration_request_binding_hash: Option<[u8; 32]> =
        match row.registration_request_binding_hash {
        Some(value) => Some(
            fixed_32(value, "device_enrollment_grants.registration_request_binding_hash")?,
        ),
        None => None,
    };
    let grant = DeviceEnrollmentGrant {
        grant_id: row.grant_id,
        grant_secret_hash,
        account_id: row.account_id,
        device_id: row.device_id,
        device_public_key_fingerprint,
        login_challenge_id: row.login_challenge_id,
        login_challenge_binding_hash,
        trust_proof_type: row.trust_proof_type,
        trust_level: row.trust_level,
        establish_trust: row.establish_trust,
        protocol_version: row.protocol_version as u16,
        issued_account_session_id: row.issued_account_session_id,
        issued_at_epoch_millis,
        expires_at_epoch_millis,
        consumed_at_epoch_millis,
        registration_request_binding_hash,
        registered_public_key_id: row.registered_public_key_id,
        registered_trusted_device_id: row.registered_trusted_device_id,
    };
    assert(grant@ == grant_row_model(row));
    validate_device_enrollment_grant(&grant)?;
    Ok(grant)
}

/// A delivery of recovery codes as its row holds it.
#[derive(Debug, PartialEq, Eq)]
pub struct RecoveryCodeDeliveryRow {
    pub delivery_id: String,
    pub account_id: String,
    pub account_session_id: String,
    pub factor_id: String,
    pub idempotency_key_hash: Vec<u8>,
    pub finish_request_binding_hash: Vec<u8>,
    pub client_ephemeral_public_key: Vec<u8>,
    pub server_ephemeral_public_key: Vec<u8>,
    pub nonce: Vec<u8>,
    pub ciphertext: Vec<u8>,
    pub recovery_code_count: i16,
    pub created_at_epoch_millis: i64,
    pub expires_at_epoch_millis: i64,
    pub acknowledged_at_epoch_millis: Option<i64>,
}

/// The delivery that a row stands for.
pub open spec fn delivery_row_model(row: RecoveryCodeDeliveryRow) -> RecoveryCodeDeliveryModel {
    RecoveryCodeDeliveryModel {
        delivery_id: row.delivery_id@,
        account_id: row.account_id@,
        account_session_id: row.account_session_id@,
        factor_id: row.factor_id@,
        idempotency_key_hash: array_of::<32>(row.idempotency_key_hash@),
        finish_request_binding_hash: array_of::<32>(row.finish_request_binding_hash@),
        client_ephemeral_public_key: array_of::<32>(row.client_ephemeral_public_key@),
        server_ephemeral_public_key: array_of::<32>(row.server_ephemeral_public_key@),
        nonce: array_of::<12>(row.nonce@),
        ciphertext: row.ciphertext@,
        recovery_code_count: row.recovery_code_count as u16,
        created_at_epoch_millis: row.created_at_epoch_millis as u64,
        expires_at_epoch_millis: row.expires_at_epoch_millis as u64,
        acknowledged_at_epoch_millis: opt_time(row.acknowledged_at_epoch_millis),
    }
}

/// What keeps the row of a delivery from being read at all.
pub open spec fn delivery_row_problem(row: RecoveryCodeDeliveryRow) -> Option<Seq<char>> {
    if row.nonce@.len() != 12 {
        Some("mfa_recovery_code_deliveries.nonce is not 12 bytes"@)
    } else if row.recovery_code_count < 0 {
        Some("mfa_recovery_code_deliveries.recovery_code_count is invalid"@)
    } else if row.idempotency_key_hash@.len() != 32 {
        Some(not_32_bytes("mfa_recovery_code_deliveries.idempotency_key_hash"@))
    } else if row.finish_request_binding_hash@.len() != 32 {
        Some(not_32_bytes("mfa_recovery_code_deliveries.finish_request_binding_hash"@))
    } else if row.client_ephemeral_public_key@.len() != 32 {
        Some(not_32_bytes("mfa_recovery_code_deliveries.client_ephemeral_public_key"@))
    } else if row.server_ephemeral_public_key@.len() != 32 {
        Some(not_32_bytes("mfa_recovery_code_deliveries.server_ephemeral_public_key"@))
    } else if row.created_at_epoch_millis < 0 || row.expires_at_epoch_millis < 0 || !opt_time_valid(
        row.acknowledged_at_epoch_millis,
    ) {
        Some(negative_time())
    } else {
        None
    }
}

/// Reads the row of a delivery of recovery codes. Whether its key material fits is checked on the
/// delivery that is read, with [`check_recovery_code_delivery`].
pub fn recovery_code_delivery_from_row(row: RecoveryCodeDeliveryRow) -> (result: Result<
    RecoveryCodeDelivery,
    String,
>)
    ensures
        result is Ok <==> delivery_row_problem(row) is None,
        result is Ok ==> result->Ok_0@ == delivery_row_model(row),
        result is Err ==> Some(result->Err_0@) == delivery_row_problem(row),
{
    let nonce = match fixed_12(row.nonce) {
        Some(nonce) => nonce,
        None => {
            return Err("mfa_recovery_code_deliveries.nonce is not 12 bytes".to_owned());
        },
    };
    if row.recovery_code_count < 0 {
        return Err("mfa_recovery_code_deliveries.recovery_code_count is invalid".to_owned());
    }
    Ok(
        RecoveryCodeDelivery {
            delivery_id: row.delivery_id,
            account_id: row.account_id,
            account_session_id: row.account_session_id,
            factor_id: row.factor_id,
            idempotency_key_hash: fixed_32(
                row.idempotency_key_hash,
                "mfa_recovery_code_deliveries.idempotency_key_hash",
            )?,
            finish_request_binding_hash: fixed_32(
                row.finish_request_binding_hash,
                "mfa_recovery_code_deliveries.finish_request_binding_hash",
            )?,
            client_ephemeral_public_key: fixed_32(
                row.client_ephemeral_public_key,
                "mfa_recovery_code_deliveries.client_ephemeral_public_key",
            )?,
            server_ephemeral_public_key: fixed_32(
                row.server_ephemeral_public_key,
                "mfa_recovery_code_deliveries.server_ephemeral_public_key",
            )?,
            nonce,
            ciphertext: row.ciphertext,
            recovery_code_count: row.recovery_code_count as u16,
            created_at_epoch_millis: from_i64(row.created_at_epoch_millis)?,
            expires_at_epoch_millis: from_i64(row.expires_at_epoch_millis)?,
            acknowledged_at_epoch_millis: optional_u64(row.acknowledged_at_epoch_millis)?,
        },
    )
}

/// Refuses a delivery that was read but does not hold what a delivery has to.
pub fn check_recovery_code_delivery(
    delivery: RecoveryCodeDelivery,
    binding_valid: bool,
) -> (result: Result<RecoveryCodeDelivery, String>)
    ensures
        result is Ok <==> delivery_problem(delivery@, binding_valid) is None,
        result is Ok ==> result->Ok_0@ == delivery@,
        result is Err ==> Some(result->Err_0@) == delivery_problem(delivery@, binding_valid),
{
    validate_recovery_code_delivery(&delivery, binding_valid)?;
    Ok(delivery)
}

/// A trusted device as its row holds it.
#[derive(Debug, PartialEq, Eq)]
pub struct TrustedDeviceRow {
    pub trusted_device_id: String,
    pub account_id: String,
    pub controller_device_id: String,
    pub device_fingerprint_hash: Vec<u8>,
    pub trust_level: String,
    pub status: String,
    pub trust_proof_type: String,
    pub created_at_epoch_millis: i64,
    pub last_used_at_epoch_millis: Option<i64>,
    pub expires_at_epoch_millis: i64,
    pub revoked_at_epoch_millis: Option<i64>,
}

/// What is wrong with the row of a trusted device.
pub open spec fn trusted_row_problem(row: TrustedDeviceRow) -> Option<Seq<char>> {
    if !listed(TRUST_LEVELS@, row.trust_level@) {
        Some(unsupported_value("trusted_controller_devices.trust_level"@, row.trust_level@))
    } else if !listed(TRUST_PROOF_TYPES@, row.trust_proof_type@) {
        Some(
            unsupported_value(
                "trusted_controller_devices.trust_proof_type"@,
                row.trust_proof_type@,
            ),
        )
    } else if row.device_fingerprint_hash@.len() != 32 {
        Some(not_32_bytes("trusted_controller_devices.device_fingerprint_hash"@))
    } else if trusted_device_status_of(row.status@) is None {
        Some("trusted_controller_devices.status contains unsupported value "@ + row.status@)
    } else if row.created_at_epoch_millis < 0 || !opt_time_valid(row.last_used_at_epoch_millis)
        || row.expires_at_epoch_millis < 0 || !opt_time_valid(row.revoked_at_epoch_millis) {
        Some(negative_time())
    } else {
        None
    }
}

/// The trusted device that a row stands for.
pub open spec fn trusted_row_model(row: TrustedDeviceRow) -> TrustedControllerDeviceModel {
    TrustedControllerDeviceModel {
        trusted_device_id: row.trusted_device_id@,
        account_id: row.account_id@,
        controller_device_id: row.controller_device_id@,
        device_fingerprint_hash: array_of::<32>(row.device_fingerprint_hash@),
        trust_level: row.trust_level@,
        status: trusted_device_status_of(row.status@)->0,
        trust_proof_type: row.trust_proof_type@,
        created_at_epoch_millis: row.created_at_epoch_millis as u64,
        last_used_at_epoch_millis: opt_time(row.last_used_at_epoch_millis),
        expires_at_epoch_millis: row.expires_at_epoch_millis as u64,
        revoked_at_epoch_millis: opt_time(row.revoked_at_epoch_millis),
    }
}

/// Reads the row of a trusted device.
pub fn trusted_device_from_row(row: TrustedDeviceRow) -> (result: Result<
    TrustedControllerDevice,
    String,
>)
    ensures
        result is Ok <==> trusted_row_problem(row) is None,
        result is Ok ==> result->Ok_0@ == trusted_row_model(row),
        result is Err ==> Some(result->Err_0@) == trusted_row_problem(row),
{
    validate_fixed_enum(
        row.trust_level.as_str(),
        "trusted_controller_devices.trust_level",
        TRUST_LEVELS.as_slice(),
    )?;
    validate_fixed_enum(
        row.trust_proof_type.as_str(),
        "trusted_controller_devices.trust_proof_type",
        TRUST_PROOF_TYPES.as_slice(),
    )?;
    Ok(
        TrustedControllerDevice {
            trusted_device_id: row.trusted_device_id,
            account_id: row.account_id,
            controller_device_id: row.controller_device_id,
            device_fingerprint_hash: fixed_32(
                row.device_fingerprint_hash,
                "trusted_controller_devices.device_fingerprint_hash",
            )?,
            trust_level: row.trust_level,
            status: parse_trusted_device_status(row.status.as_str())?,
            trust_proof_type: row.trust_proof_type,
            created_at_epoch_millis: from_i64(row.created_at_epoch_millis)?,
            last_used_at_epoch_millis: optional_u64(row.last_used_at_epoch_millis)?,
            expires_at_epoch_millis: from_i64(row.expires_at_epoch_millis)?,
            revoked_at_epoch_millis: optional_u64(row.revoked_at_epoch_millis)?,
        },
    )
}

} // verus!
