use crate::account::{AccountSession, AccountSessionModel};
use crate::api::{api_error, refusal, ApiError, ApiErrorModel};
use crate::audit::{AuditEntry, AuditEntryModel};
use crate::auth::{
    account_entry, auth_audit_entry, auth_failure_audit_entry, login_refusal,
    login_verification_error, opt_owned, opt_str, validate_protocol_version, TokenResponse,
};
use crate::bytes::constant_time_sha256_eq;
use crate::challenge::{
    LoginChallengeAuthority, LoginChallengeAuthorityModel, LoginChallengeContextModel,
    LoginDeviceState,
};
use crate::codec::literals;
use crate::database::append_log;
use crate::device::{
    Device, DeviceEnrollmentGrant, DeviceEnrollmentGrantModel, TrustedControllerDevice,
    TrustedControllerDeviceModel, TrustedDeviceStatus,
};
use crate::device_authority::{authorizable, is_authorizable};
use crate::hash::{sha256, sha256_digest};
use crate::login::challenge_device;
use crate::login_finish::{
    first_of_action, login_records_fit, LoginFinishCommand, LoginFinishOutcome,
};
use crate::registration::{later, or_empty};
use crate::rules::{
    trust_earned, MAX_CHALLENGE_TTL_MILLIS,
    RECOVERY_TRUST_TTL_MILLIS, TOTP_TRUST_TTL_MILLIS, TRUST_LEVELS, TRUST_PROOF_TYPES,
};
use crate::table::{models, opt_model};
use crate::text::{
    blank, joined, opt_text, opt_text_copy, opt_text_eq, opt_text_is, text_eq, texts, texts_contain,
    texts_copy,
};
use vstd::prelude::*;
use vstd::utf8::encode_utf8;

verus! {

/// A request to finish a login: the second half, which answers the challenge.
#[derive(Debug, PartialEq, Eq)]
pub struct LoginFinishRequest {
    pub login_challenge_id: String,
    pub login_request_binding_hash: String,
    pub login_challenge_binding_hash: String,
    pub client_nonce: String,
    pub server_nonce: String,
    pub factor: Option<String>,
    pub code: Option<String>,
    pub protocol_version: u16,
}

/// What the digests and nonces of a request to finish a login decode to.
#[derive(Debug, PartialEq, Eq)]
pub struct DecodedFinish {
    pub request_binding_hash: Option<[u8; 32]>,
    pub challenge_binding_hash: Option<[u8; 32]>,
    pub client_nonce: Option<[u8; 32]>,
    pub server_nonce: Option<[u8; 32]>,
}

/// The digests and nonces of a request to finish a login.
#[derive(Debug, Clone, Copy, PartialEq, Eq)]
pub struct FinishBindings {
    pub request_binding_hash: [u8; 32],
    pub challenge_binding_hash: [u8; 32],
    pub client_nonce: [u8; 32],
    pub server_nonce: [u8; 32],
}

/// Why a request to finish a login is refused before anything is looked up.
pub open spec fn finish_request_refusal(
    request: LoginFinishRequest,
    decoded: DecodedFinish,
    supported: u16,
    request_id: Seq<char>,
) -> Option<ApiErrorModel> {
    if request.protocol_version != supported {
        Some(
            api_error(
                426,
                "unsupported_version"@,
                "protocol_version is unsupported"@,
                request_id,
            ),
        )
    } else if decoded.request_binding_hash is None {
        Some(
            api_error(
                400,
                "invalid_login_binding"@,
                "login_request_binding_hash must be a hexadecimal SHA-256 digest"@,
                request_id,
            ),
        )
    } else if decoded.challenge_binding_hash is None {
        Some(
            api_error(
                400,
                "invalid_login_binding"@,
                "login_challenge_binding_hash must be a hexadecimal SHA-256 digest"@,
                request_id,
            ),
        )
    } else if decoded.client_nonce is None {
        Some(
            api_error(
                400,
                "invalid_client_nonce"@,
                "client_nonce must be 32 base64url bytes without padding"@,
                request_id,
            ),
        )
    } else if decoded.server_nonce is None {
        Some(
            api_error(
                400,
                "invalid_server_nonce"@,
                "server_nonce must be 32 base64url bytes without padding"@,
                request_id,
            ),
        )
    } else {
        None
    }
}

/// Checks a request to finish a login.
pub fn check_finish_request(
    request: &LoginFinishRequest,
    decoded: &DecodedFinish,
    supported: u16,
    request_id: &str,
) -> (result: Result<FinishBindings, ApiError>)
    ensures
        refusal(result) == finish_request_refusal(*request, *decoded, supported, request_id@),
        result is Ok ==> result->Ok_0.request_binding_hash == decoded.request_binding_hash->0,
        result is Ok ==> result->Ok_0.challenge_binding_hash == decoded.challenge_binding_hash->0,
        result is Ok ==> result->Ok_0.client_nonce == decoded.client_nonce->0,
        result is Ok ==> result->Ok_0.server_nonce == decoded.server_nonce->0,
{
    validate_protocol_version(request.protocol_version, supported, request_id)?;
    let request_binding_hash = match decoded.request_binding_hash {
        Some(hash) => hash,
        None => {
            return Err(
                ApiError::bad_request(
                    "invalid_login_binding",
                    "login_request_binding_hash must be a hexadecimal SHA-256 digest",
                    request_id,
                ),
            );
        },
    };
    let challenge_binding_hash = match decoded.challenge_binding_hash {
        Some(hash) => hash,
        None => {
            return Err(
                ApiError::bad_request(
                    "invalid_login_binding",
                    "login_challenge_binding_hash must be a hexadecimal SHA-256 digest",
                    request_id,
                ),
            );
        },
    };
    let client_nonce = match decoded.client_nonce {
        Some(nonce) => nonce,
        None => {
            return Err(
                ApiError::bad_request(
                    "invalid_client_nonce",
                    "client_nonce must be 32 base64url bytes without padding",
                    request_id,
                ),
            );
        },
    };
    let server_nonce = match decoded.server_nonce {
        Some(nonce) => nonce,
        None => {
            return Err(
                ApiError::bad_request(
                    "invalid_server_nonce",
                    "server_nonce must be 32 base64url bytes without padding",
                    request_id,
                ),
            );
        },
    };
    Ok(FinishBindings { request_binding_hash, challenge_binding_hash, client_nonce, server_nonce })
}

/// Checks that the challenge that a request names is the login challenge that it answers.
pub fn check_finish_authority(
    authority: Option<&LoginChallengeAuthority>,
    challenge_binding_hash: &[u8; 32],
    request_id: &str,
) -> (result: Result<(), ApiError>)
    ensures
        refusal(result) == if authority is Some && authority->0@.challenge.purpose == "login_mfa"@
            && authority->0@.challenge.operation_binding_hash == *challenge_binding_hash {
            None
        } else {
            Some(login_refusal(request_id@))
        },
{
    match authority {
        Some(authority) => if text_eq(authority.challenge.purpose.as_str(), "login_mfa")
            && constant_time_sha256_eq(
            &authority.challenge.operation_binding_hash,
            challenge_binding_hash,
        ) {
            Ok(())
        } else {
            Err(login_verification_error(request_id))
        },
        None => Err(login_verification_error(request_id)),
    }
}

/// Whether the device of a login is still as it was when the challenge was issued.
pub open spec fn device_unchanged(
    context: LoginChallengeContextModel,
    account_id: Seq<char>,
    device: Option<&Device>,
) -> bool {
    match (context.device_state, device) {
        (LoginDeviceState::PendingEnrollment, None) => true,
        (LoginDeviceState::Registered, Some(device)) => {
            &&& device@.account_id == account_id
            &&& authorizable(device@.status)
            &&& device@.public_key_id == or_empty(context.public_key_id)
            &&& device@.public_key_version == context.public_key_version
            &&& device@.public_key_revoked_at_epoch_millis is None
            &&& device@.public_key == context.device_public_key
        },
        _ => false,
    }
}

/// Whether a request offers what its challenge requires: nothing where nothing is, else a code of
/// one of the listed factors.
pub open spec fn factor_shape_fits(
    request: LoginFinishRequest,
    required_factors: Seq<Seq<char>>,
) -> bool {
    if required_factors.len() == 0 {
        request.factor is None && request.code is None
    } else {
        &&& request.factor is Some
        &&& required_factors.contains(request.factor->0@)
        &&& request.code is Some
        &&& request.code->0@.len() > 0
    }
}

/// What the server observes of a request to finish a login, and the binding of the challenge as it
/// is computed again.
#[derive(Debug, PartialEq, Eq)]
pub struct FinishObservations {
    pub recomputed_challenge_binding_hash: [u8; 32],
    pub ip_address_hash: [u8; 32],
    pub user_agent_hash: [u8; 32],
}

/// Whether a request to finish a login comes in the same context as the one that began it.
pub open spec fn finish_context_fits(
    request: LoginFinishRequest,
    bindings: FinishBindings,
    authority: LoginChallengeAuthorityModel,
    device: Option<&Device>,
    observed: FinishObservations,
) -> bool {
    let challenge = authority.challenge;
    let context = authority.context;
    &&& challenge.risk_challenge_id == request.login_challenge_id@
    &&& device_unchanged(context, challenge.account_id, device)
    &&& challenge.device_id == challenge_device(context.device_state, context.device_id)
    &&& sha256_digest(context.device_public_key@) == context.device_public_key_fingerprint@
    &&& context.login_request_binding_hash == bindings.request_binding_hash
    &&& context.login_challenge_binding_hash == bindings.challenge_binding_hash
    &&& observed.recomputed_challenge_binding_hash == bindings.challenge_binding_hash
    &&& context.client_nonce == bindings.client_nonce
    &&& context.server_nonce == bindings.server_nonce
    &&& context.ip_address_hash == observed.ip_address_hash
    &&& context.user_agent_hash == observed.user_agent_hash
    &&& context.protocol_version == request.protocol_version
    &&& factor_shape_fits(request, context.required_factors)
}

fn device_is_unchanged(authority: &LoginChallengeAuthority, device: Option<&Device>) -> (unchanged:
    bool)
    ensures
        unchanged == device_unchanged(authority@.context, authority@.challenge.account_id, device),
{
    let context = &authority.context;
    match (context.device_state, device) {
        (LoginDeviceState::PendingEnrollment, None) => true,
        (LoginDeviceState::Registered, Some(device)) => {
            let same_key_id = match &context.public_key_id {
                Some(id) => text_eq(device.public_key_id.as_str(), id.as_str()),
                None => device.public_key_id.as_str().is_empty(),
            };
            assert(context.public_key_id is None && device@.public_key_id.len() == 0
                ==> device@.public_key_id =~= or_empty(context@.public_key_id));
            text_eq(device.account_id.as_str(), authority.challenge.account_id.as_str())
                && is_authorizable(device.status) && same_key_id && device.public_key_version
                == context.public_key_version && device.public_key_revoked_at_epoch_millis.is_none()
                && constant_time_sha256_eq(&device.public_key, &context.device_public_key)
        },
        _ => false,
    }
}

fn factor_shape_is_valid(request: &LoginFinishRequest, required_factors: &Vec<String>) -> (valid:
    bool)
    ensures
        valid == factor_shape_fits(*request, texts(required_factors@)),
{
    if required_factors.is_empty() {
        request.factor.is_none() && request.code.is_none()
    } else {
        match (&request.factor, &request.code) {
            (Some(factor), Some(code)) => texts_contain(required_factors, factor.as_str())
                && !code.as_str().is_empty(),
            _ => false,
        }
    }
}

/// Whether a request to finish a login comes in the same context as the one that began it.
pub fn finish_context_is_valid(
    request: &LoginFinishRequest,
    bindings: &FinishBindings,
    authority: &LoginChallengeAuthority,
    device: Option<&Device>,
    observed: &FinishObservations,
) -> (valid: bool)
    ensures
        valid == finish_context_fits(*request, *bindings, authority@, device, *observed),
{
    let challenge = &authority.challenge;
    let context = &authority.context;
    let expected_device: Option<String> = if context.device_state == LoginDeviceState::Registered {
        Some(context.device_id.clone())
    } else {
        None
    };
    let fingerprint = sha256(context.device_public_key.as_slice());
    let key_fits = constant_time_sha256_eq(&fingerprint, &context.device_public_key_fingerprint);
    assert(key_fits == (fingerprint@ == context.device_public_key_fingerprint@)) by {
        assert(fingerprint@ == context.device_public_key_fingerprint@ ==> fingerprint
            =~= context.device_public_key_fingerprint);
    }
    text_eq(challenge.risk_challenge_id.as_str(), request.login_challenge_id.as_str())
        && device_is_unchanged(authority, device) && opt_text_eq(
        &challenge.device_id,
        &expected_device,
    ) && key_fits && constant_time_sha256_eq(
        &context.login_request_binding_hash,
        &bindings.request_binding_hash,
    ) && constant_time_sha256_eq(
        &context.login_challenge_binding_hash,
        &bindings.challenge_binding_hash,
    ) && constant_time_sha256_eq(
        &observed.recomputed_challenge_binding_hash,
        &bindings.challenge_binding_hash,
    ) && constant_time_sha256_eq(&context.client_nonce, &bindings.client_nonce)
        && constant_time_sha256_eq(&context.server_nonce, &bindings.server_nonce)
        && constant_time_sha256_eq(&context.ip_address_hash, &observed.ip_address_hash)
        && constant_time_sha256_eq(&context.user_agent_hash, &observed.user_agent_hash)
        && context.protocol_version == request.protocol_version && factor_shape_is_valid(
        request,
        &context.required_factors,
    )
}

/// The proof and the level of trust that a login with a second factor earns.
pub fn trust_decision(factor: Option<&str>) -> (decision: (
    Option<&'static str>,
    Option<&'static str>,
))
    ensures
        match trust_earned(opt_str(factor)) {
            Some((proof_type, level)) => decision.0 is Some && decision.0->0@ == proof_type
                && decision.1 is Some && decision.1->0@ == level,
            None => decision.0 is None && decision.1 is None,
        },
{
    match factor {
        Some(kind) => if text_eq(kind, "totp") {
            (Some("device_signature_and_mfa"), Some("standard"))
        } else if text_eq(kind, "recovery_code") {
            (Some("device_signature_and_recovery_code"), Some("high_risk_step_up_required"))
        } else {
            (None, None)
        },
        None => (None, None),
    }
}

/// The names and secrets that were drawn for the records of a login.
#[derive(Debug, PartialEq, Eq)]
pub struct LoginDraws {
    pub grant_id: String,
    pub grant_secret: String,
    pub trusted_device_id: String,
    pub challenge_audit_id: String,
    pub login_audit_id: String,
    pub trust_audit_id: String,
    pub recovery_audit_id: String,
    pub failure_audit_id: String,
}

/// How long a device stays trusted after a login with a factor.
pub open spec fn factor_trust_ttl(factor: Seq<char>) -> u64 {
    if factor == "recovery_code"@ {
        RECOVERY_TRUST_TTL_MILLIS
    } else {
        TOTP_TRUST_TTL_MILLIS
    }
}

/// The enrollment grant that a login from a device that is not registered yet leads to.
pub open spec fn issued_grant(
    request: LoginFinishRequest,
    authority: LoginChallengeAuthorityModel,
    account_session_id: Seq<char>,
    device_id: Seq<char>,
    draws: LoginDraws,
    now: u64,
    grant: DeviceEnrollmentGrantModel,
) -> bool {
    let earned = trust_earned(opt_text(request.factor));
    grant == (DeviceEnrollmentGrantModel {
        grant_id: draws.grant_id@,
        grant_secret_hash: grant.grant_secret_hash,
        account_id: authority.challenge.account_id,
        device_id,
        device_public_key_fingerprint: authority.context.device_public_key_fingerprint,
        login_challenge_id: request.login_challenge_id@,
        login_challenge_binding_hash: authority.context.login_challenge_binding_hash,
        trust_proof_type: match earned {
            Some((proof_type, level)) => Some(proof_type),
            None => None,
        },
        trust_level: match earned {
            Some((proof_type, level)) => Some(level),
            None => None,
        },
        establish_trust: request.factor is Some,
        protocol_version: request.protocol_version,
        issued_account_session_id: account_session_id,
        issued_at_epoch_millis: now,
        expires_at_epoch_millis: authority.challenge.expires_at_epoch_millis,
        consumed_at_epoch_millis: None,
        registration_request_binding_hash: None,
        registered_public_key_id: None,
        registered_trusted_device_id: None,
    }) && grant.grant_secret_hash@ == sha256_digest(encode_utf8(draws.grant_secret@))
}

/// The trusted device that a login from a registered device with a second factor leads to.
pub open spec fn earned_trust(
    factor: Seq<char>,
    authority: LoginChallengeAuthorityModel,
    device_id: Seq<char>,
    draws: LoginDraws,
    now: u64,
) -> TrustedControllerDeviceModel {
    let earned = trust_earned(Some(factor))->0;
    TrustedControllerDeviceModel {
        trusted_device_id: draws.trusted_device_id@,
        account_id: authority.challenge.account_id,
        controller_device_id: device_id,
        device_fingerprint_hash: authority.context.device_public_key_fingerprint,
        trust_level: earned.1,
        status: TrustedDeviceStatus::Active,
        trust_proof_type: earned.0,
        created_at_epoch_millis: now,
        last_used_at_epoch_millis: None,
        expires_at_epoch_millis: later(now, factor_trust_ttl(factor)),
        revoked_at_epoch_millis: None,
    }
}

/// Whether a request can be answered with the trust that its factor earns: from a registered
/// device only factors that earn one are offered.
pub open spec fn trust_can_be_earned(
    request: LoginFinishRequest,
    authority: LoginChallengeAuthorityModel,
) -> bool {
    authority.context.device_state == LoginDeviceState::Registered && request.factor is Some
        ==> trust_earned(opt_text(request.factor)) is Some
}

/// The audit entries of a login: the answered challenge, the login, and where they apply the new
/// trusted device and the used recovery code.
pub open spec fn login_entries(
    request: LoginFinishRequest,
    authority: LoginChallengeAuthorityModel,
    device_id: Seq<char>,
    draws: LoginDraws,
    request_id: Seq<char>,
    now: u64,
) -> Seq<AuditEntryModel> {
    let account = authority.challenge.account_id;
    let registered = authority.context.device_state == LoginDeviceState::Registered;
    let named = challenge_device(authority.context.device_state, device_id);
    let always = seq![
        account_entry(
            draws.challenge_audit_id@,
            request_id,
            account,
            named,
            "mfa_challenge_succeeded"@,
            "success"@,
            None,
            now,
        ),
        account_entry(
            draws.login_audit_id@,
            request_id,
            account,
            named,
            "login_succeeded"@,
            "success"@,
            None,
            now,
        ),
    ];
    let trusted = if registered && request.factor is Some {
        always.push(
            account_entry(
                draws.trust_audit_id@,
                request_id,
                account,
                Some(device_id),
                "trusted_device_added"@,
                "success"@,
                None,
                now,
            ),
        )
    } else {
        always
    };
    if opt_text(request.factor) == Some("recovery_code"@) {
        trusted.push(
            account_entry(
                draws.recovery_audit_id@,
                request_id,
                account,
                named,
                "mfa_recovery_code_used"@,
                "success"@,
                None,
                now,
            ),
        )
    } else {
        trusted
    }
}

fn as_str_opt<'a>(value: &'a Option<String>) -> (text: Option<&'a str>)
    ensures
        opt_str(text) == opt_text(*value),
{
    match value {
        Some(text) => Some(text.as_str()),
        None => None,
    }
}

fn issue_grant(
    request: &LoginFinishRequest,
    authority: &LoginChallengeAuthority,
    account_session_id: &str,
    device_id: &str,
    draws: &LoginDraws,
    now: u64,
) -> (grant: DeviceEnrollmentGrant)
    ensures
        issued_grant(*request, authority@, account_session_id@, device_id@, *draws, now, grant@),
{
    let (proof_type, level) = trust_decision(as_str_opt(&request.factor));
    DeviceEnrollmentGrant {
        grant_id: draws.grant_id.clone(),
        grant_secret_hash: sha256(draws.grant_secret.as_str().as_bytes()),
        account_id: authority.challenge.account_id.clone(),
        device_id: device_id.to_owned(),
        device_public_key_fingerprint: authority.context.device_public_key_fingerprint,
        login_challenge_id: request.login_challenge_id.clone(),
        login_challenge_binding_hash: authority.context.login_challenge_binding_hash,
        trust_proof_type: opt_owned(proof_type),
        trust_level: opt_owned(level),
        establish_trust: request.factor.is_some(),
        protocol_version: request.protocol_version,
        issued_account_session_id: account_session_id.to_owned(),
        issued_at_epoch_millis: now,
        expires_at_epoch_millis: authority.challenge.expires_at_epoch_millis,
        consumed_at_epoch_millis: None,
        registration_request_binding_hash: None,
        registered_public_key_id: None,
        registered_trusted_device_id: None,
    }
}

fn earn_trust(
    factor: &str,
    authority: &LoginChallengeAuthority,
    device_id: &str,
    draws: &LoginDraws,
    now: u64,
) -> (trusted: TrustedControllerDevice)
    requires
        trust_earned(Some(factor@)) is Some,
    ensures
        trusted@ == earned_trust(factor@, authority@, device_id@, *draws, now),
{
    let (proof_type, level) = trust_decision(Some(factor));
    let ttl: u64 = if text_eq(factor, "recovery_code") {
        RECOVERY_TRUST_TTL_MILLIS
    } else {
        TOTP_TRUST_TTL_MILLIS
    };
    TrustedControllerDevice {
        trusted_device_id: draws.trusted_device_id.clone(),
        account_id: authority.challenge.account_id.clone(),
        controller_device_id: device_id.to_owned(),
        device_fingerprint_hash: authority.context.device_public_key_fingerprint,
        trust_level: level.unwrap().to_owned(),
        status: TrustedDeviceStatus::Active,
        trust_proof_type: proof_type.unwrap().to_owned(),
        created_at_epoch_millis: now,
        last_used_at_epoch_millis: None,
        expires_at_epoch_millis: now.saturating_add(ttl),
        revoked_at_epoch_millis: None,
    }
}

fn login_audit_entries(
    request: &LoginFinishRequest,
    authority: &LoginChallengeAuthority,
    device_id: &str,
    draws: &LoginDraws,
    request_id: &str,
    now: u64,
) -> (entries: Vec<AuditEntry>)
    ensures
        models(entries@) == login_entries(
            *request,
            authority@,
            device_id@,
            *draws,
            request_id@,
            now,
        ),
{
    let account = authority.challenge.account_id.as_str();
    let registered = authority.context.device_state == LoginDeviceState::Registered;
    let named: Option<&str> = if registered {
        Some(device_id)
    } else {
        None
    };
    let mut entries: Vec<AuditEntry> = Vec::new();
    entries.push(
        auth_audit_entry(
            draws.challenge_audit_id.clone(),
            request_id,
            account,
            named,
            "mfa_challenge_succeeded",
            None,
            now,
        ),
    );
    entries.push(
        auth_audit_entry(
            draws.login_audit_id.clone(),
            request_id,
            account,
            named,
            "login_succeeded",
            None,
            now,
        ),
    );
    let ghost always = models(entries@);
    assert(always =~= seq![entries@[0]@, entries@[1]@]);
    if registered && request.factor.is_some() {
        append_log(
            &mut entries,
            auth_audit_entry(
                draws.trust_audit_id.clone(),
                request_id,
                account,
                Some(device_id),
                "trusted_device_added",
                None,
                now,
            ),
        );
    }
    if opt_text_is(&request.factor, "recovery_code") {
        append_log(
            &mut entries,
            auth_audit_entry(
                draws.recovery_audit_id.clone(),
                request_id,
                account,
                named,
                "mfa_recovery_code_used",
                None,
                now,
            ),
        );
    }
    entries
}

/// The token of an enrollment grant: its name and its secret.
pub fn grant_token(grant_id: &str, grant_secret: &str) -> (token: String)
    ensures
        token@ == grant_id@ + "."@ + grant_secret@,
{
    joined(joined(grant_id, ".").as_str(), grant_secret)
}

/// Whether a command is the one that the answer to a login challenge makes.
pub open spec fn finish_command_fits(
    request: LoginFinishRequest,
    bindings: FinishBindings,
    authority: LoginChallengeAuthorityModel,
    account_session: AccountSessionModel,
    device_id: Seq<char>,
    draws: LoginDraws,
    request_id: Seq<char>,
    now: u64,
    command: LoginFinishCommand,
) -> bool {
    &&& command.challenge_id@ == request.login_challenge_id@
    &&& command.account_id@ == authority.challenge.account_id
    &&& command.account_updated_at_epoch_millis
        == authority.context.account_updated_at_epoch_millis
    &&& opt_text(command.persistent_device_id) == authority.challenge.device_id
    &&& command.device_id@ == device_id
    &&& opt_text(command.public_key_id) == authority.context.public_key_id
    &&& command.public_key_version == authority.context.public_key_version
    &&& command.device_public_key_fingerprint
        == authority.context.device_public_key_fingerprint
    &&& command.challenge_binding_hash == bindings.challenge_binding_hash
    &&& texts(command.required_factors@) == authority.context.required_factors
    &&& opt_text(command.factor_kind) == opt_text(request.factor)
    &&& opt_text(command.factor_code) == opt_text(request.code)
    &&& opt_text(command.trusted_device_id_to_use) == authority.context.trusted_device_id
    &&& command.account_session@ == account_session
    &&& command.enrollment_grant is Some <==> authority.context.device_state
        == LoginDeviceState::PendingEnrollment
    &&& command.enrollment_grant is Some ==> issued_grant(
        request,
        authority,
        account_session.account_session_id,
        device_id,
        draws,
        now,
        command.enrollment_grant->0@,
    )
    &&& opt_model(command.trusted_device_to_create) == if authority.context.device_state
        == LoginDeviceState::Registered && request.factor is Some {
        Some(earned_trust(request.factor->0@, authority, device_id, draws, now))
    } else {
        None
    }
    &&& models(command.audit_entries@) == login_entries(
        request,
        authority,
        device_id,
        draws,
        request_id,
        now,
    )
    &&& command.failure_audit_entry@ == account_entry(
        draws.failure_audit_id@,
        request_id,
        authority.challenge.account_id,
        challenge_device(authority.context.device_state, authority.context.device_id),
        "mfa_challenge_failed"@,
        "failure"@,
        Some("verification_failed"@),
        now,
    )
    &&& command.now_epoch_millis == now
}

/// Builds the command that finishes a login, once its context and its signature stand. `device_id`
/// is the device that signed the request.
pub fn build_login_finish(
    request: &LoginFinishRequest,
    bindings: &FinishBindings,
    authority: &LoginChallengeAuthority,
    account_session: AccountSession,
    device_id: &str,
    draws: &LoginDraws,
    request_id: &str,
    now: u64,
) -> (command: LoginFinishCommand)
    requires
        trust_can_be_earned(*request, authority@),
    ensures
        finish_command_fits(
            *request,
            *bindings,
            authority@,
            account_session@,
            device_id@,
            *draws,
            request_id@,
            now,
            command,
        ),
{
    let context = &authority.context;
    let registered = context.device_state == LoginDeviceState::Registered;
    let enrollment_grant: Option<DeviceEnrollmentGrant> = if registered {
        None
    } else {
        Some(
            issue_grant(
                request,
                authority,
                account_session.account_session_id.as_str(),
                device_id,
                draws,
                now,
            ),
        )
    };
    let trusted_device_to_create: Option<TrustedControllerDevice> = match &request.factor {
        Some(factor) => if registered {
            Some(earn_trust(factor.as_str(), authority, device_id, draws, now))
        } else {
            None
        },
        None => None,
    };
    let audit_entries = login_audit_entries(
        request,
        authority,
        device_id,
        draws,
        request_id,
        now,
    );
    let failure_device: Option<&str> = if registered {
        Some(context.device_id.as_str())
    } else {
        None
    };
    let failure_audit_entry = auth_failure_audit_entry(
        draws.failure_audit_id.clone(),
        request_id,
        authority.challenge.account_id.as_str(),
        failure_device,
        "mfa_challenge_failed",
        Some("verification_failed"),
        now,
    );
    LoginFinishCommand {
        challenge_id: request.login_challenge_id.clone(),
        account_id: authority.challenge.account_id.clone(),
        account_updated_at_epoch_millis: context.account_updated_at_epoch_millis,
        persistent_device_id: opt_text_copy(&authority.challenge.device_id),
        device_id: device_id.to_owned(),
        public_key_id: opt_text_copy(&context.public_key_id),
        public_key_version: context.public_key_version,
        device_public_key_fingerprint: context.device_public_key_fingerprint,
        challenge_binding_hash: bindings.challenge_binding_hash,
        required_factors: texts_copy(&context.required_factors),
        factor_kind: opt_text_copy(&request.factor),
        factor_code: opt_text_copy(&request.code),
        trusted_device_id_to_use: opt_text_copy(&context.trusted_device_id),
        account_session,
        enrollment_grant,
        trusted_device_to_create,
        audit_entries,
        failure_audit_entry,
        now_epoch_millis: now,
    }
}

/// Whether the session of a login counts as made with a second factor: with one, or from a device
/// that was trusted for one.
pub fn login_mfa_verified(
    request: &LoginFinishRequest,
    authority: &LoginChallengeAuthority,
) -> (verified: bool)
    ensures
        verified == (request.factor is Some || authority@.context.trusted_device_id is Some),
{
    request.factor.is_some() || authority.context.trusted_device_id.is_some()
}

/// The audit entry of a refused attempt to finish a login.
pub fn refused_attempt_entry(
    authority: &LoginChallengeAuthority,
    audit_id: String,
    request_id: &str,
    now: u64,
) -> (entry: AuditEntry)
    ensures
        entry@ == account_entry(
            audit_id@,
            request_id@,
            authority@.challenge.account_id,
            authority@.challenge.device_id,
            "mfa_challenge_failed"@,
            "failure"@,
            Some("verification_failed"@),
            now,
        ),
{
    auth_failure_audit_entry(
        audit_id,
        request_id,
        authority.challenge.account_id.as_str(),
        as_str_opt(&authority.challenge.device_id),
        "mfa_challenge_failed",
        Some("verification_failed"),
        now,
    )
}

/// What is left to do when the store has answered a request to finish a login.
#[derive(Debug, Clone, Copy, PartialEq, Eq, Structural)]
pub enum AfterFinish {
    /// Give the client its tokens.
    Respond,
    /// Refuse the login; the attempt was counted.
    Refuse,
    /// Count the attempt, then refuse the login.
    CountAndRefuse,
}

/// What is left to do when the store has answered a request to finish a login.
pub fn after_finish(outcome: LoginFinishOutcome) -> (next: AfterFinish)
    ensures
        next == match outcome {
            LoginFinishOutcome::Completed => AfterFinish::Respond,
            LoginFinishOutcome::InvalidFactor => AfterFinish::Refuse,
            LoginFinishOutcome::Rejected => AfterFinish::Refuse,
            _ => AfterFinish::CountAndRefuse,
        },
{
    match outcome {
        LoginFinishOutcome::Completed => AfterFinish::Respond,
        LoginFinishOutcome::InvalidFactor | LoginFinishOutcome::Rejected => AfterFinish::Refuse,
        _ => AfterFinish::CountAndRefuse,
    }
}

/// What the client of a complete login gets: its tokens and, where its device is not registered
/// yet, the grant to register it.
#[derive(Debug, PartialEq, Eq)]
pub struct LoginFinishResponse {
    pub tokens: TokenResponse,
    pub device_enrollment_grant: Option<String>,
    pub device_enrollment_grant_expires_at_epoch_millis: Option<u64>,
}

/// Answers a complete login.
pub fn login_finish_response(
    tokens: TokenResponse,
    grant: &Option<DeviceEnrollmentGrant>,
    draws: &LoginDraws,
) -> (response: LoginFinishResponse)
    ensures
        response.tokens == tokens,
        opt_text(response.device_enrollment_grant) == match *grant {
            Some(issued) => Some(draws.grant_id@ + "."@ + draws.grant_secret@),
            None => None,
        },
        response.device_enrollment_grant_expires_at_epoch_millis == match *grant {
            Some(issued) => Some(issued@.expires_at_epoch_millis),
            None => None,
        },
{
    match grant {
        Some(issued) => LoginFinishResponse {
            tokens,
            device_enrollment_grant: Some(
                grant_token(draws.grant_id.as_str(), draws.grant_secret.as_str()),
            ),
            device_enrollment_grant_expires_at_epoch_millis: Some(issued.expires_at_epoch_millis),
        },
        None => LoginFinishResponse {
            tokens,
            device_enrollment_grant: None,
            device_enrollment_grant_expires_at_epoch_millis: None,
        },
    }
}

/// What an answer that fits its challenge brings with it can be stored: the session of the grant is
/// the one that the login opens, the grant carries exactly the trust that its factor earns and
/// lives no longer than the challenge, and the trusted device is in its terms and is logged.
pub proof fn a_login_brings_records_that_fit(
    request: LoginFinishRequest,
    bindings: FinishBindings,
    authority: LoginChallengeAuthorityModel,
    device: Option<&Device>,
    observed: FinishObservations,
    account_session: AccountSessionModel,
    draws: LoginDraws,
    request_id: Seq<char>,
    now: u64,
    command: LoginFinishCommand,
)
    requires
        finish_context_fits(request, bindings, authority, device, observed),
        finish_command_fits(
            request,
            bindings,
            authority,
            account_session,
            authority.context.device_id,
            draws,
            request_id,
            now,
            command,
        ),
        request.factor is None || trust_earned(opt_text(request.factor)) is Some,
        request.protocol_version != 0,
        !blank(request.login_challenge_id@),
        !blank(authority.challenge.account_id),
        !blank(authority.context.device_id),
        !blank(account_session.account_session_id),
        !blank(draws.grant_id@),
        now < authority.challenge.expires_at_epoch_millis <= now + MAX_CHALLENGE_TTL_MILLIS,
        now + TOTP_TRUST_TTL_MILLIS <= u64::MAX,
    ensures
        login_records_fit(command, authority.challenge),
{
    reveal_strlit("totp");
    reveal_strlit("recovery_code");
    assert("totp"@.len() != "recovery_code"@.len());
    let levels = literals(TRUST_LEVELS@);
    assert(levels[0] == "standard"@);
    assert(levels[1] == "high_risk_step_up_required"@);
    let proofs = literals(TRUST_PROOF_TYPES@);
    assert(proofs[0] == "device_signature_and_mfa"@);
    assert(proofs[1] == "device_signature_and_recovery_code"@);
    if command.trusted_device_to_create is Some {
        let entries = models(command.audit_entries@);
        assert(entries[2].action == "trusted_device_added"@);
        lemma_action_is_found(entries, "trusted_device_added"@, 0, 2);
    }
}

proof fn lemma_action_is_found(
    entries: Seq<AuditEntryModel>,
    action: Seq<char>,
    from: int,
    at: int,
)
    requires
        0 <= from <= at < entries.len(),
        entries[at].action == action,
    ensures
        first_of_action(entries, action, from) is Some,
    decreases at - from,
{
    if entries[from].action != action {
        lemma_action_is_found(entries, action, from + 1, at);
    }
}

} // verus!
