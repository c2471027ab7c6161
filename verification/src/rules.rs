use crate::account::{RecoveryCodeDelivery, RecoveryCodeDeliveryModel};
use crate::audit::{AuditEntry, AuditEntryModel};
use crate::challenge::{RiskChallenge, RiskChallengeModel, RiskChallengeStatus};
use crate::codec::{literals, unsupported_value, validate_fixed_enum};
use crate::device::{
    DeviceEnrollmentGrant, DeviceEnrollmentGrantModel, TrustedControllerDevice,
    TrustedControllerDeviceModel, TrustedDeviceStatus,
};
use crate::text::{blank, is_blank, opt_text, opt_text_is, text_eq, texts};
use vstd::prelude::*;

verus! {

pub const RISK_CHALLENGE_PURPOSES: [&'static str; 16] = [
    "login_mfa",
    "new_controller_device",
    "trusted_device_change",
    "password_change",
    "mfa_factor_change",
    "recovery_code_rotate",
    "device_key_rotation",
    "unattended_secret_change",
    "require_prompt_relax",
    "allow_privacy_screen",
    "allow_block_local_input",
    "allow_remote_reboot",
    "remote_reboot",
    "access_policy_change",
    "client_release_change",
    "region_policy_change",
];

pub const RISK_LEVELS: [&'static str; 3] = ["low", "medium", "high"];

pub const TRUST_LEVELS: [&'static str; 2] = ["standard", "high_risk_step_up_required"];

pub const TRUST_PROOF_TYPES: [&'static str; 2] = [
    "device_signature_and_mfa",
    "device_signature_and_recovery_code",
];

pub const ACCOUNT_SESSION_REVOKED_REASONS: [&'static str; 7] = [
    "logout",
    "password_changed",
    "mfa_enabled",
    "mfa_disabled",
    "account_locked",
    "device_unbound",
    "refresh_replay",
];

/// The longest life of a challenge or an enrollment grant: five minutes.
pub const MAX_CHALLENGE_TTL_MILLIS: u64 = 300_000;

/// The most attempts that a challenge allows.
pub const MAX_CHALLENGE_ATTEMPTS: u8 = 5;

/// How long a device stays trusted after a TOTP login: 30 days.
pub const TOTP_TRUST_TTL_MILLIS: u64 = 30 * 24 * 60 * 60 * 1_000;

/// How long a device stays trusted after a login with a recovery code: one day.
pub const RECOVERY_TRUST_TTL_MILLIS: u64 = 24 * 60 * 60 * 1_000;

/// How long a delivery of recovery codes can be fetched: one day.
pub const MAX_DELIVERY_TTL_MILLIS: u64 = 24 * 60 * 60 * 1_000;

/// Whether a text is one of a closed list.
pub open spec fn listed(allowed: Seq<&str>, value: Seq<char>) -> bool {
    literals(allowed).contains(value)
}

/// The two second factors, in the order in which challenges list them.
pub open spec fn second_factors() -> Seq<Seq<char>> {
    seq!["totp"@, "recovery_code"@]
}

/// Which methods a challenge of a purpose may require: the two second factors for any purpose,
/// nothing for a login from a trusted device, and the password for a change of the password.
pub open spec fn methods_fit_purpose(purpose: Seq<char>, methods: Seq<Seq<char>>) -> bool {
    ||| methods == second_factors()
    ||| purpose == "login_mfa"@ && methods == Seq::<Seq<char>>::empty()
    ||| purpose == "password_change"@ && methods == seq!["password"@]
}

/// Whether a challenge of a purpose may require the given methods.
pub fn risk_challenge_required_methods_are_valid(purpose: &str, methods: &Vec<String>) -> (valid:
    bool)
    ensures
        valid == methods_fit_purpose(purpose@, texts(methods@)),
{
    let ghost all = texts(methods@);
    let len: usize = methods.len();
    if len == 2 {
        let valid = text_eq(methods[0].as_str(), "totp") && text_eq(
            methods[1].as_str(),
            "recovery_code",
        );
        assert(all[0] == methods@[0]@ && all[1] == methods@[1]@);
        assert(valid ==> all =~= second_factors());
        assert(all.len() == 2);
        assert(second_factors()[0] == "totp"@ && second_factors()[1] == "recovery_code"@);
        valid
    } else if len == 1 {
        let valid = text_eq(purpose, "password_change") && text_eq(
            methods[0].as_str(),
            "password",
        );
        assert(all[0] == methods@[0]@);
        assert(all.len() == 1);
        assert(methods@[0]@ == "password"@ ==> all =~= seq!["password"@]);
        assert(seq!["password"@][0] == "password"@);
        valid
    } else {
        assert(all.len() == len);
        assert(len == 0 ==> all =~= Seq::<Seq<char>>::empty());
        len == 0 && text_eq(purpose, "login_mfa")
    }
}

/// What is wrong with a challenge that is about to be issued.
pub open spec fn new_challenge_problem(challenge: RiskChallengeModel) -> Option<Seq<char>> {
    let created = challenge.created_at_epoch_millis;
    let expires = challenge.expires_at_epoch_millis;
    if !listed(RISK_CHALLENGE_PURPOSES@, challenge.purpose) {
        Some(unsupported_value("account_risk_challenges.purpose"@, challenge.purpose))
    } else if !methods_fit_purpose(challenge.purpose, challenge.required_methods) {
        Some("account_risk_challenges.required_methods violates the frozen purpose matrix"@)
    } else if !listed(RISK_LEVELS@, challenge.risk_level) {
        Some(unsupported_value("account_risk_challenges.risk_level"@, challenge.risk_level))
    } else if challenge.status != RiskChallengeStatus::Issued || !(1
        <= challenge.attempts_remaining <= MAX_CHALLENGE_ATTEMPTS)
        || challenge.verified_at_epoch_millis is Some || challenge.consumed_at_epoch_millis is Some {
        Some("new account_risk_challenges row is not in issued state"@)
    } else if expires < created {
        Some("account_risk_challenges expiry precedes creation"@)
    } else if expires == created || expires - created > MAX_CHALLENGE_TTL_MILLIS {
        Some("account_risk_challenges expiry exceeds 5 minutes"@)
    } else {
        None
    }
}

/// Checks a challenge that is about to be issued.
pub fn validate_new_risk_challenge(challenge: &RiskChallenge) -> (result: Result<(), String>)
    ensures
        result is Ok <==> new_challenge_problem(challenge@) is None,
        result is Err ==> Some(result->Err_0@) == new_challenge_problem(challenge@),
{
    validate_fixed_enum(
        challenge.purpose.as_str(),
        "account_risk_challenges.purpose",
        RISK_CHALLENGE_PURPOSES.as_slice(),
    )?;
    if !risk_challenge_required_methods_are_valid(
        challenge.purpose.as_str(),
        &challenge.required_methods,
    ) {
        return Err(
            "account_risk_challenges.required_methods violates the frozen purpose matrix".to_owned(),
        );
    }
    validate_fixed_enum(
        challenge.risk_level.as_str(),
        "account_risk_challenges.risk_level",
        RISK_LEVELS.as_slice(),
    )?;
    if challenge.status != RiskChallengeStatus::Issued || challenge.attempts_remaining == 0
        || challenge.attempts_remaining > MAX_CHALLENGE_ATTEMPTS
        || challenge.verified_at_epoch_millis.is_some()
        || challenge.consumed_at_epoch_millis.is_some() {
        return Err("new account_risk_challenges row is not in issued state".to_owned());
    }
    let ttl: u64 = match challenge.expires_at_epoch_millis.checked_sub(
        challenge.created_at_epoch_millis,
    ) {
        Some(ttl) => ttl,
        None => {
            return Err("account_risk_challenges expiry precedes creation".to_owned());
        },
    };
    if ttl == 0 || ttl > MAX_CHALLENGE_TTL_MILLIS {
        return Err("account_risk_challenges expiry exceeds 5 minutes".to_owned());
    }
    Ok(())
}

/// The audit entry that the cancellation of a challenge writes.
pub open spec fn cancel_audit_fits(
    challenge: RiskChallengeModel,
    audit_entry: AuditEntryModel,
) -> bool {
    &&& audit_entry.actor_account_id == Some(challenge.account_id)
    &&& audit_entry.action == "risk_challenge_failed"@
    &&& audit_entry.result == "failure"@
    &&& audit_entry.reason == Some("cancelled"@)
}

/// Whether an audit entry is the one that the cancellation of a challenge writes.
pub fn risk_challenge_cancel_audit_is_valid(
    challenge: &RiskChallenge,
    audit_entry: &AuditEntry,
) -> (valid: bool)
    ensures
        valid == cancel_audit_fits(challenge@, audit_entry@),
{
    opt_text_is(&audit_entry.actor_account_id, challenge.account_id.as_str()) && text_eq(
        audit_entry.action.as_str(),
        "risk_challenge_failed",
    ) && text_eq(audit_entry.result.as_str(), "failure") && opt_text_is(
        &audit_entry.reason,
        "cancelled",
    )
}

/// What a registration leaves in its grant: nothing before it, and after it the binding of the
/// request, the key and, where the grant establishes trust, the trusted device.
pub open spec fn registration_result_fits(grant: DeviceEnrollmentGrantModel) -> bool {
    if grant.consumed_at_epoch_millis is None {
        &&& grant.registration_request_binding_hash is None
        &&& grant.registered_public_key_id is None
        &&& grant.registered_trusted_device_id is None
    } else {
        &&& grant.registration_request_binding_hash is Some
        &&& grant.registered_public_key_id is Some && !blank(grant.registered_public_key_id->0)
        &&& grant.establish_trust == grant.registered_trusted_device_id is Some
        &&& grant.registered_trusted_device_id is Some ==> !blank(
            grant.registered_trusted_device_id->0,
        )
    }
}

/// What is wrong with an enrollment grant.
pub open spec fn grant_problem(grant: DeviceEnrollmentGrantModel) -> Option<Seq<char>> {
    let issued = grant.issued_at_epoch_millis;
    let expires = grant.expires_at_epoch_millis;
    let consumed = grant.consumed_at_epoch_millis;
    if blank(grant.grant_id) || blank(grant.account_id) || blank(grant.device_id) || blank(
        grant.login_challenge_id,
    ) || blank(grant.issued_account_session_id) || grant.protocol_version == 0 {
        Some("device_enrollment_grants contains an empty required field"@)
    } else if expires < issued {
        Some("device_enrollment_grants expiry precedes issue time"@)
    } else if expires == issued || expires - issued > MAX_CHALLENGE_TTL_MILLIS {
        Some("device_enrollment_grants expiry exceeds 5 minutes"@)
    } else if consumed is Some && !(issued <= consumed->0 <= expires) {
        Some("device_enrollment_grants consumed time is outside its TTL"@)
    } else if !registration_result_fits(grant) {
        Some("device_enrollment_grants registration result is inconsistent"@)
    } else if grant.establish_trust != grant.trust_proof_type is Some || grant.establish_trust
        != grant.trust_level is Some {
        Some("device_enrollment_grants trust decision is inconsistent"@)
    } else if grant.establish_trust && !listed(TRUST_PROOF_TYPES@, grant.trust_proof_type->0) {
        Some(
            unsupported_value(
                "device_enrollment_grants.trust_proof_type"@,
                grant.trust_proof_type->0,
            ),
        )
    } else if grant.establish_trust && !listed(TRUST_LEVELS@, grant.trust_level->0) {
        Some(unsupported_value("device_enrollment_grants.trust_level"@, grant.trust_level->0))
    } else {
        None
    }
}

fn registration_result_is_valid(grant: &DeviceEnrollmentGrant) -> (valid: bool)
    ensures
        valid == registration_result_fits(grant@),
{
    match grant.consumed_at_epoch_millis {
        None => grant.registration_request_binding_hash.is_none()
            && grant.registered_public_key_id.is_none()
            && grant.registered_trusted_device_id.is_none(),
        Some(_) => {
            let key_named = match &grant.registered_public_key_id {
                Some(id) => !is_blank(id.as_str()),
                None => false,
            };
            let trust_named = match &grant.registered_trusted_device_id {
                Some(id) => !is_blank(id.as_str()),
                None => true,
            };
            grant.registration_request_binding_hash.is_some() && key_named && (
            grant.establish_trust == grant.registered_trusted_device_id.is_some()) && trust_named
        },
    }
}

/// Checks an enrollment grant.
pub fn validate_device_enrollment_grant(grant: &DeviceEnrollmentGrant) -> (result: Result<
    (),
    String,
>)
    ensures
        result is Ok <==> grant_problem(grant@) is None,
        result is Err ==> Some(result->Err_0@) == grant_problem(grant@),
{
    if is_blank(grant.grant_id.as_str()) || is_blank(grant.account_id.as_str()) || is_blank(
        grant.device_id.as_str(),
    ) || is_blank(grant.login_challenge_id.as_str()) || is_blank(
        grant.issued_account_session_id.as_str(),
    ) || grant.protocol_version == 0 {
        return Err("device_enrollment_grants contains an empty required field".to_owned());
    }
    let ttl: u64 = match grant.expires_at_epoch_millis.checked_sub(grant.issued_at_epoch_millis) {
        Some(ttl) => ttl,
        None => {
            return Err("device_enrollment_grants expiry precedes issue time".to_owned());
        },
    };
    if ttl == 0 || ttl > MAX_CHALLENGE_TTL_MILLIS {
        return Err("device_enrollment_grants expiry exceeds 5 minutes".to_owned());
    }
    if let Some(consumed) = grant.consumed_at_epoch_millis {
        if consumed < grant.issued_at_epoch_millis || consumed > grant.expires_at_epoch_millis {
            return Err("device_enrollment_grants consumed time is outside its TTL".to_owned());
        }
    }
    if !registration_result_is_valid(grant) {
        return Err("device_enrollment_grants registration result is inconsistent".to_owned());
    }
    match (grant.establish_trust, &grant.trust_proof_type, &grant.trust_level) {
        (false, None, None) => Ok(()),
        (true, Some(proof), Some(level)) => {
            validate_fixed_enum(
                proof.as_str(),
                "device_enrollment_grants.trust_proof_type",
                TRUST_PROOF_TYPES.as_slice(),
            )?;
            validate_fixed_enum(
                level.as_str(),
                "device_enrollment_grants.trust_level",
                TRUST_LEVELS.as_slice(),
            )
        },
        _ => Err("device_enrollment_grants trust decision is inconsistent".to_owned()),
    }
}

/// The proof and the level of trust that a login with a second factor earns: none without one.
pub open spec fn trust_earned(factor: Option<Seq<char>>) -> Option<(Seq<char>, Seq<char>)> {
    if factor == Some("totp"@) {
        Some(("device_signature_and_mfa"@, "standard"@))
    } else if factor == Some("recovery_code"@) {
        Some(("device_signature_and_recovery_code"@, "high_risk_step_up_required"@))
    } else {
        None
    }
}

/// Whether the trust that a grant establishes is what the factor of its login earns.
pub open spec fn grant_trust_fits(
    grant: DeviceEnrollmentGrantModel,
    factor: Option<Seq<char>>,
) -> bool {
    match trust_earned(factor) {
        Some((proof, level)) => grant.establish_trust && grant.trust_proof_type == Some(proof)
            && grant.trust_level == Some(level),
        None => factor is None && !grant.establish_trust && grant.trust_proof_type is None
            && grant.trust_level is None,
    }
}

/// Whether the trust that a grant establishes is what the factor of its login earns.
pub fn grant_trust_matches_factor(grant: &DeviceEnrollmentGrant, factor: &Option<String>) -> (fits:
    bool)
    ensures
        fits == grant_trust_fits(grant@, opt_text(*factor)),
{
    match factor {
        None => !grant.establish_trust && grant.trust_proof_type.is_none()
            && grant.trust_level.is_none(),
        Some(kind) => if text_eq(kind.as_str(), "totp") {
            grant.establish_trust && opt_text_is(
                &grant.trust_proof_type,
                "device_signature_and_mfa",
            ) && opt_text_is(&grant.trust_level, "standard")
        } else if text_eq(kind.as_str(), "recovery_code") {
            grant.establish_trust && opt_text_is(
                &grant.trust_proof_type,
                "device_signature_and_recovery_code",
            ) && opt_text_is(&grant.trust_level, "high_risk_step_up_required")
        } else {
            false
        },
    }
}

/// What is wrong with a trusted device that is about to be stored.
pub open spec fn trusted_device_problem(trusted: TrustedControllerDeviceModel) -> Option<
    Seq<char>,
> {
    let created = trusted.created_at_epoch_millis;
    let expires = trusted.expires_at_epoch_millis;
    if !listed(TRUST_LEVELS@, trusted.trust_level) {
        Some(unsupported_value("trusted_controller_devices.trust_level"@, trusted.trust_level))
    } else if !listed(TRUST_PROOF_TYPES@, trusted.trust_proof_type) {
        Some(
            unsupported_value(
                "trusted_controller_devices.trust_proof_type"@,
                trusted.trust_proof_type,
            ),
        )
    } else if expires < created {
        Some("trusted_controller_devices expiry precedes creation"@)
    } else if expires == created || expires - created > TOTP_TRUST_TTL_MILLIS {
        Some("trusted_controller_devices expiry exceeds 30 days"@)
    } else if trusted.status != TrustedDeviceStatus::Active || trusted.last_used_at_epoch_millis
        is Some || trusted.revoked_at_epoch_millis is Some {
        Some("new trusted_controller_devices row is not active"@)
    } else if !trust_terms_fit(trusted) {
        Some("trusted_controller_devices proof, level, or TTL is inconsistent"@)
    } else {
        None
    }
}

/// Whether the level and the lifetime of a trust are those that its proof earns.
pub open spec fn trust_terms_fit(trusted: TrustedControllerDeviceModel) -> bool {
    let ttl = trusted.expires_at_epoch_millis - trusted.created_at_epoch_millis;
    ||| trusted.trust_proof_type == "device_signature_and_mfa"@ && trusted.trust_level
        == "standard"@ && ttl == TOTP_TRUST_TTL_MILLIS
    ||| trusted.trust_proof_type == "device_signature_and_recovery_code"@ && trusted.trust_level
        == "high_risk_step_up_required"@ && ttl == RECOVERY_TRUST_TTL_MILLIS
}

/// Checks a trusted device that is about to be stored.
pub fn validate_trusted_device(trusted: &TrustedControllerDevice) -> (result: Result<(), String>)
    ensures
        result is Ok <==> trusted_device_problem(trusted@) is None,
        result is Err ==> Some(result->Err_0@) == trusted_device_problem(trusted@),
{
    validate_fixed_enum(
        trusted.trust_level.as_str(),
        "trusted_controller_devices.trust_level",
        TRUST_LEVELS.as_slice(),
    )?;
    validate_fixed_enum(
        trusted.trust_proof_type.as_str(),
        "trusted_controller_devices.trust_proof_type",
        TRUST_PROOF_TYPES.as_slice(),
    )?;
    let ttl: u64 = match trusted.expires_at_epoch_millis.checked_sub(
        trusted.created_at_epoch_millis,
    ) {
        Some(ttl) => ttl,
        None => {
            return Err("trusted_controller_devices expiry precedes creation".to_owned());
        },
    };
    if ttl == 0 || ttl > TOTP_TRUST_TTL_MILLIS {
        return Err("trusted_controller_devices expiry exceeds 30 days".to_owned());
    }
    if trusted.status != TrustedDeviceStatus::Active || trusted.last_used_at_epoch_millis.is_some()
        || trusted.revoked_at_epoch_millis.is_some() {
        return Err("new trusted_controller_devices row is not active".to_owned());
    }
    let proof = trusted.trust_proof_type.as_str();
    let level = trusted.trust_level.as_str();
    if text_eq(proof, "device_signature_and_mfa") && text_eq(level, "standard") && ttl
        == TOTP_TRUST_TTL_MILLIS {
        Ok(())
    } else if text_eq(proof, "device_signature_and_recovery_code") && text_eq(
        level,
        "high_risk_step_up_required",
    ) && ttl == RECOVERY_TRUST_TTL_MILLIS {
        Ok(())
    } else {
        Err("trusted_controller_devices proof, level, or TTL is inconsistent".to_owned())
    }
}

/// What is wrong with a delivery of recovery codes, given whether its key material fits.
pub open spec fn delivery_problem(
    delivery: RecoveryCodeDeliveryModel,
    binding_valid: bool,
) -> Option<Seq<char>> {
    let created = delivery.created_at_epoch_millis;
    let expires = delivery.expires_at_epoch_millis;
    let acknowledged = delivery.acknowledged_at_epoch_millis;
    if blank(delivery.delivery_id) || blank(delivery.account_id) || blank(
        delivery.account_session_id,
    ) || blank(delivery.factor_id) || delivery.recovery_code_count == 0 || delivery.ciphertext.len()
        < 16 || !binding_valid {
        Some("mfa_recovery_code_deliveries contains invalid required data"@)
    } else if expires < created {
        Some("mfa_recovery_code_deliveries expiry precedes creation"@)
    } else if expires == created || expires - created > MAX_DELIVERY_TTL_MILLIS {
        Some("mfa_recovery_code_deliveries expiry exceeds 24 hours"@)
    } else if acknowledged is Some && !(created <= acknowledged->0 <= expires) {
        Some("mfa_recovery_code_deliveries acknowledgement is outside its TTL"@)
    } else {
        None
    }
}

/// Checks a delivery of recovery codes. `binding_valid` says whether the keys and the nonce of the
/// delivery are bound to its request.
pub fn validate_recovery_code_delivery(
    delivery: &RecoveryCodeDelivery,
    binding_valid: bool,
) -> (result: Result<(), String>)
    ensures
        result is Ok <==> delivery_problem(delivery@, binding_valid) is None,
        result is Err ==> Some(result->Err_0@) == delivery_problem(delivery@, binding_valid),
{
    if is_blank(delivery.delivery_id.as_str()) || is_blank(delivery.account_id.as_str())
        || is_blank(delivery.account_session_id.as_str()) || is_blank(delivery.factor_id.as_str())
        || delivery.recovery_code_count == 0 || delivery.ciphertext.len() < 16 || !binding_valid {
        return Err("mfa_recovery_code_deliveries contains invalid required data".to_owned());
    }
    let ttl: u64 = match delivery.expires_at_epoch_millis.checked_sub(
        delivery.created_at_epoch_millis,
    ) {
        Some(ttl) => ttl,
        None => {
            return Err("mfa_recovery_code_deliveries expiry precedes creation".to_owned());
        },
    };
    if ttl == 0 || ttl > MAX_DELIVERY_TTL_MILLIS {
        return Err("mfa_recovery_code_deliveries expiry exceeds 24 hours".to_owned());
    }
    if let Some(acknowledged) = delivery.acknowledged_at_epoch_millis {
        if acknowledged < delivery.created_at_epoch_millis || acknowledged
            > delivery.expires_at_epoch_millis {
            return Err(
                "mfa_recovery_code_deliveries acknowledgement is outside its TTL".to_owned(),
            );
        }
    }
    Ok(())
}

} // verus!
