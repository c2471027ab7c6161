use crate::account::{AccountSession, MfaFactor};
use crate::audit::{AuditEntry, AuditEntryModel};
use crate::bytes::constant_time_sha256_eq;
use crate::challenge::{
    LoginChallengeAuthority, RiskChallenge, RiskChallengeModel, RiskChallengeStatus,
};
use crate::database::{append_log, extend_log, Database, DatabaseModel};
use crate::device::{
    DeviceEnrollmentGrant, DeviceEnrollmentGrantModel, TrustedControllerDevice,
    TrustedControllerDeviceModel, TrustedDeviceStatus,
};
use crate::factor::{
    a_used_recovery_code_is_not_found, check_totp, code_rows_after_use, codes_after_proof,
    factors_after_proof, publish_proof, recovery_code_found, used_factor, AcceptedProof,
    AcceptedProofModel, LockedRecoveryCode,
};
use crate::hash::{sha256, sha256_digest};
use crate::revocation::{
    revoke_trusts, trust_after_revocation, trust_revocation_audits, trust_revocations, RevokedTrust,
};
use crate::rules::{
    grant_problem, grant_trust_fits, grant_trust_matches_factor, trusted_device_problem,
    validate_device_enrollment_grant, validate_trusted_device,
};
use crate::store::{
    answer_after, audit_id_taken, audit_ids_unique, check_written, state_after, PersistenceError,
    StoreError,
};
use crate::table::{models, Record};
use crate::text::{opt_text, opt_text_eq, opt_text_is, text_eq, texts, texts_contain, texts_eq};
use vstd::prelude::*;
use vstd::utf8::encode_utf8;

verus! {

/// A request to finish a login: what the client proved, and the records to store if it stands.
#[derive(Debug, PartialEq, Eq)]
pub struct LoginFinishCommand {
    pub challenge_id: String,
    pub account_id: String,
    pub account_updated_at_epoch_millis: u64,
    pub persistent_device_id: Option<String>,
    pub device_id: String,
    pub public_key_id: Option<String>,
    pub public_key_version: u32,
    pub device_public_key_fingerprint: [u8; 32],
    pub challenge_binding_hash: [u8; 32],
    pub required_factors: Vec<String>,
    pub factor_kind: Option<String>,
    pub factor_code: Option<String>,
    pub trusted_device_id_to_use: Option<String>,
    pub account_session: AccountSession,
    pub enrollment_grant: Option<DeviceEnrollmentGrant>,
    pub trusted_device_to_create: Option<TrustedControllerDevice>,
    pub audit_entries: Vec<AuditEntry>,
    pub failure_audit_entry: AuditEntry,
    pub now_epoch_millis: u64,
}

/// How a request to finish a login is answered.
#[derive(Debug, Clone, Copy, PartialEq, Eq, Structural)]
pub enum LoginFinishOutcome {
    Completed,
    InvalidChallenge,
    InvalidFactor,
    InvalidTrust,
    Rejected,
}

/// How a login ends before it is complete.
#[derive(Debug, PartialEq, Eq)]
pub enum LoginFinishEnd {
    /// The store fails; nothing is written.
    Fail(StoreError),
    /// The request is answered; nothing is written.
    Answer(LoginFinishOutcome),
    /// The challenge takes a new state, an audit entry is written, and the request is answered.
    Challenge { outcome: LoginFinishOutcome, challenge: RiskChallenge, audit: AuditEntry },
    /// The trusted device has expired and is stored as such; the trust is invalid.
    TrustExpired(TrustedControllerDevice),
}

/// The model of [`LoginFinishEnd`].
pub enum LoginFinishEndModel {
    Fail(StoreError),
    Answer(LoginFinishOutcome),
    Challenge {
        outcome: LoginFinishOutcome,
        challenge: RiskChallengeModel,
        audit: AuditEntryModel,
    },
    TrustExpired(TrustedControllerDeviceModel),
}

impl View for LoginFinishEnd {
    type V = LoginFinishEndModel;

    open spec fn view(&self) -> LoginFinishEndModel {
        match *self {
            LoginFinishEnd::Fail(error) => LoginFinishEndModel::Fail(error),
            LoginFinishEnd::Answer(outcome) => LoginFinishEndModel::Answer(outcome),
            LoginFinishEnd::Challenge { outcome, challenge, audit } => {
                LoginFinishEndModel::Challenge { outcome, challenge: challenge@, audit: audit@ }
            },
            LoginFinishEnd::TrustExpired(trusted) => LoginFinishEndModel::TrustExpired(trusted@),
        }
    }
}

/// A stage of a login that either ends it or lets it go on.
pub open spec fn stage_end<T>(result: Result<T, LoginFinishEnd>) -> Option<LoginFinishEndModel> {
    match result {
        Ok(_) => None,
        Err(end) => Some(end@),
    }
}

/// The account of a login, as its locked row holds it.
#[derive(Debug, PartialEq, Eq)]
pub struct LockedAccount {
    pub status: String,
    pub updated_at_epoch_millis: i64,
}

/// The device of a login, as its locked row holds it.
#[derive(Debug, PartialEq, Eq)]
pub struct LockedLoginDevice {
    pub account_id: String,
    pub public_key_id: String,
    pub public_key: Vec<u8>,
    pub public_key_version: i32,
    pub public_key_revoked_at_epoch_millis: Option<i64>,
    pub status: String,
}

/// Whether a challenge is the open login challenge that a request answers.
pub open spec fn challenge_open_for(
    command: LoginFinishCommand,
    challenge: RiskChallengeModel,
) -> bool {
    &&& challenge.account_id == command.account_id@
    &&& challenge.device_id == opt_text(command.persistent_device_id)
    &&& challenge.purpose == "login_mfa"@
    &&& challenge.status == RiskChallengeStatus::Issued
    &&& challenge.attempts_remaining > 0
    &&& challenge.operation_binding_hash == command.challenge_binding_hash
    &&& challenge.required_methods == texts(command.required_factors@)
}

/// A challenge that was found past its time.
pub open spec fn expired_challenge(challenge: RiskChallengeModel) -> RiskChallengeModel {
    RiskChallengeModel { status: RiskChallengeStatus::Expired, ..challenge }
}

/// A challenge after a failed attempt: one attempt less, and failed with the last one.
pub open spec fn rejected_challenge(challenge: RiskChallengeModel) -> RiskChallengeModel {
    let remaining: u8 = if challenge.attempts_remaining > 0 {
        (challenge.attempts_remaining - 1) as u8
    } else {
        0
    };
    RiskChallengeModel {
        attempts_remaining: remaining,
        status: if remaining == 0 {
            RiskChallengeStatus::Failed
        } else {
            RiskChallengeStatus::Issued
        },
        ..challenge
    }
}

/// A login challenge after the login that it was issued for.
pub open spec fn consumed_login_challenge(
    challenge: RiskChallengeModel,
    now: u64,
) -> RiskChallengeModel {
    RiskChallengeModel {
        status: RiskChallengeStatus::Consumed,
        verified_at_epoch_millis: Some(now),
        consumed_at_epoch_millis: Some(now),
        ..challenge
    }
}

/// An audit entry with a reason of its own.
pub open spec fn with_reason(entry: AuditEntryModel, reason: Seq<char>) -> AuditEntryModel {
    AuditEntryModel { reason: Some(reason), ..entry }
}

/// How a login ends that costs an attempt, with the reason that its audit entry then gives.
pub open spec fn rejection(
    command: LoginFinishCommand,
    challenge: RiskChallengeModel,
    reason: Seq<char>,
) -> LoginFinishEndModel {
    LoginFinishEndModel::Challenge {
        outcome: LoginFinishOutcome::Rejected,
        challenge: rejected_challenge(challenge),
        audit: with_reason(command.failure_audit_entry@, reason),
    }
}

/// How a login ends whose second factor was not accepted.
pub open spec fn factor_rejection(
    command: LoginFinishCommand,
    challenge: RiskChallengeModel,
) -> LoginFinishEndModel {
    LoginFinishEndModel::Challenge {
        outcome: LoginFinishOutcome::InvalidFactor,
        challenge: rejected_challenge(challenge),
        audit: command.failure_audit_entry@,
    }
}

/// Whether the locked account is still the one that the challenge was issued for.
pub open spec fn account_unchanged(command: LoginFinishCommand, account: LockedAccount) -> bool {
    account.status@ == "active"@ && account.updated_at_epoch_millis
        == command.account_updated_at_epoch_millis
}

/// How the first stage of a login ends it, given the locked account, the locked challenge, and
/// whether the request is bound to the challenge and carries what its kind of login needs.
pub open spec fn opening_end(
    command: LoginFinishCommand,
    account: Option<LockedAccount>,
    authority: Option<Result<LoginChallengeAuthority, String>>,
    binding_valid: bool,
    artifacts: Result<(), StoreError>,
) -> Option<LoginFinishEndModel> {
    if account is None {
        Some(LoginFinishEndModel::Answer(LoginFinishOutcome::InvalidChallenge))
    } else if account->0.updated_at_epoch_millis < 0 {
        Some(LoginFinishEndModel::Fail(StoreError::Unavailable))
    } else if authority is None {
        Some(LoginFinishEndModel::Answer(LoginFinishOutcome::InvalidChallenge))
    } else if authority->0 is Err {
        Some(LoginFinishEndModel::Fail(StoreError::Unavailable))
    } else {
        let challenge = authority->0->Ok_0@.challenge;
        if !challenge_open_for(command, challenge) || !binding_valid {
            Some(LoginFinishEndModel::Answer(LoginFinishOutcome::InvalidChallenge))
        } else if challenge.expires_at_epoch_millis <= command.now_epoch_millis {
            Some(
                LoginFinishEndModel::Challenge {
                    outcome: LoginFinishOutcome::InvalidChallenge,
                    challenge: expired_challenge(challenge),
                    audit: with_reason(command.failure_audit_entry@, "expired"@),
                },
            )
        } else if artifacts is Err {
            Some(LoginFinishEndModel::Fail(artifacts->Err_0))
        } else if !account_unchanged(command, account->0) {
            Some(rejection(command, challenge, "account_security_changed"@))
        } else {
            None
        }
    }
}

fn is_open_for(command: &LoginFinishCommand, challenge: &RiskChallenge) -> (open: bool)
    ensures
        open == challenge_open_for(*command, challenge@),
{
    text_eq(challenge.account_id.as_str(), command.account_id.as_str()) && opt_text_eq(
        &challenge.device_id,
        &command.persistent_device_id,
    ) && text_eq(challenge.purpose.as_str(), "login_mfa") && challenge.status
        == RiskChallengeStatus::Issued && challenge.attempts_remaining != 0
        && constant_time_sha256_eq(
        &challenge.operation_binding_hash,
        &command.challenge_binding_hash,
    ) && texts_eq(&challenge.required_methods, &command.required_factors)
}

/// A challenge after a failed attempt: one attempt less, and failed with the last one.
pub fn reject_locked_login_challenge(challenge: RiskChallenge) -> (rejected: RiskChallenge)
    ensures
        rejected@ == rejected_challenge(challenge@),
{
    let mut rejected = challenge;
    let remaining: u8 = rejected.attempts_remaining.saturating_sub(1);
    rejected.attempts_remaining = remaining;
    rejected.status = if remaining == 0 {
        RiskChallengeStatus::Failed
    } else {
        RiskChallengeStatus::Issued
    };
    rejected
}

fn audit_because(entry: &AuditEntry, reason: &str) -> (audit: AuditEntry)
    ensures
        audit@ == with_reason(entry@, reason@),
{
    let mut audit = entry.duplicate();
    audit.reason = Some(reason.to_owned());
    audit
}

fn reject(command: &LoginFinishCommand, challenge: RiskChallenge, reason: &str) -> (end:
    LoginFinishEnd)
    ensures
        end@ == rejection(*command, challenge@, reason@),
{
    LoginFinishEnd::Challenge {
        outcome: LoginFinishOutcome::Rejected,
        challenge: reject_locked_login_challenge(challenge),
        audit: audit_because(&command.failure_audit_entry, reason),
    }
}

fn reject_factor(command: &LoginFinishCommand, challenge: RiskChallenge) -> (end: LoginFinishEnd)
    ensures
        end@ == factor_rejection(*command, challenge@),
{
    LoginFinishEnd::Challenge {
        outcome: LoginFinishOutcome::InvalidFactor,
        challenge: reject_locked_login_challenge(challenge),
        audit: command.failure_audit_entry.duplicate(),
    }
}

/// The first stage of a login: the account is locked, then the challenge, and both are held
/// against the request.
pub fn open_login_challenge(
    command: &LoginFinishCommand,
    account: &Option<LockedAccount>,
    authority: Option<Result<LoginChallengeAuthority, String>>,
    binding_valid: bool,
    artifacts: Result<(), StoreError>,
) -> (result: Result<RiskChallenge, LoginFinishEnd>)
    ensures
        stage_end(result) == opening_end(*command, *account, authority, binding_valid, artifacts),
        result is Ok ==> result->Ok_0@ == authority->0->Ok_0@.challenge,
{
    let account = match account {
        Some(account) => account,
        None => {
            return Err(LoginFinishEnd::Answer(LoginFinishOutcome::InvalidChallenge));
        },
    };
    if account.updated_at_epoch_millis < 0 {
        return Err(LoginFinishEnd::Fail(StoreError::Unavailable));
    }
    let mut challenge = match authority {
        None => {
            return Err(LoginFinishEnd::Answer(LoginFinishOutcome::InvalidChallenge));
        },
        Some(Err(_)) => {
            return Err(LoginFinishEnd::Fail(StoreError::Unavailable));
        },
        Some(Ok(authority)) => authority.challenge,
    };
    if !is_open_for(command, &challenge) || !binding_valid {
        return Err(LoginFinishEnd::Answer(LoginFinishOutcome::InvalidChallenge));
    }
    if challenge.expires_at_epoch_millis <= command.now_epoch_millis {
        challenge.status = RiskChallengeStatus::Expired;
        return Err(
            LoginFinishEnd::Challenge {
                outcome: LoginFinishOutcome::InvalidChallenge,
                challenge,
                audit: audit_because(&command.failure_audit_entry, "expired"),
            },
        );
    }
    if let Err(error) = artifacts {
        return Err(LoginFinishEnd::Fail(error));
    }
    if !text_eq(account.status.as_str(), "active") || account.updated_at_epoch_millis as u64
        != command.account_updated_at_epoch_millis {
        return Err(reject(command, challenge, "account_security_changed"));
    }
    Ok(challenge)
}

/// Whether a stored device status is one in which the device may act.
pub open spec fn authorizable_name(status: Seq<char>) -> bool {
    status == "online"@ || status == "offline"@ || status == "busy"@
}

/// Whether a stored device status is one in which the device may act.
pub fn is_authorizable_name(status: &str) -> (authorizable: bool)
    ensures
        authorizable == authorizable_name(status@),
{
    text_eq(status, "online") || text_eq(status, "offline") || text_eq(status, "busy")
}

/// Whether the locked device is the registered device that the request speaks for.
pub open spec fn registered_device_fits(
    command: LoginFinishCommand,
    device: LockedLoginDevice,
) -> bool {
    &&& device.account_id@ == command.account_id@
    &&& authorizable_name(device.status@)
    &&& device.public_key_revoked_at_epoch_millis is None
    &&& opt_text(command.public_key_id) == Some(device.public_key_id@)
    &&& device.public_key_version == command.public_key_version
    &&& device.public_key@.len() == 32
    &&& sha256_digest(device.public_key@) == command.device_public_key_fingerprint@
}

/// Whether the device of a login is what the request says it is: the registered device, or one
/// that is not registered yet.
pub open spec fn login_device_fits(
    command: LoginFinishCommand,
    device: Option<LockedLoginDevice>,
) -> bool {
    if command.persistent_device_id is Some {
        device is Some && registered_device_fits(command, device->0)
    } else {
        command.public_key_id is None && command.public_key_version == 0 && device is None
    }
}

fn is_registered_device(command: &LoginFinishCommand, device: &LockedLoginDevice) -> (fits: bool)
    ensures
        fits == registered_device_fits(*command, *device),
{
    if device.public_key.len() != 32 {
        return false;
    }
    let fingerprint = sha256(device.public_key.as_slice());
    let same_key = constant_time_sha256_eq(&fingerprint, &command.device_public_key_fingerprint);
    assert(same_key == (fingerprint@ == command.device_public_key_fingerprint@)) by {
        assert(fingerprint@ == command.device_public_key_fingerprint@ ==> fingerprint
            =~= command.device_public_key_fingerprint);
    }
    text_eq(device.account_id.as_str(), command.account_id.as_str()) && is_authorizable_name(
        device.status.as_str(),
    ) && device.public_key_revoked_at_epoch_millis.is_none() && opt_text_is(
        &command.public_key_id,
        device.public_key_id.as_str(),
    ) && device.public_key_version >= 0 && device.public_key_version as u32
        == command.public_key_version && same_key
}

/// The second stage of a login: the device is locked and held against the request.
pub fn check_login_device(
    command: &LoginFinishCommand,
    challenge: &RiskChallenge,
    device: &Option<LockedLoginDevice>,
) -> (result: Result<(), LoginFinishEnd>)
    ensures
        stage_end(result) == if login_device_fits(*command, *device) {
            None
        } else {
            Some(rejection(*command, challenge@, "device_authority_changed"@))
        },
{
    let fits = match (&command.persistent_device_id, device) {
        (Some(_), Some(device)) => is_registered_device(command, device),
        (Some(_), None) => false,
        (None, _) => command.public_key_id.is_none() && command.public_key_version == 0
            && device.is_none(),
    };
    if fits {
        Ok(())
    } else {
        Err(reject(command, challenge.duplicate(), "device_authority_changed"))
    }
}

/// What a login has to be checked by, once its device stands.
#[derive(Debug, Clone, Copy, PartialEq, Eq, Structural)]
pub enum LoginProof {
    /// The account has no second factor.
    Password,
    /// The trusted device that the challenge names.
    TrustedDevice,
    /// A TOTP code.
    Totp,
    /// A recovery code.
    RecoveryCode,
    /// A factor that is listed but that no check exists for.
    Unsupported,
}

/// Whether a request offers a code of a factor that its challenge lists.
pub open spec fn factor_offered(command: LoginFinishCommand) -> bool {
    &&& command.factor_kind is Some
    &&& command.factor_code is Some
    &&& texts(command.required_factors@).contains(command.factor_kind->0@)
}

/// How a login is refused for the proof that it offers, without a look at the proof itself.
pub open spec fn proof_end(command: LoginFinishCommand, mfa_enabled: bool) -> Option<
    LoginFinishEndModel,
> {
    if command.required_factors@.len() == 0 {
        if command.factor_kind is Some || command.factor_code is Some {
            Some(LoginFinishEndModel::Answer(LoginFinishOutcome::InvalidFactor))
        } else if mfa_enabled != command.trusted_device_id_to_use is Some {
            Some(LoginFinishEndModel::Answer(LoginFinishOutcome::InvalidTrust))
        } else {
            None
        }
    } else if command.trusted_device_id_to_use is Some || !mfa_enabled || !factor_offered(command) {
        Some(LoginFinishEndModel::Answer(LoginFinishOutcome::InvalidFactor))
    } else {
        None
    }
}

/// The proof that a login is checked by, where it is not refused before.
pub open spec fn proof_needed(command: LoginFinishCommand, mfa_enabled: bool) -> LoginProof {
    if command.required_factors@.len() == 0 {
        if mfa_enabled {
            LoginProof::TrustedDevice
        } else {
            LoginProof::Password
        }
    } else if command.factor_kind->0@ == "totp"@ {
        LoginProof::Totp
    } else if command.factor_kind->0@ == "recovery_code"@ {
        LoginProof::RecoveryCode
    } else {
        LoginProof::Unsupported
    }
}

/// The third stage of a login: which proof it is checked by.
pub fn select_login_proof(command: &LoginFinishCommand, mfa_enabled: bool) -> (result: Result<
    LoginProof,
    LoginFinishEnd,
>)
    ensures
        stage_end(result) == proof_end(*command, mfa_enabled),
        result is Ok ==> result->Ok_0 == proof_needed(*command, mfa_enabled),
{
    if command.required_factors.is_empty() {
        if command.factor_kind.is_some() || command.factor_code.is_some() {
            return Err(LoginFinishEnd::Answer(LoginFinishOutcome::InvalidFactor));
        }
        if mfa_enabled != command.trusted_device_id_to_use.is_some() {
            return Err(LoginFinishEnd::Answer(LoginFinishOutcome::InvalidTrust));
        }
        return Ok(
            if mfa_enabled {
                LoginProof::TrustedDevice
            } else {
                LoginProof::Password
            },
        );
    }
    if command.trusted_device_id_to_use.is_some() || !mfa_enabled {
        return Err(LoginFinishEnd::Answer(LoginFinishOutcome::InvalidFactor));
    }
    match (&command.factor_kind, &command.factor_code) {
        (Some(kind), Some(_)) => if !texts_contain(&command.required_factors, kind.as_str()) {
            Err(LoginFinishEnd::Answer(LoginFinishOutcome::InvalidFactor))
        } else if text_eq(kind.as_str(), "totp") {
            Ok(LoginProof::Totp)
        } else if text_eq(kind.as_str(), "recovery_code") {
            Ok(LoginProof::RecoveryCode)
        } else {
            Ok(LoginProof::Unsupported)
        },
        _ => Err(LoginFinishEnd::Answer(LoginFinishOutcome::InvalidFactor)),
    }
}

/// Whether a trusted device is the active one of the account and the device of a request.
pub open spec fn trust_fits(
    command: LoginFinishCommand,
    trusted: TrustedControllerDeviceModel,
) -> bool {
    &&& trusted.account_id == command.account_id@
    &&& trusted.controller_device_id == command.device_id@
    &&& trusted.status == TrustedDeviceStatus::Active
    &&& trusted.device_fingerprint_hash == command.device_public_key_fingerprint
}

/// A trusted device after a login with it: only the time of its last use changes.
pub open spec fn used_trust(
    trusted: TrustedControllerDeviceModel,
    now: u64,
) -> TrustedControllerDeviceModel {
    TrustedControllerDeviceModel { last_used_at_epoch_millis: Some(now), ..trusted }
}

/// How a login by a trusted device ends before it is complete.
pub open spec fn trust_end(
    command: LoginFinishCommand,
    trusted: Option<Result<TrustedControllerDevice, String>>,
) -> Option<LoginFinishEndModel> {
    if trusted is None {
        Some(LoginFinishEndModel::Answer(LoginFinishOutcome::InvalidTrust))
    } else if trusted->0 is Err {
        Some(LoginFinishEndModel::Fail(StoreError::Unavailable))
    } else {
        let model = trusted->0->Ok_0@;
        if !trust_fits(command, model) {
            Some(LoginFinishEndModel::Answer(LoginFinishOutcome::InvalidTrust))
        } else if model.expires_at_epoch_millis <= command.now_epoch_millis {
            Some(
                LoginFinishEndModel::TrustExpired(
                    TrustedControllerDeviceModel { status: TrustedDeviceStatus::Expired, ..model },
                ),
            )
        } else {
            None
        }
    }
}

/// The check of a login by its trusted device.
pub fn use_trusted_device(
    command: &LoginFinishCommand,
    trusted: Option<Result<TrustedControllerDevice, String>>,
) -> (result: Result<TrustedControllerDevice, LoginFinishEnd>)
    ensures
        stage_end(result) == trust_end(*command, trusted),
        result is Ok ==> result->Ok_0@ == used_trust(
            trusted->0->Ok_0@,
            command.now_epoch_millis,
        ),
{
    let mut trusted = match trusted {
        None => {
            return Err(LoginFinishEnd::Answer(LoginFinishOutcome::InvalidTrust));
        },
        Some(Err(_)) => {
            return Err(LoginFinishEnd::Fail(StoreError::Unavailable));
        },
        Some(Ok(trusted)) => trusted,
    };
    if !text_eq(trusted.account_id.as_str(), command.account_id.as_str()) || !text_eq(
        trusted.controller_device_id.as_str(),
        command.device_id.as_str(),
    ) || trusted.status != TrustedDeviceStatus::Active || !constant_time_sha256_eq(
        &trusted.device_fingerprint_hash,
        &command.device_public_key_fingerprint,
    ) {
        return Err(LoginFinishEnd::Answer(LoginFinishOutcome::InvalidTrust));
    }
    if trusted.expires_at_epoch_millis <= command.now_epoch_millis {
        trusted.status = TrustedDeviceStatus::Expired;
        return Err(LoginFinishEnd::TrustExpired(trusted));
    }
    trusted.last_used_at_epoch_millis = Some(command.now_epoch_millis);
    Ok(trusted)
}

/// How a login by a TOTP code ends before it is complete: the account has no active factor, or the
/// code was not accepted at any time step.
pub open spec fn totp_end(
    command: LoginFinishCommand,
    challenge: RiskChallengeModel,
    factor: Option<Result<MfaFactor, String>>,
    counter: Option<u64>,
) -> Option<LoginFinishEndModel> {
    if factor is Some && factor->0 is Err {
        Some(LoginFinishEndModel::Fail(StoreError::Unavailable))
    } else if factor is None || counter is None {
        Some(factor_rejection(command, challenge))
    } else {
        None
    }
}

/// The check of a login by a TOTP code, given the account's active factor and the time step at
/// which the code was accepted.
pub fn accept_login_totp(
    command: &LoginFinishCommand,
    challenge: &RiskChallenge,
    factor: Option<Result<MfaFactor, String>>,
    counter: Option<u64>,
) -> (result: Result<MfaFactor, LoginFinishEnd>)
    ensures
        stage_end(result) == totp_end(*command, challenge@, factor, counter),
        result is Ok ==> result->Ok_0@ == used_factor(factor->0->Ok_0@, counter->0),
{
    match check_totp(factor, counter) {
        Ok(Some(used)) => Ok(used),
        Ok(None) => Err(reject_factor(command, challenge.duplicate())),
        Err(error) => Err(LoginFinishEnd::Fail(error)),
    }
}

/// The first entry of an action, at or after a position.
pub open spec fn first_of_action(
    entries: Seq<AuditEntryModel>,
    action: Seq<char>,
    from: int,
) -> Option<AuditEntryModel>
    decreases entries.len() - from,
{
    if from < 0 || from >= entries.len() {
        None
    } else if entries[from].action == action {
        Some(entries[from])
    } else {
        first_of_action(entries, action, from + 1)
    }
}

/// The first entry of an action.
pub fn find_action<'a>(entries: &'a Vec<AuditEntry>, action: &str) -> (found: Option<&'a AuditEntry>)
    ensures
        found is Some <==> first_of_action(models(entries@), action@, 0) is Some,
        found is Some ==> Some(found->0@) == first_of_action(models(entries@), action@, 0),
{
    let mut i: usize = 0;
    while i < entries.len()
        invariant
            i <= entries.len(),
            first_of_action(models(entries@), action@, 0) == first_of_action(
                models(entries@),
                action@,
                i as int,
            ),
        decreases entries.len() - i,
    {
        assert(models(entries@)[i as int] == entries@[i as int]@);
        if text_eq(entries[i].action.as_str(), action) {
            return Some(&entries[i]);
        }
        i = i + 1;
    }
    None
}

/// The entries of a login that are written with it: all but those of an issued grant.
pub open spec fn written_entries(entries: Seq<AuditEntryModel>) -> Seq<AuditEntryModel>
    decreases entries.len(),
{
    if entries.len() == 0 {
        Seq::empty()
    } else if entries.last().action == "device_enrollment_grant_issued"@ {
        written_entries(entries.drop_last())
    } else {
        written_entries(entries.drop_last()).push(entries.last())
    }
}

/// The entries of a login that are written with it: all but those of an issued grant.
pub fn login_entries_to_write(entries: &Vec<AuditEntry>) -> (written: Vec<AuditEntry>)
    ensures
        models(written@) == written_entries(models(entries@)),
{
    let mut written: Vec<AuditEntry> = Vec::new();
    let ghost all = models(entries@);
    let mut i: usize = 0;
    assert(models(written@) =~= written_entries(all.take(0)));
    while i < entries.len()
        invariant
            i <= entries.len(),
            all == models(entries@),
            models(written@) == written_entries(all.take(i as int)),
        decreases entries.len() - i,
    {
        proof {
            assert(all.take(i as int + 1).drop_last() =~= all.take(i as int));
            assert(all.take(i as int + 1).last() == entries@[i as int]@);
        }
        if !text_eq(entries[i].action.as_str(), "device_enrollment_grant_issued") {
            append_log(&mut written, entries[i].duplicate());
        }
        i = i + 1;
    }
    assert(all.take(i as int) =~= all);
    written
}

/// Whether an enrollment grant is the one that a login may issue.
pub open spec fn login_grant_fits(
    command: LoginFinishCommand,
    challenge: RiskChallengeModel,
    grant: DeviceEnrollmentGrantModel,
) -> bool {
    &&& grant_problem(grant) is None
    &&& grant.account_id == command.account_id@
    &&& grant.device_id == command.device_id@
    &&& grant.login_challenge_id == command.challenge_id@
    &&& grant.issued_account_session_id == command.account_session.account_session_id@
    &&& grant.protocol_version != 0
    &&& grant.consumed_at_epoch_millis is None
    &&& grant.issued_at_epoch_millis == command.now_epoch_millis
    &&& grant.expires_at_epoch_millis <= challenge.expires_at_epoch_millis
    &&& grant.device_public_key_fingerprint == command.device_public_key_fingerprint
    &&& grant.login_challenge_binding_hash == command.challenge_binding_hash
    &&& grant_trust_fits(grant, opt_text(command.factor_kind))
}

/// Whether a trusted device is the one that a login may create.
pub open spec fn login_trust_fits(
    command: LoginFinishCommand,
    trusted: TrustedControllerDeviceModel,
) -> bool {
    &&& trusted_device_problem(trusted) is None
    &&& command.enrollment_grant is None
    &&& command.factor_kind is Some
    &&& trusted.account_id == command.account_id@
    &&& trusted.controller_device_id == command.device_id@
    &&& trusted.created_at_epoch_millis == command.now_epoch_millis
    &&& trusted.device_fingerprint_hash == command.device_public_key_fingerprint
    &&& first_of_action(models(command.audit_entries@), "trusted_device_added"@, 0) is Some
}

/// Whether the records that a login brings are those that it may store. A login from a registered
/// device with a second factor has to bring the trust that it earns.
pub open spec fn login_records_fit(
    command: LoginFinishCommand,
    challenge: RiskChallengeModel,
) -> bool {
    &&& command.enrollment_grant is Some ==> login_grant_fits(
        command,
        challenge,
        command.enrollment_grant->0@,
    )
    &&& if command.trusted_device_to_create is Some {
        login_trust_fits(command, command.trusted_device_to_create->0@)
    } else {
        !(command.factor_kind is Some && command.persistent_device_id is Some)
    }
}

fn is_login_grant(
    command: &LoginFinishCommand,
    challenge: &RiskChallenge,
    grant: &DeviceEnrollmentGrant,
) -> (fits: bool)
    ensures
        fits == login_grant_fits(*command, challenge@, grant@),
{
    validate_device_enrollment_grant(grant).is_ok() && text_eq(
        grant.account_id.as_str(),
        command.account_id.as_str(),
    ) && text_eq(grant.device_id.as_str(), command.device_id.as_str()) && text_eq(
        grant.login_challenge_id.as_str(),
        command.challenge_id.as_str(),
    ) && text_eq(
        grant.issued_account_session_id.as_str(),
        command.account_session.account_session_id.as_str(),
    ) && grant.protocol_version != 0 && grant.consumed_at_epoch_millis.is_none()
        && grant.issued_at_epoch_millis == command.now_epoch_millis && grant.expires_at_epoch_millis
        <= challenge.expires_at_epoch_millis && constant_time_sha256_eq(
        &grant.device_public_key_fingerprint,
        &command.device_public_key_fingerprint,
    ) && constant_time_sha256_eq(
        &grant.login_challenge_binding_hash,
        &command.challenge_binding_hash,
    ) && grant_trust_matches_factor(grant, &command.factor_kind)
}

fn is_login_trust(command: &LoginFinishCommand, trusted: &TrustedControllerDevice) -> (fits: bool)
    ensures
        fits == login_trust_fits(*command, trusted@),
{
    validate_trusted_device(trusted).is_ok() && command.enrollment_grant.is_none()
        && command.factor_kind.is_some() && text_eq(
        trusted.account_id.as_str(),
        command.account_id.as_str(),
    ) && text_eq(trusted.controller_device_id.as_str(), command.device_id.as_str())
        && trusted.created_at_epoch_millis == command.now_epoch_millis && constant_time_sha256_eq(
        &trusted.device_fingerprint_hash,
        &command.device_public_key_fingerprint,
    ) && find_action(&command.audit_entries, "trusted_device_added").is_some()
}

/// Whether the records that a login brings are those that it may store.
pub fn login_records_are_valid(command: &LoginFinishCommand, challenge: &RiskChallenge) -> (valid:
    bool)
    ensures
        valid == login_records_fit(*command, challenge@),
{
    let grant_valid = match &command.enrollment_grant {
        Some(grant) => is_login_grant(command, challenge, grant),
        None => true,
    };
    let trust_valid = match &command.trusted_device_to_create {
        Some(trusted) => is_login_trust(command, trusted),
        None => !(command.factor_kind.is_some() && command.persistent_device_id.is_some()),
    };
    grant_valid && trust_valid
}

/// What the store and the verifiers say of a login: the locked rows, whether the request is bound
/// to its challenge and carries what its kind of login needs, the time step at which its TOTP code
/// was accepted, the recovery code that its code stands for, and the trusted devices of its device
/// that are active.
#[derive(Debug, PartialEq, Eq)]
pub struct LoginFinishFacts {
    pub account: Option<LockedAccount>,
    pub authority: Option<Result<LoginChallengeAuthority, String>>,
    pub binding_valid: bool,
    pub artifacts: Result<(), StoreError>,
    pub device: Option<LockedLoginDevice>,
    pub mfa_enabled: bool,
    pub trusted: Option<Result<TrustedControllerDevice, String>>,
    pub totp_factor: Option<Result<MfaFactor, String>>,
    pub totp_counter: Option<u64>,
    pub recovery_code_id: Result<Option<String>, String>,
    pub active_trusts: Vec<RevokedTrust>,
}

/// What a complete login writes besides the records that it brought.
#[derive(Debug, PartialEq, Eq)]
pub struct LoginFinishDecision {
    pub challenge: RiskChallenge,
    pub accepted: AcceptedProof,
    pub revocation_audits: Vec<AuditEntry>,
}

/// The challenge of a login, where it was found and could be read.
pub open spec fn facts_challenge(facts: LoginFinishFacts) -> RiskChallengeModel {
    facts.authority->0->Ok_0@.challenge
}

/// How the check of the proof of a login ends it.
pub open spec fn checked_proof_end(
    command: LoginFinishCommand,
    facts: LoginFinishFacts,
) -> Option<LoginFinishEndModel> {
    let challenge = facts_challenge(facts);
    match proof_needed(command, facts.mfa_enabled) {
        LoginProof::Password => None,
        LoginProof::TrustedDevice => trust_end(command, facts.trusted),
        LoginProof::Totp => totp_end(
            command,
            challenge,
            facts.totp_factor,
            facts.totp_counter,
        ),
        LoginProof::RecoveryCode => match facts.recovery_code_id {
            Ok(Some(_)) => None,
            Ok(None) => Some(factor_rejection(command, challenge)),
            Err(_) => Some(LoginFinishEndModel::Fail(StoreError::Unavailable)),
        },
        LoginProof::Unsupported => Some(factor_rejection(command, challenge)),
    }
}

/// The proof by which a login is accepted, where its check does not end it.
pub open spec fn accepted_proof(
    command: LoginFinishCommand,
    facts: LoginFinishFacts,
) -> AcceptedProofModel {
    match proof_needed(command, facts.mfa_enabled) {
        LoginProof::TrustedDevice => AcceptedProofModel::TrustedDevice(
            used_trust(facts.trusted->0->Ok_0@, command.now_epoch_millis),
        ),
        LoginProof::Totp => AcceptedProofModel::Totp(
            used_factor(facts.totp_factor->0->Ok_0@, facts.totp_counter->0),
        ),
        LoginProof::RecoveryCode => AcceptedProofModel::RecoveryCode(
            facts.recovery_code_id->Ok_0->0@,
        ),
        _ => AcceptedProofModel::Password,
    }
}

/// How a login ends before it is complete: by its challenge, by its device, by the kind of proof
/// that it offers, by the proof itself, or by the records that it brings, in this order.
pub open spec fn login_finish_end(
    command: LoginFinishCommand,
    facts: LoginFinishFacts,
) -> Option<LoginFinishEndModel> {
    let opening = opening_end(
        command,
        facts.account,
        facts.authority,
        facts.binding_valid,
        facts.artifacts,
    );
    if opening is Some {
        opening
    } else if !login_device_fits(command, facts.device) {
        Some(rejection(command, facts_challenge(facts), "device_authority_changed"@))
    } else if proof_end(command, facts.mfa_enabled) is Some {
        proof_end(command, facts.mfa_enabled)
    } else if checked_proof_end(command, facts) is Some {
        checked_proof_end(command, facts)
    } else if !login_records_fit(command, facts_challenge(facts)) {
        Some(LoginFinishEndModel::Fail(StoreError::Conflict))
    } else {
        None
    }
}

/// The entries for the trusted devices that a login replaces.
pub open spec fn login_revocations(
    command: LoginFinishCommand,
    facts: LoginFinishFacts,
) -> Seq<AuditEntryModel> {
    if command.trusted_device_to_create is Some {
        trust_revocations(
            first_of_action(models(command.audit_entries@), "trusted_device_added"@, 0)->0,
            facts.active_trusts@,
            "refreshed"@,
        )
    } else {
        Seq::empty()
    }
}

/// Whether a login is complete, and what it then writes, or how it ends before.
pub fn finish_login(command: &LoginFinishCommand, facts: LoginFinishFacts) -> (result: Result<
    LoginFinishDecision,
    LoginFinishEnd,
>)
    ensures
        stage_end(result) == login_finish_end(*command, facts),
        result is Ok ==> result->Ok_0.challenge@ == consumed_login_challenge(
            facts_challenge(facts),
            command.now_epoch_millis,
        ),
        result is Ok ==> result->Ok_0.accepted@ == accepted_proof(*command, facts),
        result is Ok ==> models(result->Ok_0.revocation_audits@) == login_revocations(
            *command,
            facts,
        ),
{
    let mut challenge = open_login_challenge(
        command,
        &facts.account,
        facts.authority,
        facts.binding_valid,
        facts.artifacts,
    )?;
    check_login_device(command, &challenge, &facts.device)?;
    let accepted = match select_login_proof(command, facts.mfa_enabled)? {
        LoginProof::Password => AcceptedProof::Password,
        LoginProof::TrustedDevice => AcceptedProof::TrustedDevice(
            use_trusted_device(command, facts.trusted)?,
        ),
        LoginProof::Totp => AcceptedProof::Totp(
            accept_login_totp(command, &challenge, facts.totp_factor, facts.totp_counter)?,
        ),
        LoginProof::RecoveryCode => match facts.recovery_code_id {
            Ok(Some(id)) => AcceptedProof::RecoveryCode(id),
            Ok(None) => {
                return Err(reject_factor(command, challenge));
            },
            Err(_) => {
                return Err(LoginFinishEnd::Fail(StoreError::Unavailable));
            },
        },
        LoginProof::Unsupported => {
            return Err(reject_factor(command, challenge));
        },
    };
    if !login_records_are_valid(command, &challenge) {
        return Err(LoginFinishEnd::Fail(StoreError::Conflict));
    }
    let revocation_audits: Vec<AuditEntry> = match &command.trusted_device_to_create {
        Some(_) => match find_action(&command.audit_entries, "trusted_device_added") {
            Some(source) => trust_revocation_audits(source, &facts.active_trusts, "refreshed"),
            None => Vec::new(),
        },
        None => Vec::new(),
    };
    assert(models(revocation_audits@) =~= login_revocations(*command, facts));
    challenge.status = RiskChallengeStatus::Consumed;
    challenge.verified_at_epoch_millis = Some(command.now_epoch_millis);
    challenge.consumed_at_epoch_millis = Some(command.now_epoch_millis);
    Ok(LoginFinishDecision { challenge, accepted, revocation_audits })
}

/// The database after a login that ended before it was complete.
pub open spec fn after_login_end(database: DatabaseModel, end: LoginFinishEndModel) -> DatabaseModel {
    match end {
        LoginFinishEndModel::Challenge { outcome, challenge, audit } => DatabaseModel {
            risk_challenges: database.risk_challenges.insert(
                challenge.risk_challenge_id,
                challenge,
            ),
            audit_logs: database.audit_logs.push(audit),
            ..database
        },
        LoginFinishEndModel::TrustExpired(trusted) => DatabaseModel {
            trusted_controller_devices: database.trusted_controller_devices.insert(
                trusted.trusted_device_id,
                trusted,
            ),
            ..database
        },
        _ => database,
    }
}

/// The answer to a login that ended before it was complete.
pub open spec fn end_answer(end: LoginFinishEndModel) -> Result<LoginFinishOutcome, StoreError> {
    match end {
        LoginFinishEndModel::Fail(error) => Err(error),
        LoginFinishEndModel::Answer(outcome) => Ok(outcome),
        LoginFinishEndModel::Challenge { outcome, challenge, audit } => Ok(outcome),
        LoginFinishEndModel::TrustExpired(trusted) => Ok(LoginFinishOutcome::InvalidTrust),
    }
}

/// Publishes how a login ended before it was complete, and answers it.
pub fn publish_login_end(
    database: &mut Database,
    end: LoginFinishEnd,
    written: &Result<(), PersistenceError>,
) -> (answer: Result<LoginFinishOutcome, StoreError>)
    ensures
        answer == answer_after(*written, end_answer(end@)),
        final(database)@ == state_after(
            *written,
            old(database)@,
            after_login_end(old(database)@, end@),
        ),
{
    check_written(written)?;
    match end {
        LoginFinishEnd::Fail(error) => Err(error),
        LoginFinishEnd::Answer(outcome) => Ok(outcome),
        LoginFinishEnd::Challenge { outcome, challenge, audit } => {
            database.risk_challenges.insert(challenge.risk_challenge_id.clone(), challenge);
            append_log(&mut database.audit_logs, audit);
            Ok(outcome)
        },
        LoginFinishEnd::TrustExpired(trusted) => {
            database.trusted_controller_devices.insert(trusted.trusted_device_id.clone(), trusted);
            Ok(LoginFinishOutcome::InvalidTrust)
        },
    }
}

/// The trusted devices after a login: the one that was used, and in place of the active ones of
/// its device the one that it created.
pub open spec fn trusts_after_login(
    trusts: Map<Seq<char>, TrustedControllerDeviceModel>,
    command: LoginFinishCommand,
    accepted: AcceptedProofModel,
) -> Map<Seq<char>, TrustedControllerDeviceModel> {
    let used = match accepted {
        AcceptedProofModel::TrustedDevice(trusted) => trusts.insert(
            trusted.trusted_device_id,
            trusted,
        ),
        _ => trusts,
    };
    match command.trusted_device_to_create {
        Some(created) => used.map_values(
            |trusted: TrustedControllerDeviceModel|
                trust_after_revocation(
                    trusted,
                    command.account_id@,
                    Some(command.device_id@),
                    command.now_epoch_millis,
                ),
        ).insert(created@.trusted_device_id, created@),
        None => used,
    }
}

/// The database after a complete login.
pub open spec fn after_login(
    database: DatabaseModel,
    command: LoginFinishCommand,
    challenge: RiskChallengeModel,
    accepted: AcceptedProofModel,
    revocation_audits: Seq<AuditEntryModel>,
) -> DatabaseModel {
    DatabaseModel {
        risk_challenges: database.risk_challenges.insert(challenge.risk_challenge_id, challenge),
        mfa_factors: factors_after_proof(database.mfa_factors, accepted),
        recovery_codes: codes_after_proof(
            database.recovery_codes,
            accepted,
            command.now_epoch_millis,
        ),
        trusted_controller_devices: trusts_after_login(
            database.trusted_controller_devices,
            command,
            accepted,
        ),
        device_enrollment_grants: match command.enrollment_grant {
            Some(grant) => database.device_enrollment_grants.insert(grant@.grant_id, grant@),
            None => database.device_enrollment_grants,
        },
        account_sessions: database.account_sessions.insert(
            command.account_session@.account_session_id,
            command.account_session@,
        ),
        audit_logs: database.audit_logs + revocation_audits + written_entries(
            models(command.audit_entries@),
        ),
        ..database
    }
}

/// Publishes a complete login.
pub fn publish_login(
    database: &mut Database,
    command: &LoginFinishCommand,
    decision: LoginFinishDecision,
    written: &Result<(), PersistenceError>,
) -> (answer: Result<LoginFinishOutcome, StoreError>)
    ensures
        answer == answer_after(*written, Ok(LoginFinishOutcome::Completed)),
        final(database)@ == state_after(
            *written,
            old(database)@,
            after_login(
                old(database)@,
                *command,
                decision.challenge@,
                decision.accepted@,
                models(decision.revocation_audits@),
            ),
        ),
{
    check_written(written)?;
    let challenge = decision.challenge;
    database.risk_challenges.insert(challenge.risk_challenge_id.clone(), challenge);
    publish_proof(database, &decision.accepted, command.now_epoch_millis);
    if let AcceptedProof::TrustedDevice(trusted) = decision.accepted {
        database.trusted_controller_devices.insert(trusted.trusted_device_id.clone(), trusted);
    }
    if let Some(created) = &command.trusted_device_to_create {
        revoke_trusts(
            &mut database.trusted_controller_devices,
            command.account_id.as_str(),
            &Some(command.device_id.clone()),
            command.now_epoch_millis,
        );
        database.trusted_controller_devices.insert(
            created.trusted_device_id.clone(),
            created.duplicate(),
        );
    }
    if let Some(grant) = &command.enrollment_grant {
        database.device_enrollment_grants.insert(grant.grant_id.clone(), grant.duplicate());
    }
    database.account_sessions.insert(
        command.account_session.account_session_id.clone(),
        command.account_session.duplicate(),
    );
    extend_log(&mut database.audit_logs, &decision.revocation_audits);
    extend_log(&mut database.audit_logs, &login_entries_to_write(&command.audit_entries));
    Ok(LoginFinishOutcome::Completed)
}

/// A login challenge serves one login: once it was consumed, no request finds it open, and a
/// request that answers it is refused without costing anything.
pub proof fn a_login_challenge_is_used_once(
    command: LoginFinishCommand,
    facts: LoginFinishFacts,
    later_command: LoginFinishCommand,
    later_facts: LoginFinishFacts,
)
    requires
        login_finish_end(command, facts) is None,
        later_facts.account is Some,
        later_facts.account->0.updated_at_epoch_millis >= 0,
        later_facts.authority is Some,
        later_facts.authority->0 is Ok,
        facts_challenge(later_facts) == consumed_login_challenge(
            facts_challenge(facts),
            command.now_epoch_millis,
        ),
    ensures
        login_finish_end(later_command, later_facts) == Some(
            LoginFinishEndModel::Answer(LoginFinishOutcome::InvalidChallenge),
        ),
{
}

/// A complete login answered an open challenge in time, for an account and a device that had not
/// changed since; and where the account has a second factor, it was made from its trusted device
/// while the trust held, or with a TOTP code or a recovery code that was accepted.
pub proof fn a_complete_login_was_proved(command: LoginFinishCommand, facts: LoginFinishFacts)
    requires
        login_finish_end(command, facts) is None,
    ensures
        challenge_open_for(command, facts_challenge(facts)),
        facts.binding_valid,
        command.now_epoch_millis < facts_challenge(facts).expires_at_epoch_millis,
        account_unchanged(command, facts.account->0),
        login_device_fits(command, facts.device),
        facts.mfa_enabled ==> ({
            ||| command.required_factors@.len() == 0 && trust_fits(
                command,
                facts.trusted->0->Ok_0@,
            ) && command.now_epoch_millis < facts.trusted->0->Ok_0@.expires_at_epoch_millis
            ||| opt_text(command.factor_kind) == Some("totp"@) && facts.totp_factor is Some
                && facts.totp_counter is Some
            ||| opt_text(command.factor_kind) == Some("recovery_code"@) && facts.recovery_code_id
                is Ok && facts.recovery_code_id->Ok_0 is Some
        }),
        !facts.mfa_enabled ==> command.required_factors@.len() == 0
            && command.trusted_device_id_to_use is None,
{
}

/// A recovery code serves one login. After a login that was made with it, the code is used where it
/// is held; and a second login with the same code on the rows that the first one left, whenever it
/// is made and whatever challenge it answers, is not complete: its code is refused and costs an
/// attempt, where nothing ends the login before.
pub proof fn a_recovery_code_serves_one_login(
    database: DatabaseModel,
    rows: Seq<LockedRecoveryCode>,
    first: LoginFinishCommand,
    first_facts: LoginFinishFacts,
    rows_after: Seq<LockedRecoveryCode>,
    second: LoginFinishCommand,
    second_facts: LoginFinishFacts,
)
    requires
        login_finish_end(first, first_facts) is None,
        same_recovery_code(rows, rows_after, first, first_facts, second, second_facts),
    ensures
        ({
            let id = first_facts.recovery_code_id->Ok_0->0@;
            let accepted = accepted_proof(first, first_facts);
            let codes = codes_after_proof(
                database.recovery_codes,
                accepted,
                first.now_epoch_millis,
            );
            &&& accepted == AcceptedProofModel::RecoveryCode(id)
            &&& database.recovery_codes.contains_key(id) ==> codes[id].used_at_epoch_millis
                == Some(first.now_epoch_millis)
        }),
        login_finish_end(second, second_facts) is Some,
        checked_proof_end(second, second_facts) == Some(
            factor_rejection(second, facts_challenge(second_facts)),
        ),
{
    assert(opt_text(second.factor_code) is Some);
    a_used_recovery_code_is_not_found(
        rows,
        rows_after,
        first.account_id@,
        sha256_digest(encode_utf8(first.factor_code->0@)),
        first.now_epoch_millis,
        second.now_epoch_millis,
        first_facts.recovery_code_id,
        second_facts.recovery_code_id,
    );
}

/// A TOTP code serves one login. After a login that was made with it, the factor holds its time
/// step; and a second login with the same code on the factor that the first one left is not
/// complete: its code is refused and costs an attempt, where nothing ends the login before.
pub proof fn a_totp_code_serves_one_login(
    database: DatabaseModel,
    accepted_step: spec_fn(Option<u64>, u64) -> Option<u64>,
    first: LoginFinishCommand,
    first_facts: LoginFinishFacts,
    second: LoginFinishCommand,
    second_facts: LoginFinishFacts,
)
    requires
        login_finish_end(first, first_facts) is None,
        same_totp_code(accepted_step, first, first_facts, second, second_facts),
    ensures
        ({
            let id = first_facts.totp_factor->0->Ok_0@.factor_id;
            let factors = factors_after_proof(
                database.mfa_factors,
                accepted_proof(first, first_facts),
            );
            database.mfa_factors.contains_key(id) ==> factors[id].last_used_counter
                == first_facts.totp_counter
        }),
        login_finish_end(second, second_facts) is Some,
        checked_proof_end(second, second_facts) == Some(
            factor_rejection(second, facts_challenge(second_facts)),
        ),
{
    let step = first_facts.totp_counter->0;
    assert(second_facts.totp_factor->0->Ok_0@.last_used_counter == Some(step));
    if accepted_step(Some(step), second.now_epoch_millis) is Some {
        assert(accepted_step(
            first_facts.totp_factor->0->Ok_0@.last_used_counter,
            first.now_epoch_millis,
        ) is Some);
    }
}

/// Whether a later login is made with the recovery code of a first one, on the rows of recovery
/// codes that the first one left. No two codes of an account have the same digest.
pub open spec fn same_recovery_code(
    rows: Seq<LockedRecoveryCode>,
    rows_after: Seq<LockedRecoveryCode>,
    first: LoginFinishCommand,
    first_facts: LoginFinishFacts,
    later: LoginFinishCommand,
    later_facts: LoginFinishFacts,
) -> bool {
    &&& proof_needed(first, first_facts.mfa_enabled) == LoginProof::RecoveryCode
    &&& proof_needed(later, later_facts.mfa_enabled) == LoginProof::RecoveryCode
    &&& first.factor_code is Some
    &&& opt_text(later.factor_code) == opt_text(first.factor_code)
    &&& later.account_id@ == first.account_id@
    &&& recovery_code_found(
        rows,
        first.account_id@,
        sha256_digest(encode_utf8(first.factor_code->0@)),
        first.now_epoch_millis,
        first_facts.recovery_code_id,
    )
    &&& code_rows_after_use(rows, rows_after, first_facts.recovery_code_id->Ok_0->0@)
    &&& recovery_code_found(
        rows_after,
        later.account_id@,
        sha256_digest(encode_utf8(later.factor_code->0@)),
        later.now_epoch_millis,
        later_facts.recovery_code_id,
    )
    &&& forall|i: int, j: int|
        0 <= i < j < rows.len() && (#[trigger] rows[i]).account_id@ == first.account_id@ && (
        #[trigger] rows[j]).account_id@ == first.account_id@ ==> rows[i].code_hash@
            != rows[j].code_hash@
}

/// Whether a later login is made with the TOTP code of a first one, on the factor that the first
/// one left. `accepted_step` is the time step at which the code is accepted, given the last one that
/// was used and the time: never one that was used already, and a code has one.
pub open spec fn same_totp_code(
    accepted_step: spec_fn(Option<u64>, u64) -> Option<u64>,
    first: LoginFinishCommand,
    first_facts: LoginFinishFacts,
    later: LoginFinishCommand,
    later_facts: LoginFinishFacts,
) -> bool {
    &&& proof_needed(first, first_facts.mfa_enabled) == LoginProof::Totp
    &&& proof_needed(later, later_facts.mfa_enabled) == LoginProof::Totp
    &&& forall|last: u64, now: u64| #[trigger]
        accepted_step(Some(last), now) is Some ==> accepted_step(Some(last), now)->0 > last
    &&& forall|a: Option<u64>, b: Option<u64>, now: u64, later_now: u64| #[trigger]
        accepted_step(a, now) is Some && #[trigger] accepted_step(b, later_now) is Some
            ==> accepted_step(a, now) == accepted_step(b, later_now)
    &&& first_facts.totp_counter == accepted_step(
        first_facts.totp_factor->0->Ok_0@.last_used_counter,
        first.now_epoch_millis,
    )
    &&& later_facts.totp_factor is Some && later_facts.totp_factor->0 is Ok
    &&& accepted_proof(first, first_facts) == AcceptedProofModel::Totp(
        later_facts.totp_factor->0->Ok_0@,
    )
    &&& later_facts.totp_counter == accepted_step(
        later_facts.totp_factor->0->Ok_0@.last_used_counter,
        later.now_epoch_millis,
    )
}

/// Whether nothing but its factor can end a login: its challenge is open and in time, its account
/// and its device are unchanged, and it offers a factor that is asked for.
pub open spec fn only_factor_open(command: LoginFinishCommand, facts: LoginFinishFacts) -> bool {
    &&& opening_end(
        command,
        facts.account,
        facts.authority,
        facts.binding_valid,
        facts.artifacts,
    ) is None
    &&& login_device_fits(command, facts.device)
    &&& proof_end(command, facts.mfa_enabled) is None
}

/// The database after logins that were not complete, one after the other.
pub open spec fn after_login_ends(
    database: DatabaseModel,
    logins: Seq<(LoginFinishCommand, LoginFinishFacts)>,
) -> DatabaseModel
    decreases logins.len(),
{
    if logins.len() == 0 {
        database
    } else {
        after_login_end(
            after_login_ends(database, logins.drop_last()),
            login_finish_end(logins.last().0, logins.last().1)->0,
        )
    }
}

/// One code serves one login, of all that are made with it. The first one completes. Each of the
/// others, whenever and wherever it is made and whatever challenge it answers, is answered that its
/// factor is invalid, if nothing else is wrong with it. In the end there is the session of the first
/// login and no other new one; of the challenges only that of the first is consumed; the trusted
/// device that the first created is the only active one of its account on its device; and the code
/// is used, or its time step stored, where it is held.
pub proof fn one_code_serves_one_login(
    database: DatabaseModel,
    rows: Seq<LockedRecoveryCode>,
    rows_after: Seq<LockedRecoveryCode>,
    accepted_step: spec_fn(Option<u64>, u64) -> Option<u64>,
    first: LoginFinishCommand,
    first_facts: LoginFinishFacts,
    others: Seq<(LoginFinishCommand, LoginFinishFacts)>,
)
    requires
        login_finish_end(first, first_facts) is None,
        forall|i: int|
            0 <= i < others.len() ==> {
                let other = #[trigger] others[i];
                &&& only_factor_open(other.0, other.1)
                &&& facts_challenge(other.1).risk_challenge_id != facts_challenge(
                    first_facts,
                ).risk_challenge_id
                &&& same_recovery_code(rows, rows_after, first, first_facts, other.0, other.1)
                    || same_totp_code(accepted_step, first, first_facts, other.0, other.1)
            },
    ensures
        forall|i: int|
            0 <= i < others.len() ==> {
                let other = #[trigger] others[i];
                &&& login_finish_end(other.0, other.1) == Some(
                    factor_rejection(other.0, facts_challenge(other.1)),
                )
                &&& end_answer(login_finish_end(other.0, other.1)->0) == Ok::<_, StoreError>(
                    LoginFinishOutcome::InvalidFactor,
                )
            },
        ({
            let now = first.now_epoch_millis;
            let accepted = accepted_proof(first, first_facts);
            let consumed = consumed_login_challenge(facts_challenge(first_facts), now);
            let end = after_login_ends(
                after_login(
                    database,
                    first,
                    consumed,
                    accepted,
                    login_revocations(first, first_facts),
                ),
                others,
            );
            &&& end.account_sessions == database.account_sessions.insert(
                first.account_session@.account_session_id,
                first.account_session@,
            )
            &&& end.risk_challenges.contains_key(consumed.risk_challenge_id)
            &&& end.risk_challenges[consumed.risk_challenge_id] == consumed
            &&& forall|i: int|
                0 <= i < others.len() ==> {
                    let id = facts_challenge((#[trigger] others[i]).1).risk_challenge_id;
                    end.risk_challenges.contains_key(id) && end.risk_challenges[id].status
                        != RiskChallengeStatus::Consumed
                }
            &&& end.trusted_controller_devices == trusts_after_login(
                database.trusted_controller_devices,
                first,
                accepted,
            )
            &&& first.trusted_device_to_create is Some ==> {
                let created = first.trusted_device_to_create->0@;
                &&& end.trusted_controller_devices.contains_key(created.trusted_device_id)
                &&& forall|key: Seq<char>| #[trigger]
                    end.trusted_controller_devices.contains_key(key) && active_trust_of(
                        end.trusted_controller_devices[key],
                        first.account_id@,
                        first.device_id@,
                    ) ==> key == created.trusted_device_id
            }
            &&& end.recovery_codes == codes_after_proof(database.recovery_codes, accepted, now)
            &&& end.mfa_factors == factors_after_proof(database.mfa_factors, accepted)
        }),
{
    let accepted = accepted_proof(first, first_facts);
    assert forall|i: int| 0 <= i < others.len() implies login_finish_end(
        (#[trigger] others[i]).0,
        others[i].1,
    ) == Some(factor_rejection(others[i].0, facts_challenge(others[i].1))) by {
        let other = others[i];
        if same_recovery_code(rows, rows_after, first, first_facts, other.0, other.1) {
            a_recovery_code_serves_one_login(
                database,
                rows,
                first,
                first_facts,
                rows_after,
                other.0,
                other.1,
            );
        } else {
            a_totp_code_serves_one_login(
                database,
                accepted_step,
                first,
                first_facts,
                other.0,
                other.1,
            );
        }
    }
    let after_first = after_login(
        database,
        first,
        consumed_login_challenge(facts_challenge(first_facts), first.now_epoch_millis),
        accepted,
        login_revocations(first, first_facts),
    );
    lemma_refused_logins(
        after_first,
        others,
        facts_challenge(first_facts).risk_challenge_id,
    );
    if first.trusted_device_to_create is Some {
        let trusts = database.trusted_controller_devices;
        a_created_trust_replaces_the_others(trusts, first, accepted, Seq::empty());
        assert forall|key: Seq<char>| #[trigger]
            trusts_after_login(trusts, first, accepted).contains_key(key) && active_trust_of(
                trusts_after_login(trusts, first, accepted)[key],
                first.account_id@,
                first.device_id@,
            ) implies key == first.trusted_device_to_create->0@.trusted_device_id by {
            a_created_trust_replaces_the_others(trusts, first, accepted, key);
        }
    }
}

/// Whether a trusted device is an active one of an account on a device.
pub open spec fn active_trust_of(
    trusted: TrustedControllerDeviceModel,
    account_id: Seq<char>,
    device_id: Seq<char>,
) -> bool {
    trusted.account_id == account_id && trusted.controller_device_id == device_id && trusted.status
        == TrustedDeviceStatus::Active
}

proof fn lemma_refused_logins(
    database: DatabaseModel,
    logins: Seq<(LoginFinishCommand, LoginFinishFacts)>,
    kept: Seq<char>,
)
    requires
        forall|i: int|
            0 <= i < logins.len() ==> {
                let login = #[trigger] logins[i];
                &&& login_finish_end(login.0, login.1) == Some(
                    factor_rejection(login.0, facts_challenge(login.1)),
                )
                &&& facts_challenge(login.1).status == RiskChallengeStatus::Issued
                &&& facts_challenge(login.1).risk_challenge_id != kept
            },
    ensures
        ({
            let end = after_login_ends(database, logins);
            &&& end == (DatabaseModel {
                risk_challenges: end.risk_challenges,
                audit_logs: end.audit_logs,
                ..database
            })
            &&& end.risk_challenges.contains_key(kept) == database.risk_challenges.contains_key(
                kept,
            )
            &&& end.risk_challenges[kept] == database.risk_challenges[kept]
            &&& forall|i: int|
                0 <= i < logins.len() ==> {
                    let id = facts_challenge((#[trigger] logins[i]).1).risk_challenge_id;
                    end.risk_challenges.contains_key(id) && end.risk_challenges[id].status
                        != RiskChallengeStatus::Consumed
                }
        }),
    decreases logins.len(),
{
    if logins.len() > 0 {
        let fewer = logins.drop_last();
        assert forall|i: int| 0 <= i < fewer.len() implies #[trigger] fewer[i] == logins[i] by {}
        lemma_refused_logins(database, fewer, kept);
        let last = logins.last();
        assert(last == logins[logins.len() - 1]);
        let before = after_login_ends(database, fewer);
        let end = after_login_ends(database, logins);
        let refused = rejected_challenge(facts_challenge(last.1));
        assert(end.risk_challenges == before.risk_challenges.insert(
            refused.risk_challenge_id,
            refused,
        ));
        assert forall|i: int| 0 <= i < logins.len() implies {
            let id = facts_challenge((#[trigger] logins[i]).1).risk_challenge_id;
            end.risk_challenges.contains_key(id) && end.risk_challenges[id].status
                != RiskChallengeStatus::Consumed
        } by {
            if i < fewer.len() {
                assert(fewer[i] == logins[i]);
            }
        }
    }
}

/// A login that is to log an entry under a name that is taken, be it one of its own or that of a
/// trusted device that it replaces, conflicts: its challenge, its code or factor, the sessions, the
/// trusted devices and the log stay as they are.
pub proof fn a_login_with_a_taken_audit_id_changes_nothing(
    database: DatabaseModel,
    command: LoginFinishCommand,
    decision: LoginFinishDecision,
    written: Result<(), PersistenceError>,
)
    requires
        ({
            let entries = models(decision.revocation_audits@) + written_entries(
                models(command.audit_entries@),
            );
            audit_ids_unique(database.audit_logs, entries, written) && audit_id_taken(
                database.audit_logs,
                entries,
            )
        }),
    ensures
        answer_after(written, Ok(LoginFinishOutcome::Completed)) == Err::<LoginFinishOutcome, _>(
            StoreError::Conflict,
        ),
        state_after(
            written,
            database,
            after_login(
                database,
                command,
                decision.challenge@,
                decision.accepted@,
                models(decision.revocation_audits@),
            ),
        ) == database,
{
}

/// A challenge after a number of failed attempts.
pub open spec fn after_failures(challenge: RiskChallengeModel, failures: nat) -> RiskChallengeModel
    decreases failures,
{
    if failures == 0 {
        challenge
    } else {
        rejected_challenge(after_failures(challenge, (failures - 1) as nat))
    }
}

/// Each failed attempt costs one, and with the last one the challenge has failed for good: no
/// request finds it open any more, however many follow.
pub proof fn failed_attempts_run_out(
    command: LoginFinishCommand,
    challenge: RiskChallengeModel,
    failures: nat,
)
    requires
        challenge.status == RiskChallengeStatus::Issued,
        challenge.attempts_remaining > 0,
    ensures
        failures < challenge.attempts_remaining ==> after_failures(challenge, failures)
            == (RiskChallengeModel {
            attempts_remaining: (challenge.attempts_remaining - failures) as u8,
            ..challenge
        }),
        failures >= challenge.attempts_remaining ==> after_failures(challenge, failures)
            == (RiskChallengeModel {
            attempts_remaining: 0,
            status: RiskChallengeStatus::Failed,
            ..challenge
        }),
        failures >= challenge.attempts_remaining ==> !challenge_open_for(
            command,
            after_failures(challenge, failures),
        ),
    decreases failures,
{
    if failures > 0 {
        failed_attempts_run_out(command, challenge, (failures - 1) as nat);
    }
}

/// A login from a trusted device does not extend the trust: of the trusted device only the time of
/// its last use changes.
pub proof fn a_trusted_login_does_not_extend_the_trust(
    command: LoginFinishCommand,
    facts: LoginFinishFacts,
)
    requires
        login_finish_end(command, facts) is None,
        accepted_proof(command, facts) is TrustedDevice,
    ensures
        accepted_proof(command, facts)->TrustedDevice_0 == (TrustedControllerDeviceModel {
            last_used_at_epoch_millis: Some(command.now_epoch_millis),
            ..facts.trusted->0->Ok_0@
        }),
        accepted_proof(command, facts)->TrustedDevice_0.expires_at_epoch_millis
            == facts.trusted->0->Ok_0@.expires_at_epoch_millis,
{
}

/// After a login that created a trusted device, it is the only active one of its account on its
/// device.
pub proof fn a_created_trust_replaces_the_others(
    trusts: Map<Seq<char>, TrustedControllerDeviceModel>,
    command: LoginFinishCommand,
    accepted: AcceptedProofModel,
    key: Seq<char>,
)
    requires
        command.trusted_device_to_create is Some,
    ensures
        ({
            let after = trusts_after_login(trusts, command, accepted);
            let created = command.trusted_device_to_create->0@;
            &&& after.contains_key(created.trusted_device_id)
            &&& after[created.trusted_device_id] == created
            &&& after.contains_key(key) && after[key].account_id == command.account_id@
                && after[key].controller_device_id == command.device_id@ && after[key].status
                == TrustedDeviceStatus::Active ==> key == created.trusted_device_id
        }),
{
}

/// A login that is not complete issues nothing: no session, no grant, no used factor or code; and
/// it is not answered as complete.
pub proof fn an_incomplete_login_issues_nothing(
    database: DatabaseModel,
    command: LoginFinishCommand,
    facts: LoginFinishFacts,
)
    requires
        login_finish_end(command, facts) is Some,
    ensures
        ({
            let end = login_finish_end(command, facts)->0;
            let after = after_login_end(database, end);
            &&& end_answer(end) != Ok::<LoginFinishOutcome, StoreError>(
                LoginFinishOutcome::Completed,
            )
            &&& after.account_sessions == database.account_sessions
            &&& after.device_enrollment_grants == database.device_enrollment_grants
            &&& after.mfa_factors == database.mfa_factors
            &&& after.recovery_codes == database.recovery_codes
        }),
{
}

/// A login is not completed from a device whose key was revoked, or that was blocked or removed,
/// after the challenge was issued: it is rejected and costs an attempt.
pub proof fn a_device_that_lost_its_authority_cannot_log_in(
    command: LoginFinishCommand,
    facts: LoginFinishFacts,
)
    requires
        opening_end(
            command,
            facts.account,
            facts.authority,
            facts.binding_valid,
            facts.artifacts,
        ) is None,
        command.persistent_device_id is Some,
        facts.device is None || facts.device->0.public_key_revoked_at_epoch_millis is Some
            || !authorizable_name(facts.device->0.status@),
    ensures
        login_finish_end(command, facts) == Some(
            rejection(command, facts_challenge(facts), "device_authority_changed"@),
        ),
{
}

/// A change of the account after the challenge was issued, such as a new password, rejects the
/// login and costs an attempt.
pub proof fn a_changed_account_cannot_finish_a_login(
    command: LoginFinishCommand,
    facts: LoginFinishFacts,
)
    requires
        facts.account is Some,
        facts.account->0.updated_at_epoch_millis >= 0,
        facts.account->0.updated_at_epoch_millis != command.account_updated_at_epoch_millis,
        facts.authority is Some,
        facts.authority->0 is Ok,
        challenge_open_for(command, facts_challenge(facts)),
        facts.binding_valid,
        facts.artifacts is Ok,
        command.now_epoch_millis < facts_challenge(facts).expires_at_epoch_millis,
    ensures
        login_finish_end(command, facts) == Some(
            rejection(command, facts_challenge(facts), "account_security_changed"@),
        ),
{
}

} // verus!
