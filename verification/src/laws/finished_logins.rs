use crate::account::{Account, AccountSession, MfaFactor, MfaFactorModel, RecoveryCode};
use crate::api::ApiError;
use crate::audit::{AuditEntry, AuditEntryModel};
use crate::auth::{AuthPolicy, TokenResponse};
use crate::challenge::{
    LoginChallengeAuthority, LoginDeviceState, RiskChallenge, RiskChallengeModel,
    RiskChallengeStatus,
};
use crate::database::Database;
use crate::device::{
    Device, TrustedControllerDevice, TrustedControllerDeviceModel, TrustedDeviceStatus,
};
use crate::device_requests::{grant_tokens_round_trip, parse_enrollment_grant, plain_name};
use crate::hash::sha256_digest;
use crate::laws::challenges::proof_is_spent;
use crate::login::{
    build_login_challenge, identify_login_device, plan_login, LoginBindings, LoginDevice, LoginPlan,
    LoginRequest,
};
use crate::login_answer::{
    a_login_brings_records_that_fit, after_finish, build_login_finish, check_finish_authority,
    check_finish_request, finish_context_is_valid, grant_token, login_finish_response,
    login_mfa_verified, refused_attempt_entry, trust_decision, AfterFinish, DecodedFinish,
    FinishBindings, FinishObservations, LoginDraws, LoginFinishRequest, LoginFinishResponse,
};
use crate::login_finish::{
    accept_login_totp, check_login_device, find_action, finish_login, first_of_action,
    login_entries_to_write, login_records_are_valid, open_login_challenge, publish_login,
    publish_login_end, reject_locked_login_challenge, select_login_proof, use_trusted_device,
    written_entries, LoginFinishCommand, LoginFinishDecision, LoginFinishEnd, LoginFinishEndModel,
    LoginFinishFacts, LoginFinishOutcome, LoginProof,
};
use crate::registration::{
    register_device, DeviceRegistrationCommand, RegistrationDecision, RegistrationFacts,
};
use crate::rules::TOTP_TRUST_TTL_MILLIS;
use crate::store::{PersistenceError, StoreError};
use crate::table::models;
use crate::text::{blank, opt_text, texts};
use vstd::prelude::*;
use vstd::utf8::encode_utf8;

verus! {

/// Whether nothing but the proof stands between a request and the end of its login: the account is
/// active and unchanged, its login challenge is open, unexpired and the one that the request answers,
/// and the device is as it was, registered with its current key or not at all.
pub open spec fn only_the_proof_is_open(
    command: LoginFinishCommand,
    facts: LoginFinishFacts,
) -> bool {
    let account = facts.account->0;
    let challenge = facts.authority->0->Ok_0@.challenge;
    let device = facts.device->0;
    &&& facts.account is Some
    &&& account.status@ == "active"@
    &&& account.updated_at_epoch_millis >= 0
    &&& account.updated_at_epoch_millis == command.account_updated_at_epoch_millis
    &&& facts.authority is Some
    &&& facts.authority->0 is Ok
    &&& challenge.account_id == command.account_id@
    &&& challenge.device_id == opt_text(command.persistent_device_id)
    &&& challenge.purpose == "login_mfa"@
    &&& challenge.status == RiskChallengeStatus::Issued
    &&& challenge.attempts_remaining > 0
    &&& challenge.operation_binding_hash == command.challenge_binding_hash
    &&& challenge.required_methods == texts(command.required_factors@)
    &&& challenge.expires_at_epoch_millis > command.now_epoch_millis
    &&& facts.binding_valid
    &&& facts.artifacts is Ok
    &&& command.persistent_device_id is None ==> command.public_key_id is None
        && command.public_key_version == 0 && facts.device is None
    &&& command.persistent_device_id is Some ==> {
        &&& facts.device is Some
        &&& device.account_id@ == command.account_id@
        &&& (device.status@ == "online"@ || device.status@ == "offline"@ || device.status@
            == "busy"@)
        &&& device.public_key_revoked_at_epoch_millis is None
        &&& command.public_key_id is Some
        &&& device.public_key_id@ == command.public_key_id->0@
        &&& device.public_key_version == command.public_key_version
        &&& device.public_key@.len() == 32
        &&& sha256_digest(device.public_key@) == command.device_public_key_fingerprint@
    }
}

/// Whether a login is proved as its account and challenge require: by the password alone where the
/// account has no second factor, by a trusted device of this account, device and key that is active
/// and unexpired, by a one-time code that matched, or by a recovery code that was found.
pub open spec fn login_is_proved(command: LoginFinishCommand, facts: LoginFinishFacts) -> bool {
    let trusted = facts.trusted->0->Ok_0@;
    let kind = command.factor_kind->0@;
    let nothing_asked = command.required_factors@.len() == 0 && command.factor_kind is None
        && command.factor_code is None;
    let factor_given = command.required_factors@.len() > 0 && facts.mfa_enabled
        && command.trusted_device_id_to_use is None && command.factor_kind is Some
        && command.factor_code is Some && texts(command.required_factors@).contains(kind);
    ||| nothing_asked && !facts.mfa_enabled && command.trusted_device_id_to_use is None
    ||| {
        &&& nothing_asked
        &&& facts.mfa_enabled
        &&& command.trusted_device_id_to_use is Some
        &&& facts.trusted is Some
        &&& facts.trusted->0 is Ok
        &&& trusted.account_id == command.account_id@
        &&& trusted.controller_device_id == command.device_id@
        &&& trusted.status == TrustedDeviceStatus::Active
        &&& trusted.device_fingerprint_hash == command.device_public_key_fingerprint
        &&& trusted.expires_at_epoch_millis > command.now_epoch_millis
    }
    ||| factor_given && kind == "totp"@ && facts.totp_factor is Some && facts.totp_factor->0 is Ok
        && facts.totp_counter is Some
    ||| factor_given && kind == "recovery_code"@ && facts.recovery_code_id is Ok
        && facts.recovery_code_id->Ok_0 is Some
}

proof fn lemma_kinds_differ()
    ensures
        "totp"@ != "recovery_code"@,
{
    reveal_strlit("totp");
    reveal_strlit("recovery_code");
    assert("totp"@.len() != "recovery_code"@.len());
}

/// A login completes exactly if nothing but the proof stands in its way and it is proved, with
/// records that fit it. Its challenge is then used up, and what was accepted is the proof that was
/// given.
pub proof fn a_login_completes_exactly_when_it_is_proved(
    command: &LoginFinishCommand,
    facts: LoginFinishFacts,
    challenge: &RiskChallenge,
    records_fit: bool,
    result: Result<LoginFinishDecision, LoginFinishEnd>,
)
    requires
        call_ensures(finish_login, (command, facts), result),
        call_ensures(login_records_are_valid, (command, challenge), records_fit),
        facts.authority is Some && facts.authority->0 is Ok ==> challenge@
            == facts.authority->0->Ok_0@.challenge,
    ensures
        result is Ok <==> only_the_proof_is_open(*command, facts) && login_is_proved(
            *command,
            facts,
        ) && records_fit,
        result is Ok ==> {
            let used = result->Ok_0.challenge@;
            let held = facts.authority->0->Ok_0@.challenge;
            let accepted = result->Ok_0.accepted@;
            let now = command.now_epoch_millis;
            &&& used.status == RiskChallengeStatus::Consumed
            &&& used.verified_at_epoch_millis == Some(now)
            &&& used.consumed_at_epoch_millis == Some(now)
            &&& used.risk_challenge_id == held.risk_challenge_id
            &&& used.account_id == held.account_id
            &&& used.attempts_remaining == held.attempts_remaining
            &&& used.expires_at_epoch_millis == held.expires_at_epoch_millis
            &&& command.factor_kind is None && !facts.mfa_enabled ==> accepted is Password
            &&& command.factor_kind is None && facts.mfa_enabled ==> accepted is TrustedDevice
                && accepted->TrustedDevice_0.last_used_at_epoch_millis == Some(now)
                && accepted->TrustedDevice_0.trusted_device_id
                == facts.trusted->0->Ok_0@.trusted_device_id
                && accepted->TrustedDevice_0.expires_at_epoch_millis
                == facts.trusted->0->Ok_0@.expires_at_epoch_millis
                && accepted->TrustedDevice_0.status == TrustedDeviceStatus::Active
            &&& command.factor_kind is Some && command.factor_kind->0@ == "totp"@ ==> accepted
                is Totp && accepted->Totp_0.last_used_counter == facts.totp_counter
                && accepted->Totp_0.factor_id == facts.totp_factor->0->Ok_0@.factor_id
                && accepted->Totp_0.account_id == facts.totp_factor->0->Ok_0@.account_id
            &&& command.factor_kind is Some && command.factor_kind->0@ == "recovery_code"@
                ==> accepted is RecoveryCode && accepted->RecoveryCode_0
                == facts.recovery_code_id->Ok_0->0@
        },
{
    lemma_kinds_differ();
}

/// A login that only lacks its proof ends by what was wrong with it. A wrong code costs an attempt
/// and is a failed factor; a factor that was not asked for, or missing where one was, is refused
/// without cost; trust that does not hold is refused, and trust that has run out is recorded as
/// expired.
pub proof fn a_wrong_proof_is_answered(
    command: &LoginFinishCommand,
    facts: LoginFinishFacts,
    result: Result<LoginFinishDecision, LoginFinishEnd>,
)
    requires
        call_ensures(finish_login, (command, facts), result),
        only_the_proof_is_open(*command, facts),
    ensures
        ({
            let held = facts.authority->0->Ok_0@.challenge;
            let kind = command.factor_kind->0@;
            let asked = command.required_factors@.len() > 0;
            let given = command.factor_kind is Some || command.factor_code is Some;
            let offered = command.factor_kind is Some && command.factor_code is Some && texts(
                command.required_factors@,
            ).contains(kind);
            let trust_named = command.trusted_device_id_to_use is Some;
            let trusted = facts.trusted->0->Ok_0@;
            let trust_holds = facts.trusted is Some && facts.trusted->0 is Ok && trusted.account_id
                == command.account_id@ && trusted.controller_device_id == command.device_id@
                && trusted.status == TrustedDeviceStatus::Active
                && trusted.device_fingerprint_hash == command.device_public_key_fingerprint;
            let wrong_code = asked && facts.mfa_enabled && !trust_named && offered && (kind
                == "totp"@ && (facts.totp_factor is None || facts.totp_factor->0 is Ok
                && facts.totp_counter is None) || kind == "recovery_code"@
                && facts.recovery_code_id is Ok && facts.recovery_code_id->Ok_0 is None || kind
                != "totp"@ && kind != "recovery_code"@);
            &&& !asked && given || asked && (trust_named || !facts.mfa_enabled || !offered)
                ==> result is Err && result->Err_0@ == LoginFinishEndModel::Answer(
                LoginFinishOutcome::InvalidFactor,
            )
            &&& !asked && !given && facts.mfa_enabled != trust_named ==> result is Err
                && result->Err_0@ == LoginFinishEndModel::Answer(LoginFinishOutcome::InvalidTrust)
            &&& !asked && !given && facts.mfa_enabled && trust_named && (facts.trusted is None
                || facts.trusted->0 is Ok && !trust_holds) ==> result is Err && result->Err_0@
                == LoginFinishEndModel::Answer(LoginFinishOutcome::InvalidTrust)
            &&& !asked && !given && facts.mfa_enabled && trust_named && trust_holds
                && trusted.expires_at_epoch_millis <= command.now_epoch_millis ==> result is Err
                && result->Err_0@ is TrustExpired && {
                let expired = result->Err_0@->TrustExpired_0;
                &&& expired.status == TrustedDeviceStatus::Expired
                &&& expired.trusted_device_id == trusted.trusted_device_id
                &&& expired.account_id == trusted.account_id
                &&& expired.expires_at_epoch_millis == trusted.expires_at_epoch_millis
                &&& expired.revoked_at_epoch_millis == trusted.revoked_at_epoch_millis
            }
            &&& wrong_code ==> result is Err && result->Err_0@ is Challenge && {
                let end = result->Err_0@;
                &&& end->outcome == LoginFinishOutcome::InvalidFactor
                &&& costs_one_attempt(held, end->Challenge_challenge)
                &&& end->Challenge_audit == command.failure_audit_entry@
            }
        }),
{
    lemma_kinds_differ();
}

/// Whether a challenge lost one attempt, and failed with the last one, and is otherwise as before.
pub open spec fn costs_one_attempt(before: RiskChallengeModel, after: RiskChallengeModel) -> bool {
    &&& after.attempts_remaining == before.attempts_remaining - 1
    &&& before.attempts_remaining == 1 ==> after.status == RiskChallengeStatus::Failed
    &&& before.attempts_remaining > 1 ==> after.status == RiskChallengeStatus::Issued
    &&& after.risk_challenge_id == before.risk_challenge_id
    &&& after.account_id == before.account_id
    &&& after.device_id == before.device_id
    &&& after.purpose == before.purpose
    &&& after.operation_binding_hash == before.operation_binding_hash
    &&& after.required_methods == before.required_methods
    &&& after.expires_at_epoch_millis == before.expires_at_epoch_millis
    &&& after.verified_at_epoch_millis == before.verified_at_epoch_millis
    &&& after.consumed_at_epoch_millis == before.consumed_at_epoch_millis
}

/// A login whose challenge is not open, is for another account, device, digest or list of factors,
/// or is not there, is answered as an invalid challenge at no cost; one that has run out is recorded
/// as expired.
pub proof fn a_login_needs_its_open_challenge(
    command: &LoginFinishCommand,
    facts: LoginFinishFacts,
    result: Result<LoginFinishDecision, LoginFinishEnd>,
)
    requires
        call_ensures(finish_login, (command, facts), result),
        facts.account is Some ==> facts.account->0.updated_at_epoch_millis >= 0,
        facts.authority is Some ==> facts.authority->0 is Ok,
    ensures
        ({
            let held = facts.authority->0->Ok_0@.challenge;
            let open = held.account_id == command.account_id@ && held.device_id == opt_text(
                command.persistent_device_id,
            ) && held.purpose == "login_mfa"@ && held.status == RiskChallengeStatus::Issued
                && held.attempts_remaining > 0 && held.operation_binding_hash
                == command.challenge_binding_hash && held.required_methods == texts(
                command.required_factors@,
            ) && facts.binding_valid;
            &&& facts.account is None || facts.authority is None || !open ==> result is Err
                && result->Err_0@ == LoginFinishEndModel::Answer(
                LoginFinishOutcome::InvalidChallenge,
            )
            &&& facts.account is Some && facts.authority is Some && open
                && held.expires_at_epoch_millis <= command.now_epoch_millis ==> result is Err
                && result->Err_0@ is Challenge && {
                let end = result->Err_0@;
                let expired = end->Challenge_challenge;
                &&& end->outcome == LoginFinishOutcome::InvalidChallenge
                &&& expired.status == RiskChallengeStatus::Expired
                &&& expired.risk_challenge_id == held.risk_challenge_id
                &&& expired.attempts_remaining == held.attempts_remaining
                &&& expired.account_id == held.account_id
                &&& end->Challenge_audit.reason == Some("expired"@)
                &&& end->Challenge_audit.audit_id
                    == command.failure_audit_entry@.audit_id
                &&& end->Challenge_audit.action
                    == command.failure_audit_entry@.action
            }
        }),
{
}

/// A login whose account was changed or is not active any more, or whose device is no longer what it
/// was, is rejected at the cost of an attempt, with the reason in the log.
pub proof fn a_login_needs_an_unchanged_account_and_device(
    command: &LoginFinishCommand,
    facts: LoginFinishFacts,
    result: Result<LoginFinishDecision, LoginFinishEnd>,
)
    requires
        call_ensures(finish_login, (command, facts), result),
        facts.account is Some,
        facts.account->0.updated_at_epoch_millis >= 0,
        facts.authority is Some,
        facts.authority->0 is Ok,
        facts.binding_valid,
        facts.artifacts is Ok,
        ({
            let held = facts.authority->0->Ok_0@.challenge;
            &&& held.account_id == command.account_id@
            &&& held.device_id == opt_text(command.persistent_device_id)
            &&& held.purpose == "login_mfa"@
            &&& held.status == RiskChallengeStatus::Issued
            &&& held.attempts_remaining > 0
            &&& held.operation_binding_hash == command.challenge_binding_hash
            &&& held.required_methods == texts(command.required_factors@)
            &&& held.expires_at_epoch_millis > command.now_epoch_millis
        }),
    ensures
        ({
            let held = facts.authority->0->Ok_0@.challenge;
            let unchanged = facts.account->0.status@ == "active"@
                && facts.account->0.updated_at_epoch_millis
                == command.account_updated_at_epoch_millis;
            let end = result->Err_0@;
            &&& !unchanged || !only_the_proof_is_open(*command, facts) ==> {
                &&& result is Err
                &&& end is Challenge
                &&& end->outcome == LoginFinishOutcome::Rejected
                &&& costs_one_attempt(held, end->Challenge_challenge)
                &&& end->Challenge_audit.reason == Some(
                    if unchanged {
                        "device_authority_changed"@
                    } else {
                        "account_security_changed"@
                    },
                )
                &&& end->Challenge_audit.audit_id
                    == command.failure_audit_entry@.audit_id
            }
        }),
{
}

/// The stages of a login decide as the whole of it does: the challenge is opened, the device is
/// checked, the kind of proof is chosen and the proof is accepted, each exactly where the whole
/// would go on.
pub proof fn the_stages_of_a_login_agree_with_the_whole(
    command: &LoginFinishCommand,
    facts: LoginFinishFacts,
    opened: Result<RiskChallenge, LoginFinishEnd>,
    challenge: &RiskChallenge,
    checked: Result<(), LoginFinishEnd>,
    selected: Result<LoginProof, LoginFinishEnd>,
)
    requires
        call_ensures(
            open_login_challenge,
            (
                command,
                &facts.account,
                facts.authority,
                facts.binding_valid,
                facts.artifacts,
            ),
            opened,
        ),
        call_ensures(check_login_device, (command, challenge, &facts.device), checked),
        call_ensures(select_login_proof, (command, facts.mfa_enabled), selected),
    ensures
        opened is Ok && checked is Ok <==> only_the_proof_is_open(*command, facts),
        opened is Ok ==> opened->Ok_0@ == facts.authority->0->Ok_0@.challenge,
        opened is Ok && checked is Ok && login_is_proved(*command, facts) ==> selected is Ok,
        selected is Ok && selected->Ok_0 == LoginProof::Password ==> !facts.mfa_enabled
            && command.required_factors@.len() == 0,
        selected is Ok && selected->Ok_0 == LoginProof::TrustedDevice ==> facts.mfa_enabled
            && command.required_factors@.len() == 0 && command.trusted_device_id_to_use is Some,
        selected is Ok && command.required_factors@.len() > 0 ==> facts.mfa_enabled
            && command.factor_kind is Some && command.factor_code is Some
            && command.trusted_device_id_to_use is None,
        selected is Ok && command.required_factors@.len() > 0 ==> (selected->Ok_0
            == LoginProof::Totp <==> command.factor_kind->0@ == "totp"@),
        selected is Ok && command.required_factors@.len() > 0 ==> (selected->Ok_0
            == LoginProof::RecoveryCode <==> command.factor_kind->0@ == "recovery_code"@),
        checked is Err ==> checked->Err_0@ is Challenge && checked->Err_0@->outcome
            == LoginFinishOutcome::Rejected,
{
    lemma_kinds_differ();
}

/// Trust and one-time codes are accepted as in the whole of a login.
pub proof fn a_stage_accepts_its_proof(
    command: &LoginFinishCommand,
    challenge: &RiskChallenge,
    trusted: Option<Result<TrustedControllerDevice, String>>,
    used: Result<TrustedControllerDevice, LoginFinishEnd>,
    factor: Option<Result<MfaFactor, String>>,
    counter: Option<u64>,
    accepted: Result<MfaFactor, LoginFinishEnd>,
)
    requires
        call_ensures(use_trusted_device, (command, trusted), used),
        call_ensures(accept_login_totp, (command, challenge, factor, counter), accepted),
    ensures
        used is Ok <==> trusted is Some && trusted->0 is Ok && trusted->0->Ok_0@.account_id
            == command.account_id@ && trusted->0->Ok_0@.controller_device_id == command.device_id@
            && trusted->0->Ok_0@.status == TrustedDeviceStatus::Active
            && trusted->0->Ok_0@.device_fingerprint_hash == command.device_public_key_fingerprint
            && trusted->0->Ok_0@.expires_at_epoch_millis > command.now_epoch_millis,
        used is Ok ==> used->Ok_0@ == (TrustedControllerDeviceModel {
            last_used_at_epoch_millis: Some(command.now_epoch_millis),
            ..trusted->0->Ok_0@
        }),
        accepted is Ok <==> factor is Some && factor->0 is Ok && counter is Some,
        accepted is Ok ==> accepted->Ok_0@ == (MfaFactorModel {
            last_used_counter: counter,
            ..factor->0->Ok_0@
        }),
        factor is None || factor->0 is Ok && counter is None ==> accepted is Err
            && accepted->Err_0@ is Challenge && accepted->Err_0@->outcome
            == LoginFinishOutcome::InvalidFactor && (challenge@.attempts_remaining > 0
            ==> costs_one_attempt(
            challenge@,
            accepted->Err_0@->Challenge_challenge,
        )),
{
}

/// A login that began is finished. While the account and the device stay as they were and the
/// challenge has not run out, a request in the context of its challenge completes the login by the
/// proof that the plan asks for: the password where the account has no second factor, the trusted
/// device that was found, or an accepted code of either kind.
pub proof fn a_planned_login_completes(
    policy: &AuthPolicy,
    account: &Account,
    account_id: &str,
    login: &LoginRequest,
    device_id: &str,
    requested_key: &[u8; 32],
    device: Option<&Device>,
    request_id: &str,
    identified: Result<LoginDevice, ApiError>,
    mfa_enabled: bool,
    trusts: &Vec<TrustedControllerDevice>,
    began: u64,
    plan: LoginPlan,
    protocol_version: u16,
    login_bindings: &LoginBindings,
    authority: LoginChallengeAuthority,
    request: &LoginFinishRequest,
    bindings: &FinishBindings,
    observed: &FinishObservations,
    account_session: AccountSession,
    draws: &LoginDraws,
    now: u64,
    command: LoginFinishCommand,
    facts: LoginFinishFacts,
    result: Result<LoginFinishDecision, LoginFinishEnd>,
)
    requires
        1 <= policy.challenge_attempts,
        1 <= policy.challenge_ttl_seconds <= 300,
        call_ensures(
            identify_login_device,
            (account_id, login, requested_key, device, request_id),
            identified,
        ),
        identified is Ok,
        account_id@ == account@.account_id,
        call_ensures(
            plan_login,
            (policy, device_id, identified->Ok_0, mfa_enabled, trusts, began),
            plan,
        ),
        call_ensures(
            build_login_challenge,
            (policy, account, device_id, protocol_version, &plan, login_bindings),
            authority,
        ),
        call_ensures(
            finish_context_is_valid,
            (request, bindings, &authority, device, observed),
            true,
        ),
        call_ensures(
            build_login_finish,
            (
                request,
                bindings,
                &authority,
                account_session,
                device_id,
                draws,
                request_id,
                now,
            ),
            command,
        ),
        call_ensures(finish_login, (&command, facts), result),
        began <= now < plan.expires_at_epoch_millis,
        now + TOTP_TRUST_TTL_MILLIS <= u64::MAX,
        protocol_version != 0,
        !blank(request.login_challenge_id@),
        !blank(account_id@),
        !blank(device_id@),
        !blank(account_session@.account_session_id),
        !blank(draws.grant_id@),
        facts.account is Some,
        facts.account->0.status@ == "active"@,
        facts.account->0.updated_at_epoch_millis == account@.updated_at_epoch_millis,
        facts.authority is Some,
        facts.authority->0 is Ok,
        facts.authority->0->Ok_0@ == authority@,
        facts.binding_valid,
        facts.artifacts is Ok,
        device is None ==> facts.device is None,
        device is Some ==> {
            let row = facts.device->0;
            &&& facts.device is Some
            &&& row.account_id@ == account_id@
            &&& (row.status@ == "online"@ || row.status@ == "offline"@ || row.status@ == "busy"@)
            &&& row.public_key_revoked_at_epoch_millis is None
            &&& row.public_key_id@ == device->0@.public_key_id
            &&& row.public_key_version == device->0@.public_key_version
            &&& row.public_key@ == device->0@.public_key@
        },
        facts.mfa_enabled == mfa_enabled,
        plan.trusted_device_id is Some ==> {
            let trusted = facts.trusted->0->Ok_0@;
            &&& facts.trusted is Some
            &&& facts.trusted->0 is Ok
            &&& trusted.account_id == account_id@
            &&& trusted.controller_device_id == device_id@
            &&& trusted.status == TrustedDeviceStatus::Active
            &&& trusted.device_fingerprint_hash == plan.device_public_key_fingerprint
            &&& trusted.expires_at_epoch_millis > now
        },
        plan.required_factors@.len() > 0 ==> {
            ||| request.factor->0@ == "totp"@ && facts.totp_factor is Some && facts.totp_factor->0
                is Ok && facts.totp_counter is Some
            ||| request.factor->0@ == "recovery_code"@ && facts.recovery_code_id is Ok
                && facts.recovery_code_id->Ok_0 is Some
        },
    ensures
        result is Ok,
        !mfa_enabled ==> result->Ok_0.accepted@ is Password,
        plan.trusted_device_id is Some ==> result->Ok_0.accepted@ is TrustedDevice,
        plan.required_factors@.len() > 0 && request.factor->0@ == "totp"@
            ==> result->Ok_0.accepted@ is Totp,
        plan.required_factors@.len() > 0 && request.factor->0@ == "recovery_code"@
            ==> result->Ok_0.accepted@ is RecoveryCode,
        device is None ==> command.enrollment_grant is Some && command.trusted_device_to_create
            is None,
        device is Some ==> command.enrollment_grant is None,
        device is Some ==> (command.trusted_device_to_create is Some
            <==> plan.required_factors@.len() > 0),
{
    lemma_kinds_differ();
    let factors = texts(plan.required_factors@);
    assert(factors.len() == plan.required_factors@.len());
    assert(texts(command.required_factors@).len() == command.required_factors@.len());
    if factors.len() > 0 {
        assert(factors == seq!["totp"@, "recovery_code"@]);
        assert(factors.contains(request.factor->0@));
    }
    a_login_brings_records_that_fit(
        *request,
        *bindings,
        authority@,
        device,
        *observed,
        account_session@,
        *draws,
        request_id@,
        now,
        command,
    );
}

/// A request to finish a login is accepted exactly with the supported protocol version, both digests
/// and both nonces, and goes on with these; each refusal says which of them is wrong.
pub proof fn a_finish_request_is_checked(
    request: &LoginFinishRequest,
    decoded: &DecodedFinish,
    supported: u16,
    request_id: &str,
    result: Result<FinishBindings, ApiError>,
)
    requires
        call_ensures(check_finish_request, (request, decoded, supported, request_id), result),
    ensures
        result is Ok <==> request.protocol_version == supported && decoded.request_binding_hash
            is Some && decoded.challenge_binding_hash is Some && decoded.client_nonce is Some
            && decoded.server_nonce is Some,
        result is Ok ==> decoded.request_binding_hash == Some(result->Ok_0.request_binding_hash)
            && decoded.challenge_binding_hash == Some(result->Ok_0.challenge_binding_hash)
            && decoded.client_nonce == Some(result->Ok_0.client_nonce) && decoded.server_nonce
            == Some(result->Ok_0.server_nonce),
        result is Err ==> result->Err_0@.request_id == request_id@,
        request.protocol_version != supported ==> result is Err && result->Err_0@.status == 426
            && result->Err_0@.code == "unsupported_version"@,
        request.protocol_version == supported && (decoded.request_binding_hash is None
            || decoded.challenge_binding_hash is None) ==> result is Err && result->Err_0@.status
            == 400 && result->Err_0@.code == "invalid_login_binding"@,
        request.protocol_version == supported && decoded.request_binding_hash is Some
            && decoded.challenge_binding_hash is Some && decoded.client_nonce is None ==> result
            is Err && result->Err_0@.status == 400 && result->Err_0@.code
            == "invalid_client_nonce"@,
        request.protocol_version == supported && decoded.request_binding_hash is Some
            && decoded.challenge_binding_hash is Some && decoded.client_nonce is Some
            && decoded.server_nonce is None ==> result is Err && result->Err_0@.status == 400
            && result->Err_0@.code == "invalid_server_nonce"@,
{
}

/// A request answers a login challenge exactly if there is one under its name, it is a challenge of
/// a login, and it is bound to the digest of the request.
pub proof fn a_request_answers_its_own_challenge(
    authority: Option<&LoginChallengeAuthority>,
    challenge_binding_hash: &[u8; 32],
    request_id: &str,
    result: Result<(), ApiError>,
)
    requires
        call_ensures(
            check_finish_authority,
            (authority, challenge_binding_hash, request_id),
            result,
        ),
    ensures
        result is Ok <==> authority is Some && authority->0@.challenge.purpose == "login_mfa"@
            && authority->0@.challenge.operation_binding_hash == *challenge_binding_hash,
        result is Err ==> result->Err_0@.status == 403 && result->Err_0@.code
            == "login_verification_failed"@ && result->Err_0@.request_id == request_id@,
{
}

/// A one-time code earns standard trust, a recovery code trust that asks for a step-up, and anything
/// else none.
pub proof fn what_trust_a_factor_earns(
    factor: Option<&str>,
    decision: (Option<&'static str>, Option<&'static str>),
)
    requires
        call_ensures(trust_decision, (factor,), decision),
    ensures
        factor is Some && factor->0@ == "totp"@ ==> decision.0 is Some && decision.0->0@
            == "device_signature_and_mfa"@ && decision.1 is Some && decision.1->0@ == "standard"@,
        factor is Some && factor->0@ == "recovery_code"@ ==> decision.0 is Some && decision.0->0@
            == "device_signature_and_recovery_code"@ && decision.1 is Some && decision.1->0@
            == "high_risk_step_up_required"@,
        factor is None || factor->0@ != "totp"@ && factor->0@ != "recovery_code"@ ==> decision.0
            is None && decision.1 is None,
{
    lemma_kinds_differ();
}

/// The command that finishes a login carries what its challenge was issued for and what the request
/// offers. A device that is not registered gets a grant to register, under the drawn name and
/// secret, that ends with the challenge and is for this account, device, key, session and protocol;
/// with a factor it will also be trusted. A registered device that proved a factor is trusted from
/// now on: for 30 days after a one-time code, and for a day after a recovery code.
pub proof fn a_finished_login_carries_its_context(
    request: &LoginFinishRequest,
    bindings: &FinishBindings,
    authority: &LoginChallengeAuthority,
    account_session: AccountSession,
    device_id: &str,
    draws: &LoginDraws,
    request_id: &str,
    now: u64,
    command: LoginFinishCommand,
)
    requires
        call_ensures(
            build_login_finish,
            (
                request,
                bindings,
                authority,
                account_session,
                device_id,
                draws,
                request_id,
                now,
            ),
            command,
        ),
        now + TOTP_TRUST_TTL_MILLIS <= u64::MAX,
        request.factor is Some ==> request.factor->0@ == "totp"@ || request.factor->0@
            == "recovery_code"@,
    ensures
        ({
            let challenge = authority@.challenge;
            let context = authority@.context;
            let grant = command.enrollment_grant->0@;
            let trusted = command.trusted_device_to_create->0@;
            let pending = context.device_state == LoginDeviceState::PendingEnrollment;
            &&& command.challenge_id@ == request.login_challenge_id@
            &&& command.account_id@ == challenge.account_id
            &&& command.account_updated_at_epoch_millis == context.account_updated_at_epoch_millis
            &&& opt_text(command.persistent_device_id) == challenge.device_id
            &&& command.device_id@ == device_id@
            &&& opt_text(command.public_key_id) == context.public_key_id
            &&& command.public_key_version == context.public_key_version
            &&& command.device_public_key_fingerprint == context.device_public_key_fingerprint
            &&& command.challenge_binding_hash == bindings.challenge_binding_hash
            &&& texts(command.required_factors@) == context.required_factors
            &&& opt_text(command.factor_kind) == opt_text(request.factor)
            &&& opt_text(command.factor_code) == opt_text(request.code)
            &&& opt_text(command.trusted_device_id_to_use) == context.trusted_device_id
            &&& command.account_session@ == account_session@
            &&& command.now_epoch_millis == now
            &&& command.enrollment_grant is Some <==> pending
            &&& command.enrollment_grant is Some ==> {
                &&& grant.grant_id == draws.grant_id@
                &&& grant.grant_secret_hash@ == sha256_digest(encode_utf8(draws.grant_secret@))
                &&& grant.account_id == challenge.account_id
                &&& grant.device_id == device_id@
                &&& grant.device_public_key_fingerprint == context.device_public_key_fingerprint
                &&& grant.login_challenge_id == request.login_challenge_id@
                &&& grant.login_challenge_binding_hash == context.login_challenge_binding_hash
                &&& grant.protocol_version == request.protocol_version
                &&& grant.issued_account_session_id == account_session@.account_session_id
                &&& grant.issued_at_epoch_millis == now
                &&& grant.expires_at_epoch_millis == challenge.expires_at_epoch_millis
                &&& grant.consumed_at_epoch_millis is None
                &&& grant.registration_request_binding_hash is None
                &&& grant.registered_public_key_id is None
                &&& grant.registered_trusted_device_id is None
                &&& grant.establish_trust <==> request.factor is Some
                &&& request.factor is None ==> grant.trust_proof_type is None && grant.trust_level
                    is None
                &&& request.factor is Some && request.factor->0@ == "totp"@
                    ==> grant.trust_proof_type == Some("device_signature_and_mfa"@)
                    && grant.trust_level == Some("standard"@)
                &&& request.factor is Some && request.factor->0@ == "recovery_code"@
                    ==> grant.trust_proof_type == Some("device_signature_and_recovery_code"@)
                    && grant.trust_level == Some("high_risk_step_up_required"@)
            }
            &&& command.trusted_device_to_create is Some <==> !pending && request.factor is Some
            &&& command.trusted_device_to_create is Some ==> {
                &&& trusted.trusted_device_id == draws.trusted_device_id@
                &&& trusted.account_id == challenge.account_id
                &&& trusted.controller_device_id == device_id@
                &&& trusted.device_fingerprint_hash == context.device_public_key_fingerprint
                &&& trusted.status == TrustedDeviceStatus::Active
                &&& trusted.created_at_epoch_millis == now
                &&& trusted.last_used_at_epoch_millis is None
                &&& trusted.revoked_at_epoch_millis is None
                &&& request.factor->0@ == "totp"@ ==> trusted.expires_at_epoch_millis == now
                    + 2_592_000_000 && trusted.trust_proof_type == "device_signature_and_mfa"@
                    && trusted.trust_level == "standard"@
                &&& request.factor->0@ == "recovery_code"@ ==> trusted.expires_at_epoch_millis
                    == now + 86_400_000 && trusted.trust_proof_type
                    == "device_signature_and_recovery_code"@ && trusted.trust_level
                    == "high_risk_step_up_required"@
            }
        }),
{
    lemma_kinds_differ();
}

/// What a finished login logs: that the challenge succeeded and the login did, then that the device
/// is trusted, where a registered device proved a factor, then that a recovery code was used, where
/// one was. Each entry has the name that was drawn for it and names the account; a failure would be
/// logged as one.
pub proof fn a_finished_login_is_logged(
    request: &LoginFinishRequest,
    bindings: &FinishBindings,
    authority: &LoginChallengeAuthority,
    account_session: AccountSession,
    device_id: &str,
    draws: &LoginDraws,
    request_id: &str,
    now: u64,
    command: LoginFinishCommand,
)
    requires
        call_ensures(
            build_login_finish,
            (
                request,
                bindings,
                authority,
                account_session,
                device_id,
                draws,
                request_id,
                now,
            ),
            command,
        ),
    ensures
        ({
            let entries = models(command.audit_entries@);
            let account = Some(authority@.challenge.account_id);
            let registered = authority@.context.device_state == LoginDeviceState::Registered;
            let trusts = registered && request.factor is Some;
            let recovers = request.factor is Some && request.factor->0@ == "recovery_code"@;
            let failure = command.failure_audit_entry@;
            &&& entries.len() == 2 + (if trusts {
                1int
            } else {
                0int
            }) + (if recovers {
                1int
            } else {
                0int
            })
            &&& entries[0].action == "mfa_challenge_succeeded"@
            &&& entries[0].audit_id == draws.challenge_audit_id@
            &&& entries[1].action == "login_succeeded"@
            &&& entries[1].audit_id == draws.login_audit_id@
            &&& trusts ==> entries[2].action == "trusted_device_added"@ && entries[2].audit_id
                == draws.trust_audit_id@ && entries[2].target_device_id == Some(device_id@)
            &&& recovers ==> entries.last().action == "mfa_recovery_code_used"@
                && entries.last().audit_id == draws.recovery_audit_id@
            &&& forall|i: int|
                0 <= i < entries.len() ==> (#[trigger] entries[i]).actor_account_id == account
                    && entries[i].result == "success"@ && entries[i].request_id == request_id@
                    && entries[i].created_at_epoch_millis == now
            &&& registered ==> entries[0].actor_device_id == Some(device_id@)
                && entries[1].actor_device_id == Some(device_id@)
            &&& !registered ==> entries[0].actor_device_id is None && entries[1].actor_device_id
                is None
            &&& failure.action == "mfa_challenge_failed"@
            &&& failure.result == "failure"@
            &&& failure.reason == Some("verification_failed"@)
            &&& failure.audit_id == draws.failure_audit_id@
            &&& failure.actor_account_id == account
            &&& failure.request_id == request_id@
            &&& failure.created_at_epoch_millis == now
        }),
{
}

/// The grant of a finished login registers its device: the token that the caller is given splits
/// into the name and the secret of the grant, and a registration with that secret, from the session
/// of the login, for its device and key, fits the grant until it expires.
pub proof fn an_issued_grant_registers_its_device(
    request: &LoginFinishRequest,
    bindings: &FinishBindings,
    authority: &LoginChallengeAuthority,
    account_session: AccountSession,
    device_id: &str,
    draws: &LoginDraws,
    request_id: &str,
    now: u64,
    command: LoginFinishCommand,
    tokens: TokenResponse,
    response: LoginFinishResponse,
    value: &str,
    parsed: Result<(&str, &str), ApiError>,
    registration: &DeviceRegistrationCommand,
    facts: RegistrationFacts,
    result: Result<RegistrationDecision, StoreError>,
)
    requires
        call_ensures(
            build_login_finish,
            (
                request,
                bindings,
                authority,
                account_session,
                device_id,
                draws,
                request_id,
                now,
            ),
            command,
        ),
        command.enrollment_grant is Some,
        request.factor is None,
        call_ensures(login_finish_response, (tokens, &command.enrollment_grant, draws), response),
        response.device_enrollment_grant is Some ==> value@ == response.device_enrollment_grant->0@,
        plain_name(draws.grant_id@),
        plain_name(draws.grant_secret@),
        call_ensures(parse_enrollment_grant, (value, request_id), parsed),
        call_ensures(register_device, (registration, facts), result),
        facts.grant is Some,
        facts.grant->0 is Ok,
        facts.grant->0->Ok_0@ == command.enrollment_grant->0@,
        facts.authority is Ok,
        facts.signature_valid,
        facts.session_mfa_verified is Some,
        !facts.device_taken,
        facts.result_audit is Ok,
        facts.challenge is Some,
        ({
            let device = registration.device@;
            let row = facts.challenge->0;
            &&& registration.grant_secret_hash@ == sha256_digest(encode_utf8(draws.grant_secret@))
            &&& registration.account_id@ == authority@.challenge.account_id
            &&& registration.account_session_id@ == account_session@.account_session_id
            &&& registration.protocol_version == request.protocol_version
            &&& registration.now_epoch_millis < authority@.challenge.expires_at_epoch_millis
            &&& registration.signature_proof.timestamp_epoch_millis == registration.now_epoch_millis
            &&& device.account_id == registration.account_id@
            &&& device.device_id == device_id@
            &&& device_id@.len() > 0
            &&& device.public_key_version == 1
            &&& device.public_key_revoked_at_epoch_millis is None
            &&& device.created_at_epoch_millis <= registration.now_epoch_millis
            &&& device.created_at_epoch_millis <= device.updated_at_epoch_millis
            &&& sha256_digest(device.public_key@)
                == authority@.context.device_public_key_fingerprint@
            &&& row.account_id@ == authority@.challenge.account_id
            &&& row.purpose@ == "login_mfa"@
            &&& row.status@ == "consumed"@
            &&& row.consumed_at_epoch_millis is Some
            &&& row.login_device_id@ == device_id@
            &&& row.login_device_public_key_fingerprint@
                == authority@.context.device_public_key_fingerprint@
            &&& row.login_protocol_version == request.protocol_version
            &&& row.operation_binding_hash@ == authority@.context.login_challenge_binding_hash@
        }),
    ensures
        response.tokens == tokens,
        response.device_enrollment_grant is Some,
        response.device_enrollment_grant_expires_at_epoch_millis == Some(
            authority@.challenge.expires_at_epoch_millis,
        ),
        parsed is Ok,
        parsed->Ok_0.0@ == draws.grant_id@,
        parsed->Ok_0.1@ == draws.grant_secret@,
        result is Ok,
        result->Ok_0 is Created,
{
    grant_tokens_round_trip(draws.grant_id@, draws.grant_secret@);
    let grant = command.enrollment_grant->0@;
    assert(grant.grant_secret_hash@ == registration.grant_secret_hash@);
    assert(grant.grant_secret_hash =~= registration.grant_secret_hash);
    assert(facts.challenge->0.operation_binding_hash@.len() == 32);
    assert(facts.challenge->0.login_device_public_key_fingerprint@.len() == 32);
}

/// A login without a grant gives its caller the tokens and no grant.
pub proof fn a_login_without_a_grant_gives_none(
    tokens: TokenResponse,
    draws: &LoginDraws,
    response: LoginFinishResponse,
    grant_id: &str,
    grant_secret: &str,
    token: String,
)
    requires
        call_ensures(login_finish_response, (tokens, &None, draws), response),
        call_ensures(grant_token, (grant_id, grant_secret), token),
    ensures
        response.tokens == tokens,
        response.device_enrollment_grant is None,
        response.device_enrollment_grant_expires_at_epoch_millis is None,
        token@ == grant_id@ + "."@ + grant_secret@,
{
}

/// The session of a login passed a second factor exactly if a factor was given or the device was
/// trusted.
pub proof fn a_login_passed_a_second_factor(
    request: &LoginFinishRequest,
    authority: &LoginChallengeAuthority,
    verified: bool,
)
    requires
        call_ensures(login_mfa_verified, (request, authority), verified),
    ensures
        verified <==> request.factor is Some || authority@.context.trusted_device_id is Some,
{
}

/// An attempt that is refused before its proof is looked at is logged as a failure of the account on
/// the challenge's device.
pub proof fn a_refused_attempt_is_logged(
    authority: &LoginChallengeAuthority,
    audit_id: String,
    request_id: &str,
    now: u64,
    entry: AuditEntry,
)
    requires
        call_ensures(refused_attempt_entry, (authority, audit_id, request_id, now), entry),
    ensures
        entry@.audit_id == audit_id@,
        entry@.action == "mfa_challenge_failed"@,
        entry@.result == "failure"@,
        entry@.reason == Some("verification_failed"@),
        entry@.actor_account_id == Some(authority@.challenge.account_id),
        entry@.actor_device_id == authority@.challenge.device_id,
        entry@.request_id == request_id@,
        entry@.created_at_epoch_millis == now,
{
}

/// Only a completed login is answered with tokens. A failed factor and a rejection have cost their
/// attempt and are refused; anything else costs one more and is refused.
pub proof fn only_a_completed_login_is_answered(outcome: LoginFinishOutcome, next: AfterFinish)
    requires
        call_ensures(after_finish, (outcome,), next),
    ensures
        next == AfterFinish::Respond <==> outcome == LoginFinishOutcome::Completed,
        next == AfterFinish::Refuse <==> outcome == LoginFinishOutcome::InvalidFactor || outcome
            == LoginFinishOutcome::Rejected,
        next == AfterFinish::CountAndRefuse <==> outcome == LoginFinishOutcome::InvalidChallenge
            || outcome == LoginFinishOutcome::InvalidTrust,
{
}

/// A published login holds its session, its used challenge, its grant and the trust it brought,
/// spends what proved it, and logs the revocations of the trust that it replaces before its own
/// entries. Every other session, challenge and grant stays as it is.
pub proof fn a_completed_login_is_published(
    database: &mut Database,
    command: &LoginFinishCommand,
    decision: LoginFinishDecision,
    written: &Result<(), PersistenceError>,
    answer: Result<LoginFinishOutcome, StoreError>,
    other: Seq<char>,
)
    requires
        call_ensures(publish_login, (database, command, decision, written), answer),
    ensures
        *written is Err ==> answer is Err && final(database)@ == old(database)@,
        *written is Ok ==> answer == Ok::<_, StoreError>(LoginFinishOutcome::Completed),
        *written is Ok ==> {
            let before = old(database)@;
            let after = final(database)@;
            let session = command.account_session@;
            let challenge = decision.challenge@;
            let accepted = decision.accepted@;
            let now = command.now_epoch_millis;
            let trusts = before.trusted_controller_devices;
            &&& after.account_sessions.contains_key(session.account_session_id)
            &&& after.account_sessions[session.account_session_id] == session
            &&& other != session.account_session_id ==> after.account_sessions.contains_key(other)
                == before.account_sessions.contains_key(other) && after.account_sessions[other]
                == before.account_sessions[other]
            &&& after.risk_challenges.contains_key(challenge.risk_challenge_id)
            &&& after.risk_challenges[challenge.risk_challenge_id] == challenge
            &&& other != challenge.risk_challenge_id ==> after.risk_challenges.contains_key(other)
                == before.risk_challenges.contains_key(other) && after.risk_challenges[other]
                == before.risk_challenges[other]
            &&& command.enrollment_grant is Some ==> after.device_enrollment_grants.contains_key(
                command.enrollment_grant->0@.grant_id,
            ) && after.device_enrollment_grants[command.enrollment_grant->0@.grant_id]
                == command.enrollment_grant->0@
            &&& command.enrollment_grant is None ==> after.device_enrollment_grants
                == before.device_enrollment_grants
            &&& proof_is_spent(
                before.mfa_factors,
                after.mfa_factors,
                before.recovery_codes,
                after.recovery_codes,
                accepted,
                now,
                other,
            )
            &&& command.trusted_device_to_create is Some ==> {
                let created = command.trusted_device_to_create->0@;
                &&& after.trusted_controller_devices.contains_key(created.trusted_device_id)
                &&& after.trusted_controller_devices[created.trusted_device_id] == created
                &&& other != created.trusted_device_id && trusts.contains_key(other) && !(accepted
                    is TrustedDevice) ==> {
                    let trust = after.trusted_controller_devices[other];
                    let replaced = trusts[other].account_id == command.account_id@
                        && trusts[other].controller_device_id == command.device_id@
                        && trusts[other].status == TrustedDeviceStatus::Active;
                    &&& replaced ==> trust.status == TrustedDeviceStatus::Revoked
                        && trust.revoked_at_epoch_millis == Some(now)
                    &&& !replaced ==> trust == trusts[other]
                }
            }
            &&& command.trusted_device_to_create is None && accepted is TrustedDevice ==> {
                let used = accepted->TrustedDevice_0;
                &&& after.trusted_controller_devices[used.trusted_device_id] == used
                &&& other != used.trusted_device_id
                    ==> after.trusted_controller_devices.contains_key(other) == trusts.contains_key(
                    other,
                ) && after.trusted_controller_devices[other] == trusts[other]
            }
            &&& command.trusted_device_to_create is None && !(accepted is TrustedDevice)
                ==> after.trusted_controller_devices == trusts
            &&& after.accounts == before.accounts
            &&& after.devices == before.devices
            &&& after.audit_logs.len() >= before.audit_logs.len()
                + decision.revocation_audits@.len()
            &&& after.audit_logs.take(before.audit_logs.len() as int) == before.audit_logs
            &&& after.audit_logs.subrange(
                before.audit_logs.len() as int,
                (before.audit_logs.len() + decision.revocation_audits@.len()) as int,
            ) == models(decision.revocation_audits@)
        },
{
    if *written is Ok {
        let before = old(database)@.audit_logs;
        let revoked = models(decision.revocation_audits@);
        let entries = written_entries(models(command.audit_entries@));
        let after = final(database)@.audit_logs;
        assert(after == before + revoked + entries);
        assert(after.take(before.len() as int) =~= before);
        assert(after.subrange(before.len() as int, (before.len() + revoked.len()) as int)
            =~= revoked);
    }
}

/// A login that did not complete publishes no more than its failed challenge or its expired trust,
/// and is answered as it ended.
pub proof fn an_ended_login_is_published(
    database: &mut Database,
    end: LoginFinishEnd,
    written: &Result<(), PersistenceError>,
    answer: Result<LoginFinishOutcome, StoreError>,
    other: Seq<char>,
)
    requires
        call_ensures(publish_login_end, (database, end, written), answer),
    ensures
        *written is Err ==> answer is Err && final(database)@ == old(database)@,
        *written is Ok ==> {
            let before = old(database)@;
            let after = final(database)@;
            &&& end is Fail ==> answer == Err::<LoginFinishOutcome, _>(end->Fail_0) && after
                == before
            &&& end is Answer ==> answer == Ok::<_, StoreError>(end->Answer_0) && after == before
            &&& end is TrustExpired ==> answer == Ok::<_, StoreError>(
                LoginFinishOutcome::InvalidTrust,
            )
            &&& end is TrustExpired ==> {
                let trusted = end->TrustExpired_0@;
                &&& after.trusted_controller_devices.contains_key(trusted.trusted_device_id)
                &&& after.trusted_controller_devices[trusted.trusted_device_id] == trusted
                &&& other != trusted.trusted_device_id
                    ==> after.trusted_controller_devices.contains_key(other)
                    == before.trusted_controller_devices.contains_key(other)
                    && after.trusted_controller_devices[other]
                    == before.trusted_controller_devices[other]
                &&& after.risk_challenges == before.risk_challenges
                &&& after.audit_logs == before.audit_logs
            }
            &&& end is Challenge ==> answer == Ok::<_, StoreError>(end->outcome)
            &&& end is Challenge ==> {
                let challenge = end->Challenge_challenge@;
                &&& after.risk_challenges.contains_key(challenge.risk_challenge_id)
                &&& after.risk_challenges[challenge.risk_challenge_id] == challenge
                &&& other != challenge.risk_challenge_id ==> after.risk_challenges.contains_key(
                    other,
                ) == before.risk_challenges.contains_key(other) && after.risk_challenges[other]
                    == before.risk_challenges[other]
                &&& after.audit_logs == before.audit_logs.push(end->Challenge_audit@)
                &&& after.trusted_controller_devices == before.trusted_controller_devices
            }
            &&& after.account_sessions == before.account_sessions
            &&& after.accounts == before.accounts
        },
{
}

/// Of the entries of a login all are written, in order, but those that say that a grant was issued.
pub proof fn a_login_writes_its_entries(
    entries: &Vec<AuditEntry>,
    written: Vec<AuditEntry>,
    at: int,
)
    requires
        call_ensures(login_entries_to_write, (entries,), written),
    ensures
        (forall|i: int|
            0 <= i < entries@.len() ==> (#[trigger] entries@[i])@.action
                != "device_enrollment_grant_issued"@) ==> models(written@) == models(entries@),
        0 <= at < entries@.len() && entries@[at]@.action != "device_enrollment_grant_issued"@
            ==> models(written@).contains(entries@[at]@),
        0 <= at < written@.len() ==> written@[at]@.action != "device_enrollment_grant_issued"@,
        0 <= at < written@.len() ==> models(entries@).contains(written@[at]@),
{
    let all = models(entries@);
    lemma_written_entries(all, at);
    if 0 <= at < entries@.len() {
        assert(all[at] == entries@[at]@);
    }
    if 0 <= at < written@.len() {
        assert(models(written@)[at] == written@[at]@);
    }
    if forall|i: int|
        0 <= i < entries@.len() ==> (#[trigger] entries@[i])@.action
            != "device_enrollment_grant_issued"@ {
        assert forall|i: int| 0 <= i < all.len() implies (#[trigger] all[i]).action
            != "device_enrollment_grant_issued"@ by {
            assert(all[i] == entries@[i]@);
        }
        lemma_all_written(all);
    }
}

proof fn lemma_all_written(entries: Seq<AuditEntryModel>)
    requires
        forall|i: int|
            0 <= i < entries.len() ==> (#[trigger] entries[i]).action
                != "device_enrollment_grant_issued"@,
    ensures
        written_entries(entries) == entries,
    decreases entries.len(),
{
    if entries.len() > 0 {
        lemma_all_written(entries.drop_last());
        assert(entries.last() == entries[entries.len() - 1]);
        assert(entries.drop_last().push(entries.last()) =~= entries);
    }
}

proof fn lemma_written_entries(entries: Seq<AuditEntryModel>, at: int)
    ensures
        0 <= at < entries.len() && entries[at].action != "device_enrollment_grant_issued"@
            ==> written_entries(entries).contains(entries[at]),
        0 <= at < written_entries(entries).len() ==> written_entries(entries)[at].action
            != "device_enrollment_grant_issued"@ && entries.contains(written_entries(entries)[at]),
    decreases entries.len(),
{
    if entries.len() > 0 {
        let fewer = entries.drop_last();
        lemma_written_entries(fewer, at);
        let before = written_entries(fewer);
        let after = written_entries(entries);
        assert(entries.last() == entries[entries.len() - 1]);
        if 0 <= at < entries.len() && entries[at].action != "device_enrollment_grant_issued"@ {
            if at < fewer.len() {
                assert(fewer[at] == entries[at]);
                let k = choose|k: int| 0 <= k < before.len() && before[k] == entries[at];
                assert(after[k] == entries[at]);
            } else {
                assert(after[after.len() - 1] == entries[at]);
            }
        }
        if 0 <= at < after.len() {
            if at < before.len() {
                assert(after[at] == before[at]);
                let k = choose|k: int| 0 <= k < fewer.len() && fewer[k] == before[at];
                assert(entries[k] == before[at]);
            } else {
                assert(after[at] == entries.last());
            }
        }
    }
}

/// The first entry with an action is found, if there is one.
pub proof fn the_first_entry_of_an_action_is_found(
    entries: &Vec<AuditEntry>,
    action: &str,
    found: Option<&AuditEntry>,
    at: int,
)
    requires
        call_ensures(find_action, (entries, action), found),
    ensures
        0 <= at < entries@.len() && entries@[at]@.action == action@ ==> found is Some,
        found is Some ==> found->0@.action == action@,
        found is Some ==> models(entries@).contains(found->0@),
        0 <= at < entries@.len() && entries@[at]@.action == action@ && (forall|i: int|
            0 <= i < at ==> (#[trigger] entries@[i])@.action != action@) ==> found->0@
            == entries@[at]@,
{
    let all = models(entries@);
    lemma_first_of_action(all, action@, 0, at);
    assert(forall|i: int| 0 <= i < all.len() ==> (#[trigger] all[i]) == entries@[i]@);
    if 0 <= at < entries@.len() && (forall|i: int|
        0 <= i < at ==> (#[trigger] entries@[i])@.action != action@) {
        assert forall|i: int| 0 <= i < at implies (#[trigger] all[i]).action != action@ by {
            assert(all[i] == entries@[i]@);
        }
    }
}

proof fn lemma_first_of_action(
    entries: Seq<AuditEntryModel>,
    action: Seq<char>,
    from: int,
    at: int,
)
    requires
        0 <= from,
    ensures
        ({
            let found = first_of_action(entries, action, from);
            &&& from <= at < entries.len() && entries[at].action == action ==> found is Some
            &&& found is Some ==> found->0.action == action && entries.contains(found->0)
            &&& from <= at < entries.len() && entries[at].action == action && (forall|i: int|
                from <= i < at ==> (#[trigger] entries[i]).action != action) ==> found->0
                == entries[at]
        }),
    decreases entries.len() - from,
{
    if from < entries.len() && entries[from].action != action {
        lemma_first_of_action(entries, action, from + 1, at);
    }
}

/// A challenge that a failed attempt is counted on loses just that attempt.
pub proof fn a_locked_challenge_loses_one_attempt(challenge: RiskChallenge, rejected: RiskChallenge)
    requires
        call_ensures(reject_locked_login_challenge, (challenge,), rejected),
        challenge@.attempts_remaining > 0,
    ensures
        costs_one_attempt(challenge@, rejected@),
{
}

} // verus!
