use crate::account::{Account, AccountStatus};
use crate::api::ApiError;
use crate::audit::AuditEntry;
use crate::auth::AuthPolicy;
use crate::challenge::{LoginChallengeAuthority, LoginDeviceState, RiskChallengeStatus};
use crate::device::{
    Device, DeviceLifecycleStatus, TrustedControllerDevice, TrustedControllerDeviceModel,
    TrustedDeviceStatus,
};
use crate::hash::sha256_digest;
use crate::login::{
    build_login_challenge, check_credentials, check_login_request, first_standing,
    identify_login_device, login_failure_entries, plan_login, planned_challenge, risk_decision,
    sanitized_user_agent, LoginBindings, LoginDevice, LoginPlan, LoginRequest,
};
use crate::login_answer::{
    finish_context_fits, finish_context_is_valid, FinishBindings, FinishObservations,
    LoginFinishRequest,
};
use crate::table::models;
use crate::text::{ascii_lower, opt_text, texts, trimmed};
use vstd::prelude::*;
use vstd::utf8::{encode_utf8, is_ascii_chars};

verus! {

/// A login of a device that was not registered when it began is finished in its context exactly
/// when no device is registered under that name now, and the request repeats the challenge's name,
/// its two digests, its two nonces and its protocol version, is seen from the same address with the
/// same user agent, and offers no factor where none is required, else a code of a listed factor.
pub proof fn an_unregistered_device_finishes_in_its_own_context(
    policy: AuthPolicy,
    account_id: Seq<char>,
    account_updated: u64,
    device_id: Seq<char>,
    protocol_version: u16,
    plan: LoginPlan,
    began: LoginBindings,
    request: LoginFinishRequest,
    bindings: FinishBindings,
    device: Option<&Device>,
    observed: FinishObservations,
)
    requires
        plan.device.state == LoginDeviceState::PendingEnrollment,
        plan.device_public_key_fingerprint@ == sha256_digest(plan.device.public_key@),
    ensures
        finish_context_fits(
            request,
            bindings,
            planned_challenge(
                policy,
                account_id,
                account_updated,
                device_id,
                protocol_version,
                plan,
                began,
            ),
            device,
            observed,
        ) <==> {
            &&& device is None
            &&& request.login_challenge_id@ == began.challenge_id@
            &&& request.protocol_version == protocol_version
            &&& bindings.request_binding_hash == began.request_binding_hash
            &&& bindings.challenge_binding_hash == began.challenge_binding_hash
            &&& observed.recomputed_challenge_binding_hash == began.challenge_binding_hash
            &&& bindings.client_nonce == began.client_nonce
            &&& bindings.server_nonce == began.server_nonce
            &&& observed.ip_address_hash == began.ip_address_hash
            &&& observed.user_agent_hash == began.user_agent_hash
            &&& (plan.required_factors@.len() == 0 && request.factor is None && request.code is None
                || plan.required_factors@.len() > 0 && request.factor is Some && request.code is Some
                && request.code->0@.len() > 0 && exists|i: int|
                0 <= i < plan.required_factors@.len() && (#[trigger] plan.required_factors@[i])@
                    == request.factor->0@)
        },
{
    lemma_factor_listed(plan, request);
}

/// A login of a registered device is finished in its context exactly when that device is still
/// registered for the account with the same unrevoked key, still may act, and the request repeats
/// what the challenge was issued with.
pub proof fn a_registered_device_finishes_in_its_own_context(
    policy: AuthPolicy,
    account_id: Seq<char>,
    account_updated: u64,
    device_id: Seq<char>,
    protocol_version: u16,
    plan: LoginPlan,
    began: LoginBindings,
    request: LoginFinishRequest,
    bindings: FinishBindings,
    device: Option<&Device>,
    observed: FinishObservations,
)
    requires
        plan.device.state == LoginDeviceState::Registered,
        plan.device.public_key_id is Some,
        plan.device_public_key_fingerprint@ == sha256_digest(plan.device.public_key@),
    ensures
        finish_context_fits(
            request,
            bindings,
            planned_challenge(
                policy,
                account_id,
                account_updated,
                device_id,
                protocol_version,
                plan,
                began,
            ),
            device,
            observed,
        ) <==> {
            &&& device is Some
            &&& device->0@.account_id == account_id
            &&& (device->0@.status == DeviceLifecycleStatus::Online || device->0@.status
                == DeviceLifecycleStatus::Offline || device->0@.status
                == DeviceLifecycleStatus::Busy)
            &&& device->0@.public_key_id == plan.device.public_key_id->0@
            &&& device->0@.public_key_version == plan.device.public_key_version
            &&& device->0@.public_key == plan.device.public_key
            &&& device->0@.public_key_revoked_at_epoch_millis is None
            &&& request.login_challenge_id@ == began.challenge_id@
            &&& request.protocol_version == protocol_version
            &&& bindings.request_binding_hash == began.request_binding_hash
            &&& bindings.challenge_binding_hash == began.challenge_binding_hash
            &&& observed.recomputed_challenge_binding_hash == began.challenge_binding_hash
            &&& bindings.client_nonce == began.client_nonce
            &&& bindings.server_nonce == began.server_nonce
            &&& observed.ip_address_hash == began.ip_address_hash
            &&& observed.user_agent_hash == began.user_agent_hash
            &&& (plan.required_factors@.len() == 0 && request.factor is None && request.code is None
                || plan.required_factors@.len() > 0 && request.factor is Some && request.code is Some
                && request.code->0@.len() > 0 && exists|i: int|
                0 <= i < plan.required_factors@.len() && (#[trigger] plan.required_factors@[i])@
                    == request.factor->0@)
        },
{
    lemma_factor_listed(plan, request);
}

/// A device that a login was accepted from finishes it: while the device's record stays as it was
/// when the login began, a request that repeats the challenge is in its context.
pub proof fn an_accepted_device_finishes_its_login(
    policy: &AuthPolicy,
    account: &Account,
    account_id: &str,
    login: &LoginRequest,
    device_id: &str,
    requested_key: &[u8; 32],
    device: Option<&Device>,
    request_id: &str,
    identified: Result<LoginDevice, ApiError>,
    mfa_enabled: bool,
    trusts: &Vec<TrustedControllerDevice>,
    now: u64,
    plan: LoginPlan,
    protocol_version: u16,
    began: &LoginBindings,
    authority: LoginChallengeAuthority,
    request: &LoginFinishRequest,
    bindings: &FinishBindings,
    observed: &FinishObservations,
    valid: bool,
)
    requires
        call_ensures(
            identify_login_device,
            (account_id, login, requested_key, device, request_id),
            identified,
        ),
        identified is Ok,
        account_id@ == account@.account_id,
        call_ensures(
            plan_login,
            (policy, device_id, identified->Ok_0, mfa_enabled, trusts, now),
            plan,
        ),
        call_ensures(
            build_login_challenge,
            (policy, account, device_id, protocol_version, &plan, began),
            authority,
        ),
        request.login_challenge_id@ == began.challenge_id@,
        request.protocol_version == protocol_version,
        bindings.request_binding_hash == began.request_binding_hash,
        bindings.challenge_binding_hash == began.challenge_binding_hash,
        observed.recomputed_challenge_binding_hash == began.challenge_binding_hash,
        bindings.client_nonce == began.client_nonce,
        bindings.server_nonce == began.server_nonce,
        observed.ip_address_hash == began.ip_address_hash,
        observed.user_agent_hash == began.user_agent_hash,
        plan.required_factors@.len() == 0 ==> request.factor is None && request.code is None,
        plan.required_factors@.len() > 0 ==> request.factor is Some && request.code is Some
            && request.code->0@.len() > 0 && exists|i: int|
            0 <= i < plan.required_factors@.len() && (#[trigger] plan.required_factors@[i])@
                == request.factor->0@,
        call_ensures(
            finish_context_is_valid,
            (request, bindings, &authority, device, observed),
            valid,
        ),
    ensures
        valid,
{
    lemma_factor_listed(plan, *request);
}

proof fn lemma_factor_listed(plan: LoginPlan, request: LoginFinishRequest)
    ensures
        request.factor is Some ==> (texts(plan.required_factors@).contains(request.factor->0@) <==>
            exists|i: int|
                0 <= i < plan.required_factors@.len() && (#[trigger] plan.required_factors@[i])@
                    == request.factor->0@),
{
    if request.factor is Some {
        let wanted = request.factor->0@;
        let listed = texts(plan.required_factors@);
        assert forall|i: int| 0 <= i < listed.len() implies #[trigger] listed[i]
            == plan.required_factors@[i]@ by {}
        if listed.contains(wanted) {
            let i = choose|i: int| 0 <= i < listed.len() && listed[i] == wanted;
            assert(plan.required_factors@[i]@ == wanted);
        }
        if exists|i: int|
            0 <= i < plan.required_factors@.len() && (#[trigger] plan.required_factors@[i])@
                == wanted {
            let i = choose|i: int|
                0 <= i < plan.required_factors@.len() && (#[trigger] plan.required_factors@[i])@
                    == wanted;
            assert(listed[i] == wanted);
        }
    }
}

/// A login request is accepted exactly with the supported protocol version, a device name of 1 to
/// 128 ASCII characters, a key, a nonce and an address; each refusal says which of them is missing.
pub proof fn a_login_request_is_checked(
    request: &LoginRequest,
    supported: u16,
    public_key: &Option<[u8; 32]>,
    client_nonce: &Option<[u8; 32]>,
    request_id: &str,
    result: Result<String, ApiError>,
)
    requires
        call_ensures(
            check_login_request,
            (request, supported, public_key, client_nonce, request_id),
            result,
        ),
    ensures
        ({
            let address = trimmed(request.email@).map_values(|c: char| ascii_lower(c));
            let versioned = request.protocol_version == supported;
            let named = request.device_id@.len() > 0 && encode_utf8(request.device_id@).len() <= 128
                && is_ascii_chars(request.device_id@);
            let addressed = encode_utf8(address).len() <= 254 && address.contains('@') && address[0]
                != '@' && address.last() != '@';
            &&& result is Ok <==> versioned && named && *public_key is Some && *client_nonce is Some
                && addressed
            &&& result is Ok ==> result->Ok_0@ == address
            &&& result is Err ==> result->Err_0@.request_id == request_id@
            &&& !versioned ==> result is Err && result->Err_0@.status == 426 && result->Err_0@.code
                == "unsupported_version"@
            &&& versioned && !named ==> result is Err && result->Err_0@.status == 400
                && result->Err_0@.code == "invalid_device_id"@
            &&& versioned && named && *public_key is None ==> result is Err
                && result->Err_0@.status == 400 && result->Err_0@.code
                == "invalid_device_public_key"@
            &&& versioned && named && *public_key is Some && *client_nonce is None ==> result is Err
                && result->Err_0@.status == 400 && result->Err_0@.code == "invalid_client_nonce"@
            &&& versioned && named && *public_key is Some && *client_nonce is Some && !addressed
                ==> result is Err && result->Err_0@.status == 400 && result->Err_0@.code
                == "invalid_email"@
        }),
{
}

/// Credentials are accepted exactly for an active account that is not locked, with its password;
/// who is refused is not told which of these failed.
pub proof fn credentials_are_accepted_for_an_active_account(
    account: Option<&Account>,
    locked: bool,
    password_valid: bool,
    request_id: &str,
    result: Result<(), ApiError>,
)
    requires
        call_ensures(check_credentials, (account, locked, password_valid, request_id), result),
    ensures
        result is Ok <==> account is Some && account->0@.status == AccountStatus::Active && !locked
            && password_valid,
        result is Err ==> result->Err_0@.status == 401 && result->Err_0@.code
            == "invalid_credentials"@ && result->Err_0@.message == "email or password is invalid"@
            && result->Err_0@.request_id == request_id@,
{
}

/// A failed login is logged once, and the lock that it brings about is logged before it, where the
/// account is known; neither entry names the account.
pub proof fn a_failed_login_is_logged(
    newly_locked: bool,
    account_known: bool,
    lock_audit_id: String,
    failure_audit_id: String,
    request_id: &str,
    now: u64,
    entries: Vec<AuditEntry>,
)
    requires
        call_ensures(
            login_failure_entries,
            (newly_locked, account_known, lock_audit_id, failure_audit_id, request_id, now),
            entries,
        ),
    ensures
        entries@.len() == if newly_locked && account_known {
            2int
        } else {
            1int
        },
        ({
            let failure = models(entries@).last();
            &&& failure.audit_id == failure_audit_id@
            &&& failure.action == "login_failed"@
            &&& failure.result == "failure"@
            &&& failure.reason == Some("invalid_credentials"@)
            &&& failure.actor_type == "anonymous"@
            &&& failure.actor_account_id is None
            &&& failure.actor_device_id is None
            &&& failure.request_id == request_id@
            &&& failure.created_at_epoch_millis == now
        }),
        newly_locked && account_known ==> {
            let lock = models(entries@)[0];
            &&& lock.audit_id == lock_audit_id@
            &&& lock.action == "account_locked"@
            &&& lock.result == "success"@
            &&& lock.reason == Some("too_many_login_failures"@)
            &&& lock.actor_type == "anonymous"@
            &&& lock.actor_account_id is None
            &&& lock.request_id == request_id@
            &&& lock.created_at_epoch_millis == now
        },
{
    assert(models(entries@).len() == entries@.len());
}

/// A login goes on from a registered device of the account that may act, under its current unrevoked
/// key, and from a device that is not registered, if the request names no key of it; from nowhere
/// else. What is found is that device, in the state that it is in.
pub proof fn a_login_comes_from_a_known_or_a_new_device(
    account_id: &str,
    request: &LoginRequest,
    requested_key: &[u8; 32],
    device: Option<&Device>,
    request_id: &str,
    result: Result<LoginDevice, ApiError>,
)
    requires
        call_ensures(
            identify_login_device,
            (account_id, request, requested_key, device, request_id),
            result,
        ),
    ensures
        device is Some ==> (result is Ok <==> device->0@.account_id == account_id@ && (
        device->0@.status == DeviceLifecycleStatus::Online || device->0@.status
            == DeviceLifecycleStatus::Offline || device->0@.status == DeviceLifecycleStatus::Busy)
            && device->0@.public_key_revoked_at_epoch_millis is None && request.public_key_id
            is Some && request.public_key_id->0@ == device->0@.public_key_id
            && request.public_key_version == device->0@.public_key_version
            && device->0@.public_key == *requested_key),
        device is None ==> (result is Ok <==> request.public_key_id is None
            && request.public_key_version == 0),
        result is Ok ==> {
            let found = result->Ok_0;
            &&& found.public_key == *requested_key
            &&& device is Some <==> found.state == LoginDeviceState::Registered
            &&& device is Some ==> found.public_key_id is Some && found.public_key_id->0@
                == device->0@.public_key_id && found.public_key_version
                == device->0@.public_key_version
            &&& device is None ==> found.public_key_id is None && found.public_key_version == 0
        },
        result is Err ==> result->Err_0@.status == 403 && result->Err_0@.code
            == "device_identity_invalid"@ && result->Err_0@.request_id == request_id@,
{
}

/// A login asks for a second factor exactly if the account has one and the device is not trusted;
/// a device is trusted exactly if it is registered and one of the account's trusted devices is it,
/// active, unexpired and with the fingerprint of its key, and the first such one is used. The login
/// then stays open for the time that the policy gives it.
pub proof fn a_login_asks_for_a_factor_unless_the_device_is_trusted(
    policy: &AuthPolicy,
    device_id: &str,
    device: LoginDevice,
    mfa_enabled: bool,
    trusts: &Vec<TrustedControllerDevice>,
    now: u64,
    plan: LoginPlan,
    at: int,
)
    requires
        policy.challenge_ttl_seconds * 1_000 <= u64::MAX,
        call_ensures(plan_login, (policy, device_id, device, mfa_enabled, trusts, now), plan),
    ensures
        plan.device == device,
        plan.device_public_key_fingerprint@ == sha256_digest(device.public_key@),
        mfa_enabled && plan.trusted_device_id is None ==> texts(plan.required_factors@) == seq![
            "totp"@,
            "recovery_code"@,
        ],
        !mfa_enabled || plan.trusted_device_id is Some ==> plan.required_factors@.len() == 0,
        plan.trusted_device_id is Some ==> mfa_enabled && device.state
            == LoginDeviceState::Registered && exists|i: int|
            0 <= i < trusts@.len() && (#[trigger] trusts@[i])@.trusted_device_id
                == plan.trusted_device_id->0@ && trust_serves(
                trusts@[i]@,
                device_id@,
                plan.device_public_key_fingerprint,
                now,
            ) && forall|j: int|
                0 <= j < i ==> !trust_serves(
                    (#[trigger] trusts@[j])@,
                    device_id@,
                    plan.device_public_key_fingerprint,
                    now,
                ),
        mfa_enabled && device.state == LoginDeviceState::Registered && 0 <= at < trusts@.len()
            && trust_serves(trusts@[at]@, device_id@, plan.device_public_key_fingerprint, now)
            ==> plan.trusted_device_id is Some,
        plan.issued_at_epoch_millis == now,
        now + policy.challenge_ttl_seconds * 1_000 <= u64::MAX ==> plan.expires_at_epoch_millis
            == now + policy.challenge_ttl_seconds * 1_000,
        plan.expires_at_epoch_millis >= now,
{
    assert(texts(plan.required_factors@).len() == plan.required_factors@.len());
    lemma_first_standing(
        models(trusts@),
        device_id@,
        plan.device_public_key_fingerprint,
        now,
        0,
        at,
    );
    assert(forall|i: int| 0 <= i < trusts@.len() ==> (#[trigger] trusts@[i])@ == models(trusts@)[i]);
    if plan.trusted_device_id is Some {
        let all = models(trusts@);
        let i = choose|i: int|
            0 <= i < all.len() && Some((#[trigger] all[i]).trusted_device_id) == first_standing(
                all,
                device_id@,
                plan.device_public_key_fingerprint,
                now,
                0,
            ) && trust_serves(all[i], device_id@, plan.device_public_key_fingerprint, now)
                && forall|j: int|
                0 <= j < i ==> !trust_serves(
                    #[trigger] all[j],
                    device_id@,
                    plan.device_public_key_fingerprint,
                    now,
                );
        assert(trusts@[i]@ == all[i]);
        assert forall|j: int| 0 <= j < i implies !trust_serves(
            (#[trigger] trusts@[j])@,
            device_id@,
            plan.device_public_key_fingerprint,
            now,
        ) by {
            assert(trusts@[j]@ == all[j]);
        }
    }
}

/// Whether a trusted device serves a login of a device: it is that device, with that key, active
/// and not expired.
pub open spec fn trust_serves(
    trusted: TrustedControllerDeviceModel,
    device_id: Seq<char>,
    fingerprint: [u8; 32],
    now: u64,
) -> bool {
    trusted.controller_device_id == device_id && trusted.device_fingerprint_hash == fingerprint
        && trusted.status == TrustedDeviceStatus::Active && now < trusted.expires_at_epoch_millis
}

proof fn lemma_first_standing(
    trusts: Seq<TrustedControllerDeviceModel>,
    device_id: Seq<char>,
    fingerprint: [u8; 32],
    now: u64,
    from: int,
    at: int,
)
    requires
        0 <= from,
    ensures
        ({
            let found = first_standing(trusts, device_id, fingerprint, now, from);
            &&& from <= at < trusts.len() && trust_serves(trusts[at], device_id, fingerprint, now)
                ==> found is Some
            &&& found is Some ==> exists|i: int|
                from <= i < trusts.len() && Some((#[trigger] trusts[i]).trusted_device_id) == found
                    && trust_serves(trusts[i], device_id, fingerprint, now) && forall|j: int|
                    from <= j < i ==> !trust_serves(
                        #[trigger] trusts[j],
                        device_id,
                        fingerprint,
                        now,
                    )
        }),
    decreases trusts.len() - from,
{
    if from < trusts.len() {
        lemma_first_standing(trusts, device_id, fingerprint, now, from + 1, at);
        let found = first_standing(trusts, device_id, fingerprint, now, from);
        if trust_serves(trusts[from], device_id, fingerprint, now) {
            assert(Some(trusts[from].trusted_device_id) == found);
        } else if found is Some {
            let i = choose|i: int|
                from + 1 <= i < trusts.len() && Some((#[trigger] trusts[i]).trusted_device_id)
                    == found && trust_serves(trusts[i], device_id, fingerprint, now) && forall|
                    j: int,
                |
                    from + 1 <= j < i ==> !trust_serves(
                        #[trigger] trusts[j],
                        device_id,
                        fingerprint,
                        now,
                    );
            assert(Some(trusts[i].trusted_device_id) == found);
        }
    }
}

/// A login challenge holds what the login began with: it is open, with the attempts that the policy
/// gives, bound to the challenge's digest, for the registered device or for none, and remembers the
/// account's last change, the device and its key, the nonces, the observations and the trust.
pub proof fn a_login_challenge_holds_what_began_it(
    policy: &AuthPolicy,
    account: &Account,
    device_id: &str,
    protocol_version: u16,
    plan: &LoginPlan,
    bindings: &LoginBindings,
    authority: LoginChallengeAuthority,
)
    requires
        call_ensures(
            build_login_challenge,
            (policy, account, device_id, protocol_version, plan, bindings),
            authority,
        ),
    ensures
        ({
            let challenge = authority@.challenge;
            let context = authority@.context;
            &&& challenge.risk_challenge_id == bindings.challenge_id@
            &&& challenge.account_id == account@.account_id
            &&& plan.device.state == LoginDeviceState::Registered ==> challenge.device_id == Some(
                device_id@,
            )
            &&& plan.device.state == LoginDeviceState::PendingEnrollment ==> challenge.device_id
                is None
            &&& challenge.purpose == "login_mfa"@
            &&& challenge.operation_binding_hash == bindings.challenge_binding_hash
            &&& plan.required_factors@.len() == 0 ==> challenge.risk_level == "low"@
            &&& plan.required_factors@.len() > 0 ==> challenge.risk_level == "medium"@
            &&& challenge.required_methods == texts(plan.required_factors@)
            &&& challenge.status == RiskChallengeStatus::Issued
            &&& challenge.attempts_remaining == policy.challenge_attempts
            &&& challenge.ip_address == opt_text(bindings.ip_address)
            &&& bindings.user_agent@.len() == 0 ==> challenge.user_agent is None
            &&& bindings.user_agent@.len() > 0 ==> challenge.user_agent == Some(
                bindings.user_agent@,
            )
            &&& challenge.created_at_epoch_millis == plan.issued_at_epoch_millis
            &&& challenge.expires_at_epoch_millis == plan.expires_at_epoch_millis
            &&& challenge.verified_at_epoch_millis is None
            &&& challenge.consumed_at_epoch_millis is None
            &&& context.device_state == plan.device.state
            &&& context.device_id == device_id@
            &&& context.account_updated_at_epoch_millis == account@.updated_at_epoch_millis
            &&& context.device_public_key == plan.device.public_key
            &&& context.device_public_key_fingerprint == plan.device_public_key_fingerprint
            &&& context.public_key_id == opt_text(plan.device.public_key_id)
            &&& context.public_key_version == plan.device.public_key_version
            &&& context.client_nonce == bindings.client_nonce
            &&& context.server_nonce == bindings.server_nonce
            &&& context.login_request_binding_hash == bindings.request_binding_hash
            &&& context.login_challenge_binding_hash == challenge.operation_binding_hash
            &&& context.ip_address_hash == bindings.ip_address_hash
            &&& context.user_agent_hash == bindings.user_agent_hash
            &&& context.required_factors == challenge.required_methods
            &&& context.trusted_device_id == opt_text(plan.trusted_device_id)
            &&& context.protocol_version == protocol_version
            &&& context.issued_at_epoch_millis == challenge.created_at_epoch_millis
            &&& context.attempts_limit == challenge.attempts_remaining
        }),
{
}

/// A login with no factor to ask for is allowed at once, and one with factors requires them.
pub proof fn a_login_is_allowed_or_requires_a_factor(
    required_factors: &Vec<String>,
    decision: &'static str,
)
    requires
        call_ensures(risk_decision, (required_factors,), decision),
    ensures
        required_factors@.len() == 0 ==> decision@ == "allow"@,
        required_factors@.len() > 0 ==> decision@ == "require_mfa"@,
{
}

/// What is kept of a user agent is its beginning: all of it up to 512 characters, and nothing where
/// none was sent.
pub proof fn a_user_agent_is_kept_from_its_beginning(header: Option<&str>, user_agent: String)
    requires
        call_ensures(sanitized_user_agent, (header,), user_agent),
    ensures
        header is None ==> user_agent@.len() == 0,
        header is Some && header->0@.len() <= 512 ==> user_agent@ == header->0@,
        header is Some && header->0@.len() > 512 ==> user_agent@.len() == 512 && user_agent@
            == header->0@.subrange(0, 512),
{
}

} // verus!
