use crate::account::{Account, AccountModel, AccountStatus};
use crate::api::{api_error, refusal, ApiError, ApiErrorModel};
use crate::audit::{AuditEntry, AuditEntryModel, JsonModel};
use crate::auth::{
    email_fits, login_device_id_fits, normal_email, normalize_email, validate_device_id,
    validate_protocol_version, AuthPolicy, MAX_LOGIN_FAILURES,
};
use crate::bytes::{array_eq, constant_time_sha256_eq};
use crate::challenge::{
    LoginChallengeAuthority, LoginChallengeAuthorityModel, LoginChallengeContext,
    LoginChallengeContextModel, LoginDeviceState, RiskChallenge, RiskChallengeModel,
    RiskChallengeStatus,
};
use crate::codec::{encode_hex, hex_text, literals};
use crate::device::{
    Device, DeviceModel, TrustedControllerDevice, TrustedControllerDeviceModel, TrustedDeviceStatus,
};
use crate::device_authority::{authorizable, is_authorizable};
use crate::hash::{sha256, sha256_digest};
use crate::names::{login_device_state_name, login_device_state_text};
use crate::registration::later;
use crate::rules::{
    new_challenge_problem, second_factors, MAX_CHALLENGE_ATTEMPTS, RISK_CHALLENGE_PURPOSES,
    RISK_LEVELS,
};
use crate::table::{models, Table};
use crate::text::{opt_text, opt_text_copy, opt_text_is, text_eq, texts, texts_copy};
use vstd::prelude::*;

verus! {

/// A request to log in: the first half, which leads to a challenge.
#[derive(Debug, PartialEq, Eq)]
pub struct LoginRequest {
    pub email: String,
    pub password: String,
    pub device_id: String,
    pub device_public_key: String,
    pub public_key_id: Option<String>,
    pub public_key_version: u32,
    pub client_nonce: String,
    pub protocol_version: u16,
}

/// Why a login request is refused before anything is looked up.
pub open spec fn login_request_refusal(
    request: LoginRequest,
    supported: u16,
    public_key: Option<[u8; 32]>,
    client_nonce: Option<[u8; 32]>,
    request_id: Seq<char>,
) -> Option<ApiErrorModel> {
    if request.protocol_version != supported {
        Some(
            api_error(
                426,
                "unsupported_version"@,
                "protocol_version is unsupported"@,
                request_id,
            ),
        )
    } else if !login_device_id_fits(request.device_id@) {
        Some(
            api_error(
                400,
                "invalid_device_id"@,
                "device_id must contain 1 to 128 ASCII characters"@,
                request_id,
            ),
        )
    } else if public_key is None {
        Some(
            api_error(
                400,
                "invalid_device_public_key"@,
                "device_public_key must encode exactly 32 Ed25519 bytes"@,
                request_id,
            ),
        )
    } else if client_nonce is None {
        Some(
            api_error(
                400,
                "invalid_client_nonce"@,
                "client_nonce must be 32 base64url bytes without padding"@,
                request_id,
            ),
        )
    } else if !email_fits(normal_email(request.email@)) {
        Some(api_error(400, "invalid_email"@, "email is invalid"@, request_id))
    } else {
        None
    }
}

/// Checks a login request, and gives the address to look up. `public_key` and `client_nonce` are
/// what the request's fields decode to.
pub fn check_login_request(
    request: &LoginRequest,
    supported: u16,
    public_key: &Option<[u8; 32]>,
    client_nonce: &Option<[u8; 32]>,
    request_id: &str,
) -> (result: Result<String, ApiError>)
    ensures
        refusal(result) == login_request_refusal(
            *request,
            supported,
            *public_key,
            *client_nonce,
            request_id@,
        ),
        result is Ok ==> result->Ok_0@ == normal_email(request.email@),
{
    validate_protocol_version(request.protocol_version, supported, request_id)?;
    validate_device_id(request.device_id.as_str(), request_id)?;
    if public_key.is_none() {
        return Err(
            ApiError::bad_request(
                "invalid_device_public_key",
                "device_public_key must encode exactly 32 Ed25519 bytes",
                request_id,
            ),
        );
    }
    if client_nonce.is_none() {
        return Err(
            ApiError::bad_request(
                "invalid_client_nonce",
                "client_nonce must be 32 base64url bytes without padding",
                request_id,
            ),
        );
    }
    normalize_email(request.email.as_str(), request_id)
}

/// Whether a login gets past its password: the account is known and active, its principal is not
/// locked, and the password is right.
pub open spec fn credentials_fit(
    account: Option<AccountModel>,
    locked: bool,
    password_valid: bool,
) -> bool {
    account is Some && account->0.status == AccountStatus::Active && !locked && password_valid
}

/// Checks the credentials of a login: an active account that is not locked out, and its password.
pub fn check_credentials(
    account: Option<&Account>,
    locked: bool,
    password_valid: bool,
    request_id: &str,
) -> (result: Result<(), ApiError>)
    ensures
        result is Ok <==> credentials_fit(
            match account {
                Some(found) => Some(found@),
                None => None,
            },
            locked,
            password_valid,
        ),
        result is Err ==> result->Err_0@ == api_error(
            401,
            "invalid_credentials"@,
            "email or password is invalid"@,
            request_id@,
        ),
{
    let valid = match account {
        Some(account) => account.status == AccountStatus::Active && !locked && password_valid,
        None => false,
    };
    if valid {
        Ok(())
    } else {
        Err(
            ApiError::new(
                401,
                "invalid_credentials",
                "email or password is invalid",
                request_id,
            ),
        )
    }
}

/// An entry of the audit log for something that nobody in particular did.
pub open spec fn anonymous_entry(
    audit_id: Seq<char>,
    request_id: Seq<char>,
    action: Seq<char>,
    result: Seq<char>,
    reason: Seq<char>,
    now: u64,
) -> AuditEntryModel {
    AuditEntryModel {
        audit_id,
        actor_type: "anonymous"@,
        actor_account_id: None,
        actor_device_id: None,
        actor_role: None,
        actor_service: None,
        target_device_id: None,
        session_id: None,
        action,
        result,
        reason: Some(reason),
        metadata: Map::<Seq<char>, JsonModel>::empty(),
        request_id,
        created_at_epoch_millis: now,
    }
}

fn anonymous_audit(
    audit_id: String,
    request_id: &str,
    action: &str,
    result: &str,
    reason: &str,
    now: u64,
) -> (entry: AuditEntry)
    ensures
        entry@ == anonymous_entry(audit_id@, request_id@, action@, result@, reason@, now),
{
    AuditEntry {
        audit_id,
        actor_type: "anonymous".to_owned(),
        actor_account_id: None,
        actor_device_id: None,
        actor_role: None,
        actor_service: None,
        target_device_id: None,
        session_id: None,
        action: action.to_owned(),
        result: result.to_owned(),
        reason: Some(reason.to_owned()),
        metadata: Table::new(),
        request_id: request_id.to_owned(),
        created_at_epoch_millis: now,
    }
}

/// The failures that are counted against a principal after logins with right and wrong passwords,
/// one after the other: each that is refused counts, and one that is not clears the count. `locks`
/// says at which counts the principal is locked.
pub open spec fn failures_after(
    account: Option<AccountModel>,
    passwords: Seq<bool>,
    locks: spec_fn(nat) -> bool,
) -> nat
    decreases passwords.len(),
{
    if passwords.len() == 0 {
        0
    } else {
        let before = failures_after(account, passwords.drop_last(), locks);
        if credentials_fit(account, locks(before), passwords.last()) {
            0
        } else {
            before + 1
        }
    }
}

/// Repeated failures lock: where a principal is locked from the limit on, a login after that many
/// wrong passwords in a row is refused although its password is right, like those before it; and
/// so is every one that follows within the lock.
pub proof fn repeated_failures_lock(
    account: Option<AccountModel>,
    earlier: Seq<bool>,
    wrong: nat,
    locks: spec_fn(nat) -> bool,
    password_valid: bool,
)
    requires
        wrong >= MAX_LOGIN_FAILURES,
        forall|count: nat| count >= MAX_LOGIN_FAILURES ==> #[trigger] locks(count),
    ensures
        ({
            let passwords = earlier + Seq::new(wrong, |i: int| false);
            &&& failures_after(account, passwords, locks) >= wrong
            &&& !credentials_fit(
                account,
                locks(failures_after(account, passwords, locks)),
                password_valid,
            )
        }),
{
    lemma_failures_add_up(account, earlier, wrong, locks);
}

proof fn lemma_failures_add_up(
    account: Option<AccountModel>,
    earlier: Seq<bool>,
    wrong: nat,
    locks: spec_fn(nat) -> bool,
)
    ensures
        failures_after(account, earlier + Seq::new(wrong, |i: int| false), locks) >= wrong,
    decreases wrong,
{
    if wrong > 0 {
        let passwords = earlier + Seq::new(wrong, |i: int| false);
        let fewer = earlier + Seq::new((wrong - 1) as nat, |i: int| false);
        assert(passwords.drop_last() =~= fewer);
        assert(passwords.last() == false);
        lemma_failures_add_up(account, earlier, (wrong - 1) as nat, locks);
    }
}

/// The audit entries of a failed login: the failure, and before it the lock where the failure
/// locked an account out.
pub fn login_failure_entries(
    newly_locked: bool,
    account_known: bool,
    lock_audit_id: String,
    failure_audit_id: String,
    request_id: &str,
    now: u64,
) -> (entries: Vec<AuditEntry>)
    ensures
        ({
            let lock = anonymous_entry(
                lock_audit_id@,
                request_id@,
                "account_locked"@,
                "success"@,
                "too_many_login_failures"@,
                now,
            );
            let failure = anonymous_entry(
                failure_audit_id@,
                request_id@,
                "login_failed"@,
                "failure"@,
                "invalid_credentials"@,
                now,
            );
            models(entries@) == if newly_locked && account_known {
                seq![lock, failure]
            } else {
                seq![failure]
            }
        }),
{
    let mut entries: Vec<AuditEntry> = Vec::new();
    if newly_locked && account_known {
        entries.push(
            anonymous_audit(
                lock_audit_id,
                request_id,
                "account_locked",
                "success",
                "too_many_login_failures",
                now,
            ),
        );
    }
    entries.push(
        anonymous_audit(
            failure_audit_id,
            request_id,
            "login_failed",
            "failure",
            "invalid_credentials",
            now,
        ),
    );
    let ghost lock = anonymous_entry(
        lock_audit_id@,
        request_id@,
        "account_locked"@,
        "success"@,
        "too_many_login_failures"@,
        now,
    );
    let ghost failure = anonymous_entry(
        failure_audit_id@,
        request_id@,
        "login_failed"@,
        "failure"@,
        "invalid_credentials"@,
        now,
    );
    assert(newly_locked && account_known ==> models(entries@) =~= seq![lock, failure]);
    assert(!(newly_locked && account_known) ==> models(entries@) =~= seq![failure]);
    entries
}

/// The device of a login, as the server takes it.
#[derive(Debug, PartialEq, Eq)]
pub struct LoginDevice {
    pub state: LoginDeviceState,
    pub public_key_id: Option<String>,
    pub public_key_version: u32,
    pub public_key: [u8; 32],
}

/// Whether a request speaks for a device as it is registered.
pub open spec fn request_speaks_for(
    account_id: Seq<char>,
    request: LoginRequest,
    requested_key: [u8; 32],
    device: DeviceModel,
) -> bool {
    &&& device.account_id == account_id
    &&& authorizable(device.status)
    &&& device.public_key_revoked_at_epoch_millis is None
    &&& opt_text(request.public_key_id) == Some(device.public_key_id)
    &&& request.public_key_version == device.public_key_version
    &&& requested_key == device.public_key
}

/// Identifies the device of a login: the registered device that the request speaks for, or one
/// that is not registered and does not claim to be.
pub fn identify_login_device(
    account_id: &str,
    request: &LoginRequest,
    requested_key: &[u8; 32],
    device: Option<&Device>,
    request_id: &str,
) -> (result: Result<LoginDevice, ApiError>)
    ensures
        ({
            let registered = device is Some && request_speaks_for(
                account_id@,
                *request,
                *requested_key,
                device->0@,
            );
            let pending = device is None && request.public_key_id is None
                && request.public_key_version == 0;
            &&& result is Ok <==> registered || pending
            &&& result is Ok ==> result->Ok_0.public_key == *requested_key
            &&& result is Ok && registered ==> result->Ok_0.state == LoginDeviceState::Registered
                && opt_text(result->Ok_0.public_key_id) == Some(device->0@.public_key_id)
                && result->Ok_0.public_key_version == device->0@.public_key_version
            &&& result is Ok && pending ==> result->Ok_0.state
                == LoginDeviceState::PendingEnrollment && result->Ok_0.public_key_id is None
                && result->Ok_0.public_key_version == 0
            &&& result is Err ==> result->Err_0@ == api_error(
                403,
                "device_identity_invalid"@,
                "device identity does not match the account authority record"@,
                request_id@,
            )
        }),
{
    match device {
        Some(device) => if text_eq(device.account_id.as_str(), account_id) && is_authorizable(
            device.status,
        ) && device.public_key_revoked_at_epoch_millis.is_none() && opt_text_is(
            &request.public_key_id,
            device.public_key_id.as_str(),
        ) && request.public_key_version == device.public_key_version && array_eq(
            requested_key,
            &device.public_key,
        ) {
            Ok(
                LoginDevice {
                    state: LoginDeviceState::Registered,
                    public_key_id: Some(device.public_key_id.clone()),
                    public_key_version: device.public_key_version,
                    public_key: device.public_key,
                },
            )
        } else {
            Err(
                ApiError::forbidden(
                    "device_identity_invalid",
                    "device identity does not match the account authority record",
                    request_id,
                ),
            )
        },
        None => if request.public_key_id.is_none() && request.public_key_version == 0 {
            Ok(
                LoginDevice {
                    state: LoginDeviceState::PendingEnrollment,
                    public_key_id: None,
                    public_key_version: 0,
                    public_key: *requested_key,
                },
            )
        } else {
            Err(
                ApiError::forbidden(
                    "device_identity_invalid",
                    "device identity does not match the account authority record",
                    request_id,
                ),
            )
        },
    }
}

/// Whether a trusted device stands for the device of a login.
pub open spec fn trust_stands(
    trusted: TrustedControllerDeviceModel,
    device_id: Seq<char>,
    fingerprint: [u8; 32],
    now: u64,
) -> bool {
    &&& trusted.controller_device_id == device_id
    &&& trusted.status == TrustedDeviceStatus::Active
    &&& trusted.expires_at_epoch_millis > now
    &&& trusted.device_fingerprint_hash == fingerprint
}

/// The first trusted device of a list that stands for the device of a login, at or after a
/// position.
pub open spec fn first_standing(
    trusts: Seq<TrustedControllerDeviceModel>,
    device_id: Seq<char>,
    fingerprint: [u8; 32],
    now: u64,
    from: int,
) -> Option<Seq<char>>
    decreases trusts.len() - from,
{
    if from < 0 || from >= trusts.len() {
        None
    } else if trust_stands(trusts[from], device_id, fingerprint, now) {
        Some(trusts[from].trusted_device_id)
    } else {
        first_standing(trusts, device_id, fingerprint, now, from + 1)
    }
}

fn find_standing_trust(
    trusts: &Vec<TrustedControllerDevice>,
    device_id: &str,
    fingerprint: &[u8; 32],
    now: u64,
) -> (found: Option<String>)
    ensures
        opt_text(found) == first_standing(models(trusts@), device_id@, *fingerprint, now, 0),
{
    let mut i: usize = 0;
    while i < trusts.len()
        invariant
            i <= trusts.len(),
            first_standing(models(trusts@), device_id@, *fingerprint, now, 0) == first_standing(
                models(trusts@),
                device_id@,
                *fingerprint,
                now,
                i as int,
            ),
        decreases trusts.len() - i,
    {
        let trusted = &trusts[i];
        assert(models(trusts@)[i as int] == trusted@);
        if text_eq(trusted.controller_device_id.as_str(), device_id) && trusted.status
            == TrustedDeviceStatus::Active && trusted.expires_at_epoch_millis > now
            && constant_time_sha256_eq(&trusted.device_fingerprint_hash, fingerprint) {
            return Some(trusted.trusted_device_id.clone());
        }
        i = i + 1;
    }
    None
}

/// What a login challenge is issued for: everything that is decided before its names, nonces and
/// binding digests are drawn.
#[derive(Debug, PartialEq, Eq)]
pub struct LoginPlan {
    pub device: LoginDevice,
    pub device_public_key_fingerprint: [u8; 32],
    pub trusted_device_id: Option<String>,
    pub required_factors: Vec<String>,
    pub issued_at_epoch_millis: u64,
    pub expires_at_epoch_millis: u64,
}

/// The trusted device that a login may be finished from: one that stands, where the account has a
/// second factor and the device is registered.
pub open spec fn login_trust(
    device_id: Seq<char>,
    state: LoginDeviceState,
    fingerprint: [u8; 32],
    mfa_enabled: bool,
    trusts: Seq<TrustedControllerDeviceModel>,
    now: u64,
) -> Option<Seq<char>> {
    if mfa_enabled && state == LoginDeviceState::Registered {
        first_standing(trusts, device_id, fingerprint, now, 0)
    } else {
        None
    }
}

/// The factors that a login has to be finished with: either of the two second factors, unless the
/// account has none or the login may be finished from a trusted device.
pub open spec fn login_factors(mfa_enabled: bool, trusted: bool) -> Seq<Seq<char>> {
    if mfa_enabled && !trusted {
        second_factors()
    } else {
        Seq::empty()
    }
}

/// Plans the challenge of a login. `trusts` are the trusted devices of the account.
pub fn plan_login(
    policy: &AuthPolicy,
    device_id: &str,
    device: LoginDevice,
    mfa_enabled: bool,
    trusts: &Vec<TrustedControllerDevice>,
    now: u64,
) -> (plan: LoginPlan)
    requires
        policy.challenge_ttl_seconds * 1_000 <= u64::MAX,
    ensures
        plan.device == device,
        plan.device_public_key_fingerprint@ == sha256_digest(device.public_key@),
        opt_text(plan.trusted_device_id) == login_trust(
            device_id@,
            device.state,
            plan.device_public_key_fingerprint,
            mfa_enabled,
            models(trusts@),
            now,
        ),
        texts(plan.required_factors@) == login_factors(
            mfa_enabled,
            plan.trusted_device_id is Some,
        ),
        plan.issued_at_epoch_millis == now,
        plan.expires_at_epoch_millis == later(
            now,
            (policy.challenge_ttl_seconds * 1_000) as u64,
        ),
{
    let fingerprint = sha256(device.public_key.as_slice());
    let trusted_device_id: Option<String> = if mfa_enabled && device.state
        == LoginDeviceState::Registered {
        find_standing_trust(trusts, device_id, &fingerprint, now)
    } else {
        None
    };
    let mut required_factors: Vec<String> = Vec::new();
    if mfa_enabled && trusted_device_id.is_none() {
        required_factors.push("totp".to_owned());
        required_factors.push("recovery_code".to_owned());
    }
    assert(texts(required_factors@) =~= login_factors(mfa_enabled, trusted_device_id is Some));
    LoginPlan {
        device,
        device_public_key_fingerprint: fingerprint,
        trusted_device_id,
        required_factors,
        issued_at_epoch_millis: now,
        expires_at_epoch_millis: now.saturating_add(policy.challenge_ttl_seconds * 1_000),
    }
}

/// The decision that the binding of a login challenge names: whether a second factor is required.
pub open spec fn risk_decision_text(required_factors: Seq<Seq<char>>) -> Seq<char> {
    if required_factors.len() == 0 {
        "allow"@
    } else {
        "require_mfa"@
    }
}

/// The decision that the binding of a login challenge names: whether a second factor is required.
pub fn risk_decision(required_factors: &Vec<String>) -> (decision: &'static str)
    ensures
        decision@ == risk_decision_text(texts(required_factors@)),
{
    if required_factors.is_empty() {
        "allow"
    } else {
        "require_mfa"
    }
}

/// What was drawn and computed for a login challenge: its name, the nonces, and the digests that
/// bind it.
#[derive(Debug, PartialEq, Eq)]
pub struct LoginBindings {
    pub challenge_id: String,
    pub client_nonce: [u8; 32],
    pub server_nonce: [u8; 32],
    pub request_binding_hash: [u8; 32],
    pub challenge_binding_hash: [u8; 32],
    pub ip_address_hash: [u8; 32],
    pub user_agent_hash: [u8; 32],
    pub ip_address: Option<String>,
    pub user_agent: String,
}

/// The name of the device of a challenge: only a registered device is named.
pub open spec fn challenge_device(state: LoginDeviceState, device_id: Seq<char>) -> Option<
    Seq<char>,
> {
    if state == LoginDeviceState::Registered {
        Some(device_id)
    } else {
        None
    }
}

/// The login challenge of a plan.
pub open spec fn planned_challenge(
    policy: AuthPolicy,
    account_id: Seq<char>,
    account_updated: u64,
    device_id: Seq<char>,
    protocol_version: u16,
    plan: LoginPlan,
    bindings: LoginBindings,
) -> LoginChallengeAuthorityModel {
    let factors = texts(plan.required_factors@);
    LoginChallengeAuthorityModel {
        challenge: RiskChallengeModel {
            risk_challenge_id: bindings.challenge_id@,
            account_id,
            device_id: challenge_device(plan.device.state, device_id),
            purpose: "login_mfa"@,
            operation_binding_hash: bindings.challenge_binding_hash,
            risk_level: if factors.len() == 0 {
                "low"@
            } else {
                "medium"@
            },
            required_methods: factors,
            status: RiskChallengeStatus::Issued,
            attempts_remaining: policy.challenge_attempts,
            ip_address: opt_text(bindings.ip_address),
            user_agent: if bindings.user_agent@.len() == 0 {
                None
            } else {
                Some(bindings.user_agent@)
            },
            expires_at_epoch_millis: plan.expires_at_epoch_millis,
            created_at_epoch_millis: plan.issued_at_epoch_millis,
            verified_at_epoch_millis: None,
            consumed_at_epoch_millis: None,
        },
        context: LoginChallengeContextModel {
            device_state: plan.device.state,
            device_id,
            account_updated_at_epoch_millis: account_updated,
            device_public_key: plan.device.public_key,
            device_public_key_fingerprint: plan.device_public_key_fingerprint,
            public_key_id: opt_text(plan.device.public_key_id),
            public_key_version: plan.device.public_key_version,
            client_nonce: bindings.client_nonce,
            server_nonce: bindings.server_nonce,
            login_request_binding_hash: bindings.request_binding_hash,
            login_challenge_binding_hash: bindings.challenge_binding_hash,
            ip_address_hash: bindings.ip_address_hash,
            user_agent_hash: bindings.user_agent_hash,
            required_factors: factors,
            trusted_device_id: opt_text(plan.trusted_device_id),
            protocol_version,
            issued_at_epoch_millis: plan.issued_at_epoch_millis,
            attempts_limit: policy.challenge_attempts,
        },
    }
}

/// Builds the login challenge of a plan.
pub fn build_login_challenge(
    policy: &AuthPolicy,
    account: &Account,
    device_id: &str,
    protocol_version: u16,
    plan: &LoginPlan,
    bindings: &LoginBindings,
) -> (authority: LoginChallengeAuthority)
    ensures
        authority@ == planned_challenge(
            *policy,
            account@.account_id,
            account@.updated_at_epoch_millis,
            device_id@,
            protocol_version,
            *plan,
            *bindings,
        ),
{
    let persistent_device: Option<String> = if plan.device.state == LoginDeviceState::Registered {
        Some(device_id.to_owned())
    } else {
        None
    };
    let user_agent: Option<String> = if bindings.user_agent.as_str().is_empty() {
        None
    } else {
        Some(bindings.user_agent.clone())
    };
    let challenge = RiskChallenge {
        risk_challenge_id: bindings.challenge_id.clone(),
        account_id: account.account_id.clone(),
        device_id: persistent_device,
        purpose: "login_mfa".to_owned(),
        operation_binding_hash: bindings.challenge_binding_hash,
        risk_level: if plan.required_factors.is_empty() {
            "low".to_owned()
        } else {
            "medium".to_owned()
        },
        required_methods: texts_copy(&plan.required_factors),
        status: RiskChallengeStatus::Issued,
        attempts_remaining: policy.challenge_attempts,
        ip_address: opt_text_copy(&bindings.ip_address),
        user_agent,
        expires_at_epoch_millis: plan.expires_at_epoch_millis,
        created_at_epoch_millis: plan.issued_at_epoch_millis,
        verified_at_epoch_millis: None,
        consumed_at_epoch_millis: None,
    };
    let context = LoginChallengeContext {
        device_state: plan.device.state,
        device_id: device_id.to_owned(),
        account_updated_at_epoch_millis: account.updated_at_epoch_millis,
        device_public_key: plan.device.public_key,
        device_public_key_fingerprint: plan.device_public_key_fingerprint,
        public_key_id: opt_text_copy(&plan.device.public_key_id),
        public_key_version: plan.device.public_key_version,
        client_nonce: bindings.client_nonce,
        server_nonce: bindings.server_nonce,
        login_request_binding_hash: bindings.request_binding_hash,
        login_challenge_binding_hash: bindings.challenge_binding_hash,
        ip_address_hash: bindings.ip_address_hash,
        user_agent_hash: bindings.user_agent_hash,
        required_factors: texts_copy(&plan.required_factors),
        trusted_device_id: opt_text_copy(&plan.trusted_device_id),
        protocol_version,
        issued_at_epoch_millis: plan.issued_at_epoch_millis,
        attempts_limit: policy.challenge_attempts,
    };
    LoginChallengeAuthority { challenge, context }
}

/// What the client is told of its login challenge.
#[derive(Debug, PartialEq, Eq)]
pub struct LoginChallengeResponse {
    pub code: String,
    pub account_id: String,
    pub login_challenge_id: String,
    pub login_request_binding_hash: String,
    pub login_challenge_binding_hash: String,
    pub server_nonce: [u8; 32],
    pub device_state: String,
    pub required_factors: Vec<String>,
    pub expires_at_epoch_millis: u64,
    pub attempts_remaining: u8,
}

/// Tells the client of its login challenge.
pub fn login_challenge_response(authority: &LoginChallengeAuthority) -> (response:
    LoginChallengeResponse)
    ensures
        response.code@ == "login_challenge_required"@,
        response.account_id@ == authority@.challenge.account_id,
        response.login_challenge_id@ == authority@.challenge.risk_challenge_id,
        response.login_request_binding_hash@ == hex_text(
            authority@.context.login_request_binding_hash@,
        ),
        response.login_challenge_binding_hash@ == hex_text(
            authority@.context.login_challenge_binding_hash@,
        ),
        response.server_nonce == authority@.context.server_nonce,
        response.device_state@ == login_device_state_text(authority@.context.device_state),
        texts(response.required_factors@) == authority@.context.required_factors,
        response.expires_at_epoch_millis == authority@.challenge.expires_at_epoch_millis,
        response.attempts_remaining == authority@.challenge.attempts_remaining,
{
    let challenge = &authority.challenge;
    let context = &authority.context;
    LoginChallengeResponse {
        code: "login_challenge_required".to_owned(),
        account_id: challenge.account_id.clone(),
        login_challenge_id: challenge.risk_challenge_id.clone(),
        login_request_binding_hash: encode_hex(context.login_request_binding_hash.as_slice()),
        login_challenge_binding_hash: encode_hex(context.login_challenge_binding_hash.as_slice()),
        server_nonce: context.server_nonce,
        device_state: login_device_state_name(context.device_state).to_owned(),
        required_factors: texts_copy(&context.required_factors),
        expires_at_epoch_millis: challenge.expires_at_epoch_millis,
        attempts_remaining: challenge.attempts_remaining,
    }
}

/// The first characters of a text.
pub open spec fn first_chars(text: Seq<char>, limit: int) -> Seq<char> {
    if text.len() <= limit {
        text
    } else {
        text.take(limit)
    }
}

/// The user agent of a request, cut to 512 characters. A request without a readable one has the
/// empty one.
pub fn sanitized_user_agent(header: Option<&str>) -> (user_agent: String)
    ensures
        user_agent@ == match header {
            Some(text) => first_chars(text@, 512),
            None => Seq::empty(),
        },
{
    match header {
        Some(text) => {
            let len: usize = text.unicode_len();
            if len <= 512 {
                text.to_owned()
            } else {
                text.substring_char(0, 512).to_owned()
            }
        },
        None => String::new(),
    }
}

/// The challenge of a plan fits the rules for new challenges, where the policy does: it is open,
/// lives no longer than the policy says, and requires what its purpose may require.
pub proof fn planned_challenges_can_be_issued(
    policy: AuthPolicy,
    account_id: Seq<char>,
    account_updated: u64,
    device_id: Seq<char>,
    protocol_version: u16,
    plan: LoginPlan,
    bindings: LoginBindings,
    mfa_enabled: bool,
)
    requires
        1 <= policy.challenge_attempts <= MAX_CHALLENGE_ATTEMPTS,
        1 <= policy.challenge_ttl_seconds <= 300,
        plan.expires_at_epoch_millis == later(
            plan.issued_at_epoch_millis,
            (policy.challenge_ttl_seconds * 1_000) as u64,
        ),
        plan.issued_at_epoch_millis < u64::MAX,
        texts(plan.required_factors@) == login_factors(
            mfa_enabled,
            plan.trusted_device_id is Some,
        ),
    ensures
        new_challenge_problem(
            planned_challenge(
                policy,
                account_id,
                account_updated,
                device_id,
                protocol_version,
                plan,
                bindings,
            ).challenge,
        ) is None,
{
    let purposes = literals(RISK_CHALLENGE_PURPOSES@);
    assert(purposes[0] == "login_mfa"@);
    let levels = literals(RISK_LEVELS@);
    assert(levels[0] == "low"@);
    assert(levels[1] == "medium"@);
}

} // verus!
