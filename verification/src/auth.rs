use crate::account::{Account, AccountModel, AccountSession, AccountSessionModel, AccountStatus};
use crate::api::{api_error, refusal, ApiError, ApiErrorModel, Fault, FaultModel};
use crate::audit::{AuditEntry, AuditEntryModel, JsonModel};
use crate::challenge::{LoginChallengeAuthority, LoginChallengeContext, LoginChallengeContextModel};
use crate::codec::{encode_hex, hex_text};
use crate::database::{Database, DatabaseModel};
use crate::hash::{sha256, sha256_digest};
use crate::store::StoreError;
use crate::table::{opt_model, Record, Table};
use crate::text::{
    ascii_lower, ascii_lowercase, blank, chars_of, is_blank, opt_text, opt_text_copy, trim_text,
    trimmed,
};
use vstd::prelude::*;
use vstd::utf8::encode_utf8;

verus! {

/// The failed logins after which a principal is locked out.
pub const MAX_LOGIN_FAILURES: u8 = 5;

/// How long a principal is locked out.
pub const LOCK_MILLIS: u64 = 60_000;

/// How long failed logins are remembered.
pub const LOGIN_FAILURE_STATE_TTL_MILLIS: u64 = 15 * 60_000;

/// A request to open an account.
#[derive(Debug, PartialEq, Eq)]
pub struct RegisterRequest {
    pub email: String,
    pub password: String,
    pub display_name: String,
}

/// A request to renew a session.
#[derive(Debug, PartialEq, Eq)]
pub struct RefreshRequest {
    pub refresh_token: String,
}

/// A request to change a password.
#[derive(Debug, PartialEq, Eq)]
pub struct ChangePasswordRequest {
    pub current_password: String,
    pub new_password: String,
}

/// The tokens of a session, as the client gets them.
#[derive(Debug, PartialEq, Eq)]
pub struct TokenResponse {
    pub account_id: String,
    pub access_token: String,
    pub refresh_token: String,
    pub access_token_expires_at_epoch_millis: u64,
    pub refresh_token_expires_at_epoch_millis: u64,
}

/// How long tokens and challenges live, how many attempts a challenge has, and the protocol that
/// the server speaks.
#[derive(Debug, Clone, Copy, PartialEq, Eq, Structural)]
pub struct AuthPolicy {
    pub access_ttl_seconds: u64,
    pub refresh_ttl_seconds: u64,
    pub challenge_ttl_seconds: u64,
    pub challenge_attempts: u8,
    pub protocol_version: u16,
}

/// An address in the form in which accounts are found by it.
pub open spec fn normal_email(value: Seq<char>) -> Seq<char> {
    trimmed(value).map_values(|c: char| ascii_lower(c))
}

/// Whether a normal address can be one: not too long, and with an at sign within.
pub open spec fn email_fits(email: Seq<char>) -> bool {
    &&& encode_utf8(email).len() <= 254
    &&& email.contains('@')
    &&& email[0] != '@'
    &&& email.last() != '@'
}

/// Brings an address into the form in which accounts are found by it.
pub fn normalize_email(value: &str, request_id: &str) -> (result: Result<String, ApiError>)
    ensures
        result is Ok <==> email_fits(normal_email(value@)),
        result is Ok ==> result->Ok_0@ == normal_email(value@),
        result is Err ==> result->Err_0@ == api_error(
            400,
            "invalid_email"@,
            "email is invalid"@,
            request_id@,
        ),
{
    let email = ascii_lowercase(trim_text(value));
    let characters = chars_of(email.as_str());
    let len: usize = characters.len();
    let mut has_at = false;
    let mut i: usize = 0;
    while i < len
        invariant
            i <= len,
            len == characters.len(),
            has_at <==> exists|k: int| 0 <= k < i && characters@[k] == '@',
        decreases len - i,
    {
        if characters[i] == '@' {
            has_at = true;
        }
        i = i + 1;
    }
    assert(has_at == email@.contains('@'));
    if email.as_str().as_bytes().len() > 254 || !has_at || characters[0] == '@' || characters[len - 1]
        == '@' {
        return Err(ApiError::bad_request("invalid_email", "email is invalid", request_id));
    }
    Ok(email)
}

/// Checks the length of a new password.
pub fn validate_password(value: &str, request_id: &str) -> (result: Result<(), ApiError>)
    ensures
        result is Ok <==> 12 <= encode_utf8(value@).len() <= 256,
        result is Err ==> result->Err_0@ == api_error(
            400,
            "weak_password"@,
            "password must contain 12 to 256 bytes"@,
            request_id@,
        ),
{
    let len: usize = value.as_bytes().len();
    if len < 12 || len > 256 {
        return Err(
            ApiError::bad_request(
                "weak_password",
                "password must contain 12 to 256 bytes",
                request_id,
            ),
        );
    }
    Ok(())
}

/// Refuses a protocol that the server does not speak.
pub fn validate_protocol_version(value: u16, supported: u16, request_id: &str) -> (result: Result<
    (),
    ApiError,
>)
    ensures
        result is Ok <==> value == supported,
        result is Err ==> result->Err_0@ == api_error(
            426,
            "unsupported_version"@,
            "protocol_version is unsupported"@,
            request_id@,
        ),
{
    if value != supported {
        return Err(
            ApiError::new(
                426,
                "unsupported_version",
                "protocol_version is unsupported",
                request_id,
            ),
        );
    }
    Ok(())
}

/// Whether a text can be the name of the device of a login.
pub open spec fn login_device_id_fits(value: Seq<char>) -> bool {
    0 < value.len() && encode_utf8(value).len() <= 128 && vstd::utf8::is_ascii_chars(value)
}

/// Checks the name of the device of a login.
pub fn validate_device_id(value: &str, request_id: &str) -> (result: Result<(), ApiError>)
    ensures
        result is Ok <==> login_device_id_fits(value@),
        result is Err ==> result->Err_0@ == api_error(
            400,
            "invalid_device_id"@,
            "device_id must contain 1 to 128 ASCII characters"@,
            request_id@,
        ),
{
    if value.is_empty() || value.as_bytes().len() > 128 || !value.is_ascii() {
        return Err(
            ApiError::bad_request(
                "invalid_device_id",
                "device_id must contain 1 to 128 ASCII characters",
                request_id,
            ),
        );
    }
    Ok(())
}

/// Why a request to open an account is refused.
pub open spec fn registration_refusal(request: RegisterRequest, request_id: Seq<char>) -> Option<
    ApiErrorModel,
> {
    if !email_fits(normal_email(request.email@)) {
        Some(api_error(400, "invalid_email"@, "email is invalid"@, request_id))
    } else if !(12 <= encode_utf8(request.password@).len() <= 256) {
        Some(
            api_error(
                400,
                "weak_password"@,
                "password must contain 12 to 256 bytes"@,
                request_id,
            ),
        )
    } else if blank(request.display_name@) || encode_utf8(request.display_name@).len() > 100 {
        Some(
            api_error(
                400,
                "invalid_display_name"@,
                "display_name must contain 1 to 100 characters"@,
                request_id,
            ),
        )
    } else {
        None
    }
}

/// Checks a request to open an account, and gives the address and the name of the account.
pub fn check_registration(request: &RegisterRequest, request_id: &str) -> (result: Result<
    (String, String),
    ApiError,
>)
    ensures
        refusal(result) == registration_refusal(*request, request_id@),
        result is Ok ==> result->Ok_0.0@ == normal_email(request.email@) && result->Ok_0.1@
            == trimmed(request.display_name@),
{
    let email = normalize_email(request.email.as_str(), request_id)?;
    validate_password(request.password.as_str(), request_id)?;
    let display_name = request.display_name.as_str();
    if is_blank(display_name) || display_name.as_bytes().len() > 100 {
        return Err(
            ApiError::bad_request(
                "invalid_display_name",
                "display_name must contain 1 to 100 characters",
                request_id,
            ),
        );
    }
    Ok((email, trim_text(display_name).to_owned()))
}

/// A new account.
pub fn new_account(
    account_id: String,
    email: String,
    display_name: String,
    password_hash: String,
    now: u64,
) -> (account: Account)
    ensures
        account@ == (AccountModel {
            account_id: account_id@,
            email: email@,
            display_name: display_name@,
            password_hash: password_hash@,
            status: AccountStatus::Active,
            created_at_epoch_millis: now,
            updated_at_epoch_millis: now,
        }),
{
    Account {
        account_id,
        email,
        display_name,
        password_hash,
        status: AccountStatus::Active,
        created_at_epoch_millis: now,
        updated_at_epoch_millis: now,
    }
}

/// Adds an account under an address that no account has yet.
pub fn add_account(database: &mut Database, account: &Account) -> (result: Result<(), StoreError>)
    ensures
        result == if old(database)@.account_by_email.contains_key(account@.email) {
            Err::<(), StoreError>(StoreError::Conflict)
        } else {
            Ok(())
        },
        result is Err ==> final(database)@ == old(database)@,
        result is Ok ==> final(database)@ == (DatabaseModel {
            account_by_email: old(database)@.account_by_email.insert(
                account@.email,
                account@.account_id,
            ),
            accounts: old(database)@.accounts.insert(account@.account_id, account@),
            ..old(database)@
        }),
{
    if database.account_by_email.contains_key(account.email.as_str()) {
        return Err(StoreError::Conflict);
    }
    database.account_by_email.insert(account.email.clone(), account.account_id.clone());
    database.accounts.insert(account.account_id.clone(), account.duplicate());
    Ok(())
}

/// An address has one account: the second account under it is refused and changes nothing.
pub proof fn an_address_has_one_account(
    database: DatabaseModel,
    first: AccountModel,
    second: AccountModel,
)
    requires
        second.email == first.email,
    ensures
        ({
            let after = DatabaseModel {
                account_by_email: database.account_by_email.insert(first.email, first.account_id),
                accounts: database.accounts.insert(first.account_id, first),
                ..database
            };
            after.account_by_email.contains_key(second.email)
        }),
{
}

/// Adds a session under a name that no session has yet.
pub fn add_account_session(database: &mut Database, session: &AccountSession) -> (result: Result<
    (),
    StoreError,
>)
    ensures
        result == if old(database)@.account_sessions.contains_key(session@.account_session_id) {
            Err::<(), StoreError>(StoreError::Conflict)
        } else {
            Ok(())
        },
        result is Err ==> final(database)@ == old(database)@,
        result is Ok ==> final(database)@ == (DatabaseModel {
            account_sessions: old(database)@.account_sessions.insert(
                session@.account_session_id,
                session@,
            ),
            ..old(database)@
        }),
{
    if database.account_sessions.contains_key(session.account_session_id.as_str()) {
        return Err(StoreError::Conflict);
    }
    database.account_sessions.insert(session.account_session_id.clone(), session.duplicate());
    Ok(())
}

/// What a failed store operation means to the client: a conflict is refused as given, anything
/// else is the server's fault.
pub fn store_fault(error: StoreError, conflict: ApiError) -> (fault: Fault)
    ensures
        fault@ == match error {
            StoreError::Conflict => FaultModel::Refused(conflict@),
            StoreError::Unavailable => FaultModel::Internal,
        },
{
    match error {
        StoreError::Conflict => Fault::Refused(conflict),
        StoreError::Unavailable => Fault::Internal,
    }
}

/// The refusal of an account whose address is taken.
pub fn account_exists_error(request_id: &str) -> (error: ApiError)
    ensures
        error@ == api_error(
            409,
            "account_exists"@,
            "an account already exists for this email"@,
            request_id@,
        ),
{
    ApiError::conflict("account_exists", "an account already exists for this email", request_id)
}

/// What an access token claims.
#[derive(Debug, PartialEq, Eq)]
pub struct AccessClaims {
    pub account_id: String,
    pub account_session_id: String,
    pub issued_at_epoch_millis: u64,
    pub expires_at_epoch_millis: u64,
    pub mfa_verified: bool,
    pub token_type: String,
}

/// Whether the lifetimes of a policy lead to times that can be represented.
pub open spec fn lifetimes_fit(policy: AuthPolicy, now: u64) -> bool {
    &&& now + policy.access_ttl_seconds * 1_000 <= u64::MAX
    &&& now + policy.refresh_ttl_seconds * 1_000 <= u64::MAX
}

/// Whether the lifetimes of a policy lead to times that can be represented.
pub fn lifetimes_are_valid(policy: &AuthPolicy, now: u64) -> (valid: bool)
    ensures
        valid == lifetimes_fit(*policy, now),
{
    let access_valid = match policy.access_ttl_seconds.checked_mul(1_000) {
        Some(millis) => now.checked_add(millis).is_some(),
        None => false,
    };
    let refresh_valid = match policy.refresh_ttl_seconds.checked_mul(1_000) {
        Some(millis) => now.checked_add(millis).is_some(),
        None => false,
    };
    access_valid && refresh_valid
}

/// What the access token of a new session claims.
pub fn access_claims(
    policy: &AuthPolicy,
    account_id: &str,
    account_session_id: &str,
    mfa_verified: bool,
    now: u64,
) -> (claims: AccessClaims)
    requires
        lifetimes_fit(*policy, now),
    ensures
        claims.account_id@ == account_id@,
        claims.account_session_id@ == account_session_id@,
        claims.issued_at_epoch_millis == now,
        claims.expires_at_epoch_millis == now + policy.access_ttl_seconds * 1_000,
        claims.mfa_verified == mfa_verified,
        claims.token_type@ == "access"@,
{
    AccessClaims {
        account_id: account_id.to_owned(),
        account_session_id: account_session_id.to_owned(),
        issued_at_epoch_millis: now,
        expires_at_epoch_millis: now + policy.access_ttl_seconds * 1_000,
        mfa_verified,
        token_type: "access".to_owned(),
    }
}

/// The session that a new pair of tokens stands for. The refresh token itself is not kept, only its
/// digest.
pub open spec fn token_session(
    policy: AuthPolicy,
    account_id: Seq<char>,
    mfa_verified: bool,
    now: u64,
    account_session_id: Seq<char>,
    refresh_token: Seq<char>,
    session: AccountSessionModel,
) -> bool {
    session == (AccountSessionModel {
        account_session_id,
        account_id,
        refresh_token_hash: session.refresh_token_hash,
        mfa_verified,
        expires_at_epoch_millis: (now + policy.refresh_ttl_seconds * 1_000) as u64,
        revoked_at_epoch_millis: None,
        revoked_reason: None,
    }) && session.refresh_token_hash@ == sha256_digest(encode_utf8(refresh_token))
}

/// Builds the tokens and the session of a login or a refresh, from the names and tokens that were
/// drawn for it. `access_token` is the signed token, where it could be signed.
pub fn build_token_bundle(
    policy: &AuthPolicy,
    account_id: &str,
    mfa_verified: bool,
    now: u64,
    account_session_id: String,
    refresh_token: String,
    access_token: Option<String>,
) -> (result: Result<(TokenResponse, AccountSession), Fault>)
    requires
        lifetimes_fit(*policy, now),
    ensures
        result is Ok <==> access_token is Some,
        result is Err ==> result->Err_0@ == FaultModel::Internal,
        result is Ok ==> ({
            let response = result->Ok_0.0;
            &&& response.account_id@ == account_id@
            &&& response.access_token@ == access_token->0@
            &&& response.refresh_token@ == refresh_token@
            &&& response.access_token_expires_at_epoch_millis == now + policy.access_ttl_seconds
                * 1_000
            &&& response.refresh_token_expires_at_epoch_millis == now
                + policy.refresh_ttl_seconds * 1_000
        }),
        result is Ok ==> token_session(
            *policy,
            account_id@,
            mfa_verified,
            now,
            account_session_id@,
            refresh_token@,
            result->Ok_0.1@,
        ),
{
    let access_token = match access_token {
        Some(token) => token,
        None => {
            return Err(Fault::Internal);
        },
    };
    let access_expires: u64 = now + policy.access_ttl_seconds * 1_000;
    let refresh_expires: u64 = now + policy.refresh_ttl_seconds * 1_000;
    let session = AccountSession {
        account_session_id,
        account_id: account_id.to_owned(),
        refresh_token_hash: sha256(refresh_token.as_str().as_bytes()),
        mfa_verified,
        expires_at_epoch_millis: refresh_expires,
        revoked_at_epoch_millis: None,
        revoked_reason: None,
    };
    let response = TokenResponse {
        account_id: account_id.to_owned(),
        access_token,
        refresh_token,
        access_token_expires_at_epoch_millis: access_expires,
        refresh_token_expires_at_epoch_millis: refresh_expires,
    };
    Ok((response, session))
}

/// The refusal of a login whose challenge or proof does not stand. It says the same whatever did
/// not.
pub fn login_verification_error(request_id: &str) -> (error: ApiError)
    ensures
        error@ == login_refusal(request_id@),
{
    ApiError::forbidden(
        "login_verification_failed",
        "login challenge is invalid, expired, consumed, or the proof is incorrect",
        request_id,
    )
}

/// The refusal of a login whose challenge or proof does not stand.
pub open spec fn login_refusal(request_id: Seq<char>) -> ApiErrorModel {
    api_error(
        403,
        "login_verification_failed"@,
        "login challenge is invalid, expired, consumed, or the proof is incorrect"@,
        request_id,
    )
}

/// An entry of the audit log for something that an account did, from one of its devices where one
/// is given.
pub open spec fn account_entry(
    audit_id: Seq<char>,
    request_id: Seq<char>,
    account_id: Seq<char>,
    device_id: Option<Seq<char>>,
    action: Seq<char>,
    result: Seq<char>,
    reason: Option<Seq<char>>,
    now: u64,
) -> AuditEntryModel {
    AuditEntryModel {
        audit_id,
        actor_type: "account"@,
        actor_account_id: Some(account_id),
        actor_device_id: device_id,
        actor_role: None,
        actor_service: None,
        target_device_id: device_id,
        session_id: None,
        action,
        result,
        reason,
        metadata: Map::<Seq<char>, JsonModel>::empty(),
        request_id,
        created_at_epoch_millis: now,
    }
}

/// The characters of an optional borrowed text.
pub open spec fn opt_str(value: Option<&str>) -> Option<Seq<char>> {
    match value {
        Some(text) => Some(text@),
        None => None,
    }
}

/// An owned copy of an optional borrowed text.
pub fn opt_owned(value: Option<&str>) -> (copy: Option<String>)
    ensures
        opt_text(copy) == opt_str(value),
{
    match value {
        Some(text) => Some(text.to_owned()),
        None => None,
    }
}

/// An entry of the audit log for something that an account did.
pub fn auth_audit_entry(
    audit_id: String,
    request_id: &str,
    account_id: &str,
    device_id: Option<&str>,
    action: &str,
    reason: Option<&str>,
    now: u64,
) -> (entry: AuditEntry)
    ensures
        entry@ == account_entry(
            audit_id@,
            request_id@,
            account_id@,
            opt_str(device_id),
            action@,
            "success"@,
            opt_str(reason),
            now,
        ),
{
    AuditEntry {
        audit_id,
        actor_type: "account".to_owned(),
        actor_account_id: Some(account_id.to_owned()),
        actor_device_id: opt_owned(device_id),
        actor_role: None,
        actor_service: None,
        target_device_id: opt_owned(device_id),
        session_id: None,
        action: action.to_owned(),
        result: "success".to_owned(),
        reason: opt_owned(reason),
        metadata: Table::new(),
        request_id: request_id.to_owned(),
        created_at_epoch_millis: now,
    }
}

/// An entry of the audit log for something that an account failed to do.
pub fn auth_failure_audit_entry(
    audit_id: String,
    request_id: &str,
    account_id: &str,
    device_id: Option<&str>,
    action: &str,
    reason: Option<&str>,
    now: u64,
) -> (entry: AuditEntry)
    ensures
        entry@ == account_entry(
            audit_id@,
            request_id@,
            account_id@,
            opt_str(device_id),
            action@,
            "failure"@,
            opt_str(reason),
            now,
        ),
{
    let mut entry = auth_audit_entry(
        audit_id,
        request_id,
        account_id,
        device_id,
        action,
        reason,
        now,
    );
    entry.result = "failure".to_owned();
    entry
}

/// The text whose digest failed logins are counted under: the account, or the address where no
/// account has it.
pub open spec fn login_failure_text(account: Option<&Account>, email: Seq<char>) -> Seq<char> {
    match account {
        Some(account) => "rctl-login-limit-v1\0account\0"@ + account@.account_id,
        None => "rctl-login-limit-v1\0email\0"@ + email,
    }
}

/// The key that failed logins are counted under. It does not show the address.
pub fn login_failure_key(account: Option<&Account>, normalized_email: &str) -> (key: String)
    ensures
        key@ == hex_text(
            sha256_digest(encode_utf8(login_failure_text(account, normalized_email@))),
        ),
        key@.len() == 64,
{
    let mut text = match account {
        Some(_) => "rctl-login-limit-v1\0account\0".to_owned(),
        None => "rctl-login-limit-v1\0email\0".to_owned(),
    };
    match account {
        Some(account) => {
            text.append(account.account_id.as_str());
        },
        None => {
            text.append(normalized_email);
        },
    }
    let digest = sha256(text.as_str().as_bytes());
    assert(digest@.len() == 32);
    encode_hex(digest.as_slice())
}

/// The purpose of a challenge that is held for a short time.
#[derive(Debug, Clone, Copy, PartialEq, Eq, Structural)]
pub enum ChallengePurpose {
    LoginMfa,
}

/// A challenge as it is held for a short time.
#[derive(Debug, PartialEq, Eq)]
pub struct AuthChallenge {
    pub challenge_id: String,
    pub account_id: String,
    pub device_id: Option<String>,
    pub purpose: ChallengePurpose,
    pub operation_binding_hash: Option<String>,
    pub login: Option<LoginChallengeContext>,
    pub attempts_remaining: u8,
    pub expires_at_epoch_millis: u64,
    pub verified_at_epoch_millis: Option<u64>,
    pub consumed_at_epoch_millis: Option<u64>,
}

/// The model of [`AuthChallenge`].
pub struct AuthChallengeModel {
    pub challenge_id: Seq<char>,
    pub account_id: Seq<char>,
    pub device_id: Option<Seq<char>>,
    pub purpose: ChallengePurpose,
    pub operation_binding_hash: Option<Seq<char>>,
    pub login: Option<LoginChallengeContextModel>,
    pub attempts_remaining: u8,
    pub expires_at_epoch_millis: u64,
    pub verified_at_epoch_millis: Option<u64>,
    pub consumed_at_epoch_millis: Option<u64>,
}

impl View for AuthChallenge {
    type V = AuthChallengeModel;

    open spec fn view(&self) -> AuthChallengeModel {
        AuthChallengeModel {
            challenge_id: self.challenge_id@,
            account_id: self.account_id@,
            device_id: opt_text(self.device_id),
            purpose: self.purpose,
            operation_binding_hash: opt_text(self.operation_binding_hash),
            login: opt_model(self.login),
            attempts_remaining: self.attempts_remaining,
            expires_at_epoch_millis: self.expires_at_epoch_millis,
            verified_at_epoch_millis: self.verified_at_epoch_millis,
            consumed_at_epoch_millis: self.consumed_at_epoch_millis,
        }
    }
}

/// A stored login challenge as it is held for a short time.
pub fn auth_challenge_from_authority(authority: &LoginChallengeAuthority) -> (challenge:
    AuthChallenge)
    ensures
        challenge@ == (AuthChallengeModel {
            challenge_id: authority@.challenge.risk_challenge_id,
            account_id: authority@.challenge.account_id,
            device_id: authority@.challenge.device_id,
            purpose: ChallengePurpose::LoginMfa,
            operation_binding_hash: Some(hex_text(authority@.challenge.operation_binding_hash@)),
            login: Some(authority@.context),
            attempts_remaining: authority@.challenge.attempts_remaining,
            expires_at_epoch_millis: authority@.challenge.expires_at_epoch_millis,
            verified_at_epoch_millis: authority@.challenge.verified_at_epoch_millis,
            consumed_at_epoch_millis: authority@.challenge.consumed_at_epoch_millis,
        }),
{
    let stored = &authority.challenge;
    AuthChallenge {
        challenge_id: stored.risk_challenge_id.clone(),
        account_id: stored.account_id.clone(),
        device_id: opt_text_copy(&stored.device_id),
        purpose: ChallengePurpose::LoginMfa,
        operation_binding_hash: Some(encode_hex(stored.operation_binding_hash.as_slice())),
        login: Some(authority.context.duplicate()),
        attempts_remaining: stored.attempts_remaining,
        expires_at_epoch_millis: stored.expires_at_epoch_millis,
        verified_at_epoch_millis: stored.verified_at_epoch_millis,
        consumed_at_epoch_millis: stored.consumed_at_epoch_millis,
    }
}

} // verus!
