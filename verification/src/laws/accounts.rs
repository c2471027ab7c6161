use crate::account::{Account, AccountSession, AccountStatus};
use crate::account_sessions::{
    publish_logout, publish_refresh, revoke_account_session, rotate_refresh_session,
    RefreshRotation,
};
use crate::api::{ApiError, Fault};
use crate::audit::{AuditEntry, AuditEntryModel, JsonModel};
use crate::auth::{
    access_claims, add_account, add_account_session, auth_audit_entry,
    auth_challenge_from_authority, auth_failure_audit_entry, build_token_bundle, check_registration,
    lifetimes_are_valid, login_failure_key, new_account, normalize_email, validate_device_id,
    validate_password, validate_protocol_version, AccessClaims, AuthChallenge, AuthPolicy,
    ChallengePurpose, RegisterRequest, TokenResponse,
};
use crate::challenge::{LoginChallengeAuthority, LoginDeviceState};
use crate::codec::{array_of, hex_text};
use crate::database::Database;
use crate::hash::sha256_digest;
use crate::login::{
    check_login_request, login_challenge_response, LoginChallengeResponse, LoginRequest,
};
use crate::rows::AccountSessionRow;
use crate::store::{PersistenceError, StoreError};
use crate::text::{ascii_lower, blank, texts, trimmed};
use vstd::prelude::*;
use vstd::utf8::{encode_utf8, is_ascii_chars};

verus! {

/// A live refresh token is renewed, whether or not its session passed a second factor. A stored
/// session of an active account that is neither revoked nor expired, under the token's hash, is
/// renewed by any fresh replacement of the same account that carries the same mark of a second
/// factor; the old session is then revoked as replayed, and nothing else of it changes.
pub proof fn a_live_refresh_token_is_renewed(
    refresh_token_hash: &[u8; 32],
    replacement: &AccountSession,
    audit_entry: &AuditEntry,
    now: u64,
    row: AccountSessionRow,
    result: Result<Option<RefreshRotation>, StoreError>,
)
    requires
        call_ensures(
            rotate_refresh_session,
            (refresh_token_hash, replacement, audit_entry, now, true, Some(row)),
            result,
        ),
        replacement@.revoked_at_epoch_millis is None,
        replacement@.revoked_reason is None,
        replacement@.expires_at_epoch_millis > now,
        audit_entry@.actor_account_id == Some(replacement@.account_id),
        row.refresh_token_hash@ == refresh_token_hash@,
        row.account_id@ == replacement@.account_id,
        row.mfa_verified == replacement@.mfa_verified,
        row.revoked_at_epoch_millis is None,
        row.revoked_reason is None,
        row.expires_at_epoch_millis > now,
    ensures
        result is Ok,
        result->Ok_0 is Some,
        ({
            let revoked = result->Ok_0->0.revoked@;
            let audit = result->Ok_0->0.revocation_audit@;
            &&& revoked.account_session_id == row.account_session_id@
            &&& revoked.account_id == row.account_id@
            &&& revoked.refresh_token_hash@ == row.refresh_token_hash@
            &&& revoked.mfa_verified == row.mfa_verified
            &&& revoked.expires_at_epoch_millis == row.expires_at_epoch_millis
            &&& revoked.revoked_at_epoch_millis == Some(now)
            &&& revoked.revoked_reason == Some("refresh_replay"@)
            &&& audit.action == "account_session_revoked"@
            &&& audit.result == "success"@
            &&& audit.reason == Some("refresh_replay"@)
            &&& audit.actor_account_id == Some(row.account_id@)
            &&& audit.metadata["account_session_id"@] == JsonModel::Text(row.account_session_id@)
            &&& audit.metadata["revoked_reason"@] == JsonModel::Text("refresh_replay"@)
            &&& audit.created_at_epoch_millis == audit_entry@.created_at_epoch_millis
            &&& audit.request_id == audit_entry@.request_id
        }),
{
    lemma_metadata_keys_differ();
    lemma_digest_kept(*refresh_token_hash);
}

proof fn lemma_digest_kept(digest: [u8; 32])
    ensures
        array_of::<32>(digest@)@ == digest@,
{
    let chosen = array_of::<32>(digest@);
    assert(exists|array: [u8; 32]| #[trigger] array@ == digest@);
}

proof fn lemma_metadata_keys_differ()
    ensures
        "account_session_id"@ != "revoked_reason"@,
        "trusted_device_id"@ != "revoked_reason"@,
{
    reveal_strlit("account_session_id");
    reveal_strlit("trusted_device_id");
    reveal_strlit("revoked_reason");
    assert("account_session_id"@.len() != "revoked_reason"@.len());
    assert("trusted_device_id"@.len() != "revoked_reason"@.len());
}

/// Only a live refresh token is renewed: the account is active, and the stored session has the
/// token's hash, the replacement's account and mark of a second factor, and is neither revoked nor
/// expired. A replacement that is itself revoked, expired or logged for another account conflicts.
pub proof fn only_a_live_refresh_token_is_renewed(
    refresh_token_hash: &[u8; 32],
    replacement: &AccountSession,
    audit_entry: &AuditEntry,
    now: u64,
    account_active: bool,
    found: Option<AccountSessionRow>,
    result: Result<Option<RefreshRotation>, StoreError>,
)
    requires
        call_ensures(
            rotate_refresh_session,
            (refresh_token_hash, replacement, audit_entry, now, account_active, found),
            result,
        ),
    ensures
        result == Err::<Option<RefreshRotation>, _>(StoreError::Conflict) <==> (
        replacement@.revoked_at_epoch_millis is Some || replacement@.revoked_reason is Some
            || replacement@.expires_at_epoch_millis <= now || audit_entry@.actor_account_id != Some(
            replacement@.account_id,
        )),
        result is Ok && result->Ok_0 is Some ==> {
            &&& account_active
            &&& found is Some
            &&& found->0.refresh_token_hash@ == refresh_token_hash@
            &&& found->0.account_id@ == replacement@.account_id
            &&& found->0.mfa_verified == replacement@.mfa_verified
            &&& found->0.revoked_at_epoch_millis is None
            &&& found->0.revoked_reason is None
            &&& found->0.expires_at_epoch_millis > now
        },
        result is Err ==> result->Err_0 == StoreError::Conflict || account_active && found is Some,
{
}

/// After a renewal the old session stands revoked under its name and the new one under its own,
/// two entries are logged in that order, and every other session is as it was.
pub proof fn a_renewal_replaces_one_session(
    database: &mut Database,
    rotation: RefreshRotation,
    replacement: &AccountSession,
    audit_entry: &AuditEntry,
    written: &Result<(), PersistenceError>,
    result: Result<(), StoreError>,
    other: Seq<char>,
)
    requires
        call_ensures(
            publish_refresh,
            (database, rotation, replacement, audit_entry, written),
            result,
        ),
        *written is Ok,
        rotation.revoked@.account_session_id != replacement@.account_session_id,
    ensures
        result is Ok,
        ({
            let revoked = rotation.revoked@;
            let replacement = replacement@;
            let before = old(database)@;
            let after = final(database)@;
            &&& after.account_sessions.contains_key(revoked.account_session_id)
            &&& after.account_sessions[revoked.account_session_id] == revoked
            &&& after.account_sessions.contains_key(replacement.account_session_id)
            &&& after.account_sessions[replacement.account_session_id] == replacement
            &&& after.audit_logs == before.audit_logs.push(rotation.revocation_audit@).push(
                audit_entry@,
            )
            &&& other != revoked.account_session_id && other != replacement.account_session_id ==> (
            after.account_sessions.contains_key(other) == before.account_sessions.contains_key(
                other,
            ) && after.account_sessions[other] == before.account_sessions[other])
            &&& after.accounts == before.accounts
            &&& after.devices == before.devices
            &&& after.mfa_factors == before.mfa_factors
            &&& after.trusted_controller_devices == before.trusted_controller_devices
        }),
{
}

/// The session that a token bundle is issued with can itself be renewed later, by the bundle's own
/// refresh token, until it expires: issuing and renewing agree on the hash, on the account and on
/// the mark of a second factor.
pub proof fn an_issued_refresh_token_can_be_renewed(
    policy: &AuthPolicy,
    account_id: &str,
    mfa_verified: bool,
    issued: u64,
    account_session_id: String,
    refresh_token: String,
    access_token: Option<String>,
    bundle: Result<(TokenResponse, AccountSession), Fault>,
    row: AccountSessionRow,
    refresh_token_hash: &[u8; 32],
    replacement: &AccountSession,
    audit_entry: &AuditEntry,
    now: u64,
    result: Result<Option<RefreshRotation>, StoreError>,
)
    requires
        call_ensures(
            build_token_bundle,
            (
                policy,
                account_id,
                mfa_verified,
                issued,
                account_session_id,
                refresh_token,
                access_token,
            ),
            bundle,
        ),
        bundle is Ok,
        now < issued + policy.refresh_ttl_seconds * 1_000 <= i64::MAX,
        row.account_session_id@ == bundle->Ok_0.1@.account_session_id,
        row.account_id@ == bundle->Ok_0.1@.account_id,
        row.refresh_token_hash@ == bundle->Ok_0.1@.refresh_token_hash@,
        row.mfa_verified == bundle->Ok_0.1@.mfa_verified,
        row.expires_at_epoch_millis == bundle->Ok_0.1@.expires_at_epoch_millis,
        row.revoked_at_epoch_millis is None,
        row.revoked_reason is None,
        bundle->Ok_0.1@.revoked_at_epoch_millis is None,
        refresh_token_hash@ == sha256_digest(encode_utf8(bundle->Ok_0.0.refresh_token@)),
        replacement@.account_id == account_id@,
        replacement@.mfa_verified == mfa_verified,
        replacement@.revoked_at_epoch_millis is None,
        replacement@.revoked_reason is None,
        replacement@.expires_at_epoch_millis > now,
        audit_entry@.actor_account_id == Some(account_id@),
        call_ensures(
            rotate_refresh_session,
            (refresh_token_hash, replacement, audit_entry, now, true, Some(row)),
            result,
        ),
    ensures
        result is Ok,
        result->Ok_0 is Some,
        result->Ok_0->0.revoked@.account_session_id == account_session_id@,
{
}

/// A token bundle carries the tokens that were drawn, both live for the times that the policy
/// gives them, and its session is open, belongs to the account and expires with the refresh token.
pub proof fn a_token_bundle_lives_as_long_as_the_policy_says(
    policy: &AuthPolicy,
    account_id: &str,
    mfa_verified: bool,
    now: u64,
    account_session_id: String,
    refresh_token: String,
    access_token: Option<String>,
    result: Result<(TokenResponse, AccountSession), Fault>,
)
    requires
        now + policy.refresh_ttl_seconds * 1_000 <= u64::MAX,
        call_ensures(
            build_token_bundle,
            (
                policy,
                account_id,
                mfa_verified,
                now,
                account_session_id,
                refresh_token,
                access_token,
            ),
            result,
        ),
    ensures
        access_token is None ==> result is Err && result->Err_0 is Internal,
        access_token is Some ==> result is Ok && {
            let response = result->Ok_0.0;
            let session = result->Ok_0.1@;
            &&& response.account_id@ == account_id@
            &&& response.access_token@ == access_token->0@
            &&& response.refresh_token@ == refresh_token@
            &&& response.access_token_expires_at_epoch_millis - now == policy.access_ttl_seconds
                * 1_000
            &&& response.refresh_token_expires_at_epoch_millis - now == policy.refresh_ttl_seconds
                * 1_000
            &&& session.expires_at_epoch_millis == response.refresh_token_expires_at_epoch_millis
            &&& session.account_id == account_id@
            &&& session.account_session_id == account_session_id@
            &&& session.mfa_verified == mfa_verified
            &&& session.revoked_at_epoch_millis is None
            &&& session.revoked_reason is None
            &&& session.refresh_token_hash@ == sha256_digest(encode_utf8(refresh_token@))
        },
{
}

/// An access token speaks for the account and the session that it is issued for, from now on for
/// the time that the policy gives, and ends when the bundle says it does.
pub proof fn an_access_token_lives_as_long_as_its_bundle_says(
    policy: &AuthPolicy,
    account_id: &str,
    account_session_id: &str,
    mfa_verified: bool,
    now: u64,
    claims: AccessClaims,
    bundle_session_id: String,
    refresh_token: String,
    access_token: Option<String>,
    bundle: Result<(TokenResponse, AccountSession), Fault>,
)
    requires
        call_ensures(
            access_claims,
            (policy, account_id, account_session_id, mfa_verified, now),
            claims,
        ),
        call_ensures(
            build_token_bundle,
            (
                policy,
                account_id,
                mfa_verified,
                now,
                bundle_session_id,
                refresh_token,
                access_token,
            ),
            bundle,
        ),
        bundle is Ok,
    ensures
        claims.account_id@ == account_id@,
        claims.account_session_id@ == account_session_id@,
        claims.mfa_verified == mfa_verified,
        claims.token_type@ == "access"@,
        claims.issued_at_epoch_millis == now,
        claims.expires_at_epoch_millis - claims.issued_at_epoch_millis == policy.access_ttl_seconds
            * 1_000,
        claims.expires_at_epoch_millis == bundle->Ok_0.0.access_token_expires_at_epoch_millis,
        bundle->Ok_0.1@.account_id == claims.account_id@,
        bundle->Ok_0.1@.mfa_verified == claims.mfa_verified,
{
}

/// The lifetimes of a policy are valid exactly when both tokens end within the range of times.
pub proof fn lifetimes_are_valid_within_the_range_of_times(
    policy: &AuthPolicy,
    now: u64,
    valid: bool,
)
    requires
        call_ensures(lifetimes_are_valid, (policy, now), valid),
    ensures
        valid <==> now + policy.access_ttl_seconds * 1_000 <= u64::MAX && now
            + policy.refresh_ttl_seconds * 1_000 <= u64::MAX,
{
}

/// Logging out revokes an open session of the account, and answers nothing for one that is revoked,
/// of another account or not there. It is logged by the account itself, as a success.
pub proof fn a_logout_revokes_an_open_session(
    account_session_id: &str,
    account_id: &str,
    audit_entry: &AuditEntry,
    found: &Option<AccountSessionRow>,
    result: Result<Option<AuditEntry>, StoreError>,
)
    requires
        call_ensures(
            revoke_account_session,
            (account_session_id, account_id, audit_entry, found),
            result,
        ),
    ensures
        result is Err <==> audit_entry@.actor_account_id != Some(account_id@)
            || audit_entry@.action != "logout"@ || audit_entry@.result != "success"@,
        result is Err ==> result->Err_0 == StoreError::Conflict,
        result is Ok ==> (result->Ok_0 is Some <==> *found is Some && found->0.account_id@
            == account_id@ && found->0.revoked_at_epoch_millis is None && found->0.revoked_reason
            is None),
        result is Ok && result->Ok_0 is Some ==> {
            let audit = result->Ok_0->0@;
            &&& audit.action == "account_session_revoked"@
            &&& audit.result == "success"@
            &&& audit.reason == Some("logout"@)
            &&& audit.actor_account_id == Some(account_id@)
            &&& audit.audit_id == audit_entry@.audit_id + ":account-session:"@
                + account_session_id@
            &&& audit.metadata["account_session_id"@] == JsonModel::Text(account_session_id@)
            &&& audit.metadata["revoked_reason"@] == JsonModel::Text("logout"@)
            &&& audit.created_at_epoch_millis == audit_entry@.created_at_epoch_millis
        },
{
    lemma_metadata_keys_differ();
}

/// After a logout the session is revoked at that time, keeps its account and expiry, and can
/// neither be renewed nor logged out again; every other session is as it was.
pub proof fn a_logged_out_session_is_over(
    database: &mut Database,
    session_name: &str,
    now: u64,
    revocation_audit: AuditEntry,
    audit_entry: &AuditEntry,
    written: &Result<(), PersistenceError>,
    result: Result<(), StoreError>,
    other: Seq<char>,
)
    requires
        call_ensures(
            publish_logout,
            (database, session_name, now, revocation_audit, audit_entry, written),
            result,
        ),
        *written is Ok,
    ensures
        result is Ok,
        ({
            let account_session_id = session_name@;
            let after = final(database)@;
            let sessions = after.account_sessions;
            let before = old(database)@.account_sessions;
            &&& sessions.contains_key(account_session_id) == before.contains_key(account_session_id)
            &&& before.contains_key(account_session_id) ==> {
                &&& sessions[account_session_id].revoked_at_epoch_millis == Some(now)
                &&& sessions[account_session_id].revoked_reason == Some("logout"@)
                &&& sessions[account_session_id].account_id == before[account_session_id].account_id
                &&& sessions[account_session_id].account_session_id
                    == before[account_session_id].account_session_id
                &&& sessions[account_session_id].expires_at_epoch_millis
                    == before[account_session_id].expires_at_epoch_millis
                &&& sessions[account_session_id].refresh_token_hash
                    == before[account_session_id].refresh_token_hash
                &&& sessions[account_session_id].mfa_verified
                    == before[account_session_id].mfa_verified
            }
            &&& other != account_session_id ==> (sessions.contains_key(other)
                == before.contains_key(other) && sessions[other] == before[other])
            &&& after.audit_logs == old(database)@.audit_logs.push(revocation_audit@).push(
                audit_entry@,
            )
            &&& after.accounts == old(database)@.accounts
            &&& after.devices == old(database)@.devices
            &&& after.sessions == old(database)@.sessions
        }),
{
}

/// A session that was revoked, for whatever reason, is neither renewed nor logged out any more.
pub proof fn a_revoked_session_is_of_no_use(
    refresh_token_hash: &[u8; 32],
    replacement: &AccountSession,
    audit_entry: &AuditEntry,
    now: u64,
    account_active: bool,
    row: AccountSessionRow,
    renewed: Result<Option<RefreshRotation>, StoreError>,
    account_session_id: &str,
    account_id: &str,
    logout_entry: &AuditEntry,
    logged_out: Result<Option<AuditEntry>, StoreError>,
)
    requires
        row.revoked_at_epoch_millis is Some || row.revoked_reason is Some,
        call_ensures(
            rotate_refresh_session,
            (refresh_token_hash, replacement, audit_entry, now, account_active, Some(row)),
            renewed,
        ),
        call_ensures(
            revoke_account_session,
            (account_session_id, account_id, logout_entry, &Some(row)),
            logged_out,
        ),
    ensures
        !(renewed is Ok && renewed->Ok_0 is Some),
        !(logged_out is Ok && logged_out->Ok_0 is Some),
{
}

/// A registration is accepted exactly with an address, a password of 12 to 256 bytes and a name
/// that is not blank and has at most 100 bytes. The account that follows is active, under the
/// trimmed, lower-case address and the trimmed name.
pub proof fn a_registration_gives_an_active_account(
    request: &RegisterRequest,
    request_id: &str,
    checked: Result<(String, String), ApiError>,
    account_id: String,
    password_hash: String,
    now: u64,
    account: Account,
)
    requires
        call_ensures(check_registration, (request, request_id), checked),
        checked is Ok ==> call_ensures(
            new_account,
            (account_id, checked->Ok_0.0, checked->Ok_0.1, password_hash, now),
            account,
        ),
    ensures
        ({
            let address = trimmed(request.email@).map_values(|c: char| ascii_lower(c));
            let address_fits = encode_utf8(address).len() <= 254 && address.contains('@')
                && address[0] != '@' && address.last() != '@';
            let password_fits = encode_utf8(request.password@).len() >= 12 && encode_utf8(
                request.password@,
            ).len() <= 256;
            let name_fits = !blank(request.display_name@) && encode_utf8(
                request.display_name@,
            ).len() <= 100;
            &&& checked is Ok <==> address_fits && password_fits && name_fits
            &&& !address_fits ==> checked is Err && checked->Err_0@.code == "invalid_email"@
            &&& address_fits && !password_fits ==> checked is Err && checked->Err_0@.code
                == "weak_password"@
            &&& address_fits && password_fits && !name_fits ==> checked is Err
                && checked->Err_0@.code == "invalid_display_name"@
            &&& checked is Err ==> checked->Err_0@.status == 400 && checked->Err_0@.request_id
                == request_id@
            &&& checked is Ok ==> {
                &&& account@.email == address
                &&& account@.display_name == trimmed(request.display_name@)
                &&& account@.account_id == account_id@
                &&& account@.password_hash == password_hash@
                &&& account@.status == AccountStatus::Active
                &&& account@.created_at_epoch_millis == now
                &&& account@.updated_at_epoch_millis == now
            }
        }),
{
}

/// The address of a login is read as the address of the registration was: whatever case and blanks
/// surround it, both give the same text, and both refuse the same addresses.
pub proof fn a_login_finds_the_registered_address(
    registration: &RegisterRequest,
    registered: Result<(String, String), ApiError>,
    login: &LoginRequest,
    supported: u16,
    public_key: &Option<[u8; 32]>,
    client_nonce: &Option<[u8; 32]>,
    request_id: &str,
    checked: Result<String, ApiError>,
)
    requires
        call_ensures(check_registration, (registration, request_id), registered),
        registered is Ok,
        login.email@ == registration.email@,
        login.protocol_version == supported,
        0 < login.device_id@.len(),
        encode_utf8(login.device_id@).len() <= 128,
        is_ascii_chars(login.device_id@),
        *public_key is Some,
        *client_nonce is Some,
        call_ensures(
            check_login_request,
            (login, supported, public_key, client_nonce, request_id),
            checked,
        ),
    ensures
        checked is Ok,
        checked->Ok_0@ == registered->Ok_0.0@,
{
}

/// Checks of single fields answer as documented: a password by its bytes, a protocol version by
/// equality, a device name by its length and its characters.
pub proof fn single_fields_are_checked(
    value: &str,
    version: u16,
    supported: u16,
    request_id: &str,
    password: Result<(), ApiError>,
    protocol: Result<(), ApiError>,
    device_id: Result<(), ApiError>,
    email: Result<String, ApiError>,
)
    requires
        call_ensures(validate_password, (value, request_id), password),
        call_ensures(validate_protocol_version, (version, supported, request_id), protocol),
        call_ensures(validate_device_id, (value, request_id), device_id),
        call_ensures(normalize_email, (value, request_id), email),
    ensures
        password is Ok <==> encode_utf8(value@).len() >= 12 && encode_utf8(value@).len() <= 256,
        password is Err ==> password->Err_0@.status == 400 && password->Err_0@.code
            == "weak_password"@,
        protocol is Ok <==> version == supported,
        protocol is Err ==> protocol->Err_0@.status == 426 && protocol->Err_0@.code
            == "unsupported_version"@,
        device_id is Ok <==> value@.len() > 0 && encode_utf8(value@).len() <= 128 && is_ascii_chars(
            value@,
        ),
        device_id is Err ==> device_id->Err_0@.status == 400 && device_id->Err_0@.code
            == "invalid_device_id"@,
        email is Ok ==> email->Ok_0@ == trimmed(value@).map_values(|c: char| ascii_lower(c)),
        email is Ok ==> email->Ok_0@.contains('@') && email->Ok_0@[0] != '@'
            && email->Ok_0@.last() != '@' && encode_utf8(email->Ok_0@).len() <= 254,
        email is Err ==> email->Err_0@.status == 400 && email->Err_0@.code == "invalid_email"@,
        ({
            let address = trimmed(value@).map_values(|c: char| ascii_lower(c));
            address.contains('@') && address[0] != '@' && address.last() != '@' && encode_utf8(
                address,
            ).len() <= 254 ==> email is Ok
        }),
{
}

/// A new account is found under its address and under its name, and no other account or address is
/// touched. A second account under an address is refused, and then nothing changes.
pub proof fn an_address_gives_one_account(
    database: &mut Database,
    account: &Account,
    result: Result<(), StoreError>,
    other: Seq<char>,
)
    requires
        call_ensures(add_account, (database, account), result),
    ensures
        ({
            let before = old(database)@;
            let after = final(database)@;
            &&& result is Ok <==> !before.account_by_email.contains_key(account@.email)
            &&& result is Err ==> result->Err_0 == StoreError::Conflict && after == before
            &&& result is Ok ==> {
                &&& after.account_by_email.contains_key(account@.email)
                &&& after.account_by_email[account@.email] == account@.account_id
                &&& after.accounts.contains_key(account@.account_id)
                &&& after.accounts[account@.account_id] == account@
                &&& other != account@.email ==> (after.account_by_email.contains_key(other)
                    == before.account_by_email.contains_key(other) && after.account_by_email[other]
                    == before.account_by_email[other])
                &&& other != account@.account_id ==> (after.accounts.contains_key(other)
                    == before.accounts.contains_key(other) && after.accounts[other]
                    == before.accounts[other])
                &&& after.account_sessions == before.account_sessions
                &&& after.audit_logs == before.audit_logs
            }
        }),
{
}

/// A new session is held under its name, and no other session is touched. A second session under a
/// name is refused, and then nothing changes.
pub proof fn a_name_gives_one_account_session(
    database: &mut Database,
    session: &AccountSession,
    result: Result<(), StoreError>,
    other: Seq<char>,
)
    requires
        call_ensures(add_account_session, (database, session), result),
    ensures
        ({
            let before = old(database)@;
            let after = final(database)@;
            let id = session@.account_session_id;
            &&& result is Ok <==> !before.account_sessions.contains_key(id)
            &&& result is Err ==> result->Err_0 == StoreError::Conflict && after == before
            &&& result is Ok ==> {
                &&& after.account_sessions.contains_key(id)
                &&& after.account_sessions[id] == session@
                &&& other != id ==> (after.account_sessions.contains_key(other)
                    == before.account_sessions.contains_key(other) && after.account_sessions[other]
                    == before.account_sessions[other])
                &&& after.accounts == before.accounts
                &&& after.audit_logs == before.audit_logs
            }
        }),
{
}

/// What is logged for an account names that account as the actor and keeps what it was called with,
/// as a success or as a failure.
pub proof fn an_account_entry_names_its_account(
    audit_id: String,
    request_id: &str,
    account_id: &str,
    device_id: Option<&str>,
    action: &str,
    reason: Option<&str>,
    now: u64,
    success: AuditEntry,
    failure: AuditEntry,
)
    requires
        call_ensures(
            auth_audit_entry,
            (audit_id, request_id, account_id, device_id, action, reason, now),
            success,
        ),
        call_ensures(
            auth_failure_audit_entry,
            (audit_id, request_id, account_id, device_id, action, reason, now),
            failure,
        ),
    ensures
        success@.result == "success"@,
        failure@.result == "failure"@,
        success@ == (AuditEntryModel { result: success@.result, ..failure@ }),
        success@.audit_id == audit_id@,
        success@.request_id == request_id@,
        success@.actor_type == "account"@,
        success@.actor_account_id == Some(account_id@),
        success@.actor_device_id is Some <==> device_id is Some,
        device_id is Some ==> success@.actor_device_id == Some(device_id->0@)
            && success@.target_device_id == Some(device_id->0@),
        success@.actor_role is None,
        success@.actor_service is None,
        success@.session_id is None,
        success@.action == action@,
        success@.reason is Some <==> reason is Some,
        reason is Some ==> success@.reason == Some(reason->0@),
        success@.created_at_epoch_millis == now,
{
}

/// Failed logins of one account are counted together, whatever address they were tried under, and
/// those of an unknown address by the address.
pub proof fn failures_are_counted_per_account(
    account: &Account,
    email: &str,
    other_email: &str,
    known: String,
    known_again: String,
    unknown: String,
)
    requires
        call_ensures(login_failure_key, (Some(account), email), known),
        call_ensures(login_failure_key, (Some(account), other_email), known_again),
        call_ensures(login_failure_key, (None, email), unknown),
    ensures
        known@ == known_again@,
        known@ == hex_text(
            sha256_digest(
                encode_utf8("rctl-login-limit-v1\0account\0"@ + account@.account_id),
            ),
        ),
        unknown@ == hex_text(
            sha256_digest(encode_utf8("rctl-login-limit-v1\0email\0"@ + email@)),
        ),
        known@.len() == 64,
        unknown@.len() == 64,
{
}

/// A login challenge is shown to its caller as it was issued.
pub proof fn a_login_challenge_is_shown_as_issued(
    authority: &LoginChallengeAuthority,
    shown: AuthChallenge,
    response: LoginChallengeResponse,
)
    requires
        call_ensures(auth_challenge_from_authority, (authority,), shown),
        call_ensures(login_challenge_response, (authority,), response),
    ensures
        shown@.challenge_id == authority@.challenge.risk_challenge_id,
        response.login_challenge_id@ == shown@.challenge_id,
        shown@.account_id == authority@.challenge.account_id,
        response.account_id@ == shown@.account_id,
        shown@.device_id == authority@.challenge.device_id,
        shown@.purpose == ChallengePurpose::LoginMfa,
        shown@.operation_binding_hash == Some(
            hex_text(authority@.challenge.operation_binding_hash@),
        ),
        shown@.login == Some(authority@.context),
        shown@.attempts_remaining == authority@.challenge.attempts_remaining,
        response.attempts_remaining == shown@.attempts_remaining,
        shown@.expires_at_epoch_millis == authority@.challenge.expires_at_epoch_millis,
        response.expires_at_epoch_millis == shown@.expires_at_epoch_millis,
        shown@.verified_at_epoch_millis == authority@.challenge.verified_at_epoch_millis,
        shown@.consumed_at_epoch_millis == authority@.challenge.consumed_at_epoch_millis,
        response.code@ == "login_challenge_required"@,
        response.login_request_binding_hash@ == hex_text(
            authority@.context.login_request_binding_hash@,
        ),
        response.login_challenge_binding_hash@ == hex_text(
            authority@.context.login_challenge_binding_hash@,
        ),
        response.server_nonce == authority@.context.server_nonce,
        texts(response.required_factors@) == authority@.context.required_factors,
        authority@.context.device_state == LoginDeviceState::Registered
            ==> response.device_state@ == "registered"@,
        authority@.context.device_state == LoginDeviceState::PendingEnrollment
            ==> response.device_state@ == "pending_enrollment"@,
{
}

} // verus!
