use vstd::prelude::*;

verus! {

/// Stores a new account session.
pub const INSERT_ACCOUNT_SESSION_SQL: &'static str = "INSERT INTO account_sessions (account_session_id, account_id,
        refresh_token_hash, mfa_verified, device_label, expires_at_epoch_millis,
        revoked_at_epoch_millis, revoked_reason, created_at_epoch_millis,
        updated_at_epoch_millis)
     VALUES ($1,$2,$3,$4,'unified-client',$5,NULL,NULL,$6,$6)";

/// Finds the session that a refresh token renews, while both it and its account can be used.
pub const LOAD_REFRESH_ACCOUNT_SESSION_SQL: &'static str = "SELECT s.account_session_id, s.account_id, s.refresh_token_hash,
            s.mfa_verified, s.expires_at_epoch_millis, s.revoked_at_epoch_millis,
            s.revoked_reason
     FROM account_sessions s
     JOIN accounts a ON a.account_id=s.account_id
     WHERE s.refresh_token_hash=$1 AND s.revoked_at_epoch_millis IS NULL
       AND s.revoked_reason IS NULL AND s.expires_at_epoch_millis > $2
       AND a.status='active'";

/// Revokes the session that a refresh token renews.
pub const ROTATE_REFRESH_ACCOUNT_SESSION_SQL: &'static str = "UPDATE account_sessions
     SET revoked_at_epoch_millis=$3, revoked_reason='refresh_replay',
         updated_at_epoch_millis=$3
     WHERE refresh_token_hash=$1 AND account_id=$2 AND mfa_verified=$4
       AND revoked_at_epoch_millis IS NULL AND revoked_reason IS NULL
       AND expires_at_epoch_millis > $3
     RETURNING account_session_id, account_id, refresh_token_hash, mfa_verified,
               expires_at_epoch_millis, revoked_at_epoch_millis, revoked_reason";

/// Reads every account session.
pub const LOAD_ACCOUNT_SESSIONS_SQL: &'static str = "SELECT account_session_id, account_id, refresh_token_hash, mfa_verified,
            expires_at_epoch_millis, revoked_at_epoch_millis, revoked_reason
     FROM account_sessions";

/// Stores an account session, new or changed. A revocation is never taken back.
pub const UPSERT_ACCOUNT_SESSION_SQL: &'static str = "INSERT INTO account_sessions (account_session_id, account_id, refresh_token_hash,
        mfa_verified, device_label, expires_at_epoch_millis, revoked_at_epoch_millis,
        revoked_reason, created_at_epoch_millis, updated_at_epoch_millis)
     VALUES ($1,$2,$3,$4,'unified-client',$5,$6,$7,$8,$8)
     ON CONFLICT (account_session_id) DO UPDATE SET
        refresh_token_hash=EXCLUDED.refresh_token_hash,
        mfa_verified=EXCLUDED.mfa_verified,
        expires_at_epoch_millis=EXCLUDED.expires_at_epoch_millis,
        revoked_at_epoch_millis=COALESCE(
            account_sessions.revoked_at_epoch_millis,
            EXCLUDED.revoked_at_epoch_millis),
        revoked_reason=COALESCE(
            account_sessions.revoked_reason, EXCLUDED.revoked_reason),
        updated_at_epoch_millis=EXCLUDED.updated_at_epoch_millis";

/// Reads devices with their policies.
pub const DEVICE_AUTHORITY_SELECT: &'static str = "SELECT d.device_id, d.account_id, d.display_name, d.platform, d.os_version, \
            d.arch, d.public_key_id, d.public_key, d.public_key_version, \
            d.public_key_revoked_at_epoch_millis, d.unattended_enabled, \
            d.status, d.last_seen_epoch_millis, d.created_at_epoch_millis, \
            d.updated_at_epoch_millis, \
            COALESCE(p.allow_remote_desktop, FALSE) AS allow_remote_desktop, \
            COALESCE(p.allow_file_transfer, FALSE) AS allow_file_transfer, \
            COALESCE(p.allow_unattended, FALSE) AS allow_unattended \
     FROM devices d LEFT JOIN device_policies p ON p.device_id = d.device_id";

/// Reads sessions.
pub const SESSION_AUTHORITY_SELECT: &'static str = "SELECT session_id, controller_account_id, controller_device_id, \
            controlled_device_id, auth_method, status, permissions, permissions_digest, \
            policy_evaluation_id, relay_token_epoch, session_expires_at_epoch_millis, \
            created_at_epoch_millis, updated_at_epoch_millis, ended_at_epoch_millis \
     FROM sessions";

} // verus!
