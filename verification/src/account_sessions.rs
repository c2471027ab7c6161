use crate::account::{AccountSession, AccountSessionModel};
use crate::audit::{AuditEntry, AuditEntryModel};
use crate::bytes::bytes_eq;
use crate::codec::{stored_time, to_i64_lossless};
use crate::database::{append_log, Database, DatabaseModel};
use crate::revocation::{
    account_session_revocation, account_session_revocation_audit, revoked_session,
};
use crate::rows::{
    account_session_from_row, account_session_row_model, account_session_row_problem,
    session_revoking_row, AccountSessionRow,
};
use crate::store::{
    answer_after, audit_id_taken, audit_ids_unique, check_written, state_after, PersistenceError,
    StoreError,
};
use crate::table::Record;
use crate::text::{opt_text_is, text_eq};
use vstd::prelude::*;

verus! {

/// Whether a session can take the place of the one that a refresh token renews.
pub open spec fn replacement_fits(
    replacement: AccountSessionModel,
    audit_entry: AuditEntryModel,
    now: u64,
) -> bool {
    &&& replacement.revoked_at_epoch_millis is None
    &&& replacement.revoked_reason is None
    &&& replacement.expires_at_epoch_millis > now
    &&& audit_entry.actor_account_id == Some(replacement.account_id)
}

/// Whether the session under a refresh token is the one that a replacement takes the place of: of
/// the same account and with the same proof, not revoked, and in time.
pub open spec fn session_renewable(
    row: AccountSessionRow,
    refresh_token_hash: Seq<u8>,
    replacement: AccountSessionModel,
    now: u64,
) -> bool {
    &&& row.refresh_token_hash@ == refresh_token_hash
    &&& row.account_id@ == replacement.account_id
    &&& row.mfa_verified == replacement.mfa_verified
    &&& row.revoked_at_epoch_millis is None
    &&& row.revoked_reason is None
    &&& row.expires_at_epoch_millis > now
}

/// What a refresh writes besides the session that it creates.
#[derive(Debug, PartialEq, Eq)]
pub struct RefreshRotation {
    /// The session that the refresh token renewed, revoked.
    pub revoked: AccountSession,
    pub revocation_audit: AuditEntry,
}

/// Decides the refresh of a session. The session that the token renews is revoked as replayed, so
/// that the token serves once; where it cannot be renewed, nothing is.
pub fn rotate_refresh_session(
    refresh_token_hash: &[u8; 32],
    replacement: &AccountSession,
    audit_entry: &AuditEntry,
    now_epoch_millis: u64,
    account_active: bool,
    found: Option<AccountSessionRow>,
) -> (result: Result<Option<RefreshRotation>, StoreError>)
    ensures
        ({
            let row = found->0;
            let renewable = found is Some && session_renewable(
                row,
                refresh_token_hash@,
                replacement@,
                now_epoch_millis,
            );
            if !replacement_fits(replacement@, audit_entry@, now_epoch_millis) {
                result == Err::<Option<RefreshRotation>, _>(StoreError::Conflict)
            } else if !account_active || !renewable {
                result == Ok::<Option<RefreshRotation>, StoreError>(None)
            } else if account_session_row_problem(session_revoking_row(row, now_epoch_millis))
                is Some {
                result == Err::<Option<RefreshRotation>, _>(StoreError::Unavailable)
            } else {
                &&& result is Ok && result->Ok_0 is Some
                &&& result->Ok_0->0.revoked@ == revoked_session(
                    account_session_row_model(session_revoking_row(row, now_epoch_millis)),
                    "refresh_replay"@,
                    stored_time(now_epoch_millis),
                )
                &&& result->Ok_0->0.revocation_audit@ == account_session_revocation(
                    audit_entry@,
                    row.account_session_id@,
                    "refresh_replay"@,
                )
            }
        }),
{
    if replacement.revoked_at_epoch_millis.is_some() || replacement.revoked_reason.is_some()
        || replacement.expires_at_epoch_millis <= now_epoch_millis || !opt_text_is(
        &audit_entry.actor_account_id,
        replacement.account_id.as_str(),
    ) {
        return Err(StoreError::Conflict);
    }
    if !account_active {
        return Ok(None);
    }
    let row = match found {
        Some(row) => row,
        None => {
            return Ok(None);
        },
    };
    if !bytes_eq(row.refresh_token_hash.as_slice(), refresh_token_hash.as_slice()) || !text_eq(
        row.account_id.as_str(),
        replacement.account_id.as_str(),
    ) || row.mfa_verified != replacement.mfa_verified || row.revoked_at_epoch_millis.is_some()
        || row.revoked_reason.is_some() || row.expires_at_epoch_millis < 0
        || row.expires_at_epoch_millis as u64 <= now_epoch_millis {
        return Ok(None);
    }
    let mut revoking = row;
    revoking.revoked_at_epoch_millis = Some(to_i64_lossless(now_epoch_millis));
    assert(revoking == session_revoking_row(found->0, now_epoch_millis));
    match account_session_from_row(revoking) {
        Err(_) => Err(StoreError::Unavailable),
        Ok(session) => {
            let mut revoked = session;
            revoked.revoked_reason = Some("refresh_replay".to_owned());
            let revocation_audit = account_session_revocation_audit(
                audit_entry,
                revoked.account_session_id.as_str(),
                "refresh_replay",
            );
            Ok(Some(RefreshRotation { revoked, revocation_audit }))
        },
    }
}

/// The database after the refresh of a session.
pub open spec fn after_refresh(
    database: DatabaseModel,
    revoked: AccountSessionModel,
    revocation_audit: AuditEntryModel,
    replacement: AccountSessionModel,
    audit_entry: AuditEntryModel,
) -> DatabaseModel {
    DatabaseModel {
        account_sessions: database.account_sessions.insert(
            revoked.account_session_id,
            revoked,
        ).insert(replacement.account_session_id, replacement),
        audit_logs: database.audit_logs.push(revocation_audit).push(audit_entry),
        ..database
    }
}

/// Publishes the refresh of a session.
pub fn publish_refresh(
    database: &mut Database,
    rotation: RefreshRotation,
    replacement: &AccountSession,
    audit_entry: &AuditEntry,
    written: &Result<(), PersistenceError>,
) -> (result: Result<(), StoreError>)
    ensures
        result == answer_after(*written, Ok(())),
        final(database)@ == state_after(
            *written,
            old(database)@,
            after_refresh(
                old(database)@,
                rotation.revoked@,
                rotation.revocation_audit@,
                replacement@,
                audit_entry@,
            ),
        ),
{
    check_written(written)?;
    let revoked = rotation.revoked;
    database.account_sessions.insert(revoked.account_session_id.clone(), revoked);
    database.account_sessions.insert(
        replacement.account_session_id.clone(),
        replacement.duplicate(),
    );
    append_log(&mut database.audit_logs, rotation.revocation_audit);
    append_log(&mut database.audit_logs, audit_entry.duplicate());
    Ok(())
}

/// A refresh token serves once: the session that it renewed is revoked, and a row that is revoked
/// cannot be renewed again.
pub proof fn a_refresh_token_is_used_once(
    row: AccountSessionRow,
    later: AccountSessionRow,
    refresh_token_hash: Seq<u8>,
    replacement: AccountSessionModel,
    now: u64,
    later_now: u64,
)
    requires
        session_renewable(row, refresh_token_hash, replacement, now),
        account_session_row_model(later) == revoked_session(
            account_session_row_model(session_revoking_row(row, now)),
            "refresh_replay"@,
            stored_time(now),
        ),
    ensures
        !session_renewable(later, refresh_token_hash, replacement, later_now),
{
}

/// A refresh whose audit entry, or that of the session it revokes, has a name that is taken
/// conflicts: the old session stays as it is, and neither the new one nor an entry is stored.
pub proof fn a_refresh_with_a_taken_audit_id_changes_nothing(
    database: DatabaseModel,
    rotation: RefreshRotation,
    replacement: AccountSessionModel,
    audit_entry: AuditEntryModel,
    written: Result<(), PersistenceError>,
)
    requires
        ({
            let entries = seq![rotation.revocation_audit@, audit_entry];
            audit_ids_unique(database.audit_logs, entries, written) && audit_id_taken(
                database.audit_logs,
                entries,
            )
        }),
    ensures
        answer_after(written, Ok(())) == Err::<(), _>(StoreError::Conflict),
        state_after(
            written,
            database,
            after_refresh(
                database,
                rotation.revoked@,
                rotation.revocation_audit@,
                replacement,
                audit_entry,
            ),
        ) == database,
{
}

/// Whether an audit entry is the one that a logout of an account writes.
pub open spec fn logout_audit_fits(audit_entry: AuditEntryModel, account_id: Seq<char>) -> bool {
    &&& audit_entry.actor_account_id == Some(account_id)
    &&& audit_entry.action == "logout"@
    &&& audit_entry.result == "success"@
}

/// Decides a logout, and gives the entry for the revoked session. A session of another account or
/// one that was revoked before stays as it is.
pub fn revoke_account_session(
    account_session_id: &str,
    account_id: &str,
    audit_entry: &AuditEntry,
    found: &Option<AccountSessionRow>,
) -> (result: Result<Option<AuditEntry>, StoreError>)
    ensures
        ({
            let open = found is Some && found->0.account_id@ == account_id@
                && found->0.revoked_at_epoch_millis is None && found->0.revoked_reason is None;
            if !logout_audit_fits(audit_entry@, account_id@) {
                result == Err::<Option<AuditEntry>, _>(StoreError::Conflict)
            } else if !open {
                result == Ok::<Option<AuditEntry>, StoreError>(None)
            } else {
                result is Ok && result->Ok_0 is Some && result->Ok_0->0@
                    == account_session_revocation(audit_entry@, account_session_id@, "logout"@)
            }
        }),
{
    if !opt_text_is(&audit_entry.actor_account_id, account_id) || !text_eq(
        audit_entry.action.as_str(),
        "logout",
    ) || !text_eq(audit_entry.result.as_str(), "success") {
        return Err(StoreError::Conflict);
    }
    match found {
        Some(row) => if text_eq(row.account_id.as_str(), account_id)
            && row.revoked_at_epoch_millis.is_none() && row.revoked_reason.is_none() {
            Ok(
                Some(account_session_revocation_audit(audit_entry, account_session_id, "logout")),
            )
        } else {
            Ok(None)
        },
        None => Ok(None),
    }
}

/// The sessions after a logout from one of them, where it is held.
pub open spec fn sessions_after_logout(
    sessions: Map<Seq<char>, AccountSessionModel>,
    account_session_id: Seq<char>,
    now: u64,
) -> Map<Seq<char>, AccountSessionModel> {
    if sessions.contains_key(account_session_id) {
        sessions.insert(
            account_session_id,
            revoked_session(sessions[account_session_id], "logout"@, now),
        )
    } else {
        sessions
    }
}

/// The database after a logout.
pub open spec fn after_logout(
    database: DatabaseModel,
    account_session_id: Seq<char>,
    now: u64,
    revocation_audit: AuditEntryModel,
    audit_entry: AuditEntryModel,
) -> DatabaseModel {
    DatabaseModel {
        account_sessions: sessions_after_logout(
            database.account_sessions,
            account_session_id,
            now,
        ),
        audit_logs: database.audit_logs.push(revocation_audit).push(audit_entry),
        ..database
    }
}

/// Publishes a logout.
pub fn publish_logout(
    database: &mut Database,
    account_session_id: &str,
    now_epoch_millis: u64,
    revocation_audit: AuditEntry,
    audit_entry: &AuditEntry,
    written: &Result<(), PersistenceError>,
) -> (result: Result<(), StoreError>)
    ensures
        result == answer_after(*written, Ok(())),
        final(database)@ == state_after(
            *written,
            old(database)@,
            after_logout(
                old(database)@,
                account_session_id@,
                now_epoch_millis,
                revocation_audit@,
                audit_entry@,
            ),
        ),
{
    check_written(written)?;
    if let Some(held) = database.account_sessions.get(account_session_id) {
        let mut revoked = held.duplicate();
        revoked.revoked_at_epoch_millis = Some(now_epoch_millis);
        revoked.revoked_reason = Some("logout".to_owned());
        database.account_sessions.insert(account_session_id.to_owned(), revoked);
    }
    append_log(&mut database.audit_logs, revocation_audit);
    append_log(&mut database.audit_logs, audit_entry.duplicate());
    Ok(())
}

} // verus!
