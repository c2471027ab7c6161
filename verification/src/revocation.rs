use crate::account::{AccountSession, AccountSessionModel};
use crate::audit::{AuditEntry, AuditEntryModel, JsonModel, JsonValue};
use crate::device::{TrustedControllerDevice, TrustedControllerDeviceModel, TrustedDeviceStatus};
use crate::table::{lemma_distinct_keys, models, Record, Table};
use crate::text::{joined, opt_text, opt_text_copy, text_eq};
use vstd::prelude::*;

verus! {

/// The entry that records the revocation of a trusted device: it stands next to the entry of the
/// operation that caused it, and names the device and the reason.
pub open spec fn trusted_device_revocation(
    source: AuditEntryModel,
    trusted_device_id: Seq<char>,
    controller_device_id: Seq<char>,
    reason: Seq<char>,
) -> AuditEntryModel {
    AuditEntryModel {
        audit_id: source.audit_id + ":trusted-device:"@ + trusted_device_id,
        target_device_id: Some(controller_device_id),
        action: "trusted_device_revoked"@,
        result: "success"@,
        reason: Some(reason),
        metadata: Map::<Seq<char>, JsonModel>::empty().insert(
            "trusted_device_id"@,
            JsonModel::Text(trusted_device_id),
        ).insert("revoked_reason"@, JsonModel::Text(reason)),
        ..source
    }
}

/// The entry that records the revocation of an account session.
pub open spec fn account_session_revocation(
    source: AuditEntryModel,
    account_session_id: Seq<char>,
    reason: Seq<char>,
) -> AuditEntryModel {
    AuditEntryModel {
        audit_id: source.audit_id + ":account-session:"@ + account_session_id,
        action: "account_session_revoked"@,
        result: "success"@,
        reason: Some(reason),
        metadata: Map::<Seq<char>, JsonModel>::empty().insert(
            "account_session_id"@,
            JsonModel::Text(account_session_id),
        ).insert("revoked_reason"@, JsonModel::Text(reason)),
        ..source
    }
}

/// The metadata of a revocation: the object under the name of its kind, and the reason.
fn revocation_metadata(object_key: &str, object_id: &str, reason: &str) -> (metadata: Table<
    JsonValue,
>)
    ensures
        metadata@ == Map::<Seq<char>, JsonModel>::empty().insert(
            object_key@,
            JsonModel::Text(object_id@),
        ).insert("revoked_reason"@, JsonModel::Text(reason@)),
{
    let mut metadata: Table<JsonValue> = Table::new();
    metadata.insert(object_key.to_owned(), JsonValue::Text(object_id.to_owned()));
    metadata.insert("revoked_reason".to_owned(), JsonValue::Text(reason.to_owned()));
    metadata
}

/// The entry that records the revocation of a trusted device.
pub fn trusted_device_revocation_audit(
    source: &AuditEntry,
    trusted_device_id: &str,
    controller_device_id: &str,
    reason: &str,
) -> (entry: AuditEntry)
    ensures
        entry@ == trusted_device_revocation(
            source@,
            trusted_device_id@,
            controller_device_id@,
            reason@,
        ),
{
    AuditEntry {
        audit_id: joined(
            joined(source.audit_id.as_str(), ":trusted-device:").as_str(),
            trusted_device_id,
        ),
        actor_type: source.actor_type.clone(),
        actor_account_id: opt_text_copy(&source.actor_account_id),
        actor_device_id: opt_text_copy(&source.actor_device_id),
        actor_role: opt_text_copy(&source.actor_role),
        actor_service: opt_text_copy(&source.actor_service),
        target_device_id: Some(controller_device_id.to_owned()),
        session_id: opt_text_copy(&source.session_id),
        action: "trusted_device_revoked".to_owned(),
        result: "success".to_owned(),
        reason: Some(reason.to_owned()),
        metadata: revocation_metadata("trusted_device_id", trusted_device_id, reason),
        request_id: source.request_id.clone(),
        created_at_epoch_millis: source.created_at_epoch_millis,
    }
}

/// The entry that records the revocation of an account session.
pub fn account_session_revocation_audit(
    source: &AuditEntry,
    account_session_id: &str,
    reason: &str,
) -> (entry: AuditEntry)
    ensures
        entry@ == account_session_revocation(source@, account_session_id@, reason@),
{
    AuditEntry {
        audit_id: joined(
            joined(source.audit_id.as_str(), ":account-session:").as_str(),
            account_session_id,
        ),
        actor_type: source.actor_type.clone(),
        actor_account_id: opt_text_copy(&source.actor_account_id),
        actor_device_id: opt_text_copy(&source.actor_device_id),
        actor_role: opt_text_copy(&source.actor_role),
        actor_service: opt_text_copy(&source.actor_service),
        target_device_id: opt_text_copy(&source.target_device_id),
        session_id: opt_text_copy(&source.session_id),
        action: "account_session_revoked".to_owned(),
        result: "success".to_owned(),
        reason: Some(reason.to_owned()),
        metadata: revocation_metadata("account_session_id", account_session_id, reason),
        request_id: source.request_id.clone(),
        created_at_epoch_millis: source.created_at_epoch_millis,
    }
}

/// The name of a trusted device that was revoked, and the device that it trusted.
#[derive(Debug, PartialEq, Eq)]
pub struct RevokedTrust {
    pub trusted_device_id: String,
    pub controller_device_id: String,
}

/// The entries for a list of revoked trusted devices, in order.
pub open spec fn trust_revocations(
    source: AuditEntryModel,
    revoked: Seq<RevokedTrust>,
    reason: Seq<char>,
) -> Seq<AuditEntryModel> {
    revoked.map_values(
        |trust: RevokedTrust|
            trusted_device_revocation(
                source,
                trust.trusted_device_id@,
                trust.controller_device_id@,
                reason,
            ),
    )
}

/// The entries for a list of revoked account sessions, in order.
pub open spec fn session_revocations(
    source: AuditEntryModel,
    revoked: Seq<String>,
    reason: Seq<char>,
) -> Seq<AuditEntryModel> {
    revoked.map_values(|id: String| account_session_revocation(source, id@, reason))
}

/// The entries for a list of revoked trusted devices, in order.
pub fn trust_revocation_audits(
    source: &AuditEntry,
    revoked: &Vec<RevokedTrust>,
    reason: &str,
) -> (entries: Vec<AuditEntry>)
    ensures
        models(entries@) == trust_revocations(source@, revoked@, reason@),
{
    let mut entries: Vec<AuditEntry> = Vec::new();
    let mut i: usize = 0;
    while i < revoked.len()
        invariant
            i <= revoked.len(),
            entries.len() == i,
            forall|k: int|
                0 <= k < i ==> (#[trigger] entries@[k])@ == trust_revocations(
                    source@,
                    revoked@,
                    reason@,
                )[k],
        decreases revoked.len() - i,
    {
        entries.push(
            trusted_device_revocation_audit(
                source,
                revoked[i].trusted_device_id.as_str(),
                revoked[i].controller_device_id.as_str(),
                reason,
            ),
        );
        i = i + 1;
    }
    assert(models(entries@) =~= trust_revocations(source@, revoked@, reason@));
    entries
}

/// The entries for a list of revoked account sessions, in order.
pub fn session_revocation_audits(source: &AuditEntry, revoked: &Vec<String>, reason: &str) -> (
    entries: Vec<AuditEntry>)
    ensures
        models(entries@) == session_revocations(source@, revoked@, reason@),
{
    let mut entries: Vec<AuditEntry> = Vec::new();
    let mut i: usize = 0;
    while i < revoked.len()
        invariant
            i <= revoked.len(),
            entries.len() == i,
            forall|k: int|
                0 <= k < i ==> (#[trigger] entries@[k])@ == session_revocations(
                    source@,
                    revoked@,
                    reason@,
                )[k],
        decreases revoked.len() - i,
    {
        entries.push(account_session_revocation_audit(source, revoked[i].as_str(), reason));
        i = i + 1;
    }
    assert(models(entries@) =~= session_revocations(source@, revoked@, reason@));
    entries
}

/// A trusted device after its revocation.
pub open spec fn revoked_trust(
    trusted: TrustedControllerDeviceModel,
    now: u64,
) -> TrustedControllerDeviceModel {
    TrustedControllerDeviceModel {
        status: TrustedDeviceStatus::Revoked,
        revoked_at_epoch_millis: Some(now),
        ..trusted
    }
}

/// A trusted device after the active ones of an account were revoked: all of them, or those of
/// one controller device.
pub open spec fn trust_after_revocation(
    trusted: TrustedControllerDeviceModel,
    account_id: Seq<char>,
    controller_device_id: Option<Seq<char>>,
    now: u64,
) -> TrustedControllerDeviceModel {
    if trusted.account_id == account_id && (controller_device_id is None
        || controller_device_id->0 == trusted.controller_device_id) && trusted.status
        == TrustedDeviceStatus::Active {
        revoked_trust(trusted, now)
    } else {
        trusted
    }
}

/// An account session after its revocation.
pub open spec fn revoked_session(
    session: AccountSessionModel,
    reason: Seq<char>,
    now: u64,
) -> AccountSessionModel {
    AccountSessionModel {
        revoked_at_epoch_millis: Some(now),
        revoked_reason: Some(reason),
        ..session
    }
}

/// An account session after those of an account that were not revoked yet were revoked.
pub open spec fn session_after_revocation(
    session: AccountSessionModel,
    account_id: Seq<char>,
    reason: Seq<char>,
    now: u64,
) -> AccountSessionModel {
    if session.account_id == account_id && session.revoked_at_epoch_millis is None {
        revoked_session(session, reason, now)
    } else {
        session
    }
}

/// Revokes the active trusted devices of an account: all of them, or those of one controller
/// device. Every other row stays as it is.
pub fn revoke_trusts(
    table: &mut Table<TrustedControllerDevice>,
    account_id: &str,
    controller_device_id: &Option<String>,
    now: u64,
)
    ensures
        final(table)@ == old(table)@.map_values(
            |trusted: TrustedControllerDeviceModel|
                trust_after_revocation(
                    trusted,
                    account_id@,
                    opt_text(*controller_device_id),
                    now,
                ),
        ),
{
    let ghost before = *table;
    let ghost device = opt_text(*controller_device_id);
    let len: usize = table.len();
    let mut i: usize = 0;
    while i < len
        invariant
            i <= len,
            len == before.keys().len(),
            device == opt_text(*controller_device_id),
            before.consistent(),
            table.keys() == before.keys(),
            table@.dom() == before@.dom(),
            table.rows().len() == before.rows().len(),
            forall|k: int|
                0 <= k < len ==> table@[#[trigger] before.keys()[k]] == if k < i {
                    trust_after_revocation(before.rows()[k], account_id@, device, now)
                } else {
                    before.rows()[k]
                },
            forall|k: int| i <= k < len ==> #[trigger] table.rows()[k] == before.rows()[k],
        decreases len - i,
    {
        let trusted = table.row_at(i);
        let of_device = match controller_device_id {
            Some(id) => text_eq(trusted.controller_device_id.as_str(), id.as_str()),
            None => true,
        };
        let ghost key = before.keys()[i as int];
        proof {
            lemma_distinct_keys(before.keys(), i as int);
        }
        if text_eq(trusted.account_id.as_str(), account_id) && of_device && trusted.status
            == TrustedDeviceStatus::Active {
            let mut revoked = trusted.duplicate();
            revoked.status = TrustedDeviceStatus::Revoked;
            revoked.revoked_at_epoch_millis = Some(now);
            table.set_at(i, revoked);
        }
        assert(table@.dom() =~= before@.dom());
        i = i + 1;
    }
    assert(table@ =~= before@.map_values(
        |trusted: TrustedControllerDeviceModel|
            trust_after_revocation(trusted, account_id@, device, now),
    )) by {
        assert forall|key: Seq<char>| before@.contains_key(key) implies #[trigger] table@[key]
            == trust_after_revocation(before@[key], account_id@, device, now) by {
            let k = choose|k: int| 0 <= k < before.keys().len() && #[trigger] before.keys()[k] == key;
            assert(table@[before.keys()[k]] == trust_after_revocation(
                before.rows()[k],
                account_id@,
                device,
                now,
            ));
        }
    }
}

/// Revokes the sessions of an account that were not revoked yet. Every other row stays as it is.
pub fn revoke_sessions(
    table: &mut Table<AccountSession>,
    account_id: &str,
    reason: &str,
    now: u64,
)
    ensures
        final(table)@ == old(table)@.map_values(
            |session: AccountSessionModel|
                session_after_revocation(session, account_id@, reason@, now),
        ),
{
    let ghost before = *table;
    let len: usize = table.len();
    let mut i: usize = 0;
    while i < len
        invariant
            i <= len,
            len == before.keys().len(),
            before.consistent(),
            table.keys() == before.keys(),
            table@.dom() == before@.dom(),
            table.rows().len() == before.rows().len(),
            forall|k: int|
                0 <= k < len ==> table@[#[trigger] before.keys()[k]] == if k < i {
                    session_after_revocation(before.rows()[k], account_id@, reason@, now)
                } else {
                    before.rows()[k]
                },
            forall|k: int| i <= k < len ==> #[trigger] table.rows()[k] == before.rows()[k],
        decreases len - i,
    {
        let session = table.row_at(i);
        proof {
            lemma_distinct_keys(before.keys(), i as int);
        }
        if text_eq(session.account_id.as_str(), account_id)
            && session.revoked_at_epoch_millis.is_none() {
            let mut revoked = session.duplicate();
            revoked.revoked_at_epoch_millis = Some(now);
            revoked.revoked_reason = Some(reason.to_owned());
            table.set_at(i, revoked);
        }
        assert(table@.dom() =~= before@.dom());
        i = i + 1;
    }
    assert(table@ =~= before@.map_values(
        |session: AccountSessionModel|
            session_after_revocation(session, account_id@, reason@, now),
    )) by {
        assert forall|key: Seq<char>| before@.contains_key(key) implies #[trigger] table@[key]
            == session_after_revocation(before@[key], account_id@, reason@, now) by {
            let k = choose|k: int| 0 <= k < before.keys().len() && #[trigger] before.keys()[k] == key;
            assert(table@[before.keys()[k]] == session_after_revocation(
                before.rows()[k],
                account_id@,
                reason@,
                now,
            ));
        }
    }
}

/// After the active trusted devices of an account were revoked, none of them is active: all of
/// them, or those of one controller device.
pub proof fn revoked_trusts_are_inactive(
    table: Map<Seq<char>, TrustedControllerDeviceModel>,
    account_id: Seq<char>,
    controller_device_id: Option<Seq<char>>,
    now: u64,
    key: Seq<char>,
)
    requires
        table.contains_key(key),
        table[key].account_id == account_id,
        controller_device_id is None || controller_device_id == Some(
            table[key].controller_device_id,
        ),
    ensures
        ({
            let after = table.map_values(
                |trusted: TrustedControllerDeviceModel|
                    trust_after_revocation(trusted, account_id, controller_device_id, now),
            );
            after.contains_key(key) && after[key].status != TrustedDeviceStatus::Active
        }),
{
}

/// After the sessions of an account were revoked, none of them is without a time of revocation,
/// and those that had one keep it.
pub proof fn revoked_sessions_stay_revoked(
    table: Map<Seq<char>, AccountSessionModel>,
    account_id: Seq<char>,
    reason: Seq<char>,
    now: u64,
    key: Seq<char>,
)
    requires
        table.contains_key(key),
        table[key].account_id == account_id,
    ensures
        ({
            let after = table.map_values(
                |session: AccountSessionModel|
                    session_after_revocation(session, account_id, reason, now),
            );
            &&& after.contains_key(key)
            &&& after[key].revoked_at_epoch_millis is Some
            &&& table[key].revoked_at_epoch_millis is Some ==> after[key] == table[key]
            &&& table[key].revoked_at_epoch_millis is None ==> after[key].revoked_reason == Some(
                reason,
            )
        }),
{
}

} // verus!
