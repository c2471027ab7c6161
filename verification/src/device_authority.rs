use crate::account::{AccountSession, AccountSessionModel};
use crate::audit::{AuditEntry, AuditEntryModel};
use crate::bytes::{array_eq, bytes_eq};
use crate::challenge::RiskChallengeStatus;
use crate::codec::{stored_i64, stored_time, through_store, to_i64_lossless};
use crate::database::{append_log, extend_log, Database, DatabaseModel};
use crate::device::{
    Device, DeviceCapabilities, DeviceLifecycleStatus, DeviceModel, DevicePublicKeyRecord,
    DevicePublicKeyRecordModel, TrustedControllerDevice, TrustedControllerDeviceModel,
    TrustedDeviceStatus,
};
use crate::hash::{sha256, sha256_digest};
use crate::names::{session_status_of, terminal_status};
use crate::revocation::{
    account_session_revocation, account_session_revocation_audit, revoked_session, revoked_trust,
    trusted_device_revocation, trusted_device_revocation_audit,
};
use crate::rows::{
    account_session_from_row, account_session_row_model, account_session_row_problem,
    session_revoking_row, trusted_device_from_row, trusted_row_model, trusted_row_problem,
    AccountSessionRow, TrustedDeviceRow,
};
use crate::session::{Session, SessionEvent, SessionEventModel, SessionModel, SessionStatus};
use crate::session_rows::{session_from_row, session_row_model, session_row_problem, SessionRow};
use crate::step_up::{
    consume_step_up, step_up_covers, used_challenge, LockedStepUp, StepUpExpectation,
};
use crate::store::{
    answer_after, audit_id_taken, audit_ids_unique, check_written, state_after, PersistenceError,
    StoreError,
};
use crate::table::{among_first, lemma_among_first_step, models, Record, Table};
use crate::text::text_eq;
use vstd::prelude::*;

verus! {

/// Whether a device may act in a lifecycle status.
pub open spec fn authorizable(status: DeviceLifecycleStatus) -> bool {
    status == DeviceLifecycleStatus::Online || status == DeviceLifecycleStatus::Offline || status
        == DeviceLifecycleStatus::Busy
}

/// Whether a device may act in a lifecycle status.
pub fn is_authorizable(status: DeviceLifecycleStatus) -> (may_act: bool)
    ensures
        may_act == authorizable(status),
{
    matches!(
        status,
        DeviceLifecycleStatus::Online | DeviceLifecycleStatus::Offline
            | DeviceLifecycleStatus::Busy
    )
}

/// A device may act exactly in the statuses that are not terminal.
pub proof fn terminal_devices_may_not_act(status: DeviceLifecycleStatus)
    ensures
        authorizable(status) <==> !terminal_status(status),
{
}

/// A time after a change at another: never earlier than before, and within what can be stored.
pub open spec fn touched(updated: u64, now: u64) -> u64 {
    let stored = stored_time(now);
    if updated >= stored {
        updated
    } else {
        stored
    }
}

fn touch(updated: u64, now: u64) -> (time: u64)
    ensures
        time == touched(updated, now),
{
    let stored: u64 = through_store(now);
    if updated >= stored {
        updated
    } else {
        stored
    }
}

/// A session that was closed because a device of it lost its authority.
#[derive(Debug, PartialEq, Eq)]
pub struct ClosedSession {
    pub session: Session,
    pub from_status: SessionStatus,
}

/// The row of a session with the columns in place that closing it writes, but for its status: its
/// relay tokens are outdated, it has a time of ending, and its time of change is not set back.
pub open spec fn closing_row(row: SessionRow, now: u64) -> SessionRow {
    SessionRow {
        relay_token_epoch: (row.relay_token_epoch + 1) as i64,
        ended_at_epoch_millis: Some(stored_i64(now)),
        updated_at_epoch_millis: if row.updated_at_epoch_millis >= stored_i64(now) {
            row.updated_at_epoch_millis
        } else {
            stored_i64(now)
        },
        ..row
    }
}

/// A session after it was closed because a device of it lost its authority.
pub open spec fn closed_session(row: SessionRow, now: u64) -> SessionModel {
    SessionModel { status: SessionStatus::Closed, ..session_row_model(closing_row(row, now)) }
}

/// Whether the relay tokens of every session of a list can still be renewed.
pub open spec fn epochs_renewable(rows: Seq<SessionRow>) -> bool {
    forall|i: int| 0 <= i < rows.len() ==> (#[trigger] rows[i]).relay_token_epoch != i64::MAX
}

/// Whether every session of a list can be read once it is closed, and its status before that.
pub open spec fn sessions_readable(rows: Seq<SessionRow>, now: u64) -> bool {
    forall|i: int|
        0 <= i < rows.len() ==> session_row_problem(closing_row(#[trigger] rows[i], now)) is None
}

/// Whether the closed sessions are those of a list of rows, in order.
pub open spec fn sessions_closed(
    closed: Seq<ClosedSession>,
    rows: Seq<SessionRow>,
    now: u64,
) -> bool {
    &&& closed.len() == rows.len()
    &&& forall|i: int|
        0 <= i < rows.len() ==> (#[trigger] closed[i]).session@ == closed_session(rows[i], now)
            && Some(closed[i].from_status) == session_status_of(rows[i].status@)
}

fn all_renewable(rows: &Vec<SessionRow>) -> (all: bool)
    ensures
        all == epochs_renewable(rows@),
{
    let mut i: usize = 0;
    while i < rows.len()
        invariant
            i <= rows.len(),
            forall|k: int| 0 <= k < i ==> (#[trigger] rows@[k]).relay_token_epoch != i64::MAX,
        decreases rows.len() - i,
    {
        if rows[i].relay_token_epoch == i64::MAX {
            assert(rows@[i as int].relay_token_epoch == i64::MAX);
            return false;
        }
        i = i + 1;
    }
    true
}

/// Closes the sessions of a device that lost its authority.
fn close_sessions(rows: Vec<SessionRow>, now: u64) -> (result: Result<
    Vec<ClosedSession>,
    StoreError,
>)
    requires
        epochs_renewable(rows@),
    ensures
        result is Ok <==> sessions_readable(rows@, now),
        result is Ok ==> sessions_closed(result->Ok_0@, rows@, now),
        result is Err ==> result->Err_0 == StoreError::Unavailable,
{
    let ghost all = rows@;
    let mut closed: Vec<ClosedSession> = Vec::new();
    for row in it: rows
        invariant
            it.seq() == all,
            all == rows@,
            epochs_renewable(all),
            closed@.len() == it.index(),
            forall|i: int|
                0 <= i < it.index() ==> session_row_problem(closing_row(#[trigger] all[i], now))
                    is None,
            forall|i: int|
                0 <= i < it.index() ==> (#[trigger] closed@[i]).session@ == closed_session(
                    all[i],
                    now,
                ) && Some(closed@[i].from_status) == session_status_of(all[i].status@),
    {
        let ghost at = it.index() as int;
        assert(row == all[at]);
        let ended: i64 = to_i64_lossless(now);
        let mut closing = row;
        closing.relay_token_epoch = closing.relay_token_epoch + 1;
        closing.ended_at_epoch_millis = Some(ended);
        if closing.updated_at_epoch_millis < ended {
            closing.updated_at_epoch_millis = ended;
        }
        assert(closing == closing_row(all[at], now));
        match session_from_row(closing) {
            Ok(stored) => {
                let mut session = stored;
                let from_status = session.status;
                session.status = SessionStatus::Closed;
                closed.push(ClosedSession { session, from_status });
            },
            Err(_) => {
                assert(session_row_problem(closing_row(all[at], now)) is Some);
                return Err(StoreError::Unavailable);
            },
        }
    }
    Ok(closed)
}

/// Whether the row of a trusted device is one that is revoked with the authority of a device: an
/// active one of the account on the device, and where a fingerprint is given, of that key.
pub open spec fn trust_row_selected(
    row: TrustedDeviceRow,
    account_id: Seq<char>,
    device_id: Seq<char>,
    fingerprint: Option<Seq<u8>>,
) -> bool {
    &&& row.account_id@ == account_id
    &&& row.controller_device_id@ == device_id
    &&& row.status@ == "active"@
    &&& fingerprint is Some ==> row.device_fingerprint_hash@ == fingerprint->0
}

/// The row of a trusted device with the time in place that its revocation writes.
pub open spec fn trust_revoking_row(row: TrustedDeviceRow, now: u64) -> TrustedDeviceRow {
    TrustedDeviceRow { revoked_at_epoch_millis: Some(stored_i64(now)), ..row }
}

/// The trusted devices among the first rows of a list that are revoked with the authority of a
/// device, each as it is then.
pub open spec fn revoked_trusts_of(
    rows: Seq<TrustedDeviceRow>,
    count: nat,
    account_id: Seq<char>,
    device_id: Seq<char>,
    fingerprint: Option<Seq<u8>>,
    now: u64,
) -> Map<Seq<char>, TrustedControllerDeviceModel>
    decreases count,
{
    if count == 0 {
        Map::empty()
    } else {
        let row = rows[count - 1];
        let before = revoked_trusts_of(
            rows,
            (count - 1) as nat,
            account_id,
            device_id,
            fingerprint,
            now,
        );
        if trust_row_selected(row, account_id, device_id, fingerprint) {
            before.insert(
                row.trusted_device_id@,
                revoked_trust(
                    trusted_row_model(trust_revoking_row(row, now)),
                    stored_time(now),
                ),
            )
        } else {
            before
        }
    }
}

/// Whether every trusted device that is revoked can be read once it is.
pub open spec fn selected_trusts_readable(
    rows: Seq<TrustedDeviceRow>,
    account_id: Seq<char>,
    device_id: Seq<char>,
    fingerprint: Option<Seq<u8>>,
    now: u64,
) -> bool {
    forall|i: int|
        0 <= i < rows.len() && trust_row_selected(
            #[trigger] rows[i],
            account_id,
            device_id,
            fingerprint,
        ) ==> trusted_row_problem(trust_revoking_row(rows[i], now)) is None
}

/// Revokes the trusted devices of a device that lost its authority.
fn revoke_selected_trusts(
    rows: Vec<TrustedDeviceRow>,
    account_id: &str,
    device_id: &str,
    fingerprint: Option<&[u8; 32]>,
    now: u64,
) -> (result: Result<Table<TrustedControllerDevice>, StoreError>)
    ensures
        ({
            let key = match fingerprint {
                Some(bytes) => Some(bytes@),
                None => None,
            };
            &&& result is Ok <==> selected_trusts_readable(
                rows@,
                account_id@,
                device_id@,
                key,
                now,
            )
            &&& result is Ok ==> result->Ok_0@ == revoked_trusts_of(
                rows@,
                rows@.len(),
                account_id@,
                device_id@,
                key,
                now,
            )
            &&& result is Err ==> result->Err_0 == StoreError::Unavailable
        }),
{
    let ghost all = rows@;
    let ghost key = match fingerprint {
        Some(bytes) => Some(bytes@),
        None => None,
    };
    let mut revoked: Table<TrustedControllerDevice> = Table::new();
    for row in it: rows
        invariant
            it.seq() == all,
            all == rows@,
            key == match fingerprint {
                Some(bytes) => Some(bytes@),
                None => None,
            },
            revoked@ == revoked_trusts_of(
                all,
                it.index() as nat,
                account_id@,
                device_id@,
                key,
                now,
            ),
            forall|i: int|
                0 <= i < it.index() && trust_row_selected(
                    #[trigger] all[i],
                    account_id@,
                    device_id@,
                    key,
                ) ==> trusted_row_problem(trust_revoking_row(all[i], now)) is None,
    {
        let ghost at = it.index() as int;
        assert(row == all[at]);
        let of_key = match fingerprint {
            Some(bytes) => bytes_eq(row.device_fingerprint_hash.as_slice(), bytes.as_slice()),
            None => true,
        };
        let selected = text_eq(row.account_id.as_str(), account_id) && text_eq(
            row.controller_device_id.as_str(),
            device_id,
        ) && text_eq(row.status.as_str(), "active") && of_key;
        assert(selected == trust_row_selected(all[at], account_id@, device_id@, key));
        if selected {
            let mut revoking = row;
            revoking.revoked_at_epoch_millis = Some(to_i64_lossless(now));
            assert(revoking == trust_revoking_row(all[at], now));
            match trusted_device_from_row(revoking) {
                Ok(found) => {
                    let mut trusted = found;
                    trusted.status = TrustedDeviceStatus::Revoked;
                    revoked.insert(trusted.trusted_device_id.clone(), trusted);
                },
                Err(_) => {
                    assert(trusted_row_problem(trust_revoking_row(all[at], now)) is Some);
                    return Err(StoreError::Unavailable);
                },
            }
        }
    }
    Ok(revoked)
}

/// The entries for a table of revoked trusted devices, in the order of their names.
pub open spec fn trust_table_audits(
    source: AuditEntryModel,
    revoked: Table<TrustedControllerDevice>,
    reason: Seq<char>,
) -> Seq<AuditEntryModel> {
    revoked.keys().map_values(
        |key: Seq<char>|
            trusted_device_revocation(
                source,
                key,
                revoked@[key].controller_device_id,
                reason,
            ),
    )
}

fn audit_revoked_trusts(
    source: &AuditEntry,
    revoked: &Table<TrustedControllerDevice>,
    reason: &str,
) -> (audits: Vec<AuditEntry>)
    ensures
        models(audits@) == trust_table_audits(source@, *revoked, reason@),
{
    let mut audits: Vec<AuditEntry> = Vec::new();
    let len: usize = revoked.len();
    let mut i: usize = 0;
    while i < len
        invariant
            i <= len,
            len == revoked.keys().len(),
            revoked.consistent(),
            audits@.len() == i,
            forall|k: int|
                0 <= k < i ==> (#[trigger] audits@[k])@ == trust_table_audits(
                    source@,
                    *revoked,
                    reason@,
                )[k],
        decreases len - i,
    {
        let trusted = revoked.row_at(i);
        assert(revoked@[revoked.keys()[i as int]] == trusted@);
        audits.push(
            trusted_device_revocation_audit(
                source,
                revoked.key_at(i).as_str(),
                trusted.controller_device_id.as_str(),
                reason,
            ),
        );
        i = i + 1;
    }
    assert(models(audits@) =~= trust_table_audits(source@, *revoked, reason@));
    audits
}

/// Puts every row of a table into another.
fn put_all<V: Record>(table: &mut Table<V>, rows: &Table<V>)
    ensures
        final(table)@ == old(table)@.union_prefer_right(rows@),
{
    let ghost before = table@;
    let len: usize = rows.len();
    let mut i: usize = 0;
    while i < len
        invariant
            i <= len,
            len == rows.keys().len(),
            rows.consistent(),
            forall|key: Seq<char>|
                #[trigger] table@.contains_key(key) <==> before.contains_key(key) || among_first(
                    rows.keys(),
                    i as int,
                    key,
                ),
            forall|key: Seq<char>|
                #[trigger] table@.contains_key(key) ==> table@[key] == if among_first(
                    rows.keys(),
                    i as int,
                    key,
                ) {
                    rows@[key]
                } else {
                    before[key]
                },
        decreases len - i,
    {
        let ghost at = rows.keys()[i as int];
        assert(rows@.contains_key(at) && rows@[at] == rows.rows()[i as int]);
        table.insert(rows.key_at(i).clone(), rows.row_at(i).duplicate());
        proof {
            lemma_among_first_step(rows.keys(), i as int);
        }
        i = i + 1;
    }
    proof {
        rows.lemma_all_keys();
    }
    assert(table@ =~= before.union_prefer_right(rows@));
}

/// The sessions with those of a list of events put among them, in order.
pub open spec fn sessions_with(
    sessions: Map<Seq<char>, SessionModel>,
    events: Seq<SessionEventModel>,
) -> Map<Seq<char>, SessionModel>
    decreases events.len(),
{
    if events.len() == 0 {
        sessions
    } else {
        let before = sessions_with(sessions, events.drop_last());
        match events.last().result_session {
            Some(session) => before.insert(session.session_id, session),
            None => before,
        }
    }
}

fn publish_event_sessions(table: &mut Table<Session>, events: &Vec<SessionEvent>)
    ensures
        final(table)@ == sessions_with(old(table)@, models(events@)),
{
    let ghost before = table@;
    let ghost all = models(events@);
    let mut i: usize = 0;
    assert(all.take(0) =~= Seq::empty());
    while i < events.len()
        invariant
            i <= events.len(),
            all == models(events@),
            table@ == sessions_with(before, all.take(i as int)),
        decreases events.len() - i,
    {
        proof {
            assert(all.take(i as int + 1).drop_last() =~= all.take(i as int));
            assert(all.take(i as int + 1).last() == events@[i as int]@);
        }
        if let Some(session) = &events[i].result_session {
            table.insert(session.session_id.clone(), session.duplicate());
        }
        i = i + 1;
    }
    assert(all.take(i as int) =~= all);
}

/// A request to replace the key of a device, under a verified challenge.
#[derive(Debug, PartialEq, Eq)]
pub struct DeviceKeyRotation {
    pub step_up: StepUpExpectation,
    pub current_public_key_id: String,
    pub current_public_key_version: u32,
    pub new_public_key_id: String,
    pub new_public_key: [u8; 32],
    pub new_public_key_version: u32,
    pub audit_entry: AuditEntry,
}

/// What the store says of a key rotation.
#[derive(Debug, PartialEq, Eq)]
pub struct RotationFacts {
    pub step_up: Option<LockedStepUp>,
    pub device: Option<Result<Device, String>>,
    /// Whether another device has the name of the new key.
    pub key_id_taken: bool,
    /// The audit entry of the rotation with the two keys in it.
    pub rotation_audit: Result<AuditEntry, StoreError>,
    /// The sessions of the device that have not ended, in the order of their names.
    pub sessions: Vec<SessionRow>,
    /// The trusted devices of the device.
    pub trusts: Vec<TrustedDeviceRow>,
}

/// What a key rotation writes.
#[derive(Debug, PartialEq, Eq)]
pub struct RotationDecision {
    pub device: Device,
    pub closed: Vec<ClosedSession>,
    pub revoked_trusts: Table<TrustedControllerDevice>,
    pub trust_audits: Vec<AuditEntry>,
    pub rotation_audit: AuditEntry,
}

/// Whether a rotation replaces the key that the device has by the next one.
pub open spec fn rotation_fits(rotation: DeviceKeyRotation, current: DeviceModel) -> bool {
    &&& current.account_id == rotation.step_up.account_id@
    &&& current.public_key_id == rotation.current_public_key_id@
    &&& current.public_key_version == rotation.current_public_key_version
    &&& current.public_key_revoked_at_epoch_millis is None
    &&& current.public_key != rotation.new_public_key
    &&& current.public_key_version + 1 == rotation.new_public_key_version
}

/// A device after its key was replaced.
pub open spec fn rotated_device(rotation: DeviceKeyRotation, current: DeviceModel) -> DeviceModel {
    DeviceModel {
        public_key_id: rotation.new_public_key_id@,
        public_key: rotation.new_public_key,
        public_key_version: rotation.new_public_key_version,
        public_key_revoked_at_epoch_millis: None,
        updated_at_epoch_millis: touched(
            current.updated_at_epoch_millis,
            rotation.step_up.now_epoch_millis,
        ),
        ..current
    }
}

/// Why a key rotation fails.
pub open spec fn rotation_failure(rotation: DeviceKeyRotation, facts: RotationFacts) -> Option<
    StoreError,
> {
    let now = rotation.step_up.now_epoch_millis;
    let current = facts.device->0->Ok_0@;
    let account = rotation.step_up.account_id@;
    let device = rotation.step_up.device_id@;
    let fingerprint = Some(sha256_digest(current.public_key@));
    if !step_up_covers(rotation.step_up, facts.step_up) || facts.device is None {
        Some(StoreError::Conflict)
    } else if facts.device->0 is Err {
        Some(StoreError::Unavailable)
    } else if !rotation_fits(rotation, current) || facts.key_id_taken
        || rotation.new_public_key_id@ == rotation.current_public_key_id@ {
        Some(StoreError::Conflict)
    } else if facts.rotation_audit is Err {
        Some(facts.rotation_audit->Err_0)
    } else if !epochs_renewable(facts.sessions@) {
        Some(StoreError::Conflict)
    } else if !selected_trusts_readable(facts.trusts@, account, device, fingerprint, now) {
        Some(StoreError::Unavailable)
    } else if rotation.new_public_key_version > i32::MAX {
        Some(StoreError::Conflict)
    } else if !sessions_readable(facts.sessions@, now) {
        Some(StoreError::Unavailable)
    } else {
        None
    }
}

/// Decides a request to replace the key of a device. With the key its trusted devices and all of
/// the device's open sessions go.
pub fn rotate_device_key(rotation: &DeviceKeyRotation, facts: RotationFacts) -> (result: Result<
    RotationDecision,
    StoreError,
>)
    ensures
        result is Err <==> rotation_failure(*rotation, facts) is Some,
        result is Err ==> Some(result->Err_0) == rotation_failure(*rotation, facts),
        result is Ok ==> ({
            let decision = result->Ok_0;
            let now = rotation.step_up.now_epoch_millis;
            let current = facts.device->0->Ok_0@;
            &&& decision.device@ == rotated_device(*rotation, current)
            &&& sessions_closed(decision.closed@, facts.sessions@, now)
            &&& decision.revoked_trusts@ == revoked_trusts_of(
                facts.trusts@,
                facts.trusts@.len(),
                rotation.step_up.account_id@,
                rotation.step_up.device_id@,
                Some(sha256_digest(current.public_key@)),
                now,
            )
            &&& models(decision.trust_audits@) == trust_table_audits(
                facts.rotation_audit->Ok_0@,
                decision.revoked_trusts,
                "device_key_rotated"@,
            )
            &&& decision.rotation_audit@ == facts.rotation_audit->Ok_0@
        }),
{
    let now: u64 = rotation.step_up.now_epoch_millis;
    consume_step_up(&rotation.step_up, &facts.step_up)?;
    let current = match facts.device {
        None => {
            return Err(StoreError::Conflict);
        },
        Some(Err(_)) => {
            return Err(StoreError::Unavailable);
        },
        Some(Ok(device)) => device,
    };
    let next_version = match current.public_key_version.checked_add(1) {
        Some(version) => version == rotation.new_public_key_version,
        None => false,
    };
    if !text_eq(current.account_id.as_str(), rotation.step_up.account_id.as_str()) || !text_eq(
        current.public_key_id.as_str(),
        rotation.current_public_key_id.as_str(),
    ) || current.public_key_version != rotation.current_public_key_version
        || current.public_key_revoked_at_epoch_millis.is_some() || array_eq(
        &current.public_key,
        &rotation.new_public_key,
    ) || !next_version || facts.key_id_taken || text_eq(
        rotation.new_public_key_id.as_str(),
        rotation.current_public_key_id.as_str(),
    ) {
        return Err(StoreError::Conflict);
    }
    let rotation_audit = facts.rotation_audit?;
    if !all_renewable(&facts.sessions) {
        return Err(StoreError::Conflict);
    }
    let fingerprint = sha256(current.public_key.as_slice());
    let revoked_trusts = revoke_selected_trusts(
        facts.trusts,
        rotation.step_up.account_id.as_str(),
        rotation.step_up.device_id.as_str(),
        Some(&fingerprint),
        now,
    )?;
    let trust_audits = audit_revoked_trusts(
        &rotation_audit,
        &revoked_trusts,
        "device_key_rotated",
    );
    if rotation.new_public_key_version > i32::MAX as u32 {
        return Err(StoreError::Conflict);
    }
    let closed = close_sessions(facts.sessions, now)?;
    let mut device = current;
    device.public_key_id = rotation.new_public_key_id.clone();
    device.public_key = rotation.new_public_key;
    device.public_key_version = rotation.new_public_key_version;
    device.public_key_revoked_at_epoch_millis = None;
    device.updated_at_epoch_millis = touch(device.updated_at_epoch_millis, now);
    Ok(RotationDecision { device, closed, revoked_trusts, trust_audits, rotation_audit })
}

/// The key records after a rotation: the old key is revoked, where it is held, and the new one is
/// there.
pub open spec fn keys_after_rotation(
    keys: Map<Seq<char>, DevicePublicKeyRecordModel>,
    rotation: DeviceKeyRotation,
) -> Map<Seq<char>, DevicePublicKeyRecordModel> {
    let now = rotation.step_up.now_epoch_millis;
    let old_id = rotation.current_public_key_id@;
    let revoked = if keys.contains_key(old_id) {
        let held = keys[old_id];
        keys.insert(
            old_id,
            DevicePublicKeyRecordModel { revoked_at_epoch_millis: Some(now), ..held },
        )
    } else {
        keys
    };
    revoked.insert(
        rotation.new_public_key_id@,
        DevicePublicKeyRecordModel {
            public_key_id: rotation.new_public_key_id@,
            device_id: rotation.step_up.device_id@,
            public_key: rotation.new_public_key,
            version: rotation.new_public_key_version,
            created_at_epoch_millis: now,
            revoked_at_epoch_millis: None,
        },
    )
}

/// The database after a key rotation, given the events and the audit entries of the sessions that
/// it closed.
pub open spec fn after_rotation(
    database: DatabaseModel,
    rotation: DeviceKeyRotation,
    decision: RotationDecision,
    events: Seq<SessionEventModel>,
    closing_audits: Seq<AuditEntryModel>,
) -> DatabaseModel {
    let id = rotation.step_up.challenge_id@;
    DatabaseModel {
        risk_challenges: if database.risk_challenges.contains_key(id) {
            database.risk_challenges.insert(
                id,
                used_challenge(
                    database.risk_challenges[id],
                    rotation.step_up.now_epoch_millis,
                ),
            )
        } else {
            database.risk_challenges
        },
        device_public_keys: keys_after_rotation(database.device_public_keys, rotation),
        trusted_controller_devices: database.trusted_controller_devices.union_prefer_right(
            decision.revoked_trusts@,
        ),
        devices: database.devices.insert(decision.device@.device_id, decision.device@),
        sessions: sessions_with(database.sessions, events),
        session_events: database.session_events + events,
        audit_logs: (database.audit_logs + closing_audits + models(decision.trust_audits@)).push(
            decision.rotation_audit@,
        ),
        ..database
    }
}

/// Publishes a key rotation.
pub fn publish_rotation(
    database: &mut Database,
    rotation: &DeviceKeyRotation,
    decision: &RotationDecision,
    events: &Vec<SessionEvent>,
    closing_audits: &Vec<AuditEntry>,
    written: &Result<(), PersistenceError>,
) -> (result: Result<(), StoreError>)
    ensures
        result == answer_after(*written, Ok(())),
        final(database)@ == state_after(
            *written,
            old(database)@,
            after_rotation(
                old(database)@,
                *rotation,
                *decision,
                models(events@),
                models(closing_audits@),
            ),
        ),
{
    check_written(written)?;
    let now: u64 = rotation.step_up.now_epoch_millis;
    if let Some(held) = database.risk_challenges.get(rotation.step_up.challenge_id.as_str()) {
        let mut used = held.duplicate();
        used.status = RiskChallengeStatus::Consumed;
        used.consumed_at_epoch_millis = Some(now);
        database.risk_challenges.insert(rotation.step_up.challenge_id.clone(), used);
    }
    if let Some(held) = database.device_public_keys.get(rotation.current_public_key_id.as_str()) {
        let mut old_key = held.duplicate();
        old_key.revoked_at_epoch_millis = Some(now);
        database.device_public_keys.insert(rotation.current_public_key_id.clone(), old_key);
    }
    put_all(&mut database.trusted_controller_devices, &decision.revoked_trusts);
    database.device_public_keys.insert(
        rotation.new_public_key_id.clone(),
        DevicePublicKeyRecord {
            public_key_id: rotation.new_public_key_id.clone(),
            device_id: rotation.step_up.device_id.clone(),
            public_key: rotation.new_public_key,
            version: rotation.new_public_key_version,
            created_at_epoch_millis: now,
            revoked_at_epoch_millis: None,
        },
    );
    database.devices.insert(decision.device.device_id.clone(), decision.device.duplicate());
    publish_event_sessions(&mut database.sessions, events);
    extend_log(&mut database.session_events, events);
    extend_log(&mut database.audit_logs, closing_audits);
    extend_log(&mut database.audit_logs, &decision.trust_audits);
    append_log(&mut database.audit_logs, decision.rotation_audit.duplicate());
    Ok(())
}

/// What an account asks to be done to one of its devices.
#[derive(Debug, Clone, Copy, PartialEq, Eq, Structural)]
pub enum DeviceManagementAction {
    Disable,
    Restore,
    Unbind,
    RevokePublicKey,
}

/// A request to rename a device or to change its lifecycle, made from another device or from
/// itself.
#[derive(Debug, PartialEq, Eq)]
pub struct DeviceManagementCommand {
    pub account_id: String,
    pub actor_device_id: String,
    pub actor_public_key_id: String,
    pub actor_public_key_version: u32,
    pub target_device_id: String,
    pub expected_target_public_key_id: String,
    pub expected_target_public_key_version: u32,
    pub display_name: Option<String>,
    pub action: Option<DeviceManagementAction>,
    pub audit_entry: AuditEntry,
    pub now_epoch_millis: u64,
}

/// Whether an action takes authority from a device.
pub open spec fn tightens(action: Option<DeviceManagementAction>) -> bool {
    action is Some && action->0 != DeviceManagementAction::Restore
}

/// Whether an action ends every session of the account: it removes the device or its key.
pub open spec fn revokes_sessions(action: Option<DeviceManagementAction>) -> bool {
    action == Some(DeviceManagementAction::Unbind) || action == Some(
        DeviceManagementAction::RevokePublicKey,
    )
}

/// Why the trusted devices of a device are revoked with an action.
pub open spec fn trust_reason(action: Option<DeviceManagementAction>) -> Seq<char> {
    match action {
        Some(DeviceManagementAction::Disable) => "device_disabled"@,
        Some(DeviceManagementAction::Unbind) => "device_unbound"@,
        _ => "device_public_key_revoked"@,
    }
}

/// Whether an action ends every session of the account.
pub fn device_management_revokes_account_sessions(action: Option<DeviceManagementAction>) -> (
    revokes: bool)
    ensures
        revokes == revokes_sessions(action),
{
    matches!(
        action,
        Some(DeviceManagementAction::Unbind) | Some(DeviceManagementAction::RevokePublicKey)
    )
}

/// Whether an action takes authority from its device.
pub fn tightening(action: Option<DeviceManagementAction>) -> (tightens_it: bool)
    ensures
        tightens_it == tightens(action),
{
    matches!(
        action,
        Some(DeviceManagementAction::Disable) | Some(DeviceManagementAction::Unbind) | Some(
            DeviceManagementAction::RevokePublicKey,
        )
    )
}

fn trust_revocation_reason(action: Option<DeviceManagementAction>) -> (reason: &'static str)
    ensures
        reason@ == trust_reason(action),
{
    match action {
        Some(DeviceManagementAction::Disable) => "device_disabled",
        Some(DeviceManagementAction::Unbind) => "device_unbound",
        _ => "device_public_key_revoked",
    }
}

/// What the store and the rules of the device lifecycle say of a management request.
#[derive(Debug, PartialEq, Eq)]
pub struct ManagementFacts {
    pub account_active: bool,
    pub actor: Option<Result<Device, String>>,
    pub target: Option<Result<Device, String>>,
    /// The target as the change leaves it, where its lifecycle allows the change.
    pub managed: Option<Device>,
    /// The audit entries of the change, the one of the request first.
    pub authority_audits: Result<Vec<AuditEntry>, StoreError>,
    /// The reason under which sessions are closed with the change.
    pub close_reason: Option<String>,
    /// The sessions of the target that have not ended, in the order of their names.
    pub sessions: Vec<SessionRow>,
    /// The trusted devices of the target.
    pub trusts: Vec<TrustedDeviceRow>,
    /// The sessions of the account.
    pub account_sessions: Vec<AccountSessionRow>,
}

/// Whether the device that asks is the one that it says it is, and may act.
pub open spec fn actor_fits(command: DeviceManagementCommand, actor: DeviceModel) -> bool {
    &&& actor.account_id == command.account_id@
    &&& actor.public_key_id == command.actor_public_key_id@
    &&& actor.public_key_version == command.actor_public_key_version
    &&& actor.public_key_revoked_at_epoch_millis is None
    &&& authorizable(actor.status)
}

/// Whether the device to change is of the account and has the key that the request expects.
pub open spec fn target_matches(command: DeviceManagementCommand, target: DeviceModel) -> bool {
    &&& target.account_id == command.account_id@
    &&& target.public_key_id == command.expected_target_public_key_id@
    &&& target.public_key_version == command.expected_target_public_key_version
}

/// The target as it reads back after the change: its name, status, key revocation and
/// capabilities are those of the change, the rest as before.
pub open spec fn stored_target(
    target: DeviceModel,
    managed: DeviceModel,
    now: u64,
) -> DeviceModel {
    DeviceModel {
        display_name: managed.display_name,
        status: managed.status,
        public_key_revoked_at_epoch_millis: match managed.public_key_revoked_at_epoch_millis {
            Some(time) => Some(stored_time(time)),
            None => None,
        },
        capabilities: DeviceCapabilities {
            controlled: managed.capabilities.controlled,
            unattended: managed.capabilities.unattended,
            ..target.capabilities
        },
        updated_at_epoch_millis: touched(target.updated_at_epoch_millis, now),
        ..target
    }
}

/// Whether the row of an account session is one that is revoked with the authority of a device.
pub open spec fn session_row_selected(row: AccountSessionRow, account_id: Seq<char>) -> bool {
    row.account_id@ == account_id && row.revoked_at_epoch_millis is None && row.revoked_reason
        is None
}

/// Whether every account session that is revoked can be read once it is.
pub open spec fn selected_sessions_readable(
    rows: Seq<AccountSessionRow>,
    account_id: Seq<char>,
    now: u64,
) -> bool {
    forall|i: int|
        0 <= i < rows.len() && session_row_selected(#[trigger] rows[i], account_id)
            ==> account_session_row_problem(session_revoking_row(rows[i], now)) is None
}

/// The account sessions among the first rows of a list that are revoked with a device, each as it
/// is then.
pub open spec fn revoked_sessions_of(
    rows: Seq<AccountSessionRow>,
    count: nat,
    account_id: Seq<char>,
    now: u64,
) -> Map<Seq<char>, AccountSessionModel>
    decreases count,
{
    if count == 0 {
        Map::empty()
    } else {
        let row = rows[count - 1];
        let before = revoked_sessions_of(rows, (count - 1) as nat, account_id, now);
        if session_row_selected(row, account_id) {
            before.insert(
                row.account_session_id@,
                revoked_session(
                    account_session_row_model(session_revoking_row(row, now)),
                    "device_unbound"@,
                    stored_time(now),
                ),
            )
        } else {
            before
        }
    }
}

fn revoke_selected_sessions(
    rows: Vec<AccountSessionRow>,
    account_id: &str,
    now: u64,
) -> (result: Result<Table<AccountSession>, StoreError>)
    ensures
        result is Ok <==> selected_sessions_readable(rows@, account_id@, now),
        result is Ok ==> result->Ok_0@ == revoked_sessions_of(
            rows@,
            rows@.len(),
            account_id@,
            now,
        ),
        result is Err ==> result->Err_0 == StoreError::Unavailable,
{
    let ghost all = rows@;
    let mut revoked: Table<AccountSession> = Table::new();
    for row in it: rows
        invariant
            it.seq() == all,
            all == rows@,
            revoked@ == revoked_sessions_of(all, it.index() as nat, account_id@, now),
            forall|i: int|
                0 <= i < it.index() && session_row_selected(#[trigger] all[i], account_id@)
                    ==> account_session_row_problem(session_revoking_row(all[i], now)) is None,
    {
        let ghost at = it.index() as int;
        assert(row == all[at]);
        let selected = text_eq(row.account_id.as_str(), account_id)
            && row.revoked_at_epoch_millis.is_none() && row.revoked_reason.is_none();
        assert(selected == session_row_selected(all[at], account_id@));
        if selected {
            let mut revoking = row;
            revoking.revoked_at_epoch_millis = Some(to_i64_lossless(now));
            assert(revoking == session_revoking_row(all[at], now));
            match account_session_from_row(revoking) {
                Ok(found) => {
                    let mut session = found;
                    session.revoked_reason = Some("device_unbound".to_owned());
                    revoked.insert(session.account_session_id.clone(), session);
                },
                Err(_) => {
                    assert(account_session_row_problem(session_revoking_row(all[at], now)) is Some);
                    return Err(StoreError::Unavailable);
                },
            }
        }
    }
    Ok(revoked)
}

/// The entries for a table of revoked account sessions, in the order of their names.
pub open spec fn session_table_audits(
    source: AuditEntryModel,
    revoked: Table<AccountSession>,
) -> Seq<AuditEntryModel> {
    revoked.keys().map_values(
        |key: Seq<char>| account_session_revocation(source, key, "device_unbound"@),
    )
}

fn audit_revoked_sessions(source: &AuditEntry, revoked: &Table<AccountSession>) -> (audits: Vec<
    AuditEntry,
>)
    ensures
        models(audits@) == session_table_audits(source@, *revoked),
{
    let mut audits: Vec<AuditEntry> = Vec::new();
    let len: usize = revoked.len();
    let mut i: usize = 0;
    while i < len
        invariant
            i <= len,
            len == revoked.keys().len(),
            audits@.len() == i,
            forall|k: int|
                0 <= k < i ==> (#[trigger] audits@[k])@ == session_table_audits(
                    source@,
                    *revoked,
                )[k],
        decreases len - i,
    {
        audits.push(
            account_session_revocation_audit(
                source,
                revoked.key_at(i).as_str(),
                "device_unbound",
            ),
        );
        i = i + 1;
    }
    assert(models(audits@) =~= session_table_audits(source@, *revoked));
    audits
}

/// What a management request writes.
#[derive(Debug, PartialEq, Eq)]
pub struct ManagementDecision {
    pub device: Device,
    pub closed: Vec<ClosedSession>,
    pub revoked_trusts: Table<TrustedControllerDevice>,
    pub revoked_sessions: Table<AccountSession>,
    pub revocation_audits: Vec<AuditEntry>,
    pub authority_audits: Vec<AuditEntry>,
}

/// How a management request is answered that changes nothing.
#[derive(Debug, Clone, Copy, PartialEq, Eq, Structural)]
pub enum ManagementEnd {
    Fail(StoreError),
    NotFound,
    InvalidTransition,
}

/// How a management request ends without a change.
pub open spec fn management_end(
    command: DeviceManagementCommand,
    facts: ManagementFacts,
) -> Option<ManagementEnd> {
    let actor = facts.actor->0->Ok_0@;
    let target = facts.target->0->Ok_0@;
    let account = command.account_id@;
    let device = command.target_device_id@;
    let now = command.now_epoch_millis;
    let tight = tightens(command.action);
    if revokes_sessions(command.action) && !facts.account_active || facts.actor is None {
        Some(ManagementEnd::Fail(StoreError::Conflict))
    } else if facts.actor->0 is Err {
        Some(ManagementEnd::Fail(StoreError::Unavailable))
    } else if !actor_fits(command, actor) {
        Some(ManagementEnd::Fail(StoreError::Conflict))
    } else if facts.target is None {
        Some(ManagementEnd::NotFound)
    } else if facts.target->0 is Err {
        Some(ManagementEnd::Fail(StoreError::Unavailable))
    } else if !target_matches(command, target) {
        Some(ManagementEnd::Fail(StoreError::Conflict))
    } else if facts.managed is None {
        Some(ManagementEnd::InvalidTransition)
    } else if tight && !epochs_renewable(facts.sessions@) {
        Some(ManagementEnd::Fail(StoreError::Conflict))
    } else if facts.authority_audits is Err {
        Some(ManagementEnd::Fail(facts.authority_audits->Err_0))
    } else if facts.authority_audits->Ok_0@.len() == 0 {
        Some(ManagementEnd::Fail(StoreError::Unavailable))
    } else if command.expected_target_public_key_version > i32::MAX {
        Some(ManagementEnd::Fail(StoreError::Conflict))
    } else if tight && !selected_trusts_readable(facts.trusts@, account, device, None, now) {
        Some(ManagementEnd::Fail(StoreError::Unavailable))
    } else if revokes_sessions(command.action) && !selected_sessions_readable(
        facts.account_sessions@,
        account,
        now,
    ) {
        Some(ManagementEnd::Fail(StoreError::Unavailable))
    } else if tight && facts.sessions@.len() > 0 && (!sessions_readable(facts.sessions@, now)
        || facts.close_reason is None) {
        Some(ManagementEnd::Fail(StoreError::Unavailable))
    } else {
        None
    }
}

fn actor_is_valid(command: &DeviceManagementCommand, actor: &Device) -> (valid: bool)
    ensures
        valid == actor_fits(*command, actor@),
{
    text_eq(actor.account_id.as_str(), command.account_id.as_str()) && text_eq(
        actor.public_key_id.as_str(),
        command.actor_public_key_id.as_str(),
    ) && actor.public_key_version == command.actor_public_key_version
        && actor.public_key_revoked_at_epoch_millis.is_none() && is_authorizable(actor.status)
}

fn target_is_valid(command: &DeviceManagementCommand, target: &Device) -> (valid: bool)
    ensures
        valid == target_matches(*command, target@),
{
    text_eq(target.account_id.as_str(), command.account_id.as_str()) && text_eq(
        target.public_key_id.as_str(),
        command.expected_target_public_key_id.as_str(),
    ) && target.public_key_version == command.expected_target_public_key_version
}

fn store_target(target: Device, managed: Device, now: u64) -> (stored: Device)
    ensures
        stored@ == stored_target(target@, managed@, now),
{
    let mut stored = target;
    stored.display_name = managed.display_name;
    stored.status = managed.status;
    stored.public_key_revoked_at_epoch_millis = match managed.public_key_revoked_at_epoch_millis {
        Some(time) => Some(through_store(time)),
        None => None,
    };
    stored.capabilities.controlled = managed.capabilities.controlled;
    stored.capabilities.unattended = managed.capabilities.unattended;
    stored.updated_at_epoch_millis = touch(stored.updated_at_epoch_millis, now);
    stored
}

/// What a management request does, where it is carried out.
pub open spec fn management_applied(
    command: DeviceManagementCommand,
    facts: ManagementFacts,
    decision: ManagementDecision,
) -> bool {
    let now = command.now_epoch_millis;
    let account = command.account_id@;
    let audits = models(facts.authority_audits->Ok_0@);
    &&& decision.device@ == stored_target(facts.target->0->Ok_0@, facts.managed->0@, now)
    &&& if tightens(command.action) {
        &&& sessions_closed(decision.closed@, facts.sessions@, now)
        &&& decision.revoked_trusts@ == revoked_trusts_of(
            facts.trusts@,
            facts.trusts@.len(),
            account,
            command.target_device_id@,
            None,
            now,
        )
    } else {
        &&& decision.closed@.len() == 0
        &&& decision.revoked_trusts@ == Map::<Seq<char>, TrustedControllerDeviceModel>::empty()
    }
    &&& decision.revoked_sessions@ == if revokes_sessions(command.action) {
        revoked_sessions_of(
            facts.account_sessions@,
            facts.account_sessions@.len(),
            account,
            now,
        )
    } else {
        Map::<Seq<char>, AccountSessionModel>::empty()
    }
    &&& models(decision.revocation_audits@) == trust_table_audits(
        audits[0],
        decision.revoked_trusts,
        trust_reason(command.action),
    ) + session_table_audits(audits[0], decision.revoked_sessions)
    &&& models(decision.authority_audits@) == audits
}

/// Decides a request to rename a device or to change its lifecycle. An action that takes authority
/// from the device closes its open sessions and revokes its trusted devices; one that removes the
/// device or its key also ends every session of the account.
pub fn manage_device(command: &DeviceManagementCommand, facts: ManagementFacts) -> (result: Result<
    ManagementDecision,
    ManagementEnd,
>)
    ensures
        result is Err <==> management_end(*command, facts) is Some,
        result is Err ==> Some(result->Err_0) == management_end(*command, facts),
        result is Ok ==> management_applied(*command, facts, result->Ok_0),
{
    let now: u64 = command.now_epoch_millis;
    let revokes = device_management_revokes_account_sessions(command.action);
    if revokes && !facts.account_active {
        return Err(ManagementEnd::Fail(StoreError::Conflict));
    }
    match &facts.actor {
        None => {
            return Err(ManagementEnd::Fail(StoreError::Conflict));
        },
        Some(Err(_)) => {
            return Err(ManagementEnd::Fail(StoreError::Unavailable));
        },
        Some(Ok(actor)) => {
            if !actor_is_valid(command, actor) {
                return Err(ManagementEnd::Fail(StoreError::Conflict));
            }
        },
    }
    let target = match facts.target {
        None => {
            return Err(ManagementEnd::NotFound);
        },
        Some(Err(_)) => {
            return Err(ManagementEnd::Fail(StoreError::Unavailable));
        },
        Some(Ok(target)) => target,
    };
    if !target_is_valid(command, &target) {
        return Err(ManagementEnd::Fail(StoreError::Conflict));
    }
    let managed = match facts.managed {
        Some(managed) => managed,
        None => {
            return Err(ManagementEnd::InvalidTransition);
        },
    };
    let tight = tightening(command.action);
    if tight && !all_renewable(&facts.sessions) {
        return Err(ManagementEnd::Fail(StoreError::Conflict));
    }
    let authority_audits = match facts.authority_audits {
        Ok(audits) => audits,
        Err(error) => {
            return Err(ManagementEnd::Fail(error));
        },
    };
    if authority_audits.is_empty() {
        return Err(ManagementEnd::Fail(StoreError::Unavailable));
    }
    if command.expected_target_public_key_version > i32::MAX as u32 {
        return Err(ManagementEnd::Fail(StoreError::Conflict));
    }
    let revoked_trusts: Table<TrustedControllerDevice> = if tight {
        match revoke_selected_trusts(
            facts.trusts,
            command.account_id.as_str(),
            command.target_device_id.as_str(),
            None,
            now,
        ) {
            Ok(revoked) => revoked,
            Err(error) => {
                return Err(ManagementEnd::Fail(error));
            },
        }
    } else {
        Table::new()
    };
    let revoked_sessions: Table<AccountSession> = if revokes {
        match revoke_selected_sessions(facts.account_sessions, command.account_id.as_str(), now) {
            Ok(revoked) => revoked,
            Err(error) => {
                return Err(ManagementEnd::Fail(error));
            },
        }
    } else {
        Table::new()
    };
    let mut closed: Vec<ClosedSession> = Vec::new();
    if tight && facts.sessions.len() > 0 {
        closed = match close_sessions(facts.sessions, now) {
            Ok(closed) => closed,
            Err(error) => {
                return Err(ManagementEnd::Fail(error));
            },
        };
        if facts.close_reason.is_none() {
            return Err(ManagementEnd::Fail(StoreError::Unavailable));
        }
    }
    assert(authority_audits@[0]@ == models(authority_audits@)[0]);
    let mut revocation_audits = audit_revoked_trusts(
        &authority_audits[0],
        &revoked_trusts,
        trust_revocation_reason(command.action),
    );
    let session_audits = audit_revoked_sessions(&authority_audits[0], &revoked_sessions);
    extend_log(&mut revocation_audits, &session_audits);
    let device = store_target(target, managed, now);
    Ok(
        ManagementDecision {
            device,
            closed,
            revoked_trusts,
            revoked_sessions,
            revocation_audits,
            authority_audits,
        },
    )
}

/// The key records after a management request: where the key of the device is revoked and held, it
/// is revoked there too.
pub open spec fn keys_after_management(
    keys: Map<Seq<char>, DevicePublicKeyRecordModel>,
    device: DeviceModel,
) -> Map<Seq<char>, DevicePublicKeyRecordModel> {
    if device.public_key_revoked_at_epoch_millis is Some && keys.contains_key(
        device.public_key_id,
    ) {
        let held = keys[device.public_key_id];
        keys.insert(
            device.public_key_id,
            DevicePublicKeyRecordModel {
                revoked_at_epoch_millis: device.public_key_revoked_at_epoch_millis,
                ..held
            },
        )
    } else {
        keys
    }
}

/// The database after a management request, given the events and the audit entries of the sessions
/// that it closed.
pub open spec fn after_management(
    database: DatabaseModel,
    command: DeviceManagementCommand,
    decision: ManagementDecision,
    events: Seq<SessionEventModel>,
    closing_audits: Seq<AuditEntryModel>,
) -> DatabaseModel {
    DatabaseModel {
        devices: database.devices.insert(decision.device@.device_id, decision.device@),
        device_public_keys: keys_after_management(database.device_public_keys, decision.device@),
        trusted_controller_devices: database.trusted_controller_devices.union_prefer_right(
            decision.revoked_trusts@,
        ),
        account_sessions: database.account_sessions.union_prefer_right(decision.revoked_sessions@),
        sessions: if tightens(command.action) {
            sessions_with(database.sessions, events)
        } else {
            database.sessions
        },
        session_events: database.session_events + events,
        audit_logs: database.audit_logs + closing_audits + models(decision.revocation_audits@)
            + models(decision.authority_audits@),
        ..database
    }
}

/// Publishes a management request.
pub fn publish_management(
    database: &mut Database,
    command: &DeviceManagementCommand,
    decision: &ManagementDecision,
    events: &Vec<SessionEvent>,
    closing_audits: &Vec<AuditEntry>,
    written: &Result<(), PersistenceError>,
) -> (result: Result<(), StoreError>)
    ensures
        result == answer_after(*written, Ok(())),
        final(database)@ == state_after(
            *written,
            old(database)@,
            after_management(
                old(database)@,
                *command,
                *decision,
                models(events@),
                models(closing_audits@),
            ),
        ),
{
    check_written(written)?;
    let device = &decision.device;
    database.devices.insert(device.device_id.clone(), device.duplicate());
    if let Some(revoked_at) = device.public_key_revoked_at_epoch_millis {
        if let Some(held) = database.device_public_keys.get(device.public_key_id.as_str()) {
            let mut key = held.duplicate();
            key.revoked_at_epoch_millis = Some(revoked_at);
            database.device_public_keys.insert(device.public_key_id.clone(), key);
        }
    }
    put_all(&mut database.trusted_controller_devices, &decision.revoked_trusts);
    put_all(&mut database.account_sessions, &decision.revoked_sessions);
    if tightening(command.action) {
        publish_event_sessions(&mut database.sessions, events);
    }
    extend_log(&mut database.session_events, events);
    extend_log(&mut database.audit_logs, closing_audits);
    extend_log(&mut database.audit_logs, &decision.revocation_audits);
    extend_log(&mut database.audit_logs, &decision.authority_audits);
    Ok(())
}

/// Every active trusted device of a device that loses its authority is revoked.
pub proof fn every_selected_trust_is_revoked(
    rows: Seq<TrustedDeviceRow>,
    count: nat,
    account_id: Seq<char>,
    device_id: Seq<char>,
    fingerprint: Option<Seq<u8>>,
    now: u64,
    at: int,
)
    requires
        0 <= at < count <= rows.len(),
        trust_row_selected(rows[at], account_id, device_id, fingerprint),
    ensures
        ({
            let revoked = revoked_trusts_of(rows, count, account_id, device_id, fingerprint, now);
            let id = rows[at].trusted_device_id@;
            &&& revoked.contains_key(id)
            &&& revoked[id].status == TrustedDeviceStatus::Revoked
            &&& revoked[id].revoked_at_epoch_millis == Some(stored_time(now))
        }),
    decreases count,
{
    if at < count - 1 {
        every_selected_trust_is_revoked(
            rows,
            (count - 1) as nat,
            account_id,
            device_id,
            fingerprint,
            now,
            at,
        );
    }
}

/// A session that is closed because a device of it lost its authority has ended, and its relay
/// tokens are outdated.
pub proof fn a_closed_session_outdates_its_relay_tokens(row: SessionRow, now: u64)
    requires
        session_row_problem(row) is None,
        row.relay_token_epoch < i64::MAX,
    ensures
        ({
            let stored = session_row_model(row);
            let closed = closed_session(row, now);
            &&& closed.status == SessionStatus::Closed
            &&& closed.relay_token_epoch == stored.relay_token_epoch + 1
            &&& closed.ended_at_epoch_millis == Some(stored_time(now))
            &&& closed.updated_at_epoch_millis >= stored.updated_at_epoch_millis
        }),
{
}

/// Every account session that is open when a device or its key is removed is revoked.
pub proof fn every_open_session_is_revoked(
    rows: Seq<AccountSessionRow>,
    count: nat,
    account_id: Seq<char>,
    now: u64,
    at: int,
)
    requires
        0 <= at < count <= rows.len(),
        session_row_selected(rows[at], account_id),
    ensures
        ({
            let revoked = revoked_sessions_of(rows, count, account_id, now);
            let id = rows[at].account_session_id@;
            &&& revoked.contains_key(id)
            &&& revoked[id].revoked_at_epoch_millis == Some(stored_time(now))
            &&& revoked[id].revoked_reason == Some("device_unbound"@)
        }),
    decreases count,
{
    if at < count - 1 {
        every_open_session_is_revoked(rows, (count - 1) as nat, account_id, now, at);
    }
}

/// A change that takes authority from a device is logged in full: one entry for each trusted device
/// and each account session that it revokes, before the entries of the change itself.
pub proof fn a_device_change_is_logged_in_full(
    database: DatabaseModel,
    command: DeviceManagementCommand,
    facts: ManagementFacts,
    decision: ManagementDecision,
    events: Seq<SessionEventModel>,
    closing_audits: Seq<AuditEntryModel>,
)
    requires
        management_applied(command, facts, decision),
    ensures
        ({
            let after = after_management(database, command, decision, events, closing_audits);
            &&& after.audit_logs.len() == database.audit_logs.len() + closing_audits.len()
                + decision.revoked_trusts.keys().len() + decision.revoked_sessions.keys().len()
                + facts.authority_audits->Ok_0@.len()
            &&& forall|i: int|
                0 <= i < decision.revoked_sessions.keys().len() ==> (#[trigger] after.audit_logs[
                database.audit_logs.len() + closing_audits.len()
                    + decision.revoked_trusts.keys().len() + i]).action
                    == "account_session_revoked"@
        }),
{
    let audits = models(facts.authority_audits->Ok_0@);
    let trusts = trust_table_audits(
        audits[0],
        decision.revoked_trusts,
        trust_reason(command.action),
    );
    let sessions = session_table_audits(audits[0], decision.revoked_sessions);
    assert(models(decision.revocation_audits@) == trusts + sessions);
    let after = after_management(database, command, decision, events, closing_audits);
    let start = database.audit_logs.len() + closing_audits.len() + trusts.len();
    assert forall|i: int| 0 <= i < sessions.len() implies (#[trigger] after.audit_logs[start
        + i]).action == "account_session_revoked"@ by {
        assert(after.audit_logs[start + i] == sessions[i]);
    }
}

/// Only an action that removes a device or its key ends account sessions: a rotation of the key,
/// like any other change, leaves them as they are.
pub proof fn other_changes_keep_account_sessions(
    database: DatabaseModel,
    rotation: DeviceKeyRotation,
    rotated: RotationDecision,
    command: DeviceManagementCommand,
    facts: ManagementFacts,
    decision: ManagementDecision,
    events: Seq<SessionEventModel>,
    closing_audits: Seq<AuditEntryModel>,
)
    requires
        management_applied(command, facts, decision),
        !revokes_sessions(command.action),
    ensures
        after_rotation(database, rotation, rotated, events, closing_audits).account_sessions
            == database.account_sessions,
        after_management(database, command, decision, events, closing_audits).account_sessions
            == database.account_sessions,
{
    assert(database.account_sessions.union_prefer_right(decision.revoked_sessions@)
        =~= database.account_sessions);
}

/// After a rotation the device has the new key, one version later, and the old key is revoked
/// where it is held.
pub proof fn a_rotation_replaces_the_key(
    database: DatabaseModel,
    rotation: DeviceKeyRotation,
    facts: RotationFacts,
    decision: RotationDecision,
    events: Seq<SessionEventModel>,
    closing_audits: Seq<AuditEntryModel>,
)
    requires
        rotation_failure(rotation, facts) is None,
        decision.device@ == rotated_device(rotation, facts.device->0->Ok_0@),
    ensures
        ({
            let current = facts.device->0->Ok_0@;
            let after = after_rotation(database, rotation, decision, events, closing_audits);
            let device = after.devices[current.device_id];
            &&& device.public_key == rotation.new_public_key
            &&& device.public_key != current.public_key
            &&& device.public_key_version == current.public_key_version + 1
            &&& device.status == current.status
            &&& after.device_public_keys[rotation.new_public_key_id@].revoked_at_epoch_millis
                is None
            &&& database.device_public_keys.contains_key(current.public_key_id)
                ==> after.device_public_keys[current.public_key_id].revoked_at_epoch_millis
                is Some
        }),
{
}

/// A change of a device that is to log an entry under a name that is taken, be it the entry of the
/// change, of a closed session, or of a trusted device or an account session that it revokes,
/// conflicts: the device, its key, its sessions, its trusted devices, the account sessions and the
/// log stay as they are.
pub proof fn a_device_change_with_a_taken_audit_id_changes_nothing(
    database: DatabaseModel,
    command: DeviceManagementCommand,
    decision: ManagementDecision,
    events: Seq<SessionEventModel>,
    closing_audits: Seq<AuditEntryModel>,
    written: Result<(), PersistenceError>,
)
    requires
        ({
            let entries = closing_audits + models(decision.revocation_audits@) + models(
                decision.authority_audits@,
            );
            audit_ids_unique(database.audit_logs, entries, written) && audit_id_taken(
                database.audit_logs,
                entries,
            )
        }),
    ensures
        answer_after(written, Ok(())) == Err::<(), _>(StoreError::Conflict),
        state_after(
            written,
            database,
            after_management(database, command, decision, events, closing_audits),
        ) == database,
{
}

/// Whether the events are those of closed sessions: each records the session as it is closed.
pub open spec fn events_record_closures(
    events: Seq<SessionEventModel>,
    closed: Seq<ClosedSession>,
) -> bool {
    &&& events.len() == closed.len()
    &&& forall|i: int|
        0 <= i < events.len() ==> (#[trigger] events[i]).result_session == Some(closed[i].session@)
}

/// Every session that a device loses with its authority is published as it was closed: closed, with
/// a time of ending, and with its relay tokens outdated. It is so after a rotation of the key and
/// after a change that takes authority from the device.
pub proof fn every_closed_session_is_published(
    database: DatabaseModel,
    rows: Seq<SessionRow>,
    now: u64,
    rotation: DeviceKeyRotation,
    rotated: RotationDecision,
    command: DeviceManagementCommand,
    managed: ManagementDecision,
    closed: Seq<ClosedSession>,
    events: Seq<SessionEventModel>,
    closing_audits: Seq<AuditEntryModel>,
    at: int,
)
    requires
        0 <= at < rows.len(),
        epochs_renewable(rows),
        session_row_problem(closing_row(rows[at], now)) is None,
        sessions_closed(closed, rows, now),
        events_record_closures(events, closed),
        forall|i: int, j: int|
            0 <= i < j < rows.len() ==> (#[trigger] rows[i]).session_id@ != (
            #[trigger] rows[j]).session_id@,
    ensures
        ({
            let id = rows[at].session_id@;
            let after = closed_session(rows[at], now);
            let after_rotating = after_rotation(
                database,
                rotation,
                rotated,
                events,
                closing_audits,
            ).sessions;
            let after_managing = after_management(
                database,
                command,
                managed,
                events,
                closing_audits,
            ).sessions;
            &&& after.status == SessionStatus::Closed
            &&& after.relay_token_epoch == rows[at].relay_token_epoch + 1
            &&& after.ended_at_epoch_millis == Some(stored_time(now))
            &&& after_rotating.contains_key(id) && after_rotating[id] == after
            &&& tightens(command.action) ==> after_managing.contains_key(id)
                && after_managing[id] == after
        }),
{
    assert(closed[at].session@ == closed_session(rows[at], now));
    assert forall|i: int| 0 <= i < events.len() implies (
    #[trigger] events[i]).result_session == Some(closed_session(rows[i], now)) by {
        assert(closed[i].session@ == closed_session(rows[i], now));
    }
    lemma_event_sessions_are_put(database.sessions, events, rows, now, at);
}

proof fn lemma_event_sessions_are_put(
    sessions: Map<Seq<char>, SessionModel>,
    events: Seq<SessionEventModel>,
    rows: Seq<SessionRow>,
    now: u64,
    at: int,
)
    requires
        0 <= at < events.len() <= rows.len(),
        forall|i: int|
            0 <= i < events.len() ==> (#[trigger] events[i]).result_session == Some(
                closed_session(rows[i], now),
            ),
        forall|i: int, j: int|
            0 <= i < j < rows.len() ==> (#[trigger] rows[i]).session_id@ != (
            #[trigger] rows[j]).session_id@,
    ensures
        sessions_with(sessions, events).contains_key(rows[at].session_id@),
        sessions_with(sessions, events)[rows[at].session_id@] == closed_session(rows[at], now),
    decreases events.len(),
{
    let last = events.len() - 1;
    let fewer = events.drop_last();
    assert(events.last() == events[last]);
    if at < last {
        assert forall|i: int| 0 <= i < fewer.len() implies (
        #[trigger] fewer[i]).result_session == Some(closed_session(rows[i], now)) by {
            assert(fewer[i] == events[i]);
        }
        assert(rows[at].session_id@ != rows[last].session_id@);
        lemma_event_sessions_are_put(sessions, fewer, rows, now, at);
    }
}

} // verus!
