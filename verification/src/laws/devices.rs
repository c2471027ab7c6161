use crate::audit::{AuditEntryModel, JsonModel};
use crate::challenge::RiskChallengeStatus;
use crate::codec::stored_time;
use crate::database::DatabaseModel;
use crate::device::{DeviceLifecycleStatus, TrustedDeviceStatus};
use crate::device_authority::{
    after_management, after_rotation, closed_session, closing_row,
    device_management_revokes_account_sessions, epochs_renewable, is_authorizable, manage_device,
    revoked_sessions_of, revoked_trusts_of, rotate_device_key, session_row_selected,
    session_table_audits, sessions_readable, tightening, tightens, trust_reason, trust_revoking_row,
    trust_row_selected, trust_table_audits, ClosedSession, DeviceKeyRotation,
    DeviceManagementAction, DeviceManagementCommand, ManagementDecision, ManagementEnd,
    ManagementFacts, RotationDecision, RotationFacts,
};
use crate::hash::sha256_digest;
use crate::login_finish::is_authorizable_name;
use crate::names::{
    device_lifecycle_status_names_round_trip, device_lifecycle_status_text, session_status_of,
};
use crate::revocation::{revoked_session, revoked_trust};
use crate::rows::{
    account_session_row_model, account_session_row_problem, session_revoking_row, trusted_row_model,
    trusted_row_problem, AccountSessionRow, TrustedDeviceRow,
};
use crate::session::{SessionEventModel, SessionStatus};
use crate::session_rows::{session_row_problem, SessionRow};
use crate::store::StoreError;
use crate::table::models;
use vstd::prelude::*;

verus! {

/// What a change of a device is for shows in the device that is stored: its name, its status, the
/// revocation of its key and what it may be used for are those of the change, under the device's
/// own name. Its account, its key and its times of creation and of being seen stay, its time of
/// change is not set back, and every other device stays as it is.
pub proof fn a_device_change_shows_in_the_device(
    database: DatabaseModel,
    command: &DeviceManagementCommand,
    facts: ManagementFacts,
    result: Result<ManagementDecision, ManagementEnd>,
    events: Seq<SessionEventModel>,
    closing_audits: Seq<AuditEntryModel>,
    other: Seq<char>,
)
    requires
        call_ensures(manage_device, (command, facts), result),
        result is Ok,
    ensures
        ({
            let target = facts.target->0->Ok_0@;
            let managed = facts.managed->0@;
            let after = after_management(
                database,
                *command,
                result->Ok_0,
                events,
                closing_audits,
            );
            let device = after.devices[target.device_id];
            &&& after.devices.contains_key(target.device_id)
            &&& device == result->Ok_0.device@
            &&& device.device_id == target.device_id
            &&& device.display_name == managed.display_name
            &&& device.status == managed.status
            &&& device.public_key_revoked_at_epoch_millis is Some
                <==> managed.public_key_revoked_at_epoch_millis is Some
            &&& managed.public_key_revoked_at_epoch_millis is Some
                && managed.public_key_revoked_at_epoch_millis->0 <= i64::MAX
                ==> device.public_key_revoked_at_epoch_millis
                == managed.public_key_revoked_at_epoch_millis
            &&& device.capabilities.controlled == managed.capabilities.controlled
            &&& device.capabilities.unattended == managed.capabilities.unattended
            &&& device.capabilities.controller == target.capabilities.controller
            &&& device.capabilities.file_transfer == target.capabilities.file_transfer
            &&& device.account_id == target.account_id
            &&& device.platform == target.platform
            &&& device.os_version == target.os_version
            &&& device.arch == target.arch
            &&& device.public_key_id == target.public_key_id
            &&& device.public_key == target.public_key
            &&& device.public_key_version == target.public_key_version
            &&& device.last_seen_epoch_millis == target.last_seen_epoch_millis
            &&& device.created_at_epoch_millis == target.created_at_epoch_millis
            &&& device.updated_at_epoch_millis >= target.updated_at_epoch_millis
            &&& command.now_epoch_millis <= i64::MAX ==> device.updated_at_epoch_millis
                >= command.now_epoch_millis
            &&& device.updated_at_epoch_millis == target.updated_at_epoch_millis
                || device.updated_at_epoch_millis == command.now_epoch_millis
                || device.updated_at_epoch_millis == i64::MAX
            &&& other != target.device_id ==> (after.devices.contains_key(other)
                == database.devices.contains_key(other) && after.devices[other]
                == database.devices[other])
        }),
{
}

/// Whether a stored trusted device is an active one of an account on a device.
pub open spec fn active_trust_row(
    row: TrustedDeviceRow,
    account_id: Seq<char>,
    device_id: Seq<char>,
) -> bool {
    row.account_id@ == account_id && row.controller_device_id@ == device_id && row.status@
        == "active"@
}

/// A device is changed exactly when the request comes from a device of the account with its current
/// unrevoked key that may act, the target is a device of the account with the key that the request
/// expects, and its lifecycle allows the change. Where the change takes authority from the device,
/// its sessions and trusted devices must be closable too, and where it removes the device or its
/// key, the account must be active and its sessions revocable.
pub proof fn a_device_is_changed_exactly_when_it_may_be(
    command: &DeviceManagementCommand,
    facts: ManagementFacts,
    result: Result<ManagementDecision, ManagementEnd>,
)
    requires
        call_ensures(manage_device, (command, facts), result),
        facts.authority_audits is Ok,
        facts.authority_audits->Ok_0@.len() > 0,
    ensures
        ({
            let actor = facts.actor->0->Ok_0@;
            let target = facts.target->0->Ok_0@;
            let tight = command.action == Some(DeviceManagementAction::Disable) || command.action
                == Some(DeviceManagementAction::Unbind) || command.action == Some(
                DeviceManagementAction::RevokePublicKey,
            );
            let removes = command.action == Some(DeviceManagementAction::Unbind) || command.action
                == Some(DeviceManagementAction::RevokePublicKey);
            result is Ok <==> {
                &&& removes ==> facts.account_active
                &&& facts.actor is Some && facts.actor->0 is Ok
                &&& actor.account_id == command.account_id@
                &&& actor.public_key_id == command.actor_public_key_id@
                &&& actor.public_key_version == command.actor_public_key_version
                &&& actor.public_key_revoked_at_epoch_millis is None
                &&& (actor.status == DeviceLifecycleStatus::Online || actor.status
                    == DeviceLifecycleStatus::Offline || actor.status
                    == DeviceLifecycleStatus::Busy)
                &&& facts.target is Some && facts.target->0 is Ok
                &&& target.account_id == command.account_id@
                &&& target.public_key_id == command.expected_target_public_key_id@
                &&& target.public_key_version == command.expected_target_public_key_version
                &&& command.expected_target_public_key_version <= i32::MAX
                &&& facts.managed is Some
                &&& tight ==> forall|i: int|
                    0 <= i < facts.sessions@.len() ==> (
                    #[trigger] facts.sessions@[i]).relay_token_epoch != i64::MAX
                        && session_row_problem(
                        closing_row(facts.sessions@[i], command.now_epoch_millis),
                    ) is None
                &&& tight && facts.sessions@.len() > 0 ==> facts.close_reason is Some
                &&& tight ==> forall|i: int|
                    0 <= i < facts.trusts@.len() && active_trust_row(
                        #[trigger] facts.trusts@[i],
                        command.account_id@,
                        command.target_device_id@,
                    ) ==> trusted_row_problem(
                        trust_revoking_row(facts.trusts@[i], command.now_epoch_millis),
                    ) is None
                &&& removes ==> forall|i: int|
                    0 <= i < facts.account_sessions@.len() && (
                    #[trigger] facts.account_sessions@[i]).account_id@ == command.account_id@
                        && facts.account_sessions@[i].revoked_at_epoch_millis is None
                        && facts.account_sessions@[i].revoked_reason is None
                        ==> account_session_row_problem(
                        session_revoking_row(facts.account_sessions@[i], command.now_epoch_millis),
                    ) is None
            }
        }),
{
    let now = command.now_epoch_millis;
    assert(forall|i: int|
        0 <= i < facts.trusts@.len() ==> (active_trust_row(
            #[trigger] facts.trusts@[i],
            command.account_id@,
            command.target_device_id@,
        ) <==> trust_row_selected(
            facts.trusts@[i],
            command.account_id@,
            command.target_device_id@,
            None,
        )));
    assert(epochs_renewable(facts.sessions@) <==> forall|i: int|
        0 <= i < facts.sessions@.len() ==> (#[trigger] facts.sessions@[i]).relay_token_epoch
            != i64::MAX);
    assert(sessions_readable(facts.sessions@, now) <==> forall|i: int|
        0 <= i < facts.sessions@.len() ==> session_row_problem(
            closing_row(#[trigger] facts.sessions@[i], now),
        ) is None);
}

/// A change that is refused is refused for a reason: a target that is not there is not found, one
/// whose lifecycle forbids the change makes it invalid, and whoever asks with the wrong account,
/// key or status conflicts, as does a target of another account or with another key.
pub proof fn a_refused_device_change_says_why(
    command: &DeviceManagementCommand,
    facts: ManagementFacts,
    result: Result<ManagementDecision, ManagementEnd>,
)
    requires
        call_ensures(manage_device, (command, facts), result),
    ensures
        ({
            let actor = facts.actor->0->Ok_0@;
            let target = facts.target->0->Ok_0@;
            let actor_ok = facts.actor is Some && facts.actor->0 is Ok && actor.account_id
                == command.account_id@ && actor.public_key_id == command.actor_public_key_id@
                && actor.public_key_version == command.actor_public_key_version
                && actor.public_key_revoked_at_epoch_millis is None && (actor.status
                == DeviceLifecycleStatus::Online || actor.status == DeviceLifecycleStatus::Offline
                || actor.status == DeviceLifecycleStatus::Busy);
            let target_ok = facts.target is Some && facts.target->0 is Ok && target.account_id
                == command.account_id@ && target.public_key_id
                == command.expected_target_public_key_id@ && target.public_key_version
                == command.expected_target_public_key_version;
            let removes = command.action == Some(DeviceManagementAction::Unbind) || command.action
                == Some(DeviceManagementAction::RevokePublicKey);
            let allowed = !removes || facts.account_active;
            &&& result is Err && result->Err_0 == ManagementEnd::NotFound <==> allowed && actor_ok
                && facts.target is None
            &&& result is Err && result->Err_0 == ManagementEnd::InvalidTransition <==> allowed
                && actor_ok && target_ok && facts.managed is None
            &&& !allowed || facts.actor is None ==> result is Err && result->Err_0
                == ManagementEnd::Fail(StoreError::Conflict)
            &&& facts.actor is Some && facts.actor->0 is Ok && !actor_ok ==> result is Err
                && result->Err_0 == ManagementEnd::Fail(StoreError::Conflict)
            &&& allowed && actor_ok && facts.target is Some && facts.target->0 is Ok && !target_ok
                ==> result is Err && result->Err_0 == ManagementEnd::Fail(StoreError::Conflict)
            &&& facts.authority_audits is Err ==> result is Err
            &&& facts.authority_audits is Ok && facts.authority_audits->Ok_0@.len() == 0
                ==> result is Err
        }),
{
}

/// A change that takes authority from a device revokes each of its active trusted devices, at the
/// time of the change and with the rest of each as it was stored; trusted devices of other accounts
/// or devices, and those that are no longer active, are left alone. Restoring or renaming a device
/// revokes none.
pub proof fn a_tightened_device_loses_its_trust(
    command: &DeviceManagementCommand,
    facts: ManagementFacts,
    result: Result<ManagementDecision, ManagementEnd>,
    at: int,
    id: Seq<char>,
)
    requires
        call_ensures(manage_device, (command, facts), result),
        result is Ok,
        0 <= at < facts.trusts@.len(),
        forall|i: int, j: int|
            0 <= i < j < facts.trusts@.len() ==> (#[trigger] facts.trusts@[i]).trusted_device_id@
                != (#[trigger] facts.trusts@[j]).trusted_device_id@,
    ensures
        ({
            let tight = command.action == Some(DeviceManagementAction::Disable) || command.action
                == Some(DeviceManagementAction::Unbind) || command.action == Some(
                DeviceManagementAction::RevokePublicKey,
            );
            let row = facts.trusts@[at];
            let revoked = result->Ok_0.revoked_trusts@;
            let trust = revoked[row.trusted_device_id@];
            &&& revoked.contains_key(row.trusted_device_id@) <==> tight && active_trust_row(
                row,
                command.account_id@,
                command.target_device_id@,
            )
            &&& !tight ==> !revoked.contains_key(id)
            &&& revoked.contains_key(id) ==> exists|i: int|
                0 <= i < facts.trusts@.len() && (#[trigger] facts.trusts@[i]).trusted_device_id@
                    == id
            &&& revoked.contains_key(row.trusted_device_id@) ==> {
                &&& trust.status == TrustedDeviceStatus::Revoked
                &&& command.now_epoch_millis <= i64::MAX ==> trust.revoked_at_epoch_millis == Some(
                    command.now_epoch_millis,
                )
                &&& trust.revoked_at_epoch_millis is Some
                &&& trust.trusted_device_id == row.trusted_device_id@
                &&& trust.account_id == command.account_id@
                &&& trust.controller_device_id == command.target_device_id@
                &&& trust.trust_level == row.trust_level@
                &&& trust.trust_proof_type == row.trust_proof_type@
            }
        }),
{
    lemma_revoked_trusts(
        facts.trusts@,
        facts.trusts@.len(),
        command.account_id@,
        command.target_device_id@,
        None,
        command.now_epoch_millis,
        facts.trusts@[at].trusted_device_id@,
    );
    lemma_revoked_trusts(
        facts.trusts@,
        facts.trusts@.len(),
        command.account_id@,
        command.target_device_id@,
        None,
        command.now_epoch_millis,
        id,
    );
}

proof fn lemma_revoked_trusts(
    rows: Seq<TrustedDeviceRow>,
    count: nat,
    account_id: Seq<char>,
    device_id: Seq<char>,
    fingerprint: Option<Seq<u8>>,
    now: u64,
    id: Seq<char>,
)
    requires
        count <= rows.len(),
        forall|i: int, j: int|
            0 <= i < j < rows.len() ==> (#[trigger] rows[i]).trusted_device_id@ != (
            #[trigger] rows[j]).trusted_device_id@,
    ensures
        ({
            let revoked = revoked_trusts_of(rows, count, account_id, device_id, fingerprint, now);
            &&& revoked.contains_key(id) ==> exists|i: int|
                0 <= i < count && (#[trigger] rows[i]).trusted_device_id@ == id
            &&& forall|i: int|
                0 <= i < count && (#[trigger] rows[i]).trusted_device_id@ == id ==> (
                revoked.contains_key(id) <==> trust_row_selected(
                    rows[i],
                    account_id,
                    device_id,
                    fingerprint,
                ))
            &&& forall|i: int|
                0 <= i < count && (#[trigger] rows[i]).trusted_device_id@ == id
                    && revoked.contains_key(id) ==> revoked[id] == revoked_trust(
                    trusted_row_model(trust_revoking_row(rows[i], now)),
                    stored_time(now),
                )
        }),
    decreases count,
{
    if count > 0 {
        lemma_revoked_trusts(
            rows,
            (count - 1) as nat,
            account_id,
            device_id,
            fingerprint,
            now,
            id,
        );
        let last = count - 1;
        assert(forall|i: int|
            0 <= i < last ==> (#[trigger] rows[i]).trusted_device_id@
                != rows[last].trusted_device_id@);
        if rows[last].trusted_device_id@ == id {
            assert(0 <= last < count && rows[last].trusted_device_id@ == id);
        }
    }
}

/// Removing a device or its key revokes every open session of the account, as unbound and at the
/// time of the removal; sessions of other accounts and those that were revoked before are left
/// alone. No other change of a device revokes an account session.
pub proof fn a_removed_device_ends_the_sessions_of_its_account(
    command: &DeviceManagementCommand,
    facts: ManagementFacts,
    result: Result<ManagementDecision, ManagementEnd>,
    at: int,
    id: Seq<char>,
)
    requires
        call_ensures(manage_device, (command, facts), result),
        result is Ok,
        0 <= at < facts.account_sessions@.len(),
        forall|i: int, j: int|
            0 <= i < j < facts.account_sessions@.len() ==> (
            #[trigger] facts.account_sessions@[i]).account_session_id@ != (
            #[trigger] facts.account_sessions@[j]).account_session_id@,
    ensures
        ({
            let removes = command.action == Some(DeviceManagementAction::Unbind) || command.action
                == Some(DeviceManagementAction::RevokePublicKey);
            let row = facts.account_sessions@[at];
            let revoked = result->Ok_0.revoked_sessions@;
            let session = revoked[row.account_session_id@];
            &&& revoked.contains_key(row.account_session_id@) <==> removes && row.account_id@
                == command.account_id@ && row.revoked_at_epoch_millis is None && row.revoked_reason
                is None
            &&& !removes ==> !revoked.contains_key(id)
            &&& revoked.contains_key(row.account_session_id@) ==> {
                &&& command.now_epoch_millis <= i64::MAX ==> session.revoked_at_epoch_millis
                    == Some(command.now_epoch_millis)
                &&& session.revoked_at_epoch_millis is Some
                &&& session.revoked_reason == Some("device_unbound"@)
                &&& session.account_session_id == row.account_session_id@
                &&& session.account_id == command.account_id@
                &&& session.mfa_verified == row.mfa_verified
            }
        }),
{
    lemma_revoked_sessions(
        facts.account_sessions@,
        facts.account_sessions@.len(),
        command.account_id@,
        command.now_epoch_millis,
        facts.account_sessions@[at].account_session_id@,
    );
}

proof fn lemma_revoked_sessions(
    rows: Seq<AccountSessionRow>,
    count: nat,
    account_id: Seq<char>,
    now: u64,
    id: Seq<char>,
)
    requires
        count <= rows.len(),
        forall|i: int, j: int|
            0 <= i < j < rows.len() ==> (#[trigger] rows[i]).account_session_id@ != (
            #[trigger] rows[j]).account_session_id@,
    ensures
        ({
            let revoked = revoked_sessions_of(rows, count, account_id, now);
            &&& revoked.contains_key(id) ==> exists|i: int|
                0 <= i < count && (#[trigger] rows[i]).account_session_id@ == id
            &&& forall|i: int|
                0 <= i < count && (#[trigger] rows[i]).account_session_id@ == id ==> (
                revoked.contains_key(id) <==> session_row_selected(rows[i], account_id))
            &&& forall|i: int|
                0 <= i < count && (#[trigger] rows[i]).account_session_id@ == id
                    && revoked.contains_key(id) ==> revoked[id] == revoked_session(
                    account_session_row_model(session_revoking_row(rows[i], now)),
                    "device_unbound"@,
                    stored_time(now),
                )
        }),
    decreases count,
{
    if count > 0 {
        lemma_revoked_sessions(rows, (count - 1) as nat, account_id, now, id);
        let last = count - 1;
        assert(forall|i: int|
            0 <= i < last ==> (#[trigger] rows[i]).account_session_id@
                != rows[last].account_session_id@);
        if rows[last].account_session_id@ == id {
            assert(0 <= last < count && rows[last].account_session_id@ == id);
        }
    }
}

/// A change that takes authority from a device closes each of its open sessions, in order: closed
/// at the time of the change, with outdated relay tokens, and otherwise as it was stored. Restoring
/// or renaming a device closes none.
pub proof fn a_tightened_device_loses_its_sessions(
    command: &DeviceManagementCommand,
    facts: ManagementFacts,
    result: Result<ManagementDecision, ManagementEnd>,
    at: int,
)
    requires
        call_ensures(manage_device, (command, facts), result),
        result is Ok,
    ensures
        ({
            let tight = command.action == Some(DeviceManagementAction::Disable) || command.action
                == Some(DeviceManagementAction::Unbind) || command.action == Some(
                DeviceManagementAction::RevokePublicKey,
            );
            let closed = result->Ok_0.closed@;
            let row = facts.sessions@[at];
            &&& tight ==> closed.len() == facts.sessions@.len()
            &&& !tight ==> closed.len() == 0
            &&& tight && 0 <= at < facts.sessions@.len() ==> is_closed_session(
                closed[at],
                row,
                command.now_epoch_millis,
            )
        }),
{
    if 0 <= at < facts.sessions@.len() {
        let row = facts.sessions@[at];
        assert(tightens(command.action) ==> session_row_problem(
            closing_row(row, command.now_epoch_millis),
        ) is None);
        assert(tightens(command.action) ==> facts.sessions@[at].relay_token_epoch != i64::MAX);
        assert(tightens(command.action) ==> result->Ok_0.closed@[at].session@ == closed_session(
            row,
            command.now_epoch_millis,
        ));
    }
}

/// Whether a closed session is that of a stored row, closed at a time: in the row's status before,
/// ended and with its relay tokens outdated now, and else unchanged.
pub open spec fn is_closed_session(closed: ClosedSession, row: SessionRow, now: u64) -> bool {
    let session = closed.session@;
    &&& session.status == SessionStatus::Closed
    &&& Some(closed.from_status) == session_status_of(row.status@)
    &&& session.session_id == row.session_id@
    &&& session.controller_account_id == row.controller_account_id@
    &&& session.controller_device_id == row.controller_device_id@
    &&& session.controlled_device_id == row.controlled_device_id@
    &&& session.permissions == row.permissions->Ok_0@
    &&& session.policy_evaluation_id == row.policy_evaluation_id@
    &&& session.relay_token_epoch == row.relay_token_epoch + 1
    &&& now <= i64::MAX ==> session.ended_at_epoch_millis == Some(now)
    &&& session.ended_at_epoch_millis is Some
    &&& session.updated_at_epoch_millis >= row.updated_at_epoch_millis
    &&& now <= i64::MAX ==> session.updated_at_epoch_millis >= now
    &&& session.session_expires_at_epoch_millis == row.session_expires_at_epoch_millis
    &&& session.created_at_epoch_millis == row.created_at_epoch_millis
}

/// After a change of a device the database holds what the change revoked: each revoked trusted
/// device and account session stands revoked under its name, all others are as they were, and the
/// key of the device is revoked in the list of keys where the device's is. The events and the
/// entries of the closed sessions, the revocations and the change follow in the logs.
pub proof fn a_device_change_is_published_in_full(
    database: DatabaseModel,
    command: DeviceManagementCommand,
    decision: ManagementDecision,
    events: Seq<SessionEventModel>,
    closing_audits: Seq<AuditEntryModel>,
    id: Seq<char>,
)
    ensures
        ({
            let after = after_management(database, command, decision, events, closing_audits);
            let trusts = decision.revoked_trusts@;
            let sessions = decision.revoked_sessions@;
            let device = decision.device@;
            &&& trusts.contains_key(id) ==> after.trusted_controller_devices.contains_key(id)
                && after.trusted_controller_devices[id] == trusts[id]
            &&& !trusts.contains_key(id) ==> (after.trusted_controller_devices.contains_key(id)
                == database.trusted_controller_devices.contains_key(id) && (
            database.trusted_controller_devices.contains_key(id)
                ==> after.trusted_controller_devices[id]
                == database.trusted_controller_devices[id]))
            &&& sessions.contains_key(id) ==> after.account_sessions.contains_key(id)
                && after.account_sessions[id] == sessions[id]
            &&& !sessions.contains_key(id) ==> (after.account_sessions.contains_key(id)
                == database.account_sessions.contains_key(id) && (
            database.account_sessions.contains_key(id) ==> after.account_sessions[id]
                == database.account_sessions[id]))
            &&& after.device_public_keys.contains_key(id)
                == database.device_public_keys.contains_key(id)
            &&& database.device_public_keys.contains_key(id) && (id != device.public_key_id
                || device.public_key_revoked_at_epoch_millis is None)
                ==> after.device_public_keys[id] == database.device_public_keys[id]
            &&& database.device_public_keys.contains_key(device.public_key_id)
                && device.public_key_revoked_at_epoch_millis is Some ==> {
                let key = after.device_public_keys[device.public_key_id];
                let held = database.device_public_keys[device.public_key_id];
                &&& key.revoked_at_epoch_millis == device.public_key_revoked_at_epoch_millis
                &&& key.public_key_id == held.public_key_id
                &&& key.device_id == held.device_id
                &&& key.public_key == held.public_key
                &&& key.version == held.version
                &&& key.created_at_epoch_millis == held.created_at_epoch_millis
            }
            &&& after.session_events == database.session_events + events
            &&& after.audit_logs == database.audit_logs + closing_audits + models(
                decision.revocation_audits@,
            ) + models(decision.authority_audits@)
            &&& (command.action is None || command.action == Some(DeviceManagementAction::Restore))
                ==> after.sessions == database.sessions
            &&& after.accounts == database.accounts
            &&& after.risk_challenges == database.risk_challenges
            &&& after.mfa_factors == database.mfa_factors
        }),
{
}

/// Each trusted device and each account session that a change of a device revokes is logged by its
/// own name with the reason of the change, in the name of whoever asked for the change.
pub proof fn what_a_device_change_revokes_is_logged_by_name(
    command: &DeviceManagementCommand,
    facts: ManagementFacts,
    result: Result<ManagementDecision, ManagementEnd>,
    at: int,
)
    requires
        call_ensures(manage_device, (command, facts), result),
        result is Ok,
    ensures
        ({
            let decision = result->Ok_0;
            let source = facts.authority_audits->Ok_0@[0]@;
            let trusts = decision.revoked_trusts.keys();
            let sessions = decision.revoked_sessions.keys();
            let audits = models(decision.revocation_audits@);
            &&& audits.len() == trusts.len() + sessions.len()
            &&& models(decision.authority_audits@) == models(facts.authority_audits->Ok_0@)
            &&& 0 <= at < trusts.len() ==> {
                &&& audits[at].action == "trusted_device_revoked"@
                &&& audits[at].result == "success"@
                &&& audits[at].metadata["trusted_device_id"@] == JsonModel::Text(trusts[at])
                &&& audits[at].target_device_id == Some(
                    decision.revoked_trusts@[trusts[at]].controller_device_id,
                )
                &&& audits[at].actor_account_id == source.actor_account_id
                &&& audits[at].request_id == source.request_id
                &&& audits[at].audit_id == source.audit_id + ":trusted-device:"@ + trusts[at]
                &&& command.action == Some(DeviceManagementAction::Disable) ==> audits[at].reason
                    == Some("device_disabled"@)
                &&& command.action == Some(DeviceManagementAction::Unbind) ==> audits[at].reason
                    == Some("device_unbound"@)
                &&& command.action == Some(DeviceManagementAction::RevokePublicKey)
                    ==> audits[at].reason == Some("device_public_key_revoked"@)
            }
            &&& 0 <= at < sessions.len() ==> {
                let entry = audits[trusts.len() + at];
                &&& entry.action == "account_session_revoked"@
                &&& entry.result == "success"@
                &&& entry.reason == Some("device_unbound"@)
                &&& entry.metadata["account_session_id"@] == JsonModel::Text(sessions[at])
                &&& entry.actor_account_id == source.actor_account_id
                &&& entry.audit_id == source.audit_id + ":account-session:"@ + sessions[at]
            }
        }),
{
    reveal_strlit("account_session_id");
    reveal_strlit("trusted_device_id");
    reveal_strlit("revoked_reason");
    assert("account_session_id"@.len() != "revoked_reason"@.len());
    assert("trusted_device_id"@.len() != "revoked_reason"@.len());
    assert(models(facts.authority_audits->Ok_0@)[0] == facts.authority_audits->Ok_0@[0]@);
    let decision = result->Ok_0;
    let source = facts.authority_audits->Ok_0@[0]@;
    let trusts = trust_table_audits(source, decision.revoked_trusts, trust_reason(command.action));
    let sessions = session_table_audits(source, decision.revoked_sessions);
    assert(models(decision.revocation_audits@) == trusts + sessions);
    if 0 <= at < trusts.len() {
        assert((trusts + sessions)[at] == trusts[at]);
    }
    if 0 <= at < sessions.len() {
        assert((trusts + sessions)[trusts.len() + at] == sessions[at]);
    }
}

/// Which actions take authority from a device, and which of them remove the device or its key.
pub proof fn what_each_action_takes_away(
    action: Option<DeviceManagementAction>,
    tightens_it: bool,
    revokes: bool,
)
    requires
        call_ensures(tightening, (action,), tightens_it),
        call_ensures(device_management_revokes_account_sessions, (action,), revokes),
    ensures
        action is None || action == Some(DeviceManagementAction::Restore) ==> !tightens_it
            && !revokes,
        action == Some(DeviceManagementAction::Disable) ==> tightens_it && !revokes,
        action == Some(DeviceManagementAction::Unbind) ==> tightens_it && revokes,
        action == Some(DeviceManagementAction::RevokePublicKey) ==> tightens_it && revokes,
{
}

/// A device may act exactly while it is online, offline or busy, and does so under the names of
/// these states too.
pub proof fn a_device_acts_while_it_is_in_use(
    status: DeviceLifecycleStatus,
    may_act: bool,
    name: &str,
    named: bool,
)
    requires
        call_ensures(is_authorizable, (status,), may_act),
        call_ensures(is_authorizable_name, (name,), named),
    ensures
        may_act <==> status == DeviceLifecycleStatus::Online || status
            == DeviceLifecycleStatus::Offline || status == DeviceLifecycleStatus::Busy,
        named <==> name@ == "online"@ || name@ == "offline"@ || name@ == "busy"@,
        name@ == device_lifecycle_status_text(status) ==> may_act == named,
{
    device_lifecycle_status_names_round_trip(status, name@);
    device_lifecycle_status_names_round_trip(DeviceLifecycleStatus::Online, name@);
    device_lifecycle_status_names_round_trip(DeviceLifecycleStatus::Offline, name@);
    device_lifecycle_status_names_round_trip(DeviceLifecycleStatus::Busy, name@);
}

/// The key of a device is replaced exactly under a verified, unused, unexpired challenge of the
/// account and the device for this rotation, where the device has the unrevoked key that the
/// request names, and the new key is another one, under a name of its own and one version later.
pub proof fn a_key_is_replaced_exactly_when_it_may_be(
    rotation: &DeviceKeyRotation,
    facts: RotationFacts,
    result: Result<RotationDecision, StoreError>,
)
    requires
        call_ensures(rotate_device_key, (rotation, facts), result),
        facts.rotation_audit is Ok,
        rotation.new_public_key_version <= i32::MAX,
        forall|i: int|
            0 <= i < facts.sessions@.len() ==> (#[trigger] facts.sessions@[i]).relay_token_epoch
                != i64::MAX && session_row_problem(
                closing_row(facts.sessions@[i], rotation.step_up.now_epoch_millis),
            ) is None,
        forall|i: int|
            0 <= i < facts.trusts@.len() ==> trusted_row_problem(
                trust_revoking_row(
                    #[trigger] facts.trusts@[i],
                    rotation.step_up.now_epoch_millis,
                ),
            ) is None,
    ensures
        ({
            let current = facts.device->0->Ok_0@;
            let challenge = facts.step_up->0;
            let expected = rotation.step_up;
            result is Ok <==> {
                &&& facts.step_up is Some
                &&& challenge.account_id@ == expected.account_id@
                &&& challenge.device_id is Some && challenge.device_id->0@ == expected.device_id@
                &&& challenge.purpose@ == expected.purpose@
                &&& challenge.operation_binding_hash@ == expected.operation_binding_hash@
                &&& challenge.status@ == "verified"@
                &&& challenge.verified_at_epoch_millis is Some
                &&& challenge.consumed_at_epoch_millis is None
                &&& challenge.expires_at_epoch_millis > expected.now_epoch_millis
                &&& facts.device is Some && facts.device->0 is Ok
                &&& current.account_id == expected.account_id@
                &&& current.public_key_id == rotation.current_public_key_id@
                &&& current.public_key_version == rotation.current_public_key_version
                &&& current.public_key_revoked_at_epoch_millis is None
                &&& rotation.new_public_key != current.public_key
                &&& rotation.new_public_key_id@ != rotation.current_public_key_id@
                &&& rotation.new_public_key_version == current.public_key_version + 1
                &&& !facts.key_id_taken
            }
        }),
        facts.device is Some && facts.device->0 is Ok && result is Err ==> result->Err_0
            == StoreError::Conflict,
{
    assert(epochs_renewable(facts.sessions@));
    assert(sessions_readable(facts.sessions@, rotation.step_up.now_epoch_millis));
}

/// A rotation of a key gives the device the new key and leaves the rest of it as it is. It closes
/// every open session of the device, and revokes its active trusted devices of the old key and no
/// others.
pub proof fn a_rotation_takes_the_trust_of_the_old_key(
    rotation: &DeviceKeyRotation,
    facts: RotationFacts,
    result: Result<RotationDecision, StoreError>,
    at: int,
    trust_at: int,
)
    requires
        call_ensures(rotate_device_key, (rotation, facts), result),
        result is Ok,
        forall|i: int, j: int|
            0 <= i < j < facts.trusts@.len() ==> (#[trigger] facts.trusts@[i]).trusted_device_id@
                != (#[trigger] facts.trusts@[j]).trusted_device_id@,
    ensures
        ({
            let current = facts.device->0->Ok_0@;
            let device = result->Ok_0.device@;
            let now = rotation.step_up.now_epoch_millis;
            &&& device.device_id == current.device_id
            &&& device.public_key == rotation.new_public_key
            &&& device.public_key_id == rotation.new_public_key_id@
            &&& device.public_key_version == rotation.new_public_key_version
            &&& device.public_key_revoked_at_epoch_millis is None
            &&& device.account_id == current.account_id
            &&& device.display_name == current.display_name
            &&& device.status == current.status
            &&& device.capabilities == current.capabilities
            &&& device.platform == current.platform
            &&& device.os_version == current.os_version
            &&& device.arch == current.arch
            &&& device.last_seen_epoch_millis == current.last_seen_epoch_millis
            &&& device.created_at_epoch_millis == current.created_at_epoch_millis
            &&& device.updated_at_epoch_millis >= current.updated_at_epoch_millis
            &&& now <= i64::MAX ==> device.updated_at_epoch_millis >= now
            &&& result->Ok_0.rotation_audit@ == facts.rotation_audit->Ok_0@
            &&& result->Ok_0.closed@.len() == facts.sessions@.len()
            &&& 0 <= at < facts.sessions@.len() ==> is_closed_session(
                result->Ok_0.closed@[at],
                facts.sessions@[at],
                now,
            )
            &&& 0 <= trust_at < facts.trusts@.len() ==> {
                let row = facts.trusts@[trust_at];
                let revoked = result->Ok_0.revoked_trusts@;
                &&& revoked.contains_key(row.trusted_device_id@) <==> active_trust_row(
                    row,
                    rotation.step_up.account_id@,
                    rotation.step_up.device_id@,
                ) && row.device_fingerprint_hash@ == sha256_digest(current.public_key@)
                &&& revoked.contains_key(row.trusted_device_id@) ==> {
                    let trust = revoked[row.trusted_device_id@];
                    &&& trust.status == TrustedDeviceStatus::Revoked
                    &&& now <= i64::MAX ==> trust.revoked_at_epoch_millis == Some(now)
                    &&& trust.trusted_device_id == row.trusted_device_id@
                }
            }
        }),
{
    let current = facts.device->0->Ok_0@;
    let now = rotation.step_up.now_epoch_millis;
    if 0 <= at < facts.sessions@.len() {
        let row = facts.sessions@[at];
        assert(session_row_problem(closing_row(row, now)) is None);
        assert(facts.sessions@[at].relay_token_epoch != i64::MAX);
        assert(result->Ok_0.closed@[at].session@ == closed_session(row, now));
    }
    if 0 <= trust_at < facts.trusts@.len() {
        lemma_revoked_trusts(
            facts.trusts@,
            facts.trusts@.len(),
            rotation.step_up.account_id@,
            rotation.step_up.device_id@,
            Some(sha256_digest(current.public_key@)),
            now,
            facts.trusts@[trust_at].trusted_device_id@,
        );
    }
}

/// A published rotation uses up its challenge, holds the new key as an unrevoked key of the device
/// and the old one as revoked, and leaves all other challenges, keys, trusted devices and devices
/// as they were.
pub proof fn a_rotation_is_published_in_full(
    database: DatabaseModel,
    rotation: DeviceKeyRotation,
    decision: RotationDecision,
    events: Seq<SessionEventModel>,
    closing_audits: Seq<AuditEntryModel>,
    id: Seq<char>,
)
    requires
        rotation.new_public_key_id@ != rotation.current_public_key_id@,
    ensures
        ({
            let after = after_rotation(database, rotation, decision, events, closing_audits);
            let challenge_id = rotation.step_up.challenge_id@;
            let now = rotation.step_up.now_epoch_millis;
            let new_key = after.device_public_keys[rotation.new_public_key_id@];
            let old_id = rotation.current_public_key_id@;
            let trusts = decision.revoked_trusts@;
            &&& database.risk_challenges.contains_key(challenge_id) ==> {
                let used = after.risk_challenges[challenge_id];
                let held = database.risk_challenges[challenge_id];
                &&& used.status == RiskChallengeStatus::Consumed
                &&& used.consumed_at_epoch_millis == Some(now)
                &&& used.account_id == held.account_id
                &&& used.verified_at_epoch_millis == held.verified_at_epoch_millis
                &&& used.attempts_remaining == held.attempts_remaining
            }
            &&& after.risk_challenges.contains_key(id) == database.risk_challenges.contains_key(id)
            &&& id != challenge_id && database.risk_challenges.contains_key(id)
                ==> after.risk_challenges[id] == database.risk_challenges[id]
            &&& after.device_public_keys.contains_key(rotation.new_public_key_id@)
            &&& new_key.public_key == rotation.new_public_key
            &&& new_key.public_key_id == rotation.new_public_key_id@
            &&& new_key.device_id == rotation.step_up.device_id@
            &&& new_key.version == rotation.new_public_key_version
            &&& new_key.created_at_epoch_millis == now
            &&& new_key.revoked_at_epoch_millis is None
            &&& database.device_public_keys.contains_key(old_id) ==> {
                let key = after.device_public_keys[old_id];
                let held = database.device_public_keys[old_id];
                &&& after.device_public_keys.contains_key(old_id)
                &&& key.revoked_at_epoch_millis == Some(now)
                &&& key.public_key == held.public_key
                &&& key.device_id == held.device_id
                &&& key.version == held.version
            }
            &&& id != rotation.new_public_key_id@ && id != old_id ==> (
            after.device_public_keys.contains_key(id) == database.device_public_keys.contains_key(
                id,
            ) && (database.device_public_keys.contains_key(id) ==> after.device_public_keys[id]
                == database.device_public_keys[id]))
            &&& after.devices[decision.device@.device_id] == decision.device@
            &&& id != decision.device@.device_id ==> after.devices.contains_key(id)
                == database.devices.contains_key(id) && after.devices[id] == database.devices[id]
            &&& trusts.contains_key(id) ==> after.trusted_controller_devices.contains_key(id)
                && after.trusted_controller_devices[id] == trusts[id]
            &&& !trusts.contains_key(id) && database.trusted_controller_devices.contains_key(id)
                ==> after.trusted_controller_devices.contains_key(id)
                && after.trusted_controller_devices[id] == database.trusted_controller_devices[id]
            &&& after.session_events == database.session_events + events
            &&& after.audit_logs == (database.audit_logs + closing_audits + models(
                decision.trust_audits@,
            )).push(decision.rotation_audit@)
        }),
{
}

/// Each trusted device that a rotation revokes is logged by its own name, for the rotation.
pub proof fn what_a_rotation_revokes_is_logged_by_name(
    rotation: &DeviceKeyRotation,
    facts: RotationFacts,
    result: Result<RotationDecision, StoreError>,
    at: int,
)
    requires
        call_ensures(rotate_device_key, (rotation, facts), result),
        result is Ok,
    ensures
        ({
            let decision = result->Ok_0;
            let source = facts.rotation_audit->Ok_0@;
            let trusts = decision.revoked_trusts.keys();
            let audits = models(decision.trust_audits@);
            &&& audits.len() == trusts.len()
            &&& 0 <= at < trusts.len() ==> {
                &&& audits[at].action == "trusted_device_revoked"@
                &&& audits[at].result == "success"@
                &&& audits[at].reason == Some("device_key_rotated"@)
                &&& audits[at].metadata["trusted_device_id"@] == JsonModel::Text(trusts[at])
                &&& audits[at].actor_account_id == source.actor_account_id
                &&& audits[at].audit_id == source.audit_id + ":trusted-device:"@ + trusts[at]
            }
        }),
{
    reveal_strlit("trusted_device_id");
    reveal_strlit("revoked_reason");
    assert("trusted_device_id"@.len() != "revoked_reason"@.len());
}

} // verus!
