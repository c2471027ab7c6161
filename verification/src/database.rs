use crate::account::{
    Account, AccountModel, AccountSession, AccountSessionModel, MfaFactor, MfaFactorModel,
    RecoveryCode, RecoveryCodeDelivery, RecoveryCodeDeliveryModel, RecoveryCodeModel,
};
use crate::audit::{AuditEntry, AuditEntryModel};
use crate::challenge::{
    LoginChallengeContext, LoginChallengeContextModel, RiskChallenge, RiskChallengeModel,
};
use crate::device::{
    Device, DeviceEnrollmentGrant, DeviceEnrollmentGrantModel, DeviceModel, DevicePublicKeyRecord,
    DevicePublicKeyRecordModel, TrustedControllerDevice, TrustedControllerDeviceModel,
};
use crate::session::{
    IdempotencyRecord, IdempotencyRecordModel, PolicyEvaluation, PolicyEvaluationModel, Session,
    SessionEvent, SessionEventModel, SessionModel,
};
use crate::store::{answer_after, check_written, state_after, PersistenceError, StoreError};
use crate::table::{
    duplicate_all, lemma_picked_step, models, picked, strictly_sorted, Record, Table,
};
use vstd::prelude::*;

verus! {

/// Everything that the server holds in memory: one table for each kind of record, and the two
/// logs, oldest entry first.
#[derive(Debug, PartialEq, Eq)]
pub struct Database {
    pub accounts: Table<Account>,
    pub account_by_email: Table<String>,
    pub account_sessions: Table<AccountSession>,
    pub devices: Table<Device>,
    pub device_public_keys: Table<DevicePublicKeyRecord>,
    pub mfa_factors: Table<MfaFactor>,
    pub recovery_codes: Table<RecoveryCode>,
    pub recovery_code_deliveries: Table<RecoveryCodeDelivery>,
    pub risk_challenges: Table<RiskChallenge>,
    pub login_challenge_contexts: Table<LoginChallengeContext>,
    pub device_enrollment_grants: Table<DeviceEnrollmentGrant>,
    pub trusted_controller_devices: Table<TrustedControllerDevice>,
    pub policy_evaluations: Table<PolicyEvaluation>,
    pub sessions: Table<Session>,
    pub session_idempotency: Table<IdempotencyRecord>,
    pub session_events: Vec<SessionEvent>,
    pub audit_logs: Vec<AuditEntry>,
}

/// The model of [`Database`].
pub struct DatabaseModel {
    pub accounts: Map<Seq<char>, AccountModel>,
    pub account_by_email: Map<Seq<char>, Seq<char>>,
    pub account_sessions: Map<Seq<char>, AccountSessionModel>,
    pub devices: Map<Seq<char>, DeviceModel>,
    pub device_public_keys: Map<Seq<char>, DevicePublicKeyRecordModel>,
    pub mfa_factors: Map<Seq<char>, MfaFactorModel>,
    pub recovery_codes: Map<Seq<char>, RecoveryCodeModel>,
    pub recovery_code_deliveries: Map<Seq<char>, RecoveryCodeDeliveryModel>,
    pub risk_challenges: Map<Seq<char>, RiskChallengeModel>,
    pub login_challenge_contexts: Map<Seq<char>, LoginChallengeContextModel>,
    pub device_enrollment_grants: Map<Seq<char>, DeviceEnrollmentGrantModel>,
    pub trusted_controller_devices: Map<Seq<char>, TrustedControllerDeviceModel>,
    pub policy_evaluations: Map<Seq<char>, PolicyEvaluationModel>,
    pub sessions: Map<Seq<char>, SessionModel>,
    pub session_idempotency: Map<Seq<char>, IdempotencyRecordModel>,
    pub session_events: Seq<SessionEventModel>,
    pub audit_logs: Seq<AuditEntryModel>,
}

impl View for Database {
    type V = DatabaseModel;

    open spec fn view(&self) -> DatabaseModel {
        DatabaseModel {
            accounts: self.accounts@,
            account_by_email: self.account_by_email@,
            account_sessions: self.account_sessions@,
            devices: self.devices@,
            device_public_keys: self.device_public_keys@,
            mfa_factors: self.mfa_factors@,
            recovery_codes: self.recovery_codes@,
            recovery_code_deliveries: self.recovery_code_deliveries@,
            risk_challenges: self.risk_challenges@,
            login_challenge_contexts: self.login_challenge_contexts@,
            device_enrollment_grants: self.device_enrollment_grants@,
            trusted_controller_devices: self.trusted_controller_devices@,
            policy_evaluations: self.policy_evaluations@,
            sessions: self.sessions@,
            session_idempotency: self.session_idempotency@,
            session_events: models(self.session_events@),
            audit_logs: models(self.audit_logs@),
        }
    }
}

impl Database {
    /// A database without records.
    pub fn new() -> (database: Self)
        ensures
            database@.accounts == Map::<Seq<char>, AccountModel>::empty(),
            database@.account_by_email == Map::<Seq<char>, Seq<char>>::empty(),
            database@.account_sessions == Map::<Seq<char>, AccountSessionModel>::empty(),
            database@.devices == Map::<Seq<char>, DeviceModel>::empty(),
            database@.device_public_keys == Map::<Seq<char>, DevicePublicKeyRecordModel>::empty(),
            database@.mfa_factors == Map::<Seq<char>, MfaFactorModel>::empty(),
            database@.recovery_codes == Map::<Seq<char>, RecoveryCodeModel>::empty(),
            database@.recovery_code_deliveries == Map::<Seq<char>, RecoveryCodeDeliveryModel>::empty(),
            database@.risk_challenges == Map::<Seq<char>, RiskChallengeModel>::empty(),
            database@.login_challenge_contexts == Map::<Seq<char>, LoginChallengeContextModel>::empty(),
            database@.device_enrollment_grants == Map::<Seq<char>, DeviceEnrollmentGrantModel>::empty(),
            database@.trusted_controller_devices == Map::<Seq<char>, TrustedControllerDeviceModel>::empty(),
            database@.policy_evaluations == Map::<Seq<char>, PolicyEvaluationModel>::empty(),
            database@.sessions == Map::<Seq<char>, SessionModel>::empty(),
            database@.session_idempotency == Map::<Seq<char>, IdempotencyRecordModel>::empty(),
            database@.session_events == Seq::<SessionEventModel>::empty(),
            database@.audit_logs == Seq::<AuditEntryModel>::empty(),
    {
        let database = Database {
            accounts: Table::new(),
            account_by_email: Table::new(),
            account_sessions: Table::new(),
            devices: Table::new(),
            device_public_keys: Table::new(),
            mfa_factors: Table::new(),
            recovery_codes: Table::new(),
            recovery_code_deliveries: Table::new(),
            risk_challenges: Table::new(),
            login_challenge_contexts: Table::new(),
            device_enrollment_grants: Table::new(),
            trusted_controller_devices: Table::new(),
            policy_evaluations: Table::new(),
            sessions: Table::new(),
            session_idempotency: Table::new(),
            session_events: Vec::new(),
            audit_logs: Vec::new(),
        };
        assert(models(database.session_events@) =~= Seq::<SessionEventModel>::empty());
        assert(models(database.audit_logs@) =~= Seq::<AuditEntryModel>::empty());
        database
    }

    /// A copy with the same model.
    pub fn duplicate(&self) -> (copy: Self)
        ensures
            copy@ == self@,
    {
        Database {
            accounts: self.accounts.duplicate(),
            account_by_email: self.account_by_email.duplicate(),
            account_sessions: self.account_sessions.duplicate(),
            devices: self.devices.duplicate(),
            device_public_keys: self.device_public_keys.duplicate(),
            mfa_factors: self.mfa_factors.duplicate(),
            recovery_codes: self.recovery_codes.duplicate(),
            recovery_code_deliveries: self.recovery_code_deliveries.duplicate(),
            risk_challenges: self.risk_challenges.duplicate(),
            login_challenge_contexts: self.login_challenge_contexts.duplicate(),
            device_enrollment_grants: self.device_enrollment_grants.duplicate(),
            trusted_controller_devices: self.trusted_controller_devices.duplicate(),
            policy_evaluations: self.policy_evaluations.duplicate(),
            sessions: self.sessions.duplicate(),
            session_idempotency: self.session_idempotency.duplicate(),
            session_events: duplicate_all(&self.session_events),
            audit_logs: duplicate_all(&self.audit_logs),
        }
    }
}

/// Publishes the outcome of a transaction: its candidate, where the changes were written and
/// committed.
pub fn publish_transaction(
    database: &mut Database,
    candidate: Database,
    written: &Result<(), PersistenceError>,
) -> (result: Result<(), StoreError>)
    ensures
        result == answer_after(*written, Ok(())),
        final(database)@ == state_after(*written, old(database)@, candidate@),
{
    check_written(written)?;
    *database = candidate;
    Ok(())
}

/// Appends an entry to a log.
pub fn append_log<V: Record>(log: &mut Vec<V>, entry: V)
    ensures
        models(final(log)@) == models(old(log)@).push(entry@),
{
    let ghost before = models(log@);
    log.push(entry);
    assert(models(log@) =~= before.push(entry@));
}

/// Appends copies of entries to a log, in order.
pub fn extend_log<V: Record>(log: &mut Vec<V>, entries: &Vec<V>)
    ensures
        models(final(log)@) == models(old(log)@) + models(entries@),
{
    let ghost before = models(log@);
    let mut i: usize = 0;
    assert(models(log@) =~= before + models(entries@).take(0));
    while i < entries.len()
        invariant
            i <= entries.len(),
            models(log@) == before + models(entries@).take(i as int),
        decreases entries.len() - i,
    {
        append_log(log, entries[i].duplicate());
        i = i + 1;
        assert(models(log@) =~= before + models(entries@).take(i as int));
    }
    assert(models(entries@).take(i as int) =~= models(entries@));
}

/// The rows of a table that differ from an earlier state of it or are new.
pub open spec fn changed<T>(
    before: Map<Seq<char>, T>,
    after: Map<Seq<char>, T>,
    key: Seq<char>,
) -> bool {
    after.contains_key(key) && !(before.contains_key(key) && before[key] == after[key])
}

/// The keys of a list of changes, in order.
pub open spec fn change_keys<V>(changes: Seq<(&String, &V)>) -> Seq<Seq<char>> {
    changes.map_values(|change: (&String, &V)| change.0@)
}

/// The rows of a table that differ from an earlier state of it or are new, in the order of their
/// keys.
pub fn changed_values<'a, V: Record>(before: &'a Table<V>, after: &'a Table<V>) -> (changes: Vec<
    (&'a String, &'a V),
>)
    ensures
        strictly_sorted(change_keys(changes@)),
        forall|key: Seq<char>|
            #[trigger] change_keys(changes@).contains(key) <==> changed(before@, after@, key),
        forall|i: int|
            0 <= i < changes@.len() ==> after@[(#[trigger] changes@[i]).0@] == changes@[i].1@,
{
    let mut changes: Vec<(&'a String, &'a V)> = Vec::new();
    let ghost wanted = |key: Seq<char>| changed(before@, after@, key);
    let len: usize = after.len();
    let mut i: usize = 0;
    while i < len
        invariant
            i <= len,
            len == after.keys().len(),
            after.consistent(),
            wanted == |key: Seq<char>| changed(before@, after@, key),
            picked(change_keys(changes@), after.keys(), i as int, wanted),
            forall|k: int|
                0 <= k < changes@.len() ==> after@[(#[trigger] changes@[k]).0@] == changes@[k].1@,
        decreases len - i,
    {
        let key = after.key_at(i);
        let row = after.row_at(i);
        let unchanged = match before.get(key.as_str()) {
            Some(previous) => previous.same(row),
            None => false,
        };
        let ghost keys = change_keys(changes@);
        let ghost at = after.keys()[i as int];
        assert(after@.contains_key(at));
        proof {
            lemma_picked_step(keys, after.keys(), i as int, wanted);
        }
        if !unchanged {
            changes.push((key, row));
            assert(change_keys(changes@) =~= keys.push(at));
        }
        i = i + 1;
    }
    proof {
        after.lemma_all_keys();
    }
    changes
}

/// Writing every changed row over an earlier state gives the later state on all of its keys, and
/// leaves the rows under other keys as they were.
pub proof fn changes_carry_a_table_over<T>(before: Map<Seq<char>, T>, after: Map<Seq<char>, T>)
    ensures
        ({
            let written = before.union_prefer_right(
                after.restrict(Set::new(|key: Seq<char>| changed(before, after, key))),
            );
            &&& forall|key: Seq<char>|
                after.contains_key(key) ==> written.contains_key(key) && #[trigger] written[key]
                    == after[key]
            &&& forall|key: Seq<char>|
                before.contains_key(key) && !after.contains_key(key) ==> written.contains_key(key)
                    && #[trigger] written[key] == before[key]
            &&& (before.dom().subset_of(after.dom()) ==> written == after)
        }),
{
    let written = before.union_prefer_right(
        after.restrict(Set::new(|key: Seq<char>| changed(before, after, key))),
    );
    if before.dom().subset_of(after.dom()) {
        assert(written =~= after);
    }
}

} // verus!
