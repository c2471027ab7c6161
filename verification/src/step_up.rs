use crate::account::{
    Account, AccountModel, AccountSessionModel, MfaFactor, MfaFactorModel, RecoveryCode,
    RecoveryCodeModel,
};
use crate::audit::{AuditEntry, AuditEntryModel};
use crate::bytes::bytes_eq;
use crate::challenge::{RiskChallengeModel, RiskChallengeStatus};
use crate::codec::{literals, validate_fixed_enum};
use crate::database::{append_log, extend_log, Database, DatabaseModel};
use crate::device::{TrustedControllerDeviceModel, TrustedDeviceStatus};
use crate::names::risk_challenge_status_text;
use crate::revocation::{
    revoke_sessions, revoke_trusts, revoked_trust, session_after_revocation,
    session_revocation_audits, session_revocations, trust_after_revocation, trust_revocation_audits,
    trust_revocations, RevokedTrust,
};
use crate::risk_challenge::{device_is_authorized, device_may_act, verified_challenge, LockedDevice};
use crate::rules::ACCOUNT_SESSION_REVOKED_REASONS;
use crate::store::{answer_after, check_written, state_after, PersistenceError, StoreError};
use crate::table::{among_first, lemma_among_first_step, models, Record, Table};
use crate::text::{opt_text, opt_text_is, text_eq};
use vstd::prelude::*;

verus! {

/// The verified challenge that an action has to be covered by.
#[derive(Debug, PartialEq, Eq)]
pub struct StepUpExpectation {
    pub challenge_id: String,
    pub account_id: String,
    pub device_id: String,
    pub purpose: String,
    pub operation_binding_hash: [u8; 32],
    pub now_epoch_millis: u64,
}

/// A risk challenge, as its locked row holds what covers an action.
#[derive(Debug, PartialEq, Eq)]
pub struct LockedStepUp {
    pub account_id: String,
    pub device_id: Option<String>,
    pub purpose: String,
    pub operation_binding_hash: Vec<u8>,
    pub status: String,
    pub verified_at_epoch_millis: Option<i64>,
    pub consumed_at_epoch_millis: Option<i64>,
    pub expires_at_epoch_millis: i64,
}

/// Whether a challenge covers an action: it was verified for the same operation on the same
/// device, was not used yet, and is in time.
pub open spec fn step_up_covers(expectation: StepUpExpectation, row: Option<LockedStepUp>) -> bool {
    &&& row is Some
    &&& row->0.account_id@ == expectation.account_id@
    &&& opt_text(row->0.device_id) == Some(expectation.device_id@)
    &&& row->0.purpose@ == expectation.purpose@
    &&& row->0.operation_binding_hash@ == expectation.operation_binding_hash@
    &&& row->0.status@ == "verified"@
    &&& row->0.verified_at_epoch_millis is Some
    &&& row->0.consumed_at_epoch_millis is None
    &&& row->0.expires_at_epoch_millis > expectation.now_epoch_millis
}

fn covers(expectation: &StepUpExpectation, row: &Option<LockedStepUp>) -> (covered: bool)
    ensures
        covered == step_up_covers(*expectation, *row),
{
    match row {
        Some(row) => text_eq(row.account_id.as_str(), expectation.account_id.as_str())
            && opt_text_is(&row.device_id, expectation.device_id.as_str()) && text_eq(
            row.purpose.as_str(),
            expectation.purpose.as_str(),
        ) && bytes_eq(
            row.operation_binding_hash.as_slice(),
            expectation.operation_binding_hash.as_slice(),
        ) && text_eq(row.status.as_str(), "verified") && row.verified_at_epoch_millis.is_some()
            && row.consumed_at_epoch_millis.is_none() && row.expires_at_epoch_millis >= 0
            && row.expires_at_epoch_millis as u64 > expectation.now_epoch_millis,
        None => false,
    }
}

/// Uses a verified challenge up, on its own.
pub fn consume_step_up(expectation: &StepUpExpectation, row: &Option<LockedStepUp>) -> (result:
    Result<(), StoreError>)
    ensures
        result == if step_up_covers(*expectation, *row) {
            Ok(())
        } else {
            Err(StoreError::Conflict)
        },
{
    if covers(expectation, row) {
        Ok(())
    } else {
        Err(StoreError::Conflict)
    }
}

/// A challenge after it was used.
pub open spec fn used_challenge(challenge: RiskChallengeModel, now: u64) -> RiskChallengeModel {
    RiskChallengeModel {
        status: RiskChallengeStatus::Consumed,
        consumed_at_epoch_millis: Some(now),
        ..challenge
    }
}

/// The challenges after one of them was used, where it is held under the expected account and
/// device.
pub open spec fn challenges_after_use(
    challenges: Map<Seq<char>, RiskChallengeModel>,
    expectation: StepUpExpectation,
) -> Map<Seq<char>, RiskChallengeModel> {
    let id = expectation.challenge_id@;
    if challenges.contains_key(id) && challenges[id].account_id == expectation.account_id@
        && challenges[id].device_id == Some(expectation.device_id@) {
        challenges.insert(id, used_challenge(challenges[id], expectation.now_epoch_millis))
    } else {
        challenges
    }
}

/// Publishes that a verified challenge was used, on its own.
pub fn publish_step_up(
    database: &mut Database,
    expectation: &StepUpExpectation,
    written: &Result<(), PersistenceError>,
) -> (result: Result<(), StoreError>)
    ensures
        result == answer_after(*written, Ok(())),
        final(database)@ == state_after(
            *written,
            old(database)@,
            DatabaseModel {
                risk_challenges: challenges_after_use(
                    old(database)@.risk_challenges,
                    *expectation,
                ),
                ..old(database)@
            },
        ),
{
    check_written(written)?;
    if let Some(held) = database.risk_challenges.get(expectation.challenge_id.as_str()) {
        if text_eq(held.account_id.as_str(), expectation.account_id.as_str()) && opt_text_is(
            &held.device_id,
            expectation.device_id.as_str(),
        ) {
            let mut used = held.duplicate();
            used.status = RiskChallengeStatus::Consumed;
            used.consumed_at_epoch_millis = Some(expectation.now_epoch_millis);
            database.risk_challenges.insert(expectation.challenge_id.clone(), used);
        }
    }
    Ok(())
}

/// An action that a verified challenge covers.
#[derive(Debug, PartialEq, Eq)]
pub enum StepUpAction {
    RotateRecoveryCodes { records: Vec<RecoveryCode>, audit_entry: AuditEntry },
    DisableMfaFactor { factor_id: String, audit_entry: AuditEntry },
    ChangePassword {
        expected_password_hash: String,
        new_password_hash: String,
        audit_entry: AuditEntry,
    },
    RevokeTrustedDevice { trusted_device_id: String, audit_entry: AuditEntry },
}

impl StepUpAction {
    /// The audit entry of an action.
    pub open spec fn entry(self) -> AuditEntryModel {
        match self {
            StepUpAction::RotateRecoveryCodes { records, audit_entry } => audit_entry@,
            StepUpAction::DisableMfaFactor { factor_id, audit_entry } => audit_entry@,
            StepUpAction::ChangePassword {
                expected_password_hash,
                new_password_hash,
                audit_entry,
            } => audit_entry@,
            StepUpAction::RevokeTrustedDevice { trusted_device_id, audit_entry } => audit_entry@,
        }
    }

    /// The audit entry of an action.
    pub fn audit_entry(&self) -> (entry: &AuditEntry)
        ensures
            entry@ == self.entry(),
    {
        match self {
            StepUpAction::RotateRecoveryCodes { audit_entry, .. } => audit_entry,
            StepUpAction::DisableMfaFactor { audit_entry, .. } => audit_entry,
            StepUpAction::ChangePassword { audit_entry, .. } => audit_entry,
            StepUpAction::RevokeTrustedDevice { audit_entry, .. } => audit_entry,
        }
    }

    /// Why the sessions and the trusted devices of the account are revoked with an action, if they
    /// are.
    pub open spec fn revocation(self) -> Option<Seq<char>> {
        match self {
            StepUpAction::DisableMfaFactor { factor_id, audit_entry } => Some("mfa_disabled"@),
            StepUpAction::ChangePassword {
                expected_password_hash,
                new_password_hash,
                audit_entry,
            } => Some("password_changed"@),
            _ => None,
        }
    }

    /// Why the sessions and the trusted devices of the account are revoked with an action, if they
    /// are.
    pub fn revoked_reason(&self) -> (reason: Option<&'static str>)
        ensures
            reason is Some <==> self.revocation() is Some,
            reason is Some ==> Some(reason->0@) == self.revocation(),
    {
        match self {
            StepUpAction::DisableMfaFactor { .. } => Some("mfa_disabled"),
            StepUpAction::ChangePassword { .. } => Some("password_changed"),
            _ => None,
        }
    }
}

/// Whether an action is one that a challenge of its purpose covers, and says what it needs to.
pub open spec fn action_fits(expectation: StepUpExpectation, action: StepUpAction) -> bool {
    match action {
        StepUpAction::RotateRecoveryCodes { records, audit_entry } => {
            &&& expectation.purpose@ == "recovery_code_rotate"@
            &&& records@.len() > 0
            &&& forall|i: int|
                0 <= i < records@.len() ==> (#[trigger] records@[i])@.account_id
                    == expectation.account_id@
        },
        StepUpAction::DisableMfaFactor { factor_id, audit_entry } => {
            expectation.purpose@ == "mfa_factor_change"@
        },
        StepUpAction::ChangePassword { expected_password_hash, new_password_hash, audit_entry } => {
            &&& expectation.purpose@ == "password_change"@
            &&& expected_password_hash@.len() > 0
            &&& new_password_hash@.len() > 0
            &&& expected_password_hash@ != new_password_hash@
        },
        StepUpAction::RevokeTrustedDevice { trusted_device_id, audit_entry } => {
            expectation.purpose@ == "trusted_device_change"@
        },
    }
}

fn all_of_account(records: &Vec<RecoveryCode>, account_id: &str) -> (all: bool)
    ensures
        all == forall|i: int|
            0 <= i < records@.len() ==> (#[trigger] records@[i])@.account_id == account_id@,
{
    let mut i: usize = 0;
    while i < records.len()
        invariant
            i <= records.len(),
            forall|k: int| 0 <= k < i ==> (#[trigger] records@[k])@.account_id == account_id@,
        decreases records.len() - i,
    {
        if !text_eq(records[i].account_id.as_str(), account_id) {
            assert(records@[i as int]@.account_id != account_id@);
            return false;
        }
        i = i + 1;
    }
    true
}

fn action_is_valid(expectation: &StepUpExpectation, action: &StepUpAction) -> (valid: bool)
    ensures
        valid == action_fits(*expectation, *action),
{
    let purpose = expectation.purpose.as_str();
    match action {
        StepUpAction::RotateRecoveryCodes { records, .. } => text_eq(
            purpose,
            "recovery_code_rotate",
        ) && records.len() > 0 && all_of_account(records, expectation.account_id.as_str()),
        StepUpAction::DisableMfaFactor { .. } => text_eq(purpose, "mfa_factor_change"),
        StepUpAction::ChangePassword { expected_password_hash, new_password_hash, .. } => text_eq(
            purpose,
            "password_change",
        ) && !expected_password_hash.as_str().is_empty() && !new_password_hash.as_str().is_empty()
            && !text_eq(expected_password_hash.as_str(), new_password_hash.as_str()),
        StepUpAction::RevokeTrustedDevice { .. } => text_eq(purpose, "trusted_device_change"),
    }
}

/// What the store says of an action: the locked rows that it rests on, whether its target is there
/// and active, and what it revokes.
#[derive(Debug, PartialEq, Eq)]
pub struct StepUpFacts {
    pub account_active: bool,
    pub device: Option<LockedDevice>,
    pub step_up: Option<LockedStepUp>,
    /// Whether the factor to disable is an active one of the account.
    pub factor_active: bool,
    /// The password hash of the account.
    pub password_hash: Option<String>,
    /// Whether the trusted device to revoke is an active one of the account.
    pub trust_active: bool,
    /// The sessions of the account that are not revoked.
    pub sessions: Vec<String>,
    /// The trusted devices of the account that are active.
    pub trusts: Vec<RevokedTrust>,
}

/// Whether the target of an action is there as the action expects it.
pub open spec fn target_fits(action: StepUpAction, facts: StepUpFacts) -> bool {
    match action {
        StepUpAction::RotateRecoveryCodes { records, audit_entry } => true,
        StepUpAction::DisableMfaFactor { factor_id, audit_entry } => facts.factor_active,
        StepUpAction::ChangePassword { expected_password_hash, new_password_hash, audit_entry } => {
            opt_text(facts.password_hash) == Some(expected_password_hash@)
        },
        StepUpAction::RevokeTrustedDevice { trusted_device_id, audit_entry } => facts.trust_active,
    }
}

/// Whether an action is carried out.
pub open spec fn step_up_applies(
    expectation: StepUpExpectation,
    action: StepUpAction,
    facts: StepUpFacts,
) -> bool {
    &&& action_fits(expectation, action)
    &&& facts.account_active
    &&& device_may_act(facts.device, expectation.account_id@)
    &&& step_up_covers(expectation, facts.step_up)
    &&& target_fits(action, facts)
    &&& action.revocation() is Some ==> action.entry().actor_account_id == Some(
        expectation.account_id@,
    )
}

/// The entries for everything that is revoked for a reason, sessions first.
pub open spec fn authority_revocations(
    source: AuditEntryModel,
    sessions: Seq<String>,
    trusts: Seq<RevokedTrust>,
    reason: Seq<char>,
) -> Seq<AuditEntryModel> {
    session_revocations(source, sessions, reason) + trust_revocations(source, trusts, reason)
}

/// Whether the sessions and the trusted devices of an account may be revoked for a reason under
/// an audit entry.
pub open spec fn revocation_allowed(
    account_id: Seq<char>,
    reason: Seq<char>,
    source: AuditEntryModel,
) -> bool {
    literals(ACCOUNT_SESSION_REVOKED_REASONS@).contains(reason) && source.actor_account_id == Some(
        account_id,
    )
}

fn reason_is_listed(reason: &str) -> (listed: bool)
    ensures
        listed == literals(ACCOUNT_SESSION_REVOKED_REASONS@).contains(reason@),
{
    validate_fixed_enum(
        reason,
        "account_sessions.revoked_reason",
        ACCOUNT_SESSION_REVOKED_REASONS.as_slice(),
    ).is_ok()
}

/// The entries for the revocation of the sessions and the trusted devices of an account: refused
/// for a reason that is not listed, or under an audit entry of another account.
pub fn revoke_account_sessions_and_trust(
    account_id: &str,
    revoked_reason: &str,
    source_audit: &AuditEntry,
    sessions: &Vec<String>,
    trusts: &Vec<RevokedTrust>,
) -> (result: Result<Vec<AuditEntry>, StoreError>)
    ensures
        result is Ok <==> revocation_allowed(account_id@, revoked_reason@, source_audit@),
        result is Ok ==> models(result->Ok_0@) == authority_revocations(
            source_audit@,
            sessions@,
            trusts@,
            revoked_reason@,
        ),
        result is Err ==> result->Err_0 == StoreError::Conflict,
{
    if !reason_is_listed(revoked_reason) || !opt_text_is(
        &source_audit.actor_account_id,
        account_id,
    ) {
        return Err(StoreError::Conflict);
    }
    let mut audits = session_revocation_audits(source_audit, sessions, revoked_reason);
    let trust_audits = trust_revocation_audits(source_audit, trusts, revoked_reason);
    extend_log(&mut audits, &trust_audits);
    Ok(audits)
}

/// The reasons that actions revoke for are listed.
proof fn lemma_reasons_listed()
    ensures
        literals(ACCOUNT_SESSION_REVOKED_REASONS@).contains("password_changed"@),
        literals(ACCOUNT_SESSION_REVOKED_REASONS@).contains("mfa_enabled"@),
        literals(ACCOUNT_SESSION_REVOKED_REASONS@).contains("mfa_disabled"@),
        literals(ACCOUNT_SESSION_REVOKED_REASONS@).contains("device_unbound"@),
{
    let all = literals(ACCOUNT_SESSION_REVOKED_REASONS@);
    assert(all[1] == "password_changed"@);
    assert(all[2] == "mfa_enabled"@);
    assert(all[3] == "mfa_disabled"@);
    assert(all[5] == "device_unbound"@);
}

/// Decides an action under a verified challenge, and gives the audit entries of what it revokes.
pub fn apply_step_up_action(
    expectation: &StepUpExpectation,
    action: &StepUpAction,
    facts: &StepUpFacts,
) -> (result: Result<Vec<AuditEntry>, StoreError>)
    ensures
        result is Ok <==> step_up_applies(*expectation, *action, *facts),
        result is Ok ==> models(result->Ok_0@) == match action.revocation() {
            Some(reason) => authority_revocations(
                action.entry(),
                facts.sessions@,
                facts.trusts@,
                reason,
            ),
            None => Seq::empty(),
        },
        result is Err ==> result->Err_0 == StoreError::Conflict,
{
    if !action_is_valid(expectation, action) || !facts.account_active || !device_is_authorized(
        &facts.device,
        expectation.account_id.as_str(),
    ) || !covers(expectation, &facts.step_up) {
        return Err(StoreError::Conflict);
    }
    let target_fits = match action {
        StepUpAction::RotateRecoveryCodes { .. } => true,
        StepUpAction::DisableMfaFactor { .. } => facts.factor_active,
        StepUpAction::ChangePassword { expected_password_hash, .. } => opt_text_is(
            &facts.password_hash,
            expected_password_hash.as_str(),
        ),
        StepUpAction::RevokeTrustedDevice { .. } => facts.trust_active,
    };
    if !target_fits {
        return Err(StoreError::Conflict);
    }
    proof {
        lemma_reasons_listed();
    }
    match action.revoked_reason() {
        Some(reason) => revoke_account_sessions_and_trust(
            expectation.account_id.as_str(),
            reason,
            action.audit_entry(),
            &facts.sessions,
            &facts.trusts,
        ),
        None => {
            let audits: Vec<AuditEntry> = Vec::new();
            assert(models(audits@) =~= Seq::empty());
            Ok(audits)
        },
    }
}

/// The recovery codes of the other accounts, and of the account those that were used where they
/// are kept.
pub open spec fn codes_kept(
    codes: Map<Seq<char>, RecoveryCodeModel>,
    account_id: Seq<char>,
    keep_used: bool,
) -> Map<Seq<char>, RecoveryCodeModel> {
    codes.restrict(
        Set::new(
            |key: Seq<char>|
                codes.contains_key(key) && (codes[key].account_id != account_id || keep_used
                    && codes[key].used_at_epoch_millis is Some),
        ),
    )
}

/// Drops the recovery codes of an account, but for those that were used where they are kept.
pub fn drop_recovery_codes(table: &mut Table<RecoveryCode>, account_id: &str, keep_used: bool)
    ensures
        final(table)@ == codes_kept(old(table)@, account_id@, keep_used),
{
    let ghost before = *table;
    let len: usize = table.len();
    let mut kept: Table<RecoveryCode> = Table::new();
    let mut i: usize = 0;
    while i < len
        invariant
            i <= len,
            len == table.keys().len(),
            table.consistent(),
            forall|key: Seq<char>|
                #[trigger] kept@.contains_key(key) <==> among_first(table.keys(), i as int, key)
                    && codes_kept(table@, account_id@, keep_used).contains_key(key),
            forall|key: Seq<char>| #[trigger] kept@.contains_key(key) ==> kept@[key] == table@[key],
        decreases len - i,
    {
        let code = table.row_at(i);
        let ghost at = table.keys()[i as int];
        assert(table@.contains_key(at) && table@[at] == code@);
        if !text_eq(code.account_id.as_str(), account_id) || (keep_used
            && code.used_at_epoch_millis.is_some()) {
            kept.insert(table.key_at(i).clone(), code.duplicate());
        }
        proof {
            lemma_among_first_step(table.keys(), i as int);
        }
        i = i + 1;
    }
    proof {
        table.lemma_all_keys();
    }
    assert(kept@ =~= codes_kept(table@, account_id@, keep_used));
    *table = kept;
}

/// The recovery codes with new ones put among them, in order.
pub open spec fn codes_with(
    codes: Map<Seq<char>, RecoveryCodeModel>,
    records: Seq<RecoveryCodeModel>,
) -> Map<Seq<char>, RecoveryCodeModel>
    decreases records.len(),
{
    if records.len() == 0 {
        codes
    } else {
        codes_with(codes, records.drop_last()).insert(
            records.last().recovery_code_id,
            records.last(),
        )
    }
}

/// Puts new recovery codes into their table, in order.
pub fn add_recovery_codes(table: &mut Table<RecoveryCode>, records: &Vec<RecoveryCode>)
    ensures
        final(table)@ == codes_with(old(table)@, models(records@)),
{
    let ghost before = table@;
    let ghost all = models(records@);
    let mut i: usize = 0;
    assert(all.take(0) =~= Seq::empty());
    while i < records.len()
        invariant
            i <= records.len(),
            all == models(records@),
            table@ == codes_with(before, all.take(i as int)),
        decreases records.len() - i,
    {
        table.insert(records[i].recovery_code_id.clone(), records[i].duplicate());
        assert(all.take(i as int + 1).drop_last() =~= all.take(i as int));
        assert(all.take(i as int + 1).last() == records@[i as int]@);
        i = i + 1;
    }
    assert(all.take(i as int) =~= all);
}

/// Whether an account has an active factor.
pub open spec fn has_active_factor(
    factors: Map<Seq<char>, MfaFactorModel>,
    account_id: Seq<char>,
) -> bool {
    exists|key: Seq<char>| #[trigger]
        factors.contains_key(key) && factors[key].account_id == account_id && factors[key].active
}

/// Whether an account has an active factor.
pub fn any_active_factor(table: &Table<MfaFactor>, account_id: &str) -> (any: bool)
    ensures
        any == has_active_factor(table@, account_id@),
{
    let len: usize = table.len();
    let mut i: usize = 0;
    while i < len
        invariant
            i <= len,
            len == table.keys().len(),
            table.consistent(),
            forall|k: int|
                0 <= k < i ==> {
                    let factor = table@[#[trigger] table.keys()[k]];
                    !(factor.account_id == account_id@ && factor.active)
                },
        decreases len - i,
    {
        let factor = table.row_at(i);
        assert(table@[table.keys()[i as int]] == factor@);
        if text_eq(factor.account_id.as_str(), account_id) && factor.active {
            assert(table@.contains_key(table.keys()[i as int]));
            return true;
        }
        i = i + 1;
    }
    assert(!has_active_factor(table@, account_id@)) by {
        if has_active_factor(table@, account_id@) {
            let key = choose|key: Seq<char>| #[trigger]
                table@.contains_key(key) && table@[key].account_id == account_id@
                    && table@[key].active;
            let k = choose|k: int| 0 <= k < table.keys().len() && #[trigger] table.keys()[k] == key;
            assert(table@[table.keys()[k]].active);
        }
    }
    false
}

/// The time of the last change of an account after one more: later than before, and not before
/// now.
pub open spec fn next_update(updated: u64, now: u64) -> u64 {
    let next = if updated < u64::MAX {
        (updated + 1) as u64
    } else {
        u64::MAX
    };
    if next >= now {
        next
    } else {
        now
    }
}

/// The accounts after a change of the security of one of them, where it is held.
pub open spec fn accounts_after_change(
    accounts: Map<Seq<char>, AccountModel>,
    account_id: Seq<char>,
    password_hash: Option<Seq<char>>,
    now: u64,
) -> Map<Seq<char>, AccountModel> {
    if accounts.contains_key(account_id) {
        let held = accounts[account_id];
        accounts.insert(
            account_id,
            AccountModel {
                password_hash: match password_hash {
                    Some(hash) => hash,
                    None => held.password_hash,
                },
                updated_at_epoch_millis: next_update(held.updated_at_epoch_millis, now),
                ..held
            },
        )
    } else {
        accounts
    }
}

/// Records a change of the security of an account: a new time, and perhaps a new password.
pub fn touch_account(
    table: &mut Table<Account>,
    account_id: &str,
    password_hash: Option<&String>,
    now: u64,
)
    ensures
        final(table)@ == accounts_after_change(
            old(table)@,
            account_id@,
            match password_hash {
                Some(hash) => Some(hash@),
                None => None,
            },
            now,
        ),
{
    if let Some(held) = table.get(account_id) {
        let mut account = held.duplicate();
        if let Some(hash) = password_hash {
            account.password_hash = hash.clone();
        }
        let next: u64 = account.updated_at_epoch_millis.saturating_add(1);
        account.updated_at_epoch_millis = if next >= now {
            next
        } else {
            now
        };
        table.insert(account_id.to_owned(), account);
    }
}

/// The database after the sessions and the trusted devices of an account were revoked.
pub open spec fn after_revocation(
    database: DatabaseModel,
    account_id: Seq<char>,
    reason: Seq<char>,
    now: u64,
) -> DatabaseModel {
    DatabaseModel {
        account_sessions: database.account_sessions.map_values(
            |session: AccountSessionModel|
                session_after_revocation(session, account_id, reason, now),
        ),
        trusted_controller_devices: database.trusted_controller_devices.map_values(
            |trusted: TrustedControllerDeviceModel|
                trust_after_revocation(trusted, account_id, None, now),
        ),
        ..database
    }
}

/// Publishes that the sessions and the trusted devices of an account were revoked.
pub fn publish_revocation(database: &mut Database, account_id: &str, reason: &str, now: u64)
    ensures
        final(database)@ == after_revocation(old(database)@, account_id@, reason@, now),
{
    revoke_sessions(&mut database.account_sessions, account_id, reason, now);
    revoke_trusts(&mut database.trusted_controller_devices, account_id, &None, now);
}

/// The database after the effect of an action itself, without the revocations and the log.
pub open spec fn after_action(
    database: DatabaseModel,
    expectation: StepUpExpectation,
    action: StepUpAction,
) -> DatabaseModel {
    let account = expectation.account_id@;
    let now = expectation.now_epoch_millis;
    match action {
        StepUpAction::RotateRecoveryCodes { records, audit_entry } => DatabaseModel {
            recovery_codes: codes_with(
                codes_kept(database.recovery_codes, account, false),
                models(records@),
            ),
            ..database
        },
        StepUpAction::DisableMfaFactor { factor_id, audit_entry } => {
            let factors = database.mfa_factors.remove(factor_id@);
            DatabaseModel {
                mfa_factors: factors,
                recovery_codes: if has_active_factor(factors, account) {
                    database.recovery_codes
                } else {
                    codes_kept(database.recovery_codes, account, false)
                },
                accounts: accounts_after_change(database.accounts, account, None, now),
                ..database
            }
        },
        StepUpAction::ChangePassword { expected_password_hash, new_password_hash, audit_entry } => {
            DatabaseModel {
                accounts: accounts_after_change(
                    database.accounts,
                    account,
                    Some(new_password_hash@),
                    now,
                ),
                ..database
            }
        },
        StepUpAction::RevokeTrustedDevice { trusted_device_id, audit_entry } => {
            let trusts = database.trusted_controller_devices;
            DatabaseModel {
                trusted_controller_devices: if trusts.contains_key(trusted_device_id@) {
                    trusts.insert(
                        trusted_device_id@,
                        revoked_trust(trusts[trusted_device_id@], now),
                    )
                } else {
                    trusts
                },
                ..database
            }
        },
    }
}

/// The database after an action under a verified challenge.
pub open spec fn after_step_up(
    database: DatabaseModel,
    expectation: StepUpExpectation,
    action: StepUpAction,
    audits: Seq<AuditEntryModel>,
) -> DatabaseModel {
    let id = expectation.challenge_id@;
    let now = expectation.now_epoch_millis;
    let challenged = DatabaseModel {
        risk_challenges: if database.risk_challenges.contains_key(id) {
            database.risk_challenges.insert(
                id,
                used_challenge(database.risk_challenges[id], now),
            )
        } else {
            database.risk_challenges
        },
        ..database
    };
    let acted = after_action(challenged, expectation, action);
    let revoked = match action.revocation() {
        Some(reason) => after_revocation(acted, expectation.account_id@, reason, now),
        None => acted,
    };
    DatabaseModel { audit_logs: (database.audit_logs + audits).push(action.entry()), ..revoked }
}

/// Publishes an action under a verified challenge.
pub fn publish_step_up_action(
    database: &mut Database,
    expectation: &StepUpExpectation,
    action: &StepUpAction,
    audits: &Vec<AuditEntry>,
    written: &Result<(), PersistenceError>,
) -> (result: Result<(), StoreError>)
    ensures
        result == answer_after(*written, Ok(())),
        final(database)@ == state_after(
            *written,
            old(database)@,
            after_step_up(old(database)@, *expectation, *action, models(audits@)),
        ),
{
    check_written(written)?;
    let account_id = expectation.account_id.as_str();
    let now: u64 = expectation.now_epoch_millis;
    if let Some(held) = database.risk_challenges.get(expectation.challenge_id.as_str()) {
        let mut used = held.duplicate();
        used.status = RiskChallengeStatus::Consumed;
        used.consumed_at_epoch_millis = Some(now);
        database.risk_challenges.insert(expectation.challenge_id.clone(), used);
    }
    match action {
        StepUpAction::RotateRecoveryCodes { records, .. } => {
            drop_recovery_codes(&mut database.recovery_codes, account_id, false);
            add_recovery_codes(&mut database.recovery_codes, records);
        },
        StepUpAction::DisableMfaFactor { factor_id, .. } => {
            database.mfa_factors.remove(factor_id.as_str());
            if !any_active_factor(&database.mfa_factors, account_id) {
                drop_recovery_codes(&mut database.recovery_codes, account_id, false);
            }
            touch_account(&mut database.accounts, account_id, None, now);
        },
        StepUpAction::ChangePassword { new_password_hash, .. } => {
            touch_account(&mut database.accounts, account_id, Some(new_password_hash), now);
        },
        StepUpAction::RevokeTrustedDevice { trusted_device_id, .. } => {
            if let Some(held) = database.trusted_controller_devices.get(
                trusted_device_id.as_str(),
            ) {
                let mut trusted = held.duplicate();
                trusted.status = TrustedDeviceStatus::Revoked;
                trusted.revoked_at_epoch_millis = Some(now);
                database.trusted_controller_devices.insert(trusted_device_id.clone(), trusted);
            }
        },
    }
    if let Some(reason) = action.revoked_reason() {
        publish_revocation(database, account_id, reason, now);
    }
    extend_log(&mut database.audit_logs, audits);
    append_log(&mut database.audit_logs, action.audit_entry().duplicate());
    Ok(())
}

/// A verified challenge covers one action: the row of a used challenge covers nothing.
pub proof fn a_step_up_is_used_once(
    expectation: StepUpExpectation,
    row: LockedStepUp,
    action: StepUpAction,
    facts: StepUpFacts,
)
    requires
        row.consumed_at_epoch_millis is Some || row.status@ != "verified"@,
        facts.step_up == Some(row),
    ensures
        !step_up_covers(expectation, Some(row)),
        !step_up_applies(expectation, action, facts),
{
}

/// A change of the password or of the second factors leaves no session and no trusted device of
/// the account usable, writes one entry for each that the store revoked, in order and before the
/// entry of the action itself, and moves the time of the account forward.
pub proof fn a_security_change_revokes_everything(
    database: DatabaseModel,
    expectation: StepUpExpectation,
    action: StepUpAction,
    facts: StepUpFacts,
    session: Seq<char>,
    trust: Seq<char>,
)
    requires
        action.revocation() is Some,
    ensures
        ({
            let reason = action.revocation()->0;
            let audits = authority_revocations(
                action.entry(),
                facts.sessions@,
                facts.trusts@,
                reason,
            );
            let after = after_step_up(database, expectation, action, audits);
            let account = expectation.account_id@;
            &&& after.account_sessions.contains_key(session)
                && after.account_sessions[session].account_id == account
                ==> after.account_sessions[session].revoked_at_epoch_millis is Some
            &&& after.trusted_controller_devices.contains_key(trust)
                && after.trusted_controller_devices[trust].account_id == account
                ==> after.trusted_controller_devices[trust].status != TrustedDeviceStatus::Active
            &&& after.audit_logs.len() == database.audit_logs.len() + facts.sessions@.len()
                + facts.trusts@.len() + 1
            &&& after.audit_logs.last() == action.entry()
            &&& database.accounts.contains_key(account)
                && database.accounts[account].updated_at_epoch_millis < u64::MAX
                ==> after.accounts[account].updated_at_epoch_millis
                > database.accounts[account].updated_at_epoch_millis
        }),
{
}

/// A change of the password also makes every login challenge of the account that was issued before
/// it useless, since the account then has a later time than the challenge was issued for.
pub proof fn a_security_change_outdates_login_challenges(
    accounts: Map<Seq<char>, AccountModel>,
    account_id: Seq<char>,
    password_hash: Option<Seq<char>>,
    now: u64,
)
    requires
        accounts.contains_key(account_id),
        accounts[account_id].updated_at_epoch_millis < u64::MAX,
    ensures
        ({
            let after = accounts_after_change(accounts, account_id, password_hash, now)[account_id];
            &&& after.updated_at_epoch_millis != accounts[account_id].updated_at_epoch_millis
            &&& after.updated_at_epoch_millis >= now
        }),
{
}

/// Whether a row holds a challenge.
pub open spec fn row_holds(row: LockedStepUp, challenge: RiskChallengeModel) -> bool {
    &&& row.account_id@ == challenge.account_id
    &&& opt_text(row.device_id) == challenge.device_id
    &&& row.purpose@ == challenge.purpose
    &&& row.operation_binding_hash@ == challenge.operation_binding_hash@
    &&& row.status@ == risk_challenge_status_text(challenge.status)
    &&& row.verified_at_epoch_millis is Some <==> challenge.verified_at_epoch_millis is Some
    &&& row.consumed_at_epoch_millis is Some <==> challenge.consumed_at_epoch_millis is Some
    &&& row.expires_at_epoch_millis == challenge.expires_at_epoch_millis
}

/// A verified challenge covers the operation that it was issued for, on its device and until it
/// expires, and once used it covers nothing.
pub proof fn a_verified_challenge_covers_its_operation(
    expectation: StepUpExpectation,
    challenge: RiskChallengeModel,
    row: LockedStepUp,
    used_row: LockedStepUp,
    verified_at: u64,
    used_at: u64,
)
    requires
        challenge.consumed_at_epoch_millis is None,
        challenge.account_id == expectation.account_id@,
        challenge.device_id == Some(expectation.device_id@),
        challenge.purpose == expectation.purpose@,
        challenge.operation_binding_hash == expectation.operation_binding_hash,
        row_holds(row, verified_challenge(challenge, verified_at)),
        row_holds(
            used_row,
            used_challenge(
                verified_challenge(challenge, verified_at),
                used_at,
            ),
        ),
    ensures
        step_up_covers(expectation, Some(row)) <==> expectation.now_epoch_millis
            < challenge.expires_at_epoch_millis,
        !step_up_covers(expectation, Some(used_row)),
{
}

} // verus!
