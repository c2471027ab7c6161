use crate::account::{MfaFactor, RecoveryCode, RecoveryCodeModel};
use crate::audit::{AuditEntry, JsonModel};
use crate::challenge::{RiskChallengeModel, RiskChallengeStatus};
use crate::codec::literals;
use crate::database::Database;
use crate::device::{TrustedControllerDevice, TrustedDeviceStatus};
use crate::enrollment::{
    finish_totp_enrollment, load_mfa_status, publish_enrollment, replay_totp_enrollment,
    session_is_usable, EnrollmentFacts, FoundDelivery, LockedAccountSession, MfaFactorRow,
    MfaStatusSnapshot, TotpEnrollmentCompletion, TotpEnrollmentReplayLookup,
    TotpEnrollmentReplayOutcome,
};
use crate::mfa::{
    canonical_bytes_are_unique, canonical_fields, decrypt_mfa, encrypt_mfa, field_bytes, seal_mfa,
    MAX_PLAINTEXT_BYTES,
};
use crate::names::risk_challenge_status_text;
use crate::revocation::{revoke_trusts, session_revocations, trust_revocations, RevokedTrust};
use crate::risk_challenge::{
    verify_risk_challenge, RiskChallengeVerification, VerificationDecision, VerificationFacts,
};
use crate::rules::{delivery_problem, ACCOUNT_SESSION_REVOKED_REASONS};
use crate::step_up::{
    apply_step_up_action, codes_kept, codes_with, consume_step_up, has_active_factor,
    publish_revocation, publish_step_up, publish_step_up_action, revoke_account_sessions_and_trust,
    LockedStepUp, StepUpAction, StepUpExpectation, StepUpFacts,
};
use crate::store::{PersistenceError, StoreError};
use crate::table::{models, Table};
use crate::text::opt_text;
use vstd::prelude::*;
use vstd::utf8::encode_utf8;

verus! {

/// A step-up challenge serves exactly the operation it was verified for: of this account, device
/// and purpose, with this binding, verified, not used before and not expired.
pub proof fn a_step_up_serves_its_own_operation(
    expectation: &StepUpExpectation,
    row: &Option<LockedStepUp>,
    result: Result<(), StoreError>,
)
    requires
        call_ensures(consume_step_up, (expectation, row), result),
    ensures
        result is Ok <==> {
            &&& *row is Some
            &&& row->0.account_id@ == expectation.account_id@
            &&& row->0.device_id is Some
            &&& row->0.device_id->0@ == expectation.device_id@
            &&& row->0.purpose@ == expectation.purpose@
            &&& row->0.operation_binding_hash@ == expectation.operation_binding_hash@
            &&& row->0.status@ == "verified"@
            &&& row->0.verified_at_epoch_millis is Some
            &&& row->0.consumed_at_epoch_millis is None
            &&& row->0.expires_at_epoch_millis > expectation.now_epoch_millis
        },
        result is Err ==> result->Err_0 == StoreError::Conflict,
{
}

/// A challenge that was verified covers the operation it was verified for until it expires: what
/// the verification publishes is what the step-up asks for.
pub proof fn a_verified_challenge_serves_its_step_up(
    verification: &RiskChallengeVerification,
    facts: VerificationFacts,
    verified: Result<VerificationDecision, StoreError>,
    expectation: &StepUpExpectation,
    row: LockedStepUp,
    result: Result<(), StoreError>,
)
    requires
        call_ensures(verify_risk_challenge, (verification, facts), verified),
        verified is Ok,
        verified->Ok_0 is Verified,
        call_ensures(consume_step_up, (expectation, &Some(row)), result),
        ({
            let challenge = verified->Ok_0->Verified_challenge@;
            &&& row.account_id@ == challenge.account_id
            &&& opt_text(row.device_id) == challenge.device_id
            &&& row.purpose@ == challenge.purpose
            &&& row.operation_binding_hash@ == challenge.operation_binding_hash@
            &&& row.status@ == risk_challenge_status_text(challenge.status)
            &&& row.verified_at_epoch_millis is Some <==> challenge.verified_at_epoch_millis is Some
            &&& row.consumed_at_epoch_millis is Some <==> challenge.consumed_at_epoch_millis is Some
            &&& row.expires_at_epoch_millis == challenge.expires_at_epoch_millis
            &&& expectation.account_id@ == challenge.account_id
            &&& Some(expectation.device_id@) == challenge.device_id
            &&& expectation.purpose@ == challenge.purpose
            &&& expectation.operation_binding_hash == challenge.operation_binding_hash
        }),
    ensures
        result is Ok <==> expectation.now_epoch_millis
            < verified->Ok_0->Verified_challenge@.expires_at_epoch_millis,
{
}

/// A published step-up uses its challenge up, where that is the account's on the device, keeps the
/// rest of it, and touches nothing else.
pub proof fn a_step_up_is_published(
    database: &mut Database,
    expectation: &StepUpExpectation,
    written: &Result<(), PersistenceError>,
    result: Result<(), StoreError>,
    other: Seq<char>,
)
    requires
        call_ensures(publish_step_up, (database, expectation, written), result),
    ensures
        *written is Err ==> result is Err && final(database)@ == old(database)@,
        *written is Ok ==> result is Ok && {
            let before = old(database)@;
            let after = final(database)@;
            let id = expectation.challenge_id@;
            let own = before.risk_challenges.contains_key(id)
                && before.risk_challenges[id].account_id == expectation.account_id@
                && before.risk_challenges[id].device_id == Some(expectation.device_id@);
            &&& own ==> is_used_challenge(
                before.risk_challenges[id],
                after.risk_challenges[id],
                expectation.now_epoch_millis,
            )
            &&& !own ==> after.risk_challenges == before.risk_challenges
            &&& after.risk_challenges.contains_key(other) == before.risk_challenges.contains_key(
                other,
            )
            &&& other != id && before.risk_challenges.contains_key(other)
                ==> after.risk_challenges[other] == before.risk_challenges[other]
            &&& after.accounts == before.accounts
            &&& after.audit_logs == before.audit_logs
            &&& after.mfa_factors == before.mfa_factors
        },
{
}

/// Whether a challenge was used up at a time and is otherwise as before.
pub open spec fn is_used_challenge(
    before: RiskChallengeModel,
    after: RiskChallengeModel,
    now: u64,
) -> bool {
    &&& after.status == RiskChallengeStatus::Consumed
    &&& after.consumed_at_epoch_millis == Some(now)
    &&& after.risk_challenge_id == before.risk_challenge_id
    &&& after.account_id == before.account_id
    &&& after.device_id == before.device_id
    &&& after.purpose == before.purpose
    &&& after.operation_binding_hash == before.operation_binding_hash
    &&& after.required_methods == before.required_methods
    &&& after.attempts_remaining == before.attempts_remaining
    &&& after.verified_at_epoch_millis == before.verified_at_epoch_millis
    &&& after.expires_at_epoch_millis == before.expires_at_epoch_millis
}

/// A protected action is carried out exactly for an active account from a device of its own that may
/// act, under a step-up of the action's purpose, where its target is still there: new recovery codes
/// are all the account's and not none; a factor and a trusted device are still active; a password is
/// replaced by another one, and is the one that was expected. What ends sessions is logged by the
/// account itself.
pub proof fn a_protected_action_needs_its_step_up(
    expectation: &StepUpExpectation,
    action: &StepUpAction,
    facts: &StepUpFacts,
    covered: Result<(), StoreError>,
    result: Result<Vec<AuditEntry>, StoreError>,
)
    requires
        call_ensures(apply_step_up_action, (expectation, action, facts), result),
        call_ensures(consume_step_up, (expectation, &facts.step_up), covered),
    ensures
        ({
            let authorized = facts.account_active && facts.device is Some
                && facts.device->0.account_id@ == expectation.account_id@ && (
            facts.device->0.status@ == "online"@ || facts.device->0.status@ == "offline"@
                || facts.device->0.status@ == "busy"@) && covered is Ok;
            let own_entry = action.entry().actor_account_id == Some(expectation.account_id@);
            &&& result is Err ==> result->Err_0 == StoreError::Conflict
            &&& action is RotateRecoveryCodes ==> (result is Ok <==> authorized
                && expectation.purpose@ == "recovery_code_rotate"@
                && action->RotateRecoveryCodes_records@.len() > 0 && forall|i: int|
                0 <= i < action->RotateRecoveryCodes_records@.len() ==> (
                #[trigger] action->RotateRecoveryCodes_records@[i])@.account_id
                    == expectation.account_id@)
            &&& action is DisableMfaFactor ==> (result is Ok <==> authorized && expectation.purpose@
                == "mfa_factor_change"@ && facts.factor_active && own_entry)
            &&& action is ChangePassword ==> (result is Ok <==> authorized && expectation.purpose@
                == "password_change"@ && own_entry && facts.password_hash is Some
                && facts.password_hash->0@ == action->expected_password_hash@
                && action->new_password_hash@ != action->expected_password_hash@
                && action->new_password_hash@.len() > 0 && action->expected_password_hash@.len()
                > 0)
            &&& action is RevokeTrustedDevice ==> (result is Ok <==> authorized
                && expectation.purpose@ == "trusted_device_change"@ && facts.trust_active)
        }),
{
}

/// Disabling a factor and changing the password end every session and every trust of the account,
/// and each is logged by name, sessions first; rotating recovery codes and revoking a trusted device
/// end none.
pub proof fn a_protected_action_logs_what_it_revokes(
    expectation: &StepUpExpectation,
    action: &StepUpAction,
    facts: &StepUpFacts,
    result: Result<Vec<AuditEntry>, StoreError>,
    at: int,
)
    requires
        call_ensures(apply_step_up_action, (expectation, action, facts), result),
        result is Ok,
    ensures
        ({
            let audits = models(result->Ok_0@);
            let sessions = facts.sessions@.len() as int;
            let ends = action is DisableMfaFactor || action is ChangePassword;
            &&& !ends ==> audits.len() == 0
            &&& ends ==> audits.len() == facts.sessions@.len() + facts.trusts@.len()
            &&& ends && 0 <= at < audits.len() ==> {
                &&& audits[at].result == "success"@
                &&& audits[at].actor_account_id == Some(expectation.account_id@)
                &&& action is DisableMfaFactor ==> audits[at].reason == Some("mfa_disabled"@)
                &&& action is ChangePassword ==> audits[at].reason == Some("password_changed"@)
                &&& audits[at].request_id == action.entry().request_id
                &&& audits[at].created_at_epoch_millis == action.entry().created_at_epoch_millis
            }
            &&& ends && 0 <= at < sessions ==> audits[at].action == "account_session_revoked"@
                && audits[at].metadata["account_session_id"@] == JsonModel::Text(
                facts.sessions@[at]@,
            ) && audits[at].audit_id == action.entry().audit_id + ":account-session:"@
                + facts.sessions@[at]@
            &&& ends && sessions <= at < audits.len() ==> {
                let trust = facts.trusts@[at - sessions];
                &&& audits[at].action == "trusted_device_revoked"@
                &&& audits[at].metadata["trusted_device_id"@] == JsonModel::Text(
                    trust.trusted_device_id@,
                )
                &&& audits[at].target_device_id == Some(trust.controller_device_id@)
                &&& audits[at].audit_id == action.entry().audit_id + ":trusted-device:"@
                    + trust.trusted_device_id@
            }
        }),
{
    lemma_revocation_metadata();
    let sessions = facts.sessions@.len() as int;
    match action.revocation() {
        Some(reason) => {
            let first = session_revocations(action.entry(), facts.sessions@, reason);
            let second = trust_revocations(action.entry(), facts.trusts@, reason);
            assert(models(result->Ok_0@) == first + second);
            if 0 <= at < first.len() {
                assert((first + second)[at] == first[at]);
            }
            if first.len() <= at < first.len() + second.len() {
                assert((first + second)[at] == second[at - first.len()]);
            }
        },
        None => {},
    }
}

proof fn lemma_revocation_metadata()
    ensures
        "account_session_id"@ != "revoked_reason"@,
        "trusted_device_id"@ != "revoked_reason"@,
{
    reveal_strlit("account_session_id");
    reveal_strlit("trusted_device_id");
    reveal_strlit("revoked_reason");
    assert("account_session_id"@.len() != "revoked_reason"@.len());
    assert("trusted_device_id"@.len() != "revoked_reason"@.len());
}

/// A published action uses its challenge up, logs what it revoked and then itself, and does what it
/// is for: the account's recovery codes are the new ones, the factor is gone, the password is the
/// new one, or the trusted device is revoked.
pub proof fn a_protected_action_does_what_it_is_for(
    database: &mut Database,
    expectation: &StepUpExpectation,
    action: &StepUpAction,
    audits: &Vec<AuditEntry>,
    written: &Result<(), PersistenceError>,
    result: Result<(), StoreError>,
    other: Seq<char>,
)
    requires
        call_ensures(
            publish_step_up_action,
            (database, expectation, action, audits, written),
            result,
        ),
    ensures
        *written is Err ==> result is Err && final(database)@ == old(database)@,
        *written is Ok ==> result is Ok && {
            let before = old(database)@;
            let after = final(database)@;
            let account = expectation.account_id@;
            let now = expectation.now_epoch_millis;
            let id = expectation.challenge_id@;
            &&& before.risk_challenges.contains_key(id) ==> is_used_challenge(
                before.risk_challenges[id],
                after.risk_challenges[id],
                now,
            )
            &&& after.risk_challenges.contains_key(other) == before.risk_challenges.contains_key(
                other,
            )
            &&& other != id && before.risk_challenges.contains_key(other)
                ==> after.risk_challenges[other] == before.risk_challenges[other]
            &&& after.audit_logs == (before.audit_logs + models(audits@)).push(action.entry())
            &&& after.devices == before.devices
            &&& after.sessions == before.sessions
            &&& action is ChangePassword && before.accounts.contains_key(account) ==> {
                &&& after.accounts[account].password_hash == action->new_password_hash@
                &&& after.accounts[account].email == before.accounts[account].email
                &&& after.accounts[account].status == before.accounts[account].status
                &&& after.accounts[account].account_id == before.accounts[account].account_id
                &&& after.accounts[account].display_name == before.accounts[account].display_name
                &&& after.accounts[account].created_at_epoch_millis
                    == before.accounts[account].created_at_epoch_millis
                &&& after.accounts[account].updated_at_epoch_millis >= now
                &&& after.mfa_factors == before.mfa_factors
                &&& after.recovery_codes == before.recovery_codes
            }
            &&& other != account ==> after.accounts.contains_key(other)
                == before.accounts.contains_key(other) && after.accounts[other]
                == before.accounts[other]
            &&& action is DisableMfaFactor ==> {
                let factor_id = action->factor_id@;
                &&& !after.mfa_factors.contains_key(factor_id)
                &&& other != factor_id ==> after.mfa_factors.contains_key(other)
                    == before.mfa_factors.contains_key(other) && after.mfa_factors[other]
                    == before.mfa_factors[other]
                &&& before.accounts.contains_key(account)
                    ==> after.accounts[account].password_hash
                    == before.accounts[account].password_hash
                &&& after.mfa_factors.contains_key(other) && after.mfa_factors[other].account_id
                    == account && after.mfa_factors[other].active ==> after.recovery_codes
                    == before.recovery_codes
                &&& (forall|key: Seq<char>| #[trigger]
                    after.mfa_factors.contains_key(key) ==> after.mfa_factors[key].account_id
                        != account || !after.mfa_factors[key].active) ==> (
                after.recovery_codes.contains_key(other) <==> before.recovery_codes.contains_key(
                    other,
                ) && before.recovery_codes[other].account_id != account)
            }
            &&& action is RevokeTrustedDevice ==> {
                let trust_id = action->trusted_device_id@;
                &&& before.trusted_controller_devices.contains_key(trust_id) ==> {
                    let trust = after.trusted_controller_devices[trust_id];
                    let held = before.trusted_controller_devices[trust_id];
                    &&& trust.status == TrustedDeviceStatus::Revoked
                    &&& trust.revoked_at_epoch_millis == Some(now)
                    &&& trust.trusted_device_id == held.trusted_device_id
                    &&& trust.account_id == held.account_id
                    &&& trust.controller_device_id == held.controller_device_id
                    &&& trust.expires_at_epoch_millis == held.expires_at_epoch_millis
                }
                &&& other != trust_id ==> after.trusted_controller_devices.contains_key(other)
                    == before.trusted_controller_devices.contains_key(other)
                    && after.trusted_controller_devices[other]
                    == before.trusted_controller_devices[other]
                &&& after.account_sessions == before.account_sessions
                &&& after.accounts == before.accounts
                &&& after.mfa_factors == before.mfa_factors
            }
            &&& action is RotateRecoveryCodes ==> {
                &&& after.account_sessions == before.account_sessions
                &&& after.trusted_controller_devices == before.trusted_controller_devices
                &&& after.accounts == before.accounts
                &&& after.mfa_factors == before.mfa_factors
            }
        },
{
    if action is DisableMfaFactor {
        let factors = old(database)@.mfa_factors.remove(action->factor_id@);
        assert(factors.contains_key(other) && factors[other].account_id == expectation.account_id@
            && factors[other].active ==> has_active_factor(factors, expectation.account_id@));
    }
}

/// After a rotation of its recovery codes an account holds exactly the new ones, and every other
/// account holds what it held.
pub proof fn rotated_recovery_codes_replace_the_old(
    database: &mut Database,
    expectation: &StepUpExpectation,
    action: &StepUpAction,
    audits: &Vec<AuditEntry>,
    written: &Result<(), PersistenceError>,
    result: Result<(), StoreError>,
    at: int,
    id: Seq<char>,
)
    requires
        call_ensures(
            publish_step_up_action,
            (database, expectation, action, audits, written),
            result,
        ),
        *written is Ok,
        action is RotateRecoveryCodes,
        forall|i: int, j: int|
            0 <= i < j < action->RotateRecoveryCodes_records@.len() ==> (
            #[trigger] action->RotateRecoveryCodes_records@[i])@.recovery_code_id != (
            #[trigger] action->RotateRecoveryCodes_records@[j])@.recovery_code_id,
    ensures
        ({
            let records = action->RotateRecoveryCodes_records@;
            let before = old(database)@.recovery_codes;
            let after = final(database)@.recovery_codes;
            &&& 0 <= at < records.len() ==> after.contains_key(records[at]@.recovery_code_id)
                && after[records[at]@.recovery_code_id] == records[at]@
            &&& (forall|i: int|
                0 <= i < records.len() ==> (#[trigger] records[i])@.recovery_code_id != id) ==> (
            after.contains_key(id) <==> before.contains_key(id) && before[id].account_id
                != expectation.account_id@)
            &&& (forall|i: int|
                0 <= i < records.len() ==> (#[trigger] records[i])@.recovery_code_id != id)
                && after.contains_key(id) ==> after[id] == before[id]
        }),
{
    let records = action->RotateRecoveryCodes_records@;
    let kept = codes_kept(old(database)@.recovery_codes, expectation.account_id@, false);
    lemma_codes_with(kept, records, records.len(), at, id);
    assert(models(records).take(records.len() as int) =~= models(records));
}

proof fn lemma_codes_with(
    codes: Map<Seq<char>, RecoveryCodeModel>,
    records: Seq<RecoveryCode>,
    count: nat,
    at: int,
    id: Seq<char>,
)
    requires
        count <= records.len(),
        forall|i: int, j: int|
            0 <= i < j < records.len() ==> (#[trigger] records[i])@.recovery_code_id != (
            #[trigger] records[j])@.recovery_code_id,
    ensures
        ({
            let after = codes_with(codes, models(records).take(count as int));
            &&& 0 <= at < count ==> after.contains_key(records[at]@.recovery_code_id)
                && after[records[at]@.recovery_code_id] == records[at]@
            &&& (forall|i: int|
                0 <= i < count ==> (#[trigger] records[i])@.recovery_code_id != id) ==> (
            after.contains_key(id) <==> codes.contains_key(id)) && (codes.contains_key(id)
                ==> after[id] == codes[id])
        }),
    decreases count,
{
    if count > 0 {
        let taken = models(records).take(count as int);
        assert(taken.drop_last() =~= models(records).take(count - 1));
        assert(taken.last() == records[count - 1]@);
        lemma_codes_with(codes, records, (count - 1) as nat, at, id);
        if 0 <= at < count - 1 {
            assert(records[at]@.recovery_code_id != records[count - 1]@.recovery_code_id);
        }
    }
}

/// After the revocation of an account's authority every session of the account that was open is
/// revoked then, for that reason, and every active trusted device is revoked; what was revoked
/// before keeps its time and reason, and other accounts keep all they have.
pub proof fn a_revocation_ends_sessions_and_trust_of_one_account(
    database: &mut Database,
    account_id: &str,
    reason: &str,
    now: u64,
    key: Seq<char>,
)
    requires
        call_ensures(publish_revocation, (database, account_id, reason, now), ()),
    ensures
        ({
            let before = old(database)@;
            let after = final(database)@;
            let sessions = before.account_sessions;
            let trusts = before.trusted_controller_devices;
            &&& after.account_sessions.contains_key(key) == sessions.contains_key(key)
            &&& after.trusted_controller_devices.contains_key(key) == trusts.contains_key(key)
            &&& sessions.contains_key(key) && sessions[key].account_id == account_id@
                && sessions[key].revoked_at_epoch_millis is None ==> {
                let session = after.account_sessions[key];
                &&& session.revoked_at_epoch_millis == Some(now)
                &&& session.revoked_reason == Some(reason@)
                &&& session.account_id == account_id@
                &&& session.account_session_id == sessions[key].account_session_id
                &&& session.refresh_token_hash == sessions[key].refresh_token_hash
                &&& session.expires_at_epoch_millis == sessions[key].expires_at_epoch_millis
            }
            &&& sessions.contains_key(key) && (sessions[key].account_id != account_id@
                || sessions[key].revoked_at_epoch_millis is Some) ==> after.account_sessions[key]
                == sessions[key]
            &&& trusts.contains_key(key) && trusts[key].account_id == account_id@
                && trusts[key].status == TrustedDeviceStatus::Active ==> {
                let trust = after.trusted_controller_devices[key];
                &&& trust.status == TrustedDeviceStatus::Revoked
                &&& trust.revoked_at_epoch_millis == Some(now)
                &&& trust.account_id == account_id@
                &&& trust.controller_device_id == trusts[key].controller_device_id
                &&& trust.expires_at_epoch_millis == trusts[key].expires_at_epoch_millis
            }
            &&& trusts.contains_key(key) && (trusts[key].account_id != account_id@
                || trusts[key].status != TrustedDeviceStatus::Active)
                ==> after.trusted_controller_devices[key] == trusts[key]
            &&& after.accounts == before.accounts
            &&& after.devices == before.devices
            &&& after.audit_logs == before.audit_logs
        }),
{
}

/// The trust of one device of an account can be revoked alone: its active trusted devices are
/// revoked, and those of the account's other devices stay.
pub proof fn the_trust_of_one_device_is_revoked_alone(
    table: &mut Table<TrustedControllerDevice>,
    account_id: &str,
    controller_device_id: &Option<String>,
    now: u64,
    key: Seq<char>,
)
    requires
        call_ensures(revoke_trusts, (table, account_id, controller_device_id, now), ()),
    ensures
        ({
            let before = old(table)@;
            let after = final(table)@;
            let hit = before.contains_key(key) && before[key].account_id == account_id@
                && before[key].status == TrustedDeviceStatus::Active && (*controller_device_id
                is None || controller_device_id->0@ == before[key].controller_device_id);
            &&& after.contains_key(key) == before.contains_key(key)
            &&& hit ==> after[key].status == TrustedDeviceStatus::Revoked
                && after[key].revoked_at_epoch_millis == Some(now) && after[key].account_id
                == account_id@
            &&& before.contains_key(key) && !hit ==> after[key] == before[key]
        }),
{
}

/// A revocation is carried out exactly for one of the known reasons and in the account's own name.
pub proof fn a_revocation_has_a_known_reason(
    account_id: &str,
    reason: &str,
    source: &AuditEntry,
    sessions: &Vec<String>,
    trusts: &Vec<RevokedTrust>,
    result: Result<Vec<AuditEntry>, StoreError>,
)
    requires
        call_ensures(
            revoke_account_sessions_and_trust,
            (account_id, reason, source, sessions, trusts),
            result,
        ),
        source@.actor_account_id == Some(account_id@),
        reason@ == "password_changed"@ || reason@ == "mfa_enabled"@ || reason@ == "mfa_disabled"@
            || reason@ == "device_unbound"@ || reason@ == "logout"@ || reason@ == "refresh_replay"@,
    ensures
        result is Ok,
        result->Ok_0@.len() == sessions@.len() + trusts@.len(),
{
    let reasons = literals(ACCOUNT_SESSION_REVOKED_REASONS@);
    assert(reasons[0] == ACCOUNT_SESSION_REVOKED_REASONS@[0]@);
    assert(reasons[1] == ACCOUNT_SESSION_REVOKED_REASONS@[1]@);
    assert(reasons[2] == ACCOUNT_SESSION_REVOKED_REASONS@[2]@);
    assert(reasons[3] == ACCOUNT_SESSION_REVOKED_REASONS@[3]@);
    assert(reasons[4] == ACCOUNT_SESSION_REVOKED_REASONS@[4]@);
    assert(reasons[5] == ACCOUNT_SESSION_REVOKED_REASONS@[5]@);
    assert(reasons[6] == ACCOUNT_SESSION_REVOKED_REASONS@[6]@);
    assert(models(result->Ok_0@).len() == sessions@.len() + trusts@.len());
}

/// A revocation in another account's name is refused.
pub proof fn a_revocation_is_logged_by_its_account(
    account_id: &str,
    reason: &str,
    source: &AuditEntry,
    sessions: &Vec<String>,
    trusts: &Vec<RevokedTrust>,
    result: Result<Vec<AuditEntry>, StoreError>,
)
    requires
        call_ensures(
            revoke_account_sessions_and_trust,
            (account_id, reason, source, sessions, trusts),
            result,
        ),
    ensures
        result is Ok ==> source@.actor_account_id == Some(account_id@),
        result is Err ==> result->Err_0 == StoreError::Conflict,
{
}

/// A factor is enrolled exactly where the records fit one another: an active factor that was proved
/// with a code, fresh codes of its account that differ in name and hash, a delivery of just these
/// codes; and where the account is active, has no factor yet and asks from a session that can be
/// used, for the first time and in its own name.
pub proof fn a_factor_is_enrolled_once(
    completion: &TotpEnrollmentCompletion,
    facts: &EnrollmentFacts,
    result: Result<Vec<AuditEntry>, StoreError>,
)
    requires
        call_ensures(finish_totp_enrollment, (completion, facts), result),
        delivery_problem(completion.delivery@, facts.delivery_binding_valid) is None,
        completion.recovery_codes@.len() <= i16::MAX,
    ensures
        ({
            let factor = completion.factor@;
            let delivery = completion.delivery@;
            let codes = completion.recovery_codes@;
            let entry = completion.audit_entry@;
            result is Ok <==> {
                &&& factor.active
                &&& factor.last_used_counter is Some
                &&& factor.created_at_epoch_millis <= entry.created_at_epoch_millis
                &&& codes.len() > 0
                &&& delivery.account_id == factor.account_id
                &&& delivery.factor_id == factor.factor_id
                &&& delivery.recovery_code_count == codes.len()
                &&& forall|i: int|
                    0 <= i < codes.len() ==> (#[trigger] codes[i])@.account_id == factor.account_id
                        && codes[i]@.used_at_epoch_millis is None
                &&& forall|i: int, j: int|
                    0 <= i < j < codes.len() ==> (#[trigger] codes[i])@.recovery_code_id != (
                    #[trigger] codes[j])@.recovery_code_id && codes[i]@.code_hash
                        != codes[j]@.code_hash
                &&& entry.actor_account_id == Some(factor.account_id)
                &&& facts.account_active
                &&& !facts.idempotency_claimed
                &&& !facts.factor_exists
                &&& facts.session is Some
                &&& facts.session->0.revoked_at_epoch_millis is None
                &&& facts.session->0.revoked_reason is None
                &&& facts.session->0.expires_at_epoch_millis > entry.created_at_epoch_millis
            }
        }),
        result is Err ==> result->Err_0 == StoreError::Conflict,
        result is Ok ==> result->Ok_0@.len() == facts.sessions@.len() + facts.trusts@.len(),
{
    if result is Ok {
        assert(models(result->Ok_0@).len() == facts.sessions@.len() + facts.trusts@.len());
    }
}

/// An enrolment without a valid delivery of its codes is refused.
pub proof fn an_enrolment_delivers_its_codes(
    completion: &TotpEnrollmentCompletion,
    facts: &EnrollmentFacts,
    result: Result<Vec<AuditEntry>, StoreError>,
)
    requires
        call_ensures(finish_totp_enrollment, (completion, facts), result),
        delivery_problem(completion.delivery@, facts.delivery_binding_valid) is Some,
    ensures
        result == Err::<Vec<AuditEntry>, _>(StoreError::Conflict),
{
}

/// A session can be used exactly while it is there, not revoked and not expired.
pub proof fn a_session_can_be_used_until_it_ends(
    session: &Option<LockedAccountSession>,
    now: u64,
    usable: bool,
)
    requires
        call_ensures(session_is_usable, (session, now), usable),
    ensures
        usable <==> *session is Some && session->0.revoked_at_epoch_millis is None
            && session->0.revoked_reason is None && session->0.expires_at_epoch_millis > now,
{
}

/// A published enrolment holds the factor, its delivery and its codes beside the account's used
/// ones, drops the account's unused codes, outdates the account, ends its open sessions and trust as
/// of then, and logs what it revoked before itself.
pub proof fn an_enrolment_is_published(
    database: &mut Database,
    completion: &TotpEnrollmentCompletion,
    audits: &Vec<AuditEntry>,
    written: &Result<(), PersistenceError>,
    result: Result<(), StoreError>,
    at: int,
    id: Seq<char>,
)
    requires
        call_ensures(publish_enrollment, (database, completion, audits, written), result),
        forall|i: int, j: int|
            0 <= i < j < completion.recovery_codes@.len() ==> (
            #[trigger] completion.recovery_codes@[i])@.recovery_code_id != (
            #[trigger] completion.recovery_codes@[j])@.recovery_code_id,
    ensures
        *written is Err ==> result is Err && final(database)@ == old(database)@,
        *written is Ok ==> result is Ok && {
            let before = old(database)@;
            let after = final(database)@;
            let factor = completion.factor@;
            let account = factor.account_id;
            let delivery = completion.delivery@;
            let codes = completion.recovery_codes@;
            let now = completion.audit_entry@.created_at_epoch_millis;
            &&& after.mfa_factors.contains_key(factor.factor_id)
            &&& after.mfa_factors[factor.factor_id] == factor
            &&& id != factor.factor_id ==> after.mfa_factors.contains_key(id)
                == before.mfa_factors.contains_key(id) && after.mfa_factors[id]
                == before.mfa_factors[id]
            &&& after.recovery_code_deliveries.contains_key(delivery.delivery_id)
            &&& after.recovery_code_deliveries[delivery.delivery_id] == delivery
            &&& 0 <= at < codes.len() ==> after.recovery_codes.contains_key(
                codes[at]@.recovery_code_id,
            ) && after.recovery_codes[codes[at]@.recovery_code_id] == codes[at]@
            &&& (forall|i: int|
                0 <= i < codes.len() ==> (#[trigger] codes[i])@.recovery_code_id != id) ==> (
            after.recovery_codes.contains_key(id) <==> before.recovery_codes.contains_key(id) && (
            before.recovery_codes[id].account_id != account
                || before.recovery_codes[id].used_at_epoch_millis is Some))
            &&& before.accounts.contains_key(account) ==> {
                &&& after.accounts[account].updated_at_epoch_millis >= now
                &&& before.accounts[account].updated_at_epoch_millis < u64::MAX
                    ==> after.accounts[account].updated_at_epoch_millis
                    > before.accounts[account].updated_at_epoch_millis
                &&& after.accounts[account].password_hash == before.accounts[account].password_hash
                &&& after.accounts[account].status == before.accounts[account].status
            }
            &&& id != account ==> after.accounts.contains_key(id) == before.accounts.contains_key(
                id,
            ) && after.accounts[id] == before.accounts[id]
            &&& before.account_sessions.contains_key(id) && before.account_sessions[id].account_id
                == account && before.account_sessions[id].revoked_at_epoch_millis is None
                ==> after.account_sessions[id].revoked_at_epoch_millis == Some(now)
                && after.account_sessions[id].revoked_reason == Some("mfa_enabled"@)
            &&& before.account_sessions.contains_key(id) && before.account_sessions[id].account_id
                != account ==> after.account_sessions[id] == before.account_sessions[id]
            &&& before.trusted_controller_devices.contains_key(id)
                && before.trusted_controller_devices[id].account_id == account
                && before.trusted_controller_devices[id].status == TrustedDeviceStatus::Active
                ==> after.trusted_controller_devices[id].status == TrustedDeviceStatus::Revoked
            &&& before.trusted_controller_devices.contains_key(id)
                && before.trusted_controller_devices[id].account_id != account
                ==> after.trusted_controller_devices[id] == before.trusted_controller_devices[id]
            &&& after.audit_logs == (before.audit_logs + models(audits@)).push(
                completion.audit_entry@,
            )
        },
{
    let codes = completion.recovery_codes@;
    let kept = codes_kept(old(database)@.recovery_codes, completion.factor@.account_id, true);
    lemma_codes_with(kept, codes, codes.len(), at, id);
    assert(models(codes).take(codes.len() as int) =~= models(codes));
}

/// A finished enrolment is answered again to whoever finished it: with the token still valid, from
/// the session that the enrolment ended, for the same factor and the same request, until the codes
/// are acknowledged or expire.
pub proof fn a_finished_enrolment_is_answered_again(
    lookup: &TotpEnrollmentReplayLookup,
    found: Option<FoundDelivery>,
    result: Result<TotpEnrollmentReplayOutcome, StoreError>,
)
    requires
        call_ensures(replay_totp_enrollment, (lookup, found), result),
        found is Some ==> found->0.delivery is Ok,
    ensures
        result is Ok,
        ({
            let row = found->0;
            let delivery = row.delivery->Ok_0@;
            let now = lookup.now_epoch_millis;
            let valid = now < lookup.access_token_expires_at_epoch_millis;
            let ended = row.revoked_reason is Some && row.revoked_reason->0@ == "mfa_enabled"@
                && row.revoked_at_epoch_millis is Some;
            let same = delivery.account_session_id == lookup.account_session_id@
                && delivery.factor_id == lookup.factor_id@ && (lookup.finish_request_binding_hash
                is None || lookup.finish_request_binding_hash->0
                == delivery.finish_request_binding_hash) && (lookup.client_ephemeral_public_key
                is None || lookup.client_ephemeral_public_key->0
                == delivery.client_ephemeral_public_key);
            let open = delivery.acknowledged_at_epoch_millis is None
                && delivery.expires_at_epoch_millis > now;
            &&& result->Ok_0 is Replayed <==> valid && found is Some && ended && same && open
            &&& result->Ok_0 is Replayed ==> result->Ok_0->Replayed_0@ == delivery
            &&& result->Ok_0 is NotFound <==> valid && found is None
            &&& result->Ok_0 is BindingMismatch <==> valid && found is Some && ended && !same
            &&& result->Ok_0 is NotAuthorized <==> !valid || found is Some && (!ended || same
                && !open)
        }),
{
}

/// The status of an account's factors lists each factor in its place and counts the codes left.
pub proof fn the_status_lists_every_factor(
    rows: Vec<MfaFactorRow>,
    recovery_count: i64,
    result: Result<MfaStatusSnapshot, StoreError>,
    at: int,
)
    requires
        call_ensures(load_mfa_status, (rows, recovery_count), result),
    ensures
        result is Ok ==> result->Ok_0.recovery_codes_remaining == recovery_count,
        result is Ok ==> result->Ok_0.factors@.len() == rows@.len(),
        result is Ok && 0 <= at < rows@.len() ==> result->Ok_0.factors@[at].factor_id@
            == rows@[at].factor_id@ && result->Ok_0.factors@[at].created_at_epoch_millis
            == rows@[at].created_at_epoch_millis,
        recovery_count < 0 ==> result is Err,
        recovery_count >= 0 && (forall|i: int|
            0 <= i < rows@.len() ==> (#[trigger] rows@[i]).created_at_epoch_millis >= 0)
            ==> result is Ok,
{
    if result is Ok && 0 <= at < rows@.len() {
        assert(result->Ok_0.factors@[at].factor_id@ == rows@[at].factor_id@);
    }
}

/// What is sealed for a factor of an account opens again under the same key for the same factor of
/// the same account, whichever nonce was drawn.
pub proof fn a_sealed_secret_opens_again(
    key: &[u8; 32],
    nonce: &[u8; 12],
    factor: &MfaFactor,
    plaintext: &[u8],
    sealed: Result<Vec<u8>, String>,
    encrypted: Result<Vec<u8>, String>,
    account_id: &str,
    factor_id: &str,
    sealed_bytes: &[u8],
    encrypted_bytes: &[u8],
    opened: Result<Vec<u8>, String>,
    decrypted: Result<Vec<u8>, String>,
)
    requires
        call_ensures(seal_mfa, (key, nonce, factor, plaintext), sealed),
        call_ensures(encrypt_mfa, (key, factor, plaintext), encrypted),
        plaintext@.len() <= MAX_PLAINTEXT_BYTES,
        account_id@ == factor@.account_id,
        factor_id@ == factor@.factor_id,
        sealed is Ok ==> sealed_bytes@ == sealed->Ok_0@,
        encrypted is Ok ==> encrypted_bytes@ == encrypted->Ok_0@,
        call_ensures(decrypt_mfa, (key, account_id, factor_id, sealed_bytes), opened),
        call_ensures(decrypt_mfa, (key, account_id, factor_id, encrypted_bytes), decrypted),
    ensures
        sealed is Ok,
        encrypted is Ok,
        opened is Ok && opened->Ok_0@ == plaintext@,
        decrypted is Ok && decrypted->Ok_0@ == plaintext@,
        sealed->Ok_0@[0] == 1,
        sealed->Ok_0@.subrange(1, 13) == nonce@,
        encrypted->Ok_0@[0] == 1,
{
    assert(sealed->Ok_0@.subrange(1, 13) =~= nonce@);
}

/// An envelope that is too short, or of another version, is not opened at all, and one that fails
/// to open is told apart from it.
pub proof fn a_malformed_envelope_is_not_opened(
    key: &[u8; 32],
    account_id: &str,
    factor_id: &str,
    envelope: &[u8],
    result: Result<Vec<u8>, String>,
)
    requires
        call_ensures(decrypt_mfa, (key, account_id, factor_id, envelope), result),
    ensures
        envelope@.len() <= 13 || envelope@[0] != 1 ==> result is Err && result->Err_0@
            == "MFA secret envelope is invalid"@,
        envelope@.len() > 13 && envelope@[0] == 1 && result is Err ==> result->Err_0@
            == "MFA secret authentication failed"@,
{
}

/// Two lists of fields are encoded alike only if they are the same: the encoding of a message tells
/// its domain, its fields, their order and where each of them ends.
pub proof fn an_encoding_tells_its_fields(
    domain: &str,
    fields: &[(&str, &[u8])],
    output: Vec<u8>,
    other_domain: &str,
    other_fields: &[(&str, &[u8])],
    other_output: Vec<u8>,
)
    requires
        call_ensures(canonical_fields, (domain, fields), output),
        call_ensures(canonical_fields, (other_domain, other_fields), other_output),
        output@ == other_output@,
        encode_utf8(domain@).len() <= u64::MAX,
        encode_utf8(other_domain@).len() <= u64::MAX,
        forall|i: int|
            0 <= i < fields@.len() ==> encode_utf8((#[trigger] fields@[i]).0@).len() <= u64::MAX
                && fields@[i].1@.len() <= u64::MAX,
        forall|i: int|
            0 <= i < other_fields@.len() ==> encode_utf8((#[trigger] other_fields@[i]).0@).len()
                <= u64::MAX && other_fields@[i].1@.len() <= u64::MAX,
    ensures
        encode_utf8(domain@) == encode_utf8(other_domain@),
        fields@.len() == other_fields@.len(),
        forall|i: int|
            0 <= i < fields@.len() ==> encode_utf8((#[trigger] fields@[i]).0@) == encode_utf8(
                other_fields@[i].0@,
            ) && fields@[i].1@ == other_fields@[i].1@,
{
    let a = field_bytes(fields@);
    let b = field_bytes(other_fields@);
    assert forall|i: int| 0 <= i < a.len() implies (#[trigger] a[i]).0.len() <= u64::MAX
        && a[i].1.len() <= u64::MAX by {
        assert(a[i] == (encode_utf8(fields@[i].0@), fields@[i].1@));
    }
    assert forall|i: int| 0 <= i < b.len() implies (#[trigger] b[i]).0.len() <= u64::MAX
        && b[i].1.len() <= u64::MAX by {
        assert(b[i] == (encode_utf8(other_fields@[i].0@), other_fields@[i].1@));
    }
    canonical_bytes_are_unique(encode_utf8(domain@), a, encode_utf8(other_domain@), b);
    assert(a == b);
    assert forall|i: int| 0 <= i < fields@.len() implies encode_utf8((#[trigger] fields@[i]).0@)
        == encode_utf8(other_fields@[i].0@) && fields@[i].1@ == other_fields@[i].1@ by {
        assert(a[i] == (encode_utf8(fields@[i].0@), fields@[i].1@));
        assert(b[i] == (encode_utf8(other_fields@[i].0@), other_fields@[i].1@));
    }
}

} // verus!
