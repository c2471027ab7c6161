use crate::account::{MfaFactor, RecoveryCode, RecoveryCodeDelivery, RecoveryCodeDeliveryModel};
use crate::audit::{AuditEntry, AuditEntryModel};
use crate::bytes::{array_eq, constant_time_sha256_eq};
use crate::codec::literals;
use crate::database::{append_log, extend_log, Database, DatabaseModel};
use crate::device::TrustedDeviceStatus;
use crate::revocation::RevokedTrust;
use crate::rules::{
    delivery_problem, validate_recovery_code_delivery, ACCOUNT_SESSION_REVOKED_REASONS,
};
use crate::step_up::{
    accounts_after_change, add_recovery_codes, after_revocation, authority_revocations, codes_kept,
    codes_with, drop_recovery_codes, publish_revocation, revoke_account_sessions_and_trust,
    touch_account,
};
use crate::store::{answer_after, check_written, state_after, PersistenceError, StoreError};
use crate::table::{models, Record};
use crate::text::{opt_text, opt_text_is, text_eq};
use vstd::prelude::*;

verus! {

/// A TOTP enrollment that the client has proved: the factor, its recovery codes, their sealed
/// delivery, and the audit entry.
#[derive(Debug, PartialEq, Eq)]
pub struct TotpEnrollmentCompletion {
    pub factor: MfaFactor,
    pub recovery_codes: Vec<RecoveryCode>,
    pub delivery: RecoveryCodeDelivery,
    pub audit_entry: AuditEntry,
}

/// An account session, as its locked row holds whether it can be used.
#[derive(Debug, PartialEq, Eq)]
pub struct LockedAccountSession {
    pub revoked_at_epoch_millis: Option<i64>,
    pub revoked_reason: Option<String>,
    pub expires_at_epoch_millis: i64,
}

/// Whether a session is there, not revoked, and in time.
pub open spec fn session_usable(session: Option<LockedAccountSession>, now: u64) -> bool {
    &&& session is Some
    &&& session->0.revoked_at_epoch_millis is None
    &&& session->0.revoked_reason is None
    &&& session->0.expires_at_epoch_millis > now
}

/// Whether a session is there, not revoked, and in time.
pub fn session_is_usable(session: &Option<LockedAccountSession>, now: u64) -> (usable: bool)
    ensures
        usable == session_usable(*session, now),
{
    match session {
        Some(session) => session.revoked_at_epoch_millis.is_none()
            && session.revoked_reason.is_none() && session.expires_at_epoch_millis >= 0
            && session.expires_at_epoch_millis as u64 > now,
        None => false,
    }
}

/// What the store says of an enrollment.
#[derive(Debug, PartialEq, Eq)]
pub struct EnrollmentFacts {
    /// Whether the keys and the nonce of the delivery are bound to its request.
    pub delivery_binding_valid: bool,
    pub account_active: bool,
    /// Whether an earlier delivery has the idempotency key of this one.
    pub idempotency_claimed: bool,
    pub session: Option<LockedAccountSession>,
    /// Whether the account has an active TOTP factor.
    pub factor_exists: bool,
    /// The sessions of the account that are not revoked.
    pub sessions: Vec<String>,
    /// The trusted devices of the account that are active.
    pub trusts: Vec<RevokedTrust>,
}

/// Whether the recovery codes of an enrollment are unused codes of the account, each with a name
/// and a hash of its own.
pub open spec fn codes_fit(codes: Seq<RecoveryCode>, account_id: Seq<char>) -> bool {
    &&& forall|i: int|
        0 <= i < codes.len() ==> (#[trigger] codes[i])@.account_id == account_id
            && codes[i]@.used_at_epoch_millis is None
    &&& forall|i: int, j: int|
        0 <= i < j < codes.len() ==> (#[trigger] codes[i])@.recovery_code_id != (
        #[trigger] codes[j])@.recovery_code_id && codes[i]@.code_hash != codes[j]@.code_hash
}

/// Whether the parts of an enrollment fit one another.
pub open spec fn enrollment_fits(completion: TotpEnrollmentCompletion) -> bool {
    let factor = completion.factor@;
    let delivery = completion.delivery@;
    &&& factor.active
    &&& factor.last_used_counter is Some
    &&& completion.recovery_codes@.len() > 0
    &&& completion.audit_entry@.created_at_epoch_millis >= factor.created_at_epoch_millis
    &&& delivery.account_id == factor.account_id
    &&& delivery.factor_id == factor.factor_id
    &&& delivery.recovery_code_count == completion.recovery_codes@.len()
    &&& codes_fit(completion.recovery_codes@, factor.account_id)
}

/// Whether an enrollment is completed.
pub open spec fn enrollment_completes(
    completion: TotpEnrollmentCompletion,
    facts: EnrollmentFacts,
) -> bool {
    let now = completion.audit_entry@.created_at_epoch_millis;
    &&& enrollment_fits(completion)
    &&& delivery_problem(completion.delivery@, facts.delivery_binding_valid) is None
    &&& facts.account_active
    &&& !facts.idempotency_claimed
    &&& session_usable(facts.session, now)
    &&& !facts.factor_exists
    &&& completion.delivery@.recovery_code_count <= i16::MAX
    &&& completion.audit_entry@.actor_account_id == Some(completion.factor@.account_id)
}

fn codes_are_valid(codes: &Vec<RecoveryCode>, account_id: &str) -> (valid: bool)
    ensures
        valid == codes_fit(codes@, account_id@),
{
    let mut i: usize = 0;
    while i < codes.len()
        invariant
            i <= codes.len(),
            forall|k: int|
                0 <= k < i ==> (#[trigger] codes@[k])@.account_id == account_id@
                    && codes@[k]@.used_at_epoch_millis is None,
            forall|j: int, k: int|
                0 <= j < k < i ==> (#[trigger] codes@[j])@.recovery_code_id != (
                #[trigger] codes@[k])@.recovery_code_id && codes@[j]@.code_hash
                    != codes@[k]@.code_hash,
        decreases codes.len() - i,
    {
        if !text_eq(codes[i].account_id.as_str(), account_id)
            || codes[i].used_at_epoch_millis.is_some() {
            assert(codes@[i as int]@.account_id != account_id@
                || codes@[i as int]@.used_at_epoch_millis is Some);
            return false;
        }
        let mut j: usize = 0;
        while j < i
            invariant
                j <= i,
                i < codes.len(),
                forall|k: int|
                    0 <= k < j ==> (#[trigger] codes@[k])@.recovery_code_id
                        != codes@[i as int]@.recovery_code_id && codes@[k]@.code_hash
                        != codes@[i as int]@.code_hash,
            decreases i - j,
        {
            if text_eq(
                codes[j].recovery_code_id.as_str(),
                codes[i].recovery_code_id.as_str(),
            ) || array_eq(&codes[j].code_hash, &codes[i].code_hash) {
                assert(codes@[j as int]@.recovery_code_id == codes@[i as int]@.recovery_code_id
                    || codes@[j as int]@.code_hash == codes@[i as int]@.code_hash);
                return false;
            }
            j = j + 1;
        }
        i = i + 1;
    }
    true
}

/// Decides a TOTP enrollment, and gives the audit entries of what it revokes.
pub fn finish_totp_enrollment(
    completion: &TotpEnrollmentCompletion,
    facts: &EnrollmentFacts,
) -> (result: Result<Vec<AuditEntry>, StoreError>)
    ensures
        result is Ok <==> enrollment_completes(*completion, *facts),
        result is Ok ==> models(result->Ok_0@) == authority_revocations(
            completion.audit_entry@,
            facts.sessions@,
            facts.trusts@,
            "mfa_enabled"@,
        ),
        result is Err ==> result->Err_0 == StoreError::Conflict,
{
    let factor = &completion.factor;
    let delivery = &completion.delivery;
    let now: u64 = completion.audit_entry.created_at_epoch_millis;
    if !factor.active || factor.last_used_counter.is_none() || completion.recovery_codes.is_empty()
        || now < factor.created_at_epoch_millis || !text_eq(
        delivery.account_id.as_str(),
        factor.account_id.as_str(),
    ) || !text_eq(delivery.factor_id.as_str(), factor.factor_id.as_str())
        || delivery.recovery_code_count as usize != completion.recovery_codes.len() {
        return Err(StoreError::Conflict);
    }
    if validate_recovery_code_delivery(delivery, facts.delivery_binding_valid).is_err() {
        return Err(StoreError::Conflict);
    }
    if !codes_are_valid(&completion.recovery_codes, factor.account_id.as_str()) {
        return Err(StoreError::Conflict);
    }
    if !facts.account_active || facts.idempotency_claimed || !session_is_usable(
        &facts.session,
        now,
    ) || facts.factor_exists || delivery.recovery_code_count > i16::MAX as u16 {
        return Err(StoreError::Conflict);
    }
    proof {
        assert(literals(ACCOUNT_SESSION_REVOKED_REASONS@)[2] == "mfa_enabled"@);
    }
    revoke_account_sessions_and_trust(
        factor.account_id.as_str(),
        "mfa_enabled",
        &completion.audit_entry,
        &facts.sessions,
        &facts.trusts,
    )
}

/// The database after a TOTP enrollment.
pub open spec fn after_enrollment(
    database: DatabaseModel,
    completion: TotpEnrollmentCompletion,
    audits: Seq<AuditEntryModel>,
) -> DatabaseModel {
    let factor = completion.factor@;
    let delivery = completion.delivery@;
    let now = completion.audit_entry@.created_at_epoch_millis;
    let enrolled = DatabaseModel {
        mfa_factors: database.mfa_factors.insert(factor.factor_id, factor),
        recovery_codes: codes_with(
            codes_kept(database.recovery_codes, factor.account_id, true),
            models(completion.recovery_codes@),
        ),
        recovery_code_deliveries: database.recovery_code_deliveries.insert(
            delivery.delivery_id,
            delivery,
        ),
        accounts: accounts_after_change(database.accounts, factor.account_id, None, now),
        ..database
    };
    DatabaseModel {
        audit_logs: (database.audit_logs + audits).push(completion.audit_entry@),
        ..after_revocation(enrolled, factor.account_id, "mfa_enabled"@, now)
    }
}

/// Publishes a TOTP enrollment.
pub fn publish_enrollment(
    database: &mut Database,
    completion: &TotpEnrollmentCompletion,
    audits: &Vec<AuditEntry>,
    written: &Result<(), PersistenceError>,
) -> (result: Result<(), StoreError>)
    ensures
        result == answer_after(*written, Ok(())),
        final(database)@ == state_after(
            *written,
            old(database)@,
            after_enrollment(old(database)@, *completion, models(audits@)),
        ),
{
    check_written(written)?;
    let factor = &completion.factor;
    let delivery = &completion.delivery;
    let now: u64 = completion.audit_entry.created_at_epoch_millis;
    database.mfa_factors.insert(factor.factor_id.clone(), factor.duplicate());
    drop_recovery_codes(&mut database.recovery_codes, factor.account_id.as_str(), true);
    add_recovery_codes(&mut database.recovery_codes, &completion.recovery_codes);
    database.recovery_code_deliveries.insert(delivery.delivery_id.clone(), delivery.duplicate());
    touch_account(&mut database.accounts, factor.account_id.as_str(), None, now);
    publish_revocation(database, factor.account_id.as_str(), "mfa_enabled", now);
    extend_log(&mut database.audit_logs, audits);
    append_log(&mut database.audit_logs, completion.audit_entry.duplicate());
    Ok(())
}

/// A second request for the recovery codes of an enrollment.
#[derive(Debug, PartialEq, Eq)]
pub struct TotpEnrollmentReplayLookup {
    pub account_id: String,
    pub account_session_id: String,
    pub factor_id: String,
    pub idempotency_key_hash: [u8; 32],
    pub finish_request_binding_hash: Option<[u8; 32]>,
    pub client_ephemeral_public_key: Option<[u8; 32]>,
    pub access_token_expires_at_epoch_millis: u64,
    pub now_epoch_millis: u64,
}

/// A delivery that was found under an idempotency key, with the revocation of its session.
#[derive(Debug, PartialEq, Eq)]
pub struct FoundDelivery {
    pub revoked_reason: Option<String>,
    pub revoked_at_epoch_millis: Option<i64>,
    pub delivery: Result<RecoveryCodeDelivery, String>,
}

/// How a second request for recovery codes is answered.
#[derive(Debug, PartialEq, Eq)]
pub enum TotpEnrollmentReplayOutcome {
    NotFound,
    NotAuthorized,
    BindingMismatch,
    Replayed(RecoveryCodeDelivery),
}

/// Whether a delivery is the one of the session, the factor and the request that ask for it.
pub open spec fn replay_bound(
    lookup: TotpEnrollmentReplayLookup,
    delivery: RecoveryCodeDeliveryModel,
) -> bool {
    &&& delivery.account_session_id == lookup.account_session_id@
    &&& delivery.factor_id == lookup.factor_id@
    &&& lookup.finish_request_binding_hash is Some ==> lookup.finish_request_binding_hash->0
        == delivery.finish_request_binding_hash
    &&& lookup.client_ephemeral_public_key is Some ==> lookup.client_ephemeral_public_key->0
        == delivery.client_ephemeral_public_key
}

/// Decides a second request for the recovery codes of an enrollment. They are handed out again
/// only to the session that the enrollment itself revoked, until they are acknowledged or too old.
pub fn replay_totp_enrollment(
    lookup: &TotpEnrollmentReplayLookup,
    found: Option<FoundDelivery>,
) -> (result: Result<TotpEnrollmentReplayOutcome, StoreError>)
    ensures
        ({
            let row = found->0;
            let delivery = row.delivery->Ok_0@;
            if lookup.now_epoch_millis >= lookup.access_token_expires_at_epoch_millis {
                result == Ok::<_, StoreError>(TotpEnrollmentReplayOutcome::NotAuthorized)
            } else if found is None {
                result == Ok::<_, StoreError>(TotpEnrollmentReplayOutcome::NotFound)
            } else if opt_text(row.revoked_reason) != Some("mfa_enabled"@)
                || row.revoked_at_epoch_millis is None {
                result == Ok::<_, StoreError>(TotpEnrollmentReplayOutcome::NotAuthorized)
            } else if row.delivery is Err {
                result == Err::<TotpEnrollmentReplayOutcome, _>(StoreError::Unavailable)
            } else if !replay_bound(*lookup, delivery) {
                result == Ok::<_, StoreError>(TotpEnrollmentReplayOutcome::BindingMismatch)
            } else if delivery.acknowledged_at_epoch_millis is Some
                || delivery.expires_at_epoch_millis <= lookup.now_epoch_millis {
                result == Ok::<_, StoreError>(TotpEnrollmentReplayOutcome::NotAuthorized)
            } else {
                result is Ok && result->Ok_0 is Replayed && result->Ok_0->Replayed_0@ == delivery
            }
        }),
{
    if lookup.now_epoch_millis >= lookup.access_token_expires_at_epoch_millis {
        return Ok(TotpEnrollmentReplayOutcome::NotAuthorized);
    }
    let row = match found {
        Some(row) => row,
        None => {
            return Ok(TotpEnrollmentReplayOutcome::NotFound);
        },
    };
    if !opt_text_is(&row.revoked_reason, "mfa_enabled") || row.revoked_at_epoch_millis.is_none() {
        return Ok(TotpEnrollmentReplayOutcome::NotAuthorized);
    }
    let delivery = match row.delivery {
        Ok(delivery) => delivery,
        Err(_) => {
            return Err(StoreError::Unavailable);
        },
    };
    let binding_fits = match &lookup.finish_request_binding_hash {
        Some(binding) => constant_time_sha256_eq(&delivery.finish_request_binding_hash, binding),
        None => true,
    };
    let key_fits = match &lookup.client_ephemeral_public_key {
        Some(key) => constant_time_sha256_eq(&delivery.client_ephemeral_public_key, key),
        None => true,
    };
    if !text_eq(delivery.account_session_id.as_str(), lookup.account_session_id.as_str())
        || !text_eq(delivery.factor_id.as_str(), lookup.factor_id.as_str()) || !binding_fits
        || !key_fits {
        return Ok(TotpEnrollmentReplayOutcome::BindingMismatch);
    }
    if delivery.acknowledged_at_epoch_millis.is_some() || delivery.expires_at_epoch_millis
        <= lookup.now_epoch_millis {
        return Ok(TotpEnrollmentReplayOutcome::NotAuthorized);
    }
    Ok(TotpEnrollmentReplayOutcome::Replayed(delivery))
}

/// An enrollment revokes every session and every trusted device of its account, also the session
/// that it was made in, and leaves the new factor active and its codes stored.
pub proof fn an_enrollment_revokes_everything(
    database: DatabaseModel,
    completion: TotpEnrollmentCompletion,
    audits: Seq<AuditEntryModel>,
    session: Seq<char>,
    trust: Seq<char>,
)
    ensures
        ({
            let after = after_enrollment(database, completion, audits);
            let account = completion.factor@.account_id;
            &&& after.mfa_factors.contains_key(completion.factor@.factor_id)
            &&& after.mfa_factors[completion.factor@.factor_id] == completion.factor@
            &&& after.account_sessions.contains_key(session)
                && after.account_sessions[session].account_id == account
                ==> after.account_sessions[session].revoked_at_epoch_millis is Some
            &&& after.trusted_controller_devices.contains_key(trust)
                && after.trusted_controller_devices[trust].account_id == account
                ==> after.trusted_controller_devices[trust].status != TrustedDeviceStatus::Active
        }),
{
}

/// An active factor of an account, as its row names it.
#[derive(Debug, PartialEq, Eq)]
pub struct MfaFactorRow {
    pub factor_id: String,
    pub created_at_epoch_millis: i64,
}

/// An active factor of an account, without its secret.
#[derive(Debug, PartialEq, Eq)]
pub struct MfaFactorSummary {
    pub factor_id: String,
    pub created_at_epoch_millis: u64,
}

/// The second factors of an account: the active ones, and how many recovery codes can be used.
#[derive(Debug, PartialEq, Eq)]
pub struct MfaStatusSnapshot {
    pub factors: Vec<MfaFactorSummary>,
    pub recovery_codes_remaining: u64,
}

/// Whether the rows of factors and the count of recovery codes can be read.
pub open spec fn mfa_status_readable(rows: Seq<MfaFactorRow>, recovery_count: i64) -> bool {
    recovery_count >= 0 && forall|i: int|
        0 <= i < rows.len() ==> (#[trigger] rows[i]).created_at_epoch_millis >= 0
}

/// Reads the second factors of an account from the rows of its active factors, in order, and the
/// number of its recovery codes that can be used.
pub fn load_mfa_status(rows: Vec<MfaFactorRow>, recovery_count: i64) -> (result: Result<
    MfaStatusSnapshot,
    StoreError,
>)
    ensures
        result is Ok <==> mfa_status_readable(rows@, recovery_count),
        result is Ok ==> result->Ok_0.recovery_codes_remaining == recovery_count,
        result is Ok ==> result->Ok_0.factors@.len() == rows@.len() && forall|i: int|
            0 <= i < rows@.len() ==> (#[trigger] result->Ok_0.factors@[i]).factor_id@
                == rows@[i].factor_id@ && result->Ok_0.factors@[i].created_at_epoch_millis
                == rows@[i].created_at_epoch_millis,
        result is Err ==> result->Err_0 == StoreError::Unavailable,
{
    let ghost all = rows@;
    let mut factors: Vec<MfaFactorSummary> = Vec::new();
    for row in it: rows
        invariant
            it.seq() == all,
            all == rows@,
            factors@.len() == it.index(),
            forall|i: int|
                0 <= i < it.index() ==> (#[trigger] all[i]).created_at_epoch_millis >= 0,
            forall|i: int|
                0 <= i < it.index() ==> (#[trigger] factors@[i]).factor_id@ == all[i].factor_id@
                    && factors@[i].created_at_epoch_millis == all[i].created_at_epoch_millis,
    {
        let ghost at = it.index() as int;
        assert(row == all[at]);
        if row.created_at_epoch_millis < 0 {
            assert(all[at].created_at_epoch_millis < 0);
            return Err(StoreError::Unavailable);
        }
        factors.push(
            MfaFactorSummary {
                factor_id: row.factor_id,
                created_at_epoch_millis: row.created_at_epoch_millis as u64,
            },
        );
    }
    if recovery_count < 0 {
        return Err(StoreError::Unavailable);
    }
    Ok(MfaStatusSnapshot { factors, recovery_codes_remaining: recovery_count as u64 })
}

} // verus!
