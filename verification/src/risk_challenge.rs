use crate::account::MfaFactor;
use crate::audit::{AuditEntry, AuditEntryModel};
use crate::bytes::bytes_eq;
use crate::challenge::{
    LoginChallengeAuthority, LoginChallengeAuthorityModel, RiskChallenge, RiskChallengeModel,
    RiskChallengeStatus,
};
use crate::database::{append_log, extend_log, Database, DatabaseModel};
use crate::factor::{
    check_totp, codes_after_proof, factors_after_proof, publish_proof, used_factor, AcceptedProof,
    AcceptedProofModel,
};
use crate::login_finish::{
    authorizable_name, expired_challenge, is_authorizable_name, reject_locked_login_challenge,
    rejected_challenge, with_reason,
};
use crate::rows::{
    challenge_row_model, challenge_row_problem, risk_challenge_from_row, RiskChallengeRow,
};
use crate::rules::{
    cancel_audit_fits, new_challenge_problem, risk_challenge_cancel_audit_is_valid, second_factors,
    validate_new_risk_challenge,
};
use crate::store::{
    answer_after, check_written, state_after, write_failure, PersistenceError, StoreError,
};
use crate::table::{models, opt_model, Record};
use crate::text::{opt_text, opt_text_is, text_eq, texts, texts_contain};
use vstd::prelude::*;

verus! {

/// The owner and the status of a device, as its locked row holds them.
#[derive(Debug, PartialEq, Eq)]
pub struct LockedDevice {
    pub account_id: String,
    pub status: String,
}

/// Whether a device belongs to an account and is in a status in which it may act.
pub open spec fn device_may_act(device: Option<LockedDevice>, account_id: Seq<char>) -> bool {
    device is Some && device->0.account_id@ == account_id && authorizable_name(device->0.status@)
}

/// Whether a device belongs to an account and is in a status in which it may act.
pub fn device_is_authorized(device: &Option<LockedDevice>, account_id: &str) -> (authorized: bool)
    ensures
        authorized == device_may_act(*device, account_id@),
{
    match device {
        Some(device) => text_eq(device.account_id.as_str(), account_id) && is_authorizable_name(
            device.status.as_str(),
        ),
        None => false,
    }
}

/// What comes of a request for a risk challenge.
#[derive(Debug, PartialEq, Eq)]
pub enum RiskChallengeCreationOutcome {
    NotAuthorized,
    MfaEnrollmentRequired,
    Created(RiskChallenge),
}

/// The methods that a new challenge requires: the two second factors where the account has one,
/// else the password where the password is to be changed, else there are none to require.
pub open spec fn methods_to_require(purpose: Seq<char>, mfa_enabled: bool) -> Option<
    Seq<Seq<char>>,
> {
    if mfa_enabled {
        Some(second_factors())
    } else if purpose == "password_change"@ {
        Some(seq!["password"@])
    } else {
        None
    }
}

/// The methods that a new challenge requires.
pub fn required_methods_for(purpose: &str, mfa_enabled: bool) -> (methods: Option<Vec<String>>)
    ensures
        methods is Some <==> methods_to_require(purpose@, mfa_enabled) is Some,
        methods is Some ==> Some(texts(methods->0@)) == methods_to_require(purpose@, mfa_enabled),
{
    let mut methods: Vec<String> = Vec::new();
    if mfa_enabled {
        methods.push("totp".to_owned());
        methods.push("recovery_code".to_owned());
        assert(texts(methods@) =~= second_factors());
        Some(methods)
    } else if text_eq(purpose, "password_change") {
        methods.push("password".to_owned());
        assert(texts(methods@) =~= seq!["password"@]);
        Some(methods)
    } else {
        None
    }
}

/// Whether a challenge can be asked for directly: logins and new devices have requests of their
/// own, and the required methods are not the client's to choose.
pub open spec fn challenge_requestable(challenge: RiskChallengeModel) -> bool {
    challenge.purpose != "login_mfa"@ && challenge.purpose != "new_controller_device"@
        && challenge.required_methods.len() == 0
}

/// How a request for a risk challenge is answered without one being created: by what is asked for,
/// by the account and the device, by what the account can be asked for, by the rules for new
/// challenges, or because the name of the challenge or of its audit entry is taken, in this order.
pub open spec fn creation_end(
    challenge: RiskChallengeModel,
    account_active: bool,
    device: Option<LockedDevice>,
    mfa_enabled: bool,
    id_taken: bool,
) -> Option<Result<RiskChallengeCreationOutcome, StoreError>> {
    let authorized = account_active && challenge.device_id is Some && device_may_act(
        device,
        challenge.account_id,
    );
    if !challenge_requestable(challenge) {
        Some(Err(StoreError::Conflict))
    } else if !authorized {
        Some(Ok(RiskChallengeCreationOutcome::NotAuthorized))
    } else if methods_to_require(challenge.purpose, mfa_enabled) is None {
        Some(Ok(RiskChallengeCreationOutcome::MfaEnrollmentRequired))
    } else if new_challenge_problem(issued_challenge(challenge, mfa_enabled)) is Some {
        Some(Err(StoreError::Unavailable))
    } else if id_taken {
        Some(Err(StoreError::Conflict))
    } else {
        None
    }
}

/// The challenge that is issued on a request: the one asked for, with what it requires.
pub open spec fn issued_challenge(
    challenge: RiskChallengeModel,
    mfa_enabled: bool,
) -> RiskChallengeModel {
    RiskChallengeModel {
        required_methods: methods_to_require(challenge.purpose, mfa_enabled)->0,
        ..challenge
    }
}

/// Decides a request for a risk challenge, given the account and the device of it, whether the
/// account has a second factor, and whether the name of the challenge or of its audit entry is
/// taken.
pub fn create_risk_challenge(
    challenge: &RiskChallenge,
    account_active: bool,
    device: &Option<LockedDevice>,
    mfa_enabled: bool,
    id_taken: bool,
) -> (result: Result<RiskChallengeCreationOutcome, StoreError>)
    ensures
        match creation_end(challenge@, account_active, *device, mfa_enabled, id_taken) {
            Some(end) => result == end,
            None => result is Ok && result->Ok_0 is Created && result->Ok_0->Created_0@
                == issued_challenge(challenge@, mfa_enabled),
        },
{
    if text_eq(challenge.purpose.as_str(), "login_mfa") || text_eq(
        challenge.purpose.as_str(),
        "new_controller_device",
    ) || !challenge.required_methods.is_empty() {
        return Err(StoreError::Conflict);
    }
    if !account_active || challenge.device_id.is_none() || !device_is_authorized(
        device,
        challenge.account_id.as_str(),
    ) {
        return Ok(RiskChallengeCreationOutcome::NotAuthorized);
    }
    match required_methods_for(challenge.purpose.as_str(), mfa_enabled) {
        None => Ok(RiskChallengeCreationOutcome::MfaEnrollmentRequired),
        Some(methods) => {
            let mut issued = challenge.duplicate();
            issued.required_methods = methods;
            if validate_new_risk_challenge(&issued).is_err() {
                return Err(StoreError::Unavailable);
            }
            if id_taken {
                return Err(StoreError::Conflict);
            }
            Ok(RiskChallengeCreationOutcome::Created(issued))
        },
    }
}

/// The database after a challenge was published in its new state, with the audit entry of the
/// change.
pub open spec fn with_challenge(
    database: DatabaseModel,
    challenge: RiskChallengeModel,
    audit_entry: AuditEntryModel,
) -> DatabaseModel {
    DatabaseModel {
        risk_challenges: database.risk_challenges.insert(challenge.risk_challenge_id, challenge),
        audit_logs: database.audit_logs.push(audit_entry),
        ..database
    }
}

/// A challenge is created once: whatever the state of the database, once the challenge is there its
/// name is taken, and a second request for it conflicts and is not answered with a challenge.
pub proof fn a_challenge_is_created_once(
    database: DatabaseModel,
    challenge: RiskChallengeModel,
    audit_entry: AuditEntryModel,
    account_active: bool,
    device: Option<LockedDevice>,
    mfa_enabled: bool,
    id_taken: bool,
)
    requires
        creation_end(challenge, account_active, device, mfa_enabled, false) is None,
        ({
            let after = with_challenge(
                database,
                issued_challenge(challenge, mfa_enabled),
                audit_entry,
            );
            after.risk_challenges.contains_key(challenge.risk_challenge_id) ==> id_taken
        }),
    ensures
        creation_end(challenge, account_active, device, mfa_enabled, id_taken) == Some(
            Err::<RiskChallengeCreationOutcome, _>(StoreError::Conflict),
        ),
{
}

fn put_challenge(database: &mut Database, challenge: &RiskChallenge, audit_entry: &AuditEntry)
    ensures
        final(database)@ == with_challenge(old(database)@, challenge@, audit_entry@),
{
    database.risk_challenges.insert(challenge.risk_challenge_id.clone(), challenge.duplicate());
    append_log(&mut database.audit_logs, audit_entry.duplicate());
}

/// Publishes a challenge in its new state, with the audit entry of the change.
pub fn publish_risk_challenge(
    database: &mut Database,
    challenge: &RiskChallenge,
    audit_entry: &AuditEntry,
    written: &Result<(), PersistenceError>,
) -> (result: Result<(), StoreError>)
    ensures
        result == answer_after(*written, Ok(())),
        final(database)@ == state_after(
            *written,
            old(database)@,
            with_challenge(old(database)@, challenge@, audit_entry@),
        ),
{
    check_written(written)?;
    put_challenge(database, challenge, audit_entry);
    Ok(())
}

/// Decides whether a login challenge is issued, given whether its context fits it and whether the
/// account is still active and unchanged.
pub fn create_login_challenge(
    authority: &LoginChallengeAuthority,
    authority_valid: Result<(), StoreError>,
    account_unchanged: bool,
) -> (result: Result<(), StoreError>)
    ensures
        result == if authority_valid is Err {
            authority_valid
        } else if new_challenge_problem(authority@.challenge) is Some {
            Err(StoreError::Unavailable)
        } else if authority@.context.public_key_version > i32::MAX {
            Err(StoreError::Conflict)
        } else if !account_unchanged {
            Err(StoreError::Conflict)
        } else {
            Ok(())
        },
{
    authority_valid?;
    if validate_new_risk_challenge(&authority.challenge).is_err() {
        return Err(StoreError::Unavailable);
    }
    if authority.context.public_key_version > i32::MAX as u32 {
        return Err(StoreError::Conflict);
    }
    if !account_unchanged {
        return Err(StoreError::Conflict);
    }
    Ok(())
}

/// The database after a login challenge was issued.
pub open spec fn with_login_challenge(
    database: DatabaseModel,
    authority: LoginChallengeAuthorityModel,
    audit_entry: AuditEntryModel,
) -> DatabaseModel {
    DatabaseModel {
        login_challenge_contexts: database.login_challenge_contexts.insert(
            authority.challenge.risk_challenge_id,
            authority.context,
        ),
        ..with_challenge(database, authority.challenge, audit_entry)
    }
}

/// Publishes a new login challenge with its context.
pub fn publish_login_challenge(
    database: &mut Database,
    authority: &LoginChallengeAuthority,
    audit_entry: &AuditEntry,
    written: &Result<(), PersistenceError>,
) -> (result: Result<(), StoreError>)
    ensures
        result == answer_after(*written, Ok(())),
        final(database)@ == state_after(
            *written,
            old(database)@,
            with_login_challenge(old(database)@, authority@, audit_entry@),
        ),
{
    check_written(written)?;
    put_challenge(database, &authority.challenge, audit_entry);
    database.login_challenge_contexts.insert(
        authority.challenge.risk_challenge_id.clone(),
        authority.context.duplicate(),
    );
    Ok(())
}

/// The row of a login challenge that a refused request still costs an attempt: it is open, in
/// time, and the one that the request names.
pub open spec fn attempt_counts(
    row: RiskChallengeRow,
    challenge_binding_hash: [u8; 32],
    now: u64,
) -> bool {
    &&& row.purpose@ == "login_mfa"@
    &&& row.status@ == "issued"@
    &&& row.attempts_remaining > 0
    &&& row.expires_at_epoch_millis > now
    &&& row.operation_binding_hash@ == challenge_binding_hash@
}

/// The row of a challenge with one attempt less.
pub open spec fn counted_row(row: RiskChallengeRow) -> RiskChallengeRow {
    RiskChallengeRow { attempts_remaining: (row.attempts_remaining - 1) as i16, ..row }
}

/// An open challenge after a refused attempt: one attempt less, and failed with the last one.
pub open spec fn counted_challenge(row: RiskChallengeRow) -> RiskChallengeModel {
    RiskChallengeModel {
        status: if row.attempts_remaining == 1 {
            RiskChallengeStatus::Failed
        } else {
            RiskChallengeStatus::Issued
        },
        ..challenge_row_model(counted_row(row))
    }
}

/// Counts a refused login against the locked row of its challenge: the challenge after it, or
/// nothing where the request costs none. The challenge has to be readable with the attempt taken
/// off.
pub fn reject_login_challenge(
    found: Option<RiskChallengeRow>,
    challenge_binding_hash: &[u8; 32],
    now_epoch_millis: u64,
) -> (result: Result<Option<RiskChallenge>, StoreError>)
    ensures
        ({
            let row = found->0;
            if found is None || !attempt_counts(row, *challenge_binding_hash, now_epoch_millis) {
                result == Ok::<Option<RiskChallenge>, StoreError>(None)
            } else if challenge_row_problem(counted_row(row)) is Some {
                result == Err::<Option<RiskChallenge>, _>(StoreError::Unavailable)
            } else {
                result is Ok && opt_model(result->Ok_0) == Some(counted_challenge(row))
            }
        }),
{
    let row = match found {
        Some(row) => row,
        None => {
            return Ok(None);
        },
    };
    if !text_eq(row.purpose.as_str(), "login_mfa") || !text_eq(row.status.as_str(), "issued")
        || row.attempts_remaining <= 0 || row.expires_at_epoch_millis < 0
        || row.expires_at_epoch_millis as u64 <= now_epoch_millis || !bytes_eq(
        row.operation_binding_hash.as_slice(),
        challenge_binding_hash.as_slice(),
    ) {
        return Ok(None);
    }
    let last = row.attempts_remaining == 1;
    let mut counted = row;
    counted.attempts_remaining = counted.attempts_remaining - 1;
    assert(counted == counted_row(found->0));
    match risk_challenge_from_row(counted) {
        Err(_) => Err(StoreError::Unavailable),
        Ok(challenge) => {
            let mut rejected = challenge;
            rejected.status = if last {
                RiskChallengeStatus::Failed
            } else {
                RiskChallengeStatus::Issued
            };
            Ok(Some(rejected))
        },
    }
}

/// What a cancellation does to the challenge that was found.
#[derive(Debug, PartialEq, Eq)]
pub enum Cancellation {
    /// The challenge was open and is now cancelled.
    Cancelled(RiskChallenge),
    /// The challenge was not open and stays as it is.
    Unchanged(RiskChallenge),
    /// There is no such challenge.
    Missing,
}

/// Cancels an open challenge. Only an open challenge changes, and only under an audit entry that
/// says so.
pub fn cancel_risk_challenge(
    challenge: Option<Result<RiskChallenge, String>>,
    audit_entry: &AuditEntry,
) -> (result: Result<Cancellation, StoreError>)
    ensures
        match challenge {
            None => result == Ok::<_, StoreError>(Cancellation::Missing),
            Some(Err(_)) => result == Err::<Cancellation, _>(StoreError::Unavailable),
            Some(Ok(found)) => {
                if found@.status != RiskChallengeStatus::Issued {
                    result is Ok && result->Ok_0 is Unchanged && result->Ok_0->Unchanged_0@
                        == found@
                } else if !cancel_audit_fits(found@, audit_entry@) {
                    result == Err::<Cancellation, _>(StoreError::Conflict)
                } else {
                    result is Ok && result->Ok_0 is Cancelled && result->Ok_0->Cancelled_0@ == (
                    RiskChallengeModel { status: RiskChallengeStatus::Cancelled, ..found@ })
                }
            },
        },
{
    match challenge {
        None => Ok(Cancellation::Missing),
        Some(Err(_)) => Err(StoreError::Unavailable),
        Some(Ok(found)) => {
            if found.status != RiskChallengeStatus::Issued {
                return Ok(Cancellation::Unchanged(found));
            }
            if !risk_challenge_cancel_audit_is_valid(&found, audit_entry) {
                return Err(StoreError::Conflict);
            }
            let mut cancelled = found;
            cancelled.status = RiskChallengeStatus::Cancelled;
            Ok(Cancellation::Cancelled(cancelled))
        },
    }
}

/// The database after a cancellation.
pub open spec fn after_cancellation(
    database: DatabaseModel,
    challenge_id: Seq<char>,
    cancellation: Cancellation,
    audit_entry: AuditEntryModel,
) -> DatabaseModel {
    match cancellation {
        Cancellation::Cancelled(challenge) => DatabaseModel {
            risk_challenges: database.risk_challenges.insert(
                challenge@.risk_challenge_id,
                challenge@,
            ),
            audit_logs: database.audit_logs.push(audit_entry),
            ..database
        },
        Cancellation::Unchanged(challenge) => DatabaseModel {
            risk_challenges: database.risk_challenges.insert(
                challenge@.risk_challenge_id,
                challenge@,
            ),
            ..database
        },
        Cancellation::Missing => DatabaseModel {
            risk_challenges: database.risk_challenges.remove(challenge_id),
            ..database
        },
    }
}

/// Publishes a cancellation, and says whether the challenge was open.
pub fn publish_cancellation(
    database: &mut Database,
    challenge_id: &str,
    cancellation: &Cancellation,
    audit_entry: &AuditEntry,
    written: &Result<(), PersistenceError>,
) -> (result: Result<bool, StoreError>)
    ensures
        result == answer_after(*written, Ok(cancellation is Cancelled)),
        final(database)@ == state_after(
            *written,
            old(database)@,
            after_cancellation(old(database)@, challenge_id@, *cancellation, audit_entry@),
        ),
{
    check_written(written)?;
    let transitioned = match cancellation {
        Cancellation::Cancelled(challenge) => {
            put_challenge(database, challenge, audit_entry);
            true
        },
        Cancellation::Unchanged(challenge) => {
            database.risk_challenges.insert(
                challenge.risk_challenge_id.clone(),
                challenge.duplicate(),
            );
            false
        },
        Cancellation::Missing => {
            database.risk_challenges.remove(challenge_id);
            false
        },
    };
    Ok(transitioned)
}

/// The factor of a challenge attempt, as the verifiers judge it: the account's active TOTP factor,
/// the time step at which the code was accepted, and the recovery code that it stands for, where
/// there is one.
#[derive(Debug, PartialEq, Eq)]
pub struct FactorFacts {
    pub totp_factor: Option<Result<MfaFactor, String>>,
    pub totp_counter: Option<u64>,
    pub recovery_code_id: Result<Option<String>, String>,
}

/// Whether a code of a second factor is accepted, and what it uses up.
pub open spec fn accepted_factor(factor_kind: Seq<char>, facts: FactorFacts) -> Option<
    AcceptedProofModel,
> {
    if factor_kind == "totp"@ {
        if facts.totp_factor is Some && facts.totp_factor->0 is Ok && facts.totp_counter is Some {
            Some(
                AcceptedProofModel::Totp(
                    used_factor(facts.totp_factor->0->Ok_0@, facts.totp_counter->0),
                ),
            )
        } else {
            None
        }
    } else if factor_kind == "recovery_code"@ && facts.recovery_code_id is Ok
        && facts.recovery_code_id->Ok_0 is Some {
        Some(AcceptedProofModel::RecoveryCode(facts.recovery_code_id->Ok_0->0@))
    } else {
        None
    }
}

/// Whether the check of a code finds a factor that cannot be read, or recovery codes that cannot
/// be told apart.
pub open spec fn factor_unreadable(factor_kind: Seq<char>, facts: FactorFacts) -> bool {
    ||| factor_kind == "totp"@ && facts.totp_factor is Some && facts.totp_factor->0 is Err
    ||| factor_kind != "totp"@ && factor_kind == "recovery_code"@ && facts.recovery_code_id is Err
}

/// Checks a code of a second factor.
pub fn check_factor(factor_kind: &str, facts: FactorFacts) -> (result: Result<
    Option<AcceptedProof>,
    StoreError,
>)
    ensures
        result is Err <==> factor_unreadable(factor_kind@, facts),
        result is Err ==> result->Err_0 == StoreError::Unavailable,
        result is Ok ==> opt_model(result->Ok_0) == accepted_factor(factor_kind@, facts),
{
    if text_eq(factor_kind, "totp") {
        match check_totp(facts.totp_factor, facts.totp_counter) {
            Ok(Some(used)) => Ok(Some(AcceptedProof::Totp(used))),
            Ok(None) => Ok(None),
            Err(error) => Err(error),
        }
    } else if text_eq(factor_kind, "recovery_code") {
        match facts.recovery_code_id {
            Ok(Some(id)) => Ok(Some(AcceptedProof::RecoveryCode(id))),
            Ok(None) => Ok(None),
            Err(_) => Err(StoreError::Unavailable),
        }
    } else {
        Ok(None)
    }
}

/// The attempts of a challenge, as its locked row holds them.
#[derive(Debug, PartialEq, Eq)]
pub struct LockedAttempts {
    pub account_id: String,
    pub status: String,
    pub attempts_remaining: i16,
    pub expires_at_epoch_millis: i64,
}

/// Whether attempts can be made on a challenge.
pub open spec fn attempts_open(row: LockedAttempts, account_id: Seq<char>, now: u64) -> bool {
    &&& row.account_id@ == account_id
    &&& row.status@ == "issued"@
    &&& row.attempts_remaining > 0
    &&& row.expires_at_epoch_millis > now
}

/// What an attempt does to its challenge: it is verified, or has an attempt less and has failed
/// with the last one.
#[derive(Debug, Clone, Copy, PartialEq, Eq, Structural)]
pub struct AttemptResult {
    pub attempts_remaining: u8,
    pub status: RiskChallengeStatus,
    pub verified_at_epoch_millis: Option<u64>,
}

/// What an attempt does to a challenge with a number of attempts.
pub open spec fn attempt_result(attempts: int, accepted: bool, now: u64) -> AttemptResult {
    let remaining = if accepted {
        attempts
    } else {
        attempts - 1
    };
    AttemptResult {
        attempts_remaining: remaining as u8,
        status: if accepted {
            RiskChallengeStatus::Verified
        } else if remaining == 0 {
            RiskChallengeStatus::Failed
        } else {
            RiskChallengeStatus::Issued
        },
        verified_at_epoch_millis: if accepted {
            Some(now)
        } else {
            None
        },
    }
}

/// What comes of the check of a factor: the proof that was accepted, and what the attempt does to
/// the challenge that it was made on.
#[derive(Debug, PartialEq, Eq)]
pub struct FactorDecision {
    pub accepted: Option<AcceptedProof>,
    pub attempt: Option<AttemptResult>,
}

/// Checks a factor of an account, on a challenge or on its own. `challenge` is the locked row of
/// the named challenge, where one is named.
pub fn verify_factor(
    challenge: Option<Option<LockedAttempts>>,
    account_id: &str,
    factor_kind: &str,
    now_epoch_millis: u64,
    facts: FactorFacts,
) -> (result: Result<FactorDecision, StoreError>)
    ensures
        ({
            let named = challenge is Some;
            let row = challenge->0->0;
            let open = challenge->0 is Some && attempts_open(row, account_id@, now_epoch_millis);
            let accepted = accepted_factor(factor_kind@, facts);
            let remaining = if accepted is Some {
                row.attempts_remaining as int
            } else {
                row.attempts_remaining - 1
            };
            if named && !open {
                result == Err::<FactorDecision, _>(StoreError::Conflict)
            } else if factor_unreadable(factor_kind@, facts) {
                result == Err::<FactorDecision, _>(StoreError::Unavailable)
            } else if named && remaining > u8::MAX {
                result == Err::<FactorDecision, _>(StoreError::Unavailable)
            } else {
                &&& result is Ok
                &&& opt_model(result->Ok_0.accepted) == accepted
                &&& result->Ok_0.attempt == if named {
                    Some(
                        attempt_result(
                            row.attempts_remaining as int,
                            accepted is Some,
                            now_epoch_millis,
                        ),
                    )
                } else {
                    None
                }
            }
        }),
{
    let attempts: Option<i16> = match &challenge {
        None => None,
        Some(None) => {
            return Err(StoreError::Conflict);
        },
        Some(Some(row)) => {
            let expires_later = row.expires_at_epoch_millis >= 0
                && row.expires_at_epoch_millis as u64 > now_epoch_millis;
            if !text_eq(row.account_id.as_str(), account_id) || !text_eq(
                row.status.as_str(),
                "issued",
            ) || row.attempts_remaining <= 0 || !expires_later {
                return Err(StoreError::Conflict);
            }
            Some(row.attempts_remaining)
        },
    };
    let accepted = check_factor(factor_kind, facts)?;
    let attempt: Option<AttemptResult> = match attempts {
        None => None,
        Some(attempts) => {
            let remaining: i16 = if accepted.is_some() {
                attempts
            } else {
                attempts - 1
            };
            if remaining > 255 {
                return Err(StoreError::Unavailable);
            }
            Some(
                AttemptResult {
                    attempts_remaining: remaining as u8,
                    status: if accepted.is_some() {
                        RiskChallengeStatus::Verified
                    } else if remaining == 0 {
                        RiskChallengeStatus::Failed
                    } else {
                        RiskChallengeStatus::Issued
                    },
                    verified_at_epoch_millis: if accepted.is_some() {
                        Some(now_epoch_millis)
                    } else {
                        None
                    },
                },
            )
        },
    };
    Ok(FactorDecision { accepted, attempt })
}

/// A challenge after an attempt on it. The time of an earlier verification stays where the attempt
/// failed.
pub open spec fn attempted(
    challenge: RiskChallengeModel,
    attempt: AttemptResult,
) -> RiskChallengeModel {
    RiskChallengeModel {
        attempts_remaining: attempt.attempts_remaining,
        status: attempt.status,
        verified_at_epoch_millis: if attempt.verified_at_epoch_millis is Some {
            attempt.verified_at_epoch_millis
        } else {
            challenge.verified_at_epoch_millis
        },
        ..challenge
    }
}

/// The challenges after an attempt on one of them, where it is held.
pub open spec fn challenges_after_attempt(
    challenges: Map<Seq<char>, RiskChallengeModel>,
    challenge_id: Option<Seq<char>>,
    attempt: Option<AttemptResult>,
) -> Map<Seq<char>, RiskChallengeModel> {
    if challenge_id is Some && attempt is Some && challenges.contains_key(challenge_id->0) {
        challenges.insert(
            challenge_id->0,
            attempted(challenges[challenge_id->0], attempt->0),
        )
    } else {
        challenges
    }
}

/// What a proof does where one was accepted.
pub open spec fn proof_or_none(accepted: Option<AcceptedProofModel>) -> AcceptedProofModel {
    match accepted {
        Some(model) => model,
        None => AcceptedProofModel::Password,
    }
}

/// The database after a factor was checked.
pub open spec fn after_factor(
    database: DatabaseModel,
    challenge_id: Option<Seq<char>>,
    decision: FactorDecision,
    now: u64,
) -> DatabaseModel {
    let used = proof_or_none(opt_model(decision.accepted));
    DatabaseModel {
        mfa_factors: factors_after_proof(database.mfa_factors, used),
        recovery_codes: codes_after_proof(database.recovery_codes, used, now),
        risk_challenges: challenges_after_attempt(
            database.risk_challenges,
            challenge_id,
            decision.attempt,
        ),
        ..database
    }
}

/// Publishes the check of a factor, and says whether it was accepted.
pub fn publish_factor(
    database: &mut Database,
    challenge_id: &Option<String>,
    decision: FactorDecision,
    now_epoch_millis: u64,
    written: &Result<(), PersistenceError>,
) -> (result: Result<bool, StoreError>)
    ensures
        result == answer_after(*written, Ok(decision.accepted is Some)),
        final(database)@ == state_after(
            *written,
            old(database)@,
            after_factor(old(database)@, opt_text(*challenge_id), decision, now_epoch_millis),
        ),
{
    check_written(written)?;
    let accepted = match &decision.accepted {
        Some(used) => {
            publish_proof(database, used, now_epoch_millis);
            true
        },
        None => false,
    };
    if let (Some(id), Some(attempt)) = (challenge_id, decision.attempt) {
        if let Some(held) = database.risk_challenges.get(id.as_str()) {
            let mut challenge = held.duplicate();
            challenge.attempts_remaining = attempt.attempts_remaining;
            challenge.status = attempt.status;
            if attempt.verified_at_epoch_millis.is_some() {
                challenge.verified_at_epoch_millis = attempt.verified_at_epoch_millis;
            }
            database.risk_challenges.insert(id.clone(), challenge);
        }
    }
    Ok(accepted)
}

/// A request to verify a risk challenge, with the audit entries of its outcomes.
#[derive(Debug, PartialEq, Eq)]
pub struct RiskChallengeVerification {
    pub challenge_id: String,
    pub account_id: String,
    pub factor_kind: String,
    pub factor_code: String,
    pub success_audit_entry: AuditEntry,
    pub failure_audit_entry: AuditEntry,
    pub recovery_code_audit_entry: Option<AuditEntry>,
    pub now_epoch_millis: u64,
}

/// How a request to verify a risk challenge is answered.
#[derive(Debug, PartialEq, Eq)]
pub enum RiskChallengeVerificationOutcome {
    Verified(RiskChallenge),
    AlreadyVerified(RiskChallenge),
    Rejected,
}

/// What the store and the verifiers say of the verification of a risk challenge.
#[derive(Debug, PartialEq, Eq)]
pub struct VerificationFacts {
    /// The status of the account.
    pub account_status: Option<String>,
    pub challenge: Option<Result<RiskChallenge, String>>,
    /// The device that the challenge was issued to.
    pub device: Option<LockedDevice>,
    /// Whether the code is the account's password.
    pub password_valid: bool,
    pub factor: FactorFacts,
}

/// What comes of the verification of a risk challenge.
#[derive(Debug, PartialEq, Eq)]
pub enum VerificationDecision {
    /// The request is rejected; nothing is written.
    Rejected,
    /// The challenge was verified before and can still be used.
    AlreadyVerified(RiskChallenge),
    /// The challenge takes a new state, an audit entry is written, and the request is rejected.
    Recorded { challenge: RiskChallenge, audit: AuditEntry },
    /// The challenge is verified by a proof, and audit entries are written.
    Verified { challenge: RiskChallenge, accepted: AcceptedProof, audits: Vec<AuditEntry> },
}

/// The model of [`VerificationDecision`].
pub enum VerificationModel {
    Rejected,
    AlreadyVerified(RiskChallengeModel),
    Recorded { challenge: RiskChallengeModel, audit: AuditEntryModel },
    Verified {
        challenge: RiskChallengeModel,
        accepted: AcceptedProofModel,
        audits: Seq<AuditEntryModel>,
    },
}

impl View for VerificationDecision {
    type V = VerificationModel;

    open spec fn view(&self) -> VerificationModel {
        match *self {
            VerificationDecision::Rejected => VerificationModel::Rejected,
            VerificationDecision::AlreadyVerified(challenge) => {
                VerificationModel::AlreadyVerified(challenge@)
            },
            VerificationDecision::Recorded { challenge, audit } => {
                VerificationModel::Recorded { challenge: challenge@, audit: audit@ }
            },
            VerificationDecision::Verified { challenge, accepted, audits } => {
                VerificationModel::Verified {
                    challenge: challenge@,
                    accepted: accepted@,
                    audits: models(audits@),
                }
            },
        }
    }
}

/// Whether the audit entries of a verification speak of its account.
pub open spec fn verification_audits_fit(verification: RiskChallengeVerification) -> bool {
    let account = Some(verification.account_id@);
    &&& opt_text(verification.success_audit_entry.actor_account_id) == account
    &&& opt_text(verification.failure_audit_entry.actor_account_id) == account
    &&& verification.recovery_code_audit_entry is Some ==> opt_text(
        verification.recovery_code_audit_entry->0.actor_account_id,
    ) == account
}

/// Whether a verified challenge can still be used.
pub open spec fn still_verified(challenge: RiskChallengeModel, now: u64) -> bool {
    &&& challenge.status == RiskChallengeStatus::Verified
    &&& challenge.verified_at_epoch_millis is Some
    &&& challenge.consumed_at_epoch_millis is None
    &&& challenge.expires_at_epoch_millis > now
}

/// The proof that a verification is accepted by, if any: by a method that the challenge requires,
/// and by the password only for a change of the password.
pub open spec fn verification_proof(
    verification: RiskChallengeVerification,
    challenge: RiskChallengeModel,
    facts: VerificationFacts,
) -> Option<AcceptedProofModel> {
    let kind = verification.factor_kind@;
    if !challenge.required_methods.contains(kind) {
        None
    } else if kind == "password"@ {
        if challenge.purpose == "password_change"@ && facts.password_valid {
            Some(AcceptedProofModel::Password)
        } else {
            None
        }
    } else {
        accepted_factor(kind, facts.factor)
    }
}

/// Whether the check of the factor of a verification finds one that cannot be read.
pub open spec fn verification_unreadable(
    verification: RiskChallengeVerification,
    challenge: RiskChallengeModel,
    facts: VerificationFacts,
) -> bool {
    let kind = verification.factor_kind@;
    challenge.required_methods.contains(kind) && kind != "password"@ && factor_unreadable(
        kind,
        facts.factor,
    )
}

/// What comes of an attempt on an open challenge that is in time.
pub open spec fn verification_attempt(
    verification: RiskChallengeVerification,
    challenge: RiskChallengeModel,
    facts: VerificationFacts,
) -> Result<VerificationModel, StoreError> {
    let accepted = verification_proof(verification, challenge, facts);
    if verification_unreadable(verification, challenge, facts) {
        Err(StoreError::Unavailable)
    } else if accepted is None {
        Ok(
            VerificationModel::Recorded {
                challenge: rejected_challenge(challenge),
                audit: verification.failure_audit_entry@,
            },
        )
    } else if verification.factor_kind@ != "recovery_code"@ {
        Ok(
            VerificationModel::Verified {
                challenge: verified_challenge(challenge, verification.now_epoch_millis),
                accepted: accepted->0,
                audits: seq![verification.success_audit_entry@],
            },
        )
    } else if verification.recovery_code_audit_entry is None {
        Err(StoreError::Conflict)
    } else {
        Ok(
            VerificationModel::Verified {
                challenge: verified_challenge(challenge, verification.now_epoch_millis),
                accepted: accepted->0,
                audits: seq![
                    verification.success_audit_entry@,
                    verification.recovery_code_audit_entry->0@,
                ],
            },
        )
    }
}

/// A challenge after it was verified.
pub open spec fn verified_challenge(challenge: RiskChallengeModel, now: u64) -> RiskChallengeModel {
    RiskChallengeModel {
        status: RiskChallengeStatus::Verified,
        verified_at_epoch_millis: Some(now),
        ..challenge
    }
}

/// What comes of the verification of a risk challenge.
pub open spec fn verification_result(
    verification: RiskChallengeVerification,
    facts: VerificationFacts,
) -> Result<VerificationModel, StoreError> {
    let now = verification.now_epoch_millis;
    if !verification_audits_fit(verification) {
        Err(StoreError::Conflict)
    } else if opt_text(facts.account_status) != Some("active"@) || facts.challenge is None {
        Ok(VerificationModel::Rejected)
    } else if facts.challenge->0 is Err {
        Err(StoreError::Unavailable)
    } else {
        let challenge = facts.challenge->0->Ok_0@;
        if challenge.account_id != verification.account_id@ || challenge.purpose == "login_mfa"@
            || challenge.device_id is None || !device_may_act(
            facts.device,
            verification.account_id@,
        ) {
            Ok(VerificationModel::Rejected)
        } else if still_verified(challenge, now) {
            Ok(VerificationModel::AlreadyVerified(challenge))
        } else if challenge.status != RiskChallengeStatus::Issued || challenge.attempts_remaining
            == 0 || challenge.consumed_at_epoch_millis is Some {
            Ok(VerificationModel::Rejected)
        } else if challenge.expires_at_epoch_millis <= now {
            Ok(
                VerificationModel::Recorded {
                    challenge: expired_challenge(challenge),
                    audit: with_reason(verification.failure_audit_entry@, "expired"@),
                },
            )
        } else {
            verification_attempt(verification, challenge, facts)
        }
    }
}

/// The model of the result of a verification.
pub open spec fn verification_model(result: Result<VerificationDecision, StoreError>) -> Result<
    VerificationModel,
    StoreError,
> {
    match result {
        Ok(decision) => Ok(decision@),
        Err(error) => Err(error),
    }
}

fn audits_fit(verification: &RiskChallengeVerification) -> (fit: bool)
    ensures
        fit == verification_audits_fit(*verification),
{
    let account = verification.account_id.as_str();
    let recovery_fits = match &verification.recovery_code_audit_entry {
        Some(entry) => opt_text_is(&entry.actor_account_id, account),
        None => true,
    };
    opt_text_is(&verification.success_audit_entry.actor_account_id, account) && opt_text_is(
        &verification.failure_audit_entry.actor_account_id,
        account,
    ) && recovery_fits
}

fn attempt_verification(
    verification: &RiskChallengeVerification,
    challenge: RiskChallenge,
    facts: VerificationFacts,
) -> (result: Result<VerificationDecision, StoreError>)
    requires
        challenge@.attempts_remaining > 0,
    ensures
        verification_model(result) == verification_attempt(*verification, challenge@, facts),
{
    let kind = verification.factor_kind.as_str();
    let accepted: Option<AcceptedProof> = if !texts_contain(&challenge.required_methods, kind) {
        None
    } else if text_eq(kind, "password") {
        if text_eq(challenge.purpose.as_str(), "password_change") && facts.password_valid {
            Some(AcceptedProof::Password)
        } else {
            None
        }
    } else {
        check_factor(kind, facts.factor)?
    };
    match accepted {
        None => Ok(
            VerificationDecision::Recorded {
                challenge: reject_locked_login_challenge(challenge),
                audit: verification.failure_audit_entry.duplicate(),
            },
        ),
        Some(accepted) => {
            let mut audits: Vec<AuditEntry> = Vec::new();
            audits.push(verification.success_audit_entry.duplicate());
            if text_eq(kind, "recovery_code") {
                match &verification.recovery_code_audit_entry {
                    Some(entry) => {
                        audits.push(entry.duplicate());
                    },
                    None => {
                        return Err(StoreError::Conflict);
                    },
                }
                assert(models(audits@) =~= seq![
                    verification.success_audit_entry@,
                    verification.recovery_code_audit_entry->0@,
                ]);
            } else {
                assert(models(audits@) =~= seq![verification.success_audit_entry@]);
            }
            let mut verified = challenge;
            verified.status = RiskChallengeStatus::Verified;
            verified.verified_at_epoch_millis = Some(verification.now_epoch_millis);
            Ok(VerificationDecision::Verified { challenge: verified, accepted, audits })
        },
    }
}

/// Decides the verification of a risk challenge.
pub fn verify_risk_challenge(
    verification: &RiskChallengeVerification,
    facts: VerificationFacts,
) -> (result: Result<VerificationDecision, StoreError>)
    ensures
        verification_model(result) == verification_result(*verification, facts),
{
    let now: u64 = verification.now_epoch_millis;
    if !audits_fit(verification) {
        return Err(StoreError::Conflict);
    }
    if !opt_text_is(&facts.account_status, "active") {
        return Ok(VerificationDecision::Rejected);
    }
    let challenge = match &facts.challenge {
        None => {
            return Ok(VerificationDecision::Rejected);
        },
        Some(Err(_)) => {
            return Err(StoreError::Unavailable);
        },
        Some(Ok(challenge)) => challenge.duplicate(),
    };
    if !text_eq(challenge.account_id.as_str(), verification.account_id.as_str()) || text_eq(
        challenge.purpose.as_str(),
        "login_mfa",
    ) || challenge.device_id.is_none() || !device_is_authorized(
        &facts.device,
        verification.account_id.as_str(),
    ) {
        return Ok(VerificationDecision::Rejected);
    }
    if challenge.status == RiskChallengeStatus::Verified
        && challenge.verified_at_epoch_millis.is_some()
        && challenge.consumed_at_epoch_millis.is_none() && challenge.expires_at_epoch_millis > now {
        return Ok(VerificationDecision::AlreadyVerified(challenge));
    }
    if challenge.status != RiskChallengeStatus::Issued || challenge.attempts_remaining == 0
        || challenge.consumed_at_epoch_millis.is_some() {
        return Ok(VerificationDecision::Rejected);
    }
    if challenge.expires_at_epoch_millis <= now {
        let mut audit = verification.failure_audit_entry.duplicate();
        audit.reason = Some("expired".to_owned());
        let mut expired = challenge;
        expired.status = RiskChallengeStatus::Expired;
        return Ok(VerificationDecision::Recorded { challenge: expired, audit });
    }
    attempt_verification(verification, challenge, facts)
}

/// The database after the verification of a risk challenge.
pub open spec fn after_verification(
    database: DatabaseModel,
    decision: VerificationModel,
    now: u64,
) -> DatabaseModel {
    match decision {
        VerificationModel::Rejected => database,
        VerificationModel::AlreadyVerified(challenge) => DatabaseModel {
            risk_challenges: database.risk_challenges.insert(
                challenge.risk_challenge_id,
                challenge,
            ),
            ..database
        },
        VerificationModel::Recorded { challenge, audit } => DatabaseModel {
            risk_challenges: database.risk_challenges.insert(
                challenge.risk_challenge_id,
                challenge,
            ),
            audit_logs: database.audit_logs.push(audit),
            ..database
        },
        VerificationModel::Verified { challenge, accepted, audits } => DatabaseModel {
            mfa_factors: factors_after_proof(database.mfa_factors, accepted),
            recovery_codes: codes_after_proof(database.recovery_codes, accepted, now),
            risk_challenges: database.risk_challenges.insert(
                challenge.risk_challenge_id,
                challenge,
            ),
            audit_logs: database.audit_logs + audits,
            ..database
        },
    }
}

/// Publishes the verification of a risk challenge, and answers it.
pub fn publish_verification(
    database: &mut Database,
    decision: VerificationDecision,
    now_epoch_millis: u64,
    written: &Result<(), PersistenceError>,
) -> (result: Result<RiskChallengeVerificationOutcome, StoreError>)
    ensures
        result is Ok <==> write_failure(*written) is None,
        result is Err ==> Some(result->Err_0) == write_failure(*written),
        final(database)@ == state_after(
            *written,
            old(database)@,
            after_verification(old(database)@, decision@, now_epoch_millis),
        ),
        result is Ok ==> match decision {
            VerificationDecision::AlreadyVerified(challenge) => result->Ok_0 is AlreadyVerified
                && result->Ok_0->AlreadyVerified_0@ == challenge@,
            VerificationDecision::Verified { challenge, accepted, audits } => result->Ok_0 is Verified
                && result->Ok_0->Verified_0@ == challenge@,
            _ => result->Ok_0 is Rejected,
        },
{
    check_written(written)?;
    let outcome = match decision {
        VerificationDecision::Rejected => RiskChallengeVerificationOutcome::Rejected,
        VerificationDecision::AlreadyVerified(challenge) => {
            database.risk_challenges.insert(
                challenge.risk_challenge_id.clone(),
                challenge.duplicate(),
            );
            RiskChallengeVerificationOutcome::AlreadyVerified(challenge)
        },
        VerificationDecision::Recorded { challenge, audit } => {
            database.risk_challenges.insert(challenge.risk_challenge_id.clone(), challenge);
            append_log(&mut database.audit_logs, audit);
            RiskChallengeVerificationOutcome::Rejected
        },
        VerificationDecision::Verified { challenge, accepted, audits } => {
            publish_proof(database, &accepted, now_epoch_millis);
            database.risk_challenges.insert(
                challenge.risk_challenge_id.clone(),
                challenge.duplicate(),
            );
            extend_log(&mut database.audit_logs, &audits);
            RiskChallengeVerificationOutcome::Verified(challenge)
        },
    };
    Ok(outcome)
}

/// Whether a challenge has come to an end.
pub open spec fn ended(status: RiskChallengeStatus) -> bool {
    status == RiskChallengeStatus::Failed || status == RiskChallengeStatus::Consumed || status
        == RiskChallengeStatus::Expired || status == RiskChallengeStatus::Cancelled
}

/// A challenge that has come to an end cannot be verified any more, and the attempt changes
/// nothing.
pub proof fn an_ended_challenge_cannot_be_verified(
    database: DatabaseModel,
    verification: RiskChallengeVerification,
    facts: VerificationFacts,
)
    requires
        verification_audits_fit(verification),
        facts.challenge is Some,
        facts.challenge->0 is Ok,
        ended(facts.challenge->0->Ok_0@.status),
    ensures
        verification_result(verification, facts) == Ok::<VerificationModel, StoreError>(
            VerificationModel::Rejected,
        ),
        after_verification(database, VerificationModel::Rejected, verification.now_epoch_millis)
            == database,
{
}

/// A cancelled challenge is at its end.
pub proof fn a_cancelled_challenge_has_ended(challenge: RiskChallengeModel)
    ensures
        ended((RiskChallengeModel { status: RiskChallengeStatus::Cancelled, ..challenge }).status),
{
}

/// The challenge that a verification leaves behind differs from the stored one only in its status,
/// its attempts and the time of its verification; attempts are never regained, and a failed one
/// costs exactly one.
pub proof fn a_verification_only_progresses_a_challenge(
    verification: RiskChallengeVerification,
    facts: VerificationFacts,
)
    requires
        verification_result(verification, facts) is Ok,
        facts.challenge is Some,
        facts.challenge->0 is Ok,
    ensures
        ({
            let stored = facts.challenge->0->Ok_0@;
            match verification_result(verification, facts)->Ok_0 {
                VerificationModel::Rejected => true,
                VerificationModel::AlreadyVerified(challenge) => challenge == stored,
                VerificationModel::Recorded { challenge, audit } => {
                    &&& challenge == (RiskChallengeModel {
                        status: challenge.status,
                        attempts_remaining: challenge.attempts_remaining,
                        ..stored
                    })
                    &&& challenge.status == RiskChallengeStatus::Expired
                        && challenge.attempts_remaining == stored.attempts_remaining
                        || challenge.attempts_remaining == stored.attempts_remaining - 1
                },
                VerificationModel::Verified { challenge, accepted, audits } => {
                    &&& challenge == verified_challenge(stored, verification.now_epoch_millis)
                    &&& challenge.attempts_remaining == stored.attempts_remaining
                    &&& stored.status == RiskChallengeStatus::Issued
                    &&& stored.expires_at_epoch_millis > verification.now_epoch_millis
                    &&& stored.required_methods.contains(verification.factor_kind@)
                },
            }
        }),
{
}

/// A challenge that was verified and not used yet is answered as verified again, without a second
/// look at any factor.
pub proof fn a_verified_challenge_stays_verified(
    verification: RiskChallengeVerification,
    facts: VerificationFacts,
)
    requires
        verification_audits_fit(verification),
        opt_text(facts.account_status) == Some("active"@),
        facts.challenge is Some,
        facts.challenge->0 is Ok,
        still_verified(facts.challenge->0->Ok_0@, verification.now_epoch_millis),
        facts.challenge->0->Ok_0@.account_id == verification.account_id@,
        facts.challenge->0->Ok_0@.purpose != "login_mfa"@,
        facts.challenge->0->Ok_0@.device_id is Some,
        device_may_act(facts.device, verification.account_id@),
    ensures
        verification_result(verification, facts) == Ok::<VerificationModel, StoreError>(
            VerificationModel::AlreadyVerified(facts.challenge->0->Ok_0@),
        ),
{
}

} // verus!
