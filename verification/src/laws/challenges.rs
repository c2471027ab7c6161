use crate::account::{MfaFactor, MfaFactorModel, RecoveryCode, RecoveryCodeModel};
use crate::audit::AuditEntry;
use crate::challenge::{
    LoginChallengeAuthority, RiskChallenge, RiskChallengeModel, RiskChallengeStatus,
};
use crate::database::Database;
use crate::factor::{
    check_totp, code_row_accepts, find_recovery_code, publish_proof, AcceptedProof,
    AcceptedProofModel, LockedRecoveryCode,
};
use crate::hash::sha256_digest;
use crate::risk_challenge::{
    cancel_risk_challenge, check_factor, create_login_challenge, create_risk_challenge,
    device_is_authorized, publish_cancellation, publish_factor, publish_login_challenge,
    publish_risk_challenge, publish_verification, reject_login_challenge, required_methods_for,
    verify_factor, verify_risk_challenge, Cancellation, FactorDecision, FactorFacts, LockedAttempts,
    LockedDevice, RiskChallengeCreationOutcome, RiskChallengeVerification,
    RiskChallengeVerificationOutcome, VerificationDecision, VerificationFacts,
};
use crate::rows::{challenge_row_problem, RiskChallengeRow};
use crate::rules::{listed, new_challenge_problem, RISK_CHALLENGE_PURPOSES, RISK_LEVELS};
use crate::store::{PersistenceError, StoreError};
use crate::table::{models, opt_model};
use crate::text::texts;
use vstd::prelude::*;
use vstd::utf8::encode_utf8;

verus! {

/// A risk challenge is created exactly where its purpose can be asked for, with the methods left to
/// the server, by an active account from a device of its own that may act. An account with a second
/// factor answers by one of the two factors, one without answers by its password when it changes
/// the password, and must enrol a factor first for everything else. A name that is taken conflicts.
pub proof fn a_risk_challenge_is_created_for_who_may_ask(
    challenge: &RiskChallenge,
    account_active: bool,
    device: &Option<LockedDevice>,
    mfa_enabled: bool,
    id_taken: bool,
    result: Result<RiskChallengeCreationOutcome, StoreError>,
)
    requires
        call_ensures(
            create_risk_challenge,
            (challenge, account_active, device, mfa_enabled, id_taken),
            result,
        ),
    ensures
        ({
            let asked = challenge@;
            let requestable = asked.purpose != "login_mfa"@ && asked.purpose
                != "new_controller_device"@ && asked.required_methods.len() == 0;
            let authorized = account_active && asked.device_id is Some && *device is Some
                && device->0.account_id@ == asked.account_id && (device->0.status@ == "online"@
                || device->0.status@ == "offline"@ || device->0.status@ == "busy"@);
            let answerable = mfa_enabled || asked.purpose == "password_change"@;
            let fresh = listed(RISK_CHALLENGE_PURPOSES@, asked.purpose) && listed(
                RISK_LEVELS@,
                asked.risk_level,
            ) && asked.status == RiskChallengeStatus::Issued && 1 <= asked.attempts_remaining <= 5
                && asked.verified_at_epoch_millis is None && asked.consumed_at_epoch_millis is None
                && asked.created_at_epoch_millis < asked.expires_at_epoch_millis
                <= asked.created_at_epoch_millis + 300_000;
            &&& result is Ok && result->Ok_0 is Created <==> requestable && authorized
                && answerable && fresh && !id_taken
            &&& result is Ok && result->Ok_0 is NotAuthorized <==> requestable && !authorized
            &&& result is Ok && result->Ok_0 is MfaEnrollmentRequired <==> requestable
                && authorized && !answerable
            &&& !requestable ==> result == Err::<RiskChallengeCreationOutcome, _>(
                StoreError::Conflict,
            )
            &&& requestable && authorized && answerable && !fresh ==> result == Err::<
                RiskChallengeCreationOutcome,
                _,
            >(StoreError::Unavailable)
            &&& requestable && authorized && answerable && fresh && id_taken ==> result == Err::<
                RiskChallengeCreationOutcome,
                _,
            >(StoreError::Conflict)
            &&& result is Ok && result->Ok_0 is Created ==> {
                let created = result->Ok_0->Created_0@;
                &&& mfa_enabled ==> created.required_methods == seq!["totp"@, "recovery_code"@]
                &&& !mfa_enabled ==> created.required_methods == seq!["password"@]
                &&& created == (RiskChallengeModel {
                    required_methods: created.required_methods,
                    ..asked
                })
            }
        }),
{
}

/// A created challenge is answered by what it asks for: with a second factor by an accepted code of
/// either kind, and without one by the password. Whatever the purpose, the verification that
/// follows succeeds while the challenge is open.
pub proof fn a_created_challenge_can_be_verified(
    asked: &RiskChallenge,
    device: &Option<LockedDevice>,
    mfa_enabled: bool,
    created: Result<RiskChallengeCreationOutcome, StoreError>,
    verification: &RiskChallengeVerification,
    facts: VerificationFacts,
    result: Result<VerificationDecision, StoreError>,
)
    requires
        call_ensures(create_risk_challenge, (asked, true, device, mfa_enabled, false), created),
        created is Ok,
        created->Ok_0 is Created,
        call_ensures(verify_risk_challenge, (verification, facts), result),
        facts.challenge is Some,
        facts.challenge->0 is Ok,
        facts.challenge->0->Ok_0@ == created->Ok_0->Created_0@,
        facts.account_status is Some,
        facts.account_status->0@ == "active"@,
        facts.device == *device,
        verification.account_id@ == asked@.account_id,
        verification.now_epoch_millis < asked@.expires_at_epoch_millis,
        verification.success_audit_entry@.actor_account_id == Some(asked@.account_id),
        verification.failure_audit_entry@.actor_account_id == Some(asked@.account_id),
        verification.recovery_code_audit_entry is Some,
        verification.recovery_code_audit_entry->0@.actor_account_id == Some(asked@.account_id),
        mfa_enabled ==> verification.factor_kind@ == "totp"@ && facts.factor.totp_factor is Some
            && facts.factor.totp_factor->0 is Ok && facts.factor.totp_counter is Some
            || verification.factor_kind@ == "recovery_code"@ && facts.factor.recovery_code_id is Ok
            && facts.factor.recovery_code_id->Ok_0 is Some,
        !mfa_enabled ==> verification.factor_kind@ == "password"@ && facts.password_valid,
    ensures
        result is Ok,
        result->Ok_0 is Verified,
        ({
            let verified = result->Ok_0->Verified_challenge@;
            let accepted = result->Ok_0->Verified_accepted@;
            let audits = models(result->Ok_0->Verified_audits@);
            &&& verified.status == RiskChallengeStatus::Verified
            &&& verified.verified_at_epoch_millis == Some(verification.now_epoch_millis)
            &&& verified.attempts_remaining == asked@.attempts_remaining
            &&& verified.risk_challenge_id == asked@.risk_challenge_id
            &&& verified.consumed_at_epoch_millis is None
            &&& audits[0] == verification.success_audit_entry@
            &&& verification.factor_kind@ == "password"@ ==> accepted is Password && audits.len()
                == 1
            &&& verification.factor_kind@ == "totp"@ ==> accepted is Totp && accepted->Totp_0
                == (MfaFactorModel {
                last_used_counter: facts.factor.totp_counter,
                ..facts.factor.totp_factor->0->Ok_0@
            }) && audits.len() == 1
            &&& verification.factor_kind@ == "recovery_code"@ ==> accepted is RecoveryCode
                && accepted->RecoveryCode_0 == facts.factor.recovery_code_id->Ok_0->0@
                && audits.len() == 2 && audits[1] == verification.recovery_code_audit_entry->0@
        }),
{
    lemma_methods_differ();
    let factors = seq!["totp"@, "recovery_code"@];
    assert(factors[0] == "totp"@ && factors[1] == "recovery_code"@);
    assert(factors.contains("totp"@) && factors.contains("recovery_code"@));
    let password = seq!["password"@];
    assert(password[0] == "password"@);
    assert(password.contains("password"@));
}

proof fn lemma_methods_differ()
    ensures
        "totp"@ != "recovery_code"@,
        "totp"@ != "password"@,
        "recovery_code"@ != "password"@,
{
    reveal_strlit("totp");
    reveal_strlit("recovery_code");
    reveal_strlit("password");
    assert("totp"@.len() == 4 && "recovery_code"@.len() == 13 && "password"@.len() == 8);
}

/// Whether an open challenge of an account can be answered by a verification now: it is not a login
/// challenge, has attempts left, was not used, and is asked for a device of the account that may
/// act.
pub open spec fn challenge_is_open_to(
    verification: RiskChallengeVerification,
    facts: VerificationFacts,
) -> bool {
    let challenge = facts.challenge->0->Ok_0@;
    &&& facts.account_status is Some && facts.account_status->0@ == "active"@
    &&& facts.challenge is Some && facts.challenge->0 is Ok
    &&& challenge.account_id == verification.account_id@
    &&& challenge.purpose != "login_mfa"@
    &&& challenge.device_id is Some
    &&& facts.device is Some
    &&& facts.device->0.account_id@ == verification.account_id@
    &&& (facts.device->0.status@ == "online"@ || facts.device->0.status@ == "offline"@
        || facts.device->0.status@ == "busy"@)
    &&& challenge.status == RiskChallengeStatus::Issued
    &&& challenge.attempts_remaining > 0
    &&& challenge.consumed_at_epoch_millis is None
    &&& challenge.expires_at_epoch_millis > verification.now_epoch_millis
}

/// A wrong answer to an open challenge costs one attempt, and the last one fails the challenge;
/// nothing else of it changes, and the failure is logged.
pub proof fn a_wrong_answer_costs_one_attempt(
    verification: &RiskChallengeVerification,
    facts: VerificationFacts,
    result: Result<VerificationDecision, StoreError>,
)
    requires
        call_ensures(verify_risk_challenge, (verification, facts), result),
        verification.success_audit_entry@.actor_account_id == Some(verification.account_id@),
        verification.failure_audit_entry@.actor_account_id == Some(verification.account_id@),
        verification.recovery_code_audit_entry is Some
            ==> verification.recovery_code_audit_entry->0@.actor_account_id == Some(
            verification.account_id@,
        ),
        challenge_is_open_to(*verification, facts),
        facts.factor.totp_factor is Some ==> facts.factor.totp_factor->0 is Ok,
        facts.factor.recovery_code_id is Ok,
        ({
            let challenge = facts.challenge->0->Ok_0@;
            let kind = verification.factor_kind@;
            ||| !challenge.required_methods.contains(kind)
            ||| kind == "password"@ && (challenge.purpose != "password_change"@
                || !facts.password_valid)
            ||| kind == "totp"@ && (facts.factor.totp_factor is None || facts.factor.totp_counter
                is None)
            ||| kind == "recovery_code"@ && facts.factor.recovery_code_id->Ok_0 is None
            ||| kind != "password"@ && kind != "totp"@ && kind != "recovery_code"@
        }),
    ensures
        result is Ok,
        result->Ok_0 is Recorded,
        ({
            let before = facts.challenge->0->Ok_0@;
            let after = result->Ok_0->Recorded_challenge@;
            &&& after.attempts_remaining == before.attempts_remaining - 1
            &&& before.attempts_remaining == 1 ==> after.status == RiskChallengeStatus::Failed
            &&& before.attempts_remaining > 1 ==> after.status == RiskChallengeStatus::Issued
            &&& after.verified_at_epoch_millis == before.verified_at_epoch_millis
            &&& after.consumed_at_epoch_millis is None
            &&& after.risk_challenge_id == before.risk_challenge_id
            &&& after.account_id == before.account_id
            &&& after.purpose == before.purpose
            &&& after.operation_binding_hash == before.operation_binding_hash
            &&& after.expires_at_epoch_millis == before.expires_at_epoch_millis
            &&& result->Ok_0->Recorded_audit@ == verification.failure_audit_entry@
        }),
{
    lemma_methods_differ();
}

/// A verification decides only over an open challenge. A challenge that is already verified and
/// not used or expired is answered as such; one that expired while open is recorded as expired;
/// every other request is rejected. Entries of another account conflict.
pub proof fn a_verification_needs_an_open_challenge(
    verification: &RiskChallengeVerification,
    facts: VerificationFacts,
    result: Result<VerificationDecision, StoreError>,
)
    requires
        call_ensures(verify_risk_challenge, (verification, facts), result),
    ensures
        ({
            let challenge = facts.challenge->0->Ok_0@;
            let account = Some(verification.account_id@);
            let now = verification.now_epoch_millis;
            let logged = verification.success_audit_entry@.actor_account_id == account
                && verification.failure_audit_entry@.actor_account_id == account && (
            verification.recovery_code_audit_entry is Some
                ==> verification.recovery_code_audit_entry->0@.actor_account_id == account);
            let reachable = facts.account_status is Some && facts.account_status->0@ == "active"@
                && facts.challenge is Some && facts.challenge->0 is Ok && challenge.account_id
                == verification.account_id@ && challenge.purpose != "login_mfa"@
                && challenge.device_id is Some && facts.device is Some
                && facts.device->0.account_id@ == verification.account_id@ && (
            facts.device->0.status@ == "online"@ || facts.device->0.status@ == "offline"@
                || facts.device->0.status@ == "busy"@);
            let verified = challenge.status == RiskChallengeStatus::Verified
                && challenge.verified_at_epoch_millis is Some && challenge.consumed_at_epoch_millis
                is None && challenge.expires_at_epoch_millis > now;
            let open = challenge.status == RiskChallengeStatus::Issued
                && challenge.attempts_remaining > 0 && challenge.consumed_at_epoch_millis is None;
            &&& !logged ==> result == Err::<VerificationDecision, _>(StoreError::Conflict)
            &&& result is Ok && result->Ok_0 is AlreadyVerified <==> logged && reachable && verified
            &&& result is Ok && result->Ok_0 is AlreadyVerified
                ==> result->Ok_0->AlreadyVerified_0@ == challenge
            &&& result is Ok && result->Ok_0 is Verified ==> logged && reachable && open
                && challenge.expires_at_epoch_millis > now && challenge.required_methods.contains(
                verification.factor_kind@,
            )
            &&& logged && !(facts.challenge is Some && facts.challenge->0 is Err) && !reachable
                ==> result == Ok::<_, StoreError>(VerificationDecision::Rejected)
            &&& logged && reachable && !verified && !open ==> result == Ok::<_, StoreError>(
                VerificationDecision::Rejected,
            )
            &&& result is Ok && result->Ok_0 is Rejected && reachable ==> !verified && !open
            &&& logged && reachable && !verified && open && challenge.expires_at_epoch_millis <= now
                ==> {
                &&& result is Ok
                &&& result->Ok_0 is Recorded
                &&& result->Ok_0->Recorded_challenge@.status == RiskChallengeStatus::Expired
                &&& result->Ok_0->Recorded_challenge@.risk_challenge_id
                    == challenge.risk_challenge_id
                &&& result->Ok_0->Recorded_challenge@.attempts_remaining
                    == challenge.attempts_remaining
                &&& result->Ok_0->Recorded_audit@.reason == Some("expired"@)
                &&& result->Ok_0->Recorded_audit@.audit_id
                    == verification.failure_audit_entry@.audit_id
                &&& result->Ok_0->Recorded_audit@.action
                    == verification.failure_audit_entry@.action
            }
        }),
{
}

/// A published verification holds the challenge as it was decided, spends the recovery code or
/// marks the one-time code's counter where one was accepted, logs what was decided, and answers
/// whether the challenge is verified. A rejected one changes nothing.
pub proof fn a_verification_is_published(
    database: &mut Database,
    decision: VerificationDecision,
    now: u64,
    written: &Result<(), PersistenceError>,
    result: Result<RiskChallengeVerificationOutcome, StoreError>,
    other: Seq<char>,
)
    requires
        call_ensures(publish_verification, (database, decision, now, written), result),
        *written is Ok,
    ensures
        result is Ok,
        ({
            let before = old(database)@;
            let after = final(database)@;
            &&& result->Ok_0 is Verified <==> decision is Verified
            &&& result->Ok_0 is AlreadyVerified <==> decision is AlreadyVerified
            &&& decision is Rejected ==> after == before
            &&& decision is AlreadyVerified ==> {
                let challenge = decision->AlreadyVerified_0@;
                &&& result->Ok_0->AlreadyVerified_0@ == challenge
                &&& after.risk_challenges.contains_key(challenge.risk_challenge_id)
                &&& after.risk_challenges[challenge.risk_challenge_id] == challenge
                &&& after.audit_logs == before.audit_logs
                &&& after.mfa_factors == before.mfa_factors
                &&& after.recovery_codes == before.recovery_codes
            }
            &&& decision is Recorded ==> {
                let challenge = decision->Recorded_challenge@;
                &&& after.risk_challenges.contains_key(challenge.risk_challenge_id)
                &&& after.risk_challenges[challenge.risk_challenge_id] == challenge
                &&& after.audit_logs == before.audit_logs.push(decision->Recorded_audit@)
                &&& after.mfa_factors == before.mfa_factors
                &&& after.recovery_codes == before.recovery_codes
                &&& other != challenge.risk_challenge_id ==> after.risk_challenges.contains_key(
                    other,
                ) == before.risk_challenges.contains_key(other) && after.risk_challenges[other]
                    == before.risk_challenges[other]
            }
            &&& decision is Verified ==> {
                let challenge = decision->Verified_challenge@;
                &&& result->Ok_0->Verified_0@ == challenge
                &&& after.risk_challenges.contains_key(challenge.risk_challenge_id)
                &&& after.risk_challenges[challenge.risk_challenge_id] == challenge
                &&& after.audit_logs == before.audit_logs + models(decision->Verified_audits@)
                &&& other != challenge.risk_challenge_id ==> after.risk_challenges.contains_key(
                    other,
                ) == before.risk_challenges.contains_key(other) && after.risk_challenges[other]
                    == before.risk_challenges[other]
                &&& proof_is_spent(
                    before.mfa_factors,
                    after.mfa_factors,
                    before.recovery_codes,
                    after.recovery_codes,
                    decision->Verified_accepted@,
                    now,
                    other,
                )
            }
        }),
{
}

/// Whether an accepted proof is spent between two states: a one-time code leaves its counter in its
/// factor, a recovery code is used from now on, any other proof leaves no trace, and no other factor
/// or code changes.
pub open spec fn proof_is_spent(
    factors_before: Map<Seq<char>, MfaFactorModel>,
    factors_after: Map<Seq<char>, MfaFactorModel>,
    codes_before: Map<Seq<char>, RecoveryCodeModel>,
    codes_after: Map<Seq<char>, RecoveryCodeModel>,
    accepted: AcceptedProofModel,
    now: u64,
    other: Seq<char>,
) -> bool {
    &&& factors_after.contains_key(other) == factors_before.contains_key(other)
    &&& codes_after.contains_key(other) == codes_before.contains_key(other)
    &&& !(accepted is Totp) ==> factors_after == factors_before
    &&& !(accepted is RecoveryCode) ==> codes_after == codes_before
    &&& accepted is Totp && factors_before.contains_key(accepted->Totp_0.factor_id) ==> {
        let id = accepted->Totp_0.factor_id;
        &&& factors_after[id].last_used_counter == accepted->Totp_0.last_used_counter
        &&& factors_after[id].account_id == factors_before[id].account_id
        &&& factors_after[id].secret_base32 == factors_before[id].secret_base32
        &&& factors_after[id].active == factors_before[id].active
        &&& other != id ==> factors_after[other] == factors_before[other]
    }
    &&& accepted is RecoveryCode && codes_before.contains_key(accepted->RecoveryCode_0) ==> {
        let id = accepted->RecoveryCode_0;
        &&& codes_after[id].used_at_epoch_millis == Some(now)
        &&& codes_after[id].account_id == codes_before[id].account_id
        &&& codes_after[id].code_hash == codes_before[id].code_hash
        &&& codes_after[id].expires_at_epoch_millis == codes_before[id].expires_at_epoch_millis
        &&& other != id ==> codes_after[other] == codes_before[other]
    }
}

/// A published proof is spent.
pub proof fn a_published_proof_is_spent(
    database: &mut Database,
    accepted: &AcceptedProof,
    now: u64,
    other: Seq<char>,
)
    requires
        call_ensures(publish_proof, (database, accepted, now), ()),
    ensures
        ({
            let before = old(database)@;
            let after = final(database)@;
            &&& proof_is_spent(
                before.mfa_factors,
                after.mfa_factors,
                before.recovery_codes,
                after.recovery_codes,
                accepted@,
                now,
                other,
            )
            &&& after.accounts == before.accounts
            &&& after.risk_challenges == before.risk_challenges
            &&& after.audit_logs == before.audit_logs
        }),
{
}

/// A failed answer to a login challenge counts exactly while the challenge is open and bound to the
/// login: one attempt less, and failed with the last one.
pub proof fn a_failed_login_answer_costs_one_attempt(
    found: Option<RiskChallengeRow>,
    challenge_binding_hash: &[u8; 32],
    now: u64,
    result: Result<Option<RiskChallenge>, StoreError>,
)
    requires
        call_ensures(reject_login_challenge, (found, challenge_binding_hash, now), result),
        found is Some ==> challenge_row_problem(found->0) is None,
    ensures
        result is Ok,
        ({
            let row = found->0;
            &&& result->Ok_0 is Some <==> found is Some && row.purpose@ == "login_mfa"@
                && row.status@ == "issued"@ && row.attempts_remaining > 0
                && row.expires_at_epoch_millis > now && row.operation_binding_hash@
                == challenge_binding_hash@
            &&& result->Ok_0 is Some ==> {
                let challenge = result->Ok_0->0@;
                &&& challenge.attempts_remaining == row.attempts_remaining - 1
                &&& row.attempts_remaining == 1 ==> challenge.status == RiskChallengeStatus::Failed
                &&& row.attempts_remaining > 1 ==> challenge.status == RiskChallengeStatus::Issued
                &&& challenge.risk_challenge_id == row.risk_challenge_id@
                &&& challenge.account_id == row.account_id@
                &&& challenge.purpose == row.purpose@
                &&& challenge.expires_at_epoch_millis == row.expires_at_epoch_millis
                &&& challenge.created_at_epoch_millis == row.created_at_epoch_millis
            }
        }),
{
}

/// A login challenge is stored exactly where its records fit, it is a fresh challenge, its key
/// version can be stored and the account has not changed since.
pub proof fn a_login_challenge_is_stored_for_an_unchanged_account(
    authority: &LoginChallengeAuthority,
    authority_valid: Result<(), StoreError>,
    account_unchanged: bool,
    result: Result<(), StoreError>,
)
    requires
        call_ensures(
            create_login_challenge,
            (authority, authority_valid, account_unchanged),
            result,
        ),
    ensures
        result is Ok <==> authority_valid is Ok && new_challenge_problem(authority@.challenge)
            is None && authority@.context.public_key_version <= i32::MAX && account_unchanged,
        authority_valid is Err ==> result == authority_valid,
        authority_valid is Ok && new_challenge_problem(authority@.challenge) is None && !(
        account_unchanged) ==> result == Err::<(), _>(StoreError::Conflict),
{
}

/// A published login challenge is held with its context under its name, and logged; every other
/// challenge stays as it is. So is a published risk challenge, which has no context.
pub proof fn an_issued_challenge_is_published(
    database: &mut Database,
    authority: &LoginChallengeAuthority,
    audit_entry: &AuditEntry,
    written: &Result<(), PersistenceError>,
    result: Result<(), StoreError>,
    other: Seq<char>,
)
    requires
        call_ensures(publish_login_challenge, (database, authority, audit_entry, written), result),
    ensures
        *written is Err ==> result is Err && final(database)@ == old(database)@,
        *written is Ok ==> result is Ok && {
            let before = old(database)@;
            let after = final(database)@;
            let id = authority@.challenge.risk_challenge_id;
            &&& after.risk_challenges.contains_key(id)
            &&& after.risk_challenges[id] == authority@.challenge
            &&& after.login_challenge_contexts.contains_key(id)
            &&& after.login_challenge_contexts[id] == authority@.context
            &&& after.audit_logs == before.audit_logs.push(audit_entry@)
            &&& other != id ==> (after.risk_challenges.contains_key(other)
                == before.risk_challenges.contains_key(other) && after.risk_challenges[other]
                == before.risk_challenges[other])
            &&& after.accounts == before.accounts
            &&& after.devices == before.devices
        },
{
}

/// A published risk challenge is held under its name and logged; every other challenge stays.
pub proof fn a_risk_challenge_is_published(
    database: &mut Database,
    challenge: &RiskChallenge,
    audit_entry: &AuditEntry,
    written: &Result<(), PersistenceError>,
    result: Result<(), StoreError>,
    other: Seq<char>,
)
    requires
        call_ensures(publish_risk_challenge, (database, challenge, audit_entry, written), result),
    ensures
        *written is Err ==> result is Err && final(database)@ == old(database)@,
        *written is Ok ==> result is Ok && {
            let before = old(database)@;
            let after = final(database)@;
            let id = challenge@.risk_challenge_id;
            &&& after.risk_challenges.contains_key(id)
            &&& after.risk_challenges[id] == challenge@
            &&& after.audit_logs == before.audit_logs.push(audit_entry@)
            &&& other != id ==> (after.risk_challenges.contains_key(other)
                == before.risk_challenges.contains_key(other) && after.risk_challenges[other]
                == before.risk_challenges[other])
            &&& after.login_challenge_contexts == before.login_challenge_contexts
        },
{
}

/// An open challenge is cancelled, once, and keeps all but its status; a challenge in any other
/// status stays as it is. The cancellation is logged by the account, as a failure that was
/// cancelled.
pub proof fn an_open_challenge_is_cancelled(
    challenge: Option<Result<RiskChallenge, String>>,
    audit_entry: &AuditEntry,
    result: Result<Cancellation, StoreError>,
)
    requires
        call_ensures(cancel_risk_challenge, (challenge, audit_entry), result),
    ensures
        challenge is None ==> result is Ok && result->Ok_0 is Missing,
        challenge is Some && challenge->0 is Err ==> result == Err::<Cancellation, _>(
            StoreError::Unavailable,
        ),
        challenge is Some && challenge->0 is Ok ==> {
            let found = challenge->0->Ok_0@;
            let open = found.status == RiskChallengeStatus::Issued;
            let logged = audit_entry@.actor_account_id == Some(found.account_id)
                && audit_entry@.action == "risk_challenge_failed"@ && audit_entry@.result
                == "failure"@ && audit_entry@.reason == Some("cancelled"@);
            &&& !open ==> result is Ok && result->Ok_0 is Unchanged && result->Ok_0->Unchanged_0@
                == found
            &&& open && !logged ==> result == Err::<Cancellation, _>(StoreError::Conflict)
            &&& open && logged ==> result is Ok && result->Ok_0 is Cancelled && {
                let cancelled = result->Ok_0->Cancelled_0@;
                &&& cancelled.status == RiskChallengeStatus::Cancelled
                &&& cancelled.risk_challenge_id == found.risk_challenge_id
                &&& cancelled.account_id == found.account_id
                &&& cancelled.attempts_remaining == found.attempts_remaining
                &&& cancelled.expires_at_epoch_millis == found.expires_at_epoch_millis
                &&& cancelled.verified_at_epoch_millis == found.verified_at_epoch_millis
                &&& cancelled.consumed_at_epoch_millis == found.consumed_at_epoch_millis
            }
        },
{
}

/// A published cancellation holds the challenge as it is then and is logged only if it cancelled
/// one, which is what it answers; a challenge that is not there is dropped from what is held.
pub proof fn a_cancellation_is_published(
    database: &mut Database,
    challenge_id: &str,
    cancellation: &Cancellation,
    audit_entry: &AuditEntry,
    written: &Result<(), PersistenceError>,
    result: Result<bool, StoreError>,
    other: Seq<char>,
)
    requires
        call_ensures(
            publish_cancellation,
            (database, challenge_id, cancellation, audit_entry, written),
            result,
        ),
    ensures
        *written is Err ==> result is Err && final(database)@ == old(database)@,
        *written is Ok ==> result is Ok && {
            let before = old(database)@;
            let after = final(database)@;
            &&& result->Ok_0 <==> cancellation is Cancelled
            &&& cancellation is Cancelled ==> after.risk_challenges[cancellation->Cancelled_0@.risk_challenge_id]
                == cancellation->Cancelled_0@ && after.audit_logs == before.audit_logs.push(
                audit_entry@,
            )
            &&& cancellation is Unchanged ==> after.risk_challenges[cancellation->Unchanged_0@.risk_challenge_id]
                == cancellation->Unchanged_0@ && after.audit_logs == before.audit_logs
            &&& cancellation is Missing ==> !after.risk_challenges.contains_key(challenge_id@)
                && after.audit_logs == before.audit_logs
            &&& cancellation is Missing && other != challenge_id@
                ==> after.risk_challenges.contains_key(other)
                == before.risk_challenges.contains_key(other) && after.risk_challenges[other]
                == before.risk_challenges[other]
            &&& after.accounts == before.accounts
        },
{
}

/// A factor is accepted exactly with a matching code: a one-time code of a factor that matched a
/// counter, or a recovery code that was found. No other kind is accepted.
pub proof fn a_factor_is_accepted_with_a_matching_code(
    factor_kind: &str,
    facts: FactorFacts,
    result: Result<Option<AcceptedProof>, StoreError>,
)
    requires
        call_ensures(check_factor, (factor_kind, facts), result),
        facts.totp_factor is Some ==> facts.totp_factor->0 is Ok,
        facts.recovery_code_id is Ok,
    ensures
        result is Ok,
        factor_kind@ == "totp"@ ==> (result->Ok_0 is Some <==> facts.totp_factor is Some
            && facts.totp_counter is Some),
        factor_kind@ == "recovery_code"@ ==> (result->Ok_0 is Some
            <==> facts.recovery_code_id->Ok_0 is Some),
        factor_kind@ != "totp"@ && factor_kind@ != "recovery_code"@ ==> result->Ok_0 is None,
        factor_kind@ == "totp"@ && result->Ok_0 is Some ==> {
            let accepted = result->Ok_0->0@;
            &&& accepted is Totp
            &&& accepted->Totp_0.last_used_counter == facts.totp_counter
            &&& accepted->Totp_0.factor_id == facts.totp_factor->0->Ok_0@.factor_id
            &&& accepted->Totp_0.account_id == facts.totp_factor->0->Ok_0@.account_id
            &&& accepted->Totp_0.secret_base32 == facts.totp_factor->0->Ok_0@.secret_base32
            &&& accepted->Totp_0.active == facts.totp_factor->0->Ok_0@.active
        },
        factor_kind@ == "recovery_code"@ && result->Ok_0 is Some ==> result->Ok_0->0@
            is RecoveryCode && result->Ok_0->0@->RecoveryCode_0
            == facts.recovery_code_id->Ok_0->0@,
{
    lemma_methods_differ();
}

/// A factor that answers a challenge is checked exactly while that challenge of the account is
/// open. A match verifies the challenge and costs nothing; a miss costs one attempt, and the last
/// one fails it. Without a challenge nothing is counted.
pub proof fn a_factor_answers_an_open_challenge(
    challenge: Option<Option<LockedAttempts>>,
    account_id: &str,
    factor_kind: &str,
    now: u64,
    facts: FactorFacts,
    checked: Result<Option<AcceptedProof>, StoreError>,
    result: Result<FactorDecision, StoreError>,
)
    requires
        call_ensures(verify_factor, (challenge, account_id, factor_kind, now, facts), result),
        call_ensures(check_factor, (factor_kind, facts), checked),
        facts.totp_factor is Some ==> facts.totp_factor->0 is Ok,
        facts.recovery_code_id is Ok,
        challenge is Some && challenge->0 is Some ==> challenge->0->0.attempts_remaining <= 255,
    ensures
        ({
            let row = challenge->0->0;
            let open = challenge->0 is Some && row.account_id@ == account_id@ && row.status@
                == "issued"@ && row.attempts_remaining > 0 && row.expires_at_epoch_millis > now;
            &&& result is Ok <==> challenge is None || open
            &&& result is Err ==> result->Err_0 == StoreError::Conflict
            &&& result is Ok ==> opt_model(result->Ok_0.accepted) == opt_model(checked->Ok_0)
            &&& result is Ok && challenge is None ==> result->Ok_0.attempt is None
            &&& result is Ok && challenge is Some ==> result->Ok_0.attempt is Some && {
                let attempt = result->Ok_0.attempt->0;
                let accepted = result->Ok_0.accepted is Some;
                &&& accepted ==> attempt.status == RiskChallengeStatus::Verified
                    && attempt.verified_at_epoch_millis == Some(now) && attempt.attempts_remaining
                    == row.attempts_remaining
                &&& !accepted ==> attempt.verified_at_epoch_millis is None
                    && attempt.attempts_remaining == row.attempts_remaining - 1
                &&& !accepted && row.attempts_remaining == 1 ==> attempt.status
                    == RiskChallengeStatus::Failed
                &&& !accepted && row.attempts_remaining > 1 ==> attempt.status
                    == RiskChallengeStatus::Issued
            }
        }),
{
}

/// A published check of a factor spends what was accepted, leaves the counted attempt in the
/// challenge that it answered, and answers whether the factor was accepted.
pub proof fn a_factor_check_is_published(
    database: &mut Database,
    challenge_id: &Option<String>,
    decision: FactorDecision,
    now: u64,
    written: &Result<(), PersistenceError>,
    result: Result<bool, StoreError>,
    other: Seq<char>,
)
    requires
        call_ensures(publish_factor, (database, challenge_id, decision, now, written), result),
    ensures
        *written is Err ==> result is Err && final(database)@ == old(database)@,
        *written is Ok ==> result is Ok && {
            let before = old(database)@;
            let after = final(database)@;
            &&& result->Ok_0 <==> decision.accepted is Some
            &&& decision.accepted is Some ==> proof_is_spent(
                before.mfa_factors,
                after.mfa_factors,
                before.recovery_codes,
                after.recovery_codes,
                decision.accepted->0@,
                now,
                other,
            )
            &&& decision.accepted is None ==> after.mfa_factors == before.mfa_factors
                && after.recovery_codes == before.recovery_codes
            &&& *challenge_id is Some && decision.attempt is Some
                && before.risk_challenges.contains_key(challenge_id->0@) ==> {
                let held = before.risk_challenges[challenge_id->0@];
                let counted = after.risk_challenges[challenge_id->0@];
                let attempt = decision.attempt->0;
                &&& counted.attempts_remaining == attempt.attempts_remaining
                &&& counted.status == attempt.status
                &&& attempt.verified_at_epoch_millis is Some ==> counted.verified_at_epoch_millis
                    == attempt.verified_at_epoch_millis
                &&& attempt.verified_at_epoch_millis is None ==> counted.verified_at_epoch_millis
                    == held.verified_at_epoch_millis
                &&& counted.account_id == held.account_id
                &&& counted.purpose == held.purpose
                &&& counted.expires_at_epoch_millis == held.expires_at_epoch_millis
                &&& counted.consumed_at_epoch_millis == held.consumed_at_epoch_millis
                &&& counted.operation_binding_hash == held.operation_binding_hash
            }
            &&& after.risk_challenges.contains_key(other) == before.risk_challenges.contains_key(
                other,
            )
            &&& before.risk_challenges.contains_key(other) && (*challenge_id is None
                || challenge_id->0@ != other || decision.attempt is None)
                ==> after.risk_challenges[other] == before.risk_challenges[other]
            &&& after.audit_logs == before.audit_logs
            &&& after.accounts == before.accounts
        },
{
}

/// A device is authorised for an account exactly if it is one of the account's and may act.
pub proof fn a_device_is_authorised_for_its_account(
    device: &Option<LockedDevice>,
    account_id: &str,
    authorized: bool,
)
    requires
        call_ensures(device_is_authorized, (device, account_id), authorized),
    ensures
        authorized <==> *device is Some && device->0.account_id@ == account_id@ && (
        device->0.status@ == "online"@ || device->0.status@ == "offline"@ || device->0.status@
            == "busy"@),
{
}

/// What an account must answer with: one of the two factors if it has any, else its password to
/// change the password, and else nothing that it has.
pub proof fn what_an_account_must_answer_with(
    purpose: &str,
    mfa_enabled: bool,
    methods: Option<Vec<String>>,
)
    requires
        call_ensures(required_methods_for, (purpose, mfa_enabled), methods),
    ensures
        mfa_enabled ==> methods is Some && texts(methods->0@) == seq!["totp"@, "recovery_code"@],
        !mfa_enabled && purpose@ == "password_change"@ ==> methods is Some && texts(methods->0@)
            == seq!["password"@],
        !mfa_enabled && purpose@ != "password_change"@ ==> methods is None,
{
}

/// A one-time code is accepted exactly if a factor was found and the code matched a counter, which
/// the factor then remembers.
pub proof fn a_matching_counter_is_remembered(
    factor: Option<Result<MfaFactor, String>>,
    counter: Option<u64>,
    result: Result<Option<MfaFactor>, StoreError>,
)
    requires
        call_ensures(check_totp, (factor, counter), result),
    ensures
        factor is Some && factor->0 is Err ==> result == Err::<Option<MfaFactor>, _>(
            StoreError::Unavailable,
        ),
        factor is None || factor->0 is Ok ==> result is Ok && (result->Ok_0 is Some <==> factor
            is Some && counter is Some),
        result is Ok && result->Ok_0 is Some ==> {
            let used = result->Ok_0->0@;
            let held = factor->0->Ok_0@;
            &&& used.last_used_counter == counter
            &&& used.factor_id == held.factor_id
            &&& used.account_id == held.account_id
            &&& used.secret_base32 == held.secret_base32
            &&& used.active == held.active
            &&& used.created_at_epoch_millis == held.created_at_epoch_millis
        },
{
}

/// A recovery code is found exactly if the account holds an active, unexpired code with its hash,
/// and only one; the code that is found is that one.
pub proof fn a_recovery_code_is_found_by_its_hash(
    rows: &Vec<LockedRecoveryCode>,
    account_id: &str,
    code: &str,
    now: u64,
    found: Result<Option<String>, String>,
    at: int,
)
    requires
        call_ensures(find_recovery_code, (rows, account_id, code, now), found),
        0 <= at < rows@.len(),
        rows@[at].account_id@ == account_id@,
        rows@[at].code_hash@ == sha256_digest(encode_utf8(code@)),
        rows@[at].status@ == "active"@,
        rows@[at].expires_at_epoch_millis is None || rows@[at].expires_at_epoch_millis->0 > now,
        forall|i: int, j: int|
            0 <= i < j < rows@.len() && (#[trigger] rows@[i]).account_id@ == account_id@ && (
            #[trigger] rows@[j]).account_id@ == account_id@ ==> rows@[i].code_hash@
                != rows@[j].code_hash@,
    ensures
        found is Ok,
        found->Ok_0 is Some,
        found->Ok_0->0@ == rows@[at].recovery_code_id@,
{
    assert(code_row_accepts(
        rows@[at],
        account_id@,
        sha256_digest(encode_utf8(code@)),
        now,
    ));
}

/// No recovery code is found that is not the account's, has another hash, is not active or has
/// expired.
pub proof fn no_other_recovery_code_is_found(
    rows: &Vec<LockedRecoveryCode>,
    account_id: &str,
    code: &str,
    now: u64,
    found: Result<Option<String>, String>,
)
    requires
        call_ensures(find_recovery_code, (rows, account_id, code, now), found),
        found is Ok,
        found->Ok_0 is Some,
    ensures
        exists|i: int|
            0 <= i < rows@.len() && (#[trigger] rows@[i]).recovery_code_id@ == found->Ok_0->0@
                && rows@[i].account_id@ == account_id@ && rows@[i].code_hash@ == sha256_digest(
                encode_utf8(code@),
            ) && rows@[i].status@ == "active"@ && (rows@[i].expires_at_epoch_millis is None
                || rows@[i].expires_at_epoch_millis->0 > now),
{
}

} // verus!
