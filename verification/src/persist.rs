use crate::account::{
    AccountSession, AccountSessionModel, MfaFactor, MfaFactorModel, RecoveryCode,
    RecoveryCodeDelivery,
};
use crate::audit::{AuditEntry, AuditEntryModel};
use crate::bytes::array_eq;
use crate::challenge::{RiskChallenge, RiskChallengeModel};
use crate::codec::{unsupported_value, validate_fixed_enum};
use crate::database::{append_log, change_keys, changed, changed_values, Database};
use crate::device::{
    Device, DeviceEnrollmentGrant, DeviceEnrollmentGrantModel, DeviceModel, TrustedControllerDevice,
    TrustedControllerDeviceModel,
};
use crate::names::{is_terminal_device_lifecycle_status, terminal_status};
use crate::rules::{
    delivery_problem, grant_problem, listed, validate_device_enrollment_grant,
    validate_recovery_code_delivery, ACCOUNT_SESSION_REVOKED_REASONS,
    MAX_CHALLENGE_ATTEMPTS, RISK_CHALLENGE_PURPOSES, RISK_LEVELS, TRUST_LEVELS, TRUST_PROOF_TYPES,
};
use crate::session::{SessionEvent, SessionEventModel};
use crate::table::{
    among_first, lemma_picked_step, models, opt_model, picked, strictly_sorted, Record, Table,
};
use crate::text::{joined, text_eq};
use vstd::prelude::*;

verus! {

/// Refuses a change of the contexts of login challenges, which have an operation of their own.
pub fn check_login_contexts(before: &Database, after: &Database) -> (result: Result<(), String>)
    ensures
        result is Ok <==> before@.login_challenge_contexts == after@.login_challenge_contexts,
        result is Err ==> result->Err_0@
            == "login challenge contexts require the specialized repository API"@,
{
    if before.login_challenge_contexts.same(&after.login_challenge_contexts) {
        Ok(())
    } else {
        Err("login challenge contexts require the specialized repository API".to_owned())
    }
}

/// What is wrong with an account session that is to be stored.
pub open spec fn session_write_problem(id: Seq<char>, session: AccountSessionModel) -> Option<
    Seq<char>,
> {
    if session.revoked_at_epoch_millis is Some != session.revoked_reason is Some {
        Some("account_sessions revoked timestamp and reason differ for "@ + id)
    } else if session.revoked_reason is Some && !listed(
        ACCOUNT_SESSION_REVOKED_REASONS@,
        session.revoked_reason->0,
    ) {
        Some(unsupported_value("account_sessions.revoked_reason"@, session.revoked_reason->0))
    } else {
        None
    }
}

/// Checks an account session that is to be stored: a revocation has both a time and a listed
/// reason.
pub fn check_account_session(id: &str, session: &AccountSession) -> (result: Result<(), String>)
    ensures
        result is Ok <==> session_write_problem(id@, session@) is None,
        result is Err ==> Some(result->Err_0@) == session_write_problem(id@, session@),
{
    if session.revoked_at_epoch_millis.is_some() != session.revoked_reason.is_some() {
        return Err(joined("account_sessions revoked timestamp and reason differ for ", id));
    }
    match &session.revoked_reason {
        Some(reason) => validate_fixed_enum(
            reason.as_str(),
            "account_sessions.revoked_reason",
            ACCOUNT_SESSION_REVOKED_REASONS.as_slice(),
        ),
        None => Ok(()),
    }
}

/// Whether a device has the key that it had before.
pub open spec fn same_key(previous: DeviceModel, device: DeviceModel) -> bool {
    &&& previous.public_key_id == device.public_key_id
    &&& previous.public_key == device.public_key
    &&& previous.public_key_version == device.public_key_version
    &&& previous.public_key_revoked_at_epoch_millis == device.public_key_revoked_at_epoch_millis
}

/// What is wrong with a device that is to be stored in place of an earlier state of it.
pub open spec fn device_write_problem(
    id: Seq<char>,
    previous: Option<DeviceModel>,
    device: DeviceModel,
) -> Option<Seq<char>> {
    if previous is Some && !same_key(previous->0, device) {
        Some("devices refused public key mutation outside the rotation transaction for "@ + id)
    } else if previous is Some && terminal_status(previous->0.status) && !terminal_status(
        device.status,
    ) {
        Some("devices refused terminal status reactivation for "@ + id)
    } else if device.public_key_version > i32::MAX {
        Some("device public_key_version exceeds PostgreSQL INTEGER"@)
    } else {
        None
    }
}

fn opt_time_eq(a: Option<u64>, b: Option<u64>) -> (same: bool)
    ensures
        same == (a == b),
{
    match (a, b) {
        (Some(x), Some(y)) => x == y,
        (None, None) => true,
        _ => false,
    }
}

/// Checks a device that is to be stored in place of an earlier state of it, and gives the stored
/// version of its key. Keys change only by rotation, and a terminal status is not left here.
pub fn check_device(id: &str, previous: Option<&Device>, device: &Device) -> (result: Result<
    i32,
    String,
>)
    ensures
        ({
            let before = match previous {
                Some(found) => Some(found@),
                None => None,
            };
            &&& result is Ok <==> device_write_problem(id@, before, device@) is None
            &&& result is Ok ==> result->Ok_0 == device@.public_key_version
            &&& result is Err ==> Some(result->Err_0@) == device_write_problem(
                id@,
                before,
                device@,
            )
        }),
{
    if let Some(previous) = previous {
        if !text_eq(previous.public_key_id.as_str(), device.public_key_id.as_str()) || !array_eq(
            &previous.public_key,
            &device.public_key,
        ) || previous.public_key_version != device.public_key_version || !opt_time_eq(
            previous.public_key_revoked_at_epoch_millis,
            device.public_key_revoked_at_epoch_millis,
        ) {
            return Err(
                joined(
                    "devices refused public key mutation outside the rotation transaction for ",
                    id,
                ),
            );
        }
        if is_terminal_device_lifecycle_status(previous.status)
            && !is_terminal_device_lifecycle_status(device.status) {
            return Err(joined("devices refused terminal status reactivation for ", id));
        }
    }
    if device.public_key_version > i32::MAX as u32 {
        return Err("device public_key_version exceeds PostgreSQL INTEGER".to_owned());
    }
    Ok(device.public_key_version as i32)
}

/// A device that was stored in a terminal status stays in one, whatever is stored after it in this
/// way, and keeps its key.
pub proof fn stored_devices_stay_blocked(
    id: Seq<char>,
    previous: DeviceModel,
    device: DeviceModel,
)
    requires
        device_write_problem(id, Some(previous), device) is None,
    ensures
        terminal_status(previous.status) ==> terminal_status(device.status),
        same_key(previous, device),
{
}

/// Whether a factor that was active is active no more.
pub open spec fn factor_ended(
    before: Map<Seq<char>, MfaFactorModel>,
    after: Map<Seq<char>, MfaFactorModel>,
    id: Seq<char>,
) -> bool {
    before.contains_key(id) && before[id].active && !(after.contains_key(id) && after[id].active)
}

/// The texts of references to texts, in order.
pub open spec fn text_views(values: Seq<&String>) -> Seq<Seq<char>> {
    values.map_values(|text: &String| text@)
}

/// The factors that were active and are active no more, in the order of their names.
pub fn factors_to_disable<'a>(before: &'a Table<MfaFactor>, after: &Table<MfaFactor>) -> (ids: Vec<
    &'a String,
>)
    ensures
        strictly_sorted(text_views(ids@)),
        forall|id: Seq<char>|
            #[trigger] text_views(ids@).contains(id) <==> factor_ended(before@, after@, id),
{
    let mut ids: Vec<&'a String> = Vec::new();
    let ghost wanted = |id: Seq<char>| factor_ended(before@, after@, id);
    let len: usize = before.len();
    let mut i: usize = 0;
    while i < len
        invariant
            i <= len,
            len == before.keys().len(),
            before.consistent(),
            wanted == |id: Seq<char>| factor_ended(before@, after@, id),
            picked(text_views(ids@), before.keys(), i as int, wanted),
        decreases len - i,
    {
        let id = before.key_at(i);
        let previous = before.row_at(i);
        let still_active = match after.get(id.as_str()) {
            Some(factor) => factor.active,
            None => false,
        };
        let ghost at = before.keys()[i as int];
        let ghost held = text_views(ids@);
        assert(before@.contains_key(at) && before@[at] == previous@);
        proof {
            lemma_picked_step(held, before.keys(), i as int, wanted);
        }
        if previous.active && !still_active {
            ids.push(id);
            assert(text_views(ids@) =~= held.push(at));
        }
        i = i + 1;
    }
    proof {
        before.lemma_all_keys();
    }
    ids
}

/// Whether a factor is new or changed, and active.
pub open spec fn factor_stored(
    before: Map<Seq<char>, MfaFactorModel>,
    after: Map<Seq<char>, MfaFactorModel>,
    id: Seq<char>,
) -> bool {
    changed(before, after, id) && after[id].active
}

/// The factors that are sealed and stored: the active ones among those that are new or changed, in
/// the order of their names.
pub fn factors_to_store<'a>(before: &'a Table<MfaFactor>, after: &'a Table<MfaFactor>) -> (factors:
    Vec<(&'a String, &'a MfaFactor)>)
    ensures
        strictly_sorted(change_keys(factors@)),
        forall|id: Seq<char>|
            #[trigger] change_keys(factors@).contains(id) <==> factor_stored(before@, after@, id),
        forall|i: int|
            0 <= i < factors@.len() ==> after@[(#[trigger] factors@[i]).0@] == factors@[i].1@,
{
    let changes = changed_values(before, after);
    let ghost keys = change_keys(changes@);
    let ghost wanted = |id: Seq<char>| after@[id].active;
    let mut factors: Vec<(&'a String, &'a MfaFactor)> = Vec::new();
    let mut i: usize = 0;
    while i < changes.len()
        invariant
            i <= changes.len(),
            keys == change_keys(changes@),
            strictly_sorted(keys),
            wanted == |id: Seq<char>| after@[id].active,
            forall|k: int|
                0 <= k < changes@.len() ==> after@[(#[trigger] changes@[k]).0@]
                    == changes@[k].1@,
            picked(change_keys(factors@), keys, i as int, wanted),
            forall|k: int|
                0 <= k < factors@.len() ==> after@[(#[trigger] factors@[k]).0@]
                    == factors@[k].1@,
        decreases changes.len() - i,
    {
        let (id, factor) = changes[i];
        let ghost held = change_keys(factors@);
        assert(keys[i as int] == id@);
        assert(after@[changes@[i as int].0@] == factor@);
        proof {
            lemma_picked_step(held, keys, i as int, wanted);
        }
        if factor.active {
            factors.push((id, factor));
            assert(change_keys(factors@) =~= held.push(id@));
        }
        i = i + 1;
    }
    assert forall|id: Seq<char>|
        #[trigger] change_keys(factors@).contains(id) <==> factor_stored(before@, after@, id) by {
        if keys.contains(id) {
            let k = keys.index_of(id);
            assert(keys[k] == id);
        }
        if among_first(keys, keys.len() as int, id) {
            let k = choose|k: int| 0 <= k < keys.len() && #[trigger] keys[k] == id;
            assert(keys.contains(keys[k]));
        }
    }
    factors
}

/// The recovery codes that were held and are held no more, in the order of their names.
pub fn codes_to_revoke<'a>(before: &'a Table<RecoveryCode>, after: &Table<RecoveryCode>) -> (ids:
    Vec<&'a String>)
    ensures
        strictly_sorted(text_views(ids@)),
        forall|id: Seq<char>|
            #[trigger] text_views(ids@).contains(id) <==> before@.contains_key(id)
                && !after@.contains_key(id),
{
    let mut ids: Vec<&'a String> = Vec::new();
    let ghost wanted = |id: Seq<char>| !after@.contains_key(id);
    let len: usize = before.len();
    let mut i: usize = 0;
    while i < len
        invariant
            i <= len,
            len == before.keys().len(),
            before.consistent(),
            wanted == |id: Seq<char>| !after@.contains_key(id),
            picked(text_views(ids@), before.keys(), i as int, wanted),
        decreases len - i,
    {
        let id = before.key_at(i);
        let ghost held = text_views(ids@);
        proof {
            lemma_picked_step(held, before.keys(), i as int, wanted);
        }
        if !after.contains_key(id.as_str()) {
            ids.push(id);
            assert(text_views(ids@) =~= held.push(before.keys()[i as int]));
        }
        i = i + 1;
    }
    proof {
        before.lemma_all_keys();
    }
    ids
}

/// The stored status of a recovery code.
pub fn recovery_code_status(code: &RecoveryCode) -> (status: &'static str)
    ensures
        status@ == if code@.used_at_epoch_millis is Some {
            "used"@
        } else {
            "active"@
        },
{
    if code.used_at_epoch_millis.is_some() {
        "used"
    } else {
        "active"
    }
}

/// Checks a delivery of recovery codes that is to be stored, and gives the stored number of codes.
pub fn check_delivery(delivery: &RecoveryCodeDelivery, binding_valid: bool) -> (result: Result<
    i16,
    String,
>)
    ensures
        result is Ok <==> delivery_problem(delivery@, binding_valid) is None
            && delivery@.recovery_code_count <= i16::MAX,
        result is Ok ==> result->Ok_0 == delivery@.recovery_code_count,
        result is Err ==> Some(result->Err_0@) == if delivery_problem(
            delivery@,
            binding_valid,
        ) is Some {
            delivery_problem(delivery@, binding_valid)
        } else {
            Some("mfa_recovery_code_deliveries.recovery_code_count exceeds SMALLINT"@)
        },
{
    validate_recovery_code_delivery(delivery, binding_valid)?;
    if delivery.recovery_code_count > i16::MAX as u16 {
        return Err("mfa_recovery_code_deliveries.recovery_code_count exceeds SMALLINT".to_owned());
    }
    Ok(delivery.recovery_code_count as i16)
}

/// Whether a challenge differs from an earlier state of it only in how far it has come.
pub open spec fn only_progressed(
    previous: RiskChallengeModel,
    challenge: RiskChallengeModel,
) -> bool {
    challenge == (RiskChallengeModel {
        status: challenge.status,
        attempts_remaining: challenge.attempts_remaining,
        verified_at_epoch_millis: challenge.verified_at_epoch_millis,
        consumed_at_epoch_millis: challenge.consumed_at_epoch_millis,
        ..previous
    })
}

/// How a challenge is stored.
#[derive(Debug, Clone, Copy, PartialEq, Eq, Structural)]
pub enum ChallengeWrite {
    /// A login challenge: its progress, where it is still as it was before.
    LoginProgress,
    /// Any other challenge: new, or with its progress.
    Whole,
}

/// What is wrong with a challenge that is to be stored in place of an earlier state of it.
pub open spec fn challenge_write_problem(
    id: Seq<char>,
    previous: Option<RiskChallengeModel>,
    challenge: RiskChallengeModel,
) -> Option<Seq<char>> {
    if challenge.purpose == "login_mfa"@ {
        if previous is None {
            Some(
                "login challenge "@ + id
                    + " must be created through the specialized repository API"@,
            )
        } else if !only_progressed(previous->0, challenge) {
            Some("login challenge "@ + id + " immutable authority fields changed"@)
        } else {
            None
        }
    } else if !listed(RISK_CHALLENGE_PURPOSES@, challenge.purpose) {
        Some(unsupported_value("account_risk_challenges.purpose"@, challenge.purpose))
    } else if !listed(RISK_LEVELS@, challenge.risk_level) {
        Some(unsupported_value("account_risk_challenges.risk_level"@, challenge.risk_level))
    } else if challenge.attempts_remaining > MAX_CHALLENGE_ATTEMPTS {
        Some("account_risk_challenges.attempts_remaining exceeds 5"@)
    } else {
        None
    }
}

/// How a changed challenge is stored: of a login challenge only its progress.
pub open spec fn challenge_write(challenge: RiskChallengeModel) -> ChallengeWrite {
    if challenge.purpose == "login_mfa"@ {
        ChallengeWrite::LoginProgress
    } else {
        ChallengeWrite::Whole
    }
}

/// Checks a challenge that is to be stored in place of an earlier state of it, and says how it is
/// stored. Of a login challenge only the progress is.
pub fn check_challenge(
    id: &str,
    previous: Option<&RiskChallenge>,
    challenge: &RiskChallenge,
) -> (result: Result<ChallengeWrite, String>)
    ensures
        ({
            let before = match previous {
                Some(found) => Some(found@),
                None => None,
            };
            &&& result is Ok <==> challenge_write_problem(id@, before, challenge@) is None
            &&& result is Ok ==> result->Ok_0 == challenge_write(challenge@)
            &&& result is Err ==> Some(result->Err_0@) == challenge_write_problem(
                id@,
                before,
                challenge@,
            )
        }),
{
    if text_eq(challenge.purpose.as_str(), "login_mfa") {
        let named = joined("login challenge ", id);
        let previous = match previous {
            Some(previous) => previous,
            None => {
                return Err(
                    joined(
                        named.as_str(),
                        " must be created through the specialized repository API",
                    ),
                );
            },
        };
        let mut expected = previous.duplicate();
        expected.status = challenge.status;
        expected.attempts_remaining = challenge.attempts_remaining;
        expected.verified_at_epoch_millis = challenge.verified_at_epoch_millis;
        expected.consumed_at_epoch_millis = challenge.consumed_at_epoch_millis;
        if !expected.same(challenge) {
            return Err(joined(named.as_str(), " immutable authority fields changed"));
        }
        return Ok(ChallengeWrite::LoginProgress);
    }
    validate_fixed_enum(
        challenge.purpose.as_str(),
        "account_risk_challenges.purpose",
        RISK_CHALLENGE_PURPOSES.as_slice(),
    )?;
    validate_fixed_enum(
        challenge.risk_level.as_str(),
        "account_risk_challenges.risk_level",
        RISK_LEVELS.as_slice(),
    )?;
    if challenge.attempts_remaining > MAX_CHALLENGE_ATTEMPTS {
        return Err("account_risk_challenges.attempts_remaining exceeds 5".to_owned());
    }
    Ok(ChallengeWrite::Whole)
}

/// What is wrong with a trusted device that is to be stored, new or changed.
pub open spec fn trust_write_problem(trusted: TrustedControllerDeviceModel) -> Option<Seq<char>> {
    if !listed(TRUST_LEVELS@, trusted.trust_level) {
        Some(unsupported_value("trusted_controller_devices.trust_level"@, trusted.trust_level))
    } else if !listed(TRUST_PROOF_TYPES@, trusted.trust_proof_type) {
        Some(
            unsupported_value(
                "trusted_controller_devices.trust_proof_type"@,
                trusted.trust_proof_type,
            ),
        )
    } else {
        None
    }
}

/// Checks a trusted device that is to be stored, new or changed.
pub fn check_trusted_device(trusted: &TrustedControllerDevice) -> (result: Result<(), String>)
    ensures
        result is Ok <==> trust_write_problem(trusted@) is None,
        result is Err ==> Some(result->Err_0@) == trust_write_problem(trusted@),
{
    validate_fixed_enum(
        trusted.trust_level.as_str(),
        "trusted_controller_devices.trust_level",
        TRUST_LEVELS.as_slice(),
    )?;
    validate_fixed_enum(
        trusted.trust_proof_type.as_str(),
        "trusted_controller_devices.trust_proof_type",
        TRUST_PROOF_TYPES.as_slice(),
    )
}

/// The keys of the changed rows of a table, in the order in which they are stored.
pub open spec fn changes_in_order<T>(
    keys: Seq<Seq<char>>,
    before: Map<Seq<char>, T>,
    after: Map<Seq<char>, T>,
) -> bool {
    &&& strictly_sorted(keys)
    &&& forall|key: Seq<char>| #[trigger] keys.contains(key) <==> changed(before, after, key)
}

/// The first problem that the rows under a list of keys have.
pub open spec fn first_problem(
    keys: Seq<Seq<char>>,
    problem: spec_fn(Seq<char>) -> Option<Seq<char>>,
    from: int,
) -> Option<Seq<char>>
    decreases keys.len() - from,
{
    if from < 0 || from >= keys.len() {
        None
    } else if problem(keys[from]) is Some {
        problem(keys[from])
    } else {
        first_problem(keys, problem, from + 1)
    }
}

/// The row under a key, if there is one.
pub open spec fn row_under<T>(table: Map<Seq<char>, T>, key: Seq<char>) -> Option<T> {
    if table.contains_key(key) {
        Some(table[key])
    } else {
        None
    }
}

/// The model of a row that may be there.
pub open spec fn held_model<V: View>(row: Option<&V>) -> Option<V::V> {
    match row {
        Some(found) => Some(found@),
        None => None,
    }
}

/// A row that is checked before it is stored in place of an earlier state of it.
pub trait Stored: Record {
    /// What the check gives for the storing.
    type Form;

    /// Why a row may not be stored, if it may not.
    spec fn write_problem(
        id: Seq<char>,
        previous: Option<Self::V>,
        row: Self::V,
    ) -> Option<Seq<char>>;

    /// Whether this is what the check of a row gives.
    spec fn form_fits(row: Self::V, form: Self::Form) -> bool;

    /// Checks a row that is to be stored.
    fn check(id: &str, previous: Option<&Self>, row: &Self) -> (result: Result<Self::Form, String>)
        ensures
            result is Ok <==> Self::write_problem(id@, held_model(previous), row@) is None,
            result is Ok ==> Self::form_fits(row@, result->Ok_0),
            result is Err ==> Some(result->Err_0@) == Self::write_problem(
                id@,
                held_model(previous),
                row@,
            ),
    ;
}

impl Stored for AccountSession {
    type Form = ();

    open spec fn write_problem(
        id: Seq<char>,
        previous: Option<AccountSessionModel>,
        row: AccountSessionModel,
    ) -> Option<Seq<char>> {
        session_write_problem(id, row)
    }

    open spec fn form_fits(row: AccountSessionModel, form: ()) -> bool {
        true
    }

    fn check(id: &str, previous: Option<&Self>, row: &Self) -> (result: Result<(), String>) {
        check_account_session(id, row)
    }
}

/// The form of a device is the stored version of its key.
impl Stored for Device {
    type Form = i32;

    open spec fn write_problem(
        id: Seq<char>,
        previous: Option<DeviceModel>,
        row: DeviceModel,
    ) -> Option<Seq<char>> {
        device_write_problem(id, previous, row)
    }

    open spec fn form_fits(row: DeviceModel, form: i32) -> bool {
        form == row.public_key_version
    }

    fn check(id: &str, previous: Option<&Self>, row: &Self) -> (result: Result<i32, String>) {
        check_device(id, previous, row)
    }
}

impl Stored for RiskChallenge {
    type Form = ChallengeWrite;

    open spec fn write_problem(
        id: Seq<char>,
        previous: Option<RiskChallengeModel>,
        row: RiskChallengeModel,
    ) -> Option<Seq<char>> {
        challenge_write_problem(id, previous, row)
    }

    open spec fn form_fits(row: RiskChallengeModel, form: ChallengeWrite) -> bool {
        form == challenge_write(row)
    }

    fn check(id: &str, previous: Option<&Self>, row: &Self) -> (result: Result<
        ChallengeWrite,
        String,
    >) {
        check_challenge(id, previous, row)
    }
}

impl Stored for TrustedControllerDevice {
    type Form = ();

    open spec fn write_problem(
        id: Seq<char>,
        previous: Option<TrustedControllerDeviceModel>,
        row: TrustedControllerDeviceModel,
    ) -> Option<Seq<char>> {
        trust_write_problem(row)
    }

    open spec fn form_fits(row: TrustedControllerDeviceModel, form: ()) -> bool {
        true
    }

    fn check(id: &str, previous: Option<&Self>, row: &Self) -> (result: Result<(), String>) {
        check_trusted_device(row)
    }
}

impl Stored for DeviceEnrollmentGrant {
    type Form = ();

    open spec fn write_problem(
        id: Seq<char>,
        previous: Option<DeviceEnrollmentGrantModel>,
        row: DeviceEnrollmentGrantModel,
    ) -> Option<Seq<char>> {
        grant_problem(row)
    }

    open spec fn form_fits(row: DeviceEnrollmentGrantModel, form: ()) -> bool {
        true
    }

    fn check(id: &str, previous: Option<&Self>, row: &Self) -> (result: Result<(), String>) {
        validate_device_enrollment_grant(row)
    }
}

/// A row that is to be stored, what it was before, and what its check gave.
pub struct RowWrite<V: Stored> {
    pub id: String,
    pub row: V,
    pub previous: Option<V>,
    pub form: V::Form,
}

/// Why each row of a table may not be stored, if it may not.
pub open spec fn write_problems<V: Stored>(
    before: Map<Seq<char>, V::V>,
    after: Map<Seq<char>, V::V>,
) -> spec_fn(Seq<char>) -> Option<Seq<char>> {
    |key: Seq<char>| V::write_problem(key, row_under(before, key), after[key])
}

/// Whether a planned write is that of the row under a key.
pub open spec fn write_fits<V: Stored>(
    before: Map<Seq<char>, V::V>,
    after: Map<Seq<char>, V::V>,
    key: Seq<char>,
    write: RowWrite<V>,
) -> bool {
    &&& write.id@ == key
    &&& write.row@ == after[key]
    &&& opt_model(write.previous) == row_under(before, key)
    &&& V::form_fits(after[key], write.form)
}

/// Plans how the changed rows of a table are stored, in the order of their names: all of them, or
/// none where one may not be.
pub fn plan_changes<V: Stored>(before: &Table<V>, after: &Table<V>) -> (result: Result<
    Vec<RowWrite<V>>,
    String,
>)
    ensures
        exists|keys: Seq<Seq<char>>| #[trigger]
            changes_in_order(keys, before@, after@) && match result {
                Ok(writes) => first_problem(keys, write_problems::<V>(before@, after@), 0) is None
                    && writes@.len() == keys.len() && forall|i: int|
                    0 <= i < keys.len() ==> write_fits(
                        before@,
                        after@,
                        keys[i],
                        #[trigger] writes@[i],
                    ),
                Err(reason) => first_problem(keys, write_problems::<V>(before@, after@), 0) == Some(
                    reason@,
                ),
            },
{
    let changes = changed_values(before, after);
    let ghost keys = change_keys(changes@);
    let ghost problem = write_problems::<V>(before@, after@);
    let mut writes: Vec<RowWrite<V>> = Vec::new();
    let mut i: usize = 0;
    while i < changes.len()
        invariant
            i <= changes.len(),
            keys == change_keys(changes@),
            problem == write_problems::<V>(before@, after@),
            changes_in_order(keys, before@, after@),
            forall|k: int|
                0 <= k < changes@.len() ==> after@[(#[trigger] changes@[k]).0@]
                    == changes@[k].1@,
            first_problem(keys, problem, 0) == first_problem(keys, problem, i as int),
            writes@.len() == i,
            forall|k: int|
                0 <= k < i ==> write_fits(before@, after@, keys[k], #[trigger] writes@[k]),
        decreases changes.len() - i,
    {
        let (id, row) = changes[i];
        assert(keys[i as int] == id@);
        assert(after@[changes@[i as int].0@] == row@);
        let held = before.get(id.as_str());
        let form = V::check(id.as_str(), held, row)?;
        let previous: Option<V> = match held {
            Some(held) => Some(held.duplicate()),
            None => None,
        };
        writes.push(RowWrite { id: id.clone(), row: row.duplicate(), previous, form });
        i = i + 1;
    }
    Ok(writes)
}

/// The names of the events of a list.
pub open spec fn event_ids(events: Seq<SessionEvent>) -> Seq<Seq<char>> {
    events.map_values(|event: SessionEvent| event@.event_id)
}

/// The names of the entries of a list.
pub open spec fn audit_ids(entries: Seq<AuditEntry>) -> Seq<Seq<char>> {
    entries.map_values(|entry: AuditEntry| entry@.audit_id)
}

/// The events of a list whose names another list does not hold, in order.
pub open spec fn new_events(
    known: Seq<Seq<char>>,
    events: Seq<SessionEventModel>,
) -> Seq<SessionEventModel>
    decreases events.len(),
{
    if events.len() == 0 {
        Seq::empty()
    } else if known.contains(events.last().event_id) {
        new_events(known, events.drop_last())
    } else {
        new_events(known, events.drop_last()).push(events.last())
    }
}

/// The entries of a list whose names another list does not hold, in order.
pub open spec fn new_entries(
    known: Seq<Seq<char>>,
    entries: Seq<AuditEntryModel>,
) -> Seq<AuditEntryModel>
    decreases entries.len(),
{
    if entries.len() == 0 {
        Seq::empty()
    } else if known.contains(entries.last().audit_id) {
        new_entries(known, entries.drop_last())
    } else {
        new_entries(known, entries.drop_last()).push(entries.last())
    }
}

fn event_known(events: &Vec<SessionEvent>, id: &str) -> (known: bool)
    ensures
        known == event_ids(events@).contains(id@),
{
    let mut i: usize = 0;
    while i < events.len()
        invariant
            i <= events.len(),
            forall|k: int| 0 <= k < i ==> event_ids(events@)[k] != id@,
        decreases events.len() - i,
    {
        if text_eq(events[i].event_id.as_str(), id) {
            assert(event_ids(events@)[i as int] == id@);
            return true;
        }
        i = i + 1;
    }
    false
}

fn entry_known(entries: &Vec<AuditEntry>, id: &str) -> (known: bool)
    ensures
        known == audit_ids(entries@).contains(id@),
{
    let mut i: usize = 0;
    while i < entries.len()
        invariant
            i <= entries.len(),
            forall|k: int| 0 <= k < i ==> audit_ids(entries@)[k] != id@,
        decreases entries.len() - i,
    {
        if text_eq(entries[i].audit_id.as_str(), id) {
            assert(audit_ids(entries@)[i as int] == id@);
            return true;
        }
        i = i + 1;
    }
    false
}

/// The session events of a later state whose names an earlier state does not hold, in order.
pub fn new_session_events(before: &Vec<SessionEvent>, after: &Vec<SessionEvent>) -> (events: Vec<
    SessionEvent,
>)
    ensures
        models(events@) == new_events(event_ids(before@), models(after@)),
{
    let mut events: Vec<SessionEvent> = Vec::new();
    let ghost known = event_ids(before@);
    let ghost all = models(after@);
    let mut i: usize = 0;
    assert(models(events@) =~= new_events(known, all.take(0)));
    while i < after.len()
        invariant
            i <= after.len(),
            known == event_ids(before@),
            all == models(after@),
            models(events@) == new_events(known, all.take(i as int)),
        decreases after.len() - i,
    {
        proof {
            assert(all.take(i as int + 1).drop_last() =~= all.take(i as int));
            assert(all.take(i as int + 1).last() == after@[i as int]@);
        }
        if !event_known(before, after[i].event_id.as_str()) {
            append_log(&mut events, after[i].duplicate());
        }
        i = i + 1;
    }
    assert(all.take(i as int) =~= all);
    events
}

/// The audit entries of a later state whose names an earlier state does not hold, in order.
pub fn new_audit_entries(before: &Vec<AuditEntry>, after: &Vec<AuditEntry>) -> (entries: Vec<
    AuditEntry,
>)
    ensures
        models(entries@) == new_entries(audit_ids(before@), models(after@)),
{
    let mut entries: Vec<AuditEntry> = Vec::new();
    let ghost known = audit_ids(before@);
    let ghost all = models(after@);
    let mut i: usize = 0;
    assert(models(entries@) =~= new_entries(known, all.take(0)));
    while i < after.len()
        invariant
            i <= after.len(),
            known == audit_ids(before@),
            all == models(after@),
            models(entries@) == new_entries(known, all.take(i as int)),
        decreases after.len() - i,
    {
        proof {
            assert(all.take(i as int + 1).drop_last() =~= all.take(i as int));
            assert(all.take(i as int + 1).last() == after@[i as int]@);
        }
        if !entry_known(before, after[i].audit_id.as_str()) {
            append_log(&mut entries, after[i].duplicate());
        }
        i = i + 1;
    }
    assert(all.take(i as int) =~= all);
    entries
}

/// A log of audit entries that only grew by entries with new names is stored by writing exactly
/// those.
pub proof fn a_grown_log_stores_what_was_added(
    before: Seq<AuditEntryModel>,
    added: Seq<AuditEntryModel>,
)
    requires
        forall|i: int|
            0 <= i < added.len() ==> !before.map_values(
                |entry: AuditEntryModel| entry.audit_id,
            ).contains((#[trigger] added[i]).audit_id),
    ensures
        new_entries(
            before.map_values(|entry: AuditEntryModel| entry.audit_id),
            before + added,
        ) == added,
    decreases added.len(),
{
    let known = before.map_values(|entry: AuditEntryModel| entry.audit_id);
    if added.len() == 0 {
        assert(before + added =~= before);
        lemma_old_entries_are_not_new(before, before.len() as int);
        assert(before.take(before.len() as int) =~= before);
        assert(added =~= Seq::empty());
    } else {
        let shorter = added.drop_last();
        assert forall|i: int| 0 <= i < shorter.len() implies !known.contains(
            (#[trigger] shorter[i]).audit_id,
        ) by {
            assert(shorter[i] == added[i]);
        }
        a_grown_log_stores_what_was_added(before, shorter);
        assert((before + added).drop_last() =~= before + shorter);
        assert((before + added).last() == added.last());
        assert(!known.contains(added[added.len() - 1].audit_id));
        assert(shorter.push(added.last()) =~= added);
    }
}

proof fn lemma_old_entries_are_not_new(before: Seq<AuditEntryModel>, count: int)
    requires
        0 <= count <= before.len(),
    ensures
        new_entries(
            before.map_values(|entry: AuditEntryModel| entry.audit_id),
            before.take(count),
        ) == Seq::<AuditEntryModel>::empty(),
    decreases count,
{
    if count > 0 {
        let known = before.map_values(|entry: AuditEntryModel| entry.audit_id);
        lemma_old_entries_are_not_new(before, count - 1);
        assert(before.take(count).drop_last() =~= before.take(count - 1));
        assert(before.take(count).last() == before[count - 1]);
        assert(known[count - 1] == before[count - 1].audit_id);
    }
}

} // verus!
