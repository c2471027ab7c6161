use crate::account::{MfaFactor, MfaFactorModel, RecoveryCodeModel};
use crate::bytes::bytes_eq;
use crate::database::{Database, DatabaseModel};
use crate::device::{TrustedControllerDevice, TrustedControllerDeviceModel};
use crate::hash::{sha256, sha256_digest};
use crate::store::StoreError;
use crate::table::{opt_model, Record};
use crate::text::text_eq;
use vstd::prelude::*;
use vstd::utf8::encode_utf8;

verus! {

/// A TOTP factor after a code was accepted at a time step.
pub open spec fn used_factor(factor: MfaFactorModel, counter: u64) -> MfaFactorModel {
    MfaFactorModel { last_used_counter: Some(counter), ..factor }
}

/// Whether a TOTP code is accepted, given the account's active factor and the time step at which
/// the code was accepted: a factor that cannot be read fails, and without a factor or a time step
/// nothing is accepted.
pub fn check_totp(factor: Option<Result<MfaFactor, String>>, counter: Option<u64>) -> (result:
    Result<Option<MfaFactor>, StoreError>)
    ensures
        result is Err <==> factor is Some && factor->0 is Err,
        result is Err ==> result->Err_0 == StoreError::Unavailable,
        result is Ok ==> opt_model(result->Ok_0) == if factor is Some && counter is Some {
            Some(used_factor(factor->0->Ok_0@, counter->0))
        } else {
            None
        },
{
    match (factor, counter) {
        (Some(Err(_)), _) => Err(StoreError::Unavailable),
        (Some(Ok(factor)), Some(counter)) => {
            let mut used = factor;
            used.last_used_counter = Some(counter);
            Ok(Some(used))
        },
        _ => Ok(None),
    }
}

/// The digest under which a recovery code is stored.
pub fn recovery_code_hash(code: &str) -> (hash: [u8; 32])
    ensures
        hash@ == sha256_digest(encode_utf8(code@)),
{
    sha256(code.as_bytes())
}

/// The locked row of a recovery code.
#[derive(Debug, PartialEq, Eq)]
pub struct LockedRecoveryCode {
    pub recovery_code_id: String,
    pub account_id: String,
    pub code_hash: Vec<u8>,
    pub status: String,
    pub expires_at_epoch_millis: Option<i64>,
}

/// Whether the row of a recovery code accepts a code: it is the code of the account with that
/// digest, active and in time.
pub open spec fn code_row_accepts(
    row: LockedRecoveryCode,
    account_id: Seq<char>,
    code_hash: Seq<u8>,
    now: u64,
) -> bool {
    &&& row.account_id@ == account_id
    &&& row.code_hash@ == code_hash
    &&& row.status@ == "active"@
    &&& row.expires_at_epoch_millis is None || row.expires_at_epoch_millis->0 > now
}

/// What a search for a recovery code finds: none, the one that accepts the code, or that more than
/// one does.
pub open spec fn recovery_code_found(
    rows: Seq<LockedRecoveryCode>,
    account_id: Seq<char>,
    code_hash: Seq<u8>,
    now: u64,
    found: Result<Option<String>, String>,
) -> bool {
    match found {
        Ok(None) => forall|i: int|
            0 <= i < rows.len() ==> !code_row_accepts(
                #[trigger] rows[i],
                account_id,
                code_hash,
                now,
            ),
        Ok(Some(id)) => exists|i: int|
            0 <= i < rows.len() && code_row_accepts(
                #[trigger] rows[i],
                account_id,
                code_hash,
                now,
            ) && rows[i].recovery_code_id@ == id@ && forall|j: int|
                0 <= j < rows.len() && j != i ==> !code_row_accepts(
                    #[trigger] rows[j],
                    account_id,
                    code_hash,
                    now,
                ),
        Err(_) => exists|i: int, j: int|
            0 <= i < j < rows.len() && code_row_accepts(
                #[trigger] rows[i],
                account_id,
                code_hash,
                now,
            ) && code_row_accepts(#[trigger] rows[j], account_id, code_hash, now),
    }
}

/// Searches the locked rows of recovery codes for the one that accepts a code.
pub fn find_recovery_code(
    rows: &Vec<LockedRecoveryCode>,
    account_id: &str,
    code: &str,
    now: u64,
) -> (found: Result<Option<String>, String>)
    ensures
        recovery_code_found(
            rows@,
            account_id@,
            sha256_digest(encode_utf8(code@)),
            now,
            found,
        ),
{
    let code_hash = recovery_code_hash(code);
    let mut held: Option<usize> = None;
    let mut i: usize = 0;
    while i < rows.len()
        invariant
            i <= rows.len(),
            code_hash@ == sha256_digest(encode_utf8(code@)),
            held is Some ==> held->0 < i && code_row_accepts(
                rows@[held->0 as int],
                account_id@,
                code_hash@,
                now,
            ),
            forall|j: int|
                0 <= j < i && !(held is Some && held->0 == j) ==> !code_row_accepts(
                    #[trigger] rows@[j],
                    account_id@,
                    code_hash@,
                    now,
                ),
        decreases rows.len() - i,
    {
        let row = &rows[i];
        let in_time = match row.expires_at_epoch_millis {
            Some(expires) => expires >= 0 && expires as u64 > now,
            None => true,
        };
        let accepts = text_eq(row.account_id.as_str(), account_id) && bytes_eq(
            row.code_hash.as_slice(),
            code_hash.as_slice(),
        ) && text_eq(row.status.as_str(), "active") && in_time;
        assert(accepts == code_row_accepts(rows@[i as int], account_id@, code_hash@, now));
        if accepts {
            if held.is_some() {
                return Err("account_recovery_codes holds a code more than once".to_owned());
            }
            held = Some(i);
        }
        i = i + 1;
    }
    match held {
        Some(at) => Ok(Some(rows[at].recovery_code_id.clone())),
        None => Ok(None),
    }
}

/// The rows of recovery codes after one of them was used: it is active no more, and everything else
/// is as it was.
pub open spec fn code_rows_after_use(
    rows: Seq<LockedRecoveryCode>,
    after: Seq<LockedRecoveryCode>,
    recovery_code_id: Seq<char>,
) -> bool {
    &&& after.len() == rows.len()
    &&& forall|i: int|
        0 <= i < rows.len() ==> (#[trigger] after[i]).recovery_code_id@ == rows[i].recovery_code_id@
            && after[i].account_id@ == rows[i].account_id@ && after[i].code_hash@
            == rows[i].code_hash@ && after[i].status@ == if rows[i].recovery_code_id@
            == recovery_code_id {
            "used"@
        } else {
            rows[i].status@
        }
}

/// A recovery code is found once: after its row was used, no search for the same code finds any,
/// at any time, where no other code of the account has the same digest.
pub proof fn a_used_recovery_code_is_not_found(
    rows: Seq<LockedRecoveryCode>,
    after: Seq<LockedRecoveryCode>,
    account_id: Seq<char>,
    code_hash: Seq<u8>,
    now: u64,
    later: u64,
    found: Result<Option<String>, String>,
    found_later: Result<Option<String>, String>,
)
    requires
        recovery_code_found(rows, account_id, code_hash, now, found),
        found is Ok && found->Ok_0 is Some,
        code_rows_after_use(rows, after, found->Ok_0->0@),
        recovery_code_found(after, account_id, code_hash, later, found_later),
        forall|i: int, j: int|
            0 <= i < j < rows.len() && (#[trigger] rows[i]).account_id@ == account_id && (
            #[trigger] rows[j]).account_id@ == account_id ==> rows[i].code_hash@
                != rows[j].code_hash@,
    ensures
        found_later == Ok::<Option<String>, String>(None),
{
    reveal_strlit("used");
    reveal_strlit("active");
    assert("used"@.len() != "active"@.len());
    let at = choose|i: int|
        0 <= i < rows.len() && code_row_accepts(#[trigger] rows[i], account_id, code_hash, now)
            && rows[i].recovery_code_id@ == found->Ok_0->0@;
    assert forall|i: int| 0 <= i < after.len() implies !code_row_accepts(
        #[trigger] after[i],
        account_id,
        code_hash,
        later,
    ) by {
        if code_row_accepts(after[i], account_id, code_hash, later) {
            assert(rows[i].account_id@ == account_id && rows[i].code_hash@ == code_hash);
            assert(rows[at].account_id@ == account_id && rows[at].code_hash@ == code_hash);
            assert(i == at);
        }
    }
}

/// The proof by which a request was accepted.
#[derive(Debug, PartialEq, Eq)]
pub enum AcceptedProof {
    Password,
    TrustedDevice(TrustedControllerDevice),
    Totp(MfaFactor),
    /// The recovery code with this name.
    RecoveryCode(String),
}

/// The model of [`AcceptedProof`].
pub enum AcceptedProofModel {
    Password,
    TrustedDevice(TrustedControllerDeviceModel),
    Totp(MfaFactorModel),
    RecoveryCode(Seq<char>),
}

impl View for AcceptedProof {
    type V = AcceptedProofModel;

    open spec fn view(&self) -> AcceptedProofModel {
        match *self {
            AcceptedProof::Password => AcceptedProofModel::Password,
            AcceptedProof::TrustedDevice(trusted) => AcceptedProofModel::TrustedDevice(trusted@),
            AcceptedProof::Totp(factor) => AcceptedProofModel::Totp(factor@),
            AcceptedProof::RecoveryCode(id) => AcceptedProofModel::RecoveryCode(id@),
        }
    }
}

/// The TOTP factors after a TOTP code was accepted: a factor that is held takes the time step.
pub open spec fn factors_after_proof(
    factors: Map<Seq<char>, MfaFactorModel>,
    accepted: AcceptedProofModel,
) -> Map<Seq<char>, MfaFactorModel> {
    match accepted {
        AcceptedProofModel::Totp(factor) => {
            if factors.contains_key(factor.factor_id) {
                let held = factors[factor.factor_id];
                factors.insert(
                    factor.factor_id,
                    MfaFactorModel { last_used_counter: factor.last_used_counter, ..held },
                )
            } else {
                factors
            }
        },
        _ => factors,
    }
}

/// The recovery codes after a recovery code was accepted: a code that is held is used.
pub open spec fn codes_after_proof(
    codes: Map<Seq<char>, RecoveryCodeModel>,
    accepted: AcceptedProofModel,
    now: u64,
) -> Map<Seq<char>, RecoveryCodeModel> {
    match accepted {
        AcceptedProofModel::RecoveryCode(id) => {
            if codes.contains_key(id) {
                let held = codes[id];
                codes.insert(id, RecoveryCodeModel { used_at_epoch_millis: Some(now), ..held })
            } else {
                codes
            }
        },
        _ => codes,
    }
}

/// Publishes what a proof used up: the time step of a TOTP factor or a recovery code.
pub fn publish_proof(database: &mut Database, accepted: &AcceptedProof, now: u64)
    ensures
        final(database)@ == (DatabaseModel {
            mfa_factors: factors_after_proof(old(database)@.mfa_factors, accepted@),
            recovery_codes: codes_after_proof(old(database)@.recovery_codes, accepted@, now),
            ..old(database)@
        }),
{
    match accepted {
        AcceptedProof::Totp(factor) => {
            if let Some(held) = database.mfa_factors.get(factor.factor_id.as_str()) {
                let mut used = held.duplicate();
                used.last_used_counter = factor.last_used_counter;
                database.mfa_factors.insert(factor.factor_id.clone(), used);
            }
        },
        AcceptedProof::RecoveryCode(id) => {
            if let Some(held) = database.recovery_codes.get(id.as_str()) {
                let mut used = held.duplicate();
                used.used_at_epoch_millis = Some(now);
                database.recovery_codes.insert(id.clone(), used);
            }
        },
        _ => {},
    }
}

} // verus!
