use crate::account::{Account, AccountStatus};
use crate::api::{api_error, fault_of, refusal, ApiError, Fault, FaultModel};
use crate::audit::{AuditEntry, AuditEntryModel, JsonModel, JsonValue};
use crate::auth::{store_fault, validate_password, ChangePasswordRequest};
use crate::step_up::{StepUpAction, StepUpExpectation};
use crate::store::StoreError;
use crate::table::Table;
use crate::text::text_eq;
use vstd::prelude::*;
use vstd::utf8::encode_utf8;

verus! {

/// Checks a request to change a password: a new one of the right length that is not the old one.
pub fn check_password_change(request: &ChangePasswordRequest, request_id: &str) -> (result: Result<
    (),
    ApiError,
>)
    ensures
        refusal(result) == if !(12 <= encode_utf8(request.new_password@).len() <= 256) {
            Some(
                api_error(
                    400,
                    "weak_password"@,
                    "password must contain 12 to 256 bytes"@,
                    request_id@,
                ),
            )
        } else if request.current_password@ == request.new_password@ {
            Some(
                api_error(
                    400,
                    "password_unchanged"@,
                    "new_password must differ from current_password"@,
                    request_id@,
                ),
            )
        } else {
            None
        },
{
    validate_password(request.new_password.as_str(), request_id)?;
    if text_eq(request.current_password.as_str(), request.new_password.as_str()) {
        return Err(
            ApiError::bad_request(
                "password_unchanged",
                "new_password must differ from current_password",
                request_id,
            ),
        );
    }
    Ok(())
}

/// Checks who asks for a change of a password: an active account that gave its current password.
pub fn check_current_password(
    account: Option<&Account>,
    password_valid: bool,
    request_id: &str,
) -> (result: Result<(), Fault>)
    ensures
        fault_of(result) == if account is None || account->0@.status != AccountStatus::Active {
            Some(FaultModel::Unauthorized)
        } else if !password_valid {
            Some(
                FaultModel::Refused(
                    api_error(
                        403,
                        "invalid_current_password"@,
                        "current_password is invalid"@,
                        request_id@,
                    ),
                ),
            )
        } else {
            None
        },
{
    match account {
        Some(account) => if account.status != AccountStatus::Active {
            Err(Fault::Unauthorized)
        } else if !password_valid {
            Err(
                Fault::Refused(
                    ApiError::forbidden(
                        "invalid_current_password",
                        "current_password is invalid",
                        request_id,
                    ),
                ),
            )
        } else {
            Ok(())
        },
        None => Err(Fault::Unauthorized),
    }
}

/// The audit entry of a change of a password, which names the challenge that covered it.
pub open spec fn password_entry(
    audit_id: Seq<char>,
    account_id: Seq<char>,
    step_up: StepUpExpectation,
    request_id: Seq<char>,
) -> AuditEntryModel {
    AuditEntryModel {
        audit_id,
        actor_type: "account"@,
        actor_account_id: Some(account_id),
        actor_device_id: None,
        actor_role: None,
        actor_service: None,
        target_device_id: Some(step_up.device_id@),
        session_id: None,
        action: "password_changed"@,
        result: "success"@,
        reason: None,
        metadata: Map::<Seq<char>, JsonModel>::empty().insert(
            "risk_challenge_id"@,
            JsonModel::Text(step_up.challenge_id@),
        ),
        request_id,
        created_at_epoch_millis: step_up.now_epoch_millis,
    }
}

/// The action that changes a password.
pub fn password_change_action(
    audit_id: String,
    account_id: &str,
    expected_password_hash: String,
    new_password_hash: String,
    step_up: &StepUpExpectation,
    request_id: &str,
) -> (action: StepUpAction)
    ensures
        action is ChangePassword,
        action->ChangePassword_expected_password_hash@ == expected_password_hash@,
        action->ChangePassword_new_password_hash@ == new_password_hash@,
        action.entry() == password_entry(audit_id@, account_id@, *step_up, request_id@),
{
    let mut metadata: Table<JsonValue> = Table::new();
    metadata.insert(
        "risk_challenge_id".to_owned(),
        JsonValue::Text(step_up.challenge_id.clone()),
    );
    let audit_entry = AuditEntry {
        audit_id,
        actor_type: "account".to_owned(),
        actor_account_id: Some(account_id.to_owned()),
        actor_device_id: None,
        actor_role: None,
        actor_service: None,
        target_device_id: Some(step_up.device_id.clone()),
        session_id: None,
        action: "password_changed".to_owned(),
        result: "success".to_owned(),
        reason: None,
        metadata,
        request_id: request_id.to_owned(),
        created_at_epoch_millis: step_up.now_epoch_millis,
    };
    StepUpAction::ChangePassword { expected_password_hash, new_password_hash, audit_entry }
}

/// The answer to a password change that the store did not accept.
pub fn password_change_error(error: StoreError, request_id: &str) -> (fault: Fault)
    ensures
        fault@ == match error {
            StoreError::Conflict => FaultModel::Refused(
                api_error(
                    409,
                    "password_change_conflict"@,
                    "password authority changed or the step-up token was already consumed"@,
                    request_id@,
                ),
            ),
            StoreError::Unavailable => FaultModel::Internal,
        },
{
    store_fault(
        error,
        ApiError::conflict(
            "password_change_conflict",
            "password authority changed or the step-up token was already consumed",
            request_id,
        ),
    )
}

} // verus!
