use crate::api::{api_error, refusal, ApiError, ApiErrorModel, Fault, FaultModel};
use crate::audit::{JsonModel, JsonValue};
use crate::auth::store_fault;
use crate::bytes::array_eq;
use crate::codec::{encode_hex, hex_text};
use crate::device::{Device, DeviceModel};
use crate::device_authority::{
    DeviceKeyRotation, DeviceManagementAction, DeviceManagementCommand, ManagementEnd,
};
use crate::device_requests::{
    device_audit_entry, device_entry, DeviceActionRequest, RotateDeviceKeyRequest,
    UpdateDeviceRequest,
};
use crate::hash::{sha256, sha256_digest};
use crate::session::{SessionEvent, SessionEventModel};
use crate::step_up::StepUpExpectation;
use crate::store::StoreError;
use crate::table::{models, Table};
use crate::text::{opt_text, text_eq, trim_text, trimmed};
use vstd::prelude::*;
use vstd::utf8::encode_utf8;

verus! {

/// The new name that a request gives to a device, without outer white space.
pub open spec fn requested_name(request: UpdateDeviceRequest) -> Option<Seq<char>> {
    match request.display_name {
        Some(name) => Some(trimmed(name@)),
        None => None,
    }
}

/// Whether a request asks for exactly one change: a name of 1 to 100 bytes, or an action.
pub open spec fn update_fits(request: UpdateDeviceRequest) -> bool {
    let name = requested_name(request);
    &&& name is Some != request.action is Some
    &&& name is Some ==> 0 < name->0.len() && encode_utf8(name->0).len() <= 100
}

/// The action of a request, in the terms of the store.
pub open spec fn requested_action(action: Option<DeviceActionRequest>) -> Option<
    DeviceManagementAction,
> {
    match action {
        Some(DeviceActionRequest::Disable) => Some(DeviceManagementAction::Disable),
        Some(DeviceActionRequest::Restore) => Some(DeviceManagementAction::Restore),
        Some(DeviceActionRequest::Unbind) => Some(DeviceManagementAction::Unbind),
        Some(DeviceActionRequest::RevokePublicKey) => Some(DeviceManagementAction::RevokePublicKey),
        None => None,
    }
}

/// Checks a request to change a device, and gives the name or the action that it asks for.
pub fn check_device_update(request: &UpdateDeviceRequest, request_id: &str) -> (result: Result<
    (Option<String>, Option<DeviceManagementAction>),
    ApiError,
>)
    ensures
        result is Ok <==> update_fits(*request),
        result is Ok ==> opt_text(result->Ok_0.0) == requested_name(*request) && result->Ok_0.1
            == requested_action(request.action),
        result is Err ==> result->Err_0@ == api_error(
            400,
            "invalid_device_update"@,
            "provide exactly one valid display_name or action"@,
            request_id@,
        ),
{
    let display_name: Option<String> = match &request.display_name {
        Some(name) => Some(trim_text(name.as_str()).to_owned()),
        None => None,
    };
    let name_fits = match &display_name {
        Some(name) => !name.as_str().is_empty() && name.as_str().as_bytes().len() <= 100,
        None => true,
    };
    if display_name.is_some() == request.action.is_some() || !name_fits {
        return Err(
            ApiError::bad_request(
                "invalid_device_update",
                "provide exactly one valid display_name or action",
                request_id,
            ),
        );
    }
    let action: Option<DeviceManagementAction> = match request.action {
        Some(DeviceActionRequest::Disable) => Some(DeviceManagementAction::Disable),
        Some(DeviceActionRequest::Restore) => Some(DeviceManagementAction::Restore),
        Some(DeviceActionRequest::Unbind) => Some(DeviceManagementAction::Unbind),
        Some(DeviceActionRequest::RevokePublicKey) => Some(DeviceManagementAction::RevokePublicKey),
        None => None,
    };
    Ok((display_name, action))
}

/// The name of an action in the audit log.
pub open spec fn action_text(action: DeviceManagementAction) -> Seq<char> {
    match action {
        DeviceManagementAction::Disable => "disable"@,
        DeviceManagementAction::Restore => "restore"@,
        DeviceManagementAction::Unbind => "unbind"@,
        DeviceManagementAction::RevokePublicKey => "revoke_public_key"@,
    }
}

/// The name of an action in the audit log.
pub fn device_management_action_name(action: DeviceManagementAction) -> (name: &'static str)
    ensures
        name@ == action_text(action),
{
    match action {
        DeviceManagementAction::Disable => "disable",
        DeviceManagementAction::Restore => "restore",
        DeviceManagementAction::Unbind => "unbind",
        DeviceManagementAction::RevokePublicKey => "revoke_public_key",
    }
}

/// What the audit entry of a change of a device is called.
pub open spec fn update_audit_action(action: Option<DeviceManagementAction>) -> Seq<char> {
    match action {
        Some(DeviceManagementAction::Unbind) => "device_unregistered"@,
        Some(DeviceManagementAction::RevokePublicKey) => "device_public_key_revoked"@,
        _ => "device_status_changed"@,
    }
}

/// The metadata of the audit entry of a change of a device: what was changed and, where its key is
/// revoked, which key that was.
pub open spec fn update_metadata(
    display_name: Option<Seq<char>>,
    action: Option<DeviceManagementAction>,
    target: DeviceModel,
    now: u64,
) -> Map<Seq<char>, JsonModel> {
    let empty = Map::<Seq<char>, JsonModel>::empty();
    let named = match display_name {
        Some(name) => empty.insert("change"@, JsonModel::Text("display_name"@)).insert(
            "display_name_changed"@,
            JsonModel::Bool(name.len() > 0),
        ),
        None => empty,
    };
    let acted = match action {
        Some(action) => named.insert("lifecycle_action"@, JsonModel::Text(action_text(action))),
        None => named,
    };
    if action == Some(DeviceManagementAction::RevokePublicKey) {
        acted.insert("old_public_key_id"@, JsonModel::Text(target.public_key_id)).insert(
            "old_public_key_version"@,
            JsonModel::Unsigned(target.public_key_version as u64),
        ).insert(
            "old_public_key_fingerprint"@,
            JsonModel::Text(hex_text(sha256_digest(target.public_key@))),
        ).insert("revoked_at_epoch_millis"@, JsonModel::Unsigned(now)).insert(
            "revocation_reason"@,
            JsonModel::Text("user_requested"@),
        )
    } else {
        acted
    }
}

fn put_text(metadata: &mut Table<JsonValue>, key: &str, value: &str)
    ensures
        final(metadata)@ == old(metadata)@.insert(key@, JsonModel::Text(value@)),
{
    metadata.insert(key.to_owned(), JsonValue::Text(value.to_owned()));
}

fn put_number(metadata: &mut Table<JsonValue>, key: &str, value: u64)
    ensures
        final(metadata)@ == old(metadata)@.insert(key@, JsonModel::Unsigned(value)),
{
    metadata.insert(key.to_owned(), JsonValue::Unsigned(value));
}

fn fingerprint_text(public_key: &[u8; 32]) -> (text: String)
    ensures
        text@ == hex_text(sha256_digest(public_key@)),
{
    encode_hex(sha256(public_key.as_slice()).as_slice())
}

fn build_update_metadata(
    display_name: &Option<String>,
    action: Option<DeviceManagementAction>,
    target: &Device,
    now: u64,
) -> (metadata: Table<JsonValue>)
    ensures
        metadata@ == update_metadata(opt_text(*display_name), action, target@, now),
{
    let mut metadata: Table<JsonValue> = Table::new();
    if let Some(name) = display_name {
        put_text(&mut metadata, "change", "display_name");
        metadata.insert(
            "display_name_changed".to_owned(),
            JsonValue::Bool(!name.as_str().is_empty()),
        );
    }
    if let Some(action) = action {
        put_text(&mut metadata, "lifecycle_action", device_management_action_name(action));
    }
    if let Some(DeviceManagementAction::RevokePublicKey) = action {
        put_text(&mut metadata, "old_public_key_id", target.public_key_id.as_str());
        put_number(&mut metadata, "old_public_key_version", target.public_key_version as u64);
        put_text(
            &mut metadata,
            "old_public_key_fingerprint",
            fingerprint_text(&target.public_key).as_str(),
        );
        put_number(&mut metadata, "revoked_at_epoch_millis", now);
        put_text(&mut metadata, "revocation_reason", "user_requested");
    }
    metadata
}

/// Builds the command that changes a device. `actor` is the device that signed the request.
pub fn build_device_update(
    account_id: &str,
    actor: &Device,
    target: &Device,
    display_name: Option<String>,
    action: Option<DeviceManagementAction>,
    audit_id: String,
    request_id: &str,
    now: u64,
) -> (command: DeviceManagementCommand)
    ensures
        command.account_id@ == account_id@,
        command.actor_device_id@ == actor@.device_id,
        command.actor_public_key_id@ == actor@.public_key_id,
        command.actor_public_key_version == actor@.public_key_version,
        command.target_device_id@ == target@.device_id,
        command.expected_target_public_key_id@ == target@.public_key_id,
        command.expected_target_public_key_version == target@.public_key_version,
        opt_text(command.display_name) == opt_text(display_name),
        command.action == action,
        command.audit_entry@ == device_entry(
            audit_id@,
            account_id@,
            actor@.device_id,
            target@.device_id,
            update_audit_action(action),
            update_metadata(opt_text(display_name), action, target@, now),
            request_id@,
            now,
        ),
        command.now_epoch_millis == now,
{
    let metadata = build_update_metadata(&display_name, action, target, now);
    let audit_action = match action {
        Some(DeviceManagementAction::Unbind) => "device_unregistered",
        Some(DeviceManagementAction::RevokePublicKey) => "device_public_key_revoked",
        _ => "device_status_changed",
    };
    let audit_entry = device_audit_entry(
        audit_id,
        account_id,
        actor.device_id.as_str(),
        target.device_id.as_str(),
        audit_action,
        metadata,
        request_id,
        now,
    );
    DeviceManagementCommand {
        account_id: account_id.to_owned(),
        actor_device_id: actor.device_id.clone(),
        actor_public_key_id: actor.public_key_id.clone(),
        actor_public_key_version: actor.public_key_version,
        target_device_id: target.device_id.clone(),
        expected_target_public_key_id: target.public_key_id.clone(),
        expected_target_public_key_version: target.public_key_version,
        display_name,
        action,
        audit_entry,
        now_epoch_millis: now,
    }
}

/// How a change of a device is refused that the store did not carry out.
pub fn device_update_error(end: ManagementEnd, request_id: &str) -> (error: Fault)
    ensures
        error@ == match end {
            ManagementEnd::Fail(StoreError::Unavailable) => {
                FaultModel::Internal
            },
            ManagementEnd::Fail(StoreError::Conflict) => {
                FaultModel::Refused(
                    api_error(
                        409,
                        "device_update_conflict"@,
                        "device authority changed while applying the update"@,
                        request_id@,
                    ),
                )
            },
            ManagementEnd::NotFound => FaultModel::Refused(
                api_error(404, "device_not_found"@, "device was not found"@, request_id@),
            ),
            ManagementEnd::InvalidTransition => FaultModel::Refused(
                api_error(
                    409,
                    "invalid_device_transition"@,
                    "the requested device lifecycle transition is not allowed"@,
                    request_id@,
                ),
            ),
        },
{
    match end {
        ManagementEnd::Fail(StoreError::Unavailable) => Fault::Internal,
        ManagementEnd::Fail(StoreError::Conflict) => Fault::Refused(
            ApiError::conflict(
                "device_update_conflict",
                "device authority changed while applying the update",
                request_id,
            ),
        ),
        ManagementEnd::NotFound => Fault::Refused(
            ApiError::not_found("device_not_found", "device was not found", request_id),
        ),
        ManagementEnd::InvalidTransition => Fault::Refused(
            ApiError::conflict(
                "invalid_device_transition",
                "the requested device lifecycle transition is not allowed",
                request_id,
            ),
        ),
    }
}

/// Why a request to replace a key is refused, before its challenge is looked up.
pub open spec fn rotation_refusal(
    request: RotateDeviceKeyRequest,
    device_id: Seq<char>,
    signed_device: DeviceModel,
    new_public_key: Option<[u8; 32]>,
    proof_valid: bool,
    request_id: Seq<char>,
) -> Option<ApiErrorModel> {
    if signed_device.device_id != device_id || signed_device.public_key_id
        != request.current_public_key_id@ || signed_device.public_key_version
        != request.current_public_key_version {
        Some(
            api_error(
                403,
                "current_device_key_mismatch"@,
                "the signed device and current public key fields must match"@,
                request_id,
            ),
        )
    } else if new_public_key is None {
        Some(
            api_error(
                400,
                "invalid_public_key"@,
                "new_public_key must encode exactly 32 Ed25519 bytes"@,
                request_id,
            ),
        )
    } else if new_public_key->0 == signed_device.public_key {
        Some(
            api_error(
                400,
                "unchanged_public_key"@,
                "new_public_key must differ from the current key"@,
                request_id,
            ),
        )
    } else if !proof_valid {
        Some(
            api_error(
                403,
                "new_device_key_proof_failed"@,
                "proof of possession for the new device key failed"@,
                request_id,
            ),
        )
    } else {
        None
    }
}

/// Checks a request to replace a key. `signed_device` is the device that signed it, `proof_valid`
/// whether it was also signed with the new key.
pub fn check_rotation(
    request: &RotateDeviceKeyRequest,
    device_id: &str,
    signed_device: &Device,
    new_public_key: &Option<[u8; 32]>,
    proof_valid: bool,
    request_id: &str,
) -> (result: Result<[u8; 32], ApiError>)
    ensures
        refusal(result) == rotation_refusal(
            *request,
            device_id@,
            signed_device@,
            *new_public_key,
            proof_valid,
            request_id@,
        ),
        result is Ok ==> Some(result->Ok_0) == *new_public_key,
{
    if !text_eq(signed_device.device_id.as_str(), device_id) || !text_eq(
        signed_device.public_key_id.as_str(),
        request.current_public_key_id.as_str(),
    ) || signed_device.public_key_version != request.current_public_key_version {
        return Err(
            ApiError::forbidden(
                "current_device_key_mismatch",
                "the signed device and current public key fields must match",
                request_id,
            ),
        );
    }
    let new_public_key = match new_public_key {
        Some(key) => *key,
        None => {
            return Err(
                ApiError::bad_request(
                    "invalid_public_key",
                    "new_public_key must encode exactly 32 Ed25519 bytes",
                    request_id,
                ),
            );
        },
    };
    if array_eq(&new_public_key, &signed_device.public_key) {
        return Err(
            ApiError::bad_request(
                "unchanged_public_key",
                "new_public_key must differ from the current key",
                request_id,
            ),
        );
    }
    if !proof_valid {
        return Err(
            ApiError::forbidden(
                "new_device_key_proof_failed",
                "proof of possession for the new device key failed",
                request_id,
            ),
        );
    }
    Ok(new_public_key)
}

/// The metadata of the audit entry of a key rotation: both keys, when, why, and the challenge that
/// covered it.
pub open spec fn rotation_metadata(
    signed_device: DeviceModel,
    new_public_key_id: Seq<char>,
    new_public_key: [u8; 32],
    new_version: u32,
    challenge_id: Seq<char>,
    now: u64,
) -> Map<Seq<char>, JsonModel> {
    Map::<Seq<char>, JsonModel>::empty().insert(
        "old_public_key_id"@,
        JsonModel::Text(signed_device.public_key_id),
    ).insert(
        "old_public_key_version"@,
        JsonModel::Unsigned(signed_device.public_key_version as u64),
    ).insert(
        "old_public_key_fingerprint"@,
        JsonModel::Text(hex_text(sha256_digest(signed_device.public_key@))),
    ).insert("new_public_key_id"@, JsonModel::Text(new_public_key_id)).insert(
        "new_public_key_version"@,
        JsonModel::Unsigned(new_version as u64),
    ).insert(
        "new_public_key_fingerprint"@,
        JsonModel::Text(hex_text(sha256_digest(new_public_key@))),
    ).insert("revoked_at_epoch_millis"@, JsonModel::Unsigned(now)).insert(
        "rotation_reason"@,
        JsonModel::Text("user_requested"@),
    ).insert("step_up_challenge_id"@, JsonModel::Text(challenge_id))
}

/// Builds the command that replaces the key of a device by the next version of it, unless there is
/// none.
pub fn build_rotation(
    account_id: &str,
    signed_device: &Device,
    new_public_key_id: String,
    new_public_key: [u8; 32],
    step_up: StepUpExpectation,
    audit_id: String,
    request_id: &str,
    now: u64,
) -> (result: Result<DeviceKeyRotation, ApiError>)
    ensures
        result is Ok <==> signed_device@.public_key_version < u32::MAX,
        result is Err ==> result->Err_0@ == api_error(
            409,
            "device_key_version_exhausted"@,
            "the device public key version cannot be incremented"@,
            request_id@,
        ),
        result is Ok ==> ({
            let rotation = result->Ok_0;
            let version = (signed_device@.public_key_version + 1) as u32;
            &&& rotation.step_up == step_up
            &&& rotation.current_public_key_id@ == signed_device@.public_key_id
            &&& rotation.current_public_key_version == signed_device@.public_key_version
            &&& rotation.new_public_key_id@ == new_public_key_id@
            &&& rotation.new_public_key == new_public_key
            &&& rotation.new_public_key_version == version
            &&& rotation.audit_entry@ == device_entry(
                audit_id@,
                account_id@,
                signed_device@.device_id,
                signed_device@.device_id,
                "device_public_key_rotated"@,
                rotation_metadata(
                    signed_device@,
                    new_public_key_id@,
                    new_public_key,
                    version,
                    step_up.challenge_id@,
                    now,
                ),
                request_id@,
                now,
            )
        }),
{
    let new_public_key_version: u32 = match signed_device.public_key_version.checked_add(1) {
        Some(version) => version,
        None => {
            return Err(
                ApiError::conflict(
                    "device_key_version_exhausted",
                    "the device public key version cannot be incremented",
                    request_id,
                ),
            );
        },
    };
    let mut metadata: Table<JsonValue> = Table::new();
    put_text(&mut metadata, "old_public_key_id", signed_device.public_key_id.as_str());
    put_number(&mut metadata, "old_public_key_version", signed_device.public_key_version as u64);
    put_text(
        &mut metadata,
        "old_public_key_fingerprint",
        fingerprint_text(&signed_device.public_key).as_str(),
    );
    put_text(&mut metadata, "new_public_key_id", new_public_key_id.as_str());
    put_number(&mut metadata, "new_public_key_version", new_public_key_version as u64);
    put_text(
        &mut metadata,
        "new_public_key_fingerprint",
        fingerprint_text(&new_public_key).as_str(),
    );
    put_number(&mut metadata, "revoked_at_epoch_millis", now);
    put_text(&mut metadata, "rotation_reason", "user_requested");
    put_text(&mut metadata, "step_up_challenge_id", step_up.challenge_id.as_str());
    let audit_entry = device_audit_entry(
        audit_id,
        account_id,
        signed_device.device_id.as_str(),
        signed_device.device_id.as_str(),
        "device_public_key_rotated",
        metadata,
        request_id,
        now,
    );
    Ok(
        DeviceKeyRotation {
            step_up,
            current_public_key_id: signed_device.public_key_id.clone(),
            current_public_key_version: signed_device.public_key_version,
            new_public_key_id,
            new_public_key,
            new_public_key_version,
            audit_entry,
        },
    )
}

/// The answer to a rotation that the store did not accept.
pub fn rotation_error(error: StoreError, request_id: &str) -> (fault: Fault)
    ensures
        fault@ == match error {
            StoreError::Conflict => FaultModel::Refused(
                api_error(
                    409,
                    "device_key_rotation_conflict"@,
                    "current key changed or the step-up token was already consumed"@,
                    request_id@,
                ),
            ),
            StoreError::Unavailable => FaultModel::Internal,
        },
{
    store_fault(
        error,
        ApiError::conflict(
            "device_key_rotation_conflict",
            "current key changed or the step-up token was already consumed",
            request_id,
        ),
    )
}

/// Which device is told of which event.
#[derive(Debug, PartialEq, Eq)]
pub struct ClosureNotice {
    pub device_id: String,
    /// The position of the event in the list of events.
    pub event: usize,
}

/// Who is told of the first events of a list: the controller and then the controlled device of
/// each session that an event closed.
pub open spec fn closure_notices(events: Seq<SessionEventModel>, count: nat) -> Seq<
    (Seq<char>, int),
>
    decreases count,
{
    if count == 0 {
        Seq::empty()
    } else {
        let before = closure_notices(events, (count - 1) as nat);
        match events[count - 1].result_session {
            Some(session) => before.push((session.controller_device_id, count - 1)).push(
                (session.controlled_device_id, count - 1),
            ),
            None => before,
        }
    }
}

/// The models of a list of notices.
pub open spec fn notice_models(notices: Seq<ClosureNotice>) -> Seq<(Seq<char>, int)> {
    notices.map_values(|notice: ClosureNotice| (notice.device_id@, notice.event as int))
}

/// Says who is told of the sessions that a change of a device closed.
pub fn notify_forced_session_closures(events: &Vec<SessionEvent>) -> (notices: Vec<ClosureNotice>)
    ensures
        notice_models(notices@) == closure_notices(models(events@), events@.len()),
{
    let mut notices: Vec<ClosureNotice> = Vec::new();
    let mut i: usize = 0;
    assert(notice_models(notices@) =~= closure_notices(models(events@), 0));
    while i < events.len()
        invariant
            i <= events.len(),
            notice_models(notices@) == closure_notices(models(events@), i as nat),
        decreases events.len() - i,
    {
        let ghost before = notice_models(notices@);
        assert(models(events@)[i as int] == events@[i as int]@);
        if let Some(session) = &events[i].result_session {
            notices.push(
                ClosureNotice { device_id: session.controller_device_id.clone(), event: i },
            );
            notices.push(
                ClosureNotice { device_id: session.controlled_device_id.clone(), event: i },
            );
            assert(notice_models(notices@) =~= before.push(
                (session@.controller_device_id, i as int),
            ).push((session@.controlled_device_id, i as int)));
        }
        i = i + 1;
    }
    notices
}

} // verus!
