use crate::api::{ApiError, Fault};
use crate::auth::AccessClaims;
use crate::codec::{hex_digest, hex_text, stored_time};
use crate::database::DatabaseModel;
use crate::device::{Device, DeviceLifecycleStatus};
use crate::internal::{
    authorized_participant, check_session_connectable, relay_authorize, signal_device_auth,
    FoundDevice, RelayAuthorization, RelayAuthorizeRequest, SignalDeviceAuthRequest,
};
use crate::names::{auth_method_of, session_status_names_round_trip, session_status_text};
use crate::session::{Session, SessionEvent, SessionStatus};
use crate::session_rows::{ExistingSessionIdempotency, SessionRow};
use crate::session_store::{
    after_create_session, after_transition, create_session, is_digest, transition_session,
    CreateSessionCommand, CreateSessionDecision, ReplayFacts, SessionDevices, TransitionDecision,
    TransitionSessionCommand,
};
use crate::store::StoreError;
use vstd::prelude::*;
use vstd::utf8::encode_utf8;

verus! {

/// Both sides of a session can move it, and nobody else. Where a request is new, allowed and
/// consistent, and the stored session is in the status that the request expects, with relay tokens
/// that can be renewed where the move ends the session, the controller moves it exactly from the
/// account and the device that opened the session, and the controlled side exactly from the
/// controlled device and for the account that owns that device. Every other request is a conflict
/// of states.
pub proof fn both_sides_move_a_session_and_nobody_else(
    command: &TransitionSessionCommand,
    replay: ReplayFacts,
    row: SessionRow,
    owns_device: bool,
    result: Result<TransitionDecision, StoreError>,
)
    requires
        call_ensures(transition_session, (command, None, replay, Some(row), owns_device), result),
        command.apply_allowed,
        is_digest(command.idempotency@.body_hash),
        command.event@.from_status == Some(command.expected_status),
        command.event@.to_status == command.session@.status,
        command.event@.session_id == command.session@.session_id,
        command.idempotency@.session_id == command.session@.session_id,
        command.event@.actor_account_id == Some(command.idempotency@.account_id),
        command.event@.actor_device_id == Some(command.idempotency@.device_id),
        row.status@ == session_status_text(command.expected_status),
        0 <= row.relay_token_epoch < i64::MAX,
        row.permissions is Ok,
        auth_method_of(row.auth_method@) is Some,
        row.session_expires_at_epoch_millis >= 0,
        row.created_at_epoch_millis >= 0,
        row.updated_at_epoch_millis >= 0,
        row.ended_at_epoch_millis is Some ==> row.ended_at_epoch_millis->0 >= 0,
    ensures
        result is Ok,
        result->Ok_0 is Applied || result->Ok_0 is StateConflict,
        command.event@.actor_role == Some("controller"@) ==> (result->Ok_0 is Applied <==>
            command.idempotency@.account_id == row.controller_account_id@
            && command.idempotency@.device_id == row.controller_device_id@),
        command.event@.actor_role == Some("controlled"@) ==> (result->Ok_0 is Applied <==>
            command.idempotency@.device_id == row.controlled_device_id@ && owns_device),
        command.event@.actor_role != Some("controller"@) && command.event@.actor_role != Some(
            "controlled"@,
        ) ==> result->Ok_0 is StateConflict,
{
    lemma_roles_differ();
    session_status_names_round_trip(command.expected_status, row.status@);
}

proof fn lemma_roles_differ()
    ensures
        "controller"@ != "controlled"@,
        "none"@ != "controller"@,
        "none"@ != "controlled"@,
{
    reveal_strlit("controller");
    reveal_strlit("controlled");
    reveal_strlit("none");
    assert("controller"@[8] == 'e' && "controlled"@[8] == 'e');
    assert("controller"@[9] == 'r' && "controlled"@[9] == 'd');
    assert("none"@.len() == 4);
}

/// A session that was moved has the status that the request asks for and is otherwise the session
/// that was stored: the same parties, permissions, policy and times of creation and expiry. Its
/// time of change is not set back. A move that ends it gives it a time of ending and outdates its
/// relay tokens; any other move keeps both. The event that is recorded is that of the request, with
/// the moved session in it.
pub proof fn a_moved_session_keeps_its_parties(
    command: &TransitionSessionCommand,
    existing: Option<ExistingSessionIdempotency>,
    replay: ReplayFacts,
    stored: Option<SessionRow>,
    owns_device: bool,
    result: Result<TransitionDecision, StoreError>,
)
    requires
        call_ensures(
            transition_session,
            (command, existing, replay, stored, owns_device),
            result,
        ),
        result is Ok,
        result->Ok_0 is Applied,
    ensures
        existing is None,
        command.apply_allowed,
        stored is Some,
        stored->0.status@ == session_status_text(command.expected_status),
        ({
            let row = stored->0;
            let moved = result->Ok_0->Applied_session@;
            let event = result->Ok_0->Applied_event@;
            let asked = command.session@;
            let ends = asked.status == SessionStatus::Cancelled || asked.status
                == SessionStatus::Closed || asked.status == SessionStatus::Rejected
                || asked.status == SessionStatus::Failed;
            &&& moved.status == asked.status
            &&& moved.session_id == row.session_id@
            &&& moved.controller_account_id == row.controller_account_id@
            &&& moved.controller_device_id == row.controller_device_id@
            &&& moved.controlled_device_id == row.controlled_device_id@
            &&& moved.permissions == row.permissions->Ok_0@
            &&& moved.permissions_digest == hex_text(row.permissions_digest@)
            &&& moved.policy_evaluation_id == row.policy_evaluation_id@
            &&& moved.session_expires_at_epoch_millis == row.session_expires_at_epoch_millis
            &&& moved.created_at_epoch_millis == row.created_at_epoch_millis
            &&& Some(moved.auth_method) == auth_method_of(row.auth_method@)
            &&& moved.updated_at_epoch_millis >= row.updated_at_epoch_millis
            &&& asked.updated_at_epoch_millis <= i64::MAX ==> moved.updated_at_epoch_millis
                >= asked.updated_at_epoch_millis
            &&& moved.updated_at_epoch_millis == row.updated_at_epoch_millis
                || moved.updated_at_epoch_millis == asked.updated_at_epoch_millis
                || moved.updated_at_epoch_millis == i64::MAX
            &&& ends ==> moved.relay_token_epoch == row.relay_token_epoch + 1
            &&& !ends ==> moved.relay_token_epoch == row.relay_token_epoch
            &&& ends ==> moved.ended_at_epoch_millis == Some(
                stored_time(
                    match asked.ended_at_epoch_millis {
                        Some(time) => time,
                        None => command.event@.created_at_epoch_millis,
                    },
                ),
            )
            &&& !ends && row.ended_at_epoch_millis is None ==> moved.ended_at_epoch_millis is None
            &&& !ends && row.ended_at_epoch_millis is Some ==> moved.ended_at_epoch_millis is Some
                && moved.ended_at_epoch_millis->0 == row.ended_at_epoch_millis->0
            &&& event.result_session == Some(moved)
            &&& event.event_id == command.event@.event_id
            &&& event.session_id == command.event@.session_id
            &&& event.from_status == Some(command.expected_status)
            &&& event.to_status == asked.status
            &&& event.actor_account_id == Some(command.idempotency@.account_id)
            &&& event.actor_device_id == Some(command.idempotency@.device_id)
            &&& event.actor_role == command.event@.actor_role
            &&& event.event_type == command.event@.event_type
            &&& event.created_at_epoch_millis == command.event@.created_at_epoch_millis
        }),
{
}

/// How a request to move a session is answered that does not move it: one that is not allowed is
/// invalid, one whose key was used for another request is a mismatch, one that was answered before
/// is answered alike, one for a session that is not there finds nothing, and one for a session in
/// another status is a conflict.
pub proof fn an_unmoved_session_is_answered(
    command: &TransitionSessionCommand,
    existing: Option<ExistingSessionIdempotency>,
    replay: ReplayFacts,
    stored: Option<SessionRow>,
    owns_device: bool,
    result: Result<TransitionDecision, StoreError>,
)
    requires
        call_ensures(
            transition_session,
            (command, existing, replay, stored, owns_device),
            result,
        ),
    ensures
        existing is None && !command.apply_allowed <==> result is Ok
            && result->Ok_0 is InvalidTransition,
        existing is Some && is_digest(command.idempotency@.body_hash) && existing->0.body_hash@
            != hex_digest(encode_utf8(command.idempotency@.body_hash)) <==> result is Ok
            && result->Ok_0 is BindingMismatch,
        result is Ok && result->Ok_0 is Replayed ==> existing is Some && existing->0.body_hash@
            == hex_digest(encode_utf8(command.idempotency@.body_hash)) && replay.event is Some
            && result->Ok_0->Replayed_event_id@ == replay.event->0.event_id@,
        existing is Some && is_digest(command.idempotency@.body_hash) && existing->0.body_hash@
            == hex_digest(encode_utf8(command.idempotency@.body_hash)) && replay.event is Some
            && replay.event->0.result_session is Some && replay.event->0.result_session->0 is Ok
            && replay.event->0.result_session->0->Ok_0@.session_id == existing->0.resource_id@
            ==> result is Ok && result->Ok_0 is Replayed && result->Ok_0->Replayed_session@
            == replay.event->0.result_session->0->Ok_0@,
        existing is Some && is_digest(command.idempotency@.body_hash) && existing->0.body_hash@
            == hex_digest(encode_utf8(command.idempotency@.body_hash)) && replay.event is Some
            && replay.event->0.result_session is None && replay.session is Some
            && replay.session->0 is Ok ==> result is Ok && result->Ok_0 is Replayed
            && result->Ok_0->Replayed_session@ == replay.session->0->Ok_0@,
        existing is Some && replay.event is None ==> !(result is Ok && result->Ok_0 is Replayed),
        existing is Some && replay.event is Some && replay.event->0.result_session is Some
            && replay.event->0.result_session->0 is Ok
            && replay.event->0.result_session->0->Ok_0@.session_id != existing->0.resource_id@
            ==> !(result is Ok && result->Ok_0 is Replayed),
        result is Ok && result->Ok_0 is NotFound ==> existing is None && stored is None,
        existing is None && stored is None ==> !(result is Ok && (result->Ok_0 is StateConflict
            || result->Ok_0 is Applied)),
        existing is None && stored is None && command.apply_allowed && is_digest(
            command.idempotency@.body_hash,
        ) && command.event@.from_status == Some(command.expected_status)
            && command.event@.to_status == command.session@.status && command.event@.session_id
            == command.session@.session_id && command.idempotency@.session_id
            == command.session@.session_id && command.event@.actor_account_id == Some(
            command.idempotency@.account_id,
        ) && command.event@.actor_device_id == Some(command.idempotency@.device_id)
            ==> result is Ok && result->Ok_0 is NotFound,
        existing is None && stored is Some && stored->0.status@ != session_status_text(
            command.expected_status,
        ) ==> !(result is Ok && result->Ok_0 is Applied),
        existing is None && command.apply_allowed && is_digest(command.idempotency@.body_hash) && (
        command.event@.from_status != Some(command.expected_status) || command.event@.to_status
            != command.session@.status || command.event@.session_id != command.session@.session_id
            || command.idempotency@.session_id != command.session@.session_id
            || command.event@.actor_account_id != Some(command.idempotency@.account_id)
            || command.event@.actor_device_id != Some(command.idempotency@.device_id))
            ==> result == Err::<TransitionDecision, _>(StoreError::Conflict),
        !is_digest(command.idempotency@.body_hash) && (existing is Some || command.apply_allowed)
            ==> result == Err::<TransitionDecision, _>(StoreError::Unavailable),
{
}

/// A session that is moved to its end cannot be relayed with the tokens that it had before, and one
/// that is moved on can: with a matching digest, a device of it that may act is authorised with the
/// epoch that the moved session has, and with no other.
pub proof fn a_move_decides_over_the_relay_tokens(
    command: &TransitionSessionCommand,
    existing: Option<ExistingSessionIdempotency>,
    replay: ReplayFacts,
    row: SessionRow,
    owns_device: bool,
    result: Result<TransitionDecision, StoreError>,
    request: &RelayAuthorizeRequest,
    device: Device,
    can_signal: bool,
    now: u64,
    request_id: &str,
    relayed: Result<RelayAuthorization, ApiError>,
)
    requires
        call_ensures(
            transition_session,
            (command, existing, replay, Some(row), owns_device),
            result,
        ),
        result is Ok,
        result->Ok_0 is Applied,
        call_ensures(
            relay_authorize,
            (
                request,
                Some(result->Ok_0->Applied_session),
                Some(device),
                can_signal,
                now,
                request_id,
            ),
            relayed,
        ),
    ensures
        relayed is Ok ==> request.relay_token_epoch == row.relay_token_epoch || command.session@.status
            == SessionStatus::Cancelled || command.session@.status == SessionStatus::Closed
            || command.session@.status == SessionStatus::Rejected || command.session@.status
            == SessionStatus::Failed,
        command.session@.status == SessionStatus::Closed && request.relay_token_epoch
            == row.relay_token_epoch ==> relayed is Err,
        command.session@.status == SessionStatus::Cancelled && request.relay_token_epoch
            == row.relay_token_epoch ==> relayed is Err,
        command.session@.status == SessionStatus::Rejected && request.relay_token_epoch
            == row.relay_token_epoch ==> relayed is Err,
        command.session@.status == SessionStatus::Failed && request.relay_token_epoch
            == row.relay_token_epoch ==> relayed is Err,
{
}

/// Each side of a session that may be relayed is authorised in its own role and in no other. With
/// an open, unexpired session that permits relaying, the current digest and epoch, and a device
/// with an unrevoked key that may act, the controller is authorised exactly from the controlling
/// device, the controlled side exactly from the controlled device, and no other role from any.
pub proof fn each_side_is_relayed_in_its_own_role(
    request: &RelayAuthorizeRequest,
    session: Session,
    device: Device,
    can_signal: bool,
    now: u64,
    request_id: &str,
    result: Result<RelayAuthorization, ApiError>,
)
    requires
        call_ensures(
            relay_authorize,
            (request, Some(session), Some(device), can_signal, now, request_id),
            result,
        ),
    ensures
        ({
            let open = can_signal && session@.session_expires_at_epoch_millis > now
                && session@.permissions.allow_relay && session@.permissions_digest
                == request.permissions_digest@ && session@.relay_token_epoch
                == request.relay_token_epoch && device@.public_key_revoked_at_epoch_millis is None
                && (device@.status == DeviceLifecycleStatus::Online || device@.status
                == DeviceLifecycleStatus::Offline || device@.status == DeviceLifecycleStatus::Busy);
            &&& !open ==> result is Err
            &&& request.role@ == "controller"@ ==> (result is Ok <==> open && device@.device_id
                == session@.controller_device_id)
            &&& request.role@ == "controlled"@ ==> (result is Ok <==> open && device@.device_id
                == session@.controlled_device_id)
            &&& request.role@ != "controller"@ && request.role@ != "controlled"@ ==> result is Err
            &&& result is Err ==> result->Err_0@.status == 403 && result->Err_0@.code
                == "relay_not_authorized"@
        }),
{
    lemma_roles_differ();
}

/// A relay authorisation is for the session and the device that were found. It ends within a
/// minute, and with the session if that ends earlier; nothing is authorised where one of the two
/// was not found.
pub proof fn a_relay_authorization_ends_with_its_session(
    request: &RelayAuthorizeRequest,
    session: Option<Session>,
    device: Option<Device>,
    can_signal: bool,
    now: u64,
    request_id: &str,
    result: Result<RelayAuthorization, ApiError>,
)
    requires
        call_ensures(
            relay_authorize,
            (request, session, device, can_signal, now, request_id),
            result,
        ),
    ensures
        session is None ==> result is Err && result->Err_0@.status == 404
            && result->Err_0@.code == "session_not_found"@,
        session is Some && device is None ==> result is Err && result->Err_0@.status == 403
            && result->Err_0@.code == "unknown_device"@,
        result is Ok ==> result->Ok_0.session@ == session->0@,
        result is Ok ==> result->Ok_0.device@ == device->0@,
        result is Ok ==> now < result->Ok_0.authorization_expires_at_epoch_millis
            <= session->0@.session_expires_at_epoch_millis,
        result is Ok ==> result->Ok_0.authorization_expires_at_epoch_millis <= now + 60_000,
        result is Ok ==> result->Ok_0.authorization_expires_at_epoch_millis
            == session->0@.session_expires_at_epoch_millis
            || result->Ok_0.authorization_expires_at_epoch_millis == now + 60_000
            || result->Ok_0.authorization_expires_at_epoch_millis == u64::MAX,
        result is Err ==> result->Err_0@.request_id == request_id@,
{
}

/// Who takes part in a session: the controller from its account and device, the controlled side
/// from the controlled device, whichever account owns it; each with an unrevoked key on a device of
/// that account that may act. Nobody takes part in another role.
pub proof fn each_side_takes_part_in_its_own_role(
    session: Session,
    device: Device,
    account_id: &str,
    device_id: &str,
    role: &str,
    request_id: &str,
    result: Result<(Session, Device), ApiError>,
)
    requires
        call_ensures(
            authorized_participant,
            (Some(session), Some(device), account_id, device_id, role, request_id),
            result,
        ),
    ensures
        ({
            let acts = device@.account_id == account_id@
                && device@.public_key_revoked_at_epoch_millis is None && (device@.status
                == DeviceLifecycleStatus::Online || device@.status == DeviceLifecycleStatus::Offline
                || device@.status == DeviceLifecycleStatus::Busy);
            &&& role@ == "controller"@ ==> (result is Ok <==> acts
                && session@.controller_account_id == account_id@ && session@.controller_device_id
                == device_id@)
            &&& role@ == "controlled"@ ==> (result is Ok <==> acts && session@.controlled_device_id
                == device_id@)
            &&& role@ != "controller"@ && role@ != "controlled"@ ==> result is Err
            &&& result is Ok ==> result->Ok_0.0@ == session@ && result->Ok_0.1@ == device@
            &&& result is Err ==> result->Err_0@.status == 403 && result->Err_0@.code
                == "session_participant_mismatch"@
        }),
{
    lemma_roles_differ();
}

/// Nobody takes part in a session that was not found, nor from a device that was not found.
pub proof fn nobody_takes_part_in_what_is_not_there(
    session: Option<Session>,
    device: Option<Device>,
    account_id: &str,
    device_id: &str,
    role: &str,
    request_id: &str,
    result: Result<(Session, Device), ApiError>,
)
    requires
        call_ensures(
            authorized_participant,
            (session, device, account_id, device_id, role, request_id),
            result,
        ),
    ensures
        session is None <==> result is Err && result->Err_0@.status == 404,
        session is None ==> result->Err_0@.code == "session_not_found"@,
        session is Some && device is None ==> result is Err && result->Err_0@.status == 403
            && result->Err_0@.code == "unknown_device"@,
        result is Err ==> result->Err_0@.request_id == request_id@,
{
}

/// A session can be connected to as long as it may signal and has not expired.
pub proof fn an_open_session_can_be_connected_to(
    session: &Session,
    can_signal: bool,
    now: u64,
    request_id: &str,
    result: Result<(), ApiError>,
)
    requires
        call_ensures(check_session_connectable, (session, can_signal, now, request_id), result),
    ensures
        result is Ok <==> can_signal && now < session@.session_expires_at_epoch_millis,
        result is Err ==> result->Err_0@.status == 403 && result->Err_0@.code
            == "session_not_connectable"@ && result->Err_0@.request_id == request_id@,
{
}

/// A device opens the signalling channel exactly with its account's token, under a session that is
/// still valid, and with the unrevoked key that is registered, in a status in which it may act.
pub proof fn a_device_signals_with_its_own_key(
    request: &SignalDeviceAuthRequest,
    claims: Option<&AccessClaims>,
    found: Option<FoundDevice>,
    request_id: &str,
    result: Result<Device, Fault>,
)
    requires
        call_ensures(signal_device_auth, (request, claims, found, request_id), result),
    ensures
        result is Ok <==> {
            &&& claims is Some
            &&& claims->0.account_id@ == request.account_id@
            &&& found is Some
            &&& found->0.session_valid
            &&& found->0.device@.account_id == request.account_id@
            &&& found->0.device@.public_key_id == request.public_key_id@
            &&& found->0.device@.public_key_version == request.public_key_version
            &&& found->0.device@.public_key_revoked_at_epoch_millis is None
            &&& (found->0.device@.status == DeviceLifecycleStatus::Online
                || found->0.device@.status == DeviceLifecycleStatus::Offline
                || found->0.device@.status == DeviceLifecycleStatus::Busy)
        },
        result is Ok ==> result->Ok_0@ == found->0.device@,
        claims is None ==> result is Err && result->Err_0 is Unauthorized,
        claims is Some && claims->0.account_id@ != request.account_id@ ==> result is Err
            && result->Err_0 is Refused && result->Err_0->Refused_0@.status == 403
            && result->Err_0->Refused_0@.code == "account_mismatch"@,
        claims is Some && claims->0.account_id@ == request.account_id@ && found is None
            ==> result is Err && result->Err_0 is Refused && result->Err_0->Refused_0@.status == 403
            && result->Err_0->Refused_0@.code == "unknown_device"@,
        claims is Some && claims->0.account_id@ == request.account_id@ && found is Some
            && !found->0.session_valid ==> result is Err && result->Err_0 is Unauthorized,
        result is Err && result->Err_0 is Unauthorized ==> claims is None || found is Some
            && !found->0.session_valid,
{
}

/// A session is opened exactly where the request is new and consistent, it joins two different
/// devices that both may act, the controlling one is of the account that asks, and the controlled
/// one allows remote desktop. What is recorded is the event of the request, with the session in it.
pub proof fn a_session_is_opened_between_two_devices_that_may_act(
    command: &CreateSessionCommand,
    existing: Option<ExistingSessionIdempotency>,
    replay: ReplayFacts,
    devices: &SessionDevices,
    result: Result<CreateSessionDecision, StoreError>,
)
    requires
        call_ensures(create_session, (command, existing, replay, devices), result),
        is_digest(command.idempotency@.body_hash),
        is_digest(command.policy_evaluation@.permissions_digest),
        is_digest(command.session@.permissions_digest),
    ensures
        result is Ok && result->Ok_0 is Created <==> {
            &&& existing is None
            &&& command.idempotency@.session_id == command.session@.session_id
            &&& command.event@.session_id == command.session@.session_id
            &&& command.policy_evaluation@.session_id == command.session@.session_id
            &&& command.policy_evaluation@.policy_evaluation_id
                == command.session@.policy_evaluation_id
            &&& command.session@.controller_device_id != command.session@.controlled_device_id
            &&& devices.controller is Some
            &&& devices.controlled is Some
            &&& devices.controller->0.account_id@ == command.session@.controller_account_id
            &&& (devices.controller->0.status@ == "online"@ || devices.controller->0.status@
                == "offline"@ || devices.controller->0.status@ == "busy"@)
            &&& (devices.controlled->0.status@ == "online"@ || devices.controlled->0.status@
                == "offline"@ || devices.controlled->0.status@ == "busy"@)
            &&& devices.allow_remote_desktop == Some(true)
        },
        existing is None && !(result is Ok) ==> result->Err_0 == StoreError::Conflict,
        result is Ok && result->Ok_0 is Created ==> {
            let event = result->Ok_0->Created_0@;
            &&& event.result_session == Some(command.session@)
            &&& event.event_id == command.event@.event_id
            &&& event.session_id == command.session@.session_id
            &&& event.event_type == command.event@.event_type
            &&& event.from_status == command.event@.from_status
            &&& event.to_status == command.event@.to_status
            &&& event.actor_type == command.event@.actor_type
            &&& event.actor_account_id == command.event@.actor_account_id
            &&& event.actor_device_id == command.event@.actor_device_id
            &&& event.actor_role == command.event@.actor_role
            &&& event.created_at_epoch_millis == command.event@.created_at_epoch_millis
        },
{
}

/// A request to open a session that was made before is answered from what it did then, if it is
/// the same request, and refused if the key was used for another one. Nothing is opened again.
pub proof fn a_session_is_opened_once_per_request(
    command: &CreateSessionCommand,
    existing: ExistingSessionIdempotency,
    replay: ReplayFacts,
    devices: &SessionDevices,
    result: Result<CreateSessionDecision, StoreError>,
)
    requires
        call_ensures(create_session, (command, Some(existing), replay, devices), result),
        is_digest(command.idempotency@.body_hash),
    ensures
        !(result is Ok && result->Ok_0 is Created),
        result is Ok && result->Ok_0 is BindingMismatch <==> existing.body_hash@ != hex_digest(
            encode_utf8(command.idempotency@.body_hash),
        ),
        existing.body_hash@ == hex_digest(encode_utf8(command.idempotency@.body_hash))
            && replay.event is Some && replay.event->0.result_session is Some
            && replay.event->0.result_session->0 is Ok
            && replay.event->0.result_session->0->Ok_0@.session_id == existing.resource_id@
            ==> result is Ok && result->Ok_0 is Replayed && result->Ok_0->Replayed_0@
            == replay.event->0.result_session->0->Ok_0@,
        existing.body_hash@ == hex_digest(encode_utf8(command.idempotency@.body_hash))
            && replay.event is Some && replay.event->0.result_session is None
            && replay.session is Some && replay.session->0 is Ok ==> result is Ok
            && result->Ok_0 is Replayed && result->Ok_0->Replayed_0@ == replay.session->0->Ok_0@,
        result is Ok && result->Ok_0 is Replayed ==> replay.event is Some,
{
}

/// Opening a session records it under its name, its policy evaluation under that one's name and
/// its request under the request's key, and adds one event and one entry to the logs. Every other
/// session, request and evaluation stays as it is.
pub proof fn opening_a_session_records_it(
    database: DatabaseModel,
    command: CreateSessionCommand,
    event: SessionEvent,
    other: Seq<char>,
)
    ensures
        ({
            let after = after_create_session(
                database,
                command,
                CreateSessionDecision::Created(event),
            );
            let session = command.session@;
            let evaluation = command.policy_evaluation@;
            &&& after.sessions.contains_key(session.session_id)
            &&& after.sessions[session.session_id] == session
            &&& after.policy_evaluations.contains_key(evaluation.policy_evaluation_id)
            &&& after.policy_evaluations[evaluation.policy_evaluation_id] == evaluation
            &&& after.session_idempotency.contains_key(command.storage_key@)
            &&& after.session_idempotency[command.storage_key@] == command.idempotency@
            &&& after.session_events == database.session_events.push(event@)
            &&& after.audit_logs == database.audit_logs.push(command.audit_entry@)
            &&& after.devices == database.devices
            &&& after.accounts == database.accounts
            &&& after.account_sessions == database.account_sessions
            &&& other != session.session_id ==> (after.sessions.contains_key(other)
                == database.sessions.contains_key(other) && after.sessions[other]
                == database.sessions[other])
            &&& other != command.storage_key@ ==> (after.session_idempotency.contains_key(other)
                == database.session_idempotency.contains_key(other)
                && after.session_idempotency[other] == database.session_idempotency[other])
        }),
{
}

/// A request to open a session that is refused as a mismatch changes nothing, and one that is
/// answered from what it did before puts that session in place and changes nothing else.
pub proof fn a_session_request_made_again_opens_nothing(
    database: DatabaseModel,
    command: CreateSessionCommand,
    session: Session,
)
    ensures
        after_create_session(database, command, CreateSessionDecision::BindingMismatch) == database,
        ({
            let after = after_create_session(
                database,
                command,
                CreateSessionDecision::Replayed(session),
            );
            &&& after.sessions[session@.session_id] == session@
            &&& after.session_events == database.session_events
            &&& after.session_idempotency == database.session_idempotency
            &&& after.policy_evaluations == database.policy_evaluations
            &&& after.audit_logs == database.audit_logs
        }),
{
}

/// Moving a session records the moved session under its name and the request under its key, and
/// adds one event and one entry to the logs; every other session stays as it is. A request that
/// does not move the session adds nothing to the logs.
pub proof fn moving_a_session_records_it(
    database: DatabaseModel,
    command: TransitionSessionCommand,
    session: Session,
    event: SessionEvent,
    event_id: String,
    other: Seq<char>,
)
    ensures
        ({
            let after = after_transition(
                database,
                command,
                TransitionDecision::Applied { session, event },
            );
            &&& after.sessions.contains_key(session@.session_id)
            &&& after.sessions[session@.session_id] == session@
            &&& after.session_idempotency.contains_key(command.storage_key@)
            &&& after.session_idempotency[command.storage_key@] == command.idempotency@
            &&& after.session_events == database.session_events.push(event@)
            &&& after.audit_logs == database.audit_logs.push(command.audit_entry@)
            &&& after.policy_evaluations == database.policy_evaluations
            &&& after.devices == database.devices
            &&& other != session@.session_id ==> (after.sessions.contains_key(other)
                == database.sessions.contains_key(other) && after.sessions[other]
                == database.sessions[other])
        }),
        ({
            let after = after_transition(
                database,
                command,
                TransitionDecision::Replayed { session, event_id },
            );
            &&& after.sessions[session@.session_id] == session@
            &&& after.session_events == database.session_events
            &&& after.session_idempotency == database.session_idempotency
            &&& after.audit_logs == database.audit_logs
        }),
        after_transition(database, command, TransitionDecision::InvalidTransition) == database,
        after_transition(database, command, TransitionDecision::BindingMismatch) == database,
        after_transition(database, command, TransitionDecision::NotFound) == database,
        after_transition(database, command, TransitionDecision::StateConflict) == database,
{
}

} // verus!
