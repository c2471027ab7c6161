use crate::api::{api_error, fault_of, refusal, ApiError, ApiErrorModel, Fault, FaultModel};
use crate::auth::AccessClaims;
use crate::device::{Device, DeviceModel};
use crate::device_authority::{authorizable, is_authorizable};
use crate::registration::later;
use crate::session::{Session, SessionModel};
use crate::text::text_eq;
use vstd::prelude::*;

verus! {

/// A request of the signal server to authenticate a device.
#[derive(Debug, PartialEq, Eq)]
pub struct SignalDeviceAuthRequest {
    pub access_token: String,
    pub account_id: String,
    pub device_id: String,
    pub public_key_id: String,
    pub public_key_version: u32,
}

/// A request of the signal server to authorise a device in a session.
#[derive(Debug, PartialEq, Eq)]
pub struct SessionAuthorizeRequest {
    pub account_id: String,
    pub device_id: String,
    pub session_id: String,
    pub role: String,
}

/// A request of the relay server to authorise a device in a session.
#[derive(Debug, PartialEq, Eq)]
pub struct RelayAuthorizeRequest {
    pub session_id: String,
    pub device_id: String,
    pub role: String,
    pub permissions_digest: String,
    pub relay_token_epoch: u64,
}

/// How long a relay may rely on an authorisation.
pub const RELAY_AUTHORIZATION_MILLIS: u64 = 60_000;

/// A device, and whether the session that it is asked for in can be used.
#[derive(Debug, PartialEq, Eq)]
pub struct FoundDevice {
    pub session_valid: bool,
    pub device: Device,
}

/// Why the authentication of a device is refused. `claims` are those of the access token, where it
/// stands; `found` is the device, where it is registered.
pub open spec fn signal_auth_fault(
    request: SignalDeviceAuthRequest,
    claims: Option<&AccessClaims>,
    found: Option<FoundDevice>,
    request_id: Seq<char>,
) -> Option<FaultModel> {
    if claims is None {
        Some(FaultModel::Unauthorized)
    } else if claims->0.account_id@ != request.account_id@ {
        Some(
            FaultModel::Refused(
                api_error(
                    403,
                    "account_mismatch"@,
                    "access token account does not match the handshake account"@,
                    request_id,
                ),
            ),
        )
    } else if found is None {
        Some(
            FaultModel::Refused(
                api_error(403, "unknown_device"@, "device is not registered"@, request_id),
            ),
        )
    } else if !found->0.session_valid {
        Some(FaultModel::Unauthorized)
    } else if !device_has_key(request, claims->0.account_id@, found->0.device@) {
        Some(
            FaultModel::Refused(
                api_error(
                    403,
                    "device_key_mismatch"@,
                    "device ownership or public key version does not match"@,
                    request_id,
                ),
            ),
        )
    } else {
        None
    }
}

/// Whether a device belongs to an account, has the key that a request names, and may act.
pub open spec fn device_has_key(
    request: SignalDeviceAuthRequest,
    account_id: Seq<char>,
    device: DeviceModel,
) -> bool {
    &&& device.account_id == account_id
    &&& device.public_key_id == request.public_key_id@
    &&& device.public_key_version == request.public_key_version
    &&& device.public_key_revoked_at_epoch_millis is None
    &&& authorizable(device.status)
}

/// Authenticates a device for the signal server, and gives the device.
pub fn signal_device_auth(
    request: &SignalDeviceAuthRequest,
    claims: Option<&AccessClaims>,
    found: Option<FoundDevice>,
    request_id: &str,
) -> (result: Result<Device, Fault>)
    ensures
        fault_of(result) == signal_auth_fault(*request, claims, found, request_id@),
        result is Ok ==> result->Ok_0@ == found->0.device@,
{
    let claims = match claims {
        Some(claims) => claims,
        None => {
            return Err(Fault::Unauthorized);
        },
    };
    if !text_eq(claims.account_id.as_str(), request.account_id.as_str()) {
        return Err(
            Fault::Refused(
                ApiError::forbidden(
                    "account_mismatch",
                    "access token account does not match the handshake account",
                    request_id,
                ),
            ),
        );
    }
    let found = match found {
        Some(found) => found,
        None => {
            return Err(
                Fault::Refused(
                    ApiError::forbidden("unknown_device", "device is not registered", request_id),
                ),
            );
        },
    };
    if !found.session_valid {
        return Err(Fault::Unauthorized);
    }
    let device = found.device;
    if !text_eq(device.account_id.as_str(), claims.account_id.as_str()) || !text_eq(
        device.public_key_id.as_str(),
        request.public_key_id.as_str(),
    ) || device.public_key_version != request.public_key_version
        || device.public_key_revoked_at_epoch_millis.is_some() || !is_authorizable(
        device.status,
    ) {
        return Err(
            Fault::Refused(
                ApiError::forbidden(
                    "device_key_mismatch",
                    "device ownership or public key version does not match",
                    request_id,
                ),
            ),
        );
    }
    Ok(device)
}

/// Whether a device takes part in a session in the role that it claims.
pub open spec fn takes_part(
    session: SessionModel,
    device: DeviceModel,
    account_id: Seq<char>,
    device_id: Seq<char>,
    role: Seq<char>,
) -> bool {
    &&& device.account_id == account_id
    &&& if role == "controller"@ {
        session.controller_account_id == account_id && session.controller_device_id == device_id
    } else {
        role == "controlled"@ && session.controlled_device_id == device_id
    }
    &&& device.public_key_revoked_at_epoch_millis is None
    &&& authorizable(device.status)
}

/// The refusal where a session is not there.
pub open spec fn session_missing(request_id: Seq<char>) -> ApiErrorModel {
    api_error(404, "session_not_found"@, "session was not found"@, request_id)
}

/// The refusal where a device is not there.
pub open spec fn device_missing(request_id: Seq<char>) -> ApiErrorModel {
    api_error(403, "unknown_device"@, "device is not registered"@, request_id)
}

/// Finds the session and the device of a party.
pub fn authorized_participant(
    session: Option<Session>,
    device: Option<Device>,
    account_id: &str,
    device_id: &str,
    role: &str,
    request_id: &str,
) -> (result: Result<(Session, Device), ApiError>)
    ensures
        refusal(result) == if session is None {
            Some(session_missing(request_id@))
        } else if device is None {
            Some(device_missing(request_id@))
        } else if !takes_part(session->0@, device->0@, account_id@, device_id@, role@) {
            Some(
                api_error(
                    403,
                    "session_participant_mismatch"@,
                    "account, device, role, or public key does not match the session"@,
                    request_id@,
                ),
            )
        } else {
            None
        },
        result is Ok ==> result->Ok_0.0@ == session->0@ && result->Ok_0.1@ == device->0@,
{
    let session = match session {
        Some(session) => session,
        None => {
            return Err(
                ApiError::not_found("session_not_found", "session was not found", request_id),
            );
        },
    };
    let device = match device {
        Some(device) => device,
        None => {
            return Err(
                ApiError::forbidden("unknown_device", "device is not registered", request_id),
            );
        },
    };
    let in_role = if text_eq(role, "controller") {
        text_eq(session.controller_account_id.as_str(), account_id) && text_eq(
            session.controller_device_id.as_str(),
            device_id,
        )
    } else {
        text_eq(role, "controlled") && text_eq(session.controlled_device_id.as_str(), device_id)
    };
    if !text_eq(device.account_id.as_str(), account_id) || !in_role
        || device.public_key_revoked_at_epoch_millis.is_some() || !is_authorizable(
        device.status,
    ) {
        return Err(
            ApiError::forbidden(
                "session_participant_mismatch",
                "account, device, role, or public key does not match the session",
                request_id,
            ),
        );
    }
    Ok((session, device))
}

/// Checks that a session may be connected: its status allows signalling and its time has not
/// passed.
pub fn check_session_connectable(
    session: &Session,
    can_signal: bool,
    now: u64,
    request_id: &str,
) -> (result: Result<(), ApiError>)
    ensures
        refusal(result) == if can_signal && session@.session_expires_at_epoch_millis > now {
            None
        } else {
            Some(
                api_error(
                    403,
                    "session_not_connectable"@,
                    "session has not reached an API-authorized connection state"@,
                    request_id@,
                ),
            )
        },
{
    if !can_signal || session.session_expires_at_epoch_millis <= now {
        return Err(
            ApiError::forbidden(
                "session_not_connectable",
                "session has not reached an API-authorized connection state",
                request_id,
            ),
        );
    }
    Ok(())
}

/// Whether a relay may carry a device's part of a session: in its role, while the session can be
/// signalled and relaying is permitted, under the current permissions and relay tokens, and with a
/// device that may act.
pub open spec fn relay_fits(
    request: RelayAuthorizeRequest,
    session: SessionModel,
    device: DeviceModel,
    can_signal: bool,
    now: u64,
) -> bool {
    &&& if request.role@ == "controller"@ {
        session.controller_device_id == device.device_id
    } else {
        request.role@ == "controlled"@ && session.controlled_device_id == device.device_id
    }
    &&& can_signal
    &&& session.session_expires_at_epoch_millis > now
    &&& session.permissions.allow_relay
    &&& session.permissions_digest == request.permissions_digest@
    &&& session.relay_token_epoch == request.relay_token_epoch
    &&& device.public_key_revoked_at_epoch_millis is None
    &&& authorizable(device.status)
}

/// What a relay is told: the session, the device, and until when it may rely on this.
#[derive(Debug, PartialEq, Eq)]
pub struct RelayAuthorization {
    pub session: Session,
    pub device: Device,
    pub authorization_expires_at_epoch_millis: u64,
}

/// Until when a relay may rely on an authorisation: for a minute, and not past the session.
pub open spec fn relay_expiry(session_expires: u64, now: u64) -> u64 {
    let soon = later(now, RELAY_AUTHORIZATION_MILLIS);
    if session_expires <= soon {
        session_expires
    } else {
        soon
    }
}

/// Authorises a device's part of a session for a relay. `can_signal` says whether the status of
/// the session allows signalling.
pub fn relay_authorize(
    request: &RelayAuthorizeRequest,
    session: Option<Session>,
    device: Option<Device>,
    can_signal: bool,
    now: u64,
    request_id: &str,
) -> (result: Result<RelayAuthorization, ApiError>)
    ensures
        refusal(result) == if session is None {
            Some(session_missing(request_id@))
        } else if device is None {
            Some(device_missing(request_id@))
        } else if !relay_fits(*request, session->0@, device->0@, can_signal, now) {
            Some(
                api_error(
                    403,
                    "relay_not_authorized"@,
                    "relay binding, session state, permission, epoch, or device key is invalid"@,
                    request_id@,
                ),
            )
        } else {
            None
        },
        result is Ok ==> result->Ok_0.session@ == session->0@ && result->Ok_0.device@
            == device->0@,
        result is Ok ==> result->Ok_0.authorization_expires_at_epoch_millis == relay_expiry(
            session->0@.session_expires_at_epoch_millis,
            now,
        ),
{
    let session = match session {
        Some(session) => session,
        None => {
            return Err(
                ApiError::not_found("session_not_found", "session was not found", request_id),
            );
        },
    };
    let device = match device {
        Some(device) => device,
        None => {
            return Err(
                ApiError::forbidden("unknown_device", "device is not registered", request_id),
            );
        },
    };
    let in_role = if text_eq(request.role.as_str(), "controller") {
        text_eq(session.controller_device_id.as_str(), device.device_id.as_str())
    } else {
        text_eq(request.role.as_str(), "controlled") && text_eq(
            session.controlled_device_id.as_str(),
            device.device_id.as_str(),
        )
    };
    if !in_role || !can_signal || session.session_expires_at_epoch_millis <= now
        || !session.permissions.allow_relay || !text_eq(
        session.permissions_digest.as_str(),
        request.permissions_digest.as_str(),
    ) || session.relay_token_epoch != request.relay_token_epoch
        || device.public_key_revoked_at_epoch_millis.is_some() || !is_authorizable(
        device.status,
    ) {
        return Err(
            ApiError::forbidden(
                "relay_not_authorized",
                "relay binding, session state, permission, epoch, or device key is invalid",
                request_id,
            ),
        );
    }
    let soon: u64 = now.saturating_add(RELAY_AUTHORIZATION_MILLIS);
    let authorization_expires_at_epoch_millis: u64 = if session.session_expires_at_epoch_millis
        <= soon {
        session.session_expires_at_epoch_millis
    } else {
        soon
    };
    Ok(RelayAuthorization { session, device, authorization_expires_at_epoch_millis })
}

/// The relay tokens of a session that has ended, or that a device lost its authority in, authorise
/// nothing any more: the epoch that they carry is behind.
pub proof fn outdated_relay_tokens_authorise_nothing(
    request: RelayAuthorizeRequest,
    before: SessionModel,
    after: SessionModel,
    device: DeviceModel,
    can_signal: bool,
    now: u64,
)
    requires
        request.relay_token_epoch == before.relay_token_epoch,
        after.relay_token_epoch == before.relay_token_epoch + 1,
    ensures
        !relay_fits(request, after, device, can_signal, now),
{
}

} // verus!
