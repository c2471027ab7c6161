use crate::api::{api_error, refusal, ApiError, ApiErrorModel, Fault, FaultModel};
use crate::audit::{AuditEntry, AuditEntryModel, JsonModel, JsonValue};
use crate::auth::store_fault;
use crate::device::{
    Architecture, Device, DeviceCapabilities, DeviceLifecycleStatus, DeviceModel, Platform,
};
use crate::device_authority::{authorizable, is_authorizable};
use crate::hash::{sha256, sha256_digest};
use crate::names::terminal_status;
use crate::registration::{
    DeviceRegistrationCommand, DeviceRegistrationOutcome, InitialDeviceSignatureProof,
};
use crate::store::StoreError;
use crate::table::{Record, Table};
use crate::text::{blank, chars_of, is_blank, opt_text, text_eq, trim_text, trimmed};
use vstd::prelude::*;
use vstd::utf8::encode_utf8;

verus! {

/// A request to register a device.
#[derive(Debug, PartialEq, Eq)]
pub struct RegisterDeviceRequest {
    pub device_enrollment_grant: Option<String>,
    pub device_id: String,
    pub display_name: String,
    pub platform: Platform,
    pub os_version: String,
    pub arch: Architecture,
    pub role_capabilities: DeviceCapabilities,
    pub public_key: String,
}

/// A request to replace the key of a device.
#[derive(Debug, PartialEq, Eq)]
pub struct RotateDeviceKeyRequest {
    pub current_public_key_id: String,
    pub current_public_key_version: u32,
    pub new_public_key: String,
    pub new_public_key_proof: String,
}

/// What a request asks to be done to a device.
#[derive(Debug, Clone, Copy, PartialEq, Eq, Structural)]
pub enum DeviceActionRequest {
    Disable,
    Restore,
    Unbind,
    RevokePublicKey,
}

/// A request to rename a device or to change its lifecycle.
#[derive(Debug, PartialEq, Eq)]
pub struct UpdateDeviceRequest {
    pub display_name: Option<String>,
    pub action: Option<DeviceActionRequest>,
}

/// An ASCII letter, a digit, a hyphen or an underscore.
pub open spec fn name_byte(byte: u8) -> bool {
    0x30 <= byte <= 0x39 || 0x41 <= byte <= 0x5a || 0x61 <= byte <= 0x7a || byte == 0x2d || byte
        == 0x5f
}

/// Up to 128 ASCII letters, digits, hyphens and underscores, and at least one.
pub open spec fn plain_name(text: Seq<char>) -> bool {
    let bytes = encode_utf8(text);
    &&& text.len() > 0
    &&& bytes.len() <= 128
    &&& forall|i: int| 0 <= i < bytes.len() ==> name_byte(#[trigger] bytes[i])
}

fn is_plain_name(text: &str) -> (plain: bool)
    ensures
        plain == plain_name(text@),
{
    let bytes = text.as_bytes();
    if text.is_empty() || bytes.len() > 128 {
        return false;
    }
    let mut i: usize = 0;
    while i < bytes.len()
        invariant
            i <= bytes.len(),
            bytes@ == encode_utf8(text@),
            forall|k: int| 0 <= k < i ==> name_byte(#[trigger] bytes@[k]),
        decreases bytes.len() - i,
    {
        let byte: u8 = bytes[i];
        let plain = (0x30 <= byte && byte <= 0x39) || (0x41 <= byte && byte <= 0x5a) || (0x61
            <= byte && byte <= 0x7a) || byte == 0x2d || byte == 0x5f;
        if !plain {
            assert(!name_byte(bytes@[i as int]));
            return false;
        }
        i = i + 1;
    }
    true
}

/// Whether a device may ask for its capabilities: every device is a controller, transfers and
/// unattended access are not asked for at registration, and iOS is only a controller.
pub open spec fn capabilities_allowed(
    platform: Platform,
    capabilities: DeviceCapabilities,
) -> bool {
    &&& capabilities.controller
    &&& !capabilities.file_transfer
    &&& !capabilities.unattended
    &&& platform == Platform::Ios ==> !capabilities.controlled
}

/// Why a request to register a device is refused.
pub open spec fn device_request_refusal(
    request: RegisterDeviceRequest,
    request_id: Seq<char>,
) -> Option<ApiErrorModel> {
    if !plain_name(request.device_id@) {
        Some(
            api_error(
                400,
                "invalid_device_id"@,
                "device_id must contain 1 to 128 ASCII letters, digits, '-' or '_'"@,
                request_id,
            ),
        )
    } else if blank(request.display_name@) || encode_utf8(request.display_name@).len() > 100
        || blank(request.os_version@) || encode_utf8(request.os_version@).len() > 100 {
        Some(
            api_error(
                400,
                "invalid_device_metadata"@,
                "display_name and os_version must contain 1 to 100 characters"@,
                request_id,
            ),
        )
    } else if !capabilities_allowed(request.platform, request.role_capabilities) {
        Some(
            api_error(
                400,
                "invalid_platform_capability"@,
                "registration capabilities do not match the platform enrollment policy"@,
                request_id,
            ),
        )
    } else {
        None
    }
}

/// Checks a request to register a device.
pub fn validate_device_request(request: &RegisterDeviceRequest, request_id: &str) -> (result:
    Result<(), ApiError>)
    ensures
        refusal(result) == device_request_refusal(*request, request_id@),
{
    if !is_plain_name(request.device_id.as_str()) {
        return Err(
            ApiError::bad_request(
                "invalid_device_id",
                "device_id must contain 1 to 128 ASCII letters, digits, '-' or '_'",
                request_id,
            ),
        );
    }
    if is_blank(request.display_name.as_str()) || request.display_name.as_str().as_bytes().len()
        > 100 || is_blank(request.os_version.as_str())
        || request.os_version.as_str().as_bytes().len() > 100 {
        return Err(
            ApiError::bad_request(
                "invalid_device_metadata",
                "display_name and os_version must contain 1 to 100 characters",
                request_id,
            ),
        );
    }
    let capabilities = request.role_capabilities;
    if !capabilities.controller || capabilities.file_transfer || capabilities.unattended || (
    request.platform == Platform::Ios && capabilities.controlled) {
        return Err(
            ApiError::bad_request(
                "invalid_platform_capability",
                "registration capabilities do not match the platform enrollment policy",
                request_id,
            ),
        );
    }
    Ok(())
}

/// The position of the first dot of a text, at or after a position.
pub open spec fn first_dot(text: Seq<char>, from: int) -> Option<int>
    decreases text.len() - from,
{
    if from < 0 || from >= text.len() {
        None
    } else if text[from] == '.' {
        Some(from)
    } else {
        first_dot(text, from + 1)
    }
}

/// The name and the secret that a grant token holds, where it has a dot between them.
pub open spec fn token_parts(token: Seq<char>) -> Option<(Seq<char>, Seq<char>)> {
    match first_dot(token, 0) {
        Some(at) => Some((token.subrange(0, at), token.subrange(at + 1, token.len() as int))),
        None => None,
    }
}

/// Why a grant token is refused.
pub open spec fn grant_token_refusal(token: Seq<char>, request_id: Seq<char>) -> Option<
    ApiErrorModel,
> {
    match token_parts(token) {
        None => Some(
            api_error(
                400,
                "device_enrollment_grant_required"@,
                "device_enrollment_grant must contain a grant id and secret"@,
                request_id,
            ),
        ),
        Some((grant_id, grant_secret)) => if plain_name(grant_id) && plain_name(grant_secret) {
            None
        } else {
            Some(
                api_error(
                    400,
                    "device_enrollment_grant_required"@,
                    "device_enrollment_grant is malformed"@,
                    request_id,
                ),
            )
        },
    }
}

/// Splits a grant token into the name and the secret of the grant.
pub fn parse_enrollment_grant<'a>(value: &'a str, request_id: &str) -> (result: Result<
    (&'a str, &'a str),
    ApiError,
>)
    ensures
        refusal(result) == grant_token_refusal(value@, request_id@),
        result is Ok ==> token_parts(value@) == Some((result->Ok_0.0@, result->Ok_0.1@)),
{
    let characters = chars_of(value);
    let len: usize = characters.len();
    let mut at: usize = 0;
    while at < len && characters[at] != '.'
        invariant
            at <= len,
            len == characters.len(),
            characters@ == value@,
            first_dot(value@, 0) == first_dot(value@, at as int),
        decreases len - at,
    {
        at = at + 1;
    }
    if at == len {
        return Err(
            ApiError::bad_request(
                "device_enrollment_grant_required",
                "device_enrollment_grant must contain a grant id and secret",
                request_id,
            ),
        );
    }
    let grant_id = value.substring_char(0, at);
    let grant_secret = value.substring_char(at + 1, len);
    if !is_plain_name(grant_id) || !is_plain_name(grant_secret) {
        return Err(
            ApiError::bad_request(
                "device_enrollment_grant_required",
                "device_enrollment_grant is malformed",
                request_id,
            ),
        );
    }
    Ok((grant_id, grant_secret))
}

proof fn lemma_first_dot(text: Seq<char>, from: int, at: int)
    requires
        0 <= from <= at < text.len(),
        text[at] == '.',
        forall|i: int| from <= i < at ==> text[i] != '.',
    ensures
        first_dot(text, from) == Some(at),
    decreases at - from,
{
    if from < at {
        lemma_first_dot(text, from + 1, at);
    }
}

/// A plain name is plain in each of its characters: it has no dot.
proof fn lemma_plain_names_have_no_dot(name: Seq<char>)
    requires
        plain_name(name),
    ensures
        forall|i: int| 0 <= i < name.len() ==> name[i] != '.',
{
    assert forall|i: int| 0 <= i < name.len() implies name[i] != '.' by {
        if name[i] == '.' {
            lemma_byte_of_char(name, i);
        }
    }
}

proof fn lemma_byte_of_char(text: Seq<char>, at: int)
    requires
        0 <= at < text.len(),
        text[at] == '.',
    ensures
        exists|k: int|
            0 <= k < encode_utf8(text).len() && #[trigger] encode_utf8(text)[k] == 0x2eu8,
    decreases text.len(),
{
    vstd::utf8::char_is_scalar(text[0]);
    let rest = text.drop_first();
    let head = vstd::utf8::encode_scalar(text[0] as u32);
    let tail = encode_utf8(rest);
    assert(encode_utf8(text) == head + tail);
    if at == 0 {
        assert((0x2eu32 & 0x7f) as u8 == 0x2eu8) by (bit_vector);
        assert(head =~= seq![0x2eu8]);
        assert(encode_utf8(text)[0] == 0x2eu8);
    } else {
        assert(rest[at - 1] == '.');
        lemma_byte_of_char(rest, at - 1);
        let k = choose|k: int| 0 <= k < tail.len() && #[trigger] tail[k] == 0x2eu8;
        assert(encode_utf8(text)[head.len() + k] == tail[k]);
    }
}

/// A grant token reads back as the name and the secret that it was made of.
pub proof fn grant_tokens_round_trip(grant_id: Seq<char>, grant_secret: Seq<char>)
    requires
        plain_name(grant_id),
        plain_name(grant_secret),
    ensures
        token_parts(grant_id + "."@ + grant_secret) == Some((grant_id, grant_secret)),
        grant_token_refusal(grant_id + "."@ + grant_secret, Seq::empty()) is None,
{
    reveal_strlit(".");
    let token = grant_id + "."@ + grant_secret;
    let at = grant_id.len() as int;
    lemma_plain_names_have_no_dot(grant_id);
    assert(token[at] == '.');
    assert forall|i: int| 0 <= i < at implies token[i] != '.' by {
        assert(token[i] == grant_id[i]);
    }
    lemma_first_dot(token, 0, at);
    assert(token.subrange(0, at) =~= grant_id);
    assert(token.subrange(at + 1, token.len() as int) =~= grant_secret);
}

/// The capabilities that a device is registered with: it is a controller, and may be controlled
/// where it asks to be and is not iOS.
pub open spec fn granted_capabilities(request: RegisterDeviceRequest) -> DeviceCapabilities {
    DeviceCapabilities {
        controller: true,
        controlled: request.platform != Platform::Ios && request.role_capabilities.controlled,
        file_transfer: false,
        unattended: false,
    }
}

/// A device as it is registered: with a first key, and offline.
pub open spec fn registered_device(
    request: RegisterDeviceRequest,
    account_id: Seq<char>,
    public_key_id: Seq<char>,
    public_key: [u8; 32],
    now: u64,
) -> DeviceModel {
    DeviceModel {
        device_id: request.device_id@,
        account_id,
        display_name: trimmed(request.display_name@),
        platform: request.platform,
        os_version: trimmed(request.os_version@),
        arch: request.arch,
        capabilities: granted_capabilities(request),
        public_key_id,
        public_key,
        public_key_version: 1,
        public_key_revoked_at_epoch_millis: None,
        status: DeviceLifecycleStatus::Offline,
        last_seen_epoch_millis: None,
        created_at_epoch_millis: now,
        updated_at_epoch_millis: now,
    }
}

/// The device that a request registers.
pub fn device_to_register(
    request: &RegisterDeviceRequest,
    account_id: &str,
    public_key_id: String,
    public_key: [u8; 32],
    now: u64,
) -> (device: Device)
    ensures
        device@ == registered_device(*request, account_id@, public_key_id@, public_key, now),
{
    let capabilities = match request.platform {
        Platform::Ios => DeviceCapabilities {
            controller: true,
            controlled: false,
            file_transfer: false,
            unattended: false,
        },
        _ => DeviceCapabilities {
            controller: true,
            controlled: request.role_capabilities.controlled,
            file_transfer: false,
            unattended: false,
        },
    };
    Device {
        device_id: request.device_id.clone(),
        account_id: account_id.to_owned(),
        display_name: trim_text(request.display_name.as_str()).to_owned(),
        platform: request.platform,
        os_version: trim_text(request.os_version.as_str()).to_owned(),
        arch: request.arch,
        capabilities,
        public_key_id,
        public_key,
        public_key_version: 1,
        public_key_revoked_at_epoch_millis: None,
        status: DeviceLifecycleStatus::Offline,
        last_seen_epoch_millis: None,
        created_at_epoch_millis: now,
        updated_at_epoch_millis: now,
    }
}

/// iOS devices control and are never controlled, and what a valid request asks for is what is
/// granted.
pub proof fn ios_is_only_a_controller(request: RegisterDeviceRequest, request_id: Seq<char>)
    requires
        device_request_refusal(request, request_id) is None,
    ensures
        granted_capabilities(request) == request.role_capabilities,
        granted_capabilities(request).controller,
        request.platform == Platform::Ios ==> !granted_capabilities(request).controlled,
{
}

/// An entry of the audit log for something that a device did to a device.
pub open spec fn device_entry(
    audit_id: Seq<char>,
    account_id: Seq<char>,
    actor_device_id: Seq<char>,
    target_device_id: Seq<char>,
    action: Seq<char>,
    metadata: Map<Seq<char>, JsonModel>,
    request_id: Seq<char>,
    now: u64,
) -> AuditEntryModel {
    AuditEntryModel {
        audit_id,
        actor_type: "device"@,
        actor_account_id: Some(account_id),
        actor_device_id: Some(actor_device_id),
        actor_role: Some("none"@),
        actor_service: None,
        target_device_id: Some(target_device_id),
        session_id: None,
        action,
        result: "success"@,
        reason: None,
        metadata,
        request_id,
        created_at_epoch_millis: now,
    }
}

/// An entry of the audit log for something that a device did to a device.
pub fn device_audit_entry(
    audit_id: String,
    account_id: &str,
    actor_device_id: &str,
    target_device_id: &str,
    action: &str,
    metadata: Table<JsonValue>,
    request_id: &str,
    now: u64,
) -> (entry: AuditEntry)
    ensures
        entry@ == device_entry(
            audit_id@,
            account_id@,
            actor_device_id@,
            target_device_id@,
            action@,
            metadata@,
            request_id@,
            now,
        ),
{
    AuditEntry {
        audit_id,
        actor_type: "device".to_owned(),
        actor_account_id: Some(account_id.to_owned()),
        actor_device_id: Some(actor_device_id.to_owned()),
        actor_role: Some("none".to_owned()),
        actor_service: None,
        target_device_id: Some(target_device_id.to_owned()),
        session_id: None,
        action: action.to_owned(),
        result: "success".to_owned(),
        reason: None,
        metadata,
        request_id: request_id.to_owned(),
        created_at_epoch_millis: now,
    }
}

/// The names that were drawn for the records of a registration.
#[derive(Debug, PartialEq, Eq)]
pub struct RegistrationDraws {
    pub trusted_device_id: String,
    pub registration_audit_id: String,
    pub grant_audit_id: String,
    pub trust_audit_id: String,
}

/// Builds the command that registers a device. `binding_hash` is the digest of the whole request.
pub fn build_registration(
    grant_id: &str,
    grant_secret: &str,
    account_session_id: &str,
    protocol_version: u16,
    binding_hash: [u8; 32],
    device: Device,
    signature_proof: InitialDeviceSignatureProof,
    draws: RegistrationDraws,
    request_id: &str,
    now: u64,
) -> (command: DeviceRegistrationCommand)
    ensures
        command.grant_id@ == grant_id@,
        command.grant_secret_hash@ == sha256_digest(encode_utf8(grant_secret@)),
        command.account_id@ == device@.account_id,
        command.account_session_id@ == account_session_id@,
        command.protocol_version == protocol_version,
        command.registration_request_binding_hash == binding_hash,
        command.device@ == device@,
        opt_text(command.trusted_device_id) == Some(draws.trusted_device_id@),
        command.signature_proof == signature_proof,
        command.now_epoch_millis == now,
        ({
            let empty = Map::<Seq<char>, JsonModel>::empty();
            let account = device@.account_id;
            let id = device@.device_id;
            &&& command.registration_audit_entry@ == device_entry(
                draws.registration_audit_id@,
                account,
                id,
                id,
                "device_registered"@,
                empty,
                request_id@,
                now,
            )
            &&& command.grant_audit_entry@ == device_entry(
                draws.grant_audit_id@,
                account,
                id,
                id,
                "device_enrollment_grant_consumed"@,
                empty,
                request_id@,
                now,
            )
            &&& command.trusted_device_audit_entry is Some
            &&& command.trusted_device_audit_entry->0@ == device_entry(
                draws.trust_audit_id@,
                account,
                id,
                id,
                "trusted_device_added"@,
                empty,
                request_id@,
                now,
            )
        }),
{
    let account_id = device.account_id.clone();
    let device_id = device.device_id.clone();
    let registration_audit_entry = device_audit_entry(
        draws.registration_audit_id,
        account_id.as_str(),
        device_id.as_str(),
        device_id.as_str(),
        "device_registered",
        Table::new(),
        request_id,
        now,
    );
    let grant_audit_entry = device_audit_entry(
        draws.grant_audit_id,
        account_id.as_str(),
        device_id.as_str(),
        device_id.as_str(),
        "device_enrollment_grant_consumed",
        Table::new(),
        request_id,
        now,
    );
    let trusted_device_audit_entry = device_audit_entry(
        draws.trust_audit_id,
        account_id.as_str(),
        device_id.as_str(),
        device_id.as_str(),
        "trusted_device_added",
        Table::new(),
        request_id,
        now,
    );
    DeviceRegistrationCommand {
        grant_id: grant_id.to_owned(),
        grant_secret_hash: sha256(grant_secret.as_bytes()),
        account_id,
        account_session_id: account_session_id.to_owned(),
        protocol_version,
        registration_request_binding_hash: binding_hash,
        device,
        trusted_device_id: Some(draws.trusted_device_id),
        registration_audit_entry,
        grant_audit_entry,
        trusted_device_audit_entry: Some(trusted_device_audit_entry),
        signature_proof,
        now_epoch_millis: now,
    }
}

/// Why a registration request is refused before its signature is looked at.
pub open spec fn registration_request_refusal(
    request: RegisterDeviceRequest,
    public_key: Option<[u8; 32]>,
    request_id: Seq<char>,
) -> Option<ApiErrorModel> {
    let device_refusal = device_request_refusal(request, request_id);
    if device_refusal is Some {
        device_refusal
    } else if request.device_enrollment_grant is None {
        Some(
            api_error(
                400,
                "device_enrollment_grant_required"@,
                "device_enrollment_grant is required"@,
                request_id,
            ),
        )
    } else if grant_token_refusal(request.device_enrollment_grant->0@, request_id) is Some {
        grant_token_refusal(request.device_enrollment_grant->0@, request_id)
    } else if public_key is None {
        Some(
            api_error(
                400,
                "invalid_public_key"@,
                "public_key must encode exactly 32 Ed25519 bytes"@,
                request_id,
            ),
        )
    } else {
        None
    }
}

/// A registration request that was read: the two parts of its grant token, and its key.
#[derive(Debug, PartialEq, Eq)]
pub struct RegistrationRequestParts<'a> {
    pub grant_id: &'a str,
    pub grant_secret: &'a str,
    pub public_key: [u8; 32],
}

/// Checks a registration request, whose key decodes to `public_key` if it decodes.
pub fn check_registration_request<'a>(
    request: &'a RegisterDeviceRequest,
    public_key: &Option<[u8; 32]>,
    request_id: &str,
) -> (result: Result<RegistrationRequestParts<'a>, ApiError>)
    ensures
        refusal(result) == registration_request_refusal(*request, *public_key, request_id@),
        result is Ok ==> token_parts(request.device_enrollment_grant->0@) == Some(
            (result->Ok_0.grant_id@, result->Ok_0.grant_secret@),
        ) && *public_key == Some(result->Ok_0.public_key),
{
    validate_device_request(request, request_id)?;
    let token: &'a str = match &request.device_enrollment_grant {
        Some(token) => token.as_str(),
        None => {
            return Err(
                ApiError::bad_request(
                    "device_enrollment_grant_required",
                    "device_enrollment_grant is required",
                    request_id,
                ),
            );
        },
    };
    let (grant_id, grant_secret) = parse_enrollment_grant(token, request_id)?;
    match public_key {
        Some(public_key) => Ok(
            RegistrationRequestParts { grant_id, grant_secret, public_key: *public_key },
        ),
        None => Err(
            ApiError::bad_request(
                "invalid_public_key",
                "public_key must encode exactly 32 Ed25519 bytes",
                request_id,
            ),
        ),
    }
}

/// The answer to a registration that the store did not accept.
pub fn registration_error(error: StoreError, request_id: &str) -> (fault: Fault)
    ensures
        fault@ == match error {
            StoreError::Conflict => FaultModel::Refused(
                api_error(
                    409,
                    "device_registration_conflict"@,
                    "device registration conflicts with existing authority state"@,
                    request_id@,
                ),
            ),
            StoreError::Unavailable => FaultModel::Internal,
        },
{
    store_fault(
        error,
        ApiError::conflict(
            "device_registration_conflict",
            "device registration conflicts with existing authority state",
            request_id,
        ),
    )
}

/// How a registration is answered: with the device, newly created or as it was created before.
pub fn registration_answer(outcome: DeviceRegistrationOutcome, request_id: &str) -> (result: Result<
    (u16, Device),
    ApiError,
>)
    ensures
        match outcome {
            DeviceRegistrationOutcome::Created(device) => result is Ok && result->Ok_0.0 == 201
                && result->Ok_0.1@ == device@,
            DeviceRegistrationOutcome::Replayed(device) => result is Ok && result->Ok_0.0 == 200
                && result->Ok_0.1@ == device@,
            DeviceRegistrationOutcome::InvalidGrant => result is Err && result->Err_0@ == api_error(
                403,
                "device_enrollment_grant_invalid"@,
                "device enrollment grant is invalid, expired, consumed, or does not match"@,
                request_id@,
            ),
        },
{
    match outcome {
        DeviceRegistrationOutcome::Created(device) => Ok((201, device)),
        DeviceRegistrationOutcome::Replayed(device) => Ok((200, device)),
        DeviceRegistrationOutcome::InvalidGrant => Err(
            ApiError::forbidden(
                "device_enrollment_grant_invalid",
                "device enrollment grant is invalid, expired, consumed, or does not match",
                request_id,
            ),
        ),
    }
}

/// Whether a device is reachable, as clients see it.
#[derive(Debug, Clone, Copy, PartialEq, Eq, Structural)]
pub enum DeviceStatus {
    Online,
    Offline,
    Busy,
}

/// Whether a device that is connected is free.
#[derive(Debug, Clone, Copy, PartialEq, Eq, Structural)]
pub enum DevicePresenceStatus {
    Online,
    Busy,
}

/// A device that is connected.
#[derive(Debug, PartialEq, Eq)]
pub struct DevicePresence {
    pub device_id: String,
    pub status: DevicePresenceStatus,
    pub last_seen_epoch_millis: u64,
}

/// A device as clients see it.
#[derive(Debug, PartialEq, Eq)]
pub struct DeviceView {
    pub device: Device,
    pub status: DeviceStatus,
}

/// Whether a device is reachable going by its lifecycle alone: a blocked device is offline.
pub open spec fn lifecycle_view(status: DeviceLifecycleStatus) -> DeviceStatus {
    match status {
        DeviceLifecycleStatus::Online => DeviceStatus::Online,
        DeviceLifecycleStatus::Busy => DeviceStatus::Busy,
        _ => DeviceStatus::Offline,
    }
}

/// Whether a device is reachable: as it is connected where it may act, else by its lifecycle.
pub open spec fn seen_status(
    status: DeviceLifecycleStatus,
    presence: Option<DevicePresenceStatus>,
) -> DeviceStatus {
    if authorizable(status) && presence is Some {
        match presence->0 {
            DevicePresenceStatus::Online => DeviceStatus::Online,
            DevicePresenceStatus::Busy => DeviceStatus::Busy,
        }
    } else {
        lifecycle_view(status)
    }
}

/// A device as clients see it, going by its lifecycle alone.
pub fn device_view(device: &Device) -> (view: DeviceView)
    ensures
        view.device@ == device@,
        view.status == lifecycle_view(device@.status),
{
    let status = match device.status {
        DeviceLifecycleStatus::Online => DeviceStatus::Online,
        DeviceLifecycleStatus::Busy => DeviceStatus::Busy,
        _ => DeviceStatus::Offline,
    };
    DeviceView { device: device.duplicate(), status }
}

/// A device as clients see it.
pub fn device_view_with_presence(device: &Device, presence: Option<&DevicePresence>) -> (view:
    DeviceView)
    ensures
        view.device@ == device@,
        view.status == seen_status(
            device@.status,
            match presence {
                Some(present) => Some(present.status),
                None => None,
            },
        ),
{
    let mut view = device_view(device);
    if is_authorizable(device.status) {
        if let Some(presence) = presence {
            view.status = match presence.status {
                DevicePresenceStatus::Online => DeviceStatus::Online,
                DevicePresenceStatus::Busy => DeviceStatus::Busy,
            };
        }
    }
    view
}

/// A blocked device is never seen as reachable, whether or not it is connected.
pub proof fn blocked_devices_are_seen_offline(
    status: DeviceLifecycleStatus,
    presence: Option<DevicePresenceStatus>,
)
    requires
        terminal_status(status),
    ensures
        seen_status(status, presence) == DeviceStatus::Offline,
{
}

/// The position of the last of the first entries of a list that is about a device.
pub open spec fn presence_at(
    presences: Seq<DevicePresence>,
    device_id: Seq<char>,
    count: int,
) -> Option<int>
    decreases count,
{
    if count <= 0 || count > presences.len() {
        None
    } else if presences[count - 1].device_id@ == device_id {
        Some(count - 1)
    } else {
        presence_at(presences, device_id, count - 1)
    }
}

/// How a device is connected, going by the last entry of a list that is about it.
pub open spec fn presence_of(presences: Seq<DevicePresence>, device_id: Seq<char>) -> Option<
    DevicePresenceStatus,
> {
    match presence_at(presences, device_id, presences.len() as int) {
        Some(at) => Some(presences[at].status),
        None => None,
    }
}

/// Finds how a device is connected: the last entry of a list that is about it counts.
pub fn find_presence<'a>(presences: &'a Vec<DevicePresence>, device_id: &str) -> (found: Option<
    &'a DevicePresence,
>)
    ensures
        match presence_at(presences@, device_id@, presences@.len() as int) {
            Some(at) => 0 <= at < presences@.len() && found == Some(&presences@[at]),
            None => found is None,
        },
{
    let mut count: usize = presences.len();
    while count > 0
        invariant
            count <= presences.len(),
            presence_at(presences@, device_id@, presences@.len() as int) == presence_at(
                presences@,
                device_id@,
                count as int,
            ),
        decreases count,
    {
        if text_eq(presences[count - 1].device_id.as_str(), device_id) {
            return Some(&presences[count - 1]);
        }
        count = count - 1;
    }
    None
}

/// The devices of an account as clients see them, in order.
pub fn list_devices(devices: &Vec<Device>, presences: &Vec<DevicePresence>) -> (views: Vec<
    DeviceView,
>)
    ensures
        views@.len() == devices@.len(),
        forall|i: int|
            0 <= i < devices@.len() ==> (#[trigger] views@[i]).device@ == devices@[i]@
                && views@[i].status == seen_status(
                devices@[i]@.status,
                presence_of(presences@, devices@[i]@.device_id),
            ),
{
    let mut views: Vec<DeviceView> = Vec::new();
    let mut i: usize = 0;
    while i < devices.len()
        invariant
            i <= devices.len(),
            views@.len() == i,
            forall|k: int|
                0 <= k < i ==> (#[trigger] views@[k]).device@ == devices@[k]@ && views@[k].status
                    == seen_status(
                    devices@[k]@.status,
                    presence_of(presences@, devices@[k]@.device_id),
                ),
        decreases devices.len() - i,
    {
        let presence = find_presence(presences, devices[i].device_id.as_str());
        views.push(device_view_with_presence(&devices[i], presence));
        i = i + 1;
    }
    views
}

/// Gives a device to the account that it belongs to, and to no other.
pub fn own_device(device: Option<Device>, account_id: &str, request_id: &str) -> (result: Result<
    Device,
    ApiError,
>)
    ensures
        result is Ok <==> device is Some && device->0@.account_id == account_id@,
        result is Ok ==> result->Ok_0@ == device->0@,
        result is Err ==> result->Err_0@ == api_error(
            404,
            "device_not_found"@,
            "device was not found"@,
            request_id@,
        ),
{
    match device {
        Some(device) => if text_eq(device.account_id.as_str(), account_id) {
            Ok(device)
        } else {
            Err(ApiError::not_found("device_not_found", "device was not found", request_id))
        },
        None => Err(ApiError::not_found("device_not_found", "device was not found", request_id)),
    }
}

} // verus!
