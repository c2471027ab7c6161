use crate::api::{ApiError, Fault};
use crate::codec::literals;
use crate::database::Database;
use crate::device::{Device, DeviceLifecycleStatus, Platform, TrustedDeviceStatus};
use crate::device_authority::{
    epochs_renewable, manage_device, rotate_device_key, sessions_readable, DeviceKeyRotation,
    DeviceManagementAction, DeviceManagementCommand, ManagementDecision, ManagementEnd,
    ManagementFacts, RotationDecision, RotationFacts,
};
use crate::device_changes::{
    build_device_update, build_rotation, check_device_update, check_rotation, closure_notices,
    device_management_action_name, device_update_error, notice_models,
    notify_forced_session_closures, rotation_error, ClosureNotice,
};
use crate::device_requests::{
    build_registration, check_registration_request, device_to_register, device_view,
    device_view_with_presence, find_presence, grant_tokens_round_trip, list_devices, own_device,
    plain_name, presence_at, registration_answer, registration_error, DeviceActionRequest,
    DevicePresence, DevicePresenceStatus, DeviceStatus, DeviceView, RegisterDeviceRequest,
    RegistrationDraws, RegistrationRequestParts, RotateDeviceKeyRequest, UpdateDeviceRequest,
};
use crate::hash::sha256_digest;
use crate::registration::{
    publish_registration, register_device, DeviceRegistrationCommand, DeviceRegistrationOutcome,
    InitialDeviceSignatureProof, RegistrationDecision, RegistrationFacts,
};
use crate::rules::{TRUST_LEVELS, TRUST_PROOF_TYPES};
use crate::session::{SessionEvent, SessionEventModel};
use crate::step_up::{step_up_covers, StepUpExpectation};
use crate::store::{PersistenceError, StoreError};
use crate::table::models;
use crate::text::{blank, opt_text, trimmed};
use vstd::prelude::*;
use vstd::utf8::encode_utf8;

verus! {

/// A device is registered exactly where the grant that the request names is unused and unexpired,
/// was issued to this account, session, device, key and protocol version under the request's
/// secret, the signed request is recent and was signed with the device's key, the login challenge
/// of the grant was answered by this device, the session can be used, and neither the device nor
/// its key is taken. A grant that earned trust also asks for a session with a second factor.
pub proof fn a_device_is_registered_exactly_under_its_own_grant(
    command: &DeviceRegistrationCommand,
    facts: RegistrationFacts,
    result: Result<RegistrationDecision, StoreError>,
)
    requires
        call_ensures(register_device, (command, facts), result),
        facts.grant is Some,
        facts.grant->0 is Ok,
        facts.authority is Ok,
        facts.challenge is Some,
        facts.challenge->0.operation_binding_hash@.len() == 32,
        facts.challenge->0.login_device_public_key_fingerprint@.len() == 32,
        0 <= facts.challenge->0.login_protocol_version <= u16::MAX,
        facts.result_audit is Ok,
        ({
            let grant = facts.grant->0->Ok_0@;
            &&& grant.consumed_at_epoch_millis is None
            &&& grant.registration_request_binding_hash is None
            &&& grant.registered_public_key_id is None
            &&& grant.registered_trusted_device_id is None
            &&& !grant.establish_trust
        }),
    ensures
        ({
            let grant = facts.grant->0->Ok_0@;
            let device = command.device@;
            let challenge = facts.challenge->0;
            let now = command.now_epoch_millis;
            let signed = command.signature_proof.timestamp_epoch_millis;
            result is Ok && result->Ok_0 is Created <==> {
                &&& device.account_id == command.account_id@
                &&& device.device_id.len() > 0
                &&& device.public_key_version == 1
                &&& device.public_key_revoked_at_epoch_millis is None
                &&& device.created_at_epoch_millis <= now
                &&& device.created_at_epoch_millis <= device.updated_at_epoch_millis
                &&& grant.grant_secret_hash == command.grant_secret_hash
                &&& grant.account_id == command.account_id@
                &&& grant.device_id == device.device_id
                &&& grant.protocol_version == command.protocol_version
                &&& grant.issued_account_session_id == command.account_session_id@
                &&& grant.device_public_key_fingerprint@ == sha256_digest(device.public_key@)
                &&& grant.expires_at_epoch_millis > now
                &&& now <= signed + 30_000
                &&& signed <= now + 30_000
                &&& facts.signature_valid
                &&& challenge.account_id@ == grant.account_id
                &&& challenge.purpose@ == "login_mfa"@
                &&& challenge.status@ == "consumed"@
                &&& challenge.consumed_at_epoch_millis is Some
                &&& challenge.login_device_id@ == grant.device_id
                &&& challenge.login_device_public_key_fingerprint@
                    == grant.device_public_key_fingerprint@
                &&& challenge.login_protocol_version == grant.protocol_version
                &&& challenge.operation_binding_hash@ == grant.login_challenge_binding_hash@
                &&& facts.session_mfa_verified is Some
                &&& !facts.device_taken
            }
        }),
{
}

/// Where every other condition holds, a grant that earned trust registers the device and trusts it,
/// exactly in a session with a second factor: active from now on, for a month after a one-time code
/// and for a day after a recovery code, with the proof and the level that the grant names.
pub proof fn a_grant_with_trust_trusts_its_device(
    command: &DeviceRegistrationCommand,
    facts: RegistrationFacts,
    result: Result<RegistrationDecision, StoreError>,
    ttl: u64,
)
    requires
        call_ensures(register_device, (command, facts), result),
        facts.grant is Some,
        facts.grant->0 is Ok,
        facts.authority is Ok,
        facts.challenge is Some,
        facts.result_audit is Ok,
        facts.signature_valid,
        !facts.device_taken,
        command.trusted_device_id is Some,
        command.trusted_device_audit_entry is Some,
        ({
            let grant = facts.grant->0->Ok_0@;
            let device = command.device@;
            let challenge = facts.challenge->0;
            let now = command.now_epoch_millis;
            &&& device.account_id == command.account_id@
            &&& device.device_id.len() > 0
            &&& device.public_key_version == 1
            &&& device.public_key_revoked_at_epoch_millis is None
            &&& device.created_at_epoch_millis <= now
            &&& device.created_at_epoch_millis <= device.updated_at_epoch_millis
            &&& grant.consumed_at_epoch_millis is None
            &&& grant.registration_request_binding_hash is None
            &&& grant.registered_public_key_id is None
            &&& grant.registered_trusted_device_id is None
            &&& grant.grant_secret_hash == command.grant_secret_hash
            &&& grant.account_id == command.account_id@
            &&& grant.device_id == device.device_id
            &&& grant.protocol_version == command.protocol_version
            &&& grant.issued_account_session_id == command.account_session_id@
            &&& grant.device_public_key_fingerprint@ == sha256_digest(device.public_key@)
            &&& grant.expires_at_epoch_millis > now
            &&& command.signature_proof.timestamp_epoch_millis == now
            &&& challenge.account_id@ == grant.account_id
            &&& challenge.purpose@ == "login_mfa"@
            &&& challenge.status@ == "consumed"@
            &&& challenge.consumed_at_epoch_millis is Some
            &&& challenge.login_device_id@ == grant.device_id
            &&& challenge.login_device_public_key_fingerprint@
                == grant.device_public_key_fingerprint@
            &&& challenge.login_protocol_version == grant.protocol_version
            &&& challenge.operation_binding_hash@ == grant.login_challenge_binding_hash@
            &&& now + ttl <= u64::MAX
            &&& grant.establish_trust
            &&& (grant.trust_proof_type == Some("device_signature_and_mfa"@) && grant.trust_level
                == Some("standard"@) && ttl == 30 * 24 * 3_600_000 || grant.trust_proof_type
                == Some("device_signature_and_recovery_code"@) && grant.trust_level == Some(
                "high_risk_step_up_required"@,
            ) && ttl == 24 * 3_600_000)
        }),
    ensures
        facts.session_mfa_verified != Some(true) ==> result == Ok::<_, StoreError>(
            RegistrationDecision::InvalidGrant,
        ),
        facts.session_mfa_verified == Some(true) ==> result is Ok && result->Ok_0 is Created
            && result->Ok_0->Created_trusted is Some,
        facts.session_mfa_verified == Some(true) ==> {
            let trusted = result->Ok_0->Created_trusted->0@;
            let grant = facts.grant->0->Ok_0@;
            let now = command.now_epoch_millis;
            &&& trusted.trusted_device_id == command.trusted_device_id->0@
            &&& trusted.account_id == command.account_id@
            &&& trusted.controller_device_id == command.device@.device_id
            &&& trusted.device_fingerprint_hash == grant.device_public_key_fingerprint
            &&& Some(trusted.trust_proof_type) == grant.trust_proof_type
            &&& Some(trusted.trust_level) == grant.trust_level
            &&& trusted.status == TrustedDeviceStatus::Active
            &&& trusted.created_at_epoch_millis == now
            &&& trusted.expires_at_epoch_millis == now + ttl
            &&& trusted.last_used_at_epoch_millis is None
            &&& trusted.revoked_at_epoch_millis is None
        },
{
    let levels = literals(TRUST_LEVELS@);
    assert(levels[0] == "standard"@);
    assert(levels[1] == "high_risk_step_up_required"@);
    let proofs = literals(TRUST_PROOF_TYPES@);
    assert(proofs[0] == "device_signature_and_mfa"@);
    assert(proofs[1] == "device_signature_and_recovery_code"@);
    reveal_strlit("device_signature_and_mfa");
    reveal_strlit("device_signature_and_recovery_code");
    assert("device_signature_and_mfa"@.len() != "device_signature_and_recovery_code"@.len());
    assert(facts.challenge->0.operation_binding_hash@.len() == 32);
    assert(facts.challenge->0.login_device_public_key_fingerprint@.len() == 32);
}

/// A registration uses its grant up, at that time, for that request, key and trusted device, and
/// keeps all else that the grant says.
pub proof fn a_registration_uses_its_grant_up(
    command: &DeviceRegistrationCommand,
    facts: RegistrationFacts,
    result: Result<RegistrationDecision, StoreError>,
)
    requires
        call_ensures(register_device, (command, facts), result),
        result is Ok,
        result->Ok_0 is Created,
    ensures
        facts.grant is Some,
        facts.grant->0 is Ok,
        facts.result_audit is Ok,
        ({
            let held = facts.grant->0->Ok_0@;
            let grant = result->Ok_0->Created_grant@;
            let trusted = result->Ok_0->Created_trusted;
            &&& held.consumed_at_epoch_millis is None
            &&& grant.consumed_at_epoch_millis == Some(command.now_epoch_millis)
            &&& grant.registration_request_binding_hash == Some(
                command.registration_request_binding_hash,
            )
            &&& grant.registered_public_key_id == Some(command.device@.public_key_id)
            &&& trusted is Some <==> held.establish_trust
            &&& trusted is Some ==> grant.registered_trusted_device_id == Some(
                trusted->0@.trusted_device_id,
            )
            &&& trusted is None ==> grant.registered_trusted_device_id is None
            &&& grant.grant_id == held.grant_id
            &&& grant.grant_secret_hash == held.grant_secret_hash
            &&& grant.account_id == held.account_id
            &&& grant.device_id == held.device_id
            &&& grant.device_public_key_fingerprint == held.device_public_key_fingerprint
            &&& grant.login_challenge_id == held.login_challenge_id
            &&& grant.login_challenge_binding_hash == held.login_challenge_binding_hash
            &&& grant.establish_trust == held.establish_trust
            &&& grant.trust_proof_type == held.trust_proof_type
            &&& grant.trust_level == held.trust_level
            &&& grant.protocol_version == held.protocol_version
            &&& grant.issued_account_session_id == held.issued_account_session_id
            &&& grant.issued_at_epoch_millis == held.issued_at_epoch_millis
            &&& grant.expires_at_epoch_millis == held.expires_at_epoch_millis
            &&& result->Ok_0->Created_result_audit@ == facts.result_audit->Ok_0@
        }),
{
}

/// A used grant registers nothing again: the same request is answered with the device that it
/// registered, another one conflicts, and neither creates a device.
pub proof fn a_used_grant_answers_its_own_request(
    command: &DeviceRegistrationCommand,
    facts: RegistrationFacts,
    result: Result<RegistrationDecision, StoreError>,
)
    requires
        call_ensures(register_device, (command, facts), result),
        facts.grant is Some,
        facts.grant->0 is Ok,
        facts.grant->0->Ok_0@.consumed_at_epoch_millis is Some,
    ensures
        !(result is Ok && result->Ok_0 is Created),
        result is Ok && result->Ok_0 is Replayed ==> {
            let grant = facts.grant->0->Ok_0@;
            &&& grant.registration_request_binding_hash == Some(
                command.registration_request_binding_hash,
            )
            &&& grant.registered_public_key_id is Some
            &&& grant.grant_secret_hash == command.grant_secret_hash
            &&& grant.account_id == command.account_id@
            &&& grant.device_id == command.device@.device_id
            &&& grant.issued_account_session_id == command.account_session_id@
            &&& facts.signature_valid
            &&& facts.registered_device is Ok
            &&& result->Ok_0->Replayed_0@ == facts.registered_device->Ok_0@
            &&& grant.establish_trust <==> grant.registered_trusted_device_id is Some
        },
{
}

/// Where the same request is made again under its used grant and all records still fit, it is
/// answered with the registered device, whether or not the registration trusted it, and even after
/// the grant has expired.
pub proof fn a_registration_made_again_is_answered_alike(
    command: &DeviceRegistrationCommand,
    facts: RegistrationFacts,
    result: Result<RegistrationDecision, StoreError>,
)
    requires
        call_ensures(register_device, (command, facts), result),
        facts.grant is Some,
        facts.grant->0 is Ok,
        facts.authority is Ok,
        facts.challenge is Some,
        facts.signature_valid,
        facts.registered_device is Ok,
        ({
            let grant = facts.grant->0->Ok_0@;
            let device = command.device@;
            let challenge = facts.challenge->0;
            let now = command.now_epoch_millis;
            &&& device.account_id == command.account_id@
            &&& device.device_id.len() > 0
            &&& device.public_key_version == 1
            &&& device.public_key_revoked_at_epoch_millis is None
            &&& device.created_at_epoch_millis <= now
            &&& device.created_at_epoch_millis <= device.updated_at_epoch_millis
            &&& grant.consumed_at_epoch_millis is Some
            &&& grant.registered_public_key_id is Some
            &&& grant.grant_secret_hash == command.grant_secret_hash
            &&& grant.account_id == command.account_id@
            &&& grant.device_id == device.device_id
            &&& grant.protocol_version == command.protocol_version
            &&& grant.issued_account_session_id == command.account_session_id@
            &&& grant.device_public_key_fingerprint@ == sha256_digest(device.public_key@)
            &&& now <= command.signature_proof.timestamp_epoch_millis + 30_000
            &&& command.signature_proof.timestamp_epoch_millis <= now + 30_000
            &&& challenge.account_id@ == grant.account_id
            &&& challenge.purpose@ == "login_mfa"@
            &&& challenge.status@ == "consumed"@
            &&& challenge.consumed_at_epoch_millis is Some
            &&& challenge.login_device_id@ == grant.device_id
            &&& challenge.login_device_public_key_fingerprint@
                == grant.device_public_key_fingerprint@
            &&& challenge.login_protocol_version == grant.protocol_version
            &&& challenge.operation_binding_hash@ == grant.login_challenge_binding_hash@
            &&& !grant.establish_trust ==> grant.registered_trusted_device_id is None
            &&& grant.establish_trust ==> {
                let trusted = facts.registered_trust->0->Ok_0@;
                &&& grant.registered_trusted_device_id is Some
                &&& facts.registered_trust is Some
                &&& facts.registered_trust->0 is Ok
                &&& trusted.account_id == grant.account_id
                &&& trusted.controller_device_id == grant.device_id
                &&& grant.trust_proof_type == Some(trusted.trust_proof_type)
                &&& grant.trust_level == Some(trusted.trust_level)
                &&& trusted.device_fingerprint_hash == grant.device_public_key_fingerprint
            }
        }),
    ensures
        facts.grant->0->Ok_0@.registration_request_binding_hash == Some(
            command.registration_request_binding_hash,
        ) ==> result is Ok && result->Ok_0 is Replayed && result->Ok_0->Replayed_0@
            == facts.registered_device->Ok_0@,
        facts.grant->0->Ok_0@.registration_request_binding_hash != Some(
            command.registration_request_binding_hash,
        ) ==> result == Err::<RegistrationDecision, _>(StoreError::Conflict),
{
    assert(facts.challenge->0.operation_binding_hash@.len() == 32);
    assert(facts.challenge->0.login_device_public_key_fingerprint@.len() == 32);
}

/// Without a grant, without its challenge, with an expired grant or with an unsigned request
/// nothing is registered.
pub proof fn nothing_is_registered_without_a_grant(
    command: &DeviceRegistrationCommand,
    facts: RegistrationFacts,
    result: Result<RegistrationDecision, StoreError>,
)
    requires
        call_ensures(register_device, (command, facts), result),
    ensures
        ({
            let well_formed = command.device@.account_id == command.account_id@
                && command.device@.device_id.len() > 0 && command.device@.public_key_version == 1
                && command.device@.public_key_revoked_at_epoch_millis is None
                && command.device@.created_at_epoch_millis <= command.now_epoch_millis
                && command.device@.created_at_epoch_millis
                <= command.device@.updated_at_epoch_millis;
            &&& !well_formed ==> result == Err::<RegistrationDecision, _>(StoreError::Conflict)
            &&& well_formed && facts.grant is None ==> result == Ok::<_, StoreError>(
                RegistrationDecision::InvalidGrant,
            )
            &&& facts.challenge is None || !facts.signature_valid ==> !(result is Ok && (
            result->Ok_0 is Created || result->Ok_0 is Replayed))
            &&& facts.grant is Some && facts.grant->0 is Ok
                && facts.grant->0->Ok_0@.expires_at_epoch_millis <= command.now_epoch_millis ==> !(
            result is Ok && result->Ok_0 is Created)
        }),
{
}

/// A published registration holds the device and its key under their names, the used grant and,
/// where the device is trusted, the trusted device; every other device stays as it is, and the
/// caller is answered with the device. What is not a first registration changes nothing.
pub proof fn a_registration_is_published(
    database: &mut Database,
    command: &DeviceRegistrationCommand,
    decision: RegistrationDecision,
    written: &Result<(), PersistenceError>,
    result: Result<DeviceRegistrationOutcome, StoreError>,
    other: Seq<char>,
)
    requires
        call_ensures(publish_registration, (database, command, decision, written), result),
    ensures
        *written is Err ==> result is Err && final(database)@ == old(database)@,
        *written is Ok ==> result is Ok,
        !(decision is Created) ==> final(database)@ == old(database)@,
        *written is Ok && decision is InvalidGrant ==> result->Ok_0 is InvalidGrant,
        *written is Ok && decision is Replayed ==> result->Ok_0 is Replayed
            && result->Ok_0->Replayed_0@ == decision->Replayed_0@,
        *written is Ok && decision is Created ==> {
            let before = old(database)@;
            let after = final(database)@;
            let device = command.device@;
            let grant = decision->Created_grant@;
            let key = after.device_public_keys[device.public_key_id];
            let trusted = decision->Created_trusted;
            &&& result->Ok_0 is Created
            &&& result->Ok_0->Created_0@ == device
            &&& after.devices.contains_key(device.device_id)
            &&& after.devices[device.device_id] == device
            &&& other != device.device_id ==> (after.devices.contains_key(other)
                == before.devices.contains_key(other) && after.devices[other]
                == before.devices[other])
            &&& after.device_public_keys.contains_key(device.public_key_id)
            &&& key.public_key_id == device.public_key_id
            &&& key.device_id == device.device_id
            &&& key.public_key == device.public_key
            &&& key.version == device.public_key_version
            &&& key.created_at_epoch_millis == device.created_at_epoch_millis
            &&& key.revoked_at_epoch_millis == device.public_key_revoked_at_epoch_millis
            &&& after.device_enrollment_grants.contains_key(grant.grant_id)
            &&& after.device_enrollment_grants[grant.grant_id] == grant
            &&& trusted is Some ==> after.trusted_controller_devices.contains_key(
                trusted->0@.trusted_device_id,
            ) && after.trusted_controller_devices[trusted->0@.trusted_device_id] == trusted->0@
            &&& trusted is None ==> after.trusted_controller_devices
                == before.trusted_controller_devices
            &&& after.audit_logs.last() == command.grant_audit_entry@
            &&& after.audit_logs[after.audit_logs.len() - 2]
                == decision->Created_result_audit@
            &&& trusted is Some && command.trusted_device_audit_entry is Some
                ==> after.audit_logs.len() == before.audit_logs.len() + 3
                && after.audit_logs[before.audit_logs.len() as int]
                == command.trusted_device_audit_entry->0@
            &&& trusted is None ==> after.audit_logs.len() == before.audit_logs.len() + 2
            &&& after.accounts == before.accounts
            &&& after.account_sessions == before.account_sessions
        },
{
}

/// A request to register a device is accepted exactly with a plain device name, a name and a system
/// version that are not blank and have at most 100 bytes each, the capabilities of a controller and
/// no more than the platform allows, a grant with a plain name and secret, and a key.
pub proof fn a_registration_request_is_checked(
    request: &RegisterDeviceRequest,
    public_key: &Option<[u8; 32]>,
    request_id: &str,
    result: Result<RegistrationRequestParts, ApiError>,
    grant_id: Seq<char>,
    grant_secret: Seq<char>,
)
    requires
        call_ensures(check_registration_request, (request, public_key, request_id), result),
        plain_name(grant_id),
        plain_name(grant_secret),
        request.device_enrollment_grant is Some ==> request.device_enrollment_grant->0@ == grant_id
            + "."@ + grant_secret,
    ensures
        ({
            let capabilities = request.role_capabilities;
            let named = plain_name(request.device_id@);
            let described = !blank(request.display_name@) && encode_utf8(
                request.display_name@,
            ).len() <= 100 && !blank(request.os_version@) && encode_utf8(request.os_version@).len()
                <= 100;
            let allowed = capabilities.controller && !capabilities.file_transfer
                && !capabilities.unattended && (request.platform != Platform::Ios
                || !capabilities.controlled);
            &&& result is Ok <==> named && described && allowed && request.device_enrollment_grant
                is Some && *public_key is Some
            &&& result is Ok ==> result->Ok_0.grant_id@ == grant_id
            &&& result is Ok ==> result->Ok_0.grant_secret@ == grant_secret
            &&& result is Ok ==> Some(result->Ok_0.public_key) == *public_key
            &&& result is Err ==> result->Err_0@.request_id == request_id@
            &&& !named ==> result is Err && result->Err_0@.status == 400 && result->Err_0@.code
                == "invalid_device_id"@
            &&& named && !described ==> result is Err && result->Err_0@.status == 400
                && result->Err_0@.code == "invalid_device_metadata"@
            &&& named && described && !allowed ==> result is Err && result->Err_0@.status == 400
                && result->Err_0@.code == "invalid_platform_capability"@
            &&& named && described && allowed && request.device_enrollment_grant is None ==> result
                is Err && result->Err_0@.code == "device_enrollment_grant_required"@
        }),
{
    grant_tokens_round_trip(grant_id, grant_secret);
}

/// The name of a device or of a grant is plain exactly if it has 1 to 128 characters, each an ASCII
/// letter, a digit, a hyphen or an underscore.
pub proof fn plain_names_are_ascii_words(name: Seq<char>)
    ensures
        plain_name(name) <==> name.len() > 0 && encode_utf8(name).len() <= 128 && forall|i: int|
            0 <= i < encode_utf8(name).len() ==> {
                let byte = #[trigger] encode_utf8(name)[i];
                ||| 48 <= byte <= 57
                ||| 65 <= byte <= 90
                ||| 97 <= byte <= 122
                ||| byte == 45
                ||| byte == 95
            },
{
}

/// A device that is registered starts out offline, with its first key, for the account that asks,
/// under the trimmed names of the request; it may always control and be controlled as the request
/// says, but never on iOS, and never transfers files or works unattended.
pub proof fn a_new_device_starts_offline(
    request: &RegisterDeviceRequest,
    account_id: &str,
    public_key_id: String,
    public_key: [u8; 32],
    now: u64,
    device: Device,
)
    requires
        call_ensures(device_to_register, (request, account_id, public_key_id, public_key, now), device),
    ensures
        device@.device_id == request.device_id@,
        device@.account_id == account_id@,
        device@.display_name == trimmed(request.display_name@),
        device@.os_version == trimmed(request.os_version@),
        device@.platform == request.platform,
        device@.arch == request.arch,
        device@.public_key_id == public_key_id@,
        device@.public_key == public_key,
        device@.public_key_version == 1,
        device@.public_key_revoked_at_epoch_millis is None,
        device@.status == DeviceLifecycleStatus::Offline,
        device@.last_seen_epoch_millis is None,
        device@.created_at_epoch_millis == now,
        device@.updated_at_epoch_millis == now,
        device@.capabilities.controller,
        !device@.capabilities.file_transfer,
        !device@.capabilities.unattended,
        device@.capabilities.controlled <==> request.role_capabilities.controlled
            && request.platform != Platform::Ios,
{
}

/// A registration that was built from a checked request registers under the grant that the request
/// names: with a fresh device, a signature of now and a grant and challenge that were issued for
/// it, the device is created.
pub proof fn a_built_registration_fits_its_grant(
    request: &RegisterDeviceRequest,
    account_id: &str,
    public_key_id: String,
    public_key: [u8; 32],
    now: u64,
    device: Device,
    grant_id: &str,
    grant_secret: &str,
    account_session_id: &str,
    protocol_version: u16,
    binding_hash: [u8; 32],
    signature_proof: InitialDeviceSignatureProof,
    draws: RegistrationDraws,
    request_id: &str,
    command: DeviceRegistrationCommand,
    facts: RegistrationFacts,
    result: Result<RegistrationDecision, StoreError>,
)
    requires
        call_ensures(device_to_register, (request, account_id, public_key_id, public_key, now), device),
        call_ensures(
            build_registration,
            (
                grant_id,
                grant_secret,
                account_session_id,
                protocol_version,
                binding_hash,
                device,
                signature_proof,
                draws,
                request_id,
                now,
            ),
            command,
        ),
        call_ensures(register_device, (&command, facts), result),
        request.device_id@.len() > 0,
        signature_proof.timestamp_epoch_millis == now,
        facts.grant is Some,
        facts.grant->0 is Ok,
        facts.authority is Ok,
        facts.challenge is Some,
        facts.result_audit is Ok,
        facts.signature_valid,
        !facts.device_taken,
        facts.session_mfa_verified is Some,
        ({
            let grant = facts.grant->0->Ok_0@;
            let challenge = facts.challenge->0;
            &&& grant.consumed_at_epoch_millis is None
            &&& grant.registration_request_binding_hash is None
            &&& grant.registered_public_key_id is None
            &&& grant.registered_trusted_device_id is None
            &&& !grant.establish_trust
            &&& grant.grant_secret_hash@ == sha256_digest(encode_utf8(grant_secret@))
            &&& grant.account_id == account_id@
            &&& grant.device_id == request.device_id@
            &&& grant.protocol_version == protocol_version
            &&& grant.issued_account_session_id == account_session_id@
            &&& grant.device_public_key_fingerprint@ == sha256_digest(public_key@)
            &&& grant.expires_at_epoch_millis > now
            &&& challenge.account_id@ == grant.account_id
            &&& challenge.purpose@ == "login_mfa"@
            &&& challenge.status@ == "consumed"@
            &&& challenge.consumed_at_epoch_millis is Some
            &&& challenge.login_device_id@ == grant.device_id
            &&& challenge.login_device_public_key_fingerprint@
                == grant.device_public_key_fingerprint@
            &&& challenge.login_protocol_version == grant.protocol_version
            &&& challenge.operation_binding_hash@ == grant.login_challenge_binding_hash@
        }),
    ensures
        result is Ok,
        result->Ok_0 is Created,
        command.grant_id@ == grant_id@,
        command.device@ == device@,
        command.registration_request_binding_hash == binding_hash,
        command.trusted_device_id is Some && command.trusted_device_id->0@
            == draws.trusted_device_id@,
        command.registration_audit_entry@.action == "device_registered"@,
        command.grant_audit_entry@.action == "device_enrollment_grant_consumed"@,
        command.trusted_device_audit_entry is Some,
        command.trusted_device_audit_entry->0@.action == "trusted_device_added"@,
        command.registration_audit_entry@.audit_id == draws.registration_audit_id@,
        command.grant_audit_entry@.audit_id == draws.grant_audit_id@,
        command.trusted_device_audit_entry->0@.audit_id == draws.trust_audit_id@,
        command.registration_audit_entry@.actor_account_id == Some(account_id@),
        command.registration_audit_entry@.actor_device_id == Some(request.device_id@),
        command.registration_audit_entry@.target_device_id == Some(request.device_id@),
        command.registration_audit_entry@.result == "success"@,
        command.registration_audit_entry@.request_id == request_id@,
        command.registration_audit_entry@.created_at_epoch_millis == now,
        command.grant_audit_entry@.actor_account_id == Some(account_id@),
        command.grant_audit_entry@.actor_device_id == Some(request.device_id@),
{
    let grant = facts.grant->0->Ok_0@;
    assert(facts.challenge->0.operation_binding_hash@.len() == 32);
    assert(facts.challenge->0.login_device_public_key_fingerprint@.len() == 32);
    assert(grant.grant_secret_hash@ == command.grant_secret_hash@);
    assert(grant.grant_secret_hash =~= command.grant_secret_hash);
}

/// The caller of a registration sees a new device as created, one that was registered before as it
/// is, and a grant that does not serve as refused; a conflict is told apart from a failure.
pub proof fn a_registration_is_answered(
    outcome: DeviceRegistrationOutcome,
    request_id: &str,
    result: Result<(u16, Device), ApiError>,
    error: StoreError,
    fault: Fault,
)
    requires
        call_ensures(registration_answer, (outcome, request_id), result),
        call_ensures(registration_error, (error, request_id), fault),
    ensures
        outcome is Created ==> result is Ok && result->Ok_0.0 == 201 && result->Ok_0.1@
            == outcome->Created_0@,
        outcome is Replayed ==> result is Ok && result->Ok_0.0 == 200 && result->Ok_0.1@
            == outcome->Replayed_0@,
        outcome is InvalidGrant ==> result is Err && result->Err_0@.status == 403
            && result->Err_0@.code == "device_enrollment_grant_invalid"@ && result->Err_0@.request_id
            == request_id@,
        error == StoreError::Unavailable ==> fault is Internal,
        error == StoreError::Conflict ==> fault is Refused && fault->Refused_0@.status == 409
            && fault->Refused_0@.code == "device_registration_conflict"@,
{
}

/// A device is seen busy or online as it last said, or as it is stored where it said nothing, and
/// offline in every status in which it may not act.
pub proof fn a_device_is_seen_as_it_last_said(
    device: &Device,
    presence: Option<&DevicePresence>,
    seen: DeviceView,
    stored: DeviceView,
)
    requires
        call_ensures(device_view_with_presence, (device, presence), seen),
        call_ensures(device_view, (device,), stored),
    ensures
        seen.device@ == device@,
        stored.device@ == device@,
        ({
            let status = device@.status;
            let acts = status == DeviceLifecycleStatus::Online || status
                == DeviceLifecycleStatus::Offline || status == DeviceLifecycleStatus::Busy;
            &&& !acts ==> seen.status == DeviceStatus::Offline
            &&& acts && presence is Some && presence->0.status == DevicePresenceStatus::Online
                ==> seen.status == DeviceStatus::Online
            &&& acts && presence is Some && presence->0.status == DevicePresenceStatus::Busy
                ==> seen.status == DeviceStatus::Busy
            &&& presence is None ==> seen.status == stored.status
            &&& stored.status == DeviceStatus::Online <==> status == DeviceLifecycleStatus::Online
            &&& stored.status == DeviceStatus::Busy <==> status == DeviceLifecycleStatus::Busy
        }),
{
}

/// The presence that is found of a device is the latest one under its name, and one is found
/// whenever there is one.
pub proof fn the_latest_presence_is_found(
    presences: &Vec<DevicePresence>,
    device_id: &str,
    found: Option<&DevicePresence>,
    at: int,
)
    requires
        call_ensures(find_presence, (presences, device_id), found),
    ensures
        0 <= at < presences@.len() && presences@[at].device_id@ == device_id@ ==> found is Some,
        found is Some ==> exists|i: int|
            0 <= i < presences@.len() && found->0 == &(#[trigger] presences@[i])
                && presences@[i].device_id@ == device_id@ && forall|j: int|
                i < j < presences@.len() ==> (#[trigger] presences@[j]).device_id@ != device_id@,
{
    lemma_latest_presence(presences@, device_id@, presences@.len() as int, at);
}

proof fn lemma_latest_presence(
    presences: Seq<DevicePresence>,
    device_id: Seq<char>,
    count: int,
    at: int,
)
    requires
        0 <= count <= presences.len(),
    ensures
        match presence_at(presences, device_id, count) {
            Some(i) => 0 <= i < count && presences[i].device_id@ == device_id && forall|j: int|
                i < j < count ==> (#[trigger] presences[j]).device_id@ != device_id,
            None => 0 <= at < count ==> presences[at].device_id@ != device_id,
        },
    decreases count,
{
    if count > 0 && presences[count - 1].device_id@ != device_id {
        lemma_latest_presence(presences, device_id, count - 1, at);
    }
}

/// A list of devices shows each device in its place, as it would be seen alone with the presence
/// that is found for it.
pub proof fn a_listed_device_is_seen_as_alone(
    devices: &Vec<Device>,
    presences: &Vec<DevicePresence>,
    views: Vec<DeviceView>,
    at: int,
    device_id: &str,
    found: Option<&DevicePresence>,
    alone: DeviceView,
)
    requires
        call_ensures(list_devices, (devices, presences), views),
        0 <= at < devices@.len(),
        device_id@ == devices@[at]@.device_id,
        call_ensures(find_presence, (presences, device_id), found),
        call_ensures(device_view_with_presence, (&devices@[at], found), alone),
    ensures
        views@.len() == devices@.len(),
        views@[at].device@ == devices@[at]@,
        views@[at].status == alone.status,
{
    lemma_latest_presence(presences@, device_id@, presences@.len() as int, at);
    assert(views@[at].device@ == devices@[at]@);
}

/// An account finds its own devices and no others.
pub proof fn an_account_finds_its_own_devices(
    device: Option<Device>,
    account_id: &str,
    request_id: &str,
    result: Result<Device, ApiError>,
)
    requires
        call_ensures(own_device, (device, account_id, request_id), result),
    ensures
        result is Ok <==> device is Some && device->0@.account_id == account_id@,
        result is Ok ==> result->Ok_0@ == device->0@,
        result is Err ==> result->Err_0@.status == 404 && result->Err_0@.code
            == "device_not_found"@ && result->Err_0@.request_id == request_id@,
{
}

/// An update of a device asks for exactly one thing: a new name, which is trimmed, not empty and of
/// at most 100 bytes, or one of the four actions, which is then the one that is carried out.
pub proof fn a_device_update_asks_for_one_thing(
    request: &UpdateDeviceRequest,
    request_id: &str,
    result: Result<(Option<String>, Option<DeviceManagementAction>), ApiError>,
)
    requires
        call_ensures(check_device_update, (request, request_id), result),
    ensures
        ({
            let name = trimmed(request.display_name->0@);
            &&& result is Ok <==> (request.display_name is Some && request.action is None
                && name.len() > 0 && encode_utf8(name).len() <= 100) || (request.display_name
                is None && request.action is Some)
            &&& result is Ok && request.display_name is Some ==> result->Ok_0.0 is Some
                && result->Ok_0.0->0@ == name && result->Ok_0.1 is None
            &&& result is Ok && request.display_name is None ==> result->Ok_0.0 is None
            &&& result is Ok && request.action == Some(DeviceActionRequest::Disable)
                ==> result->Ok_0.1 == Some(DeviceManagementAction::Disable)
            &&& result is Ok && request.action == Some(DeviceActionRequest::Restore)
                ==> result->Ok_0.1 == Some(DeviceManagementAction::Restore)
            &&& result is Ok && request.action == Some(DeviceActionRequest::Unbind)
                ==> result->Ok_0.1 == Some(DeviceManagementAction::Unbind)
            &&& result is Ok && request.action == Some(DeviceActionRequest::RevokePublicKey)
                ==> result->Ok_0.1 == Some(DeviceManagementAction::RevokePublicKey)
            &&& result is Err ==> result->Err_0@.status == 400 && result->Err_0@.code
                == "invalid_device_update"@ && result->Err_0@.request_id == request_id@
        }),
{
}

/// An update that was built for two devices of an account, with their records unchanged, is carried
/// out where the lifecycle allows it and nothing is to be closed; what is logged names both devices
/// and what was asked.
pub proof fn a_built_update_fits_its_devices(
    account_id: &str,
    actor: &Device,
    target: &Device,
    display_name: Option<String>,
    action: Option<DeviceManagementAction>,
    audit_id: String,
    request_id: &str,
    now: u64,
    command: DeviceManagementCommand,
    facts: ManagementFacts,
    result: Result<ManagementDecision, ManagementEnd>,
)
    requires
        call_ensures(
            build_device_update,
            (account_id, actor, target, display_name, action, audit_id, request_id, now),
            command,
        ),
        call_ensures(manage_device, (&command, facts), result),
        facts.actor is Some && facts.actor->0 is Ok && facts.actor->0->Ok_0@ == actor@,
        facts.target is Some && facts.target->0 is Ok && facts.target->0->Ok_0@ == target@,
        actor@.account_id == account_id@,
        target@.account_id == account_id@,
        actor@.public_key_revoked_at_epoch_millis is None,
        actor@.status == DeviceLifecycleStatus::Online || actor@.status
            == DeviceLifecycleStatus::Offline || actor@.status == DeviceLifecycleStatus::Busy,
        target@.public_key_version <= i32::MAX,
        facts.managed is Some,
        facts.account_active,
        facts.authority_audits is Ok,
        facts.authority_audits->Ok_0@.len() > 0,
        facts.sessions@.len() == 0,
        facts.trusts@.len() == 0,
        facts.account_sessions@.len() == 0,
    ensures
        result is Ok,
        command.account_id@ == account_id@,
        command.actor_device_id@ == actor@.device_id,
        command.target_device_id@ == target@.device_id,
        opt_text(command.display_name) == opt_text(display_name),
        command.action == action,
        command.now_epoch_millis == now,
        ({
            let entry = command.audit_entry@;
            &&& entry.audit_id == audit_id@
            &&& entry.actor_type == "device"@
            &&& entry.actor_account_id == Some(account_id@)
            &&& entry.actor_device_id == Some(actor@.device_id)
            &&& entry.target_device_id == Some(target@.device_id)
            &&& entry.result == "success"@
            &&& entry.request_id == request_id@
            &&& entry.created_at_epoch_millis == now
            &&& action == Some(DeviceManagementAction::Unbind) ==> entry.action
                == "device_unregistered"@
            &&& action == Some(DeviceManagementAction::RevokePublicKey) ==> entry.action
                == "device_public_key_revoked"@
            &&& action != Some(DeviceManagementAction::Unbind) && action != Some(
                DeviceManagementAction::RevokePublicKey,
            ) ==> entry.action == "device_status_changed"@
        }),
{
    assert(epochs_renewable(facts.sessions@));
    assert(sessions_readable(facts.sessions@, now));
}

/// Every action has a name of its own.
pub proof fn actions_have_names_of_their_own(
    first: DeviceManagementAction,
    second: DeviceManagementAction,
    first_name: &'static str,
    second_name: &'static str,
)
    requires
        call_ensures(device_management_action_name, (first,), first_name),
        call_ensures(device_management_action_name, (second,), second_name),
    ensures
        first_name@ == second_name@ <==> first == second,
        first == DeviceManagementAction::Disable ==> first_name@ == "disable"@,
        first == DeviceManagementAction::Restore ==> first_name@ == "restore"@,
        first == DeviceManagementAction::Unbind ==> first_name@ == "unbind"@,
        first == DeviceManagementAction::RevokePublicKey ==> first_name@ == "revoke_public_key"@,
{
    reveal_strlit("disable");
    reveal_strlit("restore");
    reveal_strlit("unbind");
    reveal_strlit("revoke_public_key");
    assert("disable"@[0] == 'd' && "restore"@[0] == 'r' && "unbind"@[0] == 'u');
    assert("restore"@.len() == 7 && "revoke_public_key"@.len() == 17);
}

/// An update that fails is told apart: a failure of the store, a conflict, a device that is not
/// there, and a change that the lifecycle forbids.
pub proof fn a_failed_update_is_answered(end: ManagementEnd, request_id: &str, error: Fault)
    requires
        call_ensures(device_update_error, (end, request_id), error),
    ensures
        end == ManagementEnd::Fail(StoreError::Unavailable) <==> error is Internal,
        end == ManagementEnd::Fail(StoreError::Conflict) ==> error is Refused
            && error->Refused_0@.status == 409 && error->Refused_0@.code
            == "device_update_conflict"@,
        end == ManagementEnd::NotFound ==> error is Refused && error->Refused_0@.status == 404
            && error->Refused_0@.code == "device_not_found"@,
        end == ManagementEnd::InvalidTransition ==> error is Refused && error->Refused_0@.status
            == 409 && error->Refused_0@.code == "invalid_device_transition"@,
{
}

/// A key is replaced by another one that the device proves to hold, on the request of the device
/// itself under its current key. A rotation that is built from such a request fits the device it was
/// signed by: under a challenge that covers it, nothing of it is refused.
pub proof fn a_checked_rotation_fits_its_device(
    request: &RotateDeviceKeyRequest,
    device_id: &str,
    signed_device: &Device,
    new_public_key: &Option<[u8; 32]>,
    proof_valid: bool,
    request_id: &str,
    checked: Result<[u8; 32], ApiError>,
    account_id: &str,
    new_public_key_id: String,
    step_up: StepUpExpectation,
    audit_id: String,
    now: u64,
    built: Result<DeviceKeyRotation, ApiError>,
    facts: RotationFacts,
    result: Result<RotationDecision, StoreError>,
)
    requires
        call_ensures(
            check_rotation,
            (request, device_id, signed_device, new_public_key, proof_valid, request_id),
            checked,
        ),
        checked is Ok ==> call_ensures(
            build_rotation,
            (
                account_id,
                signed_device,
                new_public_key_id,
                checked->Ok_0,
                step_up,
                audit_id,
                request_id,
                now,
            ),
            built,
        ),
        checked is Ok && built is Ok ==> call_ensures(
            rotate_device_key,
            (&built->Ok_0, facts),
            result,
        ),
        step_up_covers(step_up, facts.step_up),
        facts.device is Some && facts.device->0 is Ok && facts.device->0->Ok_0@ == signed_device@,
        signed_device@.account_id == step_up.account_id@,
        signed_device@.public_key_revoked_at_epoch_millis is None,
        signed_device@.public_key_version < i32::MAX,
        new_public_key_id@ != signed_device@.public_key_id,
        !facts.key_id_taken,
        facts.rotation_audit is Ok,
        facts.sessions@.len() == 0,
        facts.trusts@.len() == 0,
    ensures
        checked is Ok <==> signed_device@.device_id == device_id@ && signed_device@.public_key_id
            == request.current_public_key_id@ && signed_device@.public_key_version
            == request.current_public_key_version && *new_public_key is Some && new_public_key->0
            != signed_device@.public_key && proof_valid,
        checked is Ok ==> Some(checked->Ok_0) == *new_public_key,
        checked is Ok ==> built is Ok,
        checked is Ok ==> result is Ok && result->Ok_0.device@.public_key == new_public_key->0
            && result->Ok_0.device@.public_key_version == signed_device@.public_key_version + 1,
        checked is Ok ==> built->Ok_0.audit_entry@.action == "device_public_key_rotated"@
            && built->Ok_0.audit_entry@.actor_account_id == Some(account_id@)
            && built->Ok_0.audit_entry@.actor_device_id == Some(device_id@)
            && built->Ok_0.audit_entry@.target_device_id == Some(device_id@)
            && built->Ok_0.audit_entry@.audit_id == audit_id@
            && built->Ok_0.audit_entry@.created_at_epoch_millis == now,
{
    assert(epochs_renewable(facts.sessions@));
    assert(sessions_readable(facts.sessions@, step_up.now_epoch_millis));
}

/// A refused rotation says what is wrong with it.
pub proof fn a_refused_rotation_says_why(
    request: &RotateDeviceKeyRequest,
    device_id: &str,
    signed_device: &Device,
    new_public_key: &Option<[u8; 32]>,
    proof_valid: bool,
    request_id: &str,
    checked: Result<[u8; 32], ApiError>,
    error: StoreError,
    fault: Fault,
)
    requires
        call_ensures(
            check_rotation,
            (request, device_id, signed_device, new_public_key, proof_valid, request_id),
            checked,
        ),
        call_ensures(rotation_error, (error, request_id), fault),
    ensures
        ({
            let matches_device = signed_device@.device_id == device_id@
                && signed_device@.public_key_id == request.current_public_key_id@
                && signed_device@.public_key_version == request.current_public_key_version;
            &&& !matches_device ==> checked is Err && checked->Err_0@.status == 403
                && checked->Err_0@.code == "current_device_key_mismatch"@
            &&& matches_device && *new_public_key is None ==> checked is Err
                && checked->Err_0@.status == 400 && checked->Err_0@.code == "invalid_public_key"@
            &&& matches_device && *new_public_key == Some(signed_device@.public_key) ==> checked
                is Err && checked->Err_0@.status == 400 && checked->Err_0@.code
                == "unchanged_public_key"@
            &&& matches_device && *new_public_key is Some && *new_public_key != Some(
                signed_device@.public_key,
            ) && !proof_valid ==> checked is Err && checked->Err_0@.status == 403
                && checked->Err_0@.code == "new_device_key_proof_failed"@
            &&& error == StoreError::Unavailable ==> fault is Internal
            &&& error == StoreError::Conflict ==> fault is Refused && fault->Refused_0@.status
                == 409 && fault->Refused_0@.code == "device_key_rotation_conflict"@
        }),
{
}

/// A rotation cannot be built from the last version that a key can have.
pub proof fn the_last_key_version_is_final(
    account_id: &str,
    signed_device: &Device,
    new_public_key_id: String,
    new_public_key: [u8; 32],
    step_up: StepUpExpectation,
    audit_id: String,
    request_id: &str,
    now: u64,
    result: Result<DeviceKeyRotation, ApiError>,
)
    requires
        call_ensures(
            build_rotation,
            (
                account_id,
                signed_device,
                new_public_key_id,
                new_public_key,
                step_up,
                audit_id,
                request_id,
                now,
            ),
            result,
        ),
    ensures
        result is Err <==> signed_device@.public_key_version == u32::MAX,
        result is Err ==> result->Err_0@.status == 409 && result->Err_0@.code
            == "device_key_version_exhausted"@,
{
}

/// Both devices of every session that was closed by force are told of it, and nobody else is told
/// of anything.
pub proof fn both_devices_of_a_closed_session_are_told(
    events: &Vec<SessionEvent>,
    notices: Vec<ClosureNotice>,
    at: int,
    told: int,
)
    requires
        call_ensures(notify_forced_session_closures, (events,), notices),
    ensures
        0 <= at < events@.len() && events@[at]@.result_session is Some ==> {
            let session = events@[at]@.result_session->0;
            &&& exists|i: int|
                0 <= i < notices@.len() && (#[trigger] notices@[i]).event == at
                    && notices@[i].device_id@ == session.controller_device_id
            &&& exists|i: int|
                0 <= i < notices@.len() && (#[trigger] notices@[i]).event == at
                    && notices@[i].device_id@ == session.controlled_device_id
        },
        0 <= told < notices@.len() ==> {
            let event = notices@[told].event as int;
            &&& 0 <= event < events@.len()
            &&& events@[event]@.result_session is Some
            &&& (notices@[told].device_id@ == events@[event]@.result_session->0.controller_device_id
                || notices@[told].device_id@
                == events@[event]@.result_session->0.controlled_device_id)
        },
{
    let all = models(events@);
    let wanted = closure_notices(all, events@.len());
    assert(notice_models(notices@) == wanted);
    assert forall|i: int| 0 <= i < notices@.len() implies #[trigger] wanted[i] == (
        notices@[i].device_id@,
        notices@[i].event as int,
    ) by {
        assert(notice_models(notices@)[i] == (notices@[i].device_id@, notices@[i].event as int));
    }
    lemma_notices(all, events@.len(), at, told);
    if 0 <= at < events@.len() && events@[at]@.result_session is Some {
        let session = events@[at]@.result_session->0;
        assert(all[at] == events@[at]@);
        let i = choose|i: int|
            0 <= i < wanted.len() && #[trigger] wanted[i] == (session.controller_device_id, at);
        assert(notices@[i].event == at);
        let j = choose|j: int|
            0 <= j < wanted.len() && #[trigger] wanted[j] == (session.controlled_device_id, at);
        assert(notices@[j].event == at);
    }
}

proof fn lemma_notices(events: Seq<SessionEventModel>, count: nat, at: int, told: int)
    requires
        count <= events.len(),
    ensures
        ({
            let notices = closure_notices(events, count);
            &&& 0 <= at < count && events[at].result_session is Some ==> {
                let session = events[at].result_session->0;
                &&& exists|i: int|
                    0 <= i < notices.len() && #[trigger] notices[i] == (
                        session.controller_device_id,
                        at,
                    )
                &&& exists|i: int|
                    0 <= i < notices.len() && #[trigger] notices[i] == (
                        session.controlled_device_id,
                        at,
                    )
            }
            &&& 0 <= told < notices.len() ==> {
                let event = notices[told].1;
                &&& 0 <= event < count
                &&& events[event].result_session is Some
                &&& (notices[told].0 == events[event].result_session->0.controller_device_id
                    || notices[told].0 == events[event].result_session->0.controlled_device_id)
            }
        }),
    decreases count,
{
    if count > 0 {
        let before = closure_notices(events, (count - 1) as nat);
        let notices = closure_notices(events, count);
        lemma_notices(events, (count - 1) as nat, at, told);
        assert(forall|i: int| 0 <= i < before.len() ==> #[trigger] notices[i] == before[i]);
        if 0 <= at < count && events[at].result_session is Some {
            let session = events[at].result_session->0;
            if at < count - 1 {
                let i = choose|i: int|
                    0 <= i < before.len() && #[trigger] before[i] == (
                        session.controller_device_id,
                        at,
                    );
                assert(notices[i] == (session.controller_device_id, at));
                let j = choose|j: int|
                    0 <= j < before.len() && #[trigger] before[j] == (
                        session.controlled_device_id,
                        at,
                    );
                assert(notices[j] == (session.controlled_device_id, at));
            } else {
                let len = before.len() as int;
                assert(notices[len] == (session.controller_device_id, at));
                assert(notices[len + 1] == (session.controlled_device_id, at));
            }
        }
    }
}

} // verus!
