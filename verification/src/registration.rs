use crate::audit::{AuditEntry, AuditEntryModel};
use crate::bytes::{bytes_eq, constant_time_sha256_eq, opt_array_eq};
use crate::database::{append_log, Database, DatabaseModel};
use crate::device::{
    Device, DeviceEnrollmentGrant, DeviceEnrollmentGrantModel, DeviceModel, DevicePublicKeyRecord,
    TrustedControllerDevice, TrustedControllerDeviceModel, TrustedDeviceStatus,
};
use crate::hash::{sha256, sha256_digest};
use crate::rows::key_record_of;
use crate::rules::{
    trusted_device_problem, validate_trusted_device, RECOVERY_TRUST_TTL_MILLIS,
    TOTP_TRUST_TTL_MILLIS,
};
use crate::store::{check_written, state_after, write_failure, PersistenceError, StoreError};
use crate::table::{opt_model, Record};
use crate::text::{opt_text, text_eq};
use vstd::prelude::*;

verus! {

/// How far the time of a signed request may be from the time at which it comes in.
pub const SIGNATURE_WINDOW_MILLIS: u64 = 30_000;

/// Whether the time of a signed request is near enough to the time at which it came in.
pub open spec fn within_window(now: u64, timestamp: u64) -> bool {
    now - timestamp <= SIGNATURE_WINDOW_MILLIS && timestamp - now <= SIGNATURE_WINDOW_MILLIS
}

/// Whether the time of a signed request is near enough to the time at which it came in.
pub fn is_within_window(now: u64, timestamp: u64) -> (within: bool)
    ensures
        within == within_window(now, timestamp),
{
    if now >= timestamp {
        now - timestamp <= SIGNATURE_WINDOW_MILLIS
    } else {
        timestamp - now <= SIGNATURE_WINDOW_MILLIS
    }
}

/// The signed request by which a device proves that it has its key.
#[derive(Debug, PartialEq, Eq)]
pub struct InitialDeviceSignatureProof {
    pub target: String,
    pub content_type: Option<String>,
    pub request_id: String,
    pub timestamp_epoch_millis: u64,
    pub nonce: String,
    pub signature: String,
    pub canonical_body: Vec<u8>,
}

/// A request to register the device that an enrollment grant was issued for.
#[derive(Debug, PartialEq, Eq)]
pub struct DeviceRegistrationCommand {
    pub grant_id: String,
    pub grant_secret_hash: [u8; 32],
    pub account_id: String,
    pub account_session_id: String,
    pub protocol_version: u16,
    pub registration_request_binding_hash: [u8; 32],
    pub device: Device,
    pub trusted_device_id: Option<String>,
    pub registration_audit_entry: AuditEntry,
    pub grant_audit_entry: AuditEntry,
    pub trusted_device_audit_entry: Option<AuditEntry>,
    pub signature_proof: InitialDeviceSignatureProof,
    pub now_epoch_millis: u64,
}

/// How a request to register a device is answered.
#[derive(Debug, PartialEq, Eq)]
pub enum DeviceRegistrationOutcome {
    InvalidGrant,
    Replayed(Device),
    Created(Device),
}

/// The login challenge that a grant was issued with, as its locked row holds it.
#[derive(Debug, PartialEq, Eq)]
pub struct EnrollmentChallengeRow {
    pub account_id: String,
    pub operation_binding_hash: Vec<u8>,
    pub purpose: String,
    pub status: String,
    pub consumed_at_epoch_millis: Option<i64>,
    pub login_device_id: String,
    pub login_device_public_key_fingerprint: Vec<u8>,
    pub login_protocol_version: i32,
}

/// What the store and the verifiers say of a registration.
#[derive(Debug, PartialEq, Eq)]
pub struct RegistrationFacts {
    pub grant: Option<Result<DeviceEnrollmentGrant, String>>,
    /// Whether the records that the registration rests on fit one another.
    pub authority: Result<(), StoreError>,
    /// Whether the signed request was signed with the key of the device.
    pub signature_valid: bool,
    pub challenge: Option<EnrollmentChallengeRow>,
    /// The trusted device that an earlier registration under the grant created.
    pub registered_trust: Option<Result<TrustedControllerDevice, String>>,
    /// The device that an earlier registration under the grant was answered with.
    pub registered_device: Result<Device, StoreError>,
    /// Whether the session can be used and, if so, whether it was made with a second factor.
    pub session_mfa_verified: Option<bool>,
    /// Whether the name or the key of the device is taken.
    pub device_taken: bool,
    /// The audit entry of the registration with its result.
    pub result_audit: Result<AuditEntry, StoreError>,
}

/// What comes of a request to register a device.
#[derive(Debug, PartialEq, Eq)]
pub enum RegistrationDecision {
    InvalidGrant,
    Replayed(Device),
    /// The device is registered, the grant is used up, and perhaps the device is trusted.
    Created {
        grant: DeviceEnrollmentGrant,
        trusted: Option<TrustedControllerDevice>,
        result_audit: AuditEntry,
    },
}

/// The model of [`RegistrationDecision`].
pub enum RegistrationModel {
    InvalidGrant,
    Replayed(DeviceModel),
    Created {
        grant: DeviceEnrollmentGrantModel,
        trusted: Option<TrustedControllerDeviceModel>,
        result_audit: AuditEntryModel,
    },
}

impl View for RegistrationDecision {
    type V = RegistrationModel;

    open spec fn view(&self) -> RegistrationModel {
        match *self {
            RegistrationDecision::InvalidGrant => RegistrationModel::InvalidGrant,
            RegistrationDecision::Replayed(device) => RegistrationModel::Replayed(device@),
            RegistrationDecision::Created { grant, trusted, result_audit } => {
                RegistrationModel::Created {
                    grant: grant@,
                    trusted: opt_model(trusted),
                    result_audit: result_audit@,
                }
            },
        }
    }
}

/// The model of the result of a registration.
pub open spec fn registration_model(result: Result<RegistrationDecision, StoreError>) -> Result<
    RegistrationModel,
    StoreError,
> {
    match result {
        Ok(decision) => Ok(decision@),
        Err(error) => Err(error),
    }
}

/// Whether a device is one that can be registered: of the account, with a first key, and not from
/// the future.
pub open spec fn new_device_fits(command: DeviceRegistrationCommand) -> bool {
    let device = command.device@;
    &&& device.account_id == command.account_id@
    &&& device.device_id.len() > 0
    &&& device.public_key_version == 1
    &&& device.public_key_revoked_at_epoch_millis is None
    &&& device.created_at_epoch_millis <= command.now_epoch_millis
    &&& device.updated_at_epoch_millis >= device.created_at_epoch_millis
}

/// Whether a request shows the secret of a grant and is for what the grant was issued for.
pub open spec fn grant_matches(
    command: DeviceRegistrationCommand,
    grant: DeviceEnrollmentGrantModel,
    signature_valid: bool,
) -> bool {
    &&& grant.grant_secret_hash == command.grant_secret_hash
    &&& grant.account_id == command.account_id@
    &&& grant.device_id == command.device@.device_id
    &&& grant.protocol_version == command.protocol_version
    &&& grant.issued_account_session_id == command.account_session_id@
    &&& grant.device_public_key_fingerprint@ == sha256_digest(command.device@.public_key@)
    &&& within_window(command.now_epoch_millis, command.signature_proof.timestamp_epoch_millis)
    &&& signature_valid
}

/// Whether the row of the login challenge of a grant can be read.
pub open spec fn enrollment_challenge_readable(row: EnrollmentChallengeRow) -> bool {
    &&& row.operation_binding_hash@.len() == 32
    &&& row.login_device_public_key_fingerprint@.len() == 32
    &&& 0 <= row.login_protocol_version <= u16::MAX
}

/// Whether a challenge is the used login challenge that a grant was issued with.
pub open spec fn enrollment_challenge_matches(
    row: EnrollmentChallengeRow,
    grant: DeviceEnrollmentGrantModel,
) -> bool {
    &&& row.account_id@ == grant.account_id
    &&& row.purpose@ == "login_mfa"@
    &&& row.status@ == "consumed"@
    &&& row.consumed_at_epoch_millis is Some
    &&& row.login_device_id@ == grant.device_id
    &&& row.login_device_public_key_fingerprint@ == grant.device_public_key_fingerprint@
    &&& row.login_protocol_version == grant.protocol_version
    &&& row.operation_binding_hash@ == grant.login_challenge_binding_hash@
}

/// A text, or the empty text where there is none.
pub open spec fn or_empty(value: Option<Seq<char>>) -> Seq<char> {
    match value {
        Some(text) => text,
        None => Seq::empty(),
    }
}

/// Whether the trusted device that a used grant names is the one that it established.
pub open spec fn replayed_trust_fits(
    grant: DeviceEnrollmentGrantModel,
    registered_trust: Option<Result<TrustedControllerDevice, String>>,
) -> bool {
    if !grant.establish_trust {
        grant.registered_trusted_device_id is None
    } else {
        &&& grant.registered_trusted_device_id is Some
        &&& registered_trust is Some
        &&& registered_trust->0 is Ok
        &&& ({
            let trusted = registered_trust->0->Ok_0@;
            &&& trusted.account_id == grant.account_id
            &&& trusted.controller_device_id == grant.device_id
            &&& trusted.trust_proof_type == or_empty(grant.trust_proof_type)
            &&& trusted.trust_level == or_empty(grant.trust_level)
            &&& trusted.device_fingerprint_hash == grant.device_public_key_fingerprint
        })
    }
}

/// What comes of a registration under a grant that was used before: the same request is answered
/// as it was then, and any other is refused.
pub open spec fn replay_result(
    command: DeviceRegistrationCommand,
    grant: DeviceEnrollmentGrantModel,
    facts: RegistrationFacts,
) -> Result<RegistrationModel, StoreError> {
    if grant.registration_request_binding_hash != Some(command.registration_request_binding_hash) {
        Err(StoreError::Conflict)
    } else if grant.registered_public_key_id is None || grant.establish_trust
        != grant.registered_trusted_device_id is Some || !replayed_trust_fits(
        grant,
        facts.registered_trust,
    ) {
        Err(StoreError::Unavailable)
    } else {
        match facts.registered_device {
            Ok(device) => Ok(RegistrationModel::Replayed(device@)),
            Err(error) => Err(error),
        }
    }
}

/// How long a device stays trusted by a proof.
pub open spec fn trust_ttl(trust_proof_type: Seq<char>) -> u64 {
    if trust_proof_type == "device_signature_and_recovery_code"@ {
        RECOVERY_TRUST_TTL_MILLIS
    } else {
        TOTP_TRUST_TTL_MILLIS
    }
}

/// A time some while after another, or the latest time.
pub open spec fn later(now: u64, ttl: u64) -> u64 {
    if now + ttl <= u64::MAX {
        (now + ttl) as u64
    } else {
        u64::MAX
    }
}

/// The trusted device that a registration creates under a grant that establishes trust.
pub open spec fn established_trust(
    command: DeviceRegistrationCommand,
    grant: DeviceEnrollmentGrantModel,
) -> TrustedControllerDeviceModel {
    let now = command.now_epoch_millis;
    TrustedControllerDeviceModel {
        trusted_device_id: command.trusted_device_id->0@,
        account_id: command.account_id@,
        controller_device_id: command.device@.device_id,
        device_fingerprint_hash: grant.device_public_key_fingerprint,
        trust_level: grant.trust_level->0,
        status: TrustedDeviceStatus::Active,
        trust_proof_type: grant.trust_proof_type->0,
        created_at_epoch_millis: now,
        last_used_at_epoch_millis: None,
        expires_at_epoch_millis: later(now, trust_ttl(grant.trust_proof_type->0)),
        revoked_at_epoch_millis: None,
    }
}

/// Why a registration fails that would establish trust.
pub open spec fn trust_failure(
    command: DeviceRegistrationCommand,
    grant: DeviceEnrollmentGrantModel,
) -> Option<StoreError> {
    if !grant.establish_trust {
        None
    } else if command.trusted_device_id is None {
        Some(StoreError::Conflict)
    } else if grant.trust_proof_type is None || grant.trust_level is None {
        Some(StoreError::Unavailable)
    } else if trusted_device_problem(established_trust(command, grant)) is Some {
        Some(StoreError::Unavailable)
    } else if command.trusted_device_audit_entry is None {
        Some(StoreError::Conflict)
    } else {
        None
    }
}

/// A grant after the registration under it.
pub open spec fn used_grant(
    command: DeviceRegistrationCommand,
    grant: DeviceEnrollmentGrantModel,
) -> DeviceEnrollmentGrantModel {
    DeviceEnrollmentGrantModel {
        consumed_at_epoch_millis: Some(command.now_epoch_millis),
        registration_request_binding_hash: Some(command.registration_request_binding_hash),
        registered_public_key_id: Some(command.device@.public_key_id),
        registered_trusted_device_id: if grant.establish_trust {
            opt_text(command.trusted_device_id)
        } else {
            None
        },
        ..grant
    }
}

/// What comes of a registration under a grant that was not used yet.
pub open spec fn first_result(
    command: DeviceRegistrationCommand,
    grant: DeviceEnrollmentGrantModel,
    facts: RegistrationFacts,
) -> Result<RegistrationModel, StoreError> {
    if grant.expires_at_epoch_millis <= command.now_epoch_millis {
        Ok(RegistrationModel::InvalidGrant)
    } else if grant.registration_request_binding_hash is Some || grant.registered_public_key_id
        is Some || grant.registered_trusted_device_id is Some {
        Err(StoreError::Unavailable)
    } else if facts.session_mfa_verified is None || grant.establish_trust
        && facts.session_mfa_verified != Some(true) {
        Ok(RegistrationModel::InvalidGrant)
    } else if facts.device_taken {
        Err(StoreError::Conflict)
    } else if trust_failure(command, grant) is Some {
        Err(trust_failure(command, grant)->0)
    } else {
        match facts.result_audit {
            Err(error) => Err(error),
            Ok(result_audit) => Ok(
                RegistrationModel::Created {
                    grant: used_grant(command, grant),
                    trusted: if grant.establish_trust {
                        Some(established_trust(command, grant))
                    } else {
                        None
                    },
                    result_audit: result_audit@,
                },
            ),
        }
    }
}

/// What comes of a request to register a device.
pub open spec fn registration_result(
    command: DeviceRegistrationCommand,
    facts: RegistrationFacts,
) -> Result<RegistrationModel, StoreError> {
    if !new_device_fits(command) {
        Err(StoreError::Conflict)
    } else if facts.grant is None {
        Ok(RegistrationModel::InvalidGrant)
    } else if facts.grant->0 is Err {
        Err(StoreError::Unavailable)
    } else if facts.authority is Err {
        Err(facts.authority->Err_0)
    } else {
        let grant = facts.grant->0->Ok_0@;
        if !grant_matches(command, grant, facts.signature_valid) || facts.challenge is None {
            Ok(RegistrationModel::InvalidGrant)
        } else if !enrollment_challenge_readable(facts.challenge->0) {
            Err(StoreError::Unavailable)
        } else if !enrollment_challenge_matches(facts.challenge->0, grant) {
            Ok(RegistrationModel::InvalidGrant)
        } else if grant.consumed_at_epoch_millis is Some {
            replay_result(command, grant, facts)
        } else {
            first_result(command, grant, facts)
        }
    }
}

fn digest_is(digest: &[u8; 32], bytes: &Vec<u8>) -> (same: bool)
    ensures
        same == (digest@ == bytes@),
{
    bytes_eq(digest.as_slice(), bytes.as_slice())
}

fn matches_grant(
    command: &DeviceRegistrationCommand,
    grant: &DeviceEnrollmentGrant,
    signature_valid: bool,
) -> (fits: bool)
    ensures
        fits == grant_matches(*command, grant@, signature_valid),
{
    let fingerprint = sha256(command.device.public_key.as_slice());
    let same_key = constant_time_sha256_eq(&grant.device_public_key_fingerprint, &fingerprint);
    assert(same_key == (grant.device_public_key_fingerprint@ == fingerprint@)) by {
        assert(grant.device_public_key_fingerprint@ == fingerprint@
            ==> grant.device_public_key_fingerprint =~= fingerprint);
    }
    constant_time_sha256_eq(&grant.grant_secret_hash, &command.grant_secret_hash) && text_eq(
        grant.account_id.as_str(),
        command.account_id.as_str(),
    ) && text_eq(grant.device_id.as_str(), command.device.device_id.as_str())
        && grant.protocol_version == command.protocol_version && text_eq(
        grant.issued_account_session_id.as_str(),
        command.account_session_id.as_str(),
    ) && same_key && is_within_window(
        command.now_epoch_millis,
        command.signature_proof.timestamp_epoch_millis,
    ) && signature_valid
}

fn matches_challenge(row: &EnrollmentChallengeRow, grant: &DeviceEnrollmentGrant) -> (fits: bool)
    requires
        enrollment_challenge_readable(*row),
    ensures
        fits == enrollment_challenge_matches(*row, grant@),
{
    text_eq(row.account_id.as_str(), grant.account_id.as_str()) && text_eq(
        row.purpose.as_str(),
        "login_mfa",
    ) && text_eq(row.status.as_str(), "consumed") && row.consumed_at_epoch_millis.is_some()
        && text_eq(row.login_device_id.as_str(), grant.device_id.as_str()) && digest_is(
        &grant.device_public_key_fingerprint,
        &row.login_device_public_key_fingerprint,
    ) && row.login_protocol_version == grant.protocol_version as i32 && digest_is(
        &grant.login_challenge_binding_hash,
        &row.operation_binding_hash,
    )
}

fn opt_or_empty<'a>(value: &'a Option<String>) -> (text: &'a str)
    ensures
        text@ == or_empty(opt_text(*value)),
{
    match value {
        Some(text) => text.as_str(),
        None => {
            proof {
                reveal_strlit("");
                assert(""@ =~= Seq::<char>::empty());
            }
            ""
        },
    }
}

/// Whether the trusted device that a used grant names is the one that it established.
pub fn verify_replayed_device_trust(
    grant: &DeviceEnrollmentGrant,
    registered_trust: &Option<Result<TrustedControllerDevice, String>>,
) -> (result: Result<(), StoreError>)
    ensures
        result == if replayed_trust_fits(grant@, *registered_trust) {
            Ok(())
        } else {
            Err(StoreError::Unavailable)
        },
{
    if !grant.establish_trust {
        return if grant.registered_trusted_device_id.is_none() {
            Ok(())
        } else {
            Err(StoreError::Unavailable)
        };
    }
    if grant.registered_trusted_device_id.is_none() {
        return Err(StoreError::Unavailable);
    }
    match registered_trust {
        Some(Ok(trusted)) => if text_eq(trusted.account_id.as_str(), grant.account_id.as_str())
            && text_eq(trusted.controller_device_id.as_str(), grant.device_id.as_str()) && text_eq(
            trusted.trust_proof_type.as_str(),
            opt_or_empty(&grant.trust_proof_type),
        ) && text_eq(trusted.trust_level.as_str(), opt_or_empty(&grant.trust_level))
            && constant_time_sha256_eq(
            &trusted.device_fingerprint_hash,
            &grant.device_public_key_fingerprint,
        ) {
            Ok(())
        } else {
            Err(StoreError::Unavailable)
        },
        _ => Err(StoreError::Unavailable),
    }
}

fn replay_registration(
    command: &DeviceRegistrationCommand,
    grant: &DeviceEnrollmentGrant,
    facts: RegistrationFacts,
) -> (result: Result<RegistrationDecision, StoreError>)
    ensures
        registration_model(result) == replay_result(*command, grant@, facts),
{
    if !opt_array_eq(
        &grant.registration_request_binding_hash,
        &Some(command.registration_request_binding_hash),
    ) {
        return Err(StoreError::Conflict);
    }
    if grant.registered_public_key_id.is_none() || grant.establish_trust
        != grant.registered_trusted_device_id.is_some() {
        return Err(StoreError::Unavailable);
    }
    verify_replayed_device_trust(grant, &facts.registered_trust)?;
    match facts.registered_device {
        Ok(device) => Ok(RegistrationDecision::Replayed(device)),
        Err(error) => Err(error),
    }
}

fn establish_trust(command: &DeviceRegistrationCommand, grant: &DeviceEnrollmentGrant) -> (result:
    Result<Option<TrustedControllerDevice>, StoreError>)
    ensures
        result is Err <==> trust_failure(*command, grant@) is Some,
        result is Err ==> Some(result->Err_0) == trust_failure(*command, grant@),
        result is Ok ==> opt_model(result->Ok_0) == if grant@.establish_trust {
            Some(established_trust(*command, grant@))
        } else {
            None
        },
{
    if !grant.establish_trust {
        return Ok(None);
    }
    let trusted_device_id = match &command.trusted_device_id {
        Some(id) => id.clone(),
        None => {
            return Err(StoreError::Conflict);
        },
    };
    let (trust_proof_type, trust_level) = match (&grant.trust_proof_type, &grant.trust_level) {
        (Some(proof_type), Some(level)) => (proof_type.clone(), level.clone()),
        _ => {
            return Err(StoreError::Unavailable);
        },
    };
    let ttl: u64 = if text_eq(trust_proof_type.as_str(), "device_signature_and_recovery_code") {
        RECOVERY_TRUST_TTL_MILLIS
    } else {
        TOTP_TRUST_TTL_MILLIS
    };
    let trusted = TrustedControllerDevice {
        trusted_device_id,
        account_id: command.account_id.clone(),
        controller_device_id: command.device.device_id.clone(),
        device_fingerprint_hash: grant.device_public_key_fingerprint,
        trust_level,
        status: TrustedDeviceStatus::Active,
        trust_proof_type,
        created_at_epoch_millis: command.now_epoch_millis,
        last_used_at_epoch_millis: None,
        expires_at_epoch_millis: command.now_epoch_millis.saturating_add(ttl),
        revoked_at_epoch_millis: None,
    };
    if validate_trusted_device(&trusted).is_err() {
        return Err(StoreError::Unavailable);
    }
    if command.trusted_device_audit_entry.is_none() {
        return Err(StoreError::Conflict);
    }
    Ok(Some(trusted))
}

fn first_registration(
    command: &DeviceRegistrationCommand,
    grant: DeviceEnrollmentGrant,
    facts: RegistrationFacts,
) -> (result: Result<RegistrationDecision, StoreError>)
    ensures
        registration_model(result) == first_result(*command, grant@, facts),
{
    if grant.expires_at_epoch_millis <= command.now_epoch_millis {
        return Ok(RegistrationDecision::InvalidGrant);
    }
    if grant.registration_request_binding_hash.is_some() || grant.registered_public_key_id.is_some()
        || grant.registered_trusted_device_id.is_some() {
        return Err(StoreError::Unavailable);
    }
    let session_fits = match facts.session_mfa_verified {
        Some(mfa_verified) => !grant.establish_trust || mfa_verified,
        None => false,
    };
    if !session_fits {
        return Ok(RegistrationDecision::InvalidGrant);
    }
    if facts.device_taken {
        return Err(StoreError::Conflict);
    }
    let trusted = establish_trust(command, &grant)?;
    let result_audit = facts.result_audit?;
    let mut used = grant;
    used.consumed_at_epoch_millis = Some(command.now_epoch_millis);
    used.registration_request_binding_hash = Some(command.registration_request_binding_hash);
    used.registered_public_key_id = Some(command.device.public_key_id.clone());
    used.registered_trusted_device_id = match &trusted {
        Some(trusted) => Some(trusted.trusted_device_id.clone()),
        None => None,
    };
    Ok(RegistrationDecision::Created { grant: used, trusted, result_audit })
}

/// Decides a request to register a device.
pub fn register_device(command: &DeviceRegistrationCommand, facts: RegistrationFacts) -> (result:
    Result<RegistrationDecision, StoreError>)
    ensures
        registration_model(result) == registration_result(*command, facts),
{
    let device = &command.device;
    if !text_eq(device.account_id.as_str(), command.account_id.as_str())
        || device.device_id.as_str().is_empty() || device.public_key_version != 1
        || device.public_key_revoked_at_epoch_millis.is_some() || device.created_at_epoch_millis
        > command.now_epoch_millis || device.updated_at_epoch_millis
        < device.created_at_epoch_millis {
        return Err(StoreError::Conflict);
    }
    let grant = match &facts.grant {
        None => {
            return Ok(RegistrationDecision::InvalidGrant);
        },
        Some(Err(_)) => {
            return Err(StoreError::Unavailable);
        },
        Some(Ok(grant)) => grant.duplicate(),
    };
    if let Err(error) = facts.authority {
        return Err(error);
    }
    if !matches_grant(command, &grant, facts.signature_valid) {
        return Ok(RegistrationDecision::InvalidGrant);
    }
    match &facts.challenge {
        None => {
            return Ok(RegistrationDecision::InvalidGrant);
        },
        Some(row) => {
            if row.operation_binding_hash.len() != 32
                || row.login_device_public_key_fingerprint.len() != 32
                || row.login_protocol_version < 0 || row.login_protocol_version > 65535 {
                return Err(StoreError::Unavailable);
            }
            if !matches_challenge(row, &grant) {
                return Ok(RegistrationDecision::InvalidGrant);
            }
        },
    }
    if grant.consumed_at_epoch_millis.is_some() {
        replay_registration(command, &grant, facts)
    } else {
        first_registration(command, grant, facts)
    }
}

/// The database after a request to register a device.
pub open spec fn after_registration(
    database: DatabaseModel,
    command: DeviceRegistrationCommand,
    decision: RegistrationModel,
) -> DatabaseModel {
    match decision {
        RegistrationModel::Created { grant, trusted, result_audit } => {
            let logged = if trusted is Some && command.trusted_device_audit_entry is Some {
                database.audit_logs.push(command.trusted_device_audit_entry->0@)
            } else {
                database.audit_logs
            };
            DatabaseModel {
                devices: database.devices.insert(command.device@.device_id, command.device@),
                device_public_keys: database.device_public_keys.insert(
                    command.device@.public_key_id,
                    key_record_of(command.device@),
                ),
                device_enrollment_grants: database.device_enrollment_grants.insert(
                    grant.grant_id,
                    grant,
                ),
                trusted_controller_devices: match trusted {
                    Some(model) => database.trusted_controller_devices.insert(
                        model.trusted_device_id,
                        model,
                    ),
                    None => database.trusted_controller_devices,
                },
                audit_logs: logged.push(result_audit).push(command.grant_audit_entry@),
                ..database
            }
        },
        _ => database,
    }
}

/// Publishes a request to register a device, and answers it.
pub fn publish_registration(
    database: &mut Database,
    command: &DeviceRegistrationCommand,
    decision: RegistrationDecision,
    written: &Result<(), PersistenceError>,
) -> (result: Result<DeviceRegistrationOutcome, StoreError>)
    ensures
        result is Ok <==> write_failure(*written) is None,
        result is Err ==> Some(result->Err_0) == write_failure(*written),
        final(database)@ == state_after(
            *written,
            old(database)@,
            after_registration(old(database)@, *command, decision@),
        ),
        result is Ok ==> match decision {
            RegistrationDecision::InvalidGrant => result->Ok_0 is InvalidGrant,
            RegistrationDecision::Replayed(device) => result->Ok_0 is Replayed && result->Ok_0->Replayed_0@
                == device@,
            RegistrationDecision::Created { grant, trusted, result_audit } => result->Ok_0 is Created
                && result->Ok_0->Created_0@ == command.device@,
        },
{
    check_written(written)?;
    let outcome = match decision {
        RegistrationDecision::InvalidGrant => DeviceRegistrationOutcome::InvalidGrant,
        RegistrationDecision::Replayed(device) => DeviceRegistrationOutcome::Replayed(device),
        RegistrationDecision::Created { grant, trusted, result_audit } => {
            let device = &command.device;
            database.devices.insert(device.device_id.clone(), device.duplicate());
            database.device_public_keys.insert(
                device.public_key_id.clone(),
                DevicePublicKeyRecord {
                    public_key_id: device.public_key_id.clone(),
                    device_id: device.device_id.clone(),
                    public_key: device.public_key,
                    version: device.public_key_version,
                    created_at_epoch_millis: device.created_at_epoch_millis,
                    revoked_at_epoch_millis: device.public_key_revoked_at_epoch_millis,
                },
            );
            database.device_enrollment_grants.insert(grant.grant_id.clone(), grant);
            if let Some(trusted) = trusted {
                database.trusted_controller_devices.insert(
                    trusted.trusted_device_id.clone(),
                    trusted,
                );
                if let Some(entry) = &command.trusted_device_audit_entry {
                    append_log(&mut database.audit_logs, entry.duplicate());
                }
            }
            append_log(&mut database.audit_logs, result_audit);
            append_log(&mut database.audit_logs, command.grant_audit_entry.duplicate());
            DeviceRegistrationOutcome::Created(device.duplicate())
        },
    };
    Ok(outcome)
}

/// Every trusted device that a registration creates is logged: the request brought the audit entry
/// for it.
pub proof fn a_created_trust_has_its_audit_entry(
    command: DeviceRegistrationCommand,
    facts: RegistrationFacts,
)
    requires
        registration_result(command, facts) is Ok,
        registration_result(command, facts)->Ok_0 is Created,
        registration_result(command, facts)->Ok_0->Created_trusted is Some,
    ensures
        command.trusted_device_audit_entry is Some,
{
}

/// A grant registers one device: under a used grant nothing is created, and the request that used
/// it is answered as it was then, whatever became of the device.
pub proof fn a_grant_registers_once(
    command: DeviceRegistrationCommand,
    facts: RegistrationFacts,
)
    requires
        facts.grant is Some,
        facts.grant->0 is Ok,
        facts.grant->0->Ok_0@.consumed_at_epoch_millis is Some,
    ensures
        registration_result(command, facts) is Ok ==> !(registration_result(command, facts)->Ok_0
            is Created),
        registration_result(command, facts) is Ok && registration_result(command, facts)->Ok_0
            is Replayed ==> facts.registered_device is Ok && registration_result(
            command,
            facts,
        )->Ok_0->Replayed_0 == facts.registered_device->Ok_0@
            && facts.grant->0->Ok_0@.registration_request_binding_hash == Some(
            command.registration_request_binding_hash,
        ),
{
}

/// The grant that a registration leaves behind is a valid used grant, and the trusted device that
/// it created is the one that the grant names.
pub proof fn a_registration_leaves_a_used_grant(
    command: DeviceRegistrationCommand,
    facts: RegistrationFacts,
)
    requires
        registration_result(command, facts) is Ok,
        registration_result(command, facts)->Ok_0 is Created,
    ensures
        ({
            let grant = registration_result(command, facts)->Ok_0->Created_grant;
            let trusted = registration_result(command, facts)->Ok_0->Created_trusted;
            &&& grant.consumed_at_epoch_millis == Some(command.now_epoch_millis)
            &&& grant.registration_request_binding_hash == Some(
                command.registration_request_binding_hash,
            )
            &&& trusted is Some <==> grant.establish_trust
            &&& trusted is Some ==> grant.registered_trusted_device_id == Some(
                trusted->0.trusted_device_id,
            ) && trusted_device_problem(trusted->0) is None
            &&& trusted is None ==> grant.registered_trusted_device_id is None
        }),
{
}

} // verus!
