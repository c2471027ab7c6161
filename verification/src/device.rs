use crate::bytes::{array_eq, opt_array_eq};
use crate::table::Record;
use crate::text::{opt_text, opt_text_copy, opt_text_eq, text_eq};
use vstd::prelude::*;

verus! {

/// The operating system of a device.
#[derive(Debug, Clone, Copy, PartialEq, Eq, Structural)]
pub enum Platform {
    Windows,
    Ubuntu,
    Ios,
}

/// The processor architecture of a device.
#[derive(Debug, Clone, Copy, PartialEq, Eq, Structural)]
pub enum Architecture {
    X86_64,
    Aarch64,
}

/// Where a device stands between registration and removal.
#[derive(Debug, Clone, Copy, PartialEq, Eq, Structural)]
pub enum DeviceLifecycleStatus {
    Online,
    Offline,
    Busy,
    Suspended,
    Disabled,
    Unbound,
}

/// Whether a trust in a controller device still holds.
#[derive(Debug, Clone, Copy, PartialEq, Eq, Structural)]
pub enum TrustedDeviceStatus {
    Active,
    Expired,
    Revoked,
}

/// What a device may be used for.
#[derive(Debug, Clone, Copy, PartialEq, Eq, Structural)]
pub struct DeviceCapabilities {
    pub controller: bool,
    pub controlled: bool,
    pub file_transfer: bool,
    pub unattended: bool,
}

/// A device registered to an account.
#[derive(Debug, PartialEq, Eq)]
pub struct Device {
    pub device_id: String,
    pub account_id: String,
    pub display_name: String,
    pub platform: Platform,
    pub os_version: String,
    pub arch: Architecture,
    pub capabilities: DeviceCapabilities,
    pub public_key_id: String,
    pub public_key: [u8; 32],
    pub public_key_version: u32,
    pub public_key_revoked_at_epoch_millis: Option<u64>,
    pub status: DeviceLifecycleStatus,
    pub last_seen_epoch_millis: Option<u64>,
    pub created_at_epoch_millis: u64,
    pub updated_at_epoch_millis: u64,
}

/// The model of [`Device`].
pub struct DeviceModel {
    pub device_id: Seq<char>,
    pub account_id: Seq<char>,
    pub display_name: Seq<char>,
    pub platform: Platform,
    pub os_version: Seq<char>,
    pub arch: Architecture,
    pub capabilities: DeviceCapabilities,
    pub public_key_id: Seq<char>,
    pub public_key: [u8; 32],
    pub public_key_version: u32,
    pub public_key_revoked_at_epoch_millis: Option<u64>,
    pub status: DeviceLifecycleStatus,
    pub last_seen_epoch_millis: Option<u64>,
    pub created_at_epoch_millis: u64,
    pub updated_at_epoch_millis: u64,
}

impl View for Device {
    type V = DeviceModel;

    open spec fn view(&self) -> DeviceModel {
        DeviceModel {
            device_id: self.device_id@,
            account_id: self.account_id@,
            display_name: self.display_name@,
            platform: self.platform,
            os_version: self.os_version@,
            arch: self.arch,
            capabilities: self.capabilities,
            public_key_id: self.public_key_id@,
            public_key: self.public_key,
            public_key_version: self.public_key_version,
            public_key_revoked_at_epoch_millis: self.public_key_revoked_at_epoch_millis,
            status: self.status,
            last_seen_epoch_millis: self.last_seen_epoch_millis,
            created_at_epoch_millis: self.created_at_epoch_millis,
            updated_at_epoch_millis: self.updated_at_epoch_millis,
        }
    }
}

impl Record for Device {
    fn duplicate(&self) -> (copy: Self) {
        Device {
            device_id: self.device_id.clone(),
            account_id: self.account_id.clone(),
            display_name: self.display_name.clone(),
            platform: self.platform,
            os_version: self.os_version.clone(),
            arch: self.arch,
            capabilities: self.capabilities,
            public_key_id: self.public_key_id.clone(),
            public_key: self.public_key,
            public_key_version: self.public_key_version,
            public_key_revoked_at_epoch_millis: self.public_key_revoked_at_epoch_millis,
            status: self.status,
            last_seen_epoch_millis: self.last_seen_epoch_millis,
            created_at_epoch_millis: self.created_at_epoch_millis,
            updated_at_epoch_millis: self.updated_at_epoch_millis,
        }
    }

    fn same(&self, other: &Self) -> (same: bool) {
        text_eq(self.device_id.as_str(), other.device_id.as_str())
            && text_eq(self.account_id.as_str(), other.account_id.as_str())
            && text_eq(self.display_name.as_str(), other.display_name.as_str())
            && self.platform == other.platform
            && text_eq(self.os_version.as_str(), other.os_version.as_str())
            && self.arch == other.arch
            && self.capabilities == other.capabilities
            && text_eq(self.public_key_id.as_str(), other.public_key_id.as_str())
            && array_eq(&self.public_key, &other.public_key)
            && self.public_key_version == other.public_key_version
            && self.public_key_revoked_at_epoch_millis == other.public_key_revoked_at_epoch_millis
            && self.status == other.status
            && self.last_seen_epoch_millis == other.last_seen_epoch_millis
            && self.created_at_epoch_millis == other.created_at_epoch_millis
            && self.updated_at_epoch_millis == other.updated_at_epoch_millis
    }
}

/// A public key that a device has or had.
#[derive(Debug, PartialEq, Eq)]
pub struct DevicePublicKeyRecord {
    pub public_key_id: String,
    pub device_id: String,
    pub public_key: [u8; 32],
    pub version: u32,
    pub created_at_epoch_millis: u64,
    pub revoked_at_epoch_millis: Option<u64>,
}

/// The model of [`DevicePublicKeyRecord`].
pub struct DevicePublicKeyRecordModel {
    pub public_key_id: Seq<char>,
    pub device_id: Seq<char>,
    pub public_key: [u8; 32],
    pub version: u32,
    pub created_at_epoch_millis: u64,
    pub revoked_at_epoch_millis: Option<u64>,
}

impl View for DevicePublicKeyRecord {
    type V = DevicePublicKeyRecordModel;

    open spec fn view(&self) -> DevicePublicKeyRecordModel {
        DevicePublicKeyRecordModel {
            public_key_id: self.public_key_id@,
            device_id: self.device_id@,
            public_key: self.public_key,
            version: self.version,
            created_at_epoch_millis: self.created_at_epoch_millis,
            revoked_at_epoch_millis: self.revoked_at_epoch_millis,
        }
    }
}

impl Record for DevicePublicKeyRecord {
    fn duplicate(&self) -> (copy: Self) {
        DevicePublicKeyRecord {
            public_key_id: self.public_key_id.clone(),
            device_id: self.device_id.clone(),
            public_key: self.public_key,
            version: self.version,
            created_at_epoch_millis: self.created_at_epoch_millis,
            revoked_at_epoch_millis: self.revoked_at_epoch_millis,
        }
    }

    fn same(&self, other: &Self) -> (same: bool) {
        text_eq(self.public_key_id.as_str(), other.public_key_id.as_str())
            && text_eq(self.device_id.as_str(), other.device_id.as_str())
            && array_eq(&self.public_key, &other.public_key)
            && self.version == other.version
            && self.created_at_epoch_millis == other.created_at_epoch_millis
            && self.revoked_at_epoch_millis == other.revoked_at_epoch_millis
    }
}

/// A one-time permission to register the device that a login came from.
#[derive(Debug, PartialEq, Eq)]
pub struct DeviceEnrollmentGrant {
    pub grant_id: String,
    pub grant_secret_hash: [u8; 32],
    pub account_id: String,
    pub device_id: String,
    pub device_public_key_fingerprint: [u8; 32],
    pub login_challenge_id: String,
    pub login_challenge_binding_hash: [u8; 32],
    pub trust_proof_type: Option<String>,
    pub trust_level: Option<String>,
    pub establish_trust: bool,
    pub protocol_version: u16,
    pub issued_account_session_id: String,
    pub issued_at_epoch_millis: u64,
    pub expires_at_epoch_millis: u64,
    pub consumed_at_epoch_millis: Option<u64>,
    pub registration_request_binding_hash: Option<[u8; 32]>,
    pub registered_public_key_id: Option<String>,
    pub registered_trusted_device_id: Option<String>,
}

/// The model of [`DeviceEnrollmentGrant`].
pub struct DeviceEnrollmentGrantModel {
    pub grant_id: Seq<char>,
    pub grant_secret_hash: [u8; 32],
    pub account_id: Seq<char>,
    pub device_id: Seq<char>,
    pub device_public_key_fingerprint: [u8; 32],
    pub login_challenge_id: Seq<char>,
    pub login_challenge_binding_hash: [u8; 32],
    pub trust_proof_type: Option<Seq<char>>,
    pub trust_level: Option<Seq<char>>,
    pub establish_trust: bool,
    pub protocol_version: u16,
    pub issued_account_session_id: Seq<char>,
    pub issued_at_epoch_millis: u64,
    pub expires_at_epoch_millis: u64,
    pub consumed_at_epoch_millis: Option<u64>,
    pub registration_request_binding_hash: Option<[u8; 32]>,
    pub registered_public_key_id: Option<Seq<char>>,
    pub registered_trusted_device_id: Option<Seq<char>>,
}

impl View for DeviceEnrollmentGrant {
    type V = DeviceEnrollmentGrantModel;

    open spec fn view(&self) -> DeviceEnrollmentGrantModel {
        DeviceEnrollmentGrantModel {
            grant_id: self.grant_id@,
            grant_secret_hash: self.grant_secret_hash,
            account_id: self.account_id@,
            device_id: self.device_id@,
            device_public_key_fingerprint: self.device_public_key_fingerprint,
            login_challenge_id: self.login_challenge_id@,
            login_challenge_binding_hash: self.login_challenge_binding_hash,
            trust_proof_type: opt_text(self.trust_proof_type),
            trust_level: opt_text(self.trust_level),
            establish_trust: self.establish_trust,
            protocol_version: self.protocol_version,
            issued_account_session_id: self.issued_account_session_id@,
            issued_at_epoch_millis: self.issued_at_epoch_millis,
            expires_at_epoch_millis: self.expires_at_epoch_millis,
            consumed_at_epoch_millis: self.consumed_at_epoch_millis,
            registration_request_binding_hash: self.registration_request_binding_hash,
            registered_public_key_id: opt_text(self.registered_public_key_id),
            registered_trusted_device_id: opt_text(self.registered_trusted_device_id),
        }
    }
}

impl Record for DeviceEnrollmentGrant {
    fn duplicate(&self) -> (copy: Self) {
        DeviceEnrollmentGrant {
            grant_id: self.grant_id.clone(),
            grant_secret_hash: self.grant_secret_hash,
            account_id: self.account_id.clone(),
            device_id: self.device_id.clone(),
            device_public_key_fingerprint: self.device_public_key_fingerprint,
            login_challenge_id: self.login_challenge_id.clone(),
            login_challenge_binding_hash: self.login_challenge_binding_hash,
            trust_proof_type: opt_text_copy(&self.trust_proof_type),
            trust_level: opt_text_copy(&self.trust_level),
            establish_trust: self.establish_trust,
            protocol_version: self.protocol_version,
            issued_account_session_id: self.issued_account_session_id.clone(),
            issued_at_epoch_millis: self.issued_at_epoch_millis,
            expires_at_epoch_millis: self.expires_at_epoch_millis,
            consumed_at_epoch_millis: self.consumed_at_epoch_millis,
            registration_request_binding_hash: self.registration_request_binding_hash,
            registered_public_key_id: opt_text_copy(&self.registered_public_key_id),
            registered_trusted_device_id: opt_text_copy(&self.registered_trusted_device_id),
        }
    }

    fn same(&self, other: &Self) -> (same: bool) {
        text_eq(self.grant_id.as_str(), other.grant_id.as_str())
            && array_eq(&self.grant_secret_hash, &other.grant_secret_hash)
            && text_eq(self.account_id.as_str(), other.account_id.as_str())
            && text_eq(self.device_id.as_str(), other.device_id.as_str())
            && array_eq(&self.device_public_key_fingerprint, &other.device_public_key_fingerprint)
            && text_eq(self.login_challenge_id.as_str(), other.login_challenge_id.as_str())
            && array_eq(&self.login_challenge_binding_hash, &other.login_challenge_binding_hash)
            && opt_text_eq(&self.trust_proof_type, &other.trust_proof_type)
            && opt_text_eq(&self.trust_level, &other.trust_level)
            && self.establish_trust == other.establish_trust
            && self.protocol_version == other.protocol_version
            && text_eq(self.issued_account_session_id.as_str(), other.issued_account_session_id.as_str())
            && self.issued_at_epoch_millis == other.issued_at_epoch_millis
            && self.expires_at_epoch_millis == other.expires_at_epoch_millis
            && self.consumed_at_epoch_millis == other.consumed_at_epoch_millis
            && opt_array_eq(&self.registration_request_binding_hash, &other.registration_request_binding_hash)
            && opt_text_eq(&self.registered_public_key_id, &other.registered_public_key_id)
            && opt_text_eq(&self.registered_trusted_device_id, &other.registered_trusted_device_id)
    }
}

/// A controller device from which an account logs in without a second factor.
#[derive(Debug, PartialEq, Eq)]
pub struct TrustedControllerDevice {
    pub trusted_device_id: String,
    pub account_id: String,
    pub controller_device_id: String,
    pub device_fingerprint_hash: [u8; 32],
    pub trust_level: String,
    pub status: TrustedDeviceStatus,
    pub trust_proof_type: String,
    pub created_at_epoch_millis: u64,
    pub last_used_at_epoch_millis: Option<u64>,
    pub expires_at_epoch_millis: u64,
    pub revoked_at_epoch_millis: Option<u64>,
}

/// The model of [`TrustedControllerDevice`].
pub struct TrustedControllerDeviceModel {
    pub trusted_device_id: Seq<char>,
    pub account_id: Seq<char>,
    pub controller_device_id: Seq<char>,
    pub device_fingerprint_hash: [u8; 32],
    pub trust_level: Seq<char>,
    pub status: TrustedDeviceStatus,
    pub trust_proof_type: Seq<char>,
    pub created_at_epoch_millis: u64,
    pub last_used_at_epoch_millis: Option<u64>,
    pub expires_at_epoch_millis: u64,
    pub revoked_at_epoch_millis: Option<u64>,
}

impl View for TrustedControllerDevice {
    type V = TrustedControllerDeviceModel;

    open spec fn view(&self) -> TrustedControllerDeviceModel {
        TrustedControllerDeviceModel {
            trusted_device_id: self.trusted_device_id@,
            account_id: self.account_id@,
            controller_device_id: self.controller_device_id@,
            device_fingerprint_hash: self.device_fingerprint_hash,
            trust_level: self.trust_level@,
            status: self.status,
            trust_proof_type: self.trust_proof_type@,
            created_at_epoch_millis: self.created_at_epoch_millis,
            last_used_at_epoch_millis: self.last_used_at_epoch_millis,
            expires_at_epoch_millis: self.expires_at_epoch_millis,
            revoked_at_epoch_millis: self.revoked_at_epoch_millis,
        }
    }
}

impl Record for TrustedControllerDevice {
    fn duplicate(&self) -> (copy: Self) {
        TrustedControllerDevice {
            trusted_device_id: self.trusted_device_id.clone(),
            account_id: self.account_id.clone(),
            controller_device_id: self.controller_device_id.clone(),
            device_fingerprint_hash: self.device_fingerprint_hash,
            trust_level: self.trust_level.clone(),
            status: self.status,
            trust_proof_type: self.trust_proof_type.clone(),
            created_at_epoch_millis: self.created_at_epoch_millis,
            last_used_at_epoch_millis: self.last_used_at_epoch_millis,
            expires_at_epoch_millis: self.expires_at_epoch_millis,
            revoked_at_epoch_millis: self.revoked_at_epoch_millis,
        }
    }

    fn same(&self, other: &Self) -> (same: bool) {
        text_eq(self.trusted_device_id.as_str(), other.trusted_device_id.as_str())
            && text_eq(self.account_id.as_str(), other.account_id.as_str())
            && text_eq(self.controller_device_id.as_str(), other.controller_device_id.as_str())
            && array_eq(&self.device_fingerprint_hash, &other.device_fingerprint_hash)
            && text_eq(self.trust_level.as_str(), other.trust_level.as_str())
            && self.status == other.status
            && text_eq(self.trust_proof_type.as_str(), other.trust_proof_type.as_str())
            && self.created_at_epoch_millis == other.created_at_epoch_millis
            && self.last_used_at_epoch_millis == other.last_used_at_epoch_millis
            && self.expires_at_epoch_millis == other.expires_at_epoch_millis
            && self.revoked_at_epoch_millis == other.revoked_at_epoch_millis
    }
}

} // verus!
