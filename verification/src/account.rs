use crate::bytes::{array_eq, bytes_copy, bytes_eq};
use crate::table::Record;
use crate::text::{opt_text, opt_text_copy, opt_text_eq, text_eq};
use vstd::prelude::*;

verus! {

/// Whether an account may be used.
#[derive(Debug, Clone, Copy, PartialEq, Eq, Structural)]
pub enum AccountStatus {
    Active,
    Disabled,
}

/// A user account.
#[derive(Debug, PartialEq, Eq)]
pub struct Account {
    pub account_id: String,
    pub email: String,
    pub display_name: String,
    pub password_hash: String,
    pub status: AccountStatus,
    pub created_at_epoch_millis: u64,
    pub updated_at_epoch_millis: u64,
}

/// The model of [`Account`].
pub struct AccountModel {
    pub account_id: Seq<char>,
    pub email: Seq<char>,
    pub display_name: Seq<char>,
    pub password_hash: Seq<char>,
    pub status: AccountStatus,
    pub created_at_epoch_millis: u64,
    pub updated_at_epoch_millis: u64,
}

impl View for Account {
    type V = AccountModel;

    open spec fn view(&self) -> AccountModel {
        AccountModel {
            account_id: self.account_id@,
            email: self.email@,
            display_name: self.display_name@,
            password_hash: self.password_hash@,
            status: self.status,
            created_at_epoch_millis: self.created_at_epoch_millis,
            updated_at_epoch_millis: self.updated_at_epoch_millis,
        }
    }
}

impl Record for Account {
    fn duplicate(&self) -> (copy: Self) {
        Account {
            account_id: self.account_id.clone(),
            email: self.email.clone(),
            display_name: self.display_name.clone(),
            password_hash: self.password_hash.clone(),
            status: self.status,
            created_at_epoch_millis: self.created_at_epoch_millis,
            updated_at_epoch_millis: self.updated_at_epoch_millis,
        }
    }

    fn same(&self, other: &Self) -> (same: bool) {
        text_eq(self.account_id.as_str(), other.account_id.as_str())
            && text_eq(self.email.as_str(), other.email.as_str())
            && text_eq(self.display_name.as_str(), other.display_name.as_str())
            && text_eq(self.password_hash.as_str(), other.password_hash.as_str())
            && self.status == other.status
            && self.created_at_epoch_millis == other.created_at_epoch_millis
            && self.updated_at_epoch_millis == other.updated_at_epoch_millis
    }
}

/// A login of an account, which its refresh token renews.
#[derive(Debug, PartialEq, Eq)]
pub struct AccountSession {
    pub account_session_id: String,
    pub account_id: String,
    pub refresh_token_hash: [u8; 32],
    pub mfa_verified: bool,
    pub expires_at_epoch_millis: u64,
    pub revoked_at_epoch_millis: Option<u64>,
    pub revoked_reason: Option<String>,
}

/// The model of [`AccountSession`].
pub struct AccountSessionModel {
    pub account_session_id: Seq<char>,
    pub account_id: Seq<char>,
    pub refresh_token_hash: [u8; 32],
    pub mfa_verified: bool,
    pub expires_at_epoch_millis: u64,
    pub revoked_at_epoch_millis: Option<u64>,
    pub revoked_reason: Option<Seq<char>>,
}

impl View for AccountSession {
    type V = AccountSessionModel;

    open spec fn view(&self) -> AccountSessionModel {
        AccountSessionModel {
            account_session_id: self.account_session_id@,
            account_id: self.account_id@,
            refresh_token_hash: self.refresh_token_hash,
            mfa_verified: self.mfa_verified,
            expires_at_epoch_millis: self.expires_at_epoch_millis,
            revoked_at_epoch_millis: self.revoked_at_epoch_millis,
            revoked_reason: opt_text(self.revoked_reason),
        }
    }
}

impl Record for AccountSession {
    fn duplicate(&self) -> (copy: Self) {
        AccountSession {
            account_session_id: self.account_session_id.clone(),
            account_id: self.account_id.clone(),
            refresh_token_hash: self.refresh_token_hash,
            mfa_verified: self.mfa_verified,
            expires_at_epoch_millis: self.expires_at_epoch_millis,
            revoked_at_epoch_millis: self.revoked_at_epoch_millis,
            revoked_reason: opt_text_copy(&self.revoked_reason),
        }
    }

    fn same(&self, other: &Self) -> (same: bool) {
        text_eq(self.account_session_id.as_str(), other.account_session_id.as_str())
            && text_eq(self.account_id.as_str(), other.account_id.as_str())
            && array_eq(&self.refresh_token_hash, &other.refresh_token_hash)
            && self.mfa_verified == other.mfa_verified
            && self.expires_at_epoch_millis == other.expires_at_epoch_millis
            && self.revoked_at_epoch_millis == other.revoked_at_epoch_millis
            && opt_text_eq(&self.revoked_reason, &other.revoked_reason)
    }
}

/// A TOTP factor of an account.
#[derive(Debug, PartialEq, Eq)]
pub struct MfaFactor {
    pub factor_id: String,
    pub account_id: String,
    pub secret_base32: String,
    pub active: bool,
    pub last_used_counter: Option<u64>,
    pub created_at_epoch_millis: u64,
}

/// The model of [`MfaFactor`].
pub struct MfaFactorModel {
    pub factor_id: Seq<char>,
    pub account_id: Seq<char>,
    pub secret_base32: Seq<char>,
    pub active: bool,
    pub last_used_counter: Option<u64>,
    pub created_at_epoch_millis: u64,
}

impl View for MfaFactor {
    type V = MfaFactorModel;

    open spec fn view(&self) -> MfaFactorModel {
        MfaFactorModel {
            factor_id: self.factor_id@,
            account_id: self.account_id@,
            secret_base32: self.secret_base32@,
            active: self.active,
            last_used_counter: self.last_used_counter,
            created_at_epoch_millis: self.created_at_epoch_millis,
        }
    }
}

impl Record for MfaFactor {
    fn duplicate(&self) -> (copy: Self) {
        MfaFactor {
            factor_id: self.factor_id.clone(),
            account_id: self.account_id.clone(),
            secret_base32: self.secret_base32.clone(),
            active: self.active,
            last_used_counter: self.last_used_counter,
            created_at_epoch_millis: self.created_at_epoch_millis,
        }
    }

    fn same(&self, other: &Self) -> (same: bool) {
        text_eq(self.factor_id.as_str(), other.factor_id.as_str())
            && text_eq(self.account_id.as_str(), other.account_id.as_str())
            && text_eq(self.secret_base32.as_str(), other.secret_base32.as_str())
            && self.active == other.active
            && self.last_used_counter == other.last_used_counter
            && self.created_at_epoch_millis == other.created_at_epoch_millis
    }
}

/// A recovery code of an account, known by its hash.
#[derive(Debug, PartialEq, Eq)]
pub struct RecoveryCode {
    pub recovery_code_id: String,
    pub account_id: String,
    pub code_hash: [u8; 32],
    pub used_at_epoch_millis: Option<u64>,
    pub expires_at_epoch_millis: Option<u64>,
}

/// The model of [`RecoveryCode`].
pub struct RecoveryCodeModel {
    pub recovery_code_id: Seq<char>,
    pub account_id: Seq<char>,
    pub code_hash: [u8; 32],
    pub used_at_epoch_millis: Option<u64>,
    pub expires_at_epoch_millis: Option<u64>,
}

impl View for RecoveryCode {
    type V = RecoveryCodeModel;

    open spec fn view(&self) -> RecoveryCodeModel {
        RecoveryCodeModel {
            recovery_code_id: self.recovery_code_id@,
            account_id: self.account_id@,
            code_hash: self.code_hash,
            used_at_epoch_millis: self.used_at_epoch_millis,
            expires_at_epoch_millis: self.expires_at_epoch_millis,
        }
    }
}

impl Record for RecoveryCode {
    fn duplicate(&self) -> (copy: Self) {
        RecoveryCode {
            recovery_code_id: self.recovery_code_id.clone(),
            account_id: self.account_id.clone(),
            code_hash: self.code_hash,
            used_at_epoch_millis: self.used_at_epoch_millis,
            expires_at_epoch_millis: self.expires_at_epoch_millis,
        }
    }

    fn same(&self, other: &Self) -> (same: bool) {
        text_eq(self.recovery_code_id.as_str(), other.recovery_code_id.as_str())
            && text_eq(self.account_id.as_str(), other.account_id.as_str())
            && array_eq(&self.code_hash, &other.code_hash)
            && self.used_at_epoch_millis == other.used_at_epoch_millis
            && self.expires_at_epoch_millis == other.expires_at_epoch_millis
    }
}

/// Recovery codes sealed for the client that finished an enrollment.
#[derive(Debug, PartialEq, Eq)]
pub struct RecoveryCodeDelivery {
    pub delivery_id: String,
    pub account_id: String,
    pub account_session_id: String,
    pub factor_id: String,
    pub idempotency_key_hash: [u8; 32],
    pub finish_request_binding_hash: [u8; 32],
    pub client_ephemeral_public_key: [u8; 32],
    pub server_ephemeral_public_key: [u8; 32],
    pub nonce: [u8; 12],
    pub ciphertext: Vec<u8>,
    pub recovery_code_count: u16,
    pub created_at_epoch_millis: u64,
    pub expires_at_epoch_millis: u64,
    pub acknowledged_at_epoch_millis: Option<u64>,
}

/// The model of [`RecoveryCodeDelivery`].
pub struct RecoveryCodeDeliveryModel {
    pub delivery_id: Seq<char>,
    pub account_id: Seq<char>,
    pub account_session_id: Seq<char>,
    pub factor_id: Seq<char>,
    pub idempotency_key_hash: [u8; 32],
    pub finish_request_binding_hash: [u8; 32],
    pub client_ephemeral_public_key: [u8; 32],
    pub server_ephemeral_public_key: [u8; 32],
    pub nonce: [u8; 12],
    pub ciphertext: Seq<u8>,
    pub recovery_code_count: u16,
    pub created_at_epoch_millis: u64,
    pub expires_at_epoch_millis: u64,
    pub acknowledged_at_epoch_millis: Option<u64>,
}

impl View for RecoveryCodeDelivery {
    type V = RecoveryCodeDeliveryModel;

    open spec fn view(&self) -> RecoveryCodeDeliveryModel {
        RecoveryCodeDeliveryModel {
            delivery_id: self.delivery_id@,
            account_id: self.account_id@,
            account_session_id: self.account_session_id@,
            factor_id: self.factor_id@,
            idempotency_key_hash: self.idempotency_key_hash,
            finish_request_binding_hash: self.finish_request_binding_hash,
            client_ephemeral_public_key: self.client_ephemeral_public_key,
            server_ephemeral_public_key: self.server_ephemeral_public_key,
            nonce: self.nonce,
            ciphertext: self.ciphertext@,
            recovery_code_count: self.recovery_code_count,
            created_at_epoch_millis: self.created_at_epoch_millis,
            expires_at_epoch_millis: self.expires_at_epoch_millis,
            acknowledged_at_epoch_millis: self.acknowledged_at_epoch_millis,
        }
    }
}

impl Record for RecoveryCodeDelivery {
    fn duplicate(&self) -> (copy: Self) {
        RecoveryCodeDelivery {
            delivery_id: self.delivery_id.clone(),
            account_id: self.account_id.clone(),
            account_session_id: self.account_session_id.clone(),
            factor_id: self.factor_id.clone(),
            idempotency_key_hash: self.idempotency_key_hash,
            finish_request_binding_hash: self.finish_request_binding_hash,
            client_ephemeral_public_key: self.client_ephemeral_public_key,
            server_ephemeral_public_key: self.server_ephemeral_public_key,
            nonce: self.nonce,
            ciphertext: bytes_copy(&self.ciphertext),
            recovery_code_count: self.recovery_code_count,
            created_at_epoch_millis: self.created_at_epoch_millis,
            expires_at_epoch_millis: self.expires_at_epoch_millis,
            acknowledged_at_epoch_millis: self.acknowledged_at_epoch_millis,
        }
    }

    fn same(&self, other: &Self) -> (same: bool) {
        text_eq(self.delivery_id.as_str(), other.delivery_id.as_str())
            && text_eq(self.account_id.as_str(), other.account_id.as_str())
            && text_eq(self.account_session_id.as_str(), other.account_session_id.as_str())
            && text_eq(self.factor_id.as_str(), other.factor_id.as_str())
            && array_eq(&self.idempotency_key_hash, &other.idempotency_key_hash)
            && array_eq(&self.finish_request_binding_hash, &other.finish_request_binding_hash)
            && array_eq(&self.client_ephemeral_public_key, &other.client_ephemeral_public_key)
            && array_eq(&self.server_ephemeral_public_key, &other.server_ephemeral_public_key)
            && array_eq(&self.nonce, &other.nonce)
            && bytes_eq(self.ciphertext.as_slice(), other.ciphertext.as_slice())
            && self.recovery_code_count == other.recovery_code_count
            && self.created_at_epoch_millis == other.created_at_epoch_millis
            && self.expires_at_epoch_millis == other.expires_at_epoch_millis
            && self.acknowledged_at_epoch_millis == other.acknowledged_at_epoch_millis
    }
}

} // verus!
