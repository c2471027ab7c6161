use crate::bytes::array_eq;
use crate::table::Record;
use crate::text::{opt_text, opt_text_copy, opt_text_eq, text_eq, texts, texts_copy, texts_eq};
use vstd::prelude::*;

verus! {

/// Where a risk challenge stands.
#[derive(Debug, Clone, Copy, PartialEq, Eq, Structural)]
pub enum RiskChallengeStatus {
    Issued,
    Verified,
    Failed,
    Consumed,
    Expired,
    Cancelled,
}

/// Whether the device of a login is registered yet.
#[derive(Debug, Clone, Copy, PartialEq, Eq, Structural)]
pub enum LoginDeviceState {
    Registered,
    PendingEnrollment,
}

/// A challenge that an account answers before a sensitive operation.
#[derive(Debug, PartialEq, Eq)]
pub struct RiskChallenge {
    pub risk_challenge_id: String,
    pub account_id: String,
    pub device_id: Option<String>,
    pub purpose: String,
    pub operation_binding_hash: [u8; 32],
    pub risk_level: String,
    pub required_methods: Vec<String>,
    pub status: RiskChallengeStatus,
    pub attempts_remaining: u8,
    pub ip_address: Option<String>,
    pub user_agent: Option<String>,
    pub expires_at_epoch_millis: u64,
    pub created_at_epoch_millis: u64,
    pub verified_at_epoch_millis: Option<u64>,
    pub consumed_at_epoch_millis: Option<u64>,
}

/// The model of [`RiskChallenge`].
pub struct RiskChallengeModel {
    pub risk_challenge_id: Seq<char>,
    pub account_id: Seq<char>,
    pub device_id: Option<Seq<char>>,
    pub purpose: Seq<char>,
    pub operation_binding_hash: [u8; 32],
    pub risk_level: Seq<char>,
    pub required_methods: Seq<Seq<char>>,
    pub status: RiskChallengeStatus,
    pub attempts_remaining: u8,
    pub ip_address: Option<Seq<char>>,
    pub user_agent: Option<Seq<char>>,
    pub expires_at_epoch_millis: u64,
    pub created_at_epoch_millis: u64,
    pub verified_at_epoch_millis: Option<u64>,
    pub consumed_at_epoch_millis: Option<u64>,
}

impl View for RiskChallenge {
    type V = RiskChallengeModel;

    open spec fn view(&self) -> RiskChallengeModel {
        RiskChallengeModel {
            risk_challenge_id: self.risk_challenge_id@,
            account_id: self.account_id@,
            device_id: opt_text(self.device_id),
            purpose: self.purpose@,
            operation_binding_hash: self.operation_binding_hash,
            risk_level: self.risk_level@,
            required_methods: texts(self.required_methods@),
            status: self.status,
            attempts_remaining: self.attempts_remaining,
            ip_address: opt_text(self.ip_address),
            user_agent: opt_text(self.user_agent),
            expires_at_epoch_millis: self.expires_at_epoch_millis,
            created_at_epoch_millis: self.created_at_epoch_millis,
            verified_at_epoch_millis: self.verified_at_epoch_millis,
            consumed_at_epoch_millis: self.consumed_at_epoch_millis,
        }
    }
}

impl Record for RiskChallenge {
    fn duplicate(&self) -> (copy: Self) {
        RiskChallenge {
            risk_challenge_id: self.risk_challenge_id.clone(),
            account_id: self.account_id.clone(),
            device_id: opt_text_copy(&self.device_id),
            purpose: self.purpose.clone(),
            operation_binding_hash: self.operation_binding_hash,
            risk_level: self.risk_level.clone(),
            required_methods: texts_copy(&self.required_methods),
            status: self.status,
            attempts_remaining: self.attempts_remaining,
            ip_address: opt_text_copy(&self.ip_address),
            user_agent: opt_text_copy(&self.user_agent),
            expires_at_epoch_millis: self.expires_at_epoch_millis,
            created_at_epoch_millis: self.created_at_epoch_millis,
            verified_at_epoch_millis: self.verified_at_epoch_millis,
            consumed_at_epoch_millis: self.consumed_at_epoch_millis,
        }
    }

    fn same(&self, other: &Self) -> (same: bool) {
        text_eq(self.risk_challenge_id.as_str(), other.risk_challenge_id.as_str())
            && text_eq(self.account_id.as_str(), other.account_id.as_str())
            && opt_text_eq(&self.device_id, &other.device_id)
            && text_eq(self.purpose.as_str(), other.purpose.as_str())
            && array_eq(&self.operation_binding_hash, &other.operation_binding_hash)
            && text_eq(self.risk_level.as_str(), other.risk_level.as_str())
            && texts_eq(&self.required_methods, &other.required_methods)
            && self.status == other.status
            && self.attempts_remaining == other.attempts_remaining
            && opt_text_eq(&self.ip_address, &other.ip_address)
            && opt_text_eq(&self.user_agent, &other.user_agent)
            && self.expires_at_epoch_millis == other.expires_at_epoch_millis
            && self.created_at_epoch_millis == other.created_at_epoch_millis
            && self.verified_at_epoch_millis == other.verified_at_epoch_millis
            && self.consumed_at_epoch_millis == other.consumed_at_epoch_millis
    }
}

/// What a login challenge was issued for.
#[derive(Debug, PartialEq, Eq)]
pub struct LoginChallengeContext {
    pub device_state: LoginDeviceState,
    pub device_id: String,
    pub account_updated_at_epoch_millis: u64,
    pub device_public_key: [u8; 32],
    pub device_public_key_fingerprint: [u8; 32],
    pub public_key_id: Option<String>,
    pub public_key_version: u32,
    pub client_nonce: [u8; 32],
    pub server_nonce: [u8; 32],
    pub login_request_binding_hash: [u8; 32],
    pub login_challenge_binding_hash: [u8; 32],
    pub ip_address_hash: [u8; 32],
    pub user_agent_hash: [u8; 32],
    pub required_factors: Vec<String>,
    pub trusted_device_id: Option<String>,
    pub protocol_version: u16,
    pub issued_at_epoch_millis: u64,
    pub attempts_limit: u8,
}

/// The model of [`LoginChallengeContext`].
pub struct LoginChallengeContextModel {
    pub device_state: LoginDeviceState,
    pub device_id: Seq<char>,
    pub account_updated_at_epoch_millis: u64,
    pub device_public_key: [u8; 32],
    pub device_public_key_fingerprint: [u8; 32],
    pub public_key_id: Option<Seq<char>>,
    pub public_key_version: u32,
    pub client_nonce: [u8; 32],
    pub server_nonce: [u8; 32],
    pub login_request_binding_hash: [u8; 32],
    pub login_challenge_binding_hash: [u8; 32],
    pub ip_address_hash: [u8; 32],
    pub user_agent_hash: [u8; 32],
    pub required_factors: Seq<Seq<char>>,
    pub trusted_device_id: Option<Seq<char>>,
    pub protocol_version: u16,
    pub issued_at_epoch_millis: u64,
    pub attempts_limit: u8,
}

impl View for LoginChallengeContext {
    type V = LoginChallengeContextModel;

    open spec fn view(&self) -> LoginChallengeContextModel {
        LoginChallengeContextModel {
            device_state: self.device_state,
            device_id: self.device_id@,
            account_updated_at_epoch_millis: self.account_updated_at_epoch_millis,
            device_public_key: self.device_public_key,
            device_public_key_fingerprint: self.device_public_key_fingerprint,
            public_key_id: opt_text(self.public_key_id),
            public_key_version: self.public_key_version,
            client_nonce: self.client_nonce,
            server_nonce: self.server_nonce,
            login_request_binding_hash: self.login_request_binding_hash,
            login_challenge_binding_hash: self.login_challenge_binding_hash,
            ip_address_hash: self.ip_address_hash,
            user_agent_hash: self.user_agent_hash,
            required_factors: texts(self.required_factors@),
            trusted_device_id: opt_text(self.trusted_device_id),
            protocol_version: self.protocol_version,
            issued_at_epoch_millis: self.issued_at_epoch_millis,
            attempts_limit: self.attempts_limit,
        }
    }
}

impl Record for LoginChallengeContext {
    fn duplicate(&self) -> (copy: Self) {
        LoginChallengeContext {
            device_state: self.device_state,
            device_id: self.device_id.clone(),
            account_updated_at_epoch_millis: self.account_updated_at_epoch_millis,
            device_public_key: self.device_public_key,
            device_public_key_fingerprint: self.device_public_key_fingerprint,
            public_key_id: opt_text_copy(&self.public_key_id),
            public_key_version: self.public_key_version,
            client_nonce: self.client_nonce,
            server_nonce: self.server_nonce,
            login_request_binding_hash: self.login_request_binding_hash,
            login_challenge_binding_hash: self.login_challenge_binding_hash,
            ip_address_hash: self.ip_address_hash,
            user_agent_hash: self.user_agent_hash,
            required_factors: texts_copy(&self.required_factors),
            trusted_device_id: opt_text_copy(&self.trusted_device_id),
            protocol_version: self.protocol_version,
            issued_at_epoch_millis: self.issued_at_epoch_millis,
            attempts_limit: self.attempts_limit,
        }
    }

    fn same(&self, other: &Self) -> (same: bool) {
        self.device_state == other.device_state
            && text_eq(self.device_id.as_str(), other.device_id.as_str())
            && self.account_updated_at_epoch_millis == other.account_updated_at_epoch_millis
            && array_eq(&self.device_public_key, &other.device_public_key)
            && array_eq(&self.device_public_key_fingerprint, &other.device_public_key_fingerprint)
            && opt_text_eq(&self.public_key_id, &other.public_key_id)
            && self.public_key_version == other.public_key_version
            && array_eq(&self.client_nonce, &other.client_nonce)
            && array_eq(&self.server_nonce, &other.server_nonce)
            && array_eq(&self.login_request_binding_hash, &other.login_request_binding_hash)
            && array_eq(&self.login_challenge_binding_hash, &other.login_challenge_binding_hash)
            && array_eq(&self.ip_address_hash, &other.ip_address_hash)
            && array_eq(&self.user_agent_hash, &other.user_agent_hash)
            && texts_eq(&self.required_factors, &other.required_factors)
            && opt_text_eq(&self.trusted_device_id, &other.trusted_device_id)
            && self.protocol_version == other.protocol_version
            && self.issued_at_epoch_millis == other.issued_at_epoch_millis
            && self.attempts_limit == other.attempts_limit
    }
}

/// A login challenge together with its context.
#[derive(Debug, PartialEq, Eq)]
pub struct LoginChallengeAuthority {
    pub challenge: RiskChallenge,
    pub context: LoginChallengeContext,
}

/// The model of [`LoginChallengeAuthority`].
pub struct LoginChallengeAuthorityModel {
    pub challenge: RiskChallengeModel,
    pub context: LoginChallengeContextModel,
}

impl View for LoginChallengeAuthority {
    type V = LoginChallengeAuthorityModel;

    open spec fn view(&self) -> LoginChallengeAuthorityModel {
        LoginChallengeAuthorityModel {
            challenge: self.challenge@,
            context: self.context@,
        }
    }
}

impl Record for LoginChallengeAuthority {
    fn duplicate(&self) -> (copy: Self) {
        LoginChallengeAuthority {
            challenge: self.challenge.duplicate(),
            context: self.context.duplicate(),
        }
    }

    fn same(&self, other: &Self) -> (same: bool) {
        self.challenge.same(&other.challenge)
            && self.context.same(&other.context)
    }
}

} // verus!
