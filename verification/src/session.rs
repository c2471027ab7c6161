use crate::table::{opt_duplicate, opt_model, opt_same, Record};
use crate::text::{opt_text, opt_text_copy, opt_text_eq, text_eq};
use vstd::prelude::*;

verus! {

/// How a session is authorised on the controlled device.
#[derive(Debug, Clone, Copy, PartialEq, Eq, Structural)]
pub enum AuthMethod {
    AccountPrompt,
    TemporaryCode,
    Unattended,
}

/// Where a session stands.
#[derive(Debug, Clone, Copy, PartialEq, Eq, Structural)]
pub enum SessionStatus {
    PendingCodeVerification,
    PendingUnattendedVerification,
    CodeVerified,
    UnattendedVerified,
    WaitingApproval,
    Accepted,
    Connected,
    Degraded,
    Reconnecting,
    Cancelled,
    Closed,
    Rejected,
    Failed,
}

/// What the parties of a session are permitted: the permission document as it is stored, and
/// the one permission of it that is read here.
#[derive(Debug, PartialEq, Eq)]
pub struct SessionPermissions {
    pub document: String,
    pub allow_relay: bool,
}

/// The model of [`SessionPermissions`].
pub struct SessionPermissionsModel {
    pub document: Seq<char>,
    pub allow_relay: bool,
}

impl View for SessionPermissions {
    type V = SessionPermissionsModel;

    open spec fn view(&self) -> SessionPermissionsModel {
        SessionPermissionsModel {
            document: self.document@,
            allow_relay: self.allow_relay,
        }
    }
}

impl Record for SessionPermissions {
    fn duplicate(&self) -> (copy: Self) {
        SessionPermissions {
            document: self.document.clone(),
            allow_relay: self.allow_relay,
        }
    }

    fn same(&self, other: &Self) -> (same: bool) {
        text_eq(self.document.as_str(), other.document.as_str())
            && self.allow_relay == other.allow_relay
    }
}

/// The policy decision that a session rests on.
#[derive(Debug, PartialEq, Eq)]
pub struct PolicyEvaluation {
    pub policy_evaluation_id: String,
    pub session_id: String,
    pub account_id: String,
    pub controller_device_id: String,
    pub controlled_device_id: String,
    pub access_decision: String,
    pub anti_abuse_decision: String,
    pub session_access_decision: String,
    pub effective_permissions: SessionPermissions,
    pub permissions_digest: String,
    pub evaluated_at_epoch_millis: u64,
}

/// The model of [`PolicyEvaluation`].
pub struct PolicyEvaluationModel {
    pub policy_evaluation_id: Seq<char>,
    pub session_id: Seq<char>,
    pub account_id: Seq<char>,
    pub controller_device_id: Seq<char>,
    pub controlled_device_id: Seq<char>,
    pub access_decision: Seq<char>,
    pub anti_abuse_decision: Seq<char>,
    pub session_access_decision: Seq<char>,
    pub effective_permissions: SessionPermissionsModel,
    pub permissions_digest: Seq<char>,
    pub evaluated_at_epoch_millis: u64,
}

impl View for PolicyEvaluation {
    type V = PolicyEvaluationModel;

    open spec fn view(&self) -> PolicyEvaluationModel {
        PolicyEvaluationModel {
            policy_evaluation_id: self.policy_evaluation_id@,
            session_id: self.session_id@,
            account_id: self.account_id@,
            controller_device_id: self.controller_device_id@,
            controlled_device_id: self.controlled_device_id@,
            access_decision: self.access_decision@,
            anti_abuse_decision: self.anti_abuse_decision@,
            session_access_decision: self.session_access_decision@,
            effective_permissions: self.effective_permissions@,
            permissions_digest: self.permissions_digest@,
            evaluated_at_epoch_millis: self.evaluated_at_epoch_millis,
        }
    }
}

impl Record for PolicyEvaluation {
    fn duplicate(&self) -> (copy: Self) {
        PolicyEvaluation {
            policy_evaluation_id: self.policy_evaluation_id.clone(),
            session_id: self.session_id.clone(),
            account_id: self.account_id.clone(),
            controller_device_id: self.controller_device_id.clone(),
            controlled_device_id: self.controlled_device_id.clone(),
            access_decision: self.access_decision.clone(),
            anti_abuse_decision: self.anti_abuse_decision.clone(),
            session_access_decision: self.session_access_decision.clone(),
            effective_permissions: self.effective_permissions.duplicate(),
            permissions_digest: self.permissions_digest.clone(),
            evaluated_at_epoch_millis: self.evaluated_at_epoch_millis,
        }
    }

    fn same(&self, other: &Self) -> (same: bool) {
        text_eq(self.policy_evaluation_id.as_str(), other.policy_evaluation_id.as_str())
            && text_eq(self.session_id.as_str(), other.session_id.as_str())
            && text_eq(self.account_id.as_str(), other.account_id.as_str())
            && text_eq(self.controller_device_id.as_str(), other.controller_device_id.as_str())
            && text_eq(self.controlled_device_id.as_str(), other.controlled_device_id.as_str())
            && text_eq(self.access_decision.as_str(), other.access_decision.as_str())
            && text_eq(self.anti_abuse_decision.as_str(), other.anti_abuse_decision.as_str())
            && text_eq(self.session_access_decision.as_str(), other.session_access_decision.as_str())
            && self.effective_permissions.same(&other.effective_permissions)
            && text_eq(self.permissions_digest.as_str(), other.permissions_digest.as_str())
            && self.evaluated_at_epoch_millis == other.evaluated_at_epoch_millis
    }
}

/// A remote control session between two devices.
#[derive(Debug, PartialEq, Eq)]
pub struct Session {
    pub session_id: String,
    pub controller_account_id: String,
    pub controller_device_id: String,
    pub controlled_device_id: String,
    pub auth_method: AuthMethod,
    pub status: SessionStatus,
    pub permissions: SessionPermissions,
    pub permissions_digest: String,
    pub policy_evaluation_id: String,
    pub relay_token_epoch: u64,
    pub session_expires_at_epoch_millis: u64,
    pub created_at_epoch_millis: u64,
    pub updated_at_epoch_millis: u64,
    pub ended_at_epoch_millis: Option<u64>,
}

/// The model of [`Session`].
pub struct SessionModel {
    pub session_id: Seq<char>,
    pub controller_account_id: Seq<char>,
    pub controller_device_id: Seq<char>,
    pub controlled_device_id: Seq<char>,
    pub auth_method: AuthMethod,
    pub status: SessionStatus,
    pub permissions: SessionPermissionsModel,
    pub permissions_digest: Seq<char>,
    pub policy_evaluation_id: Seq<char>,
    pub relay_token_epoch: u64,
    pub session_expires_at_epoch_millis: u64,
    pub created_at_epoch_millis: u64,
    pub updated_at_epoch_millis: u64,
    pub ended_at_epoch_millis: Option<u64>,
}

impl View for Session {
    type V = SessionModel;

    open spec fn view(&self) -> SessionModel {
        SessionModel {
            session_id: self.session_id@,
            controller_account_id: self.controller_account_id@,
            controller_device_id: self.controller_device_id@,
            controlled_device_id: self.controlled_device_id@,
            auth_method: self.auth_method,
            status: self.status,
            permissions: self.permissions@,
            permissions_digest: self.permissions_digest@,
            policy_evaluation_id: self.policy_evaluation_id@,
            relay_token_epoch: self.relay_token_epoch,
            session_expires_at_epoch_millis: self.session_expires_at_epoch_millis,
            created_at_epoch_millis: self.created_at_epoch_millis,
            updated_at_epoch_millis: self.updated_at_epoch_millis,
            ended_at_epoch_millis: self.ended_at_epoch_millis,
        }
    }
}

impl Record for Session {
    fn duplicate(&self) -> (copy: Self) {
        Session {
            session_id: self.session_id.clone(),
            controller_account_id: self.controller_account_id.clone(),
            controller_device_id: self.controller_device_id.clone(),
            controlled_device_id: self.controlled_device_id.clone(),
            auth_method: self.auth_method,
            status: self.status,
            permissions: self.permissions.duplicate(),
            permissions_digest: self.permissions_digest.clone(),
            policy_evaluation_id: self.policy_evaluation_id.clone(),
            relay_token_epoch: self.relay_token_epoch,
            session_expires_at_epoch_millis: self.session_expires_at_epoch_millis,
            created_at_epoch_millis: self.created_at_epoch_millis,
            updated_at_epoch_millis: self.updated_at_epoch_millis,
            ended_at_epoch_millis: self.ended_at_epoch_millis,
        }
    }

    fn same(&self, other: &Self) -> (same: bool) {
        text_eq(self.session_id.as_str(), other.session_id.as_str())
            && text_eq(self.controller_account_id.as_str(), other.controller_account_id.as_str())
            && text_eq(self.controller_device_id.as_str(), other.controller_device_id.as_str())
            && text_eq(self.controlled_device_id.as_str(), other.controlled_device_id.as_str())
            && self.auth_method == other.auth_method
            && self.status == other.status
            && self.permissions.same(&other.permissions)
            && text_eq(self.permissions_digest.as_str(), other.permissions_digest.as_str())
            && text_eq(self.policy_evaluation_id.as_str(), other.policy_evaluation_id.as_str())
            && self.relay_token_epoch == other.relay_token_epoch
            && self.session_expires_at_epoch_millis == other.session_expires_at_epoch_millis
            && self.created_at_epoch_millis == other.created_at_epoch_millis
            && self.updated_at_epoch_millis == other.updated_at_epoch_millis
            && self.ended_at_epoch_millis == other.ended_at_epoch_millis
    }
}

/// A change of a session.
#[derive(Debug, PartialEq, Eq)]
pub struct SessionEvent {
    pub event_id: String,
    pub session_id: String,
    pub event_type: String,
    pub from_status: Option<SessionStatus>,
    pub to_status: SessionStatus,
    pub actor_type: String,
    pub actor_account_id: Option<String>,
    pub actor_device_id: Option<String>,
    pub actor_role: Option<String>,
    pub reason: Option<String>,
    pub idempotency_key_hash: String,
    pub request_id: String,
    pub created_at_epoch_millis: u64,
    pub result_session: Option<Session>,
}

/// The model of [`SessionEvent`].
pub struct SessionEventModel {
    pub event_id: Seq<char>,
    pub session_id: Seq<char>,
    pub event_type: Seq<char>,
    pub from_status: Option<SessionStatus>,
    pub to_status: SessionStatus,
    pub actor_type: Seq<char>,
    pub actor_account_id: Option<Seq<char>>,
    pub actor_device_id: Option<Seq<char>>,
    pub actor_role: Option<Seq<char>>,
    pub reason: Option<Seq<char>>,
    pub idempotency_key_hash: Seq<char>,
    pub request_id: Seq<char>,
    pub created_at_epoch_millis: u64,
    pub result_session: Option<SessionModel>,
}

impl View for SessionEvent {
    type V = SessionEventModel;

    open spec fn view(&self) -> SessionEventModel {
        SessionEventModel {
            event_id: self.event_id@,
            session_id: self.session_id@,
            event_type: self.event_type@,
            from_status: self.from_status,
            to_status: self.to_status,
            actor_type: self.actor_type@,
            actor_account_id: opt_text(self.actor_account_id),
            actor_device_id: opt_text(self.actor_device_id),
            actor_role: opt_text(self.actor_role),
            reason: opt_text(self.reason),
            idempotency_key_hash: self.idempotency_key_hash@,
            request_id: self.request_id@,
            created_at_epoch_millis: self.created_at_epoch_millis,
            result_session: opt_model(self.result_session),
        }
    }
}

impl Record for SessionEvent {
    fn duplicate(&self) -> (copy: Self) {
        SessionEvent {
            event_id: self.event_id.clone(),
            session_id: self.session_id.clone(),
            event_type: self.event_type.clone(),
            from_status: self.from_status,
            to_status: self.to_status,
            actor_type: self.actor_type.clone(),
            actor_account_id: opt_text_copy(&self.actor_account_id),
            actor_device_id: opt_text_copy(&self.actor_device_id),
            actor_role: opt_text_copy(&self.actor_role),
            reason: opt_text_copy(&self.reason),
            idempotency_key_hash: self.idempotency_key_hash.clone(),
            request_id: self.request_id.clone(),
            created_at_epoch_millis: self.created_at_epoch_millis,
            result_session: opt_duplicate(&self.result_session),
        }
    }

    fn same(&self, other: &Self) -> (same: bool) {
        text_eq(self.event_id.as_str(), other.event_id.as_str())
            && text_eq(self.session_id.as_str(), other.session_id.as_str())
            && text_eq(self.event_type.as_str(), other.event_type.as_str())
            && self.from_status == other.from_status
            && self.to_status == other.to_status
            && text_eq(self.actor_type.as_str(), other.actor_type.as_str())
            && opt_text_eq(&self.actor_account_id, &other.actor_account_id)
            && opt_text_eq(&self.actor_device_id, &other.actor_device_id)
            && opt_text_eq(&self.actor_role, &other.actor_role)
            && opt_text_eq(&self.reason, &other.reason)
            && text_eq(self.idempotency_key_hash.as_str(), other.idempotency_key_hash.as_str())
            && text_eq(self.request_id.as_str(), other.request_id.as_str())
            && self.created_at_epoch_millis == other.created_at_epoch_millis
            && opt_same(&self.result_session, &other.result_session)
    }
}

/// The first request under an idempotency key, and the session that it led to.
#[derive(Debug, PartialEq, Eq)]
pub struct IdempotencyRecord {
    pub account_id: String,
    pub device_id: String,
    pub method: String,
    pub path: String,
    pub operation: String,
    pub idempotency_key: String,
    pub body_hash: String,
    pub request_id: String,
    pub session_id: String,
    pub request_binding_hash: String,
    pub created_at_epoch_millis: u64,
    pub expires_at_epoch_millis: u64,
}

/// The model of [`IdempotencyRecord`].
pub struct IdempotencyRecordModel {
    pub account_id: Seq<char>,
    pub device_id: Seq<char>,
    pub method: Seq<char>,
    pub path: Seq<char>,
    pub operation: Seq<char>,
    pub idempotency_key: Seq<char>,
    pub body_hash: Seq<char>,
    pub request_id: Seq<char>,
    pub session_id: Seq<char>,
    pub request_binding_hash: Seq<char>,
    pub created_at_epoch_millis: u64,
    pub expires_at_epoch_millis: u64,
}

impl View for IdempotencyRecord {
    type V = IdempotencyRecordModel;

    open spec fn view(&self) -> IdempotencyRecordModel {
        IdempotencyRecordModel {
            account_id: self.account_id@,
            device_id: self.device_id@,
            method: self.method@,
            path: self.path@,
            operation: self.operation@,
            idempotency_key: self.idempotency_key@,
            body_hash: self.body_hash@,
            request_id: self.request_id@,
            session_id: self.session_id@,
            request_binding_hash: self.request_binding_hash@,
            created_at_epoch_millis: self.created_at_epoch_millis,
            expires_at_epoch_millis: self.expires_at_epoch_millis,
        }
    }
}

impl Record for IdempotencyRecord {
    fn duplicate(&self) -> (copy: Self) {
        IdempotencyRecord {
            account_id: self.account_id.clone(),
            device_id: self.device_id.clone(),
            method: self.method.clone(),
            path: self.path.clone(),
            operation: self.operation.clone(),
            idempotency_key: self.idempotency_key.clone(),
            body_hash: self.body_hash.clone(),
            request_id: self.request_id.clone(),
            session_id: self.session_id.clone(),
            request_binding_hash: self.request_binding_hash.clone(),
            created_at_epoch_millis: self.created_at_epoch_millis,
            expires_at_epoch_millis: self.expires_at_epoch_millis,
        }
    }

    fn same(&self, other: &Self) -> (same: bool) {
        text_eq(self.account_id.as_str(), other.account_id.as_str())
            && text_eq(self.device_id.as_str(), other.device_id.as_str())
            && text_eq(self.method.as_str(), other.method.as_str())
            && text_eq(self.path.as_str(), other.path.as_str())
            && text_eq(self.operation.as_str(), other.operation.as_str())
            && text_eq(self.idempotency_key.as_str(), other.idempotency_key.as_str())
            && text_eq(self.body_hash.as_str(), other.body_hash.as_str())
            && text_eq(self.request_id.as_str(), other.request_id.as_str())
            && text_eq(self.session_id.as_str(), other.session_id.as_str())
            && text_eq(self.request_binding_hash.as_str(), other.request_binding_hash.as_str())
            && self.created_at_epoch_millis == other.created_at_epoch_millis
            && self.expires_at_epoch_millis == other.expires_at_epoch_millis
    }
}

} // verus!
