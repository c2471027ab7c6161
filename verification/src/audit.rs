use crate::table::{Record, Table};
use crate::text::{opt_text, opt_text_copy, opt_text_eq, text_eq};
use vstd::prelude::*;

verus! {

/// A value of an audit entry's metadata.
#[derive(Debug, PartialEq, Eq)]
pub enum JsonValue {
    Null,
    Bool(bool),
    Unsigned(u64),
    Text(String),
    /// Any other value, as compact JSON text.
    Other(String),
}

/// The model of [`JsonValue`].
pub enum JsonModel {
    Null,
    Bool(bool),
    Unsigned(u64),
    Text(Seq<char>),
    Other(Seq<char>),
}

impl View for JsonValue {
    type V = JsonModel;

    open spec fn view(&self) -> JsonModel {
        match *self {
            JsonValue::Null => JsonModel::Null,
            JsonValue::Bool(value) => JsonModel::Bool(value),
            JsonValue::Unsigned(value) => JsonModel::Unsigned(value),
            JsonValue::Text(text) => JsonModel::Text(text@),
            JsonValue::Other(text) => JsonModel::Other(text@),
        }
    }
}

impl Record for JsonValue {
    fn duplicate(&self) -> (copy: Self) {
        match self {
            JsonValue::Null => JsonValue::Null,
            JsonValue::Bool(value) => JsonValue::Bool(*value),
            JsonValue::Unsigned(value) => JsonValue::Unsigned(*value),
            JsonValue::Text(text) => JsonValue::Text(text.clone()),
            JsonValue::Other(text) => JsonValue::Other(text.clone()),
        }
    }

    fn same(&self, other: &Self) -> (same: bool) {
        match (self, other) {
            (JsonValue::Null, JsonValue::Null) => true,
            (JsonValue::Bool(a), JsonValue::Bool(b)) => *a == *b,
            (JsonValue::Unsigned(a), JsonValue::Unsigned(b)) => *a == *b,
            (JsonValue::Text(a), JsonValue::Text(b)) => text_eq(a.as_str(), b.as_str()),
            (JsonValue::Other(a), JsonValue::Other(b)) => text_eq(a.as_str(), b.as_str()),
            _ => false,
        }
    }
}

/// An entry of the audit log.
#[derive(Debug, PartialEq, Eq)]
pub struct AuditEntry {
    pub audit_id: String,
    pub actor_type: String,
    pub actor_account_id: Option<String>,
    pub actor_device_id: Option<String>,
    pub actor_role: Option<String>,
    pub actor_service: Option<String>,
    pub target_device_id: Option<String>,
    pub session_id: Option<String>,
    pub action: String,
    pub result: String,
    pub reason: Option<String>,
    pub metadata: Table<JsonValue>,
    pub request_id: String,
    pub created_at_epoch_millis: u64,
}

/// The model of [`AuditEntry`].
pub struct AuditEntryModel {
    pub audit_id: Seq<char>,
    pub actor_type: Seq<char>,
    pub actor_account_id: Option<Seq<char>>,
    pub actor_device_id: Option<Seq<char>>,
    pub actor_role: Option<Seq<char>>,
    pub actor_service: Option<Seq<char>>,
    pub target_device_id: Option<Seq<char>>,
    pub session_id: Option<Seq<char>>,
    pub action: Seq<char>,
    pub result: Seq<char>,
    pub reason: Option<Seq<char>>,
    pub metadata: Map<Seq<char>, JsonModel>,
    pub request_id: Seq<char>,
    pub created_at_epoch_millis: u64,
}

impl View for AuditEntry {
    type V = AuditEntryModel;

    open spec fn view(&self) -> AuditEntryModel {
        AuditEntryModel {
            audit_id: self.audit_id@,
            actor_type: self.actor_type@,
            actor_account_id: opt_text(self.actor_account_id),
            actor_device_id: opt_text(self.actor_device_id),
            actor_role: opt_text(self.actor_role),
            actor_service: opt_text(self.actor_service),
            target_device_id: opt_text(self.target_device_id),
            session_id: opt_text(self.session_id),
            action: self.action@,
            result: self.result@,
            reason: opt_text(self.reason),
            metadata: self.metadata@,
            request_id: self.request_id@,
            created_at_epoch_millis: self.created_at_epoch_millis,
        }
    }
}

impl Record for AuditEntry {
    fn duplicate(&self) -> (copy: Self) {
        AuditEntry {
            audit_id: self.audit_id.clone(),
            actor_type: self.actor_type.clone(),
            actor_account_id: opt_text_copy(&self.actor_account_id),
            actor_device_id: opt_text_copy(&self.actor_device_id),
            actor_role: opt_text_copy(&self.actor_role),
            actor_service: opt_text_copy(&self.actor_service),
            target_device_id: opt_text_copy(&self.target_device_id),
            session_id: opt_text_copy(&self.session_id),
            action: self.action.clone(),
            result: self.result.clone(),
            reason: opt_text_copy(&self.reason),
            metadata: self.metadata.duplicate(),
            request_id: self.request_id.clone(),
            created_at_epoch_millis: self.created_at_epoch_millis,
        }
    }

    fn same(&self, other: &Self) -> (same: bool) {
        text_eq(self.audit_id.as_str(), other.audit_id.as_str())
            && text_eq(self.actor_type.as_str(), other.actor_type.as_str())
            && opt_text_eq(&self.actor_account_id, &other.actor_account_id)
            && opt_text_eq(&self.actor_device_id, &other.actor_device_id)
            && opt_text_eq(&self.actor_role, &other.actor_role)
            && opt_text_eq(&self.actor_service, &other.actor_service)
            && opt_text_eq(&self.target_device_id, &other.target_device_id)
            && opt_text_eq(&self.session_id, &other.session_id)
            && text_eq(self.action.as_str(), other.action.as_str())
            && text_eq(self.result.as_str(), other.result.as_str())
            && opt_text_eq(&self.reason, &other.reason)
            && self.metadata.same(&other.metadata)
            && text_eq(self.request_id.as_str(), other.request_id.as_str())
            && self.created_at_epoch_millis == other.created_at_epoch_millis
    }
}

} // verus!
