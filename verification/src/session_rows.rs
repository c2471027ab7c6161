use crate::audit::{AuditEntry, AuditEntryModel, JsonValue};
use crate::codec::{
    decimal, decimal_text, encode_hex, fixed_32, from_i64, hex_text, negative_time, not_32_bytes,
    opt_time, opt_time_valid, optional_u64,
};
use crate::hash::{sha256_digest, sha256_hex};
use crate::names::{
    auth_method_of, optional_role, parse_auth_method, parse_session_status, role_of,
    session_status_of,
};
use crate::session::{
    IdempotencyRecord, IdempotencyRecordModel, PolicyEvaluation, PolicyEvaluationModel, Session,
    SessionEvent, SessionEventModel, SessionModel, SessionPermissions, SessionStatus,
};
use crate::store::StoreError;
use crate::table::Table;
use crate::text::{ascii_upper, ascii_uppercase, joined, opt_text};
use vstd::prelude::*;
use vstd::utf8::encode_utf8;

verus! {

/// A session as its row holds it. The permissions come decoded, or with the reason why they cannot
/// be.
#[derive(Debug, PartialEq, Eq)]
pub struct SessionRow {
    pub session_id: String,
    pub controller_account_id: String,
    pub controller_device_id: String,
    pub controlled_device_id: String,
    pub auth_method: String,
    pub status: String,
    pub permissions: Result<SessionPermissions, String>,
    pub permissions_digest: Vec<u8>,
    pub policy_evaluation_id: String,
    pub relay_token_epoch: i64,
    pub session_expires_at_epoch_millis: i64,
    pub created_at_epoch_millis: i64,
    pub updated_at_epoch_millis: i64,
    pub ended_at_epoch_millis: Option<i64>,
}

/// What is wrong with the row of a session.
pub open spec fn session_row_problem(row: SessionRow) -> Option<Seq<char>> {
    if auth_method_of(row.auth_method@) is None {
        Some("unsupported auth_method "@ + row.auth_method@)
    } else if session_status_of(row.status@) is None {
        Some("unsupported session status "@ + row.status@)
    } else if row.permissions is Err {
        Some("decode session permissions: "@ + row.permissions->Err_0@)
    } else if row.relay_token_epoch < 0 || row.session_expires_at_epoch_millis < 0
        || row.created_at_epoch_millis < 0 || row.updated_at_epoch_millis < 0 || !opt_time_valid(
        row.ended_at_epoch_millis,
    ) {
        Some(negative_time())
    } else {
        None
    }
}

/// The session that a row stands for.
pub open spec fn session_row_model(row: SessionRow) -> SessionModel {
    SessionModel {
        session_id: row.session_id@,
        controller_account_id: row.controller_account_id@,
        controller_device_id: row.controller_device_id@,
        controlled_device_id: row.controlled_device_id@,
        auth_method: auth_method_of(row.auth_method@)->0,
        status: session_status_of(row.status@)->0,
        permissions: row.permissions->Ok_0@,
        permissions_digest: hex_text(row.permissions_digest@),
        policy_evaluation_id: row.policy_evaluation_id@,
        relay_token_epoch: row.relay_token_epoch as u64,
        session_expires_at_epoch_millis: row.session_expires_at_epoch_millis as u64,
        created_at_epoch_millis: row.created_at_epoch_millis as u64,
        updated_at_epoch_millis: row.updated_at_epoch_millis as u64,
        ended_at_epoch_millis: opt_time(row.ended_at_epoch_millis),
    }
}

fn decoded_permissions(permissions: Result<SessionPermissions, String>, label: &str) -> (result:
    Result<SessionPermissions, String>)
    ensures
        result is Ok <==> permissions is Ok,
        result is Ok ==> result->Ok_0@ == permissions->Ok_0@,
        result is Err ==> result->Err_0@ == label@ + permissions->Err_0@,
{
    match permissions {
        Ok(permissions) => Ok(permissions),
        Err(reason) => Err(joined(label, reason.as_str())),
    }
}

/// Reads the row of a session.
pub fn session_from_row(row: SessionRow) -> (result: Result<Session, String>)
    ensures
        result is Ok <==> session_row_problem(row) is None,
        result is Ok ==> result->Ok_0@ == session_row_model(row),
        result is Err ==> Some(result->Err_0@) == session_row_problem(row),
{
    Ok(
        Session {
            session_id: row.session_id,
            controller_account_id: row.controller_account_id,
            controller_device_id: row.controller_device_id,
            controlled_device_id: row.controlled_device_id,
            auth_method: parse_auth_method(row.auth_method.as_str())?,
            status: parse_session_status(row.status.as_str())?,
            permissions: decoded_permissions(row.permissions, "decode session permissions: ")?,
            permissions_digest: encode_hex(row.permissions_digest.as_slice()),
            policy_evaluation_id: row.policy_evaluation_id,
            relay_token_epoch: from_i64(row.relay_token_epoch)?,
            session_expires_at_epoch_millis: from_i64(row.session_expires_at_epoch_millis)?,
            created_at_epoch_millis: from_i64(row.created_at_epoch_millis)?,
            updated_at_epoch_millis: from_i64(row.updated_at_epoch_millis)?,
            ended_at_epoch_millis: optional_u64(row.ended_at_epoch_millis)?,
        },
    )
}

/// A policy evaluation as its row holds it.
#[derive(Debug, PartialEq, Eq)]
pub struct PolicyEvaluationRow {
    pub policy_evaluation_id: String,
    pub session_id: String,
    pub account_id: String,
    pub controller_device_id: String,
    pub controlled_device_id: String,
    pub access_decision: String,
    pub anti_abuse_decision: String,
    pub session_access_decision: String,
    pub effective_permissions: Result<SessionPermissions, String>,
    pub permissions_digest: Vec<u8>,
    pub created_at_epoch_millis: i64,
}

/// Reads the row of a policy evaluation.
pub fn policy_evaluation_from_row(row: PolicyEvaluationRow) -> (result: Result<
    PolicyEvaluation,
    String,
>)
    ensures
        result is Ok <==> row.effective_permissions is Ok && row.created_at_epoch_millis >= 0,
        result is Ok ==> result->Ok_0@ == (PolicyEvaluationModel {
            policy_evaluation_id: row.policy_evaluation_id@,
            session_id: row.session_id@,
            account_id: row.account_id@,
            controller_device_id: row.controller_device_id@,
            controlled_device_id: row.controlled_device_id@,
            access_decision: row.access_decision@,
            anti_abuse_decision: row.anti_abuse_decision@,
            session_access_decision: row.session_access_decision@,
            effective_permissions: row.effective_permissions->Ok_0@,
            permissions_digest: hex_text(row.permissions_digest@),
            evaluated_at_epoch_millis: row.created_at_epoch_millis as u64,
        }),
        result is Err ==> result->Err_0@ == if row.effective_permissions is Err {
            "decode effective_permissions: "@ + row.effective_permissions->Err_0@
        } else {
            negative_time()
        },
{
    Ok(
        PolicyEvaluation {
            policy_evaluation_id: row.policy_evaluation_id,
            session_id: row.session_id,
            account_id: row.account_id,
            controller_device_id: row.controller_device_id,
            controlled_device_id: row.controlled_device_id,
            access_decision: row.access_decision,
            anti_abuse_decision: row.anti_abuse_decision,
            session_access_decision: row.session_access_decision,
            effective_permissions: decoded_permissions(
                row.effective_permissions,
                "decode effective_permissions: ",
            )?,
            permissions_digest: encode_hex(row.permissions_digest.as_slice()),
            evaluated_at_epoch_millis: from_i64(row.created_at_epoch_millis)?,
        },
    )
}

/// A session event as its row holds it. The fields of its metadata come as texts, where they are
/// texts, and the session snapshot decoded, or with the reason why it cannot be.
#[derive(Debug, PartialEq, Eq)]
pub struct SessionEventRow {
    pub event_id: String,
    pub session_id: String,
    pub event_type: String,
    pub actor_type: String,
    pub actor_account_id: Option<String>,
    pub actor_device_id: Option<String>,
    pub actor_role: String,
    pub reason: Option<String>,
    pub from_status: Option<String>,
    pub to_status: Option<String>,
    pub idempotency_key_hash: Option<String>,
    pub request_id: Option<String>,
    pub result_session: Option<Result<Session, String>>,
    pub created_at_epoch_millis: i64,
}

/// What is wrong with the row of a session event.
pub open spec fn event_row_problem(row: SessionEventRow) -> Option<Seq<char>> {
    if row.from_status is Some && session_status_of(row.from_status->0@) is None {
        Some("unsupported session status "@ + row.from_status->0@)
    } else if row.to_status is None {
        Some("session event metadata is missing to_status"@)
    } else if session_status_of(row.to_status->0@) is None {
        Some("unsupported session status "@ + row.to_status->0@)
    } else if row.result_session is Some && row.result_session->0 is Err {
        Some("session event result_session is invalid: "@ + row.result_session->0->Err_0@)
    } else if row.created_at_epoch_millis < 0 {
        Some(negative_time())
    } else {
        None
    }
}

/// A text, or the empty text where there is none.
pub open spec fn text_or_empty(value: Option<String>) -> Seq<char> {
    match value {
        Some(text) => text@,
        None => Seq::empty(),
    }
}

fn unwrap_text(value: Option<String>) -> (text: String)
    ensures
        text@ == text_or_empty(value),
{
    match value {
        Some(text) => text,
        None => String::new(),
    }
}

/// The session event that a row stands for.
pub open spec fn event_row_model(row: SessionEventRow) -> SessionEventModel {
    SessionEventModel {
        event_id: row.event_id@,
        session_id: row.session_id@,
        event_type: row.event_type@,
        from_status: match row.from_status {
            Some(name) => session_status_of(name@),
            None => None,
        },
        to_status: session_status_of(row.to_status->0@)->0,
        actor_type: row.actor_type@,
        actor_account_id: opt_text(row.actor_account_id),
        actor_device_id: opt_text(row.actor_device_id),
        actor_role: role_of(row.actor_role@),
        reason: opt_text(row.reason),
        idempotency_key_hash: text_or_empty(row.idempotency_key_hash),
        request_id: text_or_empty(row.request_id),
        created_at_epoch_millis: row.created_at_epoch_millis as u64,
        result_session: match row.result_session {
            Some(snapshot) => Some(snapshot->Ok_0@),
            None => None,
        },
    }
}

/// Reads the row of a session event.
pub fn session_event_from_row(row: SessionEventRow) -> (result: Result<SessionEvent, String>)
    ensures
        result is Ok <==> event_row_problem(row) is None,
        result is Ok ==> result->Ok_0@ == event_row_model(row),
        result is Err ==> Some(result->Err_0@) == event_row_problem(row),
{
    let from_status: Option<SessionStatus> = match &row.from_status {
        Some(name) => Some(parse_session_status(name.as_str())?),
        None => None,
    };
    let to_status: SessionStatus = match &row.to_status {
        Some(name) => parse_session_status(name.as_str())?,
        None => {
            return Err("session event metadata is missing to_status".to_owned());
        },
    };
    let result_session: Option<Session> = match row.result_session {
        Some(Ok(session)) => Some(session),
        Some(Err(reason)) => {
            return Err(
                joined("session event result_session is invalid: ", reason.as_str()),
            );
        },
        None => None,
    };
    Ok(
        SessionEvent {
            event_id: row.event_id,
            session_id: row.session_id,
            event_type: row.event_type,
            from_status,
            to_status,
            actor_type: row.actor_type,
            actor_account_id: row.actor_account_id,
            actor_device_id: row.actor_device_id,
            actor_role: optional_role(row.actor_role),
            reason: row.reason,
            idempotency_key_hash: unwrap_text(row.idempotency_key_hash),
            request_id: unwrap_text(row.request_id),
            created_at_epoch_millis: from_i64(row.created_at_epoch_millis)?,
            result_session,
        },
    )
}

/// An audit entry as its row holds it. `metadata` is `None` where the stored value is no object.
#[derive(Debug, PartialEq, Eq)]
pub struct AuditEntryRow {
    pub audit_id: String,
    pub actor_type: String,
    pub actor_account_id: Option<String>,
    pub actor_device_id: Option<String>,
    pub actor_role: String,
    pub actor_service: Option<String>,
    pub target_device_id: Option<String>,
    pub session_id: Option<String>,
    pub action: String,
    pub result: String,
    pub reason: Option<String>,
    pub metadata: Option<Table<JsonValue>>,
    pub request_id: Option<String>,
    pub created_at_epoch_millis: i64,
}

/// Reads the row of an audit entry.
pub fn audit_entry_from_row(row: AuditEntryRow) -> (result: Result<AuditEntry, String>)
    ensures
        result is Ok <==> row.metadata is Some && row.created_at_epoch_millis >= 0,
        result is Ok ==> result->Ok_0@ == (AuditEntryModel {
            audit_id: row.audit_id@,
            actor_type: row.actor_type@,
            actor_account_id: opt_text(row.actor_account_id),
            actor_device_id: opt_text(row.actor_device_id),
            actor_role: role_of(row.actor_role@),
            actor_service: opt_text(row.actor_service),
            target_device_id: opt_text(row.target_device_id),
            session_id: opt_text(row.session_id),
            action: row.action@,
            result: row.result@,
            reason: opt_text(row.reason),
            metadata: row.metadata->0@,
            request_id: text_or_empty(row.request_id),
            created_at_epoch_millis: row.created_at_epoch_millis as u64,
        }),
        result is Err ==> result->Err_0@ == if row.metadata is None {
            "audit metadata is not an object"@
        } else {
            negative_time()
        },
{
    let metadata = match row.metadata {
        Some(metadata) => metadata,
        None => {
            return Err("audit metadata is not an object".to_owned());
        },
    };
    Ok(
        AuditEntry {
            audit_id: row.audit_id,
            actor_type: row.actor_type,
            actor_account_id: row.actor_account_id,
            actor_device_id: row.actor_device_id,
            actor_role: optional_role(row.actor_role),
            actor_service: row.actor_service,
            target_device_id: row.target_device_id,
            session_id: row.session_id,
            action: row.action,
            result: row.result,
            reason: row.reason,
            metadata,
            request_id: unwrap_text(row.request_id),
            created_at_epoch_millis: from_i64(row.created_at_epoch_millis)?,
        },
    )
}

/// The text whose digest an idempotency record is stored under: the five parts of the request,
/// each but the last ended by a zero character, with the method in upper case.
pub open spec fn idempotency_text(
    account_id: Seq<char>,
    device_id: Seq<char>,
    method: Seq<char>,
    path: Seq<char>,
    idempotency_key: Seq<char>,
) -> Seq<char> {
    account_id + "\0"@ + device_id + "\0"@ + method.map_values(|c: char| ascii_upper(c)) + "\0"@
        + path + "\0"@ + idempotency_key
}

/// The key that an idempotency record is stored under.
pub fn idempotency_storage_key(
    account_id: &str,
    device_id: &str,
    method: &str,
    path: &str,
    idempotency_key: &str,
) -> (key: String)
    ensures
        key@ == hex_text(
            sha256_digest(
                encode_utf8(
                    idempotency_text(account_id@, device_id@, method@, path@, idempotency_key@),
                ),
            ),
        ),
{
    let mut text = account_id.to_owned();
    text.append("\0");
    text.append(device_id);
    text.append("\0");
    text.append(ascii_uppercase(method).as_str());
    text.append("\0");
    text.append(path);
    text.append("\0");
    text.append(idempotency_key);
    sha256_hex(text.as_str().as_bytes())
}

/// An idempotency record as its row holds it.
#[derive(Debug, PartialEq, Eq)]
pub struct IdempotencyRow {
    pub idempotency_key: String,
    pub account_id: String,
    pub device_id: String,
    pub method: String,
    pub path: String,
    pub body_hash: Vec<u8>,
    pub request_id: String,
    pub resource_type: String,
    pub resource_id: String,
    pub created_at_epoch_millis: i64,
    pub expires_at_epoch_millis: i64,
}

/// What is wrong with the row of an idempotency record. `binding` is the canonical form of its
/// request, where the target of the request has one.
pub open spec fn idempotency_row_problem(row: IdempotencyRow, binding: Option<Vec<u8>>) -> Option<
    Seq<char>,
> {
    if row.body_hash@.len() != 32 {
        Some("digest is not 64 hexadecimal characters"@)
    } else if binding is None {
        Some("api_idempotency_keys request target is invalid"@)
    } else if row.created_at_epoch_millis < 0 || row.expires_at_epoch_millis < 0 {
        Some(negative_time())
    } else {
        None
    }
}

/// The idempotency record that a row stands for.
pub open spec fn idempotency_row_model(
    row: IdempotencyRow,
    binding: Seq<u8>,
) -> IdempotencyRecordModel {
    IdempotencyRecordModel {
        account_id: row.account_id@,
        device_id: row.device_id@,
        method: row.method@,
        path: row.path@,
        operation: row.resource_type@,
        idempotency_key: row.idempotency_key@,
        body_hash: hex_text(row.body_hash@),
        request_id: row.request_id@,
        session_id: row.resource_id@,
        request_binding_hash: hex_text(sha256_digest(binding)),
        created_at_epoch_millis: row.created_at_epoch_millis as u64,
        expires_at_epoch_millis: row.expires_at_epoch_millis as u64,
    }
}

/// Reads the row of an idempotency record, and gives the key that it is stored under.
pub fn idempotency_from_row(row: IdempotencyRow, binding: Option<Vec<u8>>) -> (result: Result<
    (String, IdempotencyRecord),
    String,
>)
    ensures
        result is Ok <==> idempotency_row_problem(row, binding) is None,
        result is Ok ==> result->Ok_0.0@ == hex_text(
            sha256_digest(
                encode_utf8(
                    idempotency_text(
                        row.account_id@,
                        row.device_id@,
                        row.method@,
                        row.path@,
                        row.idempotency_key@,
                    ),
                ),
            ),
        ),
        result is Ok ==> result->Ok_0.1@ == idempotency_row_model(row, binding->0@),
        result is Err ==> Some(result->Err_0@) == idempotency_row_problem(row, binding),
{
    if row.body_hash.len() != 32 {
        return Err("digest is not 64 hexadecimal characters".to_owned());
    }
    let storage_key = idempotency_storage_key(
        row.account_id.as_str(),
        row.device_id.as_str(),
        row.method.as_str(),
        row.path.as_str(),
        row.idempotency_key.as_str(),
    );
    let request_binding_hash = match binding {
        Some(binding) => sha256_hex(binding.as_slice()),
        None => {
            return Err("api_idempotency_keys request target is invalid".to_owned());
        },
    };
    let record = IdempotencyRecord {
        account_id: row.account_id,
        device_id: row.device_id,
        method: row.method,
        path: row.path,
        operation: row.resource_type,
        idempotency_key: row.idempotency_key,
        body_hash: encode_hex(row.body_hash.as_slice()),
        request_id: row.request_id,
        session_id: row.resource_id,
        request_binding_hash,
        created_at_epoch_millis: from_i64(row.created_at_epoch_millis)?,
        expires_at_epoch_millis: from_i64(row.expires_at_epoch_millis)?,
    };
    Ok((storage_key, record))
}

/// What a session request under an idempotency key that was used before finds there.
#[derive(Debug, PartialEq, Eq)]
pub struct ExistingSessionIdempotency {
    pub body_hash: [u8; 32],
    pub resource_id: String,
}

/// Reads what a session request finds under an idempotency key that was used before.
pub fn session_idempotency_from_row(body_hash: Vec<u8>, resource_id: Option<String>) -> (result:
    Result<ExistingSessionIdempotency, String>)
    ensures
        result is Ok <==> body_hash@.len() == 32 && resource_id is Some,
        result is Ok ==> result->Ok_0.body_hash@ == body_hash@ && result->Ok_0.resource_id@
            == resource_id->0@,
        result is Err ==> result->Err_0@ == if body_hash@.len() != 32 {
            not_32_bytes("api_idempotency_keys.body_hash"@)
        } else {
            "api_idempotency_keys.resource_id is missing for a session request"@
        },
{
    let body_hash = fixed_32(body_hash, "api_idempotency_keys.body_hash")?;
    match resource_id {
        Some(resource_id) => Ok(ExistingSessionIdempotency { body_hash, resource_id }),
        None => Err(
            "api_idempotency_keys.resource_id is missing for a session request".to_owned(),
        ),
    }
}

/// What comes of claiming an idempotency key, given how many rows the claim wrote and what is then
/// found under the key: `None` where the key is claimed now, or what an earlier request left.
pub fn session_idempotency_claim(
    affected: u64,
    existing: Option<ExistingSessionIdempotency>,
) -> (result: Result<Option<ExistingSessionIdempotency>, String>)
    ensures
        affected == 1 ==> result is Ok && result->Ok_0 is None,
        affected == 0 && existing is Some ==> result is Ok && result->Ok_0 == existing,
        affected == 0 && existing is None ==> result is Err && result->Err_0@
            == "api_idempotency_keys conflict row disappeared during claim"@,
        affected > 1 ==> result is Err && result->Err_0@ == "api_idempotency_keys claim affected "@
            + decimal(affected as nat) + " rows"@,
{
    if affected == 1 {
        return Ok(None);
    }
    if affected == 0 {
        return match existing {
            Some(existing) => Ok(Some(existing)),
            None => Err("api_idempotency_keys conflict row disappeared during claim".to_owned()),
        };
    }
    let counted = joined(
        "api_idempotency_keys claim affected ",
        decimal_text(affected).as_str(),
    );
    Err(joined(counted.as_str(), " rows"))
}

/// The metadata of the one audit entry that an earlier registration left: anything but exactly one
/// entry with an object for its metadata makes the store unavailable.
pub fn replayed_registration_metadata(rows: Vec<Option<Table<JsonValue>>>) -> (result: Result<
    Table<JsonValue>,
    StoreError,
>)
    ensures
        result is Ok <==> rows@.len() == 1 && rows@[0] is Some,
        result is Ok ==> result->Ok_0@ == rows@[0]->0@,
        result is Err ==> result->Err_0 == StoreError::Unavailable,
{
    if rows.len() != 1 {
        return Err(StoreError::Unavailable);
    }
    let mut rows = rows;
    match rows.pop() {
        Some(Some(metadata)) => Ok(metadata),
        _ => Err(StoreError::Unavailable),
    }
}

} // verus!
