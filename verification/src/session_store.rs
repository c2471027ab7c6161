use crate::audit::AuditEntry;
use crate::bytes::array_eq;
use crate::codec::{decode_hex_32, hex_digest, hex_pairs_valid, stored_i64, to_i64_lossless};
use crate::database::{append_log, Database, DatabaseModel};
use crate::login_finish::{authorizable_name, is_authorizable_name};
use crate::names::{role_name, session_status_name, session_status_text, stored_role};
use crate::risk_challenge::LockedDevice;
use crate::session::{
    IdempotencyRecord, PolicyEvaluation, Session, SessionEvent, SessionEventModel, SessionModel,
    SessionStatus,
};
use crate::session_rows::{
    session_from_row, session_row_model, session_row_problem, ExistingSessionIdempotency,
    SessionRow,
};
use crate::store::{check_written, state_after, write_failure, PersistenceError, StoreError};
use crate::table::Record;
use crate::text::{opt_text_is, text_eq};
use vstd::prelude::*;
use vstd::utf8::encode_utf8;

verus! {

/// A status that a session does not leave.
pub open spec fn terminal_session(status: SessionStatus) -> bool {
    status == SessionStatus::Cancelled || status == SessionStatus::Closed || status
        == SessionStatus::Rejected || status == SessionStatus::Failed
}

/// Whether a session does not leave a status.
pub fn is_terminal_session(status: SessionStatus) -> (terminal: bool)
    ensures
        terminal == terminal_session(status),
{
    matches!(
        status,
        SessionStatus::Cancelled | SessionStatus::Closed | SessionStatus::Rejected
            | SessionStatus::Failed
    )
}

/// A request to create a session, with the records that it stores.
#[derive(Debug, PartialEq, Eq)]
pub struct CreateSessionCommand {
    pub storage_key: String,
    pub idempotency: IdempotencyRecord,
    pub session: Session,
    pub policy_evaluation: PolicyEvaluation,
    pub event: SessionEvent,
    pub audit_entry: AuditEntry,
}

/// How a request to create a session is answered.
#[derive(Debug, PartialEq, Eq)]
pub enum CreateSessionOutcome {
    BindingMismatch,
    Replayed(Session),
    Created(Session),
}

/// The event that an earlier request under the same idempotency key led to, with the session as it
/// was then, where the event holds it.
#[derive(Debug, PartialEq, Eq)]
pub struct ReplayEvent {
    pub event_id: String,
    pub result_session: Option<Result<Session, String>>,
}

/// What the store holds of an earlier request under the same idempotency key.
#[derive(Debug, PartialEq, Eq)]
pub struct ReplayFacts {
    pub event: Option<ReplayEvent>,
    /// The session as it is now.
    pub session: Option<Result<Session, String>>,
}

/// The session that an earlier request is answered with again: as it was then, or as it is now
/// where the event does not hold it.
pub open spec fn replayed_session(session_id: Seq<char>, facts: ReplayFacts) -> Option<
    SessionModel,
> {
    if facts.event is None {
        None
    } else {
        match facts.event->0.result_session {
            Some(snapshot) => if snapshot is Ok && snapshot->Ok_0@.session_id == session_id {
                Some(snapshot->Ok_0@)
            } else {
                None
            },
            None => if facts.session is Some && facts.session->0 is Ok {
                Some(facts.session->0->Ok_0@)
            } else {
                None
            },
        }
    }
}

/// Finds the session and the event that an earlier request is answered with again. A record that
/// is missing, unreadable, or of another session makes the store unavailable.
pub fn load_replay(session_id: &str, facts: ReplayFacts) -> (result: Result<
    (Session, String),
    StoreError,
>)
    ensures
        result is Ok <==> replayed_session(session_id@, facts) is Some,
        result is Ok ==> Some(result->Ok_0.0@) == replayed_session(session_id@, facts)
            && result->Ok_0.1@ == facts.event->0.event_id@,
        result is Err ==> result->Err_0 == StoreError::Unavailable,
{
    let event = match facts.event {
        Some(event) => event,
        None => {
            return Err(StoreError::Unavailable);
        },
    };
    match event.result_session {
        Some(Ok(session)) => if text_eq(session.session_id.as_str(), session_id) {
            Ok((session, event.event_id))
        } else {
            Err(StoreError::Unavailable)
        },
        Some(Err(_)) => Err(StoreError::Unavailable),
        None => match facts.session {
            Some(Ok(session)) => Ok((session, event.event_id)),
            _ => Err(StoreError::Unavailable),
        },
    }
}

/// The two devices of a session and the policy of the controlled one, as their locked rows hold
/// them.
#[derive(Debug, PartialEq, Eq)]
pub struct SessionDevices {
    pub controller: Option<LockedDevice>,
    pub controlled: Option<LockedDevice>,
    pub allow_remote_desktop: Option<bool>,
}

/// Whether the devices of a session may be used in it: two different devices that may both act,
/// the controller of the session's account, and the controlled one open to remote control.
pub open spec fn session_devices_fit(session: SessionModel, devices: SessionDevices) -> bool {
    &&& session.controller_device_id != session.controlled_device_id
    &&& devices.controller is Some
    &&& devices.controlled is Some
    &&& devices.controller->0.account_id@ == session.controller_account_id
    &&& authorizable_name(devices.controller->0.status@)
    &&& authorizable_name(devices.controlled->0.status@)
    &&& devices.allow_remote_desktop == Some(true)
}

/// Whether the devices of a session may be used in it.
pub fn session_devices_are_authorizable(session: &Session, devices: &SessionDevices) -> (fit: bool)
    ensures
        fit == session_devices_fit(session@, *devices),
{
    if text_eq(session.controller_device_id.as_str(), session.controlled_device_id.as_str()) {
        return false;
    }
    match (&devices.controller, &devices.controlled) {
        (Some(controller), Some(controlled)) => {
            let allowed = match devices.allow_remote_desktop {
                Some(allowed) => allowed,
                None => false,
            };
            text_eq(controller.account_id.as_str(), session.controller_account_id.as_str())
                && is_authorizable_name(controller.status.as_str()) && is_authorizable_name(
                controlled.status.as_str(),
            ) && allowed
        },
        _ => false,
    }
}

/// Whether a text is the hexadecimal form of a digest.
pub open spec fn is_digest(text: Seq<char>) -> bool {
    encode_utf8(text).len() == 64 && hex_pairs_valid(encode_utf8(text))
}

/// Whether the records of a new session speak of one another.
pub open spec fn new_session_fits(command: CreateSessionCommand) -> bool {
    &&& command.idempotency@.session_id == command.session@.session_id
    &&& command.event@.session_id == command.session@.session_id
    &&& command.policy_evaluation@.session_id == command.session@.session_id
    &&& command.session@.policy_evaluation_id == command.policy_evaluation@.policy_evaluation_id
}

/// An event with the session that came of it.
pub open spec fn event_with(event: SessionEventModel, session: SessionModel) -> SessionEventModel {
    SessionEventModel { result_session: Some(session), ..event }
}

/// What comes of a request to create a session.
#[derive(Debug, PartialEq, Eq)]
pub enum CreateSessionDecision {
    /// The idempotency key was used for another request.
    BindingMismatch,
    /// The request was made before and led to this session.
    Replayed(Session),
    /// The session is created, and this event is written.
    Created(SessionEvent),
}

fn body_hash_of(record: &IdempotencyRecord) -> (result: Result<[u8; 32], StoreError>)
    ensures
        result is Ok <==> is_digest(record@.body_hash),
        result is Ok ==> result->Ok_0@ == hex_digest(encode_utf8(record@.body_hash)),
        result is Err ==> result->Err_0 == StoreError::Unavailable,
{
    match decode_hex_32(record.body_hash.as_str()) {
        Ok(hash) => Ok(hash),
        Err(_) => Err(StoreError::Unavailable),
    }
}

/// Whether a request is the one that an idempotency key was first used for.
pub open spec fn same_request(record: IdempotencyRecord, existing: ExistingSessionIdempotency) -> bool {
    existing.body_hash@ == hex_digest(encode_utf8(record@.body_hash))
}

/// Decides a request to create a session. `existing` is what was found under its idempotency key.
pub fn create_session(
    command: &CreateSessionCommand,
    existing: Option<ExistingSessionIdempotency>,
    replay: ReplayFacts,
    devices: &SessionDevices,
) -> (result: Result<CreateSessionDecision, StoreError>)
    ensures
        ({
            let replayed = replayed_session(existing->0.resource_id@, replay);
            if !is_digest(command.idempotency@.body_hash) {
                result == Err::<CreateSessionDecision, _>(StoreError::Unavailable)
            } else if existing is Some {
                if !same_request(command.idempotency, existing->0) {
                    result == Ok::<_, StoreError>(CreateSessionDecision::BindingMismatch)
                } else if replayed is None {
                    result == Err::<CreateSessionDecision, _>(StoreError::Unavailable)
                } else {
                    result is Ok && result->Ok_0 is Replayed && Some(result->Ok_0->Replayed_0@)
                        == replayed
                }
            } else if !new_session_fits(*command) || !session_devices_fit(
                command.session@,
                *devices,
            ) {
                result == Err::<CreateSessionDecision, _>(StoreError::Conflict)
            } else if !is_digest(command.policy_evaluation@.permissions_digest) || !is_digest(
                command.session@.permissions_digest,
            ) {
                result == Err::<CreateSessionDecision, _>(StoreError::Unavailable)
            } else {
                result is Ok && result->Ok_0 is Created && result->Ok_0->Created_0@ == event_with(
                    command.event@,
                    command.session@,
                )
            }
        }),
{
    let body_hash = body_hash_of(&command.idempotency)?;
    if let Some(existing) = existing {
        if !array_eq(&existing.body_hash, &body_hash) {
            assert(existing.body_hash@ != body_hash@) by {
                if existing.body_hash@ == body_hash@ {
                    assert(existing.body_hash =~= body_hash);
                }
            }
            return Ok(CreateSessionDecision::BindingMismatch);
        }
        let (session, _) = load_replay(existing.resource_id.as_str(), replay)?;
        return Ok(CreateSessionDecision::Replayed(session));
    }
    let session_id = command.session.session_id.as_str();
    if !text_eq(command.idempotency.session_id.as_str(), session_id) || !text_eq(
        command.event.session_id.as_str(),
        session_id,
    ) || !text_eq(command.policy_evaluation.session_id.as_str(), session_id) || !text_eq(
        command.session.policy_evaluation_id.as_str(),
        command.policy_evaluation.policy_evaluation_id.as_str(),
    ) {
        return Err(StoreError::Conflict);
    }
    if !session_devices_are_authorizable(&command.session, devices) {
        return Err(StoreError::Conflict);
    }
    if decode_hex_32(command.policy_evaluation.permissions_digest.as_str()).is_err()
        || decode_hex_32(command.session.permissions_digest.as_str()).is_err() {
        return Err(StoreError::Unavailable);
    }
    let mut event = command.event.duplicate();
    event.result_session = Some(command.session.duplicate());
    Ok(CreateSessionDecision::Created(event))
}

/// The database after a request to create a session.
pub open spec fn after_create_session(
    database: DatabaseModel,
    command: CreateSessionCommand,
    decision: CreateSessionDecision,
) -> DatabaseModel {
    match decision {
        CreateSessionDecision::BindingMismatch => database,
        CreateSessionDecision::Replayed(session) => DatabaseModel {
            sessions: database.sessions.insert(session@.session_id, session@),
            ..database
        },
        CreateSessionDecision::Created(event) => DatabaseModel {
            session_idempotency: database.session_idempotency.insert(
                command.storage_key@,
                command.idempotency@,
            ),
            policy_evaluations: database.policy_evaluations.insert(
                command.policy_evaluation@.policy_evaluation_id,
                command.policy_evaluation@,
            ),
            sessions: database.sessions.insert(command.session@.session_id, command.session@),
            session_events: database.session_events.push(event@),
            audit_logs: database.audit_logs.push(command.audit_entry@),
            ..database
        },
    }
}

/// Publishes a request to create a session, and answers it.
pub fn publish_create_session(
    database: &mut Database,
    command: &CreateSessionCommand,
    decision: CreateSessionDecision,
    written: &Result<(), PersistenceError>,
) -> (result: Result<CreateSessionOutcome, StoreError>)
    ensures
        result is Ok <==> write_failure(*written) is None,
        result is Err ==> Some(result->Err_0) == write_failure(*written),
        final(database)@ == state_after(
            *written,
            old(database)@,
            after_create_session(old(database)@, *command, decision),
        ),
        result is Ok ==> match decision {
            CreateSessionDecision::BindingMismatch => result->Ok_0 is BindingMismatch,
            CreateSessionDecision::Replayed(session) => result->Ok_0 is Replayed
                && result->Ok_0->Replayed_0@ == session@,
            CreateSessionDecision::Created(event) => result->Ok_0 is Created && result->Ok_0->Created_0@
                == command.session@,
        },
{
    check_written(written)?;
    let outcome = match decision {
        CreateSessionDecision::BindingMismatch => CreateSessionOutcome::BindingMismatch,
        CreateSessionDecision::Replayed(session) => {
            database.sessions.insert(session.session_id.clone(), session.duplicate());
            CreateSessionOutcome::Replayed(session)
        },
        CreateSessionDecision::Created(event) => {
            database.session_idempotency.insert(
                command.storage_key.clone(),
                command.idempotency.duplicate(),
            );
            database.policy_evaluations.insert(
                command.policy_evaluation.policy_evaluation_id.clone(),
                command.policy_evaluation.duplicate(),
            );
            database.sessions.insert(
                command.session.session_id.clone(),
                command.session.duplicate(),
            );
            append_log(&mut database.session_events, event);
            append_log(&mut database.audit_logs, command.audit_entry.duplicate());
            CreateSessionOutcome::Created(command.session.duplicate())
        },
    };
    Ok(outcome)
}

/// The status under which the response to a session request is recorded: created for a creation,
/// else a plain success.
pub fn recorded_response_status(operation: &str) -> (status: i16)
    ensures
        status == if operation@ == "create"@ {
            201i16
        } else {
            200i16
        },
{
    if text_eq(operation, "create") {
        201
    } else {
        200
    }
}

/// A request to move a session to another status, with the records that it stores.
#[derive(Debug, PartialEq, Eq)]
pub struct TransitionSessionCommand {
    pub storage_key: String,
    pub idempotency: IdempotencyRecord,
    /// The session as it is to be.
    pub session: Session,
    pub expected_status: SessionStatus,
    /// Whether the transition is one that the session may make.
    pub apply_allowed: bool,
    pub event: SessionEvent,
    pub audit_entry: AuditEntry,
}

/// How a request to move a session is answered.
#[derive(Debug, PartialEq, Eq)]
pub enum TransitionSessionOutcome {
    InvalidTransition,
    BindingMismatch,
    Replayed { session: Session, event_id: String },
    NotFound,
    StateConflict,
    Applied { session: Session, event_id: String },
}

/// Whether the records of a transition speak of one another.
pub open spec fn transition_fits(command: TransitionSessionCommand) -> bool {
    &&& command.event@.from_status == Some(command.expected_status)
    &&& command.event@.session_id == command.session@.session_id
    &&& command.event@.to_status == command.session@.status
    &&& command.idempotency@.session_id == command.session@.session_id
    &&& command.event@.actor_account_id == Some(command.idempotency@.account_id)
    &&& command.event@.actor_device_id == Some(command.idempotency@.device_id)
}

/// Whether the actor of a transition is a party of the session in the role that it claims.
/// `owns_device` says whether the account has the device.
pub open spec fn actor_is_party(
    command: TransitionSessionCommand,
    row: SessionRow,
    owns_device: bool,
) -> bool {
    let role = stored_role(command.event@.actor_role);
    ||| role == "controller"@ && row.controller_account_id@ == command.idempotency@.account_id
        && row.controller_device_id@ == command.idempotency@.device_id
    ||| role == "controlled"@ && row.controlled_device_id@ == command.idempotency@.device_id
        && owns_device
}

/// Whether a transition applies to the session as it is stored: it has the expected status, its
/// relay tokens can still be renewed where it ends, and the actor is a party of it.
pub open spec fn transition_applies(
    command: TransitionSessionCommand,
    row: SessionRow,
    owns_device: bool,
) -> bool {
    &&& row.status@ == session_status_text(command.expected_status)
    &&& terminal_session(command.session@.status) ==> row.relay_token_epoch < i64::MAX
    &&& actor_is_party(command, row, owns_device)
}

/// The row of a session with the columns in place that a transition writes, but for its status: at
/// the end its relay tokens are outdated and the time of the end is set.
pub open spec fn moving_row(command: TransitionSessionCommand, row: SessionRow) -> SessionRow {
    let terminal = terminal_session(command.session@.status);
    let ended = match command.session@.ended_at_epoch_millis {
        Some(time) => time,
        None => command.event@.created_at_epoch_millis,
    };
    let updated = stored_i64(command.session@.updated_at_epoch_millis);
    SessionRow {
        relay_token_epoch: if terminal {
            (row.relay_token_epoch + 1) as i64
        } else {
            row.relay_token_epoch
        },
        ended_at_epoch_millis: if terminal {
            Some(stored_i64(ended))
        } else {
            row.ended_at_epoch_millis
        },
        updated_at_epoch_millis: if row.updated_at_epoch_millis >= updated {
            row.updated_at_epoch_millis
        } else {
            updated
        },
        ..row
    }
}

/// The session after a transition.
pub open spec fn moved_session(command: TransitionSessionCommand, row: SessionRow) -> SessionModel {
    SessionModel { status: command.session@.status, ..session_row_model(moving_row(command, row)) }
}

/// What comes of a request to move a session.
#[derive(Debug, PartialEq, Eq)]
pub enum TransitionDecision {
    InvalidTransition,
    BindingMismatch,
    Replayed { session: Session, event_id: String },
    NotFound,
    StateConflict,
    Applied { session: Session, event: SessionEvent },
}

fn is_party(command: &TransitionSessionCommand, row: &SessionRow, owns_device: bool) -> (party:
    bool)
    ensures
        party == actor_is_party(*command, *row, owns_device),
{
    let role = role_name(&command.event.actor_role);
    (text_eq(role, "controller") && text_eq(
        row.controller_account_id.as_str(),
        command.idempotency.account_id.as_str(),
    ) && text_eq(
        row.controller_device_id.as_str(),
        command.idempotency.device_id.as_str(),
    )) || (text_eq(role, "controlled") && text_eq(
        row.controlled_device_id.as_str(),
        command.idempotency.device_id.as_str(),
    ) && owns_device)
}

fn records_fit(command: &TransitionSessionCommand) -> (fit: bool)
    ensures
        fit == transition_fits(*command),
{
    let session_id = command.session.session_id.as_str();
    let from_expected = match command.event.from_status {
        Some(status) => status == command.expected_status,
        None => false,
    };
    from_expected && text_eq(command.event.session_id.as_str(), session_id)
        && command.event.to_status == command.session.status && text_eq(
        command.idempotency.session_id.as_str(),
        session_id,
    ) && opt_text_is(&command.event.actor_account_id, command.idempotency.account_id.as_str())
        && opt_text_is(&command.event.actor_device_id, command.idempotency.device_id.as_str())
}

fn move_row(command: &TransitionSessionCommand, row: SessionRow) -> (moving: SessionRow)
    requires
        terminal_session(command.session@.status) ==> row.relay_token_epoch < i64::MAX,
    ensures
        moving == moving_row(*command, row),
{
    let mut moving = row;
    if is_terminal_session(command.session.status) {
        let ended: u64 = match command.session.ended_at_epoch_millis {
            Some(time) => time,
            None => command.event.created_at_epoch_millis,
        };
        moving.relay_token_epoch = moving.relay_token_epoch + 1;
        moving.ended_at_epoch_millis = Some(to_i64_lossless(ended));
    }
    let updated: i64 = to_i64_lossless(command.session.updated_at_epoch_millis);
    if updated > moving.updated_at_epoch_millis {
        moving.updated_at_epoch_millis = updated;
    }
    moving
}

/// Decides a request to move a session. `existing` is what was found under its idempotency key,
/// `stored` the session as its locked row holds it, and `owns_device` whether the account of the
/// actor has the device of the actor.
pub fn transition_session(
    command: &TransitionSessionCommand,
    existing: Option<ExistingSessionIdempotency>,
    replay: ReplayFacts,
    stored: Option<SessionRow>,
    owns_device: bool,
) -> (result: Result<TransitionDecision, StoreError>)
    ensures
        ({
            let replayed = replayed_session(existing->0.resource_id@, replay);
            let row = stored->0;
            if existing is None && !command.apply_allowed {
                result == Ok::<_, StoreError>(TransitionDecision::InvalidTransition)
            } else if !is_digest(command.idempotency@.body_hash) {
                result == Err::<TransitionDecision, _>(StoreError::Unavailable)
            } else if existing is Some {
                if !same_request(command.idempotency, existing->0) {
                    result == Ok::<_, StoreError>(TransitionDecision::BindingMismatch)
                } else if replayed is None {
                    result == Err::<TransitionDecision, _>(StoreError::Unavailable)
                } else {
                    &&& result is Ok && result->Ok_0 is Replayed
                    &&& Some(result->Ok_0->Replayed_session@) == replayed
                    &&& result->Ok_0->Replayed_event_id@ == replay.event->0.event_id@
                }
            } else if !transition_fits(*command) {
                result == Err::<TransitionDecision, _>(StoreError::Conflict)
            } else if stored is None {
                result == Ok::<_, StoreError>(TransitionDecision::NotFound)
            } else if !transition_applies(*command, row, owns_device) {
                result == Ok::<_, StoreError>(TransitionDecision::StateConflict)
            } else if session_row_problem(moving_row(*command, row)) is Some {
                result == Err::<TransitionDecision, _>(StoreError::Unavailable)
            } else {
                &&& result is Ok && result->Ok_0 is Applied
                &&& result->Ok_0->Applied_session@ == moved_session(*command, row)
                &&& result->Ok_0->Applied_event@ == event_with(
                    command.event@,
                    moved_session(*command, row),
                )
            }
        }),
{
    if existing.is_none() && !command.apply_allowed {
        return Ok(TransitionDecision::InvalidTransition);
    }
    let body_hash = body_hash_of(&command.idempotency)?;
    if let Some(existing) = existing {
        if !array_eq(&existing.body_hash, &body_hash) {
            assert(existing.body_hash@ != body_hash@) by {
                if existing.body_hash@ == body_hash@ {
                    assert(existing.body_hash =~= body_hash);
                }
            }
            return Ok(TransitionDecision::BindingMismatch);
        }
        let (session, event_id) = load_replay(existing.resource_id.as_str(), replay)?;
        return Ok(TransitionDecision::Replayed { session, event_id });
    }
    if !records_fit(command) {
        return Err(StoreError::Conflict);
    }
    let row = match stored {
        Some(row) => row,
        None => {
            return Ok(TransitionDecision::NotFound);
        },
    };
    let renewable = !is_terminal_session(command.session.status) || row.relay_token_epoch
        < i64::MAX;
    if !text_eq(row.status.as_str(), session_status_name(command.expected_status)) || !renewable
        || !is_party(command, &row, owns_device) {
        return Ok(TransitionDecision::StateConflict);
    }
    match session_from_row(move_row(command, row)) {
        Err(_) => Err(StoreError::Unavailable),
        Ok(moved) => {
            let mut session = moved;
            session.status = command.session.status;
            let mut event = command.event.duplicate();
            event.result_session = Some(session.duplicate());
            Ok(TransitionDecision::Applied { session, event })
        },
    }
}

/// The database after a request to move a session.
pub open spec fn after_transition(
    database: DatabaseModel,
    command: TransitionSessionCommand,
    decision: TransitionDecision,
) -> DatabaseModel {
    match decision {
        TransitionDecision::Replayed { session, event_id } => DatabaseModel {
            sessions: database.sessions.insert(session@.session_id, session@),
            ..database
        },
        TransitionDecision::Applied { session, event } => DatabaseModel {
            session_idempotency: database.session_idempotency.insert(
                command.storage_key@,
                command.idempotency@,
            ),
            sessions: database.sessions.insert(session@.session_id, session@),
            session_events: database.session_events.push(event@),
            audit_logs: database.audit_logs.push(command.audit_entry@),
            ..database
        },
        _ => database,
    }
}

/// Publishes a request to move a session, and answers it.
pub fn publish_transition(
    database: &mut Database,
    command: &TransitionSessionCommand,
    decision: TransitionDecision,
    written: &Result<(), PersistenceError>,
) -> (result: Result<TransitionSessionOutcome, StoreError>)
    ensures
        result is Ok <==> write_failure(*written) is None,
        result is Err ==> Some(result->Err_0) == write_failure(*written),
        final(database)@ == state_after(
            *written,
            old(database)@,
            after_transition(old(database)@, *command, decision),
        ),
        result is Ok ==> match decision {
            TransitionDecision::InvalidTransition => result->Ok_0 is InvalidTransition,
            TransitionDecision::BindingMismatch => result->Ok_0 is BindingMismatch,
            TransitionDecision::NotFound => result->Ok_0 is NotFound,
            TransitionDecision::StateConflict => result->Ok_0 is StateConflict,
            TransitionDecision::Replayed { session, event_id } => result->Ok_0 is Replayed
                && result->Ok_0->Replayed_session@ == session@ && result->Ok_0->Replayed_event_id@
                == event_id@,
            TransitionDecision::Applied { session, event } => result->Ok_0 is Applied
                && result->Ok_0->Applied_session@ == session@ && result->Ok_0->Applied_event_id@
                == command.event@.event_id,
        },
{
    check_written(written)?;
    let outcome = match decision {
        TransitionDecision::InvalidTransition => TransitionSessionOutcome::InvalidTransition,
        TransitionDecision::BindingMismatch => TransitionSessionOutcome::BindingMismatch,
        TransitionDecision::NotFound => TransitionSessionOutcome::NotFound,
        TransitionDecision::StateConflict => TransitionSessionOutcome::StateConflict,
        TransitionDecision::Replayed { session, event_id } => {
            database.sessions.insert(session.session_id.clone(), session.duplicate());
            TransitionSessionOutcome::Replayed { session, event_id }
        },
        TransitionDecision::Applied { session, event } => {
            database.session_idempotency.insert(
                command.storage_key.clone(),
                command.idempotency.duplicate(),
            );
            database.sessions.insert(session.session_id.clone(), session.duplicate());
            append_log(&mut database.session_events, event);
            append_log(&mut database.audit_logs, command.audit_entry.duplicate());
            TransitionSessionOutcome::Applied {
                session,
                event_id: command.event.event_id.clone(),
            }
        },
    };
    Ok(outcome)
}

/// The end of a session outdates its relay tokens and gives it a time of ending; any other
/// transition leaves both as they are.
pub proof fn an_ended_session_outdates_its_relay_tokens(
    command: TransitionSessionCommand,
    row: SessionRow,
)
    requires
        session_row_problem(row) is None,
        row.relay_token_epoch < i64::MAX,
    ensures
        ({
            let stored = session_row_model(row);
            let moved = moved_session(command, row);
            &&& moved.status == command.session@.status
            &&& terminal_session(moved.status) ==> moved.relay_token_epoch
                == stored.relay_token_epoch + 1 && moved.ended_at_epoch_millis is Some
            &&& !terminal_session(moved.status) ==> moved.relay_token_epoch
                == stored.relay_token_epoch && moved.ended_at_epoch_millis
                == stored.ended_at_epoch_millis
            &&& moved.updated_at_epoch_millis >= stored.updated_at_epoch_millis
        }),
{
}

/// A request that was carried out once is answered the same way when it comes again under its
/// idempotency key: with the session that its event recorded, whatever became of the session.
pub proof fn a_repeated_request_gets_the_first_answer(
    event: SessionEventModel,
    session: SessionModel,
    facts: ReplayFacts,
)
    requires
        facts.event is Some,
        facts.event->0.result_session is Some,
        facts.event->0.result_session->0 is Ok,
        event_with(event, session).result_session == Some(
            facts.event->0.result_session->0->Ok_0@,
        ),
    ensures
        replayed_session(session.session_id, facts) == Some(session),
{
}

} // verus!
