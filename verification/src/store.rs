use crate::audit::AuditEntryModel;
use vstd::prelude::*;

verus! {

/// Why an operation on the store did not take place.
#[derive(Debug, Clone, Copy, PartialEq, Eq, Structural)]
pub enum StoreError {
    /// What the operation rests on has changed or was already used.
    Conflict,
    /// The store could not carry the operation out, or holds a record that cannot be read.
    Unavailable,
}

/// Why records could not be written.
#[derive(Debug, PartialEq, Eq)]
pub enum PersistenceError {
    /// The database refused: because a key is taken, or for any other cause.
    Database { key_taken: bool },
    /// The records are not ones that may be written.
    Data(String),
    /// A row is not there any more as it was found.
    Stale,
}

/// What a refused write means where a key may be taken by another writer.
pub open spec fn failure_of(error: PersistenceError) -> StoreError {
    match error {
        PersistenceError::Database { key_taken } => if key_taken {
            StoreError::Conflict
        } else {
            StoreError::Unavailable
        },
        PersistenceError::Data(_) => StoreError::Unavailable,
        PersistenceError::Stale => StoreError::Conflict,
    }
}

/// What a refused write means where a key may be taken by another writer.
pub fn conflict_or_persistence_failure(error: &PersistenceError) -> (failure: StoreError)
    ensures
        failure == failure_of(*error),
{
    match error {
        PersistenceError::Database { key_taken } => if *key_taken {
            StoreError::Conflict
        } else {
            StoreError::Unavailable
        },
        PersistenceError::Data(_) => StoreError::Unavailable,
        PersistenceError::Stale => StoreError::Conflict,
    }
}

/// How an operation fails whose records were to be written and committed, if it does.
pub open spec fn write_failure(written: Result<(), PersistenceError>) -> Option<StoreError> {
    match written {
        Ok(_) => None,
        Err(error) => Some(failure_of(error)),
    }
}

/// The state after an operation: the new one where its records were written and committed, else the
/// one before it.
pub open spec fn state_after<S>(written: Result<(), PersistenceError>, before: S, after: S) -> S {
    if write_failure(written) is None {
        after
    } else {
        before
    }
}

/// The answer to an operation, where its records were written and committed, else the failure.
pub open spec fn answer_after<T>(
    written: Result<(), PersistenceError>,
    answer: Result<T, StoreError>,
) -> Result<T, StoreError> {
    match write_failure(written) {
        None => answer,
        Some(failure) => Err(failure),
    }
}

/// Fails where records were not written.
pub fn check_written(written: &Result<(), PersistenceError>) -> (result: Result<(), StoreError>)
    ensures
        result == answer_after(*written, Ok(())),
{
    match written {
        Ok(_) => Ok(()),
        Err(error) => Err(conflict_or_persistence_failure(error)),
    }
}

/// Whether an audit entry of a list has the name of one that is logged already.
pub open spec fn audit_id_taken(log: Seq<AuditEntryModel>, entries: Seq<AuditEntryModel>) -> bool {
    exists|i: int, j: int|
        0 <= i < log.len() && 0 <= j < entries.len() && (#[trigger] log[i]).audit_id == (
        #[trigger] entries[j]).audit_id
}

/// Whether the store refuses a second audit entry under one name: a write with such an entry in it
/// fails, because the key is taken.
pub open spec fn audit_ids_unique(
    log: Seq<AuditEntryModel>,
    entries: Seq<AuditEntryModel>,
    written: Result<(), PersistenceError>,
) -> bool {
    audit_id_taken(log, entries) ==> written is Err && written->Err_0 == (
    PersistenceError::Database { key_taken: true })
}

/// An operation that is to log an entry under a name that is taken conflicts and changes nothing,
/// whatever else it was to write.
pub proof fn a_taken_audit_id_changes_nothing<S, T>(
    log: Seq<AuditEntryModel>,
    entries: Seq<AuditEntryModel>,
    written: Result<(), PersistenceError>,
    before: S,
    after: S,
    answer: Result<T, StoreError>,
)
    requires
        audit_ids_unique(log, entries, written),
        audit_id_taken(log, entries),
    ensures
        state_after(written, before, after) == before,
        answer_after(written, answer) == Err::<T, _>(StoreError::Conflict),
{
}

} // verus!
