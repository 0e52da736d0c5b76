//! The orchestration-layer error taxonomy.
//!
//! Every failure carries its typed cause, assigned at the point the failure
//! originates; no error is ever reconstructed from message text.

use vstd::prelude::*;

use crate::db::DatabaseError;
use crate::file_access::FileSystemError;
use crate::validation::ValidationError;

verus! {

/// Errors surfaced by the session orchestrator.
#[derive(Clone, Copy, Debug, PartialEq, Eq, Structural)]
pub enum WorkoutError {
    /// A database-layer failure.
    Database(DatabaseError),
    /// A storage-layer failure.
    FileSystem(FileSystemError),
    /// `setup_database` was re-entered while already initializing.
    InitializationInProgress,
    /// `setup_database` was called after initialization had completed.
    AlreadyInitialized,
    /// The database is not initialized.
    NotInitialized,
    /// No workout session is active.
    NoActiveSession,
    /// The active session has no database row yet.
    SessionNotPersisted,
    /// The logged set failed validation.
    InvalidSetData(ValidationError),
    /// Storing the exercise configuration failed, with the cause.
    SaveExerciseError(DatabaseError),
    /// Creating the session row failed, with the cause.
    CreateSessionError(DatabaseError),
    /// Inserting the set row failed, with the cause.
    InsertSetError(DatabaseError),
    /// Marking the session completed failed, with the cause.
    CompleteSessionError(DatabaseError),
}

} // verus!
