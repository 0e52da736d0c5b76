//! The session orchestrator: application readiness, workout sessions,
//! progression prediction, and debounced auto-save.
//!
//! `WorkoutState` is the single owning context for the current session, the
//! database, the storage backend and the readiness state machine. The
//! manager functions say exactly which state they leave behind for every
//! outcome, including every failure.

use vstd::prelude::*;

use crate::db::{
    empty_content, spec_exercise_row, spec_set_row, Database, DatabaseError, MAX_ROW_ID,
};
use crate::error::WorkoutError;
use crate::file_access::{validate_image_format, FileSystemError};
use crate::image::{parse_image, spec_image, SessionRowV};
use crate::models::{
    CompletedSet, ExerciseMetadata, PredictedParameters, SetType, SetTypeConfig, WorkoutSession,
};
use crate::storage::StorageBackend;
use crate::validation::{spec_validate_completed_set, validate_completed_set};

verus! {

/// Repetitions suggested for the first set of a weighted exercise.
pub const DEFAULT_WEIGHTED_REPS: u32 = 8;

/// Repetitions suggested for the first set of a bodyweight exercise.
pub const DEFAULT_BODYWEIGHT_REPS: u32 = 10;

/// RPE suggested for a first set, in tenths (7.0).
pub const DEFAULT_RPE: u32 = 70;

/// Last-set RPE at or above which the suggested RPE is lowered (8.0).
pub const RPE_THRESHOLD_HIGH: u32 = 80;

/// Last-set RPE below which the suggested weight grows by one increment (7.0).
pub const RPE_THRESHOLD_LOW: u32 = 70;

/// How much the suggested RPE is lowered, in tenths (0.5).
pub const RPE_REDUCTION: u32 = 5;

/// Floor for the suggested RPE, in tenths (6.0).
pub const RPE_MINIMUM: u32 = 60;

/// Minimum interval between two auto-saves, in milliseconds.
pub const AUTO_SAVE_INTERVAL_MS: u64 = 5000;

/// The application's readiness lifecycle.
#[derive(Clone, Copy, Debug, PartialEq, Eq, Structural, Default)]
pub enum InitializationState {
    /// Nothing has been set up yet.
    #[default]
    NotInitialized,
    /// A setup pass is running; re-entry is rejected.
    Initializing,
    /// Waiting for a gesture-bound file selection.
    SelectingFile,
    /// The database is ready for use.
    Ready,
    /// Setup failed; the cause is stored and a retry must restart.
    Error,
}

/// The single owning context: readiness, session, database, storage, and
/// the bookkeeping for debounced auto-save.
pub struct WorkoutState<S> {
    /// Where the readiness lifecycle stands.
    pub initialization_state: InitializationState,
    /// The in-progress workout session, if any.
    pub current_session: Option<WorkoutSession>,
    /// The failure that moved the state machine to `Error`, if any.
    pub error: Option<WorkoutError>,
    /// A non-fatal auto-save failure surfaced as a warning, if any.
    pub save_error: Option<WorkoutError>,
    /// The database, once initialized.
    pub database: Option<Database>,
    /// The storage backend, once established.
    pub file_manager: Option<S>,
    /// Milliseconds timestamp of the last successful debounce pass.
    pub last_save_time: u64,
}

impl<S> WorkoutState<S> {
    /// Every database held in the context satisfies its invariant.
    pub open spec fn wf(&self) -> bool {
        match self.database {
            Some(db) => db.inv(),
            None => true,
        }
    }

    /// A fresh context: nothing initialized, nothing stored.
    pub fn new() -> (s: WorkoutState<S>)
        ensures
            s.wf(),
            s.initialization_state == InitializationState::NotInitialized,
            s.current_session is None,
            s.error is None,
            s.save_error is None,
            s.database is None,
            s.file_manager is None,
            s.last_save_time == 0,
    {
        WorkoutState {
            initialization_state: InitializationState::NotInitialized,
            current_session: None,
            error: None,
            save_error: None,
            database: None,
            file_manager: None,
            last_save_time: 0,
        }
    }

    /// Where the readiness lifecycle stands.
    pub fn initialization_state(&self) -> (r: InitializationState)
        ensures
            r == self.initialization_state,
    {
        self.initialization_state
    }

    /// The in-progress workout session, if any.
    pub fn current_session(&self) -> (r: &Option<WorkoutSession>)
        ensures
            *r == self.current_session,
    {
        &self.current_session
    }

    /// The failure that moved the state machine to `Error`, if any.
    pub fn error(&self) -> (r: Option<WorkoutError>)
        ensures
            r == self.error,
    {
        self.error
    }

    /// A non-fatal auto-save failure surfaced as a warning, if any.
    pub fn save_error(&self) -> (r: Option<WorkoutError>)
        ensures
            r == self.save_error,
    {
        self.save_error
    }

    /// Replaces the readiness state.
    pub fn set_initialization_state(&mut self, state: InitializationState)
        ensures
            *final (self) == (WorkoutState { initialization_state: state, ..*old(self) }),
    {
        self.initialization_state = state;
    }

    /// Replaces the current session.
    pub fn set_current_session(&mut self, session: Option<WorkoutSession>)
        ensures
            *final (self) == (WorkoutState { current_session: session, ..*old(self) }),
    {
        self.current_session = session;
    }

    /// Replaces the stored failure.
    pub fn set_error(&mut self, error: Option<WorkoutError>)
        ensures
            *final (self) == (WorkoutState { error, ..*old(self) }),
    {
        self.error = error;
    }

    /// Replaces the surfaced auto-save warning.
    pub fn set_save_error(&mut self, error: Option<WorkoutError>)
        ensures
            *final (self) == (WorkoutState { save_error: error, ..*old(self) }),
    {
        self.save_error = error;
    }

    /// Stores the database.
    pub fn set_database(&mut self, database: Database)
        requires
            database.inv(),
        ensures
            *final (self) == (WorkoutState { database: Some(database), ..*old(self) }),
    {
        self.database = Some(database);
    }

    /// Stores the storage backend.
    pub fn set_file_manager(&mut self, file_manager: S)
        ensures
            *final (self) == (WorkoutState { file_manager: Some(file_manager), ..*old(self) }),
    {
        self.file_manager = Some(file_manager);
    }

    /// The database, once initialized.
    pub fn database(&self) -> (r: &Option<Database>)
        ensures
            *r == self.database,
    {
        &self.database
    }

    /// The storage backend, once established.
    pub fn file_manager(&self) -> (r: &Option<S>)
        ensures
            *r == self.file_manager,
    {
        &self.file_manager
    }

    /// Milliseconds timestamp of the last successful debounce pass.
    pub fn last_save_time(&self) -> (r: u64)
        ensures
            r == self.last_save_time,
    {
        self.last_save_time
    }

    /// Replaces the last-save timestamp.
    pub fn set_last_save_time(&mut self, time: u64)
        ensures
            *final (self) == (WorkoutState { last_save_time: time, ..*old(self) }),
    {
        self.last_save_time = time;
    }
}

/// The parameters suggested before any set has been logged: a weighted
/// exercise starts at its minimum weight for eight repetitions, a
/// bodyweight exercise at ten, both at RPE 7.0.
pub open spec fn spec_initial_predictions(config: SetTypeConfig) -> PredictedParameters {
    match config {
        SetTypeConfig::Weighted { min_weight, increment } => PredictedParameters {
            weight: Some(min_weight),
            reps: DEFAULT_WEIGHTED_REPS,
            rpe: DEFAULT_RPE,
        },
        SetTypeConfig::Bodyweight => PredictedParameters {
            weight: None,
            reps: DEFAULT_BODYWEIGHT_REPS,
            rpe: DEFAULT_RPE,
        },
    }
}

/// The suggested RPE after a set: unchanged below 8.0, otherwise lowered
/// by half a point but never below 6.0.
pub open spec fn spec_next_rpe(last_rpe: u32) -> u32 {
    if last_rpe < RPE_THRESHOLD_HIGH {
        last_rpe
    } else if last_rpe - RPE_REDUCTION >= RPE_MINIMUM {
        (last_rpe - RPE_REDUCTION) as u32
    } else {
        RPE_MINIMUM
    }
}

/// The suggested weight after a weighted set: one increment more when the
/// last set felt easy (RPE below 7.0), otherwise held. A sum that would
/// not fit saturates.
pub open spec fn spec_next_weight(weight: u32, increment: u32, last_rpe: u32) -> u32 {
    if last_rpe < RPE_THRESHOLD_LOW {
        if weight + increment <= u32::MAX {
            (weight + increment) as u32
        } else {
            u32::MAX
        }
    } else {
        weight
    }
}

/// The parameters suggested after the last logged set: repetitions carry
/// forward, the RPE follows `spec_next_rpe`, and the weight follows
/// `spec_next_weight` for a weighted set of a weighted exercise.
pub open spec fn spec_next_predictions(session: WorkoutSession) -> PredictedParameters {
    if session.completed_sets@.len() == 0 {
        spec_initial_predictions(session.exercise.set_type_config)
    } else {
        let last = session.completed_sets@.last();
        match (last.set_type, session.exercise.set_type_config) {
            (
                SetType::Weighted { weight },
                SetTypeConfig::Weighted { min_weight, increment },
            ) => PredictedParameters {
                weight: Some(spec_next_weight(weight, increment, last.rpe)),
                reps: last.reps,
                rpe: spec_next_rpe(last.rpe),
            },
            (SetType::Bodyweight, _) => PredictedParameters {
                weight: None,
                reps: last.reps,
                rpe: spec_next_rpe(last.rpe),
            },
            _ => spec_initial_predictions(session.exercise.set_type_config),
        }
    }
}

/// Orchestrates the use cases on a `WorkoutState`.
pub struct WorkoutStateManager;

impl WorkoutStateManager {
    /// Computes the parameters suggested before any set has been logged.
    pub fn calculate_initial_predictions(exercise: &ExerciseMetadata) -> (r: PredictedParameters)
        ensures
            r == spec_initial_predictions(exercise.set_type_config),
    {
        match exercise.set_type_config {
            SetTypeConfig::Weighted { min_weight, increment } => PredictedParameters {
                weight: Some(min_weight),
                reps: DEFAULT_WEIGHTED_REPS,
                rpe: DEFAULT_RPE,
            },
            SetTypeConfig::Bodyweight => PredictedParameters {
                weight: None,
                reps: DEFAULT_BODYWEIGHT_REPS,
                rpe: DEFAULT_RPE,
            },
        }
    }

    /// Computes the parameters suggested after the session's last set.
    pub fn calculate_next_predictions(session: &WorkoutSession) -> (r: PredictedParameters)
        ensures
            r == spec_next_predictions(*session),
    {
        if session.completed_sets.len() == 0 {
            return Self::calculate_initial_predictions(&session.exercise);
        }
        let last = session.completed_sets[session.completed_sets.len() - 1];
        let predicted_rpe = if last.rpe < RPE_THRESHOLD_HIGH {
            last.rpe
        } else if last.rpe - RPE_REDUCTION >= RPE_MINIMUM {
            last.rpe - RPE_REDUCTION
        } else {
            RPE_MINIMUM
        };
        match (last.set_type, session.exercise.set_type_config) {
            (SetType::Weighted { weight }, SetTypeConfig::Weighted { min_weight, increment }) => {
                let predicted_weight = if last.rpe < RPE_THRESHOLD_LOW {
                    if increment <= u32::MAX - weight {
                        weight + increment
                    } else {
                        u32::MAX
                    }
                } else {
                    weight
                };
                PredictedParameters { weight: Some(predicted_weight), reps: last.reps, rpe: predicted_rpe }
            },
            (SetType::Bodyweight, _) => PredictedParameters {
                weight: None,
                reps: last.reps,
                rpe: predicted_rpe,
            },
            _ => Self::calculate_initial_predictions(&session.exercise),
        }
    }

    /// Records a failure and moves the state machine to `Error`.
    pub fn handle_error<S: StorageBackend>(state: &mut WorkoutState<S>, error: WorkoutError)
        ensures
            *final (state) == (WorkoutState {
                initialization_state: InitializationState::Error,
                error: Some(error),
                ..*old(state)
            }),
    {
        state.error = Some(error);
        state.initialization_state = InitializationState::Error;
    }

    /// Caller-initiated retry: clears the stored failure and restarts the
    /// lifecycle from `NotInitialized`.
    pub fn retry<S: StorageBackend>(state: &mut WorkoutState<S>)
        ensures
            *final (state) == (WorkoutState {
                initialization_state: InitializationState::NotInitialized,
                error: None,
                ..*old(state)
            }),
    {
        state.error = None;
        state.initialization_state = InitializationState::NotInitialized;
    }

    /// Exports the whole database and writes it to the storage backend.
    fn save_database<S: StorageBackend>(state: &mut WorkoutState<S>) -> (r: Result<
        (),
        WorkoutError,
    >)
        requires
            old(state).wf(),
        ensures
            final (state).wf(),
            final (state).initialization_state == old(state).initialization_state,
            final (state).current_session == old(state).current_session,
            final (state).error == old(state).error,
            final (state).save_error == old(state).save_error,
            final (state).database == old(state).database,
            final (state).last_save_time == old(state).last_save_time,
            old(state).database is None ==> r == Err::<(), WorkoutError>(
                WorkoutError::NotInitialized,
            ) && *final (state) == *old(state),
            old(state).database is Some && old(state).file_manager is None ==> r == Err::<
                (),
                WorkoutError,
            >(WorkoutError::FileSystem(FileSystemError::NoHandle)) && *final (state) == *old(state),
            (old(state).database matches Some(db) && old(state).file_manager is Some
                && !db.is_initialized()) ==> r == Err::<(), WorkoutError>(
                WorkoutError::Database(DatabaseError::NotInitialized),
            ) && *final (state) == *old(state),
            old(state).database matches Some(db) && old(state).file_manager is Some
                && db.is_initialized() ==> ({
                let db = old(state).database->Some_0;
                let fm = old(state).file_manager->Some_0;
                &&& final (state).file_manager matches Some(fm2)
                &&& (r is Ok ==> fm2.stored() == Some(spec_image(db.content())) && fm2.ready()
                    == fm.ready() && fm2.fallback() == fm.fallback())
                &&& (r is Err ==> fm2 == fm && (r matches Err(WorkoutError::FileSystem(_))))
            }),
    {
        if state.database.is_none() {
            return Err(WorkoutError::NotInitialized);
        }
        if state.file_manager.is_none() {
            return Err(WorkoutError::FileSystem(FileSystemError::NoHandle));
        }
        let data = match &state.database {
            Some(db) => match db.export() {
                Ok(d) => d,
                Err(e) => {
                    return Err(WorkoutError::Database(e));
                },
            },
            None => {
                return Err(WorkoutError::NotInitialized);
            },
        };
        match &mut state.file_manager {
            Some(fm) => match fm.write_file(data.as_slice()) {
                Ok(()) => Ok(()),
                Err(e) => Err(WorkoutError::FileSystem(e)),
            },
            None => Err(WorkoutError::FileSystem(FileSystemError::NoHandle)),
        }
    }

    /// Sets the application up: finds cached storage, reads it, and brings
    /// the database to `Ready` — or hands over to file selection.
    ///
    /// Re-entry while `Initializing` fails fast with
    /// `InitializationInProgress` and changes nothing; a call while `Ready`
    /// succeeds as a no-op. Otherwise the lifecycle enters `Initializing`;
    /// with no cached storage it stops at `SelectingFile` (a file picker
    /// needs a user gesture, which this path does not have), keeping the
    /// consulted backend — which just reported that it is not ready — in
    /// the context. Any failure lands in `Error` with its typed cause
    /// stored, and only an explicit retry restarts the lifecycle. A cached
    /// store whose content fails the format check is cleared, so a retry
    /// cannot loop on the same bad handle.
    pub fn setup_database<S: StorageBackend>(state: &mut WorkoutState<S>) -> (r: Result<
        (),
        WorkoutError,
    >)
        requires
            old(state).wf(),
        ensures
            final (state).wf(),
            final (state).current_session == old(state).current_session,
            final (state).save_error == old(state).save_error,
            final (state).last_save_time == old(state).last_save_time,
            r is Ok ==> final (state).error == old(state).error,
            old(state).initialization_state == InitializationState::Initializing ==> r == Err::<
                (),
                WorkoutError,
            >(WorkoutError::InitializationInProgress) && *final (state) == *old(state),
            old(state).initialization_state == InitializationState::Ready ==> r is Ok && *final (
            state) == *old(state),
            (old(state).initialization_state != InitializationState::Initializing && old(
            state).initialization_state != InitializationState::Ready) ==> ({
                &&& (r is Ok <==> final (state).initialization_state
                    == InitializationState::SelectingFile || final (state).initialization_state
                    == InitializationState::Ready)
                &&& (final (state).initialization_state == InitializationState::SelectingFile
                    ==> ({
                    &&& final (state).database == old(state).database
                    &&& final (state).file_manager matches Some(fm2)
                    &&& !fm2.ready()
                }))
                &&& (final (state).initialization_state == InitializationState::Ready ==> ({
                    &&& final (state).database matches Some(db)
                    &&& db.is_initialized()
                    &&& final (state).file_manager matches Some(fm)
                    &&& fm.ready()
                    &&& (match fm.stored() {
                        None => db.content() == empty_content(),
                        Some(bytes) => if bytes.len() == 0 {
                            db.content() == empty_content()
                        } else {
                            parse_image(bytes) == Some(db.content())
                        },
                    })
                }))
                &&& (r matches Err(e) ==> final (state).initialization_state
                    == InitializationState::Error && final (state).error == Some(e) && final (
                state).database == old(state).database && ((e matches WorkoutError::FileSystem(_))
                    || (e matches WorkoutError::Database(_))))
            }),
    {
        match state.initialization_state {
            InitializationState::Initializing => {
                return Err(WorkoutError::InitializationInProgress);
            },
            InitializationState::Ready => {
                return Ok(());
            },
            _ => {},
        }
        state.initialization_state = InitializationState::Initializing;
        let mut fm = S::new();
        let has_cached = match fm.check_cached_handle() {
            Ok(b) => b,
            Err(e) => {
                Self::handle_error(state, WorkoutError::FileSystem(e));
                return Err(WorkoutError::FileSystem(e));
            },
        };
        if !has_cached {
            state.file_manager = Some(fm);
            state.initialization_state = InitializationState::SelectingFile;
            return Ok(());
        }
        let file_data = if fm.has_handle() {
            let data = match fm.read_file() {
                Ok(d) => d,
                Err(e) => {
                    state.file_manager = Some(fm);
                    Self::handle_error(state, WorkoutError::FileSystem(e));
                    return Err(WorkoutError::FileSystem(e));
                },
            };
            match validate_image_format(&data) {
                Ok(()) => {},
                Err(e) => {
                    let _ = fm.clear_handle();
                    state.file_manager = Some(fm);
                    Self::handle_error(state, WorkoutError::FileSystem(e));
                    return Err(WorkoutError::FileSystem(e));
                },
            }
            if data.is_empty() {
                None
            } else {
                Some(data)
            }
        } else {
            None
        };
        let mut database = Database::new();
        match database.init(file_data) {
            Ok(()) => {},
            Err(e) => {
                state.file_manager = Some(fm);
                Self::handle_error(state, WorkoutError::Database(e));
                return Err(WorkoutError::Database(e));
            },
        }
        state.database = Some(database);
        state.file_manager = Some(fm);
        state.initialization_state = InitializationState::Ready;
        Ok(())
    }

    /// Gesture-bound path out of `SelectingFile`: creates a brand-new empty
    /// backing store and initializes a fresh database over it.
    ///
    /// A picker-stage failure (no gesture, consent refused, dialog
    /// dismissed) leaves the whole context untouched, so the lifecycle
    /// stays where it was.
    pub fn create_database_file<S: StorageBackend>(state: &mut WorkoutState<S>) -> (r: Result<
        (),
        WorkoutError,
    >)
        requires
            old(state).wf(),
        ensures
            final (state).wf(),
            final (state).current_session == old(state).current_session,
            final (state).save_error == old(state).save_error,
            final (state).last_save_time == old(state).last_save_time,
            r is Err ==> *final (state) == *old(state) && (r matches Err(WorkoutError::FileSystem(
                _,
            ))),
            r is Ok ==> ({
                &&& final (state).initialization_state == InitializationState::Ready
                &&& final (state).error == old(state).error
                &&& final (state).database matches Some(db2)
                &&& db2.is_initialized()
                &&& db2.content() == empty_content()
                &&& final (state).file_manager matches Some(fm2)
                &&& fm2.ready()
                &&& fm2.stored() == Some(Seq::<u8>::empty())
            }),
    {
        let mut fm = S::new();
        match fm.create_new_file() {
            Ok(()) => {},
            Err(e) => {
                return Err(WorkoutError::FileSystem(e));
            },
        }
        state.initialization_state = InitializationState::Initializing;
        let mut database = Database::new();
        match database.init(None) {
            Ok(()) => {},
            Err(e) => {
                return Err(WorkoutError::Database(e));
            },
        }
        state.database = Some(database);
        state.file_manager = Some(fm);
        state.initialization_state = InitializationState::Ready;
        Ok(())
    }

    /// Gesture-bound path out of `SelectingFile`: lets the user pick an
    /// existing store, then runs the same read-and-initialize sequence as
    /// `setup_database`.
    ///
    /// A picker-stage failure leaves the whole context untouched, so the
    /// lifecycle stays where it was. A failure after the pick — unreadable
    /// content, a bad signature, an image that does not parse — moves the
    /// lifecycle to `Error` with the cause stored; content with a bad
    /// signature also clears the picked reference.
    pub fn open_database_file<S: StorageBackend>(state: &mut WorkoutState<S>) -> (r: Result<
        (),
        WorkoutError,
    >)
        requires
            old(state).wf(),
        ensures
            final (state).wf(),
            final (state).current_session == old(state).current_session,
            final (state).save_error == old(state).save_error,
            final (state).last_save_time == old(state).last_save_time,
            r matches Err(e) ==> (*final (state) == *old(state)) || (final (
            state).initialization_state == InitializationState::Error && final (state).error
                == Some(e) && final (state).database == old(state).database),
            r is Ok ==> ({
                &&& final (state).initialization_state == InitializationState::Ready
                &&& final (state).error == old(state).error
                &&& final (state).database matches Some(db2)
                &&& db2.is_initialized()
                &&& final (state).file_manager matches Some(fm2)
                &&& fm2.ready()
                &&& (match fm2.stored() {
                    None => db2.content() == empty_content(),
                    Some(bytes) => if bytes.len() == 0 {
                        db2.content() == empty_content()
                    } else {
                        parse_image(bytes) == Some(db2.content())
                    },
                })
            }),
    {
        let mut fm = S::new();
        match fm.prompt_for_file() {
            Ok(()) => {},
            Err(e) => {
                return Err(WorkoutError::FileSystem(e));
            },
        }
        state.initialization_state = InitializationState::Initializing;
        let file_data = if fm.has_handle() {
            let data = match fm.read_file() {
                Ok(d) => d,
                Err(e) => {
                    Self::handle_error(state, WorkoutError::FileSystem(e));
                    return Err(WorkoutError::FileSystem(e));
                },
            };
            match validate_image_format(&data) {
                Ok(()) => {},
                Err(e) => {
                    let _ = fm.clear_handle();
                    Self::handle_error(state, WorkoutError::FileSystem(e));
                    return Err(WorkoutError::FileSystem(e));
                },
            }
            if data.is_empty() {
                None
            } else {
                Some(data)
            }
        } else {
            None
        };
        let mut database = Database::new();
        match database.init(file_data) {
            Ok(()) => {},
            Err(e) => {
                Self::handle_error(state, WorkoutError::Database(e));
                return Err(WorkoutError::Database(e));
            },
        }
        state.database = Some(database);
        state.file_manager = Some(fm);
        state.initialization_state = InitializationState::Ready;
        Ok(())
    }

    /// Starts a session: stores the exercise's configuration (last write
    /// wins), creates the session row, and installs the new in-memory
    /// session with its initial predictions.
    pub fn start_session<S: StorageBackend>(
        state: &mut WorkoutState<S>,
        exercise: ExerciseMetadata,
        now_ms: u64,
    ) -> (r: Result<(), WorkoutError>)
        requires
            old(state).wf(),
        ensures
            final (state).wf(),
            final (state).initialization_state == old(state).initialization_state,
            final (state).error == old(state).error,
            final (state).save_error == old(state).save_error,
            final (state).file_manager == old(state).file_manager,
            final (state).last_save_time == old(state).last_save_time,
            old(state).database is None ==> r == Err::<(), WorkoutError>(
                WorkoutError::NotInitialized,
            ) && *final (state) == *old(state),
            old(state).database matches Some(db) && !db.is_initialized() ==> r == Err::<
                (),
                WorkoutError,
            >(WorkoutError::SaveExerciseError(DatabaseError::NotInitialized)) && *final (state)
                == *old(state),
            old(state).database matches Some(db) && db.is_initialized() ==> ({
                let db = old(state).database->Some_0;
                &&& final (state).database matches Some(db2)
                &&& db2.is_initialized()
                &&& (forall|k: int|
                    0 <= k < db.content().exercises.len() && (#[trigger] db.content(
                    ).exercises[k]).name == exercise.name@ ==> db2.content().exercises
                        == db.content().exercises.remove(k).push(spec_exercise_row(exercise)))
                &&& ((forall|k: int|
                    0 <= k < db.content().exercises.len() ==> (#[trigger] db.content(
                    ).exercises[k]).name != exercise.name@) ==> db2.content().exercises
                    == db.content().exercises.push(spec_exercise_row(exercise)))
                &&& db2.content().sets == db.content().sets
                &&& (r is Ok <==> db.content().sessions.len() < MAX_ROW_ID)
                &&& (r is Ok ==> ({
                    &&& db2.content().sessions == db.content().sessions.push(
                        (SessionRowV {
                            id: (db.content().sessions.len() + 1) as i64,
                            exercise_name: exercise.name@,
                            started_at: now_ms,
                            completed_at: None,
                        }),
                    )
                    &&& final (state).current_session matches Some(s2)
                    &&& s2.session_id == Some((db.content().sessions.len() + 1) as i64)
                    &&& s2.exercise == exercise
                    &&& s2.completed_sets@ == Seq::<CompletedSet>::empty()
                    &&& s2.predicted == spec_initial_predictions(exercise.set_type_config)
                }))
                &&& (r is Err ==> r == Err::<(), WorkoutError>(
                    WorkoutError::CreateSessionError(DatabaseError::QueryError),
                ) && db2.content().sessions == db.content().sessions && final (
                state).current_session == old(state).current_session)
            }),
    {
        if state.database.is_none() {
            return Err(WorkoutError::NotInitialized);
        }
        let session_id = match &mut state.database {
            Some(db) => {
                match db.save_exercise(&exercise) {
                    Ok(()) => {},
                    Err(e) => {
                        return Err(WorkoutError::SaveExerciseError(e));
                    },
                }
                match db.create_session(exercise.name.as_str(), now_ms) {
                    Ok(id) => id,
                    Err(e) => {
                        return Err(WorkoutError::CreateSessionError(e));
                    },
                }
            },
            None => {
                return Err(WorkoutError::NotInitialized);
            },
        };
        let predicted = Self::calculate_initial_predictions(&exercise);
        state.current_session = Some(
            WorkoutSession {
                session_id: Some(session_id),
                exercise,
                completed_sets: Vec::new(),
                predicted,
            },
        );
        Ok(())
    }

    /// Logs a completed set: validates it, stores its row, appends it to
    /// the in-memory session, recomputes the predictions, and — if the
    /// auto-save interval has elapsed — exports and writes the database.
    ///
    /// An auto-save failure is recorded as a non-fatal warning in
    /// `save_error`; the set stays logged and the call still succeeds.
    pub fn log_set<S: StorageBackend>(
        state: &mut WorkoutState<S>,
        set: CompletedSet,
        now_ms: u64,
    ) -> (r: Result<(), WorkoutError>)
        requires
            old(state).wf(),
        ensures
            final (state).wf(),
            final (state).initialization_state == old(state).initialization_state,
            final (state).error == old(state).error,
            old(state).current_session is None ==> r == Err::<(), WorkoutError>(
                WorkoutError::NoActiveSession,
            ) && *final (state) == *old(state),
            old(state).current_session is Some && old(
                state,
            ).current_session->Some_0.session_id is None ==> r == Err::<(), WorkoutError>(
                WorkoutError::SessionNotPersisted,
            ) && *final (state) == *old(state),
            old(state).current_session is Some && old(
                state,
            ).current_session->Some_0.session_id is Some && old(state).database is None ==> r
                == Err::<(), WorkoutError>(WorkoutError::NotInitialized) && *final (state) == *old(
                state,
            ),
            old(state).current_session is Some && old(
                state,
            ).current_session->Some_0.session_id is Some && old(state).database is Some
                && spec_validate_completed_set(
                set,
                old(state).current_session->Some_0.exercise.set_type_config,
            ) is Err ==> r == Err::<(), WorkoutError>(
                WorkoutError::InvalidSetData(
                    spec_validate_completed_set(
                        set,
                        old(state).current_session->Some_0.exercise.set_type_config,
                    )->Err_0,
                ),
            ) && *final (state) == *old(state),
            old(state).current_session is Some && old(
                state,
            ).current_session->Some_0.session_id is Some && old(state).database is Some
                && spec_validate_completed_set(
                set,
                old(state).current_session->Some_0.exercise.set_type_config,
            ) is Ok && !old(state).database->Some_0.is_initialized() ==> r == Err::<
                (),
                WorkoutError,
            >(WorkoutError::InsertSetError(DatabaseError::NotInitialized)) && *final (state)
                == *old(state),
            old(state).current_session is Some && old(
                state,
            ).current_session->Some_0.session_id is Some && old(state).database is Some
                && spec_validate_completed_set(
                set,
                old(state).current_session->Some_0.exercise.set_type_config,
            ) is Ok && old(state).database->Some_0.is_initialized() && old(
                state,
            ).database->Some_0.content().sets.len() >= MAX_ROW_ID ==> r == Err::<
                (),
                WorkoutError,
            >(WorkoutError::InsertSetError(DatabaseError::QueryError)) && *final (state) == *old(
                state,
            ),
            old(state).current_session is Some && old(
                state,
            ).current_session->Some_0.session_id is Some && old(state).database is Some
                && spec_validate_completed_set(
                set,
                old(state).current_session->Some_0.exercise.set_type_config,
            ) is Ok && old(state).database->Some_0.is_initialized() && old(
                state,
            ).database->Some_0.content().sets.len() < MAX_ROW_ID ==> ({
                let s = old(state).current_session->Some_0;
                let db = old(state).database->Some_0;
                let sid = s.session_id->Some_0;
                &&& r is Ok
                &&& final (state).database matches Some(db2)
                &&& db2.is_initialized()
                &&& db2.content().sets == db.content().sets.push(
                    spec_set_row((db.content().sets.len() + 1) as i64, sid, set),
                )
                &&& db2.content().sessions == db.content().sessions
                &&& db2.content().exercises == db.content().exercises
                &&& final (state).current_session matches Some(s2)
                &&& s2.exercise == s.exercise
                &&& s2.session_id == s.session_id
                &&& s2.completed_sets@ == s.completed_sets@.push(set)
                &&& s2.predicted == spec_next_predictions(s2)
                &&& (now_ms - old(state).last_save_time < AUTO_SAVE_INTERVAL_MS ==> final (
                state).last_save_time == old(state).last_save_time && final (state).save_error
                    == old(state).save_error && final (state).file_manager == old(
                state).file_manager)
                &&& (now_ms - old(state).last_save_time >= AUTO_SAVE_INTERVAL_MS ==> ({
                    &&& final (state).last_save_time == now_ms
                    &&& (final (state).save_error is None ==> ({
                        &&& final (state).file_manager matches Some(fm2)
                        &&& fm2.stored() == Some(spec_image(db2.content()))
                    }))
                    &&& (final (state).save_error is Some ==> (final (
                    state).save_error->Some_0 matches WorkoutError::FileSystem(_)))
                }))
            }),
    {
        let session_id = match &state.current_session {
            None => {
                return Err(WorkoutError::NoActiveSession);
            },
            Some(session) => match session.session_id {
                Some(id) => id,
                None => {
                    return Err(WorkoutError::SessionNotPersisted);
                },
            },
        };
        if state.database.is_none() {
            return Err(WorkoutError::NotInitialized);
        }
        match &state.current_session {
            Some(session) => match validate_completed_set(&set, &session.exercise) {
                Ok(()) => {},
                Err(e) => {
                    return Err(WorkoutError::InvalidSetData(e));
                },
            },
            None => {
                return Err(WorkoutError::NoActiveSession);
            },
        }
        match &mut state.database {
            Some(db) => match db.insert_set(session_id, &set) {
                Ok(_id) => {},
                Err(e) => {
                    return Err(WorkoutError::InsertSetError(e));
                },
            },
            None => {
                return Err(WorkoutError::NotInitialized);
            },
        }
        match &mut state.current_session {
            Some(session) => {
                session.completed_sets.push(set);
                let predicted = Self::calculate_next_predictions(session);
                session.predicted = predicted;
            },
            None => {},
        }
        if now_ms >= state.last_save_time && now_ms - state.last_save_time
            >= AUTO_SAVE_INTERVAL_MS {
            state.last_save_time = now_ms;
            match Self::save_database(state) {
                Ok(()) => {
                    state.save_error = None;
                },
                Err(e) => {
                    state.save_error = Some(e);
                },
            }
        }
        Ok(())
    }

    /// Completes the active session: marks its row completed, forces an
    /// unconditional save, and clears the current session.
    ///
    /// If the save fails, the error is returned and the session is kept,
    /// so completing can be retried.
    pub fn complete_session<S: StorageBackend>(state: &mut WorkoutState<S>, now_ms: u64) -> (r:
        Result<(), WorkoutError>)
        requires
            old(state).wf(),
        ensures
            final (state).wf(),
            final (state).initialization_state == old(state).initialization_state,
            final (state).error == old(state).error,
            final (state).save_error == old(state).save_error,
            final (state).last_save_time == old(state).last_save_time,
            old(state).current_session is None ==> r == Err::<(), WorkoutError>(
                WorkoutError::NoActiveSession,
            ) && *final (state) == *old(state),
            old(state).current_session is Some && old(
                state,
            ).current_session->Some_0.session_id is None ==> r == Err::<(), WorkoutError>(
                WorkoutError::SessionNotPersisted,
            ) && *final (state) == *old(state),
            old(state).current_session is Some && old(
                state,
            ).current_session->Some_0.session_id is Some && old(state).database is None ==> r
                == Err::<(), WorkoutError>(WorkoutError::NotInitialized) && *final (state) == *old(
                state,
            ),
            old(state).current_session is Some && old(
                state,
            ).current_session->Some_0.session_id is Some && old(state).database is Some && !old(
                state,
            ).database->Some_0.is_initialized() ==> r == Err::<(), WorkoutError>(
                WorkoutError::CompleteSessionError(DatabaseError::NotInitialized),
            ) && *final (state) == *old(state),
            old(state).current_session is Some && old(
                state,
            ).current_session->Some_0.session_id is Some && old(state).database is Some && old(
                state,
            ).database->Some_0.is_initialized() ==> ({
                let s = old(state).current_session->Some_0;
                let db = old(state).database->Some_0;
                let sid = s.session_id->Some_0;
                &&& final (state).database matches Some(db2)
                &&& db2.is_initialized()
                &&& db2.content().sets == db.content().sets
                &&& db2.content().exercises == db.content().exercises
                &&& (1 <= sid <= db.content().sessions.len() ==> db2.content().sessions
                    == db.content().sessions.update(
                    sid - 1,
                    (SessionRowV {
                        completed_at: Some(now_ms),
                        ..db.content().sessions[sid - 1]
                    }),
                ))
                &&& (!(1 <= sid <= db.content().sessions.len()) ==> db2.content().sessions
                    == db.content().sessions)
                &&& (r is Ok ==> ({
                    &&& final (state).current_session is None
                    &&& final (state).file_manager matches Some(fm2)
                    &&& fm2.stored() == Some(spec_image(db2.content()))
                }))
                &&& (r is Err ==> final (state).current_session == old(state).current_session && (r
                matches Err(WorkoutError::FileSystem(_))))
            }),
    {
        let session_id = match &state.current_session {
            None => {
                return Err(WorkoutError::NoActiveSession);
            },
            Some(session) => match session.session_id {
                Some(id) => id,
                None => {
                    return Err(WorkoutError::SessionNotPersisted);
                },
            },
        };
        if state.database.is_none() {
            return Err(WorkoutError::NotInitialized);
        }
        match &mut state.database {
            Some(db) => match db.complete_session(session_id, now_ms) {
                Ok(()) => {},
                Err(e) => {
                    return Err(WorkoutError::CompleteSessionError(e));
                },
            },
            None => {
                return Err(WorkoutError::NotInitialized);
            },
        }
        match Self::save_database(state) {
            Ok(()) => {},
            Err(e) => {
                return Err(e);
            },
        }
        state.current_session = None;
        Ok(())
    }
}

} // verus!
