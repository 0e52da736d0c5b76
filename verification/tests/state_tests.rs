//! Tests for the orchestrator: setup lifecycle, sessions, predictions,
//! and debounced auto-save, all over the in-memory storage backend.

use workout_store::db::DatabaseError;
use workout_store::error::WorkoutError;
use workout_store::models::{CompletedSet, ExerciseMetadata, SetType, SetTypeConfig, WorkoutSession};
use workout_store::storage::{InMemoryStorage, StorageBackend};
use workout_store::validation::ValidationError;
use workout_store::workout_state::{InitializationState, WorkoutState, WorkoutStateManager};

fn bench_press() -> ExerciseMetadata {
    ExerciseMetadata {
        name: "Bench Press".to_string(),
        set_type_config: SetTypeConfig::Weighted {
            min_weight: 4500,
            increment: 500,
        },
    }
}

fn ready_state() -> WorkoutState<InMemoryStorage> {
    let mut state: WorkoutState<InMemoryStorage> = WorkoutState::new();
    WorkoutStateManager::setup_database(&mut state).unwrap();
    assert_eq!(
        state.initialization_state(),
        InitializationState::SelectingFile
    );
    WorkoutStateManager::create_database_file(&mut state).unwrap();
    assert_eq!(state.initialization_state(), InitializationState::Ready);
    state
}

#[test]
fn test_initial_predictions_weighted() {
    let exercise = ExerciseMetadata {
        name: "Bench Press".to_string(),
        set_type_config: SetTypeConfig::Weighted {
            min_weight: 4500,
            increment: 500,
        },
    };

    let predicted = WorkoutStateManager::calculate_initial_predictions(&exercise);

    assert_eq!(predicted.weight, Some(4500));
    assert_eq!(predicted.reps, 8);
    assert_eq!(predicted.rpe, 70);
}

#[test]
fn test_initial_predictions_bodyweight() {
    let exercise = ExerciseMetadata {
        name: "Pull-ups".to_string(),
        set_type_config: SetTypeConfig::Bodyweight,
    };

    let predicted = WorkoutStateManager::calculate_initial_predictions(&exercise);

    assert_eq!(predicted.weight, None);
    assert_eq!(predicted.reps, 10);
    assert_eq!(predicted.rpe, 70);
}

#[test]
fn test_next_predictions_progression() {
    let exercise = ExerciseMetadata {
        name: "Bench Press".to_string(),
        set_type_config: SetTypeConfig::Weighted {
            min_weight: 4500,
            increment: 500,
        },
    };

    let session = WorkoutSession {
        session_id: Some(1),
        exercise,
        completed_sets: vec![CompletedSet {
            set_number: 1,
            reps: 8,
            rpe: 65,
            set_type: SetType::Weighted { weight: 10000 },
        }],
        predicted: workout_store::models::PredictedParameters {
            weight: Some(10000),
            reps: 8,
            rpe: 70,
        },
    };

    let predicted = WorkoutStateManager::calculate_next_predictions(&session);

    assert_eq!(predicted.weight, Some(10500));
    assert_eq!(predicted.reps, 8);
    assert_eq!(predicted.rpe, 65);
}

#[test]
fn test_next_predictions_hold_weight_and_reduce_rpe() {
    let session = WorkoutSession {
        session_id: Some(1),
        exercise: bench_press(),
        completed_sets: vec![CompletedSet {
            set_number: 1,
            reps: 5,
            rpe: 90,
            set_type: SetType::Weighted { weight: 10000 },
        }],
        predicted: WorkoutStateManager::calculate_initial_predictions(&bench_press()),
    };

    let predicted = WorkoutStateManager::calculate_next_predictions(&session);
    assert_eq!(predicted.weight, Some(10000));
    assert_eq!(predicted.reps, 5);
    assert_eq!(predicted.rpe, 85);
}

#[test]
fn test_setup_while_initializing_fails_fast() {
    let mut state: WorkoutState<InMemoryStorage> = WorkoutState::new();
    state.set_initialization_state(InitializationState::Initializing);
    let r = WorkoutStateManager::setup_database(&mut state);
    assert_eq!(r, Err(WorkoutError::InitializationInProgress));
    assert_eq!(
        state.initialization_state(),
        InitializationState::Initializing
    );
}

#[test]
fn test_setup_while_ready_is_a_no_op() {
    let mut state = ready_state();
    let r = WorkoutStateManager::setup_database(&mut state);
    assert_eq!(r, Ok(()));
    assert_eq!(state.initialization_state(), InitializationState::Ready);
}

#[test]
fn test_setup_without_cached_handle_waits_for_selection() {
    let mut state: WorkoutState<InMemoryStorage> = WorkoutState::new();
    let r = WorkoutStateManager::setup_database(&mut state);
    assert_eq!(r, Ok(()));
    assert_eq!(
        state.initialization_state(),
        InitializationState::SelectingFile
    );
    assert!(state.database().is_none());
    // The consulted backend is kept, and it reported no ready store.
    assert!(!state.file_manager().as_ref().unwrap().has_handle());
}

#[test]
fn test_start_session_requires_database() {
    let mut state: WorkoutState<InMemoryStorage> = WorkoutState::new();
    let r = WorkoutStateManager::start_session(&mut state, bench_press(), 0);
    assert_eq!(r, Err(WorkoutError::NotInitialized));
}

#[test]
fn test_start_session_sets_initial_predictions() {
    let mut state = ready_state();
    WorkoutStateManager::start_session(&mut state, bench_press(), 1000).unwrap();
    let session = state.current_session().as_ref().unwrap();
    assert_eq!(session.session_id, Some(1));
    assert_eq!(session.completed_sets.len(), 0);
    assert_eq!(session.predicted.weight, Some(4500));
    assert_eq!(session.predicted.reps, 8);
    assert_eq!(session.predicted.rpe, 70);
}

#[test]
fn test_log_set_without_session() {
    let mut state = ready_state();
    let set = CompletedSet {
        set_number: 1,
        reps: 8,
        rpe: 65,
        set_type: SetType::Weighted { weight: 10000 },
    };
    let r = WorkoutStateManager::log_set(&mut state, set, 0);
    assert_eq!(r, Err(WorkoutError::NoActiveSession));
}

#[test]
fn test_log_set_rejects_session_without_row() {
    let mut state = ready_state();
    state.set_current_session(Some(WorkoutSession {
        session_id: None,
        exercise: bench_press(),
        completed_sets: Vec::new(),
        predicted: WorkoutStateManager::calculate_initial_predictions(&bench_press()),
    }));
    let set = CompletedSet {
        set_number: 1,
        reps: 8,
        rpe: 65,
        set_type: SetType::Weighted { weight: 10000 },
    };
    let r = WorkoutStateManager::log_set(&mut state, set, 0);
    assert_eq!(r, Err(WorkoutError::SessionNotPersisted));
}

#[test]
fn test_log_set_updates_predictions() {
    let mut state = ready_state();
    WorkoutStateManager::start_session(&mut state, bench_press(), 1000).unwrap();
    let set = CompletedSet {
        set_number: 1,
        reps: 8,
        rpe: 65,
        set_type: SetType::Weighted { weight: 10000 },
    };
    WorkoutStateManager::log_set(&mut state, set, 2000).unwrap();
    let session = state.current_session().as_ref().unwrap();
    assert_eq!(session.completed_sets.len(), 1);
    assert_eq!(session.predicted.weight, Some(10500));
    assert_eq!(session.predicted.reps, 8);
    assert_eq!(session.predicted.rpe, 65);
}

#[test]
fn test_log_set_rejects_off_increment_weight() {
    let mut state = ready_state();
    let exercise = ExerciseMetadata {
        name: "Curl".to_string(),
        set_type_config: SetTypeConfig::Weighted {
            min_weight: 2000,
            increment: 250,
        },
    };
    WorkoutStateManager::start_session(&mut state, exercise, 0).unwrap();
    let set = CompletedSet {
        set_number: 1,
        reps: 8,
        rpe: 65,
        set_type: SetType::Weighted { weight: 2375 },
    };
    let r = WorkoutStateManager::log_set(&mut state, set, 0);
    assert_eq!(
        r,
        Err(WorkoutError::InvalidSetData(
            ValidationError::WeightNotMultipleOfIncrement {
                weight: 2375,
                increment: 250
            }
        ))
    );
    assert_eq!(
        state.current_session().as_ref().unwrap().completed_sets.len(),
        0
    );
}

#[test]
fn test_log_set_autosave_is_debounced() {
    let mut state = ready_state();
    WorkoutStateManager::start_session(&mut state, bench_press(), 0).unwrap();
    let set = CompletedSet {
        set_number: 1,
        reps: 8,
        rpe: 65,
        set_type: SetType::Weighted { weight: 10000 },
    };

    // First log: 6000 ms since the last save, so the database is written.
    WorkoutStateManager::log_set(&mut state, set, 6000).unwrap();
    assert_eq!(state.last_save_time(), 6000);
    assert!(state.save_error().is_none());
    let written = state.file_manager().as_ref().unwrap().read_file().unwrap();
    let exported = state.database().as_ref().unwrap().export().unwrap();
    assert_eq!(written, exported);

    // Second log 2000 ms later: inside the debounce window, nothing written.
    let set2 = CompletedSet {
        set_number: 2,
        reps: 8,
        rpe: 70,
        set_type: SetType::Weighted { weight: 10500 },
    };
    WorkoutStateManager::log_set(&mut state, set2, 8000).unwrap();
    assert_eq!(state.last_save_time(), 6000);
    let written2 = state.file_manager().as_ref().unwrap().read_file().unwrap();
    assert_eq!(written2, written);
    assert_ne!(
        written2,
        state.database().as_ref().unwrap().export().unwrap()
    );

    // Third log exactly at the five-second boundary: the interval counts
    // as elapsed, so the database is written again.
    let set3 = CompletedSet {
        set_number: 3,
        reps: 8,
        rpe: 70,
        set_type: SetType::Weighted { weight: 10500 },
    };
    WorkoutStateManager::log_set(&mut state, set3, 11000).unwrap();
    assert_eq!(state.last_save_time(), 11000);
    let written3 = state.file_manager().as_ref().unwrap().read_file().unwrap();
    assert_eq!(
        written3,
        state.database().as_ref().unwrap().export().unwrap()
    );
}

#[test]
fn test_complete_session_saves_and_clears() {
    let mut state = ready_state();
    WorkoutStateManager::start_session(&mut state, bench_press(), 0).unwrap();
    let set = CompletedSet {
        set_number: 1,
        reps: 8,
        rpe: 65,
        set_type: SetType::Weighted { weight: 10000 },
    };
    WorkoutStateManager::log_set(&mut state, set, 100).unwrap();
    WorkoutStateManager::complete_session(&mut state, 200).unwrap();
    assert!(state.current_session().is_none());
    let written = state.file_manager().as_ref().unwrap().read_file().unwrap();
    let exported = state.database().as_ref().unwrap().export().unwrap();
    assert_eq!(written, exported);
}

#[test]
fn test_complete_session_without_session() {
    let mut state = ready_state();
    let r = WorkoutStateManager::complete_session(&mut state, 0);
    assert_eq!(r, Err(WorkoutError::NoActiveSession));
}

#[test]
fn test_handle_error_and_retry() {
    let mut state: WorkoutState<InMemoryStorage> = WorkoutState::new();
    WorkoutStateManager::handle_error(
        &mut state,
        WorkoutError::Database(DatabaseError::InitializationError),
    );
    assert_eq!(state.initialization_state(), InitializationState::Error);
    assert_eq!(
        state.error(),
        Some(WorkoutError::Database(DatabaseError::InitializationError))
    );
    WorkoutStateManager::retry(&mut state);
    assert_eq!(
        state.initialization_state(),
        InitializationState::NotInitialized
    );
    assert!(state.error().is_none());
}

#[test]
fn test_open_database_file_restores_saved_data() {
    // Build a database, save it through one context, then re-open the same
    // backing store in a fresh context via the selection path.
    let mut state = ready_state();
    WorkoutStateManager::start_session(&mut state, bench_press(), 0).unwrap();
    let set = CompletedSet {
        set_number: 1,
        reps: 8,
        rpe: 65,
        set_type: SetType::Weighted { weight: 10000 },
    };
    WorkoutStateManager::log_set(&mut state, set, 100).unwrap();
    WorkoutStateManager::complete_session(&mut state, 200).unwrap();
    let exported = state.database().as_ref().unwrap().export().unwrap();

    // The in-memory backend starts empty on every prompt, so opening in a
    // new context initializes a fresh database; re-initializing the same
    // database from the exported bytes must restore identical content.
    let mut state2: WorkoutState<InMemoryStorage> = WorkoutState::new();
    WorkoutStateManager::setup_database(&mut state2).unwrap();
    WorkoutStateManager::open_database_file(&mut state2).unwrap();
    assert_eq!(state2.initialization_state(), InitializationState::Ready);

    let mut db2 = workout_store::db::Database::new();
    db2.init(Some(exported.clone())).unwrap();
    assert_eq!(db2.export().unwrap(), exported);
}
