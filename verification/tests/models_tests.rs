//! Tests for the core data model types.

use workout_store::models::{ExerciseMetadata, SetType, SetTypeConfig};

#[test]
fn test_weighted_exercise_metadata() {
    let exercise = ExerciseMetadata {
        name: "Bench Press".to_string(),
        set_type_config: SetTypeConfig::Weighted {
            min_weight: 2000,
            increment: 250,
        },
    };

    assert_eq!(exercise.name, "Bench Press");
    match exercise.set_type_config {
        SetTypeConfig::Weighted {
            min_weight,
            increment,
        } => {
            assert_eq!(min_weight, 2000);
            assert_eq!(increment, 250);
        }
        SetTypeConfig::Bodyweight => panic!("Expected Weighted config"),
    }
}

#[test]
fn test_bodyweight_exercise_metadata() {
    let exercise = ExerciseMetadata {
        name: "Pull-ups".to_string(),
        set_type_config: SetTypeConfig::Bodyweight,
    };

    assert_eq!(exercise.name, "Pull-ups");
    match exercise.set_type_config {
        SetTypeConfig::Bodyweight => {}
        SetTypeConfig::Weighted { .. } => panic!("Expected Bodyweight config"),
    }
}

#[test]
fn test_set_type_config_equality() {
    let weighted1 = SetTypeConfig::Weighted {
        min_weight: 2000,
        increment: 250,
    };
    let weighted2 = SetTypeConfig::Weighted {
        min_weight: 2000,
        increment: 250,
    };
    let weighted3 = SetTypeConfig::Weighted {
        min_weight: 2500,
        increment: 250,
    };

    assert_eq!(weighted1, weighted2);
    assert_ne!(weighted1, weighted3);
    assert_ne!(weighted1, SetTypeConfig::Bodyweight);
}

#[test]
fn test_exercise_cloning() {
    let original = ExerciseMetadata {
        name: "Deadlift".to_string(),
        set_type_config: SetTypeConfig::Weighted {
            min_weight: 2000,
            increment: 250,
        },
    };

    let cloned = original.clone();
    assert_eq!(cloned.name, original.name);
    assert_eq!(cloned.set_type_config, original.set_type_config);
}

#[test]
fn test_weighted_set_type_pattern_matching() {
    let set_type = SetType::Weighted { weight: 10000 };

    match set_type {
        SetType::Weighted { weight } => {
            assert_eq!(weight, 10000);
        }
        SetType::Bodyweight => panic!("Expected Weighted variant"),
    }
}

#[test]
fn test_bodyweight_set_type_pattern_matching() {
    let set_type = SetType::Bodyweight;

    match set_type {
        SetType::Weighted { .. } => panic!("Expected Bodyweight variant"),
        SetType::Bodyweight => {}
    }
}

#[test]
fn test_set_type_equality() {
    let weighted1 = SetType::Weighted { weight: 10000 };
    let weighted2 = SetType::Weighted { weight: 10000 };
    let weighted3 = SetType::Weighted { weight: 10500 };

    assert_eq!(weighted1, weighted2);
    assert_ne!(weighted1, weighted3);
    assert_ne!(weighted1, SetType::Bodyweight);
}
