//! Tests for the validation rules, in fixed-point units: weights in
//! hundredths of a kilogram, RPE in tenths.

use workout_store::models::{CompletedSet, ExerciseMetadata, SetType, SetTypeConfig};
use workout_store::validation::{
    validate_completed_set, validate_reps, validate_rpe, validate_set_number, validate_weight,
    ValidationError,
};

#[test]
fn test_validate_weight_below_minimum() {
    let result = validate_weight(1500, 2000, 250);
    assert_eq!(
        result,
        Err(ValidationError::WeightBelowMinimum {
            weight: 1500,
            min_weight: 2000
        })
    );
}

#[test]
fn test_validate_weight_at_minimum() {
    let result = validate_weight(2000, 2000, 250);
    assert!(result.is_ok());
}

#[test]
fn test_validate_weight_valid_increment() {
    let result = validate_weight(2500, 2000, 250);
    assert!(result.is_ok());

    let result = validate_weight(2750, 2000, 250);
    assert!(result.is_ok());

    let result = validate_weight(10000, 2000, 250);
    assert!(result.is_ok());
}

#[test]
fn test_validate_weight_not_multiple_of_increment() {
    let result = validate_weight(2100, 2000, 250);
    assert_eq!(
        result,
        Err(ValidationError::WeightNotMultipleOfIncrement {
            weight: 2100,
            increment: 250
        })
    );

    let result = validate_weight(2375, 2000, 250);
    assert_eq!(
        result,
        Err(ValidationError::WeightNotMultipleOfIncrement {
            weight: 2375,
            increment: 250
        })
    );
}

#[test]
fn test_validate_weight_exceeds_maximum() {
    let result = validate_weight(60000, 2000, 250);
    assert_eq!(
        result,
        Err(ValidationError::WeightExceedsMaximum {
            weight: 60000,
            max_weight: 50000
        })
    );
}

#[test]
fn test_validate_weight_zero_increment_disables_multiple_rule() {
    assert!(validate_weight(2101, 2000, 0).is_ok());
    assert!(validate_weight(50000, 2000, 0).is_ok());
    assert_eq!(
        validate_weight(1999, 2000, 0),
        Err(ValidationError::WeightBelowMinimum {
            weight: 1999,
            min_weight: 2000
        })
    );
}

#[test]
fn test_validate_rpe_valid_values() {
    for i in 2..=20u32 {
        let rpe = i * 5;
        let result = validate_rpe(rpe);
        assert!(result.is_ok(), "RPE {} should be valid", rpe);
    }
}

#[test]
fn test_validate_rpe_out_of_bounds() {
    let result = validate_rpe(5);
    assert_eq!(result, Err(ValidationError::RpeOutOfBounds { rpe: 5 }));

    let result = validate_rpe(105);
    assert_eq!(result, Err(ValidationError::RpeOutOfBounds { rpe: 105 }));

    let result = validate_rpe(0);
    assert_eq!(result, Err(ValidationError::RpeOutOfBounds { rpe: 0 }));

    let result = validate_rpe(110);
    assert_eq!(result, Err(ValidationError::RpeOutOfBounds { rpe: 110 }));
}

#[test]
fn test_validate_rpe_invalid_step() {
    let result = validate_rpe(73);
    assert_eq!(result, Err(ValidationError::RpeInvalidStep { rpe: 73 }));

    let result = validate_rpe(87);
    assert_eq!(result, Err(ValidationError::RpeInvalidStep { rpe: 87 }));

    let result = validate_rpe(51);
    assert_eq!(result, Err(ValidationError::RpeInvalidStep { rpe: 51 }));
}

#[test]
fn test_validate_zero_reps() {
    let result = validate_reps(0);
    assert_eq!(result, Err(ValidationError::ZeroReps));
}

#[test]
fn test_validate_valid_reps() {
    assert!(validate_reps(1).is_ok());
    assert!(validate_reps(5).is_ok());
    assert!(validate_reps(10).is_ok());
    assert!(validate_reps(50).is_ok());
    assert!(validate_reps(100).is_ok());
}

#[test]
fn test_validate_reps_exceed_limit() {
    let result = validate_reps(101);
    assert_eq!(
        result,
        Err(ValidationError::RepsExceedLimit {
            reps: 101,
            limit: 100
        })
    );

    let result = validate_reps(200);
    assert_eq!(
        result,
        Err(ValidationError::RepsExceedLimit {
            reps: 200,
            limit: 100
        })
    );
}

#[test]
fn test_validate_zero_set_number() {
    let result = validate_set_number(0);
    assert_eq!(result, Err(ValidationError::ZeroSetNumber));
}

#[test]
fn test_validate_valid_set_number() {
    assert!(validate_set_number(1).is_ok());
    assert!(validate_set_number(5).is_ok());
    assert!(validate_set_number(100).is_ok());
}

#[test]
fn test_validate_completed_set_weighted_valid() {
    let exercise = ExerciseMetadata {
        name: "Bench Press".to_string(),
        set_type_config: SetTypeConfig::Weighted {
            min_weight: 2000,
            increment: 250,
        },
    };

    let set = CompletedSet {
        set_number: 1,
        reps: 10,
        rpe: 75,
        set_type: SetType::Weighted { weight: 10000 },
    };

    assert!(validate_completed_set(&set, &exercise).is_ok());
}

#[test]
fn test_validate_completed_set_bodyweight_valid() {
    let exercise = ExerciseMetadata {
        name: "Pull-ups".to_string(),
        set_type_config: SetTypeConfig::Bodyweight,
    };

    let set = CompletedSet {
        set_number: 2,
        reps: 15,
        rpe: 80,
        set_type: SetType::Bodyweight,
    };

    assert!(validate_completed_set(&set, &exercise).is_ok());
}

#[test]
fn test_validate_completed_set_invalid_weight() {
    let exercise = ExerciseMetadata {
        name: "Bench Press".to_string(),
        set_type_config: SetTypeConfig::Weighted {
            min_weight: 2000,
            increment: 250,
        },
    };

    let set = CompletedSet {
        set_number: 1,
        reps: 10,
        rpe: 75,
        set_type: SetType::Weighted { weight: 1500 },
    };

    let result = validate_completed_set(&set, &exercise);
    assert_eq!(
        result,
        Err(ValidationError::WeightBelowMinimum {
            weight: 1500,
            min_weight: 2000
        })
    );
}

#[test]
fn test_validate_completed_set_invalid_rpe() {
    let exercise = ExerciseMetadata {
        name: "Pull-ups".to_string(),
        set_type_config: SetTypeConfig::Bodyweight,
    };

    let set = CompletedSet {
        set_number: 1,
        reps: 10,
        rpe: 110,
        set_type: SetType::Bodyweight,
    };

    let result = validate_completed_set(&set, &exercise);
    assert_eq!(result, Err(ValidationError::RpeOutOfBounds { rpe: 110 }));
}

#[test]
fn test_validate_completed_set_zero_reps() {
    let exercise = ExerciseMetadata {
        name: "Pull-ups".to_string(),
        set_type_config: SetTypeConfig::Bodyweight,
    };

    let set = CompletedSet {
        set_number: 1,
        reps: 0,
        rpe: 70,
        set_type: SetType::Bodyweight,
    };

    let result = validate_completed_set(&set, &exercise);
    assert_eq!(result, Err(ValidationError::ZeroReps));
}
