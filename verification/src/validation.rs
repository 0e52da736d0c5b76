//! Validation rules for set data: weight, RPE, repetitions and set numbers.
//!
//! Every rule is exact fixed-point arithmetic. A weight is valid for an
//! exercise when it is at least the exercise minimum, at most the sanity
//! limit, and the distance above the minimum is a whole number of increments.

use vstd::prelude::*;

use crate::models::{CompletedSet, ExerciseMetadata, SetType, SetTypeConfig};

verus! {

/// Maximum weight accepted by validation, in hundredths of a kilogram (500 kg).
pub const MAX_WEIGHT: u32 = 50000;

/// Maximum number of repetitions accepted by validation.
pub const MAX_REPS: u32 = 100;

/// Lowest valid RPE, in tenths (1.0).
pub const MIN_RPE: u32 = 10;

/// Highest valid RPE, in tenths (10.0).
pub const MAX_RPE: u32 = 100;

/// Granularity of the RPE scale, in tenths (half a point).
pub const RPE_STEP: u32 = 5;

/// Why a piece of set data was rejected.
#[derive(Clone, Copy, Debug, PartialEq, Eq, Structural)]
pub enum ValidationError {
    /// Weight is below the minimum allowed for this exercise.
    WeightBelowMinimum { weight: u32, min_weight: u32 },
    /// Weight exceeds the maximum sanity check limit.
    WeightExceedsMaximum { weight: u32, max_weight: u32 },
    /// Weight is not a valid multiple of the increment above the minimum.
    WeightNotMultipleOfIncrement { weight: u32, increment: u32 },
    /// RPE is outside the valid range.
    RpeOutOfBounds { rpe: u32 },
    /// RPE is not on a half-point step.
    RpeInvalidStep { rpe: u32 },
    /// Number of reps is zero.
    ZeroReps,
    /// Number of reps exceeds the sanity check limit.
    RepsExceedLimit { reps: u32, limit: u32 },
    /// Set number is zero.
    ZeroSetNumber,
}

/// What `validate_weight` returns, as a function of its inputs.
///
/// An increment of zero disables the multiple-of-increment rule: any weight
/// between the minimum and the sanity limit is then accepted.
pub open spec fn spec_validate_weight(weight: u32, min_weight: u32, increment: u32) -> Result<
    (),
    ValidationError,
> {
    if weight < min_weight {
        Err(ValidationError::WeightBelowMinimum { weight, min_weight })
    } else if weight > MAX_WEIGHT {
        Err(ValidationError::WeightExceedsMaximum { weight, max_weight: MAX_WEIGHT })
    } else if increment != 0 && (weight - min_weight) % (increment as int) != 0 {
        Err(ValidationError::WeightNotMultipleOfIncrement { weight, increment })
    } else {
        Ok(())
    }
}

/// What `validate_rpe` returns, as a function of its input.
pub open spec fn spec_validate_rpe(rpe: u32) -> Result<(), ValidationError> {
    if rpe < MIN_RPE || rpe > MAX_RPE {
        Err(ValidationError::RpeOutOfBounds { rpe })
    } else if rpe % RPE_STEP != 0 {
        Err(ValidationError::RpeInvalidStep { rpe })
    } else {
        Ok(())
    }
}

/// What `validate_reps` returns, as a function of its input.
pub open spec fn spec_validate_reps(reps: u32) -> Result<(), ValidationError> {
    if reps == 0 {
        Err(ValidationError::ZeroReps)
    } else if reps > MAX_REPS {
        Err(ValidationError::RepsExceedLimit { reps, limit: MAX_REPS })
    } else {
        Ok(())
    }
}

/// What `validate_set_number` returns, as a function of its input.
pub open spec fn spec_validate_set_number(set_number: u32) -> Result<(), ValidationError> {
    if set_number == 0 {
        Err(ValidationError::ZeroSetNumber)
    } else {
        Ok(())
    }
}

/// What `validate_completed_set` returns: the first failing rule, checking
/// set number, reps, RPE, and then — for a weighted set of a weighted
/// exercise — the weight against the exercise configuration.
pub open spec fn spec_validate_completed_set(set: CompletedSet, config: SetTypeConfig) -> Result<
    (),
    ValidationError,
> {
    if spec_validate_set_number(set.set_number) is Err {
        spec_validate_set_number(set.set_number)
    } else if spec_validate_reps(set.reps) is Err {
        spec_validate_reps(set.reps)
    } else if spec_validate_rpe(set.rpe) is Err {
        spec_validate_rpe(set.rpe)
    } else if (set.set_type matches SetType::Weighted { weight }) && (
    config matches SetTypeConfig::Weighted { min_weight, increment }) {
        spec_validate_weight(set.set_type->weight, config->min_weight, config->increment)
    } else {
        Ok(())
    }
}

/// Validates that a weight is at or above the minimum, at most the sanity
/// limit, and a whole number of increments above the minimum.
pub fn validate_weight(weight: u32, min_weight: u32, increment: u32) -> (r: Result<
    (),
    ValidationError,
>)
    ensures
        r == spec_validate_weight(weight, min_weight, increment),
{
    if weight < min_weight {
        return Err(ValidationError::WeightBelowMinimum { weight, min_weight });
    }
    if weight > MAX_WEIGHT {
        return Err(ValidationError::WeightExceedsMaximum { weight, max_weight: MAX_WEIGHT });
    }
    if increment != 0 && (weight - min_weight) % increment != 0 {
        return Err(ValidationError::WeightNotMultipleOfIncrement { weight, increment });
    }
    Ok(())
}

/// Validates that an RPE is within bounds and on a half-point step.
pub fn validate_rpe(rpe: u32) -> (r: Result<(), ValidationError>)
    ensures
        r == spec_validate_rpe(rpe),
{
    if rpe < MIN_RPE || rpe > MAX_RPE {
        return Err(ValidationError::RpeOutOfBounds { rpe });
    }
    if rpe % RPE_STEP != 0 {
        return Err(ValidationError::RpeInvalidStep { rpe });
    }
    Ok(())
}

/// Validates that the number of reps is positive and within bounds.
pub fn validate_reps(reps: u32) -> (r: Result<(), ValidationError>)
    ensures
        r == spec_validate_reps(reps),
{
    if reps == 0 {
        return Err(ValidationError::ZeroReps);
    }
    if reps > MAX_REPS {
        return Err(ValidationError::RepsExceedLimit { reps, limit: MAX_REPS });
    }
    Ok(())
}

/// Validates that the set number is positive.
pub fn validate_set_number(set_number: u32) -> (r: Result<(), ValidationError>)
    ensures
        r == spec_validate_set_number(set_number),
{
    if set_number == 0 {
        return Err(ValidationError::ZeroSetNumber);
    }
    Ok(())
}

/// Validates a complete set against an exercise's configuration, returning
/// the first rule that fails.
///
/// A mismatched pairing (a weighted set for a bodyweight exercise, or the
/// reverse) is accepted; only a weighted set of a weighted exercise has its
/// weight checked.
pub fn validate_completed_set(set: &CompletedSet, exercise: &ExerciseMetadata) -> (r: Result<
    (),
    ValidationError,
>)
    ensures
        r == spec_validate_completed_set(*set, exercise.set_type_config),
{
    validate_set_number(set.set_number)?;
    validate_reps(set.reps)?;
    validate_rpe(set.rpe)?;
    match (set.set_type, exercise.set_type_config) {
        (SetType::Weighted { weight }, SetTypeConfig::Weighted { min_weight, increment }) => {
            validate_weight(weight, min_weight, increment)?;
        },
        _ => {},
    }
    Ok(())
}

/// Any weighted set that validation accepts for a weighted exercise uses a
/// weight at least the exercise minimum, at most the sanity limit, and a
/// whole number of increments above the minimum.
pub proof fn lemma_accepted_weighted_set_meets_bounds(
    set: CompletedSet,
    min_weight: u32,
    increment: u32,
)
    requires
        set.set_type is Weighted,
        spec_validate_completed_set(
            set,
            SetTypeConfig::Weighted { min_weight, increment },
        ) is Ok,
    ensures
        min_weight <= set.set_type->weight <= MAX_WEIGHT,
        increment != 0 ==> (set.set_type->weight - min_weight) % (increment as int) == 0,
{
}

/// For any weight at or above the exercise minimum, validation succeeds
/// exactly when the weight is at most the sanity limit and the distance
/// above the minimum is a whole number of increments (an increment of zero
/// disables the multiple rule).
pub proof fn lemma_weight_validation_characterization(weight: u32, min_weight: u32, increment: u32)
    requires
        min_weight <= weight,
    ensures
        spec_validate_weight(weight, min_weight, increment) is Ok <==> (weight <= MAX_WEIGHT && (
        increment == 0 || (weight - min_weight) % (increment as int) == 0)),
{
}

/// Every RPE on the half-point scale from 1.0 to 10.0 validates; everything
/// below 1.0 or above 10.0 is rejected as out of bounds; everything in range
/// but off the half-point grid is rejected as an invalid step.
pub proof fn lemma_rpe_validation_characterization(rpe: u32)
    ensures
        MIN_RPE <= rpe <= MAX_RPE && rpe % RPE_STEP == 0 ==> spec_validate_rpe(rpe) is Ok,
        rpe < MIN_RPE || rpe > MAX_RPE ==> spec_validate_rpe(rpe) == Err::<(), ValidationError>(
            ValidationError::RpeOutOfBounds { rpe },
        ),
        MIN_RPE <= rpe <= MAX_RPE && rpe % RPE_STEP != 0 ==> spec_validate_rpe(rpe) == Err::<
            (),
            ValidationError,
        >(ValidationError::RpeInvalidStep { rpe }),
{
}

} // verus!
