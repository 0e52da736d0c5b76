//! Core data model: exercises, completed sets, and in-memory sessions.
//!
//! Weights are in hundredths of a kilogram; RPE values are in tenths.

use vstd::prelude::*;

verus! {

/// Configuration for the type of set an exercise uses.
///
/// This is separate from `SetType` because it describes the exercise
/// (which carries no actual weight), whereas `SetType` describes a
/// completed set (which carries the weight used).
#[derive(Clone, Copy, Debug, PartialEq, Eq, Structural)]
pub enum SetTypeConfig {
    /// Configuration for weighted exercises.
    Weighted {
        /// Minimum allowed weight, in hundredths of a kilogram.
        min_weight: u32,
        /// Weight increment, in hundredths of a kilogram (250 is 2.5 kg).
        increment: u32,
    },
    /// Configuration for bodyweight exercises.
    Bodyweight,
}

/// Metadata describing an exercise and its configuration.
#[derive(Clone, Debug)]
pub struct ExerciseMetadata {
    /// Display name of the exercise; the unique key under which it is stored.
    pub name: String,
    /// Configuration for the type of sets this exercise uses.
    pub set_type_config: SetTypeConfig,
}

/// Distinguishes a weighted set from a bodyweight set.
#[derive(Clone, Copy, Debug, PartialEq, Eq, Structural)]
pub enum SetType {
    /// A set performed with added weight.
    Weighted {
        /// Weight used for this set, in hundredths of a kilogram.
        weight: u32,
    },
    /// A set performed with bodyweight only.
    Bodyweight,
}

/// A single completed set within a workout session.
#[derive(Clone, Copy, Debug, PartialEq, Eq, Structural)]
pub struct CompletedSet {
    /// Sequential set number (1, 2, 3, ...).
    pub set_number: u32,
    /// Number of repetitions completed.
    pub reps: u32,
    /// Rate of Perceived Exertion in tenths (10 to 100, in steps of 5).
    pub rpe: u32,
    /// Whether the set was weighted, and if so with how much.
    pub set_type: SetType,
}

/// Suggested parameters used to pre-fill the inputs for the next set.
#[derive(Clone, Copy, Debug, PartialEq, Eq)]
pub struct PredictedParameters {
    /// Suggested weight in hundredths of a kilogram; `None` for bodyweight.
    pub weight: Option<u32>,
    /// Suggested number of repetitions.
    pub reps: u32,
    /// Suggested RPE in tenths.
    pub rpe: u32,
}

/// An in-progress workout session held in memory.
#[derive(Clone, Debug)]
pub struct WorkoutSession {
    /// Database row id of the session; absent until the create call returns.
    pub session_id: Option<i64>,
    /// The exercise this session is for.
    pub exercise: ExerciseMetadata,
    /// Sets logged so far, in order.
    pub completed_sets: Vec<CompletedSet>,
    /// Parameters suggested for the next set.
    pub predicted: PredictedParameters,
}

} // verus!
