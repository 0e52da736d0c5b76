//! Local-first persistence and initialization engine for a single-user
//! strength-training application.
//!
//! The crate models the application's core: exercise and set data with
//! validation rules, an embedded database image with full export/import,
//! a readiness state machine, and a session orchestrator with progression
//! prediction and debounced auto-save.
//!
//! All weights are fixed-point values in hundredths of a kilogram
//! (so `2.5 kg` is `250`), and RPE values are in tenths (so `7.5` is `75`).
//! This keeps every rule exact: "a multiple of the increment" is ordinary
//! modular arithmetic rather than a floating-point tolerance.

pub mod codec;
pub mod db;
pub mod error;
pub mod file_access;
pub mod image;
pub mod models;
pub mod storage;
pub mod validation;
pub mod workout_state;
