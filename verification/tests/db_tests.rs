//! Tests for the embedded database: lifecycle, rows, and export/import.

use workout_store::db::{Database, DatabaseError};
use workout_store::models::{CompletedSet, ExerciseMetadata, SetType, SetTypeConfig};

fn bench_press() -> ExerciseMetadata {
    ExerciseMetadata {
        name: "Bench Press".to_string(),
        set_type_config: SetTypeConfig::Weighted {
            min_weight: 4500,
            increment: 500,
        },
    }
}

fn one_set(n: u32) -> CompletedSet {
    CompletedSet {
        set_number: n,
        reps: 8,
        rpe: 70,
        set_type: SetType::Weighted { weight: 10000 },
    }
}

#[test]
fn test_operations_require_init() {
    let mut db = Database::new();
    assert_eq!(
        db.create_session("Bench Press", 1000),
        Err(DatabaseError::NotInitialized)
    );
    assert_eq!(
        db.insert_set(1, &one_set(1)),
        Err(DatabaseError::NotInitialized)
    );
    assert_eq!(
        db.complete_session(1, 1000),
        Err(DatabaseError::NotInitialized)
    );
    assert_eq!(
        db.save_exercise(&bench_press()),
        Err(DatabaseError::NotInitialized)
    );
    assert!(db.export().is_err());
}

#[test]
fn test_init_none_creates_fresh_database() {
    let mut db = Database::new();
    assert!(db.init(None).is_ok());
    let id = db.create_session("Bench Press", 1000).unwrap();
    assert_eq!(id, 1);
    let id2 = db.create_session("Squat", 2000).unwrap();
    assert_eq!(id2, 2);
}

#[test]
fn test_init_empty_buffer_creates_fresh_database() {
    let mut db = Database::new();
    assert!(db.init(Some(Vec::new())).is_ok());
    assert_eq!(db.create_session("Bench Press", 1000), Ok(1));
}

#[test]
fn test_init_rejects_garbage() {
    let mut db = Database::new();
    let garbage = vec![1u8, 2, 3, 4, 5];
    assert_eq!(
        db.init(Some(garbage)),
        Err(DatabaseError::InitializationError)
    );
}

#[test]
fn test_init_rejects_truncated_image() {
    let mut db = Database::new();
    db.init(None).unwrap();
    db.create_session("Bench Press", 1000).unwrap();
    let mut bytes = db.export().unwrap();
    bytes.pop();
    let mut db2 = Database::new();
    assert_eq!(
        db2.init(Some(bytes)),
        Err(DatabaseError::InitializationError)
    );
}

#[test]
fn test_export_starts_with_container_signature() {
    let mut db = Database::new();
    db.init(None).unwrap();
    let bytes = db.export().unwrap();
    assert!(bytes.len() >= 16);
    assert_eq!(&bytes[0..16], b"SQLite format 3\0");
}

#[test]
fn test_export_import_round_trip() {
    let mut db = Database::new();
    db.init(None).unwrap();
    db.save_exercise(&bench_press()).unwrap();
    let sid = db.create_session("Bench Press", 123456).unwrap();
    db.insert_set(sid, &one_set(1)).unwrap();
    db.insert_set(
        sid,
        &CompletedSet {
            set_number: 2,
            reps: 5,
            rpe: 85,
            set_type: SetType::Bodyweight,
        },
    )
    .unwrap();
    db.complete_session(sid, 999999).unwrap();

    let bytes = db.export().unwrap();

    let mut db2 = Database::new();
    assert!(db2.init(Some(bytes.clone())).is_ok());
    let bytes2 = db2.export().unwrap();
    assert_eq!(bytes, bytes2);
}

#[test]
fn test_round_trip_preserves_unicode_names() {
    let mut db = Database::new();
    db.init(None).unwrap();
    let exercise = ExerciseMetadata {
        name: "K\u{00e4}velykyykky \u{2014} k\u{e4}det yl\u{f6}s \u{1F3CB}".to_string(),
        set_type_config: SetTypeConfig::Bodyweight,
    };
    db.save_exercise(&exercise).unwrap();
    db.create_session(&exercise.name, 7).unwrap();

    let bytes = db.export().unwrap();
    let mut db2 = Database::new();
    assert!(db2.init(Some(bytes.clone())).is_ok());
    assert_eq!(db2.export().unwrap(), bytes);
}

#[test]
fn test_save_exercise_replaces_by_name() {
    let mut db = Database::new();
    db.init(None).unwrap();
    db.save_exercise(&bench_press()).unwrap();
    let replaced = ExerciseMetadata {
        name: "Bench Press".to_string(),
        set_type_config: SetTypeConfig::Weighted {
            min_weight: 6000,
            increment: 250,
        },
    };
    db.save_exercise(&replaced).unwrap();
    let other = ExerciseMetadata {
        name: "Squat".to_string(),
        set_type_config: SetTypeConfig::Bodyweight,
    };
    db.save_exercise(&other).unwrap();

    // The replacement is visible through the image: both databases hold the
    // same rows, so re-saving the same configuration changes nothing.
    let bytes = db.export().unwrap();
    db.save_exercise(&replaced).unwrap();
    assert_ne!(db.export().unwrap(), bytes);
    db.save_exercise(&other).unwrap();
    assert_eq!(db.export().unwrap(), bytes);
}

#[test]
fn test_session_ids_are_sequential() {
    let mut db = Database::new();
    db.init(None).unwrap();
    for expected in 1..=5i64 {
        let id = db.create_session("Bench Press", 0).unwrap();
        assert_eq!(id, expected);
    }
    for expected in 1..=5i64 {
        let id = db.insert_set(1, &one_set(expected as u32)).unwrap();
        assert_eq!(id, expected);
    }
}

#[test]
fn test_complete_session_unknown_id_is_a_no_op() {
    let mut db = Database::new();
    db.init(None).unwrap();
    db.create_session("Bench Press", 0).unwrap();
    let bytes = db.export().unwrap();
    assert!(db.complete_session(42, 100).is_ok());
    assert_eq!(db.export().unwrap(), bytes);
    assert!(db.complete_session(1, 100).is_ok());
    assert_ne!(db.export().unwrap(), bytes);
}

#[test]
fn test_reinit_replaces_content() {
    let mut db = Database::new();
    db.init(None).unwrap();
    db.create_session("Bench Press", 0).unwrap();
    let with_row = db.export().unwrap();
    db.init(None).unwrap();
    let empty = db.export().unwrap();
    assert_ne!(with_row, empty);
    assert!(db.init(Some(with_row.clone())).is_ok());
    assert_eq!(db.export().unwrap(), with_row);
}
