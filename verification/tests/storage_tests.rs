//! Tests for the in-memory storage backend.

use workout_store::storage::{InMemoryStorage, StorageBackend};

#[test]
fn test_new_backend_has_no_store() {
    let mut storage = InMemoryStorage::new();
    assert!(!storage.has_handle());
    assert!(storage.is_using_fallback());
    assert_eq!(storage.check_cached_handle(), Ok(false));
}

#[test]
fn test_create_new_file_establishes_empty_store() {
    let mut storage = InMemoryStorage::new();
    storage.create_new_file().unwrap();
    assert!(storage.has_handle());
    assert_eq!(storage.read_file().unwrap(), Vec::<u8>::new());
    // The report is truthful: an established store counts as cached.
    assert_eq!(storage.check_cached_handle(), Ok(true));
}

#[test]
fn test_write_then_read_round_trip() {
    let mut storage = InMemoryStorage::new();
    storage.create_new_file().unwrap();
    let payload = vec![1u8, 2, 3, 4, 5];
    storage.write_file(&payload).unwrap();
    assert_eq!(storage.read_file().unwrap(), payload);
    let replacement = vec![9u8, 9];
    storage.write_file(&replacement).unwrap();
    assert_eq!(storage.read_file().unwrap(), replacement);
}

#[test]
fn test_clear_handle_discards_store() {
    let mut storage = InMemoryStorage::new();
    storage.create_new_file().unwrap();
    storage.write_file(&[1, 2, 3]).unwrap();
    storage.clear_handle().unwrap();
    assert!(!storage.has_handle());
    assert_eq!(storage.read_file().unwrap(), Vec::<u8>::new());
}

#[test]
fn test_request_permission_always_granted() {
    let storage = InMemoryStorage::new();
    assert!(storage.request_permission().is_ok());
}
