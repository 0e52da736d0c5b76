//! Tests for the file-access rules: the size limit, the container-format
//! check, and the handle state machine.

use workout_store::file_access::{
    check_read_size, validate_image_format, FileAccess, FileSystemError, PickerOutcome,
    MAX_FILE_SIZE,
};

#[test]
fn test_read_size_limit_rejects_oversized_file() {
    // A reported size of 101 MB is rejected before any byte is read.
    let r = check_read_size(101 * 1024 * 1024);
    assert_eq!(r, Err(FileSystemError::FileTooLarge));
}

#[test]
fn test_read_size_limit_accepts_up_to_the_limit() {
    assert!(check_read_size(0).is_ok());
    assert!(check_read_size(MAX_FILE_SIZE).is_ok());
    assert_eq!(
        check_read_size(MAX_FILE_SIZE + 1),
        Err(FileSystemError::FileTooLarge)
    );
}

#[test]
fn test_format_check_accepts_empty_and_signed_content() {
    assert!(validate_image_format(&Vec::new()).is_ok());
    let mut signed = b"SQLite format 3\0".to_vec();
    signed.push(7);
    assert!(validate_image_format(&signed).is_ok());
}

#[test]
fn test_format_check_rejects_unsigned_content() {
    let unsigned = vec![42u8; 64];
    assert_eq!(
        validate_image_format(&unsigned),
        Err(FileSystemError::InvalidFormat)
    );
}

#[test]
fn test_format_check_leaves_short_content_to_the_database() {
    // Shorter than the signature: the database decides when it parses.
    let short = vec![42u8; 10];
    assert!(validate_image_format(&short).is_ok());
}

#[test]
fn test_picker_outside_user_gesture_is_a_security_error() {
    let mut access = FileAccess::new(true);
    let r = access.on_picker_outcome(PickerOutcome::NoUserGesture);
    assert_eq!(r, Err(FileSystemError::SecurityError));
    assert!(!access.has_handle());
}

#[test]
fn test_picker_outcomes_map_to_their_errors() {
    let mut access = FileAccess::new(true);
    assert_eq!(
        access.on_picker_outcome(PickerOutcome::PermissionRefused),
        Err(FileSystemError::PermissionDenied)
    );
    assert_eq!(
        access.on_picker_outcome(PickerOutcome::Aborted),
        Err(FileSystemError::UserCancelled)
    );
    assert_eq!(
        access.on_picker_outcome(PickerOutcome::Unsupported),
        Err(FileSystemError::NotSupported)
    );
    assert!(!access.has_handle());
    assert!(access.on_picker_outcome(PickerOutcome::Picked).is_ok());
    assert!(access.has_handle());
}

#[test]
fn test_fallback_needs_no_picker() {
    let mut access = FileAccess::new(false);
    assert!(access.is_using_fallback());
    assert!(access.has_handle());
    assert!(access
        .on_picker_outcome(PickerOutcome::NoUserGesture)
        .is_ok());
}

#[test]
fn test_cached_handle_bookkeeping() {
    let mut access = FileAccess::new(true);
    assert!(!access.on_cached_handle(false));
    assert!(!access.has_handle());
    assert!(access.on_cached_handle(true));
    assert!(access.has_handle());
    assert!(access.clear_handle().is_ok());
    assert!(!access.has_handle());
}

#[test]
fn test_permission_outcomes() {
    let mut access = FileAccess::new(true);
    assert_eq!(
        access.on_permission_outcome(true),
        Err(FileSystemError::NoHandle)
    );
    access.on_cached_handle(true);
    assert!(access.on_permission_outcome(true).is_ok());
    assert_eq!(
        access.on_permission_outcome(false),
        Err(FileSystemError::PermissionDenied)
    );
}

#[test]
fn test_fallback_switch_is_sticky() {
    let mut access = FileAccess::new(true);
    assert!(!access.is_using_fallback());
    assert!(access.use_fallback_storage().is_ok());
    assert!(access.is_using_fallback());
    assert!(access.has_handle());
}
