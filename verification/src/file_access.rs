//! File-access rules and the handle state machine.
//!
//! The platform calls themselves — pickers, permission prompts, reads and
//! writes — happen at the application boundary; what is verified here is
//! every decision around them: the size limit checked before any byte is
//! read, the container-format check, and how the manager's handle state
//! reacts to each classified outcome.

use vstd::prelude::*;

use crate::codec::{signature, signature_byte};

verus! {

/// Maximum allowed size for the database file: 100 MiB.
pub const MAX_FILE_SIZE: u64 = 100 * 1024 * 1024;

/// Errors surfaced by the storage layer.
#[derive(Clone, Copy, Debug, PartialEq, Eq, Structural)]
pub enum FileSystemError {
    /// Capability-based file access is not available.
    NotSupported,
    /// The user aborted the file dialog.
    UserCancelled,
    /// The user refused consent, or consent was revoked.
    PermissionDenied,
    /// The call was made outside a synchronous user-initiated event.
    SecurityError,
    /// The backing store could not be read.
    ReadError,
    /// The backing store could not be written.
    WriteError,
    /// No reference to a backing store is at hand.
    NoHandle,
    /// The reported size exceeds the limit; nothing was read.
    FileTooLarge,
    /// The content does not carry the container signature.
    InvalidFormat,
}

/// Outcome of a platform file-picker interaction, classified at the point
/// the failure originates.
#[derive(Clone, Copy, Debug, PartialEq, Eq, Structural)]
pub enum PickerOutcome {
    /// The user picked or created a file and a handle was obtained.
    Picked,
    /// The picker was invoked outside a user gesture.
    NoUserGesture,
    /// The user refused consent.
    PermissionRefused,
    /// The user dismissed the dialog.
    Aborted,
    /// The picker is not available on this platform.
    Unsupported,
}

/// Rejects a reported size over the limit before any byte is read.
pub fn check_read_size(reported_size: u64) -> (r: Result<(), FileSystemError>)
    ensures
        r is Ok <==> reported_size <= MAX_FILE_SIZE,
        r is Err ==> r == Err::<(), FileSystemError>(FileSystemError::FileTooLarge),
{
    if reported_size > MAX_FILE_SIZE {
        Err(FileSystemError::FileTooLarge)
    } else {
        Ok(())
    }
}

/// Whether a buffer passes the container-format check: an empty buffer is
/// fine (a fresh store), a buffer shorter than the signature is left for
/// the database to judge, and anything else must begin with the signature.
pub open spec fn image_format_ok(bytes: Seq<u8>) -> bool {
    bytes.len() < 16 || bytes.subrange(0, 16) == signature()
}

/// Validates the container signature of a read buffer.
pub fn validate_image_format(data: &Vec<u8>) -> (r: Result<(), FileSystemError>)
    ensures
        r is Ok <==> image_format_ok(data@),
        r is Err ==> r == Err::<(), FileSystemError>(FileSystemError::InvalidFormat),
{
    if data.len() < 16 {
        return Ok(());
    }
    let mut k: usize = 0;
    while k < 16
        invariant
            k <= 16,
            data@.len() >= 16,
            forall|j: int| 0 <= j < k ==> data@[j] == signature()[j],
        decreases 16 - k,
    {
        if data[k] != signature_byte(k) {
            proof {
                assert(data@.subrange(0, 16)[k as int] == data@[k as int]);
                assert(data@.subrange(0, 16) != signature());
            }
            return Err(FileSystemError::InvalidFormat);
        }
        k = k + 1;
    }
    proof {
        assert(data@.subrange(0, 16) =~= signature());
    }
    Ok(())
}

/// The verified state of the file-access manager: whether a capability
/// handle is held, and whether the fallback key-value store is in use.
pub struct FileAccess {
    handle_present: bool,
    use_fallback: bool,
}

impl FileAccess {
    /// Whether a capability handle is currently held.
    pub closed spec fn handle_present(&self) -> bool {
        self.handle_present
    }

    /// Whether the fallback key-value store is in use.
    pub closed spec fn using_fallback(&self) -> bool {
        self.use_fallback
    }

    /// A fresh manager: no handle yet; the fallback store is selected
    /// exactly when capability-based file access is unavailable.
    pub fn new(api_supported: bool) -> (s: FileAccess)
        ensures
            !s.handle_present(),
            s.using_fallback() == !api_supported,
    {
        FileAccess { handle_present: false, use_fallback: !api_supported }
    }

    /// Switches to the fallback key-value store.
    pub fn use_fallback_storage(&mut self) -> (r: Result<(), FileSystemError>)
        ensures
            r is Ok,
            final (self).using_fallback(),
            final (self).handle_present() == old(self).handle_present(),
    {
        self.use_fallback = true;
        Ok(())
    }

    /// Records the outcome of looking for a previously stored handle.
    ///
    /// With the fallback store there is nothing to cache, so the store
    /// counts as present. Otherwise the handle is kept exactly when one was
    /// found, and the caller learns whether it can read right away.
    pub fn on_cached_handle(&mut self, found: bool) -> (r: bool)
        ensures
            final (self).using_fallback() == old(self).using_fallback(),
            old(self).using_fallback() ==> r && *final (self) == *old(self),
            !old(self).using_fallback() ==> r == found && final (self).handle_present() == (old(
            self).handle_present() || found),
    {
        if self.use_fallback {
            return true;
        }
        if found {
            self.handle_present = true;
        }
        found
    }

    /// Records the outcome of a gesture-bound file picker interaction,
    /// classifying each failure as the storage error it originates from.
    ///
    /// With the fallback store no picker runs and the store is simply
    /// established.
    pub fn on_picker_outcome(&mut self, outcome: PickerOutcome) -> (r: Result<(), FileSystemError>)
        ensures
            final (self).using_fallback() == old(self).using_fallback(),
            old(self).using_fallback() ==> r is Ok && *final (self) == *old(self),
            !old(self).using_fallback() ==> ({
                &&& r is Ok <==> outcome is Picked
                &&& final (self).handle_present() == (old(self).handle_present() || outcome
                    is Picked)
                &&& (outcome is NoUserGesture ==> r == Err::<(), FileSystemError>(
                    FileSystemError::SecurityError,
                ))
                &&& (outcome is PermissionRefused ==> r == Err::<(), FileSystemError>(
                    FileSystemError::PermissionDenied,
                ))
                &&& (outcome is Aborted ==> r == Err::<(), FileSystemError>(
                    FileSystemError::UserCancelled,
                ))
                &&& (outcome is Unsupported ==> r == Err::<(), FileSystemError>(
                    FileSystemError::NotSupported,
                ))
            }),
    {
        if self.use_fallback {
            return Ok(());
        }
        match outcome {
            PickerOutcome::Picked => {
                self.handle_present = true;
                Ok(())
            },
            PickerOutcome::NoUserGesture => Err(FileSystemError::SecurityError),
            PickerOutcome::PermissionRefused => Err(FileSystemError::PermissionDenied),
            PickerOutcome::Aborted => Err(FileSystemError::UserCancelled),
            PickerOutcome::Unsupported => Err(FileSystemError::NotSupported),
        }
    }

    /// Judges a consent re-request for an already-known handle.
    pub fn on_permission_outcome(&self, granted: bool) -> (r: Result<(), FileSystemError>)
        ensures
            !self.handle_present() ==> r == Err::<(), FileSystemError>(FileSystemError::NoHandle),
            self.handle_present() ==> (r is Ok <==> granted) && (r is Err ==> r == Err::<
                (),
                FileSystemError,
            >(FileSystemError::PermissionDenied)),
    {
        if !self.handle_present {
            return Err(FileSystemError::NoHandle);
        }
        if granted {
            Ok(())
        } else {
            Err(FileSystemError::PermissionDenied)
        }
    }

    /// Discards the cached handle, so a retry cannot loop on the same bad
    /// reference.
    pub fn clear_handle(&mut self) -> (r: Result<(), FileSystemError>)
        ensures
            r is Ok,
            !final (self).handle_present(),
            final (self).using_fallback() == old(self).using_fallback(),
    {
        self.handle_present = false;
        Ok(())
    }

    /// Whether storage is ready: a handle is held or the fallback is in use.
    pub fn has_handle(&self) -> (r: bool)
        ensures
            r == (self.handle_present() || self.using_fallback()),
    {
        self.handle_present || self.use_fallback
    }

    /// Whether the fallback key-value store is in use.
    pub fn is_using_fallback(&self) -> (r: bool)
        ensures
            r == self.using_fallback(),
    {
        self.use_fallback
    }
}

} // verus!
