//! The storage backend abstraction and its in-memory implementation.
//!
//! A backend owns one backing store for the whole database blob. The trait
//! states what every backend must honor: a successful write durably stores
//! exactly the given bytes (or the old content survives), and a successful
//! read returns what is stored. The in-memory backend proves the contract;
//! platform-bound backends live at the application boundary and are driven
//! through the same orchestrator.

use vstd::prelude::*;

use crate::file_access::FileSystemError;
use vstd::slice::slice_to_vec;

verus! {

/// Abstracts the underlying storage mechanism behind the database.
pub trait StorageBackend: Sized {
    /// The bytes currently stored, if a backing store has been established.
    spec fn stored(&self) -> Option<Seq<u8>>;

    /// Whether storage is ready: a granted reference is at hand, or the
    /// fallback store is in use.
    spec fn ready(&self) -> bool;

    /// Whether the fallback key-value store is in use.
    spec fn fallback(&self) -> bool;

    /// Creates a new backend instance with no store established yet.
    fn new() -> (s: Self)
        ensures
            s.stored() is None;

    /// Checks for a previously granted, still-valid reference to storage,
    /// without any new user interaction. The report is truthful: the
    /// backend is ready afterwards exactly when it answered `true`.
    fn check_cached_handle(&mut self) -> (r: Result<bool, FileSystemError>)
        ensures
            r matches Ok(b) ==> b == final (self).ready(),
            final (self).fallback() == old(self).fallback();

    /// Establishes a brand-new, empty backing store.
    fn create_new_file(&mut self) -> (r: Result<(), FileSystemError>)
        ensures
            r is Ok ==> final (self).ready() && final (self).stored() == Some(Seq::<u8>::empty()),
            r is Err ==> *final (self) == *old(self);

    /// Lets the user pick an existing backing store.
    fn prompt_for_file(&mut self) -> (r: Result<(), FileSystemError>)
        ensures
            r is Ok ==> final (self).ready(),
            r is Err ==> *final (self) == *old(self);

    /// Reads the stored bytes; an absent store reads as empty.
    fn read_file(&self) -> (r: Result<Vec<u8>, FileSystemError>)
        ensures
            r matches Ok(d) ==> d@ == match self.stored() {
                Some(content) => content,
                None => Seq::<u8>::empty(),
            };

    /// Writes the given bytes. Atomic from the caller's view: on success
    /// exactly the new content is stored; on failure the backend is
    /// unchanged and no partial write is observable.
    fn write_file(&mut self, data: &[u8]) -> (r: Result<(), FileSystemError>)
        ensures
            r is Ok ==> final (self).stored() == Some(data@) && final (self).ready() == old(
            self).ready() && final (self).fallback() == old(self).fallback(),
            r is Err ==> *final (self) == *old(self);

    /// Whether storage is ready.
    fn has_handle(&self) -> (r: bool)
        ensures
            r == self.ready();

    /// Whether the fallback key-value store is in use.
    fn is_using_fallback(&self) -> (r: bool)
        ensures
            r == self.fallback();

    /// Re-requests consent for an already-known reference.
    fn request_permission(&self) -> (r: Result<(), FileSystemError>);

    /// Discards the current reference and its content, so the next retry
    /// cannot loop on the same bad store.
    fn clear_handle(&mut self) -> (r: Result<(), FileSystemError>)
        ensures
            r is Ok ==> final (self).stored() is None,
            final (self).fallback() == old(self).fallback();
}

/// In-memory storage backend: bypasses every file dialog and keeps the
/// blob in memory. Always counts as fallback storage.
pub struct InMemoryStorage {
    data: Option<Vec<u8>>,
    initialized: bool,
}

impl StorageBackend for InMemoryStorage {
    closed spec fn stored(&self) -> Option<Seq<u8>> {
        match self.data {
            Some(d) => Some(d@),
            None => None,
        }
    }

    closed spec fn ready(&self) -> bool {
        self.initialized
    }

    closed spec fn fallback(&self) -> bool {
        true
    }

    fn new() -> (s: Self) {
        InMemoryStorage { data: None, initialized: false }
    }

    fn check_cached_handle(&mut self) -> (r: Result<bool, FileSystemError>) {
        Ok(self.initialized)
    }

    fn create_new_file(&mut self) -> (r: Result<(), FileSystemError>) {
        self.data = Some(Vec::new());
        self.initialized = true;
        Ok(())
    }

    fn prompt_for_file(&mut self) -> (r: Result<(), FileSystemError>) {
        self.data = Some(Vec::new());
        self.initialized = true;
        Ok(())
    }

    fn read_file(&self) -> (r: Result<Vec<u8>, FileSystemError>) {
        match &self.data {
            Some(d) => Ok(slice_to_vec(d.as_slice())),
            None => Ok(Vec::new()),
        }
    }

    fn write_file(&mut self, data: &[u8]) -> (r: Result<(), FileSystemError>) {
        self.data = Some(slice_to_vec(data));
        Ok(())
    }

    fn has_handle(&self) -> (r: bool) {
        self.initialized
    }

    fn is_using_fallback(&self) -> (r: bool) {
        true
    }

    fn request_permission(&self) -> (r: Result<(), FileSystemError>) {
        Ok(())
    }

    fn clear_handle(&mut self) -> (r: Result<(), FileSystemError>) {
        self.data = None;
        self.initialized = false;
        Ok(())
    }
}

} // verus!
