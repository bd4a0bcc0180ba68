//! The closed set of failures an access attempt can report.

use vstd::prelude::*;

verus! {

/// Errors that can occur when accessing shared containers.
///
/// Every access operation reports failure as one of these values; the
/// library never panics on contention and never retries on its own.
#[derive(Debug, PartialEq, Eq, Structural)]
pub enum AccessError {
    /// The requested operation is not supported for this container's
    /// concurrency mode, e.g. a synchronous read on an asynchronous
    /// container held behind `SharedAny`.
    UnsupportedMode,
    /// The single-threaded backend already has an incompatible borrow
    /// outstanding; the attempt fails fast instead of blocking.
    BorrowConflict,
    /// A previous holder of a multi-threaded lock panicked while holding
    /// it, so the protected value may be inconsistent.
    Poisoned,
}

impl Clone for AccessError {
    /// The clone is the same error value.
    fn clone(&self) -> (r: Self)
        ensures
            r == *self,
    {
        match self {
            AccessError::UnsupportedMode => AccessError::UnsupportedMode,
            AccessError::BorrowConflict => AccessError::BorrowConflict,
            AccessError::Poisoned => AccessError::Poisoned,
        }
    }
}

impl AccessError {
    /// A human-readable description of the failure.
    pub fn message(&self) -> (s: String)
        ensures
            *self == AccessError::UnsupportedMode ==> s@ == "operation not supported for this container mode"@,
            *self == AccessError::BorrowConflict ==> s@ == "borrow conflict: lock already held"@,
            *self == AccessError::Poisoned ==> s@ == "lock poisoned by panic"@,
    {
        match self {
            AccessError::UnsupportedMode => "operation not supported for this container mode".to_owned(),
            AccessError::BorrowConflict => "borrow conflict: lock already held".to_owned(),
            AccessError::Poisoned => "lock poisoned by panic".to_owned(),
        }
    }
}

} // verus!
