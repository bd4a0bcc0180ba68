//! The capability trait for synchronous access to a shared container.

use vstd::prelude::*;

use crate::errors::AccessError;
use crate::guards::SyncReadGuard;
use crate::guards::SyncWriteGuard;

verus! {

/// Whether `v` could have been produced by `T`'s own duplication from some
/// source value.
pub open spec fn clone_derived<T: Clone>(v: T) -> bool {
    exists|a: T| #[trigger] cloned::<T>(a, v)
}

/// Synchronous access to a shared container.
///
/// Each implementor fixes, through `sync_mode` and `sync_err`, whether its
/// handles support synchronous access at all and which errors a failed
/// acquisition may report; the access methods are bound by both.
pub trait SyncAccess<T> {
    /// Whether this handle's concurrency mode supports synchronous access.
    spec fn sync_mode(&self) -> bool;

    /// Which errors a failed synchronous acquisition on this handle may
    /// report.
    spec fn sync_err(&self, e: AccessError) -> bool;

    /// Acquires shared (read) access to the contained value.
    fn read<'a>(&'a self) -> (r: Result<SyncReadGuard<'a, T>, AccessError>)
        ensures
            r matches Err(e) ==> self.sync_err(e),
            !self.sync_mode() ==> (r matches Err(e) && e == AccessError::UnsupportedMode),
    ;

    /// Acquires exclusive (write) access to the contained value.
    fn write<'a>(&'a self) -> (r: Result<SyncWriteGuard<'a, T>, AccessError>)
        ensures
            r matches Err(e) ==> self.sync_err(e),
            !self.sync_mode() ==> (r matches Err(e) && e == AccessError::UnsupportedMode),
    ;

    /// Gets a duplicate of the contained value: acquires read access,
    /// duplicates the value, releases the guard. The duplicate is a
    /// snapshot; later writes to the container never change it.
    fn get_cloned(&self) -> (r: Result<T, AccessError>) where T: Clone
        ensures
            r matches Err(e) ==> self.sync_err(e),
            !self.sync_mode() ==> (r matches Err(e) && e == AccessError::UnsupportedMode),
            r matches Ok(v) ==> clone_derived(v),
    ;
}

} // verus!
