//! The multi-threaded synchronous container and its weak counterpart.

use vstd::prelude::*;

use crate::access::SyncAccess;
use crate::errors::AccessError;
use crate::guards::std_lock_new;
use crate::guards::std_lock_read;
use crate::guards::std_lock_write;
use crate::guards::SyncReadGuard;
use crate::guards::SyncWriteGuard;
use crate::ownership::arc_clone;
use crate::ownership::WeakArc;

verus! {

/// A synchronous shared container for multi-threaded use, backed by a
/// reference-counted reader-writer lock.
///
/// Cloning yields another handle to the same protected value, never a copy
/// of it. Acquisitions may block the calling thread until the lock is free
/// and fail only when the lock is poisoned.
#[verifier::reject_recursive_types(T)]
pub struct Shared<T> {
    inner: std::sync::Arc<std::sync::RwLock<T>>,
}

/// A weak reference to a `Shared<T>`: it observes the shared allocation
/// without keeping the protected value alive.
#[verifier::reject_recursive_types(T)]
pub struct WeakShared<T> {
    inner: WeakArc<std::sync::RwLock<T>>,
}

impl<T> Shared<T> {
    /// The shared allocation this handle refers to. Handles with equal
    /// groups read and write the same protected value.
    pub closed spec fn group(&self) -> std::sync::Arc<std::sync::RwLock<T>> {
        self.inner
    }

    /// Creates a new synchronous shared container holding `value`.
    pub fn new(value: T) -> Self {
        Shared { inner: std::sync::Arc::new(std_lock_new(value)) }
    }

    /// Creates a weak reference to this container's shared allocation.
    pub fn downgrade(&self) -> (r: WeakShared<T>)
        ensures
            r.group() == self.group(),
    {
        WeakShared { inner: WeakArc::from_arc(&self.inner) }
    }
}

impl<T> Clone for Shared<T> {
    /// Yields another handle to the same shared allocation.
    fn clone(&self) -> (r: Self)
        ensures
            r == *self,
    {
        Shared { inner: arc_clone(&self.inner) }
    }
}

impl<T> WeakShared<T> {
    /// The shared allocation this weak reference observes.
    pub closed spec fn group(&self) -> std::sync::Arc<std::sync::RwLock<T>> {
        self.inner.target()
    }

    /// Attempts to restore a strong handle to the shared value. Returns
    /// `None` once every strong handle has been dropped; absence is a
    /// normal outcome, not an error. A returned handle refers to the same
    /// shared allocation this weak reference was derived from.
    pub fn upgrade(&self) -> (r: Option<Shared<T>>)
        ensures
            r matches Some(s) ==> s.group() == self.group(),
    {
        match self.inner.upgrade() {
            Some(a) => Some(Shared { inner: a }),
            None => None,
        }
    }
}

impl<T> Clone for WeakShared<T> {
    /// Yields another weak reference observing the same shared allocation;
    /// the count of strong handles is unaffected.
    fn clone(&self) -> (r: Self)
        ensures
            r == *self,
    {
        WeakShared { inner: self.inner.clone() }
    }
}

impl<T> SyncAccess<T> for Shared<T> {
    /// This container is synchronous.
    open spec fn sync_mode(&self) -> bool {
        true
    }

    /// The multi-threaded backend fails only on poisoning.
    open spec fn sync_err(&self, e: AccessError) -> bool {
        e == AccessError::Poisoned
    }

    fn read<'a>(&'a self) -> (r: Result<SyncReadGuard<'a, T>, AccessError>) {
        match std_lock_read(&self.inner) {
            Ok(g) => Ok(SyncReadGuard::Std(g)),
            Err(e) => Err(e),
        }
    }

    fn write<'a>(&'a self) -> (r: Result<SyncWriteGuard<'a, T>, AccessError>) {
        match std_lock_write(&self.inner) {
            Ok(g) => Ok(SyncWriteGuard::Std(g)),
            Err(e) => Err(e),
        }
    }

    fn get_cloned(&self) -> (r: Result<T, AccessError>) where T: Clone {
        match self.read() {
            Ok(g) => {
                let v = g.get().clone();
                proof {
                    assert(cloned::<T>(g@, v));
                    assert(crate::access::clone_derived(v));
                }
                Ok(v)
            },
            Err(e) => Err(e),
        }
    }
}

} // verus!
