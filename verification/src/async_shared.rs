//! The asynchronous container and its weak counterpart.
//!
//! An `AsyncShared<T>` is backed by a task-aware reader-writer lock whose
//! acquisitions suspend the calling task until access is granted, so
//! contention is never surfaced as an error. Awaiting is left to the caller:
//! this crate manages the handles (creation, cloning, weak references) and
//! exposes the lock itself through [`AsyncShared::raw_lock`] for the
//! asynchronous layer around it to acquire.

use vstd::prelude::*;

use crate::ownership::arc_clone;
use crate::ownership::WeakArc;

verus! {

#[verifier::external_type_specification]
#[verifier::external_body]
#[verifier::reject_recursive_types(T)]
pub struct ExTokioRwLock<T: ?Sized>(tokio::sync::RwLock<T>);

/// Relies on `tokio::sync::RwLock::new`: wraps the value in a fresh
/// task-aware lock.
#[verifier::external_body]
fn tokio_lock_new<T>(value: T) -> tokio::sync::RwLock<T> {
    tokio::sync::RwLock::new(value)
}

/// An asynchronous shared container for cooperative multitask use, backed
/// by a reference-counted, task-aware reader-writer lock.
///
/// Cloning yields another handle to the same protected value, never a copy
/// of it.
#[verifier::reject_recursive_types(T)]
pub struct AsyncShared<T> {
    inner: std::sync::Arc<tokio::sync::RwLock<T>>,
}

/// A weak reference to an `AsyncShared<T>`: it observes the shared
/// allocation without keeping the protected value alive.
#[verifier::reject_recursive_types(T)]
pub struct WeakAsyncShared<T> {
    inner: WeakArc<tokio::sync::RwLock<T>>,
}

impl<T> AsyncShared<T> {
    /// The shared allocation this handle refers to. Handles with equal
    /// groups read and write the same protected value.
    pub closed spec fn group(&self) -> std::sync::Arc<tokio::sync::RwLock<T>> {
        self.inner
    }

    /// Creates a new asynchronous shared container holding `value`.
    pub fn new(value: T) -> Self {
        AsyncShared { inner: std::sync::Arc::new(tokio_lock_new(value)) }
    }

    /// The task-aware lock guarding the shared value. Awaiting its read and
    /// write acquisitions is the asynchronous layer's business; every guard
    /// it hands out borrows the same allocation this handle refers to.
    pub fn raw_lock(&self) -> (r: &std::sync::Arc<tokio::sync::RwLock<T>>)
        ensures
            *r == self.group(),
    {
        &self.inner
    }

    /// Creates a weak reference to this container's shared allocation.
    pub fn downgrade(&self) -> (r: WeakAsyncShared<T>)
        ensures
            r.group() == self.group(),
    {
        WeakAsyncShared { inner: WeakArc::from_arc(&self.inner) }
    }
}

impl<T> Clone for AsyncShared<T> {
    /// Yields another handle to the same shared allocation.
    fn clone(&self) -> (r: Self)
        ensures
            r == *self,
    {
        AsyncShared { inner: arc_clone(&self.inner) }
    }
}

impl<T> WeakAsyncShared<T> {
    /// The shared allocation this weak reference observes.
    pub closed spec fn group(&self) -> std::sync::Arc<tokio::sync::RwLock<T>> {
        self.inner.target()
    }

    /// Attempts to restore a strong handle to the shared value. Returns
    /// `None` once every strong handle has been dropped; absence is a
    /// normal outcome, not an error. A returned handle refers to the same
    /// shared allocation this weak reference was derived from.
    pub fn upgrade(&self) -> (r: Option<AsyncShared<T>>)
        ensures
            r matches Some(s) ==> s.group() == self.group(),
    {
        match self.inner.upgrade() {
            Some(a) => Some(AsyncShared { inner: a }),
            None => None,
        }
    }
}

impl<T> Clone for WeakAsyncShared<T> {
    /// Yields another weak reference observing the same shared allocation;
    /// the count of strong handles is unaffected.
    fn clone(&self) -> (r: Self)
        ensures
            r == *self,
    {
        WeakAsyncShared { inner: self.inner.clone() }
    }
}

} // verus!
