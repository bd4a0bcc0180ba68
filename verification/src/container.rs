//! The first-generation container API, kept for callers that predate the
//! mode-separated types.
//!
//! `SharedContainer<T>` is the multi-threaded flavour of the old unified
//! container: the same backend as `Shared<T>`, but every access reports
//! failure as a bare `None` instead of a typed error. New code should use
//! `Shared<T>` or `AsyncShared<T>`.

use vstd::prelude::*;

use crate::access::clone_derived;
use crate::guards::std_lock_new;
use crate::guards::std_lock_read;
use crate::guards::std_lock_write;
use crate::guards::StdReadGuard;
use crate::guards::StdWriteGuard;
use crate::ownership::arc_clone;
use crate::ownership::WeakArc;

verus! {

/// A shared container for multi-threaded use, with `Option`-shaped results.
///
/// Superseded by `Shared<T>`, which reports why an access failed.
#[verifier::reject_recursive_types(T)]
pub struct SharedContainer<T> {
    inner: std::sync::Arc<std::sync::RwLock<T>>,
}

/// A weak reference to a `SharedContainer<T>`.
///
/// Superseded by `WeakShared<T>`.
#[verifier::reject_recursive_types(T)]
pub struct WeakSharedContainer<T> {
    inner: WeakArc<std::sync::RwLock<T>>,
}

/// A read-only guard for data in a `SharedContainer`.
#[verifier::reject_recursive_types(T)]
pub enum SharedReadGuard<'a, T> {
    /// Produced by the multi-threaded backend.
    StdSync(StdReadGuard<'a, T>),
}

impl<'a, T> View for SharedReadGuard<'a, T> {
    type V = T;

    closed spec fn view(&self) -> T {
        match self {
            SharedReadGuard::StdSync(g) => g@,
        }
    }
}

impl<'a, T> SharedReadGuard<'a, T> {
    /// Immutable access to the protected value.
    pub fn get(&self) -> (r: &T)
        ensures
            *r == self@,
    {
        match self {
            SharedReadGuard::StdSync(g) => g.get(),
        }
    }
}

/// A writable guard for data in a `SharedContainer`.
#[verifier::reject_recursive_types(T)]
pub enum SharedWriteGuard<'a, T> {
    /// Produced by the multi-threaded backend.
    StdSync(StdWriteGuard<'a, T>),
}

impl<'a, T> View for SharedWriteGuard<'a, T> {
    type V = T;

    closed spec fn view(&self) -> T {
        match self {
            SharedWriteGuard::StdSync(g) => g@,
        }
    }
}

impl<'a, T> SharedWriteGuard<'a, T> {
    /// Immutable access to the protected value.
    pub fn get(&self) -> (r: &T)
        ensures
            *r == self@,
    {
        match self {
            SharedWriteGuard::StdSync(g) => g.get(),
        }
    }

    /// Replaces the protected value.
    pub fn set(&mut self, value: T)
        ensures
            final(self)@ == value,
    {
        match self {
            SharedWriteGuard::StdSync(g) => g.set(value),
        }
    }
}

impl<T> SharedContainer<T> {
    /// The shared allocation this handle refers to. Handles with equal
    /// groups read and write the same protected value.
    pub closed spec fn group(&self) -> std::sync::Arc<std::sync::RwLock<T>> {
        self.inner
    }

    /// Creates a new container holding `value`.
    pub fn new(value: T) -> Self {
        SharedContainer { inner: std::sync::Arc::new(std_lock_new(value)) }
    }

    /// Gets a read-only guard on the contained value, or `None` when the
    /// lock cannot be acquired (it is poisoned).
    pub fn read<'a>(&'a self) -> (r: Option<SharedReadGuard<'a, T>>) {
        match std_lock_read(&self.inner) {
            Ok(g) => Some(SharedReadGuard::StdSync(g)),
            Err(_) => None,
        }
    }

    /// Gets a writable guard on the contained value, or `None` when the
    /// lock cannot be acquired (it is poisoned).
    pub fn write<'a>(&'a self) -> (r: Option<SharedWriteGuard<'a, T>>) {
        match std_lock_write(&self.inner) {
            Ok(g) => Some(SharedWriteGuard::StdSync(g)),
            Err(_) => None,
        }
    }

    /// Creates a weak reference to this container's shared allocation; it
    /// never inspects the current borrow state.
    pub fn downgrade(&self) -> (r: WeakSharedContainer<T>)
        ensures
            r.group() == self.group(),
    {
        WeakSharedContainer { inner: WeakArc::from_arc(&self.inner) }
    }
}

impl<T: Clone> SharedContainer<T> {
    /// Gets a duplicate of the contained value: acquires a read guard,
    /// duplicates, releases. The duplicate is a snapshot; later writes to
    /// the container never change it.
    pub fn get_cloned(&self) -> (r: Option<T>)
        ensures
            r matches Some(v) ==> clone_derived(v),
    {
        match self.read() {
            Some(g) => {
                let v = g.get().clone();
                proof {
                    assert(cloned::<T>(g@, v));
                    assert(clone_derived(v));
                }
                Some(v)
            },
            None => None,
        }
    }
}

impl<T> Clone for SharedContainer<T> {
    /// Yields another handle to the same shared allocation, never a copy of
    /// the protected value.
    fn clone(&self) -> (r: Self)
        ensures
            r == *self,
    {
        SharedContainer { inner: arc_clone(&self.inner) }
    }
}

impl<T: PartialEq> PartialEq for SharedContainer<T> {
    /// Two containers compare equal when both yield a successful read and
    /// the protected values compare equal; when either read fails, the
    /// containers compare unequal. Equality never itself reports failure.
    fn eq(&self, other: &Self) -> bool {
        match (self.read(), other.read()) {
            (Some(a), Some(b)) => *a.get() == *b.get(),
            _ => false,
        }
    }
}

impl<T: PartialEq> vstd::std_specs::cmp::PartialEqSpecImpl for SharedContainer<T> {
    /// Container equality reads shared mutable state, so it is not a
    /// function of the handles alone and no equation over them is claimed.
    open spec fn obeys_eq_spec() -> bool {
        false
    }

    open spec fn eq_spec(&self, other: &Self) -> bool {
        arbitrary()
    }
}

impl<T> WeakSharedContainer<T> {
    /// The shared allocation this weak reference observes.
    pub closed spec fn group(&self) -> std::sync::Arc<std::sync::RwLock<T>> {
        self.inner.target()
    }

    /// Attempts to restore a strong container. Returns `None` once every
    /// strong handle has been dropped. A returned container refers to the
    /// same shared allocation this weak reference was derived from.
    pub fn upgrade(&self) -> (r: Option<SharedContainer<T>>)
        ensures
            r matches Some(s) ==> s.group() == self.group(),
    {
        match self.inner.upgrade() {
            Some(a) => Some(SharedContainer { inner: a }),
            None => None,
        }
    }
}

impl<T> Clone for WeakSharedContainer<T> {
    /// Yields another weak reference observing the same shared allocation;
    /// the count of strong handles is unaffected.
    fn clone(&self) -> (r: Self)
        ensures
            r == *self,
    {
        WeakSharedContainer { inner: self.inner.clone() }
    }
}

} // verus!
