//! The single-threaded synchronous container and its weak counterpart.

use vstd::prelude::*;

use crate::access::SyncAccess;
use crate::errors::AccessError;
use crate::guards::local_cell_new;
use crate::guards::local_cell_read;
use crate::guards::local_cell_write;
use crate::guards::SyncReadGuard;
use crate::guards::SyncWriteGuard;
use crate::ownership::rc_clone;
use crate::ownership::WeakRc;

verus! {

/// A shared container for single-threaded use, backed by a
/// reference-counted, runtime-borrow-checked cell.
///
/// Cloning yields another handle to the same protected value. Acquisitions
/// never block: an attempt that cannot be satisfied fails immediately with
/// `BorrowConflict` instead of deadlocking.
#[verifier::reject_recursive_types(T)]
pub struct LocalShared<T> {
    inner: std::rc::Rc<std::cell::RefCell<T>>,
}

/// A weak reference to a `LocalShared<T>`: it observes the shared
/// allocation without keeping the protected value alive.
#[verifier::reject_recursive_types(T)]
pub struct WeakLocalShared<T> {
    inner: WeakRc<std::cell::RefCell<T>>,
}

impl<T> LocalShared<T> {
    /// The shared allocation this handle refers to. Handles with equal
    /// groups read and write the same protected value.
    pub closed spec fn group(&self) -> std::rc::Rc<std::cell::RefCell<T>> {
        self.inner
    }

    /// Creates a new single-threaded shared container holding `value`.
    pub fn new(value: T) -> Self {
        LocalShared { inner: std::rc::Rc::new(local_cell_new(value)) }
    }

    /// Creates a weak reference to this container's shared allocation.
    pub fn downgrade(&self) -> (r: WeakLocalShared<T>)
        ensures
            r.group() == self.group(),
    {
        WeakLocalShared { inner: WeakRc::from_rc(&self.inner) }
    }
}

impl<T> Clone for LocalShared<T> {
    /// Yields another handle to the same shared allocation.
    fn clone(&self) -> (r: Self)
        ensures
            r == *self,
    {
        LocalShared { inner: rc_clone(&self.inner) }
    }
}

impl<T> WeakLocalShared<T> {
    /// The shared allocation this weak reference observes.
    pub closed spec fn group(&self) -> std::rc::Rc<std::cell::RefCell<T>> {
        self.inner.target()
    }

    /// Attempts to restore a strong handle to the shared value. Returns
    /// `None` once every strong handle has been dropped; absence is a
    /// normal outcome, not an error. A returned handle refers to the same
    /// shared allocation this weak reference was derived from.
    pub fn upgrade(&self) -> (r: Option<LocalShared<T>>)
        ensures
            r matches Some(s) ==> s.group() == self.group(),
    {
        match self.inner.upgrade() {
            Some(a) => Some(LocalShared { inner: a }),
            None => None,
        }
    }
}

impl<T> Clone for WeakLocalShared<T> {
    /// Yields another weak reference observing the same shared allocation;
    /// the count of strong handles is unaffected.
    fn clone(&self) -> (r: Self)
        ensures
            r == *self,
    {
        WeakLocalShared { inner: self.inner.clone() }
    }
}

impl<T: PartialEq> PartialEq for LocalShared<T> {
    /// Two containers compare equal when both yield a successful read and
    /// the protected values compare equal; when either read fails, the
    /// containers compare unequal. Equality never itself reports failure.
    fn eq(&self, other: &Self) -> bool {
        match (self.read(), other.read()) {
            (Ok(a), Ok(b)) => *a.get() == *b.get(),
            _ => false,
        }
    }
}

impl<T: PartialEq> vstd::std_specs::cmp::PartialEqSpecImpl for LocalShared<T> {
    /// Container equality reads shared mutable state, so it is not a
    /// function of the handles alone and no equation over them is claimed.
    open spec fn obeys_eq_spec() -> bool {
        false
    }

    open spec fn eq_spec(&self, other: &Self) -> bool {
        arbitrary()
    }
}

impl<T> SyncAccess<T> for LocalShared<T> {
    /// This container is synchronous.
    open spec fn sync_mode(&self) -> bool {
        true
    }

    /// The single-threaded backend fails only on a borrow conflict.
    open spec fn sync_err(&self, e: AccessError) -> bool {
        e == AccessError::BorrowConflict
    }

    fn read<'a>(&'a self) -> (r: Result<SyncReadGuard<'a, T>, AccessError>) {
        match local_cell_read(&self.inner) {
            Ok(g) => Ok(SyncReadGuard::Local(g)),
            Err(e) => Err(e),
        }
    }

    fn write<'a>(&'a self) -> (r: Result<SyncWriteGuard<'a, T>, AccessError>) {
        match local_cell_write(&self.inner) {
            Ok(g) => Ok(SyncWriteGuard::Local(g)),
            Err(e) => Err(e),
        }
    }

    fn get_cloned(&self) -> (r: Result<T, AccessError>) where T: Clone {
        match self.read() {
            Ok(g) => {
                let v = g.get().clone();
                proof {
                    assert(cloned::<T>(g@, v));
                    assert(crate::access::clone_derived(v));
                }
                Ok(v)
            },
            Err(e) => Err(e),
        }
    }
}

} // verus!
