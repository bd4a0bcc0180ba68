//! Scoped borrow guards over the locking primitives the containers use.
//!
//! Each backend's guard couples the primitive's own guard with a ghost copy
//! of the value it exposes: while a read guard lives, writers are excluded,
//! and while a write guard lives, it is the only access path, so the exposed
//! value is fixed for the guard's whole lifetime except through the guard
//! itself. The contracts of `get` and `set` state exactly that.

use vstd::prelude::*;

use crate::errors::AccessError;

verus! {

#[verifier::external_type_specification]
#[verifier::external_body]
#[verifier::reject_recursive_types(T)]
pub struct ExRwLock<T: ?Sized>(std::sync::RwLock<T>);

#[verifier::external_type_specification]
#[verifier::external_body]
#[verifier::reject_recursive_types(T)]
pub struct ExRwLockReadGuard<'a, T: ?Sized>(std::sync::RwLockReadGuard<'a, T>);

#[verifier::external_type_specification]
#[verifier::external_body]
#[verifier::reject_recursive_types(T)]
pub struct ExRwLockWriteGuard<'a, T: ?Sized + 'a>(std::sync::RwLockWriteGuard<'a, T>);

#[verifier::external_type_specification]
#[verifier::external_body]
#[verifier::reject_recursive_types(T)]
pub struct ExRefCell<T: ?Sized>(std::cell::RefCell<T>);

#[verifier::external_type_specification]
#[verifier::external_body]
#[verifier::reject_recursive_types(T)]
pub struct ExRef<'a, T: ?Sized>(std::cell::Ref<'a, T>);

#[verifier::external_type_specification]
#[verifier::external_body]
#[verifier::reject_recursive_types(T)]
pub struct ExRefMut<'a, T: ?Sized + 'a>(std::cell::RefMut<'a, T>);

/// Relies on `std::sync::RwLock::new`: wraps the value in a fresh lock.
#[verifier::external_body]
pub(crate) fn std_lock_new<T>(value: T) -> std::sync::RwLock<T> {
    std::sync::RwLock::new(value)
}

/// Relies on `std::cell::RefCell::new`: wraps the value in a fresh cell.
#[verifier::external_body]
pub(crate) fn local_cell_new<T>(value: T) -> std::cell::RefCell<T> {
    std::cell::RefCell::new(value)
}

/// A read guard over the multi-threaded backend's reader-writer lock.
#[verifier::reject_recursive_types(T)]
pub struct StdReadGuard<'a, T> {
    inner: std::sync::RwLockReadGuard<'a, T>,
    value: Ghost<T>,
}

impl<'a, T> View for StdReadGuard<'a, T> {
    type V = T;

    closed spec fn view(&self) -> T {
        self.value@
    }
}

impl<'a, T> StdReadGuard<'a, T> {
    /// Relies on `RwLockReadGuard`'s `Deref`: a read guard dereferences to
    /// the protected value, which cannot change while the guard lives.
    #[verifier::external_body]
    pub fn get(&self) -> (r: &T)
        ensures
            *r == self@,
    {
        &*self.inner
    }
}

/// A write guard over the multi-threaded backend's reader-writer lock.
#[verifier::reject_recursive_types(T)]
pub struct StdWriteGuard<'a, T> {
    inner: std::sync::RwLockWriteGuard<'a, T>,
    value: Ghost<T>,
}

impl<'a, T> View for StdWriteGuard<'a, T> {
    type V = T;

    closed spec fn view(&self) -> T {
        self.value@
    }
}

impl<'a, T> StdWriteGuard<'a, T> {
    /// Relies on `RwLockWriteGuard`'s `Deref`: a write guard dereferences to
    /// the protected value, which only changes through this guard.
    #[verifier::external_body]
    pub fn get(&self) -> (r: &T)
        ensures
            *r == self@,
    {
        &*self.inner
    }

    /// Relies on `RwLockWriteGuard`'s `DerefMut`: assigning through the
    /// guard replaces the protected value.
    #[verifier::external_body]
    pub fn set(&mut self, value: T)
        ensures
            final(self)@ == value,
    {
        *self.inner = value;
    }
}

/// Relies on `std::sync::RwLock::read`: it fails exactly when the lock is
/// poisoned, and otherwise returns a guard on the protected value.
#[verifier::external_body]
pub(crate) fn std_lock_read<'a, T>(lock: &'a std::sync::RwLock<T>) -> (r: Result<
    StdReadGuard<'a, T>,
    AccessError,
>)
    ensures
        r matches Err(e) ==> e == AccessError::Poisoned,
{
    match lock.read() {
        Ok(inner) => Ok(StdReadGuard { inner, value: Ghost(arbitrary()) }),
        Err(_) => Err(AccessError::Poisoned),
    }
}

/// Relies on `std::sync::RwLock::write`: it fails exactly when the lock is
/// poisoned, and otherwise returns an exclusive guard on the protected value.
#[verifier::external_body]
pub(crate) fn std_lock_write<'a, T>(lock: &'a std::sync::RwLock<T>) -> (r: Result<
    StdWriteGuard<'a, T>,
    AccessError,
>)
    ensures
        r matches Err(e) ==> e == AccessError::Poisoned,
{
    match lock.write() {
        Ok(inner) => Ok(StdWriteGuard { inner, value: Ghost(arbitrary()) }),
        Err(_) => Err(AccessError::Poisoned),
    }
}

/// A read guard over the single-threaded backend's borrow-checked cell.
#[verifier::reject_recursive_types(T)]
pub struct LocalReadGuard<'a, T> {
    inner: std::cell::Ref<'a, T>,
    value: Ghost<T>,
}

impl<'a, T> View for LocalReadGuard<'a, T> {
    type V = T;

    closed spec fn view(&self) -> T {
        self.value@
    }
}

impl<'a, T> LocalReadGuard<'a, T> {
    /// Relies on `Ref`'s `Deref`: a live read borrow dereferences to the
    /// cell's value, which cannot change while the borrow lives.
    #[verifier::external_body]
    pub fn get(&self) -> (r: &T)
        ensures
            *r == self@,
    {
        &*self.inner
    }
}

/// A write guard over the single-threaded backend's borrow-checked cell.
#[verifier::reject_recursive_types(T)]
pub struct LocalWriteGuard<'a, T> {
    inner: std::cell::RefMut<'a, T>,
    value: Ghost<T>,
}

impl<'a, T> View for LocalWriteGuard<'a, T> {
    type V = T;

    closed spec fn view(&self) -> T {
        self.value@
    }
}

impl<'a, T> LocalWriteGuard<'a, T> {
    /// Relies on `RefMut`'s `Deref`: a live write borrow dereferences to the
    /// cell's value, which only changes through this borrow.
    #[verifier::external_body]
    pub fn get(&self) -> (r: &T)
        ensures
            *r == self@,
    {
        &*self.inner
    }

    /// Relies on `RefMut`'s `DerefMut`: assigning through the borrow
    /// replaces the cell's value.
    #[verifier::external_body]
    pub fn set(&mut self, value: T)
        ensures
            final(self)@ == value,
    {
        *self.inner = value;
    }
}

/// Relies on `std::cell::RefCell::try_borrow`: it fails exactly when an
/// incompatible (write) borrow is outstanding, and never blocks.
#[verifier::external_body]
pub(crate) fn local_cell_read<'a, T>(cell: &'a std::cell::RefCell<T>) -> (r: Result<
    LocalReadGuard<'a, T>,
    AccessError,
>)
    ensures
        r matches Err(e) ==> e == AccessError::BorrowConflict,
{
    match cell.try_borrow() {
        Ok(inner) => Ok(LocalReadGuard { inner, value: Ghost(arbitrary()) }),
        Err(_) => Err(AccessError::BorrowConflict),
    }
}

/// Relies on `std::cell::RefCell::try_borrow_mut`: it fails exactly when any
/// other borrow is outstanding, and never blocks.
#[verifier::external_body]
pub(crate) fn local_cell_write<'a, T>(cell: &'a std::cell::RefCell<T>) -> (r: Result<
    LocalWriteGuard<'a, T>,
    AccessError,
>)
    ensures
        r matches Err(e) ==> e == AccessError::BorrowConflict,
{
    match cell.try_borrow_mut() {
        Ok(inner) => Ok(LocalWriteGuard { inner, value: Ghost(arbitrary()) }),
        Err(_) => Err(AccessError::BorrowConflict),
    }
}

/// Read guard for synchronous access, over either synchronous backend.
#[verifier::reject_recursive_types(T)]
pub enum SyncReadGuard<'a, T> {
    /// Produced by the multi-threaded backend.
    Std(StdReadGuard<'a, T>),
    /// Produced by the single-threaded backend.
    Local(LocalReadGuard<'a, T>),
}

impl<'a, T> View for SyncReadGuard<'a, T> {
    type V = T;

    closed spec fn view(&self) -> T {
        match self {
            SyncReadGuard::Std(g) => g@,
            SyncReadGuard::Local(g) => g@,
        }
    }
}

impl<'a, T> SyncReadGuard<'a, T> {
    /// Immutable access to the protected value.
    pub fn get(&self) -> (r: &T)
        ensures
            *r == self@,
    {
        match self {
            SyncReadGuard::Std(g) => g.get(),
            SyncReadGuard::Local(g) => g.get(),
        }
    }
}

/// Write guard for synchronous access, over either synchronous backend.
#[verifier::reject_recursive_types(T)]
pub enum SyncWriteGuard<'a, T> {
    /// Produced by the multi-threaded backend.
    Std(StdWriteGuard<'a, T>),
    /// Produced by the single-threaded backend.
    Local(LocalWriteGuard<'a, T>),
}

impl<'a, T> View for SyncWriteGuard<'a, T> {
    type V = T;

    closed spec fn view(&self) -> T {
        match self {
            SyncWriteGuard::Std(g) => g@,
            SyncWriteGuard::Local(g) => g@,
        }
    }
}

impl<'a, T> SyncWriteGuard<'a, T> {
    /// Immutable access to the protected value.
    pub fn get(&self) -> (r: &T)
        ensures
            *r == self@,
    {
        match self {
            SyncWriteGuard::Std(g) => g.get(),
            SyncWriteGuard::Local(g) => g.get(),
        }
    }

    /// Replaces the protected value.
    pub fn set(&mut self, value: T)
        ensures
            final(self)@ == value,
    {
        match self {
            SyncWriteGuard::Std(g) => g.set(value),
            SyncWriteGuard::Local(g) => g.set(value),
        }
    }
}

} // verus!
