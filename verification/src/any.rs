//! The polymorphic wrapper over the synchronous and asynchronous containers.
//!
//! `SharedAny<T>` lets call sites that do not know their concurrency mode at
//! compile time hold either container kind behind one type. The mode
//! mismatch is deferred to run time: a synchronous operation on a wrapper
//! holding the asynchronous variant fails with `UnsupportedMode` instead of
//! panicking or blocking.

use vstd::prelude::*;

use crate::access::SyncAccess;
use crate::async_shared::AsyncShared;
use crate::async_shared::WeakAsyncShared;
use crate::errors::AccessError;
use crate::guards::SyncReadGuard;
use crate::guards::SyncWriteGuard;
use crate::shared::Shared;
use crate::shared::WeakShared;

verus! {

/// A container that holds either the synchronous or the asynchronous
/// variant behind one type.
#[verifier::reject_recursive_types(T)]
pub enum SharedAny<T> {
    /// A synchronous, multi-threaded container.
    Sync(Shared<T>),
    /// An asynchronous, task-based container.
    Async(AsyncShared<T>),
}

/// A weak reference to a `SharedAny<T>`, of the matching variant.
#[verifier::reject_recursive_types(T)]
pub enum WeakSharedAny<T> {
    /// Observes a synchronous container's allocation.
    Sync(WeakShared<T>),
    /// Observes an asynchronous container's allocation.
    Async(WeakAsyncShared<T>),
}

impl<T> WeakSharedAny<T> {
    /// Whether this weak reference observes the same shared allocation that
    /// the container `c` refers to, with matching concurrency modes.
    pub open spec fn observes(&self, c: SharedAny<T>) -> bool {
        match (self, c) {
            (WeakSharedAny::Sync(w), SharedAny::Sync(s)) => w.group() == s.group(),
            (WeakSharedAny::Async(w), SharedAny::Async(a)) => w.group() == a.group(),
            _ => false,
        }
    }

    /// Attempts to restore a strong handle of the matching variant. Returns
    /// `None` once every strong handle has been dropped; a returned
    /// container is of the same mode and refers to the same shared
    /// allocation as this weak reference.
    pub fn upgrade(&self) -> (r: Option<SharedAny<T>>)
        ensures
            r matches Some(c) ==> self.observes(c),
    {
        match self {
            WeakSharedAny::Sync(w) => match w.upgrade() {
                Some(s) => Some(SharedAny::Sync(s)),
                None => None,
            },
            WeakSharedAny::Async(w) => match w.upgrade() {
                Some(a) => Some(SharedAny::Async(a)),
                None => None,
            },
        }
    }
}

impl<T> Clone for WeakSharedAny<T> {
    /// Yields another weak reference observing the same shared allocation.
    fn clone(&self) -> (r: Self)
        ensures
            r == *self,
    {
        match self {
            WeakSharedAny::Sync(w) => WeakSharedAny::Sync(w.clone()),
            WeakSharedAny::Async(w) => WeakSharedAny::Async(w.clone()),
        }
    }
}

impl<T> SharedAny<T> {
    /// Creates a weak reference of the matching variant to this container's
    /// shared allocation.
    pub fn downgrade(&self) -> (r: WeakSharedAny<T>)
        ensures
            r.observes(*self),
    {
        match self {
            SharedAny::Sync(s) => WeakSharedAny::Sync(s.downgrade()),
            SharedAny::Async(a) => WeakSharedAny::Async(a.downgrade()),
        }
    }
}

impl<T> Clone for SharedAny<T> {
    /// Yields another handle of the same variant to the same shared
    /// allocation.
    fn clone(&self) -> (r: Self)
        ensures
            r == *self,
    {
        match self {
            SharedAny::Sync(s) => SharedAny::Sync(s.clone()),
            SharedAny::Async(a) => SharedAny::Async(a.clone()),
        }
    }
}

impl<T> From<Shared<T>> for SharedAny<T> {
    /// Wraps a synchronous container.
    fn from(shared: Shared<T>) -> (r: Self)
        ensures
            r == SharedAny::Sync(shared),
    {
        SharedAny::Sync(shared)
    }
}

impl<T> vstd::std_specs::convert::FromSpecImpl<Shared<T>> for SharedAny<T> {
    open spec fn obeys_from_spec() -> bool {
        true
    }

    open spec fn from_spec(v: Shared<T>) -> Self {
        SharedAny::Sync(v)
    }
}

impl<T> From<AsyncShared<T>> for SharedAny<T> {
    /// Wraps an asynchronous container.
    fn from(shared: AsyncShared<T>) -> (r: Self)
        ensures
            r == SharedAny::Async(shared),
    {
        SharedAny::Async(shared)
    }
}

impl<T> vstd::std_specs::convert::FromSpecImpl<AsyncShared<T>> for SharedAny<T> {
    open spec fn obeys_from_spec() -> bool {
        true
    }

    open spec fn from_spec(v: AsyncShared<T>) -> Self {
        SharedAny::Async(v)
    }
}

/// A wrapper holding the asynchronous variant never supports synchronous
/// access: by the contracts of `SyncAccess`, its `read`, `write`, and
/// `get_cloned` each return exactly `Err(AccessError::UnsupportedMode)`.
pub proof fn lemma_async_variant_refuses_sync_access<T>(c: SharedAny<T>, e: AccessError)
    requires
        c matches SharedAny::Async(_),
    ensures
        !c.sync_mode(),
        c.sync_err(e) <==> e == AccessError::UnsupportedMode,
{
}

impl<T> SyncAccess<T> for SharedAny<T> {
    /// Only the synchronous variant supports synchronous access.
    open spec fn sync_mode(&self) -> bool {
        self matches SharedAny::Sync(_)
    }

    /// The synchronous variant fails as its backend does; the asynchronous
    /// variant always reports the mode mismatch.
    open spec fn sync_err(&self, e: AccessError) -> bool {
        match self {
            SharedAny::Sync(s) => s.sync_err(e),
            SharedAny::Async(_) => e == AccessError::UnsupportedMode,
        }
    }

    fn read<'a>(&'a self) -> (r: Result<SyncReadGuard<'a, T>, AccessError>) {
        match self {
            SharedAny::Sync(s) => s.read(),
            SharedAny::Async(_) => Err(AccessError::UnsupportedMode),
        }
    }

    fn write<'a>(&'a self) -> (r: Result<SyncWriteGuard<'a, T>, AccessError>) {
        match self {
            SharedAny::Sync(s) => s.write(),
            SharedAny::Async(_) => Err(AccessError::UnsupportedMode),
        }
    }

    fn get_cloned(&self) -> (r: Result<T, AccessError>) where T: Clone {
        match self {
            SharedAny::Sync(s) => s.get_cloned(),
            SharedAny::Async(_) => Err(AccessError::UnsupportedMode),
        }
    }
}

} // verus!
