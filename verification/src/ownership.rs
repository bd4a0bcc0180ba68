//! Trusted wrappers over the shared-ownership pointers the containers use.
//!
//! At the specification level a reference-counted pointer stands for the
//! allocation it points to, so two handles to the same allocation are equal
//! and a clone is equal to its source. The weak counterparts of `Arc` and
//! `Rc` take an allocator type parameter that Verus cannot declare, so each
//! is held opaquely, paired with a ghost record of the allocation it was
//! derived from; upgrading is promised to lead back to that allocation.

use vstd::prelude::*;

verus! {

/// Relies on `std::sync::Arc::clone`: the clone is a handle to the same
/// allocation as its source.
#[verifier::external_body]
pub(crate) fn arc_clone<L>(a: &std::sync::Arc<L>) -> (r: std::sync::Arc<L>)
    ensures
        r == *a,
{
    std::sync::Arc::clone(a)
}

/// Relies on `std::rc::Rc::clone`: the clone is a handle to the same
/// allocation as its source.
#[verifier::external_body]
pub(crate) fn rc_clone<L>(a: &std::rc::Rc<L>) -> (r: std::rc::Rc<L>)
    ensures
        r == *a,
{
    std::rc::Rc::clone(a)
}

/// Holds a `std::sync::Weak<L>`, which Verus cannot declare directly.
#[verifier::external_body]
#[verifier::reject_recursive_types(L)]
pub(crate) struct StdWeak<L>(std::sync::Weak<L>);

/// Relies on `std::sync::Arc::downgrade`: makes a non-owning reference to
/// the allocation behind the handle.
#[verifier::external_body]
fn std_weak_from<L>(a: &std::sync::Arc<L>) -> StdWeak<L> {
    StdWeak(std::sync::Arc::downgrade(a))
}

/// Relies on `std::sync::Weak::clone`: the clone observes the same
/// allocation as its source.
#[verifier::external_body]
fn std_weak_clone<L>(w: &StdWeak<L>) -> (r: StdWeak<L>)
    ensures
        r == *w,
{
    StdWeak(w.0.clone())
}

/// A non-owning counterpart of `Arc<L>` that records, in ghost state, the
/// allocation it was derived from.
#[verifier::reject_recursive_types(L)]
pub(crate) struct WeakArc<L> {
    raw: StdWeak<L>,
    target: Ghost<std::sync::Arc<L>>,
}

impl<L> WeakArc<L> {
    /// The allocation this weak reference was derived from.
    pub(crate) closed spec fn target(&self) -> std::sync::Arc<L> {
        self.target@
    }

    /// Makes a non-owning reference to the allocation behind `a`.
    pub(crate) fn from_arc(a: &std::sync::Arc<L>) -> (r: WeakArc<L>)
        ensures
            r.target() == *a,
    {
        WeakArc { raw: std_weak_from(a), target: Ghost(*a) }
    }

    /// Relies on `std::sync::Weak::upgrade`: when it returns a strong
    /// handle, that handle refers to the allocation this weak reference was
    /// derived from; it returns nothing once every strong handle has been
    /// dropped.
    #[verifier::external_body]
    pub(crate) fn upgrade(&self) -> (r: Option<std::sync::Arc<L>>)
        ensures
            r matches Some(a) ==> a == self.target(),
    {
        self.raw.0.upgrade()
    }
}

impl<L> Clone for WeakArc<L> {
    /// Yields another weak reference to the same allocation.
    fn clone(&self) -> (r: Self)
        ensures
            r == *self,
    {
        WeakArc { raw: std_weak_clone(&self.raw), target: self.target }
    }
}

/// Holds a `std::rc::Weak<L>`, which Verus cannot declare directly.
#[verifier::external_body]
#[verifier::reject_recursive_types(L)]
pub(crate) struct RcWeak<L>(std::rc::Weak<L>);

/// Relies on `std::rc::Rc::downgrade`: makes a non-owning reference to the
/// allocation behind the handle.
#[verifier::external_body]
fn rc_weak_from<L>(a: &std::rc::Rc<L>) -> RcWeak<L> {
    RcWeak(std::rc::Rc::downgrade(a))
}

/// Relies on `std::rc::Weak::clone`: the clone observes the same allocation
/// as its source.
#[verifier::external_body]
fn rc_weak_clone<L>(w: &RcWeak<L>) -> (r: RcWeak<L>)
    ensures
        r == *w,
{
    RcWeak(w.0.clone())
}

/// A non-owning counterpart of `Rc<L>` that records, in ghost state, the
/// allocation it was derived from.
#[verifier::reject_recursive_types(L)]
pub(crate) struct WeakRc<L> {
    raw: RcWeak<L>,
    target: Ghost<std::rc::Rc<L>>,
}

impl<L> WeakRc<L> {
    /// The allocation this weak reference was derived from.
    pub(crate) closed spec fn target(&self) -> std::rc::Rc<L> {
        self.target@
    }

    /// Makes a non-owning reference to the allocation behind `a`.
    pub(crate) fn from_rc(a: &std::rc::Rc<L>) -> (r: WeakRc<L>)
        ensures
            r.target() == *a,
    {
        WeakRc { raw: rc_weak_from(a), target: Ghost(*a) }
    }

    /// Relies on `std::rc::Weak::upgrade`: when it returns a strong handle,
    /// that handle refers to the allocation this weak reference was derived
    /// from; it returns nothing once every strong handle has been dropped.
    #[verifier::external_body]
    pub(crate) fn upgrade(&self) -> (r: Option<std::rc::Rc<L>>)
        ensures
            r matches Some(a) ==> a == self.target(),
    {
        self.raw.0.upgrade()
    }
}

impl<L> Clone for WeakRc<L> {
    /// Yields another weak reference to the same allocation.
    fn clone(&self) -> (r: Self)
        ensures
            r == *self,
    {
        WeakRc { raw: rc_weak_clone(&self.raw), target: self.target }
    }
}

} // verus!
