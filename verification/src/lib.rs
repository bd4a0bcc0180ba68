//! Shared, mutable data behind one handle type per concurrency model.
//!
//! A `Shared<T>` hands out scoped read and write guards over a value that any
//! number of cloned handles refer to together; `LocalShared<T>` does the same
//! for single-threaded code with fail-fast borrow checking, and
//! `AsyncShared<T>` for task-based code. `SharedAny<T>` holds either a
//! synchronous or an asynchronous container behind one type and reports a
//! mode mismatch as a typed error instead of panicking.

mod access;
mod any;
mod async_shared;
mod container;
mod errors;
mod guards;
mod local;
mod ownership;
mod shared;

pub use access::clone_derived;
pub use access::SyncAccess;
pub use any::lemma_async_variant_refuses_sync_access;
pub use any::SharedAny;
pub use any::WeakSharedAny;
pub use async_shared::AsyncShared;
pub use async_shared::WeakAsyncShared;
pub use container::SharedContainer;
pub use container::SharedReadGuard;
pub use container::SharedWriteGuard;
pub use container::WeakSharedContainer;
pub use errors::AccessError;
pub use guards::LocalReadGuard;
pub use guards::LocalWriteGuard;
pub use guards::StdReadGuard;
pub use guards::StdWriteGuard;
pub use guards::SyncReadGuard;
pub use guards::SyncWriteGuard;
pub use local::LocalShared;
pub use local::WeakLocalShared;
pub use shared::Shared;
pub use shared::WeakShared;
