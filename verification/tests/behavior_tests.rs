//! Behaviour tests for the concurrency semantics of each backend: blocking
//! writes behind readers, queued asynchronous acquisitions, poisoning, and
//! the exact error values.

use std::sync::mpsc;
use std::time::Duration;

use shared_container::AccessError;
use shared_container::AsyncShared;
use shared_container::LocalShared;
use shared_container::Shared;
use shared_container::SyncAccess;
use tokio::runtime::Runtime;

#[derive(Debug, Clone, PartialEq)]
struct TestStruct {
    value: i32,
}

#[test]
fn test_threaded_reads_then_write() {
    let rt = Runtime::new().unwrap();
    rt.block_on(async {
        let container = Shared::new(TestStruct { value: 42 });
        let reader1 = container.clone();
        let reader2 = container.clone();
        let writer = container.clone();

        let (seen1_tx, seen1_rx) = mpsc::channel::<i32>();
        let (seen2_tx, seen2_rx) = mpsc::channel::<i32>();
        let (release1_tx, release1_rx) = mpsc::channel::<()>();
        let (release2_tx, release2_rx) = mpsc::channel::<()>();
        let (wrote_tx, wrote_rx) = mpsc::channel::<()>();

        let h1 = tokio::task::spawn_blocking(move || {
            let guard = reader1.read().unwrap();
            seen1_tx.send(guard.get().value).unwrap();
            release1_rx.recv().unwrap();
        });
        let h2 = tokio::task::spawn_blocking(move || {
            let guard = reader2.read().unwrap();
            seen2_tx.send(guard.get().value).unwrap();
            release2_rx.recv().unwrap();
        });

        // Both simultaneous reads succeed and observe the value.
        assert_eq!(seen1_rx.recv().unwrap(), 42);
        assert_eq!(seen2_rx.recv().unwrap(), 42);

        let h3 = tokio::task::spawn_blocking(move || {
            let mut guard = writer.write().unwrap();
            guard.set(TestStruct { value: 100 });
            wrote_tx.send(()).unwrap();
        });

        // The write blocks while the read guards are outstanding.
        assert!(wrote_rx.recv_timeout(Duration::from_millis(200)).is_err());

        release1_tx.send(()).unwrap();
        release2_tx.send(()).unwrap();
        h1.await.unwrap();
        h2.await.unwrap();

        // Once the readers release, the write goes through.
        wrote_rx.recv().unwrap();
        h3.await.unwrap();
        assert_eq!(container.read().unwrap().get().value, 100);
    });
}

#[test]
fn test_async_write_waits_for_readers() {
    let rt = tokio::runtime::Builder::new_current_thread().build().unwrap();
    rt.block_on(async {
        let container = AsyncShared::new(TestStruct { value: 42 });
        let writer = container.clone();

        // Two simultaneous read acquisitions succeed and observe the value.
        let guard1 = container.raw_lock().read().await;
        let guard2 = container.raw_lock().read().await;
        assert_eq!(guard1.value, 42);
        assert_eq!(guard2.value, 42);

        let (wrote_tx, wrote_rx) = mpsc::channel::<()>();
        let handle = tokio::task::spawn(async move {
            let mut guard = writer.raw_lock().write().await;
            guard.value = 100;
            wrote_tx.send(()).unwrap();
        });

        // On a single-threaded runtime the writer task only runs at yield
        // points; it stays suspended behind the outstanding reads.
        tokio::task::yield_now().await;
        tokio::task::yield_now().await;
        assert!(wrote_rx.try_recv().is_err());

        drop(guard1);
        drop(guard2);
        handle.await.unwrap();
        assert!(wrote_rx.try_recv().is_ok());

        // Subsequent reads observe the write.
        let guard = container.raw_lock().read().await;
        assert_eq!(guard.value, 100);
    });
}

#[test]
fn test_poisoned_lock_reports_poisoned() {
    let rt = Runtime::new().unwrap();
    rt.block_on(async {
        let container = Shared::new(TestStruct { value: 42 });
        let holder = container.clone();

        let handle = tokio::task::spawn_blocking(move || {
            let _guard = holder.write().unwrap();
            panic!("holder terminates while writing");
        });
        assert!(handle.await.is_err());

        let r = container.read();
        assert_eq!(r.err().unwrap(), AccessError::Poisoned);
        let w = container.write();
        assert_eq!(w.err().unwrap(), AccessError::Poisoned);
        let c = container.get_cloned();
        assert_eq!(c.err().unwrap(), AccessError::Poisoned);
    });
}

#[test]
fn test_local_borrow_conflict_error_value() {
    let container = LocalShared::new(TestStruct { value: 42 });
    let _guard = container.write().unwrap();

    assert_eq!(container.read().err().unwrap(), AccessError::BorrowConflict);
    assert_eq!(container.write().err().unwrap(), AccessError::BorrowConflict);
    assert_eq!(container.get_cloned().err().unwrap(), AccessError::BorrowConflict);
}

#[test]
fn test_write_guard_exposes_written_value() {
    let container = Shared::new(TestStruct { value: 42 });

    let mut guard = container.write().unwrap();
    assert_eq!(guard.get().value, 42);
    guard.set(TestStruct { value: 7 });
    assert_eq!(guard.get().value, 7);
    drop(guard);

    assert_eq!(container.get_cloned().unwrap().value, 7);
}
