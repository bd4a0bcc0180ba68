//! Tests for the first-generation container on the multi-threaded backend.

use shared_container::SharedContainer;

#[derive(Debug, Clone, PartialEq)]
struct TestStruct {
    value: i32,
}

#[test]
fn test_read_access() {
    let container = SharedContainer::new(TestStruct { value: 42 });

    // Read access
    let guard = container.read().unwrap();
    assert_eq!(guard.get().value, 42);
}

#[test]
fn test_write_access() {
    let container = SharedContainer::new(TestStruct { value: 42 });

    // Write access
    {
        let mut guard = container.write().unwrap();
        guard.set(TestStruct { value: 100 });
    }

    // Verify change
    let guard = container.read().unwrap();
    assert_eq!(guard.get().value, 100);
}

#[test]
fn test_clone_container() {
    let container1 = SharedContainer::new(TestStruct { value: 42 });
    let container2 = container1.clone();

    // Modify through container2
    {
        let mut guard = container2.write().unwrap();
        guard.set(TestStruct { value: 100 });
    }

    // Verify change visible through container1
    let guard = container1.read().unwrap();
    assert_eq!(guard.get().value, 100);
}

#[test]
fn test_get_cloned() {
    let container = SharedContainer::new(TestStruct { value: 42 });
    let cloned = container.get_cloned().unwrap();
    assert_eq!(cloned, TestStruct { value: 42 });

    // Modify original
    {
        let mut guard = container.write().unwrap();
        guard.set(TestStruct { value: 100 });
    }

    // Cloned value should not change
    assert_eq!(cloned, TestStruct { value: 42 });

    // And we can get a new clone with updated value
    let new_clone = container.get_cloned().unwrap();
    assert_eq!(new_clone, TestStruct { value: 100 });
}

#[test]
fn test_weak_ref() {
    let container = SharedContainer::new(TestStruct { value: 42 });

    // Create a weak reference
    let weak = container.downgrade();

    // Weak reference can be upgraded to a strong reference
    let container2 = weak.upgrade().unwrap();

    // Both containers point to the same data
    {
        let mut guard = container2.write().unwrap();
        guard.set(TestStruct { value: 100 });
    }

    // Change visible through first container
    {
        let guard = container.read().unwrap();
        assert_eq!(guard.get().value, 100);
    }

    // Drop all strong references
    drop(container);
    drop(container2);

    // Weak reference can no longer be upgraded
    assert!(weak.upgrade().is_none());
}

#[test]
fn test_weak_clone() {
    let container = SharedContainer::new(TestStruct { value: 42 });

    // Create a weak reference and clone it
    let weak1 = container.downgrade();
    let weak2 = weak1.clone();

    // Both weak references can be upgraded
    let container1 = weak1.upgrade().unwrap();
    let container2 = weak2.upgrade().unwrap();

    // Modify through container2
    {
        let mut guard = container2.write().unwrap();
        guard.set(TestStruct { value: 100 });
    }

    // Change visible through container1
    {
        let guard = container1.read().unwrap();
        assert_eq!(guard.get().value, 100);
    }

    // Drop all strong references
    drop(container);
    drop(container1);
    drop(container2);

    // Neither weak reference can be upgraded
    assert!(weak1.upgrade().is_none());
    assert!(weak2.upgrade().is_none());
}

#[test]
fn test_partial_eq() {
    let container1 = SharedContainer::new(TestStruct { value: 42 });
    let container2 = container1.clone();
    let container3 = SharedContainer::new(TestStruct { value: 100 });

    assert!(container1 == container2);
    assert!(container1 != container3);
}

#[test]
fn test_multiple_reads() {
    let container = SharedContainer::new(TestStruct { value: 42 });

    // Multiple read locks should be allowed
    let guard1 = container.read().unwrap();
    let guard2 = container.read().unwrap();

    assert_eq!(guard1.get().value, 42);
    assert_eq!(guard2.get().value, 42);
}

#[test]
fn test_lock_behavior() {
    let container = SharedContainer::new(TestStruct { value: 42 });

    // We should be able to get a read lock
    assert!(container.read().is_some());

    // We should be able to get a write lock (when no other locks are held)
    assert!(container.write().is_some());

    // We should be able to get multiple read locks
    let guard1 = container.read();
    let guard2 = container.read();
    assert!(guard1.is_some());
    assert!(guard2.is_some());

    // Clean up
    drop(guard1);
    drop(guard2);
}
