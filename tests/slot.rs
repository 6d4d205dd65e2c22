use std::cell::Cell;
use std::sync::Arc;

use global_mockable::{GlobalMockable, MockableAccessor};

#[derive(Debug)]
struct SimpleStruct {
    value: usize,
}

#[test]
fn supports_mocking_concrete_types() {
    let mut global: GlobalMockable<SimpleStruct> = GlobalMockable::const_new();
    let default_calls = Cell::new(0usize);

    let first = global.get_or_init(|| {
        default_calls.set(default_calls.get() + 1);
        Arc::new(SimpleStruct { value: 1 })
    });

    assert_eq!(first.value, 1);

    global.set(Arc::new(SimpleStruct { value: 99 }));

    let second = global.get_or_init(|| Arc::new(SimpleStruct { value: 2 }));

    assert_eq!(second.value, 99);
    assert_eq!(default_calls.get(), 1);

    global.clear();

    let third = global.get_or_init(|| {
        default_calls.set(default_calls.get() + 1);
        Arc::new(SimpleStruct { value: 7 })
    });

    assert_eq!(third.value, 7);
    assert_eq!(default_calls.get(), 2);
}

pub trait Greeter: Send + Sync {
    fn greet(&self) -> &'static str;
}

struct DefaultGreeter;

impl Greeter for DefaultGreeter {
    fn greet(&self) -> &'static str {
        "hello"
    }
}

struct MockGreeter;

impl Greeter for MockGreeter {
    fn greet(&self) -> &'static str {
        "mock hello"
    }
}

fn default_greeter() -> Arc<dyn Greeter> {
    Arc::new(DefaultGreeter)
}

#[test]
fn swaps_trait_object_implementations() {
    let mut test_greeter: MockableAccessor<dyn Greeter, fn() -> Arc<dyn Greeter>> =
        MockableAccessor::new(default_greeter);
    test_greeter.clear();

    let real = test_greeter.get();
    assert_eq!(real.greet(), "hello");

    test_greeter.set(Arc::new(MockGreeter));

    let mocked = test_greeter.get();
    assert_eq!(mocked.greet(), "mock hello");

    test_greeter.clear();

    let reset = test_greeter.get();
    assert_eq!(reset.greet(), "hello");
}

#[test]
fn many_calls_on_empty_slot_run_one_factory() {
    let mut global: GlobalMockable<SimpleStruct> = GlobalMockable::const_new();
    let calls = Cell::new(0usize);
    let mut handles: Vec<Arc<SimpleStruct>> = Vec::new();
    for i in 0..8usize {
        handles.push(global.get_or_init(|| {
            calls.set(calls.get() + 1);
            Arc::new(SimpleStruct { value: 100 + i })
        }));
    }
    assert_eq!(calls.get(), 1);
    for h in &handles {
        assert!(Arc::ptr_eq(h, &handles[0]));
        assert_eq!(h.value, 100);
    }
}

#[test]
fn set_value_wins_over_any_factory() {
    let mut global: GlobalMockable<SimpleStruct> = GlobalMockable::const_new();
    global.get_or_init(|| Arc::new(SimpleStruct { value: 1 }));
    let forced = Arc::new(SimpleStruct { value: 42 });
    global.set(Arc::clone(&forced));
    let calls = Cell::new(0usize);
    for _ in 0..3 {
        let got = global.get_or_init(|| {
            calls.set(calls.get() + 1);
            Arc::new(SimpleStruct { value: 5 })
        });
        assert!(Arc::ptr_eq(&got, &forced));
    }
    assert_eq!(calls.get(), 0);
}

#[test]
fn clear_after_set_runs_factory_once() {
    let mut global: GlobalMockable<SimpleStruct> = GlobalMockable::const_new();
    global.set(Arc::new(SimpleStruct { value: 3 }));
    global.clear();
    assert!(global.get().is_none());
    let calls = Cell::new(0usize);
    let first = global.get_or_init(|| {
        calls.set(calls.get() + 1);
        Arc::new(SimpleStruct { value: 11 })
    });
    let second = global.get_or_init(|| {
        calls.set(calls.get() + 1);
        Arc::new(SimpleStruct { value: 12 })
    });
    assert_eq!(calls.get(), 1);
    assert_eq!(first.value, 11);
    assert!(Arc::ptr_eq(&first, &second));
}

#[test]
fn repeated_reads_share_one_value() {
    let mut global: GlobalMockable<SimpleStruct> = GlobalMockable::const_new();
    let first = global.get_or_init(|| Arc::new(SimpleStruct { value: 9 }));
    for _ in 0..5 {
        let again = global.get_or_init(|| Arc::new(SimpleStruct { value: 10 }));
        assert!(Arc::ptr_eq(&again, &first));
    }
    let peeked = global.get().unwrap();
    assert!(Arc::ptr_eq(&peeked, &first));
}

#[test]
fn empty_slot_reads_none() {
    let global: GlobalMockable<SimpleStruct> = GlobalMockable::const_new();
    assert!(global.get().is_none());
}

#[test]
fn populate_fills_empty_slot() {
    let mut global: GlobalMockable<SimpleStruct> = GlobalMockable::const_new();
    let fresh = Arc::new(SimpleStruct { value: 4 });
    let got = global.populate(Arc::clone(&fresh));
    assert!(Arc::ptr_eq(&got, &fresh));
    assert!(Arc::ptr_eq(&global.get().unwrap(), &fresh));
}

#[test]
fn populate_keeps_existing_value() {
    let mut global: GlobalMockable<SimpleStruct> = GlobalMockable::const_new();
    let held = Arc::new(SimpleStruct { value: 4 });
    global.set(Arc::clone(&held));
    let got = global.populate(Arc::new(SimpleStruct { value: 5 }));
    assert!(Arc::ptr_eq(&got, &held));
    assert_eq!(got.value, 4);
}

#[test]
fn accessor_runs_default_only_when_empty() {
    let calls = Cell::new(0usize);
    let mut accessor = MockableAccessor::new(|| {
        calls.set(calls.get() + 1);
        Arc::new(SimpleStruct { value: 21 })
    });
    let a = accessor.get();
    let b = accessor.get();
    assert_eq!(calls.get(), 1);
    assert!(Arc::ptr_eq(&a, &b));
    accessor.set(Arc::new(SimpleStruct { value: 22 }));
    assert_eq!(accessor.get().value, 22);
    assert_eq!(calls.get(), 1);
    accessor.clear();
    assert_eq!(accessor.get().value, 21);
    assert_eq!(calls.get(), 2);
}
