use aio_bridge::awaitable::{PyEmptyAwaitable, PyIterAwaitable};
use aio_bridge::future::IterStep;
use aio_bridge::handle::{Handle, Outcome};
use aio_bridge::result_cell::ResultCell;

#[test]
fn fast_path_yields_until_set() {
    let mut a = PyIterAwaitable::new();
    for _ in 0..5 {
        assert_eq!(a.step(), IterStep::Yield);
    }
    a.set_result(Outcome::Value(Handle { id: 42 }));
    assert_eq!(a.step(), IterStep::Return(Handle { id: 42 }));
}

#[test]
fn fast_path_keeps_first_result() {
    let mut a = PyIterAwaitable::new();
    a.set_result(Outcome::Error(Handle { id: 3 }));
    a.set_result(Outcome::Value(Handle { id: 4 }));
    assert_eq!(a.step(), IterStep::Raise(Handle { id: 3 }));
}

#[test]
fn empty_awaitable_finishes_at_once() {
    assert_eq!(PyEmptyAwaitable.step(), IterStep::Finish);
}

#[test]
fn result_cell_is_write_once() {
    let mut c = ResultCell::new();
    assert_eq!(c.get(), None);
    assert!(c.set(Outcome::Value(Handle { id: 1 })));
    assert!(!c.set(Outcome::Value(Handle { id: 2 })));
    assert_eq!(c.get(), Some(Outcome::Value(Handle { id: 1 })));
    assert!(c.get().unwrap().is_value());
    assert!(!Outcome::Error(Handle { id: 1 }).is_value());
}
