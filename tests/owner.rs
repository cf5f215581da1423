use std::cell::Cell;
use std::rc::Rc;

use unique_ptr::{DefaultDelete, Destroyer, UniquePtr};

/// A value that counts how many times it has been freed.
struct Probe {
    id: u32,
    hits: Rc<Cell<u32>>,
}

impl Drop for Probe {
    fn drop(&mut self) {
        self.hits.set(self.hits.get() + 1);
    }
}

fn probe_with_id(id: u32) -> (Box<Probe>, Rc<Cell<u32>>) {
    let hits = Rc::new(Cell::new(0));
    (Box::new(Probe { id, hits: hits.clone() }), hits)
}

fn probe() -> (Box<Probe>, Rc<Cell<u32>>) {
    probe_with_id(0)
}

#[test]
fn test_unique_ptr_creation() {
    let unique_ptr = UniquePtr::with_ptr(Box::new(42));

    assert_eq!(*unique_ptr.get().unwrap(), 42);
}

#[test]
fn test_unique_ptr_reset() {
    let mut unique_ptr = UniquePtr::with_ptr(Box::new(42));

    unique_ptr.reset(Some(Box::new(99)));

    assert_eq!(*unique_ptr.get().unwrap(), 99);
}

#[test]
fn test_unique_ptr_release() {
    let mut unique_ptr = UniquePtr::with_ptr(Box::new(42));

    let released_ptr = unique_ptr.release();

    assert_eq!(*released_ptr.unwrap(), 42);
}

#[test]
fn test_unique_ptr_deref() {
    let unique_ptr = UniquePtr::with_ptr(Box::new(42));

    assert_eq!(*unique_ptr.get().unwrap(), 42);
}

#[test]
fn scope_exit_frees_once() {
    let (value, hits) = probe();
    {
        let _owner = UniquePtr::with_ptr(value);
        assert_eq!(hits.get(), 0);
    }
    assert_eq!(hits.get(), 1);
}

#[test]
fn dispose_frees_once() {
    let (value, hits) = probe();
    let owner = UniquePtr::with_ptr(value);
    let _strategy = owner.dispose();
    assert_eq!(hits.get(), 1);
}

#[test]
fn release_suppresses_destruction() {
    let (value, hits) = probe();
    let released;
    {
        let mut owner = UniquePtr::with_ptr(value);
        released = owner.release();
        assert!(owner.get().is_none());
    }
    assert_eq!(hits.get(), 0);
    assert!(released.is_some());
    drop(released);
    assert_eq!(hits.get(), 1);
}

#[test]
fn reset_destroys_old_value() {
    let (r, r_hits) = probe();
    let (s, s_hits) = probe();
    {
        let mut owner = UniquePtr::with_ptr(r);
        owner.reset(Some(s));
        assert_eq!(r_hits.get(), 1);
        assert_eq!(s_hits.get(), 0);
    }
    assert_eq!(r_hits.get(), 1);
    assert_eq!(s_hits.get(), 1);
}

#[test]
fn reset_to_empty() {
    let (r, r_hits) = probe();
    let mut owner = UniquePtr::with_ptr(r);
    owner.reset(None);
    assert_eq!(r_hits.get(), 1);
    assert!(owner.get().is_none());
}

#[test]
fn swap_exchanges_values() {
    let mut a = UniquePtr::with_ptr(Box::new(1));
    let mut b = UniquePtr::with_ptr(Box::new(2));
    a.swap(&mut b);
    assert_eq!(*a.get().unwrap(), 2);
    assert_eq!(*b.get().unwrap(), 1);
}

#[test]
fn swap_destroys_each_value_once() {
    let (x, x_hits) = probe();
    let (y, y_hits) = probe();
    {
        let mut a = UniquePtr::with_ptr(x);
        let mut b = UniquePtr::with_ptr(y);
        a.swap(&mut b);
        assert_eq!(x_hits.get() + y_hits.get(), 0);
    }
    assert_eq!(x_hits.get(), 1);
    assert_eq!(y_hits.get(), 1);
}

#[test]
fn swap_with_empty_owner() {
    let mut a = UniquePtr::with_ptr(Box::new(7));
    let mut b = UniquePtr::new();
    a.swap(&mut b);
    assert!(a.get().is_none());
    assert_eq!(*b.get().unwrap(), 7);
}

#[test]
fn raw_round_trip() {
    let (value, hits) = probe();
    {
        let owner = UniquePtr::with_ptr(value);
        let raw = owner.into_raw();
        assert_eq!(hits.get(), 0);
        let again = UniquePtr::from_raw(raw);
        assert!(again.get().is_some());
        assert_eq!(hits.get(), 0);
    }
    assert_eq!(hits.get(), 1);
}

#[test]
fn raw_round_trip_keeps_value() {
    let owner = UniquePtr::with_ptr(Box::new(5));
    let again = UniquePtr::from_raw(owner.into_raw());
    assert_eq!(*again.get().unwrap(), 5);
}

#[test]
fn empty_owner_is_inert() {
    let owner: UniquePtr<Probe> = UniquePtr::new();
    assert!(owner.get().is_none());
    assert!(owner.into_raw().is_none());
    let empty: UniquePtr<Probe> = UniquePtr::new();
    let _strategy = empty.dispose();
}

#[test]
fn adopt_reset_scenario() {
    let (r, r_hits) = probe_with_id(1);
    let (s, s_hits) = probe_with_id(2);
    {
        let mut owner = UniquePtr::with_ptr(r);
        assert_eq!(owner.get().unwrap().id, 1);
        owner.reset(Some(s));
        assert_eq!(r_hits.get(), 1);
        assert_eq!(s_hits.get(), 0);
        assert_eq!(owner.get().unwrap().id, 2);
    }
    assert_eq!(s_hits.get(), 1);
    assert_eq!(r_hits.get(), 1);
}

#[test]
fn custom_strategy_is_kept() {
    let mut owner = UniquePtr::with_ptr_and_deleter(Box::new(3), DefaultDelete::new());
    let _strategy: &DefaultDelete<i32> = owner.get_deleter();
    owner.reset(Some(Box::new(4)));
    assert_eq!(*owner.get().unwrap(), 4);
}

#[test]
fn strategy_destroys_directly() {
    let (value, hits) = probe();
    let mut strategy: DefaultDelete<Probe> = DefaultDelete::default();
    strategy.destroy(value);
    assert_eq!(hits.get(), 1);
}

#[test]
fn convert_into_box() {
    let owner = UniquePtr::with_ptr(Box::new(8));
    let boxed: Option<Box<i32>> = Option::from(owner);
    assert_eq!(*boxed.unwrap(), 8);
    let empty: UniquePtr<i32> = UniquePtr::new();
    let nothing: Option<Box<i32>> = empty.into();
    assert!(nothing.is_none());
}

#[test]
fn write_through_get_mut() {
    let mut owner = UniquePtr::with_ptr(Box::new(42));
    *owner.get_mut().unwrap() = 7;
    assert_eq!(*owner.get().unwrap(), 7);
    let mut empty: UniquePtr<i32> = UniquePtr::new();
    assert!(empty.get_mut().is_none());
}
