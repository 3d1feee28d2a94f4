use sdecay::boxed::BoxContainer;
use sdecay::container::{try_mv, Container};
use sdecay::rc_container::RcContainer;

#[test]
fn rc_create_clone() {
    let container = RcContainer::init_value((), 42i32);
    let container2 = container.clone();
    assert_eq!(*container.get(), 42);
    assert_eq!(*container2.get(), 42);
    drop(container);
    drop(container2);
}

// Uniqueness gating for the single-threaded shared strategy.
#[test]
fn rc_uniqueness_gating() {
    let mut c1 = RcContainer::init_value((), 1i32);
    let c2 = c1.clone();
    assert!(c1.try_inner().is_none());
    drop(c2);
    let r = c1.try_inner().expect("sole survivor regains exclusive access");
    *r = 2;
    assert_eq!(*c1.get(), 2);
}

#[test]
fn rc_try_mv_err_then_ok() {
    let container = RcContainer::init_value((), 5u64);
    let container2 = container.clone();
    let container: RcContainer<u64> = try_mv::<_, RcContainer<u64>>(container, ()).unwrap_err();
    drop(container);
    let moved: BoxContainer<u64> = try_mv(container2, ()).unwrap();
    assert_eq!(*moved.get(), 5);
}

#[test]
fn rc_move_out_sole_owner() {
    let container = RcContainer::init_value((), 7i32);
    assert_eq!(container.try_move_out().unwrap(), 7);
}
