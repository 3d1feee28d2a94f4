use sdecay::arc_container::ArcContainer;
use sdecay::boxed::BoxContainer;
use sdecay::container::{try_mv, Container};
use sdecay::cpp_vec::VecChar;

const TEXT: &[u8] = b"Lorem ipsum dolor sit amet, consectetur adipiscing elit, sed do eiusmod tempor incididunt ut labore et dolore magna aliqua. Ut enim ad minim veniam, quis nostrud exercitation ullamco laboris nisi ut aliquip ex ea commodo consequat. Duis aute irure dolor in reprehenderit in voluptate velit esse cillum dolore eu fugiat nulla pariatur. Excepteur sint occaecat cupidatat non proident, sunt in culpa qui officia deserunt mollit anim id est laborum.";

type C = ArcContainer<VecChar>;

#[test]
fn arc_create() {
    let container: C = VecChar::from_bytes(TEXT);
    drop(container);
}

#[test]
fn create_clone() {
    let container: C = VecChar::from_bytes(TEXT);
    let container2 = container.clone();
    drop(container);
    drop(container2);
}

#[test]
fn try_mv_ok() {
    let container: C = VecChar::from_bytes(TEXT);
    let container2: C = try_mv(container, ()).unwrap();
    drop(container2);
}

#[test]
fn try_mv_err() {
    let container: C = VecChar::from_bytes(TEXT);
    let container2 = container.clone();
    let container: C = try_mv::<C, C>(container, ()).unwrap_err();
    drop(container);
    let container3: C = try_mv(container2, ()).unwrap();
    drop(container3);
}

#[test]
fn try_mv_to_box() {
    let container: C = VecChar::from_bytes(TEXT);
    let container2 = container.clone();
    let container: C = try_mv::<C, BoxContainer<VecChar>>(container, ()).unwrap_err();
    drop(container);
    let container3: BoxContainer<VecChar> = try_mv(container2, ()).unwrap();
    drop(container3);
}

#[test]
fn crate_get_mut() {
    let u = ArcContainer::<i32>::uninit(());
    let mut container = ArcContainer::init(u, 42);
    let _refmut = container
        .try_inner()
        .expect("This is the only container now; should get a reference");
}

// Uniqueness gating: while two handles share the value neither may mutate
// it; once one handle is gone the survivor may.
#[test]
fn arc_uniqueness_gating() {
    let mut c1 = ArcContainer::init_value((), 42i32);
    let mut c2 = c1.clone();
    assert!(c1.try_inner().is_none());
    assert!(c2.try_inner().is_none());
    drop(c1);
    let r = c2.try_inner().expect("sole survivor regains exclusive access");
    *r = 43;
    assert_eq!(*c2.get(), 43);
}

#[test]
fn arc_move_out_sole_owner() {
    let container = ArcContainer::init_value((), 42i32);
    assert_eq!(container.try_move_out().unwrap(), 42);
}
