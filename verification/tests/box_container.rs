use sdecay::arc_container::ArcContainer;
use sdecay::boxed::BoxContainer;
use sdecay::container::{mv, try_mv, Container, ExclusiveContainer};
use sdecay::cpp_vec::VecChar;

const TEXT: &[u8] = b"Lorem ipsum dolor sit amet, consectetur adipiscing elit, sed do eiusmod tempor incididunt ut labore et dolore magna aliqua. Ut enim ad minim veniam, quis nostrud exercitation ullamco laboris nisi ut aliquip ex ea commodo consequat. Duis aute irure dolor in reprehenderit in voluptate velit esse cillum dolore eu fugiat nulla pariatur. Excepteur sint occaecat cupidatat non proident, sunt in culpa qui officia deserunt mollit anim id est laborum.";

type C = BoxContainer<VecChar>;

#[test]
fn box_create() {
    let container: C = VecChar::from_bytes(TEXT);
    drop(container);
}

#[test]
fn box_try_mv() {
    let container: C = VecChar::from_bytes(TEXT);
    let container2: C = try_mv(container, ()).unwrap();
    assert_eq!(container2.get().len(), TEXT.len());
    drop(container2);
}

#[test]
fn box_mv() {
    let container: C = VecChar::from_bytes(TEXT);
    let container2: C = mv(container, ());
    assert_eq!(container2.get().len(), TEXT.len());
    drop(container2);
}

#[test]
fn mv_to_arc() {
    let container: C = VecChar::from_bytes(TEXT);
    let container2: ArcContainer<VecChar> = mv(container, ());
    let container3 = container2.clone();
    drop(container2);
    drop(container3);
}

#[test]
fn box_inner_mutates() {
    let mut container = BoxContainer::init_value((), 1u64);
    *container.inner() = 10;
    assert_eq!(*container.get(), 10);
    assert_eq!(container.move_out(), 10);
}
