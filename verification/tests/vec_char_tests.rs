use sdecay::borrowed::{RefContainer, Slot};
use sdecay::boxed::BoxContainer;
use sdecay::container::Container;
use sdecay::cpp_vec::VecChar;
use sdecay::nuclide_spec::NumSpec;

#[test]
fn from_bytes_copies_bytes() {
    let c: BoxContainer<VecChar> = VecChar::from_bytes(b"abc42");
    assert_eq!(c.get().len(), 5);
}

#[test]
fn from_bytes_empty() {
    let c: BoxContainer<VecChar> = VecChar::from_bytes(b"");
    assert_eq!(c.get().len(), 0);
}

#[test]
fn from_bytes_in_slot() {
    let c: RefContainer<VecChar> = VecChar::from_bytes_in(Slot::new(), b"meow");
    assert_eq!(c.get().len(), 4);
}

#[test]
fn num_spec_identity() {
    let a = NumSpec::new(18, 42);
    let b = NumSpec {
        z: 18,
        mass_number: 42,
        iso: None,
    };
    assert!(a.same_nuclide(&b));
    let c = NumSpec {
        z: 18,
        mass_number: 42,
        iso: Some(1),
    };
    assert!(!a.same_nuclide(&c));
    assert!(!a.same_nuclide(&NumSpec::new(18, 40)));
}
