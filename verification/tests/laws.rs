use std::cell::Cell;
use std::rc::Rc;

use sdecay::arc_container::ArcContainer;
use sdecay::borrowed::{RefContainer, Slot};
use sdecay::boxed::BoxContainer;
use sdecay::container::{mv, try_mv, Container};
use sdecay::moveable::Moveable;
use sdecay::refcount::{RefCount, SharedAllocation};

// A payload whose relocation routine counts how often it runs.
struct CountedMoves {
    value: i32,
    moves: Rc<Cell<u32>>,
}

impl Moveable for CountedMoves {
    fn mv(self) -> Self {
        self.moves.set(self.moves.get() + 1);
        self
    }
}

// A payload whose destructor counts how often it runs.
struct CountedDrops {
    drops: Rc<Cell<u32>>,
}

impl Drop for CountedDrops {
    fn drop(&mut self) {
        self.drops.set(self.drops.get() + 1);
    }
}

// Cross-strategy round trip: Owned -> Shared -> Owned keeps the value, and
// the relocation routine runs exactly once per conversion direction.
#[test]
fn round_trip_keeps_value_and_relocates_once_per_direction() {
    let moves = Rc::new(Cell::new(0));
    let owned = BoxContainer::init_value(
        (),
        CountedMoves {
            value: 42,
            moves: moves.clone(),
        },
    );
    let shared: ArcContainer<CountedMoves> = mv(owned, ());
    assert_eq!(moves.get(), 1);
    let owned_again: BoxContainer<CountedMoves> = match try_mv(shared, ()) {
        Ok(c) => c,
        Err(_) => panic!("sole handle moves out"),
    };
    assert_eq!(moves.get(), 2);
    assert_eq!(owned_again.get().value, 42);
}

// Borrowed-slot safety: after a move-out, neither the returned slot nor
// anything else finalizes the value a second time.
#[test]
fn borrowed_slot_single_finalization() {
    let drops = Rc::new(Cell::new(0));
    let container = RefContainer::init_value(
        Slot::new(),
        CountedDrops {
            drops: drops.clone(),
        },
    );
    let (value, slot) = container.move_out_releasing();
    drop(slot);
    assert_eq!(drops.get(), 0, "vacated slot must not finalize the value");
    drop(value);
    assert_eq!(drops.get(), 1, "exactly one finalizing event");
}

// Concrete scenario: an Owned container holding 42, moved out through an
// action that reads the value.
#[test]
fn owned_move_out_yields_value() {
    let drops = Rc::new(Cell::new(0));
    let container = BoxContainer::init_value(
        (),
        (42i32, CountedDrops { drops: drops.clone() }),
    );
    let out = container.try_move_out();
    let pair = out.ok().expect("owned container always moves out");
    assert_eq!(pair.0, 42);
    drop(pair);
    assert_eq!(drops.get(), 1, "no further destructor call afterwards");
}

// Concrete scenario: a shared container holding 42 with two live handles;
// the first move-out attempt fails, the second, once sole, succeeds.
#[test]
fn shared_move_out_second_handle_wins() {
    let c1 = ArcContainer::init_value((), 42i32);
    let c2 = c1.clone();
    let c1 = c1.try_move_out().unwrap_err();
    drop(c1);
    assert_eq!(c2.try_move_out().unwrap(), 42);
}

// The counter protocol: with two live handles neither is unique; after one
// terminal event the survivor is unique again.
#[test]
fn refcount_uniqueness_gating() {
    let mut counter = RefCount::new();
    assert!(counter.is_unique());
    counter.clone_handle();
    assert_eq!(counter.live_count(), 2);
    assert!(!counter.is_unique());
    let disposed = counter.drop_handle();
    assert!(!disposed);
    assert!(counter.is_unique());
}

// The counter protocol: when every one of N handles attempts a move-out,
// exactly one attempt — the last — wins.
#[test]
fn refcount_exactly_one_winner() {
    let mut counter = RefCount::new();
    counter.clone_handle();
    counter.clone_handle();
    assert_eq!(counter.live_count(), 3);
    let mut wins = 0;
    for _ in 0..3 {
        if counter.try_move_out() {
            wins += 1;
        }
    }
    assert_eq!(wins, 1, "exactly one of the move-outs may win");
}

// The full allocation model: of two handles each attempting a move-out,
// exactly the last receives the value, equal to the original.
#[test]
fn shared_allocation_one_winner_receives_value() {
    let mut alloc = SharedAllocation::new(42i32);
    alloc.clone_handle();
    assert_eq!(alloc.try_move_out(), None);
    assert_eq!(alloc.try_move_out(), Some(42));
}

// The full allocation model: exclusive access is granted only to a sole
// owner, and a mutation through it is what later reads see.
#[test]
fn shared_allocation_gated_mutation() {
    let mut alloc = SharedAllocation::new(1i32);
    alloc.clone_handle();
    assert!(alloc.get_mut().is_none());
    assert_eq!(alloc.drop_handle(), None);
    *alloc.get_mut().expect("sole owner mutates") = 2;
    assert_eq!(*alloc.value(), 2);
    assert_eq!(alloc.drop_handle(), Some(2), "last drop disposes of the value");
}

// The counter protocol: in a mix of drops and move-outs, the one terminal
// event that observes the transition to zero disposes; if it is a move-out
// it wins, and every earlier event touched nothing.
#[test]
fn refcount_mixed_dispositions() {
    let mut counter = RefCount::new();
    counter.clone_handle();
    counter.clone_handle();
    counter.clone_handle();
    assert!(!counter.drop_handle());
    assert!(!counter.try_move_out());
    assert!(!counter.drop_handle());
    assert!(counter.try_move_out(), "the last live handle's move-out wins");
}
