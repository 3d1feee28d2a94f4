//! Relocation capability: moving a live value to a new place.
//!
//! A type with internal self-references cannot be relocated by a plain byte
//! copy; it needs a relocation routine of its own. [`Moveable`] is the
//! per-type contract for that routine: whatever work relocation does, the
//! value that arrives at the destination is the value that left the source.

use vstd::prelude::*;

verus! {

/// Relocation contract for a value moving into a new container.
///
/// `mv` consumes the value at its old place and produces the value at its new
/// place. Plain-data types relocate by an ordinary move; a type with more
/// elaborate move semantics supplies its own routine, which must preserve the
/// value it relocates.
pub trait Moveable: Sized {
    /// Relocates the value, preserving it.
    fn mv(self) -> (r: Self)
        ensures
            r == self,
    ;
}

impl<T: Copy> Moveable for T {
    fn mv(self) -> (r: Self) {
        self
    }
}

} // verus!
