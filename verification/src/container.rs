//! The uniform container contract: allocate, initialize, access, move out.
//!
//! A [`Container`] owns at most one live value. It is created empty by
//! [`Container::uninit`] from a strategy-specific allocator, initialized
//! exactly once by [`Container::init`], read through [`Container::get`],
//! mutated through [`Container::try_inner`] (granted only to a sole owner),
//! and consumed by [`Container::try_move_out`], which succeeds only for a
//! sole owner and otherwise returns the container unchanged.
//!
//! [`ExclusiveContainer`] refines the contract for strategies that are sole
//! owners by construction: access and move-out cannot fail.

use vstd::prelude::*;

use crate::moveable::Moveable;

verus! {

/// Uniform allocate/initialize/access/move-out contract over one storage
/// strategy.
pub trait Container: Sized {
    /// What the strategy needs to reserve storage: a unit value for the heap
    /// strategies, a caller-supplied slot for the borrowed strategy.
    type Allocator;

    /// The contained type.
    type Inner;

    /// The container before its value exists.
    type Uninit;

    /// The value this container holds.
    spec fn inner_value(&self) -> Self::Inner;

    /// Whether this strategy is a sole owner by construction. For such a
    /// strategy exclusive access and move-out are owed success; a sharing
    /// strategy promises nothing, since the outcome hangs on how many
    /// handles are live.
    spec fn always_exclusive() -> bool;

    /// The empty container is ready to receive a value.
    spec fn uninit_ok(uninit: &Self::Uninit) -> bool;

    /// Reserves storage for one value, held by the returned empty container.
    fn uninit(allocator: Self::Allocator) -> (u: Self::Uninit)
        ensures
            Self::uninit_ok(&u),
    ;

    /// Deposits the value, establishing the initialized state.
    fn init(uninit: Self::Uninit, value: Self::Inner) -> (c: Self)
        requires
            Self::uninit_ok(&uninit),
        ensures
            c.inner_value() == value,
    ;

    /// Shared read access to the contained value.
    fn get(&self) -> (r: &Self::Inner)
        ensures
            *r == self.inner_value(),
    ;

    /// Exclusive access to the contained value; `None` reports that the
    /// container is not the sole owner, and leaves it untouched.
    fn try_inner(&mut self) -> (r: Option<&mut Self::Inner>)
        ensures
            Self::always_exclusive() ==> r is Some,
            match r {
                Some(m) => *m == old(self).inner_value() && final(self).inner_value()
                    == *final(m),
                None => *final(self) == *old(self),
            },
    ;

    /// Moves the value out, consuming the container; `Err` reports that the
    /// container is not the sole owner and returns it unchanged.
    fn try_move_out(self) -> (r: Result<Self::Inner, Self>)
        ensures
            Self::always_exclusive() ==> r is Ok,
            match r {
                Ok(v) => v == self.inner_value(),
                Err(c) => c == self,
            },
    ;

    /// Reserves storage and deposits the value in one call.
    fn init_value(allocator: Self::Allocator, value: Self::Inner) -> (c: Self)
        ensures
            c.inner_value() == value,
    {
        let u = Self::uninit(allocator);
        Self::init(u, value)
    }
}

/// Tries to move the value of `s` into a container of another strategy.
/// Succeeds exactly when the move out of `s` succeeds; on failure the
/// original container comes back unchanged. On success the value is
/// relocated by its [`Moveable`] routine, called exactly once, so the new
/// container holds the value the old one held.
pub fn try_mv<S: Container, C: Container<Inner = S::Inner>>(s: S, allocator: C::Allocator) -> (r:
    Result<C, S>) where S::Inner: Moveable
    ensures
        S::always_exclusive() ==> r is Ok,
        match r {
            Ok(c) => c.inner_value() == s.inner_value(),
            Err(c) => c == s,
        },
{
    match s.try_move_out() {
        Ok(v) => {
            let u = C::uninit(allocator);
            Ok(C::init(u, v.mv()))
        },
        Err(c) => Err(c),
    }
}

/// Moves the value of `s` into a container of another strategy; `s` is an
/// exclusive strategy, so no failure is possible. The value is relocated by
/// its [`Moveable`] routine, called exactly once.
pub fn mv<S: ExclusiveContainer, C: Container<Inner = S::Inner>>(s: S, allocator: C::Allocator) -> (
    c: C) where S::Inner: Moveable
    ensures
        c.inner_value() == s.inner_value(),
{
    let v = s.move_out();
    let u = C::uninit(allocator);
    C::init(u, v.mv())
}

/// Refinement of [`Container`] for strategies that are sole owners by
/// construction: exclusive access and move-out cannot fail.
pub trait ExclusiveContainer: Container {
    /// Law of the refinement: an exclusive container is a sole owner by
    /// construction, so the gated operations of the base contract are owed
    /// success on it.
    proof fn exclusivity()
        ensures
            Self::always_exclusive(),
    ;

    /// Exclusive access to the contained value.
    fn inner(&mut self) -> (m: &mut Self::Inner)
        ensures
            *m == old(self).inner_value(),
            final(self).inner_value() == *final(m),
    ;

    /// Moves the value out, consuming the container.
    fn move_out(self) -> (v: Self::Inner)
        ensures
            v == self.inner_value(),
    ;
}

} // verus!
