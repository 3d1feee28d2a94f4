//! The caller-supplied-slot strategy.
//!
//! The caller provides the storage — a [`Slot`] — and the container manages
//! the one value living in it. The slot carries the "still live" marker:
//! while it holds a value, destruction of the slot disposes of the value;
//! once a move-out has emptied it, its destruction disposes of nothing, so
//! the moved-out value can never be finalized a second time.

use vstd::prelude::*;

use crate::container::{Container, ExclusiveContainer};

verus! {

/// Caller-owned storage for exactly one value.
///
/// Created vacant; handing it to [`RefContainer`] and initializing puts one
/// value in the caller's charge. [`RefContainer::release`] gives the storage
/// back occupied; [`RefContainer::move_out_releasing`] gives it back vacant.
/// A vacant slot holds nothing, so its destruction destroys nothing.
#[derive(Debug)]
pub struct Slot<T> {
    value: Option<T>,
}

impl<T> Slot<T> {
    /// Whether the slot currently holds a live value.
    pub closed spec fn is_occupied(&self) -> bool {
        self.value is Some
    }

    /// The value the slot holds, when it is occupied.
    pub closed spec fn slot_value(&self) -> T
        recommends
            self.is_occupied(),
    {
        self.value->0
    }

    /// Fresh, vacant storage, ready to back a [`RefContainer`].
    pub fn new() -> (s: Self)
        ensures
            !s.is_occupied(),
    {
        Slot { value: None }
    }

    /// Takes whatever the slot holds, leaving it vacant.
    pub fn take(&mut self) -> (r: Option<T>)
        ensures
            !final(self).is_occupied(),
            old(self).is_occupied() ==> r == Some(old(self).slot_value()),
            !old(self).is_occupied() ==> r is None,
    {
        self.value.take()
    }
}

impl<T> Default for Slot<T> {
    /// Fresh, vacant storage, as [`Slot::new`] makes it.
    fn default() -> (s: Self)
        ensures
            !s.is_occupied(),
    {
        Slot { value: None }
    }
}

/// A [`RefContainer`] before its value exists: it has taken charge of the
/// caller's storage, which stays vacant until initialization.
#[derive(Debug)]
pub struct UninitRefContainer<T> {
    slot: Slot<T>,
}

/// Container managing one value in caller-supplied storage.
///
/// The container is the storage's sole keeper, so exclusive access and
/// move-out always succeed. A move-out takes the value with it: the storage
/// handed back by [`RefContainer::move_out_releasing`] is vacant, so nothing
/// remains for the slot's own destruction to dispose of, and the moved-out
/// value cannot be finalized a second time.
#[derive(Debug)]
pub struct RefContainer<T> {
    value: T,
}

impl<T> RefContainer<T> {
    /// Consumes the container without touching its value and returns the
    /// caller's storage, still occupied by that value.
    pub fn release(self) -> (s: Slot<T>)
        ensures
            s.is_occupied(),
            s.slot_value() == self.inner_value(),
    {
        Slot { value: Some(self.value) }
    }

    /// Moves the value out and returns it together with the caller's
    /// storage, now vacant: the slot's eventual destruction will dispose of
    /// nothing.
    pub fn move_out_releasing(self) -> (r: (T, Slot<T>))
        ensures
            r.0 == self.inner_value(),
            !r.1.is_occupied(),
    {
        (self.value, Slot { value: None })
    }
}

impl<T> Container for RefContainer<T> {
    type Allocator = Slot<T>;

    type Inner = T;

    type Uninit = UninitRefContainer<T>;

    closed spec fn inner_value(&self) -> T {
        self.value
    }

    closed spec fn uninit_ok(uninit: &UninitRefContainer<T>) -> bool {
        !uninit.slot.is_occupied()
    }

    open spec fn always_exclusive() -> bool {
        true
    }

    fn uninit(allocator: Slot<T>) -> (u: UninitRefContainer<T>) {
        let u = UninitRefContainer { slot: Slot { value: None } };
        proof {
            assert(<Self as Container>::uninit_ok(&u));
        }
        u
    }

    fn init(uninit: UninitRefContainer<T>, value: T) -> (c: Self) {
        RefContainer { value }
    }

    fn get(&self) -> (r: &T) {
        &self.value
    }

    fn try_inner(&mut self) -> (r: Option<&mut T>) {
        Some(&mut self.value)
    }

    fn try_move_out(self) -> (r: Result<T, Self>) {
        Ok(self.value)
    }
}

impl<T> ExclusiveContainer for RefContainer<T> {
    proof fn exclusivity() {
    }

    fn inner(&mut self) -> (m: &mut T) {
        &mut self.value
    }

    fn move_out(self) -> (v: T) {
        self.value
    }
}

} // verus!
