//! The exclusively owned heap strategy.

use vstd::prelude::*;

use crate::container::{Container, ExclusiveContainer};

verus! {

/// A [`BoxContainer`] before its value exists.
#[derive(Debug)]
pub struct UninitBoxContainer<T> {
    marker: core::marker::PhantomData<T>,
}

/// Container owning its value exclusively on the heap.
///
/// Exclusive access and move-out always succeed.
#[derive(Debug)]
pub struct BoxContainer<T> {
    inner: Box<T>,
}

impl<T> Container for BoxContainer<T> {
    type Allocator = ();

    type Inner = T;

    type Uninit = UninitBoxContainer<T>;

    closed spec fn inner_value(&self) -> T {
        *self.inner
    }

    closed spec fn uninit_ok(uninit: &UninitBoxContainer<T>) -> bool {
        true
    }

    open spec fn always_exclusive() -> bool {
        true
    }

    fn uninit(allocator: ()) -> (u: UninitBoxContainer<T>) {
        let u = UninitBoxContainer { marker: core::marker::PhantomData };
        proof {
            assert(<Self as Container>::uninit_ok(&u));
        }
        u
    }

    fn init(uninit: UninitBoxContainer<T>, value: T) -> (c: Self) {
        BoxContainer { inner: Box::new(value) }
    }

    fn get(&self) -> (r: &T) {
        &self.inner
    }

    fn try_inner(&mut self) -> (r: Option<&mut T>) {
        Some(&mut self.inner)
    }

    fn try_move_out(self) -> (r: Result<T, Self>) {
        Ok(*self.inner)
    }
}

impl<T> ExclusiveContainer for BoxContainer<T> {
    proof fn exclusivity() {
    }

    fn inner(&mut self) -> (m: &mut T) {
        &mut self.inner
    }

    fn move_out(self) -> (v: T) {
        *self.inner
    }
}

} // verus!
