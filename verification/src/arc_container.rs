//! The thread-safe shared strategy, backed by an atomically reference-counted
//! heap allocation.
//!
//! Any number of handles, on any threads, may share one value. Mutation and
//! move-out are gated on unique ownership: they succeed only while the
//! handle observed is the sole owner of the allocation. The counter
//! discipline behind that gating — and why at most one of any mix of drops
//! and move-outs disposes of the value — is stated and proved abstractly in
//! [`crate::refcount`].

use std::sync::Arc;

use vstd::prelude::*;

use crate::container::Container;

verus! {

/// Relies on `Arc::get_mut`: it returns a mutable reference to the value
/// exactly when no other `Arc` or `Weak` shares the allocation, and touches
/// nothing otherwise.
#[verifier::external_body]
fn arc_get_mut<T>(arc: &mut Arc<T>) -> (r: Option<&mut T>)
    ensures
        match r {
            Some(m) => *m == **old(arc) && **final(arc) == *final(m),
            None => **final(arc) == **old(arc),
        },
{
    Arc::get_mut(arc)
}

/// Relies on `Arc::clone`: the new handle shares the allocation, so it reads
/// as the same value.
#[verifier::external_body]
fn arc_clone<T>(arc: &Arc<T>) -> (r: Arc<T>)
    ensures
        *r == **arc,
{
    Arc::clone(arc)
}

/// Relies on `Arc::try_unwrap`: when the handle is the sole owner it returns
/// the value itself, and otherwise it returns the untouched handle.
#[verifier::external_body]
fn arc_try_unwrap<T>(arc: Arc<T>) -> (r: Result<T, Arc<T>>)
    ensures
        match r {
            Ok(v) => v == *arc,
            Err(e) => *e == *arc,
        },
{
    Arc::try_unwrap(arc)
}

/// An [`ArcContainer`] before its value exists.
#[derive(Debug)]
pub struct UninitArcContainer<T> {
    marker: core::marker::PhantomData<T>,
}

/// Container sharing its value among any number of cloned handles, across
/// threads.
///
/// Exclusive access and move-out succeed exactly when the handle is the sole
/// owner of the allocation; otherwise the container is left untouched.
#[derive(Debug)]
pub struct ArcContainer<T> {
    inner: Arc<T>,
}

impl<T> Clone for ArcContainer<T> {
    /// Another handle to the same shared value.
    fn clone(&self) -> (r: Self)
        ensures
            r.inner_value() == self.inner_value(),
    {
        ArcContainer { inner: arc_clone(&self.inner) }
    }
}

impl<T> Container for ArcContainer<T> {
    type Allocator = ();

    type Inner = T;

    type Uninit = UninitArcContainer<T>;

    closed spec fn inner_value(&self) -> T {
        *self.inner
    }

    closed spec fn uninit_ok(uninit: &UninitArcContainer<T>) -> bool {
        true
    }

    open spec fn always_exclusive() -> bool {
        false
    }

    fn uninit(allocator: ()) -> (u: UninitArcContainer<T>) {
        let u = UninitArcContainer { marker: core::marker::PhantomData };
        proof {
            assert(<Self as Container>::uninit_ok(&u));
        }
        u
    }

    fn init(uninit: UninitArcContainer<T>, value: T) -> (c: Self) {
        ArcContainer { inner: Arc::new(value) }
    }

    fn get(&self) -> (r: &T) {
        &self.inner
    }

    fn try_inner(&mut self) -> (r: Option<&mut T>) {
        arc_get_mut(&mut self.inner)
    }

    fn try_move_out(self) -> (r: Result<T, Self>) {
        match arc_try_unwrap(self.inner) {
            Ok(v) => Ok(v),
            Err(inner) => Err(ArcContainer { inner }),
        }
    }
}

} // verus!
