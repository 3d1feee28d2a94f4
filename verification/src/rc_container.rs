//! The single-threaded shared strategy, backed by a reference-counted heap
//! allocation.
//!
//! Any number of handles may share one value. Mutation and move-out are
//! gated on unique ownership: they succeed only while the handle observed is
//! the sole owner of the allocation, which is the counter discipline stated
//! abstractly in [`crate::refcount`].

use std::rc::Rc;

use vstd::prelude::*;

use crate::container::Container;

verus! {

/// Relies on `Rc::get_mut`: it returns a mutable reference to the value
/// exactly when no other `Rc` or `Weak` shares the allocation, and touches
/// nothing otherwise.
#[verifier::external_body]
fn rc_get_mut<T>(rc: &mut Rc<T>) -> (r: Option<&mut T>)
    ensures
        match r {
            Some(m) => *m == **old(rc) && **final(rc) == *final(m),
            None => **final(rc) == **old(rc),
        },
{
    Rc::get_mut(rc)
}

/// Relies on `Rc::clone`: the new handle shares the allocation, so it reads
/// as the same value.
#[verifier::external_body]
fn rc_clone<T>(rc: &Rc<T>) -> (r: Rc<T>)
    ensures
        *r == **rc,
{
    Rc::clone(rc)
}

/// An [`RcContainer`] before its value exists.
#[derive(Debug)]
pub struct UninitRcContainer<T> {
    marker: core::marker::PhantomData<T>,
}

/// Container sharing its value among any number of cloned handles, for use
/// within one thread.
///
/// Exclusive access and move-out succeed exactly when the handle is the sole
/// owner of the allocation; otherwise the container is left untouched.
#[derive(Debug)]
pub struct RcContainer<T> {
    inner: Rc<T>,
}

impl<T> Clone for RcContainer<T> {
    /// Another handle to the same shared value.
    fn clone(&self) -> (r: Self)
        ensures
            r.inner_value() == self.inner_value(),
    {
        RcContainer { inner: rc_clone(&self.inner) }
    }
}

impl<T> Container for RcContainer<T> {
    type Allocator = ();

    type Inner = T;

    type Uninit = UninitRcContainer<T>;

    closed spec fn inner_value(&self) -> T {
        *self.inner
    }

    closed spec fn uninit_ok(uninit: &UninitRcContainer<T>) -> bool {
        true
    }

    open spec fn always_exclusive() -> bool {
        false
    }

    fn uninit(allocator: ()) -> (u: UninitRcContainer<T>) {
        let u = UninitRcContainer { marker: core::marker::PhantomData };
        proof {
            assert(<Self as Container>::uninit_ok(&u));
        }
        u
    }

    fn init(uninit: UninitRcContainer<T>, value: T) -> (c: Self) {
        RcContainer { inner: Rc::new(value) }
    }

    fn get(&self) -> (r: &T) {
        &self.inner
    }

    fn try_inner(&mut self) -> (r: Option<&mut T>) {
        rc_get_mut(&mut self.inner)
    }

    fn try_move_out(self) -> (r: Result<T, Self>) {
        match Rc::try_unwrap(self.inner) {
            Ok(v) => Ok(v),
            Err(inner) => Err(RcContainer { inner }),
        }
    }
}

} // verus!
