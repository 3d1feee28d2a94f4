//! Containers for values whose place must stay stable once they are created.
//!
//! A container owns — exclusively or jointly — at most one live value. It is
//! created empty from a strategy-specific allocator, initialized exactly
//! once, and consumed by exactly one of: its own drop, a move-out that hands
//! the value to the caller, or a conversion into a container of another
//! strategy. The uniform contract lives in [`container`]; relocation between
//! strategies goes through the per-type routine of [`moveable::Moveable`].
//!
//! Four storage strategies are provided: an exclusively owned heap slot
//! ([`boxed::BoxContainer`]), a caller-supplied slot
//! ([`borrowed::RefContainer`]), and two reference-counted shared slots
//! ([`rc_container::RcContainer`], [`arc_container::ArcContainer`]) whose
//! mutating operations succeed only while the handle is the sole owner. The
//! counter discipline behind the shared strategies — and why any mix of
//! drops and move-outs disposes of the shared value exactly once — is stated
//! and proved in [`refcount`].
//!
//! On top of the containers, [`mixture`] keeps the recorded composition of a
//! nuclide mixture behind any strategy, and [`cpp_vec`] builds a byte vector
//! for the foreign side inside any strategy.

pub mod container;
pub mod moveable;
pub mod boxed;
pub mod borrowed;
pub mod rc_container;
pub mod arc_container;
pub mod refcount;
pub mod nuclide_spec;
pub mod mixture;
pub mod cpp_vec;
