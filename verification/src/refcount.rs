//! The counter discipline of a shared allocation, and why it disposes of the
//! value exactly once.
//!
//! One allocation is shared by a group of handles. The allocation keeps a
//! count of the live handles: it starts at one when the allocation is
//! created, each clone raises it by one, and each terminal event — an
//! ordinary drop of a handle, or a handle's move-out attempt — lowers it by
//! one. The terminal event that observes the transition to zero is the one
//! that disposes of the value: a drop destroys it, a move-out hands it to
//! the caller. Every other terminal event touches nothing.
//!
//! [`RefCount`] is that counter together with the history of events that
//! produced it. The laws at the end of this module state the guarantees of
//! the discipline over any history a group of live handles can produce:
//! at most one event in a history is ever the disposing one; when every
//! handle has been consumed, exactly one event was; and when every handle
//! was consumed by a move-out, that one event is a move-out, so exactly one
//! move-out wins and receives the value.

use vstd::prelude::*;

verus! {

/// A count of live handles may not grow past this bound; a clone beyond it
/// would be runaway handle leakage rather than honest sharing.
pub const MAX_HANDLES: u64 = 0x7fff_ffff_ffff_ffff;

/// One event in the life of a shared allocation, performed by a live handle.
#[derive(Clone, Copy, PartialEq, Eq, Structural)]
pub enum HandleEvent {
    /// A handle was cloned: one more live handle.
    CloneHandle,
    /// A handle was dropped: one less live handle.
    DropHandle,
    /// A handle attempted a move-out, consuming itself: one less live handle.
    MoveOutHandle,
}

/// Whether the event consumes a handle.
pub open spec fn is_terminal(e: HandleEvent) -> bool {
    e is DropHandle || e is MoveOutHandle
}

/// What the event does to the count of live handles.
pub open spec fn delta(e: HandleEvent) -> int {
    if e is CloneHandle {
        1
    } else {
        -1
    }
}

/// The count of live handles after this history, for an allocation created
/// with one handle.
pub open spec fn count_after(events: Seq<HandleEvent>) -> int
    decreases events.len(),
{
    if events.len() == 0 {
        1
    } else {
        count_after(events.drop_last()) + delta(events.last())
    }
}

/// A history a group of live handles can actually produce: every event is
/// performed by a live handle, so at least one handle is live before each
/// event.
pub open spec fn valid_history(events: Seq<HandleEvent>) -> bool {
    forall|i: int| 0 <= i < events.len() ==> count_after(#[trigger] events.take(i)) >= 1
}

/// Whether the event at position `i` observed the transition to zero: it is
/// the terminal event that disposes of the allocation's value.
pub open spec fn is_disposing(events: Seq<HandleEvent>, i: int) -> bool {
    &&& 0 <= i < events.len()
    &&& is_terminal(events[i])
    &&& count_after(events.take(i + 1)) == 0
}

/// The count after one more event is the count before it, shifted by the
/// event's effect.
pub proof fn lemma_count_step(events: Seq<HandleEvent>, i: int)
    requires
        0 <= i < events.len(),
    ensures
        count_after(events.take(i + 1)) == count_after(events.take(i)) + delta(events[i]),
{
    let prefix = events.take(i + 1);
    assert(prefix.drop_last() =~= events.take(i));
    assert(prefix.last() == events[i]);
}

/// Law: a disposing event ends its history. Once the count has reached
/// zero no handle is left, so no further event can occur at all — in
/// particular the allocation cannot be touched, freed or read again.
pub proof fn lemma_disposing_event_is_last(events: Seq<HandleEvent>, i: int)
    requires
        valid_history(events),
        is_disposing(events, i),
    ensures
        i == events.len() - 1,
{
    if i + 1 < events.len() {
        assert(count_after(events.take(i + 1)) >= 1);
    }
}

/// Law: across any history — any mix of clones, drops and move-outs that a
/// group of live handles can produce — at most one event disposes of the
/// value. The destructor path and the move-out path can never both fire.
pub proof fn lemma_at_most_one_disposing(events: Seq<HandleEvent>, i: int, j: int)
    requires
        valid_history(events),
        is_disposing(events, i),
        is_disposing(events, j),
    ensures
        i == j,
{
    lemma_disposing_event_is_last(events, i);
    lemma_disposing_event_is_last(events, j);
}

/// Law: when every handle has been consumed — the count has come down to
/// zero — exactly one event of the history disposed of the value: the last
/// one, which observed the count at one just before it. There is no leak
/// and no double disposition.
pub proof fn lemma_complete_history_disposes_once(events: Seq<HandleEvent>)
    requires
        valid_history(events),
        count_after(events) == 0,
    ensures
        events.len() >= 1,
        is_disposing(events, events.len() - 1),
        count_after(events.take(events.len() - 1)) == 1,
        forall|j: int| 0 <= j < events.len() - 1 ==> !is_disposing(events, j),
{
    let n = events.len() as int;
    assert(events.take(n) =~= events);
    lemma_count_step(events, n - 1);
    assert(count_after(events.take(n - 1)) >= 1);
    assert forall|j: int| 0 <= j < n - 1 implies !is_disposing(events, j) by {
        if is_disposing(events, j) {
            lemma_disposing_event_is_last(events, j);
        }
    }
}

/// Law: when every handle is consumed by a move-out attempt — no ordinary
/// drops among the terminal events — exactly one of those attempts wins and
/// receives the value; every other attempt fails and touches nothing.
pub proof fn lemma_all_move_outs_one_winner(events: Seq<HandleEvent>)
    requires
        valid_history(events),
        count_after(events) == 0,
        forall|i: int|
            0 <= i < events.len() && is_terminal(#[trigger] events[i]) ==> events[i]
                is MoveOutHandle,
    ensures
        events.len() >= 1,
        is_disposing(events, events.len() - 1),
        events.last() is MoveOutHandle,
        forall|j: int| 0 <= j < events.len() - 1 ==> !is_disposing(events, j),
{
    lemma_complete_history_disposes_once(events);
}

/// Law: sharing gates exclusivity, and ending the sharing restores it. With
/// a sole handle the count stands at one; after a clone it stands at two,
/// so neither handle passes the uniqueness check; after either handle is
/// consumed the count is back at one, and the survivor passes it again.
pub proof fn lemma_uniqueness_gating(events: Seq<HandleEvent>, t: HandleEvent)
    requires
        valid_history(events),
        count_after(events) == 1,
        is_terminal(t),
    ensures
        count_after(events.push(HandleEvent::CloneHandle)) == 2,
        count_after(events.push(HandleEvent::CloneHandle).push(t)) == 1,
        valid_history(events.push(HandleEvent::CloneHandle).push(t)),
{
    let e1 = events.push(HandleEvent::CloneHandle);
    let e2 = e1.push(t);
    assert(e1.drop_last() =~= events);
    assert(e2.drop_last() =~= e1);
    assert forall|i: int| 0 <= i < e2.len() implies count_after(#[trigger] e2.take(i)) >= 1 by {
        if i < events.len() {
            assert(e2.take(i) =~= events.take(i));
        } else if i == events.len() {
            assert(e2.take(i) =~= events);
        } else {
            assert(e2.take(i) =~= e1);
        }
    }
}

/// The live-handle counter of one shared allocation, with the history that
/// produced it.
///
/// This is the decision core of the thread-safe shared strategy: what a
/// clone, a drop and a move-out attempt each observe and decide. The
/// executable counter is coupled to the event history, so the laws above
/// apply to every state this type can reach.
pub struct RefCount {
    count: u64,
    history: Ghost<Seq<HandleEvent>>,
}

impl RefCount {
    /// The events so far.
    pub closed spec fn history(&self) -> Seq<HandleEvent> {
        self.history@
    }

    /// The count of live handles.
    pub open spec fn count(&self) -> int {
        count_after(self.history())
    }

    #[verifier::type_invariant]
    spec fn wf(&self) -> bool {
        &&& self.count as int == count_after(self.history@)
        &&& valid_history(self.history@)
    }

    /// A fresh allocation, referenced by the one handle that created it.
    pub fn new() -> (s: Self)
        ensures
            s.history() == Seq::<HandleEvent>::empty(),
            s.count() == 1,
    {
        RefCount { count: 1, history: Ghost(Seq::empty()) }
    }

    /// The count a live handle reads.
    pub fn live_count(&self) -> (n: u64)
        requires
            self.count() >= 1,
        ensures
            n as int == self.count(),
    {
        proof {
            use_type_invariant(self);
        }
        self.count
    }

    /// Whether the reading handle is the sole owner. Exclusive access to the
    /// shared value is granted exactly on this observation.
    pub fn is_unique(&self) -> (r: bool)
        requires
            self.count() >= 1,
        ensures
            r <==> self.count() == 1,
    {
        proof {
            use_type_invariant(self);
        }
        self.count == 1
    }

    /// A live handle is cloned: one more live handle.
    pub fn clone_handle(&mut self)
        requires
            1 <= old(self).count() < MAX_HANDLES,
        ensures
            final(self).history() == old(self).history().push(HandleEvent::CloneHandle),
            final(self).count() == old(self).count() + 1,
        no_unwind
    {
        proof {
            use_type_invariant(&*self);
        }
        let ghost h = self.history@.push(HandleEvent::CloneHandle);
        proof {
            assert(h.drop_last() =~= self.history@);
            assert forall|i: int| 0 <= i < h.len() implies count_after(#[trigger] h.take(i)) >= 1 by {
                if i < self.history@.len() {
                    assert(h.take(i) =~= self.history@.take(i));
                } else {
                    assert(h.take(i) =~= self.history@);
                }
            }
        }
        *self = RefCount { count: self.count + 1, history: Ghost(h) };
    }

    /// A live handle performs a terminal event: `mv` tells whether it is a
    /// move-out attempt or an ordinary drop. The count comes down by one,
    /// and the result reports whether this event observed the transition to
    /// zero — whether it is the one event that disposes of the value.
    fn terminal_event(&mut self, mv: bool) -> (disposes: bool)
        requires
            old(self).count() >= 1,
        ensures
            final(self).history() == old(self).history().push(
                if mv {
                    HandleEvent::MoveOutHandle
                } else {
                    HandleEvent::DropHandle
                },
            ),
            final(self).count() == old(self).count() - 1,
            disposes <==> old(self).count() == 1,
            disposes <==> is_disposing(final(self).history(), final(self).history().len() - 1),
        no_unwind
    {
        proof {
            use_type_invariant(&*self);
        }
        let ghost e = if mv {
            HandleEvent::MoveOutHandle
        } else {
            HandleEvent::DropHandle
        };
        let ghost h = self.history@.push(e);
        proof {
            assert(h.drop_last() =~= self.history@);
            assert forall|i: int| 0 <= i < h.len() implies count_after(#[trigger] h.take(i)) >= 1 by {
                if i < self.history@.len() {
                    assert(h.take(i) =~= self.history@.take(i));
                } else {
                    assert(h.take(i) =~= self.history@);
                }
            }
            assert(h.take(h.len() as int) =~= h);
        }
        let last = self.count == 1;
        *self = RefCount { count: self.count - 1, history: Ghost(h) };
        last
    }

    /// A live handle is dropped. The result reports whether that drop is
    /// the disposing event: if so, the caller must destroy the value and
    /// free the allocation; if not, it must touch nothing.
    pub fn drop_handle(&mut self) -> (disposes: bool)
        requires
            old(self).count() >= 1,
        ensures
            final(self).history() == old(self).history().push(HandleEvent::DropHandle),
            final(self).count() == old(self).count() - 1,
            disposes <==> old(self).count() == 1,
            disposes <==> is_disposing(final(self).history(), final(self).history().len() - 1),
        no_unwind
    {
        self.terminal_event(false)
    }

    /// A live handle attempts a move-out, consuming itself. The result
    /// reports whether the attempt won: if so, the caller takes the value
    /// and frees the raw storage without destroying the value; if not, the
    /// handle simply vanishes and the caller must touch nothing — some
    /// still-live handle remains responsible for the allocation.
    pub fn try_move_out(&mut self) -> (wins: bool)
        requires
            old(self).count() >= 1,
        ensures
            final(self).history() == old(self).history().push(HandleEvent::MoveOutHandle),
            final(self).count() == old(self).count() - 1,
            wins <==> old(self).count() == 1,
            wins <==> is_disposing(final(self).history(), final(self).history().len() - 1),
        no_unwind
    {
        self.terminal_event(true)
    }
}

/// One shared allocation in full: the live-handle counter together with the
/// value the handles share.
///
/// This is the sequential model of the thread-safe shared handle: what each
/// operation observes, decides, and does with the value. The value stands in
/// the allocation exactly while a handle is live; the one disposing event
/// carries it out — an ordinary drop hands it back for destruction, a
/// winning move-out hands it to the caller — and afterwards no operation can
/// touch the allocation again, since every operation demands a live handle.
pub struct SharedAllocation<T> {
    counter: RefCount,
    value: Option<T>,
}

impl<T> SharedAllocation<T> {
    /// The events so far.
    pub closed spec fn history(&self) -> Seq<HandleEvent> {
        self.counter.history()
    }

    /// The count of live handles.
    pub open spec fn count(&self) -> int {
        count_after(self.history())
    }

    /// The value the handles share.
    pub closed spec fn stored(&self) -> T
        recommends
            self.count() >= 1,
    {
        self.value->0
    }

    /// The allocation is sound: the value stands in it exactly while a
    /// handle is live. Established at creation and preserved by every
    /// operation.
    pub closed spec fn wf(&self) -> bool {
        self.value is Some <==> count_after(self.counter.history()) >= 1
    }

    /// A fresh allocation holding `value`, referenced by the one handle
    /// that created it.
    pub fn new(value: T) -> (s: Self)
        ensures
            s.wf(),
            s.history() == Seq::<HandleEvent>::empty(),
            s.count() == 1,
            s.stored() == value,
    {
        SharedAllocation { counter: RefCount::new(), value: Some(value) }
    }

    /// Shared read access, available to every live handle.
    pub fn value(&self) -> (r: &T)
        requires
            self.wf(),
            self.count() >= 1,
        ensures
            *r == self.stored(),
    {
        match &self.value {
            Some(v) => v,
            None => unreached(),
        }
    }

    /// Whether the reading handle is the sole owner.
    pub fn is_unique(&self) -> (r: bool)
        requires
            self.count() >= 1,
        ensures
            r <==> self.count() == 1,
    {
        self.counter.is_unique()
    }

    /// A live handle is cloned: one more live handle, the value untouched.
    pub fn clone_handle(&mut self)
        requires
            old(self).wf(),
            1 <= old(self).count() < MAX_HANDLES,
        ensures
            final(self).wf(),
            final(self).history() == old(self).history().push(HandleEvent::CloneHandle),
            final(self).count() == old(self).count() + 1,
            final(self).stored() == old(self).stored(),
    {
        self.counter.clone_handle();
    }

    /// Exclusive access to the value, granted exactly to a sole owner; a
    /// handle that shares the allocation gets nothing and changes nothing.
    pub fn get_mut(&mut self) -> (r: Option<&mut T>)
        requires
            old(self).wf(),
            old(self).count() >= 1,
        ensures
            final(self).wf(),
            final(self).history() == old(self).history(),
            final(self).count() == old(self).count(),
            match r {
                Some(m) => {
                    &&& old(self).count() == 1
                    &&& *m == old(self).stored()
                    &&& final(self).stored() == *final(m)
                },
                None => old(self).count() != 1 && *final(self) == *old(self),
            },
    {
        if self.counter.is_unique() {
            self.value.as_mut()
        } else {
            None
        }
    }

    /// A live handle is dropped. When that drop is the disposing event the
    /// value comes back, for the caller to destroy — the model of "the last
    /// ordinary drop destroys the value, every other drop touches nothing".
    pub fn drop_handle(&mut self) -> (r: Option<T>)
        requires
            old(self).wf(),
            old(self).count() >= 1,
        ensures
            final(self).wf(),
            final(self).history() == old(self).history().push(HandleEvent::DropHandle),
            final(self).count() == old(self).count() - 1,
            match r {
                Some(v) => old(self).count() == 1 && v == old(self).stored(),
                None => old(self).count() != 1 && final(self).stored() == old(self).stored(),
            },
    {
        if self.counter.drop_handle() {
            self.value.take()
        } else {
            None
        }
    }

    /// A live handle attempts a move-out, consuming itself. The attempt
    /// that observes the transition to zero — exactly one in any complete
    /// history — wins and receives the stored value; every other attempt
    /// receives nothing and leaves the value untouched.
    pub fn try_move_out(&mut self) -> (r: Option<T>)
        requires
            old(self).wf(),
            old(self).count() >= 1,
        ensures
            final(self).wf(),
            final(self).history() == old(self).history().push(HandleEvent::MoveOutHandle),
            final(self).count() == old(self).count() - 1,
            match r {
                Some(v) => old(self).count() == 1 && v == old(self).stored(),
                None => old(self).count() != 1 && final(self).stored() == old(self).stored(),
            },
    {
        if self.counter.try_move_out() {
            self.value.take()
        } else {
            None
        }
    }
}

} // verus!
