//! Looking up the full record behind each stub of a listing, several at a
//! time, without losing the order of the listing.
//!
//! Lookups that are in flight form a queue of fixed width. A lookup takes
//! its place at the back when it is launched and keeps it until its result
//! has left at the front: a result that comes early waits for the results
//! before it. Launching and awaiting the lookups is the caller's work; what
//! is decided here is whether there is room for another one, and which
//! result may go downstream.

use vstd::prelude::*;

verus! {

/// The queue as a value: its width, the ticket of the lookup at its front,
/// and for each lookup in flight its result, where it has come.
pub struct HydratorView<T> {
    pub width: nat,
    pub first: nat,
    pub slots: Seq<Option<T>>,
}

impl<T> HydratorView<T> {
    /// Whether there is room for another lookup.
    pub open spec fn has_room(self) -> bool {
        self.slots.len() < self.width && self.first + self.slots.len() < u64::MAX
    }

    /// The ticket that the next lookup gets.
    pub open spec fn next_ticket(self) -> nat {
        self.first + self.slots.len()
    }

    /// The queue after a lookup has been launched.
    pub open spec fn launched(self) -> HydratorView<T> {
        HydratorView { slots: self.slots.push(None), ..self }
    }

    /// Whether the lookup with this ticket is in flight and has no result.
    pub open spec fn awaits(self, ticket: nat) -> bool {
        self.first <= ticket < self.first + self.slots.len() && self.slots[ticket
            - self.first] is None
    }

    /// The queue after the lookup with this ticket has brought its result.
    pub open spec fn completed(self, ticket: nat, value: T) -> HydratorView<T> {
        HydratorView { slots: self.slots.update(ticket - self.first, Some(value)), ..self }
    }

    /// Whether the result at the front has come.
    pub open spec fn is_ready(self) -> bool {
        self.slots.len() > 0 && self.slots[0] is Some
    }

    /// The queue after the result at the front has left.
    pub open spec fn popped(self) -> HydratorView<T> {
        HydratorView { first: self.first + 1, slots: self.slots.drop_first(), ..self }
    }
}

/// The lookups in flight, in the order in which they were launched.
pub struct Hydrator<T> {
    width: usize,
    first: u64,
    slots: Vec<Option<T>>,
}

impl<T> View for Hydrator<T> {
    type V = HydratorView<T>;

    closed spec fn view(&self) -> HydratorView<T> {
        HydratorView { width: self.width as nat, first: self.first as nat, slots: self.slots@ }
    }
}

impl<T> Hydrator<T> {
    #[verifier::type_invariant]
    spec fn inv(self) -> bool {
        self.slots@.len() <= self.width && self.first + self.slots@.len() <= u64::MAX
    }

    /// A queue with room for `width` lookups and none in flight.
    pub fn new(width: usize) -> (hydrator: Hydrator<T>)
        ensures
            hydrator@ == (HydratorView::<T> { width: width as nat, first: 0, slots: Seq::empty() }),
    {
        Hydrator { width, first: 0, slots: Vec::new() }
    }

    /// The number of lookups in flight. It never exceeds the width.
    pub fn in_flight(&self) -> (n: usize)
        ensures
            n == self@.slots.len(),
            n <= self@.width,
    {
        proof {
            use_type_invariant(self);
        }
        self.slots.len()
    }

    /// Whether there is room for another lookup.
    pub fn has_room(&self) -> (room: bool)
        ensures
            room == self@.has_room(),
    {
        proof {
            use_type_invariant(self);
        }
        self.slots.len() < self.width && (self.slots.len() as u64) < u64::MAX - self.first
    }

    /// Makes room for a lookup at the back of the queue and hands out its
    /// ticket; `None`, and nothing changes, where the queue is full.
    pub fn launch(self) -> (next: (Hydrator<T>, Option<u64>))
        ensures
            self@.has_room() ==> next.1 == Some(self@.next_ticket() as u64) && next.0@
                == self@.launched(),
            !self@.has_room() ==> next.1 is None && next.0@ == self@,
    {
        proof {
            use_type_invariant(&self);
        }
        if self.slots.len() < self.width && (self.slots.len() as u64) < u64::MAX - self.first {
            let ticket = self.first + self.slots.len() as u64;
            let mut slots = self.slots;
            slots.push(None);
            (Hydrator { width: self.width, first: self.first, slots }, Some(ticket))
        } else {
            (self, None)
        }
    }

    /// Takes the result of the lookup with this ticket. A result for a
    /// ticket that is not in flight, or that has its result already, is
    /// handed back, and nothing changes.
    pub fn complete(self, ticket: u64, value: T) -> (next: (Hydrator<T>, Result<(), T>))
        ensures
            self@.awaits(ticket as nat) ==> next.1 is Ok && next.0@ == self@.completed(
                ticket as nat,
                value,
            ),
            !self@.awaits(ticket as nat) ==> next.1 == Err::<(), T>(value) && next.0@ == self@,
    {
        proof {
            use_type_invariant(&self);
        }
        if ticket < self.first {
            return (self, Err(value));
        }
        let offset = ticket - self.first;
        if offset >= self.slots.len() as u64 {
            return (self, Err(value));
        }
        let index = offset as usize;
        if self.slots[index].is_some() {
            return (self, Err(value));
        }
        let mut slots = self.slots;
        slots.set(index, Some(value));
        (Hydrator { width: self.width, first: self.first, slots }, Ok(()))
    }

    /// Takes the result at the front of the queue, where it has come. The
    /// lookup behind it becomes the front.
    pub fn pop_ready(self) -> (next: (Hydrator<T>, Option<T>))
        ensures
            self@.is_ready() ==> next.1 == self@.slots[0] && next.0@ == self@.popped(),
            !self@.is_ready() ==> next.1 is None && next.0@ == self@,
    {
        proof {
            use_type_invariant(&self);
        }
        if self.slots.len() == 0 {
            return (self, None);
        }
        if self.slots[0].is_none() {
            return (self, None);
        }
        let ghost before = self.slots@;
        let mut slots = self.slots;
        let front = slots.remove(0);
        proof {
            assert(slots@ =~= before.drop_first());
        }
        (Hydrator { width: self.width, first: self.first + 1, slots }, front)
    }
}

/// What may happen to the queue.
pub enum HydratorOp<T> {
    /// A lookup is launched, if there is room.
    Launch,
    /// The lookup with this ticket brings its result.
    Complete(nat, T),
    /// The result at the front is taken, if it has come.
    Pop,
}

/// The queue after `op`.
pub open spec fn after<T>(queue: HydratorView<T>, op: HydratorOp<T>) -> HydratorView<T> {
    match op {
        HydratorOp::Launch => if queue.has_room() {
            queue.launched()
        } else {
            queue
        },
        HydratorOp::Complete(ticket, value) => if queue.awaits(ticket) {
            queue.completed(ticket, value)
        } else {
            queue
        },
        HydratorOp::Pop => if queue.is_ready() {
            queue.popped()
        } else {
            queue
        },
    }
}

/// What goes downstream as `ops` happen to the queue one after the other:
/// each result with the ticket of its lookup.
pub open spec fn emitted<T>(queue: HydratorView<T>, ops: Seq<HydratorOp<T>>) -> Seq<(nat, T)>
    decreases ops.len(),
{
    if ops.len() == 0 {
        Seq::empty()
    } else {
        let rest = emitted(after(queue, ops[0]), ops.drop_first());
        if ops[0] is Pop && queue.is_ready() {
            seq![(queue.first, queue.slots[0]->0)] + rest
        } else {
            rest
        }
    }
}

/// The queue never holds more lookups than its width, whatever happens.
pub proof fn lemma_window_is_bounded<T>(queue: HydratorView<T>, op: HydratorOp<T>)
    requires
        queue.slots.len() <= queue.width,
    ensures
        after(queue, op).slots.len() <= after(queue, op).width,
        after(queue, op).width == queue.width,
{
}

/// Results go downstream in the order in which their lookups were launched:
/// whatever happens, and in whatever order the results come, the tickets
/// that leave the queue are consecutive, starting with the ticket at the
/// front. No result overtakes one that was launched before it.
pub proof fn lemma_emitted_in_launch_order<T>(queue: HydratorView<T>, ops: Seq<HydratorOp<T>>)
    ensures
        forall|i: int|
            0 <= i < emitted(queue, ops).len() ==> (#[trigger] emitted(queue, ops)[i]).0
                == queue.first + i,
    decreases ops.len(),
{
    if ops.len() > 0 {
        let next = after(queue, ops[0]);
        let rest = emitted(next, ops.drop_first());
        lemma_emitted_in_launch_order(next, ops.drop_first());
        let all = emitted(queue, ops);
        assert forall|i: int| 0 <= i < all.len() implies (#[trigger] all[i]).0 == queue.first
            + i by {
            if ops[0] is Pop && queue.is_ready() {
                if i > 0 {
                    assert(all[i] == rest[i - 1]);
                }
            } else {
                assert(all[i] == rest[i]);
            }
        }
    }
}

/// A result keeps its place: once the lookup at place `place` of the queue
/// has brought its result, that result is what goes downstream at that
/// place, whatever happens in between.
pub proof fn lemma_result_keeps_its_place<T>(
    queue: HydratorView<T>,
    ops: Seq<HydratorOp<T>>,
    place: int,
)
    requires
        0 <= place < queue.slots.len(),
        queue.slots[place] is Some,
        place < emitted(queue, ops).len(),
    ensures
        emitted(queue, ops)[place] == ((queue.first + place) as nat, queue.slots[place]->0),
    decreases ops.len(),
{
    if ops.len() > 0 {
        let next = after(queue, ops[0]);
        let rest = emitted(next, ops.drop_first());
        if ops[0] is Pop && queue.is_ready() {
            if place > 0 {
                assert(next.slots[place - 1] == queue.slots[place]);
                lemma_result_keeps_its_place(next, ops.drop_first(), place - 1);
                assert(emitted(queue, ops)[place] == rest[place - 1]);
            }
        } else {
            assert(next.slots[place] == queue.slots[place]);
            assert(next.first == queue.first);
            lemma_result_keeps_its_place(next, ops.drop_first(), place);
        }
    }
}

} // verus!
