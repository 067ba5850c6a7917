//! The ticket layer: a registry of one-shot cells, each identified by a
//! 64-bit tag that the kernel round-trips unchanged.
//!
//! A ticket is allocated by a task before submission; its numeric
//! identity becomes the submission's user-data tag.  When the matching
//! completion arrives, the ring owner recovers the sender from the tag
//! and delivers the completion record through the cell.  Identities are
//! never reused while the ticket is live, so a tag in flight always
//! denotes exactly one cell.

use vstd::prelude::*;

use crate::oneshot::{Cell, Polled, Sent};
use crate::ring::{CompletionEntry, SubmissionEntry, FIRST_TICKET};

verus! {

/// The sender endpoint: held (as a raw tag) by the in-flight submission.
pub struct Ticket {
    /// The numeric identity.
    pub id: u64,
}

/// The receiver endpoint: the future a task awaits.
pub struct TicketFuture {
    /// The numeric identity.
    pub id: u64,
}

/// The registry of live cells, owned by the ring owner.
///
/// Slot `i` holds the cell with identity `i + FIRST_TICKET`, so that no
/// identity collides with the reserved tags.
pub struct Tickets {
    /// The cell slots; `None` marks a reclaimed slot.
    pub slots: Vec<Option<Cell<CompletionEntry>>>,
}

impl Tickets {
    /// Whether `id` is in the registry's identity range.
    pub open spec fn in_range(&self, id: u64) -> bool {
        FIRST_TICKET <= id && id - FIRST_TICKET < self.slots@.len()
    }

    /// The slot for identity `id`.
    pub open spec fn slot(&self, id: u64) -> Option<Cell<CompletionEntry>> {
        self.slots@[id - FIRST_TICKET]
    }

    /// Whether `id` denotes a live cell.
    pub open spec fn is_live(&self, id: u64) -> bool {
        self.in_range(id) && self.slot(id) is Some
    }

    /// Every live cell is well formed, and the identity space fits the
    /// tag word.
    pub open spec fn wf(&self) -> bool {
        &&& self.slots@.len() + FIRST_TICKET < u64::MAX
        &&& forall|i: int|
            0 <= i < self.slots@.len() && self.slots@[i] is Some
                ==> (#[trigger] self.slots@[i])->0.wf()
    }

    /// An empty registry.
    pub fn new() -> (r: Tickets)
        ensures
            r.wf(),
            r.slots@.len() == 0,
            forall|id: u64| !r.is_live(id),
    {
        Tickets { slots: Vec::new() }
    }

    /// How many cells are live.
    #[verifier::loop_isolation(false)]
    pub fn live_count(&self) -> (r: usize)
        ensures
            r <= self.slots@.len(),
    {
        let mut n: usize = 0;
        let mut i: usize = 0;
        while i < self.slots.len()
            invariant
                i <= self.slots@.len(),
                n <= i,
            decreases self.slots@.len() - i,
        {
            if self.slots[i].is_some() {
                n = n + 1;
            }
            i = i + 1;
        }
        n
    }

    /// Finds a reclaimed slot, if any.
    #[verifier::loop_isolation(false)]
    fn find_free(&self) -> (r: Option<usize>)
        ensures
            r matches Some(i) ==> i < self.slots@.len() && self.slots@[i as int] is None,
    {
        let mut i: usize = 0;
        while i < self.slots.len()
            invariant
                i <= self.slots@.len(),
            decreases self.slots@.len() - i,
        {
            if self.slots[i].is_none() {
                return Some(i);
            }
            i = i + 1;
        }
        None
    }

    /// Allocates a fresh cell and returns the two endpoints, which share
    /// one identity that no live cell already uses.
    pub fn allocate(&mut self) -> (r: (Ticket, TicketFuture))
        requires
            old(self).wf(),
            old(self).slots@.len() + 1 + FIRST_TICKET < u64::MAX,
        ensures
            final(self).wf(),
            r.0.id == r.1.id,
            !old(self).is_live(r.0.id),
            final(self).is_live(r.0.id),
            final(self).slot(r.0.id) matches Some(c) && c.wf() && !c.spec_has_value()
                && !c.spec_is_closed() && !c.spec_has_waker(),
            forall|id: u64|
                id != r.0.id ==> #[trigger] final(self).is_live(id) == old(self).is_live(id),
            forall|id: u64|
                id != r.0.id && old(self).is_live(id) ==> #[trigger] final(self).slot(id)
                    == old(self).slot(id),
    {
        match self.find_free() {
            Some(i) => {
                self.slots.set(i, Some(Cell::new()));
                let id = (i as u64) + FIRST_TICKET;
                (Ticket { id }, TicketFuture { id })
            },
            None => {
                let id = (self.slots.len() as u64) + FIRST_TICKET;
                self.slots.push(Some(Cell::new()));
                (Ticket { id }, TicketFuture { id })
            },
        }
    }

}

impl Ticket {
    /// Allocates a ticket in the registry, returning the sender endpoint
    /// and the future the task will await.
    pub fn new(tickets: &mut Tickets) -> (r: (Ticket, TicketFuture))
        requires
            old(tickets).wf(),
            old(tickets).slots@.len() + 1 + FIRST_TICKET < u64::MAX,
        ensures
            final(tickets).wf(),
            r.0.id == r.1.id,
            !old(tickets).is_live(r.0.id),
            final(tickets).is_live(r.0.id),
            final(tickets).slot(r.0.id) matches Some(c) && c.wf() && !c.spec_has_value()
                && !c.spec_is_closed() && !c.spec_has_waker(),
            forall|id: u64|
                id != r.0.id ==> #[trigger] final(tickets).is_live(id) == old(tickets).is_live(
                    id,
                ),
            forall|id: u64|
                id != r.0.id && old(tickets).is_live(id) ==> #[trigger] final(tickets).slot(id)
                    == old(tickets).slot(id),
    {
        tickets.allocate()
    }

    /// Consumes the sender, returning the raw tag.  The identity is
    /// stable: recovering the sender from the tag yields the same cell.
    pub fn into_raw(self) -> (r: u64)
        ensures
            r == self.id,
    {
        self.id
    }

    /// Reconstructs the sender from a tag the kernel echoed back.  The
    /// ring owner may do this at most once per completion: a tag is
    /// delivered exactly once.
    pub fn from_raw(id: u64) -> (r: Ticket)
        ensures
            r.id == id,
    {
        Ticket { id }
    }

    /// Tags a submission entry with this ticket's identity, consuming
    /// the sender into its raw form.
    pub fn register(self, entry: SubmissionEntry) -> (r: SubmissionEntry)
        ensures
            r.op == entry.op,
            r.user_data == self.id,
    {
        entry.with_user_data(self.id)
    }

    /// The sender endpoint leaves without delivering anything, as when
    /// a submission could not be staged.  If the receiver is already
    /// gone the slot is reclaimed.
    pub fn close(self, tickets: &mut Tickets)
        requires
            old(tickets).wf(),
            old(tickets).is_live(self.id),
        ensures
            final(tickets).wf(),
            final(tickets).slots@.len() == old(tickets).slots@.len(),
            old(tickets).slot(self.id)->0.spec_is_closed() ==> !final(tickets).is_live(self.id),
            !old(tickets).slot(self.id)->0.spec_is_closed() ==> ({
                &&& final(tickets).is_live(self.id)
                &&& final(tickets).slot(self.id) matches Some(c2) && c2.spec_is_closed()
                    && c2.value == old(tickets).slot(self.id)->0.value
                    && c2.spec_has_value() == old(tickets).slot(self.id)->0.spec_has_value()
            }),
            forall|x: u64|
                x != self.id ==> #[trigger] final(tickets).is_live(x) == old(tickets).is_live(
                    x,
                ),
            forall|x: u64|
                x != self.id && old(tickets).is_live(x) ==> #[trigger] final(tickets).slot(x)
                    == old(tickets).slot(x),
    {
        let n = tickets.slots.len();
        let idx = (self.id - FIRST_TICKET) as usize;
        let mut cell = tickets.slots[idx].take().unwrap();
        let free = cell.close();
        if !free {
            tickets.slots.set(idx, Some(cell));
        }
    }

    /// Delivers the completion record and retires the sender endpoint.
    ///
    /// If the receiver still waits, the value is stored and any installed
    /// waker token is returned for the embedding to invoke.  If the
    /// receiver is gone, the record is dropped and the slot reclaimed.
    pub fn send(self, tickets: &mut Tickets, entry: CompletionEntry) -> (wake: Option<u64>)
        requires
            old(tickets).wf(),
            old(tickets).is_live(self.id),
            !old(tickets).slot(self.id)->0.spec_has_value(),
        ensures
            final(tickets).wf(),
            final(tickets).slots@.len() == old(tickets).slots@.len(),
            ({
                let cell = old(tickets).slot(self.id)->0;
                if cell.spec_is_closed() {
                    &&& !final(tickets).is_live(self.id)
                    &&& wake is None
                } else {
                    &&& final(tickets).is_live(self.id)
                    &&& final(tickets).slot(self.id) matches Some(c2) && c2.wf()
                        && c2.spec_has_value() && c2.value == Some(entry)
                        && c2.spec_is_closed() && !c2.spec_has_waker()
                    &&& wake == cell.waker
                }
            }),
            forall|x: u64|
                x != self.id ==> #[trigger] final(tickets).is_live(x) == old(tickets).is_live(
                    x,
                ),
            forall|x: u64|
                x != self.id && old(tickets).is_live(x) ==> #[trigger] final(tickets).slot(x)
                    == old(tickets).slot(x),
    {
        let n = tickets.slots.len();
        let idx = (self.id - FIRST_TICKET) as usize;
        let mut cell = tickets.slots[idx].take().unwrap();
        let wake = match cell.send(entry) {
            Sent::Delivered { wake } => wake,
            Sent::Refused { value: _ } => None,
        };
        let free = cell.close();
        if !free {
            tickets.slots.set(idx, Some(cell));
        }
        wake
    }
}

impl TicketFuture {
    /// The numeric identity, usable as a cancellation target.
    pub fn as_ptr(&self) -> (r: u64)
        ensures
            r == self.id,
    {
        self.id
    }

    /// Whether the sender endpoint is gone.
    pub fn is_closed(&self, tickets: &Tickets) -> (r: bool)
        requires
            tickets.is_live(self.id),
        ensures
            r == tickets.slot(self.id)->0.spec_is_closed(),
    {
        let n = tickets.slots.len();
        let idx = (self.id - FIRST_TICKET) as usize;
        match &tickets.slots[idx] {
            Some(cell) => cell.is_closed(),
            None => true,
        }
    }

    /// Polls for the completion record, installing the waker token while
    /// none has arrived.  A ticket abandoned by its sender stays pending
    /// forever: the completion it waited for will never exist.
    pub fn poll(&self, tickets: &mut Tickets, waker: u64) -> (r: Option<CompletionEntry>)
        requires
            old(tickets).wf(),
            old(tickets).is_live(self.id),
        ensures
            final(tickets).wf(),
            final(tickets).slots@.len() == old(tickets).slots@.len(),
            final(tickets).is_live(self.id),
            ({
                let cell = old(tickets).slot(self.id)->0;
                let cell2 = final(tickets).slot(self.id)->0;
                if cell.spec_has_value() {
                    &&& r == cell.value
                    &&& !cell2.spec_has_value()
                    &&& cell2.spec_is_closed() == cell.spec_is_closed()
                } else if cell.spec_is_closed() {
                    &&& r is None
                    &&& cell2 == cell
                } else {
                    &&& r is None
                    &&& cell2.spec_has_waker()
                    &&& cell2.waker == Some(waker)
                    &&& !cell2.spec_has_value()
                    &&& !cell2.spec_is_closed()
                }
            }),
            forall|x: u64|
                x != self.id ==> #[trigger] final(tickets).is_live(x) == old(tickets).is_live(
                    x,
                ),
            forall|x: u64|
                x != self.id && old(tickets).is_live(x) ==> #[trigger] final(tickets).slot(x)
                    == old(tickets).slot(x),
    {
        let n = tickets.slots.len();
        let idx = (self.id - FIRST_TICKET) as usize;
        let mut cell = tickets.slots[idx].take().unwrap();
        let r = match cell.poll(waker) {
            Polled::Ready { value } => Some(value),
            Polled::Closed => None,
            Polled::Pending => None,
        };
        tickets.slots.set(idx, Some(cell));
        r
    }

    /// The receiver endpoint leaves.  If the sender is already gone the
    /// slot is reclaimed, dropping an unconsumed record with it.
    pub fn close(self, tickets: &mut Tickets)
        requires
            old(tickets).wf(),
            old(tickets).is_live(self.id),
        ensures
            final(tickets).wf(),
            final(tickets).slots@.len() == old(tickets).slots@.len(),
            old(tickets).slot(self.id)->0.spec_is_closed() ==> !final(tickets).is_live(self.id),
            !old(tickets).slot(self.id)->0.spec_is_closed() ==> final(tickets).is_live(self.id)
                && final(tickets).slot(self.id)->0.spec_is_closed(),
            forall|x: u64|
                x != self.id ==> #[trigger] final(tickets).is_live(x) == old(tickets).is_live(
                    x,
                ),
            forall|x: u64|
                x != self.id && old(tickets).is_live(x) ==> #[trigger] final(tickets).slot(x)
                    == old(tickets).slot(x),
    {
        let n = tickets.slots.len();
        let idx = (self.id - FIRST_TICKET) as usize;
        let mut cell = tickets.slots[idx].take().unwrap();
        let free = cell.close();
        if free {
            tickets.slots.set(idx, None);
        } else {
            tickets.slots.set(idx, Some(cell));
        }
    }
}

} // verus!
