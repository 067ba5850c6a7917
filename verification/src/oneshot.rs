//! The one-shot rendezvous cell.
//!
//! A cell is shared by exactly two endpoints: the sender (the ring owner,
//! which delivers one completion record) and the receiver (the task that
//! awaits it).  A state word carries three bits — WAKER_READY, VALUE_READY
//! and CLOSED — and the cell stores at most one value and at most one
//! waker token.  The waker is modelled as an opaque 64-bit token; invoking
//! it is the embedding's job.

use vstd::prelude::*;

verus! {

/// Bit of the state word: a waker is installed.
pub const WAKER_READY: u8 = 0b001;

/// Bit of the state word: a value is stored and not yet consumed.
pub const VALUE_READY: u8 = 0b010;

/// Bit of the state word: one endpoint is gone.
pub const CLOSED: u8 = 0b100;

/// Whether `bit` is set in the state word `s`.
pub open spec fn has_bit(s: u8, bit: u8) -> bool {
    s & bit == bit
}

/// The rendezvous cell.
pub struct Cell<T> {
    /// The state word.
    pub state: u8,
    /// The stored value, present exactly while VALUE_READY is set.
    pub value: Option<T>,
    /// The installed waker token, present exactly while WAKER_READY is
    /// set.
    pub waker: Option<u64>,
}

/// What a send achieved.
pub enum Sent<T> {
    /// The value is stored; if a waker was installed it is returned so
    /// the caller can invoke it.
    Delivered { wake: Option<u64> },
    /// The receiver is gone; the value is handed back to the caller.
    Refused { value: T },
}

/// What a receiver poll observed.
pub enum Polled<T> {
    /// The value arrived and is consumed.
    Ready { value: T },
    /// The sender is gone and no value will ever arrive.
    Closed,
    /// Nothing yet; the waker token is installed.
    Pending,
}

impl<T> Cell<T> {
    /// The storage agrees with the state word.
    pub open spec fn wf(&self) -> bool {
        &&& self.value.is_some() == has_bit(self.state, VALUE_READY)
        &&& self.waker.is_some() == has_bit(self.state, WAKER_READY)
    }

    /// Whether a value is stored.
    pub open spec fn spec_has_value(&self) -> bool {
        has_bit(self.state, VALUE_READY)
    }

    /// Whether an endpoint is gone.
    pub open spec fn spec_is_closed(&self) -> bool {
        has_bit(self.state, CLOSED)
    }

    /// Whether a waker is installed.
    pub open spec fn spec_has_waker(&self) -> bool {
        has_bit(self.state, WAKER_READY)
    }

    /// A fresh cell: no value, no waker, both endpoints alive.
    pub fn new() -> (r: Cell<T>)
        ensures
            r.wf(),
            !r.spec_has_value(),
            !r.spec_is_closed(),
            !r.spec_has_waker(),
            r.state == 0u8,
    {
        let r = Cell { state: 0u8, value: None, waker: None };
        proof {
            assert(0u8 & 0b001u8 != 0b001u8 && 0u8 & 0b010u8 != 0b010u8
                && 0u8 & 0b100u8 != 0b100u8) by (bit_vector);
        }
        r
    }

    /// Whether an endpoint is gone.
    pub fn is_closed(&self) -> (r: bool)
        ensures
            r == self.spec_is_closed(),
    {
        self.state & CLOSED == CLOSED
    }

    /// The sender stores its one value.
    ///
    /// If the receiver is gone the value is handed back unchanged.
    /// Otherwise it is stored, VALUE_READY is set, and an installed waker
    /// is taken out and returned for the caller to invoke.
    pub fn send(&mut self, v: T) -> (r: Sent<T>)
        requires
            old(self).wf(),
            !old(self).spec_has_value(),
        ensures
            final(self).wf(),
            old(self).spec_is_closed() ==> {
                &&& r matches Sent::Refused { value } && value == v
                &&& *final(self) == *old(self)
            },
            !old(self).spec_is_closed() ==> {
                &&& final(self).spec_has_value()
                &&& final(self).value == Some(v)
                &&& !final(self).spec_is_closed()
                &&& !final(self).spec_has_waker()
                &&& r matches Sent::Delivered { wake } && wake == old(self).waker
            },
    {
        if self.state & CLOSED == CLOSED {
            return Sent::Refused { value: v };
        }
        let s = self.state;
        self.state = (s | VALUE_READY) & !WAKER_READY;
        self.value = Some(v);
        let wake = self.waker.take();
        proof {
            assert({
                let f = (s | 0b010u8) & !0b001u8;
                f & 0b010u8 == 0b010u8 && f & 0b001u8 != 0b001u8 && (f & 0b100u8 == 0b100u8)
                    == (s & 0b100u8 == 0b100u8)
            }) by (bit_vector);
        }
        Sent::Delivered { wake }
    }

    /// The receiver polls for the value, leaving its waker token if the
    /// value has not arrived yet.
    ///
    /// If a value is stored, it is consumed.  If the sender is gone
    /// without having stored one, the receiver learns it is abandoned.
    /// Otherwise the waker token is installed (replacing any earlier one)
    /// and the receiver stays pending.
    pub fn poll(&mut self, waker: u64) -> (r: Polled<T>)
        requires
            old(self).wf(),
        ensures
            final(self).wf(),
            old(self).spec_has_value() ==> {
                &&& r matches Polled::Ready { value } && Some(value) == old(self).value
                &&& !final(self).spec_has_value()
                &&& final(self).spec_is_closed() == old(self).spec_is_closed()
            },
            !old(self).spec_has_value() && old(self).spec_is_closed() ==> {
                &&& r is Closed
                &&& *final(self) == *old(self)
            },
            !old(self).spec_has_value() && !old(self).spec_is_closed() ==> {
                &&& r is Pending
                &&& final(self).spec_has_waker()
                &&& final(self).waker == Some(waker)
                &&& !final(self).spec_has_value()
                &&& !final(self).spec_is_closed()
            },
    {
        let s = self.state;
        if s & VALUE_READY == VALUE_READY {
            self.state = s & !VALUE_READY;
            proof {
                assert({
                    let f = s & !0b010u8;
                    f & 0b010u8 != 0b010u8 && (f & 0b001u8 == 0b001u8) == (s & 0b001u8
                        == 0b001u8) && (f & 0b100u8 == 0b100u8) == (s & 0b100u8 == 0b100u8)
                }) by (bit_vector);
            }
            let value = self.value.take().unwrap();
            Polled::Ready { value }
        } else if s & CLOSED == CLOSED {
            Polled::Closed
        } else {
            self.state = s | WAKER_READY;
            self.waker = Some(waker);
            proof {
                assert({
                    let f = s | 0b001u8;
                    f & 0b001u8 == 0b001u8 && (f & 0b010u8 == 0b010u8) == (s & 0b010u8
                        == 0b010u8) && (f & 0b100u8 == 0b100u8) == (s & 0b100u8 == 0b100u8)
                }) by (bit_vector);
            }
            Polled::Pending
        }
    }

    /// One endpoint leaves.  Returns true when the other endpoint had
    /// already left, in which case the cell can be reclaimed.
    pub fn close(&mut self) -> (free: bool)
        ensures
            free == old(self).spec_is_closed(),
            final(self).state == old(self).state | CLOSED,
            final(self).spec_is_closed(),
            final(self).value == old(self).value,
            final(self).waker == old(self).waker,
            old(self).wf() ==> final(self).wf(),
    {
        let s = self.state;
        self.state = s | CLOSED;
        proof {
            assert({
                let f = s | 0b100u8;
                f & 0b100u8 == 0b100u8 && (f & 0b010u8 == 0b010u8) == (s & 0b010u8 == 0b010u8)
                    && (f & 0b001u8 == 0b001u8) == (s & 0b001u8 == 0b001u8)
            }) by (bit_vector);
        }
        s & CLOSED == CLOSED
    }
}

/// Reads a state word through an exclusive reference, as the final owner
/// of a cell does while tearing it down.
pub fn load_u8(t: &mut u8) -> (r: u8)
    ensures
        r == *old(t),
        *final(t) == *old(t),
{
    *t
}

} // verus!
