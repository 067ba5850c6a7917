//! The cross-thread wake signal.
//!
//! The signal is a kernel event object plus a state word with two bits:
//! READY (a wake has been requested) and PARKING (the ring owner is about
//! to sleep or is sleeping).  The verified core models the state word and
//! the transitions on it; the embedding owns the event descriptor, performs
//! the eight-byte write whenever [`WakeSignal::wake`] asks for one, and
//! keeps the state word in an atomic so that any thread may call `wake`.

use vstd::prelude::*;

verus! {

/// Bit of the state word: a wake has been requested and not yet consumed.
pub const READY: u8 = 0b01;

/// Bit of the state word: the ring owner is parked or about to park.
pub const PARKING: u8 = 0b10;

/// A snapshot of the wake signal's state word.
#[derive(Clone, Copy, Debug, PartialEq, Eq, Structural)]
pub struct State(pub u8);

impl State {
    /// Whether the READY bit is set.
    pub open spec fn spec_is_ready(self) -> bool {
        self.0 & READY == READY
    }

    /// Whether the PARKING bit is set.
    pub open spec fn spec_is_parking(self) -> bool {
        self.0 & PARKING == PARKING
    }

    /// Whether the READY bit is set.
    pub fn is_ready(self) -> (r: bool)
        ensures
            r == self.spec_is_ready(),
    {
        self.0 & READY == READY
    }

    /// Whether the PARKING bit is set.
    pub fn is_parking(self) -> (r: bool)
        ensures
            r == self.spec_is_parking(),
    {
        self.0 & PARKING == PARKING
    }
}

/// The wake signal's state word, as owned by the ring owner's model.
///
/// The embedding mirrors every transition onto an atomic word shared with
/// other threads; the model tracks the single-threaded view of it.
pub struct WakeSignal {
    /// The current state word.
    pub flag: u8,
}

/// The wake transition on a state word: set READY, and request the
/// event write exactly when the signal was not yet ready but the ring
/// owner was parking.
pub open spec fn spec_wake(s: u8) -> (u8, bool) {
    (s | READY, s & READY != READY && s & PARKING == PARKING)
}

impl WakeSignal {
    /// The current state as a snapshot value.
    pub open spec fn spec_load(&self) -> State {
        State(self.flag)
    }

    /// A fresh signal starts READY, so the first park consumes the
    /// initial state without sleeping.
    pub fn new() -> (r: WakeSignal)
        ensures
            r.flag == READY,
            r.spec_load().spec_is_ready(),
            !r.spec_load().spec_is_parking(),
    {
        let r = WakeSignal { flag: READY };
        proof {
            assert(1u8 & 0b01u8 == 0b01u8 && 1u8 & 0b10u8 != 0b10u8) by (bit_vector);
        }
        r
    }

    /// Reads the state word.
    pub fn load(&self) -> (r: State)
        ensures
            r == self.spec_load(),
    {
        State(self.flag)
    }

    /// Sets the PARKING bit and returns the previous state.  The ring
    /// owner calls this before sleeping.
    pub fn park(&mut self) -> (r: State)
        ensures
            r == old(self).spec_load(),
            final(self).flag == old(self).flag | PARKING,
            final(self).spec_load().spec_is_parking(),
            final(self).spec_load().spec_is_ready() == old(self).spec_load().spec_is_ready(),
    {
        let s = self.flag;
        self.flag = s | PARKING;
        proof {
            assert((s | 0b10u8) & 0b10u8 == 0b10u8
                && ((s | 0b10u8) & 0b01u8 == 0b01u8) == (s & 0b01u8 == 0b01u8)) by (bit_vector);
        }
        State(s)
    }

    /// Clears the PARKING bit.  Called when the wake read completes.
    pub fn unpark(&mut self)
        ensures
            final(self).flag == old(self).flag & !PARKING,
            !final(self).spec_load().spec_is_parking(),
            final(self).spec_load().spec_is_ready() == old(self).spec_load().spec_is_ready(),
    {
        let s = self.flag;
        self.flag = s & !PARKING;
        proof {
            assert((s & !0b10u8) & 0b10u8 != 0b10u8
                && ((s & !0b10u8) & 0b01u8 == 0b01u8) == (s & 0b01u8 == 0b01u8)) by (bit_vector);
        }
    }

    /// Clears the READY bit after the ring owner has consumed a wake.
    /// This ends a parking window: the next wake may write again.
    pub fn reset(&mut self)
        ensures
            final(self).flag == old(self).flag & !READY,
            !final(self).spec_load().spec_is_ready(),
            final(self).spec_load().spec_is_parking() == old(self).spec_load().spec_is_parking(),
    {
        let s = self.flag;
        self.flag = s & !READY;
        proof {
            assert((s & !0b01u8) & 0b01u8 != 0b01u8
                && ((s & !0b01u8) & 0b10u8 == 0b10u8) == (s & 0b10u8 == 0b10u8)) by (bit_vector);
        }
    }

    /// Requests a wake.  Sets READY and reports whether the caller must
    /// write to the event descriptor to unblock the sleeping ring owner:
    /// only when the signal was not already READY and the owner is
    /// PARKING.  All other wakes coalesce without a system call.
    pub fn wake(&mut self) -> (write: bool)
        ensures
            (final(self).flag, write) == spec_wake(old(self).flag),
            final(self).spec_load().spec_is_ready(),
            final(self).spec_load().spec_is_parking() == old(self).spec_load().spec_is_parking(),
            write == (!old(self).spec_load().spec_is_ready()
                && old(self).spec_load().spec_is_parking()),
    {
        let s = self.flag;
        self.flag = s | READY;
        proof {
            assert((s | 0b01u8) & 0b01u8 == 0b01u8
                && ((s | 0b01u8) & 0b10u8 == 0b10u8) == (s & 0b10u8 == 0b10u8)) by (bit_vector);
        }
        (s & READY != READY) && (s & PARKING == PARKING)
    }
}

/// The operations that may touch the state word within one parking
/// window, that is, between two calls to `reset`.
pub enum WakeOp {
    /// The ring owner sets PARKING before sleeping.
    Park,
    /// The wake read completed and PARKING is cleared.
    Unpark,
    /// Some thread requests a wake.
    Wake,
}

/// The state word after applying one operation.
pub open spec fn spec_step(s: u8, op: WakeOp) -> u8 {
    match op {
        WakeOp::Park => s | PARKING,
        WakeOp::Unpark => s & !PARKING,
        WakeOp::Wake => spec_wake(s).0,
    }
}

/// Whether one operation performs an event write.
pub open spec fn spec_step_writes(s: u8, op: WakeOp) -> bool {
    op is Wake && spec_wake(s).1
}

/// How many event writes a run of operations performs.
pub open spec fn spec_run_writes(s: u8, ops: Seq<WakeOp>) -> nat
    decreases ops.len(),
{
    if ops.len() == 0 {
        0
    } else {
        (if spec_step_writes(s, ops[0]) {
            1nat
        } else {
            0nat
        }) + spec_run_writes(spec_step(s, ops[0]), ops.skip(1))
    }
}

/// Every operation preserves the READY bit once it is set.
proof fn lemma_ready_sticky(s: u8, op: WakeOp)
    requires
        s & READY == READY,
    ensures
        spec_step(s, op) & READY == READY,
        !spec_step_writes(s, op),
{
    assert((s | 0b10u8) & 0b01u8 == s & 0b01u8 && (s & !0b10u8) & 0b01u8 == s & 0b01u8
        && (s | 0b01u8) & 0b01u8 == 0b01u8) by (bit_vector);
}

/// A READY state word stays READY and writes nothing for the rest of
/// the window.
proof fn lemma_ready_run_no_writes(s: u8, ops: Seq<WakeOp>)
    requires
        s & READY == READY,
    ensures
        spec_run_writes(s, ops) == 0,
    decreases ops.len(),
{
    if ops.len() > 0 {
        lemma_ready_sticky(s, ops[0]);
        lemma_ready_run_no_writes(spec_step(s, ops[0]), ops.skip(1));
    }
}

/// Wakes coalesce: within one parking window — any run of park, unpark
/// and wake operations with no reset between them — at most one event
/// write is performed, no matter how many threads call wake.
pub proof fn lemma_wake_coalesces(s: u8, ops: Seq<WakeOp>)
    ensures
        spec_run_writes(s, ops) <= 1,
    decreases ops.len(),
{
    if ops.len() > 0 {
        let s2 = spec_step(s, ops[0]);
        if spec_step_writes(s, ops[0]) {
            assert((s | 0b01u8) & 0b01u8 == 0b01u8) by (bit_vector);
            lemma_ready_run_no_writes(s2, ops.skip(1));
        } else {
            lemma_wake_coalesces(s2, ops.skip(1));
        }
    }
}

} // verus!
