//! The ring owner: staged submissions, completion dispatch, and the park
//! cycle.
//!
//! The proactor owns the submission staging queue, the ticket registry
//! and the wake signal.  The kernel ring itself lives in the embedding,
//! which drives a simple protocol around the functions here:
//!
//! 1. feed every available completion to [`Proactor::consume`];
//! 2. call [`Proactor::park_prepare`], arm the wake read with
//!    [`Proactor::park_arm`] (flushing with [`Proactor::submit`] when the
//!    queue is full), and pick the blocking variant that
//!    [`choose_wait`] returns;
//! 3. hand the batch from [`Proactor::submit`] to the kernel and sleep;
//!    on a busy kernel, consult [`should_retry`], drain completions and
//!    try again;
//! 4. feed the new completions to [`Proactor::consume`] and call
//!    [`Proactor::park_finish`].
//!
//! Tags handed to the kernel are tracked in a ghost set, which carries
//! the central invariants: a tag in flight denotes exactly one live
//! ticket, and no tag is ever in flight twice.

use vstd::prelude::*;

use crate::ring::{
    spec_is_reserved, CompletionEntry, OpCode, SubmissionEntry, EMPTY_TOKEN, WAKE_TOKEN,
};
use crate::ticket::{Ticket, Tickets};
use crate::wake::{State, WakeSignal};

verus! {

/// The OS code for a temporarily busy kernel, the one submission error
/// that is retried.
pub const EBUSY: i32 = 16;

/// How many times a busy submission is retried before the error
/// surfaces.  The bound is deliberate: an unbounded retry could spin
/// forever when the completion queue cannot drain.
pub const BUSY_RETRY_LIMIT: u32 = 3;

/// The blocking variant for one park step.
#[derive(Clone, Copy, Debug, PartialEq, Eq, Structural)]
pub enum WaitKind {
    /// Submit staged entries without sleeping.
    SubmitOnly,
    /// Submit and sleep at most the given timeout.
    SubmitTimeout,
    /// Submit and sleep until at least one completion arrives.
    SubmitAndWaitOne,
}

/// What arming the wake read achieved.
#[derive(Clone, Copy, Debug, PartialEq, Eq, Structural)]
pub enum ArmOutcome {
    /// The wake read was staged.
    Armed,
    /// The staging queue is full; submit first, then try again.
    NeedFlush,
}

/// The ring owner's verified state.
pub struct Proactor {
    /// Entries staged but not yet handed to the kernel.
    pub sq: Vec<SubmissionEntry>,
    /// Capacity of the kernel's submission ring.
    pub sq_cap: usize,
    /// The live tickets, indexed by tag.
    pub tickets: Tickets,
    /// The wake signal's state word.
    pub eventfd: WakeSignal,
    /// Whether a wake read is staged or in flight.
    pub wake_read_armed: bool,
    /// The non-reserved tags handed to the kernel whose completions have
    /// not been consumed yet.
    pub inflight: Ghost<Set<u64>>,
}

/// The non-reserved tags of a batch of submission entries.
pub open spec fn spec_tags_of(s: Seq<SubmissionEntry>) -> Set<u64> {
    Set::new(
        |t: u64|
            !spec_is_reserved(t) && exists|i: int| 0 <= i < s.len() && s[i].user_data == t,
    )
}

impl Proactor {
    /// Whether the staging queue holds an entry tagged `t`.
    pub open spec fn sq_has_tag(&self, t: u64) -> bool {
        exists|i: int| 0 <= i < self.sq@.len() && self.sq@[i].user_data == t
    }

    /// The central invariants of the ring owner.
    ///
    /// Every non-reserved tag that is staged or in flight denotes a live
    /// ticket that has not yet received its value; staged tags are
    /// pairwise distinct and disjoint from the in-flight tags.  Together
    /// these say that a completion can answer at most one ticket and
    /// that no ticket identity is submitted twice while in flight.
    pub open spec fn wf(&self) -> bool {
        &&& self.tickets.wf()
        &&& 1 <= self.sq_cap
        &&& self.sq@.len() <= self.sq_cap
        &&& forall|i: int|
            0 <= i < self.sq@.len() && !spec_is_reserved(#[trigger] self.sq@[i].user_data)
                ==> self.tickets.is_live(self.sq@[i].user_data)
                    && !self.tickets.slot(self.sq@[i].user_data)->0.spec_has_value()
                    && !self.tickets.slot(self.sq@[i].user_data)->0.spec_is_closed()
                    && !self.inflight@.contains(self.sq@[i].user_data)
        &&& forall|i: int, j: int|
            0 <= i < j < self.sq@.len() && !spec_is_reserved(#[trigger] self.sq@[i].user_data)
                ==> self.sq@[i].user_data != #[trigger] self.sq@[j].user_data
        &&& forall|t: u64|
            #[trigger] self.inflight@.contains(t) ==> !spec_is_reserved(t)
                && self.tickets.is_live(t) && !self.tickets.slot(t)->0.spec_has_value()
                && !self.tickets.slot(t)->0.spec_is_closed()
    }

    /// A fresh ring owner with the given submission-ring capacity.
    /// The ring and the event descriptor themselves are created by the
    /// embedding; their setup errors surface there, at construction.
    pub fn new(sq_cap: usize) -> (r: Proactor)
        requires
            sq_cap >= 1,
        ensures
            r.wf(),
            r.sq@.len() == 0,
            r.sq_cap == sq_cap,
            r.tickets.slots@.len() == 0,
            r.inflight@ == Set::<u64>::empty(),
            !r.wake_read_armed,
            forall|t: u64| !r.tickets.is_live(t),
    {
        Proactor {
            sq: Vec::new(),
            sq_cap,
            tickets: Tickets::new(),
            eventfd: WakeSignal::new(),
            wake_read_armed: false,
            inflight: Ghost(Set::empty()),
        }
    }

    /// The submission surface bound to this ring owner.  The canonical
    /// handle is the ring owner itself: in the single-threaded model,
    /// holding the handle is holding the borrow.
    pub fn handle(&mut self) -> (r: &mut Proactor)
        ensures
            *r == *old(self),
            *final(self) == *final(r),
    {
        self
    }

    /// Whether the staging queue is full.
    pub fn sq_is_full(&self) -> (r: bool)
        ensures
            r == (self.sq@.len() >= self.sq_cap),
    {
        self.sq.len() >= self.sq_cap
    }

    /// Whether an entry with this tag may be staged: reserved tags
    /// always may; a ticket tag must be live, unconsumed, and neither
    /// staged nor in flight already.
    pub open spec fn can_push(&self, entry: SubmissionEntry) -> bool {
        spec_is_reserved(entry.user_data) || (self.tickets.is_live(entry.user_data)
            && !self.tickets.slot(entry.user_data)->0.spec_has_value()
            && !self.tickets.slot(entry.user_data)->0.spec_is_closed() && !self.sq_has_tag(
            entry.user_data,
        ) && !self.inflight@.contains(entry.user_data))
    }

    /// Stages one entry, unless the queue is full.  No entry is ever
    /// dropped: a full queue leaves the state unchanged and the caller
    /// retries after a submit.
    pub fn try_push(&mut self, entry: SubmissionEntry) -> (pushed: bool)
        requires
            old(self).wf(),
            old(self).can_push(entry),
        ensures
            final(self).wf(),
            !pushed ==> *final(self) == *old(self) && old(self).sq@.len() == old(self).sq_cap,
            pushed ==> {
                &&& final(self).sq@ == old(self).sq@.push(entry)
                &&& final(self).tickets == old(self).tickets
                &&& final(self).eventfd == old(self).eventfd
                &&& final(self).wake_read_armed == old(self).wake_read_armed
                &&& final(self).inflight == old(self).inflight
                &&& final(self).sq_cap == old(self).sq_cap
            },
    {
        if self.sq.len() >= self.sq_cap {
            false
        } else {
            self.sq.push(entry);
            true
        }
    }

    /// Hands the staged entries to the kernel: the batch is returned for
    /// the embedding to translate and submit, the staging queue empties,
    /// and every staged ticket tag becomes in flight.  The whole batch
    /// is returned in order — no staged entry is lost.
    pub fn submit(&mut self) -> (batch: Vec<SubmissionEntry>)
        requires
            old(self).wf(),
        ensures
            final(self).wf(),
            batch@ == old(self).sq@,
            final(self).sq@.len() == 0,
            final(self).inflight@ == old(self).inflight@ + spec_tags_of(old(self).sq@),
            final(self).tickets == old(self).tickets,
            final(self).eventfd == old(self).eventfd,
            final(self).wake_read_armed == old(self).wake_read_armed,
            final(self).sq_cap == old(self).sq_cap,
    {
        let mut batch: Vec<SubmissionEntry> = Vec::new();
        core::mem::swap(&mut batch, &mut self.sq);
        proof {
            self.inflight@ = self.inflight@ + spec_tags_of(batch@);
            assert forall|t: u64| #[trigger] self.inflight@.contains(t)
                implies !spec_is_reserved(t) && self.tickets.is_live(t)
                && !self.tickets.slot(t)->0.spec_has_value()
                && !self.tickets.slot(t)->0.spec_is_closed() by {
                if !old(self).inflight@.contains(t) {
                    assert(spec_tags_of(batch@).contains(t));
                }
            }
        }
        batch
    }

    /// Dispatches one completion.
    ///
    /// A WAKE completion unparks the wake signal and re-enables the wake
    /// read; an EMPTY completion is discarded; any other tag is in
    /// flight, and the completion is delivered to exactly that ticket:
    /// the tag leaves the in-flight set and every other ticket is
    /// untouched.  If a waker token was installed on the ticket it is
    /// returned for the embedding to invoke.
    pub fn consume(&mut self, entry: CompletionEntry) -> (wake: Option<u64>)
        requires
            old(self).wf(),
            spec_is_reserved(entry.user_data) || old(self).inflight@.contains(entry.user_data),
        ensures
            final(self).wf(),
            final(self).sq == old(self).sq,
            final(self).sq_cap == old(self).sq_cap,
            entry.user_data == WAKE_TOKEN ==> {
                &&& final(self).tickets == old(self).tickets
                &&& final(self).inflight == old(self).inflight
                &&& !final(self).wake_read_armed
                &&& final(self).eventfd.flag == old(self).eventfd.flag
                    & !crate::wake::PARKING
                &&& !final(self).eventfd.spec_load().spec_is_parking()
                &&& wake is None
            },
            entry.user_data == EMPTY_TOKEN ==> {
                &&& final(self).tickets == old(self).tickets
                &&& final(self).inflight == old(self).inflight
                &&& final(self).eventfd == old(self).eventfd
                &&& final(self).wake_read_armed == old(self).wake_read_armed
                &&& wake is None
            },
            !spec_is_reserved(entry.user_data) ==> {
                &&& final(self).inflight@ == old(self).inflight@.remove(entry.user_data)
                &&& final(self).eventfd == old(self).eventfd
                &&& final(self).wake_read_armed == old(self).wake_read_armed
                &&& ({
                    let cell = old(self).tickets.slot(entry.user_data)->0;
                    if cell.spec_is_closed() {
                        !final(self).tickets.is_live(entry.user_data) && wake is None
                    } else {
                        &&& final(self).tickets.is_live(entry.user_data)
                        &&& final(self).tickets.slot(entry.user_data) matches Some(c2)
                            && c2.spec_has_value() && c2.value == Some(entry)
                            && c2.spec_is_closed() && !c2.spec_has_waker()
                        &&& wake == cell.waker
                    }
                })
                &&& forall|x: u64|
                    x != entry.user_data ==> #[trigger] final(self).tickets.is_live(x) == old(self).tickets.is_live(x)
                &&& forall|x: u64|
                    x != entry.user_data && old(self).tickets.is_live(x) ==> #[trigger] final(self).tickets.slot(x) == old(self).tickets.slot(x)
            },
    {
        let tag = entry.user_data();
        if tag == WAKE_TOKEN {
            self.eventfd.unpark();
            self.wake_read_armed = false;
            None
        } else if tag == EMPTY_TOKEN {
            None
        } else {
            let ticket = Ticket::from_raw(tag);
            let wake = ticket.send(&mut self.tickets, entry);
            proof {
                self.inflight@ = self.inflight@.remove(tag);
            }
            wake
        }
    }

    /// The ticket tags of a batch of completions.
    pub open spec fn spec_cqe_tags(s: Seq<CompletionEntry>) -> Set<u64>
        decreases s.len(),
    {
        if s.len() == 0 {
            Set::empty()
        } else {
            let rest = Self::spec_cqe_tags(s.drop_last());
            if spec_is_reserved(s.last().user_data) {
                rest
            } else {
                rest.insert(s.last().user_data)
            }
        }
    }

    /// A tag in a batch's tag set is the tag of one of its entries.
    proof fn lemma_cqe_tags_member(s: Seq<CompletionEntry>, t: u64)
        requires
            Self::spec_cqe_tags(s).contains(t),
        ensures
            !spec_is_reserved(t),
            exists|k: int| 0 <= k < s.len() && s[k].user_data == t,
        decreases s.len(),
    {
        if s.len() > 0 {
            if !spec_is_reserved(s.last().user_data) && s.last().user_data == t {
                assert(s[s.len() - 1].user_data == t);
            } else {
                Self::lemma_cqe_tags_member(s.drop_last(), t);
                let k = choose|k: int|
                    0 <= k < s.drop_last().len() && s.drop_last()[k].user_data == t;
                assert(s[k].user_data == t);
            }
        }
    }

    /// Whether a batch holds the wake read's completion.
    pub open spec fn spec_has_wake(s: Seq<CompletionEntry>) -> bool {
        exists|i: int| 0 <= i < s.len() && s[i].user_data == WAKE_TOKEN
    }

    /// The waker tokens the deliveries of a batch produce, in order:
    /// one token for each ticket completion whose open cell had a waker
    /// installed at dispatch time.
    pub open spec fn spec_batch_wakes(s: Seq<CompletionEntry>, t: Tickets) -> Seq<u64>
        decreases s.len(),
    {
        if s.len() == 0 {
            Seq::empty()
        } else {
            let rest = Self::spec_batch_wakes(s.drop_last(), t);
            let e = s.last();
            if !spec_is_reserved(e.user_data) && !t.slot(e.user_data)->0.spec_is_closed()
                && t.slot(e.user_data)->0.spec_has_waker() {
                rest.push(t.slot(e.user_data)->0.waker->0)
            } else {
                rest
            }
        }
    }

    /// Drains a batch of completions in order, dispatching each as
    /// [`Proactor::consume`] does.
    ///
    /// Every non-reserved completion resolves exactly its own ticket:
    /// afterwards that cell holds exactly that record, closed by the
    /// retiring sender, and its tag has left the in-flight set; every
    /// ticket the batch does not address is untouched.  The returned
    /// list holds exactly the waker tokens the deliveries produced, in
    /// order.  A WAKE completion unparks the signal and re-enables the
    /// wake read; a batch without one leaves both alone.
    #[verifier::loop_isolation(false)]
    pub fn consume_all(&mut self, cqes: &Vec<CompletionEntry>) -> (wakes: Vec<u64>)
        requires
            old(self).wf(),
            forall|i: int|
                0 <= i < cqes@.len() ==> spec_is_reserved(#[trigger] cqes@[i].user_data)
                    || old(self).inflight@.contains(cqes@[i].user_data),
            forall|i: int, j: int|
                0 <= i < j < cqes@.len() && !spec_is_reserved(#[trigger] cqes@[i].user_data)
                    ==> cqes@[i].user_data != #[trigger] cqes@[j].user_data,
        ensures
            final(self).wf(),
            final(self).sq == old(self).sq,
            final(self).sq_cap == old(self).sq_cap,
            final(self).inflight@ == old(self).inflight@.difference(
                Self::spec_cqe_tags(cqes@),
            ),
            wakes@ == Self::spec_batch_wakes(cqes@, old(self).tickets),
            forall|i: int|
                0 <= i < cqes@.len() && !spec_is_reserved(#[trigger] cqes@[i].user_data)
                    ==> final(self).tickets.is_live(cqes@[i].user_data) && (final(self).tickets.slot(cqes@[i].user_data) matches Some(c2) && c2.spec_has_value()
                    && c2.value == Some(cqes@[i]) && c2.spec_is_closed()
                    && !c2.spec_has_waker()),
            Self::spec_has_wake(cqes@) ==> final(self).eventfd.flag == old(self).eventfd.flag
                & !crate::wake::PARKING && !final(self).wake_read_armed && !final(self).eventfd.spec_load().spec_is_parking(),
            !Self::spec_has_wake(cqes@) ==> final(self).eventfd == old(self).eventfd && final(self).wake_read_armed == old(self).wake_read_armed,
            forall|x: u64|
                !Self::spec_cqe_tags(cqes@).contains(x) ==> #[trigger] final(self).tickets.is_live(x) == old(self).tickets.is_live(x),
            forall|x: u64|
                !Self::spec_cqe_tags(cqes@).contains(x) && old(self).tickets.is_live(x)
                    ==> #[trigger] final(self).tickets.slot(x) == old(self).tickets.slot(x),
    {
        let mut wakes: Vec<u64> = Vec::new();
        let mut i: usize = 0;
        proof {
            assert(cqes@.take(0) =~= Seq::<CompletionEntry>::empty());
            assert(self.inflight@ =~= self.inflight@.difference(
                Self::spec_cqe_tags(cqes@.take(0)),
            ));
        }
        while i < cqes.len()
            invariant
                i <= cqes@.len(),
                self.wf(),
                self.sq == old(self).sq,
                self.sq_cap == old(self).sq_cap,
                self.inflight@ == old(self).inflight@.difference(
                    Self::spec_cqe_tags(cqes@.take(i as int)),
                ),
                wakes@ == Self::spec_batch_wakes(cqes@.take(i as int), old(self).tickets),
                forall|k: int|
                    0 <= k < i && !spec_is_reserved(#[trigger] cqes@[k].user_data)
                        ==> self.tickets.is_live(cqes@[k].user_data) && (self.tickets.slot(
                        cqes@[k].user_data,
                    ) matches Some(c2) && c2.spec_has_value() && c2.value == Some(cqes@[k])
                        && c2.spec_is_closed() && !c2.spec_has_waker()),
                Self::spec_has_wake(cqes@.take(i as int)) ==> self.eventfd.flag == old(self).eventfd.flag & !crate::wake::PARKING && !self.wake_read_armed
                    && !self.eventfd.spec_load().spec_is_parking(),
                !Self::spec_has_wake(cqes@.take(i as int)) ==> self.eventfd == old(self).eventfd && self.wake_read_armed == old(self).wake_read_armed,
                forall|x: u64|
                    !Self::spec_cqe_tags(cqes@.take(i as int)).contains(x) ==> #[trigger]
                        self.tickets.is_live(x) == old(self).tickets.is_live(x),
                forall|x: u64|
                    !Self::spec_cqe_tags(cqes@.take(i as int)).contains(x) && old(self).tickets.is_live(x) ==> #[trigger] self.tickets.slot(x) == old(self).tickets.slot(x),
            decreases cqes@.len() - i,
        {
            let entry = cqes[i];
            let ghost prev_tags = Self::spec_cqe_tags(cqes@.take(i as int));
            let ghost prev_flag = self.eventfd.flag;
            proof {
                if !spec_is_reserved(entry.user_data) {
                    assert(old(self).inflight@.contains(entry.user_data));
                    if prev_tags.contains(entry.user_data) {
                        Self::lemma_cqe_tags_member(cqes@.take(i as int), entry.user_data);
                        let k = choose|k: int|
                            0 <= k < i && cqes@.take(i as int)[k].user_data
                                == entry.user_data;
                        assert(cqes@[k].user_data == cqes@[i as int].user_data);
                        assert(false);
                    }
                    assert(self.inflight@.contains(entry.user_data));
                    assert(self.tickets.slot(entry.user_data) == old(self).tickets.slot(
                        entry.user_data,
                    ));
                    assert(!old(self).tickets.slot(entry.user_data)->0.spec_is_closed());
                }
            }
            if let Some(w) = self.consume(entry) {
                wakes.push(w);
            }
            i = i + 1;
            proof {
                let ghost now = cqes@.take(i as int);
                assert(now.drop_last() =~= cqes@.take(i - 1));
                assert(now.last() == cqes@[i - 1]);
                assert(self.inflight@ =~= old(self).inflight@.difference(
                    Self::spec_cqe_tags(now),
                ));
                assert(wakes@ =~= Self::spec_batch_wakes(now, old(self).tickets));
                if now.last().user_data == WAKE_TOKEN {
                    assert(Self::spec_has_wake(now));
                    if Self::spec_has_wake(cqes@.take(i - 1)) {
                        let f = old(self).eventfd.flag;
                        assert(((f & !0b10u8) & !0b10u8) == (f & !0b10u8)) by (bit_vector);
                    }
                } else {
                    assert(Self::spec_has_wake(now) == Self::spec_has_wake(
                        cqes@.take(i - 1),
                    )) by {
                        if Self::spec_has_wake(now) {
                            let k = choose|k: int|
                                0 <= k < now.len() && now[k].user_data == WAKE_TOKEN;
                            assert(k < i - 1);
                            assert(cqes@.take(i - 1)[k].user_data == WAKE_TOKEN);
                        }
                        if Self::spec_has_wake(cqes@.take(i - 1)) {
                            let k = choose|k: int|
                                0 <= k < i - 1 && #[trigger] cqes@.take(i - 1)[k].user_data
                                    == WAKE_TOKEN;
                            assert(now[k].user_data == WAKE_TOKEN);
                        }
                    }
                }
                assert forall|x: u64| !Self::spec_cqe_tags(now).contains(x) implies #[trigger]
                    self.tickets.is_live(x) == old(self).tickets.is_live(x) by {
                    assert(!prev_tags.contains(x));
                }
                assert forall|x: u64|
                    !Self::spec_cqe_tags(now).contains(x) && old(self).tickets.is_live(x)
                    implies #[trigger] self.tickets.slot(x) == old(self).tickets.slot(x) by {
                    assert(!prev_tags.contains(x));
                }
            }
        }
        proof {
            assert(cqes@.take(cqes@.len() as int) =~= cqes@);
        }
        wakes
    }

    /// The first half of one park step: marks the signal as parking and
    /// decides whether the sleep may be skipped.  Sleeping is pointless
    /// when a wake is already pending, when the drain before this call
    /// already delivered completions, or when the caller asked for a
    /// zero timeout.  No ticket is touched.
    pub fn park_prepare(&mut self, pre_drained: bool, timeout_is_zero: bool) -> (r: (
        State,
        bool,
    ))
        requires
            old(self).wf(),
        ensures
            final(self).wf(),
            r.0 == old(self).eventfd.spec_load(),
            r.1 == (old(self).eventfd.spec_load().spec_is_ready() || pre_drained
                || timeout_is_zero),
            final(self).eventfd.spec_load().spec_is_parking(),
            final(self).eventfd.spec_load().spec_is_ready() == old(self).eventfd.spec_load().spec_is_ready(),
            final(self).tickets == old(self).tickets,
            final(self).sq == old(self).sq,
            final(self).sq_cap == old(self).sq_cap,
            final(self).inflight == old(self).inflight,
            final(self).wake_read_armed == old(self).wake_read_armed,
    {
        let state = self.eventfd.park();
        let nowait = state.is_ready() || pre_drained || timeout_is_zero;
        (state, nowait)
    }

    /// Stages the read on the event descriptor that observes wakes,
    /// tagged WAKE.  Called when the previous park state showed no
    /// parked wake read.  If the staging queue is full the caller must
    /// submit first and try again; the entry is never lost.
    pub fn park_arm(&mut self, eventfd_fd: i32) -> (r: ArmOutcome)
        requires
            old(self).wf(),
        ensures
            final(self).wf(),
            final(self).tickets == old(self).tickets,
            final(self).eventfd == old(self).eventfd,
            final(self).inflight == old(self).inflight,
            final(self).sq_cap == old(self).sq_cap,
            r is NeedFlush ==> *final(self) == *old(self) && old(self).sq@.len() == old(self).sq_cap,
            r is Armed ==> {
                &&& final(self).sq@ == old(self).sq@.push(
                    SubmissionEntry {
                        op: OpCode::Read { fd: eventfd_fd, len: 8, offset: 0 },
                        user_data: WAKE_TOKEN,
                    },
                )
                &&& final(self).wake_read_armed
            },
    {
        let entry = SubmissionEntry {
            op: OpCode::Read { fd: eventfd_fd, len: 8, offset: 0 },
            user_data: WAKE_TOKEN,
        };
        if self.try_push(entry) {
            self.wake_read_armed = true;
            ArmOutcome::Armed
        } else {
            ArmOutcome::NeedFlush
        }
    }

    /// The last half of one park step: consumes the pending wake, ending
    /// the parking window.  No ticket is touched.
    pub fn park_finish(&mut self)
        requires
            old(self).wf(),
        ensures
            final(self).wf(),
            !final(self).eventfd.spec_load().spec_is_ready(),
            final(self).eventfd.spec_load().spec_is_parking() == old(
                self,
            ).eventfd.spec_load().spec_is_parking(),
            final(self).tickets == old(self).tickets,
            final(self).sq == old(self).sq,
            final(self).sq_cap == old(self).sq_cap,
            final(self).inflight == old(self).inflight,
            final(self).wake_read_armed == old(self).wake_read_armed,
    {
        self.eventfd.reset();
    }

    /// Whether dropping the ring owner must first resolve the in-flight
    /// wake read: while the signal still shows PARKING, the kernel may
    /// yet write into the wake staging buffer, so the ring cannot be
    /// freed before that read completes or is cancelled.
    pub fn shutdown_needed(&self) -> (r: bool)
        ensures
            r == self.eventfd.spec_load().spec_is_parking(),
    {
        let state = self.eventfd.load();
        state.is_parking()
    }

    /// The cancel entry that shutdown stages against the wake read,
    /// fire-and-forget under the EMPTY tag.
    pub fn shutdown_cancel_entry(&self) -> (r: SubmissionEntry)
        ensures
            r.op == (OpCode::AsyncCancel { target: WAKE_TOKEN }),
            r.user_data == EMPTY_TOKEN,
    {
        SubmissionEntry {
            op: OpCode::AsyncCancel { target: WAKE_TOKEN },
            user_data: EMPTY_TOKEN,
        }
    }
}

/// Whether a batch of completions resolves the wake read, ending the
/// shutdown wait.
pub fn saw_wake_completion(cqes: &Vec<CompletionEntry>) -> (r: bool)
    ensures
        r == exists|i: int| 0 <= i < cqes@.len() && cqes@[i].user_data == WAKE_TOKEN,
{
    let mut i: usize = 0;
    while i < cqes.len()
        invariant
            i <= cqes@.len(),
            forall|j: int| 0 <= j < i ==> cqes@[j].user_data != WAKE_TOKEN,
        decreases cqes@.len() - i,
    {
        if cqes[i].user_data == WAKE_TOKEN {
            return true;
        }
        i = i + 1;
    }
    false
}

/// Picks the blocking variant for one park step: no sleep when a wake
/// is pending or the timeout is zero; a timed sleep when a finite
/// timeout was given; otherwise sleep until one completion arrives.
pub fn choose_wait(nowait: bool, has_timeout: bool) -> (r: WaitKind)
    ensures
        nowait ==> r == WaitKind::SubmitOnly,
        !nowait && has_timeout ==> r == WaitKind::SubmitTimeout,
        !nowait && !has_timeout ==> r == WaitKind::SubmitAndWaitOne,
{
    if nowait {
        WaitKind::SubmitOnly
    } else if has_timeout {
        WaitKind::SubmitTimeout
    } else {
        WaitKind::SubmitAndWaitOne
    }
}

/// Whether a failed kernel submit is retried: only a busy kernel is,
/// and only `BUSY_RETRY_LIMIT` times; before each retry the embedding
/// drains the completion queue to make room.
pub fn should_retry(os_code: i32, attempts: u32) -> (r: bool)
    ensures
        r == (os_code == EBUSY && attempts < BUSY_RETRY_LIMIT),
{
    os_code == EBUSY && attempts < BUSY_RETRY_LIMIT
}

/// A ticket-registry mutation that touches one identity preserves the
/// ring owner's invariants, provided the touched cell either was already
/// resolved or abandoned (and so is referenced by no staged or in-flight
/// tag), or stays open and empty.
pub proof fn lemma_wf_preserved(pre: &Proactor, post: &Proactor, id: u64)
    requires
        pre.wf(),
        post.sq == pre.sq,
        post.sq_cap == pre.sq_cap,
        post.inflight == pre.inflight,
        post.tickets.wf(),
        forall|x: u64| x != id ==> #[trigger] post.tickets.is_live(x) == pre.tickets.is_live(x),
        forall|x: u64|
            x != id && pre.tickets.is_live(x) ==> #[trigger] post.tickets.slot(x)
                == pre.tickets.slot(x),
        !pre.tickets.is_live(id) || pre.tickets.slot(id)->0.spec_has_value()
            || pre.tickets.slot(id)->0.spec_is_closed() || (post.tickets.is_live(id)
            && !post.tickets.slot(id)->0.spec_has_value()
            && !post.tickets.slot(id)->0.spec_is_closed()),
    ensures
        post.wf(),
{
    assert forall|i: int|
        0 <= i < post.sq@.len() && !spec_is_reserved(#[trigger] post.sq@[i].user_data)
        implies post.tickets.is_live(post.sq@[i].user_data)
        && !post.tickets.slot(post.sq@[i].user_data)->0.spec_has_value()
        && !post.tickets.slot(post.sq@[i].user_data)->0.spec_is_closed()
        && !post.inflight@.contains(post.sq@[i].user_data) by {
        assert(pre.tickets.is_live(pre.sq@[i].user_data));
    }
    assert forall|t: u64| #[trigger] post.inflight@.contains(t)
        implies !spec_is_reserved(t) && post.tickets.is_live(t)
        && !post.tickets.slot(t)->0.spec_has_value()
        && !post.tickets.slot(t)->0.spec_is_closed() by {
        assert(pre.tickets.is_live(t));
    }
}

/// No ticket identity is ever submitted twice while in flight: among
/// the staged entries and the in-flight tags of a well-formed ring
/// owner, every non-reserved tag occurs exactly once.
pub proof fn lemma_no_tag_reuse(p: &Proactor)
    requires
        p.wf(),
    ensures
        forall|i: int, j: int|
            0 <= i < j < p.sq@.len() && !spec_is_reserved(#[trigger] p.sq@[i].user_data)
                ==> p.sq@[i].user_data != #[trigger] p.sq@[j].user_data,
        forall|i: int|
            0 <= i < p.sq@.len() && !spec_is_reserved(#[trigger] p.sq@[i].user_data)
                ==> !p.inflight@.contains(p.sq@[i].user_data),
{
}

/// Every completion with a non-reserved tag resolves exactly one
/// ticket: the in-flight tag it carries is live, and after dispatch
/// that ticket alone changed.  This restates the contract of
/// [`Proactor::consume`] as a standalone fact about the invariant.
pub proof fn lemma_completion_resolves_one(p: &Proactor, tag: u64)
    requires
        p.wf(),
        !spec_is_reserved(tag),
        p.inflight@.contains(tag),
    ensures
        p.tickets.is_live(tag),
        !p.tickets.slot(tag)->0.spec_has_value(),
{
}

} // verus!
