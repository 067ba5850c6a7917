//! The action protocol: coupling a submission with the caller-owned
//! value the kernel reads from or writes into.
//!
//! An action pairs a held value with the ticket future of its
//! submission.  The value stays inside the action for the whole kernel
//! lifetime of the request and is handed back exactly once: either when
//! the awaited ticket resolves, or — if the action is given up early —
//! only after a cancel-induced completion has been observed, through an
//! [`Orphan`].  The protocol never lets go of the value while the kernel
//! may still reference it.

use vstd::prelude::*;

use crate::error::Error;
use crate::proactor::Proactor;
use crate::ring::{spec_is_reserved, CompletionEntry, OpCode, SubmissionEntry, EMPTY_TOKEN,
    FIRST_TICKET};
use crate::ticket::{Ticket, TicketFuture, Tickets};

verus! {

/// A submission that could not be staged, with the value handed back.
pub struct PushError<T> {
    /// Why the submission was refused.
    pub error: Error,
    /// The value that was to be held for the kernel, returned intact.
    pub value: T,
}

impl<T> PushError<T> {
    /// The error and the value, both returned to the caller.
    pub fn into_inner(self) -> (r: (Error, T))
        ensures
            r.0 == self.error,
            r.1 == self.value,
    {
        (self.error, self.value)
    }

    /// The error alone; the value is dropped.
    pub fn into_error(self) -> (r: Error)
        ensures
            r == self.error,
    {
        self.error
    }
}

/// A pinned pair of the caller-owned value and the ticket future of the
/// submission that references it.
pub struct Action<T> {
    /// The value the kernel reads from or writes into.
    pub hold: T,
    /// The future of the submission's completion.
    pub ticket: TicketFuture,
}

/// The outcome of polling an action.
pub enum ActionPoll<T> {
    /// The completion arrived: the held value and the completion record
    /// are handed back, exactly once.
    Ready { value: T, entry: CompletionEntry },
    /// Not yet: the action, value included, continues to wait.
    Pending { action: Action<T> },
}

/// A held value whose action was given up while the submission was
/// still in flight.  The kernel may still reference the value, so it
/// stays here until the cancel-induced completion is observed.
pub struct Orphan<T> {
    /// The value kept alive for the kernel.
    pub hold: T,
    /// The still-live ticket of the abandoned submission.
    pub ticket: TicketFuture,
}

/// The outcome of giving up an action early.
pub enum Cancelled<T> {
    /// The completion had already been delivered; the value is free.
    Done { value: T },
    /// A cancel was staged; the value must be kept in the orphan until
    /// the completion arrives.
    Waiting { orphan: Orphan<T> },
    /// The staging queue is full; submit, then try again with the
    /// returned action.  Nothing was lost.
    Full { action: Action<T> },
}

impl<T> Action<T> {
    /// A live action: its ticket is registered and, until the value has
    /// been delivered, the completion is still owed.
    pub open spec fn wf(&self, tickets: &Tickets) -> bool {
        &&& tickets.is_live(self.ticket.id)
        &&& !spec_is_reserved(self.ticket.id)
        &&& tickets.slot(self.ticket.id)->0.spec_has_value() ==> tickets.slot(
            self.ticket.id,
        )->0.spec_is_closed()
    }
}

/// Builds an action: allocates a ticket, tags the entry with its
/// identity, and stages it.  On success the value moves into the
/// action.  If the staging queue is full, the ticket is reclaimed, the
/// ring owner is left as it was, and the value comes back inside the
/// error.
pub fn action<T>(p: &mut Proactor, value: T, entry: SubmissionEntry) -> (r: Result<
    Action<T>,
    PushError<T>,
>)
    requires
        old(p).wf(),
        old(p).tickets.slots@.len() + 1 + FIRST_TICKET < u64::MAX,
    ensures
        final(p).wf(),
        final(p).eventfd == old(p).eventfd,
        final(p).wake_read_armed == old(p).wake_read_armed,
        final(p).sq_cap == old(p).sq_cap,
        final(p).inflight == old(p).inflight,
        r matches Ok(a) ==> {
            &&& a.hold == value
            &&& a.wf(&final(p).tickets)
            &&& !old(p).tickets.is_live(a.ticket.id)
            &&& !final(p).tickets.slot(a.ticket.id)->0.spec_has_value()
            &&& !final(p).tickets.slot(a.ticket.id)->0.spec_is_closed()
            &&& final(p).sq@ == old(p).sq@.push(
                (SubmissionEntry { op: entry.op, user_data: a.ticket.id }),
            )
            &&& forall|x: u64|
                x != a.ticket.id ==> #[trigger] final(p).tickets.is_live(x) == old(p).tickets.is_live(x)
            &&& forall|x: u64|
                x != a.ticket.id && old(p).tickets.is_live(x) ==> #[trigger] final(p).tickets.slot(x) == old(p).tickets.slot(x)
        },
        r matches Err(e) ==> {
            &&& e.error == Error::QueueFull
            &&& e.value == value
            &&& old(p).sq@.len() == old(p).sq_cap
            &&& final(p).sq == old(p).sq
            &&& forall|x: u64|
                #[trigger] final(p).tickets.is_live(x) == old(p).tickets.is_live(x)
            &&& forall|x: u64|
                old(p).tickets.is_live(x) ==> #[trigger] final(p).tickets.slot(x) == old(p).tickets.slot(x)
        },
{
    let (tx, rx) = Ticket::new(&mut p.tickets);
    let id = tx.into_raw();
    let tagged = entry.with_user_data(id);
    proof {
        assert(!spec_is_reserved(id));
        assert forall|i: int|
            0 <= i < p.sq@.len() && !spec_is_reserved(#[trigger] p.sq@[i].user_data)
            implies p.tickets.is_live(p.sq@[i].user_data)
            && !p.tickets.slot(p.sq@[i].user_data)->0.spec_has_value()
            && !p.tickets.slot(p.sq@[i].user_data)->0.spec_is_closed()
            && !p.inflight@.contains(p.sq@[i].user_data) by {
            assert(old(p).tickets.is_live(p.sq@[i].user_data));
        }
        assert forall|t: u64| #[trigger] p.inflight@.contains(t)
            implies !spec_is_reserved(t) && p.tickets.is_live(t)
            && !p.tickets.slot(t)->0.spec_has_value()
            && !p.tickets.slot(t)->0.spec_is_closed() by {
            assert(old(p).tickets.is_live(t));
        }
        assert(!p.sq_has_tag(id));
    }
    if p.try_push(tagged) {
        Ok(Action { hold: value, ticket: rx })
    } else {
        let tx2 = Ticket::from_raw(id);
        tx2.close(&mut p.tickets);
        rx.close(&mut p.tickets);
        proof {
            assert forall|i: int|
                0 <= i < p.sq@.len() && !spec_is_reserved(#[trigger] p.sq@[i].user_data)
                implies p.tickets.is_live(p.sq@[i].user_data)
                && !p.tickets.slot(p.sq@[i].user_data)->0.spec_has_value()
                && !p.tickets.slot(p.sq@[i].user_data)->0.spec_is_closed()
                && !p.inflight@.contains(p.sq@[i].user_data) by {
                assert(old(p).tickets.is_live(p.sq@[i].user_data));
            }
            assert forall|t: u64| #[trigger] p.inflight@.contains(t)
                implies !spec_is_reserved(t) && p.tickets.is_live(t)
                && !p.tickets.slot(t)->0.spec_has_value()
                && !p.tickets.slot(t)->0.spec_is_closed() by {
                assert(old(p).tickets.is_live(t));
            }
        }
        Err(PushError { error: Error::QueueFull, value })
    }
}

impl<T> Action<T> {
    /// Polls the action.  When the completion record has been
    /// delivered, the held value and the record are handed back and the
    /// ticket is retired; otherwise the waker token is installed and
    /// the action — value still inside — is returned to keep waiting.
    /// A ticket abandoned by its sender stays pending forever.
    pub fn poll(self, tickets: &mut Tickets, waker: u64) -> (r: ActionPoll<T>)
        requires
            old(tickets).wf(),
            self.wf(old(tickets)),
        ensures
            final(tickets).wf(),
            final(tickets).slots@.len() == old(tickets).slots@.len(),
            ({
                let cell = old(tickets).slot(self.ticket.id)->0;
                if cell.spec_has_value() {
                    &&& r matches ActionPoll::Ready { value, entry } && value == self.hold
                        && Some(entry) == cell.value
                    &&& !final(tickets).is_live(self.ticket.id)
                } else {
                    &&& r matches ActionPoll::Pending { action: a } && a == self
                        && a.wf(&*final(tickets))
                    &&& final(tickets).is_live(self.ticket.id)
                    &&& !final(tickets).slot(self.ticket.id)->0.spec_has_value()
                    &&& final(tickets).slot(self.ticket.id)->0.spec_is_closed()
                        == cell.spec_is_closed()
                }
            }),
            forall|x: u64|
                x != self.ticket.id ==> #[trigger] final(tickets).is_live(x) == old(tickets).is_live(x),
            forall|x: u64|
                x != self.ticket.id && old(tickets).is_live(x) ==> #[trigger] final(tickets).slot(x) == old(tickets).slot(x),
    {
        match self.ticket.poll(tickets, waker) {
            Some(entry) => {
                let Action { hold, ticket } = self;
                ticket.close(tickets);
                ActionPoll::Ready { value: hold, entry }
            },
            None => ActionPoll::Pending { action: self },
        }
    }
}

/// Gives up an action whose submission may still be in flight.
///
/// If the completion was already delivered the value is free at once.
/// Otherwise a cancel targeting the ticket identity is staged under the
/// EMPTY tag and the value is parked in an orphan: it will be released
/// only after the completion arrives.  A full staging queue hands the
/// action back unchanged for a retry after a submit.
pub fn cancel<T>(p: &mut Proactor, action: Action<T>) -> (r: Cancelled<T>)
    requires
        old(p).wf(),
        action.wf(&old(p).tickets),
    ensures
        final(p).wf(),
        final(p).eventfd == old(p).eventfd,
        final(p).inflight == old(p).inflight,
        final(p).sq_cap == old(p).sq_cap,
        final(p).tickets.slots@.len() == old(p).tickets.slots@.len(),
        ({
            let cell = old(p).tickets.slot(action.ticket.id)->0;
            match r {
                Cancelled::Done { value } => {
                    &&& value == action.hold
                    &&& cell.spec_is_closed()
                    &&& final(p).sq == old(p).sq
                },
                Cancelled::Waiting { orphan } => {
                    &&& orphan.hold == action.hold
                    &&& orphan.ticket == action.ticket
                    &&& !cell.spec_is_closed()
                    &&& final(p).sq@ == old(p).sq@.push(
                        SubmissionEntry {
                            op: OpCode::AsyncCancel { target: action.ticket.id },
                            user_data: EMPTY_TOKEN,
                        },
                    )
                    &&& final(p).tickets == old(p).tickets
                    &&& orphan.wf(&final(p).tickets)
                },
                Cancelled::Full { action: back } => {
                    &&& back == action
                    &&& *final(p) == *old(p)
                    &&& old(p).sq@.len() == old(p).sq_cap
                },
            }
        }),
        forall|x: u64|
            x != action.ticket.id ==> #[trigger] final(p).tickets.is_live(x) == old(p).tickets.is_live(x),
        forall|x: u64|
            x != action.ticket.id && old(p).tickets.is_live(x) ==> #[trigger] final(p).tickets.slot(x) == old(p).tickets.slot(x),
{
    if action.ticket.is_closed(&p.tickets) {
        let Action { hold, ticket } = action;
        ticket.close(&mut p.tickets);
        proof {
            assert forall|i: int|
                0 <= i < p.sq@.len() && !spec_is_reserved(#[trigger] p.sq@[i].user_data)
                implies p.tickets.is_live(p.sq@[i].user_data)
                && !p.tickets.slot(p.sq@[i].user_data)->0.spec_has_value()
                && !p.tickets.slot(p.sq@[i].user_data)->0.spec_is_closed()
                && !p.inflight@.contains(p.sq@[i].user_data) by {
                assert(p.sq@[i].user_data != ticket.id);
                assert(old(p).tickets.is_live(p.sq@[i].user_data));
            }
            assert forall|t: u64| #[trigger] p.inflight@.contains(t)
                implies !spec_is_reserved(t) && p.tickets.is_live(t)
                && !p.tickets.slot(t)->0.spec_has_value()
                && !p.tickets.slot(t)->0.spec_is_closed() by {
                assert(t != ticket.id);
                assert(old(p).tickets.is_live(t));
            }
        }
        Cancelled::Done { value: hold }
    } else {
        let target = action.ticket.as_ptr();
        let entry = SubmissionEntry {
            op: OpCode::AsyncCancel { target },
            user_data: EMPTY_TOKEN,
        };
        if p.try_push(entry) {
            let Action { hold, ticket } = action;
            Cancelled::Waiting { orphan: Orphan { hold, ticket } }
        } else {
            Cancelled::Full { action }
        }
    }
}

impl<T> Orphan<T> {
    /// An orphan is live until its completion has been observed.
    pub open spec fn wf(&self, tickets: &Tickets) -> bool {
        &&& tickets.is_live(self.ticket.id)
        &&& !spec_is_reserved(self.ticket.id)
        &&& tickets.slot(self.ticket.id)->0.spec_has_value() ==> tickets.slot(
            self.ticket.id,
        )->0.spec_is_closed()
    }

    /// Releases the held value once the abandoned submission's
    /// completion has been delivered; until then the orphan keeps it.
    pub fn try_release(self, tickets: &mut Tickets) -> (r: Result<T, Orphan<T>>)
        requires
            old(tickets).wf(),
            self.wf(old(tickets)),
        ensures
            final(tickets).wf(),
            final(tickets).slots@.len() == old(tickets).slots@.len(),
            ({
                let cell = old(tickets).slot(self.ticket.id)->0;
                if cell.spec_is_closed() {
                    &&& r matches Ok(value) && value == self.hold
                    &&& !final(tickets).is_live(self.ticket.id)
                } else {
                    &&& r matches Err(orphan) && orphan == self
                    &&& *final(tickets) == *old(tickets)
                }
            }),
            forall|x: u64|
                x != self.ticket.id ==> #[trigger] final(tickets).is_live(x) == old(tickets).is_live(x),
            forall|x: u64|
                x != self.ticket.id && old(tickets).is_live(x) ==> #[trigger] final(tickets).slot(x) == old(tickets).slot(x),
    {
        if self.ticket.is_closed(tickets) {
            let Orphan { hold, ticket } = self;
            ticket.close(tickets);
            Ok(hold)
        } else {
            Err(self)
        }
    }
}

/// Submits a no-operation.  Its completion always reports success.
pub fn nop(p: &mut Proactor) -> (r: Result<Action<()>, PushError<()>>)
    requires
        old(p).wf(),
        old(p).tickets.slots@.len() + 1 + FIRST_TICKET < u64::MAX,
    ensures
        final(p).wf(),
        r matches Ok(a) ==> {
            &&& a.wf(&final(p).tickets)
            &&& final(p).sq@ == old(p).sq@.push(
                SubmissionEntry { op: OpCode::Nop, user_data: a.ticket.id },
            )
        },
        r matches Err(e) ==> {
            &&& e.error == Error::QueueFull
            &&& old(p).sq@.len() == old(p).sq_cap
            &&& final(p).sq == old(p).sq
            &&& final(p).inflight == old(p).inflight
            &&& forall|x: u64|
                #[trigger] final(p).tickets.is_live(x) == old(p).tickets.is_live(x)
            &&& forall|x: u64|
                old(p).tickets.is_live(x) ==> #[trigger] final(p).tickets.slot(x) == old(
                    p,
                ).tickets.slot(x)
        },
{
    action(p, (), SubmissionEntry::new(OpCode::Nop))
}

/// Interprets a no-operation's completion: a nonnegative result is
/// success, a negative one is the negated OS error.
pub fn nop_complete(entry: CompletionEntry) -> (r: Result<(), Error>)
    requires
        entry.result > i32::MIN,
    ensures
        entry.result >= 0 ==> r is Ok,
        entry.result < 0 ==> r == Err::<(), Error>(Error::Os { code: -entry.result as i32 }),
{
    match crate::util::ioret(entry.result) {
        Ok(_) => Ok(()),
        Err(e) => Err(e),
    }
}

} // verus!
