//! Readiness polling: wait until a descriptor is readable or writable.

use vstd::prelude::*;

use crate::action::{action, Action, ActionPoll};
use crate::error::Error;
use crate::io::TrustedAsRawFd;
use crate::proactor::Proactor;
use crate::ring::{OpCode, SubmissionEntry, FIRST_TICKET};
use crate::ticket::Tickets;

verus! {

/// Event mask bit: the descriptor has data to read.
pub const READABLE: u32 = 0x1;

/// Event mask bit: the descriptor can take a write.
pub const WRITABLE: u32 = 0x4;

/// A one-shot readiness future: resolved by a single poll completion.
pub struct ReadyFuture {
    /// The pending readiness action, or the error its submission met,
    /// or nothing once resolved.
    pub inner: Option<Result<Action<()>, Error>>,
}

impl ReadyFuture {
    /// A live future's pending action owns a live ticket.
    pub open spec fn wf(&self, tickets: &Tickets) -> bool {
        self.inner matches Some(i) ==> (i matches Ok(a) ==> a.wf(tickets))
    }

    /// Submits a one-shot readiness poll for the events in `mask`.
    /// A submission failure is carried inside the future and surfaces
    /// at the first poll.
    pub fn new(p: &mut Proactor, fd: i32, mask: u32) -> (r: ReadyFuture)
        requires
            old(p).wf(),
            old(p).tickets.slots@.len() + 1 + FIRST_TICKET < u64::MAX,
        ensures
            final(p).wf(),
            r.wf(&final(p).tickets),
            match r.inner {
                Some(Ok(a)) => final(p).sq@ == old(p).sq@.push(
                    (SubmissionEntry {
                        op: OpCode::PollAdd { fd, mask },
                        user_data: a.ticket.id,
                    }),
                ),
                Some(Err(e)) => e == Error::QueueFull && old(p).sq@.len() == old(p).sq_cap,
                None => false,
            },
    {
        let op = OpCode::PollAdd { fd, mask };
        match action(p, (), SubmissionEntry::new(op)) {
            Ok(a) => ReadyFuture { inner: Some(Ok(a)) },
            Err(e) => ReadyFuture { inner: Some(Err(e.into_error())) },
        }
    }

    /// One poll step.  A future that failed to submit reports its error
    /// now; a resolved completion reports readiness or the negated OS
    /// error; and a future polled after resolution stays pending, as a
    /// one-shot does.
    pub fn poll_step(&mut self, tickets: &mut Tickets, waker: u64) -> (r: Option<
        Result<(), Error>,
    >)
        requires
            old(tickets).wf(),
            old(self).wf(old(tickets)),
        ensures
            final(tickets).wf(),
            final(self).wf(&*final(tickets)),
            match old(self).inner {
                Some(Err(e)) => r == Some(Err::<(), Error>(e)) && final(self).inner is None,
                Some(Ok(a)) => {
                    let cell = old(tickets).slot(a.ticket.id)->0;
                    if cell.spec_has_value() {
                        &&& cell.value->0.result >= 0 ==> r == Some(Ok::<(), Error>(()))
                        &&& cell.value->0.result < 0 ==> r == Some(Err::<(), Error>(
                            crate::error::spec_os_err(cell.value->0.result),
                        ))
                        &&& final(self).inner is None
                        &&& !final(tickets).is_live(a.ticket.id)
                    } else {
                        r is None && final(self).inner is Some
                    }
                },
                None => r is None && final(self).inner is None && *final(tickets) == *old(
                    tickets,
                ),
            },
    {
        match self.inner.take() {
            Some(Err(e)) => Some(Err(e)),
            Some(Ok(a)) => {
                match a.poll(tickets, waker) {
                    ActionPoll::Ready { value: _, entry } => {
                        let ret = entry.result;
                        if ret >= 0 {
                            Some(Ok(()))
                        } else {
                            Some(Err(crate::fs::os_error_of(ret)))
                        }
                    },
                    ActionPoll::Pending { action: a2 } => {
                        self.inner = Some(Ok(a2));
                        None
                    },
                }
            },
            None => None,
        }
    }
}

/// Anything with a stable descriptor can wait for readiness on it.
pub trait ReadyExt: TrustedAsRawFd {
    /// Submits a one-shot readiness poll on this object's descriptor.
    fn ready(&self, p: &mut Proactor, mask: u32) -> (r: ReadyFuture)
        requires
            old(p).wf(),
            old(p).tickets.slots@.len() + 1 + FIRST_TICKET < u64::MAX,
        ensures
            final(p).wf(),
            r.wf(&final(p).tickets),
            match r.inner {
                Some(Ok(a)) => final(p).sq@ == old(p).sq@.push(
                    (SubmissionEntry {
                        op: OpCode::PollAdd { fd: self.spec_fd(), mask },
                        user_data: a.ticket.id,
                    }),
                ),
                Some(Err(e)) => e == Error::QueueFull && old(p).sq@.len() == old(p).sq_cap,
                None => false,
            },
    ;
}

impl<T: TrustedAsRawFd> ReadyExt for T {
    fn ready(&self, p: &mut Proactor, mask: u32) -> (r: ReadyFuture) {
        ReadyFuture::new(p, self.stable_fd(), mask)
    }
}

} // verus!
