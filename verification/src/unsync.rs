//! A future that may be born failed: a submission either produced a
//! pending completion or an immediate error, and its awaiter sees one
//! or the other exactly once.

use vstd::prelude::*;

use crate::action::{Action, ActionPoll};
use crate::ring::CompletionEntry;
use crate::ticket::Tickets;

verus! {

/// The inner state of an [`AndFuture`].
pub enum AndInner<E> {
    /// The submission is pending.
    Fut { act: Action<()> },
    /// The submission failed immediately; the error waits to be taken.
    Failed { err: E },
    /// The outcome has been taken.
    End,
}

/// Couples a pending completion with the error its submission may have
/// met, resolving to exactly one of the two.
pub struct AndFuture<E> {
    /// The current state.
    pub inner: AndInner<E>,
}

impl<E> AndFuture<E> {
    /// A pending state owns a live ticket.
    pub open spec fn wf(&self, tickets: &Tickets) -> bool {
        self.inner matches AndInner::Fut { act } ==> act.wf(tickets)
    }

    /// Wraps a pending submission.
    pub fn from_action(act: Action<()>) -> (r: AndFuture<E>)
        ensures
            r.inner == (AndInner::<E>::Fut { act }),
    {
        AndFuture { inner: AndInner::Fut { act } }
    }

    /// Wraps an immediate failure.
    pub fn from_err(err: E) -> (r: AndFuture<E>)
        ensures
            r.inner == (AndInner::<E>::Failed { err }),
    {
        AndFuture { inner: AndInner::Failed { err } }
    }

    /// One poll step.  A pending submission forwards to its ticket; an
    /// immediate failure resolves with the error.  The outcome is
    /// taken exactly once: polling again after resolution is a protocol
    /// error, which the caller rules out.
    pub fn poll(&mut self, tickets: &mut Tickets, waker: u64) -> (r: Option<
        Result<CompletionEntry, E>,
    >)
        requires
            old(tickets).wf(),
            old(self).wf(old(tickets)),
            !(old(self).inner is End),
        ensures
            final(tickets).wf(),
            final(self).wf(&*final(tickets)),
            final(tickets).slots@.len() == old(tickets).slots@.len(),
            match old(self).inner {
                AndInner::Fut { act } => {
                    let cell = old(tickets).slot(act.ticket.id)->0;
                    if cell.spec_has_value() {
                        &&& r == Some(Result::<CompletionEntry, E>::Ok(cell.value->0))
                        &&& final(self).inner is End
                        &&& !final(tickets).is_live(act.ticket.id)
                    } else {
                        r is None && final(self).inner is Fut
                    }
                },
                AndInner::Failed { err } => r == Some(Result::<CompletionEntry, E>::Err(err))
                    && final(self).inner is End,
                AndInner::End => false,
            },
    {
        let mut st = AndInner::End;
        core::mem::swap(&mut st, &mut self.inner);
        match st {
            AndInner::Fut { act } => {
                match act.poll(tickets, waker) {
                    ActionPoll::Ready { value: _, entry } => Some(Ok(entry)),
                    ActionPoll::Pending { action: act2 } => {
                        self.inner = AndInner::Fut { act: act2 };
                        None
                    },
                }
            },
            AndInner::Failed { err } => Some(Err(err)),
            AndInner::End => None,
        }
    }
}

} // verus!
