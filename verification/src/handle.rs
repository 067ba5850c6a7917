//! The submission surface handed to tasks.
//!
//! A handle is a contract, not a concrete type: collaborators may route
//! entries through alternate queuing layers.  The ring owner itself is
//! the canonical implementation.  A handle bound to a ring owner that is
//! gone reports [`Error::Disconnected`]; the canonical one cannot become
//! disconnected, and reports [`Error::QueueFull`] as its back-pressure
//! signal, which the embedding answers by submitting and retrying.

use vstd::prelude::*;

use crate::error::Error;
use crate::proactor::Proactor;
use crate::ring::SubmissionEntry;

verus! {

/// The submission surface: anything that can stage one entry.
pub trait Handle {
    /// Whether the entry may be staged right now; the staging rules are
    /// the implementation's.
    spec fn can_submit(&self, entry: SubmissionEntry) -> bool;

    /// The entries staged and not yet handed to the kernel.
    spec fn staged(&self) -> Seq<SubmissionEntry>;

    /// Whether the queuing layer cannot take one more entry.
    spec fn at_capacity(&self) -> bool;

    /// Stages one entry.  Success is owed whenever the layer has room:
    /// the entry is then appended to the staged entries.  A layer at
    /// capacity refuses with [`Error::QueueFull`] and changes nothing —
    /// the caller submits and retries.
    fn push(&mut self, entry: SubmissionEntry) -> (r: Result<(), Error>)
        requires
            old(self).can_submit(entry),
        ensures
            r is Ok <==> !old(self).at_capacity(),
            r is Ok ==> final(self).staged() == old(self).staged().push(entry),
            r is Err ==> r == Err::<(), Error>(Error::QueueFull) && final(self).staged()
                == old(self).staged(),
    ;
}

impl Handle for Proactor {
    /// The ring owner stages entries under its own tag discipline.
    open spec fn can_submit(&self, entry: SubmissionEntry) -> bool {
        self.wf() && self.can_push(entry)
    }

    /// The staging queue's entries.
    open spec fn staged(&self) -> Seq<SubmissionEntry> {
        self.sq@
    }

    /// Whether the staging queue is full.
    open spec fn at_capacity(&self) -> bool {
        self.sq@.len() >= self.sq_cap
    }

    /// Stages the entry; a full staging queue surfaces as
    /// [`Error::QueueFull`] with nothing lost, and the caller submits
    /// and retries.
    fn push(&mut self, entry: SubmissionEntry) -> (r: Result<(), Error>) {
        if self.try_push(entry) {
            Ok(())
        } else {
            Err(Error::QueueFull)
        }
    }
}

} // verus!
