//! Timers: completions after a monotonic duration.
//!
//! A timer expiry surfaces from the kernel as a timer error code, which
//! the completion translation passes through unchanged; the caller of a
//! plain delay treats that code as the expected outcome.

use vstd::prelude::*;

use crate::action::{action, Action};
use crate::error::Error;
use crate::proactor::Proactor;
use crate::ring::{CompletionEntry, OpCode, SubmissionEntry, FIRST_TICKET};
use crate::util::MaybeLock;

verus! {

/// A duration in seconds and nanoseconds, as the kernel takes it.
#[derive(Clone, Copy, Debug, PartialEq, Eq, Structural)]
pub struct Timespec {
    /// Whole seconds.
    pub sec: u64,
    /// Nanoseconds below one second.
    pub nsec: u32,
}

/// A reusable timer: its duration record is lent to the kernel for each
/// delay, so it is locked while one is in flight.
pub struct Timer {
    /// The duration record, locked while a delay is in flight.
    pub timespec: MaybeLock<Timespec>,
}

impl Timer {
    /// A timer with no delay in flight.
    pub fn new() -> (r: Timer)
        ensures
            !r.timespec.spec_is_locked(),
            r.timespec.spec_inner() == (Timespec { sec: 0, nsec: 0 }),
    {
        Timer { timespec: MaybeLock::new(Timespec { sec: 0, nsec: 0 }) }
    }

    /// Submits a delay for the given duration.  The duration record is
    /// locked until the completion is applied; only one delay may be in
    /// flight per timer.
    pub fn delay_for(&mut self, p: &mut Proactor, dur: Timespec) -> (r: Result<
        Action<()>,
        Error,
    >)
        requires
            old(p).wf(),
            old(p).tickets.slots@.len() + 1 + FIRST_TICKET < u64::MAX,
            !old(self).timespec.spec_is_locked(),
        ensures
            final(p).wf(),
            match r {
                Ok(a) => {
                    &&& a.wf(&final(p).tickets)
                    &&& final(self).timespec.spec_is_locked()
                    &&& final(self).timespec.spec_inner() == dur
                    &&& final(p).sq@ == old(p).sq@.push(
                        (SubmissionEntry {
                            op: OpCode::Timeout { sec: dur.sec, nsec: dur.nsec },
                            user_data: a.ticket.id,
                        }),
                    )
                },
                Err(e) => {
                    &&& e == Error::QueueFull
                    &&& old(p).sq@.len() == old(p).sq_cap
                    &&& !final(self).timespec.spec_is_locked()
                },
            },
    {
        let op = OpCode::Timeout { sec: dur.sec, nsec: dur.nsec };
        match action(p, (), SubmissionEntry::new(op)) {
            Ok(a) => {
                let mut fresh = MaybeLock::new(dur);
                fresh.start();
                self.timespec = fresh;
                Ok(a)
            },
            Err(e) => Err(e.into_error()),
        }
    }

    /// Applies a delay completion: the kernel's borrow of the duration
    /// record ends, and the result is translated as every completion
    /// is — a timer that fired reports the kernel's timer code.
    pub fn delay_complete(&mut self, entry: CompletionEntry) -> (r: Result<(), Error>)
        requires
            entry.result > i32::MIN,
        ensures
            !final(self).timespec.spec_is_locked(),
            final(self).timespec.spec_inner() == old(self).timespec.spec_inner(),
            entry.result >= 0 ==> r is Ok,
            entry.result < 0 ==> r == Err::<(), Error>(
                Error::Os { code: -entry.result as i32 },
            ),
    {
        self.timespec.end();
        match crate::util::ioret(entry.result) {
            Ok(_) => Ok(()),
            Err(e) => Err(e),
        }
    }
}

/// Submits a one-off sleep; the duration record itself is the held
/// value, staying alive for the kernel until completion.
pub fn sleep(p: &mut Proactor, dur: Timespec) -> (r: Result<Action<Timespec>, Error>)
    requires
        old(p).wf(),
        old(p).tickets.slots@.len() + 1 + FIRST_TICKET < u64::MAX,
    ensures
        final(p).wf(),
        match r {
            Ok(a) => {
                &&& a.hold == dur
                &&& a.wf(&final(p).tickets)
                &&& final(p).sq@ == old(p).sq@.push(
                    (SubmissionEntry {
                        op: OpCode::Timeout { sec: dur.sec, nsec: dur.nsec },
                        user_data: a.ticket.id,
                    }),
                )
            },
            Err(e) => e == Error::QueueFull && old(p).sq@.len() == old(p).sq_cap,
        },
{
    let op = OpCode::Timeout { sec: dur.sec, nsec: dur.nsec };
    match action(p, dur, SubmissionEntry::new(op)) {
        Ok(a) => Ok(a),
        Err(e) => Err(e.into_error()),
    }
}

/// Applies a sleep completion, handing the duration record back.
pub fn sleep_complete(dur: Timespec, entry: CompletionEntry) -> (r: Result<Timespec, Error>)
    requires
        entry.result > i32::MIN,
    ensures
        entry.result >= 0 ==> r == Ok::<Timespec, Error>(dur),
        entry.result < 0 ==> r == Err::<Timespec, Error>(
            Error::Os { code: -entry.result as i32 },
        ),
{
    let ret = entry.result;
    if ret >= 0 {
        Ok(dur)
    } else {
        Err(Error::Os { code: -ret })
    }
}

} // verus!
