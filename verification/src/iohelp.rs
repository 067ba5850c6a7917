//! A single-buffer streaming state machine over one descriptor: one
//! read or one write in flight at a time, with the buffer owned by the
//! in-flight action.

use vstd::prelude::*;

use crate::action::{action, Action, ActionPoll};
use crate::error::Error;
use crate::fs::{os_error_of, spec_min, spec_room};
use crate::proactor::Proactor;
use crate::ring::{OpCode, SubmissionEntry, FIRST_TICKET};
use crate::util::Buffer;

verus! {

/// The size of the buffer a fresh read allocates.
pub const READ_CHUNK: usize = 4096;

/// The machine's phases.
pub enum IoState {
    /// Nothing pending.
    Empty,
    /// A read is in flight; the action holds its buffer.
    Reading { act: Action<Buffer> },
    /// A buffer accepted for the next flush.
    Write { buf: Buffer },
    /// A write is in flight; the action holds the buffer.
    Writing { act: Action<Buffer> },
}

/// One descriptor with at most one submission in flight.
pub struct IoInner {
    /// The descriptor.
    pub fd: i32,
    /// The current phase.
    pub state: IoState,
}

/// What one read step achieved.
pub enum IoRead {
    /// A read was staged; step again after the kernel ran.
    Started,
    /// The read is still in flight.
    Pending,
    /// The read completed; an empty buffer marks the end of the stream.
    Data { buf: Buffer },
}

/// What one flush step achieved.
pub enum IoFlush {
    /// A write was staged; step again after the kernel ran.
    Started,
    /// The write is still in flight.
    Pending,
    /// The write completed; the buffer comes back with the written
    /// bytes consumed.
    Flushed { buf: Buffer },
}

impl IoInner {
    /// An in-flight phase owns a live ticket and a sound buffer.
    pub open spec fn wf(&self, p: &Proactor) -> bool {
        match self.state {
            IoState::Reading { act } => act.wf(&p.tickets) && act.hold.wf(),
            IoState::Writing { act } => act.wf(&p.tickets) && act.hold.wf(),
            IoState::Write { buf } => buf.wf(),
            IoState::Empty => true,
        }
    }

    /// A fresh machine over a descriptor.
    pub fn from_raw(fd: i32) -> (r: IoInner)
        ensures
            r.fd == fd,
            r.state is Empty,
    {
        IoInner { fd, state: IoState::Empty }
    }

    /// Accepts one buffer for the next flush.  The idle phase takes it;
    /// the queuing phase replaces its buffer, as a fresh submission
    /// supersedes the unflushed one; an in-flight phase refuses with
    /// [`Error::InvalidState`].
    pub fn submit(&mut self, buf: Buffer) -> (r: Result<(), Error>)
        requires
            buf.wf(),
        ensures
            final(self).fd == old(self).fd,
            match old(self).state {
                IoState::Empty => r is Ok && final(self).state
                    == (IoState::Write { buf }),
                IoState::Write { .. } => r is Ok && final(self).state
                    == (IoState::Write { buf }),
                _ => r == Err::<(), Error>(Error::InvalidState) && final(self).state == old(self).state,
            },
    {
        let mut st = IoState::Empty;
        core::mem::swap(&mut st, &mut self.state);
        match st {
            IoState::Empty => {
                self.state = IoState::Write { buf };
                Ok(())
            },
            IoState::Write { .. } => {
                self.state = IoState::Write { buf };
                Ok(())
            },
            other => {
                self.state = other;
                Err(Error::InvalidState)
            },
        }
    }

    /// One step of the read side: from idle, stage a streaming read
    /// over a fresh buffer; while in flight, poll, and on completion
    /// hand the filled buffer back (a negative result is the negated OS
    /// error).  A write phase refuses with [`Error::InvalidState`].
    pub fn read_step(&mut self, p: &mut Proactor, waker: u64) -> (r: Result<IoRead, Error>)
        requires
            old(p).wf(),
            old(p).tickets.slots@.len() + 1 + FIRST_TICKET < u64::MAX,
            old(self).wf(old(p)),
        ensures
            final(p).wf(),
            final(self).wf(final(p)),
            final(self).fd == old(self).fd,
            match old(self).state {
                IoState::Empty => match r {
                    Ok(step) => {
                        &&& step is Started
                        &&& final(self).state matches IoState::Reading { act } && act.wf(
                            &final(p).tickets,
                        ) && act.hold.wf() && act.hold.spec_capacity() == READ_CHUNK
                            && act.hold.spec_written() == 0
                        &&& final(p).sq@.len() == old(p).sq@.len() + 1
                        &&& final(p).sq@.last().op == (OpCode::Read {
                            fd: old(self).fd,
                            len: READ_CHUNK as u32,
                            offset: crate::io::STREAM_OFFSET,
                        })
                    },
                    Err(e) => {
                        &&& e == Error::QueueFull
                        &&& final(self).state is Empty
                        &&& old(p).sq@.len() == old(p).sq_cap
                    },
                },
                IoState::Reading { act } => {
                    let cell = old(p).tickets.slot(act.ticket.id)->0;
                    if !cell.spec_has_value() {
                        &&& r matches Ok(step) && step is Pending
                        &&& final(self).state is Reading
                    } else {
                        let res = cell.value->0.result;
                        &&& final(self).state is Empty
                        &&& res >= 0 ==> (r matches Ok(step) && step matches IoRead::Data {
                            buf,
                        } && buf.wf() && buf.spec_written() == act.hold.spec_written()
                            + spec_min(res as int, spec_room(act.hold)))
                        &&& res < 0 ==> r == Err::<IoRead, Error>(
                            crate::error::spec_os_err(res),
                        )
                    }
                },
                _ => r == Err::<IoRead, Error>(Error::InvalidState) && final(self).state == old(self).state && *final(p) == *old(p),
            },
    {
        let mut st = IoState::Empty;
        core::mem::swap(&mut st, &mut self.state);
        match st {
            IoState::Empty => {
                let buf = Buffer::new(READ_CHUNK);
                let op = OpCode::Read {
                    fd: self.fd,
                    len: READ_CHUNK as u32,
                    offset: crate::io::STREAM_OFFSET,
                };
                match action(p, buf, SubmissionEntry::new(op)) {
                    Ok(act) => {
                        self.state = IoState::Reading { act };
                        Ok(IoRead::Started)
                    },
                    Err(e) => Err(e.into_error()),
                }
            },
            IoState::Reading { act } => {
                let ghost id = act.ticket.id;
                match act.poll(&mut p.tickets, waker) {
                    ActionPoll::Pending { action: act2 } => {
                        proof {
                            crate::proactor::lemma_wf_preserved(old(p), p, id);
                        }
                        self.state = IoState::Reading { act: act2 };
                        Ok(IoRead::Pending)
                    },
                    ActionPoll::Ready { value: mut buf, entry } => {
                        proof {
                            crate::proactor::lemma_wf_preserved(old(p), p, id);
                        }
                        let ret = entry.result;
                        if ret >= 0 {
                            let room = buf.remaining_mut();
                            let take = if (ret as usize) < room {
                                ret as usize
                            } else {
                                room
                            };
                            buf.advance_mut(take);
                            Ok(IoRead::Data { buf })
                        } else {
                            Err(os_error_of(ret))
                        }
                    },
                }
            },
            other => {
                self.state = other;
                Err(Error::InvalidState)
            },
        }
    }

    /// One step of the write side: the idle phase has nothing to flush
    /// and refuses with [`Error::WriteZero`]; the queuing phase stages
    /// a streaming write of the buffer's readable bytes; while in
    /// flight, poll, and on completion hand the buffer back with the
    /// written bytes consumed.
    pub fn flush_step(&mut self, p: &mut Proactor, waker: u64) -> (r: Result<IoFlush, Error>)
        requires
            old(p).wf(),
            old(p).tickets.slots@.len() + 1 + FIRST_TICKET < u64::MAX,
            old(self).wf(old(p)),
            old(self).state matches IoState::Write { buf } ==> buf.readable().len()
                <= u32::MAX,
        ensures
            final(p).wf(),
            final(self).wf(final(p)),
            final(self).fd == old(self).fd,
            match old(self).state {
                IoState::Empty => r == Err::<IoFlush, Error>(Error::WriteZero) && final(self).state is Empty && *final(p) == *old(p),
                IoState::Write { buf } => match r {
                    Ok(step) => {
                        &&& step is Started
                        &&& final(self).state matches IoState::Writing { act } && act.hold
                            == buf
                        &&& final(p).sq@.len() == old(p).sq@.len() + 1
                        &&& final(p).sq@.last().op == (OpCode::Write {
                            fd: old(self).fd,
                            len: buf.readable().len() as u32,
                            offset: crate::io::STREAM_OFFSET,
                        })
                    },
                    Err(e) => {
                        &&& e == Error::QueueFull
                        &&& final(self).state is Empty
                        &&& old(p).sq@.len() == old(p).sq_cap
                    },
                },
                IoState::Writing { act } => {
                    let cell = old(p).tickets.slot(act.ticket.id)->0;
                    if !cell.spec_has_value() {
                        &&& r matches Ok(step) && step is Pending
                        &&& final(self).state is Writing
                    } else {
                        let res = cell.value->0.result;
                        &&& final(self).state is Empty
                        &&& res >= 0 ==> (r matches Ok(step) && step matches IoFlush::Flushed {
                            buf,
                        } && buf.wf() && buf.readable() == act.hold.readable().skip(
                            spec_min(res as int, act.hold.readable().len() as int),
                        ))
                        &&& res < 0 ==> r == Err::<IoFlush, Error>(
                            crate::error::spec_os_err(res),
                        )
                    }
                },
                _ => r == Err::<IoFlush, Error>(Error::InvalidState) && final(self).state
                    == old(self).state && *final(p) == *old(p),
            },
    {
        let mut st = IoState::Empty;
        core::mem::swap(&mut st, &mut self.state);
        match st {
            IoState::Empty => Err(Error::WriteZero),
            IoState::Write { buf } => {
                let len = buf.remaining() as u32;
                let op = OpCode::Write { fd: self.fd, len, offset: crate::io::STREAM_OFFSET };
                match action(p, buf, SubmissionEntry::new(op)) {
                    Ok(act) => {
                        self.state = IoState::Writing { act };
                        Ok(IoFlush::Started)
                    },
                    Err(e) => Err(e.into_error()),
                }
            },
            IoState::Writing { act } => {
                let ghost id = act.ticket.id;
                match act.poll(&mut p.tickets, waker) {
                    ActionPoll::Pending { action: act2 } => {
                        proof {
                            crate::proactor::lemma_wf_preserved(old(p), p, id);
                        }
                        self.state = IoState::Writing { act: act2 };
                        Ok(IoFlush::Pending)
                    },
                    ActionPoll::Ready { value: mut buf, entry } => {
                        proof {
                            crate::proactor::lemma_wf_preserved(old(p), p, id);
                        }
                        let ret = entry.result;
                        if ret >= 0 {
                            let have = buf.remaining();
                            let take = if (ret as usize) < have {
                                ret as usize
                            } else {
                                have
                            };
                            buf.advance(take);
                            Ok(IoFlush::Flushed { buf })
                        } else {
                            Err(os_error_of(ret))
                        }
                    },
                }
            },
            other => {
                self.state = other;
                Err(Error::InvalidState)
            },
        }
    }
}

} // verus!
