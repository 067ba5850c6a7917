//! Buffered streaming I/O over one descriptor, split into a read half
//! and a write half that can progress independently.
//!
//! Each half owns a cursor buffer whose lock tracks the kernel's borrow
//! while a submission is in flight.  The read half refills its buffer
//! with streaming reads and remembers the end of the stream; the write
//! half batches bytes, flushes full buffers, and closes the descriptor
//! on shutdown.

use vstd::prelude::*;

use crate::action::{action, Action, ActionPoll};
use crate::error::Error;
use crate::fs::{os_error_of, spec_min};
use crate::io::TrustedAsRawFd;
use crate::proactor::Proactor;
use crate::ring::{OpCode, SubmissionEntry, FIRST_TICKET};
use crate::util::{Buffer, MaybeLock};

verus! {

/// The default buffer capacity of each half.
pub const DEFAULT_CAPACITY: usize = 4096;

/// The read half: a refill buffer, the in-flight refill if any, and the
/// end-of-stream mark.
pub struct ReadHalfRef {
    /// The descriptor.
    pub fd: i32,
    /// The in-flight refill, if any.
    pub readfut: Option<Action<()>>,
    /// The refill buffer; locked exactly while a refill is in flight.
    pub readbuf: MaybeLock<Buffer>,
    /// Whether a refill returned zero bytes.
    pub eof: bool,
}

/// The write half: a batch buffer, the in-flight flush if any, and the
/// in-flight close if any.
pub struct WriteHalfRef {
    /// The descriptor.
    pub fd: i32,
    /// The in-flight flush, if any.
    pub writefut: Option<Action<()>>,
    /// The batch buffer; locked exactly while a flush is in flight.
    pub writebuf: MaybeLock<Buffer>,
    /// The in-flight close, if any.
    pub closefut: Option<Action<()>>,
}

/// What one refill step achieved.
pub enum FillStep {
    /// The stream has ended; the buffer holds no more bytes.
    Eof,
    /// Bytes are available in the refill buffer.
    Filled,
    /// The refill is still in flight.
    Pending,
    /// A refill was staged; step again after the kernel ran.
    Started,
}

/// What one flush step achieved.
pub enum FlushStep {
    /// Everything batched has been written.
    Done,
    /// The flush is still in flight.
    Pending,
    /// A flush was staged; step again after the kernel ran.
    Started,
}

/// What one write step achieved.
pub enum WriteOut {
    /// The leading `n` bytes were batched.
    Wrote { n: usize },
    /// A flush must finish first; step again after the kernel ran.
    Pending,
}

/// What one shutdown step achieved.
pub enum ShutdownStep {
    /// The descriptor is closed.
    Done,
    /// A flush or the close is still in flight.
    Pending,
}

impl ReadHalfRef {
    /// The buffer is locked exactly while a refill is in flight, the
    /// in-flight ticket is live, and the buffer fits one submission.
    pub open spec fn wf(&self, p: &Proactor) -> bool {
        &&& self.readbuf.spec_inner().wf()
        &&& self.readbuf.spec_inner().spec_capacity() <= u32::MAX
        &&& self.readfut matches Some(act) ==> act.wf(&p.tickets)
        &&& (self.readfut is Some) == self.readbuf.spec_is_locked()
        &&& self.eof ==> self.readfut is None
    }

    /// The refill tail, entered with `w` written and `c` consumed bytes
    /// in hand: available bytes are reported as they are; an exhausted
    /// buffer is rewound and a refill over its whole storage is staged,
    /// unless the staging queue is full, in which case nothing is lost
    /// and the caller submits and retries.
    pub open spec fn spec_fill_tail(
        pre: ReadHalfRef,
        pre_p: Proactor,
        post: ReadHalfRef,
        post_p: Proactor,
        r: Result<FillStep, Error>,
        w: int,
        c: int,
        sq_full: bool,
    ) -> bool {
        let cap = pre.readbuf.spec_inner().spec_capacity();
        let storage = pre.readbuf.spec_inner().storage();
        if c < w {
            &&& r == Ok::<FillStep, Error>(FillStep::Filled)
            &&& post.readfut is None
            &&& !post.readbuf.spec_is_locked()
            &&& post.readbuf.spec_inner().spec_written() == w
            &&& post.readbuf.spec_inner().spec_consumed() == c
            &&& post.readbuf.spec_inner().spec_capacity() == cap
            &&& !post.eof
            &&& post_p.sq@ == pre_p.sq@
        } else if sq_full {
            &&& r == Err::<FillStep, Error>(Error::QueueFull)
            &&& post.readfut is None
            &&& !post.readbuf.spec_is_locked()
            &&& !post.eof
            &&& post_p.sq@ == pre_p.sq@
        } else {
            &&& r == Ok::<FillStep, Error>(FillStep::Started)
            &&& post.readfut is Some
            &&& post.readbuf.spec_is_locked()
            &&& post.readbuf.spec_inner().spec_written() == 0
            &&& post.readbuf.spec_inner().spec_consumed() == 0
            &&& post.readbuf.spec_inner().spec_capacity() == cap
            &&& !post.eof
            &&& post_p.sq@ == pre_p.sq@.push(
                (SubmissionEntry {
                    op: OpCode::Read {
                        fd: pre.fd,
                        len: cap as u32,
                        offset: crate::io::STREAM_OFFSET,
                    },
                    user_data: post.readfut->0.ticket.id,
                }),
            )
        }
    }

    /// One refill step, the heart of buffered reading.
    ///
    /// After the end of the stream nothing more happens.  While a
    /// refill is in flight the ticket is polled: zero bytes mark the
    /// end of the stream, a positive count extends the buffer, and a
    /// negative result is the negated OS error.  When bytes are
    /// available they are reported; when the buffer is exhausted a
    /// fresh refill over the whole buffer is staged.
    pub fn fill_step(&mut self, p: &mut Proactor, waker: u64) -> (r: Result<FillStep, Error>)
        requires
            old(p).wf(),
            old(p).tickets.slots@.len() + 1 + FIRST_TICKET < u64::MAX,
            old(self).wf(old(p)),
        ensures
            final(p).wf(),
            final(p).sq_cap == old(p).sq_cap,
            final(self).wf(final(p)),
            final(self).fd == old(self).fd,
            ({
                let b0 = old(self).readbuf.spec_inner();
                let sq_full = old(p).sq@.len() == old(p).sq_cap;
                if old(self).eof {
                    &&& r == Ok::<FillStep, Error>(FillStep::Eof)
                    &&& *final(self) == *old(self)
                    &&& *final(p) == *old(p)
                } else {
                    match old(self).readfut {
                        Some(act) => {
                            let cell = old(p).tickets.slot(act.ticket.id)->0;
                            if !cell.spec_has_value() {
                                &&& r == Ok::<FillStep, Error>(FillStep::Pending)
                                &&& final(self).readfut is Some
                                &&& final(self).readbuf == old(self).readbuf
                                &&& !final(self).eof
                            } else {
                                let res = cell.value->0.result;
                                if res < 0 {
                                    &&& r == Err::<FillStep, Error>(
                                        crate::error::spec_os_err(res),
                                    )
                                    &&& final(self).readfut is None
                                    &&& !final(self).readbuf.spec_is_locked()
                                    &&& !final(self).eof
                                } else if res == 0 {
                                    &&& r == Ok::<FillStep, Error>(FillStep::Eof)
                                    &&& final(self).eof
                                    &&& final(self).readfut is None
                                    &&& !final(self).readbuf.spec_is_locked()
                                } else {
                                    Self::spec_fill_tail(
                                        *old(self),
                                        *old(p),
                                        *final(self),
                                        *final(p),
                                        r,
                                        b0.spec_written() + spec_min(
                                            res as int,
                                            b0.spec_capacity() - b0.spec_written(),
                                        ),
                                        b0.spec_consumed() as int,
                                        sq_full,
                                    )
                                }
                            }
                        },
                        None => Self::spec_fill_tail(
                            *old(self),
                            *old(p),
                            *final(self),
                            *final(p),
                            r,
                            b0.spec_written() as int,
                            b0.spec_consumed() as int,
                            sq_full,
                        ),
                    }
                }
            }),
    {
        if self.eof {
            return Ok(FillStep::Eof);
        }
        if self.readfut.is_some() {
            let act = self.readfut.take().unwrap();
            let ghost id = act.ticket.id;
            match act.poll(&mut p.tickets, waker) {
                ActionPoll::Pending { action: act2 } => {
                    proof {
                        crate::proactor::lemma_wf_preserved(old(p), p, id);
                    }
                    self.readfut = Some(act2);
                    return Ok(FillStep::Pending);
                },
                ActionPoll::Ready { value: _, entry } => {
                    proof {
                        crate::proactor::lemma_wf_preserved(old(p), p, id);
                    }
                    self.readbuf.end();
                    let ret = entry.result;
                    if ret < 0 {
                        return Err(os_error_of(ret));
                    } else if ret == 0 {
                        self.eof = true;
                        return Ok(FillStep::Eof);
                    } else {
                        let room = self.readbuf.inner().remaining_mut();
                        let take = if (ret as usize) < room {
                            ret as usize
                        } else {
                            room
                        };
                        self.readbuf.inner_mut().advance_mut(take);
                    }
                },
            }
        }
        if !self.readbuf.inner().has_remaining() {
            self.readbuf.inner_mut().clear();
            let len = self.readbuf.inner().remaining_mut() as u32;
            let op = OpCode::Read { fd: self.fd, len, offset: crate::io::STREAM_OFFSET };
            self.readbuf.start();
            match action(p, (), SubmissionEntry::new(op)) {
                Ok(act) => {
                    self.readfut = Some(act);
                    Ok(FillStep::Started)
                },
                Err(e) => {
                    self.readbuf.end();
                    Err(e.into_error())
                },
            }
        } else {
            Ok(FillStep::Filled)
        }
    }

    /// Consumes `amt` readable bytes of the refill buffer.
    pub fn consume(&mut self, amt: usize)
        requires
            old(self).readbuf.spec_inner().wf(),
            !old(self).readbuf.spec_is_locked(),
            old(self).readbuf.spec_inner().spec_consumed() + amt <= old(self).readbuf.spec_inner().spec_written(),
        ensures
            final(self).fd == old(self).fd,
            final(self).eof == old(self).eof,
            final(self).readfut == old(self).readfut,
            !final(self).readbuf.spec_is_locked(),
            final(self).readbuf.spec_inner().wf(),
            final(self).readbuf.spec_inner().readable() == old(self).readbuf.spec_inner().readable().skip(amt as int),
            final(self).readbuf.spec_inner().spec_capacity() == old(self).readbuf.spec_inner().spec_capacity(),
    {
        self.readbuf.inner_mut().advance(amt);
    }

    /// Copies up to `max` readable bytes into `out` and consumes them,
    /// returning how many were moved.
    pub fn read_copy(&mut self, out: &mut Vec<u8>, max: usize) -> (n: usize)
        requires
            old(self).readbuf.spec_inner().wf(),
            !old(self).readbuf.spec_is_locked(),
            old(out)@.len() + max <= usize::MAX,
        ensures
            final(self).fd == old(self).fd,
            final(self).eof == old(self).eof,
            !final(self).readbuf.spec_is_locked(),
            final(self).readbuf.spec_inner().wf(),
            n == spec_min(max as int, old(self).readbuf.spec_inner().readable().len() as int),
            final(out)@ == old(out)@ + old(self).readbuf.spec_inner().readable().take(n as int),
            final(self).readbuf.spec_inner().readable() == old(self).readbuf.spec_inner().readable().skip(n as int),
    {
        let rem = self.readbuf.inner().remaining();
        let n = if max < rem {
            max
        } else {
            rem
        };
        let ghost orig_out = out@;
        let ghost orig_read = self.readbuf.spec_inner().readable();
        let mut i: usize = 0;
        while i < n
            invariant
                i <= n,
                n <= orig_read.len(),
                n <= self.readbuf.spec_inner().readable().len() + i,
                self.readbuf.spec_inner().wf(),
                !self.readbuf.spec_is_locked(),
                self.fd == old(self).fd,
                self.eof == old(self).eof,
                self.readfut == old(self).readfut,
                orig_out.len() + n <= usize::MAX,
                out@.len() == orig_out.len() + i,
                out@ == orig_out + orig_read.take(i as int),
                self.readbuf.spec_inner().readable() == orig_read.skip(i as int),
            decreases n - i,
        {
            let ghost pr = self.readbuf.spec_inner().readable();
            let ghost po = out@;
            let b = self.readbuf.inner().read_byte(0);
            out.push(b);
            self.readbuf.inner_mut().advance(1);
            i = i + 1;
            proof {
                assert(pr[0] == orig_read.skip(i - 1)[0]);
                assert(orig_read.skip(i - 1)[0] == orig_read[i - 1]);
                assert(b == orig_read[i - 1]);
                assert(out@ == po.push(b));
                assert(out@ =~= orig_out + orig_read.take(i as int));
                assert(self.readbuf.spec_inner().readable() =~= pr.skip(1));
                assert(self.readbuf.spec_inner().readable() =~= orig_read.skip(i as int));
            }
        }
        n
    }
}

impl WriteHalfRef {
    /// The buffer is locked exactly while a flush is in flight, and
    /// every in-flight ticket is live.
    pub open spec fn wf(&self, p: &Proactor) -> bool {
        &&& self.writebuf.spec_inner().wf()
        &&& self.writebuf.spec_inner().spec_capacity() <= u32::MAX
        &&& self.writefut matches Some(act) ==> act.wf(&p.tickets)
        &&& (self.writefut is Some) == self.writebuf.spec_is_locked()
        &&& self.closefut matches Some(act) ==> act.wf(&p.tickets)
        &&& self.writefut is Some && self.closefut is Some ==> self.writefut->0.ticket.id
            != self.closefut->0.ticket.id
    }

    /// The flush tail, entered with `rem` readable bytes in hand:
    /// remaining bytes are staged as one streaming write, unless the
    /// staging queue is full, in which case nothing is lost and the
    /// caller submits and retries; with nothing left the buffer is
    /// rewound and the flush is done.
    pub open spec fn spec_flush_tail(
        pre: WriteHalfRef,
        pre_p: Proactor,
        post: WriteHalfRef,
        post_p: Proactor,
        r: Result<FlushStep, Error>,
        rem: Seq<u8>,
        sq_full: bool,
    ) -> bool {
        let cap = pre.writebuf.spec_inner().spec_capacity();
        if rem.len() > 0 {
            if sq_full {
                &&& r == Err::<FlushStep, Error>(Error::QueueFull)
                &&& post.writefut is None
                &&& !post.writebuf.spec_is_locked()
                &&& post.writebuf.spec_inner().readable() == rem
                &&& post.writebuf.spec_inner().spec_capacity() == cap
                &&& post_p.sq@ == pre_p.sq@
            } else {
                &&& r == Ok::<FlushStep, Error>(FlushStep::Started)
                &&& post.writefut is Some
                &&& post.writebuf.spec_is_locked()
                &&& post.writebuf.spec_inner().readable() == rem
                &&& post.writebuf.spec_inner().spec_capacity() == cap
                &&& post_p.sq@ == pre_p.sq@.push(
                    (SubmissionEntry {
                        op: OpCode::Write {
                            fd: pre.fd,
                            len: rem.len() as u32,
                            offset: crate::io::STREAM_OFFSET,
                        },
                        user_data: post.writefut->0.ticket.id,
                    }),
                )
            }
        } else {
            &&& r == Ok::<FlushStep, Error>(FlushStep::Done)
            &&& post.writefut is None
            &&& !post.writebuf.spec_is_locked()
            &&& post.writebuf.spec_inner().readable().len() == 0
            &&& post.writebuf.spec_inner().spec_written() == 0
            &&& post.writebuf.spec_inner().spec_consumed() == 0
            &&& post.writebuf.spec_inner().spec_capacity() == cap
            &&& post_p.sq@ == pre_p.sq@
        }
    }

    /// One flush step.  An in-flight flush is polled first; its
    /// completion consumes the written bytes.  If batched bytes remain
    /// a new flush is staged over them; once none remain the buffer is
    /// rewound and the flush is done.
    pub fn flush_step(&mut self, p: &mut Proactor, waker: u64) -> (r: Result<FlushStep, Error>)
        requires
            old(p).wf(),
            old(p).tickets.slots@.len() + 1 + FIRST_TICKET < u64::MAX,
            old(self).wf(old(p)),
        ensures
            final(p).wf(),
            final(p).sq_cap == old(p).sq_cap,
            final(self).wf(final(p)),
            final(self).fd == old(self).fd,
            final(self).closefut == old(self).closefut,
            r == Ok::<FlushStep, Error>(FlushStep::Done) ==> final(p).tickets.slots@.len()
                == old(p).tickets.slots@.len(),
            ({
                let b0 = old(self).writebuf.spec_inner();
                let sq_full = old(p).sq@.len() == old(p).sq_cap;
                match old(self).writefut {
                    Some(act) => {
                        let cell = old(p).tickets.slot(act.ticket.id)->0;
                        if !cell.spec_has_value() {
                            &&& r == Ok::<FlushStep, Error>(FlushStep::Pending)
                            &&& final(self).writefut is Some
                            &&& final(self).writebuf == old(self).writebuf
                            &&& final(p).sq@ == old(p).sq@
                        } else {
                            let res = cell.value->0.result;
                            if res < 0 {
                                &&& r == Err::<FlushStep, Error>(
                                    crate::error::spec_os_err(res),
                                )
                                &&& final(self).writefut is None
                                &&& !final(self).writebuf.spec_is_locked()
                                &&& final(self).writebuf.spec_inner().readable()
                                    == b0.readable()
                                &&& final(p).sq@ == old(p).sq@
                            } else {
                                Self::spec_flush_tail(
                                    *old(self),
                                    *old(p),
                                    *final(self),
                                    *final(p),
                                    r,
                                    b0.readable().skip(
                                        spec_min(res as int, b0.readable().len() as int),
                                    ),
                                    sq_full,
                                )
                            }
                        }
                    },
                    None => Self::spec_flush_tail(
                        *old(self),
                        *old(p),
                        *final(self),
                        *final(p),
                        r,
                        b0.readable(),
                        sq_full,
                    ),
                }
            }),
    {
        if self.writefut.is_some() {
            let act = self.writefut.take().unwrap();
            let ghost id = act.ticket.id;
            match act.poll(&mut p.tickets, waker) {
                ActionPoll::Pending { action: act2 } => {
                    proof {
                        crate::proactor::lemma_wf_preserved(old(p), p, id);
                    }
                    self.writefut = Some(act2);
                    return Ok(FlushStep::Pending);
                },
                ActionPoll::Ready { value: _, entry } => {
                    proof {
                        crate::proactor::lemma_wf_preserved(old(p), p, id);
                        assert(self.closefut matches Some(c) ==> c.ticket.id != id);
                        assert(self.closefut matches Some(c) ==> c.wf(&p.tickets));
                    }
                    self.writebuf.end();
                    let ret = entry.result;
                    if ret < 0 {
                        return Err(os_error_of(ret));
                    }
                    let have = self.writebuf.inner().remaining();
                    let take = if (ret as usize) < have {
                        ret as usize
                    } else {
                        have
                    };
                    self.writebuf.inner_mut().advance(take);
                },
            }
        }
        if self.writebuf.inner().has_remaining() {
            let len = self.writebuf.inner().remaining() as u32;
            let op = OpCode::Write { fd: self.fd, len, offset: crate::io::STREAM_OFFSET };
            self.writebuf.start();
            let ghost mid = *p;
            match action(p, (), SubmissionEntry::new(op)) {
                Ok(act) => {
                    proof {
                        assert(self.closefut matches Some(c) ==> mid.tickets.is_live(
                            c.ticket.id,
                        ));
                        assert(self.closefut matches Some(c) ==> c.ticket.id != act.ticket.id);
                        assert(self.closefut matches Some(c) ==> c.wf(&p.tickets));
                    }
                    self.writefut = Some(act);
                    Ok(FlushStep::Started)
                },
                Err(e) => {
                    self.writebuf.end();
                    Err(e.into_error())
                },
            }
        } else {
            self.writebuf.inner_mut().clear();
            Ok(FlushStep::Done)
        }
    }

    /// The batching tail of a write step, entered with `base` readable
    /// bytes and cursors `w`/`c` in hand: the leading bytes of `data`
    /// that fit are appended, and a buffer made full by them starts its
    /// flush at once — unless the staging queue is full, in which case
    /// the batched bytes stay and the caller submits and retries.
    pub open spec fn spec_put_tail(
        pre: WriteHalfRef,
        pre_p: Proactor,
        post: WriteHalfRef,
        post_p: Proactor,
        r: Result<WriteOut, Error>,
        base: Seq<u8>,
        w: int,
        c: int,
        data: Seq<u8>,
        sq_full: bool,
    ) -> bool {
        let cap = pre.writebuf.spec_inner().spec_capacity();
        let n = spec_min(data.len() as int, cap - w);
        if w + n == cap && sq_full {
            &&& r == Err::<WriteOut, Error>(Error::QueueFull)
            &&& post.writefut is None
            &&& !post.writebuf.spec_is_locked()
            &&& post.writebuf.spec_inner().readable() == base + data.take(n)
        } else if w + n == cap {
            &&& r matches Ok(out) && out matches WriteOut::Wrote { n: got } && got == n
            &&& post.writefut is Some
            &&& post.writebuf.spec_is_locked()
            &&& post.writebuf.spec_inner().readable() == base + data.take(n)
            &&& post_p.sq@ == pre_p.sq@.push(
                (SubmissionEntry {
                    op: OpCode::Write {
                        fd: pre.fd,
                        len: (w + n - c) as u32,
                        offset: crate::io::STREAM_OFFSET,
                    },
                    user_data: post.writefut->0.ticket.id,
                }),
            )
        } else {
            &&& r matches Ok(out) && out matches WriteOut::Wrote { n: got } && got == n
            &&& post.writefut is None
            &&& !post.writebuf.spec_is_locked()
            &&& post.writebuf.spec_inner().readable() == base + data.take(n)
        }
    }

    /// One write step: batch the leading bytes of `data`.
    ///
    /// While a flush is in flight, or the batch buffer is full, the
    /// flush must make progress first; until it is done nothing is
    /// batched.  Otherwise as many leading bytes as fit are appended,
    /// and a full buffer starts its flush at once.
    pub fn write_step(&mut self, p: &mut Proactor, waker: u64, data: &[u8]) -> (r: Result<
        WriteOut,
        Error,
    >)
        requires
            old(p).wf(),
            old(p).tickets.slots@.len() + 1 + FIRST_TICKET < u64::MAX,
            old(self).wf(old(p)),
        ensures
            final(p).wf(),
            final(p).sq_cap == old(p).sq_cap,
            final(self).wf(final(p)),
            final(self).fd == old(self).fd,
            final(self).closefut == old(self).closefut,
            ({
                let b0 = old(self).writebuf.spec_inner();
                let cap = b0.spec_capacity();
                let sq_full = old(p).sq@.len() == old(p).sq_cap;
                match old(self).writefut {
                    Some(act) => {
                        let cell = old(p).tickets.slot(act.ticket.id)->0;
                        if !cell.spec_has_value() {
                            &&& r == Ok::<WriteOut, Error>(WriteOut::Pending)
                            &&& final(self).writefut is Some
                            &&& final(self).writebuf == old(self).writebuf
                        } else {
                            let res = cell.value->0.result;
                            if res < 0 {
                                &&& r == Err::<WriteOut, Error>(
                                    crate::error::spec_os_err(res),
                                )
                                &&& final(self).writefut is None
                                &&& !final(self).writebuf.spec_is_locked()
                            } else {
                                let rem = b0.readable().skip(
                                    spec_min(res as int, b0.readable().len() as int),
                                );
                                if rem.len() > 0 {
                                    if sq_full {
                                        &&& r == Err::<WriteOut, Error>(Error::QueueFull)
                                        &&& final(self).writefut is None
                                        &&& !final(self).writebuf.spec_is_locked()
                                        &&& final(self).writebuf.spec_inner().readable()
                                            == rem
                                    } else {
                                        &&& r == Ok::<WriteOut, Error>(WriteOut::Pending)
                                        &&& final(self).writefut is Some
                                        &&& final(self).writebuf.spec_is_locked()
                                        &&& final(p).sq@ == old(p).sq@.push(
                                            (SubmissionEntry {
                                                op: OpCode::Write {
                                                    fd: old(self).fd,
                                                    len: rem.len() as u32,
                                                    offset: crate::io::STREAM_OFFSET,
                                                },
                                                user_data: final(self).writefut->0.ticket.id,
                                            }),
                                        )
                                    }
                                } else {
                                    Self::spec_put_tail(
                                        *old(self),
                                        *old(p),
                                        *final(self),
                                        *final(p),
                                        r,
                                        Seq::empty(),
                                        0,
                                        0,
                                        data@,
                                        sq_full,
                                    )
                                }
                            }
                        }
                    },
                    None => {
                        if b0.spec_written() == cap {
                            let rem = b0.readable();
                            if rem.len() > 0 {
                                if sq_full {
                                    &&& r == Err::<WriteOut, Error>(Error::QueueFull)
                                    &&& final(self).writefut is None
                                    &&& !final(self).writebuf.spec_is_locked()
                                    &&& final(self).writebuf.spec_inner().readable() == rem
                                } else {
                                    &&& r == Ok::<WriteOut, Error>(WriteOut::Pending)
                                    &&& final(self).writefut is Some
                                    &&& final(self).writebuf.spec_is_locked()
                                    &&& final(p).sq@ == old(p).sq@.push(
                                        (SubmissionEntry {
                                            op: OpCode::Write {
                                                fd: old(self).fd,
                                                len: rem.len() as u32,
                                                offset: crate::io::STREAM_OFFSET,
                                            },
                                            user_data: final(self).writefut->0.ticket.id,
                                        }),
                                    )
                                }
                            } else {
                                Self::spec_put_tail(
                                    *old(self),
                                    *old(p),
                                    *final(self),
                                    *final(p),
                                    r,
                                    Seq::empty(),
                                    0,
                                    0,
                                    data@,
                                    sq_full,
                                )
                            }
                        } else {
                            Self::spec_put_tail(
                                *old(self),
                                *old(p),
                                *final(self),
                                *final(p),
                                r,
                                b0.readable(),
                                b0.spec_written() as int,
                                b0.spec_consumed() as int,
                                data@,
                                sq_full,
                            )
                        }
                    },
                }
            }),
    {
        if self.writefut.is_some() || !self.writebuf.inner().has_remaining_mut() {
            match self.flush_step(p, waker) {
                Ok(FlushStep::Done) => (),
                Ok(_) => {
                    return Ok(WriteOut::Pending);
                },
                Err(e) => {
                    return Err(e);
                },
            }
        }
        let ghost base = self.writebuf.spec_inner().readable();
        proof {
            if base.len() == 0 {
                assert(base =~= Seq::<u8>::empty());
            }
        }
        let room = self.writebuf.inner().remaining_mut();
        let n = if data.len() < room {
            data.len()
        } else {
            room
        };
        self.writebuf.inner_mut().put_prefix(data, n);
        proof {
            assert(self.writebuf.spec_inner().readable() =~= base + data@.take(n as int));
        }
        if !self.writebuf.inner().has_remaining_mut() {
            let len = self.writebuf.inner().remaining() as u32;
            let op = OpCode::Write { fd: self.fd, len, offset: crate::io::STREAM_OFFSET };
            self.writebuf.start();
            match action(p, (), SubmissionEntry::new(op)) {
                Ok(act) => {
                    self.writefut = Some(act);
                },
                Err(e) => {
                    self.writebuf.end();
                    return Err(e.into_error());
                },
            }
        }
        Ok(WriteOut::Wrote { n })
    }

    /// The closing tail of a shutdown step, entered once the write side
    /// is clear: an in-flight close is polled — success ends the
    /// shutdown, a negative completion surfaces the negated OS code —
    /// and with no close in flight one is staged, unless the staging
    /// queue is full, in which case the caller submits and retries.
    pub open spec fn spec_close_tail(
        pre: WriteHalfRef,
        pre_p: Proactor,
        post: WriteHalfRef,
        post_p: Proactor,
        r: Result<ShutdownStep, Error>,
        sq_full: bool,
    ) -> bool {
        match pre.closefut {
            Some(act) => {
                let cell = pre_p.tickets.slot(act.ticket.id)->0;
                if !cell.spec_has_value() {
                    &&& r == Ok::<ShutdownStep, Error>(ShutdownStep::Pending)
                    &&& post.closefut is Some
                } else {
                    let res = cell.value->0.result;
                    if res < 0 {
                        &&& r == Err::<ShutdownStep, Error>(crate::error::spec_os_err(res))
                        &&& post.closefut is None
                    } else {
                        &&& r == Ok::<ShutdownStep, Error>(ShutdownStep::Done)
                        &&& post.closefut is None
                        &&& post.writefut is None
                    }
                }
            },
            None => {
                if sq_full {
                    &&& r == Err::<ShutdownStep, Error>(Error::QueueFull)
                    &&& post.closefut is None
                } else {
                    &&& r == Ok::<ShutdownStep, Error>(ShutdownStep::Pending)
                    &&& post.closefut is Some
                    &&& post_p.sq@ == pre_p.sq@.push(
                        (SubmissionEntry {
                            op: OpCode::Close { fd: pre.fd },
                            user_data: post.closefut->0.ticket.id,
                        }),
                    )
                }
            },
        }
    }

    /// One shutdown step: finish the in-flight flush, then close the
    /// descriptor, polling the close to completion.
    pub fn shutdown_step(&mut self, p: &mut Proactor, waker: u64) -> (r: Result<
        ShutdownStep,
        Error,
    >)
        requires
            old(p).wf(),
            old(p).tickets.slots@.len() + 1 + FIRST_TICKET < u64::MAX,
            old(self).wf(old(p)),
        ensures
            final(p).wf(),
            final(p).sq_cap == old(p).sq_cap,
            final(self).wf(final(p)),
            final(self).fd == old(self).fd,
            ({
                let b0 = old(self).writebuf.spec_inner();
                let sq_full = old(p).sq@.len() == old(p).sq_cap;
                match old(self).writefut {
                    Some(act) => {
                        let cell = old(p).tickets.slot(act.ticket.id)->0;
                        if !cell.spec_has_value() {
                            &&& r == Ok::<ShutdownStep, Error>(ShutdownStep::Pending)
                            &&& final(self).writefut is Some
                            &&& final(self).closefut == old(self).closefut
                        } else {
                            let res = cell.value->0.result;
                            if res < 0 {
                                &&& r == Err::<ShutdownStep, Error>(
                                    crate::error::spec_os_err(res),
                                )
                                &&& final(self).writefut is None
                                &&& !final(self).writebuf.spec_is_locked()
                                &&& final(self).closefut == old(self).closefut
                            } else {
                                &&& final(self).writefut is None
                                &&& !final(self).writebuf.spec_is_locked()
                                &&& Self::spec_close_tail(
                                    *old(self),
                                    *old(p),
                                    *final(self),
                                    *final(p),
                                    r,
                                    sq_full,
                                )
                            }
                        }
                    },
                    None => {
                        &&& final(self).writefut is None
                        &&& Self::spec_close_tail(
                            *old(self),
                            *old(p),
                            *final(self),
                            *final(p),
                            r,
                            sq_full,
                        )
                    },
                }
            }),
    {
        if self.writefut.is_some() {
            let act = self.writefut.take().unwrap();
            let ghost id = act.ticket.id;
            match act.poll(&mut p.tickets, waker) {
                ActionPoll::Pending { action: act2 } => {
                    proof {
                        crate::proactor::lemma_wf_preserved(old(p), p, id);
                    }
                    self.writefut = Some(act2);
                    return Ok(ShutdownStep::Pending);
                },
                ActionPoll::Ready { value: _, entry } => {
                    proof {
                        crate::proactor::lemma_wf_preserved(old(p), p, id);
                        assert(self.closefut matches Some(c) ==> c.ticket.id != id);
                        assert(self.closefut matches Some(c) ==> c.wf(&p.tickets));
                    }
                    self.writebuf.end();
                    let ret = entry.result;
                    if ret < 0 {
                        return Err(os_error_of(ret));
                    }
                    let have = self.writebuf.inner().remaining();
                    let take = if (ret as usize) < have {
                        ret as usize
                    } else {
                        have
                    };
                    self.writebuf.inner_mut().advance(take);
                },
            }
        }
        if self.closefut.is_some() {
            let act = self.closefut.take().unwrap();
            let ghost id2 = act.ticket.id;
            let ghost mid = *p;
            match act.poll(&mut p.tickets, waker) {
                ActionPoll::Pending { action: act2 } => {
                    proof {
                        crate::proactor::lemma_wf_preserved(&mid, p, id2);
                    }
                    self.closefut = Some(act2);
                    Ok(ShutdownStep::Pending)
                },
                ActionPoll::Ready { value: _, entry } => {
                    proof {
                        crate::proactor::lemma_wf_preserved(&mid, p, id2);
                    }
                    let ret = entry.result;
                    if ret < 0 {
                        Err(os_error_of(ret))
                    } else {
                        Ok(ShutdownStep::Done)
                    }
                },
            }
        } else {
            let op = OpCode::Close { fd: self.fd };
            match action(p, (), SubmissionEntry::new(op)) {
                Ok(act) => {
                    self.closefut = Some(act);
                    Ok(ShutdownStep::Pending)
                },
                Err(e) => Err(e.into_error()),
            }
        }
    }
}

/// Buffered streaming I/O over one descriptor.
pub struct AsyncBufIo<T> {
    /// The descriptor's owner, kept alive for both halves.
    pub fd: T,
    /// The read half.
    pub read: ReadHalfRef,
    /// The write half.
    pub write: WriteHalfRef,
}

impl<T: TrustedAsRawFd> AsyncBufIo<T> {
    /// Both halves are sound and speak of the owner's descriptor.
    pub open spec fn wf(&self, p: &Proactor) -> bool {
        &&& self.read.wf(p)
        &&& self.write.wf(p)
        &&& self.read.fd == self.fd.spec_fd()
        &&& self.write.fd == self.fd.spec_fd()
    }

    /// Buffered I/O with the default capacity for each half.
    pub fn new(fd: T) -> (r: AsyncBufIo<T>)
        ensures
            r.fd == fd,
            r.read.fd == fd.spec_fd(),
            r.write.fd == fd.spec_fd(),
            r.read.readfut is None,
            r.write.writefut is None,
            r.write.closefut is None,
            !r.read.eof,
            r.read.readbuf.spec_inner().spec_capacity() == DEFAULT_CAPACITY,
            r.write.writebuf.spec_inner().spec_capacity() == DEFAULT_CAPACITY,
    {
        Self::with_capacity(fd, DEFAULT_CAPACITY)
    }

    /// Buffered I/O with the given buffer capacity for each half.
    pub fn with_capacity(fd: T, cap: usize) -> (r: AsyncBufIo<T>)
        requires
            cap <= u32::MAX,
        ensures
            r.fd == fd,
            r.read.fd == fd.spec_fd(),
            r.write.fd == fd.spec_fd(),
            r.read.readfut is None,
            r.write.writefut is None,
            r.write.closefut is None,
            !r.read.eof,
            !r.read.readbuf.spec_is_locked(),
            !r.write.writebuf.spec_is_locked(),
            r.read.readbuf.spec_inner().spec_capacity() == cap,
            r.write.writebuf.spec_inner().spec_capacity() == cap,
    {
        let raw = fd.stable_fd();
        AsyncBufIo {
            fd,
            read: ReadHalfRef {
                fd: raw,
                readfut: None,
                readbuf: MaybeLock::new(Buffer::new(cap)),
                eof: false,
            },
            write: WriteHalfRef {
                fd: raw,
                writefut: None,
                writebuf: MaybeLock::new(Buffer::new(cap)),
                closefut: None,
            },
        }
    }

    /// Borrows both halves at once, so reads and writes can progress
    /// independently.
    pub fn split_ref(&mut self) -> (r: (&mut ReadHalfRef, &mut WriteHalfRef))
        ensures
            *r.0 == old(self).read,
            *r.1 == old(self).write,
            final(self).read == *final(r.0),
            final(self).write == *final(r.1),
            final(self).fd == old(self).fd,
    {
        (&mut self.read, &mut self.write)
    }

    /// Borrows the read half.
    pub fn as_read(&mut self) -> (r: &mut ReadHalfRef)
        ensures
            *r == old(self).read,
            final(self).read == *final(r),
            final(self).write == old(self).write,
            final(self).fd == old(self).fd,
    {
        &mut self.read
    }

    /// Borrows the write half.
    pub fn as_write(&mut self) -> (r: &mut WriteHalfRef)
        ensures
            *r == old(self).write,
            final(self).write == *final(r),
            final(self).read == old(self).read,
            final(self).fd == old(self).fd,
    {
        &mut self.write
    }
}

} // verus!
