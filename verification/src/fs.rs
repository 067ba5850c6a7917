//! File operations: positional reads and writes, synchronization, open,
//! and a vectored streaming state machine.

use vstd::prelude::*;

use crate::action::{action, Action, ActionPoll};
use crate::error::Error;
use crate::io::TrustedAsRawFd;
use crate::proactor::Proactor;
use crate::ring::{CompletionEntry, OpCode, SubmissionEntry, FIRST_TICKET};
use crate::util::Buffer;

verus! {

/// An open file, known to the core by its stable descriptor.
#[derive(Clone, Copy, Debug, PartialEq, Eq, Structural)]
pub struct File {
    /// The descriptor, owned by the embedding.
    pub fd: i32,
}

impl TrustedAsRawFd for File {
    open spec fn spec_fd(&self) -> i32 {
        self.fd
    }

    fn stable_fd(&self) -> (r: i32) {
        self.fd
    }
}

impl File {
    /// Wraps a descriptor the embedding obtained.
    pub fn from_raw(fd: i32) -> (r: File)
        ensures
            r.fd == fd,
    {
        File { fd }
    }

    /// Submits a read into the buffer's writable region at an explicit
    /// position.  The buffer is held by the action until completion.
    pub fn read_at(&self, p: &mut Proactor, offset: i64, buf: Buffer) -> (r: Result<
        Action<Buffer>,
        Error,
    >)
        requires
            old(p).wf(),
            old(p).tickets.slots@.len() + 1 + FIRST_TICKET < u64::MAX,
            buf.wf(),
            buf.spec_capacity() - buf.spec_written() <= u32::MAX,
        ensures
            final(p).wf(),
            match r {
                Ok(a) => {
                    &&& a.hold == buf
                    &&& a.wf(&final(p).tickets)
                    &&& final(p).sq@ == old(p).sq@.push(
                        (SubmissionEntry {
                            op: OpCode::Read {
                                fd: self.fd,
                                len: (buf.spec_capacity() - buf.spec_written()) as u32,
                                offset,
                            },
                            user_data: a.ticket.id,
                        }),
                    )
                },
                Err(e) => e == Error::QueueFull && old(p).sq@.len() == old(p).sq_cap,
            },
    {
        let len = buf.remaining_mut() as u32;
        let op = OpCode::Read { fd: self.fd, len, offset };
        match action(p, buf, SubmissionEntry::new(op)) {
            Ok(a) => Ok(a),
            Err(e) => Err(e.into_error()),
        }
    }

    /// Submits a write from the buffer's readable region at an explicit
    /// position.
    pub fn write_at(&self, p: &mut Proactor, offset: i64, buf: Buffer) -> (r: Result<
        Action<Buffer>,
        Error,
    >)
        requires
            old(p).wf(),
            old(p).tickets.slots@.len() + 1 + FIRST_TICKET < u64::MAX,
            buf.wf(),
            buf.readable().len() <= u32::MAX,
        ensures
            final(p).wf(),
            match r {
                Ok(a) => {
                    &&& a.hold == buf
                    &&& a.wf(&final(p).tickets)
                    &&& final(p).sq@ == old(p).sq@.push(
                        (SubmissionEntry {
                            op: OpCode::Write {
                                fd: self.fd,
                                len: buf.readable().len() as u32,
                                offset,
                            },
                            user_data: a.ticket.id,
                        }),
                    )
                },
                Err(e) => e == Error::QueueFull && old(p).sq@.len() == old(p).sq_cap,
            },
    {
        let len = buf.remaining() as u32;
        let op = OpCode::Write { fd: self.fd, len, offset };
        match action(p, buf, SubmissionEntry::new(op)) {
            Ok(a) => Ok(a),
            Err(e) => Err(e.into_error()),
        }
    }

    /// Submits a file synchronization; with `datasync` the metadata is
    /// skipped.  Nothing is held: the ticket alone awaits completion.
    pub fn fsync(&self, p: &mut Proactor, datasync: bool) -> (r: Result<Action<()>, Error>)
        requires
            old(p).wf(),
            old(p).tickets.slots@.len() + 1 + FIRST_TICKET < u64::MAX,
        ensures
            final(p).wf(),
            match r {
                Ok(a) => {
                    &&& a.wf(&final(p).tickets)
                    &&& final(p).sq@ == old(p).sq@.push(
                        (SubmissionEntry {
                            op: OpCode::Fsync { fd: self.fd, datasync },
                            user_data: a.ticket.id,
                        }),
                    )
                },
                Err(e) => e == Error::QueueFull && old(p).sq@.len() == old(p).sq_cap,
            },
    {
        let op = OpCode::Fsync { fd: self.fd, datasync };
        match action(p, (), SubmissionEntry::new(op)) {
            Ok(a) => Ok(a),
            Err(e) => Err(e.into_error()),
        }
    }

    /// Synchronizes data and metadata.
    pub fn sync_all(&self, p: &mut Proactor) -> (r: Result<Action<()>, Error>)
        requires
            old(p).wf(),
            old(p).tickets.slots@.len() + 1 + FIRST_TICKET < u64::MAX,
        ensures
            final(p).wf(),
            match r {
                Ok(a) => {
                    &&& a.wf(&final(p).tickets)
                    &&& final(p).sq@ == old(p).sq@.push(
                        (SubmissionEntry {
                            op: OpCode::Fsync { fd: self.fd, datasync: false },
                            user_data: a.ticket.id,
                        }),
                    )
                },
                Err(e) => e == Error::QueueFull && old(p).sq@.len() == old(p).sq_cap,
            },
    {
        self.fsync(p, false)
    }

    /// Synchronizes the data only.
    pub fn sync_data(&self, p: &mut Proactor) -> (r: Result<Action<()>, Error>)
        requires
            old(p).wf(),
            old(p).tickets.slots@.len() + 1 + FIRST_TICKET < u64::MAX,
        ensures
            final(p).wf(),
            match r {
                Ok(a) => {
                    &&& a.wf(&final(p).tickets)
                    &&& final(p).sq@ == old(p).sq@.push(
                        (SubmissionEntry {
                            op: OpCode::Fsync { fd: self.fd, datasync: true },
                            user_data: a.ticket.id,
                        }),
                    )
                },
                Err(e) => e == Error::QueueFull && old(p).sq@.len() == old(p).sq_cap,
            },
    {
        self.fsync(p, true)
    }
}

/// Applies a positional read completion: a nonnegative result extends
/// the written region by that many bytes; a negative result is the
/// negated OS error.
pub fn read_at_complete(buf: Buffer, entry: CompletionEntry) -> (r: Result<Buffer, Error>)
    requires
        buf.wf(),
        entry.result > i32::MIN,
        entry.result >= 0 ==> buf.spec_written() + entry.result <= buf.spec_capacity(),
    ensures
        entry.result >= 0 ==> (r matches Ok(b) && b.wf() && b.spec_written()
            == buf.spec_written() + entry.result && b.spec_consumed() == buf.spec_consumed()
            && b.storage() == buf.storage()),
        entry.result < 0 ==> r == Err::<Buffer, Error>(
            Error::Os { code: -entry.result as i32 },
        ),
{
    let mut buf = buf;
    let ret = entry.result;
    if ret >= 0 {
        buf.advance_mut(ret as usize);
        Ok(buf)
    } else {
        Err(Error::Os { code: -ret })
    }
}

/// Applies a positional write completion: a nonnegative result consumes
/// that many readable bytes; a negative result is the negated OS error.
pub fn write_at_complete(buf: Buffer, entry: CompletionEntry) -> (r: Result<Buffer, Error>)
    requires
        buf.wf(),
        entry.result > i32::MIN,
        entry.result >= 0 ==> entry.result <= buf.readable().len(),
    ensures
        entry.result >= 0 ==> (r matches Ok(b) && b.wf() && b.readable()
            == buf.readable().skip(entry.result as int) && b.spec_written()
            == buf.spec_written() && b.storage() == buf.storage()),
        entry.result < 0 ==> r == Err::<Buffer, Error>(
            Error::Os { code: -entry.result as i32 },
        ),
{
    let mut buf = buf;
    let ret = entry.result;
    if ret >= 0 {
        buf.advance(ret as usize);
        Ok(buf)
    } else {
        Err(Error::Os { code: -ret })
    }
}

/// Applies a synchronization completion.
pub fn fsync_complete(entry: CompletionEntry) -> (r: Result<(), Error>)
    requires
        entry.result > i32::MIN,
    ensures
        entry.result >= 0 ==> r is Ok,
        entry.result < 0 ==> r == Err::<(), Error>(Error::Os { code: -entry.result as i32 }),
{
    match crate::util::ioret(entry.result) {
        Ok(_) => Ok(()),
        Err(e) => Err(e),
    }
}

/// Whether a path holds an interior NUL byte, which cannot be handed to
/// the kernel.
pub open spec fn spec_has_nul(s: Seq<u8>) -> bool {
    exists|i: int| 0 <= i < s.len() && s[i] == 0u8
}

/// Submits an open of `path` (bytes, without a terminating NUL)
/// relative to the working directory.  The path bytes are held by the
/// action until completion; the embedding appends the terminator when
/// it builds the kernel entry.
///
/// A path with an interior NUL is rejected with [`Error::InvalidPath`];
/// a full staging queue reports [`Error::QueueFull`]; every other call
/// stages the open.
#[verifier::loop_isolation(false)]
pub fn open(p: &mut Proactor, path: Vec<u8>) -> (r: Result<Action<Vec<u8>>, Error>)
    requires
        old(p).wf(),
        old(p).tickets.slots@.len() + 1 + FIRST_TICKET < u64::MAX,
    ensures
        final(p).wf(),
        spec_has_nul(path@) ==> r == Err::<Action<Vec<u8>>, Error>(Error::InvalidPath)
            && *final(p) == *old(p),
        !spec_has_nul(path@) ==> match r {
            Ok(a) => {
                &&& a.hold == path
                &&& a.wf(&final(p).tickets)
                &&& final(p).sq@ == old(p).sq@.push(
                    (SubmissionEntry { op: OpCode::OpenAt, user_data: a.ticket.id }),
                )
            },
            Err(e) => e == Error::QueueFull && old(p).sq@.len() == old(p).sq_cap,
        },
{
    let mut i: usize = 0;
    while i < path.len()
        invariant
            i <= path@.len(),
            forall|j: int| 0 <= j < i ==> path@[j] != 0u8,
        decreases path@.len() - i,
    {
        if path[i] == 0u8 {
            return Err(Error::InvalidPath);
        }
        i = i + 1;
    }
    match action(p, path, SubmissionEntry::new(OpCode::OpenAt)) {
        Ok(a) => Ok(a),
        Err(e) => Err(e.into_error()),
    }
}

/// Applies an open completion: a nonnegative result is the new
/// descriptor; a negative one is the negated OS error.
pub fn open_complete(entry: CompletionEntry) -> (r: Result<File, Error>)
    requires
        entry.result > i32::MIN,
    ensures
        entry.result >= 0 ==> r == Ok::<File, Error>(File { fd: entry.result }),
        entry.result < 0 ==> r == Err::<File, Error>(Error::Os { code: -entry.result as i32 }),
{
    let ret = entry.result;
    if ret >= 0 {
        Ok(File { fd: ret })
    } else {
        Err(Error::Os { code: -ret })
    }
}

/// The phases of the vectored streaming machine.
pub enum FileState {
    /// Nothing pending.
    Empty,
    /// A scatter read is in flight; the action holds its buffer.
    Reading { act: Action<Buffer> },
    /// Buffers queued for the next gather write.
    Write { bufs: Vec<Buffer> },
    /// A gather write is in flight; the action holds the buffers.
    Writing { act: Action<Vec<Buffer>> },
}

/// A streaming view of a file: reads arrive as freshly filled buffers,
/// writes are queued and flushed as one gather submission.
pub struct FileIo {
    /// The file's stable descriptor.
    pub fd: i32,
    /// The position used by the vectored submissions.
    pub offset: i64,
    /// The current phase.
    pub state: FileState,
}

/// What one step of the read side achieved.
pub enum ReadStep {
    /// A scatter read was staged; step again after the kernel ran.
    Started,
    /// The read is still in flight.
    Pending,
    /// The read completed with data.
    Data { buf: Buffer },
    /// The read completed at the end of the file.
    Eof,
}

/// What one step of the write side achieved.
pub enum WriteStep {
    /// A gather write was staged; step again after the kernel ran.
    Started,
    /// The write is still in flight.
    Pending,
    /// The write completed, consuming the queued buffers.
    Flushed { n: i32 },
}

/// How many bytes a buffer may still take.
pub open spec fn spec_room(b: Buffer) -> int {
    b.spec_capacity() - b.spec_written()
}

impl FileIo {
    /// An in-flight phase owns a live ticket.
    pub open spec fn wf(&self, p: &Proactor) -> bool {
        match self.state {
            FileState::Reading { act } => act.wf(&p.tickets) && act.hold.wf(),
            FileState::Writing { act } => act.wf(&p.tickets),
            _ => true,
        }
    }

    /// A streaming view over a descriptor, starting at position 0.
    pub fn from_raw(fd: i32) -> (r: FileIo)
        ensures
            r.fd == fd,
            r.offset == 0,
            r.state is Empty,
    {
        FileIo { fd, offset: 0, state: FileState::Empty }
    }

    /// Queues one buffer for the next flush.  Only the idle and the
    /// queuing phases accept data; a phase with a submission in flight
    /// refuses with [`Error::InvalidState`] and keeps its state.
    pub fn push(&mut self, buf: Buffer) -> (r: Result<(), Error>)
        requires
            old(self).state matches FileState::Write { bufs } ==> bufs@.len() < u32::MAX,
        ensures
            final(self).fd == old(self).fd,
            final(self).offset == old(self).offset,
            match old(self).state {
                FileState::Empty => {
                    &&& r is Ok
                    &&& final(self).state matches FileState::Write { bufs } && bufs@
                        == seq![buf]
                },
                FileState::Write { bufs } => {
                    &&& r is Ok
                    &&& final(self).state matches FileState::Write { bufs: b2 } && b2@
                        == bufs@.push(buf)
                },
                _ => r == Err::<(), Error>(Error::InvalidState) && final(self).state == old(self).state,
            },
    {
        let mut st = FileState::Empty;
        core::mem::swap(&mut st, &mut self.state);
        match st {
            FileState::Empty => {
                let mut bufs: Vec<Buffer> = Vec::new();
                bufs.push(buf);
                proof {
                    assert(bufs@ =~= seq![buf]);
                }
                self.state = FileState::Write { bufs };
                Ok(())
            },
            FileState::Write { mut bufs } => {
                bufs.push(buf);
                self.state = FileState::Write { bufs };
                Ok(())
            },
            other => {
                self.state = other;
                Err(Error::InvalidState)
            },
        }
    }

    /// One step of the read side.
    ///
    /// From the idle phase this stages a scatter read over one fresh
    /// buffer of 4096 bytes.  While the read is in flight it polls the
    /// ticket: a positive result hands the filled buffer back, zero is
    /// the end of the file, a negative result is the negated OS error
    /// (saturated when it cannot be negated), and all of them return the
    /// machine to the idle phase.  A write phase refuses with
    /// [`Error::InvalidState`].
    pub fn read_step(&mut self, p: &mut Proactor, waker: u64) -> (r: Result<ReadStep, Error>)
        requires
            old(p).wf(),
            old(p).tickets.slots@.len() + 1 + FIRST_TICKET < u64::MAX,
            old(self).wf(old(p)),
        ensures
            final(p).wf(),
            final(self).wf(final(p)),
            final(self).fd == old(self).fd,
            final(self).offset == old(self).offset,
            match old(self).state {
                FileState::Empty => match r {
                    Ok(step) => {
                        &&& step is Started
                        &&& final(self).state matches FileState::Reading { act } && act.wf(
                            &final(p).tickets,
                        ) && act.hold.wf() && act.hold.spec_capacity() == 4096
                            && act.hold.spec_written() == 0
                        &&& final(p).sq@.len() == old(p).sq@.len() + 1
                        &&& final(p).sq@.last().op == (OpCode::Readv {
                            fd: old(self).fd,
                            nvecs: 1,
                            offset: old(self).offset,
                        })
                    },
                    Err(e) => {
                        &&& e == Error::QueueFull
                        &&& final(self).state is Empty
                        &&& old(p).sq@.len() == old(p).sq_cap
                    },
                },
                FileState::Reading { act } => {
                    let cell = old(p).tickets.slot(act.ticket.id)->0;
                    if !cell.spec_has_value() {
                        &&& r matches Ok(step) && step is Pending
                        &&& final(self).state is Reading
                    } else {
                        let res = cell.value->0.result;
                        &&& final(self).state is Empty
                        &&& res > 0 ==> (r matches Ok(step) && step matches ReadStep::Data {
                            buf,
                        } && buf.wf() && buf.spec_written() == act.hold.spec_written()
                            + spec_min(res as int, spec_room(act.hold)))
                        &&& res == 0 ==> (r matches Ok(step) && step is Eof)
                        &&& res < 0 ==> r == Err::<ReadStep, Error>(
                            crate::error::spec_os_err(res),
                        )
                    }
                },
                _ => r == Err::<ReadStep, Error>(Error::InvalidState) && final(self).state
                    == old(self).state && *final(p) == *old(p),
            },
    {
        let mut st = FileState::Empty;
        core::mem::swap(&mut st, &mut self.state);
        match st {
            FileState::Empty => {
                let buf = Buffer::new(4096);
                let op = OpCode::Readv { fd: self.fd, nvecs: 1, offset: self.offset };
                match action(p, buf, SubmissionEntry::new(op)) {
                    Ok(act) => {
                        self.state = FileState::Reading { act };
                        Ok(ReadStep::Started)
                    },
                    Err(e) => Err(e.into_error()),
                }
            },
            FileState::Reading { act } => {
                let ghost id = act.ticket.id;
                match act.poll(&mut p.tickets, waker) {
                    ActionPoll::Pending { action: act2 } => {
                        proof {
                            crate::proactor::lemma_wf_preserved(old(p), p, id);
                        }
                        self.state = FileState::Reading { act: act2 };
                        Ok(ReadStep::Pending)
                    },
                    ActionPoll::Ready { value: mut buf, entry } => {
                        proof {
                            crate::proactor::lemma_wf_preserved(old(p), p, id);
                        }
                        let ret = entry.result;
                        if ret > 0 {
                            let room = buf.remaining_mut();
                            let take = if (ret as usize) < room {
                                ret as usize
                            } else {
                                room
                            };
                            buf.advance_mut(take);
                            Ok(ReadStep::Data { buf })
                        } else if ret == 0 {
                            Ok(ReadStep::Eof)
                        } else {
                            Err(os_error_of(ret))
                        }
                    },
                }
            },
            other => {
                self.state = other;
                Err(Error::InvalidState)
            },
        }
    }

    /// One step of the write side.
    ///
    /// The idle phase has nothing to flush and refuses with
    /// [`Error::WriteZero`].  The queuing phase stages one gather write
    /// over the queued buffers.  While it is in flight the ticket is
    /// polled: a nonnegative result reports the written byte count and
    /// drops the buffers, a negative result is the negated OS error,
    /// and both return the machine to the idle phase.
    pub fn write_step(&mut self, p: &mut Proactor, waker: u64) -> (r: Result<WriteStep, Error>)
        requires
            old(p).wf(),
            old(p).tickets.slots@.len() + 1 + FIRST_TICKET < u64::MAX,
            old(self).wf(old(p)),
            old(self).state matches FileState::Write { bufs } ==> bufs@.len() <= u32::MAX,
        ensures
            final(p).wf(),
            final(self).wf(final(p)),
            final(self).fd == old(self).fd,
            final(self).offset == old(self).offset,
            match old(self).state {
                FileState::Empty => r == Err::<WriteStep, Error>(Error::WriteZero) && final(self).state is Empty && *final(p) == *old(p),
                FileState::Write { bufs } => match r {
                    Ok(step) => {
                        &&& step is Started
                        &&& final(self).state matches FileState::Writing { act } && act.hold@
                            == bufs@
                        &&& final(p).sq@.len() == old(p).sq@.len() + 1
                        &&& final(p).sq@.last().op == (OpCode::Writev {
                            fd: old(self).fd,
                            nvecs: bufs@.len() as u32,
                            offset: old(self).offset,
                        })
                    },
                    Err(e) => {
                        &&& e == Error::QueueFull
                        &&& final(self).state is Empty
                        &&& old(p).sq@.len() == old(p).sq_cap
                    },
                },
                FileState::Writing { act } => {
                    let cell = old(p).tickets.slot(act.ticket.id)->0;
                    if !cell.spec_has_value() {
                        &&& r matches Ok(step) && step is Pending
                        &&& final(self).state is Writing
                    } else {
                        let res = cell.value->0.result;
                        &&& final(self).state is Empty
                        &&& res >= 0 ==> r == Ok::<WriteStep, Error>(
                            WriteStep::Flushed { n: res },
                        )
                        &&& res < 0 ==> r == Err::<WriteStep, Error>(
                            crate::error::spec_os_err(res),
                        )
                    }
                },
                _ => r == Err::<WriteStep, Error>(Error::InvalidState) && final(self).state
                    == old(self).state && *final(p) == *old(p),
            },
    {
        let mut st = FileState::Empty;
        core::mem::swap(&mut st, &mut self.state);
        match st {
            FileState::Empty => Err(Error::WriteZero),
            FileState::Write { bufs } => {
                let nvecs = bufs.len() as u32;
                let op = OpCode::Writev { fd: self.fd, nvecs, offset: self.offset };
                match action(p, bufs, SubmissionEntry::new(op)) {
                    Ok(act) => {
                        self.state = FileState::Writing { act };
                        Ok(WriteStep::Started)
                    },
                    Err(e) => Err(e.into_error()),
                }
            },
            FileState::Writing { act } => {
                let ghost id = act.ticket.id;
                match act.poll(&mut p.tickets, waker) {
                    ActionPoll::Pending { action: act2 } => {
                        proof {
                            crate::proactor::lemma_wf_preserved(old(p), p, id);
                        }
                        self.state = FileState::Writing { act: act2 };
                        Ok(WriteStep::Pending)
                    },
                    ActionPoll::Ready { value: _, entry } => {
                        proof {
                            crate::proactor::lemma_wf_preserved(old(p), p, id);
                        }
                        let ret = entry.result;
                        if ret >= 0 {
                            Ok(WriteStep::Flushed { n: ret })
                        } else {
                            Err(os_error_of(ret))
                        }
                    },
                }
            },
            other => {
                self.state = other;
                Err(Error::InvalidState)
            },
        }
    }
}

/// The smaller of two mathematical integers.
pub open spec fn spec_min(a: int, b: int) -> int {
    if a <= b {
        a
    } else {
        b
    }
}

/// The OS error for a negative completion result, saturated where the
/// result cannot be negated.
pub fn os_error_of(ret: i32) -> (r: Error)
    requires
        ret < 0,
    ensures
        r == crate::error::spec_os_err(ret),
{
    if ret == i32::MIN {
        Error::Os { code: i32::MAX }
    } else {
        Error::Os { code: -ret }
    }
}

} // verus!
