//! Buffer-based read and write operations.
//!
//! Each operation is split at the kernel boundary: a submit function
//! validates the inputs, builds the entry and couples the buffer (and
//! the descriptor's owner) to an action; a completion function takes the
//! held value and the completion record back, advances the buffer
//! cursors on success and translates a negative result into an OS error.

use vstd::prelude::*;

use crate::action::{action, Action};
use crate::error::Error;
use crate::proactor::Proactor;
use crate::ring::{CompletionEntry, OpCode, SubmissionEntry, FIRST_TICKET};
use crate::util::Buffer;

verus! {

/// Types whose descriptor is stable for the object's lifetime.  The
/// operation library accepts only such types: the kernel keeps the
/// descriptor for the whole life of a submission.
pub trait TrustedAsRawFd {
    /// The descriptor, as a specification-level value.
    spec fn spec_fd(&self) -> i32;

    /// The descriptor.  It must not change for the object's lifetime.
    fn stable_fd(&self) -> (r: i32)
        ensures
            r == self.spec_fd(),
    ;
}

/// An owned raw descriptor, the core's plain stand-in for any open file
/// or socket the embedding manages.
#[derive(Clone, Copy, Debug, PartialEq, Eq, Structural)]
pub struct Fd(pub i32);

impl TrustedAsRawFd for Fd {
    open spec fn spec_fd(&self) -> i32 {
        self.0
    }

    fn stable_fd(&self) -> (r: i32) {
        self.0
    }
}

/// The error reported when an operation is asked to use a descriptor
/// slot that is empty.
pub fn not_found() -> (r: Error)
    ensures
        r == Error::NotFound,
{
    Error::NotFound
}

/// The streaming position: reads and writes at this offset use the
/// descriptor's own file position.
pub const STREAM_OFFSET: i64 = -1;

/// The submission offset for an optional 32-bit position: the explicit
/// position when one is given, the streaming position otherwise.
pub open spec fn spec_offset_of(offset: Option<u32>) -> i64 {
    match offset {
        Some(o) => o as i64,
        None => STREAM_OFFSET,
    }
}

/// Converts an optional position into the submission offset.
pub fn offset_of(offset: Option<u32>) -> (r: i64)
    ensures
        r == spec_offset_of(offset),
{
    match offset {
        Some(o) => o as i64,
        None => STREAM_OFFSET,
    }
}

/// Submits a read into the buffer's writable region, taking the
/// descriptor's owner out of its slot for the kernel's duration.
///
/// An empty slot reports [`Error::NotFound`]; a full staging queue
/// reports [`Error::QueueFull`]; in both cases nothing is staged.  On
/// success the action holds the owner and the buffer until completion.
pub fn read_buf<T: TrustedAsRawFd>(
    p: &mut Proactor,
    fd: &mut Option<T>,
    buf: Buffer,
    offset: Option<u32>,
) -> (r: Result<Action<(T, Buffer)>, Error>)
    requires
        old(p).wf(),
        old(p).tickets.slots@.len() + 1 + FIRST_TICKET < u64::MAX,
        buf.wf(),
        buf.spec_capacity() - buf.spec_written() <= u32::MAX,
    ensures
        final(p).wf(),
        (*old(fd)) is None ==> {
            &&& r == Err::<Action<(T, Buffer)>, Error>(Error::NotFound)
            &&& (*final(fd)) is None
            &&& *final(p) == *old(p)
        },
        (*old(fd)) is Some ==> (*final(fd)) is None && match r {
            Ok(a) => {
                &&& a.hold == ((*old(fd))->0, buf)
                &&& a.wf(&final(p).tickets)
                &&& final(p).sq@ == old(p).sq@.push(
                    (SubmissionEntry {
                        op: OpCode::Read {
                            fd: (*old(fd))->0.spec_fd(),
                            len: (buf.spec_capacity() - buf.spec_written()) as u32,
                            offset: spec_offset_of(offset),
                        },
                        user_data: a.ticket.id,
                    }),
                )
            },
            Err(e) => e == Error::QueueFull && old(p).sq@.len() == old(p).sq_cap,
        },
{
    let fd2 = match fd.take() {
        Some(fd2) => fd2,
        None => {
            return Err(not_found());
        },
    };
    let len = buf.remaining_mut() as u32;
    let op = OpCode::Read { fd: fd2.stable_fd(), len, offset: offset_of(offset) };
    match action(p, (fd2, buf), SubmissionEntry::new(op)) {
        Ok(a) => Ok(a),
        Err(e) => Err(e.into_error()),
    }
}

/// Applies a read completion: a nonnegative result extends the written
/// region by exactly that many bytes (zero bytes mark the end of file
/// and leave the buffer unchanged); a negative result is the negated OS
/// error, and the descriptor's owner is put back into its slot.
pub fn read_buf_complete<T>(
    hold: (T, Buffer),
    entry: CompletionEntry,
    fd: &mut Option<T>,
) -> (r: Result<(T, Buffer), Error>)
    requires
        hold.1.wf(),
        entry.result > i32::MIN,
        entry.result >= 0 ==> hold.1.spec_written() + entry.result <= hold.1.spec_capacity(),
    ensures
        entry.result >= 0 ==> {
            &&& r matches Ok((t, b)) && t == hold.0 && b.wf()
                && b.spec_written() == hold.1.spec_written() + entry.result
                && b.spec_consumed() == hold.1.spec_consumed()
                && b.storage() == hold.1.storage()
            &&& *final(fd) == *old(fd)
            &&& entry.result == 0 ==> (r matches Ok((t2, b2)) && b2.readable()
                == hold.1.readable())
        },
        entry.result < 0 ==> {
            &&& r == Err::<(T, Buffer), Error>(Error::Os { code: -entry.result as i32 })
            &&& *final(fd) == Some(hold.0)
        },
{
    let (fd2, mut buf) = hold;
    let ret = entry.result;
    if ret >= 0 {
        buf.advance_mut(ret as usize);
        proof {
            if entry.result == 0 {
                assert(buf.readable() =~= hold.1.readable());
            }
        }
        Ok((fd2, buf))
    } else {
        *fd = Some(fd2);
        Err(Error::Os { code: -ret })
    }
}

/// Submits a write from the buffer's readable region, taking the
/// descriptor's owner out of its slot for the kernel's duration.
pub fn write_buf<T: TrustedAsRawFd>(
    p: &mut Proactor,
    fd: &mut Option<T>,
    buf: Buffer,
    offset: Option<u32>,
) -> (r: Result<Action<(T, Buffer)>, Error>)
    requires
        old(p).wf(),
        old(p).tickets.slots@.len() + 1 + FIRST_TICKET < u64::MAX,
        buf.wf(),
        buf.readable().len() <= u32::MAX,
    ensures
        final(p).wf(),
        (*old(fd)) is None ==> {
            &&& r == Err::<Action<(T, Buffer)>, Error>(Error::NotFound)
            &&& (*final(fd)) is None
            &&& *final(p) == *old(p)
        },
        (*old(fd)) is Some ==> (*final(fd)) is None && match r {
            Ok(a) => {
                &&& a.hold == ((*old(fd))->0, buf)
                &&& a.wf(&final(p).tickets)
                &&& final(p).sq@ == old(p).sq@.push(
                    (SubmissionEntry {
                        op: OpCode::Write {
                            fd: (*old(fd))->0.spec_fd(),
                            len: buf.readable().len() as u32,
                            offset: spec_offset_of(offset),
                        },
                        user_data: a.ticket.id,
                    }),
                )
            },
            Err(e) => e == Error::QueueFull && old(p).sq@.len() == old(p).sq_cap,
        },
{
    let fd2 = match fd.take() {
        Some(fd2) => fd2,
        None => {
            return Err(not_found());
        },
    };
    let len = buf.remaining() as u32;
    let op = OpCode::Write { fd: fd2.stable_fd(), len, offset: offset_of(offset) };
    match action(p, (fd2, buf), SubmissionEntry::new(op)) {
        Ok(a) => Ok(a),
        Err(e) => Err(e.into_error()),
    }
}

/// Applies a write completion: a nonnegative result consumes exactly
/// that many readable bytes (a zero-length write consumes nothing and
/// leaves the buffer unchanged); a negative result is the negated OS
/// error, and the descriptor's owner is put back into its slot.
pub fn write_buf_complete<T>(
    hold: (T, Buffer),
    entry: CompletionEntry,
    fd: &mut Option<T>,
) -> (r: Result<(T, Buffer), Error>)
    requires
        hold.1.wf(),
        entry.result > i32::MIN,
        entry.result >= 0 ==> entry.result <= hold.1.readable().len(),
    ensures
        entry.result >= 0 ==> {
            &&& r matches Ok((t, b)) && t == hold.0 && b.wf()
                && b.readable() == hold.1.readable().skip(entry.result as int)
                && b.spec_written() == hold.1.spec_written()
                && b.spec_consumed() == hold.1.spec_consumed() + entry.result
                && b.storage() == hold.1.storage()
            &&& *final(fd) == *old(fd)
            &&& entry.result == 0 ==> (r matches Ok((t2, b2)) && b2.readable()
                == hold.1.readable())
        },
        entry.result < 0 ==> {
            &&& r == Err::<(T, Buffer), Error>(Error::Os { code: -entry.result as i32 })
            &&& *final(fd) == Some(hold.0)
        },
{
    let (fd2, mut buf) = hold;
    let ret = entry.result;
    if ret >= 0 {
        buf.advance(ret as usize);
        proof {
            if entry.result == 0 {
                assert(buf.readable() =~= hold.1.readable());
            }
        }
        Ok((fd2, buf))
    } else {
        *fd = Some(fd2);
        Err(Error::Os { code: -ret })
    }
}

} // verus!
