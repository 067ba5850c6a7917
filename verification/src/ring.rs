//! Plain-value models of the kernel ring entries.
//!
//! A submission entry describes one kernel operation together with a
//! 64-bit user-data tag; a completion entry carries the tag back with a
//! signed result.  The embedding translates these records to and from the
//! kernel's fixed-size entries; the verified core only ever sees the plain
//! values below.

use vstd::prelude::*;

verus! {

/// Tag reserved for the wake read armed by the ring owner itself.
pub const WAKE_TOKEN: u64 = 0x0;

/// Tag reserved for fire-and-forget submissions such as a cancel.
pub const EMPTY_TOKEN: u64 = 0x1;

/// The smallest tag value that may identify a ticket.
pub const FIRST_TICKET: u64 = 0x2;

/// Whether a tag is one of the two reserved sentinel values.
pub open spec fn spec_is_reserved(tag: u64) -> bool {
    tag == WAKE_TOKEN || tag == EMPTY_TOKEN
}

/// Whether a tag is one of the two reserved sentinel values.
pub fn is_reserved(tag: u64) -> (r: bool)
    ensures
        r == spec_is_reserved(tag),
{
    tag == WAKE_TOKEN || tag == EMPTY_TOKEN
}

/// One kernel operation, described by plain values.
///
/// Buffer addresses never appear here: the value a submission reads from
/// or writes into is owned by the action that submitted it, and the
/// embedding resolves the address when it translates the entry.  An
/// `offset` of -1 selects the descriptor's own file position (streaming);
/// any other value is an explicit position.
#[derive(Clone, Copy, Debug, PartialEq, Eq, Structural)]
pub enum OpCode {
    /// No operation; completes immediately with result 0.
    Nop,
    /// Read up to `len` bytes into the submitter's buffer.
    Read { fd: i32, len: u32, offset: i64 },
    /// Write up to `len` bytes from the submitter's buffer.
    Write { fd: i32, len: u32, offset: i64 },
    /// Scatter read into `nvecs` buffers.
    Readv { fd: i32, nvecs: u32, offset: i64 },
    /// Gather write from `nvecs` buffers.
    Writev { fd: i32, nvecs: u32, offset: i64 },
    /// Open the path held by the submitter, relative to the working
    /// directory.
    OpenAt,
    /// Accept one connection on a listening socket.
    Accept { fd: i32 },
    /// Connect the socket to the address held by the submitter.
    Connect { fd: i32 },
    /// Wait until the descriptor is ready for the events in `mask`.
    PollAdd { fd: i32, mask: u32 },
    /// Complete after the given monotonic duration.
    Timeout { sec: u64, nsec: u32 },
    /// Synchronize a file; `datasync` skips the metadata.
    Fsync { fd: i32, datasync: bool },
    /// Cancel the in-flight submission tagged `target`.
    AsyncCancel { target: u64 },
    /// Close the descriptor.
    Close { fd: i32 },
}

/// A submission-queue entry: an operation plus its user-data tag.
#[derive(Clone, Copy, Debug, PartialEq, Eq, Structural)]
pub struct SubmissionEntry {
    /// The operation to perform.
    pub op: OpCode,
    /// The tag the kernel will echo in the completion.
    pub user_data: u64,
}

impl SubmissionEntry {
    /// Describes an operation with the tag still unset.
    pub fn new(op: OpCode) -> (r: SubmissionEntry)
        ensures
            r.op == op,
            r.user_data == EMPTY_TOKEN,
    {
        SubmissionEntry { op, user_data: EMPTY_TOKEN }
    }

    /// Replaces the tag.
    pub fn with_user_data(self, tag: u64) -> (r: SubmissionEntry)
        ensures
            r.op == self.op,
            r.user_data == tag,
    {
        SubmissionEntry { op: self.op, user_data: tag }
    }
}

/// A completion-queue entry: the original tag plus a signed result.
/// A nonnegative result is the success payload; a negative one is the
/// negated OS error code.
#[derive(Clone, Copy, Debug, PartialEq, Eq, Structural)]
pub struct CompletionEntry {
    /// The tag of the submission this completion answers.
    pub user_data: u64,
    /// The signed kernel result.
    pub result: i32,
}

impl CompletionEntry {
    /// The tag of the submission this completion answers.
    pub fn user_data(&self) -> (r: u64)
        ensures
            r == self.user_data,
    {
        self.user_data
    }

    /// The signed kernel result.
    pub fn result(&self) -> (r: i32)
        ensures
            r == self.result,
    {
        self.result
    }
}

} // verus!
