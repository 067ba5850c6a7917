//! Error type shared by the runtime core.

use vstd::prelude::*;

verus! {

/// The errors that the runtime core reports to its callers.
///
/// Kernel failures are carried as the positive OS error code taken from a
/// negative completion result.  The remaining variants classify the
/// runtime's own failure conditions.
#[derive(Clone, Copy, Debug, PartialEq, Eq, Structural)]
pub enum Error {
    /// A kernel operation completed with `-code`; `code` is the OS error.
    Os { code: i32 },
    /// No file descriptor was available for the operation.
    NotFound,
    /// The submission queue is full and the entry was not enqueued.
    QueueFull,
    /// The ring owner is gone; the handle can no longer submit.
    Disconnected,
    /// A flush was requested while no data was buffered for writing.
    WriteZero,
    /// The state machine was asked for an operation its state forbids.
    InvalidState,
    /// A path contained an interior NUL byte and cannot reach the kernel.
    InvalidPath,
}

/// The error a negative completion result surfaces as: the negated OS
/// code, saturated where the result cannot be negated.
pub open spec fn spec_os_err(res: i32) -> Error {
    Error::Os {
        code: if res == i32::MIN {
            i32::MAX
        } else {
            (-res) as i32
        },
    }
}

impl Error {
    /// The OS error code, for kernel-reported failures.
    pub fn os_code(&self) -> (r: Option<i32>)
        ensures
            r == (if self is Os {
                Some(self->code)
            } else {
                None::<i32>
            }),
    {
        match self {
            Error::Os { code } => Some(*code),
            _ => None,
        }
    }
}

} // verus!
