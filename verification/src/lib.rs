//! A single-threaded proactor-style asynchronous I/O runtime core.
//!
//! The crate verifies the decision logic of a completion-based I/O runtime:
//! the cross-thread wake signal, the one-shot ticket rendezvous between a
//! submitted operation and the task awaiting it, the submission queue with
//! its back-pressure discipline, the park/dispatch loop of the ring owner,
//! and the per-operation completion handling.  The kernel ring itself and
//! every raw descriptor live outside the verified core; an embedding runs
//! the loop, performs the system calls, and feeds plain completion records
//! back into the verified state machines.

pub mod action;
pub mod bufio;
pub mod error;
pub mod fs;
pub mod fsreader;
pub mod handle;
pub mod io;
pub mod loom;
pub mod iohelp;
pub mod oneshot;
pub mod poll;
pub mod tcp;
pub mod timeout;
pub mod proactor;
pub mod ticket;
pub mod ring;
pub mod wake;
pub mod unsync;
pub mod util;

pub use error::Error;
pub use handle::Handle;
pub use proactor::Proactor;
pub use ring::{CompletionEntry, SubmissionEntry};
pub use ticket::{Ticket, TicketFuture};
pub use util::ioret;
pub use wake::WakeSignal;
