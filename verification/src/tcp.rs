//! TCP operations: accepting, connecting, and stream reads and writes.
//!
//! Sockets are known to the core by their stable descriptors.  The
//! kernel-filled address record of an accept is an out-parameter that
//! only the embedding can decode; the core models it as an opaque slot
//! whose lock tracks the kernel's borrow.

use vstd::prelude::*;

use crate::action::{action, Action};
use crate::error::Error;
use crate::io::TrustedAsRawFd;
use crate::proactor::Proactor;
use crate::ring::{CompletionEntry, OpCode, SubmissionEntry, FIRST_TICKET};
use crate::util::{Buffer, MaybeLock};

verus! {

/// A socket address, as plain values the core can carry; the embedding
/// converts it to and from the kernel's record.
#[derive(Clone, Copy, Debug, PartialEq, Eq, Structural)]
pub enum SockAddr {
    /// An IPv4 address and port.
    V4 { ip: u32, port: u16 },
    /// An IPv6 address (as two 64-bit halves) and port.
    V6 { hi: u64, lo: u64, port: u16 },
}

/// The socket domain an address calls for.
#[derive(Clone, Copy, Debug, PartialEq, Eq, Structural)]
pub enum Domain {
    /// The IPv4 domain.
    Ipv4,
    /// The IPv6 domain.
    Ipv6,
}

/// The domain in which a socket must be created to reach `addr`.
pub fn domain_of(addr: &SockAddr) -> (r: Domain)
    ensures
        addr is V4 ==> r == Domain::Ipv4,
        addr is V6 ==> r == Domain::Ipv6,
{
    match addr {
        SockAddr::V4 { .. } => Domain::Ipv4,
        SockAddr::V6 { .. } => Domain::Ipv6,
    }
}

/// The kernel-filled address record of an accept.  Its bytes live in
/// the embedding; the core tracks only the kernel's borrow of it.
pub struct SockAddrBuf {
    /// Marks the slot as holding room for one address record.
    pub present: bool,
}

/// A listening socket together with the address out-parameter that each
/// accept lends to the kernel.
pub struct TcpListener {
    /// The listening descriptor.
    pub fd: i32,
    /// The address record slot, locked while an accept is in flight.
    pub sockaddr: MaybeLock<SockAddrBuf>,
}

impl TrustedAsRawFd for TcpListener {
    open spec fn spec_fd(&self) -> i32 {
        self.fd
    }

    fn stable_fd(&self) -> (r: i32) {
        self.fd
    }
}

impl TcpListener {
    /// Wraps a listening descriptor the embedding bound.
    pub fn from_raw(fd: i32) -> (r: TcpListener)
        ensures
            r.fd == fd,
            !r.sockaddr.spec_is_locked(),
    {
        TcpListener { fd, sockaddr: MaybeLock::new(SockAddrBuf { present: true }) }
    }

    /// Submits an accept.  The address slot is lent to the kernel for
    /// the duration: it is locked here and unlocked by the completion.
    pub fn accept(&mut self, p: &mut Proactor) -> (r: Result<Action<()>, Error>)
        requires
            old(p).wf(),
            old(p).tickets.slots@.len() + 1 + FIRST_TICKET < u64::MAX,
            !old(self).sockaddr.spec_is_locked(),
        ensures
            final(p).wf(),
            final(self).fd == old(self).fd,
            match r {
                Ok(a) => {
                    &&& a.wf(&final(p).tickets)
                    &&& final(self).sockaddr.spec_is_locked()
                    &&& final(p).sq@ == old(p).sq@.push(
                        (SubmissionEntry {
                            op: OpCode::Accept { fd: old(self).fd },
                            user_data: a.ticket.id,
                        }),
                    )
                },
                Err(e) => {
                    &&& e == Error::QueueFull
                    &&& old(p).sq@.len() == old(p).sq_cap
                    &&& !final(self).sockaddr.spec_is_locked()
                },
            },
    {
        let op = OpCode::Accept { fd: self.fd };
        match action(p, (), SubmissionEntry::new(op)) {
            Ok(a) => {
                self.sockaddr.start();
                Ok(a)
            },
            Err(e) => Err(e.into_error()),
        }
    }

    /// Applies an accept completion: the kernel's borrow of the address
    /// slot ends; a nonnegative result is the connection's descriptor,
    /// and the embedding decodes the peer address from the slot.
    pub fn accept_complete(&mut self, entry: CompletionEntry) -> (r: Result<TcpStream, Error>)
        requires
            entry.result > i32::MIN,
        ensures
            !final(self).sockaddr.spec_is_locked(),
            final(self).fd == old(self).fd,
            entry.result >= 0 ==> r == Ok::<TcpStream, Error>(TcpStream { fd: entry.result }),
            entry.result < 0 ==> r == Err::<TcpStream, Error>(
                Error::Os { code: -entry.result as i32 },
            ),
    {
        self.sockaddr.end();
        let ret = entry.result;
        if ret >= 0 {
            Ok(TcpStream { fd: ret })
        } else {
            Err(Error::Os { code: -ret })
        }
    }
}

/// The connector: holds the destination address alive while a connect
/// is in flight.
pub struct TcpConnector {
    /// The address lent to the kernel; present exactly while a connect
    /// is in flight.
    pub sockaddr: Option<SockAddr>,
}

impl TcpConnector {
    /// A connector with no connect in flight.
    pub fn new() -> (r: TcpConnector)
        ensures
            r.sockaddr is None,
    {
        TcpConnector { sockaddr: None }
    }

    /// Submits a connect of the (already created) socket `fd` to
    /// `addr`.  The address stays in the connector for the kernel's
    /// duration.  Only one connect may be in flight per connector.
    pub fn connect(&mut self, p: &mut Proactor, fd: i32, addr: SockAddr) -> (r: Result<
        Action<()>,
        Error,
    >)
        requires
            old(p).wf(),
            old(p).tickets.slots@.len() + 1 + FIRST_TICKET < u64::MAX,
            old(self).sockaddr is None,
        ensures
            final(p).wf(),
            match r {
                Ok(a) => {
                    &&& a.wf(&final(p).tickets)
                    &&& final(self).sockaddr == Some(addr)
                    &&& final(p).sq@ == old(p).sq@.push(
                        (SubmissionEntry {
                            op: OpCode::Connect { fd },
                            user_data: a.ticket.id,
                        }),
                    )
                },
                Err(e) => {
                    &&& e == Error::QueueFull
                    &&& old(p).sq@.len() == old(p).sq_cap
                    &&& final(self).sockaddr is None
                },
            },
    {
        let op = OpCode::Connect { fd };
        match action(p, (), SubmissionEntry::new(op)) {
            Ok(a) => {
                self.sockaddr = Some(addr);
                Ok(a)
            },
            Err(e) => Err(e.into_error()),
        }
    }

    /// Applies a connect completion: the address is released; a
    /// nonnegative result turns the socket into a connected stream.
    pub fn connect_complete(&mut self, fd: i32, entry: CompletionEntry) -> (r: Result<
        TcpStream,
        Error,
    >)
        requires
            entry.result > i32::MIN,
        ensures
            final(self).sockaddr is None,
            entry.result >= 0 ==> r == Ok::<TcpStream, Error>(TcpStream { fd }),
            entry.result < 0 ==> r == Err::<TcpStream, Error>(
                Error::Os { code: -entry.result as i32 },
            ),
    {
        self.sockaddr = None;
        let ret = entry.result;
        if ret >= 0 {
            Ok(TcpStream { fd })
        } else {
            Err(Error::Os { code: -ret })
        }
    }
}

/// A connected stream, known by its stable descriptor.
#[derive(Clone, Copy, Debug, PartialEq, Eq, Structural)]
pub struct TcpStream {
    /// The connected descriptor.
    pub fd: i32,
}

impl TrustedAsRawFd for TcpStream {
    open spec fn spec_fd(&self) -> i32 {
        self.fd
    }

    fn stable_fd(&self) -> (r: i32) {
        self.fd
    }
}

impl TcpStream {
    /// Wraps a connected descriptor the embedding obtained.
    pub fn from_raw(fd: i32) -> (r: TcpStream)
        ensures
            r.fd == fd,
    {
        TcpStream { fd }
    }

    /// Submits a streaming read into the buffer's writable region.  The
    /// buffer is held by the action; apply the completion with
    /// [`crate::fs::read_at_complete`].
    pub fn read(&self, p: &mut Proactor, buf: Buffer) -> (r: Result<Action<Buffer>, Error>)
        requires
            old(p).wf(),
            old(p).tickets.slots@.len() + 1 + FIRST_TICKET < u64::MAX,
            buf.wf(),
            buf.spec_capacity() - buf.spec_written() <= u32::MAX,
        ensures
            final(p).wf(),
            match r {
                Ok(a) => {
                    &&& a.hold == buf
                    &&& a.wf(&final(p).tickets)
                    &&& final(p).sq@ == old(p).sq@.push(
                        (SubmissionEntry {
                            op: OpCode::Read {
                                fd: self.fd,
                                len: (buf.spec_capacity() - buf.spec_written()) as u32,
                                offset: crate::io::STREAM_OFFSET,
                            },
                            user_data: a.ticket.id,
                        }),
                    )
                },
                Err(e) => e == Error::QueueFull && old(p).sq@.len() == old(p).sq_cap,
            },
    {
        let len = buf.remaining_mut() as u32;
        let op = OpCode::Read { fd: self.fd, len, offset: crate::io::STREAM_OFFSET };
        match action(p, buf, SubmissionEntry::new(op)) {
            Ok(a) => Ok(a),
            Err(e) => Err(e.into_error()),
        }
    }

    /// Submits a streaming write from the buffer's readable region.
    /// Apply the completion with [`crate::fs::write_at_complete`].
    pub fn write(&self, p: &mut Proactor, buf: Buffer) -> (r: Result<Action<Buffer>, Error>)
        requires
            old(p).wf(),
            old(p).tickets.slots@.len() + 1 + FIRST_TICKET < u64::MAX,
            buf.wf(),
            buf.readable().len() <= u32::MAX,
        ensures
            final(p).wf(),
            match r {
                Ok(a) => {
                    &&& a.hold == buf
                    &&& a.wf(&final(p).tickets)
                    &&& final(p).sq@ == old(p).sq@.push(
                        (SubmissionEntry {
                            op: OpCode::Write {
                                fd: self.fd,
                                len: buf.readable().len() as u32,
                                offset: crate::io::STREAM_OFFSET,
                            },
                            user_data: a.ticket.id,
                        }),
                    )
                },
                Err(e) => e == Error::QueueFull && old(p).sq@.len() == old(p).sq_cap,
            },
    {
        let len = buf.remaining() as u32;
        let op = OpCode::Write { fd: self.fd, len, offset: crate::io::STREAM_OFFSET };
        match action(p, buf, SubmissionEntry::new(op)) {
            Ok(a) => Ok(a),
            Err(e) => Err(e.into_error()),
        }
    }
}

} // verus!
