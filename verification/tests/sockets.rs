//! Socket operations: accept, connect, stream reads and writes, and
//! the error surface.

use ritsu::action::ActionPoll;
use ritsu::error::Error;
use ritsu::fs::{read_at_complete, write_at_complete};
use ritsu::proactor::Proactor;
use ritsu::ring::{CompletionEntry, OpCode};
use ritsu::tcp::{domain_of, Domain, SockAddr, TcpConnector, TcpListener, TcpStream};
use ritsu::util::Buffer;

#[test]
fn accept_locks_the_address_slot_for_the_kernel() {
    let mut p = Proactor::new(8);
    let mut listener = TcpListener::from_raw(10);
    let act = listener.accept(&mut p).ok().unwrap();
    assert!(listener.sockaddr.is_locked());
    let entry = p.submit().pop().unwrap();
    assert!(matches!(entry.op, OpCode::Accept { fd: 10 }));
    p.consume(CompletionEntry { user_data: entry.user_data, result: 33 });
    match act.poll(&mut p.tickets, 1) {
        ActionPoll::Ready { entry, .. } => {
            let stream = listener.accept_complete(entry).unwrap();
            assert_eq!(stream.fd, 33);
        }
        ActionPoll::Pending { .. } => panic!(),
    }
    assert!(!listener.sockaddr.is_locked());
}

#[test]
fn accept_failure_translates_the_code() {
    let mut p = Proactor::new(8);
    let mut listener = TcpListener::from_raw(10);
    let _act = listener.accept(&mut p).ok().unwrap();
    let entry = p.submit().pop().unwrap();
    let cqe = CompletionEntry { user_data: entry.user_data, result: -11 };
    match listener.accept_complete(cqe) {
        Err(Error::Os { code }) => assert_eq!(code, 11),
        _ => panic!(),
    }
}

#[test]
fn connect_holds_the_address_until_completion() {
    let mut p = Proactor::new(8);
    let mut c = TcpConnector::new();
    let addr = SockAddr::V4 { ip: 0x7f000001, port: 8080 };
    assert_eq!(domain_of(&addr), Domain::Ipv4);
    let act = c.connect(&mut p, 12, addr).ok().unwrap();
    assert_eq!(c.sockaddr, Some(addr));
    let entry = p.submit().pop().unwrap();
    assert!(matches!(entry.op, OpCode::Connect { fd: 12 }));
    p.consume(CompletionEntry { user_data: entry.user_data, result: 0 });
    match act.poll(&mut p.tickets, 1) {
        ActionPoll::Ready { entry, .. } => {
            let stream = c.connect_complete(12, entry).unwrap();
            assert_eq!(stream.fd, 12);
        }
        ActionPoll::Pending { .. } => panic!(),
    }
    assert!(c.sockaddr.is_none());
}

#[test]
fn v6_addresses_pick_the_v6_domain() {
    let addr = SockAddr::V6 { hi: 0, lo: 1, port: 443 };
    assert_eq!(domain_of(&addr), Domain::Ipv6);
}

#[test]
fn stream_read_and_write_use_streaming_offsets() {
    let mut p = Proactor::new(8);
    let s = TcpStream::from_raw(14);

    let mut buf = Buffer::new(8);
    buf.put_slice(b"PING");
    let act = s.write(&mut p, buf).ok().unwrap();
    let entry = p.submit().pop().unwrap();
    assert!(matches!(entry.op, OpCode::Write { fd: 14, len: 4, offset: -1 }));
    p.consume(CompletionEntry { user_data: entry.user_data, result: 4 });
    match act.poll(&mut p.tickets, 1) {
        ActionPoll::Ready { value, entry } => {
            let done = write_at_complete(value, entry).unwrap();
            assert_eq!(done.remaining(), 0);
        }
        ActionPoll::Pending { .. } => panic!(),
    }

    let act = s.read(&mut p, Buffer::new(8)).ok().unwrap();
    let entry = p.submit().pop().unwrap();
    assert!(matches!(entry.op, OpCode::Read { fd: 14, len: 8, offset: -1 }));
    p.consume(CompletionEntry { user_data: entry.user_data, result: 0 });
    match act.poll(&mut p.tickets, 1) {
        ActionPoll::Ready { value, entry } => {
            let done = read_at_complete(value, entry).unwrap();
            assert_eq!(done.remaining(), 0);
        }
        ActionPoll::Pending { .. } => panic!(),
    }
}

#[test]
fn error_codes_are_distinguishable() {
    assert_eq!(Error::Os { code: 2 }.os_code(), Some(2));
    assert_eq!(Error::NotFound.os_code(), None);
    assert_ne!(Error::QueueFull, Error::Disconnected);
    assert_ne!(Error::WriteZero, Error::InvalidState);
    assert_ne!(Error::InvalidPath, Error::NotFound);
    assert_eq!(ritsu::util::ioret(7), Ok(7));
    assert_eq!(ritsu::util::ioret(-2), Err(Error::Os { code: 2 }));
}
