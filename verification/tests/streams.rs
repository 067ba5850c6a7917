//! The streaming machines: buffered halves, the single-buffer machine,
//! the vectored file machine, readiness, timers, and the echo scenario.

use ritsu::action::ActionPoll;
use ritsu::bufio::{AsyncBufIo, FillStep, FlushStep, ShutdownStep, WriteOut};
use ritsu::error::Error;
use ritsu::fs::{FileIo, ReadStep, WriteStep};
use ritsu::io::Fd;
use ritsu::iohelp::{IoFlush, IoInner, IoRead};
use ritsu::poll::{ReadyExt, READABLE};
use ritsu::proactor::Proactor;
use ritsu::ring::{CompletionEntry, OpCode, SubmissionEntry};
use ritsu::timeout::{Timer, Timespec};
use ritsu::unsync::{AndFuture, AndInner};
use ritsu::util::Buffer;

/// A simulated byte stream: reads drain `input`, writes append to
/// `output`, everything completes in submission order.
struct SimStream {
    input: Vec<u8>,
    output: Vec<u8>,
    pos: usize,
}

impl SimStream {
    fn new(input: &[u8]) -> SimStream {
        SimStream { input: input.to_vec(), output: Vec::new(), pos: 0 }
    }

    /// Completes one entry; read data is written through `buf`.
    fn complete(&mut self, entry: SubmissionEntry, buf: Option<&mut Buffer>) -> CompletionEntry {
        match entry.op {
            OpCode::Read { len, .. } => {
                let buf = buf.unwrap();
                let n = (self.input.len() - self.pos).min(len as usize);
                let w = buf.wlen;
                for i in 0..n {
                    buf.set_byte(w + i, self.input[self.pos + i]);
                }
                self.pos += n;
                CompletionEntry { user_data: entry.user_data, result: n as i32 }
            }
            OpCode::Write { len, .. } => {
                let buf = buf.unwrap();
                for i in 0..len as usize {
                    self.output.push(buf.read_byte(i));
                }
                CompletionEntry { user_data: entry.user_data, result: len as i32 }
            }
            _ => CompletionEntry { user_data: entry.user_data, result: 0 },
        }
    }
}

#[test]
fn buffered_echo_round_trips_ping() {
    // The echo loop: read until the peer closes, writing every chunk
    // back.  The peer sends "PING" and then end of stream.
    let mut p = Proactor::new(16);
    let mut stream = SimStream::new(b"PING");
    let mut io = AsyncBufIo::with_capacity(Fd(7), 16);
    let (rh, wh) = io.split_ref();
    let mut echoed: Vec<u8> = Vec::new();
    loop {
        match rh.fill_step(&mut p, 1).unwrap() {
            FillStep::Started => {
                let entry = p.submit().pop().unwrap();
                let cqe = stream.complete(entry, Some(rh.readbuf.inner_mut()));
                p.consume(cqe);
            }
            FillStep::Pending => (),
            FillStep::Filled => {
                let mut chunk: Vec<u8> = Vec::new();
                let n = rh.read_copy(&mut chunk, 16);
                assert!(n > 0);
                // Write the chunk back through the write half.
                let mut sent = 0;
                while sent < chunk.len() {
                    match wh.write_step(&mut p, 1, &chunk[sent..]).unwrap() {
                        WriteOut::Wrote { n } => sent += n,
                        WriteOut::Pending => {
                            let entry = p.submit().pop().unwrap();
                            let cqe = stream.complete(entry, Some(wh.writebuf.inner_mut()));
                            p.consume(cqe);
                        }
                    }
                }
                echoed.extend_from_slice(&chunk);
            }
            FillStep::Eof => break,
        }
    }
    // Flush what stayed batched.
    loop {
        match wh.flush_step(&mut p, 1).unwrap() {
            FlushStep::Done => break,
            FlushStep::Started | FlushStep::Pending => {
                if let Some(entry) = p.submit().pop() {
                    let cqe = stream.complete(entry, Some(wh.writebuf.inner_mut()));
                    p.consume(cqe);
                }
            }
        }
    }
    assert_eq!(echoed, b"PING".to_vec());
    assert_eq!(stream.output, b"PING".to_vec());
    // Shutdown closes the descriptor.
    loop {
        match wh.shutdown_step(&mut p, 1).unwrap() {
            ShutdownStep::Done => break,
            ShutdownStep::Pending => {
                if let Some(entry) = p.submit().pop() {
                    assert!(matches!(entry.op, OpCode::Close { fd: 7 }));
                    p.consume(stream.complete(entry, None));
                }
            }
        }
    }
}

#[test]
fn single_buffer_machine_reads_and_flushes() {
    let mut p = Proactor::new(8);
    let mut stream = SimStream::new(b"abc");
    let mut m = IoInner::from_raw(9);

    assert!(matches!(m.read_step(&mut p, 1).unwrap(), IoRead::Started));
    let entry = p.submit().pop().unwrap();
    let buf_ref = match &mut m.state {
        ritsu::iohelp::IoState::Reading { act } => &mut act.hold,
        _ => panic!(),
    };
    let cqe = stream.complete(entry, Some(buf_ref));
    p.consume(cqe);
    match m.read_step(&mut p, 1).unwrap() {
        IoRead::Data { buf } => {
            assert_eq!(buf.remaining(), 3);
            assert_eq!(buf.read_byte(0), b'a');
        }
        _ => panic!(),
    }

    // Writing: submit a buffer, flush it.
    let mut out = Buffer::new(8);
    out.put_slice(b"xyz");
    m.submit(out).unwrap();
    assert!(matches!(m.flush_step(&mut p, 1).unwrap(), IoFlush::Started));
    let entry = p.submit().pop().unwrap();
    let buf_ref = match &mut m.state {
        ritsu::iohelp::IoState::Writing { act } => &mut act.hold,
        _ => panic!(),
    };
    let cqe = stream.complete(entry, Some(buf_ref));
    p.consume(cqe);
    match m.flush_step(&mut p, 1).unwrap() {
        IoFlush::Flushed { buf } => assert_eq!(buf.remaining(), 0),
        _ => panic!(),
    }
    assert_eq!(stream.output, b"xyz".to_vec());

    // Flushing with nothing to write is refused.
    match m.flush_step(&mut p, 1) {
        Err(Error::WriteZero) => (),
        _ => panic!(),
    }
}

#[test]
fn vectored_machine_queues_and_flushes() {
    let mut p = Proactor::new(8);
    let mut m = FileIo::from_raw(3);
    let mut a = Buffer::new(4);
    a.put_slice(b"ab");
    let mut b = Buffer::new(4);
    b.put_slice(b"cd");
    m.push(a).unwrap();
    m.push(b).unwrap();
    match m.write_step(&mut p, 1).unwrap() {
        WriteStep::Started => (),
        _ => panic!(),
    }
    let entry = p.submit().pop().unwrap();
    assert!(matches!(entry.op, OpCode::Writev { fd: 3, nvecs: 2, offset: 0 }));
    p.consume(CompletionEntry { user_data: entry.user_data, result: 4 });
    match m.write_step(&mut p, 1).unwrap() {
        WriteStep::Flushed { n } => assert_eq!(n, 4),
        _ => panic!(),
    }
    // A read from the idle machine stages a scatter read.
    match m.read_step(&mut p, 1).unwrap() {
        ReadStep::Started => (),
        _ => panic!(),
    }
    let entry = p.submit().pop().unwrap();
    assert!(matches!(entry.op, OpCode::Readv { fd: 3, nvecs: 1, offset: 0 }));
    p.consume(CompletionEntry { user_data: entry.user_data, result: 0 });
    match m.read_step(&mut p, 1).unwrap() {
        ReadStep::Eof => (),
        _ => panic!(),
    }
    // Pushing while a read is staged is refused.
    match m.read_step(&mut p, 1).unwrap() {
        ReadStep::Started => (),
        _ => panic!(),
    }
    assert_eq!(m.push(Buffer::new(1)).unwrap_err(), Error::InvalidState);
}

#[test]
fn readiness_resolves_from_its_completion() {
    let mut p = Proactor::new(8);
    let mut fut = Fd(4).ready(&mut p, READABLE);
    let entry = p.submit().pop().unwrap();
    assert!(matches!(entry.op, OpCode::PollAdd { fd: 4, mask: READABLE }));
    assert!(fut.poll_step(&mut p.tickets, 1).is_none());
    p.consume(CompletionEntry { user_data: entry.user_data, result: 1 });
    assert_eq!(fut.poll_step(&mut p.tickets, 1), Some(Ok(())));
    // A one-shot stays pending after resolution.
    assert!(fut.poll_step(&mut p.tickets, 1).is_none());
}

#[test]
fn timer_locks_its_record_for_the_kernel() {
    let mut p = Proactor::new(8);
    let mut t = Timer::new();
    let act = t.delay_for(&mut p, Timespec { sec: 1, nsec: 500 }).ok().unwrap();
    assert!(t.timespec.is_locked());
    let entry = p.submit().pop().unwrap();
    assert!(matches!(entry.op, OpCode::Timeout { sec: 1, nsec: 500 }));
    // The kernel's timer code surfaces unchanged on expiry.
    p.consume(CompletionEntry { user_data: entry.user_data, result: -62 });
    match act.poll(&mut p.tickets, 1) {
        ActionPoll::Ready { entry, .. } => {
            assert_eq!(t.delay_complete(entry).unwrap_err(), Error::Os { code: 62 });
        }
        ActionPoll::Pending { .. } => panic!(),
    }
    assert!(!t.timespec.is_locked());
}

#[test]
fn and_future_resolves_value_or_error_once() {
    let mut p = Proactor::new(8);
    let act = ritsu::action::nop(&mut p).ok().unwrap();
    let mut fut: AndFuture<Error> = AndFuture::from_action(act);
    assert!(fut.poll(&mut p.tickets, 1).is_none());
    let entry = p.submit().pop().unwrap();
    p.consume(CompletionEntry { user_data: entry.user_data, result: 0 });
    match fut.poll(&mut p.tickets, 1) {
        Some(Ok(cqe)) => assert_eq!(cqe.result, 0),
        _ => panic!(),
    }
    assert!(matches!(fut.inner, AndInner::End));

    let mut failed: AndFuture<Error> = AndFuture::from_err(Error::Disconnected);
    match failed.poll(&mut p.tickets, 1) {
        Some(Err(Error::Disconnected)) => (),
        _ => panic!(),
    }
}

#[test]
fn lock_flag_follows_the_kernel_borrow() {
    let mut l = ritsu::util::MaybeLock::new(7u32);
    assert!(!l.is_locked());
    assert_eq!(*l.inner(), 7);
    l.start();
    assert!(l.is_locked());
    l.end();
    assert!(!l.is_locked());
    *l.inner_mut() = 9;
    assert_eq!(l.into_inner(), 9);
}

#[test]
fn cell_shim_passes_closures_through() {
    let cell = ritsu::loom::UnsafeCell::new(41u32);
    let got = cell.with(|v: &u32| *v);
    assert_eq!(got, 41);
    let (cell, old) = cell.with_mut(|v: u32| (v + 1, v));
    assert_eq!(old, 41);
    assert_eq!(cell.with(|v: &u32| *v), 42);
}
