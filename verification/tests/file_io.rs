//! File and buffer operations against a simulated disk: round trips,
//! end-of-file and zero-length boundaries, and the cat scenario.

use ritsu::action::ActionPoll;
use ritsu::error::Error;
use ritsu::fs::{open, open_complete, read_at_complete, write_at_complete, File};
use ritsu::io::{not_found, read_buf, read_buf_complete, write_buf, write_buf_complete, Fd};
use ritsu::proactor::Proactor;
use ritsu::ring::{CompletionEntry, OpCode, SubmissionEntry};
use ritsu::util::Buffer;

/// A simulated disk: one growable byte file, completed synchronously.
struct SimDisk {
    file: Vec<u8>,
}

impl SimDisk {
    fn new() -> SimDisk {
        SimDisk { file: Vec::new() }
    }

    /// Completes one submission against the file, writing read bytes
    /// into `buf`'s storage the way the kernel would.
    fn complete(&mut self, entry: SubmissionEntry, buf: Option<&mut Buffer>) -> CompletionEntry {
        match entry.op {
            OpCode::Read { len, offset, .. } => {
                let buf = buf.unwrap();
                let start = offset.max(0) as usize;
                let end = self.file.len().min(start + len as usize);
                let n = end.saturating_sub(start);
                let w = buf.wlen;
                for i in 0..n {
                    buf.set_byte(w + i, self.file[start + i]);
                }
                CompletionEntry { user_data: entry.user_data, result: n as i32 }
            }
            OpCode::Write { len, offset, .. } => {
                let buf = buf.unwrap();
                let start = offset.max(0) as usize;
                if self.file.len() < start + len as usize {
                    self.file.resize(start + len as usize, 0);
                }
                for i in 0..len as usize {
                    self.file[start + i] = buf.read_byte(i);
                }
                CompletionEntry { user_data: entry.user_data, result: len as i32 }
            }
            _ => CompletionEntry { user_data: entry.user_data, result: 0 },
        }
    }
}

fn buffer_from(bytes: &[u8]) -> Buffer {
    let mut b = Buffer::new(bytes.len());
    b.put_slice(bytes);
    b
}

fn readable_bytes(b: &Buffer) -> Vec<u8> {
    let mut out = Vec::new();
    for i in 0..b.remaining() {
        out.push(b.read_byte(i));
    }
    out
}

#[test]
fn write_then_read_round_trips() {
    let mut p = Proactor::new(8);
    let mut disk = SimDisk::new();
    let file = File::from_raw(3);
    let payload = b"proactor payload";

    let act = file.write_at(&mut p, 64, buffer_from(payload)).ok().unwrap();
    let mut batch = p.submit();
    let entry = batch.pop().unwrap();
    match act.poll(&mut p.tickets, 1) {
        ActionPoll::Pending { action } => {
            let mut wbuf = match action.poll(&mut p.tickets, 1) {
                ActionPoll::Pending { action } => action.hold,
                ActionPoll::Ready { .. } => unreachable!(),
            };
            // Complete by hand: the sim writes from the held buffer.
            let cqe = disk.complete(entry, Some(&mut wbuf));
            let done = write_at_complete(wbuf, cqe).unwrap();
            assert_eq!(done.remaining(), 0);
        }
        ActionPoll::Ready { .. } => panic!(),
    }

    let act = file.read_at(&mut p, 64, Buffer::new(payload.len())).ok().unwrap();
    let mut batch = p.submit();
    let entry = batch.pop().unwrap();
    let mut rbuf = match act.poll(&mut p.tickets, 1) {
        ActionPoll::Pending { action } => action.hold,
        ActionPoll::Ready { .. } => unreachable!(),
    };
    let cqe = disk.complete(entry, Some(&mut rbuf));
    let done = read_at_complete(rbuf, cqe).unwrap();
    assert_eq!(readable_bytes(&done), payload.to_vec());
}

#[test]
fn empty_read_at_eof_gives_zero_and_empty_buffer() {
    let buf = Buffer::new(32);
    let cqe = CompletionEntry { user_data: 2, result: 0 };
    let done = read_at_complete(buf, cqe).unwrap();
    assert_eq!(done.remaining(), 0);
}

#[test]
fn zero_length_write_gives_zero_and_unchanged_buffer() {
    let buf = buffer_from(b"abc");
    let cqe = CompletionEntry { user_data: 2, result: 0 };
    let done = write_at_complete(buf, cqe).unwrap();
    assert_eq!(readable_bytes(&done), b"abc".to_vec());
}

#[test]
fn negative_result_translates_to_os_error() {
    let buf = Buffer::new(8);
    let cqe = CompletionEntry { user_data: 2, result: -5 };
    match read_at_complete(buf, cqe) {
        Err(Error::Os { code }) => assert_eq!(code, 5),
        _ => panic!(),
    }
}

#[test]
fn read_buf_takes_and_returns_the_descriptor() {
    let mut p = Proactor::new(8);
    let mut slot = Some(Fd(5));
    let act = read_buf(&mut p, &mut slot, Buffer::new(16), Some(0)).ok().unwrap();
    assert!(slot.is_none());
    // A failed completion puts the descriptor back.
    let hold = act.hold;
    let cqe = CompletionEntry { user_data: 2, result: -9 };
    match read_buf_complete(hold, cqe, &mut slot) {
        Err(Error::Os { code }) => assert_eq!(code, 9),
        _ => panic!(),
    }
    assert_eq!(slot, Some(Fd(5)));
}

#[test]
fn read_buf_on_empty_slot_reports_not_found() {
    let mut p = Proactor::new(8);
    let mut slot: Option<Fd> = None;
    match read_buf(&mut p, &mut slot, Buffer::new(16), None) {
        Err(e) => assert_eq!(e, not_found()),
        Ok(_) => panic!(),
    }
}

#[test]
fn write_buf_success_consumes_written_bytes() {
    let mut p = Proactor::new(8);
    let mut slot = Some(Fd(5));
    let act = write_buf(&mut p, &mut slot, buffer_from(b"hello"), None).ok().unwrap();
    let cqe = CompletionEntry { user_data: 2, result: 3 };
    let (fd, buf) = write_buf_complete(act.hold, cqe, &mut slot).unwrap();
    assert_eq!(fd, Fd(5));
    assert_eq!(readable_bytes(&buf), b"lo".to_vec());
}

#[test]
fn open_rejects_interior_nul() {
    let mut p = Proactor::new(8);
    match open(&mut p, vec![b'a', 0, b'b']) {
        Err(e) => assert_eq!(e, Error::InvalidPath),
        Ok(_) => panic!(),
    }
}

#[test]
fn open_stages_and_completion_yields_descriptor() {
    let mut p = Proactor::new(8);
    let act = open(&mut p, b"data.txt".to_vec()).ok().unwrap();
    assert_eq!(act.hold, b"data.txt".to_vec());
    let file = open_complete(CompletionEntry { user_data: act.ticket.id, result: 7 }).unwrap();
    assert_eq!(file.fd, 7);
    match open_complete(CompletionEntry { user_data: 2, result: -2 }) {
        Err(Error::Os { code }) => assert_eq!(code, 2),
        _ => panic!(),
    }
}

#[test]
fn cat_copies_exactly_the_file() {
    // data.txt holds "hello\n"; read in big chunks at the current
    // position, write each chunk out, until a read returns 0.
    let mut p = Proactor::new(8);
    let mut disk = SimDisk::new();
    disk.file = b"hello\n".to_vec();
    let mut out = SimDisk::new();
    let src = File::from_raw(4);
    let dst = File::from_raw(1);

    let mut pos: i64 = 0;
    let mut written: usize = 0;
    loop {
        let act = src.read_at(&mut p, pos, Buffer::new(32 * 1024)).ok().unwrap();
        let entry = p.submit().pop().unwrap();
        let mut buf = match act.poll(&mut p.tickets, 1) {
            ActionPoll::Pending { action } => action.hold,
            ActionPoll::Ready { .. } => unreachable!(),
        };
        let cqe = disk.complete(entry, Some(&mut buf));
        let got = read_at_complete(buf, cqe).unwrap();
        let n = got.remaining();
        if n == 0 {
            break;
        }
        pos += n as i64;
        let act = dst.write_at(&mut p, written as i64, got).ok().unwrap();
        let entry = p.submit().pop().unwrap();
        let mut wbuf = match act.poll(&mut p.tickets, 1) {
            ActionPoll::Pending { action } => action.hold,
            ActionPoll::Ready { .. } => unreachable!(),
        };
        let cqe = out.complete(entry, Some(&mut wbuf));
        write_at_complete(wbuf, cqe).unwrap();
        written += n;
    }
    assert_eq!(written, 6);
    assert_eq!(out.file, b"hello\n".to_vec());
}

#[test]
fn positional_random_blocks_round_trip() {
    // 128 distinct 4 KiB blocks written at block_i * 4096, read back
    // in shuffled order; every block must match.
    let mut p = Proactor::new(8);
    let mut disk = SimDisk::new();
    let file = File::from_raw(6);
    let blocks: usize = 128;
    let size: usize = 4096;

    for i in 0..blocks {
        let mut data = vec![0u8; size];
        for (j, b) in data.iter_mut().enumerate() {
            *b = ((i * 31 + j) % 256) as u8;
        }
        let act = file.write_at(&mut p, (i * size) as i64, buffer_from(&data)).ok().unwrap();
        let entry = p.submit().pop().unwrap();
        let mut buf = match act.poll(&mut p.tickets, 1) {
            ActionPoll::Pending { action } => action.hold,
            ActionPoll::Ready { .. } => unreachable!(),
        };
        let cqe = disk.complete(entry, Some(&mut buf));
        write_at_complete(buf, cqe).unwrap();
    }

    let opts = ritsu::fsreader::Options {
        target: String::new(),
        mode: ritsu::fsreader::IoMode::AsyncBuffered,
        access: ritsu::fsreader::AccessMode::Random,
        bufsize: size,
        count: 1,
        seed: Some(0x5eed),
    };
    let order = ritsu::fsreader::plan((blocks * size) as u64, &opts);
    assert_eq!(order.len(), blocks);

    for off in order {
        let i = off as usize / size;
        let act = file.read_at(&mut p, off as i64, Buffer::new(size)).ok().unwrap();
        let entry = p.submit().pop().unwrap();
        let mut buf = match act.poll(&mut p.tickets, 1) {
            ActionPoll::Pending { action } => action.hold,
            ActionPoll::Ready { .. } => unreachable!(),
        };
        let cqe = disk.complete(entry, Some(&mut buf));
        let got = read_at_complete(buf, cqe).unwrap();
        let bytes = readable_bytes(&got);
        assert_eq!(bytes.len(), size);
        for (j, b) in bytes.iter().enumerate() {
            assert_eq!(*b, ((i * 31 + j) % 256) as u8);
        }
    }
}
