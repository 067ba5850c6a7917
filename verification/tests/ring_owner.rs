//! The ring owner driven against a simulated kernel: dispatch, the
//! park cycle, back-pressure, cancellation, and the retry policy.

use ritsu::action::{action, cancel, nop, nop_complete, ActionPoll, Cancelled};
use ritsu::error::Error;
use ritsu::proactor::{
    choose_wait, saw_wake_completion, should_retry, ArmOutcome, Proactor, WaitKind,
    BUSY_RETRY_LIMIT, EBUSY,
};
use ritsu::ring::{CompletionEntry, OpCode, SubmissionEntry, EMPTY_TOKEN, WAKE_TOKEN};
use ritsu::timeout::{sleep, Timespec};

/// A toy kernel: completes every submission in order, nops with 0,
/// timeouts with the timer code, cancels by discarding; a wake read
/// completes only when a wake write happened.
struct SimKernel {
    pending: Vec<SubmissionEntry>,
}

const ETIME: i32 = 62;
const ECANCELED: i32 = 125;

impl SimKernel {
    fn new() -> SimKernel {
        SimKernel { pending: Vec::new() }
    }

    fn accept(&mut self, batch: Vec<SubmissionEntry>) {
        self.pending.extend(batch);
    }

    fn run(&mut self, wake_written: bool) -> Vec<CompletionEntry> {
        let mut out = Vec::new();
        let mut keep = Vec::new();
        let entries: Vec<SubmissionEntry> = self.pending.drain(..).collect();
        let mut cancelled: Vec<u64> = Vec::new();
        for e in &entries {
            if let OpCode::AsyncCancel { target } = e.op {
                cancelled.push(target);
            }
        }
        for e in entries {
            match e.op {
                OpCode::Read { .. } if e.user_data == WAKE_TOKEN => {
                    if wake_written {
                        out.push(CompletionEntry { user_data: WAKE_TOKEN, result: 8 });
                    } else {
                        keep.push(e);
                    }
                }
                OpCode::Nop => out.push(CompletionEntry { user_data: e.user_data, result: 0 }),
                OpCode::Timeout { .. } => {
                    let res = if cancelled.contains(&e.user_data) { -ECANCELED } else { -ETIME };
                    out.push(CompletionEntry { user_data: e.user_data, result: res });
                }
                OpCode::AsyncCancel { .. } => {
                    out.push(CompletionEntry { user_data: e.user_data, result: 0 });
                }
                _ => out.push(CompletionEntry { user_data: e.user_data, result: 0 }),
            }
        }
        self.pending = keep;
        out
    }
}

#[test]
fn nop_always_completes_successfully() {
    let mut p = Proactor::new(8);
    let mut kernel = SimKernel::new();
    let act = nop(p.handle()).ok().unwrap();
    kernel.accept(p.submit());
    for entry in kernel.run(false) {
        p.consume(entry);
    }
    match act.poll(&mut p.tickets, 1) {
        ActionPoll::Ready { value: (), entry } => {
            assert_eq!(entry.result, 0);
            assert!(nop_complete(entry).is_ok());
        }
        ActionPoll::Pending { .. } => panic!(),
    }
}

#[test]
fn park_with_no_submissions_consumes_no_tickets() {
    let mut p = Proactor::new(8);
    let mut kernel = SimKernel::new();
    // One pending ticket that must survive the whole park cycle.
    let act = nop(&mut p).ok().unwrap();
    let live_before = p.tickets.live_count();

    let (state, nowait) = p.park_prepare(false, false);
    // The fresh signal is READY, so the sleep is skipped.
    assert!(nowait);
    if !state.is_parking() {
        match p.park_arm(99) {
            ArmOutcome::Armed => (),
            ArmOutcome::NeedFlush => panic!(),
        }
    }
    assert_eq!(choose_wait(nowait, false), WaitKind::SubmitOnly);
    kernel.accept(p.submit());
    // No wake was written and the nop completion is not yet consumed:
    // drain whatever the kernel has, then finish the park.
    for entry in kernel.run(false) {
        if entry.user_data != WAKE_TOKEN && entry.user_data != EMPTY_TOKEN {
            // Leave ticket completions for the awaiting task's poll.
            p.consume(entry);
        }
    }
    p.park_finish();
    assert_eq!(p.tickets.live_count(), live_before);
    // The ticket still resolves afterwards.
    match act.poll(&mut p.tickets, 1) {
        ActionPoll::Ready { .. } => (),
        ActionPoll::Pending { .. } => panic!(),
    }
}

#[test]
fn wake_read_dispatch_unparks() {
    let mut p = Proactor::new(8);
    let mut kernel = SimKernel::new();
    // Consume the initial readiness so this window starts clean.
    p.park_finish();
    let (state, _nowait) = p.park_prepare(false, false);
    assert!(!state.is_parking());
    match p.park_arm(99) {
        ArmOutcome::Armed => (),
        ArmOutcome::NeedFlush => panic!(),
    }
    kernel.accept(p.submit());
    // A foreign thread wakes once; further wakes coalesce.
    let mut writes = 0;
    for _ in 0..100 {
        if p.eventfd.wake() {
            writes += 1;
        }
    }
    assert_eq!(writes, 1);
    let cqes = kernel.run(writes == 1);
    assert!(saw_wake_completion(&cqes));
    let mut wake_reads = 0;
    for entry in cqes {
        if entry.user_data == WAKE_TOKEN {
            wake_reads += 1;
        }
        p.consume(entry);
    }
    assert_eq!(wake_reads, 1);
    assert!(!p.eventfd.load().is_parking());
    p.park_finish();
    assert!(!p.eventfd.load().is_ready());
}

#[test]
fn backpressure_loses_no_submission() {
    let cap = 64;
    let total = 4096;
    let mut p = Proactor::new(cap);
    let mut kernel = SimKernel::new();
    let mut actions = Vec::new();
    let mut i = 0;
    while i < total {
        match nop(&mut p) {
            Ok(act) => {
                actions.push(act);
                i += 1;
            }
            Err(e) => {
                assert_eq!(e.into_error(), Error::QueueFull);
                assert!(p.sq_is_full());
                kernel.accept(p.submit());
            }
        }
    }
    kernel.accept(p.submit());
    let wakes = p.consume_all(&kernel.run(false));
    assert!(wakes.is_empty());
    // Every nop resolved; none was lost.
    let mut resolved = 0;
    for act in actions {
        match act.poll(&mut p.tickets, 1) {
            ActionPoll::Ready { entry, .. } => {
                assert_eq!(entry.result, 0);
                resolved += 1;
            }
            ActionPoll::Pending { .. } => panic!(),
        }
    }
    assert_eq!(resolved, total);
    assert_eq!(p.tickets.live_count(), 0);
}

#[test]
fn cancellation_frees_ring_for_further_submissions() {
    let mut p = Proactor::new(8);
    let mut kernel = SimKernel::new();
    let act = sleep(&mut p, Timespec { sec: 10, nsec: 0 }).ok().unwrap();
    kernel.accept(p.submit());
    // Give the action up before its completion: a cancel is staged and
    // the duration record is parked in the orphan.
    let orphan = match cancel(&mut p, act) {
        Cancelled::Waiting { orphan } => orphan,
        _ => panic!(),
    };
    kernel.accept(p.submit());
    for entry in kernel.run(false) {
        p.consume(entry);
    }
    // The cancel-induced completion arrived; the orphan releases.
    let dur = orphan.try_release(&mut p.tickets).ok().unwrap();
    assert_eq!(dur.sec, 10);
    assert_eq!(p.tickets.live_count(), 0);
    // The ring still accepts and resolves further submissions.
    let act = nop(&mut p).ok().unwrap();
    kernel.accept(p.submit());
    for entry in kernel.run(false) {
        p.consume(entry);
    }
    match act.poll(&mut p.tickets, 1) {
        ActionPoll::Ready { entry, .. } => assert!(nop_complete(entry).is_ok()),
        ActionPoll::Pending { .. } => panic!(),
    }
}

#[test]
fn dropping_an_action_mid_flight_never_panics() {
    let mut p = Proactor::new(8);
    let mut kernel = SimKernel::new();
    let act = sleep(&mut p, Timespec { sec: 10, nsec: 0 }).ok().unwrap();
    kernel.accept(p.submit());
    drop(act);
    for entry in kernel.run(false) {
        p.consume(entry);
    }
    // The ring keeps working after the abandoned completion.
    let act = nop(&mut p).ok().unwrap();
    kernel.accept(p.submit());
    for entry in kernel.run(false) {
        p.consume(entry);
    }
    match act.poll(&mut p.tickets, 1) {
        ActionPoll::Ready { .. } => (),
        ActionPoll::Pending { .. } => panic!(),
    }
}

#[test]
fn delivery_returns_the_installed_waker_token() {
    let mut p = Proactor::new(8);
    let mut kernel = SimKernel::new();
    let act = nop(&mut p).ok().unwrap();
    kernel.accept(p.submit());
    // The task polls first, leaving its waker token on the ticket.
    let act = match act.poll(&mut p.tickets, 77) {
        ActionPoll::Pending { action } => action,
        ActionPoll::Ready { .. } => panic!(),
    };
    let wakes = p.consume_all(&kernel.run(false));
    assert_eq!(wakes, vec![77]);
    match act.poll(&mut p.tickets, 77) {
        ActionPoll::Ready { entry, .. } => assert_eq!(entry.result, 0),
        ActionPoll::Pending { .. } => panic!(),
    }
}

#[test]
fn retry_policy_is_bounded_to_busy_errors() {
    assert!(should_retry(EBUSY, 0));
    assert!(should_retry(EBUSY, BUSY_RETRY_LIMIT - 1));
    assert!(!should_retry(EBUSY, BUSY_RETRY_LIMIT));
    assert!(!should_retry(5, 0));
}

#[test]
fn wait_kind_follows_the_park_decision() {
    assert_eq!(choose_wait(true, false), WaitKind::SubmitOnly);
    assert_eq!(choose_wait(true, true), WaitKind::SubmitOnly);
    assert_eq!(choose_wait(false, true), WaitKind::SubmitTimeout);
    assert_eq!(choose_wait(false, false), WaitKind::SubmitAndWaitOne);
}

#[test]
fn shutdown_waits_for_the_wake_read() {
    let mut p = Proactor::new(8);
    let mut kernel = SimKernel::new();
    let (_state, _nowait) = p.park_prepare(false, false);
    p.park_arm(99);
    kernel.accept(p.submit());
    // PARKING still set: the wake read is outstanding.
    assert!(p.shutdown_needed());
    let e = p.shutdown_cancel_entry();
    assert_eq!(e.op, OpCode::AsyncCancel { target: WAKE_TOKEN });
    assert_eq!(e.user_data, EMPTY_TOKEN);
    // The kernel resolves the wake read (a wake write releases it).
    p.eventfd.wake();
    let cqes = kernel.run(true);
    assert!(saw_wake_completion(&cqes));
    for entry in cqes {
        p.consume(entry);
    }
    assert!(!p.shutdown_needed());
}

#[test]
fn push_error_carries_value_and_error() {
    let mut p = Proactor::new(1);
    let mut kernel = SimKernel::new();
    let _fill = nop(&mut p).ok().unwrap();
    match action(&mut p, 7u32, SubmissionEntry::new(OpCode::Nop)) {
        Ok(_) => panic!(),
        Err(e) => {
            let (err, value) = e.into_inner();
            assert_eq!(err, Error::QueueFull);
            assert_eq!(value, 7);
        }
    }
    kernel.accept(p.submit());
    for entry in kernel.run(false) {
        p.consume(entry);
    }
}
