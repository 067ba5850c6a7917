//! The wake signal: park/wake/reset transitions and wake coalescing.

use ritsu::wake::{State, WakeSignal, PARKING, READY};

#[test]
fn fresh_signal_starts_ready() {
    let s = WakeSignal::new();
    assert!(s.load().is_ready());
    assert!(!s.load().is_parking());
}

#[test]
fn state_bits() {
    assert!(State(READY).is_ready());
    assert!(!State(READY).is_parking());
    assert!(State(PARKING).is_parking());
    assert!(!State(PARKING).is_ready());
    assert!(State(READY | PARKING).is_ready());
    assert!(State(READY | PARKING).is_parking());
    assert!(!State(0).is_ready());
    assert!(!State(0).is_parking());
}

#[test]
fn park_returns_previous_state() {
    let mut s = WakeSignal::new();
    let pre = s.park();
    assert!(pre.is_ready());
    assert!(!pre.is_parking());
    assert!(s.load().is_parking());
}

#[test]
fn wake_writes_only_when_parking_and_not_ready() {
    let mut s = WakeSignal::new();
    // Fresh signal is READY: a wake coalesces into it.
    assert!(!s.wake());
    // Consume the wake; not parking yet, so a wake still does not write.
    s.reset();
    assert!(!s.wake());
    // Parking and not ready: the wake must write.
    s.reset();
    s.park();
    assert!(s.wake());
}

#[test]
fn hundred_wakes_in_one_window_write_once() {
    let mut s = WakeSignal::new();
    s.reset();
    s.park();
    let mut writes = 0;
    for _ in 0..100 {
        if s.wake() {
            writes += 1;
        }
    }
    assert_eq!(writes, 1);
    // After the window ends, the next parked wake writes again.
    s.unpark();
    s.reset();
    s.park();
    assert!(s.wake());
}

#[test]
fn unpark_and_reset_clear_their_bits() {
    let mut s = WakeSignal::new();
    s.park();
    s.wake();
    s.unpark();
    assert!(!s.load().is_parking());
    assert!(s.load().is_ready());
    s.reset();
    assert!(!s.load().is_ready());
}
