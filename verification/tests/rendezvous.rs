//! The one-shot cell and the ticket registry.

use ritsu::oneshot::{load_u8, Cell, Polled, Sent};
use ritsu::ring::{is_reserved, CompletionEntry, OpCode, SubmissionEntry, EMPTY_TOKEN,
    FIRST_TICKET, WAKE_TOKEN};
use ritsu::ticket::{Ticket, Tickets};

fn cqe(tag: u64, result: i32) -> CompletionEntry {
    CompletionEntry { user_data: tag, result }
}

#[test]
fn send_then_poll_delivers_once() {
    let mut cell: Cell<u32> = Cell::new();
    match cell.send(7) {
        Sent::Delivered { wake } => assert!(wake.is_none()),
        Sent::Refused { .. } => panic!(),
    }
    match cell.poll(11) {
        Polled::Ready { value } => assert_eq!(value, 7),
        _ => panic!(),
    }
}

#[test]
fn poll_installs_waker_and_send_returns_it() {
    let mut cell: Cell<u32> = Cell::new();
    match cell.poll(42) {
        Polled::Pending => (),
        _ => panic!(),
    }
    match cell.send(1) {
        Sent::Delivered { wake } => assert_eq!(wake, Some(42)),
        Sent::Refused { .. } => panic!(),
    }
}

#[test]
fn send_to_closed_cell_hands_value_back() {
    let mut cell: Cell<u32> = Cell::new();
    let free = cell.close();
    assert!(!free);
    match cell.send(9) {
        Sent::Refused { value } => assert_eq!(value, 9),
        Sent::Delivered { .. } => panic!(),
    }
}

#[test]
fn poll_of_abandoned_cell_reports_closed() {
    let mut cell: Cell<u32> = Cell::new();
    cell.close();
    match cell.poll(1) {
        Polled::Closed => (),
        _ => panic!(),
    }
}

#[test]
fn second_close_reclaims() {
    let mut cell: Cell<u32> = Cell::new();
    assert!(!cell.close());
    assert!(cell.close());
}

#[test]
fn load_u8_reads_through() {
    let mut x: u8 = 5;
    assert_eq!(load_u8(&mut x), 5);
    assert_eq!(x, 5);
}

#[test]
fn identities_start_above_reserved_tags() {
    let mut tickets = Tickets::new();
    let (tx, rx) = Ticket::new(&mut tickets);
    assert!(tx.id >= FIRST_TICKET);
    assert_eq!(tx.id, rx.id);
    assert!(is_reserved(WAKE_TOKEN));
    assert!(is_reserved(EMPTY_TOKEN));
    assert!(!is_reserved(tx.id));
}

#[test]
fn identity_survives_raw_round_trip() {
    let mut tickets = Tickets::new();
    let (tx, rx) = Ticket::new(&mut tickets);
    let id = rx.id;
    let raw = tx.into_raw();
    assert_eq!(raw, id);
    let tx2 = Ticket::from_raw(raw);
    assert_eq!(tx2.id, id);
    rx.close(&mut tickets);
    tx2.close(&mut tickets);
}

#[test]
fn register_tags_the_entry() {
    let mut tickets = Tickets::new();
    let (tx, rx) = Ticket::new(&mut tickets);
    let id = rx.id;
    let entry = tx.register(SubmissionEntry::new(OpCode::Nop));
    assert_eq!(entry.user_data, id);
    assert!(matches!(entry.op, OpCode::Nop));
    rx.close(&mut tickets);
    Ticket::from_raw(id).close(&mut tickets);
}

#[test]
fn no_identity_reuse_while_in_flight() {
    let mut tickets = Tickets::new();
    let (tx1, rx1) = Ticket::new(&mut tickets);
    let (tx2, rx2) = Ticket::new(&mut tickets);
    assert_ne!(tx1.id, tx2.id);
    // Resolve the first; its identity may then be reissued, the
    // second's may not.
    let id1 = tx1.id;
    let id2 = tx2.id;
    tx1.send(&mut tickets, cqe(id1, 0));
    rx1.poll(&mut tickets, 0).unwrap();
    rx1.close(&mut tickets);
    let (tx3, rx3) = Ticket::new(&mut tickets);
    assert_ne!(tx3.id, id2);
    rx3.close(&mut tickets);
    tx3.close(&mut tickets);
    tx2.close(&mut tickets);
    rx2.close(&mut tickets);
}

#[test]
fn delivery_reaches_exactly_its_cell() {
    let mut tickets = Tickets::new();
    let (tx1, rx1) = Ticket::new(&mut tickets);
    let (tx2, rx2) = Ticket::new(&mut tickets);
    let id1 = tx1.id;
    tx1.send(&mut tickets, cqe(id1, 33));
    // The first ticket resolved.
    match rx1.poll(&mut tickets, 0) {
        Some(entry) => assert_eq!(entry.result, 33),
        None => panic!(),
    }
    // The second is untouched and still pending.
    assert!(rx2.poll(&mut tickets, 0).is_none());
    assert!(!rx2.is_closed(&tickets));
    rx1.close(&mut tickets);
    tx2.send(&mut tickets, cqe(rx2.id, 0));
    rx2.poll(&mut tickets, 0).unwrap();
    rx2.close(&mut tickets);
}

#[test]
fn abandoned_receiver_drops_record_on_delivery() {
    let mut tickets = Tickets::new();
    let (tx, rx) = Ticket::new(&mut tickets);
    let id = rx.id;
    rx.close(&mut tickets);
    // Delivery to the departed receiver reclaims the slot.
    assert!(tx.send(&mut tickets, cqe(id, 1)).is_none());
    assert_eq!(tickets.live_count(), 0);
}
