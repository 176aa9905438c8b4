//! The correlation layer: waiters keyed by id, delivery out of order,
//! and teardown.

use gnunet::service::pending::Multiplexer;
use gnunet::service::pending::PendingRequestTable;
use gnunet::service::pending::Waiter;

#[test]
fn delivery_is_by_id_not_by_arrival_order() {
    // Two requests issued concurrently; the responses arrive in the
    // opposite order; each caller still receives its own result.
    let a = 1u32;
    let b = 2u32;
    let mut table: PendingRequestTable<&'static str> = PendingRequestTable::new();
    assert!(table.register(a));
    assert!(table.register(b));
    assert!(table.deliver(b, "result for b"));
    assert!(table.deliver(a, "result for a"));
    match table.take(a) {
        Some(Waiter::Delivered(v)) => assert_eq!(v, "result for a"),
        _ => panic!("the waiter for the first id must get its own result"),
    }
    match table.take(b) {
        Some(Waiter::Delivered(v)) => assert_eq!(v, "result for b"),
        _ => panic!("the waiter for the second id must get its own result"),
    }
}

#[test]
fn an_id_registers_at_most_once() {
    let mut table: PendingRequestTable<u8> = PendingRequestTable::new();
    assert!(table.register(7));
    assert!(!table.register(7));
}

#[test]
fn unmatched_responses_are_discarded() {
    let mut table: PendingRequestTable<u8> = PendingRequestTable::new();
    assert!(table.register(1));
    assert!(!table.deliver(2, 20));
    assert!(table.take(1).is_none());
    assert!(table.deliver(1, 10));
    match table.take(1) {
        Some(Waiter::Delivered(v)) => assert_eq!(v, 10),
        _ => panic!("the registered waiter must still resolve"),
    }
}

#[test]
fn teardown_resolves_every_pending_waiter_exactly_once() {
    // Teardown with three pending requests: all three resolve with the
    // disconnection outcome, none hangs, none resolves twice.
    let mut table: PendingRequestTable<u8> = PendingRequestTable::new();
    for id in [10u32, 11, 12] {
        assert!(table.register(id));
    }
    assert!(table.register(13));
    assert!(table.deliver(13, 99));
    table.fail_all();
    for id in [10u32, 11, 12] {
        match table.take(id) {
            Some(Waiter::Disconnected) => {}
            _ => panic!("a pending waiter must resolve with disconnection"),
        }
        // Collected once; a second collection finds nothing.
        assert!(table.take(id).is_none());
    }
    // A waiter already resolved keeps its outcome.
    match table.take(13) {
        Some(Waiter::Delivered(v)) => assert_eq!(v, 99),
        _ => panic!("a resolved waiter keeps its value through teardown"),
    }
    // No late delivery resolves anything after teardown.
    assert!(!table.deliver(10, 1));
}

#[test]
fn reads_are_chained_never_concurrent() {
    let mut mux: Multiplexer<u8> = Multiplexer::new();
    assert!(!mux.is_broken());
    assert!(mux.begin_read());
    // A second logical request must wait for the outstanding read.
    assert!(!mux.begin_read());
    assert!(mux.register(5));
    mux.on_message(5, 55);
    assert!(mux.begin_read());
}

#[test]
fn read_error_breaks_the_connection() {
    let mut mux: Multiplexer<u8> = Multiplexer::new();
    assert!(mux.register(1));
    assert!(mux.register(2));
    assert!(mux.begin_read());
    mux.on_read_error();
    assert!(mux.is_broken());
    for id in [1u32, 2] {
        match mux.take(id) {
            Some(Waiter::Disconnected) => {}
            _ => panic!("teardown must fail every pending waiter"),
        }
    }
    // A broken connection accepts no further operation.
    assert!(!mux.begin_read());
    assert!(!mux.register(3));
}

#[test]
fn mux_discards_unmatched_message() {
    let mut mux: Multiplexer<u8> = Multiplexer::new();
    assert!(mux.register(1));
    assert!(mux.begin_read());
    assert!(!mux.on_message(9, 90));
    assert!(mux.begin_read());
    assert!(mux.on_message(1, 10));
    match mux.take(1) {
        Some(Waiter::Delivered(v)) => assert_eq!(v, 10),
        _ => panic!("the waiter must resolve with its own value"),
    }
}
