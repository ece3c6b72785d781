//! Tests of the concurrent channel's single-threaded paths: with no receive
//! in progress, the rendezvous attempt reports busy and the value goes to the
//! pending slot, which `recv` drains first.

use debounce_channel::channel::{resolve_rendezvous, DebouncingChannel, SendAttempt};

#[test]
fn stored_value_received_first() {
    let ch: DebouncingChannel<u32> = DebouncingChannel::new();
    // Nobody is blocked in recv, so the value lands in the pending slot.
    assert!(ch.send(42).is_ok());
    // recv drains the pending slot without consulting the rendezvous slot.
    match ch.recv() {
        Ok(v) => assert_eq!(v, 42),
        Err(_) => panic!("the pending value must be delivered"),
    }
}

#[test]
fn later_send_supersedes_earlier() {
    let ch: DebouncingChannel<u32> = DebouncingChannel::new();
    assert!(ch.send(2).is_ok());
    assert!(ch.send(3).is_ok());
    match ch.recv() {
        Ok(v) => assert_eq!(v, 3),
        Err(_) => panic!("the freshest value must be delivered"),
    }
    // 2 never resurfaces: the next delivery is the next send.
    assert!(ch.send(4).is_ok());
    match ch.recv() {
        Ok(v) => assert_eq!(v, 4),
        Err(_) => panic!("the next value must be delivered"),
    }
}

#[test]
fn gone_attempt_returns_value_to_caller() {
    let ch: DebouncingChannel<u32> = DebouncingChannel::new();
    // A rendezvous attempt that found every receiver gone becomes the
    // disconnect error, carrying the value back unchanged.
    match ch.finish_send(SendAttempt::Gone(5)) {
        Err(e) => assert_eq!(e.value, 5),
        Ok(()) => panic!("a gone worker must be reported"),
    }
}

#[test]
fn busy_attempt_stores_value() {
    let ch: DebouncingChannel<u32> = DebouncingChannel::new();
    // A busy report stores the value, and the next recv drains it.
    assert!(ch.finish_send(SendAttempt::Busy(6)).is_ok());
    match ch.recv() {
        Ok(v) => assert_eq!(v, 6),
        Err(_) => panic!("the stored value must be delivered"),
    }
}

#[test]
fn handed_attempt_reports_success() {
    let ch: DebouncingChannel<u32> = DebouncingChannel::new();
    assert!(ch.finish_send(SendAttempt::Handed).is_ok());
}

#[test]
fn pending_value_is_handed_on_unchanged() {
    let ch: DebouncingChannel<u32> = DebouncingChannel::new();
    match ch.finish_recv(Some(7)) {
        Ok(v) => assert_eq!(v, 7),
        Err(_) => panic!("a pending value must be returned as-is"),
    }
}

#[test]
fn rendezvous_outcome_maps_exactly() {
    match resolve_rendezvous(Some(3u32)) {
        Ok(v) => assert_eq!(v, 3),
        Err(_) => panic!("a handed-over value must be returned as-is"),
    }
    assert!(resolve_rendezvous(None::<u32>).is_err());
}

#[test]
fn best_effort_send_stores_too() {
    let ch: DebouncingChannel<u32> = DebouncingChannel::new();
    ch.send_best_effort(9);
    match ch.recv() {
        Ok(v) => assert_eq!(v, 9),
        Err(_) => panic!("the pending value must be delivered"),
    }
}
