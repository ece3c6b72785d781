//! Scenario tests on the sequential channel machine, whose transitions are
//! proved to follow the abstract protocol.

use debounce_channel::machine::{ChannelMachine, RecvOutcome, SendOutcome};

#[test]
fn idle_worker_gets_value_at_once() {
    let mut m: ChannelMachine<u32> = ChannelMachine::new();
    // The worker goes idle: recv finds nothing and would block.
    assert!(matches!(m.recv(), RecvOutcome::WouldBlock));
    // A send now hands the value straight to the waiting worker.
    assert!(matches!(m.send(1), SendOutcome::Delivered(1)));
}

#[test]
fn busy_worker_sees_only_freshest() {
    let mut m: ChannelMachine<u32> = ChannelMachine::new();
    // The worker picks up 1 and is busy processing it.
    assert!(matches!(m.send(1), SendOutcome::Stored));
    assert!(matches!(m.recv(), RecvOutcome::Got(1)));
    // While still busy, 2 and then 3 arrive; 3 supersedes 2.
    assert!(matches!(m.send(2), SendOutcome::Stored));
    assert!(matches!(m.send(3), SendOutcome::Stored));
    // Once free, the worker sees 3 only.
    assert!(matches!(m.recv(), RecvOutcome::Got(3)));
    // 2 is gone for good: nothing else is delivered.
    assert!(matches!(m.recv(), RecvOutcome::WouldBlock));
}

#[test]
fn dropped_producers_disconnect_idle_worker() {
    let mut m: ChannelMachine<u32> = ChannelMachine::new();
    m.drop_producers();
    assert!(matches!(m.recv(), RecvOutcome::Disconnected));
    // Disconnection is terminal.
    assert!(matches!(m.recv(), RecvOutcome::Disconnected));
}

#[test]
fn pending_value_returned_without_blocking() {
    let mut m: ChannelMachine<u32> = ChannelMachine::new();
    // The worker is busy, so the value is buffered in the pending slot.
    assert!(matches!(m.send(7), SendOutcome::Stored));
    // The worker finishes and receives it immediately, without blocking.
    assert!(matches!(m.recv(), RecvOutcome::Got(7)));
}

#[test]
fn burst_of_ten_yields_single_value_in_range() {
    let mut m: ChannelMachine<u32> = ChannelMachine::new();
    let mut i: u32 = 0;
    while i < 10 {
        assert!(matches!(m.send(i), SendOutcome::Stored));
        i += 1;
    }
    // Exactly one value of the burst comes out, and it is one of 0..10.
    match m.recv() {
        RecvOutcome::Got(v) => assert!(v < 10),
        _ => panic!("a value of the burst must be delivered"),
    }
    assert!(matches!(m.recv(), RecvOutcome::WouldBlock));
}

#[test]
fn pending_value_survives_disconnect() {
    let mut m: ChannelMachine<u32> = ChannelMachine::new();
    assert!(matches!(m.send(5), SendOutcome::Stored));
    m.drop_producers();
    // The last value sent before the producers vanished is still delivered.
    assert!(matches!(m.recv(), RecvOutcome::Got(5)));
    assert!(matches!(m.recv(), RecvOutcome::Disconnected));
}

#[test]
fn send_refused_when_worker_gone() {
    let mut m: ChannelMachine<u32> = ChannelMachine::new();
    m.drop_worker();
    // The value comes back to the caller, not silently lost.
    assert!(matches!(m.send(4), SendOutcome::Refused(4)));
}
