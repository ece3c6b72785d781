//! Tests of the worker loop's phase transitions.

use debounce_channel::worker::{next_phase, WorkerEvent, WorkerPhase};

#[test]
fn waiting_to_processing_on_receive() {
    assert!(matches!(
        next_phase(WorkerPhase::Waiting, WorkerEvent::Received),
        WorkerPhase::Processing
    ));
}

#[test]
fn processing_back_to_waiting_when_done() {
    assert!(matches!(
        next_phase(WorkerPhase::Processing, WorkerEvent::StepDone),
        WorkerPhase::Waiting
    ));
}

#[test]
fn waiting_terminates_on_disconnect() {
    assert!(matches!(
        next_phase(WorkerPhase::Waiting, WorkerEvent::ChannelClosed),
        WorkerPhase::Terminated
    ));
}

#[test]
fn terminated_absorbs_every_event() {
    assert!(matches!(
        next_phase(WorkerPhase::Terminated, WorkerEvent::Received),
        WorkerPhase::Terminated
    ));
    assert!(matches!(
        next_phase(WorkerPhase::Terminated, WorkerEvent::StepDone),
        WorkerPhase::Terminated
    ));
    assert!(matches!(
        next_phase(WorkerPhase::Terminated, WorkerEvent::ChannelClosed),
        WorkerPhase::Terminated
    ));
}

#[test]
fn ill_timed_events_keep_phase() {
    assert!(matches!(
        next_phase(WorkerPhase::Waiting, WorkerEvent::StepDone),
        WorkerPhase::Waiting
    ));
    assert!(matches!(
        next_phase(WorkerPhase::Processing, WorkerEvent::Received),
        WorkerPhase::Processing
    ));
    assert!(matches!(
        next_phase(WorkerPhase::Processing, WorkerEvent::ChannelClosed),
        WorkerPhase::Processing
    ));
}
