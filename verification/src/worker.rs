//! The worker loop's phase transitions.
//!
//! The worker is a single dedicated thread that repeatedly receives from the
//! channel and feeds each value to a processing step. Its lifecycle has three
//! phases; [`next_phase`] is the decision function the loop follows, one
//! event at a time. The loop itself — blocking on the channel, running the
//! processing step — lives with the caller; only the decisions are here.

use vstd::prelude::*;

verus! {

/// The worker's phase: blocked in `recv`, running the processing step, or
/// done because the channel disconnected.
#[derive(Clone, Copy, PartialEq, Eq, Structural)]
pub enum WorkerPhase {
    Waiting,
    Processing,
    Terminated,
}

/// What the worker observed: `recv` returned a value, the processing step
/// finished, or `recv` reported that every producer is gone.
#[derive(Clone, Copy, PartialEq, Eq, Structural)]
pub enum WorkerEvent {
    Received,
    StepDone,
    ChannelClosed,
}

/// The phase the worker moves to on `event`.
///
/// A waiting worker starts processing on a received value and terminates on
/// disconnection; a processing worker goes back to waiting once its step is
/// done. No transition leaves `Terminated`, and an event that cannot occur in
/// a phase leaves the phase unchanged.
pub open spec fn spec_next_phase(phase: WorkerPhase, event: WorkerEvent) -> WorkerPhase {
    match (phase, event) {
        (WorkerPhase::Waiting, WorkerEvent::Received) => WorkerPhase::Processing,
        (WorkerPhase::Waiting, WorkerEvent::ChannelClosed) => WorkerPhase::Terminated,
        (WorkerPhase::Processing, WorkerEvent::StepDone) => WorkerPhase::Waiting,
        (_, _) => phase,
    }
}

/// Executable form of [`spec_next_phase`].
pub fn next_phase(phase: WorkerPhase, event: WorkerEvent) -> (r: WorkerPhase)
    ensures
        r == spec_next_phase(phase, event),
        phase is Terminated ==> r is Terminated,
{
    match (phase, event) {
        (WorkerPhase::Waiting, WorkerEvent::Received) => WorkerPhase::Processing,
        (WorkerPhase::Waiting, WorkerEvent::ChannelClosed) => WorkerPhase::Terminated,
        (WorkerPhase::Processing, WorkerEvent::StepDone) => WorkerPhase::Waiting,
        (p, _) => p,
    }
}

} // verus!
