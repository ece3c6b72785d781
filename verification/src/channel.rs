//! The concurrent debouncing channel.
//!
//! [`DebouncingChannel`] couples a zero-capacity crossbeam channel (the
//! rendezvous slot) with a lock-guarded single-value overwrite buffer (the
//! pending slot). `send` never blocks: it hands the value straight to a
//! worker blocked in `recv`, and otherwise stores it in the pending slot,
//! superseding any previous occupant. `recv` drains the pending slot first
//! and only then blocks on the rendezvous slot.
//!
//! Both slots are shared with other threads, so what a call finds in them
//! depends on the interleaving; the outside calls are therefore specified
//! only up to what holds of every outcome. What the channel decides on each
//! outcome is verified exactly, one call down: [`DebouncingChannel::finish_send`],
//! [`DebouncingChannel::finish_recv`] and [`resolve_rendezvous`] pin the
//! response to every possible report. The channel's sequential semantics,
//! with its coalescing and ordering guarantees, is stated and proved in
//! [`crate::protocol`].

use vstd::prelude::*;

verus! {

#[verifier::external_type_specification]
#[verifier::external_body]
#[verifier::reject_recursive_types(T)]
pub struct ExSender<T>(crossbeam_channel::Sender<T>);

#[verifier::external_type_specification]
#[verifier::external_body]
#[verifier::reject_recursive_types(T)]
pub struct ExReceiver<T>(crossbeam_channel::Receiver<T>);

/// Error returned by [`DebouncingChannel::send`] when the worker's receiving
/// end is gone; it carries the value back to the caller so it is not lost
/// without signal.
pub struct SendDisconnected<V> {
    pub value: V,
}

/// Error returned by [`DebouncingChannel::recv`] when every producer handle
/// has been dropped and no value is pending.
pub struct RecvDisconnected;

/// What a non-blocking rendezvous attempt did.
pub enum SendAttempt<V> {
    /// A receiver was waiting and took the value.
    Handed,
    /// No receiver was waiting; the value comes back.
    Busy(V),
    /// Every receiver is gone; the value comes back.
    Gone(V),
}

/// The decision step after the blocking rendezvous wait: a value handed over
/// is returned exactly as it came, and a closed rendezvous — every producer
/// handle dropped — is reported as disconnection, never as a value.
pub fn resolve_rendezvous<V>(got: Option<V>) -> (r: Result<V, RecvDisconnected>)
    ensures
        (r == match got {
            Some(v) => Ok::<V, RecvDisconnected>(v),
            None => Err::<V, RecvDisconnected>(RecvDisconnected),
        }),
{
    match got {
        Some(v) => Ok(v),
        None => Err(RecvDisconnected),
    }
}

/// Relies on `crossbeam_channel::bounded` with capacity zero: the pair is a
/// rendezvous channel — a send succeeds only while a receive is in progress
/// on the other side, and nothing is ever buffered.
#[verifier::external_body]
fn rendezvous_pair<V>() -> (r: (crossbeam_channel::Sender<V>, crossbeam_channel::Receiver<V>))
{
    crossbeam_channel::bounded(0)
}

/// Relies on `crossbeam_channel::Sender::try_send` on a zero-capacity
/// channel: it never blocks; it hands the value over only if a receive
/// operation is waiting on the other side, reports `Full` when none is and
/// `Disconnected` when every receiver is gone, and either error contains the
/// original value.
#[verifier::external_body]
fn try_send_rendezvous<V>(sender: &crossbeam_channel::Sender<V>, value: V) -> (r: SendAttempt<V>)
    ensures
        r matches SendAttempt::Busy(w) ==> w == value,
        r matches SendAttempt::Gone(w) ==> w == value,
{
    match sender.try_send(value) {
        Ok(()) => SendAttempt::Handed,
        Err(crossbeam_channel::TrySendError::Full(w)) => SendAttempt::Busy(w),
        Err(crossbeam_channel::TrySendError::Disconnected(w)) => SendAttempt::Gone(w),
    }
}

/// Relies on `crossbeam_channel::Receiver::recv`: it blocks until a sender
/// hands a value over (returned as `Some`) or every sender is gone (`None`).
/// Which value arrives depends on the other threads, so nothing more is
/// stated.
#[verifier::external_body]
fn recv_blocking<V>(receiver: &crossbeam_channel::Receiver<V>) -> (r: Option<V>)
{
    receiver.recv().ok()
}

/// The pending slot: a single-value overwrite buffer guarded by a
/// `parking_lot::RwLock`, shared by every producer and the worker. The slot
/// is visible to other threads between any two calls, so no call's result is
/// determined by an earlier one, and the operations carry no contract.
///
/// Verus refuses a declaration of the lock's type itself (`parking_lot::RwLock`
/// is an alias of `lock_api::RwLock`, whose generics do not match the alias),
/// so the lock is held in a field of this opaque struct instead.
#[verifier::external_body]
#[verifier::reject_recursive_types(V)]
struct PendingSlot<V> {
    cell: parking_lot::RwLock<Option<V>>,
}

impl<V> PendingSlot<V> {
    /// Relies on `parking_lot::RwLock::new`: a slot holding nothing.
    #[verifier::external_body]
    fn empty() -> (r: Self) {
        PendingSlot { cell: parking_lot::RwLock::new(None) }
    }

    /// Relies on `parking_lot::RwLock::write`: stores `value`, dropping any
    /// previous occupant. The lock is held only for the swap itself, so the
    /// call returns in bounded time.
    #[verifier::external_body]
    fn overwrite(&self, value: V) {
        *self.cell.write() = Some(value);
    }

    /// Relies on `parking_lot::RwLock::write` and `Option::take`: empties the
    /// slot, returning the occupant if there was one. The lock is held only
    /// for the swap itself.
    #[verifier::external_body]
    fn take(&self) -> (r: Option<V>) {
        self.cell.write().take()
    }
}

/// A debouncing handoff channel: at most one value in flight, at most one
/// pending, intermediate values superseded.
#[verifier::reject_recursive_types(V)]
pub struct DebouncingChannel<V> {
    sender: crossbeam_channel::Sender<V>,
    receiver: crossbeam_channel::Receiver<V>,
    last_input: PendingSlot<V>,
}

impl<V> DebouncingChannel<V> {
    /// A fresh channel: rendezvous slot connected, pending slot empty.
    pub fn new() -> (r: Self) {
        let (sender, receiver) = rendezvous_pair();
        DebouncingChannel { sender, receiver, last_input: PendingSlot::empty() }
    }

    /// The decision step after a rendezvous attempt: success exactly when
    /// some receiving end remains — a value the rendezvous took is already
    /// delivered, a value it reported busy is stored in the pending slot,
    /// superseding any previous occupant — and only a gone worker is an
    /// error, which carries the value back unchanged.
    pub fn finish_send(&self, attempt: SendAttempt<V>) -> (r: Result<(), SendDisconnected<V>>)
        ensures
            (r is Err) <==> (attempt is Gone),
            (attempt matches SendAttempt::Gone(w) ==> r matches Err(e) && e.value == w),
    {
        match attempt {
            SendAttempt::Handed => Ok(()),
            SendAttempt::Busy(v) => {
                self.last_input.overwrite(v);
                Ok(())
            },
            SendAttempt::Gone(v) => Err(SendDisconnected { value: v }),
        }
    }

    /// Send a value, or fail if the channel is disconnected. Never blocks.
    ///
    /// The value is handed straight to a worker currently blocked in
    /// [`Self::recv`]; if the worker is busy, it is stored in the pending
    /// slot, superseding whatever was stored before. If every receiving end
    /// is gone, the error carries the value back unchanged. Which of those
    /// the rendezvous attempt reports depends on the other threads; what the
    /// channel does with each report is fixed by [`Self::finish_send`].
    pub fn send(&self, value: V) -> (r: Result<(), SendDisconnected<V>>)
        ensures
            r matches Err(e) ==> e.value == value,
    {
        let attempt = try_send_rendezvous(&self.sender, value);
        self.finish_send(attempt)
    }

    /// Best-effort send: as [`Self::send`], but a gone worker is ignored.
    /// Producers calling this never observe backpressure or disconnection.
    pub fn send_best_effort(&self, value: V) {
        let _ = self.send(value);
    }

    /// The decision step after draining the pending slot: a value the slot
    /// held is returned exactly as it came, at once — the rendezvous slot is
    /// not consulted. Only with the slot empty does the call fall back to the
    /// blocking rendezvous wait, whose outcome is mapped by
    /// [`resolve_rendezvous`].
    pub fn finish_recv(&self, taken: Option<V>) -> (r: Result<V, RecvDisconnected>)
        ensures
            (taken matches Some(v) ==> r == Ok::<V, RecvDisconnected>(v)),
    {
        match taken {
            Some(v) => Ok(v),
            None => resolve_rendezvous(recv_blocking(&self.receiver)),
        }
    }

    /// Receive a value, or fail if the channel is disconnected.
    ///
    /// A value stored by [`Self::send`] is taken first, without consulting
    /// the rendezvous slot; with the pending slot empty, the call blocks on
    /// the rendezvous slot until a producer hands a value over or every
    /// producer handle has been dropped. What the pending slot holds depends
    /// on the other threads; what the channel returns for each case is fixed
    /// by [`Self::finish_recv`].
    pub fn recv(&self) -> (r: Result<V, RecvDisconnected>) {
        let taken = self.last_input.take();
        self.finish_recv(taken)
    }
}

} // verus!

