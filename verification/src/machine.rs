//! A verified executable form of the channel's protocol.
//!
//! [`ChannelMachine`] carries the channel's observable state — the pending
//! value and which endpoints are alive — together with a ghost
//! [`ChannelModel`](crate::protocol::ChannelModel) of the full history. Each
//! operation is proved to follow the corresponding abstract transition, so
//! everything proved of the protocol holds of this machine. Because the
//! machine is sequential, a blocked `recv` is reported as [`RecvOutcome::WouldBlock`]
//! and the rendezvous hand-over is observed on the producer's side, as
//! [`SendOutcome::Delivered`].

use vstd::prelude::*;

use crate::protocol;
use crate::protocol::ChannelModel;

verus! {

/// What a `send` did: handed the value straight to the waiting worker, stored
/// it in the pending slot, or was refused because the worker is gone (the
/// value comes back to the caller).
pub enum SendOutcome<V> {
    Delivered(V),
    Stored,
    Refused(V),
}

/// What a `recv` did: took a value (from the pending slot or the rendezvous),
/// reported that every producer is gone, or would have to block for the next
/// send.
pub enum RecvOutcome<V> {
    Got(V),
    Disconnected,
    WouldBlock,
}

/// The debouncing channel as a sequential state machine.
pub struct ChannelMachine<V> {
    pending: Option<V>,
    waiting: bool,
    worker_alive: bool,
    producers_alive: bool,
    model: Ghost<ChannelModel<V>>,
}

impl<V> ChannelMachine<V> {
    /// The ghost history this machine has followed.
    pub closed spec fn model(self) -> ChannelModel<V> {
        self.model@
    }

    /// The machine is well-formed: its history is well-formed and its
    /// observable state agrees with it.
    pub closed spec fn wf(self) -> bool {
        &&& protocol::inv(self.model@)
        &&& (match self.model@.pending {
            Some(p) => self.pending matches Some(v) && v == self.model@.sent[p],
            None => self.pending is None,
        })
        &&& self.waiting == self.model@.waiting
        &&& self.worker_alive == self.model@.worker_alive
        &&& self.producers_alive == self.model@.producers_alive
    }

    /// A fresh machine with an empty history.
    pub fn new() -> (r: Self)
        ensures
            r.wf(),
            r.model() == protocol::init::<V>(),
    {
        ChannelMachine {
            pending: None,
            waiting: false,
            worker_alive: true,
            producers_alive: true,
            model: Ghost(protocol::init::<V>()),
        }
    }

    /// A producer sends `value`. Never blocks: the value is handed over at
    /// once if the worker is waiting, stored (superseding any previous
    /// occupant) if the worker is busy, and returned if the worker is gone.
    pub fn send(&mut self, value: V) -> (r: SendOutcome<V>)
        requires
            old(self).wf(),
        ensures
            final(self).wf(),
            final(self).model() == protocol::send_step(old(self).model(), value),
            (r == if !old(self).model().worker_alive {
                SendOutcome::Refused(value)
            } else if old(self).model().waiting {
                SendOutcome::Delivered(value)
            } else {
                SendOutcome::<V>::Stored
            }),
    {
        if !self.worker_alive {
            SendOutcome::Refused(value)
        } else if self.waiting {
            self.waiting = false;
            proof {
                self.model@ = protocol::send_step(self.model@, value);
            }
            SendOutcome::Delivered(value)
        } else {
            self.pending = Some(value);
            proof {
                self.model@ = protocol::send_step(self.model@, value);
            }
            SendOutcome::Stored
        }
    }

    /// The worker receives. A pending value is taken first; with none, the
    /// call reports disconnection once every producer is gone, and otherwise
    /// would block until the next send — the machine records the worker as
    /// waiting and returns [`RecvOutcome::WouldBlock`].
    pub fn recv(&mut self) -> (r: RecvOutcome<V>)
        requires
            old(self).wf(),
            old(self).model().worker_alive,
        ensures
            final(self).wf(),
            final(self).model() == protocol::recv_step(old(self).model()),
            (match old(self).model().pending {
                Some(p) => r == RecvOutcome::Got(old(self).model().sent[p]),
                None => r == if !old(self).model().producers_alive {
                    RecvOutcome::<V>::Disconnected
                } else {
                    RecvOutcome::<V>::WouldBlock
                },
            }),
    {
        let taken = self.pending.take();
        match taken {
            Some(v) => {
                proof {
                    self.model@ = protocol::recv_step(self.model@);
                }
                RecvOutcome::Got(v)
            },
            None => {
                if !self.producers_alive {
                    RecvOutcome::Disconnected
                } else {
                    self.waiting = true;
                    proof {
                        self.model@ = protocol::recv_step(self.model@);
                    }
                    RecvOutcome::WouldBlock
                }
            },
        }
    }

    /// The last producer handle is dropped; a worker blocked in the
    /// rendezvous wait wakes up disconnected.
    pub fn drop_producers(&mut self)
        requires
            old(self).wf(),
        ensures
            final(self).wf(),
            final(self).model() == protocol::drop_producers(old(self).model()),
    {
        self.producers_alive = false;
        self.waiting = false;
        proof {
            self.model@ = protocol::drop_producers(self.model@);
        }
    }

    /// The worker's receiving end is dropped. Only while the worker is not
    /// blocked inside `recv`.
    pub fn drop_worker(&mut self)
        requires
            old(self).wf(),
            !old(self).model().waiting,
        ensures
            final(self).wf(),
            final(self).model() == protocol::drop_worker(old(self).model()),
    {
        self.worker_alive = false;
        proof {
            self.model@ = protocol::drop_worker(self.model@);
        }
    }
}

} // verus!
