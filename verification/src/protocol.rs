//! The abstract protocol of the debouncing channel.
//!
//! A [`ChannelModel`] records the whole history of a channel: every value a
//! producer handed to `send`, which of them sit in the pending slot, and which
//! were delivered to the worker, in what order. Delivered values are recorded
//! as indices into the send history, so ordering can be stated even when the
//! same value is sent twice.
//!
//! The transitions [`send_step`], [`recv_step`], [`drop_producers`] and
//! [`drop_worker`] say what each operation does to that history. The proof
//! functions at the end state the channel's guarantees: sends coalesce to the
//! freshest value, deliveries never leave send order, an idle worker receives
//! a sent value at once, dropping every producer terminates an idle worker,
//! and a value already pending survives the producers' disappearance.

use vstd::prelude::*;

verus! {

/// Abstract state of a debouncing channel, together with its full history.
pub struct ChannelModel<V> {
    /// Every value handed to `send` that the channel accepted, in call order.
    pub sent: Seq<V>,
    /// Index into `sent` of the value in the pending slot, if any.
    pub pending: Option<int>,
    /// Indices into `sent` of the values handed to the worker, in delivery order.
    pub delivered: Seq<int>,
    /// True while the worker is blocked in the rendezvous wait.
    pub waiting: bool,
    /// False once the worker's receiving end is gone.
    pub worker_alive: bool,
    /// False once every producer handle is dropped.
    pub producers_alive: bool,
}

/// The state of a channel that was just created: nothing sent, nothing
/// pending, nothing delivered, both ends alive, worker not yet waiting.
pub open spec fn init<V>() -> ChannelModel<V> {
    ChannelModel {
        sent: Seq::empty(),
        pending: None,
        delivered: Seq::empty(),
        waiting: false,
        worker_alive: true,
        producers_alive: true,
    }
}

/// Well-formedness of a model state.
///
/// Deliveries happen in strictly increasing send order, deliveries and the
/// pending value name values that were really sent, the pending value is newer
/// than everything already delivered, and a worker blocked in the rendezvous
/// wait found the pending slot empty and is still alive.
pub open spec fn inv<V>(m: ChannelModel<V>) -> bool {
    &&& (forall|i: int, j: int|
        0 <= i < j < m.delivered.len() ==> m.delivered[i] < m.delivered[j])
    &&& (forall|i: int| 0 <= i < m.delivered.len() ==> 0 <= #[trigger] m.delivered[i] < m.sent.len())
    &&& (m.pending matches Some(p) ==> {
        &&& 0 <= p < m.sent.len()
        &&& forall|i: int| 0 <= i < m.delivered.len() ==> #[trigger] m.delivered[i] < p
    })
    &&& (m.waiting ==> m.pending is None)
    &&& (m.waiting ==> m.worker_alive)
}

/// What `send(v)` does to the state.
///
/// With the worker gone the call is refused and nothing changes. With the
/// worker blocked in the rendezvous wait the value is handed over at once:
/// it is appended to the history and delivered, and the worker stops waiting.
/// Otherwise the value is appended to the history and placed in the pending
/// slot, superseding any previous occupant.
pub open spec fn send_step<V>(m: ChannelModel<V>, v: V) -> ChannelModel<V> {
    if !m.worker_alive {
        m
    } else if m.waiting {
        ChannelModel {
            sent: m.sent.push(v),
            delivered: m.delivered.push(m.sent.len() as int),
            waiting: false,
            ..m
        }
    } else {
        ChannelModel { sent: m.sent.push(v), pending: Some(m.sent.len() as int), ..m }
    }
}

/// What the worker's `recv()` does to the state.
///
/// A pending value is taken first, without consulting the rendezvous slot,
/// and even when every producer is already gone. With the pending slot empty
/// and every producer gone, the call reports disconnection and changes
/// nothing. Otherwise the worker starts waiting on the rendezvous slot; the
/// call completes through a later [`send_step`] or [`drop_producers`].
pub open spec fn recv_step<V>(m: ChannelModel<V>) -> ChannelModel<V> {
    match m.pending {
        Some(p) => ChannelModel { pending: None, delivered: m.delivered.push(p), ..m },
        None => {
            if !m.producers_alive {
                m
            } else {
                ChannelModel { waiting: true, ..m }
            }
        },
    }
}

/// The last producer handle is dropped. A worker blocked in the rendezvous
/// wait wakes up and its `recv` reports disconnection.
pub open spec fn drop_producers<V>(m: ChannelModel<V>) -> ChannelModel<V> {
    ChannelModel { producers_alive: false, waiting: false, ..m }
}

/// The worker's receiving end is dropped. Only meaningful while the worker is
/// not blocked inside `recv`.
pub open spec fn drop_worker<V>(m: ChannelModel<V>) -> ChannelModel<V> {
    ChannelModel { worker_alive: false, ..m }
}

/// One interaction with the channel.
pub enum Step<V> {
    Send(V),
    Recv,
    DropProducers,
    DropWorker,
}

/// Whether `step` can occur in state `m`: only the worker calls `recv`, so
/// its end is alive then, and the worker's end is dropped only while the
/// worker is not blocked inside `recv`.
pub open spec fn step_allowed<V>(m: ChannelModel<V>, step: Step<V>) -> bool {
    match step {
        Step::Send(_) => true,
        Step::Recv => m.worker_alive,
        Step::DropProducers => true,
        Step::DropWorker => !m.waiting,
    }
}

/// The state after `step`.
pub open spec fn apply_step<V>(m: ChannelModel<V>, step: Step<V>) -> ChannelModel<V> {
    match step {
        Step::Send(v) => send_step(m, v),
        Step::Recv => recv_step(m),
        Step::DropProducers => drop_producers(m),
        Step::DropWorker => drop_worker(m),
    }
}

/// The state after running `steps`, first step first.
pub open spec fn run<V>(m: ChannelModel<V>, steps: Seq<Step<V>>) -> ChannelModel<V>
    decreases steps.len(),
{
    if steps.len() == 0 {
        m
    } else {
        run(apply_step(m, steps[0]), steps.drop_first())
    }
}

/// Whether every step of `steps` is allowed in the state it meets.
pub open spec fn trace_allowed<V>(m: ChannelModel<V>, steps: Seq<Step<V>>) -> bool
    decreases steps.len(),
{
    steps.len() == 0 || (step_allowed(m, steps[0]) && trace_allowed(
        apply_step(m, steps[0]),
        steps.drop_first(),
    ))
}

/// `send_step` preserves well-formedness.
pub proof fn lemma_send_preserves_inv<V>(m: ChannelModel<V>, v: V)
    requires
        inv(m),
    ensures
        inv(send_step(m, v)),
{
}

/// `recv_step` preserves well-formedness. The worker makes the call, so its
/// end is alive.
pub proof fn lemma_recv_preserves_inv<V>(m: ChannelModel<V>)
    requires
        inv(m),
        m.worker_alive,
    ensures
        inv(recv_step(m)),
{
}

/// `drop_producers` preserves well-formedness.
pub proof fn lemma_drop_producers_preserves_inv<V>(m: ChannelModel<V>)
    requires
        inv(m),
    ensures
        inv(drop_producers(m)),
{
}

/// `drop_worker` preserves well-formedness while the worker is not blocked in
/// `recv`.
pub proof fn lemma_drop_worker_preserves_inv<V>(m: ChannelModel<V>)
    requires
        inv(m),
        !m.waiting,
    ensures
        inv(drop_worker(m)),
{
}

/// Deliveries never leave send order: in a well-formed state, the sequence of
/// delivered values is a subsequence of the send history — its indices are
/// strictly increasing, so no delivered value is older than one delivered
/// before it, and no value is delivered twice.
pub proof fn lemma_delivery_in_send_order<V>(m: ChannelModel<V>)
    requires
        inv(m),
    ensures
        forall|i: int, j: int|
            0 <= i < j < m.delivered.len() ==> m.delivered[i] < m.delivered[j],
        forall|i: int| 0 <= i < m.delivered.len() ==> 0 <= #[trigger] m.delivered[i] < m.sent.len(),
{
}

/// Coalescing: if `send(a)`, `send(b)`, `send(c)` happen while the worker is
/// busy (neither waiting nor gone), the worker's next `recv` returns `c`, and
/// delivers nothing else; `a` and `b` are superseded — after the three sends
/// neither is pending nor was either ever delivered.
pub proof fn lemma_coalescing<V>(m: ChannelModel<V>, a: V, b: V, c: V)
    requires
        inv(m),
        m.worker_alive,
        !m.waiting,
    ensures
        ({
            let after_sends = send_step(send_step(send_step(m, a), b), c);
            let after_recv = recv_step(after_sends);
            &&& after_sends.pending == Some(m.sent.len() + 2int)
            &&& after_sends.sent[m.sent.len() + 2int] == c
            &&& after_recv.delivered == m.delivered.push(m.sent.len() + 2int)
            &&& !after_sends.delivered.contains(m.sent.len() as int)
            &&& !after_sends.delivered.contains(m.sent.len() + 1int)
            &&& after_sends.pending != Some(m.sent.len() as int)
            &&& after_sends.pending != Some(m.sent.len() + 1int)
            &&& forall|steps: Seq<Step<V>>|
                trace_allowed(after_sends, steps) ==> {
                    &&& !run(after_sends, steps).delivered.contains(m.sent.len() as int)
                    &&& !run(after_sends, steps).delivered.contains(m.sent.len() + 1int)
                }
        }),
{
    let after_sends = send_step(send_step(send_step(m, a), b), c);
    assert forall|i: int| 0 <= i < after_sends.delivered.len() implies #[trigger] after_sends
        .delivered[i] < m.sent.len() by {}
    lemma_send_preserves_inv(m, a);
    lemma_send_preserves_inv(send_step(m, a), b);
    lemma_send_preserves_inv(send_step(send_step(m, a), b), c);
    assert forall|steps: Seq<Step<V>>| trace_allowed(after_sends, steps) implies {
        &&& !run(after_sends, steps).delivered.contains(m.sent.len() as int)
        &&& !run(after_sends, steps).delivered.contains(m.sent.len() + 1int)
    } by {
        lemma_superseded_forever(after_sends, steps, m.sent.len() as int);
        lemma_superseded_forever(after_sends, steps, m.sent.len() + 1int);
    }
}

/// A value neither delivered nor pending is superseded for good: no single
/// transition — a further send, a receive, or an endpoint being dropped —
/// ever delivers it or makes it pending again.
pub proof fn lemma_superseded_stays_undelivered<V>(m: ChannelModel<V>, step: Step<V>, idx: int)
    requires
        inv(m),
        0 <= idx < m.sent.len(),
        !m.delivered.contains(idx),
        m.pending != Some(idx),
    ensures
        !apply_step(m, step).delivered.contains(idx),
        apply_step(m, step).pending != Some(idx),
{
    let next = apply_step(m, step);
    assert forall|i: int| 0 <= i < next.delivered.len() implies #[trigger] next.delivered[i]
        != idx by {
        if i < m.delivered.len() {
            assert(m.delivered.contains(m.delivered[i]));
        }
    }
}

/// Superseded values stay superseded over whole executions: a value that is
/// neither delivered nor pending is not delivered by any allowed sequence of
/// later interactions.
pub proof fn lemma_superseded_forever<V>(m: ChannelModel<V>, steps: Seq<Step<V>>, idx: int)
    requires
        inv(m),
        trace_allowed(m, steps),
        0 <= idx < m.sent.len(),
        !m.delivered.contains(idx),
        m.pending != Some(idx),
    ensures
        !run(m, steps).delivered.contains(idx),
        run(m, steps).pending != Some(idx),
    decreases steps.len(),
{
    if steps.len() > 0 {
        let next = apply_step(m, steps[0]);
        lemma_superseded_stays_undelivered(m, steps[0], idx);
        lemma_step_preserves_inv(m, steps[0]);
        lemma_superseded_forever(next, steps.drop_first(), idx);
    }
}

/// `apply_step` preserves well-formedness for every allowed step.
pub proof fn lemma_step_preserves_inv<V>(m: ChannelModel<V>, step: Step<V>)
    requires
        inv(m),
        step_allowed(m, step),
    ensures
        inv(apply_step(m, step)),
{
    match step {
        Step::Send(v) => lemma_send_preserves_inv(m, v),
        Step::Recv => lemma_recv_preserves_inv(m),
        Step::DropProducers => lemma_drop_producers_preserves_inv(m),
        Step::DropWorker => lemma_drop_worker_preserves_inv(m),
    }
}

/// A fresh channel is well-formed.
pub proof fn lemma_init_inv<V>()
    ensures
        inv(init::<V>()),
{
}

/// Well-formedness — and with it the ordering guarantee — holds in every
/// state the channel can reach: it holds initially and after any allowed
/// sequence of interactions.
pub proof fn lemma_reachable_inv<V>(m: ChannelModel<V>, steps: Seq<Step<V>>)
    requires
        inv(m),
        trace_allowed(m, steps),
    ensures
        inv(run(m, steps)),
    decreases steps.len(),
{
    if steps.len() > 0 {
        lemma_step_preserves_inv(m, steps[0]);
        lemma_reachable_inv(apply_step(m, steps[0]), steps.drop_first());
    }
}

/// Idle delivery: if the worker is blocked in `recv`'s rendezvous wait when
/// `send(x)` is called, the worker receives exactly `x`, with no other value
/// observed first, and nothing is left pending.
pub proof fn lemma_idle_delivery<V>(m: ChannelModel<V>, x: V)
    requires
        inv(m),
        m.waiting,
    ensures
        send_step(m, x).delivered == m.delivered.push(m.sent.len() as int),
        send_step(m, x).sent[m.sent.len() as int] == x,
        send_step(m, x).pending is None,
        !send_step(m, x).waiting,
{
}

/// Pending first: with a value in the pending slot, the worker's next `recv`
/// delivers exactly it, immediately — the worker does not start waiting on
/// the rendezvous slot — and the slot is left empty.
pub proof fn lemma_pending_first<V>(m: ChannelModel<V>, idx: int)
    requires
        inv(m),
        m.pending == Some(idx),
    ensures
        recv_step(m).delivered == m.delivered.push(idx),
        recv_step(m).pending is None,
        !recv_step(m).waiting,
{
}

/// Disconnect termination: once every producer handle is dropped and no value
/// is pending, the worker's `recv` reports disconnection and changes nothing,
/// and every later `recv` does the same — the state is terminal.
pub proof fn lemma_disconnect_termination<V>(m: ChannelModel<V>)
    requires
        inv(m),
        m.pending is None,
    ensures
        recv_step(drop_producers(m)) == drop_producers(m),
        recv_step(drop_producers(m)).delivered == m.delivered,
        recv_step(recv_step(drop_producers(m))) == drop_producers(m),
{
}

/// Last-value durability: a value sitting in the pending slot when the last
/// producer handle is dropped is not lost — the worker's next `recv` still
/// delivers exactly it.
pub proof fn lemma_last_value_durable<V>(m: ChannelModel<V>, idx: int)
    requires
        inv(m),
        m.pending == Some(idx),
    ensures
        recv_step(drop_producers(m)).delivered == m.delivered.push(idx),
        recv_step(drop_producers(m)).pending is None,
{
}

} // verus!

