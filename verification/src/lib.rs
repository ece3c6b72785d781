//! A single-slot debouncing handoff channel.
//!
//! One or more producers push frequently updated values to a slow background
//! worker. A producer never blocks: if the worker is idle, the value is handed
//! over at once through a rendezvous channel; if the worker is busy, the value
//! is stored in a single pending slot, overwriting whatever sat there before.
//! Intermediate values produced while the worker is busy are silently
//! superseded; the worker always sees the freshest one, and never sees values
//! out of send order.
//!
//! - [`protocol`] states the channel's behaviour as an abstract state machine
//!   over the full send/delivery history, and proves the coalescing, ordering,
//!   idle-delivery, disconnect and durability guarantees about it.
//! - [`machine`] is a verified executable form of that state machine: each
//!   transition is proved to follow the abstract one.
//! - [`channel`] is the concurrent channel itself, built on a zero-capacity
//!   crossbeam channel and a lock-guarded pending slot.
//! - [`worker`] gives the worker loop's phase transitions.

pub mod channel;
pub mod machine;
pub mod protocol;
pub mod worker;
