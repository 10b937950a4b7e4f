//! The command queue between the producers of brightness commands (the
//! watcher and the fade task) and their one consumer, the actuator.
//!
//! The queue is a bounded channel of `async_std` with room for exactly one
//! command. A producer that finds the slot taken waits until the actuator has
//! emptied it; nothing is overwritten and no backlog of stale ramp steps can
//! build up behind a slow actuator.

use crate::config::COMMAND_QUEUE_CAPACITY;
use async_std::channel::{Receiver, Sender};
use vstd::prelude::*;

verus! {

/// The sending end of a channel of `async_std`. Nothing of its inside is
/// visible to the verifier.
#[verifier::external_type_specification]
#[verifier::external_body]
#[verifier::reject_recursive_types(T)]
pub struct ExSender<T>(async_std::channel::Sender<T>);

/// The receiving end of a channel of `async_std`. Nothing of its inside is
/// visible to the verifier.
#[verifier::external_type_specification]
#[verifier::external_body]
#[verifier::reject_recursive_types(T)]
pub struct ExReceiver<T>(async_std::channel::Receiver<T>);

/// The capacity that the channel behind a sending end was made with: what
/// `Sender::capacity` reports, `None` for a channel without a bound.
pub uninterp spec fn sender_capacity(tx: Sender<i32>) -> Option<usize>;

/// The capacity that the channel behind a receiving end was made with: what
/// `Receiver::capacity` reports, `None` for a channel without a bound.
pub uninterp spec fn receiver_capacity(rx: Receiver<i32>) -> Option<usize>;

/// Calls `async_std::channel::bounded`, which makes a channel that holds at
/// most `capacity` messages at a time and hands out its two ends. The
/// contract claims that both ends report that capacity. A capacity of 0 makes
/// `bounded` panic and is left out, as are capacities too large to allocate.
#[verifier::external_body]
fn bounded_channel(capacity: usize) -> (ends: (Sender<i32>, Receiver<i32>))
    requires
        1 <= capacity <= 0xffff,
    ensures
        sender_capacity(ends.0) == Some(capacity),
        receiver_capacity(ends.1) == Some(capacity),
{
    async_std::channel::bounded(capacity)
}

/// Makes the command queue: a channel with room for one command.
pub fn command_channel() -> (ends: (Sender<i32>, Receiver<i32>))
    ensures
        sender_capacity(ends.0) == Some(1usize),
        receiver_capacity(ends.1) == Some(1usize),
{
    bounded_channel(COMMAND_QUEUE_CAPACITY)
}

} // verus!
