//! The way from the capture thread to the interface.
//!
//! Activity events travel through a channel, in the order in which they were
//! sent. The capture thread must never wait for the interface: an event that
//! the channel cannot take, because it is full or because nobody listens any
//! more, is dropped.

use async_channel::{Sender, TrySendError};
use vstd::prelude::*;

use crate::detector::Action;

verus! {

/// The sending half of an `async_channel` channel. Nothing inside it is
/// visible here; it is only handed on.
#[verifier::external_type_specification]
#[verifier::external_body]
#[verifier::reject_recursive_types(T)]
pub struct ExSender<T>(Sender<T>);

/// What became of an event offered to the channel.
#[derive(Clone, Copy, Debug, PartialEq, Eq, Structural)]
pub enum Delivery {
    /// The channel took the event.
    Queued,
    /// The channel was full; the event is gone.
    Full,
    /// The channel was closed; the event is gone.
    Closed,
}

/// Calls `Sender::try_send`, which pushes the event on the channel's queue if
/// there is room and the channel is open, and never waits. Which of the three
/// outcomes comes back depends on the other side of the channel, so nothing
/// is claimed of it.
#[verifier::external_body]
fn offer(sender: &Sender<bool>, event: bool) -> (delivery: Delivery) {
    match sender.try_send(event) {
        Ok(()) => Delivery::Queued,
        Err(TrySendError::Full(_)) => Delivery::Full,
        Err(TrySendError::Closed(_)) => Delivery::Closed,
    }
}

/// What is left for the caller to do about an action once the channel has had
/// its part: the pause, in milliseconds, if the action is one.
pub open spec fn wait_of(action: Action) -> Option<u64> {
    match action {
        Action::Emit(_) => None,
        Action::Pause(pause_ms) => Some(pause_ms),
    }
}

/// Whether the event reached the queue.
pub fn was_queued(delivery: Delivery) -> (queued: bool)
    ensures
        queued == (delivery == Delivery::Queued),
{
    match delivery {
        Delivery::Queued => true,
        Delivery::Full => false,
        Delivery::Closed => false,
    }
}

/// Offers one event to the channel without waiting, and says what became of
/// it. A full or closed channel is no failure of the caller's: the event is
/// dropped and the answer says so.
pub fn publish(sender: &Sender<bool>, event: bool) -> (delivery: Delivery) {
    offer(sender, event)
}

/// Carries out one action as far as the channel is concerned: an event is
/// offered to the channel and forgotten, whatever became of it; a pause is
/// handed back for the caller to wait.
pub fn carry_out(sender: &Sender<bool>, action: Action) -> (wait_ms: Option<u64>)
    ensures
        wait_ms == wait_of(action),
{
    match action {
        Action::Emit(event) => {
            let _ = offer(sender, event);
            None
        },
        Action::Pause(pause_ms) => Some(pause_ms),
    }
}

} // verus!
