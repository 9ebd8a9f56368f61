//! The shared fan-out channel: one publisher task hands countdown
//! values to any number of independently subscribed listeners.
//!
//! The channel itself is `tokio`'s broadcast channel, reached through
//! trusted wrappers; publishing is non-blocking, a subscriber sees
//! exactly the values published after it subscribed, and a publish
//! with no subscribers is a silent no-op.

use vstd::prelude::*;
use crate::event::Event;

verus! {

/// Declares tokio::sync::broadcast::Sender, the publishing half of
/// the channel, so that it can stand in fields and signatures; it is
/// opaque here.
#[verifier::external_type_specification]
#[verifier::external_body]
#[verifier::reject_recursive_types(T)]
pub struct ExSender<T>(tokio::sync::broadcast::Sender<T>);

/// Declares tokio::sync::broadcast::Receiver, a subscription handle,
/// so that it can stand in signatures; it is opaque here and is only
/// handed through to the caller.
#[verifier::external_type_specification]
#[verifier::external_body]
#[verifier::reject_recursive_types(T)]
pub struct ExReceiver<T>(tokio::sync::broadcast::Receiver<T>);

/// Relies on tokio::sync::broadcast::channel: builds a channel whose
/// subscribers each queue up to `capacity` pending values; it panics
/// only when `capacity` is zero or above `usize::MAX / 2`, which the
/// precondition rules out. The receiver handle made alongside the
/// sender is returned with it.
#[verifier::external_body]
fn channel_raw(capacity: usize) -> (tokio::sync::broadcast::Sender<u32>, tokio::sync::broadcast::Receiver<u32>)
    requires
        0 < capacity <= usize::MAX / 2,
{
    tokio::sync::broadcast::channel(capacity)
}

/// Relies on tokio::sync::broadcast::Sender::send: it never blocks;
/// it returns `Ok` with the number of subscribed receiver handles,
/// at least one, when any exist, and otherwise hands the value back
/// as the error.
#[verifier::external_body]
fn send_raw(sender: &tokio::sync::broadcast::Sender<u32>, value: u32) -> (r: Result<usize, u32>)
    ensures
        r matches Ok(k) ==> k >= 1,
        r matches Err(v) ==> v == value,
{
    match sender.send(value) {
        Ok(k) => Ok(k),
        Err(tokio::sync::broadcast::error::SendError(v)) => Err(v),
    }
}

/// Relies on tokio::sync::broadcast::Sender::subscribe: the new
/// handle observes every value sent after this call, in send order,
/// and none sent before it.
#[verifier::external_body]
fn subscribe_raw(sender: &tokio::sync::broadcast::Sender<u32>) -> tokio::sync::broadcast::Receiver<u32>
{
    sender.subscribe()
}

/// The process-wide broadcast channel for countdown values, created
/// once at startup and shared by every publisher and subscriber.
pub struct BroadcastChannel {
    sender: tokio::sync::broadcast::Sender<u32>,
}

impl BroadcastChannel {
    /// Builds a channel whose subscribers each queue up to `capacity`
    /// pending values; a subscriber that falls further behind misses
    /// the overwritten values rather than ever blocking the publisher.
    pub fn new(capacity: usize) -> BroadcastChannel
        requires
            0 < capacity <= usize::MAX / 2,
    {
        let (sender, _receiver) = channel_raw(capacity);
        BroadcastChannel { sender }
    }

    /// Publishes `value` to every current subscriber, never blocking.
    ///
    /// With at least one subscriber the result reports how many
    /// handles, at least one, were subscribed; with none the value
    /// comes back unchanged and the call is a silent no-op. The call
    /// returns normally in every state of the channel: there is no
    /// input or state on which it fails or panics.
    pub fn publish(&self, value: u32) -> (r: Result<usize, u32>)
        ensures
            r matches Ok(k) ==> k >= 1,
            r matches Err(v) ==> v == value,
    {
        send_raw(&self.sender, value)
    }

    /// Opens a new subscription: the handle receives exactly the
    /// values published after this call, in publication order.
    pub fn subscribe(&self) -> tokio::sync::broadcast::Receiver<u32> {
        subscribe_raw(&self.sender)
    }
}

/// What one wait on a subscription handle produced: a published value,
/// or the end of the stream (the channel closed, or the subscriber
/// fell too far behind and its queue was overwritten — both end the
/// stream by design).
#[derive(Clone, Copy, Debug, PartialEq, Eq, Structural)]
pub enum RecvOutcome {
    Received(u32),
    Ended,
}

/// Turns one receive outcome into the listener's next step: a received
/// value becomes exactly one event carrying that value, and the end of
/// the channel ends the event stream — never an error.
pub fn listener_step(outcome: RecvOutcome) -> (r: Option<Event>)
    ensures
        outcome matches RecvOutcome::Received(v) ==> r == Some(Event { value: v }),
        outcome is Ended ==> r is None,
{
    match outcome {
        RecvOutcome::Received(v) => Some(Event { value: v }),
        RecvOutcome::Ended => None,
    }
}

} // verus!
