//! The coalesced "refresh" wake signal towards the UI loop.
//!
//! Producers raise the signal whenever they enqueue an update; the UI loop
//! subscribes once and wakes on it. Multiple raises before the consumer
//! wakes collapse into a single wake on the consumer's side. The channel
//! itself comes from an outside crate; only the calls written here are
//! trusted.

use vstd::prelude::*;

verus! {

/// A message sent to the UI over the wake channel.
#[derive(Clone, Copy, Debug, PartialEq, Eq, Structural)]
pub enum UIUpdateMessage {
    /// Pending updates are available: drain the queues and redraw.
    RefreshUI,
}

#[verifier::external_type_specification]
#[verifier::external_body]
#[verifier::reject_recursive_types(T)]
/// The sending half of the outside crate's broadcast channel.
pub struct ExBroadcastSender<T>(tokio::sync::broadcast::Sender<T>);

#[verifier::external_type_specification]
#[verifier::external_body]
#[verifier::reject_recursive_types(T)]
/// The receiving half of the outside crate's broadcast channel.
pub struct ExBroadcastReceiver<T>(tokio::sync::broadcast::Receiver<T>);

/// The owned wake-signal endpoint that producers raise the refresh signal
/// through. It replaces ambient global state: whoever needs to signal holds
/// a reference to it.
pub struct Broadcaster {
    /// The sending half of the wake channel.
    pub sender: tokio::sync::broadcast::Sender<UIUpdateMessage>,
}

/// Raising the signal fails only when nobody is subscribed any more.
#[derive(Clone, Copy, Debug, PartialEq, Eq, Structural)]
pub struct NoSubscribers;

/// Creates the wake-signal broadcaster. The capacity bounds how many raises
/// a slow subscriber may lag behind.
///
/// Relies on tokio::sync::broadcast::channel, which panics on a capacity of
/// zero or above `usize::MAX / 2`; those capacities are excluded here.
#[verifier::external_body]
pub fn init_broadcaster(capacity: usize) -> Broadcaster
    requires
        0 < capacity <= 0x4000_0000,
{
    let (sender, _receiver) = tokio::sync::broadcast::channel(capacity);
    Broadcaster { sender }
}

/// Raises the wake signal towards every current subscriber.
///
/// Relies on tokio::sync::broadcast::Sender::send: it returns the number of
/// receivers the message reached, or an error when there are none; it never
/// blocks.
#[verifier::external_body]
pub fn broadcast_event(broadcaster: &Broadcaster, message: UIUpdateMessage) -> (r: Result<
    usize,
    NoSubscribers,
>)
    ensures
        r is Ok ==> r->Ok_0 >= 1,
{
    match broadcaster.sender.send(message) {
        Ok(n) => Ok(n),
        Err(_) => Err(NoSubscribers),
    }
}

/// Subscribes to the wake signal; the receiver wakes on every raise that
/// happens after this call.
///
/// Relies on tokio::sync::broadcast::Sender::subscribe.
#[verifier::external_body]
pub fn subscribe_to_events(broadcaster: &Broadcaster) -> tokio::sync::broadcast::Receiver<
    UIUpdateMessage,
>
{
    broadcaster.sender.subscribe()
}

} // verus!
