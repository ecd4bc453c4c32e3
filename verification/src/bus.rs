//! The event bus: one broadcast channel that every component publishes to
//! and subscribes from. The channel is tokio's; a slow subscriber lags and
//! misses events, publishers never wait.

use vstd::prelude::*;
use crate::events::Event;

verus! {

#[verifier::external_type_specification]
#[verifier::external_body]
#[verifier::reject_recursive_types(T)]
pub struct ExSender<T>(tokio::sync::broadcast::Sender<T>);

#[verifier::external_type_specification]
#[verifier::external_body]
#[verifier::reject_recursive_types(T)]
pub struct ExReceiver<T>(tokio::sync::broadcast::Receiver<T>);

/// The sending half of the bus.
pub type EventSender = tokio::sync::broadcast::Sender<Event>;

/// A subscription to the bus.
pub type EventReceiver = tokio::sync::broadcast::Receiver<Event>;

/// The largest capacity a bus can be made with.
pub const MAX_CAPACITY: usize = usize::MAX / 2;

/// Why an event was not published.
#[derive(Clone, Copy, Debug, PartialEq, Eq, Structural)]
pub enum BusError {
    /// Nobody is subscribed; the event is lost.
    NoSubscribers,
}

/// What a subscription holds next.
#[derive(Debug)]
pub enum Received {
    /// The next event, in publication order.
    Event(Event),
    /// Nothing is waiting.
    Empty,
    /// Every publisher is gone.
    Closed,
    /// The subscriber fell behind and missed this many events; the next read
    /// gives the oldest event still held.
    Lagged(u64),
}

/// `tokio::sync::broadcast::channel`, keeping the sender only. The channel
/// panics on a capacity of zero or above half of `usize::MAX`, which the
/// precondition excludes.
#[verifier::external_body]
fn open_channel(capacity: usize) -> (tx: EventSender)
    requires
        0 < capacity <= MAX_CAPACITY,
{
    tokio::sync::broadcast::channel(capacity).0
}

/// `Sender::send`: the number of receivers the event was queued for, which
/// is at least one; `None` where there is no receiver.
#[verifier::external_body]
fn send_event(tx: &EventSender, event: Event) -> (receivers: Option<usize>)
    ensures
        receivers matches Some(n) ==> n >= 1,
{
    match tx.send(event) {
        Ok(n) => Some(n),
        Err(_) => None,
    }
}

/// `Sender::subscribe`: a receiver of every event sent from now on.
#[verifier::external_body]
fn new_receiver(tx: &EventSender) -> EventReceiver {
    tx.subscribe()
}

/// `Sender::clone`: another handle to the same channel.
#[verifier::external_body]
fn same_channel(tx: &EventSender) -> EventSender {
    tx.clone()
}

/// `Sender::receiver_count`: how many receivers are subscribed right now.
#[verifier::external_body]
fn count_receivers(tx: &EventSender) -> usize {
    tx.receiver_count()
}

/// `Receiver::try_recv`: the next event if one is waiting, else why none is.
/// Which of these comes depends on what was sent through other handles;
/// of every answer it holds that a lag marker counts at least one missed
/// event, since a receiver that missed none is handed its event instead.
#[verifier::external_body]
fn next_event(rx: &mut EventReceiver) -> (r: Received)
    ensures
        r matches Received::Lagged(missed) ==> missed >= 1,
{
    match rx.try_recv() {
        Ok(event) => Received::Event(event),
        Err(tokio::sync::broadcast::error::TryRecvError::Empty) => Received::Empty,
        Err(tokio::sync::broadcast::error::TryRecvError::Closed) => Received::Closed,
        Err(tokio::sync::broadcast::error::TryRecvError::Lagged(n)) => Received::Lagged(n),
    }
}

/// The bus: a handle to the channel, and the capacity it was made with.
pub struct EventBus {
    tx: EventSender,
    capacity: usize,
}

impl Clone for EventBus {
    /// Another handle to the same bus.
    fn clone(&self) -> (r: Self)
        ensures
            r.spec_capacity() == self.spec_capacity(),
    {
        EventBus { tx: same_channel(&self.tx), capacity: self.capacity }
    }
}

/// What a publication gives for the channel's answer: the number of
/// subscribers the event was queued for, or `NoSubscribers` where the
/// channel had nobody to queue it for.
pub open spec fn spec_publish_outcome(queued: Option<usize>) -> Result<usize, BusError> {
    match queued {
        Some(n) => Ok(n),
        None => Err(BusError::NoSubscribers),
    }
}

/// What a publication gives for the channel's answer.
pub fn publish_outcome(queued: Option<usize>) -> (r: Result<usize, BusError>)
    ensures
        r == spec_publish_outcome(queued),
{
    match queued {
        Some(n) => Ok(n),
        None => Err(BusError::NoSubscribers),
    }
}

impl EventBus {
    /// The capacity the bus was made with: how many events it holds for
    /// its slowest subscriber before that subscriber lags.
    pub closed spec fn spec_capacity(&self) -> usize {
        self.capacity
    }

    /// A bus that holds up to `capacity` events for its slowest subscriber.
    pub fn new(capacity: usize) -> (bus: Self)
        requires
            0 < capacity <= MAX_CAPACITY,
        ensures
            bus.spec_capacity() == capacity,
    {
        EventBus { tx: open_channel(capacity), capacity }
    }

    /// A bus with the given capacity, or `None` where the capacity is zero or
    /// beyond what a bus can hold.
    pub fn with_capacity(capacity: usize) -> (bus: Option<Self>)
        ensures
            bus is Some <==> 0 < capacity <= MAX_CAPACITY,
            bus matches Some(b) ==> b.spec_capacity() == capacity,
    {
        if 0 < capacity && capacity <= MAX_CAPACITY {
            Some(EventBus::new(capacity))
        } else {
            None
        }
    }

    /// The capacity the bus was made with.
    pub fn capacity(&self) -> (c: usize)
        ensures
            c == self.spec_capacity(),
    {
        self.capacity
    }

    /// Subscribes: the receiver gets every event published from now on.
    pub fn subscribe(&self) -> EventReceiver {
        new_receiver(&self.tx)
    }

    /// How many subscribers the bus has right now.
    pub fn subscriber_count(&self) -> usize {
        count_receivers(&self.tx)
    }

    /// Publishes an event to every subscriber. Gives the number of
    /// subscribers it was queued for, or `NoSubscribers`. Whether there is
    /// a subscriber is the channel's to say; a publication that succeeds
    /// reached at least one.
    pub fn publish(&self, event: Event) -> (r: Result<usize, BusError>)
        ensures
            r matches Ok(n) ==> n >= 1,
    {
        publish_outcome(send_event(&self.tx, event))
    }

    /// Takes the next event of a subscription without waiting. Which event
    /// comes, if any, is the channel's to say; a lag marker counts at least
    /// one missed event.
    pub fn try_receive(rx: &mut EventReceiver) -> (r: Received)
        ensures
            r matches Received::Lagged(missed) ==> missed >= 1,
    {
        next_event(rx)
    }
}

} // verus!
