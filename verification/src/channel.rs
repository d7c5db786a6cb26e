//! The events that a negotiation hands to its owner, and the queue that
//! carries them.

use vstd::prelude::*;

verus! {

/// What the negotiation layer tells the component that owns it.
#[derive(Debug, Clone, PartialEq, Eq)]
pub enum Event {
    /// The connection could not be established, or was lost.
    ConnectFailed,
    /// A message arrived on the data channel.
    ReceiveMsg(Vec<u8>),
}

/// An event as plain values.
pub enum EventView {
    ConnectFailed,
    ReceiveMsg(Seq<u8>),
}

impl View for Event {
    type V = EventView;

    open spec fn view(&self) -> EventView {
        match self {
            Event::ConnectFailed => EventView::ConnectFailed,
            Event::ReceiveMsg(bytes) => EventView::ReceiveMsg(bytes@),
        }
    }
}

/// `async_channel::Sender`, carried through unopened.
#[verifier::external_type_specification]
#[verifier::external_body]
#[verifier::reject_recursive_types(T)]
pub struct ExSender<T>(async_channel::Sender<T>);

/// `async_channel::Receiver`, carried through unopened.
#[verifier::external_type_specification]
#[verifier::external_body]
#[verifier::reject_recursive_types(T)]
pub struct ExReceiver<T>(async_channel::Receiver<T>);

/// The capacity that the channel of a sender was made with, as
/// `Sender::capacity` gives it.
pub uninterp spec fn sender_capacity(sender: async_channel::Sender<Event>) -> Option<usize>;

/// The capacity that the channel of a receiver was made with, as
/// `Receiver::capacity` gives it.
pub uninterp spec fn receiver_capacity(receiver: async_channel::Receiver<Event>) -> Option<usize>;

/// `async_channel::bounded`: the two ends of a new channel of the given
/// capacity. It panics on a capacity of zero.
#[verifier::external_body]
fn bounded(cap: usize) -> (ends: (async_channel::Sender<Event>, async_channel::Receiver<Event>))
    requires
        cap > 0,
    ensures
        sender_capacity(ends.0) == Some(cap),
        receiver_capacity(ends.1) == Some(cap),
{
    async_channel::bounded(cap)
}

/// `Sender::clone`: another handle to the same channel.
#[verifier::external_body]
fn another_sender(sender: &async_channel::Sender<Event>) -> (handle: async_channel::Sender<Event>)
    ensures
        sender_capacity(handle) == sender_capacity(*sender),
{
    sender.clone()
}

/// `Receiver::clone`: another handle to the same channel.
#[verifier::external_body]
fn another_receiver(receiver: &async_channel::Receiver<Event>) -> (handle: async_channel::Receiver<
    Event,
>)
    ensures
        receiver_capacity(handle) == receiver_capacity(*receiver),
{
    receiver.clone()
}

/// A bounded queue of events whose two ends can be handed out any number
/// of times.
pub trait Channel: Sized {
    type Sender;

    type Receiver;

    /// How many events the queue holds at most.
    spec fn capacity(&self) -> usize;

    /// A queue that holds `buffer` events at most.
    fn new(buffer: usize) -> (channel: Self)
        requires
            buffer > 0,
        ensures
            channel.capacity() == buffer,
    ;

    /// A handle to the sending end.
    fn sender(&self) -> Self::Sender;

    /// A handle to the receiving end.
    fn receiver(&self) -> Self::Receiver;
}

/// The event queue of a node.
pub struct AcChannel {
    sender: async_channel::Sender<Event>,
    receiver: async_channel::Receiver<Event>,
}

impl AcChannel {
    #[verifier::type_invariant]
    spec fn ends_agree(self) -> bool {
        sender_capacity(self.sender) is Some && sender_capacity(self.sender) == receiver_capacity(
            self.receiver,
        )
    }
}

impl Channel for AcChannel {
    type Sender = async_channel::Sender<Event>;

    type Receiver = async_channel::Receiver<Event>;

    closed spec fn capacity(&self) -> usize {
        sender_capacity(self.sender).unwrap()
    }

    fn new(buffer: usize) -> (channel: Self) {
        let (tx, rx) = bounded(buffer);
        Self { sender: tx, receiver: rx }
    }

    fn sender(&self) -> (handle: Self::Sender)
        ensures
            sender_capacity(handle) == Some(self.capacity()),
    {
        proof {
            use_type_invariant(self);
        }
        another_sender(&self.sender)
    }

    fn receiver(&self) -> (handle: Self::Receiver)
        ensures
            receiver_capacity(handle) == Some(self.capacity()),
    {
        proof {
            use_type_invariant(self);
        }
        another_receiver(&self.receiver)
    }
}

} // verus!
