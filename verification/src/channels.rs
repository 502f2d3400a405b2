//! The channels of the library: those of tokio, with the identity by which the two sides of one
//! channel are known to belong together.
//!
//! A side cannot be put together from outside; it comes from the function that opens the channel,
//! or is another handle on a side that does. What is stated of those functions is trusted, not
//! proved.

use vstd::prelude::*;

verus! {

/// The side of a reply channel on which the one answer is given.
#[verifier::reject_recursive_types(T)]
pub struct Reply<T> {
    sender: tokio::sync::oneshot::Sender<T>,
    channel: Ghost<int>,
}

/// The side of a reply channel at which the one answer arrives.
#[verifier::reject_recursive_types(T)]
pub struct Answer<T> {
    receiver: tokio::sync::oneshot::Receiver<T>,
    channel: Ghost<int>,
}

/// `tokio::sync::oneshot::channel` opens a channel for one value and hands out its two sides.
///
/// Trusted: the two sides belong to one channel. Whether and when an answer arrives is not stated:
/// that rests on the tasks that hold the sides.
#[verifier::external_body]
pub(crate) fn reply_channel<T>() -> (sides: (Reply<T>, Answer<T>))
    ensures
        sides.0.channel() == sides.1.channel(),
{
    let (sender, receiver) = tokio::sync::oneshot::channel();
    (Reply { sender, channel: Ghost(0) }, Answer { receiver, channel: Ghost(0) })
}

impl<T> Reply<T> {
    /// The channel that this is a side of.
    pub closed spec fn channel(self) -> int {
        self.channel@
    }

    /// The sender of tokio.
    pub closed spec fn sender(self) -> tokio::sync::oneshot::Sender<T> {
        self.sender
    }

    /// Gives up the identity of the channel, and hands out the sender of tokio.
    pub fn into_sender(self) -> (r: tokio::sync::oneshot::Sender<T>)
        ensures
            r == self.sender(),
    {
        self.sender
    }
}

impl<T> Answer<T> {
    /// The channel that this is a side of.
    pub closed spec fn channel(self) -> int {
        self.channel@
    }

    /// The receiver of tokio.
    pub closed spec fn receiver(self) -> tokio::sync::oneshot::Receiver<T> {
        self.receiver
    }

    /// Gives up the identity of the channel, and hands out the receiver of tokio.
    pub fn into_receiver(self) -> (r: tokio::sync::oneshot::Receiver<T>)
        ensures
            r == self.receiver(),
    {
        self.receiver
    }
}

/// The side of a queue on which messages are put. It can be shared.
#[verifier::reject_recursive_types(T)]
pub struct QueueIn<T> {
    sender: tokio::sync::mpsc::Sender<T>,
    queue: Ghost<int>,
    bound: Ghost<int>,
}

/// The side of a queue at which messages arrive, in the order in which they were put.
#[verifier::reject_recursive_types(T)]
pub struct QueueOut<T> {
    receiver: tokio::sync::mpsc::Receiver<T>,
    queue: Ghost<int>,
}

/// `tokio::sync::mpsc::channel` opens a bounded queue and hands out its two sides.
///
/// Trusted: the two sides belong to one queue, which has room for `buffer` messages. Whether and
/// when a message arrives is not stated: that rests on the tasks that hold the sides. The function
/// panics on a buffer of zero and on one above `usize::MAX >> 3`; `requires` leaves those out.
#[verifier::external_body]
pub(crate) fn open_queue<T>(buffer: usize) -> (sides: (QueueIn<T>, QueueOut<T>))
    requires
        0 < buffer <= usize::MAX / 8,
    ensures
        sides.0.queue() == sides.1.queue(),
        sides.0.bound() == buffer,
{
    let (sender, receiver) = tokio::sync::mpsc::channel(buffer);
    (
        QueueIn { sender, queue: Ghost(0), bound: Ghost(buffer as int) },
        QueueOut { receiver, queue: Ghost(0) },
    )
}

impl<T> QueueIn<T> {
    /// The queue that this is a side of.
    pub closed spec fn queue(self) -> int {
        self.queue@
    }

    /// How many messages the queue has room for. Whoever puts more has to wait.
    pub closed spec fn bound(self) -> int {
        self.bound@
    }

    /// The sender of tokio.
    pub closed spec fn sends(self) -> tokio::sync::mpsc::Sender<T> {
        self.sender
    }

    /// The sender of tokio.
    pub fn sender(&self) -> (r: &tokio::sync::mpsc::Sender<T>)
        ensures
            *r == self.sends(),
    {
        &self.sender
    }
}

impl<T> Clone for QueueIn<T> {
    /// Another handle on the same side.
    fn clone(&self) -> (r: Self)
        ensures
            r == *self,
    {
        QueueIn { sender: self.sender.clone(), queue: self.queue, bound: self.bound }
    }
}

impl<T> QueueOut<T> {
    /// The queue that this is a side of.
    pub closed spec fn queue(self) -> int {
        self.queue@
    }

    /// The receiver of tokio.
    pub closed spec fn receiver(self) -> tokio::sync::mpsc::Receiver<T> {
        self.receiver
    }

    /// Gives up the identity of the queue, and hands out the receiver of tokio.
    pub fn into_receiver(self) -> (r: tokio::sync::mpsc::Receiver<T>)
        ensures
            r == self.receiver(),
    {
        self.receiver
    }
}

/// Identities tell channels and queues apart: a side can be one of any channel or queue, whatever
/// the sender or receiver that it holds, and a queue can have room for any number of messages.
pub proof fn law_sides_are_told_apart<T>(
    reply: Reply<T>,
    answer: Answer<T>,
    queue_in: QueueIn<T>,
    queue_out: QueueOut<T>,
    identity: int,
    bound: int,
)
    ensures
        exists|other: Reply<T>| #[trigger]
            other.channel() == identity && other.sender() == reply.sender(),
        exists|other: Answer<T>| #[trigger]
            other.channel() == identity && other.receiver() == answer.receiver(),
        exists|other: QueueIn<T>| #[trigger]
            other.queue() == identity && other.bound() == bound && other.sends()
                == queue_in.sends(),
        exists|other: QueueOut<T>| #[trigger]
            other.queue() == identity && other.receiver() == queue_out.receiver(),
{
    let channel = Ghost(identity);
    let other = Reply { sender: reply.sender, channel };
    assert(other.channel() == identity && other.sender() == reply.sender());
    let other = Answer { receiver: answer.receiver, channel };
    assert(other.channel() == identity && other.receiver() == answer.receiver());
    let other = QueueIn { sender: queue_in.sender, queue: channel, bound: Ghost(bound) };
    assert(other.queue() == identity && other.bound() == bound);
    let other = QueueOut { receiver: queue_out.receiver, queue: channel };
    assert(other.queue() == identity && other.receiver() == queue_out.receiver());
}

} // verus!
