//! The receiving side of the data plane: datagrams come in from whatever
//! peer sent them, and the messages they carry wait for the application.
//!
//! A datagram that carries no message is dropped. It changes nothing, so
//! the datagram behind it is read like any other.

use vstd::prelude::*;
use crate::message::{spec_read_frame, Message, MessageView};
use crate::queue::{MessageQueue, QueueView, PEER_QUEUE_CAPACITY};

verus! {

/// What became of a received datagram.
#[derive(Debug, Clone, Copy, PartialEq, Eq, Structural)]
pub enum Receipt {
    /// The message it carries now waits for the application.
    Delivered,
    /// It carries no message and was dropped.
    Malformed,
    /// It carries a message, but the application has fallen behind by a
    /// full queue: the message was not taken.
    Full,
}

/// The queue after a datagram has come in.
pub open spec fn spec_receive(queue: QueueView, datagram: Seq<u8>) -> QueueView {
    match spec_read_frame(datagram) {
        Some(message) => queue.offer(message),
        None => queue,
    }
}

/// What becomes of a datagram that comes in.
pub open spec fn spec_receipt(queue: QueueView, datagram: Seq<u8>) -> Receipt {
    match spec_read_frame(datagram) {
        Some(_) => if queue.is_full() {
            Receipt::Full
        } else {
            Receipt::Delivered
        },
        None => Receipt::Malformed,
    }
}

/// The queue after a run of datagrams has come in, one after the other.
pub open spec fn spec_receive_all(queue: QueueView, datagrams: Seq<Seq<u8>>) -> QueueView
    decreases datagrams.len(),
{
    if datagrams.len() == 0 {
        queue
    } else {
        spec_receive(spec_receive_all(queue, datagrams.drop_last()), datagrams.last())
    }
}

/// The messages that have arrived and wait for the application.
#[derive(Debug)]
pub struct InboundChannel {
    queue: MessageQueue,
}

impl View for InboundChannel {
    type V = QueueView;

    closed spec fn view(&self) -> QueueView {
        self.queue@
    }
}

impl InboundChannel {
    /// A channel in which nothing waits.
    pub fn new() -> (r: InboundChannel)
        ensures
            r@ == (QueueView { items: Seq::empty(), capacity: PEER_QUEUE_CAPACITY as nat }),
    {
        InboundChannel { queue: MessageQueue::new(PEER_QUEUE_CAPACITY) }
    }

    /// The number of messages that wait.
    pub fn len(&self) -> (r: usize)
        ensures
            r == self@.items.len(),
    {
        self.queue.len()
    }

    /// Takes in a datagram as it was received.
    pub fn receive(&mut self, datagram: &[u8]) -> (r: Receipt)
        ensures
            final(self)@ == spec_receive(old(self)@, datagram@),
            r == spec_receipt(old(self)@, datagram@),
    {
        match Message::from_bytes(datagram) {
            Some(message) => match self.queue.push(message) {
                Ok(_) => Receipt::Delivered,
                Err(_) => Receipt::Full,
            },
            None => Receipt::Malformed,
        }
    }

    /// Hands the oldest waiting message to the application.
    pub fn take(&mut self) -> (r: Option<Message>)
        ensures
            final(self)@ == old(self)@.rest(),
            match r {
                Some(m) => old(self)@.items.len() > 0 && m@ == old(self)@.items[0],
                None => old(self)@.items.len() == 0,
            },
    {
        self.queue.pop()
    }
}

/// A datagram that carries no message does not stop the receiving side: the
/// message of the datagram behind it is delivered as if the bad one had
/// never come.
pub proof fn lemma_malformed_datagram_is_skipped(
    queue: QueueView,
    bad: Seq<u8>,
    good: Seq<u8>,
    message: MessageView,
)
    requires
        spec_read_frame(bad) is None,
        spec_read_frame(good) == Some(message),
    ensures
        spec_receipt(queue, bad) == Receipt::Malformed,
        spec_receive(spec_receive(queue, bad), good) == spec_receive(queue, good),
        !queue.is_full() ==> spec_receive(spec_receive(queue, bad), good).items
            == queue.items.push(message) && spec_receipt(spec_receive(queue, bad), good)
            == Receipt::Delivered,
{
}

/// In a whole run of datagrams, those that carry no message leave no trace:
/// taking one of them out of the run changes nothing of what is delivered.
pub proof fn lemma_malformed_datagrams_leave_no_trace(
    queue: QueueView,
    before: Seq<Seq<u8>>,
    bad: Seq<u8>,
    after: Seq<Seq<u8>>,
)
    requires
        spec_read_frame(bad) is None,
    ensures
        spec_receive_all(queue, before.push(bad) + after) == spec_receive_all(
            queue,
            before + after,
        ),
    decreases after.len(),
{
    if after.len() == 0 {
        assert(before.push(bad) + after =~= before.push(bad));
        assert(before + after =~= before);
        assert(before.push(bad).drop_last() =~= before);
    } else {
        let with_bad = before.push(bad) + after;
        let without = before + after;
        assert(with_bad.drop_last() =~= before.push(bad) + after.drop_last());
        assert(without.drop_last() =~= before + after.drop_last());
        assert(with_bad.last() == after.last());
        assert(without.last() == after.last());
        lemma_malformed_datagrams_leave_no_trace(queue, before, bad, after.drop_last());
    }
}

} // verus!
