//! A bounded first-in, first-out queue of messages.

use std::collections::VecDeque;
use vstd::prelude::*;
use crate::message::{Message, MessageView};

verus! {

/// How many messages wait for one peer at most.
pub const PEER_QUEUE_CAPACITY: usize = 100;

/// A queue that holds at most `capacity` messages and hands them out in the
/// order in which they came.
#[derive(Debug)]
pub struct MessageQueue {
    items: VecDeque<Message>,
    capacity: usize,
}

/// Mathematical model of a [`MessageQueue`]: the waiting messages, oldest
/// first, and the bound on their number.
pub struct QueueView {
    pub items: Seq<MessageView>,
    pub capacity: nat,
}

impl QueueView {
    /// Whether the queue takes no further message.
    pub open spec fn is_full(self) -> bool {
        self.items.len() >= self.capacity
    }

    /// The queue after an attempt to add `message`: unchanged where it is
    /// full, else with the message at its end.
    pub open spec fn offer(self, message: MessageView) -> QueueView {
        if self.is_full() {
            self
        } else {
            QueueView { items: self.items.push(message), capacity: self.capacity }
        }
    }

    /// The queue without its oldest message.
    pub open spec fn rest(self) -> QueueView {
        if self.items.len() == 0 {
            self
        } else {
            QueueView { items: self.items.drop_first(), capacity: self.capacity }
        }
    }
}

impl View for MessageQueue {
    type V = QueueView;

    closed spec fn view(&self) -> QueueView {
        QueueView {
            items: self.items@.map_values(|m: Message| m@),
            capacity: self.capacity as nat,
        }
    }
}

impl MessageQueue {
    #[verifier::type_invariant]
    spec fn bounded(&self) -> bool {
        self.items@.len() <= self.capacity
    }

    /// An empty queue for at most `capacity` messages.
    pub fn new(capacity: usize) -> (r: MessageQueue)
        ensures
            r@ == (QueueView { items: Seq::empty(), capacity: capacity as nat }),
    {
        let r = MessageQueue { items: VecDeque::new(), capacity };
        proof {
            assert(r@.items =~= Seq::empty());
        }
        r
    }

    /// The bound on the number of waiting messages.
    pub fn capacity(&self) -> (r: usize)
        ensures
            r == self@.capacity,
    {
        self.capacity
    }

    /// The number of waiting messages, which never exceeds the capacity.
    pub fn len(&self) -> (r: usize)
        ensures
            r == self@.items.len(),
            r <= self@.capacity,
    {
        proof {
            use_type_invariant(self);
        }
        self.items.len()
    }

    /// Whether no message waits.
    pub fn is_empty(&self) -> (r: bool)
        ensures
            r == (self@.items.len() == 0),
    {
        self.items.len() == 0
    }

    /// Whether the queue takes no further message.
    pub fn is_full(&self) -> (r: bool)
        ensures
            r == self@.is_full(),
    {
        self.items.len() >= self.capacity
    }

    /// Adds `message` at the end, or hands it back where the queue is full.
    pub fn push(&mut self, message: Message) -> (r: Result<(), Message>)
        ensures
            final(self)@ == old(self)@.offer(message@),
            match r {
                Ok(_) => !old(self)@.is_full(),
                Err(back) => old(self)@.is_full() && back == message,
            },
    {
        proof {
            use_type_invariant(&*self);
        }
        if self.items.len() >= self.capacity {
            Err(message)
        } else {
            let mut items: VecDeque<Message> = VecDeque::new();
            core::mem::swap(&mut self.items, &mut items);
            items.push_back(message);
            core::mem::swap(&mut self.items, &mut items);
            proof {
                assert(self@.items =~= old(self)@.items.push(message@));
            }
            Ok(())
        }
    }

    /// Takes the oldest message out, if there is one.
    pub fn pop(&mut self) -> (r: Option<Message>)
        ensures
            final(self)@ == old(self)@.rest(),
            match r {
                Some(m) => old(self)@.items.len() > 0 && m@ == old(self)@.items[0],
                None => old(self)@.items.len() == 0,
            },
    {
        proof {
            use_type_invariant(&*self);
        }
        let mut items: VecDeque<Message> = VecDeque::new();
        core::mem::swap(&mut self.items, &mut items);
        let r = items.pop_front();
        core::mem::swap(&mut self.items, &mut items);
        proof {
            if old(self)@.items.len() > 0 {
                assert(self@.items =~= old(self)@.items.drop_first());
            } else {
                assert(self@.items =~= old(self)@.items);
            }
        }
        r
    }
}

} // verus!
