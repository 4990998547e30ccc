//! The outbound queue: an ordered buffer of pending messages.
//!
//! Insertion order is delivery order.  The queue is appended to by any number
//! of producers through the client handle and drained only by the writer
//! task; it is never cleared on connection loss, so messages enqueued while
//! disconnected are sent once a new connection is established.  The
//! surrounding process guards it with one mutual-exclusion scope per
//! operation and pairs it with a wake signal raised on every enqueue.

use std::collections::VecDeque;

use vstd::prelude::*;

use crate::message::Message;
use crate::message::MessageView;

verus! {

/// The consumer side of the channel has been fully torn down (process
/// shutdown), so an enqueued message could never be drained.  It does not
/// mean the network connection is down: enqueueing succeeds while
/// disconnected.
#[derive(Clone, Copy, Debug, PartialEq, Eq)]
pub struct ChannelClosed;

/// The FIFO buffer of outbound messages, viewed as the sequence of message
/// values it holds, head first.
pub struct OutboundQueue {
    messages: VecDeque<Message>,
}

impl View for OutboundQueue {
    type V = Seq<MessageView>;

    closed spec fn view(&self) -> Seq<MessageView> {
        self.messages@.map_values(|m: Message| m@)
    }
}

impl OutboundQueue {
    /// An empty queue.
    pub fn new() -> (q: Self)
        ensures
            q@ == Seq::<MessageView>::empty(),
    {
        let q = OutboundQueue { messages: VecDeque::new() };
        proof {
            assert(q@ =~= Seq::<MessageView>::empty());
        }
        q
    }

    /// Appends a message at the tail.  Never blocks and never fails while
    /// the process runs.
    pub fn enqueue(&mut self, message: Message)
        ensures
            final(self)@ == old(self)@.push(message@),
    {
        self.messages.push_back(message);
        proof {
            assert(self@ =~= old(self)@.push(message@));
        }
    }

    /// Pops the head without blocking: `None` exactly when the queue is
    /// empty, otherwise the oldest message, leaving the rest in order.
    pub fn try_dequeue(&mut self) -> (r: Option<Message>)
        ensures
            match r {
                Option::None => old(self)@.len() == 0 && final(self)@ == old(self)@,
                Option::Some(message) => old(self)@.len() > 0 && message@ == old(self)@[0]
                    && final(self)@ == old(self)@.drop_first(),
            },
    {
        let r = self.messages.pop_front();
        proof {
            if old(self).messages@.len() > 0 {
                assert(self@ =~= old(self)@.drop_first());
            }
        }
        r
    }

    /// How many messages are pending.
    pub fn len(&self) -> (n: usize)
        ensures
            n == self@.len(),
    {
        self.messages.len()
    }

    /// Whether nothing is pending.
    pub fn is_empty(&self) -> (b: bool)
        ensures
            b <==> self@.len() == 0,
    {
        self.messages.len() == 0
    }
}

} // verus!
