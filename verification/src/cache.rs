//! The shared state cache: the last received message of each tracked
//! category.
//!
//! The reader task is the only writer of this record; external consumers read
//! it best-effort.  "No message yet" (`None`) is a valid state distinct from
//! "message received".  `Timeline` messages have no slot: they are observed
//! but not cached.

use vstd::prelude::*;

use crate::message::Message;
use crate::message::MessageView;

verus! {

/// The mathematical value of the cache: one optional message per category.
pub struct SharedStateView {
    pub bag_and_buffer: Option<MessageView>,
    pub labeling_tool: Option<MessageView>,
}

/// The last received message per category.
#[derive(Clone, Debug, PartialEq)]
pub struct SharedState {
    pub last_received_message_bag_buffer: Option<Message>,
    pub last_received_message_labelling_tool: Option<Message>,
}

impl View for SharedState {
    type V = SharedStateView;

    open spec fn view(&self) -> SharedStateView {
        SharedStateView {
            bag_and_buffer: match self.last_received_message_bag_buffer {
                Option::Some(m) => Option::Some(m@),
                Option::None => Option::None,
            },
            labeling_tool: match self.last_received_message_labelling_tool {
                Option::Some(m) => Option::Some(m@),
                Option::None => Option::None,
            },
        }
    }
}

impl SharedState {
    /// A cache that has received nothing yet.
    pub fn new() -> (s: Self)
        ensures
            s@.bag_and_buffer is None,
            s@.labeling_tool is None,
    {
        SharedState {
            last_received_message_bag_buffer: Option::None,
            last_received_message_labelling_tool: Option::None,
        }
    }
}

impl Default for SharedState {
    /// Same as [`SharedState::new`]: both slots empty.
    fn default() -> (s: Self)
        ensures
            s@.bag_and_buffer is None,
            s@.labeling_tool is None,
    {
        SharedState::new()
    }
}

} // verus!
