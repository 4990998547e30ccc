//! The messages carried by the channel.

use vstd::prelude::*;

verus! {

/// A message exchanged with the remote counterpart.
///
/// The two numeric payloads are 32-bit floating-point values to the
/// application, but the channel never computes with them — it only carries
/// and frames them — so the core stores the raw IEEE-754 bit patterns and the
/// application converts at the boundary.
#[derive(Clone, Debug, PartialEq)]
pub enum Message {
    /// A request to move the timeline cursor.
    Timeline { offset_percentage_bits: u32 },
    /// The most recent bag-playback and buffering configuration.
    BagAndBuffer { bag_duration_bits: u32, buffer_length_bits: u32 },
    /// The state of the labeling tool.
    LabelingTool { category: String, description: String },
    /// A local control signal: stop the writer of the current connection
    /// attempt.  It is never transmitted on the wire.
    Disconnect,
}

/// The mathematical value of a [`Message`]: the same variants, with each
/// string abstracted to its sequence of characters.
pub enum MessageView {
    Timeline { offset_percentage_bits: u32 },
    BagAndBuffer { bag_duration_bits: u32, buffer_length_bits: u32 },
    LabelingTool { category: Seq<char>, description: Seq<char> },
    Disconnect,
}

impl View for Message {
    type V = MessageView;

    open spec fn view(&self) -> MessageView {
        match self {
            Message::Timeline { offset_percentage_bits } => MessageView::Timeline {
                offset_percentage_bits: *offset_percentage_bits,
            },
            Message::BagAndBuffer { bag_duration_bits, buffer_length_bits } => {
                MessageView::BagAndBuffer {
                    bag_duration_bits: *bag_duration_bits,
                    buffer_length_bits: *buffer_length_bits,
                }
            },
            Message::LabelingTool { category, description } => MessageView::LabelingTool {
                category: category@,
                description: description@,
            },
            Message::Disconnect => MessageView::Disconnect,
        }
    }
}

} // verus!
