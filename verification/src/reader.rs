//! The reader task's decision logic.
//!
//! The surrounding process reads raw bytes from the transport in a loop and
//! hands each outcome to [`reader_step`] as a [`ReadEvent`]; the step decodes
//! the frame, updates the shared cache, and says whether the loop goes on.
//! The cache mutation here is the reader's only externally observable effect.

use vstd::prelude::*;

use crate::cache::SharedState;
use crate::cache::SharedStateView;
use crate::codec::spec_decode;
use crate::message::Message;
use crate::message::MessageView;

verus! {

/// One outcome of a transport read, as the surrounding process saw it.
#[derive(Clone, Debug)]
pub enum ReadEvent {
    /// A zero-length read: the peer closed the connection gracefully.
    Closed,
    /// The read itself failed with a transport error.
    Failed,
    /// A read of one or more bytes: expected to hold exactly one frame.
    Received(Vec<u8>),
}

/// Whether the reader task keeps running after a step.
#[derive(Clone, Copy, Debug, PartialEq, Eq, Structural)]
pub enum ReaderControl {
    Continue,
    Stop,
}

/// The cache after one received buffer: a frame decoding to a cached
/// category overwrites that category's slot and leaves the other alone;
/// anything else — a malformed frame, a `Timeline`, a `Disconnect` — leaves
/// the cache unchanged.
pub open spec fn spec_cache_after(cache: SharedStateView, data: Seq<u8>) -> SharedStateView {
    match spec_decode(data) {
        Option::Some(m) => match m {
            MessageView::BagAndBuffer { .. } => SharedStateView {
                bag_and_buffer: Option::Some(m),
                labeling_tool: cache.labeling_tool,
            },
            MessageView::LabelingTool { .. } => SharedStateView {
                bag_and_buffer: cache.bag_and_buffer,
                labeling_tool: Option::Some(m),
            },
            _ => cache,
        },
        Option::None => cache,
    }
}

/// Whether the reader keeps running after one received buffer: it stops only
/// on a decoded `Disconnect`; in particular a malformed frame is skipped and
/// the loop continues.
pub open spec fn spec_reader_continues(data: Seq<u8>) -> bool {
    !(spec_decode(data) matches Option::Some(MessageView::Disconnect))
}

/// One step of the reader task.
///
/// A graceful close or a read error stops the task without touching the
/// cache.  A received buffer is decoded as one frame: a malformed frame is
/// tolerated (the task continues, the cache is unchanged), a `Disconnect`
/// stops the task with no cache update, and any other message updates
/// exactly its category's slot.
pub fn reader_step(cache: &mut SharedState, event: ReadEvent) -> (r: ReaderControl)
    ensures
        match event {
            ReadEvent::Closed => r is Stop && final(cache)@ == old(cache)@,
            ReadEvent::Failed => r is Stop && final(cache)@ == old(cache)@,
            ReadEvent::Received(data) => final(cache)@ == spec_cache_after(old(cache)@, data@) && (
            r is Continue <==> spec_reader_continues(data@)),
        },
{
    match event {
        ReadEvent::Closed => ReaderControl::Stop,
        ReadEvent::Failed => ReaderControl::Stop,
        ReadEvent::Received(data) => match Message::decode(data.as_slice()) {
            Result::Err(_) => ReaderControl::Continue,
            Result::Ok(message) => match message {
                Message::Timeline { .. } => ReaderControl::Continue,
                Message::BagAndBuffer { bag_duration_bits, buffer_length_bits } => {
                    cache.last_received_message_bag_buffer = Option::Some(
                        Message::BagAndBuffer { bag_duration_bits, buffer_length_bits },
                    );
                    ReaderControl::Continue
                },
                Message::LabelingTool { category, description } => {
                    cache.last_received_message_labelling_tool = Option::Some(
                        Message::LabelingTool { category, description },
                    );
                    ReaderControl::Continue
                },
                Message::Disconnect => ReaderControl::Stop,
            },
        },
    }
}

/// A malformed frame is harmless: a buffer that decodes to no message
/// leaves the cache unchanged and the reader task running.
pub proof fn lemma_malformed_frame_harmless(cache: SharedStateView, data: Seq<u8>)
    requires
        spec_decode(data) is None,
    ensures
        spec_cache_after(cache, data) == cache,
        spec_reader_continues(data),
{
}

/// Of two received buffers in sequence that both decode to `BagAndBuffer`,
/// only the second stays cached, and the labeling-tool slot is unaffected.
pub proof fn lemma_latest_message_wins(cache: SharedStateView, d1: Seq<u8>, d2: Seq<u8>)
    requires
        spec_decode(d1) matches Option::Some(m1) && m1 is BagAndBuffer,
        spec_decode(d2) matches Option::Some(m2) && m2 is BagAndBuffer,
    ensures
        spec_cache_after(spec_cache_after(cache, d1), d2).bag_and_buffer == spec_decode(d2),
        spec_cache_after(spec_cache_after(cache, d1), d2).labeling_tool == cache.labeling_tool,
{
}

} // verus!
