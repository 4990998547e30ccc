//! The writer task's decision logic.
//!
//! The surrounding process runs the loop: it calls [`writer_step`] on the
//! outbound queue, transmits the returned frame on the transport (stopping
//! the task on a write error), suspends on the wake signal when told to
//! wait — re-checking the queue after every wakeup, so spurious wakeups are
//! harmless — and stops the task when told to stop.

use vstd::prelude::*;

use crate::codec::spec_encode;
use crate::message::Message;
use crate::message::MessageView;
use crate::queue::OutboundQueue;

verus! {

/// What the writer task does next.
#[derive(Clone, Debug)]
pub enum WriterAction {
    /// Write this frame fully to the transport, then loop again.
    Transmit(Vec<u8>),
    /// The queue was empty: suspend on the wake signal, then loop again.
    Wait,
    /// A local `Disconnect` was dequeued: terminate the task without
    /// transmitting anything.
    Stop,
}

/// The frames a writer draining this queue puts on the wire, in order: one
/// frame per message up to but not including the first `Disconnect`, which
/// ends the drain.
pub open spec fn frames_on_wire(q: Seq<MessageView>) -> Seq<Seq<u8>>
    decreases q.len(),
{
    if q.len() == 0 {
        Seq::empty()
    } else if q[0] is Disconnect {
        Seq::empty()
    } else {
        seq![spec_encode(q[0])] + frames_on_wire(q.drop_first())
    }
}

/// One step of the writer task: dequeue the head without blocking.
///
/// An empty queue means wait; a `Disconnect` head is swallowed locally and
/// stops the task — it never produces bytes on the wire; any other head is
/// encoded and handed back for transmission.  Either way the rest of the
/// queue keeps its order.
pub fn writer_step(queue: &mut OutboundQueue) -> (r: WriterAction)
    ensures
        old(queue)@.len() == 0 ==> r is Wait && final(queue)@ == old(queue)@,
        old(queue)@.len() > 0 ==> {
            &&& final(queue)@ == old(queue)@.drop_first()
            &&& match r {
                WriterAction::Stop => old(queue)@[0] is Disconnect,
                WriterAction::Transmit(frame) => !(old(queue)@[0] is Disconnect) && frame@
                    == spec_encode(old(queue)@[0]),
                WriterAction::Wait => false,
            }
            &&& (r is Stop ==> frames_on_wire(old(queue)@) == Seq::<Seq<u8>>::empty())
            &&& (r matches WriterAction::Transmit(frame) ==> frames_on_wire(old(queue)@) == seq![
                frame@,
            ] + frames_on_wire(final(queue)@))
        },
{
    match queue.try_dequeue() {
        Option::None => WriterAction::Wait,
        Option::Some(message) => match message {
            Message::Disconnect => WriterAction::Stop,
            _ => match message.encode() {
                Result::Ok(data) => WriterAction::Transmit(data),
                Result::Err(_) => {
                    proof {
                        assert(false);
                    }
                    WriterAction::Stop
                },
            },
        },
    }
}

/// FIFO delivery: a queue holding no `Disconnect` is transmitted whole, one
/// frame per message, in exactly the order the messages were enqueued —
/// however many reconnects passed while they waited.
pub proof fn lemma_fifo_delivery(q: Seq<MessageView>)
    requires
        forall|i: int| 0 <= i < q.len() ==> !((#[trigger] q[i]) is Disconnect),
    ensures
        frames_on_wire(q) == Seq::new(q.len(), |i: int| spec_encode(q[i])),
    decreases q.len(),
{
    if q.len() == 0 {
        assert(frames_on_wire(q) =~= Seq::new(q.len(), |i: int| spec_encode(q[i])));
    } else {
        lemma_fifo_delivery(q.drop_first());
        assert(frames_on_wire(q) =~= Seq::new(q.len(), |i: int| spec_encode(q[i])));
    }
}

/// FIFO across reconnects: whatever waited in the queue (none of it the
/// local `Disconnect` signal) goes on the wire first, in order, before
/// anything enqueued later — a connection loss never loses or reorders
/// queued state.
pub proof fn lemma_outage_messages_first(waited: Seq<MessageView>, later: Seq<MessageView>)
    requires
        forall|i: int| 0 <= i < waited.len() ==> !((#[trigger] waited[i]) is Disconnect),
    ensures
        frames_on_wire(waited + later) == Seq::new(waited.len(), |i: int| spec_encode(waited[i]))
            + frames_on_wire(later),
    decreases waited.len(),
{
    if waited.len() == 0 {
        assert(waited + later =~= later);
        assert(Seq::new(waited.len(), |i: int| spec_encode(waited[i])) + frames_on_wire(later)
            =~= frames_on_wire(later));
    } else {
        let rest = waited.drop_first();
        assert((waited + later).drop_first() =~= rest + later);
        lemma_outage_messages_first(rest, later);
        assert(frames_on_wire(waited + later) =~= Seq::new(
            waited.len(),
            |i: int| spec_encode(waited[i]),
        ) + frames_on_wire(later));
    }
}

/// A queue whose head is the local `Disconnect` signal transmits nothing at
/// all: the writer terminates before producing any bytes.
pub proof fn lemma_disconnect_transmits_nothing(q: Seq<MessageView>)
    requires
        q.len() > 0,
        q[0] is Disconnect,
    ensures
        frames_on_wire(q) == Seq::<Seq<u8>>::empty(),
{
}

} // verus!
