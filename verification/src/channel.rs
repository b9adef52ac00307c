//! Non-blocking event channel: an unbounded FIFO queue of raw byte
//! events, bridging the driver's callback context to the per-frame
//! update context.
//!
//! `send` appends and never fails; `drain_available` removes and
//! returns everything queued, in arrival order, and yields an empty
//! batch at once when nothing is queued. The cross-thread hand-off
//! around this queue is the embedding program's affair; the queue's
//! ordering contract is stated here.

use vstd::prelude::*;

verus! {

/// An unbounded FIFO queue of raw MIDI events.
pub struct EventChannel {
    queue: Vec<Vec<u8>>,
}

impl View for EventChannel {
    type V = Seq<Seq<u8>>;

    closed spec fn view(&self) -> Seq<Seq<u8>> {
        self.queue@.map_values(|e: Vec<u8>| e@)
    }
}

impl EventChannel {
    /// An empty channel.
    pub fn new() -> (r: EventChannel)
        ensures
            r@ == Seq::<Seq<u8>>::empty(),
    {
        let r = EventChannel { queue: Vec::new() };
        proof {
            assert(r@ =~= Seq::<Seq<u8>>::empty());
        }
        r
    }

    /// How many events are queued.
    pub fn len(&self) -> (n: usize)
        ensures
            n == self@.len(),
    {
        self.queue.len()
    }

    /// Enqueue one raw event after everything already queued. Never
    /// blocks and never fails: the queue is unbounded.
    pub fn send(&mut self, event: Vec<u8>)
        ensures
            final(self)@ == old(self)@.push(event@),
    {
        self.queue.push(event);
        proof {
            assert(self@ =~= old(self)@.push(event@));
        }
    }

    /// Remove and return every queued event at once, in arrival order;
    /// the channel is empty afterwards. Never blocks: an empty channel
    /// yields an empty batch immediately.
    pub fn drain_available(&mut self) -> (events: Vec<Vec<u8>>)
        ensures
            events@.map_values(|e: Vec<u8>| e@) == old(self)@,
            final(self)@ == Seq::<Seq<u8>>::empty(),
    {
        let mut events: Vec<Vec<u8>> = Vec::new();
        core::mem::swap(&mut self.queue, &mut events);
        proof {
            assert(self@ =~= Seq::<Seq<u8>>::empty());
        }
        events
    }
}

/// What the channel holds after the events are sent in order into a
/// channel holding `q`.
pub open spec fn sends_spec(q: Seq<Seq<u8>>, events: Seq<Seq<u8>>) -> Seq<Seq<u8>>
    decreases events.len(),
{
    if events.len() == 0 {
        q
    } else {
        sends_spec(q.push(events[0]), events.drop_first())
    }
}

/// FIFO ordering: sending events in order appends exactly those
/// events, in that order, after what the channel already held — no
/// reordering, no duplication, no loss. A drain then yields precisely
/// them.
pub proof fn lemma_fifo_order(q: Seq<Seq<u8>>, events: Seq<Seq<u8>>)
    ensures
        sends_spec(q, events) == q + events,
    decreases events.len(),
{
    if events.len() == 0 {
        assert(q + events =~= q);
    } else {
        lemma_fifo_order(q.push(events[0]), events.drop_first());
        assert(q.push(events[0]) + events.drop_first() =~= q + events);
    }
}

} // verus!
