//! The unbounded FIFO channel between the reading side and the delivering side.
use std::collections::VecDeque;
use vstd::prelude::*;

use crate::message::MidiEvent;

verus! {

/// An unbounded queue of events. What goes in comes out unchanged, each event
/// once, in the order it went in.
pub struct EventChannel {
    queue: VecDeque<MidiEvent>,
}

impl View for EventChannel {
    type V = Seq<MidiEvent>;

    /// The events waiting, the oldest first.
    closed spec fn view(&self) -> Seq<MidiEvent> {
        self.queue@
    }
}

impl EventChannel {
    pub fn new() -> (r: Self)
        ensures
            r@ == Seq::<MidiEvent>::empty(),
    {
        EventChannel { queue: VecDeque::new() }
    }

    /// Puts one event at the back.
    pub fn send(&mut self, e: MidiEvent)
        ensures
            final(self)@ == old(self)@.push(e),
    {
        self.queue.push_back(e);
    }

    /// Puts a whole batch at the back, in batch order.
    pub fn dispatch(&mut self, batch: Vec<MidiEvent>)
        ensures
            final(self)@ == old(self)@ + batch@,
    {
        let n = batch.len();
        let mut i: usize = 0;
        while i < n
            invariant
                n == batch@.len(),
                i <= n,
                self@ == old(self)@ + batch@.subrange(0, i as int),
            decreases n - i,
        {
            self.send(batch[i]);
            assert(batch@.subrange(0, i as int + 1) =~= batch@.subrange(0, i as int).push(
                batch@[i as int],
            ));
            i = i + 1;
        }
        assert(batch@.subrange(0, n as int) =~= batch@);
    }

    /// Takes the oldest event, if there is one.
    pub fn recv(&mut self) -> (r: Option<MidiEvent>)
        ensures
            old(self)@.len() == 0 ==> r is None && final(self)@ == old(self)@,
            old(self)@.len() > 0 ==> r == Some(old(self)@[0]) && final(self)@
                == old(self)@.drop_first(),
    {
        let r = self.queue.pop_front();
        proof {
            if old(self)@.len() > 0 {
                assert(old(self)@.subrange(1, old(self)@.len() as int) =~= old(self)@.drop_first());
            }
        }
        r
    }

    pub fn len(&self) -> (r: usize)
        ensures
            r == self@.len(),
    {
        self.queue.len()
    }

    pub fn is_empty(&self) -> (r: bool)
        ensures
            r == (self@.len() == 0),
    {
        self.queue.len() == 0
    }
}

} // verus!
