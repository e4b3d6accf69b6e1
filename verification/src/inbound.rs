//! Inbound message order.
//!
//! The transport notifies the dispatcher exactly once per received
//! message, preserving arrival order, and the dispatch loop is strictly
//! single-consumer: it serializes dispatch calls in that order. The queue
//! between the two is first-in, first-out; this module states and proves
//! that discipline.

use std::collections::VecDeque;

use vstd::prelude::*;

use crate::registry::EventEnvelope;

verus! {

/// The queue between the transport's receive path and the dispatch loop:
/// arrivals enter at the back, dispatch takes from the front.
pub struct InboundQueue {
    queue: VecDeque<EventEnvelope>,
}

impl InboundQueue {
    /// The queued envelopes, oldest first.
    pub closed spec fn waiting(&self) -> Seq<EventEnvelope> {
        self.queue@
    }

    /// An empty queue.
    pub fn new() -> (r: InboundQueue)
        ensures
            r.waiting() == Seq::<EventEnvelope>::empty(),
    {
        let r = InboundQueue { queue: VecDeque::new() };
        proof {
            assert(r.waiting() =~= Seq::<EventEnvelope>::empty());
        }
        r
    }

    /// One received message joins the back of the queue: each message is
    /// enqueued exactly once, in arrival order.
    pub fn received(&mut self, envelope: EventEnvelope)
        ensures
            final(self).waiting() == old(self).waiting().push(envelope),
    {
        self.queue.push_back(envelope);
    }

    /// The dispatch loop takes the oldest message; the younger ones keep
    /// their order.
    pub fn next_to_dispatch(&mut self) -> (r: Option<EventEnvelope>)
        ensures
            match r {
                Some(e) => old(self).waiting().len() > 0 && e == old(self).waiting()[0]
                    && final(self).waiting() == old(self).waiting().drop_first(),
                None => old(self).waiting().len() == 0
                    && final(self).waiting() == old(self).waiting(),
            },
    {
        let r = self.queue.pop_front();
        proof {
            if old(self).waiting().len() > 0 {
                assert(self.waiting() =~= old(self).waiting().drop_first());
            }
        }
        r
    }

    /// How many messages wait.
    pub fn len(&self) -> (r: usize)
        ensures
            r == self.waiting().len(),
    {
        self.queue.len()
    }
}

} // verus!
