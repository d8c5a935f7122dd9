//! The queue of events a transfer has reported and the reader has not taken yet.

use vstd::prelude::*;
use std::collections::VecDeque;
use crate::isotp::reassembly::{Event, EventView};

verus! {

/// Events in the order they were reported.
#[derive(Debug)]
pub struct EventQueue {
    inner: VecDeque<Event>,
}

impl View for EventQueue {
    type V = Seq<EventView>;

    closed spec fn view(&self) -> Seq<EventView> {
        self.inner@.map_values(|e: Event| e@)
    }
}

impl EventQueue {
    pub fn new() -> (r: EventQueue)
        ensures
            r@ == Seq::<EventView>::empty(),
    {
        let r = EventQueue { inner: VecDeque::new() };
        assert(r@ =~= Seq::<EventView>::empty());
        r
    }

    /// Drops every pending event.
    pub fn clear(&mut self)
        ensures
            final(self)@ == Seq::<EventView>::empty(),
    {
        self.inner.clear();
        assert(self@ =~= Seq::<EventView>::empty());
    }

    /// Adds an event after the pending ones.
    pub fn set(&mut self, event: Event)
        ensures
            final(self)@ == old(self)@.push(event@),
    {
        let ghost e = event@;
        self.inner.push_back(event);
        assert(self@ =~= old(self)@.push(e));
    }

    /// Takes the oldest pending event, if any.
    pub fn get(&mut self) -> (r: Option<Event>)
        ensures
            old(self)@.len() == 0 ==> r is None && final(self)@ == old(self)@,
            old(self)@.len() > 0 ==> (r matches Some(e) && e@ == old(self)@[0]) && final(self)@ == old(self)@.drop_first(),
    {
        let r = self.inner.pop_front();
        proof {
            if old(self)@.len() > 0 {
                assert(self@ =~= old(self)@.drop_first());
            } else {
                assert(self@ =~= old(self)@);
            }
        }
        r
    }
}

} // verus!
