//! The event bus: an append-only event log with per-subscriber
//! cursors. Publishing never blocks and never fails; a subscriber that
//! falls more than `capacity` events behind loses the oldest events
//! (lag) instead of stalling the publisher.

use vstd::prelude::*;
use crate::events::{AppEvent, EventModel};

verus! {

/// A receive handle. It observes only events published after it was
/// created, in order; it never sees an event twice.
pub struct Subscriber {
    pub cursor: usize,
}

pub struct Bus {
    pub events: Vec<AppEvent>,
    pub capacity: usize,
}

impl View for Bus {
    type V = Seq<EventModel>;

    open spec fn view(&self) -> Seq<EventModel> {
        self.events@.map_values(|e: AppEvent| e@)
    }
}

/// Where the next read of a subscriber at `cursor` starts: at the
/// cursor, or, when the subscriber has lagged more than `capacity`
/// events behind, at the oldest retained event.
pub open spec fn poll_start(len: int, capacity: int, cursor: int) -> int {
    if len - capacity > cursor {
        len - capacity
    } else {
        cursor
    }
}

impl Bus {
    pub fn new(capacity: usize) -> (b: Bus)
        requires
            capacity >= 1,
        ensures
            b@ == Seq::<EventModel>::empty(),
            b.capacity == capacity,
    {
        let b = Bus { events: Vec::new(), capacity };
        proof {
            assert(b@ =~= Seq::<EventModel>::empty());
        }
        b
    }

    /// Fans the event out: every current and future subscriber that
    /// does not lag will observe it. Never blocks, never fails.
    pub fn publish(&mut self, e: AppEvent)
        ensures
            final(self)@ == old(self)@.push(e@),
            final(self).capacity == old(self).capacity,
    {
        let ghost pre = self.events@;
        self.events.push(e);
        proof {
            assert(self@ =~= pre.map_values(|ev: AppEvent| ev@).push(e@));
        }
    }

    /// A fresh handle that observes exactly the events published from
    /// this point forward; there is no replay of history.
    pub fn subscribe(&self) -> (s: Subscriber)
        ensures
            s.cursor == self@.len(),
    {
        Subscriber { cursor: self.events.len() }
    }

    /// The next event for this subscriber, or `None` when it has seen
    /// everything. A subscriber that lagged more than `capacity` events
    /// behind is skipped forward to the oldest retained event.
    pub fn poll<'a>(&'a self, sub: &mut Subscriber) -> (r: Option<&'a AppEvent>)
        requires
            self.capacity >= 1,
        ensures
            ({
                let start = poll_start(self@.len() as int, self.capacity as int, old(sub).cursor as int);
                match r {
                    Option::None => {
                        &&& final(sub).cursor == old(sub).cursor
                        &&& old(sub).cursor >= self@.len()
                    },
                    Option::Some(e) => {
                        &&& old(sub).cursor < self@.len()
                        &&& start < self@.len()
                        &&& e@ == self@[start]
                        &&& final(sub).cursor == start + 1
                        &&& final(sub).cursor > old(sub).cursor
                    },
                }
            }),
    {
        let len = self.events.len();
        if sub.cursor >= len {
            return Option::None;
        }
        let oldest = if len > self.capacity {
            len - self.capacity
        } else {
            0
        };
        let start = if sub.cursor < oldest {
            oldest
        } else {
            sub.cursor
        };
        let e = &self.events[start];
        sub.cursor = start + 1;
        Option::Some(e)
    }
}

/// A subscriber never receives an event published before it
/// subscribed: every delivered index is at least the cursor the
/// subscription started with, and the cursor never moves backwards.
pub proof fn lemma_late_subscriber(len: int, capacity: int, cursor: int)
    ensures
        poll_start(len, capacity, cursor) >= cursor,
{
}

} // verus!
