//! Event sinks: ordered delivery of status events.
//!
//! The engine's only output contract is "deliver events in decision order".
//! A sink abstracts the delivery channel; [`EventRecorder`] keeps the events
//! in memory, so a run can be examined after the fact without any live
//! consumer.

use vstd::prelude::*;
use crate::status::EventV;
use crate::status::Status;

verus! {

/// An ordered delivery channel accepting status events.
///
/// `events` is the sequence delivered so far, in order; `send` appends to it
/// and never reorders, drops or alters an event.
pub trait EventSink {
    /// The events delivered so far, in delivery order. An implementation
    /// defines this as what it has delivered.
    open spec fn events(&self) -> Seq<EventV> {
        arbitrary()
    }

    /// Deliver one event, after every event delivered before it.
    fn send(&mut self, s: Status)
        ensures
            final(self).events() == old(self).events().push(s@),
    ;
}

/// A sink that keeps every delivered event in memory, in delivery order.
pub struct EventRecorder {
    log: Vec<Status>,
}

impl EventRecorder {
    /// A recorder with no events delivered yet.
    pub fn new() -> (r: EventRecorder)
        ensures
            r.events() == Seq::<EventV>::empty(),
    {
        let r = EventRecorder { log: Vec::new() };
        proof {
            assert(r.events() =~= Seq::<EventV>::empty());
        }
        r
    }

    /// The recorded events, in delivery order.
    pub fn into_log(self) -> (v: Vec<Status>)
        ensures
            v.deep_view() == self.events(),
    {
        self.log
    }
}

impl EventSink for EventRecorder {
    closed spec fn events(&self) -> Seq<EventV> {
        self.log.deep_view()
    }

    fn send(&mut self, s: Status) {
        self.log.push(s);
        proof {
            assert(self.events() =~= old(self).events().push(s@));
        }
    }
}

} // verus!
