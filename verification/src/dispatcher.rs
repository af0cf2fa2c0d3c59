//! Dispatchers: the sinks that are told of every batch of events that a
//! repository has committed.

use crate::context::{event_views, EventContext, EventContextView};
use crate::error::{answer_view, StoreError, StoreErrorView};
use vstd::prelude::*;

verus! {

/// A sink for committed events.
pub trait IEventDispatcher: Sized {
    /// What one delivery does: how the dispatcher after it (`after`) and
    /// the answer it gave relate to the dispatcher before it (`before`) and
    /// to the batch that was delivered.
    ///
    /// A dispatcher that says nothing here promises nothing: every change
    /// and every answer is then taken to be possible.
    open spec fn delivered(
        before: Self,
        after: Self,
        aggregate_id: Seq<char>,
        events: Seq<EventContextView>,
        answer: Result<(), StoreErrorView>,
    ) -> bool {
        true
    }

    /// Takes one batch of newly committed events of one aggregate.
    fn dispatch(&mut self, aggregate_id: &str, events: &Vec<EventContext>) -> (outcome: Result<
        (),
        StoreError,
    >)
        ensures
            Self::delivered(
                *old(self),
                *final(self),
                aggregate_id@,
                event_views(events@),
                answer_view(outcome),
            ),
    ;
}

/// A dispatcher that keeps every event it is handed, in the order of
/// arrival.
pub struct CustomDispatcher {
    events: Vec<EventContext>,
}

impl View for CustomDispatcher {
    type V = Seq<EventContextView>;

    closed spec fn view(&self) -> Seq<EventContextView> {
        event_views(self.events@)
    }
}

impl CustomDispatcher {
    /// A dispatcher that starts out with the given events.
    pub fn new(events: Vec<EventContext>) -> (dispatcher: Self)
        ensures
            dispatcher@ == event_views(events@),
    {
        CustomDispatcher { events }
    }

    /// The events received so far, oldest first.
    pub fn events(&self) -> (events: &Vec<EventContext>)
        ensures
            event_views(events@) == self@,
    {
        &self.events
    }
}

impl IEventDispatcher for CustomDispatcher {
    open spec fn delivered(
        before: Self,
        after: Self,
        aggregate_id: Seq<char>,
        events: Seq<EventContextView>,
        answer: Result<(), StoreErrorView>,
    ) -> bool {
        answer is Ok && after@ == before@ + events
    }

    fn dispatch(&mut self, aggregate_id: &str, events: &Vec<EventContext>) -> (outcome: Result<
        (),
        StoreError,
    >) {
        let mut i: usize = 0;
        proof {
            assert(self@ + event_views(events@).take(0) =~= self@);
        }
        while i < events.len()
            invariant
                i <= events.len(),
                self@ == old(self)@ + event_views(events@).take(i as int),
            decreases events.len() - i,
        {
            let ghost held = self.events@;
            let event = events[i].clone();
            self.events.push(event);
            proof {
                assert(event_views(self.events@) =~= event_views(held).push(event@));
                assert(event_views(events@).take(i + 1) =~= event_views(events@).take(
                    i as int,
                ).push(event@));
                assert(event_views(held).push(event@) =~= old(self)@ + event_views(events@).take(
                    i + 1,
                ));
            }
            i = i + 1;
        }
        proof {
            assert(event_views(events@).take(i as int) =~= event_views(events@));
        }
        Ok(())
    }
}

} // verus!
