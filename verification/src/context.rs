use vstd::prelude::*;

verus! {

/// One event of an aggregate's stream: the payload and its place in it.
#[derive(Debug)]
pub struct EventContext {
    /// The aggregate instance that the event belongs to.
    pub aggregate_id: String,
    /// The place of the event in its stream, counted from one.
    pub sequence: i64,
    /// The serialized event.
    pub payload: String,
}

/// An [`EventContext`] as contracts see it.
pub struct EventContextView {
    pub aggregate_id: Seq<char>,
    pub sequence: int,
    pub payload: Seq<char>,
}

impl View for EventContext {
    type V = EventContextView;

    open spec fn view(&self) -> EventContextView {
        EventContextView {
            aggregate_id: self.aggregate_id@,
            sequence: self.sequence as int,
            payload: self.payload@,
        }
    }
}

impl Clone for EventContext {
    fn clone(&self) -> (copy: Self)
        ensures
            copy@ == self@,
    {
        EventContext {
            aggregate_id: self.aggregate_id.clone(),
            sequence: self.sequence,
            payload: self.payload.clone(),
        }
    }
}

impl EventContext {
    /// The event with the given owner, place and payload.
    pub fn new(aggregate_id: String, sequence: i64, payload: String) -> (context: Self)
        ensures
            context@ == (EventContextView {
                aggregate_id: aggregate_id@,
                sequence: sequence as int,
                payload: payload@,
            }),
    {
        EventContext { aggregate_id, sequence, payload }
    }
}

/// The views of a run of events, in the same order.
pub open spec fn event_views(events: Seq<EventContext>) -> Seq<EventContextView> {
    events.map_values(|event: EventContext| event@)
}

/// The views of a run of strings, in the same order.
pub open spec fn text_views(texts: Seq<String>) -> Seq<Seq<char>> {
    texts.map_values(|text: String| text@)
}

/// The latest materialized state of one query for one aggregate.
#[derive(Debug)]
pub struct QueryContext {
    /// The aggregate instance that the state was folded from.
    pub aggregate_id: String,
    /// How many times the state was saved; zero before the first save.
    pub version: i64,
    /// The serialized query state.
    pub payload: String,
}

/// A [`QueryContext`] as contracts see it.
pub struct QueryContextView {
    pub aggregate_id: Seq<char>,
    pub version: int,
    pub payload: Seq<char>,
}

impl View for QueryContext {
    type V = QueryContextView;

    open spec fn view(&self) -> QueryContextView {
        QueryContextView {
            aggregate_id: self.aggregate_id@,
            version: self.version as int,
            payload: self.payload@,
        }
    }
}

impl Clone for QueryContext {
    fn clone(&self) -> (copy: Self)
        ensures
            copy@ == self@,
    {
        QueryContext {
            aggregate_id: self.aggregate_id.clone(),
            version: self.version,
            payload: self.payload.clone(),
        }
    }
}

impl QueryContext {
    /// The query state with the given owner, version and payload.
    pub fn new(aggregate_id: String, version: i64, payload: String) -> (context: Self)
        ensures
            context@ == (QueryContextView {
                aggregate_id: aggregate_id@,
                version: version as int,
                payload: payload@,
            }),
    {
        QueryContext { aggregate_id, version, payload }
    }
}

} // verus!
