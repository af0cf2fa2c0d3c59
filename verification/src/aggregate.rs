//! What a repository needs to know of the aggregate that it serves: which
//! instance a command is for, the state before any event, how one event
//! changes the state, and which events a command leads to.

use crate::context::{event_views, text_views, EventContext, EventContextView};
use crate::error::{ErrorKind, StoreError, StoreErrorView};
use vstd::prelude::*;

verus! {

/// An aggregate, as the domain defines it.
///
/// Each method comes with a relation that says what it may answer. An
/// aggregate that says nothing there promises nothing: every answer is then
/// taken to be possible.
pub trait IAggregate {
    /// What the aggregate is asked to do.
    type Command;

    /// What the aggregate knows of itself.
    type State;

    /// What `aggregate_id` may answer for a command.
    open spec fn names(&self, command: Self::Command, aggregate_id: Seq<char>) -> bool {
        true
    }

    /// What `default_state` may answer.
    open spec fn starts(&self, state: Self::State) -> bool {
        true
    }

    /// What `apply` may answer for a state and an event.
    open spec fn applies(
        &self,
        state: Self::State,
        event: EventContextView,
        answer: Result<Self::State, StoreErrorView>,
    ) -> bool {
        true
    }

    /// What `handle` may answer for a state and a command.
    open spec fn handles(
        &self,
        state: Self::State,
        command: Self::Command,
        answer: Result<Seq<Seq<char>>, StoreErrorView>,
    ) -> bool {
        true
    }

    /// The aggregate instance that a command is for.
    fn aggregate_id(&self, command: &Self::Command) -> (id: String)
        ensures
            self.names(*command, id@),
    ;

    /// The state of an aggregate without events.
    fn default_state(&self) -> (state: Self::State)
        ensures
            self.starts(state),
    ;

    /// Applies one event to a state, or says why the event cannot be read.
    fn apply(&self, state: Self::State, event: &EventContext) -> (outcome: Result<
        Self::State,
        StoreError,
    >)
        ensures
            self.applies(state, event@, state_view(outcome)),
    ;

    /// Handles a command in a state: the serialized events that it leads
    /// to, none if nothing is to happen, or the reason to turn it down.
    fn handle(&self, state: &Self::State, command: Self::Command) -> (outcome: Result<
        Vec<String>,
        StoreError,
    >)
        ensures
            self.handles(*state, command, decision_view(outcome)),
    ;
}

/// A state or an error as contracts see it.
pub open spec fn state_view<S>(outcome: Result<S, StoreError>) -> Result<S, StoreErrorView> {
    match outcome {
        Ok(state) => Ok(state),
        Err(error) => Err(error@),
    }
}

/// The answer to a command as contracts see it.
pub open spec fn decision_view(outcome: Result<Vec<String>, StoreError>) -> Result<
    Seq<Seq<char>>,
    StoreErrorView,
> {
    match outcome {
        Ok(payloads) => Ok(text_views(payloads@)),
        Err(error) => Err(error@),
    }
}

/// The error for an event that the aggregate could not read: the words of
/// the aggregate, as a `SerializationFailure`.
pub open spec fn unread(cause: StoreErrorView) -> StoreErrorView {
    StoreErrorView { kind: ErrorKind::SerializationFailure, message: cause.message }
}

/// What applying a run of events to a state comes to. Without events the
/// state comes back as it was. Else the aggregate is asked to apply the
/// first event: if it cannot, that is the end, with its words, and if it can,
/// the rest is applied to what it answered.
pub open spec fn replays<A: IAggregate>(
    aggregate: A,
    state: A::State,
    events: Seq<EventContextView>,
    answer: Result<A::State, StoreErrorView>,
) -> bool
    decreases events.len(),
{
    if events.len() == 0 {
        answer == Ok::<A::State, StoreErrorView>(state)
    } else {
        exists|step: Result<A::State, StoreErrorView>|
            {
                &&& #[trigger] aggregate.applies(state, events[0], step)
                &&& match step {
                    Ok(next) => replays(aggregate, next, events.skip(1), answer),
                    Err(cause) => answer == Err::<A::State, StoreErrorView>(unread(cause)),
                }
            }
    }
}

/// What rebuilding an aggregate from its events comes to: the events are
/// applied, oldest first, to a state that the aggregate starts from.
pub open spec fn rebuilds<A: IAggregate>(
    aggregate: A,
    events: Seq<EventContextView>,
    answer: Result<A::State, StoreErrorView>,
) -> bool {
    exists|start: A::State|
        {
            &&& aggregate.starts(start)
            &&& #[trigger] replays(aggregate, start, events, answer)
        }
}

/// Applying one more event: what applying the rest of a run comes to after
/// the first event was applied is what applying the run comes to.
proof fn lemma_replay_step<A: IAggregate>(
    aggregate: A,
    state: A::State,
    events: Seq<EventContextView>,
    step: Result<A::State, StoreErrorView>,
    answer: Result<A::State, StoreErrorView>,
)
    requires
        events.len() > 0,
        aggregate.applies(state, events[0], step),
        match step {
            Ok(next) => replays(aggregate, next, events.skip(1), answer),
            Err(cause) => answer == Err::<A::State, StoreErrorView>(unread(cause)),
        },
    ensures
        replays(aggregate, state, events, answer),
{
}

/// Rebuilding fails with a `SerializationFailure` only.
pub proof fn lemma_replay_fails_in_one_way<A: IAggregate>(
    aggregate: A,
    state: A::State,
    events: Seq<EventContextView>,
    answer: Result<A::State, StoreErrorView>,
)
    requires
        replays(aggregate, state, events, answer),
    ensures
        answer matches Err(error) ==> error.kind == ErrorKind::SerializationFailure,
    decreases events.len(),
{
    if events.len() > 0 {
        let step = choose|step: Result<A::State, StoreErrorView>|
            {
                &&& #[trigger] aggregate.applies(state, events[0], step)
                &&& match step {
                    Ok(next) => replays(aggregate, next, events.skip(1), answer),
                    Err(cause) => answer == Err::<A::State, StoreErrorView>(unread(cause)),
                }
            };
        if let Ok(next) = step {
            lemma_replay_fails_in_one_way(aggregate, next, events.skip(1), answer);
        }
    }
}

/// Rebuilds the state of an aggregate from its events: starts from the
/// state that the aggregate gives by default and applies the events from
/// the first to the last. An event that the aggregate cannot read ends it,
/// with the words of the aggregate as a `SerializationFailure`.
pub fn rebuild<A: IAggregate>(aggregate: &A, events: &Vec<EventContext>) -> (outcome: Result<
    A::State,
    StoreError,
>)
    ensures
        rebuilds(*aggregate, event_views(events@), state_view(outcome)),
{
    let mut state = aggregate.default_state();
    let ghost start = state;
    let mut i: usize = 0;
    proof {
        assert(event_views(events@).skip(0) =~= event_views(events@));
    }
    while i < events.len()
        invariant
            i <= events.len(),
            aggregate.starts(start),
            forall|answer: Result<A::State, StoreErrorView>| #[trigger]
                replays(*aggregate, state, event_views(events@).skip(i as int), answer)
                    ==> replays(*aggregate, start, event_views(events@), answer),
        decreases events.len() - i,
    {
        let ghost before = state;
        let ghost rest = event_views(events@).skip(i as int);
        proof {
            assert(rest[0] == events@[i as int]@);
            assert(rest.skip(1) =~= event_views(events@).skip(i + 1));
        }
        match aggregate.apply(state, &events[i]) {
            Ok(next) => {
                proof {
                    assert forall|answer: Result<A::State, StoreErrorView>| #[trigger]
                        replays(
                            *aggregate,
                            next,
                            event_views(events@).skip(i + 1),
                            answer,
                        ) implies replays(*aggregate, start, event_views(events@), answer) by {
                        lemma_replay_step(*aggregate, before, rest, Ok(next), answer);
                    }
                }
                state = next;
            },
            Err(cause) => {
                let error = cause.recast(ErrorKind::SerializationFailure);
                proof {
                    lemma_replay_step(*aggregate, before, rest, Err(cause@), Err(error@));
                    assert(replays(*aggregate, start, event_views(events@), Err(error@)));
                }
                return Err(error);
            },
        }
        i = i + 1;
    }
    proof {
        assert(replays(
            *aggregate,
            state,
            event_views(events@).skip(i as int),
            Ok::<A::State, StoreErrorView>(state),
        ));
        assert(replays(
            *aggregate,
            start,
            event_views(events@),
            Ok::<A::State, StoreErrorView>(state),
        ));
    }
    Ok(state)
}

} // verus!
