//! The projection of a query: how one event changes its state.

use crate::context::{event_views, EventContext, EventContextView};
use crate::error::{ErrorKind, StoreError, StoreErrorView};
use vstd::prelude::*;

verus! {

/// A query, as the domain defines it. The state is handled in its
/// serialized form.
pub trait IQuery {
    /// What `update` may answer for a state and an event.
    ///
    /// A query that says nothing here promises nothing: every answer is
    /// then taken to be possible.
    open spec fn updates(
        &self,
        payload: Seq<char>,
        event: EventContextView,
        answer: Result<Seq<char>, StoreErrorView>,
    ) -> bool {
        true
    }

    /// Folds one event into a serialized state, or says why it cannot.
    fn update(&self, payload: &str, event: &EventContext) -> (outcome: Result<String, StoreError>)
        ensures
            self.updates(payload@, event@, text_outcome(outcome)),
    ;
}

/// The outcome of a fold as contracts see it.
pub open spec fn text_outcome(outcome: Result<String, StoreError>) -> Result<
    Seq<char>,
    StoreErrorView,
> {
    match outcome {
        Ok(text) => Ok(text@),
        Err(error) => Err(error@),
    }
}

/// The error of a fold that stopped at an event: the words of the query, as
/// a `SerializationFailure`.
pub open spec fn unfolded(cause: StoreErrorView) -> StoreErrorView {
    StoreErrorView { kind: ErrorKind::SerializationFailure, message: cause.message }
}

/// What folding a batch of events into a state comes to. Without events
/// the state comes back as it was. Else the query is asked to update the
/// state with the first event: if it cannot, the fold ends with its words,
/// and if it can, the rest of the batch is folded into what it answered.
pub open spec fn folds<Q: IQuery>(
    query: Q,
    payload: Seq<char>,
    events: Seq<EventContextView>,
    answer: Result<Seq<char>, StoreErrorView>,
) -> bool
    decreases events.len(),
{
    if events.len() == 0 {
        answer == Ok::<Seq<char>, StoreErrorView>(payload)
    } else {
        exists|step: Result<Seq<char>, StoreErrorView>|
            {
                &&& #[trigger] query.updates(payload, events[0], step)
                &&& match step {
                    Ok(next) => folds(query, next, events.skip(1), answer),
                    Err(cause) => answer == Err::<Seq<char>, StoreErrorView>(unfolded(cause)),
                }
            }
    }
}

/// Folding one more event: a fold of the rest of a batch that follows an
/// update of the state is a fold of the batch from that state.
proof fn lemma_fold_step<Q: IQuery>(
    query: Q,
    payload: Seq<char>,
    events: Seq<EventContextView>,
    step: Result<Seq<char>, StoreErrorView>,
    answer: Result<Seq<char>, StoreErrorView>,
)
    requires
        events.len() > 0,
        query.updates(payload, events[0], step),
        match step {
            Ok(next) => folds(query, next, events.skip(1), answer),
            Err(cause) => answer == Err::<Seq<char>, StoreErrorView>(unfolded(cause)),
        },
    ensures
        folds(query, payload, events, answer),
{
}

/// A fold fails with a `SerializationFailure` only, and one of an empty
/// batch hands the state back as it was.
pub proof fn lemma_fold_fails_in_one_way<Q: IQuery>(
    query: Q,
    payload: Seq<char>,
    events: Seq<EventContextView>,
    answer: Result<Seq<char>, StoreErrorView>,
)
    requires
        folds(query, payload, events, answer),
    ensures
        answer matches Err(error) ==> error.kind == ErrorKind::SerializationFailure,
        events.len() == 0 ==> answer == Ok::<Seq<char>, StoreErrorView>(payload),
    decreases events.len(),
{
    if events.len() > 0 {
        let step = choose|step: Result<Seq<char>, StoreErrorView>|
            {
                &&& #[trigger] query.updates(payload, events[0], step)
                &&& match step {
                    Ok(next) => folds(query, next, events.skip(1), answer),
                    Err(cause) => answer == Err::<Seq<char>, StoreErrorView>(unfolded(cause)),
                }
            };
        if let Ok(next) = step {
            lemma_fold_fails_in_one_way(query, next, events.skip(1), answer);
        }
    }
}

/// Folds a batch of events into a serialized state, from the first to the
/// last, and stops at the first event that the query cannot take: its
/// words come back as a `SerializationFailure`.
pub fn fold<Q: IQuery>(query: &Q, payload: &str, events: &Vec<EventContext>) -> (outcome: Result<
    String,
    StoreError,
>)
    ensures
        folds(*query, payload@, event_views(events@), text_outcome(outcome)),
{
    let mut state = payload.to_owned();
    let mut i: usize = 0;
    proof {
        assert(event_views(events@).skip(0) =~= event_views(events@));
    }
    while i < events.len()
        invariant
            i <= events.len(),
            forall|answer: Result<Seq<char>, StoreErrorView>| #[trigger]
                folds(*query, state@, event_views(events@).skip(i as int), answer) ==> folds(
                    *query,
                    payload@,
                    event_views(events@),
                    answer,
                ),
        decreases events.len() - i,
    {
        let ghost before = state@;
        let ghost rest = event_views(events@).skip(i as int);
        proof {
            assert(rest[0] == events@[i as int]@);
            assert(rest.skip(1) =~= event_views(events@).skip(i + 1));
        }
        match query.update(state.as_str(), &events[i]) {
            Ok(next) => {
                proof {
                    assert forall|answer: Result<Seq<char>, StoreErrorView>| #[trigger]
                        folds(
                            *query,
                            next@,
                            event_views(events@).skip(i + 1),
                            answer,
                        ) implies folds(*query, payload@, event_views(events@), answer) by {
                        lemma_fold_step(*query, before, rest, Ok(next@), answer);
                    }
                }
                state = next;
            },
            Err(cause) => {
                let error = cause.recast(ErrorKind::SerializationFailure);
                proof {
                    lemma_fold_step(*query, before, rest, Err(cause@), Err(error@));
                }
                return Err(error);
            },
        }
        i = i + 1;
    }
    proof {
        assert(folds(
            *query,
            state@,
            event_views(events@).skip(i as int),
            Ok::<Seq<char>, StoreErrorView>(state@),
        ));
    }
    Ok(state)
}

} // verus!
