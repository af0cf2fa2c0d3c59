//! The repository: it takes a command to the aggregate, commits the events
//! that come of it, and tells every dispatcher of them.

use crate::aggregate::{
    lemma_replay_fails_in_one_way, rebuild, rebuilds, replays, state_view, IAggregate,
};
use crate::context::{event_views, text_views, EventContext, EventContextView};
use crate::dispatcher::{CustomDispatcher, IEventDispatcher};
use crate::error::{answer_view, ErrorKind, StoreError, StoreErrorView};
use crate::event_store::{accepts, commits, rejection, stamped, EventStore};
use vstd::prelude::*;

verus! {

/// How the message of a failed delivery begins; the words of the
/// dispatcher follow.
pub const DISPATCH_FAILED: &'static str = "events are committed but a dispatcher failed: ";

/// The error that a repository reports for a dispatcher that failed with
/// the given one.
pub open spec fn dispatch_failure(cause: StoreErrorView) -> StoreErrorView {
    StoreErrorView { kind: ErrorKind::DispatchFailure, message: DISPATCH_FAILED@ + cause.message }
}

/// What telling the dispatchers of a batch comes to. With the answer `Ok`
/// each of them, in the order of the list, has been handed the batch once
/// and has taken it. Else one of them failed: those before it have taken
/// the batch, it has been handed the batch, those after it have not been
/// touched, and the answer is a `DispatchFailure` with its words.
pub open spec fn fanned_out<D: IEventDispatcher>(
    before: Seq<D>,
    after: Seq<D>,
    aggregate_id: Seq<char>,
    batch: Seq<EventContextView>,
    answer: Result<(), StoreErrorView>,
) -> bool {
    &&& after.len() == before.len()
    &&& match answer {
        Ok(()) => forall|i: int|
            0 <= i < before.len() ==> #[trigger] D::delivered(
                before[i],
                after[i],
                aggregate_id,
                batch,
                Ok(()),
            ),
        Err(error) => exists|failed: int, cause: StoreErrorView|
            {
                &&& 0 <= failed < before.len()
                &&& error == dispatch_failure(cause)
                &&& #[trigger] D::delivered(
                    before[failed],
                    after[failed],
                    aggregate_id,
                    batch,
                    Err(cause),
                )
                &&& forall|i: int|
                    0 <= i < failed ==> #[trigger] D::delivered(
                        before[i],
                        after[i],
                        aggregate_id,
                        batch,
                        Ok(()),
                    )
                &&& forall|i: int| failed < i < before.len() ==> #[trigger] after[i] == before[i]
            },
    }
}

/// Hands a batch of committed events to each dispatcher, in the order of
/// the list, and stops at the first one that fails.
pub fn dispatch_all<D: IEventDispatcher>(
    dispatchers: &mut Vec<D>,
    aggregate_id: &str,
    events: &Vec<EventContext>,
) -> (outcome: Result<(), StoreError>)
    ensures
        fanned_out(
            old(dispatchers)@,
            final(dispatchers)@,
            aggregate_id@,
            event_views(events@),
            answer_view(outcome),
        ),
{
    let mut i: usize = 0;
    while i < dispatchers.len()
        invariant
            i <= dispatchers.len(),
            dispatchers@.len() == old(dispatchers)@.len(),
            forall|j: int|
                0 <= j < i ==> #[trigger] D::delivered(
                    old(dispatchers)@[j],
                    dispatchers@[j],
                    aggregate_id@,
                    event_views(events@),
                    Ok(()),
                ),
            forall|j: int| i <= j < dispatchers@.len() ==> #[trigger] dispatchers@[j] == old(
                dispatchers,
            )@[j],
        decreases dispatchers.len() - i,
    {
        let answer = dispatchers[i].dispatch(aggregate_id, events);
        match answer {
            Ok(()) => {},
            Err(cause) => {
                let error = StoreError::with_cause(
                    ErrorKind::DispatchFailure,
                    DISPATCH_FAILED,
                    cause.message(),
                );
                proof {
                    assert(error@ == dispatch_failure(cause@));
                    assert(D::delivered(
                        old(dispatchers)@[i as int],
                        dispatchers@[i as int],
                        aggregate_id@,
                        event_views(events@),
                        Err(cause@),
                    ));
                }
                return Err(error);
            },
        }
        i = i + 1;
    }
    Ok(())
}

/// The front over the event store of one aggregate type and the
/// dispatchers that follow it.
pub struct Repository<A: IAggregate, D: IEventDispatcher> {
    /// The aggregate that commands are taken to.
    pub aggregate: A,
    /// The events of the aggregates of this type.
    pub store: EventStore,
    /// The dispatchers, in the order in which they are told.
    pub dispatchers: Vec<D>,
    /// Whether the dispatchers are told of committed events at all.
    pub with_dispatchers: bool,
}

/// What persisting a batch comes to.
///
/// The batch is committed to the store. If the store does not take it,
/// nothing changes, and the answer is the error of the store. If the store
/// takes it, it is in the store whatever comes after: the dispatchers are
/// then told of exactly the events that were made of it, unless the
/// repository was built not to tell them.
pub open spec fn persisted<A: IAggregate, D: IEventDispatcher>(
    before: Repository<A, D>,
    after: Repository<A, D>,
    aggregate_id: Seq<char>,
    payloads: Seq<Seq<char>>,
    expected: int,
    answer: Result<(), StoreErrorView>,
) -> bool {
    let length = before.store.stream(aggregate_id).len() as int;
    let batch = stamped(aggregate_id, payloads, expected);
    let rejected = rejection(aggregate_id, length, expected);
    &&& after.aggregate == before.aggregate
    &&& after.with_dispatchers == before.with_dispatchers
    &&& if accepts(length, payloads.len() as int, expected) {
        &&& commits(before.store, after.store, aggregate_id, payloads, expected, Ok(batch))
        &&& if before.with_dispatchers {
            fanned_out(before.dispatchers@, after.dispatchers@, aggregate_id, batch, answer)
        } else {
            answer is Ok && after.dispatchers@ == before.dispatchers@
        }
    } else {
        &&& commits(before.store, after.store, aggregate_id, payloads, expected, Err(rejected))
        &&& answer == Err::<(), StoreErrorView>(rejected)
        &&& after.dispatchers@ == before.dispatchers@
    }
}

/// How the message begins when an aggregate has no events to be rebuilt
/// from; its id follows.
pub const NOT_FOUND: &'static str = "no events were found for aggregate id ";

/// The error for an aggregate that has no events to be rebuilt from.
pub open spec fn not_found(aggregate_id: Seq<char>) -> StoreErrorView {
    StoreErrorView { kind: ErrorKind::NotFound, message: NOT_FOUND@ + aggregate_id }
}

/// The error for a command that the aggregate turned down: the words of
/// the aggregate, as a `Validation` error.
pub open spec fn turned_down(cause: StoreErrorView) -> StoreErrorView {
    StoreErrorView { kind: ErrorKind::Validation, message: cause.message }
}

/// What becomes of a command once its aggregate is rebuilt. The aggregate
/// is asked to handle it in that state. If it turns the command down, or
/// the command leads to no event, nothing changes. Else the events are
/// persisted, as by a writer that has seen the whole stream.
pub open spec fn decided<A: IAggregate, D: IEventDispatcher>(
    before: Repository<A, D>,
    after: Repository<A, D>,
    aggregate_id: Seq<char>,
    state: A::State,
    command: A::Command,
    answer: Result<(), StoreErrorView>,
) -> bool {
    exists|decision: Result<Seq<Seq<char>>, StoreErrorView>|
        {
            &&& #[trigger] before.aggregate.handles(state, command, decision)
            &&& match decision {
                Err(cause) => {
                    &&& answer == Err::<(), StoreErrorView>(turned_down(cause))
                    &&& unchanged(before, after)
                },
                Ok(payloads) => if payloads.len() == 0 {
                    answer is Ok && unchanged(before, after)
                } else {
                    persisted(
                        before,
                        after,
                        aggregate_id,
                        payloads,
                        before.store.stream(aggregate_id).len() as int,
                        answer,
                    )
                },
            }
        }
}

/// What executing a command comes to.
///
/// The aggregate names the instance that the command is for, and is
/// rebuilt from the events of that instance. If an event cannot be read,
/// nothing changes, and that is the answer. Else the aggregate decides on
/// the command in the state that was rebuilt.
pub open spec fn executed<A: IAggregate, D: IEventDispatcher>(
    before: Repository<A, D>,
    after: Repository<A, D>,
    command: A::Command,
    answer: Result<(), StoreErrorView>,
) -> bool {
    exists|aggregate_id: Seq<char>, rebuilt: Result<A::State, StoreErrorView>|
        {
            &&& before.aggregate.names(command, aggregate_id)
            &&& #[trigger] rebuilds(
                before.aggregate,
                before.store.stream(aggregate_id),
                rebuilt,
            )
            &&& match rebuilt {
                Err(error) => answer == Err::<(), StoreErrorView>(error) && unchanged(
                    before,
                    after,
                ),
                Ok(state) => decided(before, after, aggregate_id, state, command, answer),
            }
        }
}

/// Whether a repository holds what it held before.
pub open spec fn unchanged<A: IAggregate, D: IEventDispatcher>(
    before: Repository<A, D>,
    after: Repository<A, D>,
) -> bool {
    &&& after.aggregate == before.aggregate
    &&& after.with_dispatchers == before.with_dispatchers
    &&& after.store.aggregate_type_view() == before.store.aggregate_type_view()
    &&& after.store.events() == before.store.events()
    &&& after.dispatchers@ == before.dispatchers@
}

impl<A: IAggregate, D: IEventDispatcher> Repository<A, D> {
    /// A repository over the given store and dispatchers. With
    /// `with_dispatchers` unset, events are committed and no dispatcher is
    /// told.
    pub fn new(aggregate: A, store: EventStore, dispatchers: Vec<D>, with_dispatchers: bool) -> (repository:
        Self)
        ensures
            repository.aggregate == aggregate,
            repository.store == store,
            repository.dispatchers == dispatchers,
            repository.with_dispatchers == with_dispatchers,
    {
        Repository { aggregate, store, dispatchers, with_dispatchers }
    }

    /// Rebuilds the state of an aggregate from its events in the store,
    /// applied from the first to the last.
    ///
    /// An aggregate without events is not found. An event that the
    /// aggregate cannot read is a `SerializationFailure`; no other error
    /// occurs.
    pub fn load_aggregate_state(&self, aggregate_id: &str) -> (outcome: Result<A::State, StoreError>)
        ensures
            self.store.stream(aggregate_id@).len() == 0 ==> state_view(outcome) == Err::<
                A::State,
                StoreErrorView,
            >(not_found(aggregate_id@)),
            self.store.stream(aggregate_id@).len() > 0 ==> rebuilds(
                self.aggregate,
                self.store.stream(aggregate_id@),
                state_view(outcome),
            ),
    {
        let events = match self.store.load(aggregate_id) {
            Ok(events) => events,
            Err(error) => {
                return Err(error);
            },
        };
        if events.len() == 0 {
            return Err(StoreError::with_cause(ErrorKind::NotFound, NOT_FOUND, aggregate_id));
        }
        rebuild(&self.aggregate, &events)
    }

    /// Commits the events of a writer that has seen `expected_current_version`
    /// events of the aggregate, and tells the dispatchers of them.
    ///
    /// The error of a commit that is not taken is handed on as it is. Once
    /// the events are committed they stay committed: if a dispatcher fails
    /// then, the answer is a `DispatchFailure`, and the dispatchers after it
    /// are not told.
    pub fn persist(
        &mut self,
        aggregate_id: &str,
        new_events: Vec<String>,
        expected_current_version: i64,
    ) -> (outcome: Result<(), StoreError>)
        ensures
            persisted(
                *old(self),
                *final(self),
                aggregate_id@,
                text_views(new_events@),
                expected_current_version as int,
                answer_view(outcome),
            ),
    {
        let created = match self.store.commit(aggregate_id, new_events, expected_current_version) {
            Ok(created) => created,
            Err(error) => {
                return Err(error);
            },
        };
        if self.with_dispatchers {
            dispatch_all(&mut self.dispatchers, aggregate_id, &created)
        } else {
            Ok(())
        }
    }

    /// Executes a command: rebuilds the aggregate that it is for from its
    /// events, lets the aggregate decide, and persists the events that come
    /// of it, if any. An aggregate without events starts from the state that
    /// the domain gives it by default.
    ///
    /// The words with which the aggregate turns a command down come back
    /// as a `Validation` error.
    pub fn execute(&mut self, command: A::Command) -> (outcome: Result<(), StoreError>)
        ensures
            executed(*old(self), *final(self), command, answer_view(outcome)),
    {
        let aggregate_id = self.aggregate.aggregate_id(&command);
        let history = match self.store.load(aggregate_id.as_str()) {
            Ok(history) => history,
            Err(error) => {
                return Err(error);
            },
        };
        let state = match rebuild(&self.aggregate, &history) {
            Ok(state) => state,
            Err(error) => {
                return Err(error);
            },
        };
        let new_events = match self.aggregate.handle(&state, command) {
            Ok(new_events) => new_events,
            Err(cause) => {
                let error = cause.recast(ErrorKind::Validation);
                proof {
                    assert(decided(
                        *old(self),
                        *self,
                        aggregate_id@,
                        state,
                        command,
                        Err(error@),
                    ));
                }
                return Err(error);
            },
        };
        if new_events.len() == 0 {
            proof {
                assert(decided(*old(self), *self, aggregate_id@, state, command, Ok(())));
            }
            return Ok(());
        }
        let seen = history.len();
        proof {
            let stream = self.store.stream(aggregate_id@);
            if seen > 0 {
                assert(stream[seen - 1].sequence == seen);
                assert(event_views(history@)[seen - 1] == history@[seen - 1]@);
            }
        }
        let outcome = self.persist(aggregate_id.as_str(), new_events, seen as i64);
        proof {
            assert(decided(
                *old(self),
                *self,
                aggregate_id@,
                state,
                command,
                answer_view(outcome),
            ));
        }
        outcome
    }
}

/// Whether a dispatcher was handed the batch, once, whatever it answered.
pub open spec fn handed<D: IEventDispatcher>(
    before: D,
    after: D,
    aggregate_id: Seq<char>,
    batch: Seq<EventContextView>,
) -> bool {
    exists|taken: Result<(), StoreErrorView>| #[trigger]
        D::delivered(before, after, aggregate_id, batch, taken)
}

/// Whether exactly the first `count` dispatchers of a list were handed the
/// batch: all of them if every one took it, else those up to the one that
/// failed.
pub open spec fn reached<D: IEventDispatcher>(
    before: Seq<D>,
    after: Seq<D>,
    aggregate_id: Seq<char>,
    batch: Seq<EventContextView>,
    answer: Result<(), StoreErrorView>,
    count: int,
) -> bool {
    &&& 0 <= count <= before.len()
    &&& answer is Ok ==> count == before.len()
    &&& forall|i: int|
        0 <= i < count ==> #[trigger] handed(before[i], after[i], aggregate_id, batch)
    &&& forall|i: int| count <= i < before.len() ==> #[trigger] after[i] == before[i]
}

/// Fan-out: the dispatchers that are told of a batch are a front part of
/// the list, each of them was handed exactly that batch, once, and the rest
/// was left alone. Unless one failed, the front part is the whole list.
pub proof fn lemma_fan_out_reaches_a_front_part<D: IEventDispatcher>(
    before: Seq<D>,
    after: Seq<D>,
    aggregate_id: Seq<char>,
    batch: Seq<EventContextView>,
    answer: Result<(), StoreErrorView>,
)
    requires
        fanned_out(before, after, aggregate_id, batch, answer),
    ensures
        exists|count: int| reached(before, after, aggregate_id, batch, answer, count),
{
    match answer {
        Ok(()) => {
            assert forall|i: int| 0 <= i < before.len() implies #[trigger] handed(
                before[i],
                after[i],
                aggregate_id,
                batch,
            ) by {
                assert(D::delivered(before[i], after[i], aggregate_id, batch, Ok(())));
            }
            assert(reached(before, after, aggregate_id, batch, answer, before.len() as int));
        },
        Err(error) => {
            let (failed, cause): (int, StoreErrorView) = choose|failed: int, cause: StoreErrorView|
                {
                    &&& 0 <= failed < before.len()
                    &&& error == dispatch_failure(cause)
                    &&& #[trigger] D::delivered(
                        before[failed],
                        after[failed],
                        aggregate_id,
                        batch,
                        Err(cause),
                    )
                    &&& forall|i: int|
                        0 <= i < failed ==> #[trigger] D::delivered(
                            before[i],
                            after[i],
                            aggregate_id,
                            batch,
                            Ok(()),
                        )
                    &&& forall|i: int|
                        failed < i < before.len() ==> #[trigger] after[i] == before[i]
                };
            assert forall|i: int| 0 <= i < failed + 1 implies #[trigger] handed(
                before[i],
                after[i],
                aggregate_id,
                batch,
            ) by {
                if i < failed {
                    assert(D::delivered(before[i], after[i], aggregate_id, batch, Ok(())));
                } else {
                    assert(D::delivered(before[i], after[i], aggregate_id, batch, Err(cause)));
                }
            }
            assert(reached(before, after, aggregate_id, batch, answer, failed + 1));
        },
    }
}

/// Dispatchers that collect what they are handed never fail, so each of
/// them ends up with what it held and the whole batch after it.
pub proof fn lemma_collectors_hold_the_batch(
    before: Seq<CustomDispatcher>,
    after: Seq<CustomDispatcher>,
    aggregate_id: Seq<char>,
    batch: Seq<EventContextView>,
    answer: Result<(), StoreErrorView>,
)
    requires
        fanned_out(before, after, aggregate_id, batch, answer),
    ensures
        answer is Ok,
        forall|i: int| 0 <= i < before.len() ==> (#[trigger] after[i])@ == before[i]@ + batch,
{
    assert forall|i: int| 0 <= i < before.len() implies (#[trigger] after[i])@ == before[i]@
        + batch by {
        assert(CustomDispatcher::delivered(before[i], after[i], aggregate_id, batch, Ok(())));
    }
}

/// The kind of the error tells what became of the events. A
/// `DispatchFailure` means that they are committed and stay so, though a
/// dispatcher failed; every other error means that nothing was committed
/// and no dispatcher was told.
pub proof fn lemma_error_kind_tells_what_was_committed<A: IAggregate, D: IEventDispatcher>(
    before: Repository<A, D>,
    after: Repository<A, D>,
    aggregate_id: Seq<char>,
    payloads: Seq<Seq<char>>,
    expected: int,
    error: StoreErrorView,
)
    requires
        persisted(
            before,
            after,
            aggregate_id,
            payloads,
            expected,
            Err::<(), StoreErrorView>(error),
        ),
    ensures
        error.kind == ErrorKind::DispatchFailure ==> after.store.stream(aggregate_id)
            == before.store.stream(aggregate_id) + stamped(aggregate_id, payloads, expected),
        error.kind != ErrorKind::DispatchFailure ==> unchanged(before, after),
{
}

/// What the kind of an error of `execute` tells. Nothing was committed and
/// no dispatcher was told unless it is a `DispatchFailure`. And it is never
/// a `ConcurrencyConflict` or `NotFound`: a command is executed on the whole
/// stream of its aggregate, with or without events.
pub proof fn lemma_execution_error_kind<A: IAggregate, D: IEventDispatcher>(
    before: Repository<A, D>,
    after: Repository<A, D>,
    command: A::Command,
    error: StoreErrorView,
)
    requires
        executed(before, after, command, Err::<(), StoreErrorView>(error)),
    ensures
        error.kind != ErrorKind::DispatchFailure ==> unchanged(before, after),
        error.kind != ErrorKind::ConcurrencyConflict,
        error.kind != ErrorKind::NotFound,
{
    let answer = Err::<(), StoreErrorView>(error);
    let (aggregate_id, rebuilt): (Seq<char>, Result<A::State, StoreErrorView>) = choose|
        aggregate_id: Seq<char>,
        rebuilt: Result<A::State, StoreErrorView>,
    |
        {
            &&& before.aggregate.names(command, aggregate_id)
            &&& #[trigger] rebuilds(
                before.aggregate,
                before.store.stream(aggregate_id),
                rebuilt,
            )
            &&& match rebuilt {
                Err(error) => answer == Err::<(), StoreErrorView>(error) && unchanged(
                    before,
                    after,
                ),
                Ok(state) => decided(before, after, aggregate_id, state, command, answer),
            }
        };
    if rebuilt is Err {
        let start = choose|start: A::State|
            {
                &&& before.aggregate.starts(start)
                &&& #[trigger] replays(
                    before.aggregate,
                    start,
                    before.store.stream(aggregate_id),
                    rebuilt,
                )
            };
        lemma_replay_fails_in_one_way(
            before.aggregate,
            start,
            before.store.stream(aggregate_id),
            rebuilt,
        );
    }
}

} // verus!
