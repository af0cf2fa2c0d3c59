//! The event store: one append-only log for the aggregates of one type,
//! kept in memory. Every stream in it is numbered 1, 2, 3, ... without a gap,
//! and a commit is taken only from a writer that has seen the whole stream.

use crate::context::{event_views, text_views, EventContext, EventContextView};
use crate::error::{ErrorKind, StoreError, StoreErrorView};
use vstd::prelude::*;
use vstd::string::StringExecFns;

verus! {

/// The events of one aggregate among those of a log, in the log's order.
pub open spec fn stream_of(log: Seq<EventContextView>, aggregate_id: Seq<char>) -> Seq<
    EventContextView,
> {
    log.filter(|event: EventContextView| event.aggregate_id == aggregate_id)
}

/// Whether the events carry the numbers 1, 2, 3, ... in this order.
pub open spec fn numbered(stream: Seq<EventContextView>) -> bool {
    forall|k: int| 0 <= k < stream.len() ==> (#[trigger] stream[k]).sequence == k + 1
}

/// Whether every event belongs to the given aggregate.
pub open spec fn owned_by(stream: Seq<EventContextView>, aggregate_id: Seq<char>) -> bool {
    forall|k: int| 0 <= k < stream.len() ==> (#[trigger] stream[k]).aggregate_id == aggregate_id
}

/// The events that a commit makes of its payloads: one each, in order, for
/// the given aggregate, numbered from the one after `expected`.
pub open spec fn stamped(aggregate_id: Seq<char>, payloads: Seq<Seq<char>>, expected: int) -> Seq<
    EventContextView,
> {
    Seq::new(
        payloads.len(),
        |k: int|
            EventContextView { aggregate_id, sequence: expected + 1 + k, payload: payloads[k] },
    )
}

/// Whether a writer that expects `expected` events in a stream of `length`
/// has missed some, or counts some that are not there.
pub open spec fn conflicts(length: int, expected: int) -> bool {
    expected != length
}

/// Whether a commit of `count` events is taken: the writer has seen the
/// whole stream, and the new numbers still fit the counter.
pub open spec fn accepts(length: int, count: int, expected: int) -> bool {
    !conflicts(length, expected) && expected + count <= i64::MAX
}

/// The message of the error for a writer that is out of date.
pub open spec fn conflict_message(aggregate_id: Seq<char>) -> Seq<char> {
    "the event stream has moved past the expected version for aggregate id "@ + aggregate_id
}

/// The message of the error for a stream whose counter is used up.
pub open spec fn overflow_message(aggregate_id: Seq<char>) -> Seq<char> {
    "the event stream has no version numbers left for aggregate id "@ + aggregate_id
}

/// The error with which a commit that is not taken is turned down.
pub open spec fn rejection(aggregate_id: Seq<char>, length: int, expected: int) -> StoreErrorView {
    if conflicts(length, expected) {
        StoreErrorView {
            kind: ErrorKind::ConcurrencyConflict,
            message: conflict_message(aggregate_id),
        }
    } else {
        StoreErrorView { kind: ErrorKind::StoreFailure, message: overflow_message(aggregate_id) }
    }
}

/// Adding one event to a log adds it to the stream of its aggregate and to
/// no other.
pub proof fn lemma_stream_push(
    log: Seq<EventContextView>,
    event: EventContextView,
    aggregate_id: Seq<char>,
)
    ensures
        stream_of(log.push(event), aggregate_id) == if event.aggregate_id == aggregate_id {
            stream_of(log, aggregate_id).push(event)
        } else {
            stream_of(log, aggregate_id)
        },
{
    reveal(Seq::filter);
    assert(log.push(event).drop_last() =~= log);
}

/// The stream of an aggregate holds events of that aggregate only.
pub proof fn lemma_stream_owned(log: Seq<EventContextView>, aggregate_id: Seq<char>)
    ensures
        owned_by(stream_of(log, aggregate_id), aggregate_id),
    decreases log.len(),
{
    reveal(Seq::filter);
    if log.len() > 0 {
        lemma_stream_owned(log.drop_last(), aggregate_id);
    }
}

/// Adding a run of events of one aggregate to a log adds them, in order, to
/// the stream of that aggregate and leaves every other stream as it was.
pub proof fn lemma_stream_append(
    log: Seq<EventContextView>,
    added: Seq<EventContextView>,
    owner: Seq<char>,
    aggregate_id: Seq<char>,
)
    requires
        owned_by(added, owner),
    ensures
        stream_of(log + added, aggregate_id) == if aggregate_id == owner {
            stream_of(log, aggregate_id) + added
        } else {
            stream_of(log, aggregate_id)
        },
    decreases added.len(),
{
    if added.len() == 0 {
        assert(log + added =~= log);
        assert(stream_of(log, aggregate_id) + added =~= stream_of(log, aggregate_id));
    } else {
        let earlier = added.drop_last();
        assert(owned_by(earlier, owner)) by {
            assert forall|k: int| 0 <= k < earlier.len() implies (#[trigger] earlier[k]).aggregate_id
                == owner by {
                assert(earlier[k] == added[k]);
            }
        }
        lemma_stream_append(log, earlier, owner, aggregate_id);
        assert(log + added =~= (log + earlier).push(added.last()));
        lemma_stream_push(log + earlier, added.last(), aggregate_id);
        assert(added.last() == added[added.len() - 1]);
        if aggregate_id == owner {
            assert((stream_of(log, aggregate_id) + earlier).push(added.last()) =~= stream_of(
                log,
                aggregate_id,
            ) + added);
        }
    }
}

/// The stream of an aggregate after one more commit has been taken: the
/// events of the commit follow those that were there, with the next numbers.
pub open spec fn committed(
    stream: Seq<EventContextView>,
    aggregate_id: Seq<char>,
    payloads: Seq<Seq<char>>,
) -> Seq<EventContextView> {
    stream + stamped(aggregate_id, payloads, stream.len() as int)
}

/// The stream of an aggregate after the given commits, each taken in turn,
/// the first of them on a stream without events.
pub open spec fn built(aggregate_id: Seq<char>, commits: Seq<Seq<Seq<char>>>) -> Seq<
    EventContextView,
>
    decreases commits.len(),
{
    if commits.len() == 0 {
        Seq::empty()
    } else {
        committed(built(aggregate_id, commits.drop_last()), aggregate_id, commits.last())
    }
}

/// How many events the given commits hold together.
pub open spec fn total(commits: Seq<Seq<Seq<char>>>) -> nat
    decreases commits.len(),
{
    if commits.len() == 0 {
        0
    } else {
        total(commits.drop_last()) + commits.last().len()
    }
}

/// The payloads of the given commits, one after the other.
pub open spec fn joined(commits: Seq<Seq<Seq<char>>>) -> Seq<Seq<char>>
    decreases commits.len(),
{
    if commits.len() == 0 {
        Seq::empty()
    } else {
        joined(commits.drop_last()) + commits.last()
    }
}

/// A stream stays numbered when a commit is taken.
pub proof fn lemma_commit_keeps_numbering(
    stream: Seq<EventContextView>,
    aggregate_id: Seq<char>,
    payloads: Seq<Seq<char>>,
)
    requires
        numbered(stream),
        owned_by(stream, aggregate_id),
    ensures
        numbered(committed(stream, aggregate_id, payloads)),
        owned_by(committed(stream, aggregate_id, payloads), aggregate_id),
        committed(stream, aggregate_id, payloads).len() == stream.len() + payloads.len(),
{
}

/// Append-only numbering: however the events of an aggregate were split
/// over commits, its stream holds as many events as were committed, with
/// the numbers 1 up to that count and the payloads in the order in which
/// they were committed.
pub proof fn lemma_commits_number_the_stream(aggregate_id: Seq<char>, commits: Seq<Seq<Seq<char>>>)
    ensures
        built(aggregate_id, commits).len() == total(commits),
        numbered(built(aggregate_id, commits)),
        owned_by(built(aggregate_id, commits), aggregate_id),
        built(aggregate_id, commits).map_values(|event: EventContextView| event.payload)
            == joined(commits),
    decreases commits.len(),
{
    if commits.len() == 0 {
        assert(built(aggregate_id, commits).map_values(|event: EventContextView| event.payload)
            =~= joined(commits));
    } else {
        let earlier = built(aggregate_id, commits.drop_last());
        lemma_commits_number_the_stream(aggregate_id, commits.drop_last());
        lemma_commit_keeps_numbering(earlier, aggregate_id, commits.last());
        assert(built(aggregate_id, commits).map_values(|event: EventContextView| event.payload)
            =~= earlier.map_values(|event: EventContextView| event.payload) + commits.last());
    }
}

/// The append-only store of the events of one aggregate type.
pub struct EventStore {
    aggregate_type: String,
    log: Vec<EventContext>,
}

impl EventStore {
    /// Every event that the store holds, in the order of the commits.
    pub closed spec fn events(&self) -> Seq<EventContextView> {
        event_views(self.log@)
    }

    /// The events of one aggregate, oldest first.
    pub open spec fn stream(&self, aggregate_id: Seq<char>) -> Seq<EventContextView> {
        stream_of(self.events(), aggregate_id)
    }

    /// The name of the aggregate type, as the contracts see it.
    pub closed spec fn aggregate_type_view(&self) -> Seq<char> {
        self.aggregate_type@
    }

    /// Every stream is numbered from one without a gap.
    #[verifier::type_invariant]
    spec fn every_stream_numbered(&self) -> bool {
        forall|aggregate_id: Seq<char>| #[trigger]
            numbered(stream_of(event_views(self.log@), aggregate_id))
    }

    /// An empty store for the aggregates of the given type.
    pub fn new(aggregate_type: String) -> (store: Self)
        ensures
            store.events() == Seq::<EventContextView>::empty(),
            forall|aggregate_id: Seq<char>| #[trigger]
                store.stream(aggregate_id) == Seq::<EventContextView>::empty(),
            store.aggregate_type_view() == aggregate_type@,
    {
        let log: Vec<EventContext> = Vec::new();
        proof {
            reveal(Seq::filter);
            assert(event_views(log@) =~= Seq::<EventContextView>::empty());
        }
        EventStore { aggregate_type, log }
    }

    /// The name of the aggregate type.
    pub fn aggregate_type(&self) -> (name: &str)
        ensures
            name@ == self.aggregate_type_view(),
    {
        self.aggregate_type.as_str()
    }

    /// How many events the stream of an aggregate holds, which is also the
    /// number of its newest event.
    pub fn current_version(&self, aggregate_id: &str) -> (version: usize)
        ensures
            version == self.stream(aggregate_id@).len(),
    {
        let key = String::from_str(aggregate_id);
        let mut version: usize = 0;
        let mut i: usize = 0;
        proof {
            reveal(Seq::filter);
            assert(event_views(self.log@.take(0)) =~= Seq::<EventContextView>::empty());
        }
        while i < self.log.len()
            invariant
                i <= self.log.len(),
                version <= i,
                key@ == aggregate_id@,
                version == stream_of(event_views(self.log@.take(i as int)), aggregate_id@).len(),
            decreases self.log.len() - i,
        {
            proof {
                assert(self.log@.take(i + 1) =~= self.log@.take(i as int).push(self.log@[i as int]));
                assert(event_views(self.log@.take(i + 1)) =~= event_views(
                    self.log@.take(i as int),
                ).push(self.log@[i as int]@));
                lemma_stream_push(
                    event_views(self.log@.take(i as int)),
                    self.log@[i as int]@,
                    aggregate_id@,
                );
            }
            if self.log[i].aggregate_id == key {
                version = version + 1;
            }
            i = i + 1;
        }
        proof {
            assert(self.log@.take(i as int) =~= self.log@);
        }
        version
    }

    /// The events of an aggregate, oldest first: none for an aggregate that
    /// was never written. Reading from memory cannot fail.
    pub fn load(&self, aggregate_id: &str) -> (outcome: Result<Vec<EventContext>, StoreError>)
        ensures
            outcome is Ok,
            event_views(outcome->Ok_0@) == self.stream(aggregate_id@),
            numbered(self.stream(aggregate_id@)),
            owned_by(self.stream(aggregate_id@), aggregate_id@),
    {
        let key = String::from_str(aggregate_id);
        let mut found: Vec<EventContext> = Vec::new();
        let mut i: usize = 0;
        proof {
            reveal(Seq::filter);
            assert(event_views(self.log@.take(0)) =~= Seq::<EventContextView>::empty());
            assert(event_views(found@) =~= Seq::<EventContextView>::empty());
        }
        while i < self.log.len()
            invariant
                i <= self.log.len(),
                key@ == aggregate_id@,
                event_views(found@) == stream_of(
                    event_views(self.log@.take(i as int)),
                    aggregate_id@,
                ),
            decreases self.log.len() - i,
        {
            proof {
                assert(self.log@.take(i + 1) =~= self.log@.take(i as int).push(self.log@[i as int]));
                assert(event_views(self.log@.take(i + 1)) =~= event_views(
                    self.log@.take(i as int),
                ).push(self.log@[i as int]@));
                lemma_stream_push(
                    event_views(self.log@.take(i as int)),
                    self.log@[i as int]@,
                    aggregate_id@,
                );
            }
            if self.log[i].aggregate_id == key {
                let ghost before = found@;
                let event = self.log[i].clone();
                found.push(event);
                proof {
                    assert(event_views(found@) =~= event_views(before).push(event@));
                }
            }
            i = i + 1;
        }
        proof {
            assert(self.log@.take(i as int) =~= self.log@);
            use_type_invariant(self);
            lemma_stream_owned(self.events(), aggregate_id@);
        }
        Ok(found)
    }

    /// Appends one event for each payload to the stream of an aggregate,
    /// numbered from `expected_current_version + 1`, and hands the new
    /// events back.
    ///
    /// The commit is taken only if the stream holds exactly
    /// `expected_current_version` events: a writer that has missed events is
    /// turned down with a `ConcurrencyConflict`, and the store stays as it
    /// was. So does a commit that would use up the version counter, with a
    /// `StoreFailure`.
    pub fn commit(
        &mut self,
        aggregate_id: &str,
        new_events: Vec<String>,
        expected_current_version: i64,
    ) -> (outcome: Result<Vec<EventContext>, StoreError>)
        ensures
            commits(
                *old(self),
                *final(self),
                aggregate_id@,
                text_views(new_events@),
                expected_current_version as int,
                created_view(outcome),
            ),
    {
        let current = self.current_version(aggregate_id);
        if expected_current_version < 0 || expected_current_version as u64 != current as u64 {
            return Err(
                StoreError::with_cause(
                    ErrorKind::ConcurrencyConflict,
                    "the event stream has moved past the expected version for aggregate id ",
                    aggregate_id,
                ),
            );
        }
        let count = new_events.len();
        if count as u64 > (i64::MAX - expected_current_version) as u64 {
            return Err(
                StoreError::with_cause(
                    ErrorKind::StoreFailure,
                    "the event stream has no version numbers left for aggregate id ",
                    aggregate_id,
                ),
            );
        }
        let ghost before = self.log@;
        let ghost target = stamped(
            aggregate_id@,
            text_views(new_events@),
            expected_current_version as int,
        );
        proof {
            use_type_invariant(&*self);
        }
        let mut log: Vec<EventContext> = Vec::new();
        proof {
            reveal(Seq::filter);
            assert(event_views(log@) =~= Seq::<EventContextView>::empty());
        }
        core::mem::swap(&mut self.log, &mut log);
        let mut created: Vec<EventContext> = Vec::new();
        let mut k: usize = 0;
        proof {
            assert(event_views(created@) =~= target.take(0));
            assert(event_views(before) + target.take(0) =~= event_views(before));
        }
        while k < count
            invariant
                k <= count,
                count == new_events@.len(),
                expected_current_version + count <= i64::MAX,
                expected_current_version == stream_of(event_views(before), aggregate_id@).len(),
                target == stamped(
                    aggregate_id@,
                    text_views(new_events@),
                    expected_current_version as int,
                ),
                event_views(created@) == target.take(k as int),
                event_views(log@) == event_views(before) + target.take(k as int),
                forall|other: Seq<char>| #[trigger] numbered(stream_of(event_views(log@), other)),
            decreases count - k,
        {
            let event = EventContext::new(
                String::from_str(aggregate_id),
                expected_current_version + 1 + k as i64,
                new_events[k].clone(),
            );
            let copy = event.clone();
            let ghost held = created@;
            let ghost earlier = event_views(log@);
            proof {
                assert(event@ == target[k as int]);
                assert(target.take(k + 1) =~= target.take(k as int).push(event@));
                assert(owned_by(target.take(k as int), aggregate_id@));
                lemma_stream_append(
                    event_views(before),
                    target.take(k as int),
                    aggregate_id@,
                    aggregate_id@,
                );
                assert forall|other: Seq<char>| #[trigger]
                    numbered(stream_of(earlier.push(event@), other)) by {
                    lemma_stream_push(earlier, event@, other);
                    assert(numbered(stream_of(earlier, other)));
                }
            }
            log.push(copy);
            created.push(event);
            proof {
                assert(event_views(created@) =~= event_views(held).push(event@));
                assert(event_views(log@) =~= earlier.push(event@));
                assert(earlier.push(event@) =~= event_views(before) + target.take(k + 1));
            }
            k = k + 1;
        }
        proof {
            assert(target.take(k as int) =~= target);
            assert(owned_by(target, aggregate_id@));
            assert forall|other: Seq<char>|
                true implies #[trigger] stream_of(event_views(before) + target, other) == if other
                == aggregate_id@ {
                    stream_of(event_views(before), other) + target
                } else {
                    stream_of(event_views(before), other)
                } by {
                lemma_stream_append(event_views(before), target, aggregate_id@, other);
            }
        }
        self.log = log;
        Ok(created)
    }
}

/// The outcome of a commit as contracts see it.
pub open spec fn created_view(outcome: Result<Vec<EventContext>, StoreError>) -> Result<
    Seq<EventContextView>,
    StoreErrorView,
> {
    match outcome {
        Ok(created) => Ok(event_views(created@)),
        Err(error) => Err(error@),
    }
}

/// What a commit comes to.
///
/// A commit that is taken answers with the events that were made of the
/// payloads. They are the newest of the store and of the stream of their
/// aggregate, and every other stream is as it was. A commit that is not
/// taken answers with the reason and leaves the store as it was.
pub open spec fn commits(
    before: EventStore,
    after: EventStore,
    aggregate_id: Seq<char>,
    payloads: Seq<Seq<char>>,
    expected: int,
    outcome: Result<Seq<EventContextView>, StoreErrorView>,
) -> bool {
    let length = before.stream(aggregate_id).len() as int;
    let created = stamped(aggregate_id, payloads, expected);
    &&& after.aggregate_type_view() == before.aggregate_type_view()
    &&& if accepts(length, payloads.len() as int, expected) {
        &&& outcome == Ok::<Seq<EventContextView>, StoreErrorView>(created)
        &&& after.events() == before.events() + created
        &&& after.stream(aggregate_id) == committed(
            before.stream(aggregate_id),
            aggregate_id,
            payloads,
        )
        &&& forall|other: Seq<char>|
            other != aggregate_id ==> #[trigger] after.stream(other) == before.stream(other)
    } else {
        &&& outcome == Err::<Seq<EventContextView>, StoreErrorView>(
            rejection(aggregate_id, length, expected),
        )
        &&& after.events() == before.events()
    }
}

/// Concurrency rejection: of two writers that have seen the same events of
/// an aggregate, the one that commits first is taken, and the other is
/// turned down with a `ConcurrencyConflict`, whatever it brings. Nothing of
/// it is kept: the stream ends with the events of the first writer.
///
/// The first writer has to bring an event, and the version counter has to
/// have room for what it brings.
pub proof fn lemma_one_of_two_writers_wins(
    start: EventStore,
    middle: EventStore,
    end: EventStore,
    aggregate_id: Seq<char>,
    first: Seq<Seq<char>>,
    second: Seq<Seq<char>>,
    expected: int,
    first_outcome: Result<Seq<EventContextView>, StoreErrorView>,
    second_outcome: Result<Seq<EventContextView>, StoreErrorView>,
)
    requires
        expected == start.stream(aggregate_id).len(),
        first.len() > 0,
        expected + first.len() <= i64::MAX,
        commits(start, middle, aggregate_id, first, expected, first_outcome),
        commits(middle, end, aggregate_id, second, expected, second_outcome),
    ensures
        first_outcome is Ok,
        second_outcome is Err,
        second_outcome->Err_0.kind == ErrorKind::ConcurrencyConflict,
        end.events() == middle.events(),
        end.events() == start.events() + stamped(aggregate_id, first, expected),
        end.stream(aggregate_id) == start.stream(aggregate_id) + stamped(
            aggregate_id,
            first,
            expected,
        ),
{
    assert(end.stream(aggregate_id) == middle.stream(aggregate_id));
}

/// Whether a commit of the given payloads was taken and led from one store
/// to the other, whatever the writer expected.
pub open spec fn taken(
    before: EventStore,
    after: EventStore,
    aggregate_id: Seq<char>,
    payloads: Seq<Seq<char>>,
) -> bool {
    exists|expected: int| #[trigger]
        commits(
            before,
            after,
            aggregate_id,
            payloads,
            expected,
            Ok(stamped(aggregate_id, payloads, expected)),
        )
}

/// Append-only numbering, commit by commit: start from a store without
/// events of an aggregate and let one commit after the other be taken for
/// it, each of any size. The stream of the aggregate then holds as many
/// events as were committed, numbered from one up to that count, and it is
/// what `load` hands out.
pub proof fn lemma_stream_after_commits(
    stores: Seq<EventStore>,
    aggregate_id: Seq<char>,
    batches: Seq<Seq<Seq<char>>>,
)
    requires
        stores.len() == batches.len() + 1,
        stores[0].stream(aggregate_id).len() == 0,
        forall|j: int|
            0 <= j < batches.len() ==> taken(
                stores[j],
                stores[j + 1],
                aggregate_id,
                #[trigger] batches[j],
            ),
    ensures
        stores.last().stream(aggregate_id) == built(aggregate_id, batches),
        stores.last().stream(aggregate_id).len() == total(batches),
        numbered(stores.last().stream(aggregate_id)),
    decreases batches.len(),
{
    lemma_commits_number_the_stream(aggregate_id, batches);
    if batches.len() == 0 {
        assert(stores[0].stream(aggregate_id) =~= built(aggregate_id, batches));
    } else {
        let earlier = stores.drop_last();
        let fewer = batches.drop_last();
        assert forall|j: int| 0 <= j < fewer.len() implies taken(
            earlier[j],
            earlier[j + 1],
            aggregate_id,
            #[trigger] fewer[j],
        ) by {
            assert(fewer[j] == batches[j]);
            assert(taken(stores[j], stores[j + 1], aggregate_id, batches[j]));
        }
        lemma_stream_after_commits(earlier, aggregate_id, fewer);
        let last = batches.len() - 1;
        assert(taken(stores[last], stores[last + 1], aggregate_id, batches[last]));
        assert(earlier.last() == stores[last]);
        assert(stores.last() == stores[last + 1]);
    }
}

} // verus!
