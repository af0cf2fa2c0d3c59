//! The query store: the latest state of one query for each aggregate of one
//! type, kept as one row of the `queries` table of a SQLite database.
//!
//! What the database answers is not known to the proofs. Each decision that
//! the store takes on an answer is a function of its own, with an exact
//! contract; the methods that talk to the database say what holds whatever
//! it answers.

use crate::context::{event_views, EventContext, EventContextView, QueryContext, QueryContextView};
use crate::dispatcher::IEventDispatcher;
use crate::error::{answer_view, ErrorKind, StoreError, StoreErrorView};
use crate::json::{is_json, json_well_formed};
use crate::query::{fold, folds, lemma_fold_fails_in_one_way, text_outcome, IQuery};
use crate::sqlite::{execute_batch, execute_row, prepare, query_rows};
use rusqlite::Connection;
use vstd::prelude::*;
use vstd::string::StringExecFns;

verus! {

/// Creates the table of query states unless it is there.
pub const CREATE_QUERY_TABLE: &'static str = "
CREATE TABLE IF NOT EXISTS
queries
(
    aggregate_type TEXT                        NOT NULL,
    aggregate_id   TEXT                        NOT NULL,
    query_type     TEXT                        NOT NULL,
    version        bigint CHECK (version >= 0) NOT NULL,
    payload        TEXT                        NOT NULL,
    PRIMARY KEY (aggregate_type, aggregate_id, query_type)
);
";

/// Writes the first state of a query for an aggregate.
pub const INSERT_QUERY: &'static str = "
INSERT INTO
    queries (version, payload, aggregate_type, aggregate_id, query_type)
VALUES
    (?, ?, ?, ?, ?);
";

/// Replaces the state of a query for an aggregate.
pub const UPDATE_QUERY: &'static str = "
UPDATE
    queries
SET
    version = ?,
    payload = ?
WHERE
    aggregate_type = ?
    AND aggregate_id = ?
    AND query_type = ?;
";

/// Reads the state of a query for an aggregate.
pub const SELECT_QUERY: &'static str = "
SELECT
    version,
    payload
FROM
    queries
WHERE
    aggregate_type = ?
    AND aggregate_id = ?
    AND query_type = ?;
";

/// How the message begins when the table cannot be created; the words of
/// the database follow.
pub const CREATE_FAILED: &'static str = "unable to create queries table with error: ";

/// What failed when a state could not be written.
pub const WRITE_FAILED: &'static str = "unable to insert/update query";

/// What failed when a payload cannot be stored as it is.
pub const SERIALIZE_FAILED: &'static str = "unable to serialize the payload";

/// What failed when the database did not take the statement that reads.
pub const PREPARE_FAILED: &'static str = "unable to prepare queries table";

/// What failed when the rows could not be read.
pub const LOAD_FAILED: &'static str = "unable to load queries table";

/// What failed when a stored payload cannot be handed out.
pub const BAD_PAYLOAD: &'static str = "bad payload found in queries table";

/// What failed when a state has no next version.
pub const NEXT_FAILED: &'static str = "unable to advance the version";

/// The cause when a write changed no row, or more than one.
pub const NOT_ONE_ROW: &'static str = "the statement did not change exactly one row";

/// The cause when a version is below zero.
pub const NEGATIVE_VERSION: &'static str = "the version is negative";

/// The cause when a payload is not a JSON value.
pub const NOT_JSON: &'static str = "the payload is not JSON";

/// The cause when the largest version has been reached.
pub const NO_VERSION_LEFT: &'static str = "the version cannot grow any further";

/// The first part of a message: what failed, and for which query of which
/// aggregate.
pub open spec fn about(operation: Seq<char>, query_type: Seq<char>, aggregate_id: Seq<char>) -> Seq<
    char,
> {
    operation + " for query '"@ + query_type + "' with aggregate id '"@ + aggregate_id
        + "', error: "@
}

/// The error of the given kind for an operation on a query of an aggregate
/// that failed for the given cause.
pub open spec fn failure(
    kind: ErrorKind,
    operation: Seq<char>,
    query_type: Seq<char>,
    aggregate_id: Seq<char>,
    cause: Seq<char>,
) -> StoreErrorView {
    StoreErrorView { kind, message: about(operation, query_type, aggregate_id) + cause }
}

/// The error of the given kind for an operation on a query of an aggregate
/// that failed for the given cause.
pub fn fail(
    kind: ErrorKind,
    operation: &str,
    query_type: &str,
    aggregate_id: &str,
    cause: &str,
) -> (error: StoreError)
    ensures
        error@ == failure(kind, operation@, query_type@, aggregate_id@, cause@),
{
    let context = String::from_str(operation).concat(" for query '").concat(query_type).concat(
        "' with aggregate id '",
    ).concat(aggregate_id).concat("', error: ");
    StoreError::with_cause(kind, context.as_str(), cause)
}

/// The statement that writes a query state.
#[derive(Clone, Copy, Debug, PartialEq, Eq, Structural)]
pub enum WriteStatement {
    /// A new row: the first state of the query for the aggregate.
    Insert,
    /// A new state in the row that is there.
    Update,
}

/// The statement that writes a state of the given version: the first
/// version makes the row, every other one replaces what the row holds.
pub open spec fn statement_for(version: int) -> WriteStatement {
    if version == 1 {
        WriteStatement::Insert
    } else {
        WriteStatement::Update
    }
}

/// The statement that writes a state of the given version.
pub fn write_statement(version: i64) -> (statement: WriteStatement)
    ensures
        statement == statement_for(version as int),
{
    if version == 1 {
        WriteStatement::Insert
    } else {
        WriteStatement::Update
    }
}

impl WriteStatement {
    /// The SQL of the statement.
    pub fn sql(&self) -> (text: &'static str)
        ensures
            text@ == (match *self {
                WriteStatement::Insert => INSERT_QUERY@,
                WriteStatement::Update => UPDATE_QUERY@,
            }),
    {
        match self {
            WriteStatement::Insert => INSERT_QUERY,
            WriteStatement::Update => UPDATE_QUERY,
        }
    }
}

/// Why a state may not be written, given whether its payload is JSON: its
/// version is negative, or else its payload is not JSON. A state that may
/// be written has no such reason.
pub open spec fn unfit_if(
    context: QueryContextView,
    query_type: Seq<char>,
    payload_is_json: bool,
) -> Option<StoreErrorView> {
    if context.version < 0 {
        Some(
            failure(
                ErrorKind::StoreFailure,
                WRITE_FAILED@,
                query_type,
                context.aggregate_id,
                NEGATIVE_VERSION@,
            ),
        )
    } else if !payload_is_json {
        Some(
            failure(
                ErrorKind::SerializationFailure,
                SERIALIZE_FAILED@,
                query_type,
                context.aggregate_id,
                NOT_JSON@,
            ),
        )
    } else {
        None
    }
}

/// Why a state may not be written: its version is negative, or else its
/// payload is not JSON.
pub open spec fn unfit(context: QueryContextView, query_type: Seq<char>) -> Option<StoreErrorView> {
    unfit_if(context, query_type, json_well_formed(context.payload))
}

/// The answer to a state that is to be written, as contracts see it.
pub open spec fn fitness(reason: Option<StoreErrorView>) -> Result<(), StoreErrorView> {
    match reason {
        None => Ok(()),
        Some(error) => Err(error),
    }
}

/// Judges a state that is to be written, given whether its payload is JSON.
pub fn judge_context(context: &QueryContext, query_type: &str, payload_is_json: bool) -> (outcome:
    Result<(), StoreError>)
    ensures
        answer_view(outcome) == fitness(unfit_if(context@, query_type@, payload_is_json)),
{
    if context.version < 0 {
        Err(
            fail(
                ErrorKind::StoreFailure,
                WRITE_FAILED,
                query_type,
                context.aggregate_id.as_str(),
                NEGATIVE_VERSION,
            ),
        )
    } else if !payload_is_json {
        Err(
            fail(
                ErrorKind::SerializationFailure,
                SERIALIZE_FAILED,
                query_type,
                context.aggregate_id.as_str(),
                NOT_JSON,
            ),
        )
    } else {
        Ok(())
    }
}

/// Checks a state before it is written: asks whether its payload is JSON
/// and judges it by the answer.
pub fn check_context(context: &QueryContext, query_type: &str) -> (outcome: Result<(), StoreError>)
    ensures
        answer_view(outcome) == fitness(unfit(context@, query_type@)),
{
    let payload_is_json = is_json(context.payload.as_str());
    judge_context(context, query_type, payload_is_json)
}

/// What a write comes to: it has worked if the database changed exactly one
/// row. A statement that changed none found no row to replace, and that is
/// a failure, as is every error of the database.
pub open spec fn write_result(
    query_type: Seq<char>,
    aggregate_id: Seq<char>,
    changed: Result<int, Seq<char>>,
) -> Result<(), StoreErrorView> {
    match changed {
        Ok(rows) => if rows == 1 {
            Ok(())
        } else {
            Err(
                failure(
                    ErrorKind::StoreFailure,
                    WRITE_FAILED@,
                    query_type,
                    aggregate_id,
                    NOT_ONE_ROW@,
                ),
            )
        },
        Err(cause) => Err(
            failure(ErrorKind::StoreFailure, WRITE_FAILED@, query_type, aggregate_id, cause),
        ),
    }
}

/// The answer of a write as contracts see it.
pub open spec fn changed_view(changed: Result<usize, String>) -> Result<int, Seq<char>> {
    match changed {
        Ok(rows) => Ok(rows as int),
        Err(cause) => Err(cause@),
    }
}

/// Judges the answer of the database to a write: the number of rows it
/// changed, or its words for what went wrong.
pub fn save_outcome(query_type: &str, aggregate_id: &str, changed: Result<usize, String>) -> (outcome:
    Result<(), StoreError>)
    ensures
        answer_view(outcome) == write_result(query_type@, aggregate_id@, changed_view(changed)),
{
    match changed {
        Ok(rows) => {
            if rows == 1 {
                Ok(())
            } else {
                Err(
                    fail(
                        ErrorKind::StoreFailure,
                        WRITE_FAILED,
                        query_type,
                        aggregate_id,
                        NOT_ONE_ROW,
                    ),
                )
            }
        },
        Err(cause) => Err(
            fail(ErrorKind::StoreFailure, WRITE_FAILED, query_type, aggregate_id, cause.as_str()),
        ),
    }
}

/// The rows of a read as contracts see them: version and payload.
pub open spec fn row_views(rows: Seq<(i64, String)>) -> Seq<(int, Seq<char>)> {
    rows.map_values(|row: (i64, String)| (row.0 as int, row.1@))
}

/// The state that the rows of a read stand for, given whether the payload
/// of the first row is JSON. No row: the query has seen no event of the
/// aggregate, which is version zero of the initial state. Else the first row
/// counts, if its version is not negative and its payload is JSON.
pub open spec fn context_of_rows_if(
    query_type: Seq<char>,
    aggregate_id: Seq<char>,
    rows: Seq<(int, Seq<char>)>,
    initial: Seq<char>,
    first_is_json: bool,
) -> Result<QueryContextView, StoreErrorView> {
    if rows.len() == 0 {
        Ok(QueryContextView { aggregate_id, version: 0, payload: initial })
    } else if rows[0].0 < 0 {
        Err(
            failure(
                ErrorKind::StoreFailure,
                LOAD_FAILED@,
                query_type,
                aggregate_id,
                NEGATIVE_VERSION@,
            ),
        )
    } else if !first_is_json {
        Err(
            failure(
                ErrorKind::SerializationFailure,
                BAD_PAYLOAD@,
                query_type,
                aggregate_id,
                NOT_JSON@,
            ),
        )
    } else {
        Ok(QueryContextView { aggregate_id, version: rows[0].0, payload: rows[0].1 })
    }
}

/// The state that the rows of a read stand for.
pub open spec fn context_of_rows(
    query_type: Seq<char>,
    aggregate_id: Seq<char>,
    rows: Seq<(int, Seq<char>)>,
    initial: Seq<char>,
) -> Result<QueryContextView, StoreErrorView> {
    context_of_rows_if(
        query_type,
        aggregate_id,
        rows,
        initial,
        rows.len() > 0 && json_well_formed(rows[0].1),
    )
}

/// The outcome of a read as contracts see it.
pub open spec fn context_view(outcome: Result<QueryContext, StoreError>) -> Result<
    QueryContextView,
    StoreErrorView,
> {
    match outcome {
        Ok(context) => Ok(context@),
        Err(error) => Err(error@),
    }
}

/// Makes the state of a query out of the rows that a read found, given
/// whether the payload of the first row is JSON.
pub fn query_from_rows(
    query_type: &str,
    aggregate_id: &str,
    rows: &Vec<(i64, String)>,
    default_payload: &str,
    first_is_json: bool,
) -> (outcome: Result<QueryContext, StoreError>)
    ensures
        context_view(outcome) == context_of_rows_if(
            query_type@,
            aggregate_id@,
            row_views(rows@),
            default_payload@,
            first_is_json,
        ),
{
    if rows.len() == 0 {
        return Ok(
            QueryContext::new(String::from_str(aggregate_id), 0, String::from_str(default_payload)),
        );
    }
    let version = rows[0].0;
    if version < 0 {
        Err(
            fail(
                ErrorKind::StoreFailure,
                LOAD_FAILED,
                query_type,
                aggregate_id,
                NEGATIVE_VERSION,
            ),
        )
    } else if !first_is_json {
        Err(
            fail(
                ErrorKind::SerializationFailure,
                BAD_PAYLOAD,
                query_type,
                aggregate_id,
                NOT_JSON,
            ),
        )
    } else {
        Ok(QueryContext::new(String::from_str(aggregate_id), version, rows[0].1.clone()))
    }
}

/// Query default: a read that finds no row stands for version zero of the
/// initial state of the query, for every aggregate.
pub proof fn lemma_no_row_is_the_default(
    query_type: Seq<char>,
    aggregate_id: Seq<char>,
    initial: Seq<char>,
)
    ensures
        context_of_rows(query_type, aggregate_id, Seq::empty(), initial) == Ok::<
            QueryContextView,
            StoreErrorView,
        >(QueryContextView { aggregate_id, version: 0, payload: initial }),
{
}

/// Insert or update: only version one is written with the statement that
/// makes a row. Every other version is written with the one that replaces
/// what a row holds, and if that changes no row, because there is none, the
/// save fails.
pub proof fn lemma_only_the_first_version_inserts(
    query_type: Seq<char>,
    aggregate_id: Seq<char>,
    version: int,
)
    ensures
        statement_for(version) == WriteStatement::Insert <==> version == 1,
        write_result(query_type, aggregate_id, Ok(0)) is Err,
        write_result(query_type, aggregate_id, Ok(0))->Err_0.kind == ErrorKind::StoreFailure,
{
}

/// A row that holds a state that may be written reads back as that state:
/// the same aggregate, version and payload.
pub proof fn lemma_row_reads_back(
    query_type: Seq<char>,
    context: QueryContextView,
    initial: Seq<char>,
)
    requires
        unfit(context, query_type) is None,
    ensures
        context_of_rows(
            query_type,
            context.aggregate_id,
            seq![(context.version, context.payload)],
            initial,
        ) == Ok::<QueryContextView, StoreErrorView>(context),
{
}

/// The state that follows a loaded one: the same aggregate, the next
/// version, the payload that the batch was folded into. A state whose
/// version cannot grow has none.
pub open spec fn next_of(query_type: Seq<char>, loaded: QueryContextView, folded: Seq<char>) -> Result<
    QueryContextView,
    StoreErrorView,
> {
    if loaded.version >= i64::MAX {
        Err(
            failure(
                ErrorKind::StoreFailure,
                NEXT_FAILED@,
                query_type,
                loaded.aggregate_id,
                NO_VERSION_LEFT@,
            ),
        )
    } else {
        Ok(
            QueryContextView {
                aggregate_id: loaded.aggregate_id,
                version: loaded.version + 1,
                payload: folded,
            },
        )
    }
}

/// Makes the state that follows a loaded one out of the payload that a
/// batch of events was folded into.
pub fn next_context(query_type: &str, loaded: &QueryContext, folded: String) -> (outcome: Result<
    QueryContext,
    StoreError,
>)
    ensures
        context_view(outcome) == next_of(query_type@, loaded@, folded@),
{
    if loaded.version == i64::MAX {
        Err(
            fail(
                ErrorKind::StoreFailure,
                NEXT_FAILED,
                query_type,
                loaded.aggregate_id.as_str(),
                NO_VERSION_LEFT,
            ),
        )
    } else {
        Ok(QueryContext::new(loaded.aggregate_id.clone(), loaded.version + 1, folded))
    }
}

/// What making sure of the table comes to, given the reply of the
/// database: it is there if the database says so, and every error of the
/// database is a `StoreFailure` that ends with its words.
pub open spec fn table_result(reply: Result<(), Seq<char>>) -> Result<(), StoreErrorView> {
    match reply {
        Ok(()) => Ok(()),
        Err(cause) => Err(
            StoreErrorView { kind: ErrorKind::StoreFailure, message: CREATE_FAILED@ + cause },
        ),
    }
}

/// The reply of the database to a statement without rows, as contracts see
/// it.
pub open spec fn reply_view(reply: Result<(), String>) -> Result<(), Seq<char>> {
    match reply {
        Ok(()) => Ok(()),
        Err(cause) => Err(cause@),
    }
}

/// Judges the reply of the database to the statement that creates the
/// table: nothing, or its words for what went wrong.
pub fn table_outcome(reply: Result<(), String>) -> (outcome: Result<(), StoreError>)
    ensures
        answer_view(outcome) == table_result(reply_view(reply)),
{
    match reply {
        Ok(()) => Ok(()),
        Err(cause) => Err(
            StoreError::with_cause(ErrorKind::StoreFailure, CREATE_FAILED, cause.as_str()),
        ),
    }
}

/// Whether an error says that the table of query states could not be
/// created: a `StoreFailure` whose message ends with the words of the
/// database.
pub open spec fn table_failure(error: StoreErrorView) -> bool {
    error.kind == ErrorKind::StoreFailure && CREATE_FAILED@.is_prefix_of(error.message)
}

/// Whether an error says that the database failed while the state of a
/// query was read: a `StoreFailure` that names the step and ends with the
/// words of the database.
pub open spec fn read_failure(
    error: StoreErrorView,
    query_type: Seq<char>,
    aggregate_id: Seq<char>,
) -> bool {
    ||| exists|cause: Seq<char>|
        error == #[trigger] failure(
            ErrorKind::StoreFailure,
            PREPARE_FAILED@,
            query_type,
            aggregate_id,
            cause,
        )
    ||| exists|cause: Seq<char>|
        error == #[trigger] failure(
            ErrorKind::StoreFailure,
            LOAD_FAILED@,
            query_type,
            aggregate_id,
            cause,
        )
}

/// What a save comes to. A state that is unfit is turned down with the
/// error that says why. For any other the database decides: either the
/// table could not be created, or the answer is what `write_result` makes
/// of the answer of the database to the write.
pub open spec fn saved(
    query_type: Seq<char>,
    context: QueryContextView,
    answer: Result<(), StoreErrorView>,
) -> bool {
    match unfit(context, query_type) {
        Some(error) => answer == Err::<(), StoreErrorView>(error),
        None => {
            ||| answer matches Err(error) && table_failure(error)
            ||| exists|changed: Result<int, Seq<char>>|
                answer == #[trigger] write_result(query_type, context.aggregate_id, changed)
        },
    }
}

/// What a load comes to: either the database failed, or the answer is what
/// `context_of_rows` makes of the rows that the database found.
pub open spec fn loaded(
    query_type: Seq<char>,
    aggregate_id: Seq<char>,
    initial: Seq<char>,
    answer: Result<QueryContextView, StoreErrorView>,
) -> bool {
    ||| answer matches Err(error) && (table_failure(error) || read_failure(
        error,
        query_type,
        aggregate_id,
    ))
    ||| exists|rows: Seq<(int, Seq<char>)>|
        answer == #[trigger] context_of_rows(query_type, aggregate_id, rows, initial)
}

/// A state that was loaded belongs to the aggregate that was asked for and
/// has a version that is not negative. Its payload is JSON, unless it is the
/// initial state of a query that has no row. A load that fails does so with
/// a `StoreFailure` or a `SerializationFailure`.
pub proof fn lemma_loaded_state_is_sound(
    query_type: Seq<char>,
    aggregate_id: Seq<char>,
    initial: Seq<char>,
    answer: Result<QueryContextView, StoreErrorView>,
)
    requires
        loaded(query_type, aggregate_id, initial, answer),
    ensures
        answer matches Ok(context) ==> {
            &&& context.aggregate_id == aggregate_id
            &&& context.version >= 0
            &&& json_well_formed(context.payload) || (context.version == 0 && context.payload
                == initial)
        },
        answer matches Err(error) ==> error.kind == ErrorKind::StoreFailure || error.kind
            == ErrorKind::SerializationFailure,
{
}

/// A save fails with a `StoreFailure` or a `SerializationFailure` only, and
/// with the latter only on a payload that is not JSON.
pub proof fn lemma_save_fails_in_two_ways(
    query_type: Seq<char>,
    context: QueryContextView,
    answer: Result<(), StoreErrorView>,
)
    requires
        saved(query_type, context, answer),
    ensures
        answer matches Err(error) ==> error.kind == ErrorKind::StoreFailure || error.kind
            == ErrorKind::SerializationFailure,
        answer matches Err(error) ==> (error.kind == ErrorKind::SerializationFailure
            ==> !json_well_formed(context.payload)),
{
}

/// What becomes of a loaded state when a batch is dispatched. The batch is
/// folded into its payload. If the query cannot take an event, that is the
/// answer, and nothing is written. Else the state of the next version with
/// the folded payload is saved, if there is a next version.
pub open spec fn folded_and_saved<Q: IQuery>(
    query: Q,
    query_type: Seq<char>,
    context: QueryContextView,
    events: Seq<EventContextView>,
    answer: Result<(), StoreErrorView>,
) -> bool {
    exists|folded: Result<Seq<char>, StoreErrorView>|
        {
            &&& #[trigger] folds(query, context.payload, events, folded)
            &&& match folded {
                Err(error) => answer == Err::<(), StoreErrorView>(error),
                Ok(payload) => match next_of(query_type, context, payload) {
                    Err(error) => answer == Err::<(), StoreErrorView>(error),
                    Ok(next) => saved(query_type, next, answer),
                },
            }
        }
}

/// What dispatching a batch comes to: the state of the query is loaded, and
/// the error of a load that fails is the answer. Else the batch is folded
/// into the loaded state and the result is saved under the next version.
pub open spec fn dispatched<Q: IQuery>(
    query: Q,
    query_type: Seq<char>,
    aggregate_id: Seq<char>,
    initial: Seq<char>,
    events: Seq<EventContextView>,
    answer: Result<(), StoreErrorView>,
) -> bool {
    exists|found: Result<QueryContextView, StoreErrorView>|
        {
            &&& #[trigger] loaded(query_type, aggregate_id, initial, found)
            &&& match found {
                Err(error) => answer == Err::<(), StoreErrorView>(error),
                Ok(context) => folded_and_saved(query, query_type, context, events, answer),
            }
        }
}

/// Dispatching fails with a `StoreFailure` or a `SerializationFailure` only.
pub proof fn lemma_dispatch_fails_in_two_ways<Q: IQuery>(
    query: Q,
    query_type: Seq<char>,
    aggregate_id: Seq<char>,
    initial: Seq<char>,
    events: Seq<EventContextView>,
    answer: Result<(), StoreErrorView>,
)
    requires
        dispatched(query, query_type, aggregate_id, initial, events, answer),
    ensures
        answer matches Err(error) ==> error.kind == ErrorKind::StoreFailure || error.kind
            == ErrorKind::SerializationFailure,
{
    let found = choose|found: Result<QueryContextView, StoreErrorView>|
        {
            &&& #[trigger] loaded(query_type, aggregate_id, initial, found)
            &&& match found {
                Err(error) => answer == Err::<(), StoreErrorView>(error),
                Ok(context) => folded_and_saved(query, query_type, context, events, answer),
            }
        };
    lemma_loaded_state_is_sound(query_type, aggregate_id, initial, found);
    if let Ok(context) = found {
        let folded = choose|folded: Result<Seq<char>, StoreErrorView>|
            {
                &&& #[trigger] folds(query, context.payload, events, folded)
                &&& match folded {
                    Err(error) => answer == Err::<(), StoreErrorView>(error),
                    Ok(payload) => match next_of(query_type, context, payload) {
                        Err(error) => answer == Err::<(), StoreErrorView>(error),
                        Ok(next) => saved(query_type, next, answer),
                    },
                }
            };
        lemma_fold_fails_in_one_way(query, context.payload, events, folded);
        if let Ok(payload) = folded {
            if let Ok(next) = next_of(query_type, context, payload) {
                lemma_save_fails_in_two_ways(query_type, next, answer);
            }
        }
    }
}

/// The words that the database has for an error: what the error prints
/// as.
fn describe(error: &rusqlite::Error) -> (text: String)
    ensures
        vstd::string::to_string_from_display_ensures::<rusqlite::Error>(error, text),
{
    error.to_string()
}

/// The error for a step of a read at which the database failed with the
/// given words.
fn read_failed(step: &str, query_type: &str, aggregate_id: &str, cause: &str) -> (error: StoreError)
    requires
        step@ == PREPARE_FAILED@ || step@ == LOAD_FAILED@,
    ensures
        error@ == failure(ErrorKind::StoreFailure, step@, query_type@, aggregate_id@, cause@),
        read_failure(error@, query_type@, aggregate_id@),
{
    fail(ErrorKind::StoreFailure, step, query_type, aggregate_id, cause)
}

/// Whether every row of a read came out whole.
spec fn all_read(found: Seq<Result<(i64, String), rusqlite::Error>>) -> bool {
    forall|i: int| 0 <= i < found.len() ==> (#[trigger] found[i]) is Ok
}

/// Takes the rows of a read out of what the database handed over, and
/// fails on the first row that did not come out whole.
fn read_rows(
    query_type: &str,
    aggregate_id: &str,
    found: &Vec<Result<(i64, String), rusqlite::Error>>,
) -> (outcome: Result<Vec<(i64, String)>, StoreError>)
    ensures
        outcome is Ok <==> all_read(found@),
        outcome matches Ok(rows) ==> {
            &&& rows@.len() == found@.len()
            &&& forall|i: int|
                0 <= i < rows@.len() ==> (#[trigger] row_views(rows@)[i]) == (
                    found@[i]->Ok_0.0 as int,
                    found@[i]->Ok_0.1@,
                )
        },
        outcome matches Err(error) ==> read_failure(error@, query_type@, aggregate_id@),
{
    let mut rows: Vec<(i64, String)> = Vec::new();
    let mut i: usize = 0;
    while i < found.len()
        invariant
            i <= found.len(),
            rows@.len() == i,
            forall|j: int| 0 <= j < i ==> (#[trigger] found@[j]) is Ok,
            forall|j: int|
                0 <= j < i ==> (#[trigger] row_views(rows@)[j]) == (
                    found@[j]->Ok_0.0 as int,
                    found@[j]->Ok_0.1@,
                ),
        decreases found.len() - i,
    {
        match &found[i] {
            Ok(row) => {
                let ghost held = rows@;
                let copy = (row.0, row.1.clone());
                rows.push(copy);
                proof {
                    assert forall|j: int| 0 <= j < i + 1 implies (#[trigger] row_views(rows@)[j])
                        == (found@[j]->Ok_0.0 as int, found@[j]->Ok_0.1@) by {
                        if j < i {
                            assert(rows@[j] == held[j]);
                            assert(row_views(held)[j] == (
                                found@[j]->Ok_0.0 as int,
                                found@[j]->Ok_0.1@,
                            ));
                        }
                    }
                }
            },
            Err(error) => {
                let cause = describe(error);
                return Err(read_failed(LOAD_FAILED, query_type, aggregate_id, cause.as_str()));
            },
        }
        i = i + 1;
    }
    Ok(rows)
}

/// The store of the states of one query for the aggregates of one type, in
/// the `queries` table of a SQLite database.
pub struct QueryStore<Q: IQuery> {
    conn: Connection,
    aggregate_type: String,
    query_type: String,
    default_payload: String,
    query: Q,
}

impl<Q: IQuery> QueryStore<Q> {
    /// The name of the aggregate type, as the contracts see it.
    pub closed spec fn aggregate_type_view(&self) -> Seq<char> {
        self.aggregate_type@
    }

    /// The name of the query type, as the contracts see it.
    pub closed spec fn query_type_view(&self) -> Seq<char> {
        self.query_type@
    }

    /// The serialized state of a query that has seen no event.
    pub closed spec fn initial(&self) -> Seq<char> {
        self.default_payload@
    }

    /// The projection that folds events into the state.
    pub closed spec fn query(&self) -> Q {
        self.query
    }

    /// Whether two stores keep the same query for the same aggregate type.
    pub open spec fn same_subject(&self, other: &Self) -> bool {
        &&& self.aggregate_type_view() == other.aggregate_type_view()
        &&& self.query_type_view() == other.query_type_view()
        &&& self.initial() == other.initial()
        &&& self.query() == other.query()
    }

    /// A store on the given connection for the states of one query of the
    /// aggregates of one type. `default_payload` is the serialized state of
    /// a query that has seen no event, and `query` folds events into a state.
    pub fn new(
        conn: Connection,
        aggregate_type: String,
        query_type: String,
        default_payload: String,
        query: Q,
    ) -> (store: Self)
        ensures
            store.aggregate_type_view() == aggregate_type@,
            store.query_type_view() == query_type@,
            store.initial() == default_payload@,
            store.query() == query,
    {
        QueryStore { conn, aggregate_type, query_type, default_payload, query }
    }

    /// The name of the query type.
    pub fn query_type(&self) -> (name: &str)
        ensures
            name@ == self.query_type_view(),
    {
        self.query_type.as_str()
    }

    /// The name of the aggregate type.
    pub fn aggregate_type(&self) -> (name: &str)
        ensures
            name@ == self.aggregate_type_view(),
    {
        self.aggregate_type.as_str()
    }

    /// Makes sure that the table of query states exists. It may be called
    /// any number of times. It fails only where the database does, with a
    /// `StoreFailure` that holds the words of the database.
    pub fn create_query_table(&mut self) -> (outcome: Result<(), StoreError>)
        ensures
            final(self).same_subject(old(self)),
            outcome matches Err(error) ==> table_failure(error@),
    {
        let reply = match execute_batch(&self.conn, CREATE_QUERY_TABLE) {
            Ok(()) => Ok(()),
            Err(error) => Err(describe(&error)),
        };
        table_outcome(reply)
    }

    /// Saves a state of the query: version one makes the row of the
    /// aggregate, every other version replaces what its row holds.
    ///
    /// A state with a negative version or with a payload that is not JSON is
    /// turned down before the database is touched. After that the database
    /// decides: the save has worked if exactly one row was written, and
    /// fails with a `StoreFailure` otherwise, so a state of a later version
    /// cannot make a row that is not there.
    pub fn save_query(&mut self, context: QueryContext) -> (outcome: Result<(), StoreError>)
        ensures
            final(self).same_subject(old(self)),
            saved(old(self).query_type_view(), context@, answer_view(outcome)),
    {
        match check_context(&context, self.query_type.as_str()) {
            Ok(()) => {},
            Err(error) => {
                return Err(error);
            },
        }
        match self.create_query_table() {
            Ok(()) => {},
            Err(error) => {
                return Err(error);
            },
        }
        let statement = write_statement(context.version);
        let changed = match execute_row(
            &self.conn,
            statement.sql(),
            context.version,
            context.payload.as_str(),
            self.aggregate_type.as_str(),
            context.aggregate_id.as_str(),
            self.query_type.as_str(),
        ) {
            Ok(rows) => Ok(rows),
            Err(error) => Err(describe(&error)),
        };
        let ghost answer = changed_view(changed);
        let outcome = save_outcome(
            self.query_type.as_str(),
            context.aggregate_id.as_str(),
            changed,
        );
        proof {
            assert(answer_view(outcome) == write_result(
                old(self).query_type_view(),
                context@.aggregate_id,
                answer,
            ));
        }
        outcome
    }

    /// Loads the state of the query for an aggregate: what its row holds,
    /// or version zero of the initial state if it has no row.
    ///
    /// What comes back is what `query_from_rows` makes of the rows that the
    /// database found. It fails with a `StoreFailure` where the database
    /// does or a row cannot be read, and with a `SerializationFailure` on a
    /// payload that is not JSON.
    pub fn load_query(&mut self, aggregate_id: &str) -> (outcome: Result<QueryContext, StoreError>)
        ensures
            final(self).same_subject(old(self)),
            loaded(
                old(self).query_type_view(),
                aggregate_id@,
                old(self).initial(),
                context_view(outcome),
            ),
    {
        match self.create_query_table() {
            Ok(()) => {},
            Err(error) => {
                return Err(error);
            },
        }
        let mut statement = match prepare(&self.conn, SELECT_QUERY) {
            Ok(statement) => statement,
            Err(error) => {
                let cause = describe(&error);
                return Err(
                    read_failed(
                        PREPARE_FAILED,
                        self.query_type.as_str(),
                        aggregate_id,
                        cause.as_str(),
                    ),
                );
            },
        };
        let found = match query_rows(
            &mut statement,
            self.aggregate_type.as_str(),
            aggregate_id,
            self.query_type.as_str(),
        ) {
            Ok(found) => found,
            Err(error) => {
                let cause = describe(&error);
                return Err(
                    read_failed(
                        LOAD_FAILED,
                        self.query_type.as_str(),
                        aggregate_id,
                        cause.as_str(),
                    ),
                );
            },
        };
        let rows = match read_rows(self.query_type.as_str(), aggregate_id, &found) {
            Ok(rows) => rows,
            Err(error) => {
                return Err(error);
            },
        };
        let first_is_json = rows.len() > 0 && is_json(rows[0].1.as_str());
        let outcome = query_from_rows(
            self.query_type.as_str(),
            aggregate_id,
            &rows,
            self.default_payload.as_str(),
            first_is_json,
        );
        proof {
            assert(context_view(outcome) == context_of_rows(
                old(self).query_type_view(),
                aggregate_id@,
                row_views(rows@),
                old(self).initial(),
            ));
        }
        outcome
    }

    /// Brings the state of the query for an aggregate up to date with a
    /// batch of its events: loads the state, folds the events in, and saves
    /// the result under the next version. Nothing is written unless the
    /// whole batch could be folded in, and what is written is written by one
    /// statement.
    ///
    /// It fails with a `SerializationFailure` where a payload is not JSON or
    /// the query cannot take an event, and with a `StoreFailure` where the
    /// database does, a row is there that should not be or is missing, or
    /// the version cannot grow.
    pub fn dispatch_events(&mut self, aggregate_id: &str, events: &Vec<EventContext>) -> (outcome:
        Result<(), StoreError>)
        ensures
            final(self).same_subject(old(self)),
            dispatched(
                old(self).query(),
                old(self).query_type_view(),
                aggregate_id@,
                old(self).initial(),
                event_views(events@),
                answer_view(outcome),
            ),
    {
        let found = self.load_query(aggregate_id);
        let loaded = match found {
            Ok(loaded) => loaded,
            Err(error) => {
                return Err(error);
            },
        };
        let folded = fold(&self.query, loaded.payload.as_str(), events);
        let ghost folded_view = text_outcome(folded);
        let outcome = match folded {
            Ok(payload) => match next_context(self.query_type.as_str(), &loaded, payload) {
                Ok(next) => self.save_query(next),
                Err(error) => Err(error),
            },
            Err(error) => Err(error),
        };
        proof {
            assert(folds(old(self).query(), loaded@.payload, event_views(events@), folded_view));
            assert(folded_and_saved(
                old(self).query(),
                old(self).query_type_view(),
                loaded@,
                event_views(events@),
                answer_view(outcome),
            ));
        }
        outcome
    }
}

impl<Q: IQuery> IEventDispatcher for QueryStore<Q> {
    /// A delivery leaves the store on the same query of the same aggregate
    /// type and answers as `dispatch_events` does. What it does to the
    /// database is not known here.
    open spec fn delivered(
        before: Self,
        after: Self,
        aggregate_id: Seq<char>,
        events: Seq<EventContextView>,
        answer: Result<(), StoreErrorView>,
    ) -> bool {
        &&& after.same_subject(&before)
        &&& dispatched(
            before.query(),
            before.query_type_view(),
            aggregate_id,
            before.initial(),
            events,
            answer,
        )
    }

    fn dispatch(&mut self, aggregate_id: &str, events: &Vec<EventContext>) -> (outcome: Result<
        (),
        StoreError,
    >) {
        self.dispatch_events(aggregate_id, events)
    }
}

} // verus!
