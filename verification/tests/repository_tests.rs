use cqrs_es2_store::aggregate::rebuild;
use cqrs_es2_store::repository::dispatch_all;
use cqrs_es2_store::{
    CustomDispatcher, ErrorKind, EventContext, EventStore, IAggregate, IEventDispatcher, IQuery,
    QueryStore, Repository, StoreError,
};
use rusqlite::Connection;

fn payload_of(kind: &str, amount: i64) -> String {
    let mut fields = serde_json::Map::new();
    fields.insert("kind".to_string(), serde_json::Value::from(kind));
    fields.insert("amount".to_string(), serde_json::Value::from(amount));
    serde_json::Value::Object(fields).to_string()
}

fn kind_and_amount(payload: &str) -> Option<(String, i64)> {
    let value: serde_json::Value = serde_json::from_str(payload).ok()?;
    Some((value.get("kind")?.as_str()?.to_string(), value.get("amount")?.as_i64()?))
}

fn balance_payload(balance: i64) -> String {
    let mut fields = serde_json::Map::new();
    fields.insert("balance".to_string(), serde_json::Value::from(balance));
    serde_json::Value::Object(fields).to_string()
}

/// A bank account.
struct Account;

#[derive(Clone, Debug, PartialEq)]
struct AccountState {
    open: bool,
    balance: i64,
}

enum AccountCommand {
    Open(String),
    Deposit(String, i64),
    Withdraw(String, i64),
    Touch(String),
}

impl IAggregate for Account {
    type Command = AccountCommand;
    type State = AccountState;

    fn aggregate_id(&self, command: &AccountCommand) -> String {
        match command {
            AccountCommand::Open(id)
            | AccountCommand::Deposit(id, _)
            | AccountCommand::Withdraw(id, _)
            | AccountCommand::Touch(id) => id.clone(),
        }
    }

    fn default_state(&self) -> AccountState {
        AccountState { open: false, balance: 0 }
    }

    fn apply(&self, state: AccountState, event: &EventContext) -> Result<AccountState, StoreError> {
        match kind_and_amount(&event.payload) {
            Some((kind, amount)) if kind == "deposited" => {
                Ok(AccountState { open: true, balance: state.balance + amount })
            }
            Some((kind, amount)) if kind == "withdrawn" => {
                Ok(AccountState { open: true, balance: state.balance - amount })
            }
            Some(_) => Ok(AccountState { open: true, balance: state.balance }),
            None => Err(StoreError::new(ErrorKind::StoreFailure, "unreadable event")),
        }
    }

    fn handle(
        &self,
        state: &AccountState,
        command: AccountCommand,
    ) -> Result<Vec<String>, StoreError> {
        match command {
            AccountCommand::Open(_) => Ok(vec![payload_of("created", 0)]),
            AccountCommand::Touch(_) => Ok(vec![]),
            AccountCommand::Deposit(_, amount) if state.open => {
                Ok(vec![payload_of("deposited", amount)])
            }
            AccountCommand::Withdraw(_, amount) if state.open => {
                if amount > state.balance {
                    Err(StoreError::new(ErrorKind::StoreFailure, "insufficient funds"))
                } else {
                    Ok(vec![payload_of("withdrawn", amount)])
                }
            }
            _ => Err(StoreError::new(ErrorKind::NotFound, "no such account")),
        }
    }
}

/// The balance of an account as a query.
struct Balance;

impl IQuery for Balance {
    fn update(&self, payload: &str, event: &EventContext) -> Result<String, StoreError> {
        let unreadable = || StoreError::new(ErrorKind::SerializationFailure, "unreadable");
        let state: serde_json::Value = serde_json::from_str(payload).map_err(|_| unreadable())?;
        let balance = state.get("balance").and_then(|b| b.as_i64()).ok_or_else(unreadable)?;
        match kind_and_amount(&event.payload) {
            Some((kind, amount)) if kind == "deposited" => Ok(balance_payload(balance + amount)),
            Some((kind, amount)) if kind == "withdrawn" => Ok(balance_payload(balance - amount)),
            Some(_) => Ok(balance_payload(balance)),
            None => Err(unreadable()),
        }
    }
}

/// The dispatchers of these tests: a projection, a collector, and one that
/// takes a batch only while it may.
enum Sink {
    Projection(QueryStore<Balance>),
    Collector(CustomDispatcher),
    Limited { left: usize, seen: Vec<usize> },
}

impl IEventDispatcher for Sink {
    fn dispatch(&mut self, aggregate_id: &str, events: &Vec<EventContext>) -> Result<(), StoreError> {
        match self {
            Sink::Projection(store) => store.dispatch(aggregate_id, events),
            Sink::Collector(collector) => collector.dispatch(aggregate_id, events),
            Sink::Limited { left, seen } => {
                seen.push(events.len());
                if *left == 0 {
                    Err(StoreError::new(ErrorKind::StoreFailure, "the sink is full"))
                } else {
                    *left -= 1;
                    Ok(())
                }
            }
        }
    }
}

fn collector() -> Sink {
    Sink::Collector(CustomDispatcher::new(Vec::new()))
}

fn collected(sink: &Sink) -> Vec<(String, i64, String)> {
    match sink {
        Sink::Collector(collector) => collector
            .events()
            .iter()
            .map(|event| (event.aggregate_id.clone(), event.sequence, event.payload.clone()))
            .collect(),
        _ => panic!("not a collector"),
    }
}

fn seen(sink: &Sink) -> Vec<usize> {
    match sink {
        Sink::Limited { seen, .. } => seen.clone(),
        _ => panic!("not a limited sink"),
    }
}

fn balances() -> QueryStore<Balance> {
    QueryStore::new(
        Connection::open_in_memory().unwrap(),
        "account".to_string(),
        "balance".to_string(),
        balance_payload(0),
        Balance,
    )
}

fn projection() -> Sink {
    Sink::Projection(balances())
}

fn projected(sink: &mut Sink, aggregate_id: &str) -> (i64, String) {
    match sink {
        Sink::Projection(store) => {
            let context = store.load_query(aggregate_id).unwrap();
            (context.version, context.payload)
        }
        _ => panic!("not a projection"),
    }
}

fn repository(dispatchers: Vec<Sink>, with_dispatchers: bool) -> Repository<Account, Sink> {
    Repository::new(Account, EventStore::new("account".to_string()), dispatchers, with_dispatchers)
}

#[test]
fn events_flow_from_the_commit_to_the_projection() {
    let mut repository = repository(vec![projection(), collector()], true);

    repository
        .persist("acct-1", vec![payload_of("created", 0), payload_of("deposited", 50)], 0)
        .unwrap();
    let events = repository.store.load("acct-1").unwrap();
    assert_eq!(events.len(), 2);
    assert_eq!(events[0].sequence, 1);
    assert_eq!(events[1].sequence, 2);
    assert_eq!(projected(&mut repository.dispatchers[0], "acct-1"), (1, "{\"balance\":50}".to_string()));

    repository.persist("acct-1", vec![payload_of("withdrawn", 20)], 2).unwrap();
    assert_eq!(projected(&mut repository.dispatchers[0], "acct-1"), (2, "{\"balance\":30}".to_string()));

    let error = repository.persist("acct-1", vec![payload_of("withdrawn", 1)], 1).unwrap_err();
    assert_eq!(error.kind, ErrorKind::ConcurrencyConflict);
    assert_eq!(repository.store.current_version("acct-1"), 3);
    assert_eq!(projected(&mut repository.dispatchers[0], "acct-1"), (2, "{\"balance\":30}".to_string()));
    assert_eq!(collected(&repository.dispatchers[1]).len(), 3);
}

#[test]
fn the_event_store_alone_runs_the_same_example() {
    let mut store = EventStore::new("account".to_string());
    let created = store
        .commit("acct-1", vec![payload_of("created", 0), payload_of("deposited", 50)], 0)
        .unwrap();
    assert_eq!(created.iter().map(|event| event.sequence).collect::<Vec<_>>(), vec![1, 2]);
    let mut projection = balances();
    projection.dispatch("acct-1", &created).unwrap();
    let context = projection.load_query("acct-1").unwrap();
    assert_eq!((context.version, context.payload.as_str()), (1, "{\"balance\":50}"));

    let created = store.commit("acct-1", vec![payload_of("withdrawn", 20)], 2).unwrap();
    projection.dispatch("acct-1", &created).unwrap();
    let context = projection.load_query("acct-1").unwrap();
    assert_eq!((context.version, context.payload.as_str()), (2, "{\"balance\":30}"));

    let error = store.commit("acct-1", vec![payload_of("withdrawn", 1)], 1).unwrap_err();
    assert_eq!(error.kind, ErrorKind::ConcurrencyConflict);
}

#[test]
fn every_dispatcher_gets_exactly_the_committed_batch() {
    let mut repository = repository(vec![collector(), collector(), collector()], true);
    repository.persist("acct-1", vec!["a".to_string(), "b".to_string()], 0).unwrap();
    repository.persist("acct-2", vec!["c".to_string()], 0).unwrap();
    let expected = vec![
        ("acct-1".to_string(), 1, "a".to_string()),
        ("acct-1".to_string(), 2, "b".to_string()),
        ("acct-2".to_string(), 1, "c".to_string()),
    ];
    for sink in &repository.dispatchers {
        assert_eq!(collected(sink), expected);
    }
}

#[test]
fn a_failing_dispatcher_stops_the_round_and_keeps_the_events() {
    let mut repository = repository(
        vec![
            collector(),
            Sink::Limited { left: 1, seen: vec![] },
            collector(),
        ],
        true,
    );
    repository.persist("acct-1", vec!["a".to_string()], 0).unwrap();

    let error = repository.persist("acct-1", vec!["b".to_string(), "c".to_string()], 1).unwrap_err();
    assert_eq!(error.kind, ErrorKind::DispatchFailure);
    assert_eq!(error.message, "events are committed but a dispatcher failed: the sink is full");

    let events = repository.store.load("acct-1").unwrap();
    assert_eq!(events.iter().map(|event| event.sequence).collect::<Vec<_>>(), vec![1, 2, 3]);
    assert_eq!(collected(&repository.dispatchers[0]).len(), 3);
    assert_eq!(seen(&repository.dispatchers[1]), vec![1, 2]);
    assert_eq!(collected(&repository.dispatchers[2]).len(), 1);
}

#[test]
fn a_commit_that_is_turned_down_reaches_no_dispatcher() {
    let mut repository = repository(vec![collector(), Sink::Limited { left: 0, seen: vec![] }], true);
    let error = repository.persist("acct-1", vec!["a".to_string()], 3).unwrap_err();
    assert_eq!(error.kind, ErrorKind::ConcurrencyConflict);
    assert!(collected(&repository.dispatchers[0]).is_empty());
    assert!(seen(&repository.dispatchers[1]).is_empty());
    assert!(repository.store.load("acct-1").unwrap().is_empty());
}

#[test]
fn a_repository_without_write_through_tells_no_dispatcher() {
    let mut repository = repository(vec![collector(), Sink::Limited { left: 0, seen: vec![] }], false);
    repository.persist("acct-1", vec!["a".to_string()], 0).unwrap();
    assert!(!repository.with_dispatchers);
    assert_eq!(repository.store.current_version("acct-1"), 1);
    assert!(collected(&repository.dispatchers[0]).is_empty());
    assert!(seen(&repository.dispatchers[1]).is_empty());
}

#[test]
fn dispatchers_are_told_in_the_order_of_the_list() {
    let mut dispatchers = vec![
        Sink::Limited { left: 5, seen: vec![] },
        Sink::Limited { left: 0, seen: vec![] },
        Sink::Limited { left: 5, seen: vec![] },
    ];
    let batch = vec![
        EventContext::new("acct-1".to_string(), 1, "a".to_string()),
        EventContext::new("acct-1".to_string(), 2, "b".to_string()),
    ];
    let error = dispatch_all(&mut dispatchers, "acct-1", &batch).unwrap_err();
    assert_eq!(error.kind, ErrorKind::DispatchFailure);
    assert_eq!(seen(&dispatchers[0]), vec![2]);
    assert_eq!(seen(&dispatchers[1]), vec![2]);
    assert!(seen(&dispatchers[2]).is_empty());

    let mut none: Vec<Sink> = Vec::new();
    assert!(dispatch_all(&mut none, "acct-1", &batch).is_ok());
}

#[test]
fn the_collector_keeps_what_it_had_and_what_it_gets() {
    let held = vec![EventContext::new("acct-0".to_string(), 1, "z".to_string())];
    let mut collector = CustomDispatcher::new(held);
    let batch = vec![
        EventContext::new("acct-1".to_string(), 1, "a".to_string()),
        EventContext::new("acct-1".to_string(), 2, "b".to_string()),
    ];
    collector.dispatch("acct-1", &batch).unwrap();
    collector.dispatch("acct-1", &vec![]).unwrap();
    let payloads: Vec<&str> = collector.events().iter().map(|e| e.payload.as_str()).collect();
    assert_eq!(payloads, vec!["z", "a", "b"]);
}

#[test]
fn a_command_leads_to_events_and_to_the_projection() {
    let mut repository = repository(vec![projection(), collector()], true);
    repository.execute(AccountCommand::Open("acct-1".to_string())).unwrap();
    repository.execute(AccountCommand::Deposit("acct-1".to_string(), 50)).unwrap();
    repository.execute(AccountCommand::Withdraw("acct-1".to_string(), 20)).unwrap();

    let state = repository.load_aggregate_state("acct-1").unwrap();
    assert_eq!(state, AccountState { open: true, balance: 30 });
    assert_eq!(repository.store.current_version("acct-1"), 3);
    assert_eq!(projected(&mut repository.dispatchers[0], "acct-1"), (3, "{\"balance\":30}".to_string()));
    let sequences: Vec<i64> =
        collected(&repository.dispatchers[1]).iter().map(|event| event.1).collect();
    assert_eq!(sequences, vec![1, 2, 3]);
}

#[test]
fn a_command_that_is_turned_down_changes_nothing() {
    let mut repository = repository(vec![collector()], true);
    let error = repository.execute(AccountCommand::Deposit("acct-1".to_string(), 5)).unwrap_err();
    assert_eq!(error.kind, ErrorKind::Validation);
    assert_eq!(error.message, "no such account");
    assert_eq!(repository.store.current_version("acct-1"), 0);
    assert!(collected(&repository.dispatchers[0]).is_empty());

    repository.execute(AccountCommand::Open("acct-1".to_string())).unwrap();
    let error = repository.execute(AccountCommand::Withdraw("acct-1".to_string(), 5)).unwrap_err();
    assert_eq!(error.kind, ErrorKind::Validation);
    assert_eq!(error.message, "insufficient funds");
    assert_eq!(repository.store.current_version("acct-1"), 1);
    assert_eq!(collected(&repository.dispatchers[0]).len(), 1);
}

#[test]
fn a_command_without_events_commits_nothing() {
    let mut repository = repository(vec![collector()], true);
    repository.execute(AccountCommand::Touch("acct-1".to_string())).unwrap();
    assert_eq!(repository.store.current_version("acct-1"), 0);
    assert!(collected(&repository.dispatchers[0]).is_empty());
}

#[test]
fn an_aggregate_without_events_is_not_found() {
    let mut repository = repository(vec![], true);
    repository.persist("acct-1", vec![payload_of("created", 0)], 0).unwrap();
    let error = repository.load_aggregate_state("acct-9").unwrap_err();
    assert_eq!(error.kind, ErrorKind::NotFound);
    assert_eq!(error.message, "no events were found for aggregate id acct-9");
    assert!(repository.load_aggregate_state("acct-1").is_ok());
}

#[test]
fn an_event_that_cannot_be_read_fails_the_command() {
    let mut repository = repository(vec![collector()], true);
    repository
        .persist("acct-1", vec![payload_of("created", 0), "not an event".to_string()], 0)
        .unwrap();
    let error = repository.execute(AccountCommand::Deposit("acct-1".to_string(), 5)).unwrap_err();
    assert_eq!(error.kind, ErrorKind::SerializationFailure);
    assert_eq!(error.message, "unreadable event");
    assert_eq!(repository.store.current_version("acct-1"), 2);
    assert_eq!(collected(&repository.dispatchers[0]).len(), 2);

    let error = repository.load_aggregate_state("acct-1").unwrap_err();
    assert_eq!(error.kind, ErrorKind::SerializationFailure);
}

#[test]
fn rebuilding_applies_the_events_from_first_to_last() {
    let events = vec![
        EventContext::new("acct-1".to_string(), 1, payload_of("created", 0)),
        EventContext::new("acct-1".to_string(), 2, payload_of("deposited", 7)),
        EventContext::new("acct-1".to_string(), 3, payload_of("withdrawn", 2)),
    ];
    assert_eq!(rebuild(&Account, &events).unwrap(), AccountState { open: true, balance: 5 });
    assert_eq!(rebuild(&Account, &vec![]).unwrap(), AccountState { open: false, balance: 0 });

    let broken = vec![
        EventContext::new("acct-1".to_string(), 1, payload_of("created", 0)),
        EventContext::new("acct-1".to_string(), 2, "?".to_string()),
        EventContext::new("acct-1".to_string(), 3, payload_of("deposited", 7)),
    ];
    let error = rebuild(&Account, &broken).unwrap_err();
    assert_eq!(error.kind, ErrorKind::SerializationFailure);
    assert_eq!(error.message, "unreadable event");
}

#[test]
fn the_state_is_rebuilt_from_the_events_in_order() {
    let mut repository = repository(vec![], true);
    repository
        .persist(
            "acct-1",
            vec![payload_of("created", 0), payload_of("deposited", 7), payload_of("withdrawn", 2)],
            0,
        )
        .unwrap();
    repository.persist("acct-2", vec![payload_of("deposited", 100)], 0).unwrap();
    let state = repository.load_aggregate_state("acct-1").unwrap();
    assert_eq!(state, AccountState { open: true, balance: 5 });
}
