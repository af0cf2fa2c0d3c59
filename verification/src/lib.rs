//! Persistence for an event-sourced application.
//!
//! - [`event_store`]: the append-only log of the events of one aggregate
//!   type, with optimistic concurrency. Its contracts are exact, and the
//!   laws of numbering and of conflicting writers are proved there.
//! - [`query_store`]: the latest state of one query per aggregate, kept in a
//!   SQLite table. What the database answers is outside the proofs; what the
//!   store makes of each answer is proved.
//! - [`repository`]: takes a command to the aggregate, commits the events
//!   that come of it and tells the dispatchers, in order.
//! - [`dispatcher`], [`aggregate`], [`query`]: what the domain and the sinks
//!   bring along.
//! - [`sqlite`], [`json`]: the calls into `rusqlite` and `serde_json`, which
//!   are believed and not proved.

pub mod aggregate;
pub mod context;
pub mod dispatcher;
pub mod error;
pub mod event_store;
pub mod json;
pub mod query;
pub mod query_store;
pub mod repository;
pub mod sqlite;

pub use aggregate::IAggregate;
pub use context::{EventContext, EventContextView, QueryContext, QueryContextView};
pub use dispatcher::{CustomDispatcher, IEventDispatcher};
pub use error::{ErrorKind, StoreError, StoreErrorView};
pub use event_store::EventStore;
pub use query::IQuery;
pub use query_store::QueryStore;
pub use repository::Repository;
