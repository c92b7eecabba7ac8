//! A sans-I/O client for the external task queue of a workflow engine.
//!
//! The library holds the decisions of a worker: which topics it subscribes
//! to, what a lease request looks like on the wire, how leased tasks are
//! grouped for execution, and how the replies of the engine are read. The
//! caller owns the sockets, the threads and the clock, and drives the types
//! of this crate with plain values.

pub mod client;
pub mod error;
pub mod service;

pub use crate::client::client::{join_outcome, spawn_outcome, Client, TaskPolling};
pub use crate::client::config::{Config, Interceptor};
pub use crate::client::dispatch::{group_by_activity, leased_tasks};
pub use crate::client::subscription::{SubscriptionBuilder, SubscriptionManager};
pub use crate::error::Error;
pub use crate::service::engine_service::{EngineService, HttpReply, HttpRequest};
pub use crate::service::json::Json;
pub use crate::service::model::{
    CompleteRequest, FetchAndLockRequest, Task, Topic, ValueInfo, Variable,
};
pub use crate::service::variables::VariableMap;
pub use crate::service::wire::tasks_from_json;
