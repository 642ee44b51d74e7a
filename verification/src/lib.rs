//! A durable workflow orchestration engine.
//!
//! Workflows are long-running, multi-step processes whose progress is
//! recorded as an append-only event history.  Replaying that history
//! reconstructs the workflow's state after a crash or a worker handoff,
//! while activities (the externally effectful steps) are retried under a
//! configurable backoff policy and deduplicated with idempotency keys.

mod external;

pub mod digits;
pub mod vecmap;

pub mod activity;
pub mod async_features;
pub mod client;
pub mod const_features;
pub mod error;
pub mod event;
pub mod features;
pub mod order;
pub mod performance;
pub mod persistence;
pub mod query;
pub mod retry;
pub mod session_types;
pub mod signal;
pub mod stable_apis;
pub mod storage;
pub mod types;
pub mod worker;
pub mod workflow;

pub use activity::{ActivityContext, ActivityOptions};
pub use client::{WorkflowClient, StartWorkflowOptions, WorkflowHandle};
pub use error::{WorkflowError, ActivityError, SignalError, QueryError, StorageError};
pub use event::{EventHistory, WorkflowEvent, EventType, ExecutionStatus};
pub use order::{run_order_workflow, process_order_workflow_task};
pub use persistence::{InMemoryAdapter, StateSnapshot, IdempotencyRecord};
pub use query::Query;
pub use retry::RetryPolicy;
pub use signal::Signal;
pub use storage::{InMemoryStorage, StoredExecution};
pub use types::{WorkflowId, RunId, ActivityId, TimerId, EventId, WorkflowExecution};
pub use worker::{WorkflowWorker, WorkerConfig, ActivityTask, AttemptDisposition};
pub use workflow::{WorkflowContext, Command, ActivityResolution, TimerResolution};
