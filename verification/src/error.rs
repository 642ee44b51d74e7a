//! Error taxonomy of the engine.
//!
//! Activity-level transient errors are retried per policy and surface to
//! workflow code only once attempts are exhausted; workflow-level errors
//! always surface to workflow code, the only place compensation logic can
//! run.  Adapter- and control-plane failures are always returned to the
//! caller, never swallowed.

use vstd::prelude::*;

verus! {

/// Error surfaced to workflow code as the result of awaiting an
/// activity, child workflow or timer.
#[derive(Debug, Clone, PartialEq, Eq)]
pub enum WorkflowError {
    /// Activity execution failed after retries were exhausted.
    ActivityFailed(String),
    /// Child workflow failed.
    ChildWorkflowFailed(String),
    /// A timeout elapsed.
    Timeout(String),
    /// The workflow was cancelled.
    Cancelled,
    /// The signal channel was closed.
    SignalChannelClosed,
    /// The input was rejected.
    InvalidInput(String),
    /// The persistence adapter failed.
    StorageError(String),
    /// A payload could not be encoded or decoded.
    SerializationError(String),
    /// Application-defined error.
    Custom(String),
}

impl WorkflowError {
    /// Human-readable description of the error.
    pub fn message(&self) -> (r: String)
        ensures
            r@ == self.spec_message(),
    {
        match self {
            WorkflowError::ActivityFailed(msg) => ("Activity failed: ".to_owned()).concat(msg.as_str()),
            WorkflowError::ChildWorkflowFailed(msg) => ("Child workflow failed: ".to_owned()).concat(msg.as_str()),
            WorkflowError::Timeout(msg) => ("Timeout: ".to_owned()).concat(msg.as_str()),
            WorkflowError::Cancelled => "Workflow cancelled".to_owned(),
            WorkflowError::SignalChannelClosed => "Signal channel closed".to_owned(),
            WorkflowError::InvalidInput(msg) => ("Invalid input: ".to_owned()).concat(msg.as_str()),
            WorkflowError::StorageError(msg) => ("Storage error: ".to_owned()).concat(msg.as_str()),
            WorkflowError::SerializationError(msg) => ("Serialization error: ".to_owned()).concat(msg.as_str()),
            WorkflowError::Custom(msg) => msg.clone(),
        }
    }

    /// The text that `message` returns.
    pub open spec fn spec_message(&self) -> Seq<char> {
        match self {
            WorkflowError::ActivityFailed(msg) => "Activity failed: "@ + msg@,
            WorkflowError::ChildWorkflowFailed(msg) => "Child workflow failed: "@ + msg@,
            WorkflowError::Timeout(msg) => "Timeout: "@ + msg@,
            WorkflowError::Cancelled => "Workflow cancelled"@,
            WorkflowError::SignalChannelClosed => "Signal channel closed"@,
            WorkflowError::InvalidInput(msg) => "Invalid input: "@ + msg@,
            WorkflowError::StorageError(msg) => "Storage error: "@ + msg@,
            WorkflowError::SerializationError(msg) => "Serialization error: "@ + msg@,
            WorkflowError::Custom(msg) => msg@,
        }
    }
}

/// Error returned by a single activity attempt.
#[derive(Debug, Clone, PartialEq, Eq)]
pub enum ActivityError {
    /// Transient failure; eligible for retry.
    TemporaryFailure(String),
    /// Input validation failed; never retried.
    ValidationFailed(String),
    /// The activity body failed.
    ExecutionFailed(String),
    /// The activity was cancelled; never retried.
    Cancelled,
    /// An activity timeout elapsed.
    Timeout,
    /// A heartbeat could not be recorded.
    HeartbeatFailed(String),
    /// The input could not be decoded.
    InvalidInput(String),
    /// Application-defined error.
    Custom(String),
}

impl ActivityError {
    /// Stable name of the error kind, matched against a retry policy's
    /// non-retryable list.
    pub fn kind(&self) -> (r: String)
        ensures
            r@ == self.spec_kind(),
    {
        match self {
            ActivityError::TemporaryFailure(_) => "TemporaryFailure".to_owned(),
            ActivityError::ValidationFailed(_) => "ValidationFailed".to_owned(),
            ActivityError::ExecutionFailed(_) => "ExecutionFailed".to_owned(),
            ActivityError::Cancelled => "Cancelled".to_owned(),
            ActivityError::Timeout => "Timeout".to_owned(),
            ActivityError::HeartbeatFailed(_) => "HeartbeatFailed".to_owned(),
            ActivityError::InvalidInput(_) => "InvalidInput".to_owned(),
            ActivityError::Custom(_) => "Custom".to_owned(),
        }
    }

    /// The text that `kind` returns.
    pub open spec fn spec_kind(&self) -> Seq<char> {
        match self {
            ActivityError::TemporaryFailure(_) => "TemporaryFailure"@,
            ActivityError::ValidationFailed(_) => "ValidationFailed"@,
            ActivityError::ExecutionFailed(_) => "ExecutionFailed"@,
            ActivityError::Cancelled => "Cancelled"@,
            ActivityError::Timeout => "Timeout"@,
            ActivityError::HeartbeatFailed(_) => "HeartbeatFailed"@,
            ActivityError::InvalidInput(_) => "InvalidInput"@,
            ActivityError::Custom(_) => "Custom"@,
        }
    }

    /// Human-readable description of the error.
    pub fn message(&self) -> (r: String)
        ensures
            r@ == self.spec_error_message(),
    {
        match self {
            ActivityError::TemporaryFailure(msg) => ("Temporary failure: ".to_owned()).concat(msg.as_str()),
            ActivityError::ValidationFailed(msg) => ("Validation failed: ".to_owned()).concat(msg.as_str()),
            ActivityError::ExecutionFailed(msg) => ("Execution failed: ".to_owned()).concat(msg.as_str()),
            ActivityError::Cancelled => "Activity cancelled".to_owned(),
            ActivityError::Timeout => "Activity timeout".to_owned(),
            ActivityError::HeartbeatFailed(msg) => ("Heartbeat failed: ".to_owned()).concat(msg.as_str()),
            ActivityError::InvalidInput(msg) => ("Invalid input: ".to_owned()).concat(msg.as_str()),
            ActivityError::Custom(msg) => msg.clone(),
        }
    }

    /// The text that `message` returns.
    pub open spec fn spec_error_message(&self) -> Seq<char> {
        match self {
            ActivityError::TemporaryFailure(msg) => "Temporary failure: "@ + msg@,
            ActivityError::ValidationFailed(msg) => "Validation failed: "@ + msg@,
            ActivityError::ExecutionFailed(msg) => "Execution failed: "@ + msg@,
            ActivityError::Cancelled => "Activity cancelled"@,
            ActivityError::Timeout => "Activity timeout"@,
            ActivityError::HeartbeatFailed(msg) => "Heartbeat failed: "@ + msg@,
            ActivityError::InvalidInput(msg) => "Invalid input: "@ + msg@,
            ActivityError::Custom(msg) => msg@,
        }
    }
}

/// Error delivering a signal to an execution.
#[derive(Debug, Clone, PartialEq, Eq)]
pub enum SignalError {
    /// No execution with the given id exists.
    WorkflowNotFound,
    /// The signal name is not registered with the workflow.
    SignalNotRegistered(String),
    /// The signal payload could not be encoded or decoded.
    SerializationError(String),
    /// Application-defined error.
    Custom(String),
}

/// Error answering a query against an execution.
#[derive(Debug, Clone, PartialEq, Eq)]
pub enum QueryError {
    /// No execution with the given id exists.
    WorkflowNotFound,
    /// The query name is not registered with the workflow.
    QueryNotRegistered(String),
    /// The query payload could not be encoded or decoded.
    SerializationError(String),
    /// The execution has terminated and no answer is cached.
    WorkflowNotRunning,
    /// Application-defined error.
    Custom(String),
}

/// Error raised by a persistence backend.
#[derive(Debug, Clone, PartialEq, Eq)]
pub enum StorageError {
    /// The backend could not be reached.
    ConnectionError(String),
    /// A backend operation failed.
    QueryError(String),
    /// Stored data could not be encoded or decoded.
    SerializationError(String),
    /// The requested record does not exist.
    NotFound,
    /// Application-defined error.
    Custom(String),
}

} // verus!
