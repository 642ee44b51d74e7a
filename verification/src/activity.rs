//! Per-invocation activity configuration and the runtime surface handed
//! to activity code.

use vstd::prelude::*;
use crate::types::{ActivityId, WorkflowExecution};
use crate::error::ActivityError;
use crate::retry::RetryPolicy;

verus! {

/// Runtime surface given to one activity attempt: identity, heartbeats
/// and cooperative cancellation.
#[derive(Clone)]
pub struct ActivityContext {
    activity_id: ActivityId,
    workflow_execution: WorkflowExecution,
    cancelled: bool,
}

impl ActivityContext {
    /// The invocation id the context was built with.
    pub closed spec fn spec_activity_id(&self) -> ActivityId {
        self.activity_id
    }

    /// The execution the context was built with.
    pub closed spec fn spec_workflow_execution(&self) -> WorkflowExecution {
        self.workflow_execution
    }

    /// Whether cancellation has been requested.
    pub closed spec fn spec_cancelled(&self) -> bool {
        self.cancelled
    }

    /// Context for one attempt of the given invocation; cancellation
    /// starts unrequested.
    pub fn new(activity_id: ActivityId, workflow_execution: WorkflowExecution) -> (r: Self)
        ensures
            r.spec_activity_id() == activity_id,
            r.spec_workflow_execution() == workflow_execution,
            !r.spec_cancelled(),
    {
        ActivityContext { activity_id, workflow_execution, cancelled: false }
    }

    /// Request cancellation.  The engine cannot interrupt the attempt;
    /// it only raises the flag that the activity's code polls.
    pub fn request_cancellation(&mut self)
        ensures
            final(self).spec_activity_id() == old(self).spec_activity_id(),
            final(self).spec_workflow_execution() == old(self).spec_workflow_execution(),
            final(self).spec_cancelled(),
    {
        self.cancelled = true;
    }

    /// Identity of the invocation within its execution.
    pub fn activity_id(&self) -> (r: &ActivityId)
        ensures
            *r == self.spec_activity_id(),
    {
        &self.activity_id
    }

    /// The owning execution.
    pub fn workflow_execution(&self) -> (r: &WorkflowExecution)
        ensures
            *r == self.spec_workflow_execution(),
    {
        &self.workflow_execution
    }

    /// Report liveness of a long-running attempt.
    pub fn heartbeat(&self) -> (r: Result<(), ActivityError>)
        ensures
            r is Ok,
    {
        Ok(())
    }

    /// Report liveness together with progress details.
    pub fn heartbeat_with_details(&self, details: &str) -> (r: Result<(), ActivityError>)
        ensures
            r is Ok,
    {
        let _ = details;
        Ok(())
    }

    /// Cooperative cancellation check; long-running activity code
    /// polls this and winds down once it reports `true`.
    pub fn is_cancelled(&self) -> (r: bool)
        ensures
            r == self.spec_cancelled(),
    {
        self.cancelled
    }
}

/// Per-call configuration of one activity invocation.  Timeouts are
/// milliseconds; a timeout that is set must be positive.
#[derive(Debug, Clone)]
pub struct ActivityOptions {
    /// Caller-supplied invocation id; generated when `None`.
    pub activity_id: Option<ActivityId>,
    /// Queue the activity task is put on.
    pub task_queue: Option<String>,
    /// Bound on queueing delay before the first attempt starts.
    pub schedule_to_start_timeout_ms: Option<u64>,
    /// Bound on one attempt's duration.
    pub start_to_close_timeout_ms: Option<u64>,
    /// Bound on the total duration across all attempts.
    pub schedule_to_close_timeout_ms: Option<u64>,
    /// Bound on the gap between heartbeats.
    pub heartbeat_timeout_ms: Option<u64>,
    /// Retry behaviour; no retries beyond the first attempt when
    /// `None`.
    pub retry_policy: Option<RetryPolicy>,
}

impl ActivityOptions {
    /// The options' invariant: every timeout that is set is positive
    /// and the retry policy, if set, is valid.
    pub open spec fn valid(&self) -> bool {
        &&& (self.schedule_to_start_timeout_ms matches Some(t) ==> t > 0)
        &&& (self.start_to_close_timeout_ms matches Some(t) ==> t > 0)
        &&& (self.schedule_to_close_timeout_ms matches Some(t) ==> t > 0)
        &&& (self.heartbeat_timeout_ms matches Some(t) ==> t > 0)
        &&& (self.retry_policy matches Some(p) ==> p.valid())
    }
}

impl Default for ActivityOptions {
    /// 60 s to start, 300 s per attempt, 30 s heartbeat, default retry
    /// policy.
    fn default() -> (r: Self)
        ensures
            r.activity_id is None,
            r.task_queue is None,
            r.schedule_to_start_timeout_ms == Some(60_000u64),
            r.start_to_close_timeout_ms == Some(300_000u64),
            r.schedule_to_close_timeout_ms is None,
            r.heartbeat_timeout_ms == Some(30_000u64),
            r.retry_policy is Some,
            r.valid(),
    {
        ActivityOptions {
            activity_id: None,
            task_queue: None,
            schedule_to_start_timeout_ms: Some(60_000),
            start_to_close_timeout_ms: Some(300_000),
            schedule_to_close_timeout_ms: None,
            heartbeat_timeout_ms: Some(30_000),
            retry_policy: Some(RetryPolicy::default()),
        }
    }
}

} // verus!
