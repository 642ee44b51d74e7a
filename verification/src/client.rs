//! The client-facing control plane: starting workflow executions.

use vstd::prelude::*;
use vstd::string::StringExecFns;
use crate::error::{QueryError, SignalError};
use crate::event::{EventHistory, EventType, ExecutionStatus, status_of};
use crate::storage::InMemoryStorage;
use crate::types::{WorkflowId, WorkflowExecution};

verus! {

/// True when some name in `names` reads `name`.
pub open spec fn spec_contains_name(names: Seq<String>, name: Seq<char>) -> bool {
    exists|i: int| 0 <= i < names.len() && (#[trigger] names[i])@ == name
}

/// Whether `names` holds `name`.
fn contains_name(names: &Vec<String>, name: &str) -> (r: bool)
    ensures
        r == spec_contains_name(names@, name@),
{
    let name_s = name.to_owned();
    let n = names.len();
    let mut i: usize = 0;
    while i < n
        invariant
            n == names@.len(),
            name_s@ == name@,
            i <= n,
            forall|j: int| 0 <= j < i ==> (#[trigger] names@[j])@ != name@,
        decreases n - i,
    {
        if names[i] == name_s {
            return true;
        }
        i = i + 1;
    }
    false
}

/// Options for starting a workflow execution.  Timeouts are
/// milliseconds; one that is set must be positive.
#[derive(Debug, Clone)]
pub struct StartWorkflowOptions {
    /// Caller-supplied workflow id; generated when `None`.
    pub workflow_id: Option<WorkflowId>,
    /// Queue the first workflow task goes on.
    pub task_queue: String,
    /// Bound on the whole execution, retries of the run included.
    pub workflow_execution_timeout_ms: Option<u64>,
    /// Bound on a single run.
    pub workflow_run_timeout_ms: Option<u64>,
    /// Bound on one workflow task.
    pub workflow_task_timeout_ms: Option<u64>,
}

impl Default for StartWorkflowOptions {
    /// Queue `default`, a 10 s workflow-task timeout, no others.
    fn default() -> (r: Self)
        ensures
            r.workflow_id is None,
            r.task_queue@ == "default"@,
            r.workflow_execution_timeout_ms is None,
            r.workflow_run_timeout_ms is None,
            r.workflow_task_timeout_ms == Some(10_000u64),
    {
        StartWorkflowOptions {
            workflow_id: None,
            task_queue: "default".to_owned(),
            workflow_execution_timeout_ms: None,
            workflow_run_timeout_ms: None,
            workflow_task_timeout_ms: Some(10_000),
        }
    }
}

/// Handle to a started execution.
#[derive(Debug, Clone)]
pub struct WorkflowHandle {
    execution: WorkflowExecution,
}

impl WorkflowHandle {
    /// The execution the handle is bound to.
    pub closed spec fn spec_execution(&self) -> WorkflowExecution {
        self.execution
    }

    /// A handle bound to `execution`.
    pub fn new(execution: WorkflowExecution) -> (r: Self)
        ensures
            r.spec_execution() == execution,
    {
        WorkflowHandle { execution }
    }

    /// The execution the handle is bound to.
    pub fn execution(&self) -> (r: &WorkflowExecution)
        ensures
            *r == self.spec_execution(),
    {
        &self.execution
    }
}

/// Client for starting workflow executions.
pub struct WorkflowClient {
}

impl WorkflowClient {
    /// A new client.
    pub fn new() -> Self {
        WorkflowClient {  }
    }

    /// Start an execution: bind a workflow id (the caller's, or a
    /// fresh one), record the `WorkflowExecutionStarted` event as the
    /// history's first fact, persist both, and hand back a handle.
    pub fn start_workflow(
        &self,
        storage: &mut InMemoryStorage,
        workflow_type: &str,
        input: &str,
        options: &StartWorkflowOptions,
        timestamp_ms: i64,
    ) -> (r: WorkflowHandle)
        requires
            old(storage).well_formed(),
        ensures
            final(storage).well_formed(),
            options.workflow_id matches Some(id)
                ==> r.spec_execution().workflow_id.0@ == id.0@,
            final(storage)@.contains_key(r.spec_execution().workflow_id.0@),
            final(storage)@[r.spec_execution().workflow_id.0@].execution == r.spec_execution(),
            final(storage)@[r.spec_execution().workflow_id.0@].history@.len() == 1,
            final(storage)@[r.spec_execution().workflow_id.0@].history@[0].event_id.0 == 0,
            final(storage)@[r.spec_execution().workflow_id.0@].history@[0].timestamp_ms
                == timestamp_ms,
            (final(storage)@[r.spec_execution().workflow_id.0@].history@[0].event_type
                matches EventType::WorkflowExecutionStarted { workflow_type: t, input: i }
                && t@ == workflow_type@ && i@ == input@),
            final(storage)@.remove(r.spec_execution().workflow_id.0@)
                == old(storage)@.remove(r.spec_execution().workflow_id.0@),
    {
        let workflow_id = match &options.workflow_id {
            Some(id) => id.clone(),
            None => WorkflowId::generate(),
        };
        let execution = WorkflowExecution::new(workflow_id);
        let mut history = EventHistory::new();
        history.append(timestamp_ms, EventType::WorkflowExecutionStarted {
            workflow_type: workflow_type.to_owned(),
            input: input.to_owned(),
        });
        let res = storage.save_workflow_execution(&execution, &history);
        proof {
            assert(res is Ok);
        }
        WorkflowHandle { execution }
    }

    /// Deliver a signal, fire-and-forget: fails with
    /// `WorkflowNotFound` when no execution with the id is stored, and
    /// with `SignalNotRegistered` when the name is not among the
    /// workflow's registered signals; otherwise the delivery is
    /// accepted.
    pub fn signal_workflow(
        &self,
        storage: &InMemoryStorage,
        workflow_id: &WorkflowId,
        registered_signals: &Vec<String>,
        signal_name: &str,
    ) -> (r: Result<(), SignalError>)
        requires
            storage.well_formed(),
        ensures
            r is Ok <==> (storage@.contains_key(workflow_id.0@)
                && spec_contains_name(registered_signals@, signal_name@)),
            !storage@.contains_key(workflow_id.0@)
                ==> (r matches Err(e) && e is WorkflowNotFound),
            storage@.contains_key(workflow_id.0@)
                && !spec_contains_name(registered_signals@, signal_name@)
                ==> (r matches Err(e) && e matches SignalError::SignalNotRegistered(n)
                    && n@ == signal_name@),
    {
        match storage.load_workflow_execution(workflow_id) {
            Ok(_) => {},
            Err(_) => {
                return Err(SignalError::WorkflowNotFound);
            },
        }
        if !contains_name(registered_signals, signal_name) {
            return Err(SignalError::SignalNotRegistered(signal_name.to_owned()));
        }
        Ok(())
    }

    /// Answer a query against an execution's state without touching
    /// its history: fails with `WorkflowNotFound` when no execution
    /// with the id is stored, with `QueryNotRegistered` when the name
    /// is not among the workflow's registered queries, and with
    /// `WorkflowNotRunning` when the execution has already reached a
    /// terminal status; otherwise the execution's current status is
    /// the answer.
    pub fn query_workflow(
        &self,
        storage: &InMemoryStorage,
        workflow_id: &WorkflowId,
        registered_queries: &Vec<String>,
        query_name: &str,
    ) -> (r: Result<ExecutionStatus, QueryError>)
        requires
            storage.well_formed(),
        ensures
            r is Ok <==> (storage@.contains_key(workflow_id.0@)
                && spec_contains_name(registered_queries@, query_name@)
                && !status_of(storage@[workflow_id.0@].history@).spec_is_terminal()),
            r matches Ok(st) ==> st == status_of(storage@[workflow_id.0@].history@),
            !storage@.contains_key(workflow_id.0@)
                ==> (r matches Err(e) && e is WorkflowNotFound),
            storage@.contains_key(workflow_id.0@)
                && !spec_contains_name(registered_queries@, query_name@)
                ==> (r matches Err(e) && e matches QueryError::QueryNotRegistered(n)
                    && n@ == query_name@),
            storage@.contains_key(workflow_id.0@)
                && spec_contains_name(registered_queries@, query_name@)
                && status_of(storage@[workflow_id.0@].history@).spec_is_terminal()
                ==> (r matches Err(e) && e is WorkflowNotRunning),

    {
        let history: EventHistory = match storage.load_workflow_execution(workflow_id) {
            Ok((_, history)) => history,
            Err(_) => {
                return Err(QueryError::WorkflowNotFound);
            },
        };
        if !contains_name(registered_queries, query_name) {
            return Err(QueryError::QueryNotRegistered(query_name.to_owned()));
        }
        let status = history.status();
        if status.is_terminal() {
            return Err(QueryError::WorkflowNotRunning);
        }
        Ok(status)
    }
}

impl Default for WorkflowClient {
    /// Same as `new`.
    fn default() -> Self {
        WorkflowClient::new()
    }
}

} // verus!
