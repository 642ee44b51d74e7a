//! Identifier and execution value types.

use vstd::prelude::*;
use vstd::string::StringExecFns;
use crate::error::WorkflowError;
use crate::external::{uuid_v4_string, uuid_parse_canonical, uuid_canonical};

verus! {

/// Stable logical name of a workflow instance.
#[derive(Debug)]
pub struct WorkflowId(pub String);

impl Clone for WorkflowId {
    fn clone(&self) -> (r: Self)
        ensures
            r == *self,
    {
        WorkflowId(self.0.clone())
    }
}

impl PartialEq for WorkflowId {
    fn eq(&self, other: &WorkflowId) -> (r: bool) {
        self.0 == other.0
    }
}

impl vstd::std_specs::cmp::PartialEqSpecImpl for WorkflowId {
    open spec fn obeys_eq_spec() -> bool {
        true
    }

    open spec fn eq_spec(&self, other: &WorkflowId) -> bool {
        self.0@ == other.0@
    }
}

impl WorkflowId {
    /// Wrap a caller-supplied id.
    pub fn new(id: &str) -> (r: Self)
        ensures
            r.0@ == id@,
    {
        WorkflowId(id.to_owned())
    }

    /// A fresh id of the form `workflow-<uuid>`.
    pub fn generate() -> (r: Self)
        ensures
            r.0@.len() == "workflow-"@.len() + 36,
            r.0@.subrange(0, "workflow-"@.len() as int) == "workflow-"@,
    {
        let u = uuid_v4_string();
        let s = ("workflow-".to_owned()).concat(u.as_str());
        proof {
            assert(s@.subrange(0, "workflow-"@.len() as int) =~= "workflow-"@);
        }
        WorkflowId(s)
    }

    /// The inner text.
    pub fn as_str(&self) -> (r: &str)
        ensures
            r@ == self.0@,
    {
        self.0.as_str()
    }
}

/// One attempt (incarnation) of a workflow; a UUID in canonical text
/// form.
#[derive(Debug)]
pub struct RunId(pub String);

impl Clone for RunId {
    fn clone(&self) -> (r: Self)
        ensures
            r == *self,
    {
        RunId(self.0.clone())
    }
}

impl PartialEq for RunId {
    fn eq(&self, other: &RunId) -> (r: bool) {
        self.0 == other.0
    }
}

impl vstd::std_specs::cmp::PartialEqSpecImpl for RunId {
    open spec fn obeys_eq_spec() -> bool {
        true
    }

    open spec fn eq_spec(&self, other: &RunId) -> bool {
        self.0@ == other.0@
    }
}

impl RunId {
    /// The id's text is in canonical form: parsing it gives the id
    /// back unchanged.  `generate` and `parse` only produce such ids,
    /// so `parse` inverts `to_string` on them.
    pub open spec fn is_canonical(&self) -> bool {
        uuid_canonical(self.0@) == Some(self.0@)
    }

    /// A fresh random run id, in canonical form.
    pub fn generate() -> (r: Self)
        ensures
            r.0@.len() == 36,
            r.is_canonical(),
    {
        RunId(uuid_v4_string())
    }

    /// Parse a run id from its text; rejects anything that is not a
    /// UUID, and canonicalises what it accepts.
    pub fn parse(s: &str) -> (r: Result<Self, WorkflowError>)
        ensures
            r is Ok <==> uuid_canonical(s@) is Some,
            r matches Ok(id) ==> uuid_canonical(s@) == Some(id.0@) && id.is_canonical(),
            r matches Err(e) ==> e matches WorkflowError::InvalidInput(_),
    {
        match uuid_parse_canonical(s) {
            Some(t) => Ok(RunId(t)),
            None => Err(WorkflowError::InvalidInput("not a UUID".to_owned())),
        }
    }

    /// The canonical text of the run id.
    pub fn to_string(&self) -> (r: String)
        ensures
            r@ == self.0@,
    {
        self.0.clone()
    }
}

/// Identifies one activity invocation within an execution; stable across
/// retries of that invocation.
#[derive(Debug)]
pub struct ActivityId(pub String);

impl Clone for ActivityId {
    fn clone(&self) -> (r: Self)
        ensures
            r == *self,
    {
        ActivityId(self.0.clone())
    }
}

impl PartialEq for ActivityId {
    fn eq(&self, other: &ActivityId) -> (r: bool) {
        self.0 == other.0
    }
}

impl vstd::std_specs::cmp::PartialEqSpecImpl for ActivityId {
    open spec fn obeys_eq_spec() -> bool {
        true
    }

    open spec fn eq_spec(&self, other: &ActivityId) -> bool {
        self.0@ == other.0@
    }
}

impl ActivityId {
    /// Wrap a caller-supplied id.
    pub fn new(id: &str) -> (r: Self)
        ensures
            r.0@ == id@,
    {
        ActivityId(id.to_owned())
    }

    /// A fresh id of the form `activity-<uuid>`.
    pub fn generate() -> (r: Self)
        ensures
            r.0@.len() == "activity-"@.len() + 36,
            r.0@.subrange(0, "activity-"@.len() as int) == "activity-"@,
    {
        let u = uuid_v4_string();
        let s = ("activity-".to_owned()).concat(u.as_str());
        proof {
            assert(s@.subrange(0, "activity-"@.len() as int) =~= "activity-"@);
        }
        ActivityId(s)
    }

    /// The inner text.
    pub fn as_str(&self) -> (r: &str)
        ensures
            r@ == self.0@,
    {
        self.0.as_str()
    }
}

/// Identifies one timer within an execution.
#[derive(Debug)]
pub struct TimerId(pub String);

impl Clone for TimerId {
    fn clone(&self) -> (r: Self)
        ensures
            r == *self,
    {
        TimerId(self.0.clone())
    }
}

impl PartialEq for TimerId {
    fn eq(&self, other: &TimerId) -> (r: bool) {
        self.0 == other.0
    }
}

impl vstd::std_specs::cmp::PartialEqSpecImpl for TimerId {
    open spec fn obeys_eq_spec() -> bool {
        true
    }

    open spec fn eq_spec(&self, other: &TimerId) -> bool {
        self.0@ == other.0@
    }
}

impl TimerId {
    /// Wrap a caller-supplied id.
    pub fn new(id: &str) -> (r: Self)
        ensures
            r.0@ == id@,
    {
        TimerId(id.to_owned())
    }

    /// A fresh id of the form `timer-<uuid>`.
    pub fn generate() -> (r: Self)
        ensures
            r.0@.len() == "timer-"@.len() + 36,
            r.0@.subrange(0, "timer-"@.len() as int) == "timer-"@,
    {
        let u = uuid_v4_string();
        let s = ("timer-".to_owned()).concat(u.as_str());
        proof {
            assert(s@.subrange(0, "timer-"@.len() as int) =~= "timer-"@);
        }
        TimerId(s)
    }

    /// The inner text.
    pub fn as_str(&self) -> (r: &str)
        ensures
            r@ == self.0@,
    {
        self.0.as_str()
    }
}

/// Sequence number of an event in an execution's history.
///
/// Event ids are assigned consecutively starting at 0 and are never
/// reused.
#[derive(Debug, Clone, Copy, PartialEq, Eq, Structural, Hash)]
pub struct EventId(pub u64);

impl EventId {
    /// The first event id of every history.
    pub fn zero() -> (r: Self)
        ensures
            r.0 == 0,
    {
        EventId(0)
    }

    /// The id that follows this one.
    pub fn next(&self) -> (r: Self)
        requires
            self.0 < u64::MAX,
        ensures
            r.0 == self.0 + 1,
    {
        EventId(self.0 + 1)
    }
}

/// A (workflow id, run id) pair naming one execution; immutable once
/// created.
#[derive(Debug)]
pub struct WorkflowExecution {
    /// Logical workflow name.
    pub workflow_id: WorkflowId,
    /// This incarnation of it.
    pub run_id: RunId,
}

impl Clone for WorkflowExecution {
    fn clone(&self) -> (r: Self)
        ensures
            r == *self,
    {
        WorkflowExecution {
            workflow_id: self.workflow_id.clone(),
            run_id: self.run_id.clone(),
        }
    }
}

impl PartialEq for WorkflowExecution {
    fn eq(&self, other: &WorkflowExecution) -> (r: bool) {
        self.workflow_id == other.workflow_id && self.run_id == other.run_id
    }
}

impl vstd::std_specs::cmp::PartialEqSpecImpl for WorkflowExecution {
    open spec fn obeys_eq_spec() -> bool {
        true
    }

    open spec fn eq_spec(&self, other: &WorkflowExecution) -> bool {
        self.workflow_id.0@ == other.workflow_id.0@ && self.run_id.0@ == other.run_id.0@
    }
}

impl WorkflowExecution {
    /// A new execution of `workflow_id` under a fresh run id.
    pub fn new(workflow_id: WorkflowId) -> (r: Self)
        ensures
            r.workflow_id == workflow_id,
    {
        WorkflowExecution { workflow_id, run_id: RunId::generate() }
    }

    /// An execution with both ids supplied by the caller.
    pub fn with_run_id(workflow_id: WorkflowId, run_id: RunId) -> (r: Self)
        ensures
            r.workflow_id == workflow_id,
            r.run_id == run_id,
    {
        WorkflowExecution { workflow_id, run_id }
    }
}

/// Description of a workflow as dispatched to a worker.
#[derive(Debug, Clone)]
pub struct WorkflowInfo {
    /// Registered name of the workflow implementation.
    pub workflow_type: String,
    /// The execution being driven.
    pub workflow_execution: WorkflowExecution,
    /// Queue the workflow task was taken from.
    pub task_queue: String,
}

/// Description of an activity attempt as dispatched to a worker.
#[derive(Debug, Clone)]
pub struct ActivityInfo {
    /// Identity of the invocation within its execution.
    pub activity_id: ActivityId,
    /// Registered name of the activity implementation.
    pub activity_type: String,
    /// The owning execution.
    pub workflow_execution: WorkflowExecution,
    /// 1-based attempt number.
    pub attempt: u32,
}

} // verus!
