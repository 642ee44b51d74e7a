//! The performance-measuring side of the system: a monitor that keeps
//! per-operation metrics, an engine that drives registered workflow
//! definitions step by step while recording metrics, and benchmark
//! inputs and result aggregation.  Durations are milliseconds; rates
//! are thousandths, so no measurement needs floating point.

use vstd::prelude::*;
use vstd::string::StringExecFns;
use crate::digits::{spec_decimal, u128_to_decimal};
use crate::external::now_millis;
use crate::vecmap::{Keyed, KeyedVec, NamedEntry, sum_by};

verus! {

/// Measurements of one named operation.
#[derive(Debug)]
pub struct PerformanceMetrics {
    /// The operation measured; the table key.
    pub operation_name: String,
    /// Wall-clock duration in milliseconds.
    pub execution_time_ms: u64,
    /// Bytes touched.
    pub memory_usage: usize,
    /// Processor share in thousandths.
    pub cpu_usage_permille: u64,
    /// Operations per second, in thousandths.
    pub throughput_milli: u64,
    /// Errors observed.
    pub error_count: u32,
}

impl Clone for PerformanceMetrics {
    fn clone(&self) -> (r: Self)
        ensures
            r == *self,
    {
        PerformanceMetrics {
            operation_name: self.operation_name.clone(),
            execution_time_ms: self.execution_time_ms,
            memory_usage: self.memory_usage,
            cpu_usage_permille: self.cpu_usage_permille,
            throughput_milli: self.throughput_milli,
            error_count: self.error_count,
        }
    }
}

impl Keyed for PerformanceMetrics {
    open spec fn key(&self) -> Seq<char> {
        self.operation_name@
    }

    fn matches_key(&self, k: &String) -> (r: bool) {
        self.operation_name == *k
    }
}

/// Aggregate over every operation the monitor has seen.
#[derive(Debug, Clone, Copy, PartialEq, Eq, Structural)]
pub struct OverallPerformanceStats {
    /// Operations with recorded metrics.
    pub total_operations: usize,
    /// Their durations summed, in milliseconds (saturating).
    pub total_execution_time_ms: u64,
    /// Their memory summed, in bytes (saturating).
    pub total_memory_usage: usize,
    /// Their errors summed (saturating).
    pub total_errors: u32,
    /// Mean throughput in thousandths; 0 when nothing was recorded.
    pub average_throughput_milli: u64,
}

/// `v` held to the range of a 64-bit unsigned integer.
pub open spec fn clamp_to_u64(v: int) -> u64 {
    if v > u64::MAX {
        u64::MAX
    } else if v < 0 {
        0
    } else {
        v as u64
    }
}

/// `v` held to the range of a 32-bit unsigned integer.
pub open spec fn clamp_to_u32(v: int) -> u32 {
    if v > u32::MAX {
        u32::MAX
    } else if v < 0 {
        0
    } else {
        v as u32
    }
}

/// `v` held to the range of a pointer-sized unsigned integer.
pub open spec fn clamp_to_usize(v: int) -> usize {
    if v > usize::MAX {
        usize::MAX
    } else if v < 0 {
        0
    } else {
        v as usize
    }
}

/// The duration sum of a metrics table.
pub open spec fn total_time(s: Seq<PerformanceMetrics>) -> int {
    sum_by(s, |m: PerformanceMetrics| m.execution_time_ms as int)
}

/// The memory sum of a metrics table.
pub open spec fn total_memory(s: Seq<PerformanceMetrics>) -> int {
    sum_by(s, |m: PerformanceMetrics| m.memory_usage as int)
}

/// The error sum of a metrics table.
pub open spec fn total_error_count(s: Seq<PerformanceMetrics>) -> int {
    sum_by(s, |m: PerformanceMetrics| m.error_count as int)
}

/// The throughput sum of a metrics table.
pub open spec fn total_throughput(s: Seq<PerformanceMetrics>) -> int {
    sum_by(s, |m: PerformanceMetrics| m.throughput_milli as int)
}

/// Keeps per-operation metrics and aggregates them.
pub struct PerformanceMonitor {
    metrics: KeyedVec<PerformanceMetrics>,
}

impl PerformanceMonitor {
    /// The recorded metrics entries, in recording order.
    pub closed spec fn entries(&self) -> Seq<PerformanceMetrics> {
        self.metrics.entries_seq()
    }

    /// The recorded metrics, by operation name.
    pub closed spec fn metrics_view(&self) -> Map<Seq<char>, PerformanceMetrics> {
        self.metrics.view()
    }

    /// Operation names are unique.
    pub closed spec fn wf(&self) -> bool {
        self.metrics.well_formed()
    }

    /// A monitor with nothing recorded.
    pub fn new() -> (r: Self)
        ensures
            r.wf(),
            r.entries().len() == 0,
            r.metrics_view() == Map::<Seq<char>, PerformanceMetrics>::empty(),
    {
        PerformanceMonitor { metrics: KeyedVec::new() }
    }

    /// Record (or replace) the metrics of their operation: a fresh
    /// operation appends an entry, a known one replaces its entry in
    /// place.
    pub fn record_metrics(&mut self, metrics: PerformanceMetrics)
        requires
            old(self).wf(),
        ensures
            final(self).wf(),
            final(self).metrics_view()
                == old(self).metrics_view().insert(metrics.operation_name@, metrics),
            !old(self).metrics_view().contains_key(metrics.operation_name@)
                ==> final(self).entries() == old(self).entries().push(metrics),
            old(self).metrics_view().contains_key(metrics.operation_name@)
                ==> exists|i: int| 0 <= i < old(self).entries().len()
                    && (#[trigger] old(self).entries()[i]).key() == metrics.operation_name@
                    && final(self).entries() == old(self).entries().update(i, metrics),
    {
        let key = metrics.operation_name.clone();
        let ghost pre = self.metrics.entries_seq();
        let ghost v = metrics;
        self.metrics.insert(&key, metrics);
        proof {
            if old(self).metrics_view().contains_key(v.operation_name@) {
                let i = choose|i: int| 0 <= i < pre.len()
                    && (#[trigger] pre[i]).key() == v.key()
                    && self.metrics.entries_seq() == pre.update(i, v);
                assert(old(self).entries()[i].key() == v.operation_name@);
                assert(final(self).entries() == old(self).entries().update(i, v));
            }
        }
    }

    /// The recorded metrics of `operation_name`, if any.
    pub fn get_metrics(&self, operation_name: &str) -> (r: Option<PerformanceMetrics>)
        requires
            self.wf(),
        ensures
            r is Some <==> self.metrics_view().contains_key(operation_name@),
            r matches Some(m) ==> m == self.metrics_view()[operation_name@],
    {
        let key = operation_name.to_owned();
        match self.metrics.get(&key) {
            Some(m) => Some(m.clone()),
            None => None,
        }
    }

    /// All recorded metrics, by operation name.
    pub fn get_all_metrics(&self) -> (r: &KeyedVec<PerformanceMetrics>)
        ensures
            r.view() == self.metrics_view(),
    {
        &self.metrics
    }

    /// Aggregate sums across every operation, with the mean throughput
    /// in thousandths.
    pub fn get_overall_stats(&self) -> (r: OverallPerformanceStats)
        requires
            self.wf(),
        ensures
            r.total_operations == self.entries().len(),
            r.total_execution_time_ms == clamp_to_u64(total_time(self.entries())),
            r.total_memory_usage == clamp_to_usize(total_memory(self.entries())),
            r.total_errors == clamp_to_u32(total_error_count(self.entries())),
            r.average_throughput_milli == (if self.entries().len() > 0 {
                clamp_to_u64(total_throughput(self.entries()) / self.entries().len() as int)
            } else {
                0
            }),
    {
        let entries = self.metrics.entries();
        let n = entries.len();
        let mut time: u128 = 0;
        let mut memory: u128 = 0;
        let mut errors: u128 = 0;
        let mut throughput: u128 = 0;
        let mut i: usize = 0;
        proof {
            assert(entries@.take(0) =~= Seq::<PerformanceMetrics>::empty());
        }
        while i < n
            invariant
                n == entries@.len(),
                entries@ == self.entries(),
                i <= n,
                time == total_time(entries@.take(i as int)),
                memory == total_memory(entries@.take(i as int)),
                errors == total_error_count(entries@.take(i as int)),
                throughput == total_throughput(entries@.take(i as int)),
                time <= i * (u64::MAX as int),
                memory <= i * (u64::MAX as int),
                errors <= i * (u64::MAX as int),
                throughput <= i * (u64::MAX as int),
            decreases n - i,
        {
            proof {
                assert(entries@.take(i as int + 1).drop_last() =~= entries@.take(i as int));
                assert(entries@.take(i as int + 1).last() == entries@[i as int]);
                assert((i as int) * (u64::MAX as int) + (u64::MAX as int)
                    == (i as int + 1) * (u64::MAX as int)) by (nonlinear_arith);
            }
            let m = &entries[i];
            time = time + (m.execution_time_ms as u128);
            memory = memory + (m.memory_usage as u128);
            errors = errors + (m.error_count as u128);
            throughput = throughput + (m.throughput_milli as u128);
            i = i + 1;
        }
        proof {
            assert(entries@.take(n as int) =~= entries@);
        }
        let average_throughput_milli: u64 = if n > 0 {
            let avg: u128 = throughput / (n as u128);
            if avg > u64::MAX as u128 {
                u64::MAX
            } else {
                avg as u64
            }
        } else {
            0
        };
        OverallPerformanceStats {
            total_operations: n,
            total_execution_time_ms: if time > u64::MAX as u128 {
                u64::MAX
            } else {
                time as u64
            },
            total_memory_usage: if memory > usize::MAX as u128 {
                usize::MAX
            } else {
                memory as usize
            },
            total_errors: if errors > u32::MAX as u128 {
                u32::MAX
            } else {
                errors as u32
            },
            average_throughput_milli,
        }
    }
}

/// One step of a benchmarked workflow.
#[derive(Debug, Clone)]
pub struct WorkflowStep {
    /// Step name.
    pub name: String,
    /// Action the step performs.
    pub action: String,
    /// Per-step timeout in milliseconds.
    pub timeout_ms: u64,
    /// Retries granted to the step.
    pub retries: u32,
}

/// A benchmarked workflow definition.
#[derive(Debug, Clone)]
pub struct WorkflowDefinition {
    /// The workflow's name.
    pub name: String,
    /// Its steps, in order.
    pub steps: Vec<WorkflowStep>,
    /// Whole-workflow timeout in milliseconds.
    pub timeout_ms: u64,
    /// Retries granted to the workflow.
    pub retries: u32,
    /// Dispatch priority.
    pub priority: u8,
}

/// Where a benchmarked execution stands; every state but `Running` is
/// terminal.
#[derive(Debug, Clone, Copy, PartialEq, Eq, Structural)]
pub enum ExecutionStatus {
    /// Still making progress.
    Running,
    /// Finished successfully.
    Completed,
    /// Finished in failure.
    Failed,
    /// Ended by a timeout.
    Timeout,
    /// Cancelled by the caller.
    Cancelled,
}

impl ExecutionStatus {
    /// True of every status but `Running`.
    pub open spec fn spec_is_terminal(&self) -> bool {
        !(self is Running)
    }

    /// True of every status but `Running`.
    #[verifier::when_used_as_spec(spec_is_terminal)]
    pub fn is_terminal(&self) -> (r: bool)
        ensures
            r == self.spec_is_terminal(),
    {
        !matches!(self, ExecutionStatus::Running)
    }
}

/// Runtime bookkeeping for one driven execution.
#[derive(Debug)]
pub struct WorkflowExecution {
    /// The execution's id; the table key.
    pub id: String,
    /// The registered workflow it runs.
    pub workflow_name: String,
    /// Where the execution stands.
    pub status: ExecutionStatus,
    /// Milliseconds since the Unix epoch when it began.
    pub start_time_ms: i64,
    /// Milliseconds since the Unix epoch when it ended, once it has.
    pub end_time_ms: Option<i64>,
    /// Steps finished so far.
    pub current_step: usize,
    /// Errors observed so far.
    pub error_count: u32,
}

impl Clone for WorkflowExecution {
    fn clone(&self) -> (r: Self)
        ensures
            r == *self,
    {
        WorkflowExecution {
            id: self.id.clone(),
            workflow_name: self.workflow_name.clone(),
            status: self.status,
            start_time_ms: self.start_time_ms,
            end_time_ms: self.end_time_ms,
            current_step: self.current_step,
            error_count: self.error_count,
        }
    }
}

impl Keyed for WorkflowExecution {
    open spec fn key(&self) -> Seq<char> {
        self.id@
    }

    fn matches_key(&self, k: &String) -> (r: bool) {
        self.id == *k
    }
}

/// Drives registered workflow definitions step by step, tracking each
/// execution and recording metrics for every operation.
pub struct HighPerformanceWorkflowEngine {
    monitor: PerformanceMonitor,
    workflows: KeyedVec<NamedEntry<WorkflowDefinition>>,
    executions: KeyedVec<WorkflowExecution>,
}

impl HighPerformanceWorkflowEngine {
    /// The registered definitions, by registration name.
    pub closed spec fn workflows_view(&self) -> Map<Seq<char>, NamedEntry<WorkflowDefinition>> {
        self.workflows.view()
    }

    /// The tracked executions, by execution id.
    pub closed spec fn executions_view(&self) -> Map<Seq<char>, WorkflowExecution> {
        self.executions.view()
    }

    /// The engine's metrics, by operation name.
    pub closed spec fn metrics_view(&self) -> Map<Seq<char>, PerformanceMetrics> {
        self.monitor.metrics_view()
    }

    /// All three tables have unique keys.
    pub closed spec fn wf(&self) -> bool {
        &&& self.monitor.wf()
        &&& self.workflows.well_formed()
        &&& self.executions.well_formed()
    }

    /// An engine with nothing registered and nothing running.
    pub fn new() -> (r: Self)
        ensures
            r.wf(),
            r.workflows_view() == Map::<Seq<char>, NamedEntry<WorkflowDefinition>>::empty(),
            r.executions_view() == Map::<Seq<char>, WorkflowExecution>::empty(),
    {
        HighPerformanceWorkflowEngine {
            monitor: PerformanceMonitor::new(),
            workflows: KeyedVec::new(),
            executions: KeyedVec::new(),
        }
    }

    /// Register `definition` under `name`, replacing a previous one.
    pub fn register_workflow(&mut self, name: String, definition: WorkflowDefinition)
        requires
            old(self).wf(),
        ensures
            final(self).wf(),
            final(self).executions_view() == old(self).executions_view(),
            final(self).workflows_view().contains_key(name@),
            final(self).workflows_view()[name@].value.name@ == definition.name@,
            final(self).workflows_view()[name@].value.steps@ == definition.steps@,
            final(self).workflows_view().remove(name@)
                == old(self).workflows_view().remove(name@),
    {
        let key = name.clone();
        self.workflows.insert(&key, NamedEntry { name, value: definition });
        proof {
            assert(final(self).workflows_view().remove(key@)
                =~= old(self).workflows_view().remove(key@));
        }
    }

    /// Start tracking an execution of the registered workflow
    /// `workflow_name` under `execution_id`: succeeds exactly when the
    /// name is registered and no finished execution already holds the
    /// id (a terminal execution is never resurrected), recording a
    /// `Running` execution at step 0 and a `start_execution_<name>`
    /// metric.
    pub fn start_execution(&mut self, workflow_name: &str, execution_id: String) -> (r: Result<(), String>)
        requires
            old(self).wf(),
        ensures
            final(self).wf(),
            final(self).workflows_view() == old(self).workflows_view(),
            r is Ok <==> (old(self).workflows_view().contains_key(workflow_name@)
                && !(old(self).executions_view().contains_key(execution_id@)
                    && old(self).executions_view()[execution_id@].status.spec_is_terminal())),
            r is Ok ==> final(self).executions_view().contains_key(execution_id@)
                && final(self).executions_view()[execution_id@].id@ == execution_id@
                && final(self).executions_view()[execution_id@].workflow_name@ == workflow_name@
                && final(self).executions_view()[execution_id@].status is Running
                && final(self).executions_view()[execution_id@].current_step == 0
                && final(self).executions_view()[execution_id@].error_count == 0
                && final(self).executions_view()[execution_id@].end_time_ms is None
                && final(self).executions_view().remove(execution_id@)
                    == old(self).executions_view().remove(execution_id@)
                && final(self).metrics_view().contains_key(
                    "start_execution_"@ + workflow_name@,
                ),
            r is Err ==> *final(self) == *old(self),
            !old(self).workflows_view().contains_key(workflow_name@)
                ==> (r matches Err(m)
                    && m@ == "Workflow '"@ + workflow_name@ + "' not found"@),
            old(self).workflows_view().contains_key(workflow_name@)
                && old(self).executions_view().contains_key(execution_id@)
                && old(self).executions_view()[execution_id@].status.spec_is_terminal()
                ==> (r matches Err(m)
                    && m@ == "Execution '"@ + execution_id@ + "' already finished"@),
    {
        let name_key = workflow_name.to_owned();
        if !self.workflows.contains_key(&name_key) {
            let msg = ("Workflow '".to_owned()).concat(workflow_name).concat("' not found");
            return Err(msg);
        }
        let finished = match self.executions.get(&execution_id) {
            Some(e) => e.status.is_terminal(),
            None => false,
        };
        if finished {
            let msg = ("Execution '".to_owned())
                .concat(execution_id.as_str())
                .concat("' already finished");
            return Err(msg);
        }
        let key = execution_id.clone();
        let execution = WorkflowExecution {
            id: execution_id,
            workflow_name: workflow_name.to_owned(),
            status: ExecutionStatus::Running,
            start_time_ms: now_millis(),
            end_time_ms: None,
            current_step: 0,
            error_count: 0,
        };
        self.executions.insert(&key, execution);
        let operation = ("start_execution_".to_owned()).concat(workflow_name);
        self.monitor.record_metrics(PerformanceMetrics {
            operation_name: operation,
            execution_time_ms: 0,
            memory_usage: 0,
            cpu_usage_permille: 0,
            throughput_milli: 1000,
            error_count: 0,
        });
        proof {
            assert(final(self).executions_view().remove(key@)
                =~= old(self).executions_view().remove(key@));
        }
        Ok(())
    }

    /// Run step `step_index` of `execution_id`: fails exactly when
    /// the execution is unknown or already finished (a terminal
    /// execution never runs another step), its workflow is not
    /// registered, or the index is out of range.  On success the
    /// execution stands just past the step, is `Completed` with its
    /// end time set once the last step ran, and an
    /// `execute_step_<name>_<index>` metric is recorded.
    pub fn execute_step(&mut self, execution_id: &str, step_index: usize) -> (r: Result<(), String>)
        requires
            old(self).wf(),
        ensures
            final(self).wf(),
            final(self).workflows_view() == old(self).workflows_view(),
            r is Ok <==> ({
                let key = execution_id@;
                &&& old(self).executions_view().contains_key(key)
                &&& !old(self).executions_view()[key].status.spec_is_terminal()
                &&& old(self).workflows_view().contains_key(
                    old(self).executions_view()[key].workflow_name@,
                )
                &&& step_index < old(self).workflows_view()[
                    old(self).executions_view()[key].workflow_name@
                ].value.steps@.len()
            }),
            r is Ok ==> ({
                let key = execution_id@;
                let steps = old(self).workflows_view()[
                    old(self).executions_view()[key].workflow_name@
                ].value.steps@;
                &&& final(self).executions_view().contains_key(key)
                &&& final(self).executions_view()[key].current_step == step_index + 1
                &&& final(self).executions_view()[key].status == (if step_index + 1 >= steps.len() {
                    ExecutionStatus::Completed
                } else {
                    old(self).executions_view()[key].status
                })
                &&& (step_index + 1 < steps.len()
                    ==> final(self).executions_view()[key].end_time_ms
                        == old(self).executions_view()[key].end_time_ms)
                &&& (step_index + 1 >= steps.len()
                    ==> final(self).executions_view()[key].end_time_ms is Some)
                &&& final(self).executions_view()[key].id == old(self).executions_view()[key].id
                &&& final(self).executions_view()[key].workflow_name
                    == old(self).executions_view()[key].workflow_name
                &&& final(self).executions_view().remove(key)
                    == old(self).executions_view().remove(key)
            }),
            r is Err ==> final(self).executions_view() == old(self).executions_view(),
            !old(self).executions_view().contains_key(execution_id@)
                ==> (r matches Err(m)
                    && m@ == "Execution '"@ + execution_id@ + "' not found"@),
            old(self).executions_view().contains_key(execution_id@)
                && old(self).executions_view()[execution_id@].status.spec_is_terminal()
                ==> (r matches Err(m)
                    && m@ == "Execution '"@ + execution_id@ + "' already finished"@),
            ({
                let key = execution_id@;
                old(self).executions_view().contains_key(key)
                    && !old(self).executions_view()[key].status.spec_is_terminal()
                    && !old(self).workflows_view().contains_key(
                        old(self).executions_view()[key].workflow_name@,
                    )
            }) ==> (r matches Err(m)
                && m@ == "Workflow '"@
                    + old(self).executions_view()[execution_id@].workflow_name@
                    + "' not found"@),
            ({
                let key = execution_id@;
                &&& old(self).executions_view().contains_key(key)
                &&& !old(self).executions_view()[key].status.spec_is_terminal()
                &&& old(self).workflows_view().contains_key(
                    old(self).executions_view()[key].workflow_name@,
                )
                &&& step_index >= old(self).workflows_view()[
                    old(self).executions_view()[key].workflow_name@
                ].value.steps@.len()
            }) ==> (r matches Err(m)
                && m@ == "Step index "@ + spec_decimal(step_index as int) + " out of range"@),
    {
        let key = execution_id.to_owned();
        let mut execution: WorkflowExecution = match self.executions.get(&key) {
            Some(e) => e.clone(),
            None => {
                let msg = ("Execution '".to_owned()).concat(execution_id).concat("' not found");
                return Err(msg);
            },
        };
        if execution.status.is_terminal() {
            let msg = ("Execution '".to_owned())
                .concat(execution_id)
                .concat("' already finished");
            return Err(msg);
        }
        let step_count: usize = match self.workflows.get(&execution.workflow_name) {
            Some(entry) => entry.value.steps.len(),
            None => {
                let msg = ("Workflow '".to_owned())
                    .concat(execution.workflow_name.as_str())
                    .concat("' not found");
                return Err(msg);
            },
        };
        if step_index >= step_count {
            let msg = ("Step index ".to_owned())
                .concat(u128_to_decimal(step_index as u128).as_str())
                .concat(" out of range");
            return Err(msg);
        }
        execution.current_step = step_index + 1;
        if execution.current_step >= step_count {
            execution.status = ExecutionStatus::Completed;
            execution.end_time_ms = Some(now_millis());
        }
        let workflow_name = execution.workflow_name.clone();
        proof {
            assert(execution.id@ == key@);
        }
        self.executions.insert(&key, execution);
        let operation = ("execute_step_".to_owned())
            .concat(workflow_name.as_str())
            .concat("_")
            .concat(u128_to_decimal(step_index as u128).as_str());
        self.monitor.record_metrics(PerformanceMetrics {
            operation_name: operation,
            execution_time_ms: 0,
            memory_usage: 0,
            cpu_usage_permille: 0,
            throughput_milli: 1000,
            error_count: 0,
        });
        proof {
            assert(final(self).executions_view().remove(key@)
                =~= old(self).executions_view().remove(key@));
        }
        Ok(())
    }

    /// Where `execution_id` stands, if it is tracked.
    pub fn get_execution_status(&self, execution_id: &str) -> (r: Option<ExecutionStatus>)
        requires
            self.wf(),
        ensures
            r is Some <==> self.executions_view().contains_key(execution_id@),
            r matches Some(st) ==> st == self.executions_view()[execution_id@].status,
    {
        let key = execution_id.to_owned();
        match self.executions.get(&key) {
            Some(e) => Some(e.status),
            None => None,
        }
    }

    /// Aggregate metrics across every recorded operation.
    pub fn get_performance_stats(&self) -> (r: OverallPerformanceStats)
        requires
            self.wf(),
        ensures
            r.total_operations == self.metrics_count(),
    {
        self.monitor.get_overall_stats()
    }

    /// How many operations have recorded metrics.
    pub closed spec fn metrics_count(&self) -> int {
        self.monitor.entries().len() as int
    }

    /// Cancel `execution_id`: fails exactly when it is not tracked.
    /// A running execution becomes `Cancelled` with its end time set;
    /// a finished one is left exactly as it is (a terminal status is
    /// sticky and never overwritten).
    pub fn cancel_execution(&mut self, execution_id: &str) -> (r: Result<(), String>)
        requires
            old(self).wf(),
        ensures
            final(self).wf(),
            final(self).workflows_view() == old(self).workflows_view(),
            final(self).metrics_view() == old(self).metrics_view(),
            r is Ok <==> old(self).executions_view().contains_key(execution_id@),
            !old(self).executions_view().contains_key(execution_id@)
                ==> (r matches Err(m)
                    && m@ == "Execution '"@ + execution_id@ + "' not found"@),
            old(self).executions_view().contains_key(execution_id@)
                && old(self).executions_view()[execution_id@].status.spec_is_terminal()
                ==> *final(self) == *old(self),
            old(self).executions_view().contains_key(execution_id@)
                && !old(self).executions_view()[execution_id@].status.spec_is_terminal()
                ==> final(self).executions_view().contains_key(execution_id@)
                    && final(self).executions_view()[execution_id@].status is Cancelled
                    && final(self).executions_view()[execution_id@].end_time_ms is Some
                    && final(self).executions_view()[execution_id@].id
                        == old(self).executions_view()[execution_id@].id
                    && final(self).executions_view()[execution_id@].workflow_name
                        == old(self).executions_view()[execution_id@].workflow_name
                    && final(self).executions_view()[execution_id@].current_step
                        == old(self).executions_view()[execution_id@].current_step
                    && final(self).executions_view().remove(execution_id@)
                        == old(self).executions_view().remove(execution_id@),
            r is Err ==> *final(self) == *old(self),
    {
        let key = execution_id.to_owned();
        let mut execution: WorkflowExecution = match self.executions.get(&key) {
            Some(e) => e.clone(),
            None => {
                let msg = ("Execution '".to_owned()).concat(execution_id).concat("' not found");
                return Err(msg);
            },
        };
        if execution.status.is_terminal() {
            return Ok(());
        }
        execution.status = ExecutionStatus::Cancelled;
        execution.end_time_ms = Some(now_millis());
        proof {
            assert(execution.id@ == key@);
        }
        self.executions.insert(&key, execution);
        proof {
            assert(final(self).executions_view().remove(key@)
                =~= old(self).executions_view().remove(key@));
        }
        Ok(())
    }
}

/// One benchmark input record.
#[derive(Debug, Clone)]
pub struct BenchmarkData {
    /// Record number.
    pub id: u32,
    /// Intended payload size in bytes.
    pub size: usize,
    /// A difficulty score.
    pub complexity: u32,
    /// The payload.
    pub data: Vec<u8>,
}

/// The measurements of one benchmark run.  The timing itself happens
/// outside the verified core; the aggregation of recorded results is
/// exact integer arithmetic and happens here.
#[derive(Debug)]
pub struct BenchmarkResult {
    /// Name of the run.
    pub test_name: String,
    /// Wall-clock duration in milliseconds.
    pub execution_time_ms: u64,
    /// Bytes touched.
    pub memory_usage: usize,
    /// Records per second, in thousandths.
    pub throughput_milli: u64,
    /// Errors observed.
    pub error_count: u32,
}

impl Clone for BenchmarkResult {
    fn clone(&self) -> (r: Self)
        ensures
            r == *self,
    {
        BenchmarkResult {
            test_name: self.test_name.clone(),
            execution_time_ms: self.execution_time_ms,
            memory_usage: self.memory_usage,
            throughput_milli: self.throughput_milli,
            error_count: self.error_count,
        }
    }
}

/// The duration sum of recorded results.
pub open spec fn results_total_time(s: Seq<BenchmarkResult>) -> int {
    sum_by(s, |r: BenchmarkResult| r.execution_time_ms as int)
}

/// The memory sum of recorded results.
pub open spec fn results_total_memory(s: Seq<BenchmarkResult>) -> int {
    sum_by(s, |r: BenchmarkResult| r.memory_usage as int)
}

/// The throughput sum of recorded results.
pub open spec fn results_total_throughput(s: Seq<BenchmarkResult>) -> int {
    sum_by(s, |r: BenchmarkResult| r.throughput_milli as int)
}

/// The error sum of recorded results.
pub open spec fn results_total_errors(s: Seq<BenchmarkResult>) -> int {
    sum_by(s, |r: BenchmarkResult| r.error_count as int)
}

/// Generates deterministic benchmark input records and aggregates the
/// recorded results.
pub struct PerformanceBenchmark {
    test_data: Vec<BenchmarkData>,
    results: Vec<BenchmarkResult>,
}

impl PerformanceBenchmark {
    /// The generated records.
    pub closed spec fn spec_test_data(&self) -> Seq<BenchmarkData> {
        self.test_data@
    }

    /// The recorded results, in recording order.
    pub closed spec fn spec_results(&self) -> Seq<BenchmarkResult> {
        self.results@
    }

    /// A benchmark with no data and no results yet.
    pub fn new() -> (r: Self)
        ensures
            r.spec_test_data().len() == 0,
            r.spec_results().len() == 0,
    {
        PerformanceBenchmark { test_data: Vec::new(), results: Vec::new() }
    }

    /// Record the measurements of one run.
    pub fn record_result(&mut self, result: BenchmarkResult)
        ensures
            final(self).spec_results() == old(self).spec_results().push(result),
            final(self).spec_test_data() == old(self).spec_test_data(),
    {
        self.results.push(result);
    }

    /// The recorded results, in recording order.
    pub fn get_all_results(&self) -> (r: &Vec<BenchmarkResult>)
        ensures
            r@ == self.spec_results(),
    {
        &self.results
    }

    /// The mean of the recorded results, labelled `average`, or
    /// `None` when nothing was recorded.  Each mean is the exact
    /// integer quotient of the field's sum by the result count.
    pub fn get_average_performance(&self) -> (r: Option<BenchmarkResult>)
        ensures
            r is Some <==> self.spec_results().len() > 0,
            r matches Some(avg) ==> ({
                let n = self.spec_results().len() as int;
                &&& avg.test_name@ == "average"@
                &&& avg.execution_time_ms == clamp_to_u64(results_total_time(self.spec_results()) / n)
                &&& avg.memory_usage == clamp_to_usize(results_total_memory(self.spec_results()) / n)
                &&& avg.throughput_milli
                    == clamp_to_u64(results_total_throughput(self.spec_results()) / n)
                &&& avg.error_count == clamp_to_u32(results_total_errors(self.spec_results()) / n)
            }),
    {
        let n = self.results.len();
        if n == 0 {
            return None;
        }
        let mut time: u128 = 0;
        let mut memory: u128 = 0;
        let mut throughput: u128 = 0;
        let mut errors: u128 = 0;
        let mut i: usize = 0;
        proof {
            assert(self.results@.take(0) =~= Seq::<BenchmarkResult>::empty());
        }
        while i < n
            invariant
                n == self.results@.len(),
                i <= n,
                time == results_total_time(self.results@.take(i as int)),
                memory == results_total_memory(self.results@.take(i as int)),
                throughput == results_total_throughput(self.results@.take(i as int)),
                errors == results_total_errors(self.results@.take(i as int)),
                time <= i * (u64::MAX as int),
                memory <= i * (u64::MAX as int),
                throughput <= i * (u64::MAX as int),
                errors <= i * (u64::MAX as int),
            decreases n - i,
        {
            proof {
                assert(self.results@.take(i as int + 1).drop_last()
                    =~= self.results@.take(i as int));
                assert(self.results@.take(i as int + 1).last() == self.results@[i as int]);
                assert((i as int) * (u64::MAX as int) + (u64::MAX as int)
                    == (i as int + 1) * (u64::MAX as int)) by (nonlinear_arith);
            }
            let r = &self.results[i];
            time = time + (r.execution_time_ms as u128);
            memory = memory + (r.memory_usage as u128);
            throughput = throughput + (r.throughput_milli as u128);
            errors = errors + (r.error_count as u128);
            i = i + 1;
        }
        proof {
            assert(self.results@.take(n as int) =~= self.results@);
        }
        let execution_time_ms: u64 = if time / (n as u128) > u64::MAX as u128 {
            u64::MAX
        } else {
            (time / (n as u128)) as u64
        };
        let memory_usage: usize = if memory / (n as u128) > usize::MAX as u128 {
            usize::MAX
        } else {
            (memory / (n as u128)) as usize
        };
        let throughput_milli: u64 = if throughput / (n as u128) > u64::MAX as u128 {
            u64::MAX
        } else {
            (throughput / (n as u128)) as u64
        };
        let error_count: u32 = if errors / (n as u128) > u32::MAX as u128 {
            u32::MAX
        } else {
            (errors / (n as u128)) as u32
        };
        Some(BenchmarkResult {
            test_name: "average".to_owned(),
            execution_time_ms,
            memory_usage,
            throughput_milli,
            error_count,
        })
    }

    /// Replace the data with `count` records of `size` bytes each,
    /// numbered from 0; record `n` is filled with the byte `n % 256`
    /// and scored `n % 10`.
    pub fn generate_test_data(&mut self, count: usize, size: usize)
        requires
            count <= u32::MAX,
        ensures
            final(self).spec_test_data().len() == count,
            forall|j: int| 0 <= j < count ==> {
                let d = #[trigger] final(self).spec_test_data()[j];
                d.id == j && d.size == size && d.complexity == j % 10 && d.data@.len() == size
                    && forall|b: int| 0 <= b < size ==> d.data@[b] == (j % 256)
            },
    {
        self.test_data = Vec::new();
        let mut i: usize = 0;
        while i < count
            invariant
                count <= u32::MAX,
                i <= count,
                self.test_data@.len() == i,
                forall|j: int| 0 <= j < i ==> {
                    let d = #[trigger] self.test_data@[j];
                    d.id == j && d.size == size && d.complexity == j % 10 && d.data@.len() == size
                        && forall|b: int| 0 <= b < size ==> d.data@[b] == (j % 256)
                },
            decreases count - i,
        {
            let ghost pre = self.test_data@;
            let b: u8 = (i % 256) as u8;
            let mut payload: Vec<u8> = Vec::new();
            let mut k: usize = 0;
            while k < size
                invariant
                    k <= size,
                    payload@.len() == k,
                    b == (i as int) % 256,
                    forall|p: int| 0 <= p < k ==> payload@[p] == b,
                decreases size - k,
            {
                payload.push(b);
                k = k + 1;
            }
            self.test_data.push(BenchmarkData {
                id: i as u32,
                size,
                complexity: (i % 10) as u32,
                data: payload,
            });
            i = i + 1;
            proof {
                assert forall|j: int| 0 <= j < i implies {
                    let d = #[trigger] self.test_data@[j];
                    d.id == j && d.size == size && d.complexity == j % 10 && d.data@.len() == size
                        && forall|p: int| 0 <= p < size ==> d.data@[p] == (j % 256)
                } by {
                    if j < i - 1 {
                        assert(self.test_data@[j] == pre[j]);
                    }
                }
            }
        }
    }

    /// How many records are generated.
    pub fn get_test_data_count(&self) -> (r: usize)
        ensures
            r == self.spec_test_data().len(),
    {
        self.test_data.len()
    }
}

} // verus!
