//! Compile-time-flavoured workflow configuration: fixed configuration
//! values, statically validated step lists, and a small executor and
//! monitor over them.

use vstd::prelude::*;
use vstd::string::StringExecFns;
use crate::external::now_millis;
use crate::vecmap::{Keyed, KeyedVec, NamedEntry};

verus! {

/// Processes integer data against a fixed configuration.
pub struct ConstContextProcessor {
    data: Vec<i32>,
}

/// The sum of a sequence of 32-bit integers, as an unbounded integer.
pub open spec fn spec_sum(s: Seq<i32>) -> int
    decreases s.len(),
{
    if s.len() == 0 {
        0
    } else {
        spec_sum(s.drop_last()) + s.last()
    }
}

impl ConstContextProcessor {
    /// A processor with no data.
    pub fn new() -> (r: Self) {
        ConstContextProcessor { data: Vec::new() }
    }

    /// Sum the input.  Every prefix sum must stay representable, as it
    /// must wherever this runs.
    pub fn process_const_data(input: &[i32]) -> (r: i32)
        requires
            forall|k: int| 0 <= k <= input@.len()
                ==> i32::MIN <= spec_sum(#[trigger] input@.take(k)) <= i32::MAX,
        ensures
            r == spec_sum(input@),
    {
        let n = input.len();
        let mut sum: i32 = 0;
        let mut i: usize = 0;
        proof {
            assert(input@.take(0) =~= Seq::<i32>::empty());
        }
        while i < n
            invariant
                n == input@.len(),
                i <= n,
                sum == spec_sum(input@.take(i as int)),
                forall|k: int| 0 <= k <= input@.len()
                    ==> i32::MIN <= spec_sum(#[trigger] input@.take(k)) <= i32::MAX,
            decreases n - i,
        {
            proof {
                assert(input@.take(i as int + 1).drop_last() =~= input@.take(i as int));
                assert(input@.take(i as int + 1).last() == input@[i as int]);
            }
            sum = sum + input[i];
            i = i + 1;
        }
        proof {
            assert(input@.take(n as int) =~= input@);
        }
        sum
    }

    /// The fixed configuration: 3 retries, 30 s timeout, batches of
    /// 100, logging on.
    pub fn create_config() -> (r: WorkflowConfig)
        ensures
            r.max_retries == 3,
            r.timeout_seconds == 30,
            r.batch_size == 100,
            r.enable_logging,
    {
        WorkflowConfig { max_retries: 3, timeout_seconds: 30, batch_size: 100, enable_logging: true }
    }
}

/// Engine-wide configuration values.
#[derive(Debug, Clone, Copy, PartialEq, Eq, Structural)]
pub struct WorkflowConfig {
    /// Retries granted to a failing step.
    pub max_retries: u32,
    /// Per-step timeout in seconds.
    pub timeout_seconds: u64,
    /// Items handled per batch.
    pub batch_size: usize,
    /// Whether progress is logged.
    pub enable_logging: bool,
}

/// A named processing stage registered with the engine.
#[derive(Debug, Clone)]
pub struct ConstProcessor {
    /// Registered name; the registry key.
    pub name: String,
    /// Dispatch priority.
    pub priority: u8,
    /// Per-run timeout in seconds.
    pub timeout: u64,
}

impl Keyed for ConstProcessor {
    open spec fn key(&self) -> Seq<char> {
        self.name@
    }

    fn matches_key(&self, k: &String) -> (r: bool) {
        self.name == *k
    }
}

/// Workflow engine with a fixed configuration and a processor
/// registry.
pub struct ConstWorkflowEngine {
    config: WorkflowConfig,
    processors: KeyedVec<ConstProcessor>,
}

impl ConstWorkflowEngine {
    /// The engine's configuration.
    pub closed spec fn spec_config(&self) -> WorkflowConfig {
        self.config
    }

    /// The registered processors, by name.
    pub closed spec fn processors_view(&self) -> Map<Seq<char>, ConstProcessor> {
        self.processors.view()
    }

    /// Registry keys are unique.
    pub closed spec fn wf(&self) -> bool {
        self.processors.well_formed()
    }

    /// An engine under the fixed configuration with no processors.
    pub fn new() -> (r: Self)
        ensures
            r.wf(),
            r.spec_config().max_retries == 3,
            r.spec_config().timeout_seconds == 30,
            r.spec_config().batch_size == 100,
            r.spec_config().enable_logging,
            r.processors_view() == Map::<Seq<char>, ConstProcessor>::empty(),
    {
        ConstWorkflowEngine {
            config: ConstContextProcessor::create_config(),
            processors: KeyedVec::new(),
        }
    }

    /// Register `processor` under its name, replacing a previous one.
    pub fn add_processor(&mut self, processor: ConstProcessor)
        requires
            old(self).wf(),
        ensures
            final(self).wf(),
            final(self).spec_config() == old(self).spec_config(),
            final(self).processors_view()
                == old(self).processors_view().insert(processor.name@, processor),
    {
        let name = processor.name.clone();
        self.processors.insert(&name, processor);
    }

    /// The engine's configuration.
    pub fn get_config(&self) -> (r: &WorkflowConfig)
        ensures
            *r == self.spec_config(),
    {
        &self.config
    }

    /// True when every configured bound is positive.
    pub fn validate_config(&self) -> (r: bool)
        ensures
            r == (self.spec_config().max_retries > 0
                && self.spec_config().timeout_seconds > 0
                && self.spec_config().batch_size > 0),
    {
        self.config.max_retries > 0
            && self.config.timeout_seconds > 0
            && self.config.batch_size > 0
    }
}

/// One step of a statically defined workflow.
#[derive(Debug, Clone)]
pub struct ConstWorkflowStep {
    /// Step number; valid steps have a positive one.
    pub id: u32,
    /// Step name.
    pub name: String,
    /// Per-step timeout in seconds; must be positive to be valid.
    pub timeout: u64,
    /// Retries granted; at most 5 to be valid.
    pub retries: u32,
}

impl ConstWorkflowStep {
    /// A step with the given attributes.
    pub fn new(id: u32, name: &str, timeout: u64, retries: u32) -> (r: Self)
        ensures
            r.id == id,
            r.name@ == name@,
            r.timeout == timeout,
            r.retries == retries,
    {
        ConstWorkflowStep { id, name: name.to_owned(), timeout, retries }
    }

    /// The step's validity rule.
    pub open spec fn spec_is_valid(&self) -> bool {
        self.id > 0 && self.timeout > 0 && self.retries <= 5
    }

    /// True when the step passes its validity rule: positive id and
    /// timeout, at most 5 retries.
    pub fn is_valid(&self) -> (r: bool)
        ensures
            r == self.spec_is_valid(),
    {
        self.id > 0 && self.timeout > 0 && self.retries <= 5
    }
}

/// A statically defined workflow: a name, its steps, and the fixed
/// configuration.
pub struct ConstWorkflowDefinition {
    /// The workflow's name.
    pub name: String,
    /// Its steps, in order.
    pub steps: Vec<ConstWorkflowStep>,
    /// The fixed configuration.
    pub config: WorkflowConfig,
}

impl ConstWorkflowDefinition {
    /// A definition under the fixed configuration.
    pub fn new(name: &str, steps: Vec<ConstWorkflowStep>) -> (r: Self)
        ensures
            r.name@ == name@,
            r.steps@ == steps@,
            r.config.max_retries == 3,
            r.config.timeout_seconds == 30,
            r.config.batch_size == 100,
            r.config.enable_logging,
    {
        ConstWorkflowDefinition {
            name: name.to_owned(),
            steps,
            config: ConstContextProcessor::create_config(),
        }
    }

    /// True when every step passes its validity rule.
    pub fn is_valid(&self) -> (r: bool)
        ensures
            r == forall|i: int| 0 <= i < self.steps@.len()
                ==> (#[trigger] self.steps@[i]).spec_is_valid(),
    {
        let n = self.steps.len();
        let mut i: usize = 0;
        while i < n
            invariant
                n == self.steps@.len(),
                i <= n,
                forall|j: int| 0 <= j < i ==> (#[trigger] self.steps@[j]).spec_is_valid(),
            decreases n - i,
        {
            if !self.steps[i].is_valid() {
                return false;
            }
            i = i + 1;
        }
        true
    }

    /// How many steps the workflow has.
    pub fn step_count(&self) -> (r: usize)
        ensures
            r == self.steps@.len(),
    {
        self.steps.len()
    }
}

/// Runtime bookkeeping for one in-flight execution.
#[derive(Debug)]
pub struct ExecutionState {
    /// The execution's id; the table key.
    pub workflow_id: String,
    /// Index of the step being executed.
    pub current_step: u32,
    /// Where the execution stands.
    pub status: ExecutionStatus,
    /// Milliseconds since the Unix epoch when the execution began.
    pub start_time: i64,
}

impl Clone for ExecutionState {
    fn clone(&self) -> (r: Self)
        ensures
            r == *self,
    {
        ExecutionState {
            workflow_id: self.workflow_id.clone(),
            current_step: self.current_step,
            status: self.status,
            start_time: self.start_time,
        }
    }
}

impl Keyed for ExecutionState {
    open spec fn key(&self) -> Seq<char> {
        self.workflow_id@
    }

    fn matches_key(&self, k: &String) -> (r: bool) {
        self.workflow_id == *k
    }
}

/// Where an execution stands.
#[derive(Debug, Clone, Copy, PartialEq, Eq, Structural)]
pub enum ExecutionStatus {
    /// Still making progress.
    Running,
    /// Finished successfully.
    Completed,
    /// Finished in failure.
    Failed,
    /// Suspended by an operator; may resume.
    Paused,
}

impl ExecutionStatus {
    /// True of the two finished states; a terminal status is sticky.
    pub open spec fn spec_is_terminal(&self) -> bool {
        self is Completed || self is Failed
    }

    /// True of the two finished states; a terminal status is sticky.
    #[verifier::when_used_as_spec(spec_is_terminal)]
    pub fn is_terminal(&self) -> (r: bool)
        ensures
            r == self.spec_is_terminal(),
    {
        matches!(self, ExecutionStatus::Completed | ExecutionStatus::Failed)
    }
}

/// Executes registered workflow definitions and tracks their
/// executions.
pub struct ConstWorkflowExecutor {
    definitions: KeyedVec<NamedEntry<ConstWorkflowDefinition>>,
    active_executions: KeyedVec<ExecutionState>,
}

impl ConstWorkflowExecutor {
    /// The registered definitions, by registration name.
    pub closed spec fn definitions_view(&self) -> Map<Seq<char>, NamedEntry<ConstWorkflowDefinition>> {
        self.definitions.view()
    }

    /// The tracked executions, by workflow id.
    pub closed spec fn executions_view(&self) -> Map<Seq<char>, ExecutionState> {
        self.active_executions.view()
    }

    /// Both tables have unique keys.
    pub closed spec fn wf(&self) -> bool {
        self.definitions.well_formed() && self.active_executions.well_formed()
    }

    /// An executor with nothing registered and nothing running.
    pub fn new() -> (r: Self)
        ensures
            r.wf(),
            r.definitions_view() == Map::<Seq<char>, NamedEntry<ConstWorkflowDefinition>>::empty(),
            r.executions_view() == Map::<Seq<char>, ExecutionState>::empty(),
    {
        ConstWorkflowExecutor { definitions: KeyedVec::new(), active_executions: KeyedVec::new() }
    }

    /// Register `definition` under `name`, replacing a previous one.
    pub fn register_workflow(&mut self, name: String, definition: ConstWorkflowDefinition)
        requires
            old(self).wf(),
        ensures
            final(self).wf(),
            final(self).executions_view() == old(self).executions_view(),
            final(self).definitions_view().contains_key(name@),
            final(self).definitions_view()[name@].value.name@ == definition.name@,
            final(self).definitions_view()[name@].value.steps@ == definition.steps@,
            final(self).definitions_view().remove(name@)
                == old(self).definitions_view().remove(name@),
    {
        let key = name.clone();
        self.definitions.insert(&key, NamedEntry { name, value: definition });
        proof {
            assert(final(self).definitions_view().remove(key@)
                =~= old(self).definitions_view().remove(key@));
        }
    }

    /// Start tracking an execution of the registered workflow
    /// `workflow_name`: succeeds exactly when the name is registered
    /// and no finished execution already holds the id (a terminal
    /// execution is never resurrected), recording a `Running`
    /// execution at step 0.
    pub fn start_execution(&mut self, workflow_id: String, workflow_name: &str) -> (r: Result<(), String>)
        requires
            old(self).wf(),
        ensures
            final(self).wf(),
            final(self).definitions_view() == old(self).definitions_view(),
            r is Ok <==> (old(self).definitions_view().contains_key(workflow_name@)
                && !(old(self).executions_view().contains_key(workflow_id@)
                    && old(self).executions_view()[workflow_id@].status.spec_is_terminal())),
            r is Ok ==> final(self).executions_view().contains_key(workflow_id@)
                && final(self).executions_view()[workflow_id@].workflow_id@ == workflow_id@
                && final(self).executions_view()[workflow_id@].current_step == 0
                && final(self).executions_view()[workflow_id@].status is Running
                && final(self).executions_view().remove(workflow_id@)
                    == old(self).executions_view().remove(workflow_id@),
            r is Err ==> *final(self) == *old(self),
            !old(self).definitions_view().contains_key(workflow_name@)
                ==> (r matches Err(m)
                    && m@ == "Workflow '"@ + workflow_name@ + "' not found"@),
            old(self).definitions_view().contains_key(workflow_name@)
                && old(self).executions_view().contains_key(workflow_id@)
                && old(self).executions_view()[workflow_id@].status.spec_is_terminal()
                ==> (r matches Err(m)
                    && m@ == "Execution '"@ + workflow_id@ + "' already finished"@),
    {
        let name_key = workflow_name.to_owned();
        if !self.definitions.contains_key(&name_key) {
            let msg = ("Workflow '".to_owned()).concat(workflow_name).concat("' not found");
            return Err(msg);
        }
        let finished = match self.active_executions.get(&workflow_id) {
            Some(state) => state.status.is_terminal(),
            None => false,
        };
        if finished {
            let msg = ("Execution '".to_owned())
                .concat(workflow_id.as_str())
                .concat("' already finished");
            return Err(msg);
        }
        let key = workflow_id.clone();
        let state = ExecutionState {
            workflow_id,
            current_step: 0,
            status: ExecutionStatus::Running,
            start_time: now_millis(),
        };
        self.active_executions.insert(&key, state);
        proof {
            assert(final(self).executions_view().remove(key@)
                =~= old(self).executions_view().remove(key@));
        }
        Ok(())
    }

    /// The tracked state of `workflow_id`, if any.
    pub fn get_execution_state(&self, workflow_id: &str) -> (r: Option<&ExecutionState>)
        requires
            self.wf(),
        ensures
            r is Some <==> self.executions_view().contains_key(workflow_id@),
            r matches Some(s) ==> *s == self.executions_view()[workflow_id@],
    {
        let key = workflow_id.to_owned();
        self.active_executions.get(&key)
    }

    /// Mark the execution `workflow_id` completed; fails exactly when
    /// it is not tracked.  A running or paused execution becomes
    /// `Completed`; a finished one is left exactly as it is (a
    /// terminal status is sticky and never overwritten).
    pub fn complete_execution(&mut self, workflow_id: &str) -> (r: Result<(), String>)
        requires
            old(self).wf(),
        ensures
            final(self).wf(),
            final(self).definitions_view() == old(self).definitions_view(),
            r is Ok <==> old(self).executions_view().contains_key(workflow_id@),
            !old(self).executions_view().contains_key(workflow_id@)
                ==> (r matches Err(m)
                    && m@ == "Execution '"@ + workflow_id@ + "' not found"@),
            old(self).executions_view().contains_key(workflow_id@)
                && old(self).executions_view()[workflow_id@].status.spec_is_terminal()
                ==> *final(self) == *old(self),
            old(self).executions_view().contains_key(workflow_id@)
                && !old(self).executions_view()[workflow_id@].status.spec_is_terminal()
                ==> final(self).executions_view().contains_key(workflow_id@)
                    && final(self).executions_view()[workflow_id@].status is Completed
                    && final(self).executions_view()[workflow_id@].workflow_id
                        == old(self).executions_view()[workflow_id@].workflow_id
                    && final(self).executions_view()[workflow_id@].current_step
                        == old(self).executions_view()[workflow_id@].current_step
                    && final(self).executions_view()[workflow_id@].start_time
                        == old(self).executions_view()[workflow_id@].start_time
                    && final(self).executions_view().remove(workflow_id@)
                        == old(self).executions_view().remove(workflow_id@),
            r is Err ==> *final(self) == *old(self),
    {
        let key = workflow_id.to_owned();
        let updated: ExecutionState = match self.active_executions.get(&key) {
            Some(state) => {
                if state.status.is_terminal() {
                    return Ok(());
                }
                let mut s = state.clone();
                s.status = ExecutionStatus::Completed;
                s
            },
            None => {
                let msg = ("Execution '".to_owned()).concat(workflow_id).concat("' not found");
                return Err(msg);
            },
        };
        proof {
            assert(updated.workflow_id@ == key@);
        }
        self.active_executions.insert(&key, updated);
        proof {
            assert(final(self).executions_view().remove(key@)
                =~= old(self).executions_view().remove(key@));
        }
        Ok(())
    }
}

/// Aggregated outcome counts of one workflow's executions.
#[derive(Debug, Clone)]
pub struct WorkflowMetrics {
    /// Executions recorded in all.
    pub total_executions: u64,
    /// Of them, how many succeeded.
    pub successful_executions: u64,
    /// Of them, how many failed.
    pub failed_executions: u64,
    /// Mean execution time in milliseconds.
    pub average_execution_time_ms: u64,
}

/// Keeps per-workflow metrics and aggregates them.
pub struct ConstWorkflowMonitor {
    metrics: KeyedVec<NamedEntry<WorkflowMetrics>>,
}

/// Sum of the `total_executions` of a metrics table's entries.
pub open spec fn total_execs(s: Seq<NamedEntry<WorkflowMetrics>>) -> int
    decreases s.len(),
{
    if s.len() == 0 {
        0
    } else {
        total_execs(s.drop_last()) + s.last().value.total_executions
    }
}

/// Sum of the `successful_executions` of a metrics table's entries.
pub open spec fn total_successes(s: Seq<NamedEntry<WorkflowMetrics>>) -> int
    decreases s.len(),
{
    if s.len() == 0 {
        0
    } else {
        total_successes(s.drop_last()) + s.last().value.successful_executions
    }
}

/// Sum of the `failed_executions` of a metrics table's entries.
pub open spec fn total_failures(s: Seq<NamedEntry<WorkflowMetrics>>) -> int
    decreases s.len(),
{
    if s.len() == 0 {
        0
    } else {
        total_failures(s.drop_last()) + s.last().value.failed_executions
    }
}

/// Aggregate over every workflow the monitor has seen.
#[derive(Debug, Clone, Copy, PartialEq, Eq, Structural)]
pub struct OverallWorkflowStats {
    /// Number of workflows with recorded metrics.
    pub total_workflows: usize,
    /// Executions across them (saturating at the type's maximum).
    pub total_executions: u64,
    /// Successes across them (saturating likewise).
    pub successful_executions: u64,
    /// Failures across them (saturating likewise).
    pub failed_executions: u64,
    /// Successes per thousand executions; 0 when nothing ran.
    pub success_rate_permille: u64,
}

impl ConstWorkflowMonitor {
    /// The recorded metrics entries, in recording order.
    pub closed spec fn entries(&self) -> Seq<NamedEntry<WorkflowMetrics>> {
        self.metrics.entries_seq()
    }

    /// The recorded metrics, by workflow name.
    pub closed spec fn metrics_view(&self) -> Map<Seq<char>, NamedEntry<WorkflowMetrics>> {
        self.metrics.view()
    }

    /// Names are unique.
    pub closed spec fn wf(&self) -> bool {
        self.metrics.well_formed()
    }

    /// A monitor with nothing recorded.
    pub fn new() -> (r: Self)
        ensures
            r.wf(),
            r.entries().len() == 0,
    {
        ConstWorkflowMonitor { metrics: KeyedVec::new() }
    }

    /// Record (or replace) the metrics of `workflow_name`: a fresh
    /// name appends an entry, a known one replaces its entry in
    /// place.
    pub fn record_metrics(&mut self, workflow_name: String, metrics: WorkflowMetrics)
        requires
            old(self).wf(),
        ensures
            final(self).wf(),
            final(self).metrics_view().contains_key(workflow_name@),
            final(self).metrics_view()[workflow_name@].value == metrics,
            final(self).metrics_view().remove(workflow_name@)
                == old(self).metrics_view().remove(workflow_name@),
            !old(self).metrics_view().contains_key(workflow_name@)
                ==> final(self).entries() == old(self).entries().push(
                    NamedEntry { name: workflow_name, value: metrics },
                ),
            old(self).metrics_view().contains_key(workflow_name@)
                ==> exists|i: int| 0 <= i < old(self).entries().len()
                    && (#[trigger] old(self).entries()[i]).key() == workflow_name@
                    && final(self).entries() == old(self).entries().update(
                        i,
                        NamedEntry { name: workflow_name, value: metrics },
                    ),
    {
        let key = workflow_name.clone();
        let ghost pre = self.metrics.entries_seq();
        let entry = NamedEntry { name: workflow_name, value: metrics };
        let ghost ge = entry;
        self.metrics.insert(&key, entry);
        proof {
            assert(final(self).metrics_view().remove(key@)
                =~= old(self).metrics_view().remove(key@));
            if old(self).metrics_view().contains_key(ge.name@) {
                let i = choose|i: int| 0 <= i < pre.len()
                    && (#[trigger] pre[i]).key() == ge.key()
                    && self.metrics.entries_seq() == pre.update(i, ge);
                assert(old(self).entries()[i].key() == ge.name@);
                assert(final(self).entries() == old(self).entries().update(i, ge));
            }
        }
    }

    /// The recorded metrics of `workflow_name`, if any.
    pub fn get_metrics(&self, workflow_name: &str) -> (r: Option<&WorkflowMetrics>)
        requires
            self.wf(),
        ensures
            r is Some <==> self.metrics_view().contains_key(workflow_name@),
            r matches Some(m) ==> *m == self.metrics_view()[workflow_name@].value,
    {
        let key = workflow_name.to_owned();
        match self.metrics.get(&key) {
            Some(entry) => Some(&entry.value),
            None => None,
        }
    }

    /// Aggregate counts across every workflow, with the success rate
    /// in permille of total executions.
    pub fn get_overall_stats(&self) -> (r: OverallWorkflowStats)
        requires
            self.wf(),
        ensures
            r.total_workflows == self.entries().len(),
            r.total_executions == clamp_u64(total_execs(self.entries())),
            r.successful_executions == clamp_u64(total_successes(self.entries())),
            r.failed_executions == clamp_u64(total_failures(self.entries())),
            r.success_rate_permille == (if total_execs(self.entries()) > 0 {
                clamp_u64(
                    clamp_u64(total_successes(self.entries())) as int * 1000
                        / clamp_u64(total_execs(self.entries())) as int,
                )
            } else {
                0
            }),
    {
        let entries = self.metrics.entries();
        let n = entries.len();
        let mut execs: u128 = 0;
        let mut succ: u128 = 0;
        let mut fail: u128 = 0;
        let mut i: usize = 0;
        proof {
            assert(entries@.take(0) =~= Seq::<NamedEntry<WorkflowMetrics>>::empty());
        }
        while i < n
            invariant
                n == entries@.len(),
                entries@ == self.entries(),
                i <= n,
                execs == total_execs(entries@.take(i as int)),
                succ == total_successes(entries@.take(i as int)),
                fail == total_failures(entries@.take(i as int)),
                execs <= i * (u64::MAX as int),
                succ <= i * (u64::MAX as int),
                fail <= i * (u64::MAX as int),
            decreases n - i,
        {
            proof {
                assert(entries@.take(i as int + 1).drop_last() =~= entries@.take(i as int));
                assert(entries@.take(i as int + 1).last() == entries@[i as int]);
                assert((i as int) * (u64::MAX as int) + (u64::MAX as int)
                    == (i as int + 1) * (u64::MAX as int)) by (nonlinear_arith);
            }
            let m = &entries[i].value;
            execs = execs + (m.total_executions as u128);
            succ = succ + (m.successful_executions as u128);
            fail = fail + (m.failed_executions as u128);
            i = i + 1;
        }
        proof {
            assert(entries@.take(n as int) =~= entries@);
        }
        let total_executions = clamp_u64_exec(execs);
        let successful_executions = clamp_u64_exec(succ);
        let failed_executions = clamp_u64_exec(fail);
        let success_rate_permille: u64 = if total_executions > 0 {
            clamp_u64_exec((successful_executions as u128) * 1000 / (total_executions as u128))
        } else {
            0
        };
        OverallWorkflowStats {
            total_workflows: n,
            total_executions,
            successful_executions,
            failed_executions,
            success_rate_permille,
        }
    }
}

/// `v` held to the range of a 64-bit unsigned integer.
pub open spec fn clamp_u64(v: int) -> u64 {
    if v > u64::MAX {
        u64::MAX
    } else if v < 0 {
        0
    } else {
        v as u64
    }
}

/// `v` held to the range of a 64-bit unsigned integer.
fn clamp_u64_exec(v: u128) -> (r: u64)
    ensures
        r == clamp_u64(v as int),
{
    if v > u64::MAX as u128 {
        u64::MAX
    } else {
        v as u64
    }
}

} // verus!
