//! The worker side of the engine: bounded concurrency bookkeeping,
//! persisting the decisions a replay produced, and applying the retry
//! policy to activity outcomes.

use vstd::prelude::*;
use crate::error::ActivityError;
use crate::event::{EventHistory, EventType, WorkflowEvent};
use crate::retry::{RetryPolicy, spec_backoff};
use crate::types::ActivityId;
use crate::workflow::{Command, CommandModel};

verus! {

/// Worker configuration: queue name and the two hard concurrency caps
/// (tasks beyond capacity wait; they are never rejected).
#[derive(Debug, Clone)]
pub struct WorkerConfig {
    /// Queue the worker polls.
    pub task_queue: String,
    /// Cap on concurrently processed workflow tasks.
    pub max_concurrent_workflow_tasks: usize,
    /// Cap on concurrently processed activity tasks.
    pub max_concurrent_activity_tasks: usize,
}

impl Default for WorkerConfig {
    /// Queue `default`, 100 tasks of either kind.
    fn default() -> (r: Self)
        ensures
            r.task_queue@ == "default"@,
            r.max_concurrent_workflow_tasks == 100,
            r.max_concurrent_activity_tasks == 100,
    {
        WorkerConfig {
            task_queue: "default".to_owned(),
            max_concurrent_workflow_tasks: 100,
            max_concurrent_activity_tasks: 100,
        }
    }
}

/// Tracks how many tasks of each kind a worker is processing and
/// enforces the caps.
pub struct WorkflowWorker {
    config: WorkerConfig,
    active_workflow_tasks: usize,
    active_activity_tasks: usize,
}

impl WorkflowWorker {
    /// The worker's configuration.
    pub closed spec fn spec_config(&self) -> WorkerConfig {
        self.config
    }

    /// Workflow tasks currently held.
    pub closed spec fn spec_active_workflow_tasks(&self) -> int {
        self.active_workflow_tasks as int
    }

    /// Activity tasks currently held.
    pub closed spec fn spec_active_activity_tasks(&self) -> int {
        self.active_activity_tasks as int
    }

    /// The worker never exceeds its caps.
    pub open spec fn wf(&self) -> bool {
        &&& self.spec_active_workflow_tasks() <= self.spec_config().max_concurrent_workflow_tasks
        &&& self.spec_active_activity_tasks() <= self.spec_config().max_concurrent_activity_tasks
    }

    /// A worker with the default configuration and no tasks in flight.
    pub fn new() -> (r: Self)
        ensures
            r.wf(),
            r.spec_active_workflow_tasks() == 0,
            r.spec_active_activity_tasks() == 0,
            r.spec_config().max_concurrent_workflow_tasks == 100,
            r.spec_config().max_concurrent_activity_tasks == 100,
    {
        WorkflowWorker {
            config: WorkerConfig::default(),
            active_workflow_tasks: 0,
            active_activity_tasks: 0,
        }
    }

    /// A worker with the given configuration and no tasks in flight.
    pub fn with_config(config: WorkerConfig) -> (r: Self)
        ensures
            r.wf(),
            r.spec_config() == config,
            r.spec_active_workflow_tasks() == 0,
            r.spec_active_activity_tasks() == 0,
    {
        WorkflowWorker { config, active_workflow_tasks: 0, active_activity_tasks: 0 }
    }

    /// The worker's configuration.
    pub fn config(&self) -> (r: &WorkerConfig)
        ensures
            *r == self.spec_config(),
    {
        &self.config
    }

    /// Take a workflow-task slot; `false` (and no change) when the cap
    /// is reached, which is the backpressure signal.
    pub fn try_acquire_workflow_slot(&mut self) -> (r: bool)
        requires
            old(self).wf(),
        ensures
            final(self).wf(),
            final(self).spec_config() == old(self).spec_config(),
            final(self).spec_active_activity_tasks() == old(self).spec_active_activity_tasks(),
            r == (old(self).spec_active_workflow_tasks()
                < old(self).spec_config().max_concurrent_workflow_tasks),
            r ==> final(self).spec_active_workflow_tasks()
                == old(self).spec_active_workflow_tasks() + 1,
            !r ==> final(self).spec_active_workflow_tasks()
                == old(self).spec_active_workflow_tasks(),
    {
        if self.active_workflow_tasks < self.config.max_concurrent_workflow_tasks {
            self.active_workflow_tasks = self.active_workflow_tasks + 1;
            true
        } else {
            false
        }
    }

    /// Give a workflow-task slot back.
    pub fn release_workflow_slot(&mut self)
        requires
            old(self).wf(),
            old(self).spec_active_workflow_tasks() > 0,
        ensures
            final(self).wf(),
            final(self).spec_config() == old(self).spec_config(),
            final(self).spec_active_activity_tasks() == old(self).spec_active_activity_tasks(),
            final(self).spec_active_workflow_tasks() == old(self).spec_active_workflow_tasks() - 1,
    {
        self.active_workflow_tasks = self.active_workflow_tasks - 1;
    }

    /// Take an activity-task slot; `false` (and no change) when the
    /// cap is reached.
    pub fn try_acquire_activity_slot(&mut self) -> (r: bool)
        requires
            old(self).wf(),
        ensures
            final(self).wf(),
            final(self).spec_config() == old(self).spec_config(),
            final(self).spec_active_workflow_tasks() == old(self).spec_active_workflow_tasks(),
            r == (old(self).spec_active_activity_tasks()
                < old(self).spec_config().max_concurrent_activity_tasks),
            r ==> final(self).spec_active_activity_tasks()
                == old(self).spec_active_activity_tasks() + 1,
            !r ==> final(self).spec_active_activity_tasks()
                == old(self).spec_active_activity_tasks(),
    {
        if self.active_activity_tasks < self.config.max_concurrent_activity_tasks {
            self.active_activity_tasks = self.active_activity_tasks + 1;
            true
        } else {
            false
        }
    }

    /// Give an activity-task slot back.
    pub fn release_activity_slot(&mut self)
        requires
            old(self).wf(),
            old(self).spec_active_activity_tasks() > 0,
        ensures
            final(self).wf(),
            final(self).spec_config() == old(self).spec_config(),
            final(self).spec_active_workflow_tasks() == old(self).spec_active_workflow_tasks(),
            final(self).spec_active_activity_tasks() == old(self).spec_active_activity_tasks() - 1,
    {
        self.active_activity_tasks = self.active_activity_tasks - 1;
    }
}

/// An activity task to enqueue, produced from a `ScheduleActivity`
/// decision.
#[derive(Debug, Clone)]
pub struct ActivityTask {
    /// Identity of the invocation.
    pub activity_id: ActivityId,
    /// Registered name of the activity implementation.
    pub activity_type: String,
    /// Encoded input payload.
    pub input: String,
}

/// An activity task as the specifications see it.
pub ghost struct ActivityTaskModel {
    /// Identity of the invocation.
    pub activity_id: Seq<char>,
    /// Registered name of the activity implementation.
    pub activity_type: Seq<char>,
    /// Encoded input payload.
    pub input: Seq<char>,
}

impl View for ActivityTask {
    type V = ActivityTaskModel;

    open spec fn view(&self) -> ActivityTaskModel {
        ActivityTaskModel {
            activity_id: self.activity_id.0@,
            activity_type: self.activity_type@,
            input: self.input@,
        }
    }
}

/// The event that persisting command `c` at position `id` must record.
pub open spec fn event_records_command(e: WorkflowEvent, c: CommandModel, id: int, ts: i64) -> bool {
    &&& e.event_id.0 == id
    &&& e.timestamp_ms == ts
    &&& match c {
        CommandModel::ScheduleActivity { activity_id, activity_type, input } =>
            e.event_type matches EventType::ActivityTaskScheduled {
                activity_id: a, activity_type: t, input: i
            } && a.0@ == activity_id && t@ == activity_type && i@ == input,
        CommandModel::StartTimer { timer_id, duration_ms } =>
            e.event_type matches EventType::TimerStarted { timer_id: t, duration_ms: d }
                && t.0@ == timer_id && d == duration_ms,
        CommandModel::CompleteWorkflow { result } =>
            e.event_type matches EventType::WorkflowExecutionCompleted { result: r }
                && r@ == result,
        CommandModel::FailWorkflow { failure } =>
            e.event_type matches EventType::WorkflowExecutionFailed { failure: f }
                && f@ == failure,
    }
}

/// The activity tasks that a command sequence gives rise to, in order.
pub open spec fn sched_tasks(cs: Seq<CommandModel>) -> Seq<ActivityTaskModel>
    decreases cs.len(),
{
    if cs.len() == 0 {
        Seq::empty()
    } else {
        sched_tasks(cs.drop_last()) + match cs.last() {
            CommandModel::ScheduleActivity { activity_id, activity_type, input } =>
                seq![ActivityTaskModel { activity_id, activity_type, input }],
            _ => Seq::empty(),
        }
    }
}

/// Persist the decisions of one workflow task: append each command as
/// its event, in order, and hand back the activity tasks to enqueue.
pub fn apply_commands(
    history: &mut EventHistory,
    commands: &Vec<Command>,
    timestamp_ms: i64,
) -> (tasks: Vec<ActivityTask>)
    requires
        old(history).well_formed(),
        old(history)@.len() + commands@.len() <= u64::MAX,
    ensures
        final(history).well_formed(),
        final(history)@.len() == old(history)@.len() + commands@.len(),
        final(history)@.subrange(0, old(history)@.len() as int) == old(history)@,
        forall|k: int| 0 <= k < commands@.len() ==> event_records_command(
            #[trigger] final(history)@[old(history)@.len() + k],
            commands@[k]@,
            old(history)@.len() + k,
            timestamp_ms,
        ),
        tasks@.map_values(|t: ActivityTask| t@)
            == sched_tasks(commands@.map_values(|c: Command| c@)),
{
    let mut tasks: Vec<ActivityTask> = Vec::new();
    let n = commands.len();
    let mut k: usize = 0;
    proof {
        assert(history@.subrange(0, old(history)@.len() as int) =~= old(history)@);
        assert(commands@.map_values(|c: Command| c@).take(0) =~= Seq::<CommandModel>::empty());
        assert(tasks@.map_values(|t: ActivityTask| t@) =~= sched_tasks(
            commands@.map_values(|c: Command| c@).take(0),
        ));
    }
    while k < n
        invariant
            n == commands@.len(),
            k <= n,
            old(history)@.len() + commands@.len() <= u64::MAX,
            history.well_formed(),
            history@.len() == old(history)@.len() + k,
            history@.subrange(0, old(history)@.len() as int) == old(history)@,
            forall|j: int| 0 <= j < k ==> event_records_command(
                #[trigger] history@[old(history)@.len() + j],
                commands@[j]@,
                old(history)@.len() + j,
                timestamp_ms,
            ),
            tasks@.map_values(|t: ActivityTask| t@)
                == sched_tasks(commands@.map_values(|c: Command| c@).take(k as int)),
        decreases n - k,
    {
        let ghost pre = history@;
        let ghost pretasks = tasks@;
        let cmd = &commands[k];
        let event_type: EventType = match cmd {
            Command::ScheduleActivity { activity_id, activity_type, input } => {
                tasks.push(ActivityTask {
                    activity_id: activity_id.clone(),
                    activity_type: activity_type.clone(),
                    input: input.clone(),
                });
                EventType::ActivityTaskScheduled {
                    activity_id: activity_id.clone(),
                    activity_type: activity_type.clone(),
                    input: input.clone(),
                }
            },
            Command::StartTimer { timer_id, duration_ms } => EventType::TimerStarted {
                timer_id: timer_id.clone(),
                duration_ms: *duration_ms,
            },
            Command::CompleteWorkflow { result } => EventType::WorkflowExecutionCompleted {
                result: result.clone(),
            },
            Command::FailWorkflow { failure } => EventType::WorkflowExecutionFailed {
                failure: failure.clone(),
            },
        };
        history.append(timestamp_ms, event_type);
        k = k + 1;
        proof {
            assert(history@.subrange(0, old(history)@.len() as int)
                =~= pre.subrange(0, old(history)@.len() as int));
            assert forall|j: int| 0 <= j < k implies event_records_command(
                #[trigger] history@[old(history)@.len() + j],
                commands@[j]@,
                old(history)@.len() + j,
                timestamp_ms,
            ) by {
                if j < k - 1 {
                    assert(history@[old(history)@.len() + j] == pre[old(history)@.len() + j]);
                }
            }
            let cms = commands@.map_values(|c: Command| c@);
            assert(cms.take(k as int).drop_last() =~= cms.take(k as int - 1));
            assert(cms.take(k as int).last() == cms[k as int - 1]);
            assert(tasks@.map_values(|t: ActivityTask| t@) =~= sched_tasks(cms.take(k as int)));
        }
    }
    proof {
        assert(commands@.map_values(|c: Command| c@).take(n as int)
            =~= commands@.map_values(|c: Command| c@));
    }
    tasks
}

/// What the retry policy engine decides about a finished attempt.
#[derive(Debug, Clone, Copy, PartialEq, Eq, Structural)]
pub enum AttemptDisposition {
    /// The attempt succeeded; the activity is complete.
    Completed,
    /// The attempt failed but the policy grants another one, after the
    /// given backoff delay in milliseconds.
    RetryAfter(u64),
    /// The attempt failed and no further attempt is allowed.
    FailedTerminally,
}

/// Record the outcome of activity attempt `attempt` (1-based) and
/// decide its fate under `policy`:
/// - success records `ActivityTaskCompleted`;
/// - a retryable failure before the last allowed attempt records
///   `ActivityTaskStarted` for the next attempt and reports the
///   backoff delay;
/// - anything else records a terminal `ActivityTaskFailed` carrying
///   the failure's description.
pub fn record_activity_outcome(
    history: &mut EventHistory,
    activity_id: &ActivityId,
    attempt: u32,
    outcome: &Result<String, ActivityError>,
    policy: &RetryPolicy,
    timestamp_ms: i64,
) -> (r: AttemptDisposition)
    requires
        old(history).well_formed(),
        old(history)@.len() < u64::MAX,
        policy.valid(),
        attempt >= 1,
    ensures
        final(history).well_formed(),
        final(history)@.len() == old(history)@.len() + 1,
        final(history)@.subrange(0, old(history)@.len() as int) == old(history)@,
        final(history)@.last().event_id.0 == old(history)@.len(),
        final(history)@.last().timestamp_ms == timestamp_ms,
        match outcome {
            Ok(res) => r is Completed
                && (final(history)@.last().event_type matches EventType::ActivityTaskCompleted {
                    activity_id: a, result: rr
                } && a.0@ == activity_id.0@ && rr@ == res@),
            Err(e) => {
                if policy.spec_is_retryable(*e) && attempt < policy.max_attempts {
                    r == AttemptDisposition::RetryAfter(spec_backoff(
                        policy.initial_interval_ms as int,
                        policy.backoff_coefficient_centi as int,
                        policy.max_interval_ms as int,
                        attempt as nat,
                    ) as u64)
                    && (final(history)@.last().event_type matches EventType::ActivityTaskStarted {
                        activity_id: a, attempt: n
                    } && a.0@ == activity_id.0@ && n == attempt + 1)
                } else {
                    r is FailedTerminally
                    && (final(history)@.last().event_type matches EventType::ActivityTaskFailed {
                        activity_id: a, failure: f
                    } && a.0@ == activity_id.0@ && f@ == e.spec_error_message())
                }
            },
        },
{
    match outcome {
        Ok(res) => {
            history.append(timestamp_ms, EventType::ActivityTaskCompleted {
                activity_id: activity_id.clone(),
                result: res.clone(),
            });
            proof {
                assert(history@.subrange(0, old(history)@.len() as int) =~= old(history)@);
            }
            AttemptDisposition::Completed
        },
        Err(e) => {
            match policy.should_retry(attempt, e) {
                Some(delay) => {
                    history.append(timestamp_ms, EventType::ActivityTaskStarted {
                        activity_id: activity_id.clone(),
                        attempt: attempt + 1,
                    });
                    proof {
                        assert(history@.subrange(0, old(history)@.len() as int)
                            =~= old(history)@);
                    }
                    AttemptDisposition::RetryAfter(delay)
                },
                None => {
                    history.append(timestamp_ms, EventType::ActivityTaskFailed {
                        activity_id: activity_id.clone(),
                        failure: e.message(),
                    });
                    proof {
                        assert(history@.subrange(0, old(history)@.len() as int)
                            =~= old(history)@);
                    }
                    AttemptDisposition::FailedTerminally
                },
            }
        },
    }
}

} // verus!
