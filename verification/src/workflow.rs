//! The workflow execution context: deterministic replay.
//!
//! Workflow code runs against a context that feeds it the event
//! history.  Each suspension point (an activity call, a timer)
//! corresponds to one decision event; on replay the context returns the
//! recorded outcome instead of doing real work, so the code takes the
//! same branches and issues the same decisions it issued originally.
//! New decisions come out as commands, never as direct side effects.

use vstd::prelude::*;
use vstd::string::StringExecFns;
use crate::event::{EventHistory, EventType, WorkflowEvent};
use crate::types::{ActivityId, TimerId, WorkflowExecution};
use crate::activity::ActivityOptions;
use crate::digits::{spec_decimal, u128_to_decimal};

verus! {

/// A decision produced by workflow code, to be persisted as an event
/// and acted on by the worker.
#[derive(Debug, Clone, PartialEq)]
pub enum Command {
    /// Run an activity; an `ActivityTaskScheduled` event.
    ScheduleActivity { activity_id: ActivityId, activity_type: String, input: String },
    /// Start a durable timer; a `TimerStarted` event.
    StartTimer { timer_id: TimerId, duration_ms: u64 },
    /// End the execution successfully.
    CompleteWorkflow { result: String },
    /// End the execution in failure.
    FailWorkflow { failure: String },
}

/// A command as the specifications see it: identifiers and payloads as
/// character sequences.
pub ghost enum CommandModel {
    /// Run an activity.
    ScheduleActivity { activity_id: Seq<char>, activity_type: Seq<char>, input: Seq<char> },
    /// Start a durable timer.
    StartTimer { timer_id: Seq<char>, duration_ms: u64 },
    /// End the execution successfully.
    CompleteWorkflow { result: Seq<char> },
    /// End the execution in failure.
    FailWorkflow { failure: Seq<char> },
}

impl View for Command {
    type V = CommandModel;

    open spec fn view(&self) -> CommandModel {
        match self {
            Command::ScheduleActivity { activity_id, activity_type, input } =>
                CommandModel::ScheduleActivity {
                    activity_id: activity_id.0@,
                    activity_type: activity_type@,
                    input: input@,
                },
            Command::StartTimer { timer_id, duration_ms } =>
                CommandModel::StartTimer { timer_id: timer_id.0@, duration_ms: *duration_ms },
            Command::CompleteWorkflow { result } =>
                CommandModel::CompleteWorkflow { result: result@ },
            Command::FailWorkflow { failure } =>
                CommandModel::FailWorkflow { failure: failure@ },
        }
    }
}

/// What an awaited activity looks like from workflow code.
#[derive(Debug, Clone, PartialEq, Eq)]
pub enum ActivityResolution {
    /// The activity completed; its recorded result.
    Completed(String),
    /// The activity failed terminally; its recorded failure.
    Failed(String),
    /// No outcome yet: the workflow suspends here.
    Pending,
}

/// What an awaited timer looks like from workflow code.
#[derive(Debug, Clone, Copy, PartialEq, Eq, Structural)]
pub enum TimerResolution {
    /// The timer elapsed.
    Fired,
    /// Not elapsed yet: the workflow suspends here.
    Pending,
}

/// The replay state of a context, as the specifications see it.
pub ghost struct CtxModel {
    /// The history being replayed.
    pub history: Seq<WorkflowEvent>,
    /// Position just past the last consumed decision event.
    pub pos: int,
    /// Decisions consumed or issued so far; numbers generated ids.
    pub seq: int,
    /// New decisions issued during this replay.
    pub commands: Seq<CommandModel>,
    /// A terminal command has been issued.
    pub terminal: bool,
}

/// True of the two event types that record a decision.
pub open spec fn is_decision(e: WorkflowEvent) -> bool {
    e.event_type is ActivityTaskScheduled || e.event_type is TimerStarted
}

/// The first decision event at or after `i`, if any.
pub open spec fn next_decision_from(h: Seq<WorkflowEvent>, i: int) -> Option<int>
    decreases h.len() - i,
{
    if i < 0 || i >= h.len() {
        None
    } else if is_decision(h[i]) {
        Some(i)
    } else {
        next_decision_from(h, i + 1)
    }
}

/// The recorded outcome of activity `aid`, looking at events from `i`
/// on: the first completion or terminal failure for that id, or
/// `Pending` when none is recorded.
pub open spec fn activity_outcome(h: Seq<WorkflowEvent>, i: int, aid: Seq<char>) -> ActivityResolution
    decreases h.len() - i,
{
    if i < 0 || i >= h.len() {
        ActivityResolution::Pending
    } else {
        match h[i].event_type {
            EventType::ActivityTaskCompleted { activity_id, result } =>
                if activity_id.0@ == aid {
                    ActivityResolution::Completed(result)
                } else {
                    activity_outcome(h, i + 1, aid)
                },
            EventType::ActivityTaskFailed { activity_id, failure } =>
                if activity_id.0@ == aid {
                    ActivityResolution::Failed(failure)
                } else {
                    activity_outcome(h, i + 1, aid)
                },
            _ => activity_outcome(h, i + 1, aid),
        }
    }
}

/// Whether timer `tid` has fired, looking at events from `i` on.
pub open spec fn timer_fired(h: Seq<WorkflowEvent>, i: int, tid: Seq<char>) -> bool
    decreases h.len() - i,
{
    if i < 0 || i >= h.len() {
        false
    } else {
        match h[i].event_type {
            EventType::TimerFired { timer_id } =>
                timer_id.0@ == tid || timer_fired(h, i + 1, tid),
            _ => timer_fired(h, i + 1, tid),
        }
    }
}

/// The id an activity call uses: the caller's, or a generated
/// `activity-<n>` for the n-th decision of the execution.
pub open spec fn chosen_activity_id(opt: Option<Seq<char>>, seq: int) -> Seq<char> {
    match opt {
        Some(id) => id,
        None => "activity-"@ + spec_decimal(seq),
    }
}

/// What one `execute_activity` call does to the replay state, and what
/// it returns: consume the recorded decision and report its outcome,
/// or record a new `ScheduleActivity` decision and suspend.
pub open spec fn spec_execute_activity(
    m: CtxModel,
    activity_type: Seq<char>,
    input: Seq<char>,
    opt_id: Option<Seq<char>>,
) -> (CtxModel, ActivityResolution) {
    if m.terminal {
        (m, ActivityResolution::Pending)
    } else {
        match next_decision_from(m.history, m.pos) {
            Some(i) => match m.history[i].event_type {
                EventType::ActivityTaskScheduled { activity_id, .. } => (
                    CtxModel { pos: i + 1, seq: m.seq + 1, ..m },
                    activity_outcome(m.history, i + 1, activity_id.0@),
                ),
                _ => (m, ActivityResolution::Pending),
            },
            None => (
                CtxModel {
                    seq: m.seq + 1,
                    commands: m.commands.push(CommandModel::ScheduleActivity {
                        activity_id: chosen_activity_id(opt_id, m.seq),
                        activity_type: activity_type,
                        input: input,
                    }),
                    ..m
                },
                ActivityResolution::Pending,
            ),
        }
    }
}

/// What one `sleep` call does to the replay state, and what it
/// returns.
pub open spec fn spec_sleep(m: CtxModel, duration_ms: u64) -> (CtxModel, TimerResolution) {
    if m.terminal {
        (m, TimerResolution::Pending)
    } else {
        match next_decision_from(m.history, m.pos) {
            Some(i) => match m.history[i].event_type {
                EventType::TimerStarted { timer_id, .. } => (
                    CtxModel { pos: i + 1, seq: m.seq + 1, ..m },
                    if timer_fired(m.history, i + 1, timer_id.0@) {
                        TimerResolution::Fired
                    } else {
                        TimerResolution::Pending
                    },
                ),
                _ => (m, TimerResolution::Pending),
            },
            None => (
                CtxModel {
                    seq: m.seq + 1,
                    commands: m.commands.push(CommandModel::StartTimer {
                        timer_id: "timer-"@ + spec_decimal(m.seq),
                        duration_ms: duration_ms,
                    }),
                    ..m
                },
                TimerResolution::Pending,
            ),
        }
    }
}

/// What `complete` does to the replay state.
pub open spec fn spec_complete(m: CtxModel, result: Seq<char>) -> CtxModel {
    if m.terminal {
        m
    } else {
        CtxModel {
            commands: m.commands.push(CommandModel::CompleteWorkflow { result }),
            terminal: true,
            ..m
        }
    }
}

/// What `fail` does to the replay state.
pub open spec fn spec_fail(m: CtxModel, failure: Seq<char>) -> CtxModel {
    if m.terminal {
        m
    } else {
        CtxModel {
            commands: m.commands.push(CommandModel::FailWorkflow { failure }),
            terminal: true,
            ..m
        }
    }
}

/// Runtime surface given to workflow code: replays the history and
/// collects the new decisions.
pub struct WorkflowContext {
    execution: WorkflowExecution,
    history: EventHistory,
    pos: usize,
    next_seq: u128,
    commands: Vec<Command>,
    terminal: bool,
}

impl WorkflowContext {
    /// The replay state.
    pub closed spec fn model(&self) -> CtxModel {
        CtxModel {
            history: self.history@,
            pos: self.pos as int,
            seq: self.next_seq as int,
            commands: self.commands@.map_values(|c: Command| c@),
            terminal: self.terminal,
        }
    }

    /// The execution the context drives.
    pub closed spec fn spec_execution(&self) -> WorkflowExecution {
        self.execution
    }

    /// The context's invariant: the cursor stays inside the history
    /// and the decision counter never exceeds the decisions seen.
    pub open spec fn wf(&self) -> bool {
        &&& 0 <= self.model().pos <= self.model().history.len()
        &&& 0 <= self.model().seq <= self.model().pos + self.model().commands.len()
    }

    /// A context for a fresh execution with no recorded history.
    pub fn new(execution: WorkflowExecution) -> (r: Self)
        ensures
            r.wf(),
            r.spec_execution() == execution,
            r.model().history.len() == 0,
            r.model().pos == 0,
            r.model().seq == 0,
            r.model().commands.len() == 0,
            !r.model().terminal,
    {
        WorkflowContext {
            execution,
            history: EventHistory::new(),
            pos: 0,
            next_seq: 0,
            commands: Vec::new(),
            terminal: false,
        }
    }

    /// A context that replays `history`.
    pub fn with_history(execution: WorkflowExecution, history: EventHistory) -> (r: Self)
        ensures
            r.wf(),
            r.spec_execution() == execution,
            r.model().history == history@,
            r.model().pos == 0,
            r.model().seq == 0,
            r.model().commands.len() == 0,
            !r.model().terminal,
    {
        WorkflowContext {
            execution,
            history,
            pos: 0,
            next_seq: 0,
            commands: Vec::new(),
            terminal: false,
        }
    }

    /// The execution being driven.
    pub fn execution(&self) -> (r: &WorkflowExecution)
        ensures
            *r == self.spec_execution(),
    {
        &self.execution
    }

    /// The decisions issued so far during this replay.
    pub fn commands(&self) -> (r: &Vec<Command>)
        ensures
            r@.map_values(|c: Command| c@) == self.model().commands,
    {
        &self.commands
    }

    /// True once a terminal decision was issued; no further decisions
    /// are accepted afterwards.
    pub fn is_finished(&self) -> (r: bool)
        ensures
            r == self.model().terminal,
    {
        self.terminal
    }

    /// Index of the next unconsumed decision event, if any.
    fn find_next_decision(&self) -> (r: Option<usize>)
        requires
            self.wf(),
        ensures
            match r {
                Some(i) => next_decision_from(self.model().history, self.model().pos) == Some(i as int)
                    && self.model().pos <= i < self.model().history.len()
                    && is_decision(self.model().history[i as int]),
                None => next_decision_from(self.model().history, self.model().pos) is None,
            },
    {
        let n = self.history.len();
        let mut i: usize = self.pos;
        while i < n
            invariant
                n == self.history@.len(),
                self.pos <= i <= n,
                next_decision_from(self.history@, self.pos as int)
                    == next_decision_from(self.history@, i as int),
            decreases n - i,
        {
            let e = self.history.get(i);
            match &e.event_type {
                EventType::ActivityTaskScheduled { .. } => {
                    return Some(i);
                },
                EventType::TimerStarted { .. } => {
                    return Some(i);
                },
                _ => {},
            }
            i = i + 1;
        }
        None
    }

    /// The recorded outcome for activity `aid`, scanning from `from`.
    fn lookup_activity_outcome(&self, from: usize, aid: &ActivityId) -> (r: ActivityResolution)
        requires
            from <= self.model().history.len(),
        ensures
            r == activity_outcome(self.model().history, from as int, aid.0@),
    {
        let n = self.history.len();
        let mut i: usize = from;
        while i < n
            invariant
                n == self.history@.len(),
                from <= i <= n,
                activity_outcome(self.history@, from as int, aid.0@)
                    == activity_outcome(self.history@, i as int, aid.0@),
            decreases n - i,
        {
            let e = self.history.get(i);
            match &e.event_type {
                EventType::ActivityTaskCompleted { activity_id, result } => {
                    if activity_id == aid {
                        return ActivityResolution::Completed(result.clone());
                    }
                },
                EventType::ActivityTaskFailed { activity_id, failure } => {
                    if activity_id == aid {
                        return ActivityResolution::Failed(failure.clone());
                    }
                },
                _ => {},
            }
            i = i + 1;
        }
        ActivityResolution::Pending
    }

    /// Whether timer `tid` has fired, scanning from `from`.
    fn lookup_timer_fired(&self, from: usize, tid: &TimerId) -> (r: bool)
        requires
            from <= self.model().history.len(),
        ensures
            r == timer_fired(self.model().history, from as int, tid.0@),
    {
        let n = self.history.len();
        let mut i: usize = from;
        while i < n
            invariant
                n == self.history@.len(),
                from <= i <= n,
                timer_fired(self.history@, from as int, tid.0@)
                    == timer_fired(self.history@, i as int, tid.0@),
            decreases n - i,
        {
            let e = self.history.get(i);
            match &e.event_type {
                EventType::TimerFired { timer_id } => {
                    if timer_id == tid {
                        return true;
                    }
                },
                _ => {},
            }
            i = i + 1;
        }
        false
    }

    /// Await an activity: on replay, return the recorded outcome of
    /// the decision at the cursor; otherwise record a new
    /// `ScheduleActivity` decision (under the caller's id, or a
    /// generated `activity-<n>`) and suspend.
    pub fn execute_activity(
        &mut self,
        activity_type: &str,
        input: &str,
        options: &ActivityOptions,
    ) -> (r: ActivityResolution)
        requires
            old(self).wf(),
        ensures
            final(self).wf(),
            final(self).spec_execution() == old(self).spec_execution(),
            (final(self).model(), r) == spec_execute_activity(
                old(self).model(),
                activity_type@,
                input@,
                match options.activity_id {
                    Some(a) => Some(a.0@),
                    None => None,
                },
            ),
    {
        if self.terminal {
            return ActivityResolution::Pending;
        }
        match self.find_next_decision() {
            Some(i) => {
                let aid: ActivityId = match &self.history.get(i).event_type {
                    EventType::ActivityTaskScheduled { activity_id, .. } => activity_id.clone(),
                    _ => {
                        return ActivityResolution::Pending;
                    },
                };
                let hlen = self.history.len();
                proof {
                    assert(i < hlen);
                }
                self.pos = i + 1;
                proof {
                    vstd::std_specs::vec::axiom_spec_len(&self.commands);
                    assert(self.next_seq < u128::MAX);
                }
                self.next_seq = self.next_seq + 1;
                let r = self.lookup_activity_outcome(i + 1, &aid);
                proof {
                    assert(final(self).model() == spec_execute_activity(
                        old(self).model(),
                        activity_type@,
                        input@,
                        match options.activity_id {
                            Some(a) => Some(a.0@),
                            None => None,
                        },
                    ).0);
                }
                r
            },
            None => {
                let id: ActivityId = match &options.activity_id {
                    Some(a) => a.clone(),
                    None => {
                        let text = ("activity-".to_owned()).concat(u128_to_decimal(self.next_seq).as_str());
                        ActivityId(text)
                    },
                };
                let cmd = Command::ScheduleActivity {
                    activity_id: id,
                    activity_type: activity_type.to_owned(),
                    input: input.to_owned(),
                };
                self.commands.push(cmd);
                proof {
                    vstd::std_specs::vec::axiom_spec_len(&self.commands);
                    assert(self.next_seq < u128::MAX);
                }
                self.next_seq = self.next_seq + 1;
                proof {
                    assert(final(self).model().commands =~= old(self).model().commands.push(
                        CommandModel::ScheduleActivity {
                            activity_id: chosen_activity_id(
                                match options.activity_id {
                                    Some(a) => Some(a.0@),
                                    None => None,
                                },
                                old(self).model().seq,
                            ),
                            activity_type: activity_type@,
                            input: input@,
                        },
                    ));
                }
                ActivityResolution::Pending
            },
        }
    }

    /// Await a durable timer: on replay, report whether the recorded
    /// timer fired; otherwise record a new `StartTimer` decision
    /// (under a generated `timer-<n>` id) and suspend.
    pub fn sleep(&mut self, duration_ms: u64) -> (r: TimerResolution)
        requires
            old(self).wf(),
        ensures
            final(self).wf(),
            final(self).spec_execution() == old(self).spec_execution(),
            (final(self).model(), r) == spec_sleep(old(self).model(), duration_ms),
    {
        if self.terminal {
            return TimerResolution::Pending;
        }
        match self.find_next_decision() {
            Some(i) => {
                let tid: TimerId = match &self.history.get(i).event_type {
                    EventType::TimerStarted { timer_id, .. } => timer_id.clone(),
                    _ => {
                        return TimerResolution::Pending;
                    },
                };
                let hlen = self.history.len();
                proof {
                    assert(i < hlen);
                }
                self.pos = i + 1;
                proof {
                    vstd::std_specs::vec::axiom_spec_len(&self.commands);
                    assert(self.next_seq < u128::MAX);
                }
                self.next_seq = self.next_seq + 1;
                if self.lookup_timer_fired(i + 1, &tid) {
                    TimerResolution::Fired
                } else {
                    TimerResolution::Pending
                }
            },
            None => {
                let text = ("timer-".to_owned()).concat(u128_to_decimal(self.next_seq).as_str());
                let cmd = Command::StartTimer { timer_id: TimerId(text), duration_ms };
                self.commands.push(cmd);
                proof {
                    vstd::std_specs::vec::axiom_spec_len(&self.commands);
                    assert(self.next_seq < u128::MAX);
                }
                self.next_seq = self.next_seq + 1;
                proof {
                    assert(final(self).model().commands =~= old(self).model().commands.push(
                        CommandModel::StartTimer {
                            timer_id: "timer-"@ + spec_decimal(old(self).model().seq),
                            duration_ms: duration_ms,
                        },
                    ));
                }
                TimerResolution::Pending
            },
        }
    }

    /// Issue the terminal success decision (ignored if a terminal
    /// decision was already issued).
    pub fn complete(&mut self, result: &str)
        requires
            old(self).wf(),
        ensures
            final(self).wf(),
            final(self).spec_execution() == old(self).spec_execution(),
            final(self).model() == spec_complete(old(self).model(), result@),
    {
        if !self.terminal {
            self.commands.push(Command::CompleteWorkflow { result: result.to_owned() });
            self.terminal = true;
            proof {
                assert(final(self).model().commands =~= old(self).model().commands.push(
                    CommandModel::CompleteWorkflow { result: result@ },
                ));
            }
        }
    }

    /// Issue the terminal failure decision (ignored if a terminal
    /// decision was already issued).
    pub fn fail(&mut self, failure: &str)
        requires
            old(self).wf(),
        ensures
            final(self).wf(),
            final(self).spec_execution() == old(self).spec_execution(),
            final(self).model() == spec_fail(old(self).model(), failure@),
    {
        if !self.terminal {
            self.commands.push(Command::FailWorkflow { failure: failure.to_owned() });
            self.terminal = true;
            proof {
                assert(final(self).model().commands =~= old(self).model().commands.push(
                    CommandModel::FailWorkflow { failure: failure@ },
                ));
            }
        }
    }
}

} // verus!
