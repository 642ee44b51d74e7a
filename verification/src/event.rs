//! Event sourcing: the append-only history of one execution.
//!
//! The history is the sole input to deterministic replay.  Events are
//! ordered by `EventId`, which equals each event's index, so two reads
//! of the same history always agree and replay is reproducible.

use vstd::prelude::*;
use crate::types::{EventId, ActivityId, TimerId};

verus! {

/// What happened, as one tagged fact.  Payloads (workflow input,
/// activity input and results) are carried as opaque encoded text.
#[derive(Debug)]
pub enum EventType {
    /// The execution began with the given workflow type and input.
    WorkflowExecutionStarted { workflow_type: String, input: String },
    /// The execution ended successfully with the given result.
    WorkflowExecutionCompleted { result: String },
    /// The execution ended in failure.
    WorkflowExecutionFailed { failure: String },
    /// The execution was cancelled.
    WorkflowExecutionCancelled { reason: String },
    /// A decision to run an activity was recorded.
    ActivityTaskScheduled { activity_id: ActivityId, activity_type: String, input: String },
    /// An activity attempt began.
    ActivityTaskStarted { activity_id: ActivityId, attempt: u32 },
    /// An activity finished successfully.
    ActivityTaskCompleted { activity_id: ActivityId, result: String },
    /// An activity failed terminally (retries exhausted or
    /// non-retryable).
    ActivityTaskFailed { activity_id: ActivityId, failure: String },
    /// A durable timer was started.
    TimerStarted { timer_id: TimerId, duration_ms: u64 },
    /// A durable timer elapsed.
    TimerFired { timer_id: TimerId },
}

impl Clone for EventType {
    fn clone(&self) -> (r: Self)
        ensures
            r == *self,
    {
        match self {
            EventType::WorkflowExecutionStarted { workflow_type, input } =>
                EventType::WorkflowExecutionStarted {
                    workflow_type: workflow_type.clone(),
                    input: input.clone(),
                },
            EventType::WorkflowExecutionCompleted { result } =>
                EventType::WorkflowExecutionCompleted { result: result.clone() },
            EventType::WorkflowExecutionFailed { failure } =>
                EventType::WorkflowExecutionFailed { failure: failure.clone() },
            EventType::WorkflowExecutionCancelled { reason } =>
                EventType::WorkflowExecutionCancelled { reason: reason.clone() },
            EventType::ActivityTaskScheduled { activity_id, activity_type, input } =>
                EventType::ActivityTaskScheduled {
                    activity_id: activity_id.clone(),
                    activity_type: activity_type.clone(),
                    input: input.clone(),
                },
            EventType::ActivityTaskStarted { activity_id, attempt } =>
                EventType::ActivityTaskStarted {
                    activity_id: activity_id.clone(),
                    attempt: *attempt,
                },
            EventType::ActivityTaskCompleted { activity_id, result } =>
                EventType::ActivityTaskCompleted {
                    activity_id: activity_id.clone(),
                    result: result.clone(),
                },
            EventType::ActivityTaskFailed { activity_id, failure } =>
                EventType::ActivityTaskFailed {
                    activity_id: activity_id.clone(),
                    failure: failure.clone(),
                },
            EventType::TimerStarted { timer_id, duration_ms } =>
                EventType::TimerStarted {
                    timer_id: timer_id.clone(),
                    duration_ms: *duration_ms,
                },
            EventType::TimerFired { timer_id } =>
                EventType::TimerFired { timer_id: timer_id.clone() },
        }
    }
}

impl EventType {
    /// True of the three event types that end an execution.
    pub open spec fn is_terminal(&self) -> bool {
        match self {
            EventType::WorkflowExecutionCompleted { .. } => true,
            EventType::WorkflowExecutionFailed { .. } => true,
            EventType::WorkflowExecutionCancelled { .. } => true,
            _ => false,
        }
    }
}

/// One fact appended to a history: immutable once appended.
#[derive(Debug)]
pub struct WorkflowEvent {
    /// Position in the history.
    pub event_id: EventId,
    /// Milliseconds since the Unix epoch when the event was recorded.
    pub timestamp_ms: i64,
    /// What happened.
    pub event_type: EventType,
}

impl Clone for WorkflowEvent {
    fn clone(&self) -> (r: Self)
        ensures
            r == *self,
    {
        WorkflowEvent {
            event_id: self.event_id,
            timestamp_ms: self.timestamp_ms,
            event_type: self.event_type.clone(),
        }
    }
}

/// Status of an execution as derived from its history.
#[derive(Debug, Clone, Copy, PartialEq, Eq, Structural)]
pub enum ExecutionStatus {
    /// No terminal event yet.
    Running,
    /// Ended with `WorkflowExecutionCompleted`.
    Completed,
    /// Ended with `WorkflowExecutionFailed`.
    Failed,
    /// Ended by a timeout.
    Timeout,
    /// Ended with `WorkflowExecutionCancelled`.
    Cancelled,
}

impl ExecutionStatus {
    /// True of every status but `Running`; a terminal status is sticky.
    pub open spec fn spec_is_terminal(&self) -> bool {
        !(self is Running)
    }

    /// True of every status but `Running`; a terminal status is sticky.
    #[verifier::when_used_as_spec(spec_is_terminal)]
    pub fn is_terminal(&self) -> (r: bool)
        ensures
            r == self.spec_is_terminal(),
    {
        !matches!(self, ExecutionStatus::Running)
    }
}

/// The status that a terminal event assigns.
pub open spec fn terminal_status_of(e: EventType) -> ExecutionStatus {
    match e {
        EventType::WorkflowExecutionCompleted { .. } => ExecutionStatus::Completed,
        EventType::WorkflowExecutionFailed { .. } => ExecutionStatus::Failed,
        EventType::WorkflowExecutionCancelled { .. } => ExecutionStatus::Cancelled,
        _ => ExecutionStatus::Running,
    }
}

/// The status derived from a sequence of events: the status of the
/// first terminal event, or `Running` when there is none.
pub open spec fn status_of(events: Seq<WorkflowEvent>) -> ExecutionStatus
    decreases events.len(),
{
    if events.len() == 0 {
        ExecutionStatus::Running
    } else if events[0].event_type.is_terminal() {
        terminal_status_of(events[0].event_type)
    } else {
        status_of(events.drop_first())
    }
}

/// Append-only, ordered log of everything that happened to one
/// execution.
#[derive(Debug)]
pub struct EventHistory {
    events: Vec<WorkflowEvent>,
}

impl Clone for EventHistory {
    fn clone(&self) -> (r: Self)
        ensures
            r@ == self@,
    {
        let events = self.events.clone();
        proof {
            assert forall|i: int| 0 <= i < events@.len()
                implies events@[i] == self.events@[i] by {
                assert(vstd::pervasive::cloned::<WorkflowEvent>(self.events@[i], events@[i]));
            }
            assert(events@ =~= self.events@);
        }
        EventHistory { events }
    }
}

impl EventHistory {
    /// The events, in append order.
    pub closed spec fn view(&self) -> Seq<WorkflowEvent> {
        self.events@
    }

    /// Event ids equal positions: this is what makes the order total,
    /// gap-free, and stable across reads.
    pub open spec fn well_formed(&self) -> bool {
        forall|i: int| 0 <= i < self@.len() ==> (#[trigger] self@[i]).event_id.0 == i
    }

    /// A new, empty history.
    pub fn new() -> (r: Self)
        ensures
            r@.len() == 0,
            r.well_formed(),
    {
        EventHistory { events: Vec::new() }
    }

    /// Append `event`, whose id must be the next unused one.
    pub fn add_event(&mut self, event: WorkflowEvent)
        requires
            event.event_id.0 == old(self)@.len(),
        ensures
            final(self)@ == old(self)@.push(event),
            old(self).well_formed() ==> final(self).well_formed(),
    {
        self.events.push(event);
    }

    /// Record a new fact: assigns the next event id, appends, and
    /// returns the id.
    pub fn append(&mut self, timestamp_ms: i64, event_type: EventType) -> (r: EventId)
        requires
            old(self)@.len() < u64::MAX,
        ensures
            r.0 == old(self)@.len(),
            final(self)@ == old(self)@.push(WorkflowEvent {
                event_id: r,
                timestamp_ms: timestamp_ms,
                event_type: event_type,
            }),
            old(self).well_formed() ==> final(self).well_formed(),
    {
        let id = EventId(self.events.len() as u64);
        self.events.push(WorkflowEvent { event_id: id, timestamp_ms, event_type });
        id
    }

    /// Read-only view of the events; stable across reads.
    pub fn events(&self) -> (r: &Vec<WorkflowEvent>)
        ensures
            r@ == self@,
    {
        &self.events
    }

    /// The event at position `i`.
    pub fn get(&self, i: usize) -> (r: &WorkflowEvent)
        requires
            i < self@.len(),
        ensures
            *r == self@[i as int],
    {
        &self.events[i]
    }

    /// How many events the history holds.
    pub fn len(&self) -> (r: usize)
        ensures
            r == self@.len(),
    {
        self.events.len()
    }

    /// True when no event has been recorded.
    pub fn is_empty(&self) -> (r: bool)
        ensures
            r == (self@.len() == 0),
    {
        self.events.len() == 0
    }

    /// The status the history's events assign to the execution.
    pub fn status(&self) -> (r: ExecutionStatus)
        ensures
            r == status_of(self@),
    {
        let n = self.events.len();
        let mut i: usize = 0;
        proof {
            assert(self@.skip(0) =~= self@);
        }
        while i < n
            invariant
                n == self@.len(),
                i <= n,
                status_of(self@) == status_of(self@.skip(i as int)),
                forall|j: int| 0 <= j < i ==> !(#[trigger] self@[j]).event_type.is_terminal(),
            decreases n - i,
        {
            let e = &self.events[i];
            proof {
                assert(self@.skip(i as int)[0] == self@[i as int]);
                assert(self@.skip(i as int).drop_first() =~= self@.skip(i as int + 1));
            }
            match &e.event_type {
                EventType::WorkflowExecutionCompleted { .. } => {
                    return ExecutionStatus::Completed;
                },
                EventType::WorkflowExecutionFailed { .. } => {
                    return ExecutionStatus::Failed;
                },
                EventType::WorkflowExecutionCancelled { .. } => {
                    return ExecutionStatus::Cancelled;
                },
                _ => {},
            }
            i = i + 1;
        }
        proof {
            assert(self@.skip(n as int) =~= Seq::<WorkflowEvent>::empty());
        }
        ExecutionStatus::Running
    }
}

/// In a well-formed history the event ids are strictly increasing with
/// no gaps: the id at position `i` is exactly `i`, so later events
/// always carry larger ids and none is reused.
pub proof fn lemma_event_ids_strictly_increasing(h: &EventHistory)
    requires
        h.well_formed(),
    ensures
        forall|i: int, j: int|
            0 <= i < j < h@.len() ==> (#[trigger] h@[i]).event_id.0 < (#[trigger] h@[j]).event_id.0,
        forall|i: int| 0 <= i < h@.len() ==> (#[trigger] h@[i]).event_id.0 == i,
{
}

/// Once a history has reached a terminal status, appending further
/// events never changes that status: terminal states are sticky.
pub proof fn lemma_terminal_status_sticky(events: Seq<WorkflowEvent>, e: WorkflowEvent)
    requires
        status_of(events).spec_is_terminal(),
    ensures
        status_of(events.push(e)) == status_of(events),
    decreases events.len(),
{
    if events.len() == 0 {
    } else if events[0].event_type.is_terminal() {
        assert(events.push(e)[0] == events[0]);
    } else {
        assert(events.push(e)[0] == events[0]);
        assert(events.push(e).drop_first() =~= events.drop_first().push(e));
        lemma_terminal_status_sticky(events.drop_first(), e);
    }
}

} // verus!
