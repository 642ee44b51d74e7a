//! End-to-end orchestration tests: replay determinism, event ordering,
//! retry backoff, idempotency, terminal stickiness, and the order
//! workflow scenarios.

use workflow::worker::{apply_commands, record_activity_outcome};
use workflow::{ActivityOptions, TimerResolution};
use workflow::process_order_workflow_task;
use workflow::{
    ActivityError, AttemptDisposition, Command, EventHistory, EventType, ExecutionStatus,
    InMemoryAdapter, RetryPolicy, WorkflowContext, WorkflowExecution, WorkflowId,
    run_order_workflow,
};

fn fresh_execution() -> WorkflowExecution {
    WorkflowExecution::new(WorkflowId::new("order-wf"))
}

/// Replays the order workflow against `history` and returns the new
/// commands.
fn replay(history: &EventHistory, input: &str) -> Vec<Command> {
    let mut ctx = WorkflowContext::with_history(fresh_execution(), history.clone());
    run_order_workflow(&mut ctx, input);
    ctx.commands().clone()
}

/// Drives the order workflow to a terminal state: replays, persists
/// the decisions, runs each activity through `activities`
/// (activity_type, input, attempt), and applies the retry policy.
fn drive(
    history: &mut EventHistory,
    input: &str,
    policy: &RetryPolicy,
    activities: &mut dyn FnMut(&str, &str, u32) -> Result<String, ActivityError>,
) -> ExecutionStatus {
    for _round in 0..32 {
        let commands = replay(history, input);
        if commands.is_empty() {
            break;
        }
        let tasks = apply_commands(history, &commands, 1000);
        for task in tasks {
            let mut attempt: u32 = 1;
            loop {
                let outcome = activities(task.activity_type.as_str(), task.input.as_str(), attempt);
                match record_activity_outcome(history, &task.activity_id, attempt, &outcome, policy, 1000)
                {
                    AttemptDisposition::RetryAfter(_) => {
                        attempt += 1;
                    }
                    _ => break,
                }
            }
        }
        if history.status().is_terminal() {
            break;
        }
    }
    history.status()
}

fn count_events(history: &EventHistory, pred: &dyn Fn(&EventType) -> bool) -> usize {
    let mut n = 0;
    for e in history.events() {
        if pred(&e.event_type) {
            n += 1;
        }
    }
    n
}

fn terminal_failure(history: &EventHistory) -> Option<String> {
    for e in history.events() {
        if let EventType::WorkflowExecutionFailed { failure } = &e.event_type {
            return Some(failure.clone());
        }
    }
    None
}

fn terminal_result(history: &EventHistory) -> Option<String> {
    for e in history.events() {
        if let EventType::WorkflowExecutionCompleted { result } = &e.event_type {
            return Some(result.clone());
        }
    }
    None
}

#[test]
fn test_replay_determinism() {
    let mut history = EventHistory::new();
    let input = "{\"items\":[\"A\",\"B\"],\"total\":100}";
    let policy = RetryPolicy::default();
    let mut activities = |activity_type: &str, _input: &str, _attempt: u32| {
        Ok(format!("done-{}", activity_type))
    };
    // Grow some history, then replay the same fixed history twice.
    let commands = replay(&history, input);
    apply_commands(&mut history, &commands, 0);
    let first = replay(&history, input);
    let second = replay(&history, input);
    assert_eq!(first, second);
    // Still deterministic after the execution has progressed further.
    drive(&mut history, input, &policy, &mut activities);
    let third = replay(&history, input);
    let fourth = replay(&history, input);
    assert_eq!(third, fourth);
}

#[test]
fn test_event_id_monotonicity() {
    let mut history = EventHistory::new();
    for k in 0..5 {
        let id = history.append(
            k,
            EventType::TimerStarted {
                timer_id: workflow::TimerId::new("t"),
                duration_ms: 1,
            },
        );
        assert_eq!(id.0, k as u64);
    }
    let events = history.events();
    for i in 1..events.len() {
        assert!(events[i - 1].event_id.0 < events[i].event_id.0);
        assert_eq!(events[i].event_id.0, events[i - 1].event_id.0 + 1);
    }
}

#[test]
fn test_retry_backoff_delays() {
    let policy = RetryPolicy {
        max_attempts: 3,
        initial_interval_ms: 1000,
        max_interval_ms: 100_000,
        backoff_coefficient_centi: 200,
        non_retryable_error_types: Vec::new(),
    };
    let e = ActivityError::TemporaryFailure("blip".to_string());
    assert_eq!(policy.should_retry(1, &e), Some(2000));
    assert_eq!(policy.should_retry(2, &e), Some(4000));
    assert_eq!(policy.should_retry(3, &e), None);

    let single = RetryPolicy {
        max_attempts: 1,
        ..RetryPolicy::default()
    };
    assert_eq!(single.should_retry(1, &e), None);
}

#[test]
fn test_retry_backoff_caps_at_max_interval() {
    let policy = RetryPolicy {
        max_attempts: 10,
        initial_interval_ms: 1000,
        max_interval_ms: 5000,
        backoff_coefficient_centi: 200,
        non_retryable_error_types: Vec::new(),
    };
    let e = ActivityError::TemporaryFailure("blip".to_string());
    assert_eq!(policy.should_retry(4, &e), Some(5000));
}

#[test]
fn test_retry_respects_non_retryable_kinds() {
    let policy = RetryPolicy {
        non_retryable_error_types: vec!["Timeout".to_string()],
        ..RetryPolicy::default()
    };
    assert_eq!(policy.should_retry(1, &ActivityError::Timeout), None);
    assert!(policy
        .should_retry(1, &ActivityError::TemporaryFailure("x".to_string()))
        .is_some());
    assert_eq!(
        policy.should_retry(1, &ActivityError::ValidationFailed("x".to_string())),
        None
    );
    assert_eq!(policy.should_retry(1, &ActivityError::Cancelled), None);
}

#[test]
fn test_idempotency_dedup() {
    let mut adapter = InMemoryAdapter::new();
    assert!(adapter.put_idempotency_key("k", 60).unwrap());
    assert!(!adapter.put_idempotency_key("k", 60).unwrap());
}

#[test]
fn test_idempotency_ttl_expiry() {
    let mut adapter = InMemoryAdapter::new();
    assert!(adapter.put_idempotency_key_at("k", 60, 1000));
    assert!(!adapter.put_idempotency_key_at("k", 60, 1030));
    assert!(adapter.put_idempotency_key_at("k", 60, 1061));
    // A different key is independent.
    assert!(adapter.put_idempotency_key_at("k2", 60, 1030));
}

#[test]
fn test_terminal_state_stickiness() {
    let mut history = EventHistory::new();
    history.append(
        0,
        EventType::WorkflowExecutionCompleted {
            result: "done".to_string(),
        },
    );
    assert_eq!(history.status(), ExecutionStatus::Completed);

    // Appending further events never changes a terminal status.
    history.append(
        1,
        EventType::WorkflowExecutionFailed {
            failure: "late".to_string(),
        },
    );
    history.append(
        2,
        EventType::ActivityTaskCompleted {
            activity_id: workflow::ActivityId::new("a"),
            result: "x".to_string(),
        },
    );
    assert_eq!(history.status(), ExecutionStatus::Completed);
}

#[test]
fn test_order_workflow_happy_path() {
    let mut history = EventHistory::new();
    let input = "{\"items\":[\"A\",\"B\"],\"total\":100}";
    let policy = RetryPolicy::default();
    let mut activities = |activity_type: &str, _input: &str, _attempt: u32| match activity_type {
        "ValidateOrder" => Ok("valid".to_string()),
        "ReserveInventory" => Ok("reservation-17".to_string()),
        "ProcessPayment" => Ok("payment-99".to_string()),
        "CreateShipment" => Ok("TRACK-12345".to_string()),
        other => Err(ActivityError::Custom(format!("unknown activity {}", other))),
    };
    let status = drive(&mut history, input, &policy, &mut activities);
    assert_eq!(status, ExecutionStatus::Completed);
    let tracking = terminal_result(&history).unwrap();
    assert_eq!(tracking, "TRACK-12345");
    assert!(!tracking.is_empty());
    // All four steps ran, in order, exactly once.
    let scheduled: Vec<String> = history
        .events()
        .iter()
        .filter_map(|e| match &e.event_type {
            EventType::ActivityTaskScheduled { activity_type, .. } => Some(activity_type.clone()),
            _ => None,
        })
        .collect();
    assert_eq!(
        scheduled,
        vec![
            "ValidateOrder".to_string(),
            "ReserveInventory".to_string(),
            "ProcessPayment".to_string(),
            "CreateShipment".to_string(),
        ]
    );
}

#[test]
fn test_order_workflow_compensation() {
    let mut history = EventHistory::new();
    let input = "{\"items\":[\"A\",\"B\"],\"total\":100}";
    let policy = RetryPolicy::default();
    let mut release_called = 0;
    let mut pay_attempts = 0;
    let status = {
        let mut activities = |activity_type: &str, _input: &str, _attempt: u32| match activity_type {
            "ValidateOrder" => Ok("valid".to_string()),
            "ReserveInventory" => Ok("reservation-17".to_string()),
            "ProcessPayment" => {
                pay_attempts += 1;
                Err(ActivityError::TemporaryFailure("card declined".to_string()))
            }
            "ReleaseInventory" => {
                release_called += 1;
                Ok("released".to_string())
            }
            other => Err(ActivityError::Custom(format!("unknown activity {}", other))),
        };
        drive(&mut history, input, &policy, &mut activities)
    };
    assert_eq!(status, ExecutionStatus::Failed);
    // The payment was attempted exactly max_attempts times.
    assert_eq!(pay_attempts, 3);
    // The earlier reservation was compensated.
    assert_eq!(release_called, 1);
    let reason = terminal_failure(&history).unwrap();
    assert!(reason.contains("Payment failed"));
    // The compensating call is recorded in history.
    let releases = count_events(&history, &|e| {
        matches!(e, EventType::ActivityTaskScheduled { activity_type, .. } if activity_type == "ReleaseInventory")
    });
    assert_eq!(releases, 1);
}

#[test]
fn test_order_workflow_validation_failure() {
    let mut history = EventHistory::new();
    let input = "{\"items\":[],\"total\":0}";
    let policy = RetryPolicy::default();
    let mut validate_attempts = 0;
    let status = {
        let mut activities = |activity_type: &str, _input: &str, _attempt: u32| match activity_type {
            "ValidateOrder" => {
                validate_attempts += 1;
                Err(ActivityError::ValidationFailed("empty order".to_string()))
            }
            other => Err(ActivityError::Custom(format!("unknown activity {}", other))),
        };
        drive(&mut history, input, &policy, &mut activities)
    };
    assert_eq!(status, ExecutionStatus::Failed);
    // Exactly one attempt, and no retry was ever scheduled.
    assert_eq!(validate_attempts, 1);
    let retries = count_events(&history, &|e| {
        matches!(e, EventType::ActivityTaskStarted { .. })
    });
    assert_eq!(retries, 0);
    let failures = count_events(&history, &|e| {
        matches!(e, EventType::ActivityTaskFailed { .. })
    });
    assert_eq!(failures, 1);
    let reason = terminal_failure(&history).unwrap();
    assert!(reason.contains("Validation failed"));
}

#[test]
fn test_retry_records_started_events() {
    // A transient failure before the last allowed attempt records an
    // ActivityTaskStarted event for the next attempt.
    let mut history = EventHistory::new();
    let policy = RetryPolicy::default();
    let aid = workflow::ActivityId::new("a-1");
    let outcome: Result<String, ActivityError> =
        Err(ActivityError::TemporaryFailure("blip".to_string()));
    let d1 = record_activity_outcome(&mut history, &aid, 1, &outcome, &policy, 0);
    assert_eq!(d1, AttemptDisposition::RetryAfter(2000));
    let d2 = record_activity_outcome(&mut history, &aid, 2, &outcome, &policy, 0);
    assert_eq!(d2, AttemptDisposition::RetryAfter(4000));
    let d3 = record_activity_outcome(&mut history, &aid, 3, &outcome, &policy, 0);
    assert_eq!(d3, AttemptDisposition::FailedTerminally);

    let started = count_events(&history, &|e| {
        matches!(e, EventType::ActivityTaskStarted { .. })
    });
    assert_eq!(started, 2);
    match &history.get(0).event_type {
        EventType::ActivityTaskStarted { attempt, .. } => assert_eq!(*attempt, 2),
        other => panic!("unexpected event: {:?}", other),
    }
    match &history.get(2).event_type {
        EventType::ActivityTaskFailed { failure, .. } => {
            assert_eq!(failure, "Temporary failure: blip")
        }
        other => panic!("unexpected event: {:?}", other),
    }
}

#[test]
fn test_workflow_context_sleep_and_timer() {
    let execution = fresh_execution();
    // Live run: sleeping starts a timer and suspends.
    let mut ctx = WorkflowContext::new(execution.clone());
    assert_eq!(ctx.sleep(500), TimerResolution::Pending);
    let commands = ctx.commands().clone();
    assert_eq!(commands.len(), 1);
    let mut history = EventHistory::new();
    apply_commands(&mut history, &commands, 0);
    let timer_id = match &history.get(0).event_type {
        EventType::TimerStarted { timer_id, duration_ms } => {
            assert_eq!(*duration_ms, 500);
            timer_id.clone()
        }
        other => panic!("unexpected event: {:?}", other),
    };
    // Replay before the timer fired: still pending, no new decision.
    let mut ctx2 = WorkflowContext::with_history(execution.clone(), history.clone());
    assert_eq!(ctx2.sleep(500), TimerResolution::Pending);
    assert!(ctx2.commands().is_empty());
    // Once the timer fired, the replay resumes past the sleep.
    history.append(1, EventType::TimerFired { timer_id });
    let mut ctx3 = WorkflowContext::with_history(execution, history);
    assert_eq!(ctx3.sleep(500), TimerResolution::Fired);
    assert!(ctx3.commands().is_empty());
}

#[test]
fn test_context_accepts_no_decision_after_terminal() {
    let mut ctx = WorkflowContext::new(fresh_execution());
    ctx.complete("done");
    assert!(ctx.is_finished());
    let before = ctx.commands().len();
    ctx.complete("again");
    ctx.fail("too late");
    let r = ctx.execute_activity("Extra", "{}", &ActivityOptions::default());
    assert_eq!(r, workflow::ActivityResolution::Pending);
    assert_eq!(ctx.commands().len(), before);
}

#[test]
fn test_generated_activity_ids_are_deterministic() {
    let mut ctx = WorkflowContext::new(fresh_execution());
    let opts = ActivityOptions::default();
    ctx.execute_activity("StepOne", "{}", &opts);
    let mut ctx2 = WorkflowContext::new(fresh_execution());
    ctx2.execute_activity("StepOne", "{}", &opts);
    let c1 = ctx.commands().clone();
    let c2 = ctx2.commands().clone();
    assert_eq!(c1, c2);
    match &c1[0] {
        Command::ScheduleActivity { activity_id, .. } => {
            assert_eq!(activity_id.as_str(), "activity-0");
        }
        other => panic!("unexpected command: {:?}", other),
    }
}

#[test]
fn test_process_workflow_task_persists_decisions() {
    let mut history = EventHistory::new();
    let execution = fresh_execution();
    let input = "{\"items\":[\"A\"],\"total\":10}";
    // The first workflow task schedules the first activity.
    let tasks = process_order_workflow_task(&execution, &mut history, input, 7);
    assert_eq!(tasks.len(), 1);
    assert_eq!(tasks[0].activity_type, "ValidateOrder");
    assert_eq!(history.len(), 1);
    match &history.get(0).event_type {
        EventType::ActivityTaskScheduled { activity_type, input: recorded, .. } => {
            assert_eq!(activity_type, "ValidateOrder");
            assert_eq!(recorded, input);
        }
        other => panic!("unexpected event: {:?}", other),
    }
    assert_eq!(history.get(0).timestamp_ms, 7);
    // A second task over the unchanged history makes the same decision
    // available for the worker to deduplicate, never a different one.
    let mut replayed = EventHistory::new();
    let tasks2 = process_order_workflow_task(&execution, &mut replayed, input, 7);
    assert_eq!(tasks2[0].activity_type, "ValidateOrder");
}
