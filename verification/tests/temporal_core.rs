//! Tests of the identifier types, event history, retry policy,
//! contexts, client, worker and stores.

use workflow::{
    ActivityContext, ActivityId, EventHistory, EventId, EventType, InMemoryAdapter,
    InMemoryStorage, RetryPolicy, RunId, StartWorkflowOptions, WorkflowClient, WorkflowContext,
    WorkflowEvent, WorkflowExecution, WorkflowId, WorkflowWorker,
};
use workflow::query::Query;
use workflow::signal::Signal;
use workflow::{ActivityError, WorkflowError};
use workflow::{ExecutionStatus, QueryError, SignalError};

#[test]
fn test_workflow_id() {
    let id = WorkflowId::new("test-workflow");
    assert_eq!(id.as_str(), "test-workflow");

    let generated = WorkflowId::generate();
    assert!(generated.as_str().starts_with("workflow-"));
}

#[test]
fn test_run_id() {
    let run_id = RunId::generate();
    let s = run_id.to_string();
    let parsed = RunId::parse(&s).unwrap();
    assert_eq!(run_id, parsed);
}

#[test]
fn test_run_id_parse_rejects_garbage() {
    let r = RunId::parse("not-a-uuid");
    assert!(matches!(r, Err(workflow::WorkflowError::InvalidInput(_))));
}

#[test]
fn test_workflow_execution() {
    let workflow_id = WorkflowId::new("test");
    let execution = WorkflowExecution::new(workflow_id.clone());

    assert_eq!(execution.workflow_id, workflow_id);
}

#[test]
fn test_event_history() {
    let mut history = EventHistory::new();
    assert_eq!(history.len(), 0);
    assert!(history.is_empty());

    let event = WorkflowEvent {
        event_id: EventId::zero(),
        timestamp_ms: 0,
        event_type: EventType::WorkflowExecutionStarted {
            workflow_type: "TestWorkflow".to_string(),
            input: "{}".to_string(),
        },
    };

    history.add_event(event);
    assert_eq!(history.len(), 1);
    assert!(!history.is_empty());
}

#[test]
fn test_event_id_next() {
    let id = EventId::zero();
    assert_eq!(id.0, 0);
    assert_eq!(id.next().0, 1);
}

#[test]
fn test_activity_context_creation() {
    let activity_id = ActivityId::new("test-activity");
    let workflow_id = WorkflowId::new("test-workflow");
    let run_id = RunId::generate();
    let execution = WorkflowExecution::with_run_id(workflow_id, run_id);

    let ctx = ActivityContext::new(activity_id.clone(), execution);

    assert_eq!(ctx.activity_id(), &activity_id);
}

#[test]
fn test_activity_context_heartbeat() {
    let activity_id = ActivityId::new("hb");
    let execution = WorkflowExecution::new(WorkflowId::new("wf"));
    let ctx = ActivityContext::new(activity_id, execution);
    assert!(ctx.heartbeat().is_ok());
    assert!(ctx.heartbeat_with_details("half done").is_ok());
    assert!(!ctx.is_cancelled());
}

#[test]
fn test_activity_context_cooperative_cancellation() {
    let activity_id = ActivityId::new("slow");
    let execution = WorkflowExecution::new(WorkflowId::new("wf"));
    let mut ctx = ActivityContext::new(activity_id, execution);
    assert!(!ctx.is_cancelled());
    ctx.request_cancellation();
    assert!(ctx.is_cancelled());
}

#[test]
fn test_retry_policy_default() {
    let policy = RetryPolicy::default();
    assert_eq!(policy.max_attempts, 3);
    assert_eq!(policy.backoff_coefficient_centi, 200);
}

#[test]
fn test_workflow_context_creation() {
    let workflow_id = WorkflowId::new("test");
    let execution = WorkflowExecution::new(workflow_id);
    let ctx = WorkflowContext::new(execution.clone());

    assert_eq!(ctx.execution(), &execution);
}

#[test]
fn test_client_creation() {
    let _client = WorkflowClient::new();
}

#[test]
fn test_start_workflow_options_default() {
    let options = StartWorkflowOptions::default();
    assert_eq!(options.task_queue, "default");
}

struct TestQuery;

impl Query for TestQuery {
    type Result = i32;

    fn name() -> &'static str {
        "test_query"
    }
}

#[test]
fn test_query_name() {
    assert_eq!(TestQuery::name(), "test_query");
}

struct TestSignal {
    #[allow(dead_code)]
    value: String,
}

impl Signal for TestSignal {
    fn name() -> &'static str {
        "test_signal"
    }
}

#[test]
fn test_signal_name() {
    assert_eq!(TestSignal::name(), "test_signal");
}

#[test]
fn test_in_memory_storage() {
    let storage = InMemoryStorage::new();
    let workflow_id = WorkflowId::new("test");
    let result = storage.load_workflow_execution(&workflow_id);

    assert!(result.is_err());
}

#[test]
fn test_storage_roundtrip() {
    let mut storage = InMemoryStorage::new();
    let execution = WorkflowExecution::new(WorkflowId::new("wf-7"));
    let mut history = EventHistory::new();
    history.append(
        5,
        EventType::WorkflowExecutionStarted {
            workflow_type: "Order".to_string(),
            input: "{}".to_string(),
        },
    );
    storage.save_workflow_execution(&execution, &history).unwrap();

    let (loaded_execution, loaded_history) =
        storage.load_workflow_execution(&execution.workflow_id).unwrap();
    assert_eq!(loaded_execution, execution);
    assert_eq!(loaded_history.len(), 1);
    assert_eq!(loaded_history.get(0).timestamp_ms, 5);
}

#[test]
fn test_worker_creation() {
    let _worker = WorkflowWorker::new();
}

#[test]
fn test_worker_config_default() {
    let config = workflow::WorkerConfig::default();
    assert_eq!(config.task_queue, "default");
    assert_eq!(config.max_concurrent_workflow_tasks, 100);
}

#[test]
fn test_worker_slots_enforce_cap() {
    let mut worker = WorkflowWorker::with_config(workflow::WorkerConfig {
        task_queue: "q".to_string(),
        max_concurrent_workflow_tasks: 2,
        max_concurrent_activity_tasks: 1,
    });
    assert!(worker.try_acquire_workflow_slot());
    assert!(worker.try_acquire_workflow_slot());
    assert!(!worker.try_acquire_workflow_slot());
    worker.release_workflow_slot();
    assert!(worker.try_acquire_workflow_slot());

    assert!(worker.try_acquire_activity_slot());
    assert!(!worker.try_acquire_activity_slot());
}

#[test]
fn in_memory_adapter_roundtrip() {
    let mut adapter = InMemoryAdapter::new();
    let snap = workflow::StateSnapshot {
        workflow_id: "wf1".to_string(),
        state: "{\"s\":\"ok\"}".to_string(),
        updated_at: 0,
    };
    adapter.save_state(snap).unwrap();
    let got = adapter.load_state("wf1").unwrap().unwrap();
    assert_eq!(got.workflow_id, "wf1");
}

#[test]
fn test_client_start_workflow_records_first_event() {
    let client = WorkflowClient::new();
    let mut storage = InMemoryStorage::new();
    let options = StartWorkflowOptions {
        workflow_id: Some(WorkflowId::new("order-1")),
        ..StartWorkflowOptions::default()
    };
    let handle = client.start_workflow(&mut storage, "OrderWorkflow", "{}", &options, 42);
    assert_eq!(handle.execution().workflow_id.as_str(), "order-1");

    let (_, history) = storage
        .load_workflow_execution(&WorkflowId::new("order-1"))
        .unwrap();
    assert_eq!(history.len(), 1);
    let first = history.get(0);
    assert_eq!(first.event_id.0, 0);
    assert_eq!(first.timestamp_ms, 42);
    match &first.event_type {
        EventType::WorkflowExecutionStarted { workflow_type, input } => {
            assert_eq!(workflow_type, "OrderWorkflow");
            assert_eq!(input, "{}");
        }
        other => panic!("unexpected first event: {:?}", other),
    }
}

#[test]
fn test_error_messages() {
    assert_eq!(
        WorkflowError::ActivityFailed("boom".to_string()).message(),
        "Activity failed: boom"
    );
    assert_eq!(WorkflowError::Cancelled.message(), "Workflow cancelled");
    assert_eq!(
        ActivityError::TemporaryFailure("net".to_string()).message(),
        "Temporary failure: net"
    );
    assert_eq!(ActivityError::Timeout.message(), "Activity timeout");
    assert_eq!(
        ActivityError::ValidationFailed("bad".to_string()).kind(),
        "ValidationFailed"
    );
    assert_eq!(ActivityError::Cancelled.kind(), "Cancelled");
}

#[test]
fn test_signal_workflow_errors() {
    let client = WorkflowClient::new();
    let mut storage = InMemoryStorage::new();
    let options = StartWorkflowOptions {
        workflow_id: Some(WorkflowId::new("wf-sig")),
        ..StartWorkflowOptions::default()
    };
    client.start_workflow(&mut storage, "Order", "{}", &options, 0);
    let registered = vec!["approve".to_string(), "cancel".to_string()];

    assert!(client
        .signal_workflow(&storage, &WorkflowId::new("wf-sig"), &registered, "approve")
        .is_ok());
    let unknown = client.signal_workflow(&storage, &WorkflowId::new("wf-sig"), &registered, "nudge");
    assert!(matches!(unknown, Err(SignalError::SignalNotRegistered(n)) if n == "nudge"));
    let missing = client.signal_workflow(&storage, &WorkflowId::new("other"), &registered, "approve");
    assert!(matches!(missing, Err(SignalError::WorkflowNotFound)));
}

#[test]
fn test_query_workflow_errors() {
    let client = WorkflowClient::new();
    let mut storage = InMemoryStorage::new();
    let options = StartWorkflowOptions {
        workflow_id: Some(WorkflowId::new("wf-q")),
        ..StartWorkflowOptions::default()
    };
    client.start_workflow(&mut storage, "Order", "{}", &options, 0);
    let registered = vec!["status".to_string()];

    let answer = client.query_workflow(&storage, &WorkflowId::new("wf-q"), &registered, "status");
    assert_eq!(answer.unwrap(), ExecutionStatus::Running);

    let unknown = client.query_workflow(&storage, &WorkflowId::new("wf-q"), &registered, "totals");
    assert!(matches!(unknown, Err(QueryError::QueryNotRegistered(n)) if n == "totals"));
    let missing = client.query_workflow(&storage, &WorkflowId::new("other"), &registered, "status");
    assert!(matches!(missing, Err(QueryError::WorkflowNotFound)));

    // Once the execution terminates, queries report it as not running.
    let execution = storage
        .load_workflow_execution(&WorkflowId::new("wf-q"))
        .unwrap()
        .0;
    let mut history = storage
        .load_workflow_execution(&WorkflowId::new("wf-q"))
        .unwrap()
        .1;
    history.append(
        1,
        EventType::WorkflowExecutionCompleted {
            result: "done".to_string(),
        },
    );
    storage.save_workflow_execution(&execution, &history).unwrap();
    let done = client.query_workflow(&storage, &WorkflowId::new("wf-q"), &registered, "status");
    assert!(matches!(done, Err(QueryError::WorkflowNotRunning)));
}
