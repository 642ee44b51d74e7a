//! Tests of the configuration, data-processing, scanning and session
//! modules.

use workflow::const_features::{
    ConstContextProcessor, ConstWorkflowDefinition, ConstWorkflowEngine, ConstWorkflowExecutor,
    ConstWorkflowMonitor, ConstWorkflowStep, WorkflowMetrics,
};
use workflow::features::{
    JITOptimizedProcessor, ModuleInfo, Rust190WorkflowEngine, SmallObjectManager,
    TypeCheckerOptimized,
};
use workflow::stable_apis::{
    BufReadProcessor, ControlFlowProcessor, DebugItem, DebugListProcessor,
    StableAPIWorkflowEngine, WorkflowConfig, WorkflowDefinition, WorkflowStep,
};
use workflow::async_features::{
    AsyncData, AsyncStreamMonitor, AsyncStreamProcessor, StreamMetrics,
};
use workflow::performance::{
    BenchmarkResult, ExecutionStatus as PerformanceExecutionStatus,
    HighPerformanceWorkflowEngine, PerformanceBenchmark, PerformanceMetrics, PerformanceMonitor,
    WorkflowDefinition as PerformanceWorkflowDefinition, WorkflowStep as PerformanceWorkflowStep,
};
use workflow::session_types::{
    Participant, ParticipantRole, SessionMetrics, SessionProtocol, SessionState,
    SessionTypesMonitor, SessionTypesWorkflow, SessionTypesWorkflowEngine, WorkflowProtocol,
};

#[test]
fn test_const_context_processor() {
    let _processor = ConstContextProcessor::new();
    let config = ConstContextProcessor::create_config();

    assert_eq!(config.max_retries, 3);
    assert_eq!(config.timeout_seconds, 30);
    assert_eq!(config.batch_size, 100);
    assert!(config.enable_logging);
}

#[test]
fn test_const_data_processing() {
    let data = [1, 2, 3, 4, 5];
    let sum = ConstContextProcessor::process_const_data(&data);
    assert_eq!(sum, 15);
}

#[test]
fn test_const_workflow_engine() {
    let engine = ConstWorkflowEngine::new();
    let config = engine.get_config();

    assert_eq!(config.max_retries, 3);
    assert!(engine.validate_config());
}

#[test]
fn test_const_workflow_step() {
    let step = ConstWorkflowStep::new(1, "test_step", 30, 3);

    assert_eq!(step.id, 1);
    assert_eq!(step.name, "test_step");
    assert_eq!(step.timeout, 30);
    assert_eq!(step.retries, 3);
    assert!(step.is_valid());
}

#[test]
fn test_const_workflow_step_validity_bounds() {
    assert!(!ConstWorkflowStep::new(0, "s", 30, 3).is_valid());
    assert!(!ConstWorkflowStep::new(1, "s", 0, 3).is_valid());
    assert!(!ConstWorkflowStep::new(1, "s", 30, 6).is_valid());
}

#[test]
fn test_const_workflow_definition() {
    let steps = vec![
        ConstWorkflowStep::new(1, "step1", 30, 3),
        ConstWorkflowStep::new(2, "step2", 60, 2),
    ];

    let definition = ConstWorkflowDefinition::new("test_workflow", steps);

    assert_eq!(definition.name, "test_workflow");
    assert_eq!(definition.step_count(), 2);
    assert!(definition.is_valid());
}

#[test]
fn test_const_workflow_executor() {
    let mut executor = ConstWorkflowExecutor::new();

    let steps = vec![ConstWorkflowStep::new(1, "step1", 30, 3)];

    let definition = ConstWorkflowDefinition::new("test_workflow", steps);
    executor.register_workflow("test".to_string(), definition);

    let result = executor.start_execution("exec1".to_string(), "test");
    assert!(result.is_ok());

    let state = executor.get_execution_state("exec1").unwrap();
    assert_eq!(state.workflow_id, "exec1");
    assert_eq!(state.current_step, 0);

    let complete_result = executor.complete_execution("exec1");
    assert!(complete_result.is_ok());

    let missing = executor.start_execution("exec2".to_string(), "nope");
    assert_eq!(missing.unwrap_err(), "Workflow 'nope' not found");
    let not_tracked = executor.complete_execution("exec9");
    assert_eq!(not_tracked.unwrap_err(), "Execution 'exec9' not found");

    // A finished execution stays finished: completing it again is a
    // no-op and restarting it under the same id is refused.
    assert!(executor.complete_execution("exec1").is_ok());
    let restarted = executor.start_execution("exec1".to_string(), "test");
    assert_eq!(restarted.unwrap_err(), "Execution 'exec1' already finished");
}

#[test]
fn test_const_workflow_monitor() {
    let mut monitor = ConstWorkflowMonitor::new();

    let metrics = WorkflowMetrics {
        total_executions: 100,
        successful_executions: 95,
        failed_executions: 5,
        average_execution_time_ms: 10_000,
    };

    monitor.record_metrics("test_workflow".to_string(), metrics);

    let stats = monitor.get_overall_stats();
    assert_eq!(stats.total_workflows, 1);
    assert_eq!(stats.total_executions, 100);
    assert_eq!(stats.success_rate_permille, 950);
}

#[test]
fn test_jit_optimized_processor() {
    let mut processor = JITOptimizedProcessor::new(vec![1, 2, 3, 4, 5, -1, -2]);
    let result = processor.process_data();
    assert_eq!(result, vec![2, 4, 6, 8, 10]);
}

#[test]
fn test_jit_cache_returns_stored_value() {
    let mut processor = JITOptimizedProcessor::new(vec![1, 2, 3]);
    let first = processor.process_with_cache("sum".to_string());
    assert_eq!(first, 12);
    let cached = processor.process_with_cache("sum".to_string());
    assert_eq!(cached, 12);
}

#[test]
fn test_small_object_manager() {
    let mut manager = SmallObjectManager::new();
    manager.create_objects(100);
    let stats = manager.get_stats();
    assert_eq!(stats.total_objects, 100);
}

#[test]
fn test_small_object_labels() {
    let mut manager = SmallObjectManager::new();
    manager.create_objects(12);
    // The labels render the running number in decimal.
    assert_eq!(manager.objects()[0].metadata, "object_0");
    assert_eq!(manager.objects()[11].metadata, "object_11");
}

#[test]
fn test_buf_read_skip_while() {
    let mut processor = BufReadProcessor::new(b"   hello world".to_vec());

    let skipped = processor.skip_whitespace().unwrap();
    assert_eq!(skipped, 3);

    let mut processor2 = BufReadProcessor::new(b"   hello world".to_vec());
    let line = processor2.read_line_skip_whitespace().unwrap();
    assert_eq!(line, "hello world");

    let mut processor3 = BufReadProcessor::new(b"\t  abc".to_vec());
    let skipped3 = processor3.skip_whitespace_iter().unwrap();
    assert_eq!(skipped3, 3);
}

#[test]
fn test_buf_read_skip_digits() {
    let mut processor = BufReadProcessor::new(b"123test\nrest".to_vec());
    assert_eq!(processor.skip_digits().unwrap(), 3);
    // The first line is consumed; the next read works on the rest.
    assert_eq!(processor.skip_digits().unwrap(), 0);
}

#[test]
fn test_control_flow_processor() {
    let mut processor = ControlFlowProcessor::new(vec![1, 2, 3, 4, 5]);

    let result = processor.process_with_control_flow(3).unwrap();
    assert_eq!(result, Some(3));

    let conditional_results = processor
        .process_conditionally(|x| {
            if x > 3 {
                std::ops::ControlFlow::Break(())
            } else {
                std::ops::ControlFlow::Continue(x * 2)
            }
        })
        .unwrap();

    assert_eq!(conditional_results, vec![2, 4, 6]);
}

#[test]
fn test_control_flow_search_misses() {
    let mut processor = ControlFlowProcessor::new(vec![1, 2, 3]);
    assert_eq!(processor.process_with_control_flow(9).unwrap(), None);
    // The cursor is exhausted afterwards.
    assert_eq!(processor.process_with_control_flow(1).unwrap(), None);
}

#[test]
fn test_debug_list_processor() {
    let mut processor = DebugListProcessor::new(2);

    processor.add_item(DebugItem {
        id: 1,
        name: "item1".to_string(),
        value: 100,
    });

    processor.add_item(DebugItem {
        id: 2,
        name: "item2".to_string(),
        value: 200,
    });

    processor.add_item(DebugItem {
        id: 3,
        name: "item3".to_string(),
        value: 300,
    });

    let debug_output = processor.format_debug_output();
    assert!(debug_output.contains("item1"));
    assert!(debug_output.contains("item2"));
    assert!(debug_output.contains(".."));
    assert!(!debug_output.contains("item3"));
    assert_eq!(debug_output, "DebugListProcessor([item1, item2, ..])");

    let stats = processor.get_stats();
    assert_eq!(stats.total_items, 3);
    assert_eq!(stats.displayed_items, 2);
    assert_eq!(stats.hidden_items, 1);
}

#[test]
fn test_stable_api_workflow_engine() {
    let mut engine = StableAPIWorkflowEngine::new();

    let workflow = WorkflowDefinition {
        name: "test_workflow".to_string(),
        steps: vec![
            WorkflowStep {
                name: "step1".to_string(),
                action: "process".to_string(),
                input: "input1".to_string(),
                output: "output1".to_string(),
            },
            WorkflowStep {
                name: "step2".to_string(),
                action: "process".to_string(),
                input: "input2".to_string(),
                output: "output2".to_string(),
            },
        ],
        config: WorkflowConfig {
            timeout: 30,
            retries: 3,
            enable_debug: true,
        },
    };

    engine.register_workflow("test".to_string(), workflow);

    let result = engine.execute_workflow("test").unwrap();
    assert_eq!(result.workflow_name, "test");
    assert!(result.skipped_chars > 0);
    assert!(!result.processed_steps.is_empty());

    let debug_output = engine.get_debug_output();
    assert!(!debug_output.is_empty());

    assert!(engine.execute_workflow("missing").is_err());
}

#[test]
fn test_session_creation() {
    let mut engine = SessionTypesWorkflowEngine::new();

    let participants = vec![
        Participant {
            id: "participant1".to_string(),
            role: ParticipantRole::Initiator,
            endpoint: "endpoint1".to_string(),
        },
        Participant {
            id: "participant2".to_string(),
            role: ParticipantRole::Responder,
            endpoint: "endpoint2".to_string(),
        },
    ];

    let session_id = engine
        .create_session(SessionProtocol::RequestResponse, participants)
        .unwrap();

    assert!(!session_id.is_empty());
    assert_eq!(engine.get_session_state(&session_id), Some(&SessionState::Initial));
}

#[test]
fn test_session_lifecycle() {
    let mut engine = SessionTypesWorkflowEngine::new();

    let participants = vec![Participant {
        id: "participant1".to_string(),
        role: ParticipantRole::Initiator,
        endpoint: "endpoint1".to_string(),
    }];

    let session_id = engine
        .create_session(SessionProtocol::RequestResponse, participants)
        .unwrap();

    engine.start_session(&session_id).unwrap();
    assert_eq!(engine.get_session_state(&session_id), Some(&SessionState::Active));

    engine.complete_session(&session_id).unwrap();
    assert_eq!(engine.get_session_state(&session_id), Some(&SessionState::Completed));
}

#[test]
fn test_session_ids_are_sequential() {
    let mut engine = SessionTypesWorkflowEngine::new();
    let first = engine
        .create_session(SessionProtocol::Stream, Vec::new())
        .unwrap();
    let second = engine
        .create_session(SessionProtocol::Stream, Vec::new())
        .unwrap();
    assert_eq!(first, "session_1");
    assert_eq!(second, "session_2");
}

#[test]
fn test_workflow_validation() {
    let mut workflow = SessionTypesWorkflow::new(
        "test_workflow".to_string(),
        WorkflowProtocol::Sequential,
    );

    workflow.add_participant(Participant {
        id: "participant1".to_string(),
        role: ParticipantRole::Initiator,
        endpoint: "endpoint1".to_string(),
    });

    workflow.add_step(workflow::session_types::WorkflowStep {
        name: "step1".to_string(),
        action: "process".to_string(),
        input_type: "string".to_string(),
        output_type: "string".to_string(),
        timeout_ms: 1000,
    });

    assert!(workflow.validate().is_ok());
}

#[test]
fn test_workflow_validation_empty_steps() {
    let workflow = SessionTypesWorkflow::new(
        "test_workflow".to_string(),
        WorkflowProtocol::Sequential,
    );

    assert!(workflow.validate().is_err());
}

#[test]
fn test_workflow_validation_unnamed_step() {
    let mut workflow = SessionTypesWorkflow::new(
        "test_workflow".to_string(),
        WorkflowProtocol::Sequential,
    );
    workflow.add_participant(Participant {
        id: "p".to_string(),
        role: ParticipantRole::Initiator,
        endpoint: "e".to_string(),
    });
    workflow.add_step(workflow::session_types::WorkflowStep {
        name: "".to_string(),
        action: "process".to_string(),
        input_type: "string".to_string(),
        output_type: "string".to_string(),
        timeout_ms: 1000,
    });
    let err = workflow.validate().unwrap_err();
    assert_eq!(err, "Step 0 must have a name");
}

#[test]
fn test_session_metrics() {
    let mut monitor = SessionTypesMonitor::new();

    let metrics = SessionMetrics {
        session_id: "session1".to_string(),
        messages_sent: 10,
        messages_received: 8,
        errors: 1,
        duration_ms: 5000,
        state_transitions: 3,
    };

    monitor.record_metrics("session1".to_string(), metrics);

    let retrieved_metrics = monitor.get_metrics("session1").unwrap();
    assert_eq!(retrieved_metrics.messages_sent, 10);
    assert_eq!(retrieved_metrics.errors, 1);
}

#[test]
fn test_performance_monitor() {
    let mut monitor = PerformanceMonitor::new();

    let metrics = PerformanceMetrics {
        operation_name: "test_operation".to_string(),
        execution_time_ms: 100,
        memory_usage: 1024,
        cpu_usage_permille: 500,
        throughput_milli: 100_000,
        error_count: 0,
    };

    monitor.record_metrics(metrics);

    let retrieved_metrics = monitor.get_metrics("test_operation").unwrap();
    assert_eq!(retrieved_metrics.operation_name, "test_operation");
    assert_eq!(retrieved_metrics.execution_time_ms, 100);

    let stats = monitor.get_overall_stats();
    assert_eq!(stats.total_operations, 1);
    assert_eq!(stats.total_memory_usage, 1024);
    assert_eq!(stats.total_errors, 0);
    assert_eq!(stats.average_throughput_milli, 100_000);
}

#[test]
fn test_high_performance_workflow_engine() {
    let mut engine = HighPerformanceWorkflowEngine::new();

    let workflow = PerformanceWorkflowDefinition {
        name: "test_workflow".to_string(),
        steps: vec![
            PerformanceWorkflowStep {
                name: "step1".to_string(),
                action: "process".to_string(),
                timeout_ms: 10,
                retries: 3,
            },
            PerformanceWorkflowStep {
                name: "step2".to_string(),
                action: "complete".to_string(),
                timeout_ms: 10,
                retries: 3,
            },
        ],
        timeout_ms: 30_000,
        retries: 3,
        priority: 1,
    };

    engine.register_workflow("test".to_string(), workflow);

    let execution_id = "exec1".to_string();
    engine.start_execution("test", execution_id.clone()).unwrap();

    engine.execute_step(&execution_id, 0).unwrap();
    engine.execute_step(&execution_id, 1).unwrap();

    let status = engine.get_execution_status(&execution_id).unwrap();
    assert!(matches!(status, PerformanceExecutionStatus::Completed));

    let stats = engine.get_performance_stats();
    assert!(stats.total_operations > 0);

    assert!(engine.start_execution("missing", "exec2".to_string()).is_err());
    assert!(engine.execute_step("exec9", 0).is_err());
    assert!(engine.execute_step(&execution_id, 2).is_err());
}

#[test]
fn test_cancel_execution_is_sticky_state() {
    let mut engine = HighPerformanceWorkflowEngine::new();
    let workflow = PerformanceWorkflowDefinition {
        name: "wf".to_string(),
        steps: vec![PerformanceWorkflowStep {
            name: "s".to_string(),
            action: "a".to_string(),
            timeout_ms: 1,
            retries: 0,
        }],
        timeout_ms: 10,
        retries: 0,
        priority: 0,
    };
    engine.register_workflow("wf".to_string(), workflow);
    engine.start_execution("wf", "e1".to_string()).unwrap();
    engine.cancel_execution("e1").unwrap();
    let status = engine.get_execution_status("e1").unwrap();
    assert!(matches!(status, PerformanceExecutionStatus::Cancelled));
    let missing = engine.cancel_execution("e9");
    assert_eq!(missing.unwrap_err(), "Execution 'e9' not found");
    // A finished execution stays as it is: cancelling a completed one
    // does not overwrite its terminal status, running another step or
    // restarting it is refused.
    engine.start_execution("wf", "e2".to_string()).unwrap();
    engine.execute_step("e2", 0).unwrap();
    assert!(matches!(
        engine.get_execution_status("e2").unwrap(),
        PerformanceExecutionStatus::Completed
    ));
    engine.cancel_execution("e2").unwrap();
    assert!(matches!(
        engine.get_execution_status("e2").unwrap(),
        PerformanceExecutionStatus::Completed
    ));
    let stepped = engine.execute_step("e2", 0);
    assert_eq!(stepped.unwrap_err(), "Execution 'e2' already finished");
    let restarted = engine.start_execution("wf", "e2".to_string());
    assert_eq!(restarted.unwrap_err(), "Execution 'e2' already finished");
}

#[test]
fn test_performance_benchmark() {
    let mut benchmark = PerformanceBenchmark::new();

    benchmark.generate_test_data(1000, 1024);
    assert_eq!(benchmark.get_test_data_count(), 1000);

    assert!(benchmark.get_average_performance().is_none());
    benchmark.record_result(BenchmarkResult {
        test_name: "run-a".to_string(),
        execution_time_ms: 100,
        memory_usage: 1000,
        throughput_milli: 4000,
        error_count: 0,
    });
    benchmark.record_result(BenchmarkResult {
        test_name: "run-b".to_string(),
        execution_time_ms: 300,
        memory_usage: 3000,
        throughput_milli: 2000,
        error_count: 2,
    });
    let average = benchmark.get_average_performance().unwrap();
    assert_eq!(average.test_name, "average");
    assert_eq!(average.execution_time_ms, 200);
    assert_eq!(average.memory_usage, 2000);
    assert_eq!(average.throughput_milli, 3000);
    assert_eq!(average.error_count, 1);
    assert_eq!(benchmark.get_all_results().len(), 2);
}

#[test]
fn test_async_stream_processor() {
    let mut processor = AsyncStreamProcessor::new(10);

    let data = AsyncData {
        id: 1,
        content: "test".to_string(),
        timestamp_ms: 0,
        priority: 1,
    };

    processor.add_data(data);
    processor.add_data(AsyncData {
        id: 2,
        content: "another_task".to_string(),
        timestamp_ms: 0,
        priority: 0,
    });
    let results = processor.create_stream();

    // Only records with positive priority come through, uppercased.
    assert_eq!(results.len(), 1);
    assert_eq!(results[0].content, "TEST");
}

#[test]
fn test_async_stream_monitor() {
    let mut monitor = AsyncStreamMonitor::new();

    let metrics = StreamMetrics {
        total_items: 100,
        processed_items: 95,
        failed_items: 5,
        average_processing_time_ms: 50,
        throughput_milli: 1_000_000,
    };

    monitor.record_metrics("test_stream".to_string(), metrics);
    let stats = monitor.get_overall_stats();

    assert_eq!(stats.total_streams, 1);
    assert_eq!(stats.total_items, 100);
    assert_eq!(stats.success_rate_permille, 950);
}

#[test]
fn test_type_checker_optimized() {
    let mut checker = TypeCheckerOptimized::new();
    let module_info = ModuleInfo {
        name: "test_module".to_string(),
        dependencies: vec!["dep1".to_string()],
        size: 1024,
        complexity: 10,
    };

    checker.add_module("test".to_string(), module_info);
    let stats = checker.get_compilation_stats();
    assert_eq!(stats.total_modules, 1);
    assert_eq!(stats.total_size, 1024);
    assert_eq!(stats.total_complexity, 10);
    assert_eq!(stats.average_complexity_milli, 10_000);
}

#[test]
fn test_workflow_engine() {
    let mut engine = Rust190WorkflowEngine::new();
    let result = engine.execute_workflow().unwrap();
    assert!(!result.processed_data.is_empty());
    assert_eq!(result.processed_data, vec![2, 4, 6, 8, 10]);
    assert_eq!(result.object_stats.total_objects, 1000);
}
