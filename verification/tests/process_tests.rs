use nexus_engine::error::AppError;
use nexus_engine::events::UiEvent;
use nexus_engine::process::OutputLine;
use nexus_engine::process::OutputSource;
use nexus_engine::process::ProcessExit;
use nexus_engine::process::code_execution_events;
use nexus_engine::process::process_spawn_failure_events;
use nexus_engine::process::process_task_events;

#[test]
fn successful_run_streams_lines_then_completes_with_full_output() {
    let stdout = vec![String::from("line1"), String::from("line2")];
    let stderr: Vec<String> = Vec::new();
    let (events, outcome) = process_task_events("t1", &stdout, &stderr, ProcessExit::Code(0));
    assert_eq!(events.len(), 3);
    match &events[0] {
        UiEvent::ToolOutput { task_id, chunk } => {
            assert_eq!(task_id, "t1");
            assert_eq!(chunk, "line1\n");
        }
        other => panic!("expected ToolOutput, got {:?}", other),
    }
    match &events[1] {
        UiEvent::ToolOutput { chunk, .. } => assert_eq!(chunk, "line2\n"),
        other => panic!("expected ToolOutput, got {:?}", other),
    }
    match &events[2] {
        UiEvent::ToolComplete { task_id, payload } => {
            assert_eq!(task_id, "t1");
            assert_eq!(payload, "line1\nline2\n");
        }
        other => panic!("expected ToolComplete, got {:?}", other),
    }
    assert_eq!(outcome.stdout_text, "line1\nline2\n");
    assert_eq!(outcome.stderr_text, "");
    assert_eq!(outcome.exit, ProcessExit::Code(0));
}

#[test]
fn failing_run_ends_in_an_error_carrying_stderr() {
    let stdout: Vec<String> = Vec::new();
    let stderr = vec![String::from("boom")];
    let (events, _outcome) = process_task_events("t2", &stdout, &stderr, ProcessExit::Code(1));
    assert_eq!(events.len(), 1);
    match &events[0] {
        UiEvent::ToolError { task_id, payload } => {
            assert_eq!(task_id, "t2");
            assert!(payload.contains("boom"));
            assert_eq!(payload, "Script failed: boom\n");
        }
        other => panic!("expected ToolError, got {:?}", other),
    }
}

#[test]
fn signal_termination_is_a_failure() {
    let stdout = vec![String::from("partial")];
    let stderr: Vec<String> = Vec::new();
    let (events, _outcome) = process_task_events("t3", &stdout, &stderr, ProcessExit::Signal);
    assert!(matches!(events.last().unwrap(), UiEvent::ToolError { .. }));
}

#[test]
fn silent_program_completes_with_empty_result() {
    let none: Vec<String> = Vec::new();
    let (events, outcome) = process_task_events("t4", &none, &none, ProcessExit::Code(0));
    assert_eq!(events.len(), 1);
    match &events[0] {
        UiEvent::ToolComplete { payload, .. } => assert_eq!(payload, ""),
        other => panic!("expected ToolComplete, got {:?}", other),
    }
    assert_eq!(outcome.stdout_text, "");
}

#[test]
fn spawn_failure_is_an_immediate_terminal_error() {
    let err = AppError::Io(String::from("No such file or directory"));
    let events = process_spawn_failure_events("t5", &err);
    assert_eq!(events.len(), 1);
    match &events[0] {
        UiEvent::ToolError { task_id, payload } => {
            assert_eq!(task_id, "t5");
            assert_eq!(payload, "I/O error: No such file or directory");
        }
        other => panic!("expected ToolError, got {:?}", other),
    }
}

#[test]
fn code_execution_tags_stderr_lines_and_reports_success() {
    let lines = vec![
        OutputLine { source: OutputSource::Stdout, line: String::from("out") },
        OutputLine { source: OutputSource::Stderr, line: String::from("warn") },
    ];
    let events = code_execution_events("e1", &lines, ProcessExit::Code(0), "exit status: 0");
    assert_eq!(events.len(), 3);
    match &events[0] {
        UiEvent::CodeExecutionOutput { execution_id, chunk } => {
            assert_eq!(execution_id, "e1");
            assert_eq!(chunk, "out\n");
        }
        other => panic!("expected CodeExecutionOutput, got {:?}", other),
    }
    match &events[1] {
        UiEvent::CodeExecutionOutput { chunk, .. } => assert_eq!(chunk, "[STDERR] warn\n"),
        other => panic!("expected CodeExecutionOutput, got {:?}", other),
    }
    match &events[2] {
        UiEvent::CodeExecutionComplete { success, error, .. } => {
            assert!(success);
            assert!(error.is_none());
        }
        other => panic!("expected CodeExecutionComplete, got {:?}", other),
    }
}

#[test]
fn code_execution_failure_carries_the_status_text() {
    let lines: Vec<OutputLine> = Vec::new();
    let events = code_execution_events("e2", &lines, ProcessExit::Code(3), "exit status: 3");
    assert_eq!(events.len(), 1);
    match &events[0] {
        UiEvent::CodeExecutionComplete { success, error, .. } => {
            assert!(!success);
            assert_eq!(error.as_deref(), Some("Process exited with status: exit status: 3"));
        }
        other => panic!("expected CodeExecutionComplete, got {:?}", other),
    }
}
