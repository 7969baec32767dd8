use nexus_engine::error::AppError;
use nexus_engine::events::UiEvent;
use nexus_engine::intent::get_suggestions_for_context;
use nexus_engine::models::ToolRuntime;
use nexus_engine::tools::dynamic_tool_from_script;
use nexus_engine::tools::file_name_matches;
use nexus_engine::tools::find_file_report;
use nexus_engine::tools::webhook_outcome;

#[test]
fn webhook_success_forwards_the_result_once() {
    let body = "{\"result\": {\"answer\": 42}}";
    let (events, result) = webhook_outcome("t1", true, body);
    let expected = "{\n  \"answer\": 42\n}";
    assert_eq!(result.unwrap(), expected);
    assert_eq!(events.len(), 1);
    match &events[0] {
        UiEvent::ToolOutput { task_id, chunk } => {
            assert_eq!(task_id, "t1");
            assert_eq!(chunk, expected);
        }
        other => panic!("expected ToolOutput, got {:?}", other),
    }
}

#[test]
fn webhook_envelope_without_result_renders_null() {
    let (_events, result) = webhook_outcome("t2", true, "{\"other\": 1}");
    assert_eq!(result.unwrap(), "null");
}

#[test]
fn webhook_failure_status_carries_the_body() {
    let (events, result) = webhook_outcome("t3", false, "backend exploded");
    assert!(events.is_empty());
    match result.expect_err("error") {
        AppError::Internal(m) => {
            assert_eq!(m, "Backend webhook executor failed: backend exploded");
        }
        other => panic!("expected Internal, got {:?}", other),
    }
}

#[test]
fn webhook_body_that_is_not_json_is_a_client_error() {
    let (events, result) = webhook_outcome("t4", true, "<html>oops</html>");
    assert!(events.is_empty());
    assert!(matches!(result.expect_err("error"), AppError::ApiClient(_)));
}

#[test]
fn script_metadata_block_becomes_a_tool() {
    let content = "#!/usr/bin/env python\n\
                   ### NEXUS-TOOL ###\n\
                   # {\"name\": \"Greeter\",\n\
                   #  \"description\": \"Says hello\"}\n\
                   ### NEXUS-TOOL-END ###\n\
                   print('hi')\n";
    let tool = dynamic_tool_from_script("/scripts/greet.py", Some("py"), content)
        .expect("parsed")
        .expect("tool");
    assert_eq!(tool.name, "Greeter");
    assert_eq!(tool.description, "Says hello");
    assert_eq!(tool.id, "dynamic::/scripts/greet.py");
    assert_eq!(tool.script_path, "/scripts/greet.py");
    assert_eq!(tool.runtime, ToolRuntime::Python);
}

#[test]
fn script_without_metadata_is_no_tool() {
    let content = "#!/bin/sh\necho hi\n";
    assert!(dynamic_tool_from_script("/scripts/plain.sh", Some("sh"), content)
        .expect("parsed")
        .is_none());
}

#[test]
fn malformed_metadata_is_a_parse_error() {
    let content = "### NEXUS-TOOL ###\n# not json at all\n### NEXUS-TOOL-END ###\n";
    let err = dynamic_tool_from_script("/scripts/bad.js", Some("js"), content)
        .expect_err("error");
    match err {
        AppError::Parse(m) => assert_eq!(m, "Failed to parse tool metadata for /scripts/bad.js"),
        other => panic!("expected Parse, got {:?}", other),
    }
}

#[test]
fn metadata_runtime_follows_the_extension() {
    let content = "### NEXUS-TOOL ###\n# {\"name\": \"N\", \"description\": \"D\"}\n### NEXUS-TOOL-END ###\n";
    let tool = dynamic_tool_from_script("/s/t.js", Some("js"), content)
        .expect("parsed")
        .expect("tool");
    assert_eq!(tool.runtime, ToolRuntime::Node);
    let tool2 = dynamic_tool_from_script("/s/t.sh", Some("sh"), content)
        .expect("parsed")
        .expect("tool");
    assert_eq!(tool2.runtime, ToolRuntime::Shell);
}

#[test]
fn file_matching_folds_case_on_both_sides() {
    assert!(file_name_matches("Quarterly-Report.PDF", "report"));
    assert!(file_name_matches("notes.md", "NOTES"));
    assert!(!file_name_matches("Quarterly-Report.PDF", "summary"));
}

#[test]
fn file_finder_reports_matches_or_a_fixed_sentence() {
    let found = vec![String::from("/kb/a.md"), String::from("/kb/b.md")];
    assert_eq!(find_file_report("md", &found), "Found files:\n/kb/a.md\n/kb/b.md");
    assert_eq!(
        find_file_report("zip", &Vec::new()),
        "No files found matching 'zip'."
    );
}

#[test]
fn intent_suggestions_list_fixed_actions_and_copilot_tools() {
    let tools = Vec::new();
    let got = get_suggestions_for_context("text", &tools);
    let actions: Vec<&str> = got.iter().map(|s| s.action.as_str()).collect();
    assert_eq!(
        actions,
        vec![
            "ask_ai",
            "built_in::execute",
            "built_in::translate",
            "built_in::find_file",
            "built_in::save_to_kb",
            "built_in::view_clipboard_history",
        ]
    );
    let non_text = get_suggestions_for_context("image", &tools);
    assert_eq!(non_text.len(), 3);
    assert_eq!(non_text[0].label, "Ask AI");
    assert_eq!(non_text[0].icon, "MessageSquare");
}
