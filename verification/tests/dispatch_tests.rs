use nexus_engine::dispatch::CommandPlan;
use nexus_engine::dispatch::ExecutionPlan;
use nexus_engine::dispatch::GenericCodePlan;
use nexus_engine::dispatch::ParamEntry;
use nexus_engine::dispatch::RunResult;
use nexus_engine::dispatch::ShellKind;
use nexus_engine::dispatch::ToolIdKind;
use nexus_engine::dispatch::classify_tool_id;
use nexus_engine::dispatch::dispatch_configured_tool;
use nexus_engine::dispatch::extract_args_and_stdin;
use nexus_engine::dispatch::finalize_generic_run;
use nexus_engine::dispatch::generic_code_plan;
use nexus_engine::dispatch::get_extension_from_content_type;
use nexus_engine::dispatch::get_runtime_from_extension;
use nexus_engine::dispatch::shell_command_plan;
use nexus_engine::dispatch::temp_script_path;
use nexus_engine::dispatch::tool_terminal_event;
use nexus_engine::dispatch::webhook_execution_url;
use nexus_engine::error::AppError;
use nexus_engine::events::UiEvent;
use nexus_engine::models::ConfiguredTool;
use nexus_engine::models::ExecutionSettings;
use nexus_engine::models::ToolInputSource;
use nexus_engine::models::ToolOutputHandling;
use nexus_engine::models::ToolRuntime;
use nexus_engine::process::ProcessExit;

fn entry(key: &str, value: &str) -> ParamEntry {
    ParamEntry { key: String::from(key), value: String::from(value) }
}

fn tool(runtime: ToolRuntime, script: Option<&str>, webhook: Option<&str>) -> ConfiguredTool {
    ConfiguredTool {
        id: String::from("tool-1"),
        name: String::from("a tool"),
        description: String::from("does things"),
        script_path: script.map(String::from),
        webhook_url: webhook.map(String::from),
        webhook_method: None,
        webhook_headers: None,
        webhook_body_template: None,
        input_schema: None,
        runtime,
        parameters: Vec::new(),
        show_in_copilot: false,
        is_favorite: false,
        input_source: ToolInputSource::UserInput,
        requires_ai_pre_processing: false,
        pre_processing_prompt: String::new(),
        output_handling: ToolOutputHandling::RawText,
        requires_ai_post_processing: false,
        post_processing_prompt: String::new(),
    }
}

fn settings(python: &str, node: &str, wd: &str) -> ExecutionSettings {
    ExecutionSettings {
        python_path: String::from(python),
        node_path: String::from(node),
        working_directory: String::from(wd),
        auto_start_backend: false,
        backend_url: String::from("http://127.0.0.1:8008"),
    }
}

#[test]
fn params_become_flag_value_pairs_in_order() {
    let params = vec![entry("city", "Paris"), entry("empty", ""), entry("stdin", "payload")];
    let (args, stdin) = extract_args_and_stdin(&params);
    assert_eq!(args, vec![String::from("--city"), String::from("Paris")]);
    assert_eq!(stdin.as_deref(), Some("payload"));
}

#[test]
fn last_stdin_key_wins() {
    let params = vec![entry("stdin", "first"), entry("stdin", "second")];
    let (args, stdin) = extract_args_and_stdin(&params);
    assert!(args.is_empty());
    assert_eq!(stdin.as_deref(), Some("second"));
}

#[test]
fn runtime_follows_the_file_extension() {
    assert_eq!(get_runtime_from_extension(Some("py")), ToolRuntime::Python);
    assert_eq!(get_runtime_from_extension(Some("js")), ToolRuntime::Node);
    assert_eq!(get_runtime_from_extension(Some("sh")), ToolRuntime::Shell);
    assert_eq!(get_runtime_from_extension(Some("bat")), ToolRuntime::Shell);
    assert_eq!(get_runtime_from_extension(Some("txt")), ToolRuntime::Shell);
    assert_eq!(get_runtime_from_extension(None), ToolRuntime::Shell);
}

#[test]
fn extension_follows_the_content_type() {
    assert_eq!(get_extension_from_content_type(Some("video/mp4")), "mp4");
    assert_eq!(get_extension_from_content_type(Some("video/webm; codecs=vp9")), "webm");
    assert_eq!(get_extension_from_content_type(Some("image/jpeg")), "jpg");
    assert_eq!(get_extension_from_content_type(Some("image/gif")), "gif");
    assert_eq!(get_extension_from_content_type(Some("audio/mpeg")), "mp3");
    assert_eq!(get_extension_from_content_type(Some("audio/wav")), "wav");
    assert_eq!(get_extension_from_content_type(Some("image/png")), "png");
    assert_eq!(get_extension_from_content_type(Some("audio/flac")), "mp3");
    assert_eq!(get_extension_from_content_type(Some("text/plain")), "bin");
    assert_eq!(get_extension_from_content_type(None), "bin");
}

#[test]
fn python_tool_uses_configured_interpreter_and_script() {
    let t = tool(ToolRuntime::Python, Some("/scripts/run.py"), None);
    let params = vec![entry("q", "v")];
    let plan = dispatch_configured_tool(&t, &settings("/opt/python3", "", "/work"), &params, ShellKind::Posix)
        .expect("plan");
    match plan {
        ExecutionPlan::RunCommand(c) => {
            assert_eq!(c.program, "/opt/python3");
            assert_eq!(
                c.args,
                vec![String::from("/scripts/run.py"), String::from("--q"), String::from("v")]
            );
            assert_eq!(c.working_dir.as_deref(), Some("/work"));
            assert!(c.stdin_payload.is_none());
        }
        other => panic!("expected RunCommand, got {:?}", other),
    }
}

#[test]
fn unconfigured_interpreter_falls_back_to_bare_name() {
    let t = tool(ToolRuntime::Node, Some("/scripts/run.js"), None);
    let plan =
        dispatch_configured_tool(&t, &settings("", "", ""), &Vec::new(), ShellKind::Posix).expect("plan");
    match plan {
        ExecutionPlan::RunCommand(c) => {
            assert_eq!(c.program, "node");
            assert!(c.working_dir.is_none());
        }
        other => panic!("expected RunCommand, got {:?}", other),
    }
}

#[test]
fn shell_tool_runs_through_the_platform_shell() {
    let t = tool(ToolRuntime::Shell, Some("/scripts/run.sh"), None);
    let plan =
        dispatch_configured_tool(&t, &settings("", "", ""), &Vec::new(), ShellKind::Posix).expect("plan");
    match plan {
        ExecutionPlan::RunCommand(c) => {
            assert_eq!(c.program, "sh");
            assert_eq!(c.args, vec![String::from("/scripts/run.sh")]);
        }
        other => panic!("expected RunCommand, got {:?}", other),
    }
}

#[test]
fn webhook_tool_bypasses_the_process_task() {
    let t = tool(ToolRuntime::Webhook, None, Some("https://hooks.example/run"));
    let plan =
        dispatch_configured_tool(&t, &settings("", "", ""), &Vec::new(), ShellKind::Posix).expect("plan");
    match plan {
        ExecutionPlan::CallWebhook { execution_url, target_url } => {
            assert_eq!(execution_url, "http://127.0.0.1:8008/api/v1/tools/execute-webhook-tool");
            assert_eq!(target_url, "https://hooks.example/run");
        }
        other => panic!("expected CallWebhook, got {:?}", other),
    }
}

#[test]
fn missing_script_path_is_a_configuration_error() {
    let t = tool(ToolRuntime::Python, None, None);
    let err = dispatch_configured_tool(&t, &settings("", "", ""), &Vec::new(), ShellKind::Posix)
        .expect_err("error");
    match err {
        AppError::Config(m) => assert_eq!(m, "Tool is Python runtime but has no script_path"),
        other => panic!("expected Config, got {:?}", other),
    }
}

#[test]
fn missing_webhook_url_is_a_configuration_error() {
    let t = tool(ToolRuntime::Webhook, None, None);
    let err = dispatch_configured_tool(&t, &settings("", "", ""), &Vec::new(), ShellKind::Posix)
        .expect_err("error");
    assert!(matches!(err, AppError::Config(_)));
}

#[test]
fn webhook_url_is_built_from_the_backend() {
    assert_eq!(
        webhook_execution_url("http://localhost:9000"),
        "http://localhost:9000/api/v1/tools/execute-webhook-tool"
    );
}

#[test]
fn shell_plans_quote_the_command_behind_the_shell_flag() {
    let p = shell_command_plan("echo hi", ShellKind::Posix);
    assert_eq!(p.program, "sh");
    assert_eq!(p.args, vec![String::from("-c"), String::from("echo hi")]);
    let w = shell_command_plan("echo hi", ShellKind::Windows);
    assert_eq!(w.program, "cmd");
    assert_eq!(w.args, vec![String::from("/C"), String::from("echo hi")]);
}

#[test]
fn generic_python_code_is_materialized_under_the_task_id() {
    let plan = generic_code_plan(
        ToolRuntime::Python,
        "print('hi')",
        "task-42",
        &settings("", "", ""),
        "/tmp",
        ShellKind::Posix,
    )
    .expect("plan");
    match plan {
        GenericCodePlan::TempScript { script_path, contents, command } => {
            assert_eq!(script_path, "/tmp/task-42.py");
            assert_eq!(contents, "print('hi')");
            assert_eq!(command.program, "python");
            assert_eq!(command.args, vec![String::from("/tmp/task-42.py")]);
        }
        other => panic!("expected TempScript, got {:?}", other),
    }
}

#[test]
fn generic_node_code_prefers_the_working_directory() {
    let plan = generic_code_plan(
        ToolRuntime::Node,
        "console.log(1)",
        "task-7",
        &settings("", "/opt/node", "/work"),
        "/tmp",
        ShellKind::Posix,
    )
    .expect("plan");
    match plan {
        GenericCodePlan::TempScript { script_path, command, .. } => {
            assert_eq!(script_path, "/work/task-7.js");
            assert_eq!(command.program, "/opt/node");
            assert_eq!(command.working_dir.as_deref(), Some("/work"));
        }
        other => panic!("expected TempScript, got {:?}", other),
    }
}

#[test]
fn generic_shell_code_runs_directly() {
    let plan = generic_code_plan(
        ToolRuntime::Shell,
        "ls",
        "task-9",
        &settings("", "", ""),
        "/tmp",
        ShellKind::Posix,
    )
    .expect("plan");
    assert!(matches!(plan, GenericCodePlan::Direct(_)));
}

#[test]
fn generic_webhook_code_is_rejected() {
    let err = generic_code_plan(
        ToolRuntime::Webhook,
        "x",
        "task-10",
        &settings("", "", ""),
        "/tmp",
        ShellKind::Posix,
    )
    .expect_err("error");
    match err {
        AppError::Internal(m) => assert_eq!(m, "Webhook runtime cannot be executed directly."),
        other => panic!("expected Internal, got {:?}", other),
    }
}

fn temp_plan() -> GenericCodePlan {
    GenericCodePlan::TempScript {
        script_path: String::from("/tmp/task-1.py"),
        contents: String::from("print(1)"),
        command: CommandPlan {
            program: String::from("python"),
            args: vec![String::from("/tmp/task-1.py")],
            stdin_payload: None,
            working_dir: None,
        },
    }
}

#[test]
fn temp_script_is_deleted_after_a_successful_run() {
    let result = RunResult::Completed {
        stdout_lines: vec![String::from("1")],
        stderr_lines: Vec::new(),
        exit: ProcessExit::Code(0),
    };
    let (events, cleanup) = finalize_generic_run("task-1", &temp_plan(), &result);
    assert_eq!(cleanup, vec![String::from("/tmp/task-1.py")]);
    assert!(matches!(events.last().unwrap(), UiEvent::ToolComplete { .. }));
}

#[test]
fn temp_script_is_deleted_after_a_failing_run() {
    let result = RunResult::Completed {
        stdout_lines: Vec::new(),
        stderr_lines: vec![String::from("trace")],
        exit: ProcessExit::Code(1),
    };
    let (events, cleanup) = finalize_generic_run("task-1", &temp_plan(), &result);
    assert_eq!(cleanup, vec![String::from("/tmp/task-1.py")]);
    assert!(matches!(events.last().unwrap(), UiEvent::ToolError { .. }));
}

#[test]
fn temp_script_is_deleted_even_when_the_spawn_fails() {
    let result = RunResult::SpawnFailed {
        error: AppError::Io(String::from("missing interpreter")),
    };
    let (events, cleanup) = finalize_generic_run("task-1", &temp_plan(), &result);
    assert_eq!(cleanup, vec![String::from("/tmp/task-1.py")]);
    assert_eq!(events.len(), 1);
    assert!(matches!(&events[0], UiEvent::ToolError { .. }));
}

#[test]
fn direct_runs_leave_nothing_to_delete() {
    let plan = GenericCodePlan::Direct(shell_command_plan("ls", ShellKind::Posix));
    let result = RunResult::Completed {
        stdout_lines: Vec::new(),
        stderr_lines: Vec::new(),
        exit: ProcessExit::Code(0),
    };
    let (_events, cleanup) = finalize_generic_run("task-2", &plan, &result);
    assert!(cleanup.is_empty());
}

#[test]
fn tool_ids_classify_by_the_built_in_prefix() {
    assert_eq!(classify_tool_id("built_in::find_file"), ToolIdKind::BuiltInFindFile);
    assert_eq!(classify_tool_id("built_in::save_to_kb"), ToolIdKind::BuiltInSaveToKb);
    assert_eq!(classify_tool_id("built_in::other"), ToolIdKind::BuiltInUnknown);
    assert_eq!(classify_tool_id("my-tool"), ToolIdKind::Configured);
}

#[test]
fn terminal_event_follows_the_result() {
    match tool_terminal_event("t", Ok(String::from("done"))) {
        UiEvent::ToolComplete { task_id, payload } => {
            assert_eq!(task_id, "t");
            assert_eq!(payload, "done");
        }
        other => panic!("expected ToolComplete, got {:?}", other),
    }
    match tool_terminal_event("t", Err(AppError::Internal(String::from("bad")))) {
        UiEvent::ToolError { payload, .. } => assert_eq!(payload, "Internal error: bad"),
        other => panic!("expected ToolError, got {:?}", other),
    }
}

#[test]
fn temp_paths_are_assembled_from_their_parts() {
    assert_eq!(temp_script_path("/tmp", "abc", "py"), "/tmp/abc.py");
}
