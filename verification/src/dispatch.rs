//! The runtime dispatcher: from a configured tool to a concrete task.
//!
//! A tool runs under one of four runtimes: the platform command shell, a
//! Python or Node interpreter resolved from configuration, or a remote
//! webhook executed by the backend.  Ad-hoc source text runs the same way,
//! except that interpreted code is first materialized to a temporary script
//! file named by the task's correlation id, which must be deleted on every
//! exit path.  Everything here is decision logic: the plans say exactly
//! what to spawn or post; the unverified glue performs it.

use vstd::prelude::*;

use crate::error::AppError;
use crate::events::UiEvent;
use crate::events::one_terminal_last;
use crate::models::ConfiguredTool;
use crate::models::ExecutionSettings;
use crate::models::ToolRuntime;
use crate::process::ProcessExit;
use crate::proxy_types::opt_str_view;
use crate::text::spec_contains;
use crate::text::spec_starts_with;
use crate::text::starts_with_str;
use crate::text::str_eq;

verus! {

/// Which platform command shell drives script execution.
#[derive(Clone, Copy, Debug, PartialEq, Eq, Structural)]
pub enum ShellKind {
    Posix,
    Windows,
}

/// One fully resolved child-process invocation.
#[derive(Clone, Debug)]
pub struct CommandPlan {
    pub program: String,
    pub args: Vec<String>,
    pub stdin_payload: Option<String>,
    pub working_dir: Option<String>,
}

/// How one configured tool invocation is to be executed.
#[derive(Clone, Debug)]
pub enum ExecutionPlan {
    /// Spawn a child process.
    RunCommand(CommandPlan),
    /// Bypass the process task: post the tool's URL and parameters to the
    /// backend's webhook executor and treat the response as the result.
    CallWebhook { execution_url: String, target_url: String },
}

/// The runtime a script file runs under, selected by its extension.
pub open spec fn spec_runtime_from_extension(ext: Option<Seq<char>>) -> ToolRuntime {
    match ext {
        Some(e) => {
            if e == "py"@ {
                ToolRuntime::Python
            } else if e == "js"@ {
                ToolRuntime::Node
            } else {
                ToolRuntime::Shell
            }
        },
        None => ToolRuntime::Shell,
    }
}

/// Select a discovered script's runtime from its file extension.
pub fn get_runtime_from_extension(ext: Option<&str>) -> (r: ToolRuntime)
    ensures
        r == spec_runtime_from_extension(match ext {
            Some(e) => Some(e@),
            None => None,
        }),
{
    match ext {
        Some(e) => {
            if str_eq(e, "py") {
                ToolRuntime::Python
            } else if str_eq(e, "js") {
                ToolRuntime::Node
            } else {
                ToolRuntime::Shell
            }
        },
        None => ToolRuntime::Shell,
    }
}

/// The artifact file extension chosen for a response's content type.
pub open spec fn spec_extension_from_content_type(ct: Option<Seq<char>>) -> Seq<char> {
    match ct {
        Some(c) => {
            if spec_contains(c, "video/mp4"@) {
                "mp4"@
            } else if spec_contains(c, "video/webm"@) {
                "webm"@
            } else if spec_contains(c, "image/jpeg"@) {
                "jpg"@
            } else if spec_contains(c, "image/gif"@) {
                "gif"@
            } else if spec_contains(c, "audio/mpeg"@) {
                "mp3"@
            } else if spec_contains(c, "audio/wav"@) {
                "wav"@
            } else if spec_starts_with(c, "image/"@) {
                "png"@
            } else if spec_starts_with(c, "audio/"@) {
                "mp3"@
            } else {
                "bin"@
            }
        },
        None => "bin"@,
    }
}

/// Pick a file extension for a downloaded artifact from its content type.
pub fn get_extension_from_content_type(content_type: Option<&str>) -> (r: &'static str)
    ensures
        r@ == spec_extension_from_content_type(match content_type {
            Some(c) => Some(c@),
            None => None,
        }),
{
    match content_type {
        Some(ct) => {
            if crate::text::contains_str(ct, "video/mp4") {
                "mp4"
            } else if crate::text::contains_str(ct, "video/webm") {
                "webm"
            } else if crate::text::contains_str(ct, "image/jpeg") {
                "jpg"
            } else if crate::text::contains_str(ct, "image/gif") {
                "gif"
            } else if crate::text::contains_str(ct, "audio/mpeg") {
                "mp3"
            } else if crate::text::contains_str(ct, "audio/wav") {
                "wav"
            } else if starts_with_str(ct, "image/") {
                "png"
            } else if starts_with_str(ct, "audio/") {
                "mp3"
            } else {
                "bin"
            }
        },
        None => "bin",
    }
}

/// The interpreter to invoke: the configured path, or the bare command name
/// when none is configured.
pub open spec fn spec_resolved_interpreter(configured: Seq<char>, fallback: Seq<char>) -> Seq<
    char,
> {
    if configured.len() == 0 {
        fallback
    } else {
        configured
    }
}

/// Resolve an interpreter path from configuration, falling back to a bare
/// command name.
pub fn resolve_interpreter(configured: &str, fallback: &str) -> (r: String)
    ensures
        r@ == spec_resolved_interpreter(configured@, fallback@),
{
    if configured.unicode_len() == 0 {
        String::from_str(fallback)
    } else {
        String::from_str(configured)
    }
}

/// One key/value pair of a tool invocation's flat parameter map.
#[derive(Clone, Debug)]
pub struct ParamEntry {
    pub key: String,
    pub value: String,
}

/// The argument list derived from the parameters, in order: each non-empty
/// value that is not the reserved stdin key contributes `--key` and the
/// value.
pub open spec fn spec_args_of(params: Seq<ParamEntry>) -> Seq<Seq<char>>
    decreases params.len(),
{
    if params.len() == 0 {
        Seq::empty()
    } else {
        let head = params[0];
        let tail = spec_args_of(params.drop_first());
        if head.key@ == "stdin"@ {
            tail
        } else if head.value@.len() == 0 {
            tail
        } else {
            seq!["--"@ + head.key@, head.value@] + tail
        }
    }
}

/// The stdin payload designated by the reserved key; the last occurrence
/// wins.
pub open spec fn spec_stdin_of(params: Seq<ParamEntry>) -> Option<Seq<char>>
    decreases params.len(),
{
    if params.len() == 0 {
        None
    } else {
        match spec_stdin_of(params.drop_first()) {
            Some(v) => Some(v),
            None => {
                if params[0].key@ == "stdin"@ {
                    Some(params[0].value@)
                } else {
                    None
                }
            },
        }
    }
}

/// Convert the flat parameter map to an argument list and the optional
/// stdin payload, per the reserved-key convention.
pub fn extract_args_and_stdin(params: &Vec<ParamEntry>) -> (r: (Vec<String>, Option<String>))
    ensures
        r.0.deep_view() == spec_args_of(params@),
        opt_str_view(r.1) == spec_stdin_of(params@),
{
    let mut args: Vec<String> = Vec::new();
    let mut stdin_data: Option<String> = None;
    let mut i: usize = 0;
    proof {
        assert(params@.skip(0) =~= params@);
        assert(args.deep_view() =~= Seq::<Seq<char>>::empty());
    }
    while i < params.len()
        invariant
            i <= params@.len(),
            spec_args_of(params@) == args.deep_view() + spec_args_of(params@.skip(i as int)),
            spec_stdin_of(params@) == (match spec_stdin_of(params@.skip(i as int)) {
                Some(v) => Some(v),
                None => opt_str_view(stdin_data),
            }),
        decreases params@.len() - i,
    {
        proof {
            assert(params@.skip(i as int)[0] == params@[i as int]);
            assert(params@.skip(i as int).drop_first() =~= params@.skip(i as int + 1));
        }
        let ghost pre_args = args.deep_view();
        let p = &params[i];
        if str_eq(p.key.as_str(), "stdin") {
            stdin_data = Some(String::from_str(p.value.as_str()));
        } else if p.value.unicode_len() > 0 {
            let flag = String::from_str("--").concat(p.key.as_str());
            args.push(flag);
            args.push(String::from_str(p.value.as_str()));
            proof {
                assert(args.deep_view() =~= pre_args + seq!["--"@ + p.key@, p.value@]);
                assert(pre_args + (seq!["--"@ + p.key@, p.value@] + spec_args_of(
                    params@.skip(i as int + 1),
                )) =~= args.deep_view() + spec_args_of(params@.skip(i as int + 1)));
            }
        }
        i = i + 1;
    }
    proof {
        assert(params@.skip(params@.len() as int) =~= Seq::<ParamEntry>::empty());
        assert(args.deep_view() + Seq::<Seq<char>>::empty() =~= args.deep_view());
    }
    (args, stdin_data)
}

/// The backend endpoint that executes webhook tools.
pub fn webhook_execution_url(backend_url: &str) -> (r: String)
    ensures
        r@ == backend_url@ + "/api/v1/tools/execute-webhook-tool"@,
{
    String::from_str(backend_url).concat("/api/v1/tools/execute-webhook-tool")
}

/// The backend's chat-completions proxy endpoint.
pub fn chat_completions_url(backend_url: &str) -> (r: String)
    ensures
        r@ == backend_url@ + "/api/v1/proxy/chat/completions"@,
{
    String::from_str(backend_url).concat("/api/v1/proxy/chat/completions")
}

/// The working-directory override: configured only when non-empty.
pub open spec fn spec_working_dir(wd: Seq<char>) -> Option<Seq<char>> {
    if wd.len() == 0 {
        None
    } else {
        Some(wd)
    }
}

fn working_dir_of(settings: &ExecutionSettings) -> (r: Option<String>)
    ensures
        opt_str_view(r) == spec_working_dir(settings.working_directory@),
{
    if settings.working_directory.unicode_len() == 0 {
        None
    } else {
        Some(String::from_str(settings.working_directory.as_str()))
    }
}

/// The command the platform shell runs one command line with.
pub fn shell_command_plan(command: &str, shell: ShellKind) -> (r: CommandPlan)
    ensures
        shell is Posix ==> r.program@ == "sh"@ && r.args.deep_view() == seq!["-c"@, command@],
        shell is Windows ==> r.program@ == "cmd"@ && r.args.deep_view() == seq!["/C"@, command@],
        r.stdin_payload is None,
        r.working_dir is None,
{
    let mut args: Vec<String> = Vec::new();
    let program = match shell {
        ShellKind::Posix => {
            args.push(String::from_str("-c"));
            String::from_str("sh")
        },
        ShellKind::Windows => {
            args.push(String::from_str("/C"));
            String::from_str("cmd")
        },
    };
    args.push(String::from_str(command));
    proof {
        match shell {
            ShellKind::Posix => {
                assert(args.deep_view() =~= seq!["-c"@, command@]);
            },
            ShellKind::Windows => {
                assert(args.deep_view() =~= seq!["/C"@, command@]);
            },
        }
    }
    CommandPlan { program, args, stdin_payload: None, working_dir: None }
}

/// The expected argument list of a configured script tool: the script path,
/// then the parameter-derived arguments (behind the shell's command flag on
/// Windows).
pub open spec fn spec_script_args(
    shell_flag: Option<Seq<char>>,
    script: Seq<char>,
    params: Seq<ParamEntry>,
) -> Seq<Seq<char>> {
    match shell_flag {
        Some(f) => seq![f, script] + spec_args_of(params),
        None => seq![script] + spec_args_of(params),
    }
}

/// Plan the execution of one configured tool under its runtime.
///
/// Returns a configuration error, and no plan, exactly when the tool lacks
/// the field its runtime needs: a script path for the shell and interpreter
/// runtimes, a webhook URL for the webhook runtime.
pub fn dispatch_configured_tool(
    tool: &ConfiguredTool,
    settings: &ExecutionSettings,
    params: &Vec<ParamEntry>,
    shell: ShellKind,
) -> (r: Result<ExecutionPlan, AppError>)
    ensures
        match r {
            Ok(plan) => match tool.runtime {
                ToolRuntime::Python => tool.script_path matches Some(script)
                    && plan matches ExecutionPlan::RunCommand(c) && c.program@
                    == spec_resolved_interpreter(settings.python_path@, "python"@)
                    && c.args.deep_view() == spec_script_args(None, script@, params@)
                    && opt_str_view(c.stdin_payload) == spec_stdin_of(params@)
                    && opt_str_view(c.working_dir) == spec_working_dir(
                    settings.working_directory@,
                ),
                ToolRuntime::Node => tool.script_path matches Some(script)
                    && plan matches ExecutionPlan::RunCommand(c) && c.program@
                    == spec_resolved_interpreter(settings.node_path@, "node"@)
                    && c.args.deep_view() == spec_script_args(None, script@, params@)
                    && opt_str_view(c.stdin_payload) == spec_stdin_of(params@)
                    && opt_str_view(c.working_dir) == spec_working_dir(
                    settings.working_directory@,
                ),
                ToolRuntime::Shell => tool.script_path matches Some(script)
                    && plan matches ExecutionPlan::RunCommand(c) && (shell is Posix ==> c.program@
                    == "sh"@ && c.args.deep_view() == spec_script_args(None, script@, params@))
                    && (shell is Windows ==> c.program@ == "cmd"@ && c.args.deep_view()
                    == spec_script_args(Some("/C"@), script@, params@)) && opt_str_view(
                    c.stdin_payload,
                ) == spec_stdin_of(params@) && c.working_dir is None,
                ToolRuntime::Webhook => tool.webhook_url matches Some(u)
                    && plan matches ExecutionPlan::CallWebhook { execution_url, target_url }
                    && execution_url@ == settings.backend_url@
                    + "/api/v1/tools/execute-webhook-tool"@ && target_url@ == u@,
            },
            Err(e) => e matches AppError::Config(_) && (match tool.runtime {
                ToolRuntime::Webhook => tool.webhook_url is None,
                _ => tool.script_path is None,
            }),
        },
{
    let (args, stdin_data) = extract_args_and_stdin(params);
    match tool.runtime {
        ToolRuntime::Python => {
            match &tool.script_path {
                None => Err(
                    AppError::Config(
                        String::from_str("Tool is Python runtime but has no script_path"),
                    ),
                ),
                Some(script) => {
                    let program = resolve_interpreter(settings.python_path.as_str(), "python");
                    let plan = script_command(program, script.as_str(), None, args, stdin_data);
                    let wd = working_dir_of(settings);
                    Ok(
                        ExecutionPlan::RunCommand(
                            CommandPlan {
                                program: plan.program,
                                args: plan.args,
                                stdin_payload: plan.stdin_payload,
                                working_dir: wd,
                            },
                        ),
                    )
                },
            }
        },
        ToolRuntime::Node => {
            match &tool.script_path {
                None => Err(
                    AppError::Config(
                        String::from_str("Tool is Node runtime but has no script_path"),
                    ),
                ),
                Some(script) => {
                    let program = resolve_interpreter(settings.node_path.as_str(), "node");
                    let plan = script_command(program, script.as_str(), None, args, stdin_data);
                    let wd = working_dir_of(settings);
                    Ok(
                        ExecutionPlan::RunCommand(
                            CommandPlan {
                                program: plan.program,
                                args: plan.args,
                                stdin_payload: plan.stdin_payload,
                                working_dir: wd,
                            },
                        ),
                    )
                },
            }
        },
        ToolRuntime::Shell => {
            match &tool.script_path {
                None => Err(
                    AppError::Config(
                        String::from_str("Tool is Shell runtime but has no script_path"),
                    ),
                ),
                Some(script) => {
                    match shell {
                        ShellKind::Posix => {
                            let plan = script_command(
                                String::from_str("sh"),
                                script.as_str(),
                                None,
                                args,
                                stdin_data,
                            );
                            Ok(ExecutionPlan::RunCommand(plan))
                        },
                        ShellKind::Windows => {
                            let plan = script_command(
                                String::from_str("cmd"),
                                script.as_str(),
                                Some("/C"),
                                args,
                                stdin_data,
                            );
                            Ok(ExecutionPlan::RunCommand(plan))
                        },
                    }
                },
            }
        },
        ToolRuntime::Webhook => {
            match &tool.webhook_url {
                None => Err(
                    AppError::Config(
                        String::from_str("Tool is Webhook runtime but has no webhook_url"),
                    ),
                ),
                Some(u) => Ok(
                    ExecutionPlan::CallWebhook {
                        execution_url: webhook_execution_url(settings.backend_url.as_str()),
                        target_url: String::from_str(u.as_str()),
                    },
                ),
            }
        },
    }
}

/// Assemble a script invocation: program, optional shell flag, the script,
/// then the parameter arguments.
fn script_command(
    program: String,
    script: &str,
    shell_flag: Option<&str>,
    args: Vec<String>,
    stdin_payload: Option<String>,
) -> (r: CommandPlan)
    ensures
        r.program == program,
        r.args.deep_view() == (match shell_flag {
            Some(f) => seq![f@, script@],
            None => seq![script@],
        }) + args.deep_view(),
        r.stdin_payload == stdin_payload,
        r.working_dir is None,
{
    let mut full: Vec<String> = Vec::new();
    match shell_flag {
        Some(f) => {
            full.push(String::from_str(f));
        },
        None => {},
    }
    full.push(String::from_str(script));
    let ghost base = full.deep_view();
    proof {
        match shell_flag {
            Some(f) => {
                assert(base =~~= seq![f@, script@]);
            },
            None => {
                assert(base =~~= seq![script@]);
            },
        }
    }
    let mut rest = args;
    let ghost rest_seq = rest@;
    let ghost rest_deep = rest.deep_view();
    let ghost prefix = full@;
    full.append(&mut rest);
    proof {
        assert forall|j: int| 0 <= j < rest_seq.len() implies full@[prefix.len() + j].deep_view()
            == rest_deep[j] by {
            assert(full@[prefix.len() + j] == rest_seq[j]);
        }
        assert(full.deep_view() =~~= base + rest_deep);
    }
    CommandPlan { program, args: full, stdin_payload, working_dir: None }
}

/// A planned ad-hoc code run: either a direct shell invocation of the
/// source text, or an interpreted run through a temporary script file that
/// must be deleted on every exit path.
#[derive(Clone, Debug)]
pub enum GenericCodePlan {
    /// Run the source text directly through the platform shell.
    Direct(CommandPlan),
    /// Write `contents` to `script_path`, run `command`, and delete the
    /// file whatever happens.
    TempScript { script_path: String, contents: String, command: CommandPlan },
}

/// The directory a temporary script is materialized in: the configured
/// working directory when one is set, else the system's temp directory.
pub open spec fn spec_script_dir(working_directory: Seq<char>, temp_dir: Seq<char>) -> Seq<char> {
    if working_directory.len() == 0 {
        temp_dir
    } else {
        working_directory
    }
}

/// The temporary script's path: named by the task's correlation id, with
/// the runtime's extension, in the chosen directory.
pub open spec fn spec_temp_script_path(
    dir: Seq<char>,
    task_id: Seq<char>,
    extension: Seq<char>,
) -> Seq<char> {
    dir + "/"@ + task_id + "."@ + extension
}

/// Build the uniquely named temporary script path.
pub fn temp_script_path(dir: &str, task_id: &str, extension: &str) -> (r: String)
    ensures
        r@ == spec_temp_script_path(dir@, task_id@, extension@),
{
    let mut out = String::from_str(dir);
    out.append("/");
    out.append(task_id);
    out.append(".");
    out.append(extension);
    out
}

/// Plan one ad-hoc code run under its runtime.
///
/// Shell code runs directly; Python and Node code is materialized to a
/// temporary script file named by the correlation id; the webhook runtime
/// cannot be executed directly and is an error.
pub fn generic_code_plan(
    runtime: ToolRuntime,
    code: &str,
    task_id: &str,
    settings: &ExecutionSettings,
    temp_dir: &str,
    shell: ShellKind,
) -> (r: Result<GenericCodePlan, AppError>)
    ensures
        match r {
            Ok(plan) => match runtime {
                ToolRuntime::Shell => plan matches GenericCodePlan::Direct(c) && (shell is Posix
                    ==> c.program@ == "sh"@ && c.args.deep_view() == seq!["-c"@, code@]) && (
                shell is Windows ==> c.program@ == "cmd"@ && c.args.deep_view() == seq![
                    "/C"@,
                    code@,
                ]) && c.stdin_payload is None && opt_str_view(c.working_dir) == spec_working_dir(
                    settings.working_directory@,
                ),
                ToolRuntime::Python => plan matches GenericCodePlan::TempScript {
                    script_path,
                    contents,
                    command,
                } && script_path@ == spec_temp_script_path(
                    spec_script_dir(settings.working_directory@, temp_dir@),
                    task_id@,
                    "py"@,
                ) && contents@ == code@ && command.program@ == spec_resolved_interpreter(
                    settings.python_path@,
                    "python"@,
                ) && command.args.deep_view() == seq![script_path@] && command.stdin_payload
                    is None && opt_str_view(command.working_dir) == spec_working_dir(
                    settings.working_directory@,
                ),
                ToolRuntime::Node => plan matches GenericCodePlan::TempScript {
                    script_path,
                    contents,
                    command,
                } && script_path@ == spec_temp_script_path(
                    spec_script_dir(settings.working_directory@, temp_dir@),
                    task_id@,
                    "js"@,
                ) && contents@ == code@ && command.program@ == spec_resolved_interpreter(
                    settings.node_path@,
                    "node"@,
                ) && command.args.deep_view() == seq![script_path@] && command.stdin_payload
                    is None && opt_str_view(command.working_dir) == spec_working_dir(
                    settings.working_directory@,
                ),
                ToolRuntime::Webhook => false,
            },
            Err(e) => runtime is Webhook && (e matches AppError::Internal(m) && m@
                == "Webhook runtime cannot be executed directly."@),
        },
{
    match runtime {
        ToolRuntime::Shell => {
            let mut c = shell_command_plan(code, shell);
            c.working_dir = working_dir_of(settings);
            Ok(GenericCodePlan::Direct(c))
        },
        ToolRuntime::Python | ToolRuntime::Node => {
            let extension: &str = if runtime == ToolRuntime::Python {
                "py"
            } else {
                "js"
            };
            let dir = if settings.working_directory.unicode_len() == 0 {
                String::from_str(temp_dir)
            } else {
                String::from_str(settings.working_directory.as_str())
            };
            let script_path = temp_script_path(dir.as_str(), task_id, extension);
            let program = if runtime == ToolRuntime::Python {
                resolve_interpreter(settings.python_path.as_str(), "python")
            } else {
                resolve_interpreter(settings.node_path.as_str(), "node")
            };
            let mut args: Vec<String> = Vec::new();
            args.push(String::from_str(script_path.as_str()));
            proof {
                assert(args.deep_view() =~= seq![script_path@]);
            }
            let command = CommandPlan {
                program,
                args,
                stdin_payload: None,
                working_dir: working_dir_of(settings),
            };
            Ok(
                GenericCodePlan::TempScript {
                    script_path,
                    contents: String::from_str(code),
                    command,
                },
            )
        },
        ToolRuntime::Webhook => Err(
            AppError::Internal(
                String::from_str("Webhook runtime cannot be executed directly."),
            ),
        ),
    }
}

/// What the unverified glue reports back from one planned run.
#[derive(Clone, Debug)]
pub enum RunResult {
    /// The child was spawned and has exited.
    Completed { stdout_lines: Vec<String>, stderr_lines: Vec<String>, exit: ProcessExit },
    /// The child could not be spawned, or the script file could not be
    /// written.
    SpawnFailed { error: AppError },
}

/// The ephemeral files a plan obliges the task to delete: exactly the
/// materialized script, whatever the run did.
pub open spec fn spec_cleanup_paths(plan: GenericCodePlan) -> Seq<Seq<char>> {
    match plan {
        GenericCodePlan::Direct(_) => Seq::empty(),
        GenericCodePlan::TempScript { script_path, .. } => seq![script_path@],
    }
}

/// Finish one ad-hoc run: the full event trace and the files to delete.
///
/// Law: the cleanup obligation is a function of the plan alone — a run that
/// succeeded, failed, or never spawned leaves the same files to delete, so
/// the materialized script is removed on every exit path.  The trace always
/// ends in its single terminal event.
pub fn finalize_generic_run(task_id: &str, plan: &GenericCodePlan, result: &RunResult) -> (r: (
    Vec<UiEvent>,
    Vec<String>,
))
    ensures
        r.1.deep_view() == spec_cleanup_paths(*plan),
        one_terminal_last(r.0@),
        match result {
            RunResult::Completed { stdout_lines, stderr_lines, exit } => {
                &&& r.0@.len() == stdout_lines@.len() + 1
                &&& forall|j: int|
                    0 <= j < stdout_lines@.len() ==> ((#[trigger] r.0@[j])
                        matches UiEvent::ToolOutput { task_id: t, chunk: c } && t@ == task_id@
                        && c@ == stdout_lines.deep_view()[j] + seq!['\n'])
                &&& crate::process::spec_exit_success(*exit) ==> (r.0@.last()
                    matches UiEvent::ToolComplete { task_id: t, payload: p } && t@ == task_id@
                    && p@ == crate::text::lines_text(stdout_lines.deep_view()))
                &&& !crate::process::spec_exit_success(*exit) ==> (r.0@.last()
                    matches UiEvent::ToolError { task_id: t, payload: p } && t@ == task_id@ && p@
                    == crate::process::spec_failure_text(stderr_lines.deep_view()))
            },
            RunResult::SpawnFailed { error } => r.0@.len() == 1 && (r.0@[0]
                matches UiEvent::ToolError { task_id: t, payload: p } && t@ == task_id@ && p@
                == error.spec_message()),
        },
{
    let events = match result {
        RunResult::Completed { stdout_lines, stderr_lines, exit } => {
            let (events, _outcome) = crate::process::process_task_events(
                task_id,
                stdout_lines,
                stderr_lines,
                *exit,
            );
            events
        },
        RunResult::SpawnFailed { error } => crate::process::process_spawn_failure_events(
            task_id,
            error,
        ),
    };
    let mut cleanup: Vec<String> = Vec::new();
    match plan {
        GenericCodePlan::Direct(_) => {
            proof {
                assert(cleanup.deep_view() =~= Seq::<Seq<char>>::empty());
            }
        },
        GenericCodePlan::TempScript { script_path, .. } => {
            cleanup.push(String::from_str(script_path.as_str()));
            proof {
                assert(cleanup.deep_view() =~= seq![script_path@]);
            }
        },
    }
    (events, cleanup)
}

/// How a requested tool id is to be handled.
#[derive(Clone, Copy, Debug, PartialEq, Eq, Structural)]
pub enum ToolIdKind {
    /// The built-in file finder.
    BuiltInFindFile,
    /// The built-in note saver.
    BuiltInSaveToKb,
    /// An unrecognized built-in name: an error.
    BuiltInUnknown,
    /// A configured tool, to be looked up by id.
    Configured,
}

/// Classification of a tool id by the built-in prefix.
pub open spec fn spec_tool_id_kind(id: Seq<char>) -> ToolIdKind {
    if id == "built_in::find_file"@ {
        ToolIdKind::BuiltInFindFile
    } else if id == "built_in::save_to_kb"@ {
        ToolIdKind::BuiltInSaveToKb
    } else if spec_starts_with(id, "built_in::"@) {
        ToolIdKind::BuiltInUnknown
    } else {
        ToolIdKind::Configured
    }
}

/// Classify a requested tool id: built-ins are dispatched by name, all
/// other ids name a configured tool.
pub fn classify_tool_id(id: &str) -> (r: ToolIdKind)
    ensures
        r == spec_tool_id_kind(id@),
{
    if str_eq(id, "built_in::find_file") {
        ToolIdKind::BuiltInFindFile
    } else if str_eq(id, "built_in::save_to_kb") {
        ToolIdKind::BuiltInSaveToKb
    } else if starts_with_str(id, "built_in::") {
        ToolIdKind::BuiltInUnknown
    } else {
        ToolIdKind::Configured
    }
}

/// Select the single terminal event of a tool task from its result: the
/// payload on success, the error's message on failure.
pub fn tool_terminal_event(task_id: &str, result: Result<String, AppError>) -> (e: UiEvent)
    ensures
        match result {
            Ok(p) => e matches UiEvent::ToolComplete { task_id: t, payload } && t@ == task_id@
                && payload == p,
            Err(err) => e matches UiEvent::ToolError { task_id: t, payload } && t@ == task_id@
                && payload@ == err.spec_message(),
        },
        crate::events::is_terminal(e),
        crate::events::correlation_id(e) == task_id@,
{
    match result {
        Ok(p) => UiEvent::ToolComplete { task_id: String::from_str(task_id), payload: p },
        Err(err) => UiEvent::ToolError {
            task_id: String::from_str(task_id),
            payload: err.message(),
        },
    }
}

} // verus!
