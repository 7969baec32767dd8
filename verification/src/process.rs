//! The process task: one child process, streamed line by line.
//!
//! The engine spawns a child with all three standard streams redirected,
//! writes the optional stdin payload, drains stdout and stderr in parallel,
//! forwards each completed line as a progress event, and turns the exit
//! status into the single terminal event: the full stdout text on success,
//! an error carrying the full stderr text on failure.  The unverified glue
//! performs the spawning and draining and hands the collected lines and the
//! exit status to the functions here, which decide every emitted event.

use vstd::prelude::*;

use crate::error::AppError;
use crate::events::UiEvent;
use crate::events::one_terminal_last;
use crate::text::line_with_newline;
use crate::text::lines_text;

verus! {

/// How a child process ended.
#[derive(Clone, Copy, Debug, PartialEq, Eq, Structural)]
pub enum ProcessExit {
    /// The process exited with this code.
    Code(i32),
    /// The process was terminated by a signal and has no exit code.
    Signal,
}

/// Success means an exit code of zero; a signal is never success.
pub open spec fn spec_exit_success(e: ProcessExit) -> bool {
    e == ProcessExit::Code(0i32)
}

/// Whether the exit status counts as success.
pub fn exit_success(e: &ProcessExit) -> (r: bool)
    ensures
        r == spec_exit_success(*e),
{
    match e {
        ProcessExit::Code(c) => *c == 0,
        ProcessExit::Signal => false,
    }
}

/// The consolidated result of one child process run, final only after the
/// child has exited.
#[derive(Clone, Debug)]
pub struct ProcessOutcome {
    pub stdout_text: String,
    pub stderr_text: String,
    pub exit: ProcessExit,
}

/// The terminal error text of a failed run: the full captured stderr behind
/// a fixed prefix.
pub open spec fn spec_failure_text(stderr_lines: Seq<Seq<char>>) -> Seq<char> {
    "Script failed: "@ + lines_text(stderr_lines)
}

/// Concatenate lines, a newline after each, as the accumulators do.
pub fn collect_lines(lines: &Vec<String>) -> (r: String)
    ensures
        r@ == lines_text(lines.deep_view()),
{
    let mut acc = String::new();
    let mut i: usize = 0;
    while i < lines.len()
        invariant
            i <= lines.len(),
            acc@ == lines_text(lines.deep_view().take(i as int)),
        decreases lines.len() - i,
    {
        acc.append(lines[i].as_str());
        acc.append("\n");
        proof {
            let dv = lines.deep_view();
            assert(dv.take(i + 1).drop_last() =~= dv.take(i as int));
            assert(dv.take(i + 1).last() == dv[i as int]);
            reveal_strlit("\n");
            assert("\n"@ =~= seq!['\n']);
        }
        i = i + 1;
    }
    proof {
        assert(lines.deep_view().take(lines.deep_view().len() as int) =~= lines.deep_view());
    }
    acc
}

/// Turn one finished run into its event trace and consolidated outcome.
///
/// Every completed stdout line is forwarded in order as a `tool-output`
/// chunk (the line with its newline); then exactly one terminal event
/// fires: `tool-complete` with the full stdout text on exit code zero,
/// `tool-error` with the full stderr text behind the failure prefix on a
/// non-zero exit or a signal.
pub fn process_task_events(
    task_id: &str,
    stdout_lines: &Vec<String>,
    stderr_lines: &Vec<String>,
    exit: ProcessExit,
) -> (r: (Vec<UiEvent>, ProcessOutcome))
    ensures
        r.0@.len() == stdout_lines@.len() + 1,
        forall|j: int|
            0 <= j < stdout_lines@.len() ==> ((#[trigger] r.0@[j]) matches UiEvent::ToolOutput {
                task_id: t,
                chunk: c,
            } && t@ == task_id@ && c@ == stdout_lines.deep_view()[j] + seq!['\n']),
        spec_exit_success(exit) ==> (r.0@.last() matches UiEvent::ToolComplete {
            task_id: t,
            payload: p,
        } && t@ == task_id@ && p@ == lines_text(stdout_lines.deep_view())),
        !spec_exit_success(exit) ==> (r.0@.last() matches UiEvent::ToolError {
            task_id: t,
            payload: p,
        } && t@ == task_id@ && p@ == spec_failure_text(stderr_lines.deep_view())),
        one_terminal_last(r.0@),
        r.1.stdout_text@ == lines_text(stdout_lines.deep_view()),
        r.1.stderr_text@ == lines_text(stderr_lines.deep_view()),
        r.1.exit == exit,
{
    let mut events: Vec<UiEvent> = Vec::new();
    let mut i: usize = 0;
    while i < stdout_lines.len()
        invariant
            i <= stdout_lines.len(),
            events@.len() == i,
            forall|j: int|
                0 <= j < i ==> ((#[trigger] events@[j]) matches UiEvent::ToolOutput {
                    task_id: t,
                    chunk: c,
                } && t@ == task_id@ && c@ == stdout_lines.deep_view()[j] + seq!['\n']),
        decreases stdout_lines.len() - i,
    {
        let chunk = line_with_newline(stdout_lines[i].as_str());
        events.push(UiEvent::ToolOutput { task_id: String::from_str(task_id), chunk });
        i = i + 1;
    }
    let stdout_text = collect_lines(stdout_lines);
    let stderr_text = collect_lines(stderr_lines);
    let outcome = ProcessOutcome {
        stdout_text: String::from_str(stdout_text.as_str()),
        stderr_text: String::from_str(stderr_text.as_str()),
        exit,
    };
    if exit_success(&exit) {
        events.push(UiEvent::ToolComplete { task_id: String::from_str(task_id), payload: stdout_text });
    } else {
        let payload = String::from_str("Script failed: ").concat(stderr_text.as_str());
        events.push(UiEvent::ToolError { task_id: String::from_str(task_id), payload });
    }
    (events, outcome)
}

/// The single terminal event of a task whose child could not be spawned at
/// all: an immediate `tool-error`, with no partial output events before it.
pub fn process_spawn_failure_events(task_id: &str, err: &AppError) -> (r: Vec<UiEvent>)
    ensures
        r@.len() == 1,
        r@[0] matches UiEvent::ToolError { task_id: t, payload: p } && t@ == task_id@ && p@
            == err.spec_message(),
        one_terminal_last(r@),
{
    let mut events: Vec<UiEvent> = Vec::new();
    events.push(UiEvent::ToolError { task_id: String::from_str(task_id), payload: err.message() });
    events
}

/// Which standard stream a line arrived on.
#[derive(Clone, Copy, Debug, PartialEq, Eq, Structural)]
pub enum OutputSource {
    Stdout,
    Stderr,
}

/// One completed output line with the stream it arrived on, in the
/// interleaving the run happened to produce (stdout/stderr interleaving is
/// best-effort and not specified).
#[derive(Clone, Debug)]
pub struct OutputLine {
    pub source: OutputSource,
    pub line: String,
}

/// The chunk an ad-hoc code run forwards for one line: stderr lines are
/// tagged, stdout lines are passed as they are, each with its newline.
pub open spec fn spec_code_chunk(l: OutputLine) -> Seq<char> {
    match l.source {
        OutputSource::Stdout => l.line@ + seq!['\n'],
        OutputSource::Stderr => "[STDERR] "@ + l.line@ + seq!['\n'],
    }
}

/// Turn one finished ad-hoc code run into its event trace.
///
/// Every line is forwarded in arrival order as a `code-execution-output`
/// chunk; then exactly one `code-execution-complete` fires, successful
/// exactly on exit code zero and otherwise carrying `status_text` (the
/// platform's rendering of the exit status) in its error.
pub fn code_execution_events(
    execution_id: &str,
    lines: &Vec<OutputLine>,
    exit: ProcessExit,
    status_text: &str,
) -> (r: Vec<UiEvent>)
    ensures
        r@.len() == lines@.len() + 1,
        forall|j: int|
            0 <= j < lines@.len() ==> ((#[trigger] r@[j]) matches UiEvent::CodeExecutionOutput {
                execution_id: e,
                chunk: c,
            } && e@ == execution_id@ && c@ == spec_code_chunk(lines@[j])),
        r@.last() matches UiEvent::CodeExecutionComplete { execution_id: e, success, error } && e@
            == execution_id@ && success == spec_exit_success(exit) && (match error {
            Some(msg) => !spec_exit_success(exit) && msg@ == "Process exited with status: "@
                + status_text@,
            None => spec_exit_success(exit),
        }),
        one_terminal_last(r@),
{
    let mut events: Vec<UiEvent> = Vec::new();
    let mut i: usize = 0;
    while i < lines.len()
        invariant
            i <= lines.len(),
            events@.len() == i,
            forall|j: int|
                0 <= j < i ==> ((#[trigger] events@[j]) matches UiEvent::CodeExecutionOutput {
                    execution_id: e,
                    chunk: c,
                } && e@ == execution_id@ && c@ == spec_code_chunk(lines@[j])),
        decreases lines.len() - i,
    {
        let l = &lines[i];
        let chunk = match l.source {
            OutputSource::Stdout => line_with_newline(l.line.as_str()),
            OutputSource::Stderr => {
                let mut c = String::from_str("[STDERR] ");
                c.append(l.line.as_str());
                c.append("\n");
                proof {
                    reveal_strlit("\n");
                    assert("[STDERR] "@ + l.line@ + "\n"@ =~= "[STDERR] "@ + l.line@
                        + seq!['\n']);
                }
                c
            },
        };
        events.push(
            UiEvent::CodeExecutionOutput { execution_id: String::from_str(execution_id), chunk },
        );
        i = i + 1;
    }
    let success = exit_success(&exit);
    let error = if success {
        None
    } else {
        Some(String::from_str("Process exited with status: ").concat(status_text))
    };
    events.push(
        UiEvent::CodeExecutionComplete {
            execution_id: String::from_str(execution_id),
            success,
            error,
        },
    );
    events
}

} // verus!
