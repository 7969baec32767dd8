//! The events a task emits towards the observing frontend.
//!
//! Every event carries the correlation id of the task that produced it; a
//! task emits zero or more progress events and then exactly one terminal
//! event.  The sink itself (fire-and-forget, order-preserving per task) is
//! outside the library; the engine only decides *which* events to emit and
//! in what order.

use vstd::prelude::*;

verus! {

/// One event handed to the frontend sink.
#[derive(Clone, Debug)]
pub enum UiEvent {
    /// A raw streamed chunk of one assistant reply.
    StreamChunk { message_id: String, chunk: String },
    /// The single terminal event of a stream task.
    StreamEnd {
        message_id: String,
        final_text: String,
        sources: Option<String>,
        suggestions: Vec<String>,
    },
    /// A conversation's placeholder title was replaced.
    ConversationTitleUpdated { conversation_id: String, title: String },
    /// One completed output line of a tool run.
    ToolOutput { task_id: String, chunk: String },
    /// The successful terminal event of a tool run.
    ToolComplete { task_id: String, payload: String },
    /// The failing terminal event of a tool run.
    ToolError { task_id: String, payload: String },
    /// One completed output line of an ad-hoc code run.
    CodeExecutionOutput { execution_id: String, chunk: String },
    /// The single terminal event of an ad-hoc code run.
    CodeExecutionComplete { execution_id: String, success: bool, error: Option<String> },
}

/// Whether `e` marks a task's definitive end.
pub open spec fn is_terminal(e: UiEvent) -> bool {
    match e {
        UiEvent::StreamEnd { .. } => true,
        UiEvent::ToolComplete { .. } => true,
        UiEvent::ToolError { .. } => true,
        UiEvent::CodeExecutionComplete { .. } => true,
        _ => false,
    }
}

/// The correlation id an event is tagged with.
pub open spec fn correlation_id(e: UiEvent) -> Seq<char> {
    match e {
        UiEvent::StreamChunk { message_id, .. } => message_id@,
        UiEvent::StreamEnd { message_id, .. } => message_id@,
        UiEvent::ConversationTitleUpdated { conversation_id, .. } => conversation_id@,
        UiEvent::ToolOutput { task_id, .. } => task_id@,
        UiEvent::ToolComplete { task_id, .. } => task_id@,
        UiEvent::ToolError { task_id, .. } => task_id@,
        UiEvent::CodeExecutionOutput { execution_id, .. } => execution_id@,
        UiEvent::CodeExecutionComplete { execution_id, .. } => execution_id@,
    }
}

/// The event trace of one task done right: it ends with a terminal event,
/// and that terminal event is the only one.
pub open spec fn one_terminal_last(events: Seq<UiEvent>) -> bool {
    &&& events.len() > 0
    &&& is_terminal(events.last())
    &&& forall|i: int| 0 <= i < events.len() - 1 ==> !is_terminal(#[trigger] events[i])
}

} // verus!
