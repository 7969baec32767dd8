//! Wire types of the remote backend's chat-completion proxy.
//!
//! The remote endpoint answers either with a single JSON object or with an
//! event stream of delta frames; these are the shapes the engine reads out
//! of those payloads.

use vstd::prelude::*;

verus! {

/// One role-tagged message of the upstream request.
#[derive(Clone, Debug)]
pub struct ProxyMessage {
    pub role: String,
    pub content: Vec<crate::models::ChatMessageContentPart>,
}

/// The payload of an embedding request.
#[derive(Clone, Debug)]
pub struct ProxyEmbeddingPayload {
    pub model: String,
    pub input: Vec<String>,
    pub provider_config: crate::models::ApiProvider,
}

/// The delta fragments of one streamed frame: incremental visible content
/// and, for reasoning models, incremental thinking text.
#[derive(Clone, Debug)]
pub struct StreamDelta {
    pub content: Option<String>,
    pub reasoning_content: Option<String>,
}

/// One choice of a streamed frame.
#[derive(Clone, Debug)]
pub struct StreamChoice {
    pub delta: StreamDelta,
}

/// A non-streamed chat-completion response.
#[derive(Clone, Debug)]
pub struct ProxyResponse {
    pub choices: Vec<ResponseChoice>,
}

/// One choice of a non-streamed response.
#[derive(Clone, Debug)]
pub struct ResponseChoice {
    pub message: ResponseMessage,
}

/// The message of one response choice.
#[derive(Clone, Debug)]
pub struct ResponseMessage {
    pub content: String,
}

/// The view of an optional string.
pub open spec fn opt_str_view(o: Option<String>) -> Option<Seq<char>> {
    match o {
        Some(s) => Some(s@),
        None => None,
    }
}

} // verus!
