//! Data model of the engine and of the configuration it reads.
//!
//! These types mirror what the surrounding application persists (tools,
//! providers, conversations, settings); the engine reads them and never
//! mutates them.  Values that the outside world produces (JSON payloads,
//! timestamps, identifiers) are held as plain strings and integers.

use vstd::prelude::*;

verus! {

/// The runtime a configured tool executes under.
#[derive(Clone, Copy, Debug, PartialEq, Eq, Structural)]
pub enum ToolRuntime {
    Shell,
    Python,
    Node,
    Webhook,
}

impl Default for ToolRuntime {
    fn default() -> (r: Self)
        ensures
            r == ToolRuntime::Python,
    {
        ToolRuntime::Python
    }
}

/// The kind of form control a tool parameter is edited with.
#[derive(Clone, Copy, Debug, PartialEq, Eq, Structural)]
pub enum ToolParameterType {
    Text,
    Textarea,
}

/// Where a tool invocation takes its primary input from.
#[derive(Clone, Copy, Debug, PartialEq, Eq, Structural)]
pub enum ToolInputSource {
    UserInput,
    Clipboard,
    ChatSelection,
}

/// How a tool's output is presented once the task has finished.
#[derive(Clone, Copy, Debug, PartialEq, Eq, Structural)]
pub enum ToolOutputHandling {
    RawText,
    Markdown,
    ToClipboard,
    NewChat,
}

/// One declared parameter of a configured tool.
#[derive(Clone, Debug)]
pub struct ToolParameter {
    pub name: String,
    pub label: String,
    pub param_type: ToolParameterType,
    pub default_value: String,
    pub required: bool,
}

/// A tool the user configured: a script or webhook with its runtime and
/// parameter schema.  Read-only to the engine.
#[derive(Clone, Debug)]
pub struct ConfiguredTool {
    pub id: String,
    pub name: String,
    pub description: String,
    pub script_path: Option<String>,
    pub webhook_url: Option<String>,
    pub webhook_method: Option<String>,
    pub webhook_headers: Option<String>,
    pub webhook_body_template: Option<String>,
    pub input_schema: Option<String>,
    pub runtime: ToolRuntime,
    pub parameters: Vec<ToolParameter>,
    pub show_in_copilot: bool,
    pub is_favorite: bool,
    pub input_source: ToolInputSource,
    pub requires_ai_pre_processing: bool,
    pub pre_processing_prompt: String,
    pub output_handling: ToolOutputHandling,
    pub requires_ai_post_processing: bool,
    pub post_processing_prompt: String,
}

/// A tool discovered from a script file's metadata block.
#[derive(Clone, Debug)]
pub struct DynamicTool {
    pub id: String,
    pub name: String,
    pub description: String,
    pub script_path: String,
    pub runtime: ToolRuntime,
}

/// One model offered by a provider.
#[derive(Clone, Debug)]
pub struct ModelInfo {
    pub name: String,
    pub capabilities: Vec<String>,
    pub max_tokens: Option<u32>,
}

/// A remote inference provider with its credentials and model list.
#[derive(Clone, Debug)]
pub struct ApiProvider {
    pub id: String,
    pub name: String,
    pub base_url: String,
    pub api_key: String,
    pub models: Vec<ModelInfo>,
    pub proxy: Option<String>,
}

/// A provider/model pair selected for one role.
#[derive(Clone, Debug)]
pub struct ModelEndpoint {
    pub provider_id: String,
    pub model_name: String,
}

/// Which model serves each role of the application.
#[derive(Clone, Debug)]
pub struct ModelAssignments {
    pub chat: Option<ModelEndpoint>,
    pub suggestion: Option<ModelEndpoint>,
    pub vision: Option<ModelEndpoint>,
    pub image_gen: Option<ModelEndpoint>,
    pub embedding: Option<ModelEndpoint>,
    pub tts: Option<ModelEndpoint>,
    pub video_gen: Option<ModelEndpoint>,
}

impl Default for ModelAssignments {
    fn default() -> (r: Self)
        ensures
            r.chat is None,
            r.suggestion is None,
            r.vision is None,
            r.image_gen is None,
            r.embedding is None,
            r.tts is None,
            r.video_gen is None,
    {
        ModelAssignments {
            chat: None,
            suggestion: None,
            vision: None,
            image_gen: None,
            embedding: None,
            tts: None,
            video_gen: None,
        }
    }
}

/// Stand-alone API keys for auxiliary services.
#[derive(Clone, Debug)]
pub struct OtherApiKeys {
    pub tts: String,
    pub image_gen: String,
    pub search: String,
    pub tavily: String,
    pub bing: String,
}

impl Default for OtherApiKeys {
    fn default() -> (r: Self)
        ensures
            r.tts@.len() == 0,
            r.image_gen@.len() == 0,
            r.search@.len() == 0,
            r.tavily@.len() == 0,
            r.bing@.len() == 0,
    {
        OtherApiKeys {
            tts: String::new(),
            image_gen: String::new(),
            search: String::new(),
            tavily: String::new(),
            bing: String::new(),
        }
    }
}

/// A remote knowledge base the backend can consult.
#[derive(Clone, Debug)]
pub struct OnlineKnowledgeBase {
    pub id: String,
    pub name: String,
    pub url: String,
    pub token: String,
}

/// Appearance preferences.
#[derive(Clone, Debug)]
pub struct AppearanceSettings {
    pub theme: String,
    pub language: String,
    pub copilot_auto_hide_delay: u32,
    pub editor_font_size: u32,
}

/// Execution preferences: interpreter paths and the backend's address.
#[derive(Clone, Debug)]
pub struct ExecutionSettings {
    pub python_path: String,
    pub node_path: String,
    pub working_directory: String,
    pub auto_start_backend: bool,
    pub backend_url: String,
}

/// Global shortcut assignments.
#[derive(Clone, Debug)]
pub struct ShortcutsSettings {
    pub toggle_copilot: String,
    pub show_main_window: String,
}

pub fn default_top_k() -> (r: u32)
    ensures
        r == 5,
{
    5
}

pub fn default_search_engine() -> (r: String)
    ensures
        r@ == "tavily"@,
{
    String::from_str("tavily")
}

pub fn default_language() -> (r: String)
    ensures
        r@ == "system"@,
{
    String::from_str("system")
}

pub fn default_copilot_delay() -> (r: u32)
    ensures
        r == 10,
{
    10
}

pub fn default_font_size() -> (r: u32)
    ensures
        r == 3,
{
    3
}

pub fn default_backend_url() -> (r: String)
    ensures
        r@ == "http://127.0.0.1:8008"@,
{
    String::from_str("http://127.0.0.1:8008")
}

pub fn default_toggle_copilot() -> (r: String)
    ensures
        r@ == "CmdOrCtrl+Shift+C"@,
{
    String::from_str("CmdOrCtrl+Shift+C")
}

pub fn default_show_main_window() -> (r: String)
    ensures
        r@.len() == 0,
{
    String::new()
}

pub fn default_input_source() -> (r: ToolInputSource)
    ensures
        r == ToolInputSource::UserInput,
{
    ToolInputSource::UserInput
}

pub fn default_output_handling() -> (r: ToolOutputHandling)
    ensures
        r == ToolOutputHandling::RawText,
{
    ToolOutputHandling::RawText
}

impl Default for AppearanceSettings {
    fn default() -> (r: Self)
        ensures
            r.theme@ == "system"@,
            r.language@ == "system"@,
            r.copilot_auto_hide_delay == 10,
            r.editor_font_size == 3,
    {
        AppearanceSettings {
            theme: String::from_str("system"),
            language: default_language(),
            copilot_auto_hide_delay: default_copilot_delay(),
            editor_font_size: default_font_size(),
        }
    }
}

impl Default for ExecutionSettings {
    fn default() -> (r: Self)
        ensures
            r.python_path@.len() == 0,
            r.node_path@.len() == 0,
            r.working_directory@.len() == 0,
            !r.auto_start_backend,
            r.backend_url@ == "http://127.0.0.1:8008"@,
    {
        ExecutionSettings {
            python_path: String::new(),
            node_path: String::new(),
            working_directory: String::new(),
            auto_start_backend: false,
            backend_url: default_backend_url(),
        }
    }
}

impl Default for ShortcutsSettings {
    fn default() -> (r: Self)
        ensures
            r.toggle_copilot@ == "CmdOrCtrl+Shift+C"@,
            r.show_main_window@.len() == 0,
    {
        ShortcutsSettings {
            toggle_copilot: default_toggle_copilot(),
            show_main_window: default_show_main_window(),
        }
    }
}

/// One part of a chat message's content: text or an image reference.
#[derive(Clone, Debug)]
pub enum ChatMessageContentPart {
    Text { text: String },
    ImageUrl { image_url: ImageUrl },
}

/// An image reference: a remote URL, a data URL, or a local path.
#[derive(Clone, Debug)]
pub struct ImageUrl {
    pub url: String,
}

/// A chat or creation session.
#[derive(Clone, Debug)]
pub struct Conversation {
    pub id: String,
    pub title: String,
    pub created_at: i64,
    pub session_type: String,
    pub artifacts: Vec<CreationArtifact>,
}

/// One generated artifact of a creation session.
#[derive(Clone, Debug)]
pub struct CreationArtifact {
    pub id: String,
    pub conversation_id: String,
    pub artifact_type: String,
    pub prompt: String,
    pub model_used: String,
    pub file_path: String,
    pub created_at: i64,
    pub metadata: Option<String>,
}

/// A note of the knowledge base with its link structure.
#[derive(Clone, Debug)]
pub struct KnowledgeNote {
    pub id: String,
    pub title: String,
    pub content: String,
    pub created_at: i64,
    pub updated_at: i64,
    pub backlinks: Vec<NoteLinkInfo>,
    pub outgoing_links: Vec<NoteLinkInfo>,
}

/// A reference from one note to another.
#[derive(Clone, Debug)]
pub struct NoteLinkInfo {
    pub note_id: String,
    pub note_title: String,
}

/// A node of the knowledge graph.
#[derive(Clone, Debug)]
pub struct GraphNode {
    pub id: String,
    pub label: String,
    pub node_type: String,
}

/// An edge of the knowledge graph.
#[derive(Clone, Debug)]
pub struct GraphLink {
    pub source: String,
    pub target: String,
}

/// The knowledge graph handed to the frontend.
#[derive(Clone, Debug)]
pub struct KnowledgeGraphData {
    pub nodes: Vec<GraphNode>,
    pub links: Vec<GraphLink>,
}

/// What the user currently looks at, for intent suggestions.
#[derive(Clone, Debug)]
pub struct IntentContext {
    pub content_type: String,
    pub content: String,
    pub source_app: Option<String>,
}

/// One suggested action for the current context.
#[derive(Clone, Debug)]
pub struct IntentSuggestion {
    pub action: String,
    pub label: String,
    pub icon: String,
}

/// One remembered clipboard entry.
#[derive(Clone, Debug)]
pub struct ClipboardHistoryItem {
    pub item_type: String,
    pub content: String,
    pub timestamp: i64,
    pub id: String,
    pub is_pinned: bool,
}

/// One step of an agent's plan.
#[derive(Clone, Debug)]
pub struct PlanStep {
    pub sub_goal: String,
}

/// One executed step of an agent task.
#[derive(Clone, Debug)]
pub struct AgentTaskStep {
    pub id: String,
    pub task_id: String,
    pub step_index: i32,
    pub thought: Option<String>,
    pub action: String,
    pub action_input: String,
    pub observation: Option<String>,
    pub status: String,
}

/// A long-running integration task.
#[derive(Clone, Debug)]
pub struct IntegrationTask {
    pub id: String,
    pub conversation_id: String,
    pub integration_name: String,
    pub status: String,
    pub created_at: i64,
    pub updated_at: Option<i64>,
    pub steps: Vec<IntegrationTaskStep>,
    pub final_report: Option<String>,
}

/// One step of an integration task.
#[derive(Clone, Debug)]
pub struct IntegrationTaskStep {
    pub id: String,
    pub task_id: String,
    pub step_index: i32,
    pub description: String,
    pub details: Option<String>,
    pub status: String,
}

/// API-call counts of one period, keyed by provider and model.
#[derive(Clone, Debug)]
pub struct ApiCallStatPeriod {
    pub date: String,
    pub stats: Vec<(String, Vec<(String, i64)>)>,
}

/// A configured third-party integration.
#[derive(Clone, Debug)]
pub struct Integration {
    pub id: String,
    pub name: String,
    pub service: String,
    pub config_json: String,
    pub is_enabled: bool,
    pub created_at: i64,
}

/// A template an integration can be created from.
#[derive(Clone, Debug)]
pub struct IntegrationTemplate {
    pub id: String,
    pub name: String,
    pub description: String,
    pub service_type: String,
}

/// Name and version of the application.
#[derive(Clone, Debug)]
pub struct AppInfo {
    pub name: String,
    pub version: String,
}

/// Aggregate counts shown on the dashboard.
#[derive(Clone, Debug)]
pub struct DashboardStats {
    pub notes_count: i64,
    pub vectors_count: i64,
    pub conversations_count: i64,
    pub tools_count: i64,
    pub db_size: u64,
    pub vector_db_size: u64,
    pub backend_db_size: u64,
}

/// The reported state of the local backend service.
#[derive(Clone, Debug)]
pub struct BackendStatusResponse {
    pub status: String,
}

/// One node of a directory listing.
#[derive(Debug)]
pub struct FileNode {
    pub key: String,
    pub title: String,
    pub is_leaf: bool,
    pub children: Option<Vec<FileNode>>,
    pub file_type: Option<String>,
}

/// Outcome of a native directory-picker dialog.
#[derive(Clone, Debug)]
pub struct DirectoryPickerResponse {
    pub success: bool,
    pub path: Option<String>,
    pub error: Option<String>,
}

/// The foreground window, as far as the platform reports it.
#[derive(Clone, Debug)]
pub struct WindowInfo {
    pub app_name: String,
    pub window_title: String,
}

} // verus!
