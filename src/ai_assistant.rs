//! Data exchanged with AI assistant plugins.
//!
//! Times are milliseconds since the Unix epoch; JSON payloads are JSON text.
use vstd::prelude::*;

verus! {

/// Information about an AI assistant plugin.
#[derive(Debug, Clone)]
pub struct AiPluginInfo {
    pub name: String,
    pub version: String,
    pub description: String,
    pub provider: String,
    pub supports_streaming: bool,
    pub supports_tools: bool,
    pub supports_vision: bool,
}

impl AiPluginInfo {
    /// A field-by-field copy.
    pub fn copy(&self) -> (r: Self)
        ensures
            r == *self,
    {
        AiPluginInfo {
            name: self.name.clone(),
            version: self.version.clone(),
            description: self.description.clone(),
            provider: self.provider.clone(),
            supports_streaming: self.supports_streaming,
            supports_tools: self.supports_tools,
            supports_vision: self.supports_vision,
        }
    }
}

/// A message in an AI conversation.
#[derive(Debug, Clone)]
pub struct AiMessage {
    pub role: MessageRole,
    pub content: String,
    pub timestamp_ms: Option<u64>,
}

/// Role of the message sender.
#[derive(Debug, Clone, Copy, PartialEq, Eq, Structural)]
pub enum MessageRole {
    User,
    Assistant,
    System,
}

/// Context from the editor handed to an assistant.
#[derive(Debug, Clone)]
pub struct EditorContext {
    pub current_file: Option<FileContext>,
    pub selection: Option<SelectionContext>,
    pub project: Option<ProjectContext>,
    pub open_files: Vec<String>,
}

/// Context about the current file.
#[derive(Debug, Clone)]
pub struct FileContext {
    pub path: String,
    pub content: String,
    pub language: String,
    pub cursor_position: Position,
}

/// Context about selected text.
#[derive(Debug, Clone)]
pub struct SelectionContext {
    pub start: Position,
    pub end: Position,
    pub selected_text: String,
}

/// Context about the project.
#[derive(Debug, Clone)]
pub struct ProjectContext {
    pub root_path: String,
    pub name: String,
    pub language: Option<String>,
    pub dependencies: Vec<String>,
}

/// Position in a file.
#[derive(Debug, Clone, Copy, PartialEq, Eq, Structural)]
pub struct Position {
    pub line: u32,
    pub character: u32,
}

/// A tool offered to an assistant.
#[derive(Debug, Clone)]
pub struct ToolDefinition {
    pub name: String,
    pub description: String,
    /// Parameter schema as JSON text.
    pub parameters: String,
}

/// A tool call requested by an assistant.
#[derive(Debug, Clone)]
pub struct ToolCall {
    pub id: String,
    pub name: String,
    /// Arguments as JSON text.
    pub arguments: String,
}

/// One increment of a streamed answer; the last one has `finished` set.
#[derive(Debug, Clone)]
pub struct AiStreamChunk {
    pub content: Option<String>,
    pub tool_call: Option<ToolCall>,
    pub finished: bool,
}

/// A capability of an assistant.
#[derive(Debug, Clone)]
pub struct AiCapability {
    pub name: String,
    pub description: String,
    pub enabled: bool,
}

/// Authentication data for an assistant.
#[derive(Debug, Clone)]
pub struct AiAuthData {
    pub auth_type: AiAuthType,
    /// Credentials as `(name, value)` pairs.
    pub credentials: Vec<(String, String)>,
}

/// Kind of authentication.
#[derive(Debug, Clone)]
pub enum AiAuthType {
    ApiKey,
    OAuth,
    BearerToken,
    Custom(String),
}

/// Result of an authentication attempt.
#[derive(Debug, Clone)]
pub struct AiAuthResult {
    pub success: bool,
    pub message: String,
    pub expires_at_ms: Option<u64>,
}

/// Rate limiting information.
#[derive(Debug, Clone)]
pub struct RateLimitInfo {
    pub requests_remaining: u32,
    pub tokens_remaining: u32,
    pub reset_time_ms: u64,
}

} // verus!
