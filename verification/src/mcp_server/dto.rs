//! Inputs and outputs of the MCP server's application services.

use vstd::prelude::*;
use crate::json::Json;
use crate::mcp_server::value::{
    ClientCapabilities, ClientInfo, ContentItem, PromptSchema, ResourceSchema, ServerCapabilities,
    ServerConfig, SessionId, ToolSchema,
};

verus! {

/// Input of session initialization.
#[derive(Debug)]
pub struct InitializeInput {
    pub protocol_version: String,
    pub client_info: ClientInfo,
    pub capabilities: ClientCapabilities,
}

/// Output of session initialization.
#[derive(Debug)]
pub struct InitializeOutput {
    pub protocol_version: String,
    pub server_capabilities: ServerCapabilities,
    pub server_info: String,
}

/// Which tools a listing shows.
#[derive(Debug, Clone, Copy, PartialEq, Eq, Structural)]
pub enum ToolFilter {
    /// Open-source tools only.
    Oss,
    /// Enterprise tools only.
    Enterprise,
    /// Every tool.
    All,
}

/// Input of a tool listing.
#[derive(Debug)]
pub struct ListToolsInput {
    pub filter: Option<ToolFilter>,
}

/// Output of a tool listing.
#[derive(Debug)]
pub struct ListToolsOutput {
    pub tools: Vec<ToolSchema>,
}

/// Input of a tool call.
#[derive(Debug)]
pub struct CallToolInput {
    pub session_id: SessionId,
    pub name: String,
    pub arguments: Json,
}

/// Output of a tool call.
#[derive(Debug)]
pub struct CallToolOutput {
    pub content: Vec<ContentItem>,
    pub is_error: bool,
}

/// Output of a resource listing.
#[derive(Debug)]
pub struct ListResourcesOutput {
    pub resources: Vec<ResourceSchema>,
}

/// Input of a resource read.
#[derive(Debug)]
pub struct ReadResourceInput {
    pub uri: String,
}

/// Output of a resource read.
#[derive(Debug)]
pub struct ReadResourceOutput {
    pub uri: String,
    pub mime_type: String,
    pub text: String,
}

/// Output of a prompt listing.
#[derive(Debug)]
pub struct ListPromptsOutput {
    pub prompts: Vec<PromptSchema>,
}

/// Input of a prompt request.
#[derive(Debug)]
pub struct GetPromptInput {
    pub name: String,
    pub arguments: Option<Vec<(String, String)>>,
}

/// Content of a prompt message.
#[derive(Debug)]
pub enum PromptContentDto {
    Text { text: String },
}

/// A message of a prompt.
#[derive(Debug)]
pub struct PromptMessageDto {
    pub role: String,
    pub content: PromptContentDto,
}

/// Output of a prompt request.
#[derive(Debug)]
pub struct GetPromptOutput {
    pub description: Option<String>,
    pub messages: Vec<PromptMessageDto>,
}

/// Input of a tool registration.
#[derive(Debug)]
pub struct RegisterToolInput {
    pub schema: ToolSchema,
    pub is_enterprise: bool,
}

/// Output of a tool registration.
#[derive(Debug)]
pub struct RegisterToolOutput {
    pub name: String,
    pub registered: bool,
    pub total_tools: usize,
}

/// Input of a tool removal.
#[derive(Debug)]
pub struct UnregisterToolInput {
    pub name: String,
}

/// Output of a tool removal.
#[derive(Debug)]
pub struct UnregisterToolOutput {
    pub name: String,
    pub total_tools: usize,
}

/// Input of ending a session.
#[derive(Debug)]
pub struct EndSessionInput {
    pub session_id: SessionId,
    pub reason: String,
}

/// A session, as a listing shows it.
#[derive(Debug)]
pub struct SessionInfo {
    pub session_id: SessionId,
    pub client_name: String,
    pub status: String,
    pub started_at: Option<i64>,
    pub last_active_at: Option<i64>,
}

/// Output of a session listing.
#[derive(Debug)]
pub struct ListSessionsOutput {
    pub sessions: Vec<SessionInfo>,
    pub total: usize,
}

/// Input of starting the server.
#[derive(Debug)]
pub struct StartServerInput {
    pub config: ServerConfig,
}

/// Output of starting the server.
#[derive(Debug)]
pub struct StartServerOutput {
    pub started: bool,
    pub server_id: u128,
}

/// The server's status, as reported to operators.
#[derive(Debug)]
pub struct ServerStatusInfo {
    pub id: u128,
    pub status: String,
    pub transport_mode: Option<String>,
    pub active_sessions: usize,
    pub registered_tools: usize,
    pub has_enterprise_tools: bool,
    pub started_at: Option<i64>,
}

} // verus!
