//! Value objects of the MCP server context: identifiers, JSON-RPC messages,
//! tool, resource and prompt schemas, capabilities and configuration.

use vstd::prelude::*;
use vstd::string::StringExecFns;
use crate::json::{Json, JsonV};
use crate::platform::{format_uuid, fresh_uuid, uuid_text};
use crate::text::{concat2, has_prefix, owned, starts_with};

verus! {

/// Strongly-typed identifier for an MCP client session (a UUID's 128 bits).
#[derive(Debug, Clone, Copy, PartialEq, Eq, Hash)]
pub struct SessionId(pub u128);

impl SessionId {
    /// A new random session identifier.
    pub fn new() -> (r: SessionId) {
        SessionId(fresh_uuid())
    }

    /// The identifier of an existing UUID.
    pub fn from_uuid(id: u128) -> (r: SessionId)
        ensures
            r.0 == id,
    {
        SessionId(id)
    }

    /// The inner UUID.
    pub fn as_uuid(&self) -> (r: u128)
        ensures
            r == self.0,
    {
        self.0
    }

    /// The hyphenated text of the identifier.
    pub fn to_text(&self) -> (r: String)
        ensures
            r@ == uuid_text(self.0),
    {
        format_uuid(self.0)
    }
}

/// Identifier of a JSON-RPC request: a number or a string.
#[derive(Debug, Clone, PartialEq, Eq)]
pub enum RequestId {
    /// Numeric request ID.
    Number(u64),
    /// String request ID.
    String(String),
}

/// The value of a request identifier.
pub enum RequestIdV {
    Number(u64),
    Text(Seq<char>),
}

impl View for RequestId {
    type V = RequestIdV;

    open spec fn view(&self) -> RequestIdV {
        match self {
            RequestId::Number(n) => RequestIdV::Number(*n),
            RequestId::String(s) => RequestIdV::Text(s@),
        }
    }
}

impl RequestId {
    /// A numeric request ID.
    pub fn number(n: u64) -> (r: RequestId)
        ensures
            r@ == RequestIdV::Number(n),
    {
        RequestId::Number(n)
    }

    /// A string request ID.
    pub fn string(s: &str) -> (r: RequestId)
        ensures
            r@ == RequestIdV::Text(s@),
    {
        RequestId::String(owned(s))
    }

    /// A copy of the identifier.
    pub fn duplicate(&self) -> (r: RequestId)
        ensures
            r@ == self@,
    {
        match self {
            RequestId::Number(n) => RequestId::Number(*n),
            RequestId::String(s) => RequestId::String(s.clone()),
        }
    }
}

/// A JSON-RPC error object.
#[derive(Debug)]
pub struct JsonRpcError {
    /// Error code (negative integer per JSON-RPC).
    pub code: i32,
    /// Short human-readable error message.
    pub message: String,
    /// Optional additional error data.
    pub data: Option<Json>,
}

impl JsonRpcError {
    /// Standard JSON-RPC parse error (-32700).
    pub fn parse_error() -> (r: JsonRpcError)
        ensures
            r.code == -32700,
            r.message@ == "Parse error"@,
            r.data is None,
    {
        JsonRpcError { code: -32700, message: owned("Parse error"), data: None }
    }

    /// Standard JSON-RPC invalid request (-32600).
    pub fn invalid_request() -> (r: JsonRpcError)
        ensures
            r.code == -32600,
            r.message@ == "Invalid Request"@,
            r.data is None,
    {
        JsonRpcError { code: -32600, message: owned("Invalid Request"), data: None }
    }

    /// Standard JSON-RPC method not found (-32601).
    pub fn method_not_found(method: &str) -> (r: JsonRpcError)
        ensures
            r.code == -32601,
            r.message@ == "Method not found: "@ + method@,
            r.data is None,
    {
        JsonRpcError { code: -32601, message: concat2("Method not found: ", method), data: None }
    }

    /// Standard JSON-RPC invalid params (-32602).
    pub fn invalid_params(detail: &str) -> (r: JsonRpcError)
        ensures
            r.code == -32602,
            r.message@ == "Invalid params: "@ + detail@,
            r.data is None,
    {
        JsonRpcError { code: -32602, message: concat2("Invalid params: ", detail), data: None }
    }

    /// Standard JSON-RPC internal error (-32603).
    pub fn internal_error(detail: &str) -> (r: JsonRpcError)
        ensures
            r.code == -32603,
            r.message@ == "Internal error: "@ + detail@,
            r.data is None,
    {
        JsonRpcError { code: -32603, message: concat2("Internal error: ", detail), data: None }
    }

    /// Application-level error for tool not found (-32001).
    pub fn tool_not_found(name: &str) -> (r: JsonRpcError)
        ensures
            r.code == -32001,
            r.message@ == "Tool not found: "@ + name@,
            r.data is None,
    {
        JsonRpcError { code: -32001, message: concat2("Tool not found: ", name), data: None }
    }

    /// Application-level error for tool execution failure (-32002).
    pub fn tool_execution_failed(name: &str, detail: &str) -> (r: JsonRpcError)
        ensures
            r.code == -32002,
            r.message@ == "Tool execution failed: "@ + name@ + " - "@ + detail@,
            r.data is None,
    {
        let mut m = concat2("Tool execution failed: ", name);
        m.append(" - ");
        m.append(detail);
        JsonRpcError { code: -32002, message: m, data: None }
    }
}

/// A JSON-RPC 2.0 message: request, notification, response or error.
#[derive(Debug)]
pub struct JsonRpcMessage {
    /// Protocol version (always "2.0").
    pub jsonrpc: String,
    /// Request identifier (requests and responses).
    pub id: Option<RequestId>,
    /// Method name (requests and notifications).
    pub method: Option<String>,
    /// Parameters (requests and notifications).
    pub params: Option<Json>,
    /// Result payload (success responses).
    pub result: Option<Json>,
    /// Error payload (error responses).
    pub error: Option<JsonRpcError>,
}

impl JsonRpcMessage {
    /// A request message.
    pub fn request(id: RequestId, method: &str, params: Option<Json>) -> (r: JsonRpcMessage)
        ensures
            r.jsonrpc@ == "2.0"@,
            r.id == Some(id),
            r.method matches Some(m) && m@ == method@,
            r.params == params,
            r.result is None,
            r.error is None,
    {
        JsonRpcMessage {
            jsonrpc: owned("2.0"),
            id: Some(id),
            method: Some(owned(method)),
            params,
            result: None,
            error: None,
        }
    }

    /// A notification (no id, no response expected).
    pub fn notification(method: &str, params: Option<Json>) -> (r: JsonRpcMessage)
        ensures
            r.jsonrpc@ == "2.0"@,
            r.id is None,
            r.method matches Some(m) && m@ == method@,
            r.params == params,
            r.result is None,
            r.error is None,
    {
        JsonRpcMessage {
            jsonrpc: owned("2.0"),
            id: None,
            method: Some(owned(method)),
            params,
            result: None,
            error: None,
        }
    }

    /// A success response.
    pub fn success(id: RequestId, result: Json) -> (r: JsonRpcMessage)
        ensures
            r.jsonrpc@ == "2.0"@,
            r.id == Some(id),
            r.method is None,
            r.params is None,
            r.result == Some(result),
            r.error is None,
    {
        JsonRpcMessage {
            jsonrpc: owned("2.0"),
            id: Some(id),
            method: None,
            params: None,
            result: Some(result),
            error: None,
        }
    }

    /// An error response.
    pub fn error(id: RequestId, error: JsonRpcError) -> (r: JsonRpcMessage)
        ensures
            r.jsonrpc@ == "2.0"@,
            r.id == Some(id),
            r.method is None,
            r.params is None,
            r.result is None,
            r.error == Some(error),
    {
        JsonRpcMessage {
            jsonrpc: owned("2.0"),
            id: Some(id),
            method: None,
            params: None,
            result: None,
            error: Some(error),
        }
    }

    /// True for a request (has id and method).
    pub fn is_request(&self) -> (r: bool)
        ensures
            r == (self.id is Some && self.method is Some),
    {
        self.id.is_some() && self.method.is_some()
    }

    /// True for a notification (no id, has method).
    pub fn is_notification(&self) -> (r: bool)
        ensures
            r == (self.id is None && self.method is Some),
    {
        self.id.is_none() && self.method.is_some()
    }

    /// True for a response (has id, no method).
    pub fn is_response(&self) -> (r: bool)
        ensures
            r == (self.id is Some && self.method is None),
    {
        self.id.is_some() && self.method.is_none()
    }

    /// True for a success response.
    pub fn is_success(&self) -> (r: bool)
        ensures
            r == self.result is Some,
    {
        self.result.is_some()
    }

    /// True for an error response.
    pub fn is_error(&self) -> (r: bool)
        ensures
            r == self.error is Some,
    {
        self.error.is_some()
    }
}

/// Prefix of every gateway tool name.
pub open spec fn oss_prefix() -> Seq<char> {
    "rigorix_"@
}

/// Prefix of every enterprise tool name.
pub open spec fn enterprise_prefix() -> Seq<char> {
    "rigorix_enterprise_"@
}

/// Whether a tool name is an enterprise tool name.
pub open spec fn is_enterprise_name(name: Seq<char>) -> bool {
    has_prefix(name, enterprise_prefix())
}

/// Whether a tool name is an open-source tool name.
pub open spec fn is_oss_name(name: Seq<char>) -> bool {
    has_prefix(name, oss_prefix()) && !is_enterprise_name(name)
}

/// Schema of an MCP tool: name, description and input parameters.
#[derive(Debug)]
pub struct ToolSchema {
    /// Unique tool name.
    pub name: String,
    /// Description for LLM context and user-facing docs.
    pub description: String,
    /// JSON Schema of the tool input.
    pub input_schema: Json,
}

/// The value of a tool schema.
pub struct ToolSchemaV {
    pub name: Seq<char>,
    pub description: Seq<char>,
    pub input_schema: JsonV,
}

impl View for ToolSchema {
    type V = ToolSchemaV;

    open spec fn view(&self) -> ToolSchemaV {
        ToolSchemaV { name: self.name@, description: self.description@, input_schema: self.input_schema@ }
    }
}

impl ToolSchema {
    /// A new tool schema.
    pub fn new(name: &str, description: &str, input_schema: Json) -> (r: ToolSchema)
        ensures
            r@ == (ToolSchemaV { name: name@, description: description@, input_schema: input_schema@ }),
    {
        ToolSchema { name: owned(name), description: owned(description), input_schema }
    }

    /// True for an open-source tool (`rigorix_` prefix, not enterprise).
    pub fn is_oss_tool(&self) -> (r: bool)
        ensures
            r == is_oss_name(self.name@),
    {
        starts_with(self.name.as_str(), "rigorix_") && !self.is_enterprise_tool()
    }

    /// True for an enterprise tool (`rigorix_enterprise_` prefix).
    pub fn is_enterprise_tool(&self) -> (r: bool)
        ensures
            r == is_enterprise_name(self.name@),
    {
        starts_with(self.name.as_str(), "rigorix_enterprise_")
    }

    /// A copy of the schema.
    pub fn duplicate(&self) -> (r: ToolSchema)
        ensures
            r@ == self@,
    {
        ToolSchema {
            name: self.name.clone(),
            description: self.description.clone(),
            input_schema: self.input_schema.duplicate(),
        }
    }
}

/// A content item of a tool call result.
#[derive(Debug)]
pub enum ContentItem {
    /// Text content.
    Text { text: String },
    /// Base64-encoded image.
    Image { data: String, mime_type: String },
    /// Reference to a resource.
    Resource { uri: String, mime_type: Option<String>, text: Option<String> },
}

impl ContentItem {
    /// A text content item.
    pub fn text(text: &str) -> (r: ContentItem)
        ensures
            r matches ContentItem::Text { text: t } && t@ == text@,
    {
        ContentItem::Text { text: owned(text) }
    }
}

/// Result of a tool call.
#[derive(Debug)]
pub struct ToolResult {
    /// Content items produced by the tool.
    pub content: Vec<ContentItem>,
    /// Whether the result is an error.
    pub is_error: bool,
}

impl ToolResult {
    /// A successful result with the given content.
    pub fn success(content: Vec<ContentItem>) -> (r: ToolResult)
        ensures
            r.content == content,
            !r.is_error,
    {
        ToolResult { content, is_error: false }
    }

    /// An error result with the given content.
    pub fn error(content: Vec<ContentItem>) -> (r: ToolResult)
        ensures
            r.content == content,
            r.is_error,
    {
        ToolResult { content, is_error: true }
    }

    /// A successful result made of one text item.
    pub fn text(text: &str) -> (r: ToolResult)
        ensures
            r.content.len() == 1,
            r.content[0] matches ContentItem::Text { text: t } && t@ == text@,
            !r.is_error,
    {
        ToolResult { content: vec![ContentItem::text(text)], is_error: false }
    }
}

/// Schema of an MCP resource: a URI-patterned data source.
#[derive(Debug)]
pub struct ResourceSchema {
    /// URI pattern.
    pub uri: String,
    /// Human-readable name.
    pub name: String,
    /// Description of the resource.
    pub description: String,
    /// MIME type of the content.
    pub mime_type: String,
}

impl ResourceSchema {
    /// A new resource schema.
    pub fn new(uri: &str, name: &str, description: &str, mime_type: &str) -> (r: ResourceSchema)
        ensures
            r.uri@ == uri@,
            r.name@ == name@,
            r.description@ == description@,
            r.mime_type@ == mime_type@,
    {
        ResourceSchema {
            uri: owned(uri),
            name: owned(name),
            description: owned(description),
            mime_type: owned(mime_type),
        }
    }
}

/// Content returned from reading a resource URI.
#[derive(Debug)]
pub struct ResourceContent {
    /// The resolved resource URI.
    pub uri: String,
    /// MIME type of the content.
    pub mime_type: String,
    /// Text content.
    pub text: String,
}

/// Argument that can be passed when requesting a prompt.
#[derive(Debug)]
pub struct PromptArgument {
    /// Argument name.
    pub name: String,
    /// Description of the argument.
    pub description: String,
    /// Whether the argument is required.
    pub required: bool,
}

impl PromptArgument {
    /// A new prompt argument.
    pub fn new(name: &str, description: &str, required: bool) -> (r: PromptArgument)
        ensures
            r.name@ == name@,
            r.description@ == description@,
            r.required == required,
    {
        PromptArgument { name: owned(name), description: owned(description), required }
    }
}

/// Schema of an MCP prompt template.
#[derive(Debug)]
pub struct PromptSchema {
    /// Unique prompt name.
    pub name: String,
    /// Human-readable description.
    pub description: String,
    /// Argument definitions.
    pub arguments: Vec<PromptArgument>,
}

impl PromptSchema {
    /// A new prompt schema.
    pub fn new(name: &str, description: &str, arguments: Vec<PromptArgument>) -> (r: PromptSchema)
        ensures
            r.name@ == name@,
            r.description@ == description@,
            r.arguments == arguments,
    {
        PromptSchema { name: owned(name), description: owned(description), arguments }
    }
}

/// Role of a message author in a prompt conversation.
#[derive(Debug, Clone, Copy, PartialEq, Eq, Structural)]
pub enum PromptRole {
    /// System message.
    System,
    /// User message.
    User,
    /// Assistant message.
    Assistant,
}

impl PromptRole {
    /// The wire name of each role.
    pub open spec fn spec_text(&self) -> Seq<char> {
        match self {
            PromptRole::System => "system"@,
            PromptRole::User => "user"@,
            PromptRole::Assistant => "assistant"@,
        }
    }

    /// The wire name of the role.
    pub fn as_text(&self) -> (r: &'static str)
        ensures
            r@ == self.spec_text(),
    {
        match self {
            PromptRole::System => "system",
            PromptRole::User => "user",
            PromptRole::Assistant => "assistant",
        }
    }
}

/// Content of a prompt message (text only).
#[derive(Debug)]
pub enum PromptMessageContent {
    /// Text content.
    Text { text: String },
}

impl PromptMessageContent {
    /// A text prompt message content.
    pub fn text(text: &str) -> (r: PromptMessageContent)
        ensures
            r matches PromptMessageContent::Text { text: t } && t@ == text@,
    {
        PromptMessageContent::Text { text: owned(text) }
    }
}

/// A single message of a prompt.
#[derive(Debug)]
pub struct PromptMessage {
    /// The role of the message author.
    pub role: PromptRole,
    /// Content of the message.
    pub content: PromptMessageContent,
}

/// Content returned from requesting a prompt.
#[derive(Debug)]
pub struct PromptContent {
    /// Optional description.
    pub description: Option<String>,
    /// The messages.
    pub messages: Vec<PromptMessage>,
}

/// Server capabilities advertised to the client at initialization.
#[derive(Debug)]
pub struct ServerCapabilities {
    /// Supported protocol versions.
    pub protocol_versions: Vec<String>,
    /// Number of registered tools.
    pub tool_count: usize,
    /// Number of exposed resources.
    pub resource_count: usize,
    /// Number of available prompts.
    pub prompt_count: usize,
    /// Whether the enterprise proxy is enabled.
    pub enterprise_enabled: bool,
    /// Optional server info.
    pub server_info: Option<String>,
}

/// The protocol version the gateway speaks.
pub open spec fn protocol_version() -> Seq<char> {
    "2025-03-26"@
}

impl ServerCapabilities {
    /// New capabilities with the given values and no server info.
    pub fn new(
        protocol_versions: Vec<String>,
        tool_count: usize,
        resource_count: usize,
        prompt_count: usize,
        enterprise_enabled: bool,
    ) -> (r: ServerCapabilities)
        ensures
            r.protocol_versions == protocol_versions,
            r.tool_count == tool_count,
            r.resource_count == resource_count,
            r.prompt_count == prompt_count,
            r.enterprise_enabled == enterprise_enabled,
            r.server_info is None,
    {
        ServerCapabilities {
            protocol_versions,
            tool_count,
            resource_count,
            prompt_count,
            enterprise_enabled,
            server_info: None,
        }
    }

    /// The gateway's default capabilities for the given counts.
    pub fn default_with_counts(tool_count: usize, resource_count: usize, prompt_count: usize) -> (r:
        ServerCapabilities)
        ensures
            r.protocol_versions.len() == 1,
            r.protocol_versions[0]@ == protocol_version(),
            r.tool_count == tool_count,
            r.resource_count == resource_count,
            r.prompt_count == prompt_count,
            !r.enterprise_enabled,
            r.server_info matches Some(s) && s@ == "Rigorix MCP Gateway"@,
    {
        ServerCapabilities {
            protocol_versions: vec![owned("2025-03-26")],
            tool_count,
            resource_count,
            prompt_count,
            enterprise_enabled: false,
            server_info: Some(owned("Rigorix MCP Gateway")),
        }
    }

    /// A copy of the capabilities.
    pub fn duplicate(&self) -> (r: ServerCapabilities)
        ensures
            r.protocol_versions@ == self.protocol_versions@,
            r.tool_count == self.tool_count,
            r.resource_count == self.resource_count,
            r.prompt_count == self.prompt_count,
            r.enterprise_enabled == self.enterprise_enabled,
            r.server_info == self.server_info,
    {
        ServerCapabilities {
            protocol_versions: self.protocol_versions.clone(),
            tool_count: self.tool_count,
            resource_count: self.resource_count,
            prompt_count: self.prompt_count,
            enterprise_enabled: self.enterprise_enabled,
            server_info: match &self.server_info {
                Some(s) => Some(s.clone()),
                None => None,
            },
        }
    }
}

/// Capabilities advertised by the client at session initialization.
#[derive(Debug)]
pub struct ClientCapabilities {
    /// Supported protocol version.
    pub protocol_version: String,
    /// Client name.
    pub client_name: Option<String>,
    /// Client version.
    pub client_version: Option<String>,
    /// Whether the client supports progress notifications.
    pub supports_progress: bool,
}

/// Identifying information about the connecting client.
#[derive(Debug)]
pub struct ClientInfo {
    /// Client name.
    pub name: String,
    /// Client version.
    pub version: Option<String>,
}

/// The MCP transport mode.
#[derive(Debug, Clone, Copy, PartialEq, Eq, Structural)]
pub enum TransportMode {
    /// Standard input/output.
    Stdio,
    /// Server-sent events over HTTP.
    Sse,
}

impl TransportMode {
    /// The wire name of each mode.
    pub open spec fn spec_text(&self) -> Seq<char> {
        match self {
            TransportMode::Stdio => "stdio"@,
            TransportMode::Sse => "sse"@,
        }
    }

    /// The wire name of the mode.
    pub fn as_text(&self) -> (r: &'static str)
        ensures
            r@ == self.spec_text(),
    {
        match self {
            TransportMode::Stdio => "stdio",
            TransportMode::Sse => "sse",
        }
    }
}

/// Configuration of the MCP server.
#[derive(Debug)]
pub struct ServerConfig {
    /// Transport mode.
    pub transport_mode: TransportMode,
    /// Maximum number of concurrent sessions.
    pub max_sessions: usize,
    /// Session idle timeout in seconds.
    pub session_timeout_secs: u64,
    /// SSE bind address.
    pub bind_address: Option<String>,
}

impl ServerConfig {
    /// The default configuration: stdio, ten sessions, five-minute timeout.
    pub fn default_config() -> (r: ServerConfig)
        ensures
            r.transport_mode == TransportMode::Stdio,
            r.max_sessions == 10,
            r.session_timeout_secs == 300,
            r.bind_address is None,
    {
        ServerConfig {
            transport_mode: TransportMode::Stdio,
            max_sessions: 10,
            session_timeout_secs: 300,
            bind_address: None,
        }
    }
}

impl Default for ServerConfig {
    /// The default configuration: stdio, ten sessions, five-minute timeout.
    fn default() -> (r: ServerConfig)
        ensures
            r.transport_mode == TransportMode::Stdio,
            r.max_sessions == 10,
            r.session_timeout_secs == 300,
            r.bind_address is None,
    {
        ServerConfig::default_config()
    }
}

/// Lifecycle status of a session.
#[derive(Debug, Clone, Copy, PartialEq, Eq, Structural)]
pub enum SessionStatus {
    /// Created, waiting for initialize.
    Pending,
    /// Initialized and active.
    Active,
    /// Being drained (no new requests).
    Draining,
    /// Closed.
    Ended,
}

impl SessionStatus {
    /// True for the terminal state.
    pub fn is_terminal(&self) -> (r: bool)
        ensures
            r == (*self == SessionStatus::Ended),
    {
        match self {
            SessionStatus::Ended => true,
            _ => false,
        }
    }

    /// True when the session is active.
    pub fn is_active(&self) -> (r: bool)
        ensures
            r == (*self == SessionStatus::Active),
    {
        match self {
            SessionStatus::Active => true,
            _ => false,
        }
    }
}

/// Metadata associated with a session: labels in insertion order.
#[derive(Debug)]
pub struct SessionMetadata {
    /// Key-value labels.
    pub labels: Vec<(String, String)>,
}

} // verus!
