//! Domain events of the MCP server context. Timestamps are instants in
//! milliseconds since the Unix epoch; call identifiers are UUIDs' 128 bits.

use vstd::prelude::*;
use crate::mcp_server::value::SessionId;

verus! {

/// All domain events emitted by the MCP server context.
#[derive(Debug)]
pub enum McpServerEvent {
    /// A client session has been initialized.
    McpSessionStarted {
        session_id: SessionId,
        client_name: String,
        client_version: Option<String>,
        protocol_version: String,
        timestamp: i64,
    },
    /// A client session has ended.
    McpSessionEnded { session_id: SessionId, reason: String, duration_ms: u64, timestamp: i64 },
    /// A client requested the list of tools.
    McpToolsListed {
        session_id: SessionId,
        tool_count: usize,
        has_enterprise_tools: bool,
        timestamp: i64,
    },
    /// A tool call request has been received.
    ToolCallReceived {
        session_id: SessionId,
        tool_name: String,
        call_id: u128,
        params_size: usize,
        timestamp: i64,
    },
    /// A tool call completed.
    ToolCallCompleted {
        session_id: SessionId,
        tool_name: String,
        call_id: u128,
        duration_ms: u64,
        is_error: bool,
        timestamp: i64,
    },
    /// A tool call failed.
    ToolCallFailed {
        session_id: SessionId,
        tool_name: String,
        call_id: u128,
        error_code: i32,
        error_message: String,
        timestamp: i64,
    },
    /// A tool was registered (or unregistered) in the tool registry.
    ToolRegistered { tool_name: String, is_enterprise: bool, total_tools: usize, timestamp: i64 },
    /// A transport error occurred.
    TransportError { transport_mode: String, error: String, timestamp: i64 },
}

impl McpServerEvent {
    /// The snake_case name of each variant.
    pub open spec fn spec_event_type(&self) -> Seq<char> {
        match self {
            McpServerEvent::McpSessionStarted { .. } => "mcp_session_started"@,
            McpServerEvent::McpSessionEnded { .. } => "mcp_session_ended"@,
            McpServerEvent::McpToolsListed { .. } => "mcp_tools_listed"@,
            McpServerEvent::ToolCallReceived { .. } => "tool_call_received"@,
            McpServerEvent::ToolCallCompleted { .. } => "tool_call_completed"@,
            McpServerEvent::ToolCallFailed { .. } => "tool_call_failed"@,
            McpServerEvent::ToolRegistered { .. } => "tool_registered"@,
            McpServerEvent::TransportError { .. } => "transport_error"@,
        }
    }

    /// The session an event belongs to, if any.
    pub open spec fn spec_session_id(&self) -> Option<SessionId> {
        match self {
            McpServerEvent::McpSessionStarted { session_id, .. } => Some(*session_id),
            McpServerEvent::McpSessionEnded { session_id, .. } => Some(*session_id),
            McpServerEvent::McpToolsListed { session_id, .. } => Some(*session_id),
            McpServerEvent::ToolCallReceived { session_id, .. } => Some(*session_id),
            McpServerEvent::ToolCallCompleted { session_id, .. } => Some(*session_id),
            McpServerEvent::ToolCallFailed { session_id, .. } => Some(*session_id),
            _ => None,
        }
    }

    /// The instant of an event.
    pub open spec fn spec_timestamp(&self) -> i64 {
        match self {
            McpServerEvent::McpSessionStarted { timestamp, .. } => *timestamp,
            McpServerEvent::McpSessionEnded { timestamp, .. } => *timestamp,
            McpServerEvent::McpToolsListed { timestamp, .. } => *timestamp,
            McpServerEvent::ToolCallReceived { timestamp, .. } => *timestamp,
            McpServerEvent::ToolCallCompleted { timestamp, .. } => *timestamp,
            McpServerEvent::ToolCallFailed { timestamp, .. } => *timestamp,
            McpServerEvent::ToolRegistered { timestamp, .. } => *timestamp,
            McpServerEvent::TransportError { timestamp, .. } => *timestamp,
        }
    }

    /// Canonical snake_case name of the event variant.
    pub fn event_type(&self) -> (r: &'static str)
        ensures
            r@ == self.spec_event_type(),
    {
        match self {
            McpServerEvent::McpSessionStarted { .. } => "mcp_session_started",
            McpServerEvent::McpSessionEnded { .. } => "mcp_session_ended",
            McpServerEvent::McpToolsListed { .. } => "mcp_tools_listed",
            McpServerEvent::ToolCallReceived { .. } => "tool_call_received",
            McpServerEvent::ToolCallCompleted { .. } => "tool_call_completed",
            McpServerEvent::ToolCallFailed { .. } => "tool_call_failed",
            McpServerEvent::ToolRegistered { .. } => "tool_registered",
            McpServerEvent::TransportError { .. } => "transport_error",
        }
    }

    /// The session ID of the event, if present.
    pub fn session_id(&self) -> (r: Option<SessionId>)
        ensures
            r == self.spec_session_id(),
    {
        match self {
            McpServerEvent::McpSessionStarted { session_id, .. } => Some(*session_id),
            McpServerEvent::McpSessionEnded { session_id, .. } => Some(*session_id),
            McpServerEvent::McpToolsListed { session_id, .. } => Some(*session_id),
            McpServerEvent::ToolCallReceived { session_id, .. } => Some(*session_id),
            McpServerEvent::ToolCallCompleted { session_id, .. } => Some(*session_id),
            McpServerEvent::ToolCallFailed { session_id, .. } => Some(*session_id),
            _ => None,
        }
    }

    /// The timestamp of the event.
    pub fn timestamp(&self) -> (r: i64)
        ensures
            r == self.spec_timestamp(),
    {
        match self {
            McpServerEvent::McpSessionStarted { timestamp, .. } => *timestamp,
            McpServerEvent::McpSessionEnded { timestamp, .. } => *timestamp,
            McpServerEvent::McpToolsListed { timestamp, .. } => *timestamp,
            McpServerEvent::ToolCallReceived { timestamp, .. } => *timestamp,
            McpServerEvent::ToolCallCompleted { timestamp, .. } => *timestamp,
            McpServerEvent::ToolCallFailed { timestamp, .. } => *timestamp,
            McpServerEvent::ToolRegistered { timestamp, .. } => *timestamp,
            McpServerEvent::TransportError { timestamp, .. } => *timestamp,
        }
    }
}

} // verus!
