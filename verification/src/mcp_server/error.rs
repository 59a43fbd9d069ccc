//! Error types of the MCP server context, with their machine codes.

use vstd::prelude::*;
use vstd::string::StringExecFns;
use crate::text::{concat2, decimal, owned, u64_to_decimal};

verus! {

/// Errors related to MCP session lifecycle management.
#[derive(Debug, Clone, PartialEq, Eq)]
pub enum SessionError {
    /// Session not found by the given session ID.
    NotFound(String),
    /// Session is in a state that does not allow the requested operation.
    InvalidState(String),
    /// Maximum number of sessions reached.
    MaxSessionsReached(usize),
    /// Session time-out.
    Timeout(String),
    /// Session initialization failed.
    InitializationFailed(String),
    /// Session closed by transport error.
    TransportError(String),
}

impl SessionError {
    /// Whether the failure is transient.
    pub open spec fn spec_is_retriable(&self) -> bool {
        self is Timeout || self is TransportError
    }

    /// The machine-readable code of each variant.
    pub open spec fn spec_error_code(&self) -> Seq<char> {
        match self {
            SessionError::NotFound(_) => "SESSION_NOT_FOUND"@,
            SessionError::InvalidState(_) => "SESSION_INVALID_STATE"@,
            SessionError::MaxSessionsReached(_) => "SESSION_MAX_SESSIONS"@,
            SessionError::Timeout(_) => "SESSION_TIMEOUT"@,
            SessionError::InitializationFailed(_) => "SESSION_INIT_FAILED"@,
            SessionError::TransportError(_) => "SESSION_TRANSPORT_ERROR"@,
        }
    }

    /// Returns true if the error is retriable.
    pub fn is_retriable(&self) -> (r: bool)
        ensures
            r == self.spec_is_retriable(),
    {
        match self {
            SessionError::Timeout(_) | SessionError::TransportError(_) => true,
            _ => false,
        }
    }

    /// The user-readable message of each variant.
    pub open spec fn spec_message(&self) -> Seq<char> {
        match self {
            SessionError::NotFound(s) => "Session not found: "@ + s@,
            SessionError::InvalidState(s) => "Invalid session state: "@ + s@,
            SessionError::MaxSessionsReached(n) => "Maximum sessions reached ("@ + decimal(
                *n as nat,
            ) + ")"@,
            SessionError::Timeout(s) => "Session timed out: "@ + s@,
            SessionError::InitializationFailed(s) => "Session initialization failed: "@ + s@,
            SessionError::TransportError(s) => "Session transport error: "@ + s@,
        }
    }

    /// User-readable message.
    pub fn message(&self) -> (r: String)
        ensures
            r@ == self.spec_message(),
    {
        match self {
            SessionError::NotFound(s) => concat2("Session not found: ", s.as_str()),
            SessionError::InvalidState(s) => concat2("Invalid session state: ", s.as_str()),
            SessionError::MaxSessionsReached(n) => {
                let d = u64_to_decimal(*n as u64);
                let mut r = concat2("Maximum sessions reached (", d.as_str());
                r.append(")");
                r
            },
            SessionError::Timeout(s) => concat2("Session timed out: ", s.as_str()),
            SessionError::InitializationFailed(s) => concat2(
                "Session initialization failed: ",
                s.as_str(),
            ),
            SessionError::TransportError(s) => concat2("Session transport error: ", s.as_str()),
        }
    }

    /// Machine-readable error code.
    pub fn error_code(&self) -> (r: &'static str)
        ensures
            r@ == self.spec_error_code(),
    {
        match self {
            SessionError::NotFound(_) => "SESSION_NOT_FOUND",
            SessionError::InvalidState(_) => "SESSION_INVALID_STATE",
            SessionError::MaxSessionsReached(_) => "SESSION_MAX_SESSIONS",
            SessionError::Timeout(_) => "SESSION_TIMEOUT",
            SessionError::InitializationFailed(_) => "SESSION_INIT_FAILED",
            SessionError::TransportError(_) => "SESSION_TRANSPORT_ERROR",
        }
    }
}

/// Errors related to tool registration in the tool registry.
#[derive(Debug, Clone, PartialEq, Eq)]
pub enum RegistrationError {
    /// A tool with the same name is already registered.
    AlreadyRegistered(String),
    /// The tool name does not match naming conventions.
    InvalidName(String),
    /// The tool was not found for unregistration or lookup.
    NotFound(String),
    /// Enterprise tools cannot be registered through the standard path.
    EnterpriseRegistrationForbidden,
    /// Maximum number of tools reached.
    MaxToolsReached(usize),
}

impl RegistrationError {
    /// The machine-readable code of each variant.
    pub open spec fn spec_error_code(&self) -> Seq<char> {
        match self {
            RegistrationError::AlreadyRegistered(_) => "TOOL_ALREADY_REGISTERED"@,
            RegistrationError::InvalidName(_) => "TOOL_INVALID_NAME"@,
            RegistrationError::NotFound(_) => "TOOL_NOT_FOUND"@,
            RegistrationError::EnterpriseRegistrationForbidden => "ENTERPRISE_REGISTRATION_FORBIDDEN"@,
            RegistrationError::MaxToolsReached(_) => "MAX_TOOLS_REACHED"@,
        }
    }

    /// The user-readable message of each variant.
    pub open spec fn spec_message(&self) -> Seq<char> {
        match self {
            RegistrationError::AlreadyRegistered(s) => "Tool already registered: "@ + s@,
            RegistrationError::InvalidName(s) => "Invalid tool name: "@ + s@
                + ". Tools must start with 'rigorix_' prefix"@,
            RegistrationError::NotFound(s) => "Tool not found: "@ + s@,
            RegistrationError::EnterpriseRegistrationForbidden =>
                "Enterprise tools must be registered via register_enterprise_tools"@,
            RegistrationError::MaxToolsReached(n) => "Maximum tool count reached ("@ + decimal(
                *n as nat,
            ) + ")"@,
        }
    }

    /// Machine-readable error code.
    pub fn error_code(&self) -> (r: &'static str)
        ensures
            r@ == self.spec_error_code(),
    {
        match self {
            RegistrationError::AlreadyRegistered(_) => "TOOL_ALREADY_REGISTERED",
            RegistrationError::InvalidName(_) => "TOOL_INVALID_NAME",
            RegistrationError::NotFound(_) => "TOOL_NOT_FOUND",
            RegistrationError::EnterpriseRegistrationForbidden => "ENTERPRISE_REGISTRATION_FORBIDDEN",
            RegistrationError::MaxToolsReached(_) => "MAX_TOOLS_REACHED",
        }
    }

    /// User-readable message.
    pub fn message(&self) -> (r: String)
        ensures
            r@ == self.spec_message(),
    {
        match self {
            RegistrationError::AlreadyRegistered(s) => concat2("Tool already registered: ", s.as_str()),
            RegistrationError::InvalidName(s) => {
                let mut r = concat2("Invalid tool name: ", s.as_str());
                r.append(". Tools must start with 'rigorix_' prefix");
                r
            },
            RegistrationError::NotFound(s) => concat2("Tool not found: ", s.as_str()),
            RegistrationError::EnterpriseRegistrationForbidden => owned(
                "Enterprise tools must be registered via register_enterprise_tools",
            ),
            RegistrationError::MaxToolsReached(n) => {
                let d = u64_to_decimal(*n as u64);
                let mut r = concat2("Maximum tool count reached (", d.as_str());
                r.append(")");
                r
            },
        }
    }
}

/// Root error type for all MCP server operations.
#[derive(Debug, Clone, PartialEq, Eq)]
pub enum McpServerError {
    /// Session-related error.
    Session(SessionError),
    /// Registration-related error.
    Registration(RegistrationError),
    /// Transport error: communication channel failure.
    Transport(String),
    /// Server is not initialized.
    NotInitialized,
    /// Server is already running.
    AlreadyRunning,
    /// Server is shutting down.
    ShuttingDown,
    /// Invalid configuration.
    InvalidConfig(String),
    /// Request time-out.
    Timeout(String),
    /// Internal error (unexpected condition).
    Internal(String),
}

impl McpServerError {
    /// Whether the failure is transient.
    pub open spec fn spec_is_retriable(&self) -> bool {
        self is Timeout || self is Transport || self is Internal
    }

    /// The machine-readable code of each variant.
    pub open spec fn spec_error_code(&self) -> Seq<char> {
        match self {
            McpServerError::Session(_) => "MCP_SESSION_ERROR"@,
            McpServerError::Registration(_) => "MCP_REGISTRATION_ERROR"@,
            McpServerError::Transport(_) => "MCP_TRANSPORT_ERROR"@,
            McpServerError::NotInitialized => "MCP_NOT_INITIALIZED"@,
            McpServerError::AlreadyRunning => "MCP_ALREADY_RUNNING"@,
            McpServerError::ShuttingDown => "MCP_SHUTTING_DOWN"@,
            McpServerError::InvalidConfig(_) => "MCP_INVALID_CONFIG"@,
            McpServerError::Timeout(_) => "MCP_TIMEOUT"@,
            McpServerError::Internal(_) => "MCP_INTERNAL_ERROR"@,
        }
    }

    /// The HTTP status that each variant maps to.
    pub open spec fn spec_http_status(&self) -> u16 {
        match self {
            McpServerError::Session(_) => 400,
            McpServerError::Registration(_) => 409,
            McpServerError::Transport(_) => 500,
            McpServerError::NotInitialized => 503,
            McpServerError::AlreadyRunning => 409,
            McpServerError::ShuttingDown => 503,
            McpServerError::InvalidConfig(_) => 500,
            McpServerError::Timeout(_) => 504,
            McpServerError::Internal(_) => 500,
        }
    }

    /// The user-readable message of each variant.
    pub open spec fn spec_message(&self) -> Seq<char> {
        match self {
            McpServerError::Session(e) => "Session error: "@ + e.spec_message(),
            McpServerError::Registration(e) => "Registration error: "@ + e.spec_message(),
            McpServerError::Transport(s) => "Transport error: "@ + s@,
            McpServerError::NotInitialized => "Server not initialized"@,
            McpServerError::AlreadyRunning => "Server already running"@,
            McpServerError::ShuttingDown => "Server is shutting down"@,
            McpServerError::InvalidConfig(s) => "Invalid configuration: "@ + s@,
            McpServerError::Timeout(s) => "Request timed out: "@ + s@,
            McpServerError::Internal(s) => "Internal error: "@ + s@,
        }
    }

    /// Returns true if the error is retriable (transient failures).
    pub fn is_retriable(&self) -> (r: bool)
        ensures
            r == self.spec_is_retriable(),
    {
        match self {
            McpServerError::Timeout(_) | McpServerError::Transport(_) | McpServerError::Internal(_) => true,
            _ => false,
        }
    }

    /// Machine-readable error code for API responses.
    pub fn error_code(&self) -> (r: &'static str)
        ensures
            r@ == self.spec_error_code(),
    {
        match self {
            McpServerError::Session(_) => "MCP_SESSION_ERROR",
            McpServerError::Registration(_) => "MCP_REGISTRATION_ERROR",
            McpServerError::Transport(_) => "MCP_TRANSPORT_ERROR",
            McpServerError::NotInitialized => "MCP_NOT_INITIALIZED",
            McpServerError::AlreadyRunning => "MCP_ALREADY_RUNNING",
            McpServerError::ShuttingDown => "MCP_SHUTTING_DOWN",
            McpServerError::InvalidConfig(_) => "MCP_INVALID_CONFIG",
            McpServerError::Timeout(_) => "MCP_TIMEOUT",
            McpServerError::Internal(_) => "MCP_INTERNAL_ERROR",
        }
    }

    /// HTTP status code mapping for this error.
    pub fn http_status(&self) -> (r: u16)
        ensures
            r == self.spec_http_status(),
    {
        match self {
            McpServerError::Session(_) => 400,
            McpServerError::Registration(_) => 409,
            McpServerError::Transport(_) => 500,
            McpServerError::NotInitialized => 503,
            McpServerError::AlreadyRunning => 409,
            McpServerError::ShuttingDown => 503,
            McpServerError::InvalidConfig(_) => 500,
            McpServerError::Timeout(_) => 504,
            McpServerError::Internal(_) => 500,
        }
    }

    /// User-readable message.
    pub fn message(&self) -> (r: String)
        ensures
            r@ == self.spec_message(),
    {
        match self {
            McpServerError::Session(e) => {
                let m = e.message();
                concat2("Session error: ", m.as_str())
            },
            McpServerError::Registration(e) => {
                let m = e.message();
                concat2("Registration error: ", m.as_str())
            },
            McpServerError::Transport(s) => concat2("Transport error: ", s.as_str()),
            McpServerError::NotInitialized => owned("Server not initialized"),
            McpServerError::AlreadyRunning => owned("Server already running"),
            McpServerError::ShuttingDown => owned("Server is shutting down"),
            McpServerError::InvalidConfig(s) => concat2("Invalid configuration: ", s.as_str()),
            McpServerError::Timeout(s) => concat2("Request timed out: ", s.as_str()),
            McpServerError::Internal(s) => concat2("Internal error: ", s.as_str()),
        }
    }
}

} // verus!
