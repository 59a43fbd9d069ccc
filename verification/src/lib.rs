//! Rigorix MCP gateway: the verified core of a Model Context Protocol server.
//!
//! The library holds the domain logic of the gateway: the server and session
//! lifecycle, the tool registry, the JSON-RPC message model, the mapping of
//! engine outcomes onto tool results and error taxonomies, and the template
//! validation rules. Transport, file system access and the engine itself live
//! in the application around it.

pub mod json;
pub mod text;
pub mod platform;
pub mod mcp_server;
pub mod execution_tools;
pub mod template_tools;
pub mod host;
pub mod gateway;
