//! Factories that build the MCP server's configuration and schemas, for
//! deployments to implement.

use vstd::prelude::*;
use crate::mcp_server::value::{
    PromptArgument, PromptContent, PromptMessage, PromptMessageContent, PromptRole, PromptSchema,
    ResourceSchema, ServerCapabilities, ServerConfig, ToolSchema,
};

verus! {

/// Builds the server's configuration and capabilities.
pub trait McpServerFactory {
    /// The default server configuration.
    fn default_config(&self) -> ServerConfig;

    /// Capabilities for the given counts.
    fn build_server_capabilities(
        &self,
        tool_count: usize,
        resource_count: usize,
        prompt_count: usize,
        enterprise_enabled: bool,
    ) -> ServerCapabilities;
}

/// One parameter of a tool's input.
#[derive(Debug)]
pub struct ToolParameterDef {
    pub name: String,
    pub description: String,
    pub param_type: String,
    pub required: bool,
}

/// Builds tool schemas from parameter definitions.
pub trait ToolSchemaFactory {
    /// The schema of a tool with the given parameters.
    fn build_tool_schema(&self, name: &str, description: &str, parameters: Vec<ToolParameterDef>) -> ToolSchema;
}

/// Builds resource schemas.
pub trait ResourceSchemaFactory {
    /// The schema of a resource.
    fn build_resource_schema(&self, uri: &str, name: &str, description: &str, mime_type: &str) -> ResourceSchema;
}

/// Builds prompt schemas and prompt contents.
pub trait PromptSchemaFactory {
    /// The schema of a prompt.
    fn build_prompt_schema(&self, name: &str, description: &str, arguments: Vec<PromptArgument>) -> PromptSchema;

    /// The content of a prompt from its messages.
    fn build_prompt_content(&self, description: Option<String>, messages: Vec<(PromptRole, String)>) -> PromptContent;

    /// A prompt message of the given role holding the text.
    fn build_prompt_message(&self, role: PromptRole, text: String) -> (r: PromptMessage)
        default_ensures
            r.role == role,
            r.content matches PromptMessageContent::Text { text: t } && t@ == text@,
    {
        PromptMessage { role, content: PromptMessageContent::text(text.as_str()) }
    }
}

} // verus!
