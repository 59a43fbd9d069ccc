//! The MCP server's application service: starting the server, initializing
//! sessions, listing and calling tools, resources and prompts. Tool calls and
//! resource reads are carried out by the executor the application wires in;
//! this service decides what is asked of it and what its outcome answers.

use vstd::prelude::*;
use vstd::string::StringExecFns;
use crate::platform::{fresh_uuid, now_millis};
use crate::text::{concat3, str_eq};
use crate::mcp_server::dto::{
    CallToolOutput, GetPromptInput, GetPromptOutput, InitializeInput, InitializeOutput,
    ListPromptsOutput, ListResourcesOutput, ListToolsInput, ListToolsOutput, PromptContentDto,
    PromptMessageDto, ReadResourceOutput, ServerStatusInfo, StartServerInput, StartServerOutput,
    ToolFilter,
};
use crate::mcp_server::entity::{McpServer, McpServerStatus};
use crate::mcp_server::error::McpServerError;
use crate::mcp_server::event::McpServerEvent;
use crate::mcp_server::registry::ToolRegistry;
use crate::mcp_server::value::{is_enterprise_name, is_oss_name, ContentItem, PromptSchema, ResourceSchema, ServerCapabilities, SessionId, ToolSchema, ToolSchemaV};

verus! {

/// The schemas a filter keeps, in order.
pub open spec fn kept_tools(s: Seq<ToolSchemaV>, f: Option<ToolFilter>) -> Seq<ToolSchemaV>
    decreases s.len(),
{
    if s.len() == 0 {
        Seq::empty()
    } else {
        let rest = kept_tools(s.drop_last(), f);
        let t = s.last();
        let keep = match f {
            Some(ToolFilter::Oss) => is_oss_name(t.name),
            Some(ToolFilter::Enterprise) => is_enterprise_name(t.name),
            _ => true,
        };
        if keep {
            rest.push(t)
        } else {
            rest
        }
    }
}

/// The text of the introduction prompt.
pub open spec fn introduction_text() -> Seq<char> {
    "You are using Rigorix, an AI code-governance engine that plans, executes, and audits multi-step work against a frozen contract.\n\nKey capabilities:\n  • rigorix_list_templates / rigorix_get_template — inspect plan templates\n  • rigorix_validate_plan — check a plan against enforcement policies\n  • rigorix_run — execute a template's DAG through the engine\n  • rigorix_approve_execution — human sign-off when a step requires it\n    (plans may mark steps requires_approval: true; execution pauses until approved)\n  • rigorix_check_enforcement — current enforcement status and budget\n  • rigorix_get_execution_status / rigorix_get_audit_log — inspect evidence\n\nAll execution is gated: budgets, safety caps, tool policy, and (when configured) a permission mode (read_only / workspace_write / dangerous_full_access). Every audit event is timestamped and, when a signing key is configured, HMAC-signed for tamper-evident evidence.\n\nStart by listing templates, then run one with rigorix_run."@
}

/// The text of the introduction prompt.
pub fn introduction_prompt_text() -> (r: &'static str)
    ensures
        r@ == introduction_text(),
{
    "You are using Rigorix, an AI code-governance engine that plans, executes, and audits multi-step work against a frozen contract.\n\nKey capabilities:\n  • rigorix_list_templates / rigorix_get_template — inspect plan templates\n  • rigorix_validate_plan — check a plan against enforcement policies\n  • rigorix_run — execute a template's DAG through the engine\n  • rigorix_approve_execution — human sign-off when a step requires it\n    (plans may mark steps requires_approval: true; execution pauses until approved)\n  • rigorix_check_enforcement — current enforcement status and budget\n  • rigorix_get_execution_status / rigorix_get_audit_log — inspect evidence\n\nAll execution is gated: budgets, safety caps, tool policy, and (when configured) a permission mode (read_only / workspace_write / dangerous_full_access). Every audit event is timestamped and, when a signing key is configured, HMAC-signed for tamper-evident evidence.\n\nStart by listing templates, then run one with rigorix_run."
}

/// The message of a service without a wired executor.
pub open spec fn unwired_message() -> Seq<char> {
    "No tool executor wired — server is not connected to a backend"@
}

/// The MCP server's application service.
pub struct McpServerServiceImpl {
    server: Option<McpServer>,
    registry: Option<ToolRegistry>,
    executor_wired: bool,
    tool_schemas: Vec<ToolSchema>,
}

impl McpServerServiceImpl {
    /// The schemas of the tools the executor serves.
    pub closed spec fn spec_tools(&self) -> Seq<ToolSchemaV> {
        self.tool_schemas@.map_values(|t: ToolSchema| t@)
    }

    /// Whether an executor is wired in.
    pub closed spec fn spec_wired(&self) -> bool {
        self.executor_wired
    }

    /// The started server, if any.
    pub closed spec fn spec_server(&self) -> Option<McpServer> {
        self.server
    }

    /// A service with no executor and no tools.
    pub fn new() -> (r: McpServerServiceImpl)
        ensures
            !r.spec_wired(),
            r.spec_tools().len() == 0,
            r.spec_server() is None,
    {
        let r = McpServerServiceImpl {
            server: None,
            registry: None,
            executor_wired: false,
            tool_schemas: Vec::new(),
        };
        assert(r.spec_tools() =~= Seq::<ToolSchemaV>::empty());
        r
    }

    /// The service with an executor wired in, serving the given tools.
    pub fn with_executor(self, tool_schemas: Vec<ToolSchema>) -> (r: McpServerServiceImpl)
        ensures
            r.spec_wired(),
            r.spec_tools() == tool_schemas@.map_values(|t: ToolSchema| t@),
            r.spec_server() == self.spec_server(),
    {
        McpServerServiceImpl { executor_wired: true, tool_schemas, ..self }
    }

    /// Whether an executor is wired in.
    pub fn has_executor(&self) -> (r: bool)
        ensures
            r == self.spec_wired(),
    {
        self.executor_wired
    }

    /// Starts a new server with the given configuration and an empty
    /// registry; a new server always starts.
    pub fn start(&mut self, input: StartServerInput) -> (r: Result<StartServerOutput, McpServerError>)
        ensures
            r is Ok,
            r->Ok_0.started,
            final(self).spec_server() is Some,
            final(self).spec_server()->0@.id == r->Ok_0.server_id,
            final(self).spec_server()->0@.status == McpServerStatus::Initializing,
            final(self).spec_tools() == old(self).spec_tools(),
            final(self).spec_wired() == old(self).spec_wired(),
    {
        let mut server = McpServer::new(input.config);
        let started = server.start();
        match started {
            Ok(_) => {},
            Err(e) => {
                proof {
                    assert(false);
                }
                return Err(e);
            },
        }
        let server_id = server.id();
        self.registry = Some(ToolRegistry::default_registry());
        self.server = Some(server);
        Ok(StartServerOutput { started: true, server_id })
    }

    /// Shuts the service down; there is nothing to release.
    pub fn shutdown(&self) -> (r: Result<(), McpServerError>)
        ensures
            r is Ok,
    {
        Ok(())
    }

    /// Initializes a session: the gateway's protocol version and default
    /// capabilities (no tools counted, two resources, one prompt), and one
    /// session-started event naming the client and its protocol version.
    pub fn initialize(&self, input: InitializeInput) -> (r: (InitializeOutput, Vec<McpServerEvent>))
        ensures
            r.0.protocol_version@ == "2025-03-26"@,
            r.0.server_info@ == "Rigorix MCP Gateway"@,
            r.0.server_capabilities.tool_count == 0,
            r.0.server_capabilities.resource_count == 2,
            r.0.server_capabilities.prompt_count == 1,
            r.1.len() == 1,
            r.1[0] matches McpServerEvent::McpSessionStarted {
                client_name,
                client_version,
                protocol_version,
                ..
            } && client_name@ == input.client_info.name@ && client_version
                == input.client_info.version && protocol_version@ == input.protocol_version@,
    {
        let caps = ServerCapabilities::default_with_counts(0, 2, 1);
        let output = InitializeOutput {
            protocol_version: String::from_str("2025-03-26"),
            server_capabilities: caps,
            server_info: String::from_str("Rigorix MCP Gateway"),
        };
        let event = McpServerEvent::McpSessionStarted {
            session_id: SessionId::new(),
            client_name: input.client_info.name.clone(),
            client_version: input.client_info.version,
            protocol_version: input.protocol_version,
            timestamp: now_millis(),
        };
        (output, vec![event])
    }

    /// The served tools that pass the filter, in order: open-source,
    /// enterprise, or all (also without a filter).
    pub fn list_tools(&self, input: ListToolsInput) -> (r: ListToolsOutput)
        ensures
            r.tools@.map_values(|t: ToolSchema| t@) == kept_tools(self.spec_tools(), input.filter),
    {
        let ghost all = self.spec_tools();
        let mut tools: Vec<ToolSchema> = Vec::new();
        let mut i: usize = 0;
        while i < self.tool_schemas.len()
            invariant
                all == self.tool_schemas@.map_values(|t: ToolSchema| t@),
                i <= self.tool_schemas.len(),
                tools@.map_values(|t: ToolSchema| t@) == kept_tools(all.subrange(0, i as int), input.filter),
            decreases self.tool_schemas.len() - i,
        {
            let t = &self.tool_schemas[i];
            assert(all.subrange(0, i + 1).drop_last() =~= all.subrange(0, i as int));
            assert(all.subrange(0, i + 1).last() == t@);
            let keep = match input.filter {
                Some(ToolFilter::Oss) => t.is_oss_tool(),
                Some(ToolFilter::Enterprise) => t.is_enterprise_tool(),
                _ => true,
            };
            if keep {
                tools.push(t.duplicate());
            }
            assert(tools@.map_values(|t: ToolSchema| t@) =~= kept_tools(
                all.subrange(0, i + 1),
                input.filter,
            ));
            i = i + 1;
        }
        assert(all.subrange(0, all.len() as int) =~= all);
        ListToolsOutput { tools }
    }

    /// The error of a call or read that no executor can carry out.
    pub fn executor_missing() -> (r: McpServerError)
        ensures
            r matches McpServerError::Internal(m) && m@ == unwired_message(),
    {
        McpServerError::Internal(
            String::from_str("No tool executor wired — server is not connected to a backend"),
        )
    }

    /// The answer to a tool call from the executor's outcome: its result (as
    /// JSON text) as one text item, or its error text as an error.
    pub fn call_tool_output(outcome: Result<String, String>) -> (r: CallToolOutput)
        ensures
            r.content@.len() == 1,
            match outcome {
                Ok(t) => !r.is_error && (r.content@[0] matches ContentItem::Text { text } && text@
                    == t@),
                Err(e) => r.is_error && (r.content@[0] matches ContentItem::Text { text } && text@
                    == e@),
            },
    {
        match outcome {
            Ok(t) => CallToolOutput { content: vec![ContentItem::Text { text: t }], is_error: false },
            Err(e) => CallToolOutput { content: vec![ContentItem::Text { text: e }], is_error: true },
        }
    }

    /// The two resources the gateway serves: audit trails and templates.
    pub fn list_resources(&self) -> (r: ListResourcesOutput)
        ensures
            r.resources@.len() == 2,
            r.resources@[0].uri@ == "rigorix://audit/{id}"@,
            r.resources@[0].name@ == "Audit Trail"@,
            r.resources@[0].description@ == "Read an audit trail by execution ID"@,
            r.resources@[0].mime_type@ == "text/plain"@,
            r.resources@[1].uri@ == "rigorix://templates/{name}"@,
            r.resources@[1].name@ == "Template"@,
            r.resources@[1].description@ == "Read a template by name"@,
            r.resources@[1].mime_type@ == "text/plain"@,
    {
        ListResourcesOutput {
            resources: vec![
                ResourceSchema::new(
                    "rigorix://audit/{id}",
                    "Audit Trail",
                    "Read an audit trail by execution ID",
                    "text/plain",
                ),
                ResourceSchema::new(
                    "rigorix://templates/{name}",
                    "Template",
                    "Read a template by name",
                    "text/plain",
                ),
            ],
        }
    }

    /// The answer to a resource read from the executor's outcome: the text
    /// as plain text under the requested URI, or the executor's error.
    pub fn read_resource_output(uri: String, outcome: Result<String, String>) -> (r: Result<
        ReadResourceOutput,
        McpServerError,
    >)
        ensures
            match outcome {
                Ok(t) => r matches Ok(o) && o.uri@ == uri@ && o.mime_type@ == "text/plain"@
                    && o.text@ == t@,
                Err(e) => r matches Err(McpServerError::Internal(m)) && m@ == e@,
            },
    {
        match outcome {
            Ok(text) => Ok(ReadResourceOutput { uri, mime_type: String::from_str("text/plain"), text }),
            Err(e) => Err(McpServerError::Internal(e)),
        }
    }

    /// The one prompt the gateway serves.
    pub fn list_prompts(&self) -> (r: ListPromptsOutput)
        ensures
            r.prompts@.len() == 1,
            r.prompts@[0].name@ == "rigorix_introduction"@,
            r.prompts@[0].description@ == "Introduction to Rigorix tool usage"@,
            r.prompts@[0].arguments@.len() == 0,
    {
        ListPromptsOutput {
            prompts: vec![
                PromptSchema::new(
                    "rigorix_introduction",
                    "Introduction to Rigorix tool usage",
                    Vec::new(),
                ),
            ],
        }
    }

    /// The introduction prompt as one user message; any other name is
    /// unknown.
    pub fn get_prompt(&self, input: GetPromptInput) -> (r: Result<GetPromptOutput, McpServerError>)
        ensures
            input.name@ == "rigorix_introduction"@ ==> {
                &&& r is Ok
                &&& r->Ok_0.description is Some
                &&& r->Ok_0.description->0@ == "Introduction to Rigorix tool usage"@
                &&& r->Ok_0.messages@.len() == 1
                &&& r->Ok_0.messages@[0].role@ == "user"@
                &&& r->Ok_0.messages@[0].content matches PromptContentDto::Text { text } && text@
                    == introduction_text()
            },
            input.name@ != "rigorix_introduction"@ ==> (r matches Err(McpServerError::Internal(m))
                && m@ == "Prompt '"@ + input.name@ + "' not found"@),
    {
        if str_eq(input.name.as_str(), "rigorix_introduction") {
            Ok(
                GetPromptOutput {
                    description: Some(String::from_str("Introduction to Rigorix tool usage")),
                    messages: vec![
                        PromptMessageDto {
                            role: String::from_str("user"),
                            content: PromptContentDto::Text {
                                text: String::from_str(introduction_prompt_text()),
                            },
                        },
                    ],
                },
            )
        } else {
            Err(McpServerError::Internal(concat3("Prompt '", input.name.as_str(), "' not found")))
        }
    }

    /// The status report: running over stdio, no sessions counted, the
    /// number of served tools and whether any is an enterprise tool.
    pub fn status(&self) -> (r: ServerStatusInfo)
        ensures
            r.status@ == "running"@,
            r.transport_mode matches Some(t) && t@ == "stdio"@,
            r.active_sessions == 0,
            r.registered_tools == self.spec_tools().len(),
            r.has_enterprise_tools == exists|i: int|
                0 <= i < self.spec_tools().len() && is_enterprise_name(
                    #[trigger] self.spec_tools()[i].name,
                ),
            r.started_at is Some,
    {
        let mut any = false;
        let mut i: usize = 0;
        while i < self.tool_schemas.len()
            invariant
                i <= self.tool_schemas.len(),
                self.spec_tools() == self.tool_schemas@.map_values(|t: ToolSchema| t@),
                any == exists|j: int|
                    0 <= j < i && is_enterprise_name(#[trigger] self.spec_tools()[j].name),
            decreases self.tool_schemas.len() - i,
        {
            assert(self.spec_tools()[i as int] == self.tool_schemas@[i as int]@);
            if self.tool_schemas[i].is_enterprise_tool() {
                any = true;
                assert(is_enterprise_name(self.spec_tools()[i as int].name));
            } else {
                assert(!is_enterprise_name(self.spec_tools()[i as int].name));
                assert forall|j: int| 0 <= j < i + 1 && is_enterprise_name(
                    #[trigger] self.spec_tools()[j].name,
                ) implies j < i by {}
            }
            i = i + 1;
        }
        ServerStatusInfo {
            id: fresh_uuid(),
            status: String::from_str("running"),
            transport_mode: Some(String::from_str("stdio")),
            active_sessions: 0,
            registered_tools: self.tool_schemas.len(),
            has_enterprise_tools: any,
            started_at: Some(now_millis()),
        }
    }
}

} // verus!
