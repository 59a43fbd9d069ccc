use rigorix_mcp::json::Json;
use rigorix_mcp::gateway::initialize_response;
use rigorix_mcp::mcp_server::dto::{
    CallToolOutput, EndSessionInput, InitializeInput, InitializeOutput, ReadResourceOutput,
    RegisterToolInput, UnregisterToolInput,
};
use rigorix_mcp::mcp_server::event::McpServerEvent;
use rigorix_mcp::mcp_server::registry::ToolHandler;
use rigorix_mcp::mcp_server::entity::Session;
use rigorix_mcp::mcp_server::repository::{
    InMemorySessionRepository, McpServerServiceWithRepos, SessionServiceImpl,
    ToolRegistryServiceImpl,
};
use rigorix_mcp::mcp_server::error::{McpServerError, RegistrationError, SessionError};
use rigorix_mcp::mcp_server::handlers::{
    CallToolHandlerImpl, CancelledHandlerImpl, GetPromptHandlerImpl, InitializeHandlerImpl,
    InitializedHandlerImpl, ListPromptsHandlerImpl, ListResourcesHandlerImpl,
    ListToolsHandlerImpl, ReadResourceHandlerImpl,
};
use rigorix_mcp::mcp_server::service::McpServerServiceImpl;
use rigorix_mcp::mcp_server::value::{
    ClientCapabilities, ClientInfo, ContentItem, JsonRpcError, RequestId, ServerCapabilities,
    SessionId, SessionStatus, ToolResult, ToolSchema,
};

fn obj(entries: Vec<(&str, Json)>) -> Json {
    Json::Object(entries.into_iter().map(|(k, v)| (k.to_string(), v)).collect())
}

fn text(s: &str) -> Json {
    Json::Str(s.to_string())
}

fn wired() -> McpServerServiceImpl {
    McpServerServiceImpl::new().with_executor(vec![
        ToolSchema::new("rigorix_execute", "Run", obj(vec![("type", text("object"))])),
        ToolSchema::new("rigorix_plan", "Plan", Json::Null),
    ])
}

#[test]
fn initialize_requires_protocol_version() {
    let h = InitializeHandlerImpl::new(McpServerServiceImpl::new());
    let e = h.handle_initialize(&obj(vec![])).unwrap_err();
    assert_eq!(e.code, -32602);
    assert_eq!(e.message, "Invalid params: Missing required field: protocolVersion");
}

#[test]
fn initialize_answers_server_document() {
    let h = InitializeHandlerImpl::new(McpServerServiceImpl::new());
    let doc = h
        .handle_initialize(&obj(vec![
            ("protocolVersion", text("2024-11-05")),
            ("clientInfo", obj(vec![("name", text("cursor"))])),
        ]))
        .unwrap();
    assert_eq!(doc.get("protocolVersion"), Some(&text("2025-03-26")));
    let info = doc.get("serverInfo").unwrap();
    assert_eq!(info.get("name"), Some(&text("Rigorix MCP Gateway")));
    assert_eq!(info.get("version"), Some(&text("0.1.0")));
    let caps = doc.get("capabilities").unwrap();
    assert_eq!(caps.get("tools"), Some(&obj(vec![])));
    assert_eq!(caps.get("resources"), Some(&obj(vec![])));
    assert_eq!(caps.get("prompts"), Some(&obj(vec![])));
}

#[test]
fn notifications_are_acknowledged() {
    assert!(InitializedHandlerImpl.handle_initialized("s").is_ok());
    assert!(CancelledHandlerImpl.handle_cancelled(&obj(vec![])).is_ok());
}

#[test]
fn list_tools_documents_every_tool() {
    let doc = ListToolsHandlerImpl::new(wired()).handle_list_tools().unwrap();
    match doc.get("tools") {
        Some(Json::Array(items)) => {
            assert_eq!(items.len(), 2);
            assert_eq!(items[0].get("name"), Some(&text("rigorix_execute")));
            assert_eq!(items[0].get("description"), Some(&text("Run")));
            assert_eq!(items[0].get("inputSchema"), Some(&obj(vec![("type", text("object"))])));
            assert_eq!(items[1].get("name"), Some(&text("rigorix_plan")));
            assert_eq!(items[1].get("inputSchema"), Some(&Json::Null));
        }
        other => panic!("unexpected {:?}", other),
    }
    let none = ListToolsHandlerImpl::new(McpServerServiceImpl::new()).handle_list_tools().unwrap();
    assert_eq!(none.get("tools"), Some(&Json::Array(vec![])));
}

#[test]
fn call_tool_request_reads_name_and_arguments() {
    let h = CallToolHandlerImpl::new(wired());
    let e = h.request(&obj(vec![("arguments", obj(vec![]))])).unwrap_err();
    assert_eq!(e.code, -32602);
    assert_eq!(e.message, "Invalid params: Missing required field: name");
    let i = h.request(&obj(vec![("name", text("rigorix_plan"))])).unwrap();
    assert_eq!(i.name, "rigorix_plan");
    assert_eq!(i.arguments, obj(vec![]));
    let j = h
        .request(&obj(vec![("name", text("rigorix_execute")), ("arguments", obj(vec![("x", text("1"))]))]))
        .unwrap();
    assert_eq!(j.arguments, obj(vec![("x", text("1"))]));
}

#[test]
fn call_tool_response_from_outcome() {
    let h = CallToolHandlerImpl::new(wired());
    let ok = h
        .respond(
            "rigorix_plan",
            Ok(CallToolOutput { content: vec![ContentItem::Text { text: "done".into() }], is_error: false }),
        )
        .unwrap();
    assert_eq!(
        ok,
        obj(vec![
            ("content", Json::Array(vec![obj(vec![("type", text("text")), ("text", text("done"))])])),
            ("isError", Json::Bool(false)),
        ])
    );
    let err = h.respond("rigorix_plan", Err(McpServerError::Internal("down".into()))).unwrap_err();
    assert_eq!(err.code, -32002);
    assert_eq!(err.message, "Tool execution failed: rigorix_plan - Internal error: down");
}

#[test]
fn resources_are_listed_and_read() {
    let doc = ListResourcesHandlerImpl::new(wired()).handle_list_resources().unwrap();
    match doc.get("resources") {
        Some(Json::Array(items)) => {
            assert_eq!(items.len(), 2);
            assert_eq!(items[0].get("uri"), Some(&text("rigorix://audit/{id}")));
            assert_eq!(items[1].get("uri"), Some(&text("rigorix://templates/{name}")));
            assert_eq!(items[1].get("mimeType"), Some(&text("text/plain")));
        }
        other => panic!("unexpected {:?}", other),
    }
    let h = ReadResourceHandlerImpl::new(wired());
    assert_eq!(h.request(&obj(vec![])).unwrap_err().message, "Invalid params: Missing required field: uri");
    assert_eq!(h.request(&obj(vec![("uri", text("rigorix://audit/1"))])).unwrap().uri, "rigorix://audit/1");
    let read = h
        .respond(Ok(ReadResourceOutput {
            uri: "rigorix://audit/1".into(),
            mime_type: "text/plain".into(),
            text: "trail".into(),
        }))
        .unwrap();
    match read.get("contents") {
        Some(Json::Array(items)) => {
            assert_eq!(items.len(), 1);
            assert_eq!(items[0].get("text"), Some(&text("trail")));
        }
        other => panic!("unexpected {:?}", other),
    }
    let failed = h.respond(Err(McpServerError::Internal("gone".into()))).unwrap_err();
    assert_eq!(failed.code, -32603);
    assert_eq!(failed.message, "Internal error: Internal error: gone");
}

#[test]
fn prompts_are_listed_and_answered() {
    let doc = ListPromptsHandlerImpl::new(wired()).handle_list_prompts().unwrap();
    match doc.get("prompts") {
        Some(Json::Array(items)) => {
            assert_eq!(items.len(), 1);
            assert_eq!(items[0].get("name"), Some(&text("rigorix_introduction")));
            assert_eq!(items[0].get("arguments"), Some(&Json::Array(vec![])));
        }
        other => panic!("unexpected {:?}", other),
    }
    let h = GetPromptHandlerImpl::new(wired());
    assert_eq!(h.handle_get_prompt(&obj(vec![])).unwrap_err().code, -32602);
    let intro = h.handle_get_prompt(&obj(vec![("name", text("rigorix_introduction"))])).unwrap();
    match intro.get("messages") {
        Some(Json::Array(ms)) => {
            assert_eq!(ms.len(), 1);
            assert_eq!(ms[0].get("role"), Some(&text("user")));
        }
        other => panic!("unexpected {:?}", other),
    }
    let missing = h.handle_get_prompt(&obj(vec![("name", text("other"))])).unwrap_err();
    assert_eq!(missing.code, -32603);
    assert_eq!(missing.message, "Internal error: Internal error: Prompt 'other' not found");
}

fn session(name: &str) -> Session {
    Session::new(
        ClientInfo { name: name.to_string(), version: None },
        ClientCapabilities {
            protocol_version: "2025-03-26".to_string(),
            client_name: Some(name.to_string()),
            client_version: None,
            supports_progress: false,
        },
        ServerCapabilities::default_with_counts(0, 2, 1),
    )
}

#[test]
fn session_repository_saves_finds_and_deletes() {
    let mut repo = InMemorySessionRepository::new();
    let a = session("cursor");
    let b = session("aider");
    repo.save(&a);
    repo.save(&b);
    assert_eq!(repo.count(), 2);
    assert_eq!(repo.find_by_id(&a.id).unwrap().client_info.name, "cursor");
    let mut a2 = a.duplicate();
    a2.mark_initialized().unwrap();
    repo.save(&a2);
    assert_eq!(repo.count(), 2);
    assert!(repo.find_by_id(&a.id).unwrap().initialized);
    repo.delete(&a.id);
    assert!(repo.find_by_id(&a.id).is_none());
    assert_eq!(repo.count(), 1);
    assert_eq!(repo.find_by_id(&b.id).unwrap().client_info.name, "aider");
    repo.delete(&a.id);
    assert_eq!(repo.count(), 1);
}

#[test]
fn session_repository_lists_only_active() {
    let mut repo = InMemorySessionRepository::new();
    let a = session("one");
    let mut b = session("two");
    b.status = SessionStatus::Ended;
    repo.save(&a);
    repo.save(&b);
    let active = repo.list_active();
    assert_eq!(active.len(), 1);
    assert_eq!(active[0].id, a.id);
    assert_eq!(repo.count(), 2);
}

#[test]
fn session_service_over_empty_repository() {
    let mut svc = SessionServiceImpl::new();
    let out = svc.list_sessions();
    assert_eq!(out.total, 0);
    assert!(out.sessions.is_empty());
    let sid = SessionId::from_uuid(7);
    match svc.end_session(EndSessionInput { session_id: sid, reason: "done".into() }) {
        Err(McpServerError::Session(SessionError::NotFound(m))) => assert_eq!(m, sid.to_text()),
        other => panic!("unexpected {:?}", other),
    }
    assert_eq!(sid.to_text(), "00000000-0000-0000-0000-000000000007");
    assert!(svc.validate_session(&SessionId::from_uuid(7)).is_ok());
    assert_eq!(svc.evict_expired().unwrap(), 0);
}

struct NamedHandler {
    schema: ToolSchema,
}

impl ToolHandler for NamedHandler {
    fn handle(&self, _params: Json) -> Result<ToolResult, JsonRpcError> {
        Ok(ToolResult::text(&self.schema.name))
    }

    fn schema(&self) -> &ToolSchema {
        &self.schema
    }
}

fn named(name: &str) -> NamedHandler {
    NamedHandler { schema: ToolSchema::new(name, "d", Json::Null) }
}

#[test]
fn tool_registry_service_keeps_handlers_by_name() {
    let mut svc: ToolRegistryServiceImpl<NamedHandler> = ToolRegistryServiceImpl::new();
    assert!(!svc.is_tool_registered("rigorix_plan"));
    let out = svc
        .register_tool(
            RegisterToolInput { schema: ToolSchema::new("rigorix_plan", "Plan", Json::Null), is_enterprise: false },
            named("rigorix_plan"),
        )
        .unwrap();
    assert_eq!(out.name, "rigorix_plan");
    assert!(out.registered);
    assert_eq!(out.total_tools, 1);
    assert!(svc.is_tool_registered("rigorix_plan"));
    assert_eq!(svc.find_tool("rigorix_plan").unwrap().unwrap().schema().name, "rigorix_plan");
    assert!(svc.find_tool("rigorix_run").unwrap().is_none());
    assert!(svc.list_tool_schemas().unwrap().is_empty());
    assert!(svc.register_enterprise_tools(vec![], named("x")).unwrap().is_empty());
    let gone = svc.unregister_tool(UnregisterToolInput { name: "rigorix_plan".into() }).unwrap();
    assert_eq!(gone.name, "rigorix_plan");
    assert_eq!(gone.total_tools, 0);
    assert!(!svc.is_tool_registered("rigorix_plan"));
}

#[test]
fn service_with_repos_saves_initialized_session() {
    let mut svc = McpServerServiceWithRepos::new(InMemorySessionRepository::new());
    let input = InitializeInput {
        protocol_version: "2024-11-05".to_string(),
        client_info: ClientInfo { name: "cursor".to_string(), version: Some("1.2".to_string()) },
        capabilities: ClientCapabilities {
            protocol_version: "2024-11-05".to_string(),
            client_name: Some("cursor".to_string()),
            client_version: Some("1.2".to_string()),
            supports_progress: false,
        },
    };
    let (out, events) = svc.initialize(input).unwrap();
    assert_eq!(out.protocol_version, "2025-03-26");
    assert_eq!(out.server_info, "Rigorix MCP Gateway");
    assert_eq!(events.len(), 1);
    let id = match &events[0] {
        McpServerEvent::McpSessionStarted { session_id, client_name, protocol_version, .. } => {
            assert_eq!(client_name, "cursor");
            assert_eq!(protocol_version, "2024-11-05");
            *session_id
        }
        other => panic!("unexpected {:?}", other),
    };
    assert_eq!(svc.session_repo.count(), 1);
    let saved = svc.session_repo.find_by_id(&id).unwrap();
    assert_eq!(saved.client_info.name, "cursor");
    assert_eq!(saved.status, SessionStatus::Pending);
    assert!(!saved.initialized);
}

#[test]
fn initialize_response_renders_outcome() {
    let ok = initialize_response(
        RequestId::Number(1),
        Ok((
            InitializeOutput {
                protocol_version: "2025-03-26".to_string(),
                server_capabilities: ServerCapabilities::default_with_counts(0, 2, 1),
                server_info: "Rigorix MCP Gateway".to_string(),
            },
            vec![],
        )),
    );
    assert_eq!(ok.id, Some(RequestId::Number(1)));
    let doc = ok.result.unwrap();
    assert_eq!(doc.get("protocolVersion"), Some(&text("2025-03-26")));
    let err = initialize_response(RequestId::Number(2), Err(McpServerError::Internal("x".into())));
    let e = err.error.unwrap();
    assert_eq!(e.code, -32603);
    assert_eq!(e.message, "Internal error: initialize failed: Internal error: x");
}

#[test]
fn tool_registry_service_refuses_bad_names_and_duplicates() {
    let mut svc: ToolRegistryServiceImpl<NamedHandler> = ToolRegistryServiceImpl::new();
    let reg = |name: &str, enterprise: bool| RegisterToolInput {
        schema: ToolSchema::new(name, "d", Json::Null),
        is_enterprise: enterprise,
    };
    match svc.register_tool(reg("invalid_name", false), named("invalid_name")) {
        Err(McpServerError::Registration(RegistrationError::InvalidName(m))) => {
            assert_eq!(m, "Tool 'invalid_name' must start with 'rigorix_' prefix")
        }
        other => panic!("unexpected {:?}", other.map(|o| o.name)),
    }
    assert!(!svc.is_tool_registered("invalid_name"));
    assert!(matches!(
        svc.register_tool(reg("rigorix_enterprise_x", false), named("x")),
        Err(McpServerError::Registration(RegistrationError::EnterpriseRegistrationForbidden))
    ));
    assert!(matches!(
        svc.register_tool(reg("rigorix_x", true), named("x")),
        Err(McpServerError::Registration(RegistrationError::InvalidName(_)))
    ));
    assert_eq!(svc.register_tool(reg("rigorix_enterprise_x", true), named("x")).unwrap().total_tools, 1);
    assert_eq!(svc.register_tool(reg("rigorix_plan", false), named("p")).unwrap().total_tools, 2);
    assert!(matches!(
        svc.register_tool(reg("rigorix_plan", false), named("p")),
        Err(McpServerError::Registration(RegistrationError::AlreadyRegistered(n))) if n == "rigorix_plan"
    ));
    assert!(matches!(
        svc.register_tool(reg("", false), named("p")),
        Err(McpServerError::Registration(RegistrationError::InvalidName(m))) if m == "Tool name cannot be empty"
    ));
}

#[test]
fn initialize_request_reads_what_the_service_gets() {
    let h = InitializeHandlerImpl::new(McpServerServiceImpl::new());
    assert_eq!(h.request(&obj(vec![])).unwrap_err().code, -32602);
    let i = h
        .request(&obj(vec![
            ("protocolVersion", text("2024-11-05")),
            ("clientInfo", obj(vec![("name", text("aider")), ("version", text("0.9"))])),
        ]))
        .unwrap();
    assert_eq!(i.protocol_version, "2024-11-05");
    assert_eq!(i.client_info.name, "aider");
    assert_eq!(i.client_info.version, Some("0.9".to_string()));
    assert!(!i.capabilities.supports_progress);
    let j = h.request(&obj(vec![("protocolVersion", text("v"))])).unwrap();
    assert_eq!(j.client_info.name, "unknown");
    assert_eq!(j.client_info.version, None);
}

#[test]
fn call_tool_handler_calls_once_and_answers_the_outcome() {
    let h = CallToolHandlerImpl::new(wired());
    let calls = std::cell::Cell::new(0);
    let missing = h.handle_call_tool(&obj(vec![]), |_n, _a| {
        calls.set(calls.get() + 1);
        Ok(CallToolOutput { content: vec![], is_error: false })
    });
    assert_eq!(missing.unwrap_err().code, -32602);
    assert_eq!(calls.get(), 0);
    let ok = h
        .handle_call_tool(&obj(vec![("name", text("rigorix_plan"))]), |n, a| {
            calls.set(calls.get() + 1);
            assert_eq!(n, "rigorix_plan");
            assert_eq!(a, obj(vec![]));
            Ok(CallToolOutput { content: vec![ContentItem::Text { text: "x".into() }], is_error: true })
        })
        .unwrap();
    assert_eq!(calls.get(), 1);
    assert_eq!(ok.get("isError"), Some(&Json::Bool(true)));
    let err = h
        .handle_call_tool(&obj(vec![("name", text("rigorix_plan"))]), |_n, _a| {
            Err(McpServerError::Internal("down".into()))
        })
        .unwrap_err();
    assert_eq!(err.code, -32002);
    assert_eq!(err.message, "Tool execution failed: rigorix_plan - Internal error: down");
}
