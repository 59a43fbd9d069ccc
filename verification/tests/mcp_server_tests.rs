use rigorix_mcp::json::Json;
use rigorix_mcp::mcp_server::dto::{ListToolsInput, StartServerInput, ToolFilter};
use rigorix_mcp::mcp_server::entity::{McpServer, McpServerStatus, Session};
use rigorix_mcp::mcp_server::error::{McpServerError, RegistrationError, SessionError};
use rigorix_mcp::mcp_server::event::McpServerEvent;
use rigorix_mcp::mcp_server::registry::{ToolHandler, ToolRegistry};
use rigorix_mcp::mcp_server::service::McpServerServiceImpl;
use rigorix_mcp::mcp_server::value::{
    ClientCapabilities, ClientInfo, JsonRpcError, JsonRpcMessage, RequestId, ServerCapabilities,
    ServerConfig, SessionId, SessionStatus, ToolResult, ToolSchema, TransportMode,
};

struct TestHandler {
    schema: ToolSchema,
}

impl ToolHandler for TestHandler {
    fn handle(&self, _params: Json) -> Result<ToolResult, JsonRpcError> {
        Ok(ToolResult::text("ok"))
    }

    fn schema(&self) -> &ToolSchema {
        &self.schema
    }
}

fn make_handler(name: &str) -> TestHandler {
    TestHandler { schema: ToolSchema::new(name, "test", Json::Object(vec![])) }
}

fn empty() -> Json {
    Json::Object(vec![])
}

fn client(name: &str, version: Option<&str>) -> ClientInfo {
    ClientInfo { name: name.to_string(), version: version.map(|v| v.to_string()) }
}

fn caps(name: Option<&str>, version: Option<&str>) -> ClientCapabilities {
    ClientCapabilities {
        protocol_version: "2025-03-26".to_string(),
        client_name: name.map(|n| n.to_string()),
        client_version: version.map(|v| v.to_string()),
        supports_progress: false,
    }
}

fn running_server(max_sessions: usize) -> McpServer {
    let mut config = ServerConfig::default();
    config.max_sessions = max_sessions;
    let mut server = McpServer::new(config);
    server.start().unwrap();
    server.on_transport_opened(TransportMode::Stdio).unwrap();
    server
}

#[test]
fn test_tool_registry_register_and_list() {
    let mut registry = ToolRegistry::default();
    let schema = ToolSchema::new("rigorix_test", "Test tool", empty());
    let handler = make_handler("rigorix_test");

    let result = registry.register(schema, &handler);
    assert!(result.is_ok());
    assert_eq!(registry.tool_count(), 1);
    assert_eq!(registry.list_schemas().len(), 1);
}

#[test]
fn test_tool_registry_rejects_duplicate() {
    let mut registry = ToolRegistry::default();
    let schema1 = ToolSchema::new("rigorix_test", "Test tool", empty());
    let schema2 = ToolSchema::new("rigorix_test", "Duplicate", empty());
    let handler1 = make_handler("rigorix_test");
    let handler2 = make_handler("rigorix_test");

    assert!(registry.register(schema1, &handler1).is_ok());
    assert!(matches!(
        registry.register(schema2, &handler2),
        Err(RegistrationError::AlreadyRegistered(_))
    ));
}

#[test]
fn test_tool_registry_rejects_invalid_prefix() {
    let mut registry = ToolRegistry::default();
    let schema = ToolSchema::new("invalid_name", "No prefix", empty());
    let handler = make_handler("invalid_name");

    assert!(matches!(registry.register(schema, &handler), Err(RegistrationError::InvalidName(_))));
}

#[test]
fn test_tool_registry_enterprise_registration() {
    let mut registry = ToolRegistry::default();
    let schema = ToolSchema::new("rigorix_enterprise_custom", "Enterprise tool", empty());
    let handler = make_handler("rigorix_enterprise_custom");

    assert!(registry.register_enterprise(schema, &handler).is_ok());
    assert!(registry.has_enterprise_tools());
    assert_eq!(registry.oss_tool_count(), 0);
}

#[test]
fn test_tool_registry_enterprise_through_oss_fails() {
    let mut registry = ToolRegistry::default();
    let schema = ToolSchema::new("rigorix_enterprise_custom", "Enterprise tool", empty());
    let handler = make_handler("rigorix_enterprise_custom");

    assert!(matches!(
        registry.register(schema, &handler),
        Err(RegistrationError::EnterpriseRegistrationForbidden)
    ));
}

#[test]
fn test_session_lifecycle() {
    let session = Session::new(
        client("test-client", Some("1.0")),
        caps(Some("test-client"), Some("1.0")),
        ServerCapabilities::default_with_counts(0, 0, 0),
    );

    assert_eq!(session.status, SessionStatus::Pending);
    assert!(!session.initialized);
}

#[test]
fn test_mcp_server_create_and_start() {
    let config = ServerConfig::default();
    let mut server = McpServer::new(config);

    assert_eq!(server.status(), McpServerStatus::Stopped);

    let events = server.start();
    assert!(events.is_ok());
    assert_eq!(server.status(), McpServerStatus::Initializing);

    let transport_events = server.on_transport_opened(TransportMode::Stdio);
    assert!(transport_events.is_ok());
    assert_eq!(server.status(), McpServerStatus::Running);
}

#[test]
fn test_mcp_server_rejects_session_before_start() {
    let config = ServerConfig::default();
    let mut server = McpServer::new(config);

    let result = server.create_session(
        client("test", None),
        caps(None, None),
        ServerCapabilities::default_with_counts(0, 0, 0),
    );

    assert!(matches!(result, Err(McpServerError::NotInitialized)));
}

#[test]
fn unregister_after_register_leaves_registry_empty() {
    let mut registry = ToolRegistry::default();
    let handler = make_handler("rigorix_test");
    registry.register(ToolSchema::new("rigorix_test", "Test tool", empty()), &handler).unwrap();
    assert!(registry.is_registered("rigorix_test"));
    registry.unregister("rigorix_test").unwrap();
    assert_eq!(registry.tool_count(), 0);
    assert!(!registry.is_registered("rigorix_test"));
    assert!(matches!(registry.unregister("rigorix_test"), Err(RegistrationError::NotFound(_))));
}

#[test]
fn registry_refuses_past_its_limit_and_empty_names() {
    let mut registry = ToolRegistry::new(1);
    let handler = make_handler("rigorix_a");
    registry.register(ToolSchema::new("rigorix_a", "a", empty()), &handler).unwrap();
    assert!(matches!(
        registry.register(ToolSchema::new("rigorix_b", "b", empty()), &handler),
        Err(RegistrationError::MaxToolsReached(1))
    ));
    assert!(matches!(
        registry.register(ToolSchema::new("", "empty", empty()), &handler),
        Err(RegistrationError::InvalidName(_))
    ));
    assert_eq!(registry.tool_count(), 1);
}

#[test]
fn session_end_after_create_restores_sessions() {
    let mut server = running_server(10);
    let (session, events) = server
        .create_session(client("c", Some("2")), caps(Some("c"), Some("2")), ServerCapabilities::default_with_counts(0, 0, 0))
        .unwrap();
    assert_eq!(events.len(), 1);
    assert!(matches!(events[0], McpServerEvent::McpSessionStarted { .. }));
    assert_eq!(server.session_count(), 1);
    let ended = server.end_session(session.id, "done").unwrap();
    assert_eq!(ended.len(), 1);
    assert_eq!(server.session_count(), 0);
    match server.end_session(session.id, "again") {
        Err(McpServerError::Session(SessionError::NotFound(id))) => {
            assert_eq!(id, session.id.to_text())
        }
        other => panic!("unexpected: {:?}", other),
    }
}

#[test]
fn session_limit_is_enforced() {
    let mut server = running_server(1);
    server
        .create_session(client("a", None), caps(None, None), ServerCapabilities::default_with_counts(0, 0, 0))
        .unwrap();
    let second = server.create_session(
        client("b", None),
        caps(None, None),
        ServerCapabilities::default_with_counts(0, 0, 0),
    );
    assert!(matches!(
        second,
        Err(McpServerError::Session(SessionError::MaxSessionsReached(1)))
    ));
}

#[test]
fn shutdown_ends_every_session() {
    let mut server = running_server(5);
    for name in ["a", "b"] {
        server
            .create_session(client(name, None), caps(None, None), ServerCapabilities::default_with_counts(0, 0, 0))
            .unwrap();
    }
    let events = server.shutdown().unwrap();
    assert_eq!(events.len(), 2);
    assert_eq!(server.session_count(), 0);
    assert_eq!(server.status(), McpServerStatus::Stopped);
    assert!(server.active_transport().is_none());
}

#[test]
fn start_twice_is_refused() {
    let mut server = McpServer::new(ServerConfig::default());
    server.start().unwrap();
    assert!(matches!(server.start(), Err(McpServerError::AlreadyRunning)));
}

#[test]
fn error_codes_and_messages() {
    assert_eq!(SessionError::NotFound("x".into()).error_code(), "SESSION_NOT_FOUND");
    assert_eq!(SessionError::MaxSessionsReached(3).message(), "Maximum sessions reached (3)");
    assert!(SessionError::Timeout("t".into()).is_retriable());
    assert_eq!(RegistrationError::MaxToolsReached(5).error_code(), "MAX_TOOLS_REACHED");
    assert_eq!(McpServerError::NotInitialized.http_status(), 503);
}

#[test]
fn service_lists_tools_by_filter() {
    let service = McpServerServiceImpl::new().with_executor(vec![
        ToolSchema::new("rigorix_execute", "run", empty()),
        ToolSchema::new("rigorix_enterprise_audit", "ent", empty()),
    ]);
    let oss = service.list_tools(ListToolsInput { filter: Some(ToolFilter::Oss) });
    assert_eq!(oss.tools.len(), 1);
    assert_eq!(oss.tools[0].name, "rigorix_execute");
    let ent = service.list_tools(ListToolsInput { filter: Some(ToolFilter::Enterprise) });
    assert_eq!(ent.tools.len(), 1);
    assert_eq!(ent.tools[0].name, "rigorix_enterprise_audit");
    let all = service.list_tools(ListToolsInput { filter: None });
    assert_eq!(all.tools.len(), 2);
    let status = service.status();
    assert_eq!(status.registered_tools, 2);
    assert!(status.has_enterprise_tools);
    assert_eq!(status.status, "running");
}

#[test]
fn service_starts_a_server_and_answers_prompts() {
    let mut service = McpServerServiceImpl::new();
    let out = service.start(StartServerInput { config: ServerConfig::default() }).unwrap();
    assert!(out.started);
    let prompt = service.get_prompt(rigorix_mcp::mcp_server::dto::GetPromptInput {
        name: "nope".into(),
        arguments: None,
    });
    match prompt {
        Err(McpServerError::Internal(m)) => assert_eq!(m, "Prompt 'nope' not found"),
        _ => panic!("expected an internal error"),
    }
    let ok = service
        .get_prompt(rigorix_mcp::mcp_server::dto::GetPromptInput {
            name: "rigorix_introduction".into(),
            arguments: None,
        })
        .unwrap();
    assert_eq!(ok.messages.len(), 1);
    assert_eq!(ok.messages[0].role, "user");
    assert_eq!(service.list_resources().resources.len(), 2);
    assert_eq!(service.list_prompts().prompts[0].name, "rigorix_introduction");
}

#[test]
fn service_without_executor_refuses_calls() {
    match McpServerServiceImpl::executor_missing() {
        McpServerError::Internal(m) => {
            assert_eq!(m, "No tool executor wired — server is not connected to a backend")
        }
        _ => panic!("expected an internal error"),
    }
    let out = McpServerServiceImpl::call_tool_output(Err("boom".into()));
    assert!(out.is_error);
    let read = McpServerServiceImpl::read_resource_output("rigorix://x".into(), Ok("body".into())).unwrap();
    assert_eq!(read.mime_type, "text/plain");
    assert_eq!(read.text, "body");
    let _ = SessionId::from_uuid(1);
}

#[test]
fn message_kinds_are_told_apart() {
    let req = JsonRpcMessage::request(RequestId::Number(1), "tools/list", None);
    assert!(req.is_request());
    assert!(!req.is_notification());
    assert!(!req.is_response());
    let note = JsonRpcMessage::notification("initialized", None);
    assert!(note.is_notification());
    assert!(!note.is_request());
    let ok = JsonRpcMessage::success(RequestId::Number(1), Json::Null);
    assert!(ok.is_response());
    let e = JsonRpcError::tool_not_found("rigorix_x");
    assert_eq!(e.code, -32001);
    assert_eq!(e.message, "Tool not found: rigorix_x");
}

#[test]
fn server_status_accepts_sessions_only_when_running() {
    assert!(McpServerStatus::Running.can_accept_sessions());
    assert!(!McpServerStatus::Stopped.can_accept_sessions());
    assert!(!McpServerStatus::Initializing.can_accept_sessions());
}

#[test]
fn sessions_are_found_drained_and_kept_until_expiry() {
    let mut server = running_server(5);
    let (session, events) = server
        .create_session(client("c", None), caps(Some("c"), None), ServerCapabilities::default_with_counts(0, 0, 0))
        .unwrap();
    assert_eq!(events[0].event_type(), "mcp_session_started");
    assert_eq!(server.find_session(&session.id).unwrap().client_info.name, "c");
    assert!(server.find_session(&SessionId::from_uuid(3)).is_none());
    let mut s = session.duplicate();
    match s.mark_draining() {
        Err(SessionError::InvalidState(m)) => assert_eq!(m, "Cannot drain session in state: Pending"),
        other => panic!("unexpected {:?}", other),
    }
    s.mark_initialized().unwrap();
    assert!(s.mark_draining().is_ok());
    assert_eq!(s.status, SessionStatus::Draining);
    let evicted = server.evict_expired_sessions();
    assert!(evicted.is_empty());
    assert_eq!(server.session_count(), 1);
}

#[test]
fn enterprise_schemas_merge_into_registry() {
    let mut registry = ToolRegistry::new(10);
    let handler = make_handler("rigorix_enterprise_scan");
    let events = registry
        .merge_enterprise_schemas(
            vec![
                ToolSchema::new("rigorix_enterprise_scan", "Scan", Json::Null),
                ToolSchema::new("rigorix_enterprise_report", "Report", Json::Null),
            ],
            &handler,
        )
        .unwrap();
    assert_eq!(events.len(), 2);
    assert!(registry.has_enterprise_tools());
    assert!(registry.is_registered("rigorix_enterprise_report"));
    assert_eq!(registry.oss_tool_count(), 0);
}
