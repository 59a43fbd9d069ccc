use rigorix_mcp::gateway::{
    call_tool_params, dispatch_message, get_prompt_response, handle_initialize, incoming_line,
    initialize_input, is_enterprise_call, parse_cli_args, parse_error_reply, prompts_list_result,
    read_resource_response, read_resource_uri, resources_list_result, tool_text_result, Dispatch,
    MethodRoute,
};
use rigorix_mcp::json::{Json, JsonNumber};
use rigorix_mcp::mcp_server::dto::ReadResourceOutput;
use rigorix_mcp::mcp_server::error::McpServerError;
use rigorix_mcp::mcp_server::handlers::{CallToolHandlerImpl, GetPromptHandlerImpl, InitializeHandlerImpl};
use rigorix_mcp::mcp_server::service::McpServerServiceImpl;
use rigorix_mcp::mcp_server::value::{JsonRpcMessage, RequestId};

fn obj(entries: Vec<(&str, Json)>) -> Json {
    Json::Object(entries.into_iter().map(|(k, v)| (k.to_string(), v)).collect())
}

fn text(s: &str) -> Json {
    Json::Str(s.to_string())
}

#[test]
fn messages_are_dispatched_by_method() {
    let req = JsonRpcMessage::request(RequestId::number(1), "tools/list", None);
    match dispatch_message(req) {
        Dispatch::Handle { route, params, .. } => {
            assert_eq!(route, MethodRoute::ListTools);
            assert_eq!(params, Json::Null);
        }
        _ => panic!("expected a handler"),
    }
    let note = JsonRpcMessage::request(RequestId::number(2), "initialized", None);
    assert!(matches!(dispatch_message(note), Dispatch::Silent));
    let without_id = JsonRpcMessage::notification("tools/list", None);
    assert!(matches!(dispatch_message(without_id), Dispatch::Silent));
    let unknown = JsonRpcMessage::request(RequestId::number(3), "bogus/method", None);
    match dispatch_message(unknown) {
        Dispatch::Reply(resp) => {
            let e = resp.error.unwrap();
            assert_eq!(e.code, -32601);
            assert_eq!(e.message, "Method not found: bogus/method");
        }
        _ => panic!("expected an error reply"),
    }
}

#[test]
fn initialize_reads_the_client_and_answers_capabilities() {
    let params = obj(vec![
        ("protocolVersion", text("2024-11-05")),
        ("clientInfo", obj(vec![("name", text("desktop-client")), ("version", text("1.2"))])),
        ("capabilities", obj(vec![("experimental", obj(vec![("progress", Json::Bool(true))]))])),
    ]);
    let input = initialize_input(&params);
    assert_eq!(input.protocol_version, "2024-11-05");
    assert_eq!(input.client_info.name, "desktop-client");
    assert_eq!(input.client_info.version.as_deref(), Some("1.2"));
    assert!(input.capabilities.supports_progress);
    let defaults = initialize_input(&Json::Null);
    assert_eq!(defaults.protocol_version, "2025-03-26");
    assert_eq!(defaults.client_info.name, "unknown");

    let service = McpServerServiceImpl::new();
    let resp = handle_initialize(&service, RequestId::number(1), &params);
    let result = resp.result.unwrap();
    assert_eq!(result.str_at("protocolVersion"), Some("2025-03-26"));
    assert_eq!(result.get("serverInfo").and_then(|s| s.str_at("name")), Some("Rigorix MCP Gateway"));
    assert_eq!(result.get("serverInfo").and_then(|s| s.str_at("version")), Some("0.1.0"));
}

#[test]
fn tool_calls_read_their_parameters() {
    let (name, args) = call_tool_params(&obj(vec![("name", text("rigorix_run"))]));
    assert_eq!(name, "rigorix_run");
    assert_eq!(args, Json::Null);
    let (name, _) = call_tool_params(&Json::Null);
    assert_eq!(name, "unknown");
    assert!(is_enterprise_call("rigorix_enterprise_call"));
    assert!(!is_enterprise_call("rigorix_run"));
    let doc = tool_text_result("oops".into(), true);
    assert_eq!(doc.get("isError").and_then(|b| b.as_bool()), Some(true));
    let items = doc.get("content").and_then(|c| c.as_array()).unwrap();
    assert_eq!(items[0].str_at("type"), Some("text"));
    assert_eq!(items[0].str_at("text"), Some("oops"));
}

#[test]
fn resources_and_prompts_are_listed_and_read() {
    let resources = resources_list_result();
    let items = resources.get("resources").and_then(|r| r.as_array()).unwrap();
    assert_eq!(items.len(), 2);
    assert_eq!(items[1].str_at("uri"), Some("rigorix://templates/{name}"));
    assert_eq!(read_resource_uri(&Json::Null), "unknown");
    let ok = read_resource_response(
        RequestId::number(4),
        Ok(ReadResourceOutput { uri: "u".into(), mime_type: "text/plain".into(), text: "t".into() }),
    );
    assert!(ok.error.is_none());
    let failed = read_resource_response(RequestId::number(5), Err(McpServerError::Internal("gone".into())));
    let e = failed.error.unwrap();
    assert_eq!(e.code, -32602);
    assert!(e.message.contains("Resource read failed"));

    let prompts = prompts_list_result();
    let items = prompts.get("prompts").and_then(|p| p.as_array()).unwrap();
    assert_eq!(items[0].str_at("name"), Some("rigorix_introduction"));
    let intro = get_prompt_response(RequestId::number(6), &obj(vec![("name", text("rigorix_introduction"))]));
    assert!(intro.error.is_none());
    let missing = get_prompt_response(RequestId::number(7), &obj(vec![("name", text("other"))]));
    assert_eq!(missing.error.unwrap().code, -32603);
}

#[test]
fn stdio_lines_and_command_line() {
    assert_eq!(incoming_line("  {\"a\":1}  \n"), Some("{\"a\":1}".into()));
    assert_eq!(incoming_line("   \n"), None);
    let reply = parse_error_reply();
    assert_eq!(reply.get("id"), Some(&Json::Null));
    assert_eq!(
        reply.get("error").and_then(|e| e.get("code")),
        Some(&Json::Number(JsonNumber::Int(-32700)))
    );
    let args: Vec<String> = vec!["gw".into(), "--bind".into(), "0.0.0.0:9".into(), "--sse".into()];
    let opts = parse_cli_args(&args);
    assert!(opts.use_sse);
    assert_eq!(opts.bind_addr, "0.0.0.0:9");
    let bare = parse_cli_args(&vec!["gw".into(), "--bind".into()]);
    assert!(!bare.use_sse);
    assert_eq!(bare.bind_addr, "127.0.0.1:3001");
}

#[test]
fn method_handlers_require_their_fields() {
    let init = InitializeHandlerImpl::new(McpServerServiceImpl::new());
    let err = init.handle_initialize(&Json::Null).unwrap_err();
    assert_eq!(err.message, "Invalid params: Missing required field: protocolVersion");
    assert!(init.handle_initialize(&obj(vec![("protocolVersion", text("x"))])).is_ok());

    let call = CallToolHandlerImpl::new(McpServerServiceImpl::new());
    assert!(call.request(&Json::Null).is_err());
    let input = call.request(&obj(vec![("name", text("rigorix_run"))])).unwrap();
    assert_eq!(input.arguments, Json::Object(vec![]));
    let failed = call.respond("rigorix_run", Err(McpServerError::Internal("x".into()))).unwrap_err();
    assert_eq!(failed.code, -32002);

    let prompt = GetPromptHandlerImpl::new(McpServerServiceImpl::new());
    assert!(prompt.handle_get_prompt(&obj(vec![("name", text("rigorix_introduction"))])).is_ok());
    assert_eq!(prompt.handle_get_prompt(&obj(vec![("name", text("x"))])).unwrap_err().code, -32603);
}

#[test]
fn whitespace_agrees_with_std_on_every_char() {
    for c in (0u32..=0x10FFFF).filter_map(char::from_u32) {
        assert_eq!(rigorix_mcp::text::char_is_whitespace(c), c.is_whitespace(), "{:?}", c);
    }
}

#[test]
fn uuid_text_reads_back() {
    let id: u128 = 0x0123_4567_89ab_cdef_0011_2233_4455_6677;
    let text = rigorix_mcp::platform::format_uuid(id);
    assert_eq!(text, "01234567-89ab-cdef-0011-223344556677");
    assert_eq!(rigorix_mcp::platform::parse_uuid(&text), Some(id));
}
