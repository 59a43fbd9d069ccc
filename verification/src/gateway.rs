//! The gateway's JSON-RPC front: which method a message asks for, what each
//! method's parameters mean, and the result documents it answers with. The
//! stdio loop, the rendering of messages as text and the tool handlers are
//! driven by the application.

use vstd::prelude::*;
use vstd::string::StringExecFns;
use crate::json::{entries_view, entry, lemma_array_view, lemma_entries_view, Json, JsonNumberV, JsonV};
use crate::text::{chars_of, starts_with, str_eq, string_from_chars, trim_chars, trimmed};
use crate::mcp_server::dto::{InitializeInput, InitializeOutput, ReadResourceOutput};
use crate::mcp_server::error::McpServerError;
use crate::mcp_server::event::McpServerEvent;
use crate::mcp_server::service::{introduction_text, introduction_prompt_text, McpServerServiceImpl};
use crate::mcp_server::value::{
    enterprise_prefix, ClientCapabilities, ClientInfo, JsonRpcError, JsonRpcMessage,
    RequestId,
};
use crate::host::error::HostError;

verus! {

/// The MCP methods the gateway answers.
#[derive(Debug, Clone, Copy, PartialEq, Eq, Structural)]
pub enum MethodRoute {
    Initialize,
    ListTools,
    CallTool,
    ListResources,
    ReadResource,
    ListPrompts,
    GetPrompt,
}

/// What to do with an incoming message.
#[derive(Debug)]
pub enum Dispatch {
    /// Nothing is answered.
    Silent,
    /// Answer at once.
    Reply(JsonRpcMessage),
    /// Answer through the method's handler.
    Handle { route: MethodRoute, id: RequestId, params: Json },
}

/// How each method is treated: answered through a handler, notifications
/// left unanswered (`Some(None)`), anything else unknown (`None`).
pub open spec fn route_of_method(m: Seq<char>) -> Option<Option<MethodRoute>> {
    if m == "initialize"@ {
        Some(Some(MethodRoute::Initialize))
    } else if m == "initialized"@ {
        Some(None)
    } else if m == "tools/list"@ {
        Some(Some(MethodRoute::ListTools))
    } else if m == "tools/call"@ {
        Some(Some(MethodRoute::CallTool))
    } else if m == "resources/list"@ {
        Some(Some(MethodRoute::ListResources))
    } else if m == "resources/read"@ {
        Some(Some(MethodRoute::ReadResource))
    } else if m == "prompts/list"@ {
        Some(Some(MethodRoute::ListPrompts))
    } else if m == "prompts/get"@ {
        Some(Some(MethodRoute::GetPrompt))
    } else if m == "notifications/cancelled"@ {
        Some(None)
    } else {
        None
    }
}

fn method_route(m: &str) -> (r: Option<Option<MethodRoute>>)
    ensures
        r == route_of_method(m@),
{
    if str_eq(m, "initialize") {
        Some(Some(MethodRoute::Initialize))
    } else if str_eq(m, "initialized") {
        Some(None)
    } else if str_eq(m, "tools/list") {
        Some(Some(MethodRoute::ListTools))
    } else if str_eq(m, "tools/call") {
        Some(Some(MethodRoute::CallTool))
    } else if str_eq(m, "resources/list") {
        Some(Some(MethodRoute::ListResources))
    } else if str_eq(m, "resources/read") {
        Some(Some(MethodRoute::ReadResource))
    } else if str_eq(m, "prompts/list") {
        Some(Some(MethodRoute::ListPrompts))
    } else if str_eq(m, "prompts/get") {
        Some(Some(MethodRoute::GetPrompt))
    } else if str_eq(m, "notifications/cancelled") {
        Some(None)
    } else {
        None
    }
}

/// Decides how an incoming message is answered. Only messages with both a
/// method and an id are answered; notifications of initialization and
/// cancellation are not; an unknown method is answered with a
/// method-not-found error; the others go to their handler with their
/// parameters (`null` where there are none).
pub fn dispatch_message(msg: JsonRpcMessage) -> (r: Dispatch)
    ensures
        msg.method is None || msg.id is None ==> r is Silent,
        msg.method is Some && msg.id is Some ==> match route_of_method(msg.method->0@) {
            Some(None) => r is Silent,
            Some(Some(route)) => (r matches Dispatch::Handle { route: q, id, params } && q == route
                && id == msg.id->0 && params@ == (match msg.params {
                Some(p) => p@,
                None => JsonV::Null,
            })),
            None => (r matches Dispatch::Reply(resp) && resp.id == msg.id && resp.result is None
                && resp.error is Some && resp.error->0.code == -32601 && resp.error->0.message@
                == "Method not found: "@ + msg.method->0@),
        },
{
    let JsonRpcMessage { jsonrpc: _, id, method, params, result: _, error: _ } = msg;
    let method = match method {
        Some(m) => m,
        None => {
            return Dispatch::Silent;
        },
    };
    let id = match id {
        Some(i) => i,
        None => {
            return Dispatch::Silent;
        },
    };
    let params = match params {
        Some(p) => p,
        None => Json::Null,
    };
    match method_route(method.as_str()) {
        Some(None) => Dispatch::Silent,
        Some(Some(route)) => Dispatch::Handle { route, id, params },
        None => Dispatch::Reply(
            JsonRpcMessage::error(id, JsonRpcError::method_not_found(method.as_str())),
        ),
    }
}

// ── initialize ──────────────────────────────────────────────────────────

/// The protocol version a client asks for ("2025-03-26" where it names none).
pub open spec fn requested_version(params: JsonV) -> Seq<char> {
    match params.str_at("protocolVersion"@) {
        Some(v) => v,
        None => "2025-03-26"@,
    }
}

/// The client's info member (`null` where absent).
pub open spec fn client_info_of(params: JsonV) -> JsonV {
    match params.get("clientInfo"@) {
        Some(c) => c,
        None => JsonV::Null,
    }
}

/// Whether the client announces progress support.
pub open spec fn announces_progress(params: JsonV) -> bool {
    match params.get("capabilities"@) {
        Some(c) => match c.get("experimental"@) {
            Some(e) => match e.get("progress"@) {
                Some(JsonV::Bool(b)) => b,
                _ => false,
            },
            None => false,
        },
        None => false,
    }
}

/// Reads an initialize request: protocol version, client name ("unknown"
/// where absent) and version, and progress support.
pub fn initialize_input(params: &Json) -> (r: InitializeInput)
    ensures
        r.protocol_version@ == requested_version(params@),
        r.client_info.name@ == (match client_info_of(params@).str_at("name"@) {
            Some(n) => n,
            None => "unknown"@,
        }),
        crate::host::tools::opt_view(r.client_info.version) == client_info_of(params@).str_at(
            "version"@,
        ),
        r.capabilities.protocol_version@ == requested_version(params@),
        r.capabilities.client_name matches Some(n) && n@ == r.client_info.name@,
        crate::host::tools::opt_view(r.capabilities.client_version)
            == crate::host::tools::opt_view(r.client_info.version),
        r.capabilities.supports_progress == announces_progress(params@),
{
    let protocol_version = match params.str_at("protocolVersion") {
        Some(v) => String::from_str(v),
        None => String::from_str("2025-03-26"),
    };
    let (name, version) = match params.get("clientInfo") {
        Some(ci) => (
            match ci.str_at("name") {
                Some(n) => String::from_str(n),
                None => String::from_str("unknown"),
            },
            match ci.str_at("version") {
                Some(v) => Some(String::from_str(v)),
                None => None,
            },
        ),
        None => (String::from_str("unknown"), None),
    };
    let progress = match params.get("capabilities") {
        Some(c) => match c.get("experimental") {
            Some(e) => match e.get("progress") {
                Some(p) => match p.as_bool() {
                    Some(b) => b,
                    None => false,
                },
                None => false,
            },
            None => false,
        },
        None => false,
    };
    let client_version = match &version {
        Some(v) => Some(v.clone()),
        None => None,
    };
    InitializeInput {
        protocol_version: protocol_version.clone(),
        client_info: ClientInfo { name: name.clone(), version },
        capabilities: ClientCapabilities {
            protocol_version,
            client_name: Some(name),
            client_version,
            supports_progress: progress,
        },
    }
}

/// The result document of an initialization.
pub open spec fn initialize_document(protocol_version: Seq<char>, server_info: Seq<char>) -> JsonV {
    JsonV::Object(
        seq![
            ("protocolVersion"@, JsonV::Str(protocol_version)),
            ("capabilities"@, JsonV::Object(
                seq![
                    ("tools"@, JsonV::Object(Seq::empty())),
                    ("resources"@, JsonV::Object(Seq::empty())),
                    ("prompts"@, JsonV::Object(Seq::empty())),
                ],
            )),
            ("serverInfo"@, JsonV::Object(
                seq![("name"@, JsonV::Str(server_info)), ("version"@, JsonV::Str("0.1.0"@))],
            )),
        ],
    )
}

fn empty_object() -> (r: Json)
    ensures
        r@ == JsonV::Object(Seq::empty()),
{
    let e: Vec<(String, Json)> = Vec::new();
    proof {
        assert(entries_view(e@) =~= Seq::<(Seq<char>, JsonV)>::empty());
    }
    Json::object(e)
}

/// The result document of an initialization: the negotiated protocol
/// version and the server's name, with tools, resources and prompts
/// announced.
pub fn initialize_result(output: InitializeOutput) -> (r: Json)
    ensures
        r@ == initialize_document(output.protocol_version@, output.server_info@),
{
    let ghost pv = output.protocol_version@;
    let ghost si = output.server_info@;
    let caps = vec![
        entry("tools", empty_object()),
        entry("resources", empty_object()),
        entry("prompts", empty_object()),
    ];
    let info = vec![
        entry("name", Json::Str(output.server_info)),
        entry("version", Json::string("0.1.0")),
    ];
    proof {
        lemma_entries_view(caps@);
        lemma_entries_view(info@);
        assert(entries_view(caps@) =~= seq![
            ("tools"@, JsonV::Object(Seq::empty())),
            ("resources"@, JsonV::Object(Seq::empty())),
            ("prompts"@, JsonV::Object(Seq::empty())),
        ]);
        assert(entries_view(info@) =~= seq![
            ("name"@, JsonV::Str(si)),
            ("version"@, JsonV::Str("0.1.0"@)),
        ]);
    }
    let entries = vec![
        entry("protocolVersion", Json::Str(output.protocol_version)),
        entry("capabilities", Json::object(caps)),
        entry("serverInfo", Json::object(info)),
    ];
    proof {
        lemma_entries_view(entries@);
        assert(entries_view(entries@) =~= initialize_document(pv, si)->Object_0);
    }
    Json::object(entries)
}

/// Answers an initialize request from the service's outcome: the result
/// document, or an internal error naming why initialization failed.
pub fn initialize_response(
    id: RequestId,
    outcome: Result<(InitializeOutput, Vec<McpServerEvent>), McpServerError>,
) -> (r: JsonRpcMessage)
    ensures
        r.id == Some(id),
        match outcome {
            Ok((out, _)) => r.error is None && (r.result matches Some(doc) && doc@
                == initialize_document(out.protocol_version@, out.server_info@)),
            Err(e) => r.result is None && (r.error matches Some(err) && err.code == -32603
                && err.message@ == "Internal error: "@ + "initialize failed: "@ + e.spec_message()),
        },
{
    match outcome {
        Ok((output, _events)) => JsonRpcMessage::success(id, initialize_result(output)),
        Err(e) => {
            let detail = crate::text::concat2("initialize failed: ", e.message().as_str());
            JsonRpcMessage::error(id, JsonRpcError::internal_error(detail.as_str()))
        },
    }
}

/// Answers an initialize request: the service's protocol version and server
/// name, with tools, resources and prompts announced.
pub fn handle_initialize(service: &McpServerServiceImpl, id: RequestId, params: &Json) -> (r:
    JsonRpcMessage)
    ensures
        r.id == Some(id),
        r.error is None,
        r.result matches Some(doc) && doc@ == initialize_document("2025-03-26"@, "Rigorix MCP Gateway"@),
{
    let input = initialize_input(params);
    let (output, _events) = service.initialize(input);
    JsonRpcMessage::success(id, initialize_result(output))
}

// ── tools ───────────────────────────────────────────────────────────────

/// The result document of a tool listing.
pub fn tools_list_result(tools: Vec<Json>) -> (r: Json)
    ensures
        r@ == JsonV::Object(seq![("tools"@, JsonV::Array(crate::json::array_view(tools@)))]),
{
    let entries = vec![entry("tools", Json::Array(tools))];
    proof {
        lemma_entries_view(entries@);
        assert(entries_view(entries@) =~= seq![
            ("tools"@, JsonV::Array(crate::json::array_view(tools@))),
        ]);
    }
    Json::object(entries)
}

/// Reads a tool call: the tool's name ("unknown" where absent) and its
/// arguments (`null` where absent).
pub fn call_tool_params(params: &Json) -> (r: (String, Json))
    ensures
        r.0@ == (match params@.str_at("name"@) {
            Some(n) => n,
            None => "unknown"@,
        }),
        r.1@ == (match params@.get("arguments"@) {
            Some(a) => a,
            None => JsonV::Null,
        }),
{
    let name = match params.str_at("name") {
        Some(n) => String::from_str(n),
        None => String::from_str("unknown"),
    };
    let arguments = match params.get("arguments") {
        Some(a) => a.duplicate(),
        None => Json::Null,
    };
    (name, arguments)
}

/// Whether a tool call goes to the enterprise proxy.
pub fn is_enterprise_call(name: &str) -> (r: bool)
    ensures
        r == crate::text::has_prefix(name@, enterprise_prefix()),
{
    starts_with(name, "rigorix_enterprise_")
}

/// The result document of a tool call: one text item and the error flag.
pub open spec fn tool_text_document(text: Seq<char>, is_error: bool) -> JsonV {
    JsonV::Object(
        seq![
            ("content"@, JsonV::Array(
                seq![JsonV::Object(seq![("type"@, JsonV::Str("text"@)), ("text"@, JsonV::Str(text))])],
            )),
            ("isError"@, JsonV::Bool(is_error)),
        ],
    )
}

/// The result document of a tool call.
pub fn tool_text_result(text: String, is_error: bool) -> (r: Json)
    ensures
        r@ == tool_text_document(text@, is_error),
{
    let ghost tv = text@;
    let item = vec![entry("type", Json::string("text")), entry("text", Json::Str(text))];
    proof {
        lemma_entries_view(item@);
        assert(entries_view(item@) =~= seq![("type"@, JsonV::Str("text"@)), ("text"@, JsonV::Str(tv))]);
    }
    let items = vec![Json::object(item)];
    proof {
        lemma_array_view(items@);
    }
    let entries = vec![entry("content", Json::Array(items)), entry("isError", Json::Bool(is_error))];
    proof {
        lemma_entries_view(entries@);
        assert(crate::json::array_view(items@) =~= seq![
            JsonV::Object(seq![("type"@, JsonV::Str("text"@)), ("text"@, JsonV::Str(tv))]),
        ]);
        assert(entries_view(entries@) =~= tool_text_document(tv, is_error)->Object_0);
    }
    Json::object(entries)
}

/// The result of an enterprise call where no proxy is configured.
pub fn proxy_missing_result() -> (r: Json)
    ensures
        r@ == tool_text_document(
            "Enterprise proxy is not configured. Set ENTERPRISE_API_URL and ENTERPRISE_API_KEY."@,
            true,
        ),
{
    tool_text_result(
        String::from_str(
            "Enterprise proxy is not configured. Set ENTERPRISE_API_URL and ENTERPRISE_API_KEY.",
        ),
        true,
    )
}

/// The result of a tool call that failed at the dispatch boundary: the
/// error's message, as an error.
pub fn host_error_result(e: &HostError) -> (r: Json)
    ensures
        r@ == tool_text_document(e.message@, true),
{
    tool_text_result(e.message.clone(), true)
}

// ── resources ───────────────────────────────────────────────────────────

/// The document of one served resource.
pub open spec fn resource_document(
    uri: Seq<char>,
    name: Seq<char>,
    description: Seq<char>,
) -> JsonV {
    JsonV::Object(
        seq![
            ("uri"@, JsonV::Str(uri)),
            ("name"@, JsonV::Str(name)),
            ("description"@, JsonV::Str(description)),
            ("mimeType"@, JsonV::Str("text/plain"@)),
        ],
    )
}

/// The result document of a resource listing.
pub open spec fn resources_document() -> JsonV {
    JsonV::Object(
        seq![
            ("resources"@, JsonV::Array(
                seq![
                    resource_document(
                        "rigorix://audit/{id}"@,
                        "Audit Trail"@,
                        "Read an audit trail by execution ID"@,
                    ),
                    resource_document(
                        "rigorix://templates/{name}"@,
                        "Template"@,
                        "Read a template by name"@,
                    ),
                ],
            )),
        ],
    )
}

fn resource_json(uri: &str, name: &str, description: &str) -> (r: Json)
    ensures
        r@ == resource_document(uri@, name@, description@),
{
    let e = vec![
        entry("uri", Json::string(uri)),
        entry("name", Json::string(name)),
        entry("description", Json::string(description)),
        entry("mimeType", Json::string("text/plain")),
    ];
    proof {
        lemma_entries_view(e@);
        assert(entries_view(e@) =~= resource_document(uri@, name@, description@)->Object_0);
    }
    Json::object(e)
}

/// The result document of a resource listing.
pub fn resources_list_result() -> (r: Json)
    ensures
        r@ == resources_document(),
{
    let items = vec![
        resource_json("rigorix://audit/{id}", "Audit Trail", "Read an audit trail by execution ID"),
        resource_json("rigorix://templates/{name}", "Template", "Read a template by name"),
    ];
    proof {
        lemma_array_view(items@);
        assert(crate::json::array_view(items@) =~= resources_document()->Object_0[0].1->Array_0);
    }
    let entries = vec![entry("resources", Json::Array(items))];
    proof {
        lemma_entries_view(entries@);
        assert(entries_view(entries@) =~= resources_document()->Object_0);
    }
    Json::object(entries)
}

/// The URI a read request names ("unknown" where absent).
pub fn read_resource_uri(params: &Json) -> (r: String)
    ensures
        r@ == (match params@.str_at("uri"@) {
            Some(u) => u,
            None => "unknown"@,
        }),
{
    match params.str_at("uri") {
        Some(u) => String::from_str(u),
        None => String::from_str("unknown"),
    }
}

/// The result document of a resource read.
pub open spec fn read_document(uri: Seq<char>, mime_type: Seq<char>, text: Seq<char>) -> JsonV {
    JsonV::Object(
        seq![
            ("contents"@, JsonV::Array(
                seq![
                    JsonV::Object(
                        seq![
                            ("uri"@, JsonV::Str(uri)),
                            ("mimeType"@, JsonV::Str(mime_type)),
                            ("text"@, JsonV::Str(text)),
                        ],
                    ),
                ],
            )),
        ],
    )
}

/// Answers a resource read: its contents, or an invalid-params error
/// naming why the read failed.
pub fn read_resource_response(id: RequestId, outcome: Result<ReadResourceOutput, McpServerError>) -> (r:
    JsonRpcMessage)
    ensures
        r.id == Some(id),
        match outcome {
            Ok(o) => r.error is None && (r.result matches Some(doc) && doc@ == read_document(
                o.uri@,
                o.mime_type@,
                o.text@,
            )),
            Err(e) => r.result is None && r.error is Some && r.error->0.code == -32602
                && r.error->0.message@ == "Invalid params: "@ + "Resource read failed: "@
                + e.spec_message(),
        },
{
    match outcome {
        Ok(o) => {
            let ghost doc = read_document(o.uri@, o.mime_type@, o.text@);
            let item = vec![
                entry("uri", Json::Str(o.uri)),
                entry("mimeType", Json::Str(o.mime_type)),
                entry("text", Json::Str(o.text)),
            ];
            proof {
                lemma_entries_view(item@);
                assert(entries_view(item@) =~= doc->Object_0[0].1->Array_0[0]->Object_0);
            }
            let items = vec![Json::object(item)];
            proof {
                lemma_array_view(items@);
                assert(crate::json::array_view(items@) =~= doc->Object_0[0].1->Array_0);
            }
            let entries = vec![entry("contents", Json::Array(items))];
            proof {
                lemma_entries_view(entries@);
                assert(entries_view(entries@) =~= doc->Object_0);
            }
            JsonRpcMessage::success(id, Json::object(entries))
        },
        Err(e) => {
            let detail = crate::text::concat2("Resource read failed: ", e.message().as_str());
            proof {
                assert(("Resource read failed: "@ + e.spec_message()) =~= detail@);
            }
            JsonRpcMessage::error(id, JsonRpcError::invalid_params(detail.as_str()))
        },
    }
}

// ── prompts ─────────────────────────────────────────────────────────────

/// The result document of a prompt listing.
pub open spec fn prompts_document() -> JsonV {
    JsonV::Object(
        seq![
            ("prompts"@, JsonV::Array(
                seq![
                    JsonV::Object(
                        seq![
                            ("name"@, JsonV::Str("rigorix_introduction"@)),
                            ("description"@, JsonV::Str("Introduction to Rigorix tool usage"@)),
                            ("arguments"@, JsonV::Array(Seq::empty())),
                        ],
                    ),
                ],
            )),
        ],
    )
}

/// The result document of a prompt listing.
pub fn prompts_list_result() -> (r: Json)
    ensures
        r@ == prompts_document(),
{
    let args: Vec<Json> = Vec::new();
    let p = vec![
        entry("name", Json::string("rigorix_introduction")),
        entry("description", Json::string("Introduction to Rigorix tool usage")),
        entry("arguments", Json::Array(args)),
    ];
    proof {
        lemma_entries_view(p@);
        assert(crate::json::array_view(Seq::<Json>::empty()) =~= Seq::<JsonV>::empty());
        assert(entries_view(p@) =~= prompts_document()->Object_0[0].1->Array_0[0]->Object_0);
    }
    let items = vec![Json::object(p)];
    proof {
        lemma_array_view(items@);
        assert(crate::json::array_view(items@) =~= prompts_document()->Object_0[0].1->Array_0);
    }
    let entries = vec![entry("prompts", Json::Array(items))];
    proof {
        lemma_entries_view(entries@);
        assert(entries_view(entries@) =~= prompts_document()->Object_0);
    }
    Json::object(entries)
}

/// The result document of the introduction prompt.
pub open spec fn introduction_document() -> JsonV {
    JsonV::Object(
        seq![
            ("description"@, JsonV::Str("Introduction to Rigorix tool usage"@)),
            ("messages"@, JsonV::Array(
                seq![
                    JsonV::Object(
                        seq![
                            ("role"@, JsonV::Str("user"@)),
                            ("content"@, JsonV::Object(
                                seq![
                                    ("type"@, JsonV::Str("text"@)),
                                    ("text"@, JsonV::Str(introduction_text())),
                                ],
                            )),
                        ],
                    ),
                ],
            )),
        ],
    )
}

/// Answers a prompt request: the introduction prompt, or an internal error
/// for any other name ("unknown" where none is given).
pub fn get_prompt_response(id: RequestId, params: &Json) -> (r: JsonRpcMessage)
    ensures
        r.id == Some(id),
        params@.str_at("name"@) == Some("rigorix_introduction"@) ==> r.error is None && (
        r.result matches Some(doc) && doc@ == introduction_document()),
        params@.str_at("name"@) != Some("rigorix_introduction"@) ==> r.result is None
            && r.error is Some && r.error->0.code == -32603 && r.error->0.message@
            == "Internal error: "@ + "Prompt '"@ + (match params@.str_at("name"@) {
            Some(n) => n,
            None => "unknown"@,
        }) + "' not found"@,
{
    proof {
        reveal_strlit("unknown");
        reveal_strlit("rigorix_introduction");
    }
    let name: &str = match params.str_at("name") {
        Some(n) => n,
        None => "unknown",
    };
    if str_eq(name, "rigorix_introduction") {
        let content = vec![
            entry("type", Json::string("text")),
            entry("text", Json::string(introduction_prompt_text())),
        ];
        let ghost doc = introduction_document();
        proof {
            lemma_entries_view(content@);
            assert(entries_view(content@) =~= doc->Object_0[1].1->Array_0[0]->Object_0[1].1->Object_0);
        }
        let message = vec![entry("role", Json::string("user")), entry("content", Json::object(content))];
        proof {
            lemma_entries_view(message@);
            assert(entries_view(message@) =~= doc->Object_0[1].1->Array_0[0]->Object_0);
        }
        let messages = vec![Json::object(message)];
        proof {
            lemma_array_view(messages@);
            assert(crate::json::array_view(messages@) =~= doc->Object_0[1].1->Array_0);
        }
        let entries = vec![
            entry("description", Json::string("Introduction to Rigorix tool usage")),
            entry("messages", Json::Array(messages)),
        ];
        proof {
            lemma_entries_view(entries@);
            assert(entries_view(entries@) =~= introduction_document()->Object_0);
        }
        JsonRpcMessage::success(id, Json::object(entries))
    } else {
        let detail = crate::text::concat3("Prompt '", name, "' not found");
        proof {
            assert(("Internal error: "@ + detail@) =~= "Internal error: "@ + "Prompt '"@ + name@
                + "' not found"@);
        }
        JsonRpcMessage::error(id, JsonRpcError::internal_error(detail.as_str()))
    }
}

// ── the stdio loop ──────────────────────────────────────────────────────

/// The message text of an input line: the line without surrounding white
/// space; blank lines carry none.
pub fn incoming_line(line: &str) -> (r: Option<String>)
    ensures
        trimmed(line@).len() == 0 ==> r is None,
        trimmed(line@).len() > 0 ==> (r matches Some(t) && t@ == trimmed(line@)),
{
    let cs = chars_of(line);
    let t = trim_chars(&cs);
    if t.len() == 0 {
        None
    } else {
        Some(string_from_chars(t.as_slice()))
    }
}

/// The answer to a line that is not a JSON-RPC message.
pub open spec fn parse_error_document() -> JsonV {
    JsonV::Object(
        seq![
            ("jsonrpc"@, JsonV::Str("2.0"@)),
            ("id"@, JsonV::Null),
            ("error"@, JsonV::Object(
                seq![
                    ("code"@, JsonV::Number(JsonNumberV::Int(-32700i64))),
                    ("message"@, JsonV::Str("Parse error"@)),
                ],
            )),
        ],
    )
}

/// The answer to a line that is not a JSON-RPC message.
pub fn parse_error_reply() -> (r: Json)
    ensures
        r@ == parse_error_document(),
{
    let err = JsonRpcError::parse_error();
    let e = vec![
        entry("code", Json::signed(err.code as i64)),
        entry("message", Json::Str(err.message)),
    ];
    proof {
        lemma_entries_view(e@);
        assert(entries_view(e@) =~= parse_error_document()->Object_0[2].1->Object_0);
    }
    let entries = vec![
        entry("jsonrpc", Json::string("2.0")),
        entry("id", Json::Null),
        entry("error", Json::object(e)),
    ];
    proof {
        lemma_entries_view(entries@);
        assert(entries_view(entries@) =~= parse_error_document()->Object_0);
    }
    Json::object(entries)
}

/// The command-line options of the gateway.
#[derive(Debug)]
pub struct CliOptions {
    /// Whether the (unsupported) SSE transport was asked for.
    pub use_sse: bool,
    /// The address given after `--bind`.
    pub bind_addr: String,
}

/// Reads the command line: `--sse` anywhere, and the argument after the
/// first `--bind` ("127.0.0.1:3001" where there is none).
pub fn parse_cli_args(args: &Vec<String>) -> (r: CliOptions)
    ensures
        r.use_sse == exists|i: int| 0 <= i < args.len() && #[trigger] args@[i]@ == "--sse"@,
        r.bind_addr@ == (if exists|i: int| 0 <= i < args.len() && #[trigger] args@[i]@ == "--bind"@ {
            let k = choose|i: int|
                0 <= i < args.len() && #[trigger] args@[i]@ == "--bind"@ && forall|j: int|
                    0 <= j < i ==> #[trigger] args@[j]@ != "--bind"@;
            if k + 1 < args.len() {
                args@[k + 1]@
            } else {
                "127.0.0.1:3001"@
            }
        } else {
            "127.0.0.1:3001"@
        }),
{
    let mut use_sse = false;
    let mut bind: Option<usize> = None;
    let mut i: usize = 0;
    while i < args.len()
        invariant
            i <= args.len(),
            use_sse == exists|j: int| 0 <= j < i && #[trigger] args@[j]@ == "--sse"@,
            match bind {
                Some(k) => k < i && args@[k as int]@ == "--bind"@ && forall|j: int|
                    0 <= j < k ==> #[trigger] args@[j]@ != "--bind"@,
                None => forall|j: int| 0 <= j < i ==> #[trigger] args@[j]@ != "--bind"@,
            },
        decreases args.len() - i,
    {
        if str_eq(args[i].as_str(), "--sse") {
            use_sse = true;
        }
        if bind.is_none() && str_eq(args[i].as_str(), "--bind") {
            bind = Some(i);
        }
        i = i + 1;
    }
    let bind_addr = match bind {
        Some(k) => {
            proof {
                let c = choose|i: int|
                    0 <= i < args.len() && #[trigger] args@[i]@ == "--bind"@ && forall|j: int|
                        0 <= j < i ==> #[trigger] args@[j]@ != "--bind"@;
                assert(args@[k as int]@ == "--bind"@);
                if c < k {
                    assert(args@[c]@ != "--bind"@);
                }
                if k < c {
                    assert(args@[k as int]@ != "--bind"@);
                }
            }
            if k + 1 < args.len() {
                args[k + 1].clone()
            } else {
                String::from_str("127.0.0.1:3001")
            }
        },
        None => String::from_str("127.0.0.1:3001"),
    };
    CliOptions { use_sse, bind_addr }
}

} // verus!
