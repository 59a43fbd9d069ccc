//! The MCP method handlers over the application service: each reads its
//! request's parameters, asks the service, and answers with the result
//! document or a JSON-RPC error. Tool calls and resource reads take the
//! outcome of the executor the application drives.

use vstd::prelude::*;
use vstd::string::StringExecFns;
use crate::json::{entries_view, entry, lemma_array_view, lemma_array_view_eq, lemma_entries_view, Json, JsonV};
use crate::gateway::{
    initialize_document, introduction_document, prompts_document, resources_document,
};
use crate::mcp_server::dto::{
    CallToolInput, CallToolOutput, GetPromptInput, InitializeInput, ListToolsInput, PromptContentDto,
    ReadResourceInput, ReadResourceOutput,
};
use crate::mcp_server::entity::opt_view;
use crate::mcp_server::error::McpServerError;
use crate::mcp_server::event::McpServerEvent;
use crate::mcp_server::service::McpServerServiceImpl;
use crate::mcp_server::value::{
    ClientCapabilities, ClientInfo, ContentItem, JsonRpcError, SessionId, ToolSchema, ToolSchemaV,
};

verus! {

/// The error of a required parameter that is missing.
pub open spec fn missing_field(field: Seq<char>) -> Seq<char> {
    "Invalid params: "@ + "Missing required field: "@ + field
}

fn missing(field: &str) -> (r: JsonRpcError)
    ensures
        r.code == -32602,
        r.message@ == missing_field(field@),
{
    let detail = crate::text::concat2("Missing required field: ", field);
    proof {
        assert(("Invalid params: "@ + detail@) =~= missing_field(field@));
    }
    JsonRpcError::invalid_params(detail.as_str())
}

/// Whether `i` is an initialize request as read from `params`: the
/// protocol version it names; the client's name ("unknown" where absent)
/// and version; no progress support announced.
pub open spec fn read_initialize(params: JsonV, i: InitializeInput) -> bool {
    let ci = match params.get("clientInfo"@) {
        Some(c) => c,
        None => JsonV::Null,
    };
    let name = match ci.str_at("name"@) {
        Some(n) => n,
        None => "unknown"@,
    };
    &&& params.str_at("protocolVersion"@) == Some(i.protocol_version@)
    &&& i.client_info.name@ == name
    &&& opt_view(i.client_info.version) == ci.str_at("version"@)
    &&& i.capabilities.protocol_version@ == i.protocol_version@
    &&& opt_view(i.capabilities.client_name) == Some(name)
    &&& opt_view(i.capabilities.client_version) == ci.str_at("version"@)
    &&& !i.capabilities.supports_progress
}

/// Whether the service announced the session of request `i`: one
/// session-started event naming its client and protocol version.
pub open spec fn session_announced(i: InitializeInput, events: Vec<McpServerEvent>) -> bool {
    &&& events.len() == 1
    &&& events[0] matches McpServerEvent::McpSessionStarted {
        client_name,
        client_version,
        protocol_version,
        ..
    } && client_name@ == i.client_info.name@ && client_version == i.client_info.version
        && protocol_version@ == i.protocol_version@
}

/// Answers `initialize`.
pub struct InitializeHandlerImpl {
    service: McpServerServiceImpl,
}

impl InitializeHandlerImpl {
    /// The service the handler answers from.
    pub closed spec fn spec_service(&self) -> McpServerServiceImpl {
        self.service
    }

    /// A handler over the service.
    pub fn new(service: McpServerServiceImpl) -> (r: InitializeHandlerImpl)
        ensures
            r.spec_service() == service,
    {
        InitializeHandlerImpl { service }
    }

    /// Reads an initialize request: the protocol version is required; the
    /// client's name is "unknown" where absent, its version where given;
    /// progress support is not announced.
    pub fn request(&self, params: &Json) -> (r: Result<InitializeInput, JsonRpcError>)
        ensures
            params@.str_at("protocolVersion"@) is None ==> (r matches Err(e) && e.code == -32602
                && e.message@ == missing_field("protocolVersion"@)),
            params@.str_at("protocolVersion"@) is Some ==> (r matches Ok(i) && read_initialize(params@, i)),
    {
        let protocol_version = match params.str_at("protocolVersion") {
            Some(v) => v,
            None => {
                return Err(missing("protocolVersion"));
            },
        };
        let (client_name, client_version) = match params.get("clientInfo") {
            Some(ci) => (
                match ci.str_at("name") {
                    Some(n) => String::from_str(n),
                    None => String::from_str("unknown"),
                },
                match ci.str_at("version") {
                    Some(v) => Some(String::from_str(v)),
                    None => None,
                },
            ),
            None => (String::from_str("unknown"), None),
        };
        let version_copy = match &client_version {
            Some(v) => Some(v.clone()),
            None => None,
        };
        Ok(InitializeInput {
            protocol_version: String::from_str(protocol_version),
            client_info: ClientInfo { name: client_name.clone(), version: client_version },
            capabilities: ClientCapabilities {
                protocol_version: String::from_str(protocol_version),
                client_name: Some(client_name),
                client_version: version_copy,
                supports_progress: false,
            },
        })
    }

    /// Initializes a session: the request is read as `request` reads it and
    /// handed to the service; the answer is the gateway's initialize
    /// document.
    pub fn handle_initialize(&self, params: &Json) -> (r: Result<Json, JsonRpcError>)
        ensures
            params@.str_at("protocolVersion"@) is None ==> (r matches Err(e) && e.code == -32602
                && e.message@ == missing_field("protocolVersion"@)),
            params@.str_at("protocolVersion"@) is Some ==> (r matches Ok(doc) && doc@
                == initialize_document("2025-03-26"@, "Rigorix MCP Gateway"@)),
            params@.str_at("protocolVersion"@) is Some ==> exists|
                i: InitializeInput,
                events: Vec<McpServerEvent>,
            |
                #![trigger read_initialize(params@, i), session_announced(i, events)]
                read_initialize(params@, i) && session_announced(i, events),
    {
        let input = match self.request(params) {
            Ok(i) => i,
            Err(e) => {
                return Err(e);
            },
        };
        let ghost gi = input;
        let (output, events) = self.service.initialize(input);
        assert(read_initialize(params@, gi) && session_announced(gi, events));
        let caps = vec![
            entry("tools", Json::object(Vec::new())),
            entry("resources", Json::object(Vec::new())),
            entry("prompts", Json::object(Vec::new())),
        ];
        let info = vec![
            entry("name", Json::Str(output.server_info)),
            entry("version", Json::string("0.1.0")),
        ];
        let ghost doc = initialize_document("2025-03-26"@, "Rigorix MCP Gateway"@);
        proof {
            lemma_entries_view(caps@);
            lemma_entries_view(info@);
            assert(entries_view(Seq::<(String, Json)>::empty()) =~= Seq::<(Seq<char>, JsonV)>::empty());
            assert(entries_view(caps@) =~= doc->Object_0[1].1->Object_0);
            assert(entries_view(info@) =~= doc->Object_0[2].1->Object_0);
        }
        let entries = vec![
            entry("protocolVersion", Json::Str(output.protocol_version)),
            entry("capabilities", Json::object(caps)),
            entry("serverInfo", Json::object(info)),
        ];
        proof {
            lemma_entries_view(entries@);
            assert(entries_view(entries@) =~= doc->Object_0);
        }
        Ok(Json::object(entries))
    }
}

/// Acknowledges `initialized`; there is nothing to do.
pub struct InitializedHandlerImpl;

impl InitializedHandlerImpl {
    /// Acknowledges the notification.
    pub fn handle_initialized(&self, session_id: &str) -> (r: Result<(), JsonRpcError>)
        ensures
            r is Ok,
    {
        Ok(())
    }
}

/// The listing document of a tool.
pub open spec fn tool_document(t: ToolSchemaV) -> JsonV {
    JsonV::Object(
        seq![
            ("name"@, JsonV::Str(t.name)),
            ("description"@, JsonV::Str(t.description)),
            ("inputSchema"@, t.input_schema),
        ],
    )
}

/// Answers `tools/list`.
pub struct ListToolsHandlerImpl {
    service: McpServerServiceImpl,
}

impl ListToolsHandlerImpl {
    /// The tools the service serves.
    pub closed spec fn spec_tools(&self) -> Seq<ToolSchemaV> {
        self.service.spec_tools()
    }

    /// A handler over the service.
    pub fn new(service: McpServerServiceImpl) -> (r: ListToolsHandlerImpl)
        ensures
            r.spec_tools() == service.spec_tools(),
    {
        ListToolsHandlerImpl { service }
    }

    /// Lists every served tool with its name, description and input schema.
    pub fn handle_list_tools(&self) -> (r: Result<Json, JsonRpcError>)
        ensures
            r matches Ok(doc) && doc@ == JsonV::Object(
                seq![
                    ("tools"@, JsonV::Array(
                        crate::mcp_server::service::kept_tools(self.spec_tools(), None).map_values(
                            |t: ToolSchemaV| tool_document(t),
                        ),
                    )),
                ],
            ),
    {
        let output = self.service.list_tools(ListToolsInput { filter: None });
        let ghost tv = output.tools@.map_values(|t: ToolSchema| t@);
        let mut items: Vec<Json> = Vec::new();
        let mut i: usize = 0;
        while i < output.tools.len()
            invariant
                tv == output.tools@.map_values(|t: ToolSchema| t@),
                i <= output.tools.len(),
                items.len() == i,
                forall|j: int| 0 <= j < i ==> #[trigger] items@[j]@ == tool_document(tv[j]),
            decreases output.tools.len() - i,
        {
            let t = &output.tools[i];
            let e = vec![
                entry("name", Json::Str(t.name.clone())),
                entry("description", Json::Str(t.description.clone())),
                entry("inputSchema", t.input_schema.duplicate()),
            ];
            proof {
                lemma_entries_view(e@);
                assert(entries_view(e@) =~= tool_document(tv[i as int])->Object_0);
            }
            items.push(Json::object(e));
            i = i + 1;
        }
        proof {
            lemma_array_view_eq(items@, tv.map_values(|t: ToolSchemaV| tool_document(t)));
        }
        let entries = vec![entry("tools", Json::Array(items))];
        proof {
            lemma_entries_view(entries@);
            assert(entries_view(entries@) =~= seq![
                ("tools"@, JsonV::Array(tv.map_values(|t: ToolSchemaV| tool_document(t)))),
            ]);
        }
        Ok(Json::object(entries))
    }
}

/// The document of a content item.
pub open spec fn content_document(c: ContentItem) -> JsonV {
    match c {
        ContentItem::Text { text } => JsonV::Object(
            seq![("type"@, JsonV::Str("text"@)), ("text"@, JsonV::Str(text@))],
        ),
        ContentItem::Image { data, mime_type } => JsonV::Object(
            seq![
                ("type"@, JsonV::Str("image"@)),
                ("data"@, JsonV::Str(data@)),
                ("mimeType"@, JsonV::Str(mime_type@)),
            ],
        ),
        ContentItem::Resource { uri, mime_type, text } => JsonV::Object(
            seq![
                ("type"@, JsonV::Str("resource"@)),
                ("resource"@, JsonV::Object(
                    seq![
                        ("uri"@, JsonV::Str(uri@)),
                        ("mimeType"@, match mime_type {
                            Some(m) => JsonV::Str(m@),
                            None => JsonV::Null,
                        }),
                        ("text"@, match text {
                            Some(t) => JsonV::Str(t@),
                            None => JsonV::Null,
                        }),
                    ],
                )),
            ],
        ),
    }
}

fn content_json(c: &ContentItem) -> (r: Json)
    ensures
        r@ == content_document(*c),
{
    match c {
        ContentItem::Text { text } => {
            let e = vec![entry("type", Json::string("text")), entry("text", Json::Str(text.clone()))];
            proof {
                lemma_entries_view(e@);
                assert(entries_view(e@) =~= content_document(*c)->Object_0);
            }
            Json::object(e)
        },
        ContentItem::Image { data, mime_type } => {
            let e = vec![
                entry("type", Json::string("image")),
                entry("data", Json::Str(data.clone())),
                entry("mimeType", Json::Str(mime_type.clone())),
            ];
            proof {
                lemma_entries_view(e@);
                assert(entries_view(e@) =~= content_document(*c)->Object_0);
            }
            Json::object(e)
        },
        ContentItem::Resource { uri, mime_type, text } => {
            let inner = vec![
                entry("uri", Json::Str(uri.clone())),
                entry("mimeType", Json::opt_string(
                    match mime_type {
                        Some(m) => Some(m.as_str()),
                        None => None,
                    },
                )),
                entry("text", Json::opt_string(
                    match text {
                        Some(t) => Some(t.as_str()),
                        None => None,
                    },
                )),
            ];
            proof {
                lemma_entries_view(inner@);
                assert(entries_view(inner@) =~= content_document(*c)->Object_0[1].1->Object_0);
            }
            let e = vec![entry("type", Json::string("resource")), entry("resource", Json::object(inner))];
            proof {
                lemma_entries_view(e@);
                assert(entries_view(e@) =~= content_document(*c)->Object_0);
            }
            Json::object(e)
        },
    }
}

/// Whether `r` answers a call of the tool `name` that had the outcome
/// `outcome`: the content items and the error flag, or a tool-execution
/// failure naming the tool.
pub open spec fn answers_call(
    name: Seq<char>,
    outcome: Result<CallToolOutput, McpServerError>,
    r: Result<Json, JsonRpcError>,
) -> bool {
    match outcome {
        Ok(o) => r matches Ok(doc) && doc@ == JsonV::Object(
            seq![
                ("content"@, JsonV::Array(o.content@.map_values(|c: ContentItem| content_document(c)))),
                ("isError"@, JsonV::Bool(o.is_error)),
            ],
        ),
        Err(e) => r matches Err(j) && j.code == -32002 && j.message@ == "Tool execution failed: "@
            + name + " - "@ + e.spec_message(),
    }
}

/// Answers `tools/call`.
pub struct CallToolHandlerImpl {
    service: McpServerServiceImpl,
}

impl CallToolHandlerImpl {
    /// The service the handler answers from.
    pub closed spec fn spec_service(&self) -> McpServerServiceImpl {
        self.service
    }

    /// A handler over the service.
    pub fn new(service: McpServerServiceImpl) -> (r: CallToolHandlerImpl)
        ensures
            r.spec_service() == service,
    {
        CallToolHandlerImpl { service }
    }

    /// Reads a call: the tool's name is required; the arguments are an
    /// empty object where absent; the call gets a fresh session id.
    pub fn request(&self, params: &Json) -> (r: Result<CallToolInput, JsonRpcError>)
        ensures
            params@.str_at("name"@) is None ==> (r matches Err(e) && e.code == -32602 && e.message@
                == missing_field("name"@)),
            params@.str_at("name"@) is Some ==> (r matches Ok(i) && Some(i.name@) == params@.str_at(
                "name"@,
            ) && i.arguments@ == (match params@.get("arguments"@) {
                Some(a) => a,
                None => JsonV::Object(Seq::empty()),
            })),
    {
        let name = match params.str_at("name") {
            Some(n) => n,
            None => {
                return Err(missing("name"));
            },
        };
        let arguments = match params.get("arguments") {
            Some(a) => a.duplicate(),
            None => {
                let e: Vec<(String, Json)> = Vec::new();
                proof {
                    assert(entries_view(e@) =~= Seq::<(Seq<char>, JsonV)>::empty());
                }
                Json::object(e)
            },
        };
        Ok(CallToolInput { session_id: SessionId::new(), name: String::from_str(name), arguments })
    }

    /// Answers a call from its outcome: the content items and the error
    /// flag, or a tool-execution failure naming the tool.
    pub fn respond(&self, name: &str, outcome: Result<CallToolOutput, McpServerError>) -> (r: Result<
        Json,
        JsonRpcError,
    >)
        ensures
            answers_call(name@, outcome, r),
    {
        match outcome {
            Ok(o) => {
                let mut items: Vec<Json> = Vec::new();
                let mut i: usize = 0;
                while i < o.content.len()
                    invariant
                        i <= o.content.len(),
                        items.len() == i,
                        forall|j: int|
                            0 <= j < i ==> #[trigger] items@[j]@ == content_document(o.content@[j]),
                    decreases o.content.len() - i,
                {
                    items.push(content_json(&o.content[i]));
                    i = i + 1;
                }
                proof {
                    lemma_array_view_eq(items@, o.content@.map_values(|c: ContentItem| content_document(c)));
                }
                let entries = vec![entry("content", Json::Array(items)), entry("isError", Json::Bool(o.is_error))];
                proof {
                    lemma_entries_view(entries@);
                    assert(entries_view(entries@) =~= seq![
                        ("content"@, JsonV::Array(
                            o.content@.map_values(|c: ContentItem| content_document(c)),
                        )),
                        ("isError"@, JsonV::Bool(o.is_error)),
                    ]);
                }
                Ok(Json::object(entries))
            },
            Err(e) => Err(JsonRpcError::tool_execution_failed(name, e.message().as_str())),
        }
    }

    /// Answers a call: reads the tool's name and arguments as `request`
    /// does, hands them to `call` once, and answers its outcome as
    /// `respond` does; without a name the call is not made.
    pub fn handle_call_tool<F: Fn(String, Json) -> Result<CallToolOutput, McpServerError>>(
        &self,
        params: &Json,
        call: F,
    ) -> (r: Result<Json, JsonRpcError>)
        requires
            forall|n: String, a: Json| #[trigger] call.requires((n, a)),
        ensures
            params@.str_at("name"@) is None ==> (r matches Err(e) && e.code == -32602 && e.message@
                == missing_field("name"@)),
            params@.str_at("name"@) is Some ==> exists|
                name: String,
                args: Json,
                out: Result<CallToolOutput, McpServerError>,
            |
                #![trigger call.ensures((name, args), out)]
                Some(name@) == params@.str_at("name"@) && args@ == (match params@.get("arguments"@) {
                    Some(a) => a,
                    None => JsonV::Object(Seq::empty()),
                }) && call.ensures((name, args), out) && answers_call(name@, out, r),
    {
        let input = match self.request(params) {
            Ok(i) => i,
            Err(e) => {
                return Err(e);
            },
        };
        let ghost gname = input.name;
        let ghost gargs = input.arguments;
        let name = input.name.clone();
        let outcome = call(input.name, input.arguments);
        let r = self.respond(name.as_str(), outcome);
        assert(call.ensures((gname, gargs), outcome));
        r
    }
}

/// Answers `resources/list`.
pub struct ListResourcesHandlerImpl {
    service: McpServerServiceImpl,
}

impl ListResourcesHandlerImpl {
    /// The service the handler answers from.
    pub closed spec fn spec_service(&self) -> McpServerServiceImpl {
        self.service
    }

    /// A handler over the service.
    pub fn new(service: McpServerServiceImpl) -> (r: ListResourcesHandlerImpl)
        ensures
            r.spec_service() == service,
    {
        ListResourcesHandlerImpl { service }
    }

    /// Lists the served resources.
    pub fn handle_list_resources(&self) -> (r: Result<Json, JsonRpcError>)
        ensures
            r matches Ok(doc) && doc@ == resources_document(),
    {
        let output = self.service.list_resources();
        let mut items: Vec<Json> = Vec::new();
        let ghost doc = resources_document();
        let mut i: usize = 0;
        while i < output.resources.len()
            invariant
                output.resources@.len() == 2,
                output.resources@[0].uri@ == "rigorix://audit/{id}"@,
                output.resources@[0].name@ == "Audit Trail"@,
                output.resources@[0].description@ == "Read an audit trail by execution ID"@,
                output.resources@[0].mime_type@ == "text/plain"@,
                output.resources@[1].uri@ == "rigorix://templates/{name}"@,
                output.resources@[1].name@ == "Template"@,
                output.resources@[1].description@ == "Read a template by name"@,
                output.resources@[1].mime_type@ == "text/plain"@,
                doc == resources_document(),
                i <= 2,
                items.len() == i,
                forall|j: int| 0 <= j < i ==> #[trigger] items@[j]@ == doc->Object_0[0].1->Array_0[j],
            decreases 2 - i,
        {
            let s = &output.resources[i];
            let e = vec![
                entry("uri", Json::Str(s.uri.clone())),
                entry("name", Json::Str(s.name.clone())),
                entry("description", Json::Str(s.description.clone())),
                entry("mimeType", Json::Str(s.mime_type.clone())),
            ];
            proof {
                lemma_entries_view(e@);
                assert(entries_view(e@) =~= doc->Object_0[0].1->Array_0[i as int]->Object_0);
            }
            items.push(Json::object(e));
            i = i + 1;
        }
        proof {
            lemma_array_view_eq(items@, doc->Object_0[0].1->Array_0);
        }
        let entries = vec![entry("resources", Json::Array(items))];
        proof {
            lemma_entries_view(entries@);
            assert(entries_view(entries@) =~= doc->Object_0);
        }
        Ok(Json::object(entries))
    }
}

/// Answers `resources/read`.
pub struct ReadResourceHandlerImpl {
    service: McpServerServiceImpl,
}

impl ReadResourceHandlerImpl {
    /// The service the handler answers from.
    pub closed spec fn spec_service(&self) -> McpServerServiceImpl {
        self.service
    }

    /// A handler over the service.
    pub fn new(service: McpServerServiceImpl) -> (r: ReadResourceHandlerImpl)
        ensures
            r.spec_service() == service,
    {
        ReadResourceHandlerImpl { service }
    }

    /// Reads a read request: the URI is required.
    pub fn request(&self, params: &Json) -> (r: Result<ReadResourceInput, JsonRpcError>)
        ensures
            params@.str_at("uri"@) is None ==> (r matches Err(e) && e.code == -32602 && e.message@
                == missing_field("uri"@)),
            params@.str_at("uri"@) is Some ==> (r matches Ok(i) && Some(i.uri@) == params@.str_at(
                "uri"@,
            )),
    {
        match params.str_at("uri") {
            Some(u) => Ok(ReadResourceInput { uri: String::from_str(u) }),
            None => Err(missing("uri")),
        }
    }

    /// Answers a read from its outcome: the contents, or an internal error
    /// with the service's message.
    pub fn respond(&self, outcome: Result<ReadResourceOutput, McpServerError>) -> (r: Result<
        Json,
        JsonRpcError,
    >)
        ensures
            match outcome {
                Ok(o) => r matches Ok(doc) && doc@ == crate::gateway::read_document(
                    o.uri@,
                    o.mime_type@,
                    o.text@,
                ),
                Err(e) => r matches Err(j) && j.code == -32603 && j.message@ == "Internal error: "@
                    + e.spec_message(),
            },
    {
        match outcome {
            Ok(o) => {
                let ghost doc = crate::gateway::read_document(o.uri@, o.mime_type@, o.text@);
                let item = vec![
                    entry("uri", Json::Str(o.uri)),
                    entry("mimeType", Json::Str(o.mime_type)),
                    entry("text", Json::Str(o.text)),
                ];
                proof {
                    lemma_entries_view(item@);
                    assert(entries_view(item@) =~= doc->Object_0[0].1->Array_0[0]->Object_0);
                }
                let items = vec![Json::object(item)];
                proof {
                    lemma_array_view(items@);
                    assert(crate::json::array_view(items@) =~= doc->Object_0[0].1->Array_0);
                }
                let entries = vec![entry("contents", Json::Array(items))];
                proof {
                    lemma_entries_view(entries@);
                    assert(entries_view(entries@) =~= doc->Object_0);
                }
                Ok(Json::object(entries))
            },
            Err(e) => Err(JsonRpcError::internal_error(e.message().as_str())),
        }
    }
}

/// Answers `prompts/list`.
pub struct ListPromptsHandlerImpl {
    service: McpServerServiceImpl,
}

impl ListPromptsHandlerImpl {
    /// The service the handler answers from.
    pub closed spec fn spec_service(&self) -> McpServerServiceImpl {
        self.service
    }

    /// A handler over the service.
    pub fn new(service: McpServerServiceImpl) -> (r: ListPromptsHandlerImpl)
        ensures
            r.spec_service() == service,
    {
        ListPromptsHandlerImpl { service }
    }

    /// Lists the served prompts with their arguments.
    pub fn handle_list_prompts(&self) -> (r: Result<Json, JsonRpcError>)
        ensures
            r matches Ok(doc) && doc@ == prompts_document(),
    {
        let output = self.service.list_prompts();
        let p = &output.prompts[0];
        let args: Vec<Json> = Vec::new();
        let ghost doc = prompts_document();
        let e = vec![
            entry("name", Json::Str(p.name.clone())),
            entry("description", Json::Str(p.description.clone())),
            entry("arguments", Json::Array(args)),
        ];
        proof {
            lemma_entries_view(e@);
            assert(crate::json::array_view(Seq::<Json>::empty()) =~= Seq::<JsonV>::empty());
            assert(entries_view(e@) =~= doc->Object_0[0].1->Array_0[0]->Object_0);
        }
        let items = vec![Json::object(e)];
        proof {
            lemma_array_view(items@);
            assert(crate::json::array_view(items@) =~= doc->Object_0[0].1->Array_0);
        }
        let entries = vec![entry("prompts", Json::Array(items))];
        proof {
            lemma_entries_view(entries@);
            assert(entries_view(entries@) =~= doc->Object_0);
        }
        Ok(Json::object(entries))
    }
}

/// Answers `prompts/get`.
pub struct GetPromptHandlerImpl {
    service: McpServerServiceImpl,
}

impl GetPromptHandlerImpl {
    /// The service the handler answers from.
    pub closed spec fn spec_service(&self) -> McpServerServiceImpl {
        self.service
    }

    /// A handler over the service.
    pub fn new(service: McpServerServiceImpl) -> (r: GetPromptHandlerImpl)
        ensures
            r.spec_service() == service,
    {
        GetPromptHandlerImpl { service }
    }

    /// Answers a prompt request: the name is required; the introduction
    /// prompt is answered with its message, any other name with an internal
    /// error.
    pub fn handle_get_prompt(&self, params: &Json) -> (r: Result<Json, JsonRpcError>)
        ensures
            params@.str_at("name"@) is None ==> (r matches Err(e) && e.code == -32602 && e.message@
                == missing_field("name"@)),
            params@.str_at("name"@) == Some("rigorix_introduction"@) ==> (r matches Ok(doc) && doc@
                == introduction_document()),
            params@.str_at("name"@) is Some && params@.str_at("name"@)->0 != "rigorix_introduction"@
                ==> (r matches Err(e) && e.code == -32603 && e.message@ == "Internal error: "@
                + "Internal error: "@ + "Prompt '"@ + params@.str_at("name"@)->0 + "' not found"@),
    {
        let name = match params.str_at("name") {
            Some(n) => n,
            None => {
                return Err(missing("name"));
            },
        };
        match self.service.get_prompt(GetPromptInput { name: String::from_str(name), arguments: None }) {
            Ok(output) => {
                let ghost doc = introduction_document();
                let m = &output.messages[0];
                let text = match &m.content {
                    PromptContentDto::Text { text } => text.clone(),
                };
                let content = vec![entry("type", Json::string("text")), entry("text", Json::Str(text))];
                proof {
                    lemma_entries_view(content@);
                    assert(entries_view(content@) =~= doc->Object_0[1].1->Array_0[0]->Object_0[1].1->Object_0);
                }
                let message = vec![
                    entry("role", Json::Str(m.role.clone())),
                    entry("content", Json::object(content)),
                ];
                proof {
                    lemma_entries_view(message@);
                    assert(entries_view(message@) =~= doc->Object_0[1].1->Array_0[0]->Object_0);
                }
                let messages = vec![Json::object(message)];
                proof {
                    lemma_array_view(messages@);
                    assert(crate::json::array_view(messages@) =~= doc->Object_0[1].1->Array_0);
                }
                let description = match &output.description {
                    Some(d) => Json::Str(d.clone()),
                    None => Json::Null,
                };
                let entries = vec![entry("description", description), entry("messages", Json::Array(messages))];
                proof {
                    lemma_entries_view(entries@);
                    assert(entries_view(entries@) =~= doc->Object_0);
                }
                Ok(Json::object(entries))
            },
            Err(e) => {
                let msg = e.message();
                proof {
                    assert(("Internal error: "@ + msg@) =~= "Internal error: "@ + "Internal error: "@
                        + "Prompt '"@ + name@ + "' not found"@);
                }
                Err(JsonRpcError::internal_error(msg.as_str()))
            },
        }
    }
}

/// Acknowledges `notifications/cancelled`; there is nothing to cancel.
pub struct CancelledHandlerImpl;

impl CancelledHandlerImpl {
    /// Acknowledges the notification.
    pub fn handle_cancelled(&self, params: &Json) -> (r: Result<(), JsonRpcError>)
        ensures
            r is Ok,
    {
        Ok(())
    }
}

/// The end of a transport that the server can wait on and stop.
pub trait TransportHandle {
    /// Waits until the transport has finished.
    fn wait_for_completion(&self);

    /// Asks the transport to stop.
    fn signal_stop(&self);
}

/// The stdio transport: it finishes when its input closes, so there is
/// nothing to wait for or stop here.
pub struct StdioTransportHandle;

impl TransportHandle for StdioTransportHandle {
    fn wait_for_completion(&self) {
    }

    fn signal_stop(&self) {
    }
}

} // verus!
