//! The tool registry aggregate: every MCP tool the gateway exposes, with the
//! naming conventions that separate open-source and enterprise tools.

use vstd::prelude::*;
use vstd::string::StringExecFns;
use crate::json::Json;
use crate::mcp_server::error::RegistrationError;
use crate::mcp_server::event::McpServerEvent;
use crate::mcp_server::value::{
    enterprise_prefix, is_enterprise_name, is_oss_name, oss_prefix, JsonRpcError, ToolResult,
    ToolSchema, ToolSchemaV,
};
use crate::platform::{fresh_uuid, now_millis};
use crate::text::{concat3, has_prefix, owned, starts_with, str_eq};

verus! {

/// Handler that executes a registered tool. Implemented by the tools that the
/// gateway hosts.
pub trait ToolHandler {
    /// Execute the tool with the given parameters.
    fn handle(&self, params: Json) -> Result<ToolResult, JsonRpcError>;

    /// The schema of the handled tool.
    fn schema(&self) -> &ToolSchema;
}

/// A tool held by the registry.
#[derive(Debug)]
pub struct RegisteredToolProxy {
    /// The tool's unique name.
    pub name: String,
    /// The tool's schema.
    pub schema: ToolSchema,
    /// Whether this is an enterprise tool.
    pub is_enterprise: bool,
}

/// The value of a registered tool.
pub struct ToolEntryV {
    pub name: Seq<char>,
    pub schema: ToolSchemaV,
    pub is_enterprise: bool,
}

impl View for RegisteredToolProxy {
    type V = ToolEntryV;

    open spec fn view(&self) -> ToolEntryV {
        ToolEntryV { name: self.name@, schema: self.schema@, is_enterprise: self.is_enterprise }
    }
}

/// The values of a sequence of registered tools.
pub open spec fn entries_of(s: Seq<RegisteredToolProxy>) -> Seq<ToolEntryV> {
    s.map_values(|p: RegisteredToolProxy| p@)
}

/// The value of a registration error.
pub enum RegistrationErrorV {
    AlreadyRegistered(Seq<char>),
    InvalidName(Seq<char>),
    NotFound(Seq<char>),
    EnterpriseRegistrationForbidden,
    MaxToolsReached(nat),
}

impl View for RegistrationError {
    type V = RegistrationErrorV;

    open spec fn view(&self) -> RegistrationErrorV {
        match self {
            RegistrationError::AlreadyRegistered(s) => RegistrationErrorV::AlreadyRegistered(s@),
            RegistrationError::InvalidName(s) => RegistrationErrorV::InvalidName(s@),
            RegistrationError::NotFound(s) => RegistrationErrorV::NotFound(s@),
            RegistrationError::EnterpriseRegistrationForbidden =>
                RegistrationErrorV::EnterpriseRegistrationForbidden,
            RegistrationError::MaxToolsReached(n) => RegistrationErrorV::MaxToolsReached(*n as nat),
        }
    }
}

/// Whether a tool named `name` is among `tools`.
pub open spec fn has_tool(tools: Seq<ToolEntryV>, name: Seq<char>) -> bool {
    exists|i: int| 0 <= i < tools.len() && #[trigger] tools[i].name == name
}

/// Why a registration of `name` on the given path is refused, if it is; the
/// checks apply in this order.
pub open spec fn registration_refusal(
    tools: Seq<ToolEntryV>,
    max_tools: nat,
    name: Seq<char>,
    is_enterprise: bool,
) -> Option<RegistrationErrorV> {
    if name.len() == 0 {
        Some(RegistrationErrorV::InvalidName("Tool name cannot be empty"@))
    } else if is_enterprise && !has_prefix(name, enterprise_prefix()) {
        Some(
            RegistrationErrorV::InvalidName(
                "Enterprise tool '"@ + name + "' must start with 'rigorix_enterprise_' prefix"@,
            ),
        )
    } else if !is_enterprise && !has_prefix(name, oss_prefix()) {
        Some(RegistrationErrorV::InvalidName("Tool '"@ + name + "' must start with 'rigorix_' prefix"@))
    } else if !is_enterprise && has_prefix(name, enterprise_prefix()) {
        Some(RegistrationErrorV::EnterpriseRegistrationForbidden)
    } else if has_tool(tools, name) {
        Some(RegistrationErrorV::AlreadyRegistered(name))
    } else if tools.len() >= max_tools {
        Some(RegistrationErrorV::MaxToolsReached(max_tools))
    } else {
        None
    }
}

/// The tools after registering `schema` on the given path, or the refusal.
pub open spec fn register_outcome(
    tools: Seq<ToolEntryV>,
    max_tools: nat,
    schema: ToolSchemaV,
    is_enterprise: bool,
) -> Result<Seq<ToolEntryV>, RegistrationErrorV> {
    match registration_refusal(tools, max_tools, schema.name, is_enterprise) {
        Some(e) => Err(e),
        None => Ok(tools.push(ToolEntryV { name: schema.name, schema, is_enterprise })),
    }
}

/// The tools after registering each schema in turn on the enterprise path, and
/// the first refusal, if any; registration stops at the first refusal.
pub open spec fn merge_outcome(
    tools: Seq<ToolEntryV>,
    max_tools: nat,
    schemas: Seq<ToolSchemaV>,
) -> (Seq<ToolEntryV>, Option<RegistrationErrorV>)
    decreases schemas.len(),
{
    if schemas.len() == 0 {
        (tools, None)
    } else {
        match register_outcome(tools, max_tools, schemas[0], true) {
            Err(e) => (tools, Some(e)),
            Ok(next) => merge_outcome(next, max_tools, schemas.skip(1)),
        }
    }
}

/// The number of open-source (non-enterprise) tools among `tools`.
pub open spec fn oss_count(tools: Seq<ToolEntryV>) -> nat
    decreases tools.len(),
{
    if tools.len() == 0 {
        0
    } else {
        oss_count(tools.drop_last()) + if tools.last().is_enterprise {
            0nat
        } else {
            1nat
        }
    }
}

/// Aggregate root holding all registered tools.
#[derive(Debug)]
pub struct ToolRegistry {
    id: u128,
    tools: Vec<RegisteredToolProxy>,
    max_tools: usize,
    has_enterprise_tools: bool,
}

impl Default for ToolRegistry {
    /// The default registry: up to one hundred tools.
    fn default() -> (r: ToolRegistry)
        ensures
            r.wf(),
            r.spec_tools() == Seq::<ToolEntryV>::empty(),
            r.spec_max_tools() == 100,
    {
        ToolRegistry::default_registry()
    }
}

impl ToolRegistry {
    /// The registry's identifier.
    pub closed spec fn spec_id(&self) -> u128 {
        self.id
    }

    /// The registered tools, in registration order.
    pub closed spec fn spec_tools(&self) -> Seq<ToolEntryV> {
        entries_of(self.tools@)
    }

    /// The maximum number of tools.
    pub closed spec fn spec_max_tools(&self) -> nat {
        self.max_tools as nat
    }

    /// The recorded presence of enterprise tools.
    pub closed spec fn spec_has_enterprise_tools(&self) -> bool {
        self.has_enterprise_tools
    }

    /// The registry invariant: names are unique and match their schemas, the
    /// tool count stays within the limit, every name follows the convention
    /// of its path, and the enterprise flag records whether an enterprise tool
    /// is present.
    pub open spec fn wf(&self) -> bool {
        let tools = self.spec_tools();
        &&& tools.len() <= self.spec_max_tools()
        &&& forall|i: int| 0 <= i < tools.len() ==> #[trigger] tools[i].name == tools[i].schema.name
        &&& forall|i: int, j: int|
            0 <= i < tools.len() && 0 <= j < tools.len() && i != j ==> #[trigger] tools[i].name
                != #[trigger] tools[j].name
        &&& forall|i: int|
            0 <= i < tools.len() ==> (#[trigger] tools[i].is_enterprise ==> is_enterprise_name(
                tools[i].name,
            ))
        &&& forall|i: int|
            0 <= i < tools.len() ==> (!#[trigger] tools[i].is_enterprise ==> is_oss_name(
                tools[i].name,
            ))
        &&& self.spec_has_enterprise_tools() == exists|i: int|
            0 <= i < tools.len() && #[trigger] tools[i].is_enterprise
    }

    /// A new empty registry that admits up to `max_tools` tools.
    pub fn new(max_tools: usize) -> (r: ToolRegistry)
        ensures
            r.wf(),
            r.spec_tools() == Seq::<ToolEntryV>::empty(),
            r.spec_max_tools() == max_tools,
            !r.spec_has_enterprise_tools(),
    {
        let r = ToolRegistry {
            id: fresh_uuid(),
            tools: Vec::new(),
            max_tools,
            has_enterprise_tools: false,
        };
        proof {
            assert(r.spec_tools() =~= Seq::<ToolEntryV>::empty());
        }
        r
    }

    /// The default registry: up to one hundred tools.
    pub fn default_registry() -> (r: ToolRegistry)
        ensures
            r.wf(),
            r.spec_tools() == Seq::<ToolEntryV>::empty(),
            r.spec_max_tools() == 100,
    {
        ToolRegistry::new(100)
    }

    /// The registry's unique identifier.
    pub fn id(&self) -> (r: u128)
        ensures
            r == self.spec_id(),
    {
        self.id
    }

    /// The number of registered tools.
    pub fn tool_count(&self) -> (r: usize)
        ensures
            r == self.spec_tools().len(),
    {
        self.tools.len()
    }

    /// The maximum number of allowed tools.
    pub fn max_tools(&self) -> (r: usize)
        ensures
            r == self.spec_max_tools(),
    {
        self.max_tools
    }

    /// Whether enterprise tools are registered.
    pub fn has_enterprise_tools(&self) -> (r: bool)
        requires
            self.wf(),
        ensures
            r == exists|i: int|
                0 <= i < self.spec_tools().len() && #[trigger] self.spec_tools()[i].is_enterprise,
    {
        self.has_enterprise_tools
    }

    /// The position of the tool named `name`, if registered.
    fn position(&self, name: &str) -> (r: Option<usize>)
        ensures
            match r {
                Some(i) => i < self.spec_tools().len() && self.spec_tools()[i as int].name == name@,
                None => !has_tool(self.spec_tools(), name@),
            },
    {
        let mut i: usize = 0;
        while i < self.tools.len()
            invariant
                i <= self.tools.len(),
                forall|j: int| 0 <= j < i ==> self.spec_tools()[j].name != name@,
            decreases self.tools.len() - i,
        {
            if str_eq(self.tools[i].name.as_str(), name) {
                return Some(i);
            }
            i = i + 1;
        }
        None
    }

    /// Whether a tool name is registered.
    pub fn is_registered(&self, name: &str) -> (r: bool)
        ensures
            r == has_tool(self.spec_tools(), name@),
    {
        self.position(name).is_some()
    }

    /// The schemas of all registered tools, in registration order.
    pub fn list_schemas(&self) -> (r: Vec<ToolSchema>)
        ensures
            r.len() == self.spec_tools().len(),
            forall|i: int| 0 <= i < r.len() ==> #[trigger] r[i]@ == self.spec_tools()[i].schema,
    {
        let mut out: Vec<ToolSchema> = Vec::new();
        let mut i: usize = 0;
        while i < self.tools.len()
            invariant
                i <= self.tools.len(),
                out.len() == i,
                forall|j: int| 0 <= j < i ==> #[trigger] out[j]@ == self.spec_tools()[j].schema,
            decreases self.tools.len() - i,
        {
            out.push(self.tools[i].schema.duplicate());
            i = i + 1;
        }
        out
    }

    /// Register an open-source tool (`rigorix_` prefix).
    pub fn register(&mut self, schema: ToolSchema, handler: &dyn ToolHandler) -> (r: Result<
        Vec<McpServerEvent>,
        RegistrationError,
    >)
        requires
            old(self).wf(),
        ensures
            final(self).wf(),
            final(self).spec_id() == old(self).spec_id(),
            final(self).spec_max_tools() == old(self).spec_max_tools(),
            Self::registered(
                old(self).spec_tools(),
                final(self).spec_tools(),
                old(self).spec_max_tools(),
                schema@,
                false,
                r,
            ),
    {
        self.validate_and_register(schema, false)
    }

    /// Register an enterprise tool (`rigorix_enterprise_` prefix).
    pub fn register_enterprise(&mut self, schema: ToolSchema, handler: &dyn ToolHandler) -> (r:
        Result<Vec<McpServerEvent>, RegistrationError>)
        requires
            old(self).wf(),
        ensures
            final(self).wf(),
            final(self).spec_id() == old(self).spec_id(),
            final(self).spec_max_tools() == old(self).spec_max_tools(),
            Self::registered(
                old(self).spec_tools(),
                final(self).spec_tools(),
                old(self).spec_max_tools(),
                schema@,
                true,
                r,
            ),
    {
        self.validate_and_register(schema, true)
    }

    /// What a registration does: on success the tool is appended and one
    /// registration event reports it; on refusal the tools are unchanged and
    /// the error is the first refusal.
    pub open spec fn registered(
        before: Seq<ToolEntryV>,
        after: Seq<ToolEntryV>,
        max_tools: nat,
        schema: ToolSchemaV,
        is_enterprise: bool,
        r: Result<Vec<McpServerEvent>, RegistrationError>,
    ) -> bool {
        match register_outcome(before, max_tools, schema, is_enterprise) {
            Ok(next) => {
                &&& after == next
                &&& r is Ok
                &&& r->Ok_0.len() == 1
                &&& Self::registration_event(r->Ok_0[0], schema.name, is_enterprise, next.len())
            },
            Err(e) => {
                &&& after == before
                &&& r is Err
                &&& r->Err_0@ == e
            },
        }
    }

    /// A registration event for the given tool and total.
    pub open spec fn registration_event(
        ev: McpServerEvent,
        name: Seq<char>,
        is_enterprise: bool,
        total: nat,
    ) -> bool {
        match ev {
            McpServerEvent::ToolRegistered { tool_name, is_enterprise: e, total_tools, .. } => {
                tool_name@ == name && e == is_enterprise && total_tools == total
            },
            _ => false,
        }
    }

    /// Validate `schema` against the conventions of the path and register it.
    fn validate_and_register(&mut self, schema: ToolSchema, is_enterprise: bool) -> (r: Result<
        Vec<McpServerEvent>,
        RegistrationError,
    >)
        requires
            old(self).wf(),
        ensures
            final(self).wf(),
            final(self).spec_id() == old(self).spec_id(),
            final(self).spec_max_tools() == old(self).spec_max_tools(),
            Self::registered(
                old(self).spec_tools(),
                final(self).spec_tools(),
                old(self).spec_max_tools(),
                schema@,
                is_enterprise,
                r,
            ),
    {
        let ghost before = self.spec_tools();
        let name = schema.name.as_str();
        if name.is_empty() {
            return Err(RegistrationError::InvalidName(owned("Tool name cannot be empty")));
        }
        if is_enterprise {
            if !starts_with(name, "rigorix_enterprise_") {
                return Err(
                    RegistrationError::InvalidName(
                        concat3(
                            "Enterprise tool '",
                            name,
                            "' must start with 'rigorix_enterprise_' prefix",
                        ),
                    ),
                );
            }
        } else {
            if !starts_with(name, "rigorix_") {
                return Err(
                    RegistrationError::InvalidName(
                        concat3("Tool '", name, "' must start with 'rigorix_' prefix"),
                    ),
                );
            }
            if starts_with(name, "rigorix_enterprise_") {
                return Err(RegistrationError::EnterpriseRegistrationForbidden);
            }
        }
        if self.position(name).is_some() {
            return Err(RegistrationError::AlreadyRegistered(schema.name.clone()));
        }
        if self.tools.len() >= self.max_tools {
            return Err(RegistrationError::MaxToolsReached(self.max_tools));
        }
        let tool_name = schema.name.clone();
        let event_name = schema.name.clone();
        self.tools.push(RegisteredToolProxy { name: tool_name, schema, is_enterprise });
        if is_enterprise {
            self.has_enterprise_tools = true;
        }
        proof {
            let after = self.spec_tools();
            assert(after =~= before.push(after[after.len() - 1]));
            assert(after[after.len() - 1].is_enterprise == is_enterprise);
            assert(forall|i: int| 0 <= i < before.len() ==> after[i] == before[i]);
            if !is_enterprise && self.has_enterprise_tools {
                let w = choose|i: int| 0 <= i < before.len() && #[trigger] before[i].is_enterprise;
                assert(after[w].is_enterprise);
            }
        }
        let total_tools = self.tools.len();
        Ok(
            vec![
                McpServerEvent::ToolRegistered {
                    tool_name: event_name,
                    is_enterprise,
                    total_tools,
                    timestamp: now_millis(),
                },
            ],
        )
    }

    /// Unregister the tool named `name`.
    pub fn unregister(&mut self, name: &str) -> (r: Result<Vec<McpServerEvent>, RegistrationError>)
        requires
            old(self).wf(),
        ensures
            final(self).wf(),
            final(self).spec_id() == old(self).spec_id(),
            final(self).spec_max_tools() == old(self).spec_max_tools(),
            has_tool(old(self).spec_tools(), name@) ==> {
                &&& exists|i: int|
                    0 <= i < old(self).spec_tools().len() && old(self).spec_tools()[i].name == name@
                        && final(self).spec_tools() == old(self).spec_tools().remove(i)
                &&& r is Ok
                &&& r->Ok_0.len() == 1
                &&& Self::registration_event(
                    r->Ok_0[0],
                    name@,
                    false,
                    final(self).spec_tools().len(),
                )
            },
            !has_tool(old(self).spec_tools(), name@) ==> {
                &&& final(self).spec_tools() == old(self).spec_tools()
                &&& r is Err
                &&& r->Err_0@ == RegistrationErrorV::NotFound(name@)
            },
    {
        let ghost before = self.spec_tools();
        let pos = self.position(name);
        let idx = match pos {
            None => {
                return Err(RegistrationError::NotFound(owned(name)));
            },
            Some(i) => i,
        };
        let removed = self.tools.remove(idx);
        proof {
            assert(self.spec_tools() =~= before.remove(idx as int));
        }
        if removed.is_enterprise {
            let mut any = false;
            let mut i: usize = 0;
            while i < self.tools.len()
                invariant
                    i <= self.tools.len(),
                    any == exists|j: int| 0 <= j < i && #[trigger] self.spec_tools()[j].is_enterprise,
                decreases self.tools.len() - i,
            {
                let ghost prev_any = any;
                if self.tools[i].is_enterprise {
                    any = true;
                }
                proof {
                    let t = self.spec_tools();
                    assert(t[i as int] == self.tools@[i as int]@);
                    if any {
                        if !prev_any {
                            assert(t[i as int].is_enterprise);
                        } else {
                            let w = choose|j: int| 0 <= j < i && #[trigger] t[j].is_enterprise;
                            assert(t[w].is_enterprise);
                        }
                    } else {
                        assert forall|j: int| 0 <= j < i + 1 implies !#[trigger] t[j].is_enterprise by {
                            if j < i {
                            } else {
                                assert(j == i);
                            }
                        }
                    }
                }
                i = i + 1;
            }
            self.has_enterprise_tools = any;
        } else {
            proof {
                let after = self.spec_tools();
                if self.has_enterprise_tools {
                    let w = choose|i: int| 0 <= i < before.len() && #[trigger] before[i].is_enterprise;
                    assert(w != idx);
                    if w < idx {
                        assert(after[w] == before[w]);
                    } else {
                        assert(after[w - 1] == before[w]);
                    }
                }
            }
        }
        proof {
            let after = self.spec_tools();
            assert forall|i: int, j: int|
                0 <= i < after.len() && 0 <= j < after.len() && i != j implies #[trigger] after[i].name
                != #[trigger] after[j].name by {
                let bi = if i < idx { i } else { i + 1 };
                let bj = if j < idx { j } else { j + 1 };
                assert(after[i] == before[bi]);
                assert(after[j] == before[bj]);
            }
        }
        let total_tools = self.tools.len();
        Ok(
            vec![
                McpServerEvent::ToolRegistered {
                    tool_name: owned(name),
                    is_enterprise: false,
                    total_tools,
                    timestamp: now_millis(),
                },
            ],
        )
    }

    /// Register each enterprise schema in turn; stops at the first refusal,
    /// keeping the tools registered before it.
    pub fn merge_enterprise_schemas(&mut self, schemas: Vec<ToolSchema>, handler: &dyn ToolHandler) -> (r:
        Result<Vec<McpServerEvent>, RegistrationError>)
        requires
            old(self).wf(),
        ensures
            final(self).wf(),
            final(self).spec_id() == old(self).spec_id(),
            final(self).spec_max_tools() == old(self).spec_max_tools(),
            ({
                let outcome = merge_outcome(
                    old(self).spec_tools(),
                    old(self).spec_max_tools(),
                    schemas@.map_values(|s: ToolSchema| s@),
                );
                &&& final(self).spec_tools() == outcome.0
                &&& match outcome.1 {
                    None => r is Ok && r->Ok_0.len() == final(self).spec_tools().len() - old(
                        self,
                    ).spec_tools().len(),
                    Some(e) => r is Err && r->Err_0@ == e,
                }
            }),
    {
        let ghost sv = schemas@.map_values(|s: ToolSchema| s@);
        let ghost start = self.spec_tools();
        let mut events: Vec<McpServerEvent> = Vec::new();
        let mut i: usize = 0;
        proof {
            assert(sv.skip(0) =~= sv);
        }
        while i < schemas.len()
            invariant
                self.wf(),
                self.spec_id() == old(self).spec_id(),
                self.spec_max_tools() == old(self).spec_max_tools(),
                i <= schemas.len(),
                sv == schemas@.map_values(|s: ToolSchema| s@),
                start == old(self).spec_tools(),
                merge_outcome(start, self.spec_max_tools(), sv) == merge_outcome(
                    self.spec_tools(),
                    self.spec_max_tools(),
                    sv.skip(i as int),
                ),
                events.len() == self.spec_tools().len() - start.len(),
                self.spec_tools().len() >= start.len(),
            decreases schemas.len() - i,
        {
            let schema = schemas[i].duplicate();
            let ghost cur = self.spec_tools();
            proof {
                assert(sv.skip(i as int)[0] == sv[i as int]);
                assert(sv.skip(i as int).skip(1) =~= sv.skip(i + 1 as int));
            }
            match self.register_enterprise(schema, handler) {
                Ok(mut evs) => {
                    events.append(&mut evs);
                },
                Err(e) => {
                    return Err(e);
                },
            }
            i = i + 1;
        }
        Ok(events)
    }

    /// The number of open-source (non-enterprise) tools.
    pub fn oss_tool_count(&self) -> (r: usize)
        ensures
            r == oss_count(self.spec_tools()),
    {
        let mut n: usize = 0;
        let mut i: usize = 0;
        while i < self.tools.len()
            invariant
                i <= self.tools.len(),
                n == oss_count(self.spec_tools().subrange(0, i as int)),
                n <= i,
            decreases self.tools.len() - i,
        {
            proof {
                assert(self.spec_tools().subrange(0, i + 1 as int).drop_last()
                    =~= self.spec_tools().subrange(0, i as int));
            }
            if !self.tools[i].is_enterprise {
                n = n + 1;
            }
            i = i + 1;
        }
        proof {
            assert(self.spec_tools().subrange(0, i as int) =~= self.spec_tools());
        }
        n
    }

    /// The registered tool named `name`, if any.
    pub(crate) fn find_proxy(&self, name: &str) -> (r: Option<&RegisteredToolProxy>)
        ensures
            match r {
                Some(p) => has_tool(self.spec_tools(), name@) && p@.name == name@ && exists|i: int|
                    0 <= i < self.spec_tools().len() && self.spec_tools()[i] == p@,
                None => !has_tool(self.spec_tools(), name@),
            },
    {
        match self.position(name) {
            Some(i) => Some(&self.tools[i]),
            None => None,
        }
    }
}


/// Registering a tool makes it registered, adds exactly that tool at the end,
/// and registering the same name again is refused as a duplicate.
pub proof fn law_registration_records_tool(
    tools: Seq<ToolEntryV>,
    max_tools: nat,
    schema: ToolSchemaV,
    is_enterprise: bool,
)
    requires
        register_outcome(tools, max_tools, schema, is_enterprise) is Ok,
    ensures
        ({
            let next = register_outcome(tools, max_tools, schema, is_enterprise)->Ok_0;
            &&& has_tool(next, schema.name)
            &&& next.len() == tools.len() + 1
            &&& next.subrange(0, tools.len() as int) == tools
            &&& register_outcome(next, max_tools, schema, is_enterprise) == Err::<
                Seq<ToolEntryV>,
                RegistrationErrorV,
            >(RegistrationErrorV::AlreadyRegistered(schema.name))
        }),
{
    let next = register_outcome(tools, max_tools, schema, is_enterprise)->Ok_0;
    assert(next[tools.len() as int].name == schema.name);
    assert(next.subrange(0, tools.len() as int) =~= tools);
}

/// The open-source path never admits an enterprise name, and the enterprise
/// path admits only enterprise names.
pub proof fn law_paths_keep_their_names(
    tools: Seq<ToolEntryV>,
    max_tools: nat,
    schema: ToolSchemaV,
    is_enterprise: bool,
)
    requires
        register_outcome(tools, max_tools, schema, is_enterprise) is Ok,
    ensures
        is_enterprise ==> is_enterprise_name(schema.name),
        !is_enterprise ==> is_oss_name(schema.name),
{
}

/// Unregistering a tool right after registering it gives back the tools as
/// they were: the registered tool is the only one with its name.
pub proof fn law_unregister_undoes_register(
    tools: Seq<ToolEntryV>,
    max_tools: nat,
    schema: ToolSchemaV,
    is_enterprise: bool,
    i: int,
)
    requires
        register_outcome(tools, max_tools, schema, is_enterprise) is Ok,
        0 <= i < register_outcome(tools, max_tools, schema, is_enterprise)->Ok_0.len(),
        register_outcome(tools, max_tools, schema, is_enterprise)->Ok_0[i].name == schema.name,
    ensures
        register_outcome(tools, max_tools, schema, is_enterprise)->Ok_0.remove(i) == tools,
{
    let next = register_outcome(tools, max_tools, schema, is_enterprise)->Ok_0;
    if i < tools.len() {
        assert(next[i] == tools[i]);
        assert(has_tool(tools, schema.name));
    }
    assert(i == tools.len());
    assert(next.remove(i) =~= tools);
}

} // verus!
