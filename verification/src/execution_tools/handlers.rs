//! What the execution tool handlers answer: the JSON documents built from
//! the engine facade's results, and whether each answer is an error. The
//! transport renders each document as pretty-printed text.

use vstd::prelude::*;
use vstd::string::StringExecFns;
use crate::json::{entries_view, entry, lemma_array_view, lemma_entries_view, opt_uint_value, str_values, Json, JsonNumberV, JsonV};
use crate::platform::{format_uuid, uuid_text};
use crate::execution_tools::error::{EngineFacadeError, HandlerError};
use crate::execution_tools::value::{
    copy_pairs, BudgetStatus, CircuitBreakerStatus, Constraints, CostEstimate, EnforcementStatus,
    ExecutionResult, ExecutionResultV, PlanTemplate, StepDefinition, StepDefinitionV, StepResult,
    StepResultV, ValidationResult,
};
use crate::template_tools::value::PlanTemplate as StoredTemplate;

verus! {

/// A handler's answer: a JSON document and whether it reports an error.
#[derive(Debug)]
pub struct ToolReply {
    /// The answer's content.
    pub document: Json,
    /// Whether the answer reports an error.
    pub is_error: bool,
}

/// A number document.
pub open spec fn num(n: u64) -> JsonV {
    JsonV::Number(JsonNumberV::UInt(n))
}

/// The document of one step result.
pub open spec fn step_document(s: StepResultV) -> JsonV {
    JsonV::Object(
        seq![
            ("step_name"@, JsonV::Str(s.step_name)),
            ("success"@, JsonV::Bool(s.success)),
            ("error"@, match s.error {
                Some(e) => JsonV::Str(e),
                None => JsonV::Null,
            }),
            ("duration_ms"@, num(s.duration_ms)),
        ],
    )
}

/// The document answering an execution: its id, status, duration, token
/// count, audit URI and the outcome of each step.
pub open spec fn execution_document(r: ExecutionResultV) -> JsonV {
    JsonV::Object(
        seq![
            ("execution_id"@, JsonV::Str(uuid_text(r.execution_id))),
            ("status"@, JsonV::Str(r.status.spec_name())),
            ("duration_ms"@, num(r.duration_ms)),
            ("tokens_used"@, opt_uint_value(r.tokens_used)),
            ("audit_uri"@, JsonV::Str(r.audit_uri)),
            ("steps"@, JsonV::Array(r.steps.map_values(|s: StepResultV| step_document(s)))),
        ],
    )
}

fn step_json(s: &StepResult) -> (r: Json)
    ensures
        r@ == step_document(s@),
{
    let entries = vec![
        entry("step_name", Json::string(s.step_name())),
        entry("success", Json::Bool(s.is_success())),
        entry("error", Json::opt_string(s.error())),
        entry("duration_ms", Json::uint(s.duration_ms())),
    ];
    proof {
        lemma_entries_view(entries@);
        assert(entries_view(entries@) =~= step_document(s@)->Object_0);
    }
    Json::object(entries)
}

/// The document answering an execution.
pub fn execution_json(result: &ExecutionResult) -> (r: Json)
    ensures
        r@ == execution_document(result@),
{
    let steps = result.steps();
    let mut items: Vec<Json> = Vec::new();
    let mut i: usize = 0;
    while i < steps.len()
        invariant
            steps@.map_values(|s: StepResult| s@) == result@.steps,
            i <= steps.len(),
            items.len() == i,
            forall|j: int| 0 <= j < i ==> #[trigger] items@[j]@ == step_document(steps@[j]@),
        decreases steps.len() - i,
    {
        items.push(step_json(&steps[i]));
        i = i + 1;
    }
    proof {
        lemma_array_view(items@);
        assert forall|j: int| 0 <= j < items.len() implies #[trigger] crate::json::array_view(
            items@,
        )[j] == step_document(result@.steps[j]) by {
            assert(result@.steps[j] == steps@[j]@);
            assert(items@[j]@ == step_document(steps@[j]@));
            assert(crate::json::array_view(items@)[j] == crate::json::json_view(items@[j]));
        }
        assert(crate::json::array_view(items@) =~= result@.steps.map_values(
            |s: StepResultV| step_document(s),
        ));
    }
    let entries = vec![
        entry("execution_id", Json::Str(format_uuid(result.execution_id()))),
        entry("status", Json::string(result.status().name())),
        entry("duration_ms", Json::uint(result.duration_ms())),
        entry("tokens_used", Json::opt_uint(result.tokens_used())),
        entry("audit_uri", Json::string(result.audit_uri())),
        entry("steps", Json::Array(items)),
    ];
    proof {
        lemma_entries_view(entries@);
        assert(entries_view(entries@) =~= execution_document(result@)->Object_0);
    }
    Json::object(entries)
}

/// The plan an execute request names: without one, the arguments are
/// invalid.
fn plan_for_execution(plan: Option<PlanTemplate>) -> (r: Result<PlanTemplate, HandlerError>)
    ensures
        match plan {
            Some(p) => r == Ok::<PlanTemplate, HandlerError>(p),
            None => r matches Err(HandlerError::InvalidArguments(m)) && m@
                == "Either 'plan' or 'template_name' must be provided"@,
        },
{
    match plan {
        Some(p) => Ok(p),
        None => Err(
            HandlerError::InvalidArguments(
                String::from_str("Either 'plan' or 'template_name' must be provided"),
            ),
        ),
    }
}

/// The answer to an execute request: the execution's document, not an error.
fn execute_reply(result: &ExecutionResult) -> (r: ToolReply)
    ensures
        r.document@ == execution_document(result@),
        !r.is_error,
{
    ToolReply { document: execution_json(result), is_error: false }
}

/// The document of a cost estimate.
pub open spec fn estimate_document(c: Option<CostEstimate>) -> JsonV {
    match c {
        Some(c) => JsonV::Object(
            seq![
                ("estimated_tokens"@, num(c.estimated_tokens)),
                ("estimated_tool_calls"@, num(c.estimated_tool_calls)),
            ],
        ),
        None => JsonV::Null,
    }
}

/// The document answering a validation.
pub open spec fn validation_document(v: ValidationResult) -> JsonV {
    JsonV::Object(
        seq![
            ("valid"@, JsonV::Bool(v.spec_valid())),
            ("warnings"@, JsonV::Array(str_values(v.spec_warnings()))),
            ("errors"@, JsonV::Array(str_values(v.spec_errors()))),
            ("estimated_cost"@, estimate_document(v.spec_estimated_cost())),
        ],
    )
}

fn estimate_json(c: Option<&CostEstimate>) -> (r: Json)
    ensures
        r@ == estimate_document(
            match c {
                Some(c) => Some(*c),
                None => None,
            },
        ),
{
    match c {
        Some(c) => {
            let entries = vec![
                entry("estimated_tokens", Json::uint(c.estimated_tokens)),
                entry("estimated_tool_calls", Json::uint(c.estimated_tool_calls)),
            ];
            proof {
                lemma_entries_view(entries@);
                assert(entries_view(entries@) =~= estimate_document(Some(*c))->Object_0);
            }
            Json::object(entries)
        },
        None => Json::Null,
    }
}

/// The answer to a validation: its document, an error where the plan is not
/// valid.
fn validate_reply(v: &ValidationResult) -> (r: ToolReply)
    ensures
        r.document@ == validation_document(*v),
        r.is_error == !v.spec_valid(),
{
    let entries = vec![
        entry("valid", Json::Bool(v.is_valid())),
        entry("warnings", Json::strings(v.warnings())),
        entry("errors", Json::strings(v.errors())),
        entry("estimated_cost", estimate_json(v.estimated_cost())),
    ];
    proof {
        lemma_entries_view(entries@);
        assert(entries_view(entries@) =~= validation_document(*v)->Object_0);
    }
    ToolReply { document: Json::object(entries), is_error: !v.is_valid() }
}

/// The document of a budget.
pub open spec fn budget_document(b: BudgetStatus) -> JsonV {
    JsonV::Object(
        seq![
            ("tool_calls_total"@, num(b.tool_calls_total)),
            ("tool_calls_remaining"@, num(b.tool_calls_remaining)),
            ("tokens_total"@, num(b.tokens_total)),
            ("tokens_remaining"@, num(b.tokens_remaining)),
        ],
    )
}

/// The document of a circuit breaker.
pub open spec fn breaker_document(c: CircuitBreakerStatus) -> JsonV {
    JsonV::Object(
        seq![
            ("name"@, JsonV::Str(c.name@)),
            ("is_tripped"@, JsonV::Bool(c.is_tripped)),
            ("description"@, JsonV::Str(c.description@)),
        ],
    )
}

/// The document answering an enforcement check.
pub open spec fn enforcement_document(s: EnforcementStatus) -> JsonV {
    JsonV::Object(
        seq![
            ("active"@, JsonV::Bool(s.spec_active())),
            ("preset"@, JsonV::Str(s.spec_preset())),
            ("budget"@, budget_document(s.spec_budget())),
            ("circuit_breakers"@, JsonV::Array(
                s.spec_circuit_breakers().map_values(|c: CircuitBreakerStatus| breaker_document(c)),
            )),
        ],
    )
}

fn budget_json(b: &BudgetStatus) -> (r: Json)
    ensures
        r@ == budget_document(*b),
{
    let entries = vec![
        entry("tool_calls_total", Json::uint(b.tool_calls_total)),
        entry("tool_calls_remaining", Json::uint(b.tool_calls_remaining)),
        entry("tokens_total", Json::uint(b.tokens_total)),
        entry("tokens_remaining", Json::uint(b.tokens_remaining)),
    ];
    proof {
        lemma_entries_view(entries@);
        assert(entries_view(entries@) =~= budget_document(*b)->Object_0);
    }
    Json::object(entries)
}

fn breaker_json(c: &CircuitBreakerStatus) -> (r: Json)
    ensures
        r@ == breaker_document(*c),
{
    let entries = vec![
        entry("name", Json::string(c.name.as_str())),
        entry("is_tripped", Json::Bool(c.is_tripped)),
        entry("description", Json::string(c.description.as_str())),
    ];
    proof {
        lemma_entries_view(entries@);
        assert(entries_view(entries@) =~= breaker_document(*c)->Object_0);
    }
    Json::object(entries)
}

/// The answer to an enforcement check: its document, not an error.
fn check_enforcement_reply(s: &EnforcementStatus) -> (r: ToolReply)
    ensures
        r.document@ == enforcement_document(*s),
        !r.is_error,
{
    let breakers = s.circuit_breakers();
    let mut items: Vec<Json> = Vec::new();
    let mut i: usize = 0;
    while i < breakers.len()
        invariant
            breakers@ == s.spec_circuit_breakers(),
            i <= breakers.len(),
            items.len() == i,
            forall|j: int| 0 <= j < i ==> #[trigger] items@[j]@ == breaker_document(breakers@[j]),
        decreases breakers.len() - i,
    {
        items.push(breaker_json(&breakers[i]));
        i = i + 1;
    }
    proof {
        lemma_array_view(items@);
        assert forall|j: int| 0 <= j < items.len() implies #[trigger] crate::json::array_view(
            items@,
        )[j] == breaker_document(breakers@[j]) by {
            assert(items@[j]@ == breaker_document(breakers@[j]));
        }
        assert(crate::json::array_view(items@) =~= s.spec_circuit_breakers().map_values(
            |c: CircuitBreakerStatus| breaker_document(c),
        ));
    }
    let entries = vec![
        entry("active", Json::Bool(s.is_active())),
        entry("preset", Json::string(s.preset())),
        entry("budget", budget_json(s.budget())),
        entry("circuit_breakers", Json::Array(items)),
    ];
    proof {
        lemma_entries_view(entries@);
        assert(entries_view(entries@) =~= enforcement_document(*s)->Object_0);
    }
    ToolReply { document: Json::object(entries), is_error: false }
}

// ── The plan tool ───────────────────────────────────────────────────────

/// A stored template as an execution plan: the same name, description,
/// steps, constraints and metadata.
pub fn to_execution_plan(template: &StoredTemplate) -> (r: PlanTemplate)
    requires
        template.wf(),
    ensures
        r.wf(),
        r.spec_name() == template.spec_name(),
        r.spec_description() == template.spec_description(),
        r.spec_steps() == template.spec_steps(),
        match r.spec_constraints() {
            Some(c) => template.spec_constraints() matches Some(d) && c@ == d@,
            None => template.spec_constraints() is None,
        },
        crate::execution_tools::value::pair_views(r.spec_metadata())
            == crate::execution_tools::value::pair_views(template.spec_metadata()),
{
    let src = template.steps();
    let mut steps: Vec<StepDefinition> = Vec::new();
    let mut i: usize = 0;
    while i < src.len()
        invariant
            src@.map_values(|s: StepDefinition| s@) == template.spec_steps(),
            i <= src.len(),
            steps.len() == i,
            forall|j: int| 0 <= j < i ==> #[trigger] steps@[j]@ == src@[j]@,
        decreases src.len() - i,
    {
        steps.push(src[i].duplicate());
        i = i + 1;
    }
    proof {
        assert(steps@.map_values(|s: StepDefinition| s@) =~= src@.map_values(
            |s: StepDefinition| s@,
        ));
    }
    let constraints = match template.constraints() {
        Some(c) => Some(c.duplicate()),
        None => None,
    };
    let plan = PlanTemplate::new(
        String::from_str(template.name()),
        String::from_str(template.description()),
        steps,
        constraints,
        copy_pairs(template.metadata()),
    );
    match plan {
        Ok(p) => p,
        Err(_) => {
            proof {
                assert(false);
            }
            vstd::pervasive::unreached()
        },
    }
}

/// The document of a plan node.
pub open spec fn node_document(s: StepDefinitionV) -> JsonV {
    JsonV::Object(
        seq![
            ("name"@, JsonV::Str(s.name)),
            ("tool"@, JsonV::Str(s.tool)),
            ("description"@, JsonV::Str(s.description)),
            ("dependencies"@, JsonV::Array(Seq::empty())),
        ],
    )
}

/// An optional number, or `null`.
pub open spec fn opt_num(n: Option<u64>) -> JsonV {
    opt_uint_value(n)
}

/// The document of optional constraints.
pub open spec fn constraints_document(c: Option<Constraints>) -> JsonV {
    match c {
        Some(c) => JsonV::Object(
            seq![
                ("max_tool_calls"@, opt_num(c.max_tool_calls)),
                ("max_tokens"@, opt_num(c.max_tokens)),
                ("max_duration_secs"@, opt_num(c.max_duration_secs)),
            ],
        ),
        None => JsonV::Null,
    }
}

/// The document of a full cost estimate.
pub open spec fn full_estimate_document(c: Option<CostEstimate>) -> JsonV {
    match c {
        Some(c) => JsonV::Object(
            seq![
                ("estimated_tokens"@, num(c.estimated_tokens)),
                ("estimated_tool_calls"@, num(c.estimated_tool_calls)),
                ("estimated_cost_micro"@, opt_num(c.estimated_cost_micro)),
            ],
        ),
        None => JsonV::Null,
    }
}

/// The document answering the plan tool: the template's identity, the
/// plan's sealed graph of nodes (without dependencies), its constraints, and
/// the engine's validation.
pub open spec fn plan_document(t: StoredTemplate, p: PlanTemplate, v: ValidationResult) -> JsonV {
    JsonV::Object(
        seq![
            ("template_name"@, JsonV::Str(t.spec_name())),
            ("description"@, JsonV::Str(t.spec_description())),
            ("version"@, JsonV::Str(t.spec_version())),
            ("tags"@, JsonV::Array(t.spec_tags().map_values(|s: Seq<char>| JsonV::Str(s)))),
            ("graph"@, JsonV::Object(
                seq![
                    ("sealed"@, JsonV::Bool(true)),
                    ("node_count"@, num(p.spec_steps().len() as u64)),
                    ("nodes"@, JsonV::Array(
                        p.spec_steps().map_values(|s: StepDefinitionV| node_document(s)),
                    )),
                ],
            )),
            ("constraints"@, constraints_document(p.spec_constraints())),
            ("enforcement"@, JsonV::Object(
                seq![
                    ("valid"@, JsonV::Bool(v.spec_valid())),
                    ("warnings"@, JsonV::Array(str_values(v.spec_warnings()))),
                    ("errors"@, JsonV::Array(str_values(v.spec_errors()))),
                    ("estimated_cost"@, full_estimate_document(v.spec_estimated_cost())),
                ],
            )),
        ],
    )
}

fn node_json(s: &StepDefinition) -> (r: Json)
    ensures
        r@ == node_document(s@),
{
    let deps: Vec<Json> = Vec::new();
    let entries = vec![
        entry("name", Json::string(s.name())),
        entry("tool", Json::string(s.tool())),
        entry("description", Json::string(s.description())),
        entry("dependencies", Json::Array(deps)),
    ];
    proof {
        lemma_entries_view(entries@);
        assert(crate::json::array_view(Seq::<Json>::empty()) =~= Seq::<JsonV>::empty());
        assert(entries_view(entries@) =~= node_document(s@)->Object_0);
    }
    Json::object(entries)
}

fn constraints_json(c: Option<&Constraints>) -> (r: Json)
    ensures
        r@ == constraints_document(
            match c {
                Some(c) => Some(*c),
                None => None,
            },
        ),
{
    match c {
        Some(c) => {
            let entries = vec![
                entry("max_tool_calls", Json::opt_uint(c.max_tool_calls)),
                entry("max_tokens", Json::opt_uint(c.max_tokens)),
                entry("max_duration_secs", Json::opt_uint(c.max_duration_secs)),
            ];
            proof {
                lemma_entries_view(entries@);
                assert(entries_view(entries@) =~= constraints_document(Some(*c))->Object_0);
            }
            Json::object(entries)
        },
        None => Json::Null,
    }
}

fn full_estimate_json(c: Option<&CostEstimate>) -> (r: Json)
    ensures
        r@ == full_estimate_document(
            match c {
                Some(c) => Some(*c),
                None => None,
            },
        ),
{
    match c {
        Some(c) => {
            let entries = vec![
                entry("estimated_tokens", Json::uint(c.estimated_tokens)),
                entry("estimated_tool_calls", Json::uint(c.estimated_tool_calls)),
                entry("estimated_cost_micro", Json::opt_uint(c.estimated_cost_micro)),
            ];
            proof {
                lemma_entries_view(entries@);
                assert(entries_view(entries@) =~= full_estimate_document(Some(*c))->Object_0);
            }
            Json::object(entries)
        },
        None => Json::Null,
    }
}

/// The answer to the plan tool: its document, an error where the engine
/// found the plan invalid.
fn plan_reply(template: &StoredTemplate, plan: &PlanTemplate, validation: &ValidationResult) -> (r:
    ToolReply)
    ensures
        r.document@ == plan_document(*template, *plan, *validation),
        r.is_error == !validation.spec_valid(),
{
    let steps = plan.steps();
    let mut nodes: Vec<Json> = Vec::new();
    let mut i: usize = 0;
    while i < steps.len()
        invariant
            steps@.map_values(|s: StepDefinition| s@) == plan.spec_steps(),
            i <= steps.len(),
            nodes.len() == i,
            forall|j: int| 0 <= j < i ==> #[trigger] nodes@[j]@ == node_document(steps@[j]@),
        decreases steps.len() - i,
    {
        nodes.push(node_json(&steps[i]));
        i = i + 1;
    }
    proof {
        lemma_array_view(nodes@);
        assert forall|j: int| 0 <= j < nodes.len() implies #[trigger] crate::json::array_view(
            nodes@,
        )[j] == node_document(plan.spec_steps()[j]) by {
            assert(plan.spec_steps()[j] == steps@[j]@);
            assert(nodes@[j]@ == node_document(steps@[j]@));
        }
        assert(crate::json::array_view(nodes@) =~= plan.spec_steps().map_values(
            |s: StepDefinitionV| node_document(s),
        ));
    }
    let node_count = steps.len() as u64;
    let graph_entries = vec![
        entry("sealed", Json::Bool(true)),
        entry("node_count", Json::uint(node_count)),
        entry("nodes", Json::Array(nodes)),
    ];
    let enforcement_entries = vec![
        entry("valid", Json::Bool(validation.is_valid())),
        entry("warnings", Json::strings(validation.warnings())),
        entry("errors", Json::strings(validation.errors())),
        entry("estimated_cost", full_estimate_json(validation.estimated_cost())),
    ];
    let tag_vec = template.tags();
    let tags = Json::strings(tag_vec);
    proof {
        assert(str_values(tag_vec@) =~= template.spec_tags().map_values(
            |s: Seq<char>| JsonV::Str(s),
        ));
        lemma_entries_view(graph_entries@);
        lemma_entries_view(enforcement_entries@);
        assert(plan.spec_steps().len() == steps@.len());
        assert(entries_view(graph_entries@) =~= seq![
            ("sealed"@, JsonV::Bool(true)),
            ("node_count"@, num(plan.spec_steps().len() as u64)),
            ("nodes"@, JsonV::Array(
                plan.spec_steps().map_values(|s: StepDefinitionV| node_document(s)),
            )),
        ]);
        assert(entries_view(enforcement_entries@) =~= seq![
            ("valid"@, JsonV::Bool(validation.spec_valid())),
            ("warnings"@, JsonV::Array(str_values(validation.spec_warnings()))),
            ("errors"@, JsonV::Array(str_values(validation.spec_errors()))),
            ("estimated_cost"@, full_estimate_document(validation.spec_estimated_cost())),
        ]);
    }
    let graph = Json::object(graph_entries);
    let enforcement = Json::object(enforcement_entries);
    let entries = vec![
        entry("template_name", Json::string(template.name())),
        entry("description", Json::string(template.description())),
        entry("version", Json::string(template.version())),
        entry("tags", tags),
        entry("graph", graph),
        entry("constraints", constraints_json(plan.constraints())),
        entry("enforcement", enforcement),
    ];
    proof {
        lemma_entries_view(entries@);
        assert(entries_view(entries@) =~= plan_document(*template, *plan, *validation)->Object_0);
    }
    ToolReply { document: Json::object(entries), is_error: !validation.is_valid() }
}

// ── The handlers ────────────────────────────────────────────────────────

/// The execute tool's handler: its time limit, the plan a request names, and
/// the answer to an execution.
pub struct ExecuteHandlerImpl {
    timeout_secs: u64,
}

impl ExecuteHandlerImpl {
    /// The handler's time limit, in seconds.
    pub closed spec fn spec_timeout_secs(&self) -> u64 {
        self.timeout_secs
    }

    /// A handler with the given time limit.
    pub fn new(timeout_secs: u64) -> (r: ExecuteHandlerImpl)
        ensures
            r.spec_timeout_secs() == timeout_secs,
    {
        ExecuteHandlerImpl { timeout_secs }
    }

    /// The handler's time limit, in seconds.
    pub fn timeout_duration_secs(&self) -> (r: u64)
        ensures
            r == self.spec_timeout_secs(),
    {
        self.timeout_secs
    }

    /// The plan a request names.
    pub fn plan_for(&self, plan: Option<PlanTemplate>) -> (r: Result<PlanTemplate, HandlerError>)
        ensures
            match plan {
                Some(p) => r == Ok::<PlanTemplate, HandlerError>(p),
                None => r matches Err(HandlerError::InvalidArguments(m)) && m@
                    == "Either 'plan' or 'template_name' must be provided"@,
            },
    {
        plan_for_execution(plan)
    }

    /// The answer to an execution.
    pub fn reply(&self, result: &ExecutionResult) -> (r: ToolReply)
        ensures
            r.document@ == execution_document(result@),
            !r.is_error,
    {
        execute_reply(result)
    }

    /// Handles an execute request: without a plan it is refused and the
    /// engine is not asked; otherwise `execute` runs the plan once with the
    /// request's repository and author, an engine error is passed on, and a
    /// result is answered as `reply` answers it.
    pub fn handle<F: Fn(PlanTemplate, Option<String>, Option<String>) -> Result<ExecutionResult, EngineFacadeError>>(
        &self,
        plan: Option<PlanTemplate>,
        repository: Option<String>,
        author: Option<String>,
        execute: F,
    ) -> (r: Result<ToolReply, HandlerError>)
        requires
            forall|p: PlanTemplate, a: Option<String>, b: Option<String>| #[trigger] execute.requires((p, a, b)),
        ensures
            plan is None ==> (r matches Err(HandlerError::InvalidArguments(m)) && m@
                == "Either 'plan' or 'template_name' must be provided"@),
            plan matches Some(p) ==> exists|out: Result<ExecutionResult, EngineFacadeError>|
                #[trigger] execute.ensures((p, repository, author), out) && match out {
                    Ok(res) => r matches Ok(t) && t.document@ == execution_document(res@) && !t.is_error,
                    Err(e) => r == Err::<ToolReply, HandlerError>(HandlerError::EngineError(e)),
                },
    {
        let ghost grepo = repository;
        let ghost gauthor = author;
        let p = match self.plan_for(plan) {
            Ok(p) => p,
            Err(e) => {
                return Err(e);
            },
        };
        let ghost gp = p;
        let outcome = execute(p, repository, author);
        assert(execute.ensures((gp, grepo, gauthor), outcome));
        match outcome {
            Ok(res) => Ok(self.reply(&res)),
            Err(e) => Err(HandlerError::EngineError(e)),
        }
    }
}

/// The validate-plan tool's handler.
pub struct ValidatePlanHandlerImpl;

impl ValidatePlanHandlerImpl {
    /// A handler.
    pub fn new() -> (r: ValidatePlanHandlerImpl) {
        ValidatePlanHandlerImpl
    }

    /// The answer to a validation.
    pub fn reply(&self, v: &ValidationResult) -> (r: ToolReply)
        ensures
            r.document@ == validation_document(*v),
            r.is_error == !v.spec_valid(),
    {
        validate_reply(v)
    }
}

/// The check-enforcement tool's handler.
pub struct CheckEnforcementHandlerImpl;

impl CheckEnforcementHandlerImpl {
    /// A handler.
    pub fn new() -> (r: CheckEnforcementHandlerImpl) {
        CheckEnforcementHandlerImpl
    }

    /// The answer to an enforcement check.
    pub fn reply(&self, s: &EnforcementStatus) -> (r: ToolReply)
        ensures
            r.document@ == enforcement_document(*s),
            !r.is_error,
    {
        check_enforcement_reply(s)
    }
}

/// The plan tool's handler.
pub struct PlanHandlerImpl;

impl PlanHandlerImpl {
    /// A handler.
    pub fn new() -> (r: PlanHandlerImpl) {
        PlanHandlerImpl
    }

    /// The execution plan of a stored template.
    pub fn plan_for(&self, template: &StoredTemplate) -> (r: PlanTemplate)
        requires
            template.wf(),
        ensures
            r.spec_name() == template.spec_name(),
            r.spec_description() == template.spec_description(),
            r.spec_steps() == template.spec_steps(),
            match r.spec_constraints() {
                Some(c) => template.spec_constraints() matches Some(d) && c@ == d@,
                None => template.spec_constraints() is None,
            },
            crate::execution_tools::value::pair_views(r.spec_metadata())
                == crate::execution_tools::value::pair_views(template.spec_metadata()),
    {
        to_execution_plan(template)
    }

    /// The answer to the plan tool.
    pub fn reply(&self, template: &StoredTemplate, plan: &PlanTemplate, validation: &ValidationResult) -> (r:
        ToolReply)
        ensures
            r.document@ == plan_document(*template, *plan, *validation),
            r.is_error == !validation.spec_valid(),
    {
        plan_reply(template, plan, validation)
    }

    /// Handles a plan request, a read-only preview: the template becomes
    /// its execution plan as `plan_for` makes it, `validate` checks that plan
    /// once, an engine error is passed on, and a validation is answered as
    /// `reply` answers it.
    pub fn handle<F: Fn(&PlanTemplate) -> Result<ValidationResult, EngineFacadeError>>(
        &self,
        template: &StoredTemplate,
        validate: F,
    ) -> (r: Result<ToolReply, HandlerError>)
        requires
            template.wf(),
            forall|p: &PlanTemplate| #[trigger] validate.requires((p,)),
        ensures
            exists|p: &PlanTemplate, out: Result<ValidationResult, EngineFacadeError>|
                #[trigger] validate.ensures((p,), out) && p.spec_name() == template.spec_name()
                    && p.spec_description() == template.spec_description() && p.spec_steps()
                    == template.spec_steps() && (match p.spec_constraints() {
                    Some(c) => template.spec_constraints() matches Some(d) && c@ == d@,
                    None => template.spec_constraints() is None,
                }) && crate::execution_tools::value::pair_views(p.spec_metadata())
                    == crate::execution_tools::value::pair_views(template.spec_metadata()) && match out {
                    Ok(v) => r matches Ok(t) && t.document@ == plan_document(*template, *p, v)
                        && t.is_error == !v.spec_valid(),
                    Err(e) => r == Err::<ToolReply, HandlerError>(HandlerError::EngineError(e)),
                },
    {
        let plan = self.plan_for(template);
        let outcome = validate(&plan);
        assert(validate.ensures((&plan,), outcome));
        match outcome {
            Ok(v) => Ok(self.reply(template, &plan, &v)),
            Err(e) => Err(HandlerError::EngineError(e)),
        }
    }
}

} // verus!
