//! Value objects of the execution tools context: plans, results, validation
//! and enforcement reports, cost breakdowns. Identifiers are UUIDs' 128 bits.

use vstd::prelude::*;
use crate::json::{Json, JsonV};
use crate::platform::{format_uuid, fresh_uuid, uuid_text};

verus! {

/// A single step of a plan: which tool to call, with what parameters, and
/// whether human approval is required.
#[derive(Debug)]
pub struct StepDefinition {
    name: String,
    tool: String,
    parameters: Json,
    requires_approval: bool,
    description: String,
    timeout_secs: Option<u64>,
    evaluate_score: bool,
}

/// The value of a step definition.
pub struct StepDefinitionV {
    pub name: Seq<char>,
    pub tool: Seq<char>,
    pub parameters: JsonV,
    pub requires_approval: bool,
    pub description: Seq<char>,
    pub timeout_secs: Option<u64>,
    pub evaluate_score: bool,
}

impl View for StepDefinition {
    type V = StepDefinitionV;

    closed spec fn view(&self) -> StepDefinitionV {
        StepDefinitionV {
            name: self.name@,
            tool: self.tool@,
            parameters: self.parameters@,
            requires_approval: self.requires_approval,
            description: self.description@,
            timeout_secs: self.timeout_secs,
            evaluate_score: self.evaluate_score,
        }
    }
}

impl StepDefinition {
    /// A new step definition; scored evaluation is off.
    pub fn new(
        name: String,
        tool: String,
        parameters: Json,
        requires_approval: bool,
        description: String,
        timeout_secs: Option<u64>,
    ) -> (r: StepDefinition)
        ensures
            r@ == (StepDefinitionV {
                name: name@,
                tool: tool@,
                parameters: parameters@,
                requires_approval,
                description: description@,
                timeout_secs,
                evaluate_score: false,
            }),
    {
        StepDefinition {
            name,
            tool,
            parameters,
            requires_approval,
            description,
            timeout_secs,
            evaluate_score: false,
        }
    }

    /// A step definition with every field given.
    pub fn with_all(
        name: String,
        tool: String,
        parameters: Json,
        requires_approval: bool,
        description: String,
        timeout_secs: Option<u64>,
        evaluate_score: bool,
    ) -> (r: StepDefinition)
        ensures
            r@ == (StepDefinitionV {
                name: name@,
                tool: tool@,
                parameters: parameters@,
                requires_approval,
                description: description@,
                timeout_secs,
                evaluate_score,
            }),
    {
        StepDefinition {
            name,
            tool,
            parameters,
            requires_approval,
            description,
            timeout_secs,
            evaluate_score,
        }
    }

    /// Step name.
    pub fn name(&self) -> (r: &str)
        ensures
            r@ == self@.name,
    {
        self.name.as_str()
    }

    /// Tool name.
    pub fn tool(&self) -> (r: &str)
        ensures
            r@ == self@.tool,
    {
        self.tool.as_str()
    }

    /// Tool-specific parameters.
    pub fn parameters(&self) -> (r: &Json)
        ensures
            r@ == self@.parameters,
    {
        &self.parameters
    }

    /// Whether human approval is required.
    pub fn requires_approval(&self) -> (r: bool)
        ensures
            r == self@.requires_approval,
    {
        self.requires_approval
    }

    /// Step description.
    pub fn description(&self) -> (r: &str)
        ensures
            r@ == self@.description,
    {
        self.description.as_str()
    }

    /// Optional timeout in seconds.
    pub fn timeout_secs(&self) -> (r: Option<u64>)
        ensures
            r == self@.timeout_secs,
    {
        self.timeout_secs
    }

    /// Whether to run scored evaluation on the step's output.
    pub fn evaluate_score(&self) -> (r: bool)
        ensures
            r == self@.evaluate_score,
    {
        self.evaluate_score
    }

    /// Turns scored evaluation of the step's output on or off.
    pub fn set_evaluate_score(&mut self, val: bool)
        ensures
            final(self)@ == (StepDefinitionV { evaluate_score: val, ..old(self)@ }),
    {
        self.evaluate_score = val;
    }

    /// A copy of the step.
    pub fn duplicate(&self) -> (r: StepDefinition)
        ensures
            r@ == self@,
    {
        StepDefinition {
            name: self.name.clone(),
            tool: self.tool.clone(),
            parameters: self.parameters.duplicate(),
            requires_approval: self.requires_approval,
            description: self.description.clone(),
            timeout_secs: self.timeout_secs,
            evaluate_score: self.evaluate_score,
        }
    }
}

/// Enforcement constraints for plan execution.
#[derive(Debug)]
pub struct Constraints {
    /// Maximum number of tool calls allowed.
    pub max_tool_calls: Option<u64>,
    /// Maximum total tokens allowed.
    pub max_tokens: Option<u64>,
    /// Maximum execution time in seconds.
    pub max_duration_secs: Option<u64>,
    /// Disallowed tools.
    pub blocked_tools: Vec<String>,
    /// Additional constraint key-value pairs.
    pub extensions: Vec<(String, String)>,
}

/// The value of constraints.
pub struct ConstraintsV {
    pub max_tool_calls: Option<u64>,
    pub max_tokens: Option<u64>,
    pub max_duration_secs: Option<u64>,
    pub blocked_tools: Seq<Seq<char>>,
    pub extensions: Seq<(Seq<char>, Seq<char>)>,
}

/// The views of text pairs.
pub open spec fn pair_views(v: Seq<(String, String)>) -> Seq<(Seq<char>, Seq<char>)> {
    v.map_values(|p: (String, String)| (p.0@, p.1@))
}

/// Whether no key occurs twice among the pairs of a text map.
pub open spec fn distinct_keys(p: Seq<(Seq<char>, Seq<char>)>) -> bool {
    forall|i: int, j: int| 0 <= i < j < p.len() ==> #[trigger] p[i].0 != #[trigger] p[j].0
}

impl View for Constraints {
    type V = ConstraintsV;

    open spec fn view(&self) -> ConstraintsV {
        ConstraintsV {
            max_tool_calls: self.max_tool_calls,
            max_tokens: self.max_tokens,
            max_duration_secs: self.max_duration_secs,
            blocked_tools: self.blocked_tools@.map_values(|s: String| s@),
            extensions: pair_views(self.extensions@),
        }
    }
}

/// A copy of a list of texts.
pub fn copy_strings(v: &Vec<String>) -> (r: Vec<String>)
    ensures
        r@.map_values(|s: String| s@) == v@.map_values(|s: String| s@),
{
    let mut r: Vec<String> = Vec::new();
    let mut i: usize = 0;
    while i < v.len()
        invariant
            i <= v.len(),
            r.len() == i,
            forall|j: int| 0 <= j < i ==> #[trigger] r@[j]@ == v@[j]@,
        decreases v.len() - i,
    {
        r.push(v[i].clone());
        i = i + 1;
    }
    assert(r@.map_values(|s: String| s@) =~= v@.map_values(|s: String| s@));
    r
}

/// A copy of a list of text pairs.
pub fn copy_pairs(v: &Vec<(String, String)>) -> (r: Vec<(String, String)>)
    ensures
        pair_views(r@) == pair_views(v@),
{
    let mut r: Vec<(String, String)> = Vec::new();
    let mut i: usize = 0;
    while i < v.len()
        invariant
            i <= v.len(),
            r.len() == i,
            forall|j: int| 0 <= j < i ==> #[trigger] r@[j].0@ == v@[j].0@ && r@[j].1@ == v@[j].1@,
        decreases v.len() - i,
    {
        r.push((v[i].0.clone(), v[i].1.clone()));
        i = i + 1;
    }
    assert(pair_views(r@) =~= pair_views(v@));
    r
}

impl Constraints {
    /// The extensions map each key to one value.
    pub open spec fn wf(&self) -> bool {
        distinct_keys(pair_views(self.extensions@))
    }

    /// A copy of the constraints.
    pub fn duplicate(&self) -> (r: Constraints)
        ensures
            r@ == self@,
    {
        Constraints {
            max_tool_calls: self.max_tool_calls,
            max_tokens: self.max_tokens,
            max_duration_secs: self.max_duration_secs,
            blocked_tools: copy_strings(&self.blocked_tools),
            extensions: copy_pairs(&self.extensions),
        }
    }
}

/// Errors of plan construction.
#[derive(Debug, Clone, PartialEq, Eq)]
pub enum PlanTemplateError {
    /// A plan must contain at least one step.
    EmptySteps,
    /// The plan could not be read from JSON.
    DeserializationFailed(String),
}

/// A structured plan: named steps, optional constraints and metadata.
#[derive(Debug)]
pub struct PlanTemplate {
    name: String,
    description: String,
    steps: Vec<StepDefinition>,
    constraints: Option<Constraints>,
    metadata: Vec<(String, String)>,
}

impl PlanTemplate {
    /// The plan's steps, in order.
    pub closed spec fn spec_steps(&self) -> Seq<StepDefinitionV> {
        self.steps@.map_values(|s: StepDefinition| s@)
    }

    /// The plan's constraints.
    pub closed spec fn spec_constraints(&self) -> Option<Constraints> {
        self.constraints
    }

    /// The plan's metadata.
    pub closed spec fn spec_metadata(&self) -> Seq<(String, String)> {
        self.metadata@
    }

    /// The plan's name.
    pub closed spec fn spec_name(&self) -> Seq<char> {
        self.name@
    }

    /// The plan's description.
    pub closed spec fn spec_description(&self) -> Seq<char> {
        self.description@
    }

    /// The metadata and the constraints' extensions map each key to one
    /// value.
    pub open spec fn wf(&self) -> bool {
        &&& distinct_keys(pair_views(self.spec_metadata()))
        &&& match self.spec_constraints() {
            Some(c) => c.wf(),
            None => true,
        }
    }

    /// A new plan; a plan without steps is refused. The metadata, like the
    /// constraints' extensions, is a map: no key occurs twice.
    pub fn new(
        name: String,
        description: String,
        steps: Vec<StepDefinition>,
        constraints: Option<Constraints>,
        metadata: Vec<(String, String)>,
    ) -> (r: Result<PlanTemplate, PlanTemplateError>)
        requires
            distinct_keys(pair_views(metadata@)),
            match constraints {
                Some(c) => c.wf(),
                None => true,
            },
        ensures
            steps.len() > 0 ==> (r matches Ok(p) && p.wf()),
            steps.len() == 0 ==> r matches Err(PlanTemplateError::EmptySteps),
            steps.len() > 0 ==> (r matches Ok(p) && p.spec_name() == name@ && p.spec_description()
                == description@ && p.spec_steps() == steps@.map_values(|s: StepDefinition| s@)
                && p.spec_constraints() == constraints && p.spec_metadata() == metadata@),
    {
        if steps.len() == 0 {
            return Err(PlanTemplateError::EmptySteps);
        }
        Ok(PlanTemplate { name, description, steps, constraints, metadata })
    }

    /// Plan name.
    pub fn name(&self) -> (r: &str)
        ensures
            r@ == self.spec_name(),
    {
        self.name.as_str()
    }

    /// Plan description.
    pub fn description(&self) -> (r: &str)
        ensures
            r@ == self.spec_description(),
    {
        self.description.as_str()
    }

    /// The ordered steps.
    pub fn steps(&self) -> (r: &Vec<StepDefinition>)
        ensures
            r@.map_values(|s: StepDefinition| s@) == self.spec_steps(),
    {
        &self.steps
    }

    /// Optional enforcement constraints.
    pub fn constraints(&self) -> (r: Option<&Constraints>)
        ensures
            match r {
                Some(c) => self.spec_constraints() == Some(*c),
                None => self.spec_constraints() is None,
            },
    {
        self.constraints.as_ref()
    }

    /// Extensible metadata.
    pub fn metadata(&self) -> (r: &Vec<(String, String)>)
        ensures
            r@ == self.spec_metadata(),
    {
        &self.metadata
    }
}

/// Overall execution status of a plan.
#[derive(Debug, Clone, Copy, PartialEq, Eq, Structural)]
pub enum ExecutionStatus {
    /// All steps completed successfully.
    Completed,
    /// A step failed with no retry possible.
    Failed,
    /// Some steps failed; partial results are available.
    PartialFailed,
    /// Timed out or cancelled.
    Cancelled,
    /// Blocked by enforcement (budget exceeded).
    EnforcementBlocked,
    /// Paused until a step requiring approval is approved.
    PendingApproval,
}

impl ExecutionStatus {
    /// The debug name of each status.
    pub closed spec fn spec_name(&self) -> Seq<char> {
        match self {
            ExecutionStatus::Completed => "Completed"@,
            ExecutionStatus::Failed => "Failed"@,
            ExecutionStatus::PartialFailed => "PartialFailed"@,
            ExecutionStatus::Cancelled => "Cancelled"@,
            ExecutionStatus::EnforcementBlocked => "EnforcementBlocked"@,
            ExecutionStatus::PendingApproval => "PendingApproval"@,
        }
    }

    /// The debug name of the status.
    pub fn name(&self) -> (r: &'static str)
        ensures
            r@ == self.spec_name(),
    {
        match self {
            ExecutionStatus::Completed => "Completed",
            ExecutionStatus::Failed => "Failed",
            ExecutionStatus::PartialFailed => "PartialFailed",
            ExecutionStatus::Cancelled => "Cancelled",
            ExecutionStatus::EnforcementBlocked => "EnforcementBlocked",
            ExecutionStatus::PendingApproval => "PendingApproval",
        }
    }
}

/// Outcome of a single step.
#[derive(Debug)]
pub struct StepResult {
    step_name: String,
    success: bool,
    error: Option<String>,
    output: Json,
    duration_ms: u64,
}

/// The value of a step result.
pub struct StepResultV {
    pub step_name: Seq<char>,
    pub success: bool,
    pub error: Option<Seq<char>>,
    pub output: JsonV,
    pub duration_ms: u64,
}

/// The value of an optional text.
pub open spec fn opt_text(s: Option<String>) -> Option<Seq<char>> {
    match s {
        Some(t) => Some(t@),
        None => None,
    }
}

impl View for StepResult {
    type V = StepResultV;

    closed spec fn view(&self) -> StepResultV {
        StepResultV {
            step_name: self.step_name@,
            success: self.success,
            error: opt_text(self.error),
            output: self.output@,
            duration_ms: self.duration_ms,
        }
    }
}

impl StepResult {
    /// A new step result.
    pub fn new(step_name: String, success: bool, error: Option<String>, output: Json, duration_ms: u64) -> (r:
        StepResult)
        ensures
            r@ == (StepResultV {
                step_name: step_name@,
                success,
                error: opt_text(error),
                output: output@,
                duration_ms,
            }),
    {
        StepResult { step_name, success, error, output, duration_ms }
    }

    /// Step name.
    pub fn step_name(&self) -> (r: &str)
        ensures
            r@ == self@.step_name,
    {
        self.step_name.as_str()
    }

    /// Whether the step succeeded.
    pub fn is_success(&self) -> (r: bool)
        ensures
            r == self@.success,
    {
        self.success
    }

    /// Optional error message.
    pub fn error(&self) -> (r: Option<&str>)
        ensures
            match r {
                Some(e) => self@.error == Some(e@),
                None => self@.error is None,
            },
    {
        match &self.error {
            Some(e) => Some(e.as_str()),
            None => None,
        }
    }

    /// Step output.
    pub fn output(&self) -> (r: &Json)
        ensures
            r@ == self@.output,
    {
        &self.output
    }

    /// Duration in milliseconds.
    pub fn duration_ms(&self) -> (r: u64)
        ensures
            r == self@.duration_ms,
    {
        self.duration_ms
    }

    /// A copy of the result.
    pub fn duplicate(&self) -> (r: StepResult)
        ensures
            r@ == self@,
    {
        StepResult {
            step_name: self.step_name.clone(),
            success: self.success,
            error: match &self.error {
                Some(e) => Some(e.clone()),
                None => None,
            },
            output: self.output.duplicate(),
            duration_ms: self.duration_ms,
        }
    }
}

/// Result of a plan execution.
#[derive(Debug)]
pub struct ExecutionResult {
    execution_id: u128,
    status: ExecutionStatus,
    steps: Vec<StepResult>,
    duration_ms: u64,
    tokens_used: Option<u64>,
    audit_uri: String,
}

/// The value of an execution result.
pub struct ExecutionResultV {
    pub execution_id: u128,
    pub status: ExecutionStatus,
    pub steps: Seq<StepResultV>,
    pub duration_ms: u64,
    pub tokens_used: Option<u64>,
    pub audit_uri: Seq<char>,
}

impl View for ExecutionResult {
    type V = ExecutionResultV;

    closed spec fn view(&self) -> ExecutionResultV {
        ExecutionResultV {
            execution_id: self.execution_id,
            status: self.status,
            steps: self.steps@.map_values(|s: StepResult| s@),
            duration_ms: self.duration_ms,
            tokens_used: self.tokens_used,
            audit_uri: self.audit_uri@,
        }
    }
}

impl ExecutionResult {
    /// A new execution result.
    pub fn new(
        execution_id: u128,
        status: ExecutionStatus,
        steps: Vec<StepResult>,
        duration_ms: u64,
        tokens_used: Option<u64>,
        audit_uri: String,
    ) -> (r: ExecutionResult)
        ensures
            r@ == (ExecutionResultV {
                execution_id,
                status,
                steps: steps@.map_values(|s: StepResult| s@),
                duration_ms,
                tokens_used,
                audit_uri: audit_uri@,
            }),
    {
        ExecutionResult { execution_id, status, steps, duration_ms, tokens_used, audit_uri }
    }

    /// Execution ID.
    pub fn execution_id(&self) -> (r: u128)
        ensures
            r == self@.execution_id,
    {
        self.execution_id
    }

    /// Overall execution status.
    pub fn status(&self) -> (r: ExecutionStatus)
        ensures
            r == self@.status,
    {
        self.status
    }

    /// Per-step results.
    pub fn steps(&self) -> (r: &Vec<StepResult>)
        ensures
            r@.map_values(|s: StepResult| s@) == self@.steps,
    {
        &self.steps
    }

    /// Duration in milliseconds.
    pub fn duration_ms(&self) -> (r: u64)
        ensures
            r == self@.duration_ms,
    {
        self.duration_ms
    }

    /// Optional token usage.
    pub fn tokens_used(&self) -> (r: Option<u64>)
        ensures
            r == self@.tokens_used,
    {
        self.tokens_used
    }

    /// Audit record URI.
    pub fn audit_uri(&self) -> (r: &str)
        ensures
            r@ == self@.audit_uri,
    {
        self.audit_uri.as_str()
    }

    /// A copy of the result.
    pub fn duplicate(&self) -> (r: ExecutionResult)
        ensures
            r@ == self@,
    {
        let mut steps: Vec<StepResult> = Vec::new();
        let mut i: usize = 0;
        while i < self.steps.len()
            invariant
                i <= self.steps.len(),
                steps.len() == i,
                forall|j: int| 0 <= j < i ==> #[trigger] steps@[j]@ == self.steps@[j]@,
            decreases self.steps.len() - i,
        {
            steps.push(self.steps[i].duplicate());
            i = i + 1;
        }
        proof {
            assert(steps@.map_values(|s: StepResult| s@) =~= self.steps@.map_values(
                |s: StepResult| s@,
            ));
        }
        ExecutionResult {
            execution_id: self.execution_id,
            status: self.status,
            steps,
            duration_ms: self.duration_ms,
            tokens_used: self.tokens_used,
            audit_uri: self.audit_uri.clone(),
        }
    }
}

/// Estimated cost of executing a plan.
#[derive(Debug, Clone, Copy, PartialEq, Eq)]
pub struct CostEstimate {
    /// Estimated token count.
    pub estimated_tokens: u64,
    /// Estimated tool calls.
    pub estimated_tool_calls: u64,
    /// Optional monetary estimate, in micro-units.
    pub estimated_cost_micro: Option<u64>,
}

/// Result of validating a plan against enforcement policies.
#[derive(Debug)]
pub struct ValidationResult {
    valid: bool,
    warnings: Vec<String>,
    errors: Vec<String>,
    estimated_cost: Option<CostEstimate>,
}

impl ValidationResult {
    /// Whether the plan is valid.
    pub closed spec fn spec_valid(&self) -> bool {
        self.valid
    }

    /// The warnings.
    pub closed spec fn spec_warnings(&self) -> Seq<String> {
        self.warnings@
    }

    /// The errors.
    pub closed spec fn spec_errors(&self) -> Seq<String> {
        self.errors@
    }

    /// The cost estimate.
    pub closed spec fn spec_estimated_cost(&self) -> Option<CostEstimate> {
        self.estimated_cost
    }

    /// A new validation result.
    pub fn new(valid: bool, warnings: Vec<String>, errors: Vec<String>, estimated_cost: Option<
        CostEstimate,
    >) -> (r: ValidationResult)
        ensures
            r.spec_valid() == valid,
            r.spec_warnings() == warnings@,
            r.spec_errors() == errors@,
            r.spec_estimated_cost() == estimated_cost,
    {
        ValidationResult { valid, warnings, errors, estimated_cost }
    }

    /// Whether the plan is valid.
    pub fn is_valid(&self) -> (r: bool)
        ensures
            r == self.spec_valid(),
    {
        self.valid
    }

    /// Warning messages.
    pub fn warnings(&self) -> (r: &Vec<String>)
        ensures
            r@ == self.spec_warnings(),
    {
        &self.warnings
    }

    /// Error messages.
    pub fn errors(&self) -> (r: &Vec<String>)
        ensures
            r@ == self.spec_errors(),
    {
        &self.errors
    }

    /// Optional cost estimate.
    pub fn estimated_cost(&self) -> (r: Option<&CostEstimate>)
        ensures
            match r {
                Some(c) => self.spec_estimated_cost() == Some(*c),
                None => self.spec_estimated_cost() is None,
            },
    {
        self.estimated_cost.as_ref()
    }
}

/// Remaining budget of tool calls and tokens.
#[derive(Debug, Clone, Copy, PartialEq, Eq)]
pub struct BudgetStatus {
    /// Total tool call limit.
    pub tool_calls_total: u64,
    /// Remaining tool calls.
    pub tool_calls_remaining: u64,
    /// Total token limit.
    pub tokens_total: u64,
    /// Remaining tokens.
    pub tokens_remaining: u64,
}

/// State of one enforcement circuit breaker.
#[derive(Debug)]
pub struct CircuitBreakerStatus {
    /// Breaker name.
    pub name: String,
    /// Whether the breaker is tripped (open).
    pub is_tripped: bool,
    /// Description of the breaker state.
    pub description: String,
}

/// Current enforcement state.
#[derive(Debug)]
pub struct EnforcementStatus {
    active: bool,
    preset: String,
    budget: BudgetStatus,
    circuit_breakers: Vec<CircuitBreakerStatus>,
}

impl EnforcementStatus {
    /// Whether enforcement is active.
    pub closed spec fn spec_active(&self) -> bool {
        self.active
    }

    /// The preset name.
    pub closed spec fn spec_preset(&self) -> Seq<char> {
        self.preset@
    }

    /// The budget.
    pub closed spec fn spec_budget(&self) -> BudgetStatus {
        self.budget
    }

    /// The circuit breakers.
    pub closed spec fn spec_circuit_breakers(&self) -> Seq<CircuitBreakerStatus> {
        self.circuit_breakers@
    }

    /// A new enforcement status.
    pub fn new(active: bool, preset: String, budget: BudgetStatus, circuit_breakers: Vec<
        CircuitBreakerStatus,
    >) -> (r: EnforcementStatus)
        ensures
            r.spec_active() == active,
            r.spec_preset() == preset@,
            r.spec_budget() == budget,
            r.spec_circuit_breakers() == circuit_breakers@,
    {
        EnforcementStatus { active, preset, budget, circuit_breakers }
    }

    /// Whether enforcement is active.
    pub fn is_active(&self) -> (r: bool)
        ensures
            r == self.spec_active(),
    {
        self.active
    }

    /// Active preset name.
    pub fn preset(&self) -> (r: &str)
        ensures
            r@ == self.spec_preset(),
    {
        self.preset.as_str()
    }

    /// Current budget status.
    pub fn budget(&self) -> (r: &BudgetStatus)
        ensures
            *r == self.spec_budget(),
    {
        &self.budget
    }

    /// Circuit breaker states.
    pub fn circuit_breakers(&self) -> (r: &Vec<CircuitBreakerStatus>)
        ensures
            r@ == self.spec_circuit_breakers(),
    {
        &self.circuit_breakers
    }
}

/// Cost of one step.
#[derive(Debug)]
pub struct StepCost {
    /// Step name.
    pub step_name: String,
    /// Tokens consumed.
    pub tokens: u64,
    /// Tool calls made.
    pub tool_calls: u64,
    /// Optional monetary cost, in micro-units.
    pub cost_micro: Option<u64>,
}

/// Detailed cost breakdown of an execution.
#[derive(Debug)]
pub struct CostBreakdown {
    execution_id: u128,
    step_costs: Vec<StepCost>,
    total_tokens: u64,
    total_tool_calls: u64,
    total_cost_micro: Option<u64>,
}

impl CostBreakdown {
    /// The execution the breakdown belongs to.
    pub closed spec fn spec_execution_id(&self) -> u128 {
        self.execution_id
    }

    /// The per-step costs.
    pub closed spec fn spec_step_costs(&self) -> Seq<StepCost> {
        self.step_costs@
    }

    /// The total tokens.
    pub closed spec fn spec_total_tokens(&self) -> u64 {
        self.total_tokens
    }

    /// The total tool calls.
    pub closed spec fn spec_total_tool_calls(&self) -> u64 {
        self.total_tool_calls
    }

    /// The total monetary cost.
    pub closed spec fn spec_total_cost_micro(&self) -> Option<u64> {
        self.total_cost_micro
    }

    /// A new cost breakdown.
    pub fn new(
        execution_id: u128,
        step_costs: Vec<StepCost>,
        total_tokens: u64,
        total_tool_calls: u64,
        total_cost_micro: Option<u64>,
    ) -> (r: CostBreakdown)
        ensures
            r.spec_execution_id() == execution_id,
            r.spec_step_costs() == step_costs@,
            r.spec_total_tokens() == total_tokens,
            r.spec_total_tool_calls() == total_tool_calls,
            r.spec_total_cost_micro() == total_cost_micro,
    {
        CostBreakdown { execution_id, step_costs, total_tokens, total_tool_calls, total_cost_micro }
    }

    /// Execution ID.
    pub fn execution_id(&self) -> (r: u128)
        ensures
            r == self.spec_execution_id(),
    {
        self.execution_id
    }

    /// Per-step costs.
    pub fn step_costs(&self) -> (r: &Vec<StepCost>)
        ensures
            r@ == self.spec_step_costs(),
    {
        &self.step_costs
    }

    /// Total tokens.
    pub fn total_tokens(&self) -> (r: u64)
        ensures
            r == self.spec_total_tokens(),
    {
        self.total_tokens
    }

    /// Total tool calls.
    pub fn total_tool_calls(&self) -> (r: u64)
        ensures
            r == self.spec_total_tool_calls(),
    {
        self.total_tool_calls
    }

    /// Optional total cost.
    pub fn total_cost_micro(&self) -> (r: Option<u64>)
        ensures
            r == self.spec_total_cost_micro(),
    {
        self.total_cost_micro
    }
}

/// Strongly-typed identifier of a plan execution (a UUID's 128 bits).
#[derive(Debug, Clone, Copy, PartialEq, Eq, Hash)]
pub struct ExecutionId(pub u128);

impl ExecutionId {
    /// A new random execution identifier.
    pub fn new() -> (r: ExecutionId) {
        ExecutionId(fresh_uuid())
    }

    /// The identifier of an existing UUID.
    pub fn from_uuid(id: u128) -> (r: ExecutionId)
        ensures
            r.0 == id,
    {
        ExecutionId(id)
    }

    /// The inner UUID.
    pub fn as_uuid(&self) -> (r: u128)
        ensures
            r == self.0,
    {
        self.0
    }

    /// The hyphenated text of the identifier.
    pub fn to_text(&self) -> (r: String)
        ensures
            r@ == uuid_text(self.0),
    {
        format_uuid(self.0)
    }
}

/// Outcome of approving steps of a paused execution.
#[derive(Debug)]
pub struct ApprovalResult {
    execution_id: u128,
    approved_steps: Vec<String>,
    not_found: Vec<String>,
    still_pending: Vec<String>,
    resumed: bool,
}

impl ApprovalResult {
    /// The execution.
    pub closed spec fn spec_execution_id(&self) -> u128 {
        self.execution_id
    }

    /// The approved steps.
    pub closed spec fn spec_approved_steps(&self) -> Seq<String> {
        self.approved_steps@
    }

    /// The steps that were not found.
    pub closed spec fn spec_not_found(&self) -> Seq<String> {
        self.not_found@
    }

    /// The steps still awaiting approval.
    pub closed spec fn spec_still_pending(&self) -> Seq<String> {
        self.still_pending@
    }

    /// Whether the execution resumed.
    pub closed spec fn spec_resumed(&self) -> bool {
        self.resumed
    }

    /// A new approval outcome.
    pub fn new(
        execution_id: u128,
        approved_steps: Vec<String>,
        not_found: Vec<String>,
        still_pending: Vec<String>,
        resumed: bool,
    ) -> (r: ApprovalResult)
        ensures
            r.spec_execution_id() == execution_id,
            r.spec_approved_steps() == approved_steps@,
            r.spec_not_found() == not_found@,
            r.spec_still_pending() == still_pending@,
            r.spec_resumed() == resumed,
    {
        ApprovalResult { execution_id, approved_steps, not_found, still_pending, resumed }
    }

    /// The execution.
    pub fn execution_id(&self) -> (r: u128)
        ensures
            r == self.spec_execution_id(),
    {
        self.execution_id
    }

    /// The approved steps.
    pub fn approved_steps(&self) -> (r: &Vec<String>)
        ensures
            r@ == self.spec_approved_steps(),
    {
        &self.approved_steps
    }

    /// The requested steps that were not found.
    pub fn not_found(&self) -> (r: &Vec<String>)
        ensures
            r@ == self.spec_not_found(),
    {
        &self.not_found
    }

    /// The steps still awaiting approval.
    pub fn still_pending(&self) -> (r: &Vec<String>)
        ensures
            r@ == self.spec_still_pending(),
    {
        &self.still_pending
    }

    /// Whether the execution resumed.
    pub fn resumed(&self) -> (r: bool)
        ensures
            r == self.spec_resumed(),
    {
        self.resumed
    }
}

/// Identity recorded on an approval.
#[derive(Debug)]
pub struct ApprovalIdentity {
    /// Identity subject of the approver.
    pub approver_id: Option<String>,
    /// Role or policy of the approver (display only).
    pub authority: Option<String>,
    /// Reference to the presented token claims.
    pub token_claims_ref: Option<String>,
}

/// Remaining budget carried by an enforcement event.
#[derive(Debug, Clone, Copy, PartialEq, Eq)]
pub struct EnforcementBudgetPayload {
    /// Remaining tool calls.
    pub tool_calls_remaining: u64,
    /// Remaining tokens.
    pub tokens_remaining: u64,
}

} // verus!
