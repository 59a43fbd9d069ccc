//! The decisions of the engine facade: how engine outcomes become execution
//! results, how engine failures become facade errors, how budgets become an
//! enforcement report, and how a git remote names a repository.
//!
//! The engine itself is driven by the application; what it reports reaches
//! this module as the plain values below.

use vstd::prelude::*;
use vstd::string::StringExecFns;
use crate::json::{Json, JsonV};
use crate::platform::{format_uuid, uuid_text};
use crate::text::{after_prefix, chars_from, chars_have_prefix, chars_have_suffix, chars_of, chars_to, concat2, count_char, count_of, find_char, first_index_of, has_prefix, has_suffix, lemma_first_index_of, str_eq, string_from_chars, trim_chars, trimmed};
use crate::execution_tools::error::EngineFacadeError;
use crate::execution_tools::value::{
    opt_text, BudgetStatus, CircuitBreakerStatus, EnforcementStatus, ExecutionResult,
    ExecutionResultV, ExecutionStatus, PlanTemplate, StepDefinition, StepDefinitionV, StepResult,
    StepResultV,
};

verus! {

// ── Engine outcomes, as plain values ────────────────────────────────────

/// Budget of one resource, as the enforcer reports it.
#[derive(Debug)]
pub struct ResourceBudget {
    /// Resource name ("tool_calls", "tokens", ...).
    pub resource: String,
    /// Amount used.
    pub used: u64,
    /// Limit.
    pub limit: u64,
}

/// A refusal by the enforcer.
#[derive(Debug)]
pub enum EnforcementFailure {
    /// A resource budget is exhausted.
    BudgetExceeded { resource: String, used: u64, limit: u64 },
    /// A tool is blocked by policy.
    ToolBlocked { tool: String },
    /// Any other refusal, with the enforcer's message.
    Other(String),
}

/// A failure of the orchestrator.
#[derive(Debug)]
pub enum OrchestratorFailure {
    /// Execution of the plan failed.
    ExecutionFailed { detail: String },
    /// Planning failed.
    PlanningFailed { detail: String },
    /// Any other failure, with the orchestrator's message.
    Other(String),
}

/// Final status of an engine execution record.
#[derive(Debug, Clone, Copy, PartialEq, Eq, Structural)]
pub enum RecordStatus {
    Completed,
    Failed,
    PartialFailure,
    Cancelled,
    PendingApproval,
}

/// Outcome of one task of an engine execution.
#[derive(Debug)]
pub struct TaskOutcome {
    /// Name of the plan node the task ran.
    pub node_name: String,
    /// Whether the task finished with success.
    pub succeeded: bool,
    /// Error message, if any.
    pub error: Option<String>,
    /// Raw output text, if any.
    pub output: Option<String>,
    /// The output read as a JSON document, where the text is one.
    pub parsed_output: Option<Json>,
    /// Duration in milliseconds.
    pub duration_ms: u64,
}

/// A plan step as the engine's template runner takes it.
#[derive(Debug)]
pub struct EngineStepDef {
    pub name: String,
    pub tool: String,
    pub description: String,
    pub parameters: Json,
    pub requires_approval: bool,
    pub timeout_secs: Option<u64>,
    pub evaluate_score: bool,
}

impl View for EngineStepDef {
    type V = StepDefinitionV;

    open spec fn view(&self) -> StepDefinitionV {
        StepDefinitionV {
            name: self.name@,
            tool: self.tool@,
            parameters: self.parameters@,
            requires_approval: self.requires_approval,
            description: self.description@,
            timeout_secs: self.timeout_secs,
            evaluate_score: self.evaluate_score,
        }
    }
}

// ── Error mapping ───────────────────────────────────────────────────────

/// `a - b`, or 0 where `b` exceeds `a`.
pub open spec fn sat_sub(a: u64, b: u64) -> u64 {
    if a >= b { (a - b) as u64 } else { 0 }
}

/// How an enforcer refusal becomes a facade error.
pub open spec fn maps_enforcement(err: EnforcementFailure, r: EngineFacadeError) -> bool {
    match err {
        EnforcementFailure::BudgetExceeded { resource, used, limit } => r
            == EngineFacadeError::BudgetExceeded {
            tool_calls_remaining: if resource@ == "tool_calls"@ { sat_sub(limit, used) } else { 0 },
            tokens_remaining: if resource@ == "tokens"@ { sat_sub(limit, used) } else { 0 },
        },
        EnforcementFailure::ToolBlocked { tool } => r matches EngineFacadeError::EnforcementBlocked(m)
            && m@ == "Tool blocked: "@ + tool@,
        EnforcementFailure::Other(msg) => r matches EngineFacadeError::EnforcementBlocked(m) && m@
            == msg@,
    }
}

/// Maps an enforcer refusal onto the facade's errors: an exhausted budget
/// reports what is left of the exhausted resource, a blocked tool is named.
pub fn map_enforcement_error(err: EnforcementFailure) -> (r: EngineFacadeError)
    ensures
        maps_enforcement(err, r),
{
    match err {
        EnforcementFailure::BudgetExceeded { resource, used, limit } => {
            let left = if limit >= used { limit - used } else { 0 };
            let tool_calls_remaining = if str_eq(resource.as_str(), "tool_calls") { left } else { 0 };
            let tokens_remaining = if str_eq(resource.as_str(), "tokens") { left } else { 0 };
            EngineFacadeError::BudgetExceeded { tool_calls_remaining, tokens_remaining }
        },
        EnforcementFailure::ToolBlocked { tool } => EngineFacadeError::EnforcementBlocked(
            concat2("Tool blocked: ", tool.as_str()),
        ),
        EnforcementFailure::Other(msg) => EngineFacadeError::EnforcementBlocked(msg),
    }
}

/// An exhausted budget reports what is left of the exhausted resource only,
/// and never more than its limit.
pub proof fn law_budget_reports_only_exhausted_resource(err: EnforcementFailure, r: EngineFacadeError)
    requires
        err is BudgetExceeded,
        maps_enforcement(err, r),
    ensures
        r matches EngineFacadeError::BudgetExceeded { tool_calls_remaining, tokens_remaining }
            && (tool_calls_remaining == 0 || tokens_remaining == 0) && tool_calls_remaining
            <= err->limit && tokens_remaining <= err->limit,
{
    reveal_strlit("tool_calls");
    reveal_strlit("tokens");
    if err->resource@ == "tool_calls"@ {
        assert(err->resource@ != "tokens"@) by {
            assert(err->resource@.len() != "tokens"@.len());
        }
    }
}

/// How an orchestrator failure becomes a facade error.
pub open spec fn maps_orchestrator(err: OrchestratorFailure, r: EngineFacadeError) -> bool {
    match err {
        OrchestratorFailure::ExecutionFailed { detail } => r matches EngineFacadeError::EngineError(m)
            && m@ == detail@,
        OrchestratorFailure::PlanningFailed { detail } => r matches EngineFacadeError::Internal(m)
            && m@ == "Planning failed: "@ + detail@,
        OrchestratorFailure::Other(msg) => r matches EngineFacadeError::Internal(m) && m@ == msg@,
    }
}

/// Maps an orchestrator failure onto the facade's errors.
pub fn map_orchestrator_error(err: OrchestratorFailure) -> (r: EngineFacadeError)
    ensures
        maps_orchestrator(err, r),
{
    match err {
        OrchestratorFailure::ExecutionFailed { detail } => EngineFacadeError::EngineError(detail),
        OrchestratorFailure::PlanningFailed { detail } => EngineFacadeError::Internal(
            concat2("Planning failed: ", detail.as_str()),
        ),
        OrchestratorFailure::Other(msg) => EngineFacadeError::Internal(msg),
    }
}

/// The error of an engine call that outlived its time limit.
pub fn timeout_error(operation: &str, duration_secs: u64) -> (r: EngineFacadeError)
    ensures
        r matches EngineFacadeError::Timeout { operation: o, duration_secs: d } && o@ == operation@
            && d == duration_secs,
{
    EngineFacadeError::Timeout { operation: String::from_str(operation), duration_secs }
}

// ── Execution results ───────────────────────────────────────────────────

/// The execution status of each record status.
pub open spec fn status_of_record(s: RecordStatus) -> ExecutionStatus {
    match s {
        RecordStatus::Completed => ExecutionStatus::Completed,
        RecordStatus::Failed | RecordStatus::PartialFailure | RecordStatus::Cancelled =>
            ExecutionStatus::Failed,
        RecordStatus::PendingApproval => ExecutionStatus::PendingApproval,
    }
}

/// A run is reported completed only when its engine record is completed;
/// a failed, partially failed or cancelled record is reported failed, and a
/// record awaiting approval is reported awaiting approval.
pub proof fn law_record_status_reported(s: RecordStatus)
    ensures
        (status_of_record(s) == ExecutionStatus::Completed) <==> (s == RecordStatus::Completed),
        (s == RecordStatus::Failed || s == RecordStatus::PartialFailure || s == RecordStatus::Cancelled)
            <==> (status_of_record(s) == ExecutionStatus::Failed),
        (status_of_record(s) == ExecutionStatus::PendingApproval) <==> (s == RecordStatus::PendingApproval),
{
}

/// The execution status of an engine record status: failed, partially failed
/// and cancelled records all count as failed.
pub fn execution_status_of(s: RecordStatus) -> (r: ExecutionStatus)
    ensures
        r == status_of_record(s),
{
    match s {
        RecordStatus::Completed => ExecutionStatus::Completed,
        RecordStatus::Failed => ExecutionStatus::Failed,
        RecordStatus::PartialFailure => ExecutionStatus::Failed,
        RecordStatus::Cancelled => ExecutionStatus::Failed,
        RecordStatus::PendingApproval => ExecutionStatus::PendingApproval,
    }
}

/// The output of a task as a document: its JSON where the text is JSON, the
/// text itself as a JSON string otherwise, and `null` without output.
pub open spec fn output_value(output: Option<String>, parsed: Option<Json>) -> JsonV {
    match output {
        None => JsonV::Null,
        Some(t) => match parsed {
            Some(j) => j@,
            None => JsonV::Str(t@),
        },
    }
}

/// The step result of a task outcome.
pub open spec fn step_of_task(t: TaskOutcome) -> StepResultV {
    StepResultV {
        step_name: t.node_name@,
        success: t.succeeded,
        error: opt_text(t.error),
        output: output_value(t.output, t.parsed_output),
        duration_ms: t.duration_ms,
    }
}

fn clone_opt(s: &Option<String>) -> (r: Option<String>)
    ensures
        opt_text(r) == opt_text(*s),
{
    match s {
        Some(t) => Some(t.clone()),
        None => None,
    }
}

/// The step results of the engine's task outcomes, in order. Output that is
/// not JSON is kept as a JSON string rather than dropped.
pub fn task_results_to_steps(results: &Vec<TaskOutcome>) -> (r: Vec<StepResult>)
    ensures
        r@.map_values(|s: StepResult| s@) == results@.map_values(|t: TaskOutcome| step_of_task(t)),
{
    let mut steps: Vec<StepResult> = Vec::new();
    let mut i: usize = 0;
    while i < results.len()
        invariant
            i <= results.len(),
            steps.len() == i,
            forall|j: int| 0 <= j < i ==> #[trigger] steps@[j]@ == step_of_task(results@[j]),
        decreases results.len() - i,
    {
        let t = &results[i];
        let output = match &t.output {
            None => Json::Null,
            Some(text) => match &t.parsed_output {
                Some(j) => j.duplicate(),
                None => Json::Str(text.clone()),
            },
        };
        steps.push(
            StepResult::new(t.node_name.clone(), t.succeeded, clone_opt(&t.error), output, t.duration_ms),
        );
        i = i + 1;
    }
    proof {
        assert(steps@.map_values(|s: StepResult| s@) =~= results@.map_values(
            |t: TaskOutcome| step_of_task(t),
        ));
    }
    steps
}

/// The audit URI of an execution.
pub open spec fn audit_uri_of(execution_id: u128) -> Seq<char> {
    "rigorix://audit/"@ + uuid_text(execution_id)
}

/// The execution result of a finished engine run: its status mapped, its
/// tasks as steps, no token count, and the run's audit URI.
pub fn execution_result_from_run(
    execution_id: u128,
    status: RecordStatus,
    tasks: &Vec<TaskOutcome>,
    duration_ms: u64,
) -> (r: ExecutionResult)
    ensures
        r@ == (ExecutionResultV {
            execution_id,
            status: status_of_record(status),
            steps: tasks@.map_values(|t: TaskOutcome| step_of_task(t)),
            duration_ms,
            tokens_used: None,
            audit_uri: audit_uri_of(execution_id),
        }),
{
    let steps = task_results_to_steps(tasks);
    let uri = concat2("rigorix://audit/", format_uuid(execution_id).as_str());
    ExecutionResult::new(execution_id, execution_status_of(status), steps, duration_ms, None, uri)
}

/// The plan's steps as the engine takes them, field for field; in particular
/// each step's approval flag is passed on.
pub fn plan_to_step_defs(plan: &PlanTemplate) -> (r: Vec<EngineStepDef>)
    ensures
        r@.map_values(|d: EngineStepDef| d@) == plan.spec_steps(),
{
    let steps = plan.steps();
    let mut defs: Vec<EngineStepDef> = Vec::new();
    let mut i: usize = 0;
    while i < steps.len()
        invariant
            steps@.map_values(|s: StepDefinition| s@) == plan.spec_steps(),
            i <= steps.len(),
            defs.len() == i,
            forall|j: int| 0 <= j < i ==> #[trigger] defs@[j]@ == steps@[j]@,
        decreases steps.len() - i,
    {
        let s = &steps[i];
        defs.push(
            EngineStepDef {
                name: String::from_str(s.name()),
                tool: String::from_str(s.tool()),
                description: String::from_str(s.description()),
                parameters: s.parameters().duplicate(),
                requires_approval: s.requires_approval(),
                timeout_secs: s.timeout_secs(),
                evaluate_score: s.evaluate_score(),
            },
        );
        i = i + 1;
    }
    proof {
        assert(defs@.map_values(|d: EngineStepDef| d@) =~= steps@.map_values(
            |s: StepDefinition| s@,
        ));
    }
    defs
}

// ── Enforcement report ──────────────────────────────────────────────────

/// The first budget of the named resource.
pub open spec fn first_budget(bs: Seq<ResourceBudget>, name: Seq<char>) -> Option<ResourceBudget>
    decreases bs.len(),
{
    if bs.len() == 0 {
        None
    } else if bs[0].resource@ == name {
        Some(bs[0])
    } else {
        first_budget(bs.skip(1), name)
    }
}

/// The limit of a budget, or a default where there is none.
pub open spec fn budget_total(b: Option<ResourceBudget>, default: u64) -> u64 {
    match b {
        Some(b) => b.limit,
        None => default,
    }
}

/// What is left of a budget, or a default where there is none.
pub open spec fn budget_remaining(b: Option<ResourceBudget>, default: u64) -> u64 {
    match b {
        Some(b) => sat_sub(b.limit, b.used),
        None => default,
    }
}

/// The budget report built from the enforcer's budgets.
pub open spec fn budget_report(bs: Seq<ResourceBudget>) -> BudgetStatus {
    BudgetStatus {
        tool_calls_total: budget_total(first_budget(bs, "tool_calls"@), 1000),
        tool_calls_remaining: budget_remaining(first_budget(bs, "tool_calls"@), 1000),
        tokens_total: budget_total(first_budget(bs, "tokens"@), 100000),
        tokens_remaining: budget_remaining(first_budget(bs, "tokens"@), 100000),
    }
}

/// The index of the first budget of the named resource.
fn find_budget(bs: &Vec<ResourceBudget>, name: &str) -> (r: Option<usize>)
    ensures
        match r {
            Some(i) => i < bs.len() && first_budget(bs@, name@) == Some(bs@[i as int]),
            None => first_budget(bs@, name@) is None,
        },
{
    let mut i: usize = 0;
    assert(bs@.skip(0) =~= bs@);
    while i < bs.len()
        invariant
            i <= bs.len(),
            first_budget(bs@, name@) == first_budget(bs@.skip(i as int), name@),
        decreases bs.len() - i,
    {
        if str_eq(bs[i].resource.as_str(), name) {
            return Some(i);
        }
        assert(bs@.skip(i as int).skip(1) =~= bs@.skip(i + 1));
        i = i + 1;
    }
    None
}

fn total_and_remaining(bs: &Vec<ResourceBudget>, name: &str, default: u64) -> (r: (u64, u64))
    ensures
        r.0 == budget_total(first_budget(bs@, name@), default),
        r.1 == budget_remaining(first_budget(bs@, name@), default),
{
    match find_budget(bs, name) {
        Some(i) => {
            let b = &bs[i];
            (b.limit, if b.limit >= b.used { b.limit - b.used } else { 0 })
        },
        None => (default, default),
    }
}

/// The enforcement report of the enforcer's budgets: active when a limit is
/// exceeded, the "default" preset, the first "tool_calls" and "tokens"
/// budgets (1000 calls and 100000 tokens where the enforcer reports none),
/// and no circuit breakers.
pub fn enforcement_status_from_budgets(budgets: &Vec<ResourceBudget>, has_exceeded_limits: bool) -> (r:
    EnforcementStatus)
    ensures
        r.spec_active() == has_exceeded_limits,
        r.spec_preset() == "default"@,
        r.spec_budget() == budget_report(budgets@),
        r.spec_circuit_breakers().len() == 0,
{
    let calls = total_and_remaining(budgets, "tool_calls", 1000);
    let tokens = total_and_remaining(budgets, "tokens", 100000);
    let breakers: Vec<CircuitBreakerStatus> = Vec::new();
    EnforcementStatus::new(
        has_exceeded_limits,
        String::from_str("default"),
        BudgetStatus {
            tool_calls_total: calls.0,
            tool_calls_remaining: calls.1,
            tokens_total: tokens.0,
            tokens_remaining: tokens.1,
        },
        breakers,
    )
}

// ── Repository and author from git ──────────────────────────────────────

/// The URL without a leading `https://`, `http://` or `ssh://`; only the
/// `https://` test looks at the URL without surrounding white space.
pub open spec fn without_scheme(url: Seq<char>) -> Seq<char> {
    match after_prefix(trimmed(url), "https://"@) {
        Some(r) => r,
        None => match after_prefix(url, "http://"@) {
            Some(r) => r,
            None => match after_prefix(url, "ssh://"@) {
                Some(r) => r,
                None => url,
            },
        },
    }
}

/// The path part of a remote: after the first `:` that follows the first
/// `@` (scp form), else after the first `/` that follows it (`user@host/`
/// form); without `@`, after the first `/`.
pub open spec fn remote_path(s: Seq<char>) -> Seq<char> {
    match first_index_of(s, '@') {
        Some(a) => match first_index_of(s.skip(a), ':') {
            Some(c) => s.skip(a + c + 1),
            None => match first_index_of(s.skip(a), '/') {
                Some(k) => s.skip(a + k + 1),
                None => s,
            },
        },
        None => match first_index_of(s, '/') {
            Some(k) => s.skip(k + 1),
            None => s,
        },
    }
}

/// The path without a trailing `.git`.
pub open spec fn without_git(p: Seq<char>) -> Seq<char> {
    if has_suffix(p, ".git"@) {
        p.subrange(0, p.len() - 4)
    } else {
        p
    }
}

/// The "owner/repo" a remote URL names: the path must hold exactly one `/`,
/// not at its start.
pub open spec fn repo_from_url(url: Seq<char>) -> Option<Seq<char>> {
    let p = without_git(remote_path(without_scheme(url)));
    if count_of(p, '/') == 1 && p.len() > 0 && !has_prefix(p, "/"@) {
        Some(p)
    } else {
        None
    }
}

proof fn lemma_no_index(s: Seq<char>, c: char)
    requires
        forall|j: int| 0 <= j < s.len() ==> s[j] != c,
    ensures
        first_index_of(s, c) is None,
{
}

/// Normalizes a git remote URL (https, ssh or scp form) to "owner/repo".
pub fn parse_repo_from_url(url: &str) -> (r: Option<String>)
    ensures
        match r {
            Some(s) => repo_from_url(url@) == Some(s@),
            None => repo_from_url(url@) is None,
        },
{
    proof {
        reveal_strlit("https://");
        reveal_strlit("http://");
        reveal_strlit("ssh://");
        reveal_strlit(".git");
    }
    let u = chars_of(url);
    let t = trim_chars(&u);
    let stripped = if chars_have_prefix(&t, "https://") {
        chars_from(&t, 8)
    } else if chars_have_prefix(&u, "http://") {
        chars_from(&u, 7)
    } else if chars_have_prefix(&u, "ssh://") {
        chars_from(&u, 6)
    } else {
        assert(u@.skip(0) =~= u@);
        chars_from(&u, 0)
    };
    assert(stripped@ == without_scheme(url@));
    let path = match find_char(&stripped, '@') {
        Some(a) => {
            proof {
                lemma_first_index_of(stripped@, '@', a as int);
            }
            let tail = chars_from(&stripped, a);
            match find_char(&tail, ':') {
                Some(c) => {
                    proof {
                        lemma_first_index_of(tail@, ':', c as int);
                    }
                    chars_from(&stripped, a + c + 1)
                },
                None => {
                    proof {
                        lemma_no_index(tail@, ':');
                    }
                    match find_char(&tail, '/') {
                        Some(k) => {
                            proof {
                                lemma_first_index_of(tail@, '/', k as int);
                            }
                            chars_from(&stripped, a + k + 1)
                        },
                        None => {
                            proof {
                                lemma_no_index(tail@, '/');
                            }
                            stripped
                        },
                    }
                },
            }
        },
        None => {
            proof {
                lemma_no_index(stripped@, '@');
            }
            match find_char(&stripped, '/') {
                Some(k) => {
                    proof {
                        lemma_first_index_of(stripped@, '/', k as int);
                    }
                    chars_from(&stripped, k + 1)
                },
                None => {
                    proof {
                        lemma_no_index(stripped@, '/');
                    }
                    stripped
                },
            }
        },
    };
    assert(path@ == remote_path(without_scheme(url@)));
    let p = if chars_have_suffix(&path, ".git") {
        chars_to(&path, path.len() - 4)
    } else {
        path
    };
    assert(p@ == without_git(remote_path(without_scheme(url@))));
    if count_char(&p, '/') == 1 && p.len() > 0 && !chars_have_prefix(&p, "/") {
        Some(string_from_chars(p.as_slice()))
    } else {
        None
    }
}

/// The value of what `git` printed, with surrounding white space removed.
fn trimmed_output(stdout: &str) -> (r: Vec<char>)
    ensures
        r@ == trimmed(stdout@),
{
    let c = chars_of(stdout);
    trim_chars(&c)
}

/// The repository named by the output of `git remote get-url origin`: none
/// where the command failed.
pub fn repository_from_git_output(success: bool, stdout: &str) -> (r: Option<String>)
    ensures
        !success ==> r is None,
        success ==> match r {
            Some(s) => repo_from_url(trimmed(stdout@)) == Some(s@),
            None => repo_from_url(trimmed(stdout@)) is None,
        },
{
    if success {
        let t = trimmed_output(stdout);
        let url = string_from_chars(t.as_slice());
        parse_repo_from_url(url.as_str())
    } else {
        None
    }
}

/// The author named by the output of `git config user.email`: none where the
/// command failed or printed only white space.
pub fn author_from_git_output(success: bool, stdout: &str) -> (r: Option<String>)
    ensures
        !success ==> r is None,
        success ==> match r {
            Some(s) => s@ == trimmed(stdout@) && s@.len() > 0,
            None => trimmed(stdout@).len() == 0,
        },
{
    if success {
        let t = trimmed_output(stdout);
        if t.len() == 0 {
            None
        } else {
            Some(string_from_chars(t.as_slice()))
        }
    } else {
        None
    }
}

} // verus!
