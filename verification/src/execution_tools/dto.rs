//! The output shapes of the execution tools, their examples, and the
//! engine facade's configuration.

use vstd::prelude::*;
use vstd::string::StringExecFns;


verus! {

/// One step of an execution output.
#[derive(Debug)]
pub struct StepOutputDto {
    pub step_name: String,
    pub success: bool,
    pub error: Option<String>,
    pub duration_ms: u64,
}

/// The output of the execute tool.
#[derive(Debug)]
pub struct ExecuteOutput {
    pub execution_id: u128,
    pub status: String,
    pub steps: Vec<StepOutputDto>,
    pub duration_ms: u64,
    pub tokens_used: Option<u64>,
    pub audit_uri: String,
}

/// A cost estimate of the validate tool.
#[derive(Debug, Clone, Copy, PartialEq, Eq)]
pub struct CostEstimateDto {
    pub estimated_tokens: u64,
    pub estimated_tool_calls: u64,
}

/// The output of the validate tool.
#[derive(Debug)]
pub struct ValidateOutput {
    pub valid: bool,
    pub warnings: Vec<String>,
    pub errors: Vec<String>,
    pub estimated_cost: Option<CostEstimateDto>,
}

/// A budget of the check-enforcement tool.
#[derive(Debug, Clone, Copy, PartialEq, Eq)]
pub struct BudgetDto {
    pub tool_calls_total: u64,
    pub tool_calls_remaining: u64,
    pub tokens_total: u64,
    pub tokens_remaining: u64,
}

/// A circuit breaker of the check-enforcement tool.
#[derive(Debug)]
pub struct CircuitBreakerDto {
    pub name: String,
    pub is_tripped: bool,
    pub description: String,
}

/// The output of the check-enforcement tool.
#[derive(Debug)]
pub struct CheckEnforcementOutput {
    pub active: bool,
    pub preset: String,
    pub budget: BudgetDto,
    pub circuit_breakers: Vec<CircuitBreakerDto>,
}

/// An example execution output: a completed execution of the nil id with no
/// steps.
pub fn example_execute_output() -> (r: ExecuteOutput)
    ensures
        r.execution_id == 0,
        r.status@ == "completed"@,
        r.steps@.len() == 0,
        r.duration_ms == 0,
        r.tokens_used is None,
        r.audit_uri@ == "rigorix://audit/00000000-0000-0000-0000-000000000000"@,
{
    ExecuteOutput {
        execution_id: 0,
        status: String::from_str("completed"),
        steps: Vec::new(),
        duration_ms: 0,
        tokens_used: None,
        audit_uri: String::from_str("rigorix://audit/00000000-0000-0000-0000-000000000000"),
    }
}

/// An example validation output: valid, without warnings, errors or
/// estimate.
pub fn example_validate_output() -> (r: ValidateOutput)
    ensures
        r.valid,
        r.warnings@.len() == 0,
        r.errors@.len() == 0,
        r.estimated_cost is None,
{
    ValidateOutput { valid: true, warnings: Vec::new(), errors: Vec::new(), estimated_cost: None }
}

/// An example enforcement output: active under the default preset, with a
/// quarter of each budget used and no circuit breakers.
pub fn example_check_enforcement_output() -> (r: CheckEnforcementOutput)
    ensures
        r.active,
        r.preset@ == "default"@,
        r.budget == (BudgetDto {
            tool_calls_total: 1000,
            tool_calls_remaining: 750,
            tokens_total: 100000,
            tokens_remaining: 75000,
        }),
        r.circuit_breakers@.len() == 0,
{
    CheckEnforcementOutput {
        active: true,
        preset: String::from_str("default"),
        budget: BudgetDto {
            tool_calls_total: 1000,
            tool_calls_remaining: 750,
            tokens_total: 100000,
            tokens_remaining: 75000,
        },
        circuit_breakers: Vec::new(),
    }
}

/// The names of the execution tools.
pub fn execution_tool_names() -> (r: Vec<&'static str>)
    ensures
        r@.len() == 5,
        r@[0]@ == "rigorix_execute"@,
        r@[1]@ == "rigorix_plan"@,
        r@[2]@ == "rigorix_run"@,
        r@[3]@ == "rigorix_validate_plan"@,
        r@[4]@ == "rigorix_check_enforcement"@,
{
    vec!["rigorix_execute", "rigorix_plan", "rigorix_run", "rigorix_validate_plan", "rigorix_check_enforcement"]
}

/// How the engine facade is built: time limits, enforcement, and the
/// engine's endpoint.
#[derive(Debug)]
pub struct EngineFacadeConfig {
    pub default_execute_timeout_secs: u64,
    pub default_validate_timeout_secs: u64,
    pub enable_enforcement: bool,
    pub engine_endpoint: Option<String>,
    pub connection_timeout_secs: u64,
}

impl Default for EngineFacadeConfig {
    /// Five minutes to execute, one to validate, enforcement on, the
    /// in-process engine, ten seconds to connect.
    fn default() -> (r: EngineFacadeConfig)
        ensures
            r.default_execute_timeout_secs == 300,
            r.default_validate_timeout_secs == 60,
            r.enable_enforcement,
            r.engine_endpoint is None,
            r.connection_timeout_secs == 10,
    {
        EngineFacadeConfig {
            default_execute_timeout_secs: 300,
            default_validate_timeout_secs: 60,
            enable_enforcement: true,
            engine_endpoint: None,
            connection_timeout_secs: 10,
        }
    }
}

} // verus!
