//! Error types of the execution tools: what the engine facade and the tool
//! handlers report, with the user-readable message of each.

use vstd::prelude::*;
use vstd::string::StringExecFns;
use crate::platform::{format_uuid, uuid_text};
use crate::text::{concat2, decimal, join_strings, joined, string_views, u64_to_decimal};
use crate::execution_tools::value::PlanTemplateError;

verus! {

impl PlanTemplateError {
    /// The user-readable message of each variant.
    pub open spec fn spec_message(&self) -> Seq<char> {
        match self {
            PlanTemplateError::EmptySteps => "Plan must have at least one step"@,
            PlanTemplateError::DeserializationFailed(s) => "Failed to deserialize plan: "@ + s@,
        }
    }

    /// User-readable message.
    pub fn message(&self) -> (r: String)
        ensures
            r@ == self.spec_message(),
    {
        match self {
            PlanTemplateError::EmptySteps => String::from_str("Plan must have at least one step"),
            PlanTemplateError::DeserializationFailed(s) => concat2(
                "Failed to deserialize plan: ",
                s.as_str(),
            ),
        }
    }

    /// A copy of the error.
    pub fn duplicate(&self) -> (r: PlanTemplateError)
        ensures
            r == *self,
    {
        match self {
            PlanTemplateError::EmptySteps => PlanTemplateError::EmptySteps,
            PlanTemplateError::DeserializationFailed(s) => PlanTemplateError::DeserializationFailed(
                s.clone(),
            ),
        }
    }
}

/// Root error type of all engine facade operations.
#[derive(Debug, Clone, PartialEq, Eq)]
pub enum EngineFacadeError {
    /// The engine encountered an internal error.
    EngineError(String),
    /// The requested plan could not be validated.
    PlanValidationFailed(String),
    /// Budget exceeded: execution blocked by enforcement.
    BudgetExceeded { tool_calls_remaining: u64, tokens_remaining: u64 },
    /// Enforcement policy blocked the operation.
    EnforcementBlocked(String),
    /// The operation timed out.
    Timeout { operation: String, duration_secs: u64 },
    /// Invalid plan template.
    InvalidPlan(PlanTemplateError),
    /// No execution is known under the given id.
    ExecutionNotFound(u128),
    /// The engine is not available (not started or disconnected).
    EngineNotAvailable(String),
    /// Internal synchronization or state error.
    Internal(String),
    /// A `deny` sequence rule refused the step.
    SequencePolicyDenied { rule_id: String, step: String },
    /// The step needs an attested identity that the caller does not have.
    IdentityRequired { step: String, status: String },
    /// A declared requirement of the step is not met; `unmet` names the
    /// missing pointers, never their values.
    RequirementUnmet { requirement_id: String, step: String, unmet: Vec<String> },
}

impl EngineFacadeError {
    /// The user-readable message of each variant.
    pub open spec fn spec_message(&self) -> Seq<char> {
        match self {
            EngineFacadeError::EngineError(s) => "Engine error: "@ + s@,
            EngineFacadeError::PlanValidationFailed(s) => "Plan validation failed: "@ + s@,
            EngineFacadeError::BudgetExceeded { tool_calls_remaining, tokens_remaining } =>
                "Budget exceeded: "@ + decimal(*tool_calls_remaining as nat)
                + " calls remaining, "@ + decimal(*tokens_remaining as nat)
                + " tokens remaining"@,
            EngineFacadeError::EnforcementBlocked(s) => "Enforcement blocked: "@ + s@,
            EngineFacadeError::Timeout { operation, duration_secs } => "Operation timed out after "@
                + decimal(*duration_secs as nat) + "s: "@ + operation@,
            EngineFacadeError::InvalidPlan(e) => "Invalid plan: "@ + e.spec_message(),
            EngineFacadeError::ExecutionNotFound(id) => "Execution not found: "@ + uuid_text(*id),
            EngineFacadeError::EngineNotAvailable(s) => "Engine not available: "@ + s@,
            EngineFacadeError::Internal(s) => "Internal error: "@ + s@,
            EngineFacadeError::SequencePolicyDenied { rule_id, step } =>
                "Denied by sequence rule '"@ + rule_id@ + "' at step '"@ + step@ + "'"@,
            EngineFacadeError::IdentityRequired { step, status } => "Identity required for step '"@
                + step@ + "': "@ + status@,
            EngineFacadeError::RequirementUnmet { requirement_id, step, unmet } =>
                "Requirement '"@ + requirement_id@ + "' unmet at step '"@ + step@ + "': "@
                + joined(string_views(unmet@), ", "@),
        }
    }

    /// User-readable message.
    pub fn message(&self) -> (r: String)
        ensures
            r@ == self.spec_message(),
    {
        match self {
            EngineFacadeError::EngineError(s) => concat2("Engine error: ", s.as_str()),
            EngineFacadeError::PlanValidationFailed(s) => concat2(
                "Plan validation failed: ",
                s.as_str(),
            ),
            EngineFacadeError::BudgetExceeded { tool_calls_remaining, tokens_remaining } => {
                let mut r = String::from_str("Budget exceeded: ");
                r.append(u64_to_decimal(*tool_calls_remaining).as_str());
                r.append(" calls remaining, ");
                r.append(u64_to_decimal(*tokens_remaining).as_str());
                r.append(" tokens remaining");
                r
            },
            EngineFacadeError::EnforcementBlocked(s) => concat2("Enforcement blocked: ", s.as_str()),
            EngineFacadeError::Timeout { operation, duration_secs } => {
                let mut r = String::from_str("Operation timed out after ");
                r.append(u64_to_decimal(*duration_secs).as_str());
                r.append("s: ");
                r.append(operation.as_str());
                r
            },
            EngineFacadeError::InvalidPlan(e) => concat2("Invalid plan: ", e.message().as_str()),
            EngineFacadeError::ExecutionNotFound(id) => concat2(
                "Execution not found: ",
                format_uuid(*id).as_str(),
            ),
            EngineFacadeError::EngineNotAvailable(s) => concat2(
                "Engine not available: ",
                s.as_str(),
            ),
            EngineFacadeError::Internal(s) => concat2("Internal error: ", s.as_str()),
            EngineFacadeError::SequencePolicyDenied { rule_id, step } => {
                let mut r = String::from_str("Denied by sequence rule '");
                r.append(rule_id.as_str());
                r.append("' at step '");
                r.append(step.as_str());
                r.append("'");
                r
            },
            EngineFacadeError::IdentityRequired { step, status } => {
                let mut r = String::from_str("Identity required for step '");
                r.append(step.as_str());
                r.append("': ");
                r.append(status.as_str());
                r
            },
            EngineFacadeError::RequirementUnmet { requirement_id, step, unmet } => {
                let mut r = String::from_str("Requirement '");
                r.append(requirement_id.as_str());
                r.append("' unmet at step '");
                r.append(step.as_str());
                r.append("': ");
                r.append(join_strings(unmet, ", ").as_str());
                r
            },
        }
    }
}

/// Error type returned by the execution tool handlers.
#[derive(Debug, Clone, PartialEq, Eq)]
pub enum HandlerError {
    /// The input arguments did not match the expected schema.
    InvalidArguments(String),
    /// The engine returned an error.
    EngineError(EngineFacadeError),
    /// Plan validation returned blocking errors.
    ValidationErrors(String),
    /// The handler timed out.
    Timeout,
    /// An internal error occurred in the handler.
    Internal(String),
}

impl HandlerError {
    /// The user-readable message of each variant.
    pub open spec fn spec_message(&self) -> Seq<char> {
        match self {
            HandlerError::InvalidArguments(s) => "Invalid arguments: "@ + s@,
            HandlerError::EngineError(e) => "Engine error: "@ + e.spec_message(),
            HandlerError::ValidationErrors(s) => "Plan validation errors: "@ + s@,
            HandlerError::Timeout => "Handler timed out"@,
            HandlerError::Internal(s) => "Internal handler error: "@ + s@,
        }
    }

    /// User-readable message.
    pub fn message(&self) -> (r: String)
        ensures
            r@ == self.spec_message(),
    {
        match self {
            HandlerError::InvalidArguments(s) => concat2("Invalid arguments: ", s.as_str()),
            HandlerError::EngineError(e) => concat2("Engine error: ", e.message().as_str()),
            HandlerError::ValidationErrors(s) => concat2("Plan validation errors: ", s.as_str()),
            HandlerError::Timeout => String::from_str("Handler timed out"),
            HandlerError::Internal(s) => concat2("Internal handler error: ", s.as_str()),
        }
    }
}

/// A single content item of a tool call result.
#[derive(Debug, Clone, PartialEq, Eq)]
pub struct ToolContentItem {
    /// Content type (e.g. "text", "json").
    pub content_type: String,
    /// Text or JSON content.
    pub text: String,
}

/// The standard result of an execution tool call.
#[derive(Debug, Clone, PartialEq, Eq)]
pub struct ToolCallResult {
    /// Content items to return to the client.
    pub content: Vec<ToolContentItem>,
    /// Whether the result represents an error.
    pub is_error: bool,
}

} // verus!
