//! The dispatch boundary's error: a stable taxonomy type, a message, and the
//! structured context the engine produced, with its JSON-RPC form.

use vstd::prelude::*;
use vstd::string::StringExecFns;
use crate::json::{entries_view, entry, lemma_entries_view, str_values, Json, JsonV};
use crate::execution_tools::error::{EngineFacadeError, HandlerError};
use crate::template_tools::error::{HandlerError as TemplateHandlerError, TemplateError};

verus! {

/// The stable error types of the API taxonomy.
#[derive(Debug, Clone, Copy, PartialEq, Eq, Structural)]
pub enum ErrorType {
    /// JSON parse error.
    ParseError,
    /// Invalid JSON-RPC request.
    InvalidRequest,
    /// Unknown method.
    MethodNotFound,
    /// Invalid params.
    InvalidParams,
    /// Internal error.
    InternalError,
    /// No attested session.
    NotAuthenticated,
    /// Attested session lacks scope.
    InsufficientScope,
    /// A `deny` sequence rule refused the step.
    DeniedBySequence,
    /// Enforcement or policy violation.
    PolicyViolation,
    /// The step pauses for approval.
    ApprovalRequired,
    /// An attested identity is required.
    IdentityRequired,
    /// Budget exhausted.
    BudgetExhausted,
    /// Operation timed out.
    Timeout,
    /// Upstream or engine API error.
    ApiError,
    /// Feature not enabled.
    NotEnabled,
}

impl ErrorType {
    /// The stable machine identifier of each type.
    pub open spec fn spec_as_str(self) -> Seq<char> {
        match self {
            ErrorType::ParseError => "parse_error"@,
            ErrorType::InvalidRequest => "invalid_request"@,
            ErrorType::MethodNotFound => "method_not_found"@,
            ErrorType::InvalidParams => "invalid_params"@,
            ErrorType::InternalError => "internal_error"@,
            ErrorType::NotAuthenticated => "not_authenticated"@,
            ErrorType::InsufficientScope => "insufficient_scope"@,
            ErrorType::DeniedBySequence => "denied_by_sequence"@,
            ErrorType::PolicyViolation => "policy_violation"@,
            ErrorType::ApprovalRequired => "approval_required"@,
            ErrorType::IdentityRequired => "identity_required"@,
            ErrorType::BudgetExhausted => "budget_exhausted"@,
            ErrorType::Timeout => "timeout"@,
            ErrorType::ApiError => "api_error"@,
            ErrorType::NotEnabled => "not_enabled"@,
        }
    }

    /// The JSON-RPC error code of each type.
    pub open spec fn spec_code(self) -> int {
        match self {
            ErrorType::ParseError => -32700,
            ErrorType::InvalidRequest => -32600,
            ErrorType::MethodNotFound => -32601,
            ErrorType::InvalidParams => -32602,
            ErrorType::InternalError => -32603,
            ErrorType::NotAuthenticated => -32001,
            ErrorType::InsufficientScope => -32002,
            ErrorType::DeniedBySequence => -32010,
            ErrorType::PolicyViolation => -32010,
            ErrorType::ApprovalRequired => -32011,
            ErrorType::IdentityRequired => -32012,
            ErrorType::BudgetExhausted => -32020,
            ErrorType::Timeout => -32021,
            ErrorType::ApiError => -32030,
            ErrorType::NotEnabled => -32031,
        }
    }

    /// Whether an operation failing with this type is safe to retry: only
    /// timeouts and upstream API errors are.
    pub open spec fn spec_retryable(self) -> bool {
        self is Timeout || self is ApiError
    }

    /// Stable machine identifier.
    pub fn as_str(self) -> (r: &'static str)
        ensures
            r@ == self.spec_as_str(),
    {
        match self {
            ErrorType::ParseError => "parse_error",
            ErrorType::InvalidRequest => "invalid_request",
            ErrorType::MethodNotFound => "method_not_found",
            ErrorType::InvalidParams => "invalid_params",
            ErrorType::InternalError => "internal_error",
            ErrorType::NotAuthenticated => "not_authenticated",
            ErrorType::InsufficientScope => "insufficient_scope",
            ErrorType::DeniedBySequence => "denied_by_sequence",
            ErrorType::PolicyViolation => "policy_violation",
            ErrorType::ApprovalRequired => "approval_required",
            ErrorType::IdentityRequired => "identity_required",
            ErrorType::BudgetExhausted => "budget_exhausted",
            ErrorType::Timeout => "timeout",
            ErrorType::ApiError => "api_error",
            ErrorType::NotEnabled => "not_enabled",
        }
    }

    /// JSON-RPC error code.
    pub fn code(self) -> (r: i64)
        ensures
            r == self.spec_code(),
    {
        match self {
            ErrorType::ParseError => -32700,
            ErrorType::InvalidRequest => -32600,
            ErrorType::MethodNotFound => -32601,
            ErrorType::InvalidParams => -32602,
            ErrorType::InternalError => -32603,
            ErrorType::NotAuthenticated => -32001,
            ErrorType::InsufficientScope => -32002,
            ErrorType::DeniedBySequence => -32010,
            ErrorType::PolicyViolation => -32010,
            ErrorType::ApprovalRequired => -32011,
            ErrorType::IdentityRequired => -32012,
            ErrorType::BudgetExhausted => -32020,
            ErrorType::Timeout => -32021,
            ErrorType::ApiError => -32030,
            ErrorType::NotEnabled => -32031,
        }
    }

    /// Whether the failed operation is safe to retry.
    pub fn retryable(self) -> (r: bool)
        ensures
            r == self.spec_retryable(),
    {
        match self {
            ErrorType::Timeout | ErrorType::ApiError => true,
            _ => false,
        }
    }
}

/// Dispatch error carrying the taxonomy type and the engine's structured
/// context.
#[derive(Debug)]
pub struct HostError {
    /// Stable taxonomy type.
    pub error_type: ErrorType,
    /// Human-readable message.
    pub message: String,
    /// Sequence rule id, for `denied_by_sequence`.
    pub rule_id: Option<String>,
    /// Refused step, for `denied_by_sequence`.
    pub step: Option<String>,
    /// Extra structured detail (never parameter values).
    pub details: Option<Json>,
    /// Whether the caller may retry.
    pub retryable: bool,
}

/// The value of a host error.
pub struct HostErrorV {
    pub error_type: ErrorType,
    pub message: Seq<char>,
    pub rule_id: Option<Seq<char>>,
    pub step: Option<Seq<char>>,
    pub details: Option<JsonV>,
    pub retryable: bool,
}

impl View for HostError {
    type V = HostErrorV;

    open spec fn view(&self) -> HostErrorV {
        HostErrorV {
            error_type: self.error_type,
            message: self.message@,
            rule_id: match self.rule_id {
                Some(s) => Some(s@),
                None => None,
            },
            step: match self.step {
                Some(s) => Some(s@),
                None => None,
            },
            details: match self.details {
                Some(d) => Some(d@),
                None => None,
            },
            retryable: self.retryable,
        }
    }
}

/// The error of a type with a message and no context; retryable as its type.
pub open spec fn plain(t: ErrorType, message: Seq<char>) -> HostErrorV {
    HostErrorV {
        error_type: t,
        message,
        rule_id: None,
        step: None,
        details: None,
        retryable: t.spec_retryable(),
    }
}

/// The taxonomy error of each engine facade error: sequence denials carry
/// their rule and step, identity and requirement failures carry their
/// details, the message is the engine error's own.
pub open spec fn engine_host_error(e: EngineFacadeError) -> HostErrorV {
    let m = e.spec_message();
    match e {
        EngineFacadeError::SequencePolicyDenied { rule_id, step } => HostErrorV {
            rule_id: Some(rule_id@),
            step: Some(step@),
            ..plain(ErrorType::DeniedBySequence, m)
        },
        EngineFacadeError::IdentityRequired { step, status } => HostErrorV {
            details: Some(
                JsonV::Object(seq![("step"@, JsonV::Str(step@)), ("status"@, JsonV::Str(status@))]),
            ),
            ..plain(ErrorType::IdentityRequired, m)
        },
        EngineFacadeError::RequirementUnmet { requirement_id, step, unmet } => HostErrorV {
            details: Some(
                JsonV::Object(
                    seq![
                        ("requirement_id"@, JsonV::Str(requirement_id@)),
                        ("step"@, JsonV::Str(step@)),
                        ("unmet"@, JsonV::Array(str_values(unmet@))),
                    ],
                ),
            ),
            ..plain(ErrorType::PolicyViolation, m)
        },
        EngineFacadeError::BudgetExceeded { .. } => plain(ErrorType::BudgetExhausted, m),
        EngineFacadeError::Timeout { .. } => plain(ErrorType::Timeout, m),
        EngineFacadeError::EnforcementBlocked(_) => plain(ErrorType::PolicyViolation, m),
        EngineFacadeError::PlanValidationFailed(_) | EngineFacadeError::InvalidPlan(_)
        | EngineFacadeError::ExecutionNotFound(_) => plain(ErrorType::InvalidParams, m),
        EngineFacadeError::EngineError(_) => plain(ErrorType::ApiError, m),
        EngineFacadeError::EngineNotAvailable(_) | EngineFacadeError::Internal(_) => plain(
            ErrorType::InternalError,
            m,
        ),
    }
}

/// An engine error reporting that enforcement blocked the plan, or that a
/// declared requirement is unmet, is a policy violation (code -32010, type
/// "policy_violation"); only an unavailable engine or an internal engine
/// failure is an internal error.
pub proof fn law_engine_policy_errors(e: EngineFacadeError)
    ensures
        e is EnforcementBlocked || e is RequirementUnmet ==> engine_host_error(e).error_type
            == ErrorType::PolicyViolation,
        (engine_host_error(e).error_type == ErrorType::InternalError) <==> (e is EngineNotAvailable
            || e is Internal),
        ErrorType::PolicyViolation.spec_code() == -32010,
        ErrorType::PolicyViolation.spec_as_str() == "policy_violation"@,
{
    reveal_strlit("policy_violation");
}

/// The taxonomy error of each execution handler error: an engine error maps
/// as the engine error itself.
pub open spec fn handler_host_error(e: HandlerError) -> HostErrorV {
    match e {
        HandlerError::EngineError(inner) => engine_host_error(inner),
        HandlerError::InvalidArguments(_) | HandlerError::ValidationErrors(_) => plain(
            ErrorType::InvalidParams,
            e.spec_message(),
        ),
        HandlerError::Timeout => plain(ErrorType::Timeout, e.spec_message()),
        HandlerError::Internal(_) => plain(ErrorType::InternalError, e.spec_message()),
    }
}

/// The taxonomy type of each template handler error: client mistakes
/// (unknown, invalid, existing or invalid template) are invalid params.
pub open spec fn template_error_type(e: TemplateHandlerError) -> ErrorType {
    match e {
        TemplateHandlerError::InvalidArguments(_) => ErrorType::InvalidParams,
        TemplateHandlerError::Timeout { .. } => ErrorType::Timeout,
        TemplateHandlerError::Internal(_) => ErrorType::InternalError,
        TemplateHandlerError::TemplateError(inner) => match inner {
            TemplateError::NotFound(_) | TemplateError::InvalidName(_)
            | TemplateError::AlreadyExists(_) | TemplateError::ValidationError(_) =>
                ErrorType::InvalidParams,
            _ => ErrorType::InternalError,
        },
    }
}

/// The data object of the JSON-RPC form: the type, the context that is
/// present, and whether to retry.
pub open spec fn error_data(h: HostErrorV) -> Seq<(Seq<char>, JsonV)> {
    seq![("type"@, JsonV::Str(h.error_type.spec_as_str()))] + (match h.rule_id {
        Some(r) => seq![("rule_id"@, JsonV::Str(r))],
        None => Seq::empty(),
    }) + (match h.step {
        Some(s) => seq![("step"@, JsonV::Str(s))],
        None => Seq::empty(),
    }) + (match h.details {
        Some(d) => seq![("details"@, d)],
        None => Seq::empty(),
    }) + seq![("retryable"@, JsonV::Bool(h.retryable))]
}

/// The JSON-RPC error object of a host error.
pub open spec fn jsonrpc_error_document(h: HostErrorV) -> JsonV {
    JsonV::Object(
        seq![
            ("code"@, crate::json::int_value(h.error_type.spec_code() as i64)),
            ("message"@, JsonV::Str(h.message)),
            ("data"@, JsonV::Object(error_data(h))),
        ],
    )
}

impl HostError {
    /// An error of `error_type` with a message, retryable as its type.
    pub fn new(error_type: ErrorType, message: String) -> (r: HostError)
        ensures
            r@ == plain(error_type, message@),
    {
        HostError {
            error_type,
            message,
            rule_id: None,
            step: None,
            details: None,
            retryable: error_type.retryable(),
        }
    }

    /// Invalid params.
    pub fn invalid_params(message: String) -> (r: HostError)
        ensures
            r@ == plain(ErrorType::InvalidParams, message@),
    {
        HostError::new(ErrorType::InvalidParams, message)
    }

    /// Unknown tool.
    pub fn method_not_found(name: &str) -> (r: HostError)
        ensures
            r@ == plain(ErrorType::MethodNotFound, "Unknown tool: "@ + name@),
    {
        HostError::new(ErrorType::MethodNotFound, crate::text::concat2("Unknown tool: ", name))
    }

    /// Internal error.
    pub fn internal(message: String) -> (r: HostError)
        ensures
            r@ == plain(ErrorType::InternalError, message@),
    {
        HostError::new(ErrorType::InternalError, message)
    }

    /// No attested session.
    pub fn not_authenticated(message: String) -> (r: HostError)
        ensures
            r@ == plain(ErrorType::NotAuthenticated, message@),
    {
        HostError::new(ErrorType::NotAuthenticated, message)
    }

    /// The attested session lacks the required scope.
    pub fn insufficient_scope(message: String) -> (r: HostError)
        ensures
            r@ == plain(ErrorType::InsufficientScope, message@),
    {
        HostError::new(ErrorType::InsufficientScope, message)
    }

    /// Feature not enabled in this deployment.
    pub fn not_enabled(message: String) -> (r: HostError)
        ensures
            r@ == plain(ErrorType::NotEnabled, message@),
    {
        HostError::new(ErrorType::NotEnabled, message)
    }

    /// Adds the sequence context of a `denied_by_sequence` error.
    pub fn with_sequence(self, rule_id: String, step: String) -> (r: HostError)
        ensures
            r@ == (HostErrorV { rule_id: Some(rule_id@), step: Some(step@), ..self@ }),
    {
        HostError { rule_id: Some(rule_id), step: Some(step), ..self }
    }

    /// Attaches extra structured detail.
    pub fn with_details(self, details: Json) -> (r: HostError)
        ensures
            r@ == (HostErrorV { details: Some(details@), ..self@ }),
    {
        HostError { details: Some(details), ..self }
    }

    /// Maps an engine facade error onto the taxonomy.
    pub fn from_engine_facade(error: &EngineFacadeError) -> (r: HostError)
        ensures
            r@ == engine_host_error(*error),
    {
        let m = error.message();
        match error {
            EngineFacadeError::SequencePolicyDenied { rule_id, step } => HostError::new(
                ErrorType::DeniedBySequence,
                m,
            ).with_sequence(rule_id.clone(), step.clone()),
            EngineFacadeError::IdentityRequired { step, status } => {
                let entries = vec![
                    entry("step", Json::Str(step.clone())),
                    entry("status", Json::Str(status.clone())),
                ];
                proof {
                    lemma_entries_view(entries@);
                    assert(entries_view(entries@) =~= seq![
                        ("step"@, JsonV::Str(step@)),
                        ("status"@, JsonV::Str(status@)),
                    ]);
                }
                HostError::new(ErrorType::IdentityRequired, m).with_details(Json::object(entries))
            },
            EngineFacadeError::RequirementUnmet { requirement_id, step, unmet } => {
                let entries = vec![
                    entry("requirement_id", Json::Str(requirement_id.clone())),
                    entry("step", Json::Str(step.clone())),
                    entry("unmet", Json::strings(unmet)),
                ];
                proof {
                    lemma_entries_view(entries@);
                    assert(entries_view(entries@) =~= seq![
                        ("requirement_id"@, JsonV::Str(requirement_id@)),
                        ("step"@, JsonV::Str(step@)),
                        ("unmet"@, JsonV::Array(str_values(unmet@))),
                    ]);
                }
                HostError::new(ErrorType::PolicyViolation, m).with_details(Json::object(entries))
            },
            EngineFacadeError::BudgetExceeded { .. } => HostError::new(ErrorType::BudgetExhausted, m),
            EngineFacadeError::Timeout { .. } => HostError::new(ErrorType::Timeout, m),
            EngineFacadeError::EnforcementBlocked(_) => HostError::new(ErrorType::PolicyViolation, m),
            EngineFacadeError::PlanValidationFailed(_) | EngineFacadeError::InvalidPlan(_)
            | EngineFacadeError::ExecutionNotFound(_) => HostError::new(ErrorType::InvalidParams, m),
            EngineFacadeError::EngineError(_) => HostError::new(ErrorType::ApiError, m),
            EngineFacadeError::EngineNotAvailable(_) | EngineFacadeError::Internal(_) => HostError::new(
                ErrorType::InternalError,
                m,
            ),
        }
    }

    /// Maps an execution handler error onto the taxonomy.
    pub fn from_handler(error: &HandlerError) -> (r: HostError)
        ensures
            r@ == handler_host_error(*error),
    {
        match error {
            HandlerError::EngineError(inner) => HostError::from_engine_facade(inner),
            HandlerError::InvalidArguments(_) | HandlerError::ValidationErrors(_) => HostError::new(
                ErrorType::InvalidParams,
                error.message(),
            ),
            HandlerError::Timeout => HostError::new(ErrorType::Timeout, error.message()),
            HandlerError::Internal(_) => HostError::new(ErrorType::InternalError, error.message()),
        }
    }

    /// Maps a template handler error onto the taxonomy, with its message.
    pub fn from_template_handler(error: &TemplateHandlerError) -> (r: HostError)
        ensures
            r@ == plain(template_error_type(*error), error.spec_message()),
    {
        let message = error.message();
        let t = match error {
            TemplateHandlerError::InvalidArguments(_) => ErrorType::InvalidParams,
            TemplateHandlerError::Timeout { .. } => ErrorType::Timeout,
            TemplateHandlerError::Internal(_) => ErrorType::InternalError,
            TemplateHandlerError::TemplateError(inner) => match inner {
                TemplateError::NotFound(_) | TemplateError::InvalidName(_)
                | TemplateError::AlreadyExists(_) | TemplateError::ValidationError(_) =>
                    ErrorType::InvalidParams,
                _ => ErrorType::InternalError,
            },
        };
        HostError::new(t, message)
    }

    /// The JSON-RPC error object: code, message, and the data object.
    pub fn to_jsonrpc_error(&self) -> (r: Json)
        ensures
            r@ == jsonrpc_error_document(self@),
    {
        let mut data: Vec<(String, Json)> = vec![entry("type", Json::string(self.error_type.as_str()))];
        let ghost d0 = entries_view(data@);
        proof {
            lemma_entries_view(data@);
        }
        match &self.rule_id {
            Some(r) => data.push(entry("rule_id", Json::Str(r.clone()))),
            None => {},
        }
        match &self.step {
            Some(s) => data.push(entry("step", Json::Str(s.clone()))),
            None => {},
        }
        match &self.details {
            Some(d) => data.push(entry("details", d.duplicate())),
            None => {},
        }
        data.push(entry("retryable", Json::Bool(self.retryable)));
        proof {
            lemma_entries_view(data@);
            assert(entries_view(data@) =~= error_data(self@));
        }
        let entries = vec![
            entry("code", Json::signed(self.error_type.code())),
            entry("message", Json::Str(self.message.clone())),
            entry("data", Json::object(data)),
        ];
        proof {
            lemma_entries_view(entries@);
            assert(entries_view(entries@) =~= jsonrpc_error_document(self@)->Object_0);
        }
        Json::object(entries)
    }
}

/// A handler's engine error maps exactly as the engine error itself.
pub proof fn law_handler_engine_error_maps_as_engine(e: EngineFacadeError)
    ensures
        handler_host_error(HandlerError::EngineError(e)) == engine_host_error(e),
{
}

/// Every error the mappings build is retryable exactly when its type is.
pub proof fn law_retryable_follows_type(e: EngineFacadeError, h: HandlerError, t: TemplateHandlerError)
    ensures
        engine_host_error(e).retryable == engine_host_error(e).error_type.spec_retryable(),
        handler_host_error(h).retryable == handler_host_error(h).error_type.spec_retryable(),
        plain(template_error_type(t), t.spec_message()).retryable == template_error_type(
            t,
        ).spec_retryable(),
{
}

} // verus!
