//! The decisions of the shared tool dispatch: which handler a tool name
//! reaches, what a request's parameters mean, who an approval is bound to,
//! what an approval answers, which resource a URI names, and how a run's
//! answer is read back for its audit record. The handlers and the engine are
//! driven by the application.

use vstd::prelude::*;
use vstd::string::StringExecFns;
use crate::json::{entries_view, entry, lemma_entries_view, str_values, Json, JsonNumberV, JsonV};
use crate::platform::{format_uuid, parse_uuid, uuid_parse, uuid_text};
use crate::text::{
    chars_from, chars_have_prefix, chars_of, chars_to, concat2, concat3, count_char, first_infix,
    find_text, has_prefix, lowercase, str_eq, string_from_chars, to_lowercase, trim_chars, trimmed,
};
use crate::execution_tools::value::{
    ApprovalIdentity, ApprovalResult, ExecutionStatus, PlanTemplate, StepResult, StepResultV,
};
use crate::host::error::{plain, ErrorType, HostError};

verus! {

// ── Tool routing ────────────────────────────────────────────────────────

/// The handler a tool call reaches.
#[derive(Debug, Clone, Copy, PartialEq, Eq, Structural)]
pub enum ToolRoute {
    Execute,
    Plan,
    Run,
    ValidatePlan,
    CheckEnforcement,
    ApproveExecution,
    ReadAudit,
    ListAudits,
    AuditSummary,
    ListTemplates,
    GetTemplate,
    CreateTemplate,
    ValidateTemplate,
    UsageGuide,
    AuthLogin,
    AuthStatus,
    AuthLogout,
    /// No tool of that name.
    Unknown,
}

/// The handler each tool name reaches.
pub open spec fn route_of(name: Seq<char>) -> ToolRoute {
    if name == "rigorix_execute"@ {
        ToolRoute::Execute
    } else if name == "rigorix_plan"@ {
        ToolRoute::Plan
    } else if name == "rigorix_run"@ {
        ToolRoute::Run
    } else if name == "rigorix_validate_plan"@ {
        ToolRoute::ValidatePlan
    } else if name == "rigorix_check_enforcement"@ {
        ToolRoute::CheckEnforcement
    } else if name == "rigorix_approve_execution"@ {
        ToolRoute::ApproveExecution
    } else if name == "rigorix_read_audit"@ {
        ToolRoute::ReadAudit
    } else if name == "rigorix_list_audits"@ {
        ToolRoute::ListAudits
    } else if name == "rigorix_audit_summary"@ {
        ToolRoute::AuditSummary
    } else if name == "rigorix_list_templates"@ {
        ToolRoute::ListTemplates
    } else if name == "rigorix_get_template"@ {
        ToolRoute::GetTemplate
    } else if name == "rigorix_create_template"@ {
        ToolRoute::CreateTemplate
    } else if name == "rigorix_validate_template"@ {
        ToolRoute::ValidateTemplate
    } else if name == "rigorix_get_usage_guide"@ {
        ToolRoute::UsageGuide
    } else if name == "rigorix_auth_login"@ {
        ToolRoute::AuthLogin
    } else if name == "rigorix_auth_status"@ {
        ToolRoute::AuthStatus
    } else if name == "rigorix_auth_logout"@ {
        ToolRoute::AuthLogout
    } else {
        ToolRoute::Unknown
    }
}

/// Each tool reaches the handler of its own name, and only that name
/// reaches it: "rigorix_plan" reaches the plan handler, "rigorix_run" the run
/// handler, and so on; any other name reaches none.
pub proof fn law_tool_routes(name: Seq<char>)
    ensures
        (route_of(name) == ToolRoute::Execute) <==> (name == "rigorix_execute"@),
        (route_of(name) == ToolRoute::Plan) <==> (name == "rigorix_plan"@),
        (route_of(name) == ToolRoute::Run) <==> (name == "rigorix_run"@),
        (route_of(name) == ToolRoute::ValidatePlan) <==> (name == "rigorix_validate_plan"@),
        (route_of(name) == ToolRoute::CheckEnforcement) <==> (name == "rigorix_check_enforcement"@),
        (route_of(name) == ToolRoute::ApproveExecution) <==> (name == "rigorix_approve_execution"@),
        (route_of(name) == ToolRoute::ReadAudit) <==> (name == "rigorix_read_audit"@),
        (route_of(name) == ToolRoute::ListAudits) <==> (name == "rigorix_list_audits"@),
        (route_of(name) == ToolRoute::AuditSummary) <==> (name == "rigorix_audit_summary"@),
        (route_of(name) == ToolRoute::ListTemplates) <==> (name == "rigorix_list_templates"@),
        (route_of(name) == ToolRoute::GetTemplate) <==> (name == "rigorix_get_template"@),
        (route_of(name) == ToolRoute::CreateTemplate) <==> (name == "rigorix_create_template"@),
        (route_of(name) == ToolRoute::ValidateTemplate) <==> (name == "rigorix_validate_template"@),
        (route_of(name) == ToolRoute::UsageGuide) <==> (name == "rigorix_get_usage_guide"@),
        (route_of(name) == ToolRoute::AuthLogin) <==> (name == "rigorix_auth_login"@),
        (route_of(name) == ToolRoute::AuthStatus) <==> (name == "rigorix_auth_status"@),
        (route_of(name) == ToolRoute::AuthLogout) <==> (name == "rigorix_auth_logout"@),
{
    reveal_strlit("rigorix_execute");
    reveal_strlit("rigorix_plan");
    reveal_strlit("rigorix_run");
    reveal_strlit("rigorix_validate_plan");
    reveal_strlit("rigorix_check_enforcement");
    reveal_strlit("rigorix_approve_execution");
    reveal_strlit("rigorix_read_audit");
    reveal_strlit("rigorix_list_audits");
    reveal_strlit("rigorix_audit_summary");
    reveal_strlit("rigorix_list_templates");
    reveal_strlit("rigorix_get_template");
    reveal_strlit("rigorix_create_template");
    reveal_strlit("rigorix_validate_template");
    reveal_strlit("rigorix_get_usage_guide");
    reveal_strlit("rigorix_auth_login");
    reveal_strlit("rigorix_auth_status");
    reveal_strlit("rigorix_auth_logout");
    if name == "rigorix_plan"@ {
        assert(name[8] != "rigorix_execute"@[8]);
    }
    if name == "rigorix_run"@ {
        assert(name[8] != "rigorix_execute"@[8]);
        assert(name[8] != "rigorix_plan"@[8]);
    }
    if name == "rigorix_validate_plan"@ {
        assert(name[8] != "rigorix_execute"@[8]);
        assert(name[8] != "rigorix_plan"@[8]);
        assert(name[8] != "rigorix_run"@[8]);
    }
    if name == "rigorix_check_enforcement"@ {
        assert(name[8] != "rigorix_execute"@[8]);
        assert(name[8] != "rigorix_plan"@[8]);
        assert(name[8] != "rigorix_run"@[8]);
        assert(name[8] != "rigorix_validate_plan"@[8]);
    }
    if name == "rigorix_approve_execution"@ {
        assert(name[8] != "rigorix_execute"@[8]);
        assert(name[8] != "rigorix_plan"@[8]);
        assert(name[8] != "rigorix_run"@[8]);
        assert(name[8] != "rigorix_validate_plan"@[8]);
        assert(name[8] != "rigorix_check_enforcement"@[8]);
    }
    if name == "rigorix_read_audit"@ {
        assert(name[8] != "rigorix_execute"@[8]);
        assert(name[8] != "rigorix_plan"@[8]);
        assert(name[9] != "rigorix_run"@[9]);
        assert(name[8] != "rigorix_validate_plan"@[8]);
        assert(name[8] != "rigorix_check_enforcement"@[8]);
        assert(name[8] != "rigorix_approve_execution"@[8]);
    }
    if name == "rigorix_list_audits"@ {
        assert(name[8] != "rigorix_execute"@[8]);
        assert(name[8] != "rigorix_plan"@[8]);
        assert(name[8] != "rigorix_run"@[8]);
        assert(name[8] != "rigorix_validate_plan"@[8]);
        assert(name[8] != "rigorix_check_enforcement"@[8]);
        assert(name[8] != "rigorix_approve_execution"@[8]);
        assert(name[8] != "rigorix_read_audit"@[8]);
    }
    if name == "rigorix_audit_summary"@ {
        assert(name[8] != "rigorix_execute"@[8]);
        assert(name[8] != "rigorix_plan"@[8]);
        assert(name[8] != "rigorix_run"@[8]);
        assert(name[8] != "rigorix_validate_plan"@[8]);
        assert(name[8] != "rigorix_check_enforcement"@[8]);
        assert(name[9] != "rigorix_approve_execution"@[9]);
        assert(name[8] != "rigorix_read_audit"@[8]);
        assert(name[8] != "rigorix_list_audits"@[8]);
    }
    if name == "rigorix_list_templates"@ {
        assert(name[8] != "rigorix_execute"@[8]);
        assert(name[8] != "rigorix_plan"@[8]);
        assert(name[8] != "rigorix_run"@[8]);
        assert(name[8] != "rigorix_validate_plan"@[8]);
        assert(name[8] != "rigorix_check_enforcement"@[8]);
        assert(name[8] != "rigorix_approve_execution"@[8]);
        assert(name[8] != "rigorix_read_audit"@[8]);
        assert(name[13] != "rigorix_list_audits"@[13]);
        assert(name[8] != "rigorix_audit_summary"@[8]);
    }
    if name == "rigorix_get_template"@ {
        assert(name[8] != "rigorix_execute"@[8]);
        assert(name[8] != "rigorix_plan"@[8]);
        assert(name[8] != "rigorix_run"@[8]);
        assert(name[8] != "rigorix_validate_plan"@[8]);
        assert(name[8] != "rigorix_check_enforcement"@[8]);
        assert(name[8] != "rigorix_approve_execution"@[8]);
        assert(name[8] != "rigorix_read_audit"@[8]);
        assert(name[8] != "rigorix_list_audits"@[8]);
        assert(name[8] != "rigorix_audit_summary"@[8]);
        assert(name[8] != "rigorix_list_templates"@[8]);
    }
    if name == "rigorix_create_template"@ {
        assert(name[8] != "rigorix_execute"@[8]);
        assert(name[8] != "rigorix_plan"@[8]);
        assert(name[8] != "rigorix_run"@[8]);
        assert(name[8] != "rigorix_validate_plan"@[8]);
        assert(name[9] != "rigorix_check_enforcement"@[9]);
        assert(name[8] != "rigorix_approve_execution"@[8]);
        assert(name[8] != "rigorix_read_audit"@[8]);
        assert(name[8] != "rigorix_list_audits"@[8]);
        assert(name[8] != "rigorix_audit_summary"@[8]);
        assert(name[8] != "rigorix_list_templates"@[8]);
        assert(name[8] != "rigorix_get_template"@[8]);
    }
    if name == "rigorix_validate_template"@ {
        assert(name[8] != "rigorix_execute"@[8]);
        assert(name[8] != "rigorix_plan"@[8]);
        assert(name[8] != "rigorix_run"@[8]);
        assert(name[17] != "rigorix_validate_plan"@[17]);
        assert(name[8] != "rigorix_check_enforcement"@[8]);
        assert(name[8] != "rigorix_approve_execution"@[8]);
        assert(name[8] != "rigorix_read_audit"@[8]);
        assert(name[8] != "rigorix_list_audits"@[8]);
        assert(name[8] != "rigorix_audit_summary"@[8]);
        assert(name[8] != "rigorix_list_templates"@[8]);
        assert(name[8] != "rigorix_get_template"@[8]);
        assert(name[8] != "rigorix_create_template"@[8]);
    }
    if name == "rigorix_get_usage_guide"@ {
        assert(name[8] != "rigorix_execute"@[8]);
        assert(name[8] != "rigorix_plan"@[8]);
        assert(name[8] != "rigorix_run"@[8]);
        assert(name[8] != "rigorix_validate_plan"@[8]);
        assert(name[8] != "rigorix_check_enforcement"@[8]);
        assert(name[8] != "rigorix_approve_execution"@[8]);
        assert(name[8] != "rigorix_read_audit"@[8]);
        assert(name[8] != "rigorix_list_audits"@[8]);
        assert(name[8] != "rigorix_audit_summary"@[8]);
        assert(name[8] != "rigorix_list_templates"@[8]);
        assert(name[12] != "rigorix_get_template"@[12]);
        assert(name[8] != "rigorix_create_template"@[8]);
        assert(name[8] != "rigorix_validate_template"@[8]);
    }
    if name == "rigorix_auth_login"@ {
        assert(name[8] != "rigorix_execute"@[8]);
        assert(name[8] != "rigorix_plan"@[8]);
        assert(name[8] != "rigorix_run"@[8]);
        assert(name[8] != "rigorix_validate_plan"@[8]);
        assert(name[8] != "rigorix_check_enforcement"@[8]);
        assert(name[9] != "rigorix_approve_execution"@[9]);
        assert(name[8] != "rigorix_read_audit"@[8]);
        assert(name[8] != "rigorix_list_audits"@[8]);
        assert(name[10] != "rigorix_audit_summary"@[10]);
        assert(name[8] != "rigorix_list_templates"@[8]);
        assert(name[8] != "rigorix_get_template"@[8]);
        assert(name[8] != "rigorix_create_template"@[8]);
        assert(name[8] != "rigorix_validate_template"@[8]);
        assert(name[8] != "rigorix_get_usage_guide"@[8]);
    }
    if name == "rigorix_auth_status"@ {
        assert(name[8] != "rigorix_execute"@[8]);
        assert(name[8] != "rigorix_plan"@[8]);
        assert(name[8] != "rigorix_run"@[8]);
        assert(name[8] != "rigorix_validate_plan"@[8]);
        assert(name[8] != "rigorix_check_enforcement"@[8]);
        assert(name[9] != "rigorix_approve_execution"@[9]);
        assert(name[8] != "rigorix_read_audit"@[8]);
        assert(name[8] != "rigorix_list_audits"@[8]);
        assert(name[10] != "rigorix_audit_summary"@[10]);
        assert(name[8] != "rigorix_list_templates"@[8]);
        assert(name[8] != "rigorix_get_template"@[8]);
        assert(name[8] != "rigorix_create_template"@[8]);
        assert(name[8] != "rigorix_validate_template"@[8]);
        assert(name[8] != "rigorix_get_usage_guide"@[8]);
        assert(name[13] != "rigorix_auth_login"@[13]);
    }
    if name == "rigorix_auth_logout"@ {
        assert(name[8] != "rigorix_execute"@[8]);
        assert(name[8] != "rigorix_plan"@[8]);
        assert(name[8] != "rigorix_run"@[8]);
        assert(name[8] != "rigorix_validate_plan"@[8]);
        assert(name[8] != "rigorix_check_enforcement"@[8]);
        assert(name[9] != "rigorix_approve_execution"@[9]);
        assert(name[8] != "rigorix_read_audit"@[8]);
        assert(name[8] != "rigorix_list_audits"@[8]);
        assert(name[10] != "rigorix_audit_summary"@[10]);
        assert(name[8] != "rigorix_list_templates"@[8]);
        assert(name[8] != "rigorix_get_template"@[8]);
        assert(name[8] != "rigorix_create_template"@[8]);
        assert(name[8] != "rigorix_validate_template"@[8]);
        assert(name[8] != "rigorix_get_usage_guide"@[8]);
        assert(name[16] != "rigorix_auth_login"@[16]);
        assert(name[13] != "rigorix_auth_status"@[13]);
    }
}

/// No two distinct tool names reach the same handler.
pub proof fn law_routes_distinct(a: Seq<char>, b: Seq<char>)
    requires
        route_of(a) == route_of(b),
        route_of(a) != ToolRoute::Unknown,
    ensures
        a == b,
{
    law_tool_routes(a);
    law_tool_routes(b);
}

/// The handler a tool name reaches.
pub fn route_tool(name: &str) -> (r: ToolRoute)
    ensures
        r == route_of(name@),
{
    if str_eq(name, "rigorix_execute") {
        ToolRoute::Execute
    } else if str_eq(name, "rigorix_plan") {
        ToolRoute::Plan
    } else if str_eq(name, "rigorix_run") {
        ToolRoute::Run
    } else if str_eq(name, "rigorix_validate_plan") {
        ToolRoute::ValidatePlan
    } else if str_eq(name, "rigorix_check_enforcement") {
        ToolRoute::CheckEnforcement
    } else if str_eq(name, "rigorix_approve_execution") {
        ToolRoute::ApproveExecution
    } else if str_eq(name, "rigorix_read_audit") {
        ToolRoute::ReadAudit
    } else if str_eq(name, "rigorix_list_audits") {
        ToolRoute::ListAudits
    } else if str_eq(name, "rigorix_audit_summary") {
        ToolRoute::AuditSummary
    } else if str_eq(name, "rigorix_list_templates") {
        ToolRoute::ListTemplates
    } else if str_eq(name, "rigorix_get_template") {
        ToolRoute::GetTemplate
    } else if str_eq(name, "rigorix_create_template") {
        ToolRoute::CreateTemplate
    } else if str_eq(name, "rigorix_validate_template") {
        ToolRoute::ValidateTemplate
    } else if str_eq(name, "rigorix_get_usage_guide") {
        ToolRoute::UsageGuide
    } else if str_eq(name, "rigorix_auth_login") {
        ToolRoute::AuthLogin
    } else if str_eq(name, "rigorix_auth_status") {
        ToolRoute::AuthStatus
    } else if str_eq(name, "rigorix_auth_logout") {
        ToolRoute::AuthLogout
    } else {
        ToolRoute::Unknown
    }
}

/// The error of a tool name that reaches no handler.
pub fn unknown_tool(name: &str) -> (r: HostError)
    ensures
        r@ == plain(ErrorType::MethodNotFound, "Unknown tool: "@ + name@),
{
    HostError::method_not_found(name)
}

/// The error of an auth tool where no identity provider is configured.
pub fn auth_tools_unconfigured() -> (r: HostError)
    ensures
        r@ == plain(
            ErrorType::NotAuthenticated,
            "auth tools are not configured — set RIGORIX_IDP_ISSUER and RIGORIX_IDP_CLIENT_ID (see .pi/architecture/modules/auth.md)"@,
        ),
{
    HostError::not_authenticated(
        String::from_str(
            "auth tools are not configured — set RIGORIX_IDP_ISSUER and RIGORIX_IDP_CLIENT_ID (see .pi/architecture/modules/auth.md)",
        ),
    )
}

/// The error of arguments that do not fit a tool's input.
pub fn invalid_input(detail: &str) -> (r: HostError)
    ensures
        r@ == plain(ErrorType::InvalidParams, "Invalid input: "@ + detail@),
{
    HostError::invalid_params(concat2("Invalid input: ", detail))
}

// ── Execute and run ─────────────────────────────────────────────────────

/// Whether an execute request must load its plan from a template: it names a
/// template and carries no plan.
pub fn needs_template(plan: &Option<PlanTemplate>, template_name: &Option<String>) -> (r: bool)
    ensures
        r == (template_name is Some && plan is None),
{
    template_name.is_some() && plan.is_none()
}

/// The error of a template that could not be loaded for a request.
pub fn template_load_error(name: &str, detail: &str) -> (r: HostError)
    ensures
        r@ == plain(ErrorType::InvalidParams, "Template '"@ + name@ + "' not found: "@ + detail@),
{
    let mut m = concat3("Template '", name, "' not found: ");
    m.append(detail);
    HostError::invalid_params(m)
}

/// An execute request goes on only with a plan.
pub fn require_plan(plan: Option<PlanTemplate>) -> (r: Result<PlanTemplate, HostError>)
    ensures
        match plan {
            Some(p) => r matches Ok(q) && q == p,
            None => r matches Err(e) && e@ == plain(
                ErrorType::InvalidParams,
                "Either 'plan' or 'template_name' must be provided"@,
            ),
        },
{
    match plan {
        Some(p) => Ok(p),
        None => Err(
            HostError::invalid_params(
                String::from_str("Either 'plan' or 'template_name' must be provided"),
            ),
        ),
    }
}

/// The template name an execution's audit record carries: the requested
/// template, else the plan's name, else "unknown".
pub fn audit_template_name(template_name: Option<&str>, plan: Option<&PlanTemplate>) -> (r: String)
    ensures
        r@ == (match template_name {
            Some(t) => t@,
            None => match plan {
                Some(p) => p.spec_name(),
                None => "unknown"@,
            },
        }),
{
    match template_name {
        Some(t) => String::from_str(t),
        None => match plan {
            Some(p) => String::from_str(p.name()),
            None => String::from_str("unknown"),
        },
    }
}

/// The parameters of a run request.
#[derive(Debug)]
pub struct RunRequest {
    /// Template to run ("" where none is given).
    pub template_name: String,
    /// Pre-generated execution id, where a valid one is given.
    pub execution_id: Option<u128>,
    /// Repository for the audit record.
    pub repository: Option<String>,
    /// Author for the audit record.
    pub author: Option<String>,
}

/// The text member `key` of `params`.
pub fn text_param(params: &Json, key: &str) -> (r: Option<String>)
    ensures
        match r {
            Some(s) => params@.str_at(key@) == Some(s@),
            None => params@.str_at(key@) is None,
        },
{
    match params.str_at(key) {
        Some(s) => Some(String::from_str(s)),
        None => None,
    }
}

/// The UUID in the text member `key` of `params`, where it holds one.
pub fn uuid_param(params: &Json, key: &str) -> (r: Option<u128>)
    ensures
        r == (match params@.str_at(key@) {
            Some(s) => uuid_parse(s),
            None => None,
        }),
{
    match params.str_at(key) {
        Some(s) => parse_uuid(s),
        None => None,
    }
}

/// Reads a run request: the template name (empty where absent), the
/// execution id where it is a valid UUID, repository and author.
pub fn run_request(params: &Json) -> (r: RunRequest)
    ensures
        r.template_name@ == (match params@.str_at("template_name"@) {
            Some(s) => s,
            None => Seq::empty(),
        }),
        r.execution_id == (match params@.str_at("execution_id"@) {
            Some(s) => uuid_parse(s),
            None => None,
        }),
        match r.repository {
            Some(s) => params@.str_at("repository"@) == Some(s@),
            None => params@.str_at("repository"@) is None,
        },
        match r.author {
            Some(s) => params@.str_at("author"@) == Some(s@),
            None => params@.str_at("author"@) is None,
        },
{
    let template_name = match params.str_at("template_name") {
        Some(s) => String::from_str(s),
        None => String::new(),
    };
    RunRequest {
        template_name,
        execution_id: uuid_param(params, "execution_id"),
        repository: text_param(params, "repository"),
        author: text_param(params, "author"),
    }
}

// ── Approval ────────────────────────────────────────────────────────────

/// An attested session identity: its subject and the issuer that attested it.
#[derive(Debug)]
pub struct IdentityClaim {
    pub subject: String,
    pub issuer: String,
}

/// The texts of the string members of an array, in order.
pub open spec fn string_items(items: Seq<JsonV>) -> Seq<Seq<char>>
    decreases items.len(),
{
    if items.len() == 0 {
        Seq::empty()
    } else {
        string_items(items.drop_last()) + match items.last() {
            JsonV::Str(s) => seq![s],
            _ => Seq::empty(),
        }
    }
}

/// The UUID in the `execution_id` member of a request, where it holds one.
pub open spec fn id_param(params: JsonV) -> Option<u128> {
    match params.str_at("execution_id"@) {
        Some(s) => uuid_parse(s),
        None => None,
    }
}

/// Reads an approval request: a valid execution id, and a non-empty list of
/// step names (the string items of `step_names`).
pub fn approval_request(params: &Json) -> (r: Result<(u128, Vec<String>), HostError>)
    ensures
        id_param(params@) is None ==> (r matches Err(e) && e@ == plain(
            ErrorType::InvalidParams,
            "Invalid or missing execution_id"@,
        )),
        id_param(params@) is Some ==> match params@.get("step_names"@) {
            Some(JsonV::Array(items)) => if string_items(items).len() == 0 {
                r matches Err(e) && e@ == plain(
                    ErrorType::InvalidParams,
                    "step_names must contain at least one step name"@,
                )
            } else {
                r matches Ok(p) && Some(p.0) == id_param(params@) && p.1@.map_values(
                    |s: String| s@,
                ) == string_items(items)
            },
            _ => r matches Err(e) && e@ == plain(ErrorType::InvalidParams, "Missing step_names array"@),
        },
{
    let id = match uuid_param(params, "execution_id") {
        Some(id) => id,
        None => {
            return Err(HostError::invalid_params(String::from_str("Invalid or missing execution_id")));
        },
    };
    let items = match params.get("step_names") {
        Some(j) => match j.as_array() {
            Some(items) => items,
            None => {
                return Err(HostError::invalid_params(String::from_str("Missing step_names array")));
            },
        },
        None => {
            return Err(HostError::invalid_params(String::from_str("Missing step_names array")));
        },
    };
    let ghost iv = crate::json::array_view(items@);
    proof {
        crate::json::lemma_array_view(items@);
    }
    let mut names: Vec<String> = Vec::new();
    let mut i: usize = 0;
    while i < items.len()
        invariant
            iv == crate::json::array_view(items@),
            iv.len() == items@.len(),
            forall|k: int| 0 <= k < items@.len() ==> #[trigger] iv[k] == items@[k]@,
            i <= items.len(),
            names@.map_values(|s: String| s@) == string_items(iv.subrange(0, i as int)),
        decreases items.len() - i,
    {
        assert(iv.subrange(0, i + 1).drop_last() =~= iv.subrange(0, i as int));
        match items[i].as_str() {
            Some(s) => {
                names.push(String::from_str(s));
            },
            None => {},
        }
        assert(names@.map_values(|s: String| s@) =~= string_items(iv.subrange(0, i + 1)));
        i = i + 1;
    }
    assert(iv.subrange(0, iv.len() as int) =~= iv);
    if names.len() == 0 {
        return Err(
            HostError::invalid_params(
                String::from_str("step_names must contain at least one step name"),
            ),
        );
    }
    Ok((id, names))
}

/// The identity an approval records. Without an identity provider, what the
/// caller names passes through (none where it names nothing). With one, an
/// approval needs an attested session, and then binds to the session's
/// subject and a reference derived from its claim; the caller's approver is
/// ignored and its authority stays display-only.
pub open spec fn approval_identity_of(
    params: JsonV,
    claim: Option<(Seq<char>, Seq<char>)>,
    auth_configured: bool,
) -> Result<Option<(Option<Seq<char>>, Option<Seq<char>>, Option<Seq<char>>)>, Seq<char>> {
    if !auth_configured {
        let a = params.str_at("approver_id"@);
        let b = params.str_at("authority"@);
        let c = params.str_at("token_claims_ref"@);
        if a is Some || b is Some || c is Some {
            Ok(Some((a, b, c)))
        } else {
            Ok(None)
        }
    } else {
        match claim {
            None => Err("approval requires an attested identity — run rigorix_auth_login first"@),
            Some((subject, issuer)) => Ok(
                Some(
                    (
                        Some(subject),
                        params.str_at("authority"@),
                        Some("oidc-device:"@ + issuer + "#"@ + subject),
                    ),
                ),
            ),
        }
    }
}

/// The value of an optional text.
pub open spec fn opt_view(s: Option<String>) -> Option<Seq<char>> {
    match s {
        Some(t) => Some(t@),
        None => None,
    }
}

/// The value of an approval identity.
pub open spec fn identity_view(i: ApprovalIdentity) -> (
    Option<Seq<char>>,
    Option<Seq<char>>,
    Option<Seq<char>>,
) {
    (opt_view(i.approver_id), opt_view(i.authority), opt_view(i.token_claims_ref))
}

/// Resolves the identity an approval records.
pub fn resolve_approval_identity(
    params: &Json,
    claim: Option<&IdentityClaim>,
    auth_configured: bool,
) -> (r: Result<Option<ApprovalIdentity>, String>)
    ensures
        match approval_identity_of(
            params@,
            match claim {
                Some(c) => Some((c.subject@, c.issuer@)),
                None => None,
            },
            auth_configured,
        ) {
            Ok(Some(v)) => r matches Ok(Some(i)) && identity_view(i) == v,
            Ok(None) => r matches Ok(None),
            Err(m) => r matches Err(e) && e@ == m,
        },
{
    if !auth_configured {
        let identity = ApprovalIdentity {
            approver_id: text_param(params, "approver_id"),
            authority: text_param(params, "authority"),
            token_claims_ref: text_param(params, "token_claims_ref"),
        };
        if identity.approver_id.is_some() || identity.authority.is_some()
            || identity.token_claims_ref.is_some() {
            return Ok(Some(identity));
        }
        return Ok(None);
    }
    match claim {
        None => Err(
            String::from_str("approval requires an attested identity — run rigorix_auth_login first"),
        ),
        Some(c) => {
            let mut reference = concat3("oidc-device:", c.issuer.as_str(), "#");
            reference.append(c.subject.as_str());
            Ok(
                Some(
                    ApprovalIdentity {
                        approver_id: Some(c.subject.clone()),
                        authority: text_param(params, "authority"),
                        token_claims_ref: Some(reference),
                    },
                ),
            )
        },
    }
}

/// The engine's state of an execution after an approval resumed it.
#[derive(Debug, Clone, Copy, PartialEq, Eq)]
pub struct FinalState {
    pub is_complete: bool,
    pub completed_count: u64,
    pub failed_count: u64,
    pub total_nodes: u64,
}

/// The status of a resumed execution: completed when complete without
/// failures, failed with any failure, still pending otherwise.
pub open spec fn resumed_status(is_complete: bool, failed_count: u64) -> Seq<char> {
    if is_complete && failed_count == 0 {
        "Completed"@
    } else if failed_count > 0 {
        "Failed"@
    } else {
        "PendingApproval"@
    }
}

/// A resumed execution with any failed step is reported "Failed", complete
/// or not; one without failures is "Completed" exactly when the engine
/// marks it complete, and "PendingApproval" otherwise.
pub proof fn law_resumed_status(is_complete: bool, failed_count: u64)
    ensures
        failed_count > 0 ==> resumed_status(is_complete, failed_count) == "Failed"@,
        failed_count == 0 && is_complete ==> resumed_status(is_complete, failed_count) == "Completed"@,
        failed_count == 0 && !is_complete ==> resumed_status(is_complete, failed_count)
            == "PendingApproval"@,
{
    reveal_strlit("Failed");
    reveal_strlit("Completed");
    reveal_strlit("PendingApproval");
}

/// The status of a resumed execution.
pub fn refreshed_status(is_complete: bool, failed_count: u64) -> (r: &'static str)
    ensures
        r@ == resumed_status(is_complete, failed_count),
{
    if is_complete && failed_count == 0 {
        "Completed"
    } else if failed_count > 0 {
        "Failed"
    } else {
        "PendingApproval"
    }
}

/// The message of an approval: resumed, paused with nothing left pending, or
/// recorded with more steps pending.
pub open spec fn approval_message(resumed: bool, still_pending: Seq<String>) -> Seq<char> {
    if resumed {
        "Approved — execution resumed"@
    } else if still_pending.len() == 0 {
        "Approved — execution paused"@
    } else {
        "Approval recorded — more steps still pending"@
    }
}

/// The document of a resumed execution's final state.
pub open spec fn final_state_document(s: Option<FinalState>) -> JsonV {
    match s {
        Some(s) => JsonV::Object(
            seq![
                ("is_complete"@, JsonV::Bool(s.is_complete)),
                ("completed_count"@, JsonV::Number(JsonNumberV::UInt(s.completed_count))),
                ("failed_count"@, JsonV::Number(JsonNumberV::UInt(s.failed_count))),
                ("total_nodes"@, JsonV::Number(JsonNumberV::UInt(s.total_nodes))),
            ],
        ),
        None => JsonV::Null,
    }
}

/// The document answering an approval.
pub open spec fn approval_document(a: ApprovalResult, final_state: Option<FinalState>) -> JsonV {
    JsonV::Object(
        seq![
            ("execution_id"@, JsonV::Str(uuid_text(a.spec_execution_id()))),
            ("approved_steps"@, JsonV::Array(str_values(a.spec_approved_steps()))),
            ("not_found"@, JsonV::Array(str_values(a.spec_not_found()))),
            ("still_pending"@, JsonV::Array(str_values(a.spec_still_pending()))),
            ("resumed"@, JsonV::Bool(a.spec_resumed())),
            ("message"@, JsonV::Str(approval_message(a.spec_resumed(), a.spec_still_pending()))),
            ("final_state"@, final_state_document(final_state)),
        ],
    )
}

/// The document answering an approval.
pub fn approval_json(a: &ApprovalResult, final_state: Option<FinalState>) -> (r: Json)
    ensures
        r@ == approval_document(*a, final_state),
{
    let message = if a.resumed() {
        "Approved — execution resumed"
    } else if a.still_pending().len() == 0 {
        "Approved — execution paused"
    } else {
        "Approval recorded — more steps still pending"
    };
    let fs = match final_state {
        Some(s) => {
            let e = vec![
                entry("is_complete", Json::Bool(s.is_complete)),
                entry("completed_count", Json::uint(s.completed_count)),
                entry("failed_count", Json::uint(s.failed_count)),
                entry("total_nodes", Json::uint(s.total_nodes)),
            ];
            proof {
                lemma_entries_view(e@);
                assert(entries_view(e@) =~= final_state_document(final_state)->Object_0);
            }
            Json::object(e)
        },
        None => Json::Null,
    };
    let entries = vec![
        entry("execution_id", Json::Str(format_uuid(a.execution_id()))),
        entry("approved_steps", Json::strings(a.approved_steps())),
        entry("not_found", Json::strings(a.not_found())),
        entry("still_pending", Json::strings(a.still_pending())),
        entry("resumed", Json::Bool(a.resumed())),
        entry("message", Json::string(message)),
        entry("final_state", fs),
    ];
    proof {
        lemma_entries_view(entries@);
        assert(entries_view(entries@) =~= approval_document(*a, final_state)->Object_0);
    }
    Json::object(entries)
}

// ── Reading a run's answer back ─────────────────────────────────────────

/// The execution status a run's answer names; an unknown status counts as
/// completed.
pub open spec fn status_named(s: Option<Seq<char>>) -> ExecutionStatus {
    match s {
        Some(t) => if t == "Completed"@ {
            ExecutionStatus::Completed
        } else if t == "Failed"@ {
            ExecutionStatus::Failed
        } else if t == "PartialFailure"@ || t == "PartialFailed"@ {
            ExecutionStatus::PartialFailed
        } else if t == "Cancelled"@ {
            ExecutionStatus::Cancelled
        } else if t == "PendingApproval"@ {
            ExecutionStatus::PendingApproval
        } else {
            ExecutionStatus::Completed
        },
        None => ExecutionStatus::Completed,
    }
}

/// The step a run's answer reports: its name ("?" where absent), success
/// (false where absent), error, output (`null` where absent) and duration
/// (0 where absent).
pub open spec fn reported_step(s: JsonV) -> StepResultV {
    StepResultV {
        step_name: match s.str_at("step_name"@) {
            Some(n) => n,
            None => "?"@,
        },
        success: match s.get("success"@) {
            Some(JsonV::Bool(b)) => b,
            _ => false,
        },
        error: s.str_at("error"@),
        output: match s.get("output"@) {
            Some(o) => o,
            None => JsonV::Null,
        },
        duration_ms: match s.get("duration_ms"@) {
            Some(d) => match d.as_u64() {
                Some(n) => n,
                None => 0,
            },
            None => 0,
        },
    }
}

/// What an audit record takes from a run's answer.
#[derive(Debug)]
pub struct RunDigest {
    /// The run's status.
    pub status: ExecutionStatus,
    /// The run's duration (0 where absent).
    pub duration_ms: u64,
    /// The reported steps (none where the answer lists none).
    pub steps: Vec<StepResult>,
}

fn reported_step_of(s: &Json) -> (r: StepResult)
    ensures
        r@ == reported_step(s@),
{
    let name = match s.str_at("step_name") {
        Some(n) => String::from_str(n),
        None => String::from_str("?"),
    };
    let success = match s.get("success") {
        Some(b) => match b.as_bool() {
            Some(v) => v,
            None => false,
        },
        None => false,
    };
    let error = match s.str_at("error") {
        Some(e) => Some(String::from_str(e)),
        None => None,
    };
    let output = match s.get("output") {
        Some(o) => o.duplicate(),
        None => Json::Null,
    };
    let duration = match s.get("duration_ms") {
        Some(d) => match d.as_u64() {
            Some(n) => n,
            None => 0,
        },
        None => 0,
    };
    StepResult::new(name, success, error, output, duration)
}

/// Reads back what an audit record takes from a run's answer.
pub fn run_digest(result: &Json) -> (r: RunDigest)
    ensures
        r.status == status_named(result@.str_at("status"@)),
        r.duration_ms == (match result@.get("duration_ms"@) {
            Some(d) => match d.as_u64() {
                Some(n) => n,
                None => 0,
            },
            None => 0,
        }),
        r.steps@.map_values(|s: StepResult| s@) == (match result@.get("steps"@) {
            Some(JsonV::Array(items)) => items.map_values(|s: JsonV| reported_step(s)),
            _ => Seq::empty(),
        }),
{
    let status = match result.str_at("status") {
        Some(t) => if str_eq(t, "Completed") {
            ExecutionStatus::Completed
        } else if str_eq(t, "Failed") {
            ExecutionStatus::Failed
        } else if str_eq(t, "PartialFailure") || str_eq(t, "PartialFailed") {
            ExecutionStatus::PartialFailed
        } else if str_eq(t, "Cancelled") {
            ExecutionStatus::Cancelled
        } else if str_eq(t, "PendingApproval") {
            ExecutionStatus::PendingApproval
        } else {
            ExecutionStatus::Completed
        },
        None => ExecutionStatus::Completed,
    };
    let duration_ms = match result.get("duration_ms") {
        Some(d) => match d.as_u64() {
            Some(n) => n,
            None => 0,
        },
        None => 0,
    };
    let mut steps: Vec<StepResult> = Vec::new();
    match result.get("steps") {
        Some(j) => match j.as_array() {
            Some(items) => {
                proof {
                    crate::json::lemma_array_view(items@);
                }
                let mut i: usize = 0;
                while i < items.len()
                    invariant
                        i <= items.len(),
                        steps.len() == i,
                        forall|k: int|
                            0 <= k < i ==> #[trigger] steps@[k]@ == reported_step(items@[k]@),
                    decreases items.len() - i,
                {
                    steps.push(reported_step_of(&items[i]));
                    i = i + 1;
                }
                proof {
                    assert(steps@.map_values(|s: StepResult| s@) =~= crate::json::array_view(
                        items@,
                    ).map_values(|s: JsonV| reported_step(s)));
                }
            },
            None => {},
        },
        None => {},
    }
    proof {
        if !(result@.get("steps"@) matches Some(JsonV::Array(_))) {
            assert(steps@.map_values(|s: StepResult| s@) =~= Seq::<StepResultV>::empty());
        }
    }
    RunDigest { status, duration_ms, steps }
}

// ── Resources ───────────────────────────────────────────────────────────

/// What a resource URI names.
#[derive(Debug)]
pub enum ResourceTarget {
    /// The audit record of an execution.
    Audit(String),
    /// A stored template.
    Template(String),
}

/// Whether a path segment names one thing: non-empty, without `/`.
pub open spec fn single_segment(s: Seq<char>) -> bool {
    s.len() > 0 && crate::text::count_of(s, '/') == 0
}

/// What a resource URI names, or why it names nothing: the scheme must be
/// `rigorix`, the path `audit/<id>` or `templates/<name>` with a single
/// segment after it.
pub open spec fn resource_of(uri: Seq<char>) -> Result<(bool, Seq<char>), Seq<char>> {
    match first_infix(uri, "://"@) {
        None => Err("unsupported URI scheme: "@ + uri),
        Some(k) => {
            let scheme = uri.subrange(0, k);
            let rest = uri.skip(k + 3);
            if scheme != "rigorix"@ {
                Err("unsupported URI scheme: "@ + scheme)
            } else if has_prefix(rest, "audit/"@) {
                let id = rest.skip(6);
                if single_segment(id) {
                    Ok((true, id))
                } else {
                    Err("malformed audit resource URI: "@ + uri)
                }
            } else if has_prefix(rest, "templates/"@) {
                let name = rest.skip(10);
                if single_segment(name) {
                    Ok((false, name))
                } else {
                    Err("malformed template resource URI: "@ + uri)
                }
            } else {
                Err("unknown Rigorix resource: "@ + uri)
            }
        },
    }
}

/// The resource URIs the gateway advertises, `rigorix://templates/{name}`
/// and `rigorix://audit/{id}`, name the template or the execution put in
/// place of the placeholder, whenever that is a single path segment.
pub proof fn law_advertised_uris_resolve(segment: Seq<char>)
    requires
        single_segment(segment),
    ensures
        resource_of("rigorix://templates/"@ + segment) == Ok::<(bool, Seq<char>), Seq<char>>((false, segment)),
        resource_of("rigorix://audit/"@ + segment) == Ok::<(bool, Seq<char>), Seq<char>>((true, segment)),
{
    reveal_strlit("rigorix://templates/");
    reveal_strlit("rigorix://audit/");
    reveal_strlit("://");
    reveal_strlit("rigorix");
    reveal_strlit("audit/");
    reveal_strlit("templates/");
    let sep = "://"@;
    let t = "rigorix://templates/"@ + segment;
    assert(t.subrange(7, 10) =~= sep);
    assert forall|j: int| 0 <= j < 7 implies #[trigger] t.subrange(j, j + 3) != sep by {
        assert(t.subrange(j, j + 3)[0] == t[j]);
        assert(t[j] != ':');
    }
    crate::text::lemma_first_infix(t, sep, 7);
    assert(t.subrange(0, 7) =~= "rigorix"@);
    let trest = t.skip(10);
    assert(trest.subrange(0, 6)[0] == 't');
    assert(trest.subrange(0, 6) != "audit/"@);
    assert(trest.subrange(0, 10) =~= "templates/"@);
    assert(trest.skip(10) =~= segment);
    let a = "rigorix://audit/"@ + segment;
    assert(a.subrange(7, 10) =~= sep);
    assert forall|j: int| 0 <= j < 7 implies #[trigger] a.subrange(j, j + 3) != sep by {
        assert(a.subrange(j, j + 3)[0] == a[j]);
        assert(a[j] != ':');
    }
    crate::text::lemma_first_infix(a, sep, 7);
    assert(a.subrange(0, 7) =~= "rigorix"@);
    let arest = a.skip(10);
    assert(arest.subrange(0, 6) =~= "audit/"@);
    assert(arest.skip(6) =~= segment);
}

/// Resolves what a resource URI names.
pub fn resource_target(uri: &str) -> (r: Result<ResourceTarget, String>)
    ensures
        match resource_of(uri@) {
            Ok((true, id)) => r matches Ok(ResourceTarget::Audit(t)) && t@ == id,
            Ok((false, name)) => r matches Ok(ResourceTarget::Template(t)) && t@ == name,
            Err(m) => r matches Err(e) && e@ == m,
        },
{
    proof {
        reveal_strlit("://");
        reveal_strlit("audit/");
        reveal_strlit("templates/");
    }
    let u = chars_of(uri);
    let k = match find_text(&u, "://") {
        None => {
            return Err(concat2("unsupported URI scheme: ", uri));
        },
        Some(k) => k,
    };
    let scheme = chars_to(&u, k);
    let rest = chars_from(&u, k + 3);
    let scheme_text = string_from_chars(scheme.as_slice());
    if !str_eq(scheme_text.as_str(), "rigorix") {
        return Err(concat2("unsupported URI scheme: ", scheme_text.as_str()));
    }
    if chars_have_prefix(&rest, "audit/") {
        let id = chars_from(&rest, 6);
        if id.len() == 0 || count_char(&id, '/') != 0 {
            return Err(concat2("malformed audit resource URI: ", uri));
        }
        return Ok(ResourceTarget::Audit(string_from_chars(id.as_slice())));
    }
    if chars_have_prefix(&rest, "templates/") {
        let name = chars_from(&rest, 10);
        if name.len() == 0 || count_char(&name, '/') != 0 {
            return Err(concat2("malformed template resource URI: ", uri));
        }
        return Ok(ResourceTarget::Template(string_from_chars(name.as_slice())));
    }
    Err(concat2("unknown Rigorix resource: ", uri))
}

// ── Configuration ───────────────────────────────────────────────────────

/// How much of the file system the engine's tools may touch.
#[derive(Debug, Clone, Copy, PartialEq, Eq, Structural)]
pub enum PermissionMode {
    ReadOnly,
    WorkspaceWrite,
    DangerousFullAccess,
}

/// The permission mode a configured text names, ignoring case and
/// surrounding white space; anything unknown is workspace-write.
pub open spec fn mode_named(raw: Seq<char>) -> PermissionMode {
    let t = lowercase(trimmed(raw));
    if t == "read_only"@ {
        PermissionMode::ReadOnly
    } else if t == "dangerous_full_access"@ || t == "danger_full_access"@ {
        PermissionMode::DangerousFullAccess
    } else {
        PermissionMode::WorkspaceWrite
    }
}

/// The engine's permission mode: the configured one, else the environment's,
/// else workspace-write.
pub fn resolve_mcp_permission_mode(configured: Option<&str>, from_env: Option<&str>) -> (r:
    PermissionMode)
    ensures
        r == mode_named(
            match configured {
                Some(c) => c@,
                None => match from_env {
                    Some(e) => e@,
                    None => "workspace_write"@,
                },
            },
        ),
{
    let raw = match configured {
        Some(c) => c,
        None => match from_env {
            Some(e) => e,
            None => "workspace_write",
        },
    };
    let cs = chars_of(raw);
    let t = trim_chars(&cs);
    let ts = string_from_chars(t.as_slice());
    let lower = to_lowercase(ts.as_str());
    if str_eq(lower.as_str(), "read_only") {
        PermissionMode::ReadOnly
    } else if str_eq(lower.as_str(), "dangerous_full_access") || str_eq(
        lower.as_str(),
        "danger_full_access",
    ) {
        PermissionMode::DangerousFullAccess
    } else {
        PermissionMode::WorkspaceWrite
    }
}

/// The audit signing key: the configured one, else the environment's, and
/// none where that is empty.
pub fn choose_hmac_key(configured: Option<String>, from_env: Option<String>) -> (r: Option<String>)
    ensures
        match r {
            Some(k) => k@.len() > 0 && k@ == (match configured {
                Some(c) => c@,
                None => from_env->0@,
            }),
            None => match configured {
                Some(c) => c@.len() == 0,
                None => match from_env {
                    Some(e) => e@.len() == 0,
                    None => true,
                },
            },
        },
{
    let key = match configured {
        Some(c) => Some(c),
        None => from_env,
    };
    match key {
        Some(k) => if k.as_str().is_empty() {
            None
        } else {
            Some(k)
        },
        None => None,
    }
}

} // verus!
