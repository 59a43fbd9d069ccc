use rigorix_mcp::execution_tools::error::{EngineFacadeError, HandlerError};
use rigorix_mcp::execution_tools::value::{
    ApprovalResult, ExecutionStatus, PlanTemplate as ExecPlan, StepDefinition as ExecStep,
};
use rigorix_mcp::host::error::{ErrorType, HostError};
use rigorix_mcp::host::tools::{
    approval_json, approval_request, audit_template_name, choose_hmac_key, needs_template,
    refreshed_status, require_plan, template_load_error,
    resolve_approval_identity, resolve_mcp_permission_mode, resource_target, route_tool,
    run_digest, run_request, FinalState, IdentityClaim, PermissionMode, ResourceTarget, ToolRoute,
};
use rigorix_mcp::json::{Json, JsonNumber};
use rigorix_mcp::template_tools::error::{HandlerError as TemplateHandlerError, TemplateError};

fn obj(entries: Vec<(&str, Json)>) -> Json {
    Json::Object(entries.into_iter().map(|(k, v)| (k.to_string(), v)).collect())
}

fn text(s: &str) -> Json {
    Json::Str(s.to_string())
}

fn code_of(rpc: &Json) -> Option<i64> {
    match rpc.get("code") {
        Some(Json::Number(JsonNumber::Int(n))) => Some(*n),
        Some(Json::Number(JsonNumber::UInt(n))) => Some(*n as i64),
        _ => None,
    }
}

fn claim(subject: &str) -> IdentityClaim {
    IdentityClaim { subject: subject.to_string(), issuer: "http://idp/realms/rigorix".to_string() }
}

fn params(approver: Option<&str>) -> Json {
    match approver {
        Some(a) => obj(vec![("approver_id", text(a))]),
        None => obj(vec![]),
    }
}

#[test]
fn denied_by_sequence_carries_rule_id_and_step() {
    let error = EngineFacadeError::SequencePolicyDenied {
        rule_id: "no-repeat-beneficiary-payout".to_string(),
        step: "pay_b".to_string(),
    };
    let host = HostError::from_engine_facade(&error);
    assert_eq!(host.error_type, ErrorType::DeniedBySequence);
    assert_eq!(host.rule_id.as_deref(), Some("no-repeat-beneficiary-payout"));
    assert_eq!(host.step.as_deref(), Some("pay_b"));

    let rpc = host.to_jsonrpc_error();
    assert_eq!(code_of(&rpc), Some(-32010));
    let data = rpc.get("data").unwrap();
    assert_eq!(data.str_at("type"), Some("denied_by_sequence"));
    assert_eq!(data.str_at("rule_id"), Some("no-repeat-beneficiary-payout"));
    assert_eq!(data.str_at("step"), Some("pay_b"));
}

#[test]
fn identity_required_maps_to_taxonomy() {
    let error = EngineFacadeError::IdentityRequired {
        step: "pay".to_string(),
        status: "unauthenticated".to_string(),
    };
    let host = HostError::from_engine_facade(&error);
    assert_eq!(host.error_type, ErrorType::IdentityRequired);
    let rpc = host.to_jsonrpc_error();
    assert_eq!(code_of(&rpc), Some(-32012));
    let data = rpc.get("data").unwrap();
    assert_eq!(data.str_at("type"), Some("identity_required"));
    assert_eq!(data.get("details").and_then(|d| d.str_at("step")), Some("pay"));
}

#[test]
fn requirement_unmet_is_policy_violation_with_redacted_details() {
    let error = EngineFacadeError::RequirementUnmet {
        requirement_id: "payout-guard".to_string(),
        step: "pay".to_string(),
        unmet: vec!["/effect_key".to_string()],
    };
    let host = HostError::from_engine_facade(&error);
    assert_eq!(host.error_type, ErrorType::PolicyViolation);
    let rpc = host.to_jsonrpc_error();
    assert_eq!(code_of(&rpc), Some(-32010));
    let details = rpc.get("data").and_then(|d| d.get("details")).unwrap();
    assert_eq!(details.str_at("requirement_id"), Some("payout-guard"));
}

#[test]
fn distinct_engine_variants_map_to_distinct_types() {
    assert_eq!(
        HostError::from_engine_facade(&EngineFacadeError::BudgetExceeded {
            tool_calls_remaining: 0,
            tokens_remaining: 0
        })
        .error_type,
        ErrorType::BudgetExhausted
    );
    assert_eq!(
        HostError::from_engine_facade(&EngineFacadeError::Timeout {
            operation: "run".to_string(),
            duration_secs: 1
        })
        .error_type,
        ErrorType::Timeout
    );
    assert_eq!(
        HostError::from_engine_facade(&EngineFacadeError::Internal("x".to_string())).error_type,
        ErrorType::InternalError
    );
}

#[test]
fn handler_engine_errors_map_as_engine_errors() {
    let inner = EngineFacadeError::EngineError("down".into());
    let via_handler = HostError::from_handler(&HandlerError::EngineError(inner.clone()));
    let direct = HostError::from_engine_facade(&inner);
    assert_eq!(via_handler.error_type, direct.error_type);
    assert_eq!(via_handler.message, direct.message);
    assert_eq!(via_handler.error_type, ErrorType::ApiError);
    assert!(via_handler.retryable);
    let invalid = HostError::from_handler(&HandlerError::InvalidArguments("a".into()));
    assert_eq!(invalid.error_type, ErrorType::InvalidParams);
    assert_eq!(invalid.message, "Invalid arguments: a");
    assert!(!invalid.retryable);
    let template = HostError::from_template_handler(&TemplateHandlerError::TemplateError(
        TemplateError::AlreadyExists("t".into()),
    ));
    assert_eq!(template.error_type, ErrorType::InvalidParams);
    let repo = HostError::from_template_handler(&TemplateHandlerError::TemplateError(
        TemplateError::RepositoryError("io".into()),
    ));
    assert_eq!(repo.error_type, ErrorType::InternalError);
}

#[test]
fn error_types_have_codes_and_names() {
    assert_eq!(ErrorType::ParseError.code(), -32700);
    assert_eq!(ErrorType::NotEnabled.as_str(), "not_enabled");
    assert!(ErrorType::Timeout.retryable());
    assert!(!ErrorType::PolicyViolation.retryable());
    let e = HostError::method_not_found("rigorix_nope");
    assert_eq!(e.message, "Unknown tool: rigorix_nope");
    let rpc = e.to_jsonrpc_error();
    assert_eq!(code_of(&rpc), Some(-32601));
    assert_eq!(rpc.get("data").and_then(|d| d.get("retryable")).and_then(|b| b.as_bool()), Some(false));
    assert_eq!(rpc.get("data").and_then(|d| d.get("rule_id")), None);
}

#[test]
fn no_auth_legacy_passthrough() {
    let p = params(Some("organizer@corp.demo"));
    let id = resolve_approval_identity(&p, None, false).unwrap();
    assert_eq!(id.unwrap().approver_id.as_deref(), Some("organizer@corp.demo"));
    assert!(resolve_approval_identity(&params(None), None, false).unwrap().is_none());
}

#[test]
fn auth_configured_without_session_refuses() {
    let p = params(Some("organizer@corp.demo"));
    let err = resolve_approval_identity(&p, None, true).unwrap_err();
    assert!(err.contains("rigorix_auth_login"), "unexpected: {err}");
}

#[test]
fn auth_binds_subject_and_ignores_caller_approver() {
    let p = params(Some("organizer@corp.demo"));
    let id = resolve_approval_identity(&p, Some(&claim("sub-123")), true).unwrap().expect("bound");
    assert_eq!(id.approver_id.as_deref(), Some("sub-123"), "server truth wins");
    let ref_ = id.token_claims_ref.unwrap();
    assert!(ref_.contains("http://idp/realms/rigorix") && ref_.contains("sub-123"), "verified ref: {ref_}");
    assert_eq!(ref_, "oidc-device:http://idp/realms/rigorix#sub-123");
}

#[test]
fn auth_authority_stays_display_only() {
    let p = obj(vec![("approver_id", text("organizer@corp.demo")), ("authority", text("device-flow:kc"))]);
    let id = resolve_approval_identity(&p, Some(&claim("sub-1")), true).unwrap().unwrap();
    assert_eq!(id.authority.as_deref(), Some("device-flow:kc"));
    assert_eq!(id.approver_id.as_deref(), Some("sub-1"));
}

#[test]
fn tool_names_route_to_handlers() {
    assert_eq!(route_tool("rigorix_execute"), ToolRoute::Execute);
    assert_eq!(route_tool("rigorix_approve_execution"), ToolRoute::ApproveExecution);
    assert_eq!(route_tool("rigorix_auth_logout"), ToolRoute::AuthLogout);
    assert_eq!(route_tool("rigorix_get_usage_guide"), ToolRoute::UsageGuide);
    assert_eq!(route_tool("something_else"), ToolRoute::Unknown);
}

#[test]
fn approval_requests_are_read() {
    let id = "00000000-0000-0000-0000-000000000001";
    let ok = approval_request(&obj(vec![
        ("execution_id", text(id)),
        ("step_names", Json::Array(vec![text("a"), Json::Bool(true), text("b")])),
    ]))
    .unwrap();
    assert_eq!(ok.0, 1);
    assert_eq!(ok.1, vec!["a".to_string(), "b".to_string()]);
    let err = approval_request(&obj(vec![("execution_id", text("nope"))])).unwrap_err();
    assert_eq!(err.message, "Invalid or missing execution_id");
    let err = approval_request(&obj(vec![("execution_id", text(id))])).unwrap_err();
    assert_eq!(err.message, "Missing step_names array");
    let err = approval_request(&obj(vec![
        ("execution_id", text(id)),
        ("step_names", Json::Array(vec![Json::Null])),
    ]))
    .unwrap_err();
    assert_eq!(err.message, "step_names must contain at least one step name");
}

#[test]
fn approval_answers_say_what_happened() {
    let resumed = ApprovalResult::new(0, vec!["a".into()], vec![], vec![], true);
    let doc = approval_json(&resumed, Some(FinalState { is_complete: true, completed_count: 2, failed_count: 0, total_nodes: 2 }));
    assert_eq!(doc.str_at("message"), Some("Approved — execution resumed"));
    assert_eq!(doc.get("final_state").and_then(|f| f.get("total_nodes")).and_then(|n| n.as_u64()), Some(2));
    let pending = ApprovalResult::new(0, vec!["a".into()], vec![], vec!["b".into()], false);
    assert_eq!(approval_json(&pending, None).str_at("message"), Some("Approval recorded — more steps still pending"));
    let paused = ApprovalResult::new(0, vec![], vec!["x".into()], vec![], false);
    let doc = approval_json(&paused, None);
    assert_eq!(doc.str_at("message"), Some("Approved — execution paused"));
    assert_eq!(doc.get("final_state"), Some(&Json::Null));
    assert_eq!(refreshed_status(true, 0), "Completed");
    assert_eq!(refreshed_status(true, 1), "Failed");
    assert_eq!(refreshed_status(false, 0), "PendingApproval");
}

#[test]
fn resource_uris_name_their_targets() {
    assert!(matches!(resource_target("rigorix://audit/abc"), Ok(ResourceTarget::Audit(id)) if id == "abc"));
    assert!(matches!(resource_target("rigorix://templates/t1"), Ok(ResourceTarget::Template(n)) if n == "t1"));
    assert_eq!(resource_target("http://x").err(), Some("unsupported URI scheme: http".into()));
    assert_eq!(resource_target("no-scheme").err(), Some("unsupported URI scheme: no-scheme".into()));
    assert_eq!(
        resource_target("rigorix://audit/a/b").err(),
        Some("malformed audit resource URI: rigorix://audit/a/b".into())
    );
    assert_eq!(
        resource_target("rigorix://templates/").err(),
        Some("malformed template resource URI: rigorix://templates/".into())
    );
    assert_eq!(resource_target("rigorix://other").err(), Some("unknown Rigorix resource: rigorix://other".into()));
}

#[test]
fn runs_are_read_back_for_their_audit_record() {
    let result = obj(vec![
        ("status", text("PartialFailure")),
        ("duration_ms", Json::Number(JsonNumber::UInt(42))),
        (
            "steps",
            Json::Array(vec![
                obj(vec![("step_name", text("s1")), ("success", Json::Bool(true)), ("duration_ms", Json::Number(JsonNumber::UInt(3)))]),
                obj(vec![]),
            ]),
        ),
    ]);
    let digest = run_digest(&result);
    assert_eq!(digest.status, ExecutionStatus::PartialFailed);
    assert_eq!(digest.duration_ms, 42);
    assert_eq!(digest.steps.len(), 2);
    assert_eq!(digest.steps[0].step_name(), "s1");
    assert!(digest.steps[0].is_success());
    assert_eq!(digest.steps[1].step_name(), "?");
    assert!(!digest.steps[1].is_success());
    let unknown = run_digest(&obj(vec![("status", text("Weird"))]));
    assert_eq!(unknown.status, ExecutionStatus::Completed);
    assert_eq!(unknown.steps.len(), 0);

    let req = run_request(&obj(vec![("template_name", text("t")), ("execution_id", text("bad"))]));
    assert_eq!(req.template_name, "t");
    assert_eq!(req.execution_id, None);
    assert_eq!(run_request(&Json::Null).template_name, "");
    assert_eq!(audit_template_name(None, None), "unknown");
}

#[test]
fn configuration_choices() {
    assert_eq!(resolve_mcp_permission_mode(Some(" READ_ONLY "), None), PermissionMode::ReadOnly);
    assert_eq!(resolve_mcp_permission_mode(None, Some("danger_full_access")), PermissionMode::DangerousFullAccess);
    assert_eq!(resolve_mcp_permission_mode(None, None), PermissionMode::WorkspaceWrite);
    assert_eq!(resolve_mcp_permission_mode(Some("bogus"), Some("read_only")), PermissionMode::WorkspaceWrite);
    assert_eq!(choose_hmac_key(Some("k".into()), Some("e".into())), Some("k".into()));
    assert_eq!(choose_hmac_key(None, Some("e".into())), Some("e".into()));
    assert_eq!(choose_hmac_key(Some("".into()), Some("e".into())), None);
}

fn one_step_plan(name: &str) -> ExecPlan {
    let step = ExecStep::new("s".into(), "bash".into(), Json::Null, false, "d".into(), None);
    ExecPlan::new(name.into(), "desc".into(), vec![step], None, vec![]).unwrap()
}

#[test]
fn execute_requests_need_a_plan_or_a_template() {
    assert!(needs_template(&None, &Some("t".to_string())));
    assert!(!needs_template(&Some(one_step_plan("p")), &Some("t".to_string())));
    assert!(!needs_template(&None, &None));
    let e = require_plan(None).unwrap_err();
    assert_eq!(e.error_type, ErrorType::InvalidParams);
    assert_eq!(e.message, "Either 'plan' or 'template_name' must be provided");
    assert_eq!(require_plan(Some(one_step_plan("p"))).unwrap().name(), "p");
    let l = template_load_error("deploy", "missing file");
    assert_eq!(l.error_type, ErrorType::InvalidParams);
    assert_eq!(l.message, "Template 'deploy' not found: missing file");
}
