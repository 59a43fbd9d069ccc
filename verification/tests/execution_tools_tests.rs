use rigorix_mcp::execution_tools::dto::{
    example_check_enforcement_output, example_execute_output, example_validate_output,
    execution_tool_names,
};
use rigorix_mcp::execution_tools::error::{EngineFacadeError, HandlerError};
use rigorix_mcp::execution_tools::facade::{
    author_from_git_output, enforcement_status_from_budgets, execution_result_from_run,
    map_enforcement_error, map_orchestrator_error, parse_repo_from_url, plan_to_step_defs,
    repository_from_git_output, task_results_to_steps, timeout_error, EnforcementFailure,
    OrchestratorFailure,
    RecordStatus, ResourceBudget, TaskOutcome,
};
use rigorix_mcp::execution_tools::handlers::{
    CheckEnforcementHandlerImpl, ExecuteHandlerImpl, PlanHandlerImpl, ValidatePlanHandlerImpl,
};
use rigorix_mcp::execution_tools::repository::InMemoryExecutionRepository;
use rigorix_mcp::execution_tools::value::{
    BudgetStatus, EnforcementStatus, ExecutionId, ExecutionResult, ExecutionStatus, PlanTemplate,
    PlanTemplateError, StepDefinition, StepResult, ValidationResult,
};
use rigorix_mcp::json::{Json, JsonNumber};
use rigorix_mcp::template_tools::value::PlanTemplate as Template;

fn obj(entries: Vec<(&str, Json)>) -> Json {
    Json::Object(entries.into_iter().map(|(k, v)| (k.to_string(), v)).collect())
}

fn text(s: &str) -> Json {
    Json::Str(s.to_string())
}

fn make_test_plan() -> PlanTemplate {
    let step = StepDefinition::new(
        "build".into(),
        "bash".into(),
        obj(vec![("command", text("cargo build"))]),
        false,
        "Build the project".into(),
        None,
    );
    PlanTemplate::new("test-plan".into(), "A test plan".into(), vec![step], None, vec![])
        .expect("valid plan")
}

fn plan_with_approval_flags(flags: &[bool]) -> PlanTemplate {
    let steps: Vec<StepDefinition> = flags
        .iter()
        .enumerate()
        .map(|(i, flag)| {
            StepDefinition::new(
                format!("step-{}", i),
                "bash".into(),
                obj(vec![]),
                *flag,
                format!("Step {}", i),
                None,
            )
        })
        .collect();
    PlanTemplate::new("approval-plan".into(), "test".into(), steps, None, vec![]).expect("valid plan")
}

fn completed_result() -> ExecutionResult {
    let steps = vec![StepResult::new("step1".into(), true, None, obj(vec![("result", text("ok"))]), 100)];
    ExecutionResult::new(0, ExecutionStatus::Completed, steps, 100, Some(50), "rigorix://audit/test".into())
}

fn strict_enforcement() -> EnforcementStatus {
    EnforcementStatus::new(
        true,
        "strict".into(),
        BudgetStatus {
            tool_calls_total: 100,
            tool_calls_remaining: 50,
            tokens_total: 10000,
            tokens_remaining: 5000,
        },
        vec![],
    )
}

#[test]
fn test_plan_to_step_defs_propagates_requires_approval() {
    let plan = plan_with_approval_flags(&[false, true, false]);
    let defs = plan_to_step_defs(&plan);

    assert_eq!(defs.len(), 3);
    assert!(!defs[0].requires_approval, "step-0 must not require approval");
    assert!(defs[1].requires_approval, "step-1 MUST propagate requires_approval");
    assert!(!defs[2].requires_approval, "step-2 must not require approval");
}

#[test]
fn test_plan_template_validation() {
    let result = PlanTemplate::new("empty".into(), "No steps".into(), vec![], None, vec![]);
    assert!(result.is_err());
}

#[test]
fn test_execution_id_display() {
    let id = ExecutionId::from_uuid(0);
    assert_eq!(id.to_text(), "00000000-0000-0000-0000-000000000000");
}

#[test]
fn test_step_definition_accessors() {
    let step = StepDefinition::new(
        "test".into(),
        "read".into(),
        obj(vec![("path", text("/tmp"))]),
        true,
        "Read a file".into(),
        Some(30),
    );
    assert_eq!(step.name(), "test");
    assert_eq!(step.tool(), "read");
    assert!(step.requires_approval());
    assert_eq!(step.timeout_secs(), Some(30));
}

#[test]
fn test_repository_save_and_find() {
    let mut repo = InMemoryExecutionRepository::new();
    let result = ExecutionResult::new(0, ExecutionStatus::Completed, vec![], 100, None, "rigorix://audit/test".into());
    let exec_id = ExecutionId::from_uuid(0);

    repo.save_execution(&result);
    let found = repo.find_execution(&exec_id);
    assert!(found.is_some());
    assert_eq!(found.unwrap().duration_ms(), 100);

    let not_found = repo.find_execution(&ExecutionId::new());
    assert!(not_found.is_none());
}

#[test]
fn test_enginefacade_in_memory_repository_roundtrip() {
    let mut repo = InMemoryExecutionRepository::new();
    let step = StepResult::new("step1".into(), true, None, obj(vec![]), 50);
    let result = ExecutionResult::new(
        ExecutionId::new().as_uuid(),
        ExecutionStatus::Completed,
        vec![step],
        150,
        Some(100),
        "rigorix://audit/test".into(),
    );
    let exec_id = ExecutionId::from_uuid(result.execution_id());
    repo.save_execution(&result);

    let cost = repo.find_cost_breakdown(&exec_id);
    assert!(cost.is_some());
    assert_eq!(cost.unwrap().total_tool_calls(), 1);
}

#[test]
fn saving_again_replaces_the_stored_result() {
    let mut repo = InMemoryExecutionRepository::new();
    repo.save_execution(&ExecutionResult::new(7, ExecutionStatus::Failed, vec![], 1, None, "a".into()));
    repo.save_execution(&ExecutionResult::new(8, ExecutionStatus::Completed, vec![], 2, None, "b".into()));
    repo.save_execution(&ExecutionResult::new(7, ExecutionStatus::Completed, vec![], 3, Some(9), "c".into()));
    let seven = repo.find_execution(&ExecutionId::from_uuid(7)).unwrap();
    assert_eq!(seven.duration_ms(), 3);
    assert_eq!(seven.status(), ExecutionStatus::Completed);
    assert_eq!(repo.find_execution(&ExecutionId::from_uuid(8)).unwrap().duration_ms(), 2);
    let cost = repo.find_cost_breakdown(&ExecutionId::from_uuid(7)).unwrap();
    assert_eq!(cost.total_tokens(), 9);
    assert_eq!(cost.total_tool_calls(), 0);
}

#[test]
fn cost_breakdown_counts_every_step_as_a_call() {
    let mut repo = InMemoryExecutionRepository::new();
    let steps = vec![
        StepResult::new("a".into(), true, None, Json::Null, 1),
        StepResult::new("b".into(), false, Some("x".into()), Json::Null, 1),
    ];
    repo.save_execution(&ExecutionResult::new(3, ExecutionStatus::Failed, steps, 2, None, "u".into()));
    let cost = repo.find_cost_breakdown(&ExecutionId::from_uuid(3)).unwrap();
    assert_eq!(cost.total_tool_calls(), 2);
    assert_eq!(cost.total_tokens(), 0);
    assert_eq!(cost.step_costs()[0].tool_calls, 1);
    assert_eq!(cost.step_costs()[1].tool_calls, 0);
}

#[test]
fn test_execute_handler_returns_formatted_result() {
    let handler = ExecuteHandlerImpl::new(60);
    let plan = handler.plan_for(Some(make_test_plan()));
    assert!(plan.is_ok());
    let tc = handler.reply(&completed_result());
    assert!(!tc.is_error);
    assert_eq!(tc.document.str_at("status"), Some("Completed"));
    assert_eq!(tc.document.str_at("execution_id"), Some("00000000-0000-0000-0000-000000000000"));
    assert_eq!(tc.document.get("tokens_used").and_then(|t| t.as_u64()), Some(50));
    assert_eq!(handler.timeout_duration_secs(), 60);
}

#[test]
fn execute_without_plan_is_refused() {
    let handler = ExecuteHandlerImpl::new(60);
    match handler.plan_for(None) {
        Err(HandlerError::InvalidArguments(m)) => {
            assert_eq!(m, "Either 'plan' or 'template_name' must be provided")
        }
        _ => panic!("expected invalid arguments"),
    }
}

#[test]
fn test_validate_handler_returns_formatted_result() {
    let handler = ValidatePlanHandlerImpl::new();
    let v = ValidationResult::new(true, vec!["warning: high cost".into()], vec![], None);
    let tc = handler.reply(&v);
    assert!(!tc.is_error);
    assert_eq!(tc.document.get("valid").and_then(|b| b.as_bool()), Some(true));
}

#[test]
fn test_validate_handler_rejected() {
    let handler = ValidatePlanHandlerImpl::new();
    let v = ValidationResult::new(false, vec![], vec!["Blocked by policy".into()], None);
    let tc = handler.reply(&v);
    assert!(tc.is_error);
}

#[test]
fn test_check_enforcement_handler_returns_status() {
    let handler = CheckEnforcementHandlerImpl::new();
    let tc = handler.reply(&strict_enforcement());
    assert!(!tc.is_error);
    assert_eq!(tc.document.str_at("preset"), Some("strict"));
    let remaining = tc.document.get("budget").and_then(|b| b.get("tool_calls_remaining")).and_then(|n| n.as_u64());
    assert_eq!(remaining, Some(50));
}

#[test]
fn test_plan_handler_returns_dag() {
    let step = StepDefinition::new(
        "read-file".into(),
        "file_read".into(),
        obj(vec![("path", text("src/main.rs"))]),
        false,
        "Read main.rs".into(),
        None,
    );
    let template = Template::new(
        "test-template".into(),
        "A test plan".into(),
        "1.0.0".into(),
        vec!["test".into()],
        vec![step],
        None,
        vec![],
        0,
        0,
    )
    .unwrap();
    let handler = PlanHandlerImpl::new();
    let plan = handler.plan_for(&template);
    let validation = ValidationResult::new(true, vec!["warning: high cost".into()], vec![], None);
    let tc = handler.reply(&template, &plan, &validation);
    assert!(!tc.is_error);

    let output = &tc.document;
    assert_eq!(output.str_at("template_name"), Some("test-template"));
    assert_eq!(output.str_at("description"), Some("A test plan"));
    assert_eq!(output.str_at("version"), Some("1.0.0"));
    let graph = output.get("graph").unwrap();
    assert_eq!(graph.get("sealed").and_then(|b| b.as_bool()), Some(true));
    assert_eq!(graph.get("node_count").and_then(|n| n.as_u64()), Some(1));
    let nodes = graph.get("nodes").and_then(|n| n.as_array()).unwrap();
    assert_eq!(nodes[0].str_at("name"), Some("read-file"));
    assert_eq!(nodes[0].str_at("tool"), Some("file_read"));
    assert_eq!(output.get("enforcement").and_then(|e| e.get("valid")).and_then(|b| b.as_bool()), Some(true));
}

#[test]
fn enforcement_refusals_map_onto_facade_errors() {
    let e = map_enforcement_error(EnforcementFailure::BudgetExceeded {
        resource: "tool_calls".into(),
        used: 30,
        limit: 100,
    });
    assert_eq!(e, EngineFacadeError::BudgetExceeded { tool_calls_remaining: 70, tokens_remaining: 0 });
    let e = map_enforcement_error(EnforcementFailure::BudgetExceeded {
        resource: "tokens".into(),
        used: 500,
        limit: 100,
    });
    assert_eq!(e, EngineFacadeError::BudgetExceeded { tool_calls_remaining: 0, tokens_remaining: 0 });
    let e = map_enforcement_error(EnforcementFailure::BudgetExceeded {
        resource: "tokens".into(),
        used: 40,
        limit: 100,
    });
    assert_eq!(e, EngineFacadeError::BudgetExceeded { tool_calls_remaining: 0, tokens_remaining: 60 });
    let e = map_enforcement_error(EnforcementFailure::ToolBlocked { tool: "rm".into() });
    assert_eq!(e, EngineFacadeError::EnforcementBlocked("Tool blocked: rm".into()));
    let e = map_enforcement_error(EnforcementFailure::Other("circuit open".into()));
    assert_eq!(e, EngineFacadeError::EnforcementBlocked("circuit open".into()));
}

#[test]
fn orchestrator_failures_map_onto_facade_errors() {
    assert_eq!(
        map_orchestrator_error(OrchestratorFailure::ExecutionFailed { detail: "d".into() }),
        EngineFacadeError::EngineError("d".into())
    );
    assert_eq!(
        map_orchestrator_error(OrchestratorFailure::PlanningFailed { detail: "p".into() }),
        EngineFacadeError::Internal("Planning failed: p".into())
    );
    assert_eq!(
        map_orchestrator_error(OrchestratorFailure::Other("o".into())),
        EngineFacadeError::Internal("o".into())
    );
}

#[test]
fn facade_error_messages() {
    assert_eq!(
        EngineFacadeError::BudgetExceeded { tool_calls_remaining: 3, tokens_remaining: 40 }.message(),
        "Budget exceeded: 3 calls remaining, 40 tokens remaining"
    );
    assert_eq!(
        EngineFacadeError::Timeout { operation: "execute".into(), duration_secs: 300 }.message(),
        "Operation timed out after 300s: execute"
    );
    assert_eq!(
        EngineFacadeError::InvalidPlan(PlanTemplateError::EmptySteps).message(),
        "Invalid plan: Plan must have at least one step"
    );
    assert_eq!(
        EngineFacadeError::ExecutionNotFound(0).message(),
        "Execution not found: 00000000-0000-0000-0000-000000000000"
    );
    assert_eq!(HandlerError::Timeout.message(), "Handler timed out");
    assert_eq!(
        HandlerError::EngineError(EngineFacadeError::Internal("x".into())).message(),
        "Engine error: Internal error: x"
    );
}

#[test]
fn task_outputs_become_json_or_text() {
    let tasks = vec![
        TaskOutcome {
            node_name: "a".into(),
            succeeded: true,
            error: None,
            output: Some("{\"k\":1}".into()),
            parsed_output: Some(obj(vec![("k", Json::Number(JsonNumber::UInt(1)))])),
            duration_ms: 5,
        },
        TaskOutcome {
            node_name: "b".into(),
            succeeded: false,
            error: Some("boom".into()),
            output: Some("plain text".into()),
            parsed_output: None,
            duration_ms: 6,
        },
        TaskOutcome {
            node_name: "c".into(),
            succeeded: true,
            error: None,
            output: None,
            parsed_output: None,
            duration_ms: 7,
        },
    ];
    let steps = task_results_to_steps(&tasks);
    assert_eq!(steps.len(), 3);
    assert_eq!(steps[0].output().get("k").and_then(|v| v.as_u64()), Some(1));
    assert_eq!(steps[1].output().as_str(), Some("plain text"));
    assert_eq!(steps[1].error(), Some("boom"));
    assert_eq!(*steps[2].output(), Json::Null);

    let result = execution_result_from_run(0, RecordStatus::PartialFailure, &tasks, 18);
    assert_eq!(result.status(), ExecutionStatus::Failed);
    assert_eq!(result.audit_uri(), "rigorix://audit/00000000-0000-0000-0000-000000000000");
    assert_eq!(result.tokens_used(), None);
    let pending = execution_result_from_run(1, RecordStatus::PendingApproval, &vec![], 0);
    assert_eq!(pending.status(), ExecutionStatus::PendingApproval);
}

#[test]
fn budgets_become_an_enforcement_report() {
    let budgets = vec![
        ResourceBudget { resource: "tokens".into(), used: 10, limit: 500 },
        ResourceBudget { resource: "tool_calls".into(), used: 120, limit: 100 },
        ResourceBudget { resource: "tokens".into(), used: 0, limit: 1 },
    ];
    let status = enforcement_status_from_budgets(&budgets, true);
    assert!(status.is_active());
    assert_eq!(status.preset(), "default");
    assert_eq!(status.budget().tool_calls_total, 100);
    assert_eq!(status.budget().tool_calls_remaining, 0);
    assert_eq!(status.budget().tokens_total, 500);
    assert_eq!(status.budget().tokens_remaining, 490);

    let empty = enforcement_status_from_budgets(&vec![], false);
    assert!(!empty.is_active());
    assert_eq!(empty.budget().tool_calls_total, 1000);
    assert_eq!(empty.budget().tokens_remaining, 100000);
}

#[test]
fn git_remotes_name_their_repository() {
    assert_eq!(parse_repo_from_url("https://github.com/owner/repo.git"), Some("owner/repo".into()));
    assert_eq!(parse_repo_from_url("  https://github.com/owner/repo  "), Some("owner/repo".into()));
    assert_eq!(parse_repo_from_url("git@github.com:owner/repo.git"), Some("owner/repo".into()));
    assert_eq!(parse_repo_from_url("ssh://git@github.com/owner/repo.git"), Some("owner/repo".into()));
    assert_eq!(parse_repo_from_url("https://gitlab.com/group/sub/repo"), None);
    assert_eq!(parse_repo_from_url("http://host/a/b/c"), None);
    assert_eq!(parse_repo_from_url("owner"), None);
    assert_eq!(parse_repo_from_url("host//repo"), None);
    assert_eq!(repository_from_git_output(true, "https://github.com/o/r\n"), Some("o/r".into()));
    assert_eq!(repository_from_git_output(false, "https://github.com/o/r\n"), None);
    assert_eq!(author_from_git_output(true, " dev@example.com \n"), Some("dev@example.com".into()));
    assert_eq!(author_from_git_output(true, "  \n"), None);
    assert_eq!(author_from_git_output(false, "dev@example.com"), None);
}

#[test]
fn example_outputs_and_tool_names() {
    let ex = example_execute_output();
    assert_eq!(ex.execution_id, 0);
    assert_eq!(ex.status, "completed");
    assert!(ex.steps.is_empty());
    assert_eq!(ex.audit_uri, "rigorix://audit/00000000-0000-0000-0000-000000000000");
    let v = example_validate_output();
    assert!(v.valid);
    assert!(v.warnings.is_empty() && v.errors.is_empty() && v.estimated_cost.is_none());
    let c = example_check_enforcement_output();
    assert!(c.active);
    assert_eq!(c.preset, "default");
    assert_eq!(c.budget.tool_calls_total, 1000);
    assert_eq!(c.budget.tool_calls_remaining, 750);
    assert_eq!(c.budget.tokens_total, 100000);
    assert_eq!(c.budget.tokens_remaining, 75000);
    assert_eq!(
        execution_tool_names(),
        vec!["rigorix_execute", "rigorix_plan", "rigorix_run", "rigorix_validate_plan", "rigorix_check_enforcement"]
    );
}

#[test]
fn timeout_error_names_operation_and_limit() {
    match timeout_error("execute", 300) {
        EngineFacadeError::Timeout { operation, duration_secs } => {
            assert_eq!(operation, "execute");
            assert_eq!(duration_secs, 300);
        }
        other => panic!("unexpected {:?}", other),
    }
}

#[test]
fn step_with_all_fields_keeps_them() {
    let s = StepDefinition::with_all(
        "score".into(),
        "eval".into(),
        Json::Null,
        true,
        "Score it".into(),
        Some(30),
        true,
    );
    assert_eq!(s.name(), "score");
    assert_eq!(s.tool(), "eval");
    assert!(s.requires_approval());
    assert_eq!(s.timeout_secs(), Some(30));
    assert!(s.evaluate_score());
}

#[test]
fn execute_handler_runs_the_plan_once_and_maps_the_outcome() {
    let handler = ExecuteHandlerImpl::new(60);
    let calls = std::cell::Cell::new(0);
    let refused = handler.handle(None, None, None, |_p, _r, _a| {
        calls.set(calls.get() + 1);
        Ok(ExecutionResult::new(1, ExecutionStatus::Completed, vec![], 1, None, "u".into()))
    });
    assert!(matches!(refused, Err(HandlerError::InvalidArguments(_))));
    assert_eq!(calls.get(), 0);
    let ok = handler
        .handle(Some(make_test_plan()), Some("o/r".into()), None, |p, r, a| {
            calls.set(calls.get() + 1);
            assert_eq!(p.name(), "test-plan");
            assert_eq!(r.as_deref(), Some("o/r"));
            assert!(a.is_none());
            Ok(ExecutionResult::new(2, ExecutionStatus::Completed, vec![], 5, None, "u".into()))
        })
        .unwrap();
    assert_eq!(calls.get(), 1);
    assert!(!ok.is_error);
    assert_eq!(ok.document.str_at("status"), Some("Completed"));
    let failed = handler.handle(Some(make_test_plan()), None, None, |_p, _r, _a| {
        Err(EngineFacadeError::EngineNotAvailable("down".into()))
    });
    assert!(matches!(
        failed,
        Err(HandlerError::EngineError(EngineFacadeError::EngineNotAvailable(m))) if m == "down"
    ));
}

#[test]
fn plan_handler_validates_once_and_previews() {
    let step = StepDefinition::new("s1".into(), "file_read".into(), Json::Null, false, "d".into(), None);
    let template = Template::new("t".into(), "d".into(), "1.0.0".into(), vec![], vec![step], None, vec![], 0, 0)
        .unwrap();
    let handler = PlanHandlerImpl::new();
    let blocked = handler
        .handle(&template, |p| {
            assert_eq!(p.name(), "t");
            Ok(ValidationResult::new(false, vec![], vec!["blocked".into()], None))
        })
        .unwrap();
    assert!(blocked.is_error);
    let graph = blocked.document.get("graph").unwrap();
    assert_eq!(graph.get("node_count").and_then(|n| n.as_u64()), Some(1));
    let err = handler.handle(&template, |_p| Err(EngineFacadeError::Internal("x".into())));
    assert!(matches!(err, Err(HandlerError::EngineError(EngineFacadeError::Internal(_)))));
}
