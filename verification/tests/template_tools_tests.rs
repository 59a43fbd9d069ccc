use rigorix_mcp::json::Json;
use rigorix_mcp::template_tools::dto::{
    example_create_template_output, example_get_template_output, example_list_templates_output,
    example_validate_template_output, template_tool_names, TemplateRepositoryConfig,
    ValidateTemplateHandlerImpl,
};
use rigorix_mcp::template_tools::error::{HandlerError, TemplateError, ToolCallResult};
use rigorix_mcp::template_tools::handlers::{create_decision, created_json, toml_json, wants_toml};
use rigorix_mcp::template_tools::repository::{
    check_delete, check_write, engine_template_to_plan_template, filter_matches, listing_candidate,
    summary_of, temp_file_name, template_file_name, EngineNode, EngineTemplate, Listing, NodeAction,
    NodeValidation,
};
use rigorix_mcp::template_tools::value::{
    PlanTemplate, StepDefinition, TemplateFilter, TemplateName, TemplateSummary, ValidateTemplateInput,
};

fn test_template(name: &str, description: &str, tags: Vec<&str>) -> PlanTemplate {
    let step = StepDefinition::new(
        "step-1".into(),
        "test_tool".into(),
        Json::Object(vec![]),
        false,
        "Test step".into(),
        None,
    );
    PlanTemplate::new(
        name.into(),
        description.into(),
        "1.0.0".into(),
        tags.into_iter().map(|t| t.to_string()).collect(),
        vec![step],
        None,
        vec![],
        0,
        0,
    )
    .expect("Failed to create test template")
}

fn summary(name: &str, description: &str, tags: Vec<&str>) -> TemplateSummary {
    summary_of(&test_template(name, description, tags))
}

#[test]
fn template_names_are_validated() {
    assert!(TemplateName::new("hello-world_2".into()).is_ok());
    assert_eq!(TemplateName::new("hello".into()).unwrap().as_str(), "hello");
    assert_eq!(
        TemplateName::new("".into()),
        Err(TemplateError::InvalidName("Template name cannot be empty".into()))
    );
    assert_eq!(
        TemplateName::new("a".repeat(256)),
        Err(TemplateError::InvalidName("Template name must be 255 characters or fewer".into()))
    );
    assert!(TemplateName::new("a".repeat(255)).is_ok());
    assert_eq!(
        TemplateName::new("../path-traversal".into()),
        Err(TemplateError::InvalidName(
            "Template name must only contain alphanumeric, underscore, and hyphen characters".into()
        ))
    );
    assert_eq!(
        TemplateName::new("café".into()),
        Err(TemplateError::InvalidName(
            "Template name must only contain alphanumeric, underscore, and hyphen characters".into()
        ))
    );
    assert!(check_write("café", false, false).is_err());
    assert!(check_write("Deploy_2-x", false, false).is_ok());
}

#[test]
fn test_invalid_name() {
    let result = check_write("../path-traversal", false, false);
    assert!(matches!(result, Err(TemplateError::InvalidName(_))), "Expected InvalidName for path traversal, got: {:?}", result);
}

#[test]
fn writes_and_deletes_are_decided() {
    assert!(check_write("dup", false, false).is_ok());
    assert_eq!(
        check_write("dup", false, true),
        Err(TemplateError::AlreadyExists("Template 'dup' already exists. Use overwrite: true to replace.".into()))
    );
    assert!(check_write("dup", true, true).is_ok());
    assert_eq!(
        check_delete("nonexistent", false),
        Err(TemplateError::NotFound("Template 'nonexistent' not found".into()))
    );
    assert!(check_delete("x", true).is_ok());
    assert_eq!(template_file_name("atomic-test"), "atomic-test.toml");
    assert_eq!(temp_file_name("atomic-test"), ".atomic-test.tmp");
}

#[test]
fn filters_keep_tagged_and_searched_templates() {
    let rust = summary("rust-project", "Build a Rust crate", vec!["rust", "build"]);
    let python = summary("python-script", "Run a script", vec!["python"]);
    let by_search = TemplateFilter::new(None, Some("RUST".into()), None);
    assert!(filter_matches(&rust, &by_search));
    assert!(!filter_matches(&python, &by_search));
    let by_tags = TemplateFilter::new(Some(vec!["rust".into(), "build".into()]), None, None);
    assert!(filter_matches(&rust, &by_tags));
    let missing_tag = TemplateFilter::new(Some(vec!["rust".into(), "deploy".into()]), None, None);
    assert!(!filter_matches(&rust, &missing_tag));
    let by_description = TemplateFilter::new(None, Some("script".into()), None);
    assert!(filter_matches(&python, &by_description));
    assert_eq!(TemplateFilter::default_filter().limit(), 50);
    assert_eq!(TemplateFilter::new(None, None, Some(2)).limit(), 2);
}

#[test]
fn listings_read_toml_files_and_stop_at_the_limit() {
    assert_eq!(listing_candidate(Some("toml"), Some("alpha")), Some("alpha".into()));
    assert_eq!(listing_candidate(Some("toml"), Some(".alpha")), None);
    assert_eq!(listing_candidate(Some("tmp"), Some("alpha")), None);
    assert_eq!(listing_candidate(None, Some("alpha")), None);
    assert_eq!(listing_candidate(Some("toml"), None), Some("".into()));

    let filter = TemplateFilter::new(None, None, Some(2));
    let mut listing = Listing::new();
    assert!(!listing.on_loaded(summary("a", "", vec![]), &filter));
    assert!(listing.on_loaded(summary("b", "", vec![]), &filter));
    assert!(listing.on_loaded(summary("c", "", vec![]), &filter));
    let kept = listing.into_summaries();
    assert_eq!(kept.len(), 2);

    let none = TemplateFilter::new(None, None, Some(0));
    let mut listing = Listing::new();
    assert!(listing.on_loaded(summary("a", "", vec![]), &none));
    assert!(listing.into_summaries().is_empty());

    let rust_only = TemplateFilter::new(None, Some("rust".into()), None);
    let mut listing = Listing::new();
    assert!(!listing.on_loaded(summary("rust-project", "", vec![]), &rust_only));
    assert!(!listing.on_loaded(summary("python-script", "", vec![]), &rust_only));
    let kept = listing.into_summaries();
    assert_eq!(kept.len(), 1);
    assert_eq!(kept[0].name(), "rust-project");
}

#[test]
fn test_create_template_handler_empty_name() {
    let result = create_decision("   ", false, false);
    assert!(matches!(result, Err(HandlerError::InvalidArguments(_))), "Expected InvalidArguments for empty name");
}

#[test]
fn test_create_template_handler_already_exists() {
    let result = create_decision("dup", false, true).expect("Should produce result");
    let res = result.expect("Should return error for duplicate");
    assert!(res.is_error);
    assert_eq!(res.content[0].text, "Template 'dup' already exists. Use overwrite: true to replace.");
}

#[test]
fn test_create_template_handler_overwrite() {
    let result = create_decision("overwrite", true, true).expect("Should succeed");
    assert!(result.is_none(), "Overwrite should succeed");
}

#[test]
fn test_create_template_handler_creates() {
    assert!(create_decision("new-template", false, false).unwrap().is_none());
    let doc = created_json("new-template");
    assert_eq!(doc.str_at("path"), Some(".rigorix/templates/new-template.toml"));
    assert_eq!(doc.str_at("status"), Some("created"));
}

#[test]
fn test_validate_template_handler_valid() {
    let handler = ValidateTemplateHandlerImpl::new();
    let doc = handler.handle(&ValidateTemplateInput { plan: test_template("valid-template", "d", vec![]) });
    assert_eq!(doc.get("valid").and_then(|b| b.as_bool()), Some(true), "Template should be valid");
    assert_eq!(doc.get("estimated_cost"), Some(&Json::Null));
}

#[test]
fn toml_documents_and_results() {
    assert!(wants_toml(Some("toml")));
    assert!(!wants_toml(Some("json")));
    assert!(!wants_toml(None));
    let doc = toml_json("toml-format", "name = \"x\"");
    assert_eq!(doc.str_at("format"), Some("toml"));
    let err = ToolCallResult::error("bad".into());
    assert!(err.is_error);
    assert_eq!(err.content[0].content_type, "text");
    assert_eq!(example_create_template_output().path, ".rigorix/templates/example-template.toml");
    assert!(example_validate_template_output().valid);
    assert_eq!(TemplateRepositoryConfig::default_path().base_path(), ".rigorix/templates");
}

#[test]
fn template_errors_have_messages() {
    assert_eq!(TemplateError::NotFound("x".into()).message(), "Template not found: x");
    assert_eq!(
        HandlerError::TemplateError(TemplateError::InvalidName("n".into())).message(),
        "Template error: Invalid template name: n"
    );
    assert_eq!(
        HandlerError::Timeout { operation: "list".into(), duration_secs: 5 }.message(),
        "Operation timed out after 5s: list"
    );
}

#[test]
fn test_nodes_format_propagates_requires_approval() {
    let tmpl = EngineTemplate {
        id: "db-migration".into(),
        description: "Migration runbook".into(),
        tags: vec![],
        nodes: vec![
            EngineNode {
                name: "validate".into(),
                action: NodeAction::RunCommand { command: "true".into() },
                requires_approval: false,
                validate: vec![],
            },
            EngineNode {
                name: "migrate".into(),
                action: NodeAction::RunCommand { command: "psql -c 'ALTER TABLE ...'".into() },
                requires_approval: true,
                validate: vec![NodeValidation::ScoredEvaluation],
            },
        ],
    };
    let plan = engine_template_to_plan_template(&tmpl).expect("valid engine template converts");
    assert_eq!(plan.version(), "1.0.0");
    assert!(!plan.steps()[0].requires_approval(), "validate step must not require approval");
    assert!(plan.steps()[1].requires_approval(), "migrate step must require approval after conversion");
    assert!(plan.steps()[1].evaluate_score());
    assert_eq!(plan.steps()[1].tool(), "run_command");
    assert_eq!(plan.steps()[1].description(), "Step: migrate");
    assert_eq!(plan.steps()[0].parameters().str_at("command"), Some("true"));
}

#[test]
fn engine_templates_without_nodes_are_invalid() {
    let tmpl = EngineTemplate { id: "e".into(), description: "".into(), tags: vec![], nodes: vec![] };
    assert_eq!(
        engine_template_to_plan_template(&tmpl).err(),
        Some(TemplateError::ValidationError("Template must have at least one step".into()))
    );
}

#[test]
fn template_examples_and_tool_names() {
    let list = example_list_templates_output();
    assert_eq!(list.templates.len(), 1);
    assert_eq!(list.templates[0].name, "example-template");
    assert_eq!(list.templates[0].tags, vec!["example".to_string(), "demo".to_string()]);
    assert_eq!(list.templates[0].step_count, 2);
    let get = example_get_template_output();
    assert_eq!(get.name, "example-template");
    assert_eq!(get.version, "1.0.0");
    assert!(get.steps.is_empty());
    assert!(get.constraints.is_none());
    assert_eq!(
        template_tool_names(),
        vec!["rigorix_list_templates", "rigorix_get_template", "rigorix_create_template", "rigorix_validate_template"]
    );
}

#[test]
fn success_text_result_holds_the_text() {
    let r = ToolCallResult::success_text("{\"ok\":true}".to_string());
    assert!(!r.is_error);
    assert_eq!(r.content.len(), 1);
    assert_eq!(r.content[0].content_type, "text");
    assert_eq!(r.content[0].text, "{\"ok\":true}");
}

#[test]
fn listing_below_the_limit_keeps_every_match() {
    let filter = TemplateFilter::new(Some(vec!["x".into()]), None, Some(5));
    let mut listing = Listing::new();
    for (name, tags) in [("a", vec!["x"]), ("b", vec![]), ("c", vec!["x", "y"]), ("d", vec!["x"])] {
        assert!(!listing.on_loaded(summary(name, "", tags), &filter));
    }
    let kept: Vec<String> = listing.into_summaries().iter().map(|s| s.name().to_string()).collect();
    assert_eq!(kept, vec!["a".to_string(), "c".to_string(), "d".to_string()]);
}
