//! The output shapes of the template tools, their examples, and the store's
//! configuration.

use vstd::prelude::*;
use vstd::string::StringExecFns;
use crate::json::Json;
use crate::platform::now_millis;
use crate::template_tools::value::ValidateTemplateInput;

verus! {

/// A template summary, as a listing shows it.
#[derive(Debug)]
pub struct TemplateSummaryDto {
    pub name: String,
    pub description: String,
    pub version: String,
    pub tags: Vec<String>,
    pub step_count: usize,
    pub updated_at: i64,
}

/// The output of the list-templates tool.
#[derive(Debug)]
pub struct ListTemplatesOutput {
    pub templates: Vec<TemplateSummaryDto>,
}

/// A template step, as the get-template tool shows it.
#[derive(Debug)]
pub struct StepDefinitionDto {
    pub name: String,
    pub tool: String,
    pub parameters: Json,
    pub requires_approval: bool,
    pub description: String,
    pub timeout_secs: Option<u64>,
}

/// Template constraints, as the tools show them.
#[derive(Debug)]
pub struct ConstraintsDto {
    pub max_tool_calls: Option<u64>,
    pub max_tokens: Option<u64>,
    pub max_duration_secs: Option<u64>,
    pub blocked_tools: Vec<String>,
    pub extensions: Vec<(String, String)>,
}

/// The output of the get-template tool.
#[derive(Debug)]
pub struct GetTemplateOutput {
    pub name: String,
    pub description: String,
    pub version: String,
    pub tags: Vec<String>,
    pub steps: Vec<StepDefinitionDto>,
    pub constraints: Option<ConstraintsDto>,
    pub metadata: Vec<(String, String)>,
    pub created_at: i64,
    pub updated_at: i64,
}

/// The output of the create-template tool.
#[derive(Debug)]
pub struct CreateTemplateOutput {
    pub name: String,
    pub path: String,
    pub status: String,
}

/// A cost estimate of the validate-template tool.
#[derive(Debug, Clone, Copy, PartialEq, Eq)]
pub struct CostEstimateDto {
    pub estimated_tokens: u64,
    pub estimated_tool_calls: u64,
    pub estimated_cost_micro: Option<u64>,
}

/// The output of the validate-template tool.
#[derive(Debug)]
pub struct ValidateTemplateOutput {
    pub valid: bool,
    pub warnings: Vec<String>,
    pub errors: Vec<String>,
    pub estimated_cost: Option<CostEstimateDto>,
}

/// An example listing: one two-step template tagged "example" and "demo",
/// updated now.
pub fn example_list_templates_output() -> (r: ListTemplatesOutput)
    ensures
        r.templates@.len() == 1,
        r.templates@[0].name@ == "example-template"@,
        r.templates@[0].description@ == "An example template showing the structure"@,
        r.templates@[0].version@ == "1.0.0"@,
        r.templates@[0].tags@.len() == 2,
        r.templates@[0].tags@[0]@ == "example"@,
        r.templates@[0].tags@[1]@ == "demo"@,
        r.templates@[0].step_count == 2,
{
    ListTemplatesOutput {
        templates: vec![
            TemplateSummaryDto {
                name: String::from_str("example-template"),
                description: String::from_str("An example template showing the structure"),
                version: String::from_str("1.0.0"),
                tags: vec![String::from_str("example"), String::from_str("demo")],
                step_count: 2,
                updated_at: now_millis(),
            },
        ],
    }
}

/// An example template: tagged "example", without steps, constraints or
/// metadata, created and updated now.
pub fn example_get_template_output() -> (r: GetTemplateOutput)
    ensures
        r.name@ == "example-template"@,
        r.description@ == "An example template showing the structure"@,
        r.version@ == "1.0.0"@,
        r.tags@.len() == 1,
        r.tags@[0]@ == "example"@,
        r.steps@.len() == 0,
        r.constraints is None,
        r.metadata@.len() == 0,
{
    let now = now_millis();
    GetTemplateOutput {
        name: String::from_str("example-template"),
        description: String::from_str("An example template showing the structure"),
        version: String::from_str("1.0.0"),
        tags: vec![String::from_str("example")],
        steps: Vec::new(),
        constraints: None,
        metadata: Vec::new(),
        created_at: now,
        updated_at: now,
    }
}

/// An example creation output.
pub fn example_create_template_output() -> (r: CreateTemplateOutput)
    ensures
        r.name@ == "example-template"@,
        r.path@ == ".rigorix/templates/example-template.toml"@,
        r.status@ == "created"@,
{
    CreateTemplateOutput {
        name: String::from_str("example-template"),
        path: String::from_str(".rigorix/templates/example-template.toml"),
        status: String::from_str("created"),
    }
}

/// An example validation output: valid, without warnings, errors or
/// estimate.
pub fn example_validate_template_output() -> (r: ValidateTemplateOutput)
    ensures
        r.valid,
        r.warnings@.len() == 0,
        r.errors@.len() == 0,
        r.estimated_cost is None,
{
    ValidateTemplateOutput { valid: true, warnings: Vec::new(), errors: Vec::new(), estimated_cost: None }
}

/// The names of the template tools.
pub fn template_tool_names() -> (r: Vec<&'static str>)
    ensures
        r@.len() == 4,
        r@[0]@ == "rigorix_list_templates"@,
        r@[1]@ == "rigorix_get_template"@,
        r@[2]@ == "rigorix_create_template"@,
        r@[3]@ == "rigorix_validate_template"@,
{
    vec!["rigorix_list_templates", "rigorix_get_template", "rigorix_create_template", "rigorix_validate_template"]
}

/// Where the template store lives.
#[derive(Debug)]
pub struct TemplateRepositoryConfig {
    base_path: String,
}

impl TemplateRepositoryConfig {
    /// The store's directory.
    pub closed spec fn spec_base_path(&self) -> Seq<char> {
        self.base_path@
    }

    /// The project's template directory, `.rigorix/templates`.
    pub fn default_path() -> (r: TemplateRepositoryConfig)
        ensures
            r.spec_base_path() == ".rigorix/templates"@,
    {
        TemplateRepositoryConfig { base_path: String::from_str(".rigorix/templates") }
    }

    /// A store in the given directory.
    pub fn new(base_path: String) -> (r: TemplateRepositoryConfig)
        ensures
            r.spec_base_path() == base_path@,
    {
        TemplateRepositoryConfig { base_path }
    }

    /// The store's directory.
    pub fn base_path(&self) -> (r: &str)
        ensures
            r@ == self.spec_base_path(),
    {
        self.base_path.as_str()
    }
}

/// The converter between stored TOML text and templates; the conversions
/// themselves run where the TOML library is.
pub struct FilesystemTemplateConverter;

impl FilesystemTemplateConverter {
    /// A converter.
    pub fn new() -> (r: FilesystemTemplateConverter) {
        FilesystemTemplateConverter
    }
}

/// The validate-template tool's handler.
pub struct ValidateTemplateHandlerImpl;

impl ValidateTemplateHandlerImpl {
    /// A handler.
    pub fn new() -> (r: ValidateTemplateHandlerImpl) {
        ValidateTemplateHandlerImpl
    }

    /// Validates a template: any template that could be read is valid, with
    /// no warnings, errors or estimate.
    pub fn handle(&self, input: &ValidateTemplateInput) -> (r: Json)
        ensures
            r@ == crate::template_tools::handlers::template_validation_document(),
    {
        crate::template_tools::handlers::template_validation_json()
    }
}

} // verus!
