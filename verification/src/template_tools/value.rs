//! Value objects of the template tools: validated template names, stored
//! plan templates, their summaries, and listing filters. Instants are
//! milliseconds since the Unix epoch, UTC.

use vstd::prelude::*;
use vstd::string::StringExecFns;
use vstd::utf8::encode_utf8;
use crate::text::chars_of;
use crate::template_tools::error::TemplateError;
pub use crate::execution_tools::value::{Constraints, StepDefinition, StepDefinitionV};
use crate::execution_tools::value::{distinct_keys, pair_views};

verus! {

/// Whether `c` may stand in a template name.
pub open spec fn name_char_ok(c: char) -> bool {
    ('a' <= c && c <= 'z') || ('A' <= c && c <= 'Z') || ('0' <= c && c <= '9') || c == '_' || c
        == '-'
}

/// Whether every character of `s` may stand in a template name.
pub open spec fn name_chars_ok(s: Seq<char>) -> bool {
    forall|i: int| 0 <= i < s.len() ==> name_char_ok(#[trigger] s[i])
}

/// The length of a text in UTF-8 bytes, as `str::len` reports it.
pub open spec fn byte_len(s: Seq<char>) -> usize {
    encode_utf8(s).len() as usize
}

/// Why a name is refused, if it is: empty, longer than 255 bytes, or holding
/// a character other than ASCII letters and digits, `_` and `-`; checked in that order.
pub open spec fn name_refusal(s: Seq<char>) -> Option<Seq<char>> {
    if s.len() == 0 {
        Some("Template name cannot be empty"@)
    } else if byte_len(s) > 255 {
        Some("Template name must be 255 characters or fewer"@)
    } else if !name_chars_ok(s) {
        Some("Template name must only contain alphanumeric, underscore, and hyphen characters"@)
    } else {
        None
    }
}

/// Whether every character of `s` may stand in a template name.
pub fn all_name_chars(s: &str) -> (r: bool)
    ensures
        r == name_chars_ok(s@),
{
    let cs = chars_of(s);
    let mut i: usize = 0;
    while i < cs.len()
        invariant
            cs@ == s@,
            i <= cs.len(),
            forall|j: int| 0 <= j < i ==> name_char_ok(#[trigger] s@[j]),
        decreases cs.len() - i,
    {
        let c = cs[i];
        if !(('a' <= c && c <= 'z') || ('A' <= c && c <= 'Z') || ('0' <= c && c <= '9') || c == '_'
            || c == '-') {
            assert(!name_char_ok(s@[i as int]));
            return false;
        }
        i = i + 1;
    }
    true
}

/// A validated template name: non-empty, at most 255 bytes, ASCII letters
/// and digits, `_` and `-` only.
#[derive(Debug, Clone, PartialEq, Eq, Hash)]
pub struct TemplateName(String);

impl TemplateName {
    /// The name's text.
    pub closed spec fn spec_text(&self) -> Seq<char> {
        self.0@
    }

    /// Validates and wraps a name.
    pub fn new(name: String) -> (r: Result<TemplateName, TemplateError>)
        ensures
            match name_refusal(name@) {
                Some(m) => r matches Err(TemplateError::InvalidName(t)) && t@ == m,
                None => r matches Ok(n) && n.spec_text() == name@,
            },
    {
        if name.as_str().is_empty() {
            return Err(TemplateError::InvalidName(String::from_str("Template name cannot be empty")));
        }
        if name.as_str().len() > 255 {
            return Err(
                TemplateError::InvalidName(
                    String::from_str("Template name must be 255 characters or fewer"),
                ),
            );
        }
        if !all_name_chars(name.as_str()) {
            return Err(
                TemplateError::InvalidName(
                    String::from_str(
                        "Template name must only contain alphanumeric, underscore, and hyphen characters",
                    ),
                ),
            );
        }
        Ok(TemplateName(name))
    }

    /// The name as a string slice.
    pub fn as_str(&self) -> (r: &str)
        ensures
            r@ == self.spec_text(),
    {
        self.0.as_str()
    }
}

/// A stored plan template.
#[derive(Debug)]
pub struct PlanTemplate {
    name: String,
    description: String,
    version: String,
    tags: Vec<String>,
    steps: Vec<StepDefinition>,
    constraints: Option<Constraints>,
    metadata: Vec<(String, String)>,
    created_at: i64,
    updated_at: i64,
}

impl PlanTemplate {
    /// Template name.
    pub closed spec fn spec_name(&self) -> Seq<char> {
        self.name@
    }

    /// Template description.
    pub closed spec fn spec_description(&self) -> Seq<char> {
        self.description@
    }

    /// Template version.
    pub closed spec fn spec_version(&self) -> Seq<char> {
        self.version@
    }

    /// Template tags.
    pub closed spec fn spec_tags(&self) -> Seq<Seq<char>> {
        self.tags@.map_values(|t: String| t@)
    }

    /// Template steps.
    pub closed spec fn spec_steps(&self) -> Seq<StepDefinitionV> {
        self.steps@.map_values(|s: StepDefinition| s@)
    }

    /// Template constraints.
    pub closed spec fn spec_constraints(&self) -> Option<Constraints> {
        self.constraints
    }

    /// Template metadata.
    pub closed spec fn spec_metadata(&self) -> Seq<(String, String)> {
        self.metadata@
    }

    /// Creation instant.
    pub closed spec fn spec_created_at(&self) -> i64 {
        self.created_at
    }

    /// Last update instant.
    pub closed spec fn spec_updated_at(&self) -> i64 {
        self.updated_at
    }

    /// A template holds at least one step, and its metadata and its
    /// constraints' extensions map each key to one value.
    pub open spec fn wf(&self) -> bool {
        &&& self.spec_steps().len() > 0
        &&& distinct_keys(pair_views(self.spec_metadata()))
        &&& match self.spec_constraints() {
            Some(c) => c.wf(),
            None => true,
        }
    }

    /// A new template; a template needs at least one step.
    pub fn new(
        name: String,
        description: String,
        version: String,
        tags: Vec<String>,
        steps: Vec<StepDefinition>,
        constraints: Option<Constraints>,
        metadata: Vec<(String, String)>,
        created_at: i64,
        updated_at: i64,
    ) -> (r: Result<PlanTemplate, TemplateError>)
        requires
            distinct_keys(pair_views(metadata@)),
            match constraints {
                Some(c) => c.wf(),
                None => true,
            },
        ensures
            steps.len() > 0 ==> (r matches Ok(t) && t.wf()),
            steps.len() == 0 ==> (r matches Err(TemplateError::ValidationError(m)) && m@
                == "Template must have at least one step"@),
            steps.len() > 0 ==> (r matches Ok(t) && t.spec_name() == name@ && t.spec_description()
                == description@ && t.spec_version() == version@ && t.spec_tags() == tags@.map_values(
                |s: String| s@,
            ) && t.spec_steps() == steps@.map_values(|s: StepDefinition| s@) && t.spec_constraints()
                == constraints && t.spec_metadata() == metadata@ && t.spec_created_at() == created_at
                && t.spec_updated_at() == updated_at),
    {
        if steps.len() == 0 {
            return Err(
                TemplateError::ValidationError(
                    String::from_str("Template must have at least one step"),
                ),
            );
        }
        Ok(
            PlanTemplate {
                name,
                description,
                version,
                tags,
                steps,
                constraints,
                metadata,
                created_at,
                updated_at,
            },
        )
    }

    /// Template name.
    pub fn name(&self) -> (r: &str)
        ensures
            r@ == self.spec_name(),
    {
        self.name.as_str()
    }

    /// Template description.
    pub fn description(&self) -> (r: &str)
        ensures
            r@ == self.spec_description(),
    {
        self.description.as_str()
    }

    /// Template version.
    pub fn version(&self) -> (r: &str)
        ensures
            r@ == self.spec_version(),
    {
        self.version.as_str()
    }

    /// Template tags.
    pub fn tags(&self) -> (r: &Vec<String>)
        ensures
            r@.map_values(|t: String| t@) == self.spec_tags(),
    {
        &self.tags
    }

    /// Template steps.
    pub fn steps(&self) -> (r: &Vec<StepDefinition>)
        ensures
            r@.map_values(|s: StepDefinition| s@) == self.spec_steps(),
    {
        &self.steps
    }

    /// Optional constraints.
    pub fn constraints(&self) -> (r: Option<&Constraints>)
        ensures
            match r {
                Some(c) => self.spec_constraints() == Some(*c),
                None => self.spec_constraints() is None,
            },
    {
        self.constraints.as_ref()
    }

    /// Extensible metadata.
    pub fn metadata(&self) -> (r: &Vec<(String, String)>)
        ensures
            r@ == self.spec_metadata(),
    {
        &self.metadata
    }

    /// Creation instant.
    pub fn created_at(&self) -> (r: i64)
        ensures
            r == self.spec_created_at(),
    {
        self.created_at
    }

    /// Last update instant.
    pub fn updated_at(&self) -> (r: i64)
        ensures
            r == self.spec_updated_at(),
    {
        self.updated_at
    }
}

/// A lightweight summary of a template, for listings.
#[derive(Debug)]
pub struct TemplateSummary {
    name: String,
    description: String,
    version: String,
    tags: Vec<String>,
    step_count: usize,
    updated_at: i64,
}

/// The value of a template summary.
pub struct TemplateSummaryV {
    pub name: Seq<char>,
    pub description: Seq<char>,
    pub version: Seq<char>,
    pub tags: Seq<Seq<char>>,
    pub step_count: usize,
    pub updated_at: i64,
}

impl View for TemplateSummary {
    type V = TemplateSummaryV;

    closed spec fn view(&self) -> TemplateSummaryV {
        TemplateSummaryV {
            name: self.name@,
            description: self.description@,
            version: self.version@,
            tags: self.tags@.map_values(|t: String| t@),
            step_count: self.step_count,
            updated_at: self.updated_at,
        }
    }
}

impl TemplateSummary {
    /// A new summary.
    pub fn new(
        name: String,
        description: String,
        version: String,
        tags: Vec<String>,
        step_count: usize,
        updated_at: i64,
    ) -> (r: TemplateSummary)
        ensures
            r@ == (TemplateSummaryV {
                name: name@,
                description: description@,
                version: version@,
                tags: tags@.map_values(|t: String| t@),
                step_count,
                updated_at,
            }),
    {
        TemplateSummary { name, description, version, tags, step_count, updated_at }
    }

    /// Template name.
    pub fn name(&self) -> (r: &str)
        ensures
            r@ == self@.name,
    {
        self.name.as_str()
    }

    /// Template description.
    pub fn description(&self) -> (r: &str)
        ensures
            r@ == self@.description,
    {
        self.description.as_str()
    }

    /// Template version.
    pub fn version(&self) -> (r: &str)
        ensures
            r@ == self@.version,
    {
        self.version.as_str()
    }

    /// Template tags.
    pub fn tags(&self) -> (r: &Vec<String>)
        ensures
            r@.map_values(|t: String| t@) == self@.tags,
    {
        &self.tags
    }

    /// Number of steps.
    pub fn step_count(&self) -> (r: usize)
        ensures
            r == self@.step_count,
    {
        self.step_count
    }

    /// Last update instant.
    pub fn updated_at(&self) -> (r: i64)
        ensures
            r == self@.updated_at,
    {
        self.updated_at
    }
}

/// Filter for template listings: required tags, a search text, and a limit.
#[derive(Debug)]
pub struct TemplateFilter {
    tags: Option<Vec<String>>,
    search: Option<String>,
    limit: usize,
}

/// The value of a filter.
pub struct TemplateFilterV {
    pub tags: Option<Seq<Seq<char>>>,
    pub search: Option<Seq<char>>,
    pub limit: usize,
}

impl View for TemplateFilter {
    type V = TemplateFilterV;

    closed spec fn view(&self) -> TemplateFilterV {
        TemplateFilterV {
            tags: match self.tags {
                Some(t) => Some(t@.map_values(|s: String| s@)),
                None => None,
            },
            search: match self.search {
                Some(s) => Some(s@),
                None => None,
            },
            limit: self.limit,
        }
    }
}

impl TemplateFilter {
    /// A new filter; the limit is 50 where none is given.
    pub fn new(tags: Option<Vec<String>>, search: Option<String>, limit: Option<usize>) -> (r:
        TemplateFilter)
        ensures
            r@ == (TemplateFilterV {
                tags: match tags {
                    Some(t) => Some(t@.map_values(|s: String| s@)),
                    None => None,
                },
                search: match search {
                    Some(s) => Some(s@),
                    None => None,
                },
                limit: match limit {
                    Some(l) => l,
                    None => 50,
                },
            }),
    {
        let limit = match limit {
            Some(l) => l,
            None => 50,
        };
        TemplateFilter { tags, search, limit }
    }

    /// The filter that keeps everything, up to 50 templates.
    pub fn default_filter() -> (r: TemplateFilter)
        ensures
            r@ == (TemplateFilterV { tags: None, search: None, limit: 50 }),
    {
        TemplateFilter { tags: None, search: None, limit: 50 }
    }

    /// Required tags.
    pub fn tags(&self) -> (r: Option<&Vec<String>>)
        ensures
            match r {
                Some(t) => self@.tags == Some(t@.map_values(|s: String| s@)),
                None => self@.tags is None,
            },
    {
        self.tags.as_ref()
    }

    /// Search text.
    pub fn search(&self) -> (r: Option<&str>)
        ensures
            match r {
                Some(s) => self@.search == Some(s@),
                None => self@.search is None,
            },
    {
        match &self.search {
            Some(s) => Some(s.as_str()),
            None => None,
        }
    }

    /// Maximum number of results.
    pub fn limit(&self) -> (r: usize)
        ensures
            r == self@.limit,
    {
        self.limit
    }
}

/// Input of the get-template tool.
#[derive(Debug)]
pub struct GetTemplateInput {
    /// Template name.
    pub name: String,
    /// Output format: "json" (default) or "toml".
    pub format: Option<String>,
}

/// Input of the create-template tool.
#[derive(Debug)]
pub struct CreateTemplateInput {
    /// Template name.
    pub name: String,
    /// The template to store.
    pub plan: PlanTemplate,
    /// Whether to replace an existing template.
    pub overwrite: bool,
}

/// Input of the validate-template tool.
#[derive(Debug)]
pub struct ValidateTemplateInput {
    /// The template to validate.
    pub plan: PlanTemplate,
}

} // verus!
