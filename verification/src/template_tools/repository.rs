//! The rules of the template store: which files a listing reads, which
//! templates a filter keeps and when a listing stops, which names may be
//! written, when a write is refused, and how a template in the engine's
//! node format becomes a plan template. The file system itself is driven by
//! the application.

use vstd::prelude::*;
use vstd::string::StringExecFns;
use crate::json::{entries_view, entry, lemma_entries_view, Json, JsonV};
use crate::platform::now_millis;
use crate::text::{
    chars_have_prefix, chars_of, concat2, concat3, contains, has_infix, has_prefix, lowercase,
    str_eq, to_lowercase,
};
use crate::execution_tools::value::{copy_strings, StepDefinition, StepDefinitionV};
use crate::template_tools::error::TemplateError;
use crate::template_tools::value::{
    all_name_chars, name_chars_ok, PlanTemplate, TemplateFilter, TemplateFilterV,
    TemplateSummary, TemplateSummaryV,
};

verus! {

// ── Filtering ───────────────────────────────────────────────────────────

/// Whether every required tag is among the template's tags.
pub open spec fn has_all_tags(tags: Seq<Seq<char>>, required: Seq<Seq<char>>) -> bool {
    forall|i: int| 0 <= i < required.len() ==> tags.contains(#[trigger] required[i])
}

/// Whether the search text occurs in the name or the description, ignoring
/// case.
pub open spec fn search_hits(s: TemplateSummaryV, search: Seq<char>) -> bool {
    has_infix(lowercase(s.name), lowercase(search)) || has_infix(
        lowercase(s.description),
        lowercase(search),
    )
}

/// Whether a summary passes a filter: it carries every required tag, and
/// the search text, if any, occurs in its name or description.
pub open spec fn matches_filter(s: TemplateSummaryV, f: TemplateFilterV) -> bool {
    &&& match f.tags {
        Some(t) => has_all_tags(s.tags, t),
        None => true,
    }
    &&& match f.search {
        Some(q) => search_hits(s, q),
        None => true,
    }
}

/// A search looks at both the name and the description, without case: a
/// summary whose name or description contains the search text passes a
/// filter that only searches, and one whose name and description both lack
/// it fails such a filter. A tag filter keeps exactly the summaries that
/// carry every tag it names.
pub proof fn law_search_and_tags(s: TemplateSummaryV, q: Seq<char>, tags: Seq<Seq<char>>, limit: usize)
    ensures
        has_infix(lowercase(s.description), lowercase(q)) ==> matches_filter(
            s,
            TemplateFilterV { tags: None, search: Some(q), limit },
        ),
        has_infix(lowercase(s.name), lowercase(q)) ==> matches_filter(
            s,
            TemplateFilterV { tags: None, search: Some(q), limit },
        ),
        !has_infix(lowercase(s.name), lowercase(q)) && !has_infix(lowercase(s.description), lowercase(q))
            ==> !matches_filter(s, TemplateFilterV { tags: None, search: Some(q), limit }),
        matches_filter(s, TemplateFilterV { tags: Some(tags), search: None, limit }) <==> (forall|
            i: int,
        | 0 <= i < tags.len() ==> s.tags.contains(#[trigger] tags[i])),
        matches_filter(s, TemplateFilterV { tags: None, search: None, limit }),
{
}

/// Whether `t` is among the texts of `v`.
fn contains_text(v: &Vec<String>, t: &str) -> (r: bool)
    ensures
        r == v@.map_values(|s: String| s@).contains(t@),
{
    let ghost vs = v@.map_values(|s: String| s@);
    let mut i: usize = 0;
    while i < v.len()
        invariant
            vs == v@.map_values(|s: String| s@),
            i <= v.len(),
            forall|j: int| 0 <= j < i ==> vs[j] != t@,
        decreases v.len() - i,
    {
        if str_eq(v[i].as_str(), t) {
            assert(vs[i as int] == t@);
            return true;
        }
        i = i + 1;
    }
    false
}

/// Whether a summary passes a filter.
pub fn filter_matches(summary: &TemplateSummary, filter: &TemplateFilter) -> (r: bool)
    ensures
        r == matches_filter(summary@, filter@),
{
    match filter.tags() {
        Some(required) => {
            let ghost rv = required@.map_values(|s: String| s@);
            let mut i: usize = 0;
            while i < required.len()
                invariant
                    rv == required@.map_values(|s: String| s@),
                    filter@.tags == Some(rv),
                    i <= required.len(),
                    forall|j: int| 0 <= j < i ==> summary@.tags.contains(#[trigger] rv[j]),
                decreases required.len() - i,
            {
                if !contains_text(summary.tags(), required[i].as_str()) {
                    assert(!summary@.tags.contains(rv[i as int]));
                    return false;
                }
                i = i + 1;
            }
        },
        None => {},
    }
    match filter.search() {
        Some(search) => {
            let search_lower = to_lowercase(search);
            let name_match = contains(to_lowercase(summary.name()).as_str(), search_lower.as_str());
            let desc_match = contains(
                to_lowercase(summary.description()).as_str(),
                search_lower.as_str(),
            );
            if !name_match && !desc_match {
                return false;
            }
        },
        None => {},
    }
    true
}

/// The summary of a template: its name, description, version, tags, number
/// of steps and last update.
pub fn summary_of(template: &PlanTemplate) -> (r: TemplateSummary)
    ensures
        r@ == (TemplateSummaryV {
            name: template.spec_name(),
            description: template.spec_description(),
            version: template.spec_version(),
            tags: template.spec_tags(),
            step_count: template.spec_steps().len() as usize,
            updated_at: template.spec_updated_at(),
        }),
{
    TemplateSummary::new(
        String::from_str(template.name()),
        String::from_str(template.description()),
        String::from_str(template.version()),
        copy_strings(template.tags()),
        template.steps().len(),
        template.updated_at(),
    )
}

// ── Listing ─────────────────────────────────────────────────────────────

/// The template a directory entry names, if a listing reads it: files with
/// the `toml` extension whose stem does not start with a dot (a missing stem
/// counts as empty).
pub open spec fn listed_name(extension: Option<Seq<char>>, stem: Option<Seq<char>>) -> Option<
    Seq<char>,
> {
    match extension {
        None => None,
        Some(e) => if e != "toml"@ {
            None
        } else {
            let n = match stem {
                Some(s) => s,
                None => Seq::empty(),
            };
            if has_prefix(n, "."@) {
                None
            } else {
                Some(n)
            }
        },
    }
}

/// The template a directory entry names, if a listing reads it.
pub fn listing_candidate(extension: Option<&str>, stem: Option<&str>) -> (r: Option<String>)
    ensures
        match r {
            Some(n) => listed_name(
                match extension {
                    Some(e) => Some(e@),
                    None => None,
                },
                match stem {
                    Some(s) => Some(s@),
                    None => None,
                },
            ) == Some(n@),
            None => listed_name(
                match extension {
                    Some(e) => Some(e@),
                    None => None,
                },
                match stem {
                    Some(s) => Some(s@),
                    None => None,
                },
            ) is None,
        },
{
    match extension {
        None => None,
        Some(e) => {
            if !str_eq(e, "toml") {
                return None;
            }
            let n = match stem {
                Some(s) => s,
                None => "",
            };
            proof {
                reveal_strlit("");
                assert(""@ =~= Seq::<char>::empty());
            }
            let cs = chars_of(n);
            if chars_have_prefix(&cs, ".") {
                None
            } else {
                Some(String::from_str(n))
            }
        },
    }
}

/// One step of a listing: a read summary is kept where it passes the filter
/// and fewer than the filter's limit are kept.
pub open spec fn listing_step(kept: Seq<TemplateSummaryV>, s: TemplateSummaryV, f: TemplateFilterV) -> Seq<
    TemplateSummaryV,
> {
    if matches_filter(s, f) && kept.len() < f.limit {
        kept.push(s)
    } else {
        kept
    }
}

/// What a listing keeps of the summaries read, in order.
pub open spec fn listing_of(read: Seq<TemplateSummaryV>, f: TemplateFilterV) -> Seq<TemplateSummaryV>
    decreases read.len(),
{
    if read.len() == 0 {
        Seq::empty()
    } else {
        listing_step(listing_of(read.drop_last(), f), read.last(), f)
    }
}

/// The summaries read that pass the filter, in order.
pub open spec fn matching(read: Seq<TemplateSummaryV>, f: TemplateFilterV) -> Seq<TemplateSummaryV>
    decreases read.len(),
{
    if read.len() == 0 {
        Seq::empty()
    } else if matches_filter(read.last(), f) {
        matching(read.drop_last(), f).push(read.last())
    } else {
        matching(read.drop_last(), f)
    }
}

/// A listing in progress: the summaries kept so far, under one filter.
pub struct Listing {
    summaries: Vec<TemplateSummary>,
}

impl Listing {
    /// The summaries kept so far.
    pub closed spec fn spec_summaries(&self) -> Seq<TemplateSummaryV> {
        self.summaries@.map_values(|s: TemplateSummary| s@)
    }

    /// An empty listing.
    pub fn new() -> (r: Listing)
        ensures
            r.spec_summaries().len() == 0,
    {
        let r = Listing { summaries: Vec::new() };
        assert(r.spec_summaries() =~= Seq::<TemplateSummaryV>::empty());
        r
    }

    /// Takes the summary of a template that was read: keeps it where it
    /// passes the filter and fewer than the filter's limit are kept, and
    /// answers whether the listing has reached the limit and stops. A
    /// listing fed under one filter never keeps more than its limit.
    pub fn on_loaded(&mut self, summary: TemplateSummary, filter: &TemplateFilter) -> (stop: bool)
        ensures
            matches_filter(summary@, filter@) && old(self).spec_summaries().len() < filter@.limit
                ==> final(self).spec_summaries() == old(self).spec_summaries().push(summary@),
            !(matches_filter(summary@, filter@) && old(self).spec_summaries().len() < filter@.limit)
                ==> final(self).spec_summaries() == old(self).spec_summaries(),
            old(self).spec_summaries().len() <= filter@.limit ==> final(self).spec_summaries().len()
                <= filter@.limit,
            final(self).spec_summaries() == listing_step(old(self).spec_summaries(), summary@, filter@),
            stop == (final(self).spec_summaries().len() >= filter@.limit),
    {
        let ghost before = self.spec_summaries();
        let ghost sv = summary@;
        if self.summaries.len() < filter.limit() && filter_matches(&summary, filter) {
            self.summaries.push(summary);
            assert(self.spec_summaries() =~= before.push(sv));
        }
        self.summaries.len() >= filter.limit()
    }

    /// The summaries kept, in the order they were read.
    pub fn into_summaries(self) -> (r: Vec<TemplateSummary>)
        ensures
            r@.map_values(|s: TemplateSummary| s@) == self.spec_summaries(),
    {
        self.summaries
    }
}

/// A listing fed through `on_loaded` under one filter holds only summaries
/// that match it, and never more than its limit.
pub proof fn law_listing_keeps_matches(
    before: Seq<TemplateSummaryV>,
    after: Seq<TemplateSummaryV>,
    s: TemplateSummaryV,
    f: TemplateFilterV,
)
    requires
        forall|i: int| 0 <= i < before.len() ==> matches_filter(#[trigger] before[i], f),
        before.len() <= f.limit,
        matches_filter(s, f) && before.len() < f.limit ==> after == before.push(s),
        !(matches_filter(s, f) && before.len() < f.limit) ==> after == before,
    ensures
        forall|i: int| 0 <= i < after.len() ==> matches_filter(#[trigger] after[i], f),
        after.len() <= f.limit,
{
    if matches_filter(s, f) && before.len() < f.limit {
        assert forall|i: int| 0 <= i < after.len() implies matches_filter(#[trigger] after[i], f) by {
            if i < before.len() {
                assert(after[i] == before[i]);
            }
        }
    }
}

/// A listing keeps the first matching summaries read, up to the filter's
/// limit: where fewer than the limit match, it keeps every match.
pub proof fn law_listing_keeps_first_matches(read: Seq<TemplateSummaryV>, f: TemplateFilterV)
    ensures
        matching(read, f).len() <= f.limit ==> listing_of(read, f) == matching(read, f),
        matching(read, f).len() > f.limit ==> listing_of(read, f) == matching(read, f).take(
            f.limit as int,
        ),
    decreases read.len(),
{
    if read.len() > 0 {
        let prev = read.drop_last();
        law_listing_keeps_first_matches(prev, f);
        let m = matching(prev, f);
        let last = read.last();
        if matches_filter(last, f) {
            if m.len() < f.limit {
            } else if m.len() == f.limit {
                assert(m.push(last).take(f.limit as int) =~= m);
            } else {
                assert(m.push(last).take(f.limit as int) =~= m.take(f.limit as int));
            }
        }
    }
}

/// Once a listing holds its limit it keeps nothing more, so reading can
/// stop there.
pub proof fn law_full_listing_stops(read: Seq<TemplateSummaryV>, k: int, f: TemplateFilterV)
    requires
        0 <= k <= read.len(),
        listing_of(read.take(k), f).len() >= f.limit,
    ensures
        listing_of(read, f) == listing_of(read.take(k), f),
    decreases read.len() - k,
{
    if k < read.len() {
        let next = read.take(k + 1);
        assert(next.drop_last() =~= read.take(k));
        assert(next.last() == read[k]);
        assert(listing_of(next, f) == listing_of(read.take(k), f));
        law_full_listing_stops(read, k + 1, f);
    } else {
        assert(read.take(k) =~= read);
    }
}

// ── Writing and deleting ────────────────────────────────────────────────

/// The file a template is stored in, relative to the store's directory.
pub fn template_file_name(name: &str) -> (r: String)
    ensures
        r@ == name@ + ".toml"@,
{
    concat2(name, ".toml")
}

/// The temporary file a template is first written to.
pub fn temp_file_name(name: &str) -> (r: String)
    ensures
        r@ == "."@ + name@ + ".tmp"@,
{
    concat3(".", name, ".tmp")
}

/// Decides a template write. `exists` is whether a file for the name is
/// present; it is read only where overwrite is off.
pub fn check_write(name: &str, overwrite: bool, exists: bool) -> (r: Result<(), TemplateError>)
    ensures
        !name_chars_ok(name@) ==> (r matches Err(TemplateError::InvalidName(m)) && m@ == "Template name '"@
            + name@ + "' contains invalid characters. Use only alphanumeric, underscore, and hyphen."@),
        name_chars_ok(name@) && !overwrite && exists ==> (r matches Err(TemplateError::AlreadyExists(m))
            && m@ == "Template '"@ + name@ + "' already exists. Use overwrite: true to replace."@),
        name_chars_ok(name@) && (overwrite || !exists) ==> r is Ok,
{
    if !all_name_chars(name) {
        return Err(
            TemplateError::InvalidName(
                concat3(
                    "Template name '",
                    name,
                    "' contains invalid characters. Use only alphanumeric, underscore, and hyphen.",
                ),
            ),
        );
    }
    if !overwrite && exists {
        return Err(
            TemplateError::AlreadyExists(
                concat3("Template '", name, "' already exists. Use overwrite: true to replace."),
            ),
        );
    }
    Ok(())
}

/// Decides a template deletion: without a file for the name, it is not found.
pub fn check_delete(name: &str, exists: bool) -> (r: Result<(), TemplateError>)
    ensures
        !exists ==> (r matches Err(TemplateError::NotFound(m)) && m@ == "Template '"@ + name@
            + "' not found"@),
        exists ==> r is Ok,
{
    if !exists {
        return Err(TemplateError::NotFound(concat3("Template '", name, "' not found")));
    }
    Ok(())
}

// ── The engine's node format ────────────────────────────────────────────

/// The action of a node in the engine's template format.
#[derive(Debug)]
pub enum NodeAction {
    RunCommand { command: String },
    FileRead { path: String },
    FileWrite { path: String, content: String },
    FileAppend { path: String, content: String },
    /// Any action without a plan-step counterpart.
    Other,
}

/// A validation rule of a node in the engine's template format.
#[derive(Debug, Clone, Copy, PartialEq, Eq, Structural)]
pub enum NodeValidation {
    /// Scored evaluation of the node's output.
    ScoredEvaluation,
    /// Any other rule.
    Other,
}

/// A node of a template in the engine's format.
#[derive(Debug)]
pub struct EngineNode {
    pub name: String,
    pub action: NodeAction,
    pub requires_approval: bool,
    pub validate: Vec<NodeValidation>,
}

/// A template in the engine's node format.
#[derive(Debug)]
pub struct EngineTemplate {
    pub id: String,
    pub description: String,
    pub tags: Vec<String>,
    pub nodes: Vec<EngineNode>,
}

/// The tool and the parameters of a node's action.
pub open spec fn action_step(a: NodeAction) -> (Seq<char>, JsonV) {
    match a {
        NodeAction::RunCommand { command } => (
            "run_command"@,
            JsonV::Object(seq![("command"@, JsonV::Str(command@))]),
        ),
        NodeAction::FileRead { path } => (
            "file_read"@,
            JsonV::Object(seq![("path"@, JsonV::Str(path@))]),
        ),
        NodeAction::FileWrite { path, content } => (
            "file_write"@,
            JsonV::Object(seq![("path"@, JsonV::Str(path@)), ("content"@, JsonV::Str(content@))]),
        ),
        NodeAction::FileAppend { path, content } => (
            "file_append"@,
            JsonV::Object(seq![("path"@, JsonV::Str(path@)), ("content"@, JsonV::Str(content@))]),
        ),
        NodeAction::Other => (
            "run_command"@,
            JsonV::Object(seq![("command"@, JsonV::Str(Seq::empty()))]),
        ),
    }
}

/// The plan step of a node: its action's tool and parameters, its approval
/// flag, "Step: " and its name as description, no timeout, and scored
/// evaluation where one of its rules asks for it.
pub open spec fn node_step(n: EngineNode) -> StepDefinitionV {
    StepDefinitionV {
        name: n.name@,
        tool: action_step(n.action).0,
        parameters: action_step(n.action).1,
        requires_approval: n.requires_approval,
        description: "Step: "@ + n.name@,
        timeout_secs: None,
        evaluate_score: n.validate@.contains(NodeValidation::ScoredEvaluation),
    }
}

fn one_entry(key: &str, value: &String) -> (r: Json)
    ensures
        r@ == JsonV::Object(seq![(key@, JsonV::Str(value@))]),
{
    let entries = vec![entry(key, Json::Str(value.clone()))];
    proof {
        lemma_entries_view(entries@);
        assert(entries_view(entries@) =~= seq![(key@, JsonV::Str(value@))]);
    }
    Json::object(entries)
}

fn two_entries(k1: &str, v1: &String, k2: &str, v2: &String) -> (r: Json)
    ensures
        r@ == JsonV::Object(seq![(k1@, JsonV::Str(v1@)), (k2@, JsonV::Str(v2@))]),
{
    let entries = vec![entry(k1, Json::Str(v1.clone())), entry(k2, Json::Str(v2.clone()))];
    proof {
        lemma_entries_view(entries@);
        assert(entries_view(entries@) =~= seq![(k1@, JsonV::Str(v1@)), (k2@, JsonV::Str(v2@))]);
    }
    Json::object(entries)
}

fn has_scored(v: &Vec<NodeValidation>) -> (r: bool)
    ensures
        r == v@.contains(NodeValidation::ScoredEvaluation),
{
    let mut i: usize = 0;
    while i < v.len()
        invariant
            i <= v.len(),
            forall|j: int| 0 <= j < i ==> v@[j] != NodeValidation::ScoredEvaluation,
        decreases v.len() - i,
    {
        if v[i] == NodeValidation::ScoredEvaluation {
            return true;
        }
        i = i + 1;
    }
    false
}

fn node_to_step(n: &EngineNode) -> (r: StepDefinition)
    ensures
        r@ == node_step(*n),
{
    let (tool, params) = match &n.action {
        NodeAction::RunCommand { command } => ("run_command", one_entry("command", command)),
        NodeAction::FileRead { path } => ("file_read", one_entry("path", path)),
        NodeAction::FileWrite { path, content } => (
            "file_write",
            two_entries("path", path, "content", content),
        ),
        NodeAction::FileAppend { path, content } => (
            "file_append",
            two_entries("path", path, "content", content),
        ),
        NodeAction::Other => {
            let empty = String::new();
            ("run_command", one_entry("command", &empty))
        },
    };
    let mut sd = StepDefinition::new(
        n.name.clone(),
        String::from_str(tool),
        params,
        n.requires_approval,
        concat2("Step: ", n.name.as_str()),
        None,
    );
    sd.set_evaluate_score(has_scored(&n.validate));
    sd
}

/// Converts a template in the engine's node format to a plan template, one
/// step per node in order, version "1.0.0", created and updated now.
pub fn engine_template_to_plan_template(t: &EngineTemplate) -> (r: Result<PlanTemplate, TemplateError>)
    ensures
        t.nodes.len() == 0 ==> (r matches Err(TemplateError::ValidationError(m)) && m@
            == "Template must have at least one step"@),
        t.nodes.len() > 0 ==> (r matches Ok(p) && p.spec_name() == t.id@ && p.spec_description()
            == t.description@ && p.spec_version() == "1.0.0"@ && p.spec_tags() == t.tags@.map_values(
            |s: String| s@,
        ) && p.spec_steps() == t.nodes@.map_values(|n: EngineNode| node_step(n))
            && p.spec_constraints() is None && p.spec_metadata().len() == 0 && p.spec_created_at()
            == p.spec_updated_at()),
{
    let mut steps: Vec<StepDefinition> = Vec::new();
    let mut i: usize = 0;
    while i < t.nodes.len()
        invariant
            i <= t.nodes.len(),
            steps.len() == i,
            forall|j: int| 0 <= j < i ==> #[trigger] steps@[j]@ == node_step(t.nodes@[j]),
        decreases t.nodes.len() - i,
    {
        steps.push(node_to_step(&t.nodes[i]));
        i = i + 1;
    }
    proof {
        assert(steps@.map_values(|s: StepDefinition| s@) =~= t.nodes@.map_values(
            |n: EngineNode| node_step(n),
        ));
    }
    let now = now_millis();
    PlanTemplate::new(
        t.id.clone(),
        t.description.clone(),
        String::from_str("1.0.0"),
        copy_strings(&t.tags),
        steps,
        None,
        Vec::new(),
        now,
        now,
    )
}

} // verus!
