//! What the template tool handlers decide and answer. The store itself and
//! the rendering of documents as text are driven by the application.

use vstd::prelude::*;
use vstd::string::StringExecFns;
use crate::json::{entries_view, entry, lemma_entries_view, Json, JsonV};
use crate::text::{chars_of, concat3, str_eq, trim_chars, trimmed};
use crate::template_tools::error::{HandlerError, ToolCallResult};

verus! {

/// Decides a create request before anything is written. A name that is
/// empty after trimming is refused; where overwrite is off and a template of
/// that name exists (`exists` is read only then), the answer is an error
/// result naming it; otherwise (`Ok(None)`) the template is written.
pub fn create_decision(name: &str, overwrite: bool, exists: bool) -> (r: Result<
    Option<ToolCallResult>,
    HandlerError,
>)
    ensures
        trimmed(name@).len() == 0 ==> (r matches Err(HandlerError::InvalidArguments(m)) && m@
            == "Template name cannot be empty"@),
        trimmed(name@).len() > 0 && !overwrite && exists ==> (r matches Ok(Some(res))
            && res.is_error && res.content@.len() == 1 && res.content@[0].text@ == "Template '"@
            + name@ + "' already exists. Use overwrite: true to replace."@),
        trimmed(name@).len() > 0 && (overwrite || !exists) ==> r matches Ok(None),
{
    let cs = chars_of(name);
    let t = trim_chars(&cs);
    if t.len() == 0 {
        return Err(HandlerError::InvalidArguments(String::from_str("Template name cannot be empty")));
    }
    if !overwrite && exists {
        return Ok(
            Some(
                ToolCallResult::error(
                    concat3("Template '", name, "' already exists. Use overwrite: true to replace."),
                ),
            ),
        );
    }
    Ok(None)
}

/// The document answering a created template: its name, its path under the
/// project's template directory, and "created".
pub open spec fn created_document(name: Seq<char>) -> JsonV {
    JsonV::Object(
        seq![
            ("name"@, JsonV::Str(name)),
            ("path"@, JsonV::Str(".rigorix/templates/"@ + name + ".toml"@)),
            ("status"@, JsonV::Str("created"@)),
        ],
    )
}

/// The document answering a created template.
pub fn created_json(name: &str) -> (r: Json)
    ensures
        r@ == created_document(name@),
{
    let entries = vec![
        entry("name", Json::string(name)),
        entry("path", Json::Str(concat3(".rigorix/templates/", name, ".toml"))),
        entry("status", Json::string("created")),
    ];
    proof {
        lemma_entries_view(entries@);
        assert(entries_view(entries@) =~= created_document(name@)->Object_0);
    }
    Json::object(entries)
}

/// The document answering a template validation: valid, without warnings,
/// errors or cost estimate.
pub open spec fn template_validation_document() -> JsonV {
    JsonV::Object(
        seq![
            ("valid"@, JsonV::Bool(true)),
            ("warnings"@, JsonV::Array(Seq::empty())),
            ("errors"@, JsonV::Array(Seq::empty())),
            ("estimated_cost"@, JsonV::Null),
        ],
    )
}

/// The document answering a template validation.
pub fn template_validation_json() -> (r: Json)
    ensures
        r@ == template_validation_document(),
{
    let w: Vec<Json> = Vec::new();
    let e: Vec<Json> = Vec::new();
    let entries = vec![
        entry("valid", Json::Bool(true)),
        entry("warnings", Json::Array(w)),
        entry("errors", Json::Array(e)),
        entry("estimated_cost", Json::Null),
    ];
    proof {
        lemma_entries_view(entries@);
        assert(crate::json::array_view(Seq::<Json>::empty()) =~= Seq::<JsonV>::empty());
        assert(entries_view(entries@) =~= template_validation_document()->Object_0);
    }
    Json::object(entries)
}

/// Whether a get request asks for TOML text.
pub fn wants_toml(format: Option<&str>) -> (r: bool)
    ensures
        r == (match format {
            Some(f) => f@ == "toml"@,
            None => false,
        }),
{
    match format {
        Some(f) => str_eq(f, "toml"),
        None => false,
    }
}

/// The document answering a get request for TOML text.
pub open spec fn toml_document(name: Seq<char>, content: Seq<char>) -> JsonV {
    JsonV::Object(
        seq![
            ("name"@, JsonV::Str(name)),
            ("format"@, JsonV::Str("toml"@)),
            ("content"@, JsonV::Str(content)),
        ],
    )
}

/// The document answering a get request for TOML text.
pub fn toml_json(name: &str, content: &str) -> (r: Json)
    ensures
        r@ == toml_document(name@, content@),
{
    let entries = vec![
        entry("name", Json::string(name)),
        entry("format", Json::string("toml")),
        entry("content", Json::string(content)),
    ];
    proof {
        lemma_entries_view(entries@);
        assert(entries_view(entries@) =~= toml_document(name@, content@)->Object_0);
    }
    Json::object(entries)
}

} // verus!
