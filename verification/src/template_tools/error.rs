//! Error types of the template tools, with the user-readable message of each,
//! and the result shape of a template tool call.

use vstd::prelude::*;
use vstd::string::StringExecFns;
use crate::text::{concat2, decimal, u64_to_decimal};

verus! {

/// Errors of template storage and validation.
#[derive(Debug, Clone, PartialEq, Eq)]
pub enum TemplateError {
    /// No template is stored under the name.
    NotFound(String),
    /// The template name is invalid.
    InvalidName(String),
    /// A template with this name already exists and overwrite is off.
    AlreadyExists(String),
    /// The template failed validation.
    ValidationError(String),
    /// The template could not be read.
    DeserializationFailed(String),
    /// The template could not be written.
    SerializationFailed(String),
    /// The storage failed.
    RepositoryError(String),
    /// Two writes collided.
    ConcurrentWriteConflict(String),
    /// Internal error.
    Internal(String),
}

impl TemplateError {
    /// The user-readable message of each variant.
    pub open spec fn spec_message(&self) -> Seq<char> {
        match self {
            TemplateError::NotFound(s) => "Template not found: "@ + s@,
            TemplateError::InvalidName(s) => "Invalid template name: "@ + s@,
            TemplateError::AlreadyExists(s) => "Template already exists: "@ + s@,
            TemplateError::ValidationError(s) => "Template validation failed: "@ + s@,
            TemplateError::DeserializationFailed(s) => "Deserialization failed: "@ + s@,
            TemplateError::SerializationFailed(s) => "Serialization failed: "@ + s@,
            TemplateError::RepositoryError(s) => "Repository error: "@ + s@,
            TemplateError::ConcurrentWriteConflict(s) => "Concurrent write conflict: "@ + s@,
            TemplateError::Internal(s) => "Internal error: "@ + s@,
        }
    }

    /// User-readable message.
    pub fn message(&self) -> (r: String)
        ensures
            r@ == self.spec_message(),
    {
        match self {
            TemplateError::NotFound(s) => concat2("Template not found: ", s.as_str()),
            TemplateError::InvalidName(s) => concat2("Invalid template name: ", s.as_str()),
            TemplateError::AlreadyExists(s) => concat2("Template already exists: ", s.as_str()),
            TemplateError::ValidationError(s) => concat2("Template validation failed: ", s.as_str()),
            TemplateError::DeserializationFailed(s) => concat2(
                "Deserialization failed: ",
                s.as_str(),
            ),
            TemplateError::SerializationFailed(s) => concat2("Serialization failed: ", s.as_str()),
            TemplateError::RepositoryError(s) => concat2("Repository error: ", s.as_str()),
            TemplateError::ConcurrentWriteConflict(s) => concat2(
                "Concurrent write conflict: ",
                s.as_str(),
            ),
            TemplateError::Internal(s) => concat2("Internal error: ", s.as_str()),
        }
    }
}

/// Error type returned by the template tool handlers.
#[derive(Debug, Clone, PartialEq, Eq)]
pub enum HandlerError {
    /// The input arguments did not match the expected schema.
    InvalidArguments(String),
    /// The template storage or validation failed.
    TemplateError(TemplateError),
    /// The operation timed out.
    Timeout { operation: String, duration_secs: u64 },
    /// Internal error.
    Internal(String),
}

impl HandlerError {
    /// The user-readable message of each variant.
    pub open spec fn spec_message(&self) -> Seq<char> {
        match self {
            HandlerError::InvalidArguments(s) => "Invalid arguments: "@ + s@,
            HandlerError::TemplateError(e) => "Template error: "@ + e.spec_message(),
            HandlerError::Timeout { operation, duration_secs } => "Operation timed out after "@
                + decimal(*duration_secs as nat) + "s: "@ + operation@,
            HandlerError::Internal(s) => "Internal error: "@ + s@,
        }
    }

    /// User-readable message.
    pub fn message(&self) -> (r: String)
        ensures
            r@ == self.spec_message(),
    {
        match self {
            HandlerError::InvalidArguments(s) => concat2("Invalid arguments: ", s.as_str()),
            HandlerError::TemplateError(e) => concat2("Template error: ", e.message().as_str()),
            HandlerError::Timeout { operation, duration_secs } => {
                let mut r = String::from_str("Operation timed out after ");
                r.append(u64_to_decimal(*duration_secs).as_str());
                r.append("s: ");
                r.append(operation.as_str());
                r
            },
            HandlerError::Internal(s) => concat2("Internal error: ", s.as_str()),
        }
    }
}

/// A single content item of a template tool result.
#[derive(Debug, Clone, PartialEq, Eq)]
pub struct ToolContentItem {
    /// Content type ("text").
    pub content_type: String,
    /// The content.
    pub text: String,
}

/// The result of a template tool call.
#[derive(Debug, Clone, PartialEq, Eq)]
pub struct ToolCallResult {
    /// Content items to return to the client.
    pub content: Vec<ToolContentItem>,
    /// Whether the result represents an error.
    pub is_error: bool,
}

impl ToolCallResult {
    /// A successful result holding the given (JSON) text.
    pub fn success_text(text: String) -> (r: ToolCallResult)
        ensures
            r.content@.len() == 1,
            r.content@[0].content_type@ == "text"@,
            r.content@[0].text@ == text@,
            !r.is_error,
    {
        ToolCallResult {
            content: vec![ToolContentItem { content_type: String::from_str("text"), text }],
            is_error: false,
        }
    }

    /// An error result holding the message.
    pub fn error(message: String) -> (r: ToolCallResult)
        ensures
            r.content@.len() == 1,
            r.content@[0].content_type@ == "text"@,
            r.content@[0].text@ == message@,
            r.is_error,
    {
        ToolCallResult {
            content: vec![ToolContentItem { content_type: String::from_str("text"), text: message }],
            is_error: true,
        }
    }
}

} // verus!
