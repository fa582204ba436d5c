//! What a request to the workflow tool can fail with.

use vstd::prelude::*;

verus! {

/// Why a request was turned down.
#[derive(Debug)]
pub enum ToolError {
    /// The request says something that the tool cannot act on.
    InvalidInput { message: String },
    /// The request leaves out a field that it needs.
    MissingField { field: String },
    /// The request was fine and carrying it out failed.
    ExecutionFailed { message: String },
    /// The request asks for something that it may not have.
    PermissionDenied { message: String },
}

/// A `ToolError` by its variant and its text.
pub enum ErrorView {
    InvalidInput(Seq<char>),
    MissingField(Seq<char>),
    ExecutionFailed(Seq<char>),
    PermissionDenied(Seq<char>),
}

impl View for ToolError {
    type V = ErrorView;

    open spec fn view(&self) -> ErrorView {
        match self {
            ToolError::InvalidInput { message } => ErrorView::InvalidInput(message@),
            ToolError::MissingField { field } => ErrorView::MissingField(field@),
            ToolError::ExecutionFailed { message } => ErrorView::ExecutionFailed(message@),
            ToolError::PermissionDenied { message } => ErrorView::PermissionDenied(message@),
        }
    }
}

/// A result whose error stands by its variant and its text.
pub open spec fn outcome<T>(result: Result<T, ToolError>) -> Result<T, ErrorView> {
    match result {
        Ok(value) => Ok(value),
        Err(error) => Err(error@),
    }
}

impl ToolError {
    pub fn invalid_input(message: String) -> (error: ToolError)
        ensures
            error@ == ErrorView::InvalidInput(message@),
    {
        ToolError::InvalidInput { message }
    }

    pub fn missing_field(field: &str) -> (error: ToolError)
        ensures
            error@ == ErrorView::MissingField(field@),
    {
        ToolError::MissingField { field: field.to_owned() }
    }

    pub fn execution_failed(message: String) -> (error: ToolError)
        ensures
            error@ == ErrorView::ExecutionFailed(message@),
    {
        ToolError::ExecutionFailed { message }
    }

    pub fn permission_denied(message: String) -> (error: ToolError)
        ensures
            error@ == ErrorView::PermissionDenied(message@),
    {
        ToolError::PermissionDenied { message }
    }
}

} // verus!
