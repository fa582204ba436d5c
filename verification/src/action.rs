//! What a request asks the workflow tool to do.

use crate::error::{outcome, ErrorView, ToolError};
use crate::json::{json_of, optional_str, text_field};
use crate::text::{join3, lowered, same_text, trimmed};
use serde_json::Value;
use vstd::prelude::*;

verus! {

/// The four things that a request can ask for.
#[derive(Debug, Clone, Copy, PartialEq, Eq, Structural)]
pub enum WorkflowAction {
    Start,
    Run,
    Status,
    Cancel,
}

/// The action that a word stands for, if any.
pub open spec fn action_word(word: Seq<char>) -> Option<WorkflowAction> {
    if word == ""@ || word == "start"@ || word == "spawn"@ {
        Some(WorkflowAction::Start)
    } else if word == "run"@ || word == "wait"@ {
        Some(WorkflowAction::Run)
    } else if word == "status"@ || word == "list"@ || word == "inspect"@ {
        Some(WorkflowAction::Status)
    } else if word == "cancel"@ || word == "stop"@ || word == "abort"@ {
        Some(WorkflowAction::Cancel)
    } else {
        None
    }
}

/// What a request asks for whose `action` is `action`: to start a run where it names none,
/// else what the word stands for, white space around it and the case of its letters aside.
pub open spec fn requested_action(action: Option<Seq<char>>) -> Result<WorkflowAction, ErrorView> {
    match action {
        None => Ok(WorkflowAction::Start),
        Some(text) => {
            let word = lowered(trimmed(text));
            match action_word(word) {
                Some(action) => Ok(action),
                None => Err(
                    ErrorView::InvalidInput(
                        "Invalid workflow action '"@ + word
                            + "'. Use start, run, status, or cancel."@,
                    ),
                ),
            }
        },
    }
}

/// The action that a word stands for, if any.
fn known_action(word: &str) -> (action: Option<WorkflowAction>)
    ensures
        action == action_word(word@),
{
    if same_text(word, "") || same_text(word, "start") || same_text(word, "spawn") {
        Some(WorkflowAction::Start)
    } else if same_text(word, "run") || same_text(word, "wait") {
        Some(WorkflowAction::Run)
    } else if same_text(word, "status") || same_text(word, "list") || same_text(word, "inspect") {
        Some(WorkflowAction::Status)
    } else if same_text(word, "cancel") || same_text(word, "stop") || same_text(word, "abort") {
        Some(WorkflowAction::Cancel)
    } else {
        None
    }
}

/// What a request asks for whose `action` is `action`.
pub fn action_from_text(action: Option<&str>) -> (result: Result<WorkflowAction, ToolError>)
    ensures
        outcome(result) == requested_action(
            match action {
                Some(text) => Some(text@),
                None => None,
            },
        ),
{
    match action {
        None => Ok(WorkflowAction::Start),
        Some(text) => {
            let word = text.trim().to_ascii_lowercase();
            match known_action(&word) {
                Some(action) => Ok(action),
                None => Err(
                    ToolError::invalid_input(
                        join3(
                            "Invalid workflow action '",
                            &word,
                            "'. Use start, run, status, or cancel.",
                        ),
                    ),
                ),
            }
        },
    }
}

/// What a request asks for: what its field `action` says.
pub fn parse_workflow_action(input: &Value) -> (result: Result<WorkflowAction, ToolError>)
    ensures
        outcome(result) == requested_action(text_field(json_of(*input), "action"@)),
{
    action_from_text(optional_str(input, "action"))
}

} // verus!
