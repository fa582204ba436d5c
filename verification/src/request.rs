//! What a request comes to: the command in it, and the run that it starts.

use crate::action::{parse_workflow_action, requested_action, WorkflowAction};
use crate::document::null_value;
use crate::error::{ErrorView, ToolError};
use crate::json::{
    bool_field, field, json_of, optional_bool, optional_json, optional_str, optional_u64, text_field,
    u64_field, Json,
};
use crate::source::{SourceView, WorkflowSource};
use crate::text::join2;
use serde_json::Value;
use uuid::Uuid;
use vstd::prelude::*;

verus! {

/// What a request asks for, with what it takes to do it.
#[derive(Debug)]
pub enum WorkflowCommand {
    /// To start a run, and with `wait` to wait until it is over.
    Start { wait: bool },
    /// To say how the runs are.
    Status,
    /// To cancel a run.
    Cancel { run_id: String },
}

/// A `WorkflowCommand` as values.
pub enum CommandView {
    Start { wait: bool },
    Status,
    Cancel { run_id: Seq<char> },
}

impl View for WorkflowCommand {
    type V = CommandView;

    open spec fn view(&self) -> CommandView {
        match self {
            WorkflowCommand::Start { wait } => CommandView::Start { wait: *wait },
            WorkflowCommand::Status => CommandView::Status,
            WorkflowCommand::Cancel { run_id } => CommandView::Cancel { run_id: run_id@ },
        }
    }
}

/// A command or an error, by their views.
pub open spec fn command_outcome(
    result: Result<WorkflowCommand, ToolError>,
) -> Result<CommandView, ErrorView> {
    match result {
        Ok(command) => Ok(command@),
        Err(error) => Err(error@),
    }
}

/// The action that a request asks for.
pub open spec fn action_of(doc: Json) -> Result<WorkflowAction, ErrorView> {
    requested_action(text_field(doc, "action"@))
}

/// The command in a request: `run` is `start` with waiting, and to cancel takes a run.
pub open spec fn requested_command(doc: Json) -> Result<CommandView, ErrorView> {
    match action_of(doc) {
        Ok(WorkflowAction::Start) => Ok(
            CommandView::Start { wait: bool_field(doc, "wait"@, false) },
        ),
        Ok(WorkflowAction::Run) => Ok(CommandView::Start { wait: true }),
        Ok(WorkflowAction::Status) => Ok(CommandView::Status),
        Ok(WorkflowAction::Cancel) => match text_field(doc, "run_id"@) {
            Some(run_id) => Ok(CommandView::Cancel { run_id }),
            None => Err(ErrorView::MissingField("run_id"@)),
        },
        Err(error) => Err(error),
    }
}

/// The command in a request.
pub fn parse_command(input: &Value) -> (command: Result<WorkflowCommand, ToolError>)
    ensures
        command_outcome(command) == requested_command(json_of(*input)),
{
    match parse_workflow_action(input) {
        Ok(WorkflowAction::Start) => Ok(
            WorkflowCommand::Start { wait: optional_bool(input, "wait", false) },
        ),
        Ok(WorkflowAction::Run) => Ok(WorkflowCommand::Start { wait: true }),
        Ok(WorkflowAction::Status) => Ok(WorkflowCommand::Status),
        Ok(WorkflowAction::Cancel) => match optional_str(input, "run_id") {
            Some(run_id) => Ok(WorkflowCommand::Cancel { run_id: run_id.to_owned() }),
            None => Err(ToolError::missing_field("run_id")),
        },
        Err(error) => Err(error),
    }
}

/// A run that is to be started: its script, the arguments of the script, and what it may
/// spend.
#[derive(Debug)]
pub struct StartRequest {
    pub source: WorkflowSource,
    pub args: Value,
    pub token_budget: Option<u64>,
}

/// A `StartRequest` as values.
pub struct StartView {
    pub source: SourceView,
    pub args: Json,
    pub token_budget: Option<u64>,
}

impl View for StartRequest {
    type V = StartView;

    open spec fn view(&self) -> StartView {
        StartView {
            source: self.source@,
            args: json_of(self.args),
            token_budget: self.token_budget,
        }
    }
}

/// The run that a request starts with a script: without arguments they are `null`, and without
/// a budget, or with one of zero, there is no bound.
pub open spec fn requested_start(doc: Json, source: SourceView) -> StartView {
    StartView {
        source,
        args: match field(doc, "args"@) {
            Some(args) => args,
            None => Json::Null,
        },
        token_budget: if u64_field(doc, "token_budget"@, 0) > 0 {
            Some(u64_field(doc, "token_budget"@, 0))
        } else {
            None
        },
    }
}

impl StartRequest {
    /// The run that a request starts with a script.
    pub fn new(input: &Value, source: WorkflowSource) -> (request: StartRequest)
        ensures
            request@ == requested_start(json_of(*input), source@),
    {
        let args = match optional_json(input, "args") {
            Some(args) => args,
            None => null_value(),
        };
        let token_budget: u64 = optional_u64(input, "token_budget", 0);
        StartRequest {
            source,
            args,
            token_budget: if token_budget > 0 {
                Some(token_budget)
            } else {
                None
            },
        }
    }
}

/// A digit of a number in base sixteen, in small letters.
pub open spec fn is_hex_digit(c: char) -> bool {
    '0' <= c <= '9' || 'a' <= c <= 'f'
}

/// The text of a random UUID: 32 digits in five groups, of which one tells the version and
/// one the variant.
pub open spec fn is_uuid_text(text: Seq<char>) -> bool {
    &&& text.len() == 36
    &&& forall|i: int|
        0 <= i < 36 ==> if i == 8 || i == 13 || i == 18 || i == 23 {
            #[trigger] text[i] == '-'
        } else {
            is_hex_digit(text[i])
        }
    &&& text[14] == '4'
    &&& text[19] == '8' || text[19] == '9' || text[19] == 'a' || text[19] == 'b'
}

/// `Uuid::new_v4`, as text: a UUID of version 4, by the operating system's source of random
/// numbers, of which it needs one. Which UUID comes is left to chance.
#[verifier::external_body]
pub fn random_uuid() -> (text: String)
    ensures
        is_uuid_text(text@),
{
    Uuid::new_v4().to_string()
}

/// The id of a run: a fixed word and eight digits.
pub open spec fn is_run_id(run_id: Seq<char>) -> bool {
    exists|digits: Seq<char>|
        #![trigger "workflow_"@ + digits]
        run_id == "workflow_"@ + digits && digits.len() == 8 && forall|i: int|
            0 <= i < 8 ==> is_hex_digit(#[trigger] digits[i])
}

/// The id of a run, by the first eight digits of a UUID.
pub fn run_id_from(uuid: &str) -> (run_id: String)
    requires
        is_uuid_text(uuid@),
    ensures
        run_id@ == "workflow_"@ + uuid@.take(8),
        is_run_id(run_id@),
{
    let digits = uuid.substring_char(0, 8);
    assert(digits@ =~= uuid@.take(8));
    join2("workflow_", digits)
}

/// The id of a new run, by a random UUID that is drawn for it.
pub fn new_run_id() -> (run_id: String)
    ensures
        exists|uuid: String| #[trigger]
            call_ensures(random_uuid, (), uuid) && run_id@ == "workflow_"@ + uuid@.take(8),
        is_run_id(run_id@),
{
    run_id_from(&random_uuid())
}

} // verus!
