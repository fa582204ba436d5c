//! What the workflow tool says of itself: its name, what it is for, and what a request to it
//! may hold.

use crate::document::{array_value, bool_value, items_of, text_array, text_value, u64_value, Fields};
use crate::json::{json_of, Json};
use crate::text::shape;
use serde_json::Value;
use vstd::prelude::*;

verus! {

/// The name of the tool.
pub const NAME: &'static str = "workflow";

/// What the tool is for.
pub const DESCRIPTION: &'static str =
    "Start, run, inspect, or cancel a Workflow. Workflows execute deterministic JS with args, phase/log progress, and task(...) calls that dispatch real sub-agents through Fleet/sub-agent scheduling. Use action=start for detached orchestration and action=status with run_id to inspect progress. Use action=run when the model needs the final result before continuing.";

/// What each field of a request is for.
pub const ABOUT_ACTION: &'static str =
    "start (default) launches a Workflow in the background. run waits for completion. status lists runs or inspects run_id. cancel stops a run and its child agents.";

pub const ABOUT_RUN_ID: &'static str = "Workflow run id for action=status or action=cancel.";

pub const ABOUT_SCRIPT: &'static str =
    "Workflow JS source. The runtime provides args, task(...), parallel(...), pipeline(...), log(...), phase(...), and budget.";

pub const ABOUT_SOURCE_PATH: &'static str =
    "Path to a .workflow.js script inside the workspace. Use instead of script for checked-in workflows.";

pub const ABOUT_ARGS: &'static str =
    "JSON value exposed to the script as args. Defaults to null.";

pub const ABOUT_TOKEN_BUDGET: &'static str =
    "Optional shared Workflow budget hint and default child token budget ceiling.";

pub const ABOUT_WAIT: &'static str =
    "For action=start, wait for completion instead of returning immediately.";

/// The schema of a value of one kind.
pub open spec fn typed_entries(kind: Seq<char>, about: Seq<char>) -> Seq<(Seq<char>, Json)> {
    seq![("type"@, Json::Text(kind)), ("description"@, Json::Text(about))]
}

/// The schema of `action`.
pub open spec fn action_entries() -> Seq<(Seq<char>, Json)> {
    seq![
        ("type"@, Json::Text("string"@)),
        ("enum"@, text_array(seq!["start"@, "run"@, "status"@, "cancel"@])),
        ("description"@, Json::Text(ABOUT_ACTION@)),
    ]
}

/// The schema of `args`.
pub open spec fn args_entries() -> Seq<(Seq<char>, Json)> {
    seq![("description"@, Json::Text(ABOUT_ARGS@))]
}

/// The schema of `token_budget`.
pub open spec fn token_budget_entries() -> Seq<(Seq<char>, Json)> {
    seq![
        ("type"@, Json::Text("integer"@)),
        ("minimum"@, Json::Unsigned(1)),
        ("description"@, Json::Text(ABOUT_TOKEN_BUDGET@)),
    ]
}

/// The schemas of the fields of a request.
pub open spec fn property_entries() -> Seq<(Seq<char>, Json)> {
    seq![
        ("action"@, Json::Object(action_entries())),
        ("run_id"@, Json::Object(typed_entries("string"@, ABOUT_RUN_ID@))),
        ("script"@, Json::Object(typed_entries("string"@, ABOUT_SCRIPT@))),
        ("source_path"@, Json::Object(typed_entries("string"@, ABOUT_SOURCE_PATH@))),
        ("args"@, Json::Object(args_entries())),
        ("token_budget"@, Json::Object(token_budget_entries())),
        ("wait"@, Json::Object(typed_entries("boolean"@, ABOUT_WAIT@))),
    ]
}

/// The schema of a request.
pub open spec fn schema_entries() -> Seq<(Seq<char>, Json)> {
    seq![
        ("type"@, Json::Text("object"@)),
        ("properties"@, Json::Object(property_entries())),
        ("required"@, Json::Array(Seq::empty())),
        ("additionalProperties"@, Json::Bool(false)),
    ]
}

/// The schema of a value of one kind.
fn typed_schema(kind: &str, about: &str) -> (doc: Value)
    ensures
        json_of(doc) == Json::Object(typed_entries(kind@, about@)),
{
    proof {
        reveal_strlit("type");
        assert(shape("type"@) == (4nat, 't', 'y'));
        reveal_strlit("description");
        assert(shape("description"@) == (11nat, 'd', 'e'));
    }
    let fields = Fields::new().with("type", text_value(kind)).with(
        "description",
        text_value(about),
    );
    assert(fields@ =~= typed_entries(kind@, about@));
    fields.object()
}

/// The schema of `action`.
fn action_schema() -> (doc: Value)
    ensures
        json_of(doc) == Json::Object(action_entries()),
{
    let mut names: Vec<Value> = Vec::new();
    names.push(text_value("start"));
    names.push(text_value("run"));
    names.push(text_value("status"));
    names.push(text_value("cancel"));
    proof {
        let texts = seq!["start"@, "run"@, "status"@, "cancel"@];
        assert(items_of(names@) =~= texts.map_values(|text: Seq<char>| Json::Text(text)));
        reveal_strlit("type");
        assert(shape("type"@) == (4nat, 't', 'y'));
        reveal_strlit("enum");
        assert(shape("enum"@) == (4nat, 'e', 'n'));
        reveal_strlit("description");
        assert(shape("description"@) == (11nat, 'd', 'e'));
    }
    let fields = Fields::new().with("type", text_value("string")).with(
        "enum",
        array_value(names),
    ).with("description", text_value(ABOUT_ACTION));
    assert(fields@ =~= action_entries());
    fields.object()
}

/// The schema of `args`.
fn args_schema() -> (doc: Value)
    ensures
        json_of(doc) == Json::Object(args_entries()),
{
    let fields = Fields::new().with("description", text_value(ABOUT_ARGS));
    assert(fields@ =~= args_entries());
    fields.object()
}

/// The schema of `token_budget`.
fn token_budget_schema() -> (doc: Value)
    ensures
        json_of(doc) == Json::Object(token_budget_entries()),
{
    proof {
        reveal_strlit("type");
        assert(shape("type"@) == (4nat, 't', 'y'));
        reveal_strlit("minimum");
        assert(shape("minimum"@) == (7nat, 'm', 'i'));
        reveal_strlit("description");
        assert(shape("description"@) == (11nat, 'd', 'e'));
    }
    let fields = Fields::new().with("type", text_value("integer")).with(
        "minimum",
        u64_value(1),
    ).with("description", text_value(ABOUT_TOKEN_BUDGET));
    assert(fields@ =~= token_budget_entries());
    fields.object()
}

/// The schemas of the fields of a request.
fn property_schemas() -> (doc: Value)
    ensures
        json_of(doc) == Json::Object(property_entries()),
{
    proof {
        reveal_strlit("action");
        assert(shape("action"@) == (6nat, 'a', 'c'));
        reveal_strlit("run_id");
        assert(shape("run_id"@) == (6nat, 'r', 'u'));
        reveal_strlit("script");
        assert(shape("script"@) == (6nat, 's', 'c'));
        reveal_strlit("source_path");
        assert(shape("source_path"@) == (11nat, 's', 'o'));
        reveal_strlit("args");
        assert(shape("args"@) == (4nat, 'a', 'r'));
        reveal_strlit("token_budget");
        assert(shape("token_budget"@) == (12nat, 't', 'o'));
        reveal_strlit("wait");
        assert(shape("wait"@) == (4nat, 'w', 'a'));
    }
    let fields = Fields::new().with("action", action_schema()).with(
        "run_id",
        typed_schema("string", ABOUT_RUN_ID),
    ).with("script", typed_schema("string", ABOUT_SCRIPT)).with(
        "source_path",
        typed_schema("string", ABOUT_SOURCE_PATH),
    ).with("args", args_schema()).with("token_budget", token_budget_schema()).with(
        "wait",
        typed_schema("boolean", ABOUT_WAIT),
    );
    assert(fields@ =~= property_entries());
    fields.object()
}

/// The schema of a request.
pub(crate) fn request_schema() -> (doc: Value)
    ensures
        json_of(doc) == Json::Object(schema_entries()),
{
    let none: Vec<Value> = Vec::new();
    assert(items_of(none@) =~= Seq::empty());
    proof {
        reveal_strlit("type");
        assert(shape("type"@) == (4nat, 't', 'y'));
        reveal_strlit("properties");
        assert(shape("properties"@) == (10nat, 'p', 'r'));
        reveal_strlit("required");
        assert(shape("required"@) == (8nat, 'r', 'e'));
        reveal_strlit("additionalProperties");
        assert(shape("additionalProperties"@) == (20nat, 'a', 'd'));
    }
    let fields = Fields::new().with("type", text_value("object")).with(
        "properties",
        property_schemas(),
    ).with("required", array_value(none)).with("additionalProperties", bool_value(false));
    assert(fields@ =~= schema_entries());
    fields.object()
}

} // verus!
