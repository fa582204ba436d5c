//! What holds of how a request is read: which of its fields count, and for what.
//!
//! As in the laws on agents, `call_ensures` says that a call with these arguments gave that
//! result.

use crate::action::{action_from_text, parse_workflow_action, WorkflowAction};
use crate::document::{pretty_text, ToolResult};
use crate::error::ToolError;
use crate::json::{
    bool_field, entry, field, json_of, optional_bool, optional_json, optional_str, optional_u64,
    text_field, u64_field, Json,
};
use crate::request::{
    parse_command, requested_start, run_id_from, StartRequest, WorkflowCommand,
};
use crate::run_laws::{is_execution_failed, is_invalid_input};
use crate::source::{
    file_read, path_resolved, plan_source, source_target, workflow_source, workspace_resolved,
    PathView, SourcePath, SourcePlan, SourceStep, SourceTarget, SourceView, WorkflowSource,
};
use crate::sync::unless_poisoned;
use crate::text::{lowered, trimmed};
use crate::tool::{ApprovalRequirement, WorkflowTool};
use serde_json::Value;
use vstd::prelude::*;

verus! {

/// Whether a document says `value` under `key`: it is an object with that entry, and with no
/// other under that key.
pub open spec fn says(doc: Json, key: Seq<char>, value: Json) -> bool {
    doc matches Json::Object(entries) && exists|i: int|
        0 <= i < entries.len() && #[trigger] entries[i] == (key, value) && forall|j: int|
            0 <= j < entries.len() && j != i ==> (#[trigger] entries[j]).0 != key
}

/// Whether a document says nothing under `key`.
pub open spec fn is_silent(doc: Json, key: Seq<char>) -> bool {
    doc matches Json::Object(entries) ==> forall|j: int|
        0 <= j < entries.len() ==> (#[trigger] entries[j]).0 != key
}

proof fn lemma_entry_said(entries: Seq<(Seq<char>, Json)>, i: int)
    requires
        0 <= i < entries.len(),
        forall|j: int| i < j < entries.len() ==> (#[trigger] entries[j]).0 != entries[i].0,
    ensures
        entry(entries, entries[i].0) == Some(entries[i].1),
    decreases entries.len(),
{
    let last = entries.len() - 1;
    if i < last {
        let front = entries.drop_last();
        assert(entries[last].0 != entries[i].0);
        assert(front[i] == entries[i]);
        assert forall|j: int| i < j < front.len() implies (#[trigger] front[j]).0 != front[i].0 by {
            assert(front[j] == entries[j]);
        }
        lemma_entry_said(front, i);
    }
}

proof fn lemma_entry_unsaid(entries: Seq<(Seq<char>, Json)>, key: Seq<char>)
    requires
        forall|j: int| 0 <= j < entries.len() ==> (#[trigger] entries[j]).0 != key,
    ensures
        entry(entries, key) is None,
    decreases entries.len(),
{
    if entries.len() > 0 {
        let front = entries.drop_last();
        assert(entries[entries.len() - 1].0 != key);
        assert forall|j: int| 0 <= j < front.len() implies (#[trigger] front[j]).0 != key by {
            assert(front[j] == entries[j]);
        }
        lemma_entry_unsaid(front, key);
    }
}

/// What a document says under a key is what is read there, whatever else it says: the value, the
/// text of a text, the flag of a flag, the number of a whole number that is not negative. Where
/// it says nothing, or something of another kind, there is none.
pub proof fn law_what_is_said_is_read(
    doc: Json,
    key: Seq<char>,
    value: Json,
    flag: bool,
    number: u64,
)
    ensures
        says(doc, key, value) ==> {
            &&& field(doc, key) == Some(value)
            &&& value matches Json::Text(text) ==> text_field(doc, key) == Some(text)
            &&& !(value is Text) ==> text_field(doc, key) is None
            &&& value matches Json::Bool(said) ==> bool_field(doc, key, flag) == said
            &&& !(value is Bool) ==> bool_field(doc, key, flag) == flag
            &&& value matches Json::Unsigned(said) ==> u64_field(doc, key, number) == said
            &&& !(value is Unsigned) ==> u64_field(doc, key, number) == number
        },
        is_silent(doc, key) ==> {
            &&& field(doc, key) is None
            &&& text_field(doc, key) is None
            &&& bool_field(doc, key, flag) == flag
            &&& u64_field(doc, key, number) == number
        },
{
    if says(doc, key, value) {
        let entries = doc->Object_0;
        let i = choose|i: int|
            0 <= i < entries.len() && #[trigger] entries[i] == (key, value) && forall|j: int|
                0 <= j < entries.len() && j != i ==> (#[trigger] entries[j]).0 != key;
        lemma_entry_said(entries, i);
    }
    if is_silent(doc, key) {
        if let Json::Object(entries) = doc {
            lemma_entry_unsaid(entries, key);
        }
    }
}

/// The readers of fields give what the request says.
pub proof fn law_readers_give_what_is_said(
    input: &Value,
    key: &str,
    value: Json,
    text: Option<&str>,
    copy: Option<Value>,
    default_flag: bool,
    flag: bool,
    default_number: u64,
    number: u64,
)
    requires
        call_ensures(optional_str, (input, key), text),
        call_ensures(optional_json, (input, key), copy),
        call_ensures(optional_bool, (input, key, default_flag), flag),
        call_ensures(optional_u64, (input, key, default_number), number),
    ensures
        says(json_of(*input), key@, value) ==> {
            &&& copy is Some && json_of(copy->Some_0) == value
            &&& value matches Json::Text(said) ==> text is Some && text->Some_0@ == said
            &&& !(value is Text) ==> text is None
            &&& value matches Json::Bool(said) ==> flag == said
            &&& !(value is Bool) ==> flag == default_flag
            &&& value matches Json::Unsigned(said) ==> number == said
            &&& !(value is Unsigned) ==> number == default_number
        },
        is_silent(json_of(*input), key@) ==> copy is None && text is None && flag == default_flag
            && number == default_number,
{
    law_what_is_said_is_read(json_of(*input), key@, value, default_flag, default_number);
}

/// Whether a word is one of those for starting a run.
pub open spec fn is_start_word(word: Seq<char>) -> bool {
    word == ""@ || word == "start"@ || word == "spawn"@
}

/// Whether a word is one of those for running one to its end.
pub open spec fn is_run_word(word: Seq<char>) -> bool {
    word == "run"@ || word == "wait"@
}

/// Whether a word is one of those for asking how the runs are.
pub open spec fn is_status_word(word: Seq<char>) -> bool {
    word == "status"@ || word == "list"@ || word == "inspect"@
}

/// Whether a word is one of those for cancelling a run.
pub open spec fn is_cancel_word(word: Seq<char>) -> bool {
    word == "cancel"@ || word == "stop"@ || word == "abort"@
}

/// A word stands for one action, or for none.
proof fn lemma_words_differ(word: Seq<char>)
    ensures
        is_run_word(word) ==> !is_start_word(word),
        is_status_word(word) ==> !is_start_word(word) && !is_run_word(word),
        is_cancel_word(word) ==> !is_start_word(word) && !is_run_word(word) && !is_status_word(
            word,
        ),
{
    reveal_strlit("");
    reveal_strlit("start");
    reveal_strlit("spawn");
    reveal_strlit("run");
    reveal_strlit("wait");
    reveal_strlit("status");
    reveal_strlit("list");
    reveal_strlit("inspect");
    reveal_strlit("cancel");
    reveal_strlit("stop");
    reveal_strlit("abort");
    if word.len() == 3 {
        assert(!is_start_word(word) && !is_status_word(word) && !is_cancel_word(word));
    }
    if word.len() == 4 {
        assert("wait"@[0] == 'w' && "list"@[0] == 'l' && "stop"@[0] == 's');
    }
    if word.len() == 5 {
        assert("start"@[0] == 's' && "spawn"@[0] == 's' && "abort"@[0] == 'a');
    }
    if word.len() == 6 {
        assert("status"@[0] == 's' && "cancel"@[0] == 'c');
    }
}

/// A request asks for what its word says, white space around the word and the case of its
/// letters aside, and for a start where it has no word. A word that is none of those is named in
/// the error.
pub proof fn law_action_is_what_the_word_says(
    action: Option<&str>,
    result: Result<WorkflowAction, ToolError>,
)
    requires
        call_ensures(action_from_text, (action,), result),
    ensures
        action is None ==> result == Ok::<WorkflowAction, ToolError>(WorkflowAction::Start),
        action matches Some(text) ==> asks_by_word(result, lowered(trimmed(text@))),
{
    if let Some(text) = action {
        lemma_words_differ(lowered(trimmed(text@)));
    }
}

/// Whether the result is the action that a word stands for, or the error that names it.
pub open spec fn asks_by_word(result: Result<WorkflowAction, ToolError>, word: Seq<char>) -> bool {
    &&& is_start_word(word) ==> result is Ok && result->Ok_0 is Start
    &&& is_run_word(word) ==> result is Ok && result->Ok_0 is Run
    &&& is_status_word(word) ==> result is Ok && result->Ok_0 is Status
    &&& is_cancel_word(word) ==> result is Ok && result->Ok_0 is Cancel
    &&& !is_start_word(word) && !is_run_word(word) && !is_status_word(word) && !is_cancel_word(word)
        ==> result is Err && is_invalid_input(
        result->Err_0,
        "Invalid workflow action '"@ + word + "'. Use start, run, status, or cancel."@,
    )
}

/// The action of a request depends on what it says under `action`, and on nothing else.
pub proof fn law_action_is_read_from_its_field(
    input: &Value,
    value: Json,
    result: Result<WorkflowAction, ToolError>,
)
    requires
        call_ensures(parse_workflow_action, (input,), result),
        says(json_of(*input), "action"@, value) || is_silent(json_of(*input), "action"@),
    ensures
        says(json_of(*input), "action"@, value) && value is Text ==> asks_by_word(
            result,
            lowered(trimmed(value->Text_0)),
        ),
        says(json_of(*input), "action"@, value) && !(value is Text) ==> result is Ok
            && result->Ok_0 is Start,
        is_silent(json_of(*input), "action"@) ==> result is Ok && result->Ok_0 is Start,
{
    law_what_is_said_is_read(json_of(*input), "action"@, value, false, 0);
    if value is Text {
        lemma_words_differ(lowered(trimmed(value->Text_0)));
    }
}

/// The command of a request goes with its action: a start waits just where the request says so,
/// a run always does, and to cancel takes a run that the request names. An error of the action
/// is the error of the command.
pub proof fn law_command_goes_with_the_action<M, R, D>(
    tool: &WorkflowTool<M, R, D>,
    input: &Value,
    action: Result<WorkflowAction, ToolError>,
    wait: bool,
    run_id: Option<&str>,
    command: Result<WorkflowCommand, ToolError>,
)
    requires
        call_ensures(parse_workflow_action, (input,), action),
        call_ensures(optional_bool, (input, "wait", false), wait),
        call_ensures(optional_str, (input, "run_id"), run_id),
        call_ensures(parse_command, (input,), command) || call_ensures(
            WorkflowTool::<M, R, D>::execute,
            (tool, input),
            command,
        ),
    ensures
        action is Ok && action->Ok_0 is Start ==> command is Ok && command->Ok_0 is Start
            && command->Ok_0->wait == wait,
        action is Ok && action->Ok_0 is Run ==> command is Ok && command->Ok_0 is Start
            && command->Ok_0->wait,
        action is Ok && action->Ok_0 is Status ==> command is Ok && command->Ok_0 is Status,
        action is Ok && action->Ok_0 is Cancel && run_id is Some ==> command is Ok
            && command->Ok_0 is Cancel && command->Ok_0->run_id@ == run_id->Some_0@,
        action is Ok && action->Ok_0 is Cancel && run_id is None ==> command is Err
            && is_missing_field(command->Err_0, "run_id"@),
        action is Err ==> command is Err && is_invalid_input(
            command->Err_0,
            action->Err_0->InvalidInput_message@,
        ),
{
}

/// Whether an error says that a field is missing.
pub open spec fn is_missing_field(error: ToolError, name: Seq<char>) -> bool {
    error matches ToolError::MissingField { field: held } && held@ == name
}

/// Whether an error says that something is not allowed, in those words.
pub open spec fn is_permission_denied(error: ToolError, message: Seq<char>) -> bool {
    error matches ToolError::PermissionDenied { message: held } && held@ == message
}

/// A request needs no approval, changes nothing and may go beside others just where it asks how
/// the runs are; it starts something that goes on just where it asks for a start and does not
/// say that it waits. Without a request, approval is needed.
pub proof fn law_approval_goes_with_the_action<M, R, D>(
    tool: &WorkflowTool<M, R, D>,
    input: &Value,
    action: Result<WorkflowAction, ToolError>,
    wait: bool,
    approval: ApprovalRequirement,
    detached: bool,
    parallel: bool,
    read_only: bool,
    any: ApprovalRequirement,
)
    requires
        call_ensures(parse_workflow_action, (input,), action),
        call_ensures(optional_bool, (input, "wait", false), wait),
        call_ensures(
            WorkflowTool::<M, R, D>::approval_requirement_for,
            (tool, input),
            approval,
        ),
        call_ensures(WorkflowTool::<M, R, D>::starts_detached_for, (tool, input), detached),
        call_ensures(WorkflowTool::<M, R, D>::supports_parallel_for, (tool, input), parallel),
        call_ensures(WorkflowTool::<M, R, D>::is_read_only_for, (tool, input), read_only),
        call_ensures(WorkflowTool::<M, R, D>::approval_requirement, (tool,), any),
    ensures
        approval is Auto <==> action is Ok && action->Ok_0 is Status,
        parallel <==> action is Ok && action->Ok_0 is Status,
        read_only <==> action is Ok && action->Ok_0 is Status,
        detached <==> action is Ok && action->Ok_0 is Start && !wait,
        any is Required,
{
}

/// The arguments of a run are what its request says under `args`, whatever else it says, and
/// `null` where it says nothing there. Its budget is the number under `token_budget`, where that
/// is a whole number above zero. Its script is the one that was found.
pub proof fn law_start_takes_arguments_and_budget(
    input: &Value,
    source: WorkflowSource,
    request: StartRequest,
    args: Json,
    budget: Json,
)
    requires
        call_ensures(StartRequest::new, (input, source), request),
    ensures
        says(json_of(*input), "args"@, args) ==> json_of(request.args) == args,
        is_silent(json_of(*input), "args"@) ==> json_of(request.args) == Json::Null,
        says(json_of(*input), "token_budget"@, budget) ==> {
            &&& budget matches Json::Unsigned(tokens) ==> request.token_budget == (if tokens > 0 {
                Some(tokens)
            } else {
                None
            })
            &&& !(budget is Unsigned) ==> request.token_budget is None
        },
        is_silent(json_of(*input), "token_budget"@) ==> request.token_budget is None,
        request.source.source@ == source.source@,
        source.path matches Some(path) ==> request.source.path is Some
            && request.source.path->Some_0@ == path@,
        source.path is None ==> request.source.path is None,
{
    law_what_is_said_is_read(json_of(*input), "args"@, args, false, 0);
    law_what_is_said_is_read(json_of(*input), "token_budget"@, budget, false, 0);
    assert(request@.source == source@);
}

/// Two requests that say the same under `args` and under `token_budget` start the same run with
/// the same script, whatever else they say.
pub proof fn law_start_depends_on_two_fields(one: Json, other: Json, source: SourceView)
    ensures
        field(one, "args"@) == field(other, "args"@) ==> requested_start(one, source).args
            == requested_start(other, source).args,
        field(one, "token_budget"@) == field(other, "token_budget"@) ==> requested_start(
            one,
            source,
        ).token_budget == requested_start(other, source).token_budget,
        field(one, "args"@) matches Some(args) ==> requested_start(one, source).args == args,
        requested_start(one, source).source == source,
{
}

/// Where the script of a run is: in the request, where the request gives a script that is more
/// than white space and no file; in the file, where it names one and gives no script. To give
/// both is an error, and so is to give neither, or white space.
pub proof fn law_script_is_given_in_one_place(
    script: Option<&str>,
    path: Option<&str>,
    plan: Result<SourcePlan, ToolError>,
)
    requires
        call_ensures(plan_source, (script, path), plan),
    ensures
        is_planned(
            plan,
            match script {
                Some(text) => Some(text@),
                None => None,
            },
            match path {
                Some(text) => Some(text@),
                None => None,
            },
        ),
{
}

/// Whether a plan is the one for a script and a file name, of which either may be missing.
pub open spec fn is_planned(
    plan: Result<SourcePlan, ToolError>,
    script: Option<Seq<char>>,
    path: Option<Seq<char>>,
) -> bool {
    &&& script is Some && path is None && trimmed(script->Some_0).len() > 0 ==> plan is Ok
        && plan->Ok_0 is Inline && plan->Ok_0->source@ == script->Some_0
    &&& script is None && path is Some ==> plan is Ok && plan->Ok_0 is File && plan->Ok_0->path@
        == path->Some_0
    &&& script is Some && path is Some ==> plan is Err && is_invalid_input(
        plan->Err_0,
        "Use either script or source_path, not both"@,
    )
    &&& script is Some && path is None && trimmed(script->Some_0).len() == 0 ==> plan is Err
        && is_missing_field(plan->Err_0, "script"@)
    &&& script is None && path is None ==> plan is Err && is_missing_field(plan->Err_0, "script"@)
}

/// The text that a request gives under the first of two keys, or else under the second.
pub open spec fn first_text(one: Option<Seq<char>>, other: Option<Seq<char>>) -> Option<Seq<char>> {
    if one is Some {
        one
    } else {
        other
    }
}

/// A request gives its script under `script`, or else under `source`, and names a file under
/// `source_path`, or else under `path`.
pub proof fn law_script_is_read_from_its_fields(
    input: &Value,
    plan: Result<SourcePlan, ToolError>,
)
    requires
        call_ensures(workflow_source, (input,), plan),
    ensures
        is_planned(
            plan,
            first_text(
                text_field(json_of(*input), "script"@),
                text_field(json_of(*input), "source"@),
            ),
            first_text(
                text_field(json_of(*input), "source_path"@),
                text_field(json_of(*input), "path"@),
            ),
        ),
{
}

/// Whether a path is a directory or leads into it: the components of the directory come first.
pub open spec fn leads_into(path: PathView, root: PathView) -> bool {
    &&& root.components.len() <= path.components.len()
    &&& forall|i: int|
        0 <= i < root.components.len() ==> #[trigger] path.components[i] == root.components[i]
}

/// A path lies inside a directory just where the components of the directory come first in it.
pub proof fn law_inside_is_by_components(path: &SourcePath, root: &SourcePath, inside: bool)
    requires
        call_ensures(SourcePath::lies_inside, (path, root), inside),
    ensures
        inside <==> leads_into(path@, root@),
{
    let first = path@.components.take(root@.components.len() as int);
    if inside {
        assert forall|i: int| 0 <= i < root@.components.len() implies #[trigger] path@.components[i]
            == root@.components[i] by {
            assert(first[i] == path@.components[i]);
        }
    }
    if leads_into(path@, root@) {
        assert(first =~= root@.components);
    }
}

/// A file that was found is read where there is trust; where there is none, the workspace has to
/// be known first. One that was not found is an error that names it and says why.
pub proof fn law_found_file_is_trusted_or_checked(
    path: &str,
    trust_mode: bool,
    resolved: Result<SourcePath, String>,
    step: Result<SourceStep, ToolError>,
)
    requires
        call_ensures(path_resolved, (path, trust_mode, resolved), step),
    ensures
        resolved matches Ok(file) ==> step is Ok,
        resolved matches Ok(file) ==> (trust_mode ==> step->Ok_0 is ReadFile
            && step->Ok_0->ReadFile_path@ == file@),
        resolved matches Ok(file) ==> (!trust_mode ==> step->Ok_0 is ResolveWorkspace
            && step->Ok_0->ResolveWorkspace_path@ == file@),
        resolved matches Err(error) ==> step is Err && is_invalid_input(
            step->Err_0,
            "Failed to resolve workflow source_path '"@ + path@ + "': "@ + error@,
        ),
{
}

/// Without trust a file is read just where it leads into the workspace: the resolved one, or the
/// one that is given where that could not be resolved.
pub proof fn law_file_is_read_inside_the_workspace_alone(
    path: SourcePath,
    resolved: Option<SourcePath>,
    workspace: SourcePath,
    step: Result<SourceStep, ToolError>,
)
    requires
        call_ensures(workspace_resolved, (path, resolved, workspace), step),
    ensures
        ({
            let root = if resolved is Some {
                resolved->Some_0@
            } else {
                workspace@
            };
            if leads_into(path@, root) {
                step is Ok && step->Ok_0 is ReadFile && step->Ok_0->ReadFile_path@ == path@
            } else {
                step is Err && is_permission_denied(
                    step->Err_0,
                    "workflow source_path must stay inside the workspace: "@ + path@.display,
                )
            }
        }),
{
    let root = if resolved is Some {
        resolved->Some_0@
    } else {
        workspace@
    };
    let first = path@.components.take(root.components.len() as int);
    if leads_into(path@, root) {
        assert(first =~= root.components);
    }
    if root.components.len() <= path@.components.len() && first == root.components {
        assert forall|i: int| 0 <= i < root.components.len() implies #[trigger] path@.components[i]
            == root.components[i] by {
            assert(first[i] == path@.components[i]);
        }
    }
}

/// The script is what stands in the file, and the run keeps the path; a file that cannot be read
/// is an error that names it and says why.
pub proof fn law_script_is_what_stands_in_the_file(
    path: SourcePath,
    content: Result<String, String>,
    source: Result<WorkflowSource, ToolError>,
)
    requires
        call_ensures(file_read, (path, content), source),
    ensures
        content matches Ok(text) ==> source is Ok && source->Ok_0.source@ == text@
            && source->Ok_0.path is Some && source->Ok_0.path->Some_0@ == path@,
        content matches Err(error) ==> source is Err && is_execution_failed(
            source->Err_0,
            "Failed to read workflow source_path '"@ + path@.display + "': "@ + error@,
        ),
{
}

/// An absolute name is taken as it is, any other is looked up in the workspace.
pub proof fn law_relative_names_mean_the_workspace(is_absolute: bool, target: SourceTarget)
    requires
        call_ensures(source_target, (is_absolute,), target),
    ensures
        target is AsGiven <==> is_absolute,
        target is InWorkspace <==> !is_absolute,
{
}

/// The view of a path shows what is in it, and a copy shows the same.
pub proof fn law_view_of_a_path_shows_what_is_in_it(path: &SourcePath, copy: SourcePath)
    requires
        call_ensures(SourcePath::copy, (path,), copy),
    ensures
        path@.components.len() == path.components@.len(),
        forall|i: int|
            0 <= i < path.components@.len() ==> path@.components[i] == (
            #[trigger] path.components@[i])@,
        path@.display == path.display@,
        path@.is_utf8 == path.is_utf8,
        copy.components@.len() == path.components@.len(),
        forall|i: int|
            0 <= i < path.components@.len() ==> copy.components@[i]@ == (
            #[trigger] path.components@[i])@,
        copy.display@ == path.display@,
        copy.is_utf8 == path.is_utf8,
{
    assert(copy@.components.len() == copy.components@.len());
    assert forall|i: int| 0 <= i < path.components@.len() implies copy.components@[i]@ == (
    #[trigger] path.components@[i])@ by {
        assert(copy@.components[i] == copy.components@[i]@);
        assert(path@.components[i] == path.components@[i]@);
    }
}

/// The id of a run is the fixed word and the first eight characters of the UUID.
pub proof fn law_run_id_comes_from_the_uuid(uuid: &str, run_id: String)
    requires
        call_ensures(run_id_from, (uuid,), run_id),
        uuid@.len() == 36,
    ensures
        run_id@.len() == 17,
        forall|i: int| 0 <= i < 9 ==> run_id@[i] == #[trigger] "workflow_"@[i],
        forall|i: int| 0 <= i < 8 ==> #[trigger] uuid@[i] == run_id@[9 + i],
{
    reveal_strlit("workflow_");
}

/// A document is answered with as its text, without anything about it.
pub proof fn law_answer_is_the_text_of_the_document(
    doc: &Value,
    result: Result<ToolResult, ToolError>,
)
    requires
        call_ensures(ToolResult::json, (doc,), result),
    ensures
        result is Ok,
        result->Ok_0.content@ == pretty_text(json_of(*doc)),
        result->Ok_0.metadata is None,
{
}

/// Errors hold the words that they are made with.
pub proof fn law_errors_hold_their_words(
    message: String,
    name: &str,
    invalid: ToolError,
    missing: ToolError,
    failed: ToolError,
    denied: ToolError,
)
    requires
        call_ensures(ToolError::invalid_input, (message,), invalid),
        call_ensures(ToolError::missing_field, (name,), missing),
        call_ensures(ToolError::execution_failed, (message,), failed),
        call_ensures(ToolError::permission_denied, (message,), denied),
    ensures
        is_invalid_input(invalid, message@),
        is_missing_field(missing, name@),
        is_execution_failed(failed, message@),
        is_permission_denied(denied, message@),
{
}

/// A lock that was taken is handed over, and one that is poisoned is an error.
pub proof fn law_lock_is_handed_over<G>(guard: Option<G>, held: Result<G, ToolError>)
    requires
        call_ensures(unless_poisoned::<G>, (guard,), held),
    ensures
        guard matches Some(taken) ==> held == Ok::<G, ToolError>(taken),
        guard is None ==> held is Err && is_execution_failed(
            held->Err_0,
            "workflow state lock poisoned"@,
        ),
{
}

} // verus!
