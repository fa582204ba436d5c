//! What holds of the runs that the tool knows: of how calls change them, and of what is answered
//! about them.
//!
//! As in the laws on agents, `call_ensures` says that a call with these arguments gave that
//! result, and what a call leaves behind is what the next one finds.

use crate::clock::{epoch_nanos, millis_at, now_ms, unix_ms};
use crate::document::{pretty_text, ToolResult};
use crate::driver::{
    Delivery, DriverError, ProgressEvent, SpawnedTask, SubAgentWorkflowDriver,
};
use crate::error::ToolError;
use crate::json::{field, json_of, text_field, Json};
use crate::laws::{law_metadata_agrees_with_report, law_report_reads_back};
use crate::record::{
    run_json, script_outcome, RunView, WorkflowRunRecord, WorkflowRunStatus,
};
use crate::request::StartRequest;
use crate::runs::{is_listing, listing_entries, listing_json};
use crate::source::SourcePath;
use crate::text::texts;
use crate::tool::{ToolView, WorkflowTool};
use serde_json::Value;
use std::time::SystemTime;
use vstd::prelude::*;

verus! {

/// Whether a document is a list of these texts, in their order.
pub open spec fn is_text_list(doc: Json, list: Seq<Seq<char>>) -> bool {
    doc matches Json::Array(items) && items.len() == list.len() && forall|i: int|
        0 <= i < items.len() ==> #[trigger] items[i] == Json::Text(list[i])
}

/// Whether a document is this number, or `null` where there is none.
pub open spec fn is_number(doc: Json, number: Option<u64>) -> bool {
    doc == match number {
        Some(number) => Json::Unsigned(number),
        None => Json::Null,
    }
}

/// Whether a document is this text, or `null` where there is none.
pub open spec fn is_text(doc: Json, text: Option<Seq<char>>) -> bool {
    doc == match text {
        Some(text) => Json::Text(text),
        None => Json::Null,
    }
}

/// The word for a status.
pub open spec fn word_for(status: WorkflowRunStatus) -> Seq<char> {
    if status is Running {
        "running"@
    } else if status is Completed {
        "completed"@
    } else if status is Failed {
        "failed"@
    } else {
        "cancelled"@
    }
}

/// Whether a document shows all that is kept of a run, each thing under its key, and nothing
/// else.
pub open spec fn shows(doc: Json, run: RunView) -> bool {
    &&& field(doc, "run_id"@) == Some(Json::Text(run.run_id))
    &&& field(doc, "status"@) == Some(Json::Text(word_for(run.status)))
    &&& field(doc, "started_at_ms"@) == Some(Json::Unsigned(run.started_at_ms))
    &&& field(doc, "completed_at_ms"@) is Some
    &&& is_number(field(doc, "completed_at_ms"@)->Some_0, run.completed_at_ms)
    &&& field(doc, "source_path"@) is Some
    &&& run.source_path matches Some(path) ==> field(doc, "source_path"@)->Some_0 == Json::Text(
        path.display,
    )
    &&& run.source_path is None ==> field(doc, "source_path"@)->Some_0 == Json::Null
    &&& field(doc, "token_budget"@) is Some
    &&& is_number(field(doc, "token_budget"@)->Some_0, run.token_budget)
    &&& field(doc, "child_ids"@) is Some
    &&& is_text_list(field(doc, "child_ids"@)->Some_0, run.child_ids)
    &&& field(doc, "progress"@) is Some
    &&& is_text_list(field(doc, "progress"@)->Some_0, run.progress)
    &&& field(doc, "result"@) is Some
    &&& run.result matches Some(result) ==> field(doc, "result"@)->Some_0 == result
    &&& run.result is None ==> field(doc, "result"@)->Some_0 == Json::Null
    &&& field(doc, "error"@) is Some
    &&& is_text(field(doc, "error"@)->Some_0, run.error)
    &&& doc matches Json::Object(entries) && entries.len() == 10
}

/// The document that reports a run shows all that is kept of it, and nothing else.
pub proof fn law_report_shows_the_run(run: RunView)
    ensures
        shows(run_json(run), run),
{
    law_report_reads_back(run);
}

/// Two runs that are reported by one document are the same, as far as their paths are the same:
/// nothing that is kept of a run is lost in its report.
pub proof fn law_report_tells_runs_apart(one: RunView, other: RunView)
    requires
        run_json(one) == run_json(other),
        one.source_path == other.source_path,
        one.result == Some(Json::Null) <==> other.result == Some(Json::Null),
    ensures
        one == other,
{
    law_report_shows_the_run(one);
    law_report_shows_the_run(other);
    assert(one.child_ids =~= other.child_ids) by {
        let items = field(run_json(one), "child_ids"@)->Some_0->Array_0;
        assert forall|i: int| 0 <= i < one.child_ids.len() implies one.child_ids[i]
            == other.child_ids[i] by {
            assert(items[i] == Json::Text(one.child_ids[i]));
            assert(items[i] == Json::Text(other.child_ids[i]));
        }
    }
    assert(one.progress =~= other.progress) by {
        let items = field(run_json(one), "progress"@)->Some_0->Array_0;
        assert forall|i: int| 0 <= i < one.progress.len() implies one.progress[i]
            == other.progress[i] by {
            assert(items[i] == Json::Text(one.progress[i]));
            assert(items[i] == Json::Text(other.progress[i]));
        }
    }
    assert(one.status == other.status) by {
        reveal_strlit("running");
        reveal_strlit("completed");
        reveal_strlit("failed");
        reveal_strlit("cancelled");
        assert(word_for(one.status).len() == word_for(other.status).len());
        assert("completed"@[1] == 'o' && "cancelled"@[1] == 'a');
    }
}

/// What is answered about one run: the document that shows all that is kept of it, with a
/// document that names it, says its status and whether it is over, and counts its children. A
/// run that is not known, and one whose path cannot be written down, are answered with an error.
pub proof fn law_inspection_shows_the_run<M, R, D>(
    tool: &WorkflowTool<M, R, D>,
    run_id: &str,
    result: Result<ToolResult, ToolError>,
)
    requires
        call_ensures(WorkflowTool::<M, R, D>::workflow_result_for, (tool, run_id), result),
    ensures
        !tool@.runs.contains_key(run_id@) ==> result is Err && is_invalid_input(
            result->Err_0,
            "Unknown workflow run_id '"@ + run_id@ + "'"@,
        ),
        tool@.runs.contains_key(run_id@) ==> answers_for(result, tool@.runs[run_id@]),
{
    if tool@.runs.contains_key(run_id@) {
        let run = tool@.runs[run_id@];
        law_report_shows_the_run(run);
        law_metadata_agrees_with_report(run);
    }
}

/// Whether an error says that a request cannot be acted on, in those words.
pub open spec fn is_invalid_input(error: ToolError, message: Seq<char>) -> bool {
    error matches ToolError::InvalidInput { message: held } && held@ == message
}

/// Whether an error says that carrying out a request failed, in those words.
pub open spec fn is_execution_failed(error: ToolError, message: Seq<char>) -> bool {
    error matches ToolError::ExecutionFailed { message: held } && held@ == message
}

/// Whether the path of a run can be written down.
pub open spec fn has_writable_path(run: RunView) -> bool {
    match run.source_path {
        Some(path) => path.is_utf8,
        None => true,
    }
}

/// Whether an answer is the one about a run.
pub open spec fn answers_for(result: Result<ToolResult, ToolError>, run: RunView) -> bool {
    if has_writable_path(run) {
        &&& result is Ok
        &&& exists|doc: Json| #[trigger]
            pretty_text(doc) == result->Ok_0.content@ && shows(doc, run)
        &&& result->Ok_0.metadata is Some
        &&& describes(json_of(result->Ok_0.metadata->Some_0), run)
    } else {
        &&& result is Err
        &&& is_execution_failed(result->Err_0, "path contains invalid UTF-8 characters"@)
    }
}

/// Whether a document names a run, says its status and whether it is over, and counts its
/// children.
pub open spec fn describes(doc: Json, run: RunView) -> bool {
    &&& field(doc, "run_id"@) == Some(Json::Text(run.run_id))
    &&& field(doc, "status"@) == Some(Json::Text(word_for(run.status)))
    &&& field(doc, "terminal"@) == Some(Json::Bool(!(run.status is Running)))
    &&& field(doc, "child_count"@) == Some(Json::Unsigned(run.child_ids.len() as u64))
    &&& doc matches Json::Object(entries) && entries.len() == 4
}

/// Whether `items` show the runs with the ids `order`, one by one: every run once, and those
/// that were started earlier before those that were started later.
pub open spec fn shows_all(
    items: Seq<Json>,
    order: Seq<Seq<char>>,
    runs: Map<Seq<char>, RunView>,
) -> bool {
    &&& items.len() == order.len()
    &&& forall|i: int, j: int|
        0 <= i < j < order.len() ==> #[trigger] order[i] != #[trigger] order[j]
            && runs[order[i]].started_at_ms <= runs[order[j]].started_at_ms
    &&& forall|i: int|
        0 <= i < order.len() ==> runs.contains_key(#[trigger] order[i]) && shows(
            items[i],
            runs[order[i]],
        )
    &&& forall|run_id: Seq<char>| #[trigger] runs.contains_key(run_id) ==> order.contains(run_id)
}

/// The document that lists documents.
pub open spec fn listing_of(items: Seq<Json>) -> Json {
    Json::Object(
        seq![
            ("action"@, Json::Text("status"@)),
            ("count"@, Json::Unsigned(items.len() as u64)),
            ("runs"@, Json::Array(items)),
        ],
    )
}

/// The items of a listing are the reports of its runs, one by one: each shows all that is kept
/// of its run.
pub proof fn law_listing_items_are_reports(listing: Seq<RunView>, i: int)
    requires
        0 <= i < listing.len(),
    ensures
        listing_entries(listing).len() == 3,
        listing_entries(listing)[0] == ("action"@, Json::Text("status"@)),
        listing_entries(listing)[1] == ("count"@, Json::Unsigned(listing.len() as u64)),
        listing_entries(listing)[2].0 == "runs"@,
        listing_entries(listing)[2].1 matches Json::Array(items) && items.len() == listing.len()
            && items[i] == run_json(listing[i]) && shows(items[i], listing[i]),
{
    law_report_shows_the_run(listing[i]);
}

/// A request for all runs is answered with a listing of them: every run once, each with all that
/// is kept of it, those that were started earlier first, and how many there are.
pub proof fn law_listing_shows_every_run<M, R, D>(
    tool: &WorkflowTool<M, R, D>,
    input: &Value,
    result: Result<ToolResult, ToolError>,
)
    requires
        tool.wf(),
        text_field(json_of(*input), "run_id"@) is None,
        call_ensures(WorkflowTool::<M, R, D>::status_workflow, (tool, input), result),
    ensures
        result is Ok,
        result->Ok_0.metadata is None,
        exists|items: Seq<Json>, order: Seq<Seq<char>>|
            #![trigger listing_of(items), shows_all(items, order, tool@.runs)]
            pretty_text(listing_of(items)) == result->Ok_0.content@ && shows_all(
                items,
                order,
                tool@.runs,
            ),
{
    let runs = tool@.runs;
    let listing = choose|listing: Seq<RunView>| #[trigger]
        is_listing(runs, listing) && result->Ok_0.content@ == pretty_text(listing_json(listing));
    lemma_listing_shows_all(runs, listing);
    let items = reports(listing);
    let order = ids_of(listing);
    assert(listing_entries(listing) =~= listing_of(items)->Object_0);
    assert(listing_of(items) == listing_json(listing));
    assert(shows_all(items, order, runs));
}

/// The reports of a list of runs.
pub open spec fn reports(listing: Seq<RunView>) -> Seq<Json> {
    listing.map_values(|run: RunView| run_json(run))
}

/// The ids of a list of runs.
pub open spec fn ids_of(listing: Seq<RunView>) -> Seq<Seq<char>> {
    listing.map_values(|run: RunView| run.run_id)
}

proof fn lemma_listing_shows_all(runs: Map<Seq<char>, RunView>, listing: Seq<RunView>)
    requires
        is_listing(runs, listing),
    ensures
        shows_all(reports(listing), ids_of(listing), runs),
{
    let items = reports(listing);
    let order = ids_of(listing);
    assert forall|i: int, j: int| 0 <= i < j < order.len() implies #[trigger] order[i]
        != #[trigger] order[j] && runs[order[i]].started_at_ms <= runs[order[j]].started_at_ms by {
        assert(order[i] == listing[i].run_id && order[j] == listing[j].run_id);
    }
    assert forall|i: int| 0 <= i < order.len() implies runs.contains_key(#[trigger] order[i])
        && shows(items[i], runs[order[i]]) by {
        assert(order[i] == listing[i].run_id);
        law_report_shows_the_run(listing[i]);
    }
    assert forall|run_id: Seq<char>| #[trigger]
        runs.contains_key(run_id) implies order.contains(run_id) by {
        let i = choose|i: int| 0 <= i < listing.len() && (#[trigger] listing[i]).run_id == run_id;
        assert(order[i] == run_id);
    }
}

/// What a listing says of a run is what its inspection says: the item is the document that is
/// answered for the id of the run.
pub proof fn law_listing_and_inspection_agree<M, R, D>(
    tool: &WorkflowTool<M, R, D>,
    input: &Value,
    all: Result<ToolResult, ToolError>,
    run_id: &str,
    one: Result<ToolResult, ToolError>,
)
    requires
        tool.wf(),
        text_field(json_of(*input), "run_id"@) is None,
        call_ensures(WorkflowTool::<M, R, D>::status_workflow, (tool, input), all),
        tool@.runs.contains_key(run_id@),
        has_writable_path(tool@.runs[run_id@]),
        call_ensures(WorkflowTool::<M, R, D>::workflow_result_for, (tool, run_id), one),
    ensures
        all is Ok,
        one is Ok,
        exists|items: Seq<Json>, i: int|
            #![trigger listing_of(items), items[i]]
            pretty_text(listing_of(items)) == all->Ok_0.content@ && 0 <= i < items.len()
                && pretty_text(items[i]) == one->Ok_0.content@ && shows(
                items[i],
                tool@.runs[run_id@],
            ),
{
    let runs = tool@.runs;
    let listing = choose|listing: Seq<RunView>| #[trigger]
        is_listing(runs, listing) && all->Ok_0.content@ == pretty_text(listing_json(listing));
    let items = reports(listing);
    assert(listing_entries(listing) =~= listing_of(items)->Object_0);
    let i = choose|i: int| 0 <= i < listing.len() && (#[trigger] listing[i]).run_id == run_id@;
    assert(items[i] == run_json(listing[i]));
    law_report_shows_the_run(listing[i]);
}

/// A request that names a run is answered as the inspection of that run is.
pub proof fn law_status_of_one_run_is_its_inspection<M, R, D>(
    tool: &WorkflowTool<M, R, D>,
    input: &Value,
    run_id: &str,
    result: Result<ToolResult, ToolError>,
)
    requires
        text_field(json_of(*input), "run_id"@) == Some(run_id@),
        call_ensures(WorkflowTool::<M, R, D>::status_workflow, (tool, input), result),
    ensures
        !tool@.runs.contains_key(run_id@) ==> result is Err && is_invalid_input(
            result->Err_0,
            "Unknown workflow run_id '"@ + run_id@ + "'"@,
        ),
        tool@.runs.contains_key(run_id@) ==> answers_for(result, tool@.runs[run_id@]),
{
    if tool@.runs.contains_key(run_id@) {
        let run = tool@.runs[run_id@];
        law_report_shows_the_run(run);
        law_metadata_agrees_with_report(run);
    }
}

/// Whether every run can be listed is a matter of their paths alone.
pub proof fn law_runs_can_be_listed_by_their_paths<M, R, D>(
    tool: &WorkflowTool<M, R, D>,
    all: bool,
)
    requires
        call_ensures(WorkflowTool::<M, R, D>::all_paths_utf8, (tool,), all),
    ensures
        all <==> forall|run_id: Seq<char>| #[trigger]
            tool@.runs.contains_key(run_id) ==> has_writable_path(tool@.runs[run_id]),
{
    if all {
        assert forall|run_id: Seq<char>| #[trigger]
            tool@.runs.contains_key(run_id) implies has_writable_path(tool@.runs[run_id]) by {
            assert(tool@.runs[run_id].path_is_utf8());
        }
    }
    if forall|run_id: Seq<char>| #[trigger]
        tool@.runs.contains_key(run_id) ==> has_writable_path(tool@.runs[run_id]) {
        assert forall|run_id: Seq<char>| #[trigger]
            tool@.runs.contains_key(run_id) implies tool@.runs[run_id].path_is_utf8() by {
            assert(has_writable_path(tool@.runs[run_id]));
        }
    }
}

/// Whether a run is one that has just been started: under way, without an end, a child, a line
/// of progress, a result or an error.
pub open spec fn has_just_begun(run: RunView, run_id: Seq<char>) -> bool {
    &&& run.run_id == run_id
    &&& run.status is Running
    &&& run.completed_at_ms is None
    &&& run.child_ids.len() == 0
    &&& run.progress.len() == 0
    &&& run.result is None
    &&& run.error is None
}

/// Whether a call has left everything of the tool as it was but for one run.
pub open spec fn all_else_stays<M, R, D>(
    before: ToolView<M, R, D>,
    after: ToolView<M, R, D>,
    run_id: Seq<char>,
) -> bool {
    &&& after.manager == before.manager
    &&& after.runtime == before.runtime
    &&& forall|other: Seq<char>|
        other != run_id ==> (#[trigger] after.runs.contains_key(other)
            == before.runs.contains_key(other))
    &&& forall|other: Seq<char>|
        other != run_id && #[trigger] before.runs.contains_key(other) ==> after.runs[other]
            == before.runs[other]
    &&& forall|other: Seq<char>|
        other != run_id ==> (#[trigger] after.controllers.contains_key(other)
            == before.controllers.contains_key(other))
    &&& forall|other: Seq<char>|
        other != run_id && #[trigger] before.controllers.contains_key(other)
            ==> after.controllers[other] == before.controllers[other]
}

/// The tool begins with no run and no controller.
pub proof fn law_tool_begins_empty<M, R, D>(manager: M, runtime: R, tool: WorkflowTool<M, R, D>)
    requires
        call_ensures(WorkflowTool::<M, R, D>::new, (manager, runtime), tool),
    ensures
        tool@.manager == manager,
        tool@.runtime == runtime,
        tool@.runs == Map::<Seq<char>, RunView>::empty(),
        tool@.controllers == Map::<Seq<char>, D>::empty(),
{
}

/// A run that is started is known from then on, as one that has just begun, with the script and
/// the budget of its request, and with its controller; nothing else changes.
pub proof fn law_starting_makes_a_run_known<M, R, D>(
    tool: &mut WorkflowTool<M, R, D>,
    run_id: String,
    request: &StartRequest,
    driver: D,
    done: (),
)
    requires
        call_ensures(
            WorkflowTool::<M, R, D>::start_workflow,
            (tool, run_id, request, driver),
            done,
        ),
    ensures
        final(tool)@.runs.contains_key(run_id@),
        has_just_begun(final(tool)@.runs[run_id@], run_id@),
        final(tool)@.runs[run_id@].token_budget == request.token_budget,
        request.source.path matches Some(path) ==> final(tool)@.runs[run_id@].source_path == Some(
            path@,
        ),
        request.source.path is None ==> final(tool)@.runs[run_id@].source_path is None,
        exists|instant: SystemTime| #[trigger]
            call_ensures(SystemTime::now, (), instant) && shows_instant(
                final(tool)@.runs[run_id@].started_at_ms,
                epoch_nanos(instant),
            ),
        final(tool)@.controllers.contains_key(run_id@),
        final(tool)@.controllers[run_id@] == driver,
        all_else_stays(old(tool)@, final(tool)@, run_id@),
{
}

/// A run that is taken in is known as it is, with its controller; nothing else changes.
pub proof fn law_run_is_taken_in_as_it_is<M, R, D>(
    tool: &mut WorkflowTool<M, R, D>,
    record: WorkflowRunRecord,
    driver: D,
    done: (),
)
    requires
        call_ensures(WorkflowTool::<M, R, D>::admit_run, (tool, record, driver), done),
    ensures
        final(tool)@.runs.contains_key(record.run_id@),
        final(tool)@.runs[record.run_id@] == record@,
        final(tool)@.controllers.contains_key(record.run_id@),
        final(tool)@.controllers[record.run_id@] == driver,
        all_else_stays(old(tool)@, final(tool)@, record.run_id@),
{
}

/// Whether a number of milliseconds shows an instant: the whole ones since the epoch, none for
/// one before the epoch, and the largest number for one too far ahead.
pub open spec fn shows_instant(millis: u64, nanos: int) -> bool {
    if nanos < 0 {
        millis == 0
    } else {
        &&& millis * 1_000_000 <= nanos
        &&& millis < u64::MAX ==> nanos < (millis + 1) * 1_000_000
    }
}

/// Instants are shown as they are, and later ones not as earlier.
pub proof fn law_clock_shows_instants(
    one: &SystemTime,
    early: u64,
    other: &SystemTime,
    late: u64,
)
    requires
        call_ensures(unix_ms, (one,), early),
        call_ensures(unix_ms, (other,), late),
    ensures
        shows_instant(early, epoch_nanos(*one)),
        epoch_nanos(*one) <= epoch_nanos(*other) ==> early <= late,
{
}

/// The time now is shown as the clock gives it.
pub proof fn law_clock_shows_now(millis: u64)
    requires
        call_ensures(now_ms, (), millis),
    ensures
        exists|instant: SystemTime| #[trigger]
            call_ensures(SystemTime::now, (), instant) && shows_instant(
                millis,
                epoch_nanos(instant),
            ),
{
}

/// The end of a script gives its run the result or the error, and the time, and lets the
/// controller go; of a run that was cancelled only the controller goes, and of one that is not
/// known nothing is noted.
pub proof fn law_end_of_script_is_noted<M, R, D>(
    tool: &mut WorkflowTool<M, R, D>,
    run_id: &str,
    outcome: Result<Value, String>,
    now: u64,
    done: (),
)
    requires
        call_ensures(
            WorkflowTool::<M, R, D>::finish_run_at,
            (tool, run_id, outcome, now),
            done,
        ),
    ensures
        final(tool)@.runs.contains_key(run_id@) == old(tool)@.runs.contains_key(run_id@),
        old(tool)@.runs.contains_key(run_id@) ==> is_ended(
            old(tool)@.runs[run_id@],
            final(tool)@.runs[run_id@],
            outcome,
            now,
        ),
        !final(tool)@.controllers.contains_key(run_id@),
        all_else_stays(old(tool)@, final(tool)@, run_id@),
{
}

/// Whether a run has become what the end of its script makes of it.
pub open spec fn is_ended(
    before: RunView,
    after: RunView,
    outcome: Result<Value, String>,
    now: u64,
) -> bool {
    if before.status is Cancelled {
        after == before
    } else {
        &&& keeps_its_beginning(before, after)
        &&& after.child_ids == before.child_ids
        &&& after.progress == before.progress
        &&& after.completed_at_ms == Some(now)
        &&& outcome matches Ok(result) ==> after.status is Completed && after.result == Some(
            json_of(result),
        ) && after.error is None
        &&& outcome matches Err(error) ==> after.status is Failed && after.result is None
            && after.error == Some(error@)
    }
}

/// Whether a run has the id, the start, the script and the budget that it had.
pub open spec fn keeps_its_beginning(before: RunView, after: RunView) -> bool {
    &&& after.run_id == before.run_id
    &&& after.started_at_ms == before.started_at_ms
    &&& after.source_path == before.source_path
    &&& after.token_budget == before.token_budget
}

/// The same of a script that ends now.
pub proof fn law_end_of_script_is_noted_now<M, R, D>(
    tool: &mut WorkflowTool<M, R, D>,
    run_id: &str,
    outcome: Result<Value, String>,
    done: (),
)
    requires
        call_ensures(WorkflowTool::<M, R, D>::run_workflow_vm, (tool, run_id, outcome), done),
    ensures
        final(tool)@.runs.contains_key(run_id@) == old(tool)@.runs.contains_key(run_id@),
        old(tool)@.runs.contains_key(run_id@) ==> exists|instant: SystemTime, now: u64| #[trigger]
            call_ensures(SystemTime::now, (), instant) && shows_instant(now, epoch_nanos(instant))
                && #[trigger] is_ended(
                old(tool)@.runs[run_id@],
                final(tool)@.runs[run_id@],
                outcome,
                now,
            ),
        !final(tool)@.controllers.contains_key(run_id@),
        all_else_stays(old(tool)@, final(tool)@, run_id@),
{
    if old(tool)@.runs.contains_key(run_id@) {
        let instant = choose|instant: SystemTime| #[trigger]
            call_ensures(SystemTime::now, (), instant) && final(tool)@ == old(tool)@.finished(
                run_id@,
                script_outcome(outcome),
                millis_at(epoch_nanos(instant)),
            );
        let now = millis_at(epoch_nanos(instant));
        assert(is_ended(old(tool)@.runs[run_id@], final(tool)@.runs[run_id@], outcome, now));
    }
}

/// Whether a run has become what cancelling makes of it.
pub open spec fn is_cancelled(before: RunView, after: RunView, now: u64) -> bool {
    &&& keeps_its_beginning(before, after)
    &&& after.child_ids == before.child_ids
    &&& after.progress == before.progress
    &&& after.result == before.result
    &&& after.status is Cancelled
    &&& after.completed_at_ms == Some(now)
    &&& after.error == Some("cancelled by workflow tool"@)
}

/// Cancelling a run gives it its end, whatever it was, lets its controller go, and answers with
/// the run as it is then; of a run that is not known nothing is noted, and the answer says so.
pub proof fn law_cancelling_is_noted_and_answered<M, R, D>(
    tool: &mut WorkflowTool<M, R, D>,
    run_id: &str,
    now: u64,
    result: Result<ToolResult, ToolError>,
)
    requires
        call_ensures(WorkflowTool::<M, R, D>::cancel_run_at, (tool, run_id, now), result),
    ensures
        final(tool)@.runs.contains_key(run_id@) == old(tool)@.runs.contains_key(run_id@),
        old(tool)@.runs.contains_key(run_id@) ==> is_cancelled(
            old(tool)@.runs[run_id@],
            final(tool)@.runs[run_id@],
            now,
        ) && answers_for(result, final(tool)@.runs[run_id@]),
        !old(tool)@.runs.contains_key(run_id@) ==> result is Err && is_invalid_input(
            result->Err_0,
            "Unknown workflow run_id '"@ + run_id@ + "'"@,
        ),
        !final(tool)@.controllers.contains_key(run_id@),
        all_else_stays(old(tool)@, final(tool)@, run_id@),
{
    if old(tool)@.runs.contains_key(run_id@) {
        let run = final(tool)@.runs[run_id@];
        law_report_shows_the_run(run);
        law_metadata_agrees_with_report(run);
    }
}

/// The same of a run that is cancelled now.
pub proof fn law_cancelling_now_is_noted_and_answered<M, R, D>(
    tool: &mut WorkflowTool<M, R, D>,
    run_id: &str,
    result: Result<ToolResult, ToolError>,
)
    requires
        call_ensures(WorkflowTool::<M, R, D>::cancel_workflow, (tool, run_id), result),
    ensures
        final(tool)@.runs.contains_key(run_id@) == old(tool)@.runs.contains_key(run_id@),
        old(tool)@.runs.contains_key(run_id@) ==> answers_for(result, final(tool)@.runs[run_id@]),
        old(tool)@.runs.contains_key(run_id@) ==> exists|instant: SystemTime, now: u64| #[trigger]
            call_ensures(SystemTime::now, (), instant) && shows_instant(now, epoch_nanos(instant))
                && #[trigger] is_cancelled(
                old(tool)@.runs[run_id@],
                final(tool)@.runs[run_id@],
                now,
            ),
        !old(tool)@.runs.contains_key(run_id@) ==> result is Err && is_invalid_input(
            result->Err_0,
            "Unknown workflow run_id '"@ + run_id@ + "'"@,
        ),
        !final(tool)@.controllers.contains_key(run_id@),
        all_else_stays(old(tool)@, final(tool)@, run_id@),
{
    if old(tool)@.runs.contains_key(run_id@) {
        let run = final(tool)@.runs[run_id@];
        law_report_shows_the_run(run);
        law_metadata_agrees_with_report(run);
        let instant = choose|instant: SystemTime| #[trigger]
            call_ensures(SystemTime::now, (), instant) && final(tool)@ == old(tool)@.cancelled(
                run_id@,
                millis_at(epoch_nanos(instant)),
            );
        let now = millis_at(epoch_nanos(instant));
        assert(is_cancelled(old(tool)@.runs[run_id@], run, now));
    }
}

/// The controller of a run is handed out once.
pub proof fn law_controller_is_handed_out_once<M, R, D>(
    first: &mut WorkflowTool<M, R, D>,
    run_id: &str,
    one: Option<D>,
    second: &mut WorkflowTool<M, R, D>,
    two: Option<D>,
)
    requires
        call_ensures(WorkflowTool::<M, R, D>::take_controller, (first, run_id), one),
        *second == *final(first),
        call_ensures(WorkflowTool::<M, R, D>::take_controller, (second, run_id), two),
    ensures
        old(first)@.controllers.contains_key(run_id@) ==> one == Some(
            old(first)@.controllers[run_id@],
        ),
        !old(first)@.controllers.contains_key(run_id@) ==> one is None,
        two is None,
        final(first)@.runs == old(first)@.runs,
        all_else_stays(old(first)@, final(first)@, run_id@),
{
}

/// Whether a list has become what one more text makes of it: it stands at the end, unless it was
/// there.
pub open spec fn has_one_more(before: Seq<Seq<char>>, after: Seq<Seq<char>>, text: Seq<char>) -> bool {
    if exists|i: int| 0 <= i < before.len() && before[i] == text {
        after == before
    } else {
        after == before.push(text)
    }
}

/// A child that is reported is counted by its run, once, behind the others; nothing else
/// changes.
pub proof fn law_child_is_counted_by_its_run<M, R, D>(
    tool: &mut WorkflowTool<M, R, D>,
    run_id: &str,
    agent_id: &str,
    done: (),
)
    requires
        call_ensures(WorkflowTool::<M, R, D>::record_child, (tool, run_id, agent_id), done),
    ensures
        final(tool)@.runs.contains_key(run_id@) == old(tool)@.runs.contains_key(run_id@),
        old(tool)@.runs.contains_key(run_id@) ==> has_one_more(
            old(tool)@.runs[run_id@].child_ids,
            final(tool)@.runs[run_id@].child_ids,
            agent_id@,
        ) && final(tool)@.runs[run_id@] == (RunView {
            child_ids: final(tool)@.runs[run_id@].child_ids,
            ..old(tool)@.runs[run_id@]
        }),
        final(tool)@.controllers == old(tool)@.controllers,
        all_else_stays(old(tool)@, final(tool)@, run_id@),
{
    if old(tool)@.runs.contains_key(run_id@) {
        let ids = old(tool)@.runs[run_id@].child_ids;
        assert(ids.contains(agent_id@) <==> exists|i: int| 0 <= i < ids.len() && ids[i] == agent_id@);
    }
}

/// What a script says of its progress is kept, behind what it said before; nothing else changes.
pub proof fn law_progress_is_kept_by_its_run<M, R, D>(
    tool: &mut WorkflowTool<M, R, D>,
    run_id: &str,
    event: &ProgressEvent,
    done: (),
)
    requires
        call_ensures(WorkflowTool::<M, R, D>::progress, (tool, run_id, event), done),
    ensures
        final(tool)@.runs.contains_key(run_id@) == old(tool)@.runs.contains_key(run_id@),
        old(tool)@.runs.contains_key(run_id@) ==> final(tool)@.runs[run_id@] == (RunView {
            progress: old(tool)@.runs[run_id@].progress.push(
                match *event {
                    ProgressEvent::Log { message } => "log: "@ + message@,
                    ProgressEvent::Phase { title } => "phase: "@ + title@,
                },
            ),
            ..old(tool)@.runs[run_id@]
        }),
        final(tool)@.controllers == old(tool)@.controllers,
        all_else_stays(old(tool)@, final(tool)@, run_id@),
{
}

/// An agent that is given a task of a run is a child with the run and with its driver, and is
/// waited for; where the driver is stopped it is neither, and where no agent took the task
/// nothing changes.
pub proof fn law_task_is_taken_in_by_both<M, R, D, W>(
    tool: &mut WorkflowTool<M, R, D>,
    driver: &mut SubAgentWorkflowDriver<W>,
    spawned: Result<String, String>,
    waiter: W,
    task: Result<SpawnedTask<W>, DriverError>,
)
    requires
        call_ensures(
            WorkflowTool::<M, R, D>::spawn_task::<W>,
            (tool, driver, spawned, waiter),
            task,
        ),
    ensures
        spawned is Err || old(driver)@.stopped ==> task is Err && final(driver)@ == old(driver)@
            && final(tool)@ == old(tool)@,
        spawned matches Err(reason) ==> task->Err_0->Rejected_0@ == reason@,
        spawned matches Ok(agent_id) ==> (!old(driver)@.stopped ==> {
            &&& task is Ok
            &&& task->Ok_0.task_id@ == agent_id@
            &&& task->Ok_0.delivery == if old(driver)@.completions.pending.contains_key(agent_id@) {
                Some(
                    Delivery {
                        waiter,
                        completion: old(driver)@.completions.pending[agent_id@],
                    },
                )
            } else {
                None
            }
            &&& final(driver)@ == old(driver)@.spawned(agent_id@, waiter)
            &&& has_one_more(old(driver)@.child_ids, final(driver)@.child_ids, agent_id@)
            &&& !old(driver)@.completions.pending.contains_key(agent_id@)
                ==> final(driver)@.completions.waiters.contains_key(agent_id@)
                && final(driver)@.completions.waiters[agent_id@] == waiter
            &&& old(tool)@.runs.contains_key(old(driver)@.run_id) ==> has_one_more(
                old(tool)@.runs[old(driver)@.run_id].child_ids,
                final(tool)@.runs[old(driver)@.run_id].child_ids,
                agent_id@,
            )
        }),
        final(tool)@.controllers == old(tool)@.controllers,
        all_else_stays(old(tool)@, final(tool)@, old(driver)@.run_id),
{
    if let Ok(agent_id) = spawned {
        let ids = old(driver)@.child_ids;
        assert(ids.contains(agent_id@) <==> exists|i: int| 0 <= i < ids.len() && ids[i] == agent_id@);
        let counted = old(tool)@.runs[old(driver)@.run_id].child_ids;
        assert(counted.contains(agent_id@) <==> exists|i: int|
            0 <= i < counted.len() && counted[i] == agent_id@);
    }
}

/// What is kept of a run is what its record holds.
pub proof fn law_view_of_a_record_shows_what_is_in_it(record: WorkflowRunRecord)
    ensures
        record@.run_id == record.run_id@,
        record@.status == record.status,
        record@.started_at_ms == record.started_at_ms,
        record@.completed_at_ms == record.completed_at_ms,
        record.source_path matches Some(path) ==> record@.source_path == Some(path@),
        record.source_path is None ==> record@.source_path is None,
        record@.token_budget == record.token_budget,
        record@.child_ids.len() == record.child_ids@.len(),
        forall|i: int|
            0 <= i < record.child_ids@.len() ==> record@.child_ids[i] == (
            #[trigger] record.child_ids@[i])@,
        record@.progress.len() == record.progress@.len(),
        forall|i: int|
            0 <= i < record.progress@.len() ==> record@.progress[i] == (
            #[trigger] record.progress@[i])@,
        record.result matches Some(result) ==> record@.result == Some(json_of(result)),
        record.result is None ==> record@.result is None,
        record.error matches Some(error) ==> record@.error == Some(error@),
        record.error is None ==> record@.error is None,
{
    assert forall|i: int| 0 <= i < record.child_ids@.len() implies record@.child_ids[i] == (
    #[trigger] record.child_ids@[i])@ by {
        assert(texts(record.child_ids@)[i] == record.child_ids@[i]@);
    }
    assert forall|i: int| 0 <= i < record.progress@.len() implies record@.progress[i] == (
    #[trigger] record.progress@[i])@ by {
        assert(texts(record.progress@)[i] == record.progress@[i]@);
    }
}

/// A record begins with what it is given, and with nothing else.
pub proof fn law_record_begins_with_what_it_is_given(
    run_id: String,
    path: Option<SourcePath>,
    token_budget: Option<u64>,
    at: u64,
    record: WorkflowRunRecord,
)
    requires
        call_ensures(WorkflowRunRecord::new_at, (run_id, path, token_budget, at), record),
    ensures
        has_just_begun(record@, run_id@),
        record@.started_at_ms == at,
        record@.token_budget == token_budget,
        path matches Some(path) ==> record@.source_path == Some(path@),
        path is None ==> record@.source_path is None,
{
}

/// A record whose path can be written down is reported by a document that shows all of it, any
/// other by an error; what is said about the report names the run and counts its children.
pub proof fn law_record_is_reported_as_it_is(
    record: &WorkflowRunRecord,
    writable: bool,
    report: Result<Value, ToolError>,
    about: Value,
)
    requires
        call_ensures(WorkflowRunRecord::path_is_utf8, (record,), writable),
        call_ensures(WorkflowRunRecord::report, (record,), report),
        call_ensures(WorkflowRunRecord::metadata, (record,), about),
    ensures
        writable == has_writable_path(record@),
        writable ==> report is Ok && shows(json_of(report->Ok_0), record@),
        !writable ==> report is Err && is_execution_failed(
            report->Err_0,
            "path contains invalid UTF-8 characters"@,
        ),
        describes(json_of(about), record@),
{
    law_report_shows_the_run(record@);
    law_metadata_agrees_with_report(record@);
}

/// A record notes the end of a script, a cancelling, a child and a line of progress as the tool
/// does.
pub proof fn law_record_notes_what_happens(
    ended: &mut WorkflowRunRecord,
    outcome: Result<Value, String>,
    now: u64,
    stopped: &mut WorkflowRunRecord,
    parent: &mut WorkflowRunRecord,
    agent_id: &str,
    speaker: &mut WorkflowRunRecord,
    line: String,
    done: (),
)
    requires
        call_ensures(WorkflowRunRecord::finish, (ended, outcome, now), done),
        call_ensures(WorkflowRunRecord::cancel, (stopped, now), done),
        call_ensures(WorkflowRunRecord::add_child, (parent, agent_id), done),
        call_ensures(WorkflowRunRecord::add_progress, (speaker, line), done),
    ensures
        is_ended(old(ended)@, final(ended)@, outcome, now),
        is_cancelled(old(stopped)@, final(stopped)@, now),
        has_one_more(old(parent)@.child_ids, final(parent)@.child_ids, agent_id@),
        final(speaker)@.progress == old(speaker)@.progress.push(line@),
{
    let ids = old(parent)@.child_ids;
    assert(ids.contains(agent_id@) <==> exists|i: int| 0 <= i < ids.len() && ids[i] == agent_id@);
}

/// A status has its word, and is the last one just where the run is not under way.
pub proof fn law_status_has_its_word(status: WorkflowRunStatus, name: &'static str, terminal: bool)
    requires
        call_ensures(WorkflowRunStatus::name, (status,), name),
        call_ensures(WorkflowRunStatus::is_terminal, (status,), terminal),
    ensures
        name@ == word_for(status),
        terminal == !(status is Running),
{
}

} // verus!
