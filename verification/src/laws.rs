//! What holds of the tool as a whole.

use crate::action::requested_action;
use crate::completion::{
    completion_in, searched, CompletionView, SearchView, SnapshotView, TaskCompletion, LOOKUPS,
};
use crate::document::{
    distinct_keys, json_or_null, number_or_null, pretty_text, text_array, text_or_null,
};
use crate::driver::{cancels, CancelOrders, CompletionsView, Delivery, DriverView};
use crate::error::ErrorView;
use crate::json::{entry, field, Json};
use crate::record::{
    lemma_run_keys, lemma_with_text_no_duplicates, metadata_entries, metadata_json, path_json, run_entries,
    run_json, status_name, with_text, RunView, WorkflowRunStatus,
};
use crate::request::{requested_command, CommandView};
use crate::runs::{is_listing, run_answer};
use crate::source::{
    after_path, after_read, after_workspace, lies_inside, planned_source, PathView, SourcePlanView,
    SourceStepView,
};
use crate::text::{
    ascii_lower, is_white_space, lowered, shape, texts, trim_back, trim_front, trimmed,
};
use crate::tool::{
    approval_for, asks_for_status, starts_detached, ApprovalRequirement, ToolView,
};
use vstd::prelude::*;

verus! {

/// A run that has been cancelled stays so: nothing that its script or its agents do afterwards
/// gives it another status, another end, another result or another error.
pub proof fn law_cancelled_stays_cancelled(
    run: RunView,
    at: u64,
    outcome: Result<Json, Seq<char>>,
    later: u64,
    agent_id: Seq<char>,
    line: Seq<char>,
)
    ensures
        run.cancelled(at).status == WorkflowRunStatus::Cancelled,
        run.cancelled(at).finished(outcome, later) == run.cancelled(at),
        run.cancelled(at).with_child(agent_id) == run.with_child(agent_id).cancelled(at),
        run.cancelled(at).with_progress(line) == run.with_progress(line).cancelled(at),
{
}

/// The same of the tool: once a run has been cancelled, the end of its script changes nothing
/// of what the tool knows of any run.
pub proof fn law_finish_after_cancel_changes_no_run<M, R, D>(
    tool: ToolView<M, R, D>,
    run_id: Seq<char>,
    at: u64,
    outcome: Result<Json, Seq<char>>,
    later: u64,
)
    ensures
        tool.cancelled(run_id, at).finished(run_id, outcome, later).runs == tool.cancelled(
            run_id,
            at,
        ).runs,
{
    let cancelled = tool.cancelled(run_id, at);
    if tool.runs.contains_key(run_id) {
        assert(cancelled.runs.insert(run_id, cancelled.runs[run_id]) =~= cancelled.runs);
    }
}

/// A run that is over stays over, whatever comes in of it.
pub proof fn law_terminal_stays_terminal(
    run: RunView,
    outcome: Result<Json, Seq<char>>,
    now: u64,
    agent_id: Seq<char>,
    line: Seq<char>,
)
    ensures
        run.finished(outcome, now).status != WorkflowRunStatus::Running,
        run.cancelled(now).status != WorkflowRunStatus::Running,
        run.with_child(agent_id).status == run.status,
        run.with_progress(line).status == run.status,
{
}

/// A run has a time of its end just when it is over.
pub proof fn law_ended_just_when_terminal(run: RunView)
    requires
        run.consistent(),
    ensures
        run.completed_at_ms is Some <==> run.status != WorkflowRunStatus::Running,
{
}

/// What happens to one run leaves every other as it is.
pub proof fn law_other_runs_are_left_alone<M, R, D>(
    tool: ToolView<M, R, D>,
    run: RunView,
    driver: D,
    outcome: Result<Json, Seq<char>>,
    now: u64,
    agent_id: Seq<char>,
    line: Seq<char>,
    other: Seq<char>,
)
    requires
        other != run.run_id,
    ensures
        same_at(tool.admitted(run, driver), tool, other),
        same_at(tool.finished(run.run_id, outcome, now), tool, other),
        same_at(tool.cancelled(run.run_id, now), tool, other),
        same_at(tool.with_child(run.run_id, agent_id), tool, other),
        same_at(tool.with_progress(run.run_id, line), tool, other),
{
}

/// Whether two states of the tool hold the same run under an id, and the same controller.
pub open spec fn same_at<M, R, D>(
    left: ToolView<M, R, D>,
    right: ToolView<M, R, D>,
    run_id: Seq<char>,
) -> bool {
    &&& left.runs.contains_key(run_id) == right.runs.contains_key(run_id)
    &&& left.runs.contains_key(run_id) ==> left.runs[run_id] == right.runs[run_id]
    &&& left.controllers.contains_key(run_id) == right.controllers.contains_key(run_id)
    &&& left.controllers.contains_key(run_id) ==> left.controllers[run_id]
        == right.controllers[run_id]
}

/// A run that has just been taken in is answered for as it is.
pub proof fn law_started_run_is_reported<M, R, D>(
    tool: ToolView<M, R, D>,
    run_id: Seq<char>,
    path: Option<PathView>,
    token_budget: Option<u64>,
    at: u64,
    driver: D,
)
    requires
        path matches Some(path) ==> path.is_utf8,
    ensures
        ({
            let run = RunView::started(run_id, path, token_budget, at);
            let answer = run_answer(tool.admitted(run, driver).runs, run_id);
            &&& answer is Ok
            &&& answer->Ok_0.content == pretty_text(run_json(run))
            &&& answer->Ok_0.metadata == Some(metadata_json(run))
        }),
{
}

/// What can happen to the runs of the tool.
pub enum ToolEvent<D> {
    /// A run is taken in, with its controller.
    Admitted { run: RunView, driver: D },
    /// The script of a run ends.
    Finished { run_id: Seq<char>, outcome: Result<Json, Seq<char>>, now: u64 },
    /// A run is cancelled.
    Cancelled { run_id: Seq<char>, now: u64 },
    /// The controller of a run is taken out.
    Released { run_id: Seq<char> },
    /// A run has one more child.
    Child { run_id: Seq<char>, agent_id: Seq<char> },
    /// A run has one more line of progress.
    Progress { run_id: Seq<char>, line: Seq<char> },
}

/// The tool after an event.
pub open spec fn after_event<M, R, D>(
    tool: ToolView<M, R, D>,
    event: ToolEvent<D>,
) -> ToolView<M, R, D> {
    match event {
        ToolEvent::Admitted { run, driver } => tool.admitted(run, driver),
        ToolEvent::Finished { run_id, outcome, now } => tool.finished(run_id, outcome, now),
        ToolEvent::Cancelled { run_id, now } => tool.cancelled(run_id, now),
        ToolEvent::Released { run_id } => ToolView {
            controllers: tool.controllers.remove(run_id),
            ..tool
        },
        ToolEvent::Child { run_id, agent_id } => tool.with_child(run_id, agent_id),
        ToolEvent::Progress { run_id, line } => tool.with_progress(run_id, line),
    }
}

/// The tool after a series of events.
pub open spec fn after_events<M, R, D>(
    tool: ToolView<M, R, D>,
    events: Seq<ToolEvent<D>>,
) -> ToolView<M, R, D>
    decreases events.len(),
{
    if events.len() == 0 {
        tool
    } else {
        after_event(after_events(tool, events.drop_last()), events.last())
    }
}

/// Whether one of the events takes in a run under an id.
pub open spec fn admits<D>(events: Seq<ToolEvent<D>>, run_id: Seq<char>) -> bool {
    exists|i: int|
        0 <= i < events.len() && (#[trigger] events[i] matches ToolEvent::Admitted { run, .. }
            && run.run_id == run_id)
}

/// Where events take in no run under an id, neither do the first `n` of them nor the rest.
proof fn lemma_admits_part<D>(events: Seq<ToolEvent<D>>, run_id: Seq<char>, n: int)
    requires
        0 <= n <= events.len(),
        !admits(events, run_id),
    ensures
        !admits(events.take(n), run_id),
        !admits(events.skip(n), run_id),
{
    if admits(events.take(n), run_id) {
        let i = choose|i: int|
            0 <= i < n && (#[trigger] events.take(n)[i] matches ToolEvent::Admitted { run, .. }
                && run.run_id == run_id);
        assert(events[i] == events.take(n)[i]);
    }
    if admits(events.skip(n), run_id) {
        let i = choose|i: int|
            0 <= i < events.len() - n && (
            #[trigger] events.skip(n)[i] matches ToolEvent::Admitted { run, .. } && run.run_id
                == run_id);
        assert(events[n + i] == events.skip(n)[i]);
    }
}

/// The tool after two series of events is the tool after both in a row.
proof fn lemma_after_events_in_a_row<M, R, D>(
    tool: ToolView<M, R, D>,
    before: Seq<ToolEvent<D>>,
    later: Seq<ToolEvent<D>>,
)
    ensures
        after_events(tool, before + later) == after_events(after_events(tool, before), later),
    decreases later.len(),
{
    if later.len() == 0 {
        assert(before + later =~= before);
    } else {
        lemma_after_events_in_a_row(tool, before, later.drop_last());
        assert((before + later).drop_last() =~= before + later.drop_last());
    }
}

/// A run that is cancelled stays so through whatever happens, as long as no run is taken in
/// under its id anew; its result and its error stay as well.
pub proof fn law_cancelled_through_everything<M, R, D>(
    tool: ToolView<M, R, D>,
    events: Seq<ToolEvent<D>>,
    run_id: Seq<char>,
)
    requires
        tool.runs.contains_key(run_id),
        tool.runs[run_id].status == WorkflowRunStatus::Cancelled,
        tool.runs[run_id].consistent(),
        !admits(events, run_id),
    ensures
        ({
            let after = after_events(tool, events);
            &&& after.runs.contains_key(run_id)
            &&& after.runs[run_id].status == WorkflowRunStatus::Cancelled
            &&& after.runs[run_id].result == tool.runs[run_id].result
            &&& after.runs[run_id].error == tool.runs[run_id].error
        }),
    decreases events.len(),
{
    if events.len() > 0 {
        let before = events.drop_last();
        lemma_admits_part(events, run_id, events.len() - 1);
        assert(before =~= events.take(events.len() - 1));
        law_cancelled_through_everything(tool, before, run_id);
        assert(events[events.len() - 1] == events.last());
    }
}

/// A run that is over stays over through whatever happens, as long as no run is taken in under
/// its id anew.
pub proof fn law_over_through_everything<M, R, D>(
    tool: ToolView<M, R, D>,
    events: Seq<ToolEvent<D>>,
    run_id: Seq<char>,
)
    requires
        tool.runs.contains_key(run_id),
        tool.runs[run_id].status != WorkflowRunStatus::Running,
        !admits(events, run_id),
    ensures
        after_events(tool, events).runs.contains_key(run_id),
        after_events(tool, events).runs[run_id].status != WorkflowRunStatus::Running,
    decreases events.len(),
{
    if events.len() > 0 {
        let before = events.drop_last();
        lemma_admits_part(events, run_id, events.len() - 1);
        assert(before =~= events.take(events.len() - 1));
        law_over_through_everything(tool, before, run_id);
        assert(events[events.len() - 1] == events.last());
    }
}

/// How often the script of a run ends in a series of events.
pub open spec fn script_ends<D>(events: Seq<ToolEvent<D>>, run_id: Seq<char>) -> nat
    decreases events.len(),
{
    if events.len() == 0 {
        0
    } else {
        script_ends(events.drop_last(), run_id) + match events.last() {
            ToolEvent::Finished { run_id: ended, .. } => if ended == run_id {
                1nat
            } else {
                0nat
            },
            _ => 0nat,
        }
    }
}

proof fn lemma_script_ends_add<D>(
    before: Seq<ToolEvent<D>>,
    later: Seq<ToolEvent<D>>,
    run_id: Seq<char>,
)
    ensures
        script_ends(before + later, run_id) == script_ends(before, run_id) + script_ends(
            later,
            run_id,
        ),
    decreases later.len(),
{
    if later.len() == 0 {
        assert(before + later =~= before);
    } else {
        lemma_script_ends_add(before, later.drop_last(), run_id);
        assert((before + later).drop_last() =~= before + later.drop_last());
    }
}

/// What a run began with stays through whatever happens, as long as no run is taken in under
/// its id anew: its id, the time of its start, its script and its budget. Its progress and its
/// children only grow, at the end.
pub proof fn law_run_keeps_what_it_began_with<M, R, D>(
    tool: ToolView<M, R, D>,
    events: Seq<ToolEvent<D>>,
    run_id: Seq<char>,
)
    requires
        tool.runs.contains_key(run_id),
        !admits(events, run_id),
    ensures
        ({
            let run = tool.runs[run_id];
            let after = after_events(tool, events);
            &&& after.runs.contains_key(run_id)
            &&& after.runs[run_id].run_id == run.run_id
            &&& after.runs[run_id].started_at_ms == run.started_at_ms
            &&& after.runs[run_id].source_path == run.source_path
            &&& after.runs[run_id].token_budget == run.token_budget
            &&& run.progress.is_prefix_of(after.runs[run_id].progress)
            &&& run.child_ids.is_prefix_of(after.runs[run_id].child_ids)
        }),
    decreases events.len(),
{
    let run = tool.runs[run_id];
    if events.len() == 0 {
        assert(run.progress.is_prefix_of(run.progress));
        assert(run.child_ids.is_prefix_of(run.child_ids));
    } else {
        let before = events.drop_last();
        lemma_admits_part(events, run_id, events.len() - 1);
        assert(before =~= events.take(events.len() - 1));
        law_run_keeps_what_it_began_with(tool, before, run_id);
        assert(events[events.len() - 1] == events.last());
        let state = after_events(tool, before).runs[run_id];
        let after = after_events(tool, events).runs[run_id];
        assert(run.progress =~= after.progress.subrange(0, run.progress.len() as int)) by {
            assert(run.progress =~= state.progress.subrange(0, run.progress.len() as int));
            assert(forall|i: int| 0 <= i < state.progress.len() ==> after.progress[i]
                == #[trigger] state.progress[i]);
            assert(forall|i: int| 0 <= i < run.progress.len() ==> run.progress[i]
                == #[trigger] state.progress[i]);
        }
        assert(run.child_ids =~= after.child_ids.subrange(0, run.child_ids.len() as int)) by {
            assert(run.child_ids =~= state.child_ids.subrange(0, run.child_ids.len() as int));
            assert(forall|i: int| 0 <= i < state.child_ids.len() ==> after.child_ids[i]
                == #[trigger] state.child_ids[i]);
            assert(forall|i: int| 0 <= i < run.child_ids.len() ==> run.child_ids[i]
                == #[trigger] state.child_ids[i]);
        }
    }
}

/// A run whose script has ended changes only by being cancelled, as long as no run is taken in
/// under its id anew and its script does not end again; its result stays even then.
pub proof fn law_ended_run_is_only_cancelled<M, R, D>(
    tool: ToolView<M, R, D>,
    events: Seq<ToolEvent<D>>,
    run_id: Seq<char>,
)
    requires
        tool.runs.contains_key(run_id),
        tool.runs[run_id].status == WorkflowRunStatus::Completed || tool.runs[run_id].status
            == WorkflowRunStatus::Failed,
        !admits(events, run_id),
        script_ends(events, run_id) == 0,
    ensures
        ({
            let run = tool.runs[run_id];
            let after = after_events(tool, events).runs[run_id];
            &&& after_events(tool, events).runs.contains_key(run_id)
            &&& after.status == run.status || after.status == WorkflowRunStatus::Cancelled
            &&& after.result == run.result
            &&& after.status == run.status ==> after.error == run.error
                && after.completed_at_ms == run.completed_at_ms
        }),
    decreases events.len(),
{
    if events.len() > 0 {
        lemma_admits_part(events, run_id, events.len() - 1);
        assert(events.drop_last() =~= events.take(events.len() - 1));
        law_ended_run_is_only_cancelled(tool, events.drop_last(), run_id);
        assert(events[events.len() - 1] == events.last());
    }
}

/// A run that is under way, and whose script does not end, stays so or is cancelled.
proof fn lemma_running_until_it_ends<M, R, D>(
    tool: ToolView<M, R, D>,
    events: Seq<ToolEvent<D>>,
    run_id: Seq<char>,
)
    requires
        tool.runs.contains_key(run_id),
        tool.runs[run_id].status == WorkflowRunStatus::Running || tool.runs[run_id].status
            == WorkflowRunStatus::Cancelled,
        !admits(events, run_id),
        script_ends(events, run_id) == 0 || tool.runs[run_id].status
            == WorkflowRunStatus::Cancelled,
    ensures
        ({
            let after = after_events(tool, events);
            &&& after.runs.contains_key(run_id)
            &&& after.runs[run_id].status == tool.runs[run_id].status || after.runs[run_id].status
                == WorkflowRunStatus::Cancelled
        }),
    decreases events.len(),
{
    if events.len() > 0 {
        lemma_admits_part(events, run_id, events.len() - 1);
        assert(events.drop_last() =~= events.take(events.len() - 1));
        lemma_running_until_it_ends(tool, events.drop_last(), run_id);
        assert(events[events.len() - 1] == events.last());
    }
}

/// The life of a run, of which a script ends once at most: from any moment to any later one its
/// id, the time of its start, its script and its budget stay, its progress and its children
/// only grow, one that is over is not under way again, one that is cancelled stays so, and one
/// that is completed or failed stays so or is cancelled.
pub proof fn law_life_of_a_run<M, R, D>(
    tool: ToolView<M, R, D>,
    before: Seq<ToolEvent<D>>,
    later: Seq<ToolEvent<D>>,
    run_id: Seq<char>,
)
    requires
        tool.runs.contains_key(run_id),
        tool.runs[run_id].status == WorkflowRunStatus::Running,
        !admits(before + later, run_id),
        script_ends(before + later, run_id) <= 1,
    ensures
        ({
            let one = after_events(tool, before).runs[run_id];
            let other = after_events(tool, before + later).runs[run_id];
            &&& after_events(tool, before).runs.contains_key(run_id)
            &&& after_events(tool, before + later).runs.contains_key(run_id)
            &&& other.run_id == one.run_id
            &&& other.started_at_ms == one.started_at_ms
            &&& other.source_path == one.source_path
            &&& other.token_budget == one.token_budget
            &&& one.progress.is_prefix_of(other.progress)
            &&& one.child_ids.is_prefix_of(other.child_ids)
            &&& match one.status {
                WorkflowRunStatus::Running => true,
                WorkflowRunStatus::Cancelled => other.status == WorkflowRunStatus::Cancelled,
                _ => other.status == one.status || other.status == WorkflowRunStatus::Cancelled,
            }
        }),
{
    lemma_admits_part(before + later, run_id, before.len() as int);
    assert((before + later).take(before.len() as int) =~= before);
    assert((before + later).skip(before.len() as int) =~= later);
    lemma_script_ends_add(before, later, run_id);
    lemma_after_events_in_a_row(tool, before, later);
    law_run_keeps_what_it_began_with(tool, before, run_id);
    let state = after_events(tool, before);
    law_run_keeps_what_it_began_with(state, later, run_id);
    if script_ends(before, run_id) == 0 {
        lemma_running_until_it_ends(tool, before, run_id);
    }
    match state.runs[run_id].status {
        WorkflowRunStatus::Running => {},
        WorkflowRunStatus::Cancelled => {
            lemma_running_until_it_ends(state, later, run_id);
        },
        _ => {
            law_ended_run_is_only_cancelled(state, later, run_id);
        },
    }
}

/// No run that the tool knows is ever forgotten.
pub proof fn law_runs_are_never_forgotten<M, R, D>(
    tool: ToolView<M, R, D>,
    events: Seq<ToolEvent<D>>,
)
    ensures
        tool.runs.dom().subset_of(after_events(tool, events).runs.dom()),
    decreases events.len(),
{
    if events.len() > 0 {
        law_runs_are_never_forgotten(tool, events.drop_last());
    }
}

/// Whatever happens, every run stands under its own id, what is kept of it fits together, and
/// every controller is of a run that is known.
pub proof fn law_tool_stays_consistent<M, R, D>(
    tool: ToolView<M, R, D>,
    events: Seq<ToolEvent<D>>,
)
    requires
        tool.consistent(),
        forall|i: int|
            0 <= i < events.len() ==> (#[trigger] events[i] matches ToolEvent::Admitted {
                run,
                ..
            } ==> run.consistent()),
    ensures
        after_events(tool, events).consistent(),
    decreases events.len(),
{
    if events.len() > 0 {
        let before = events.drop_last();
        assert forall|i: int| 0 <= i < before.len() implies (
        #[trigger] before[i] matches ToolEvent::Admitted { run, .. } ==> run.consistent()) by {
            assert(before[i] == events[i]);
        }
        law_tool_stays_consistent(tool, before);
        let state = after_events(tool, before);
        assert(events[events.len() - 1] == events.last());
        match events.last() {
            ToolEvent::Child { run_id, agent_id } => {
                if state.runs.contains_key(run_id) {
                    lemma_with_text_no_duplicates(state.runs[run_id].child_ids, agent_id);
                }
            },
            _ => {},
        }
    }
}

/// Whether every controller is of a run that is under way.
pub open spec fn controls_running_runs<M, R, D>(tool: ToolView<M, R, D>) -> bool {
    forall|run_id: Seq<char>| #[trigger]
        tool.controllers.contains_key(run_id) ==> tool.runs.contains_key(run_id)
            && tool.runs[run_id].status == WorkflowRunStatus::Running
}

/// Whatever happens, and in whatever order, only runs that are under way have controllers, as
/// long as the runs that are taken in are under way: neither a run whose script has ended nor one
/// that has been cancelled has one.
pub proof fn law_only_running_runs_have_controllers<M, R, D>(
    tool: ToolView<M, R, D>,
    events: Seq<ToolEvent<D>>,
)
    requires
        controls_running_runs(tool),
        forall|i: int|
            0 <= i < events.len() ==> (#[trigger] events[i] matches ToolEvent::Admitted {
                run,
                ..
            } ==> run.status == WorkflowRunStatus::Running),
    ensures
        controls_running_runs(after_events(tool, events)),
    decreases events.len(),
{
    if events.len() > 0 {
        let before = events.drop_last();
        assert forall|i: int| 0 <= i < before.len() implies (
        #[trigger] before[i] matches ToolEvent::Admitted { run, .. } ==> run.status
            == WorkflowRunStatus::Running) by {
            assert(before[i] == events[i]);
        }
        law_only_running_runs_have_controllers(tool, before);
        let state = after_events(tool, before);
        let after = after_events(tool, events);
        assert(events[events.len() - 1] == events.last());
        assert forall|run_id: Seq<char>| #[trigger]
            after.controllers.contains_key(run_id) implies after.runs.contains_key(run_id)
            && after.runs[run_id].status == WorkflowRunStatus::Running by {
            if state.controllers.contains_key(run_id) {
                assert(state.runs[run_id].status == WorkflowRunStatus::Running);
            }
        }
    }
}

/// Every child of a run is counted once, however often it is reported.
pub proof fn law_child_counts_once(run: RunView, agent_id: Seq<char>)
    ensures
        run.with_child(agent_id).with_child(agent_id) == run.with_child(agent_id),
        run.with_child(agent_id).child_ids.contains(agent_id),
{
    let ids = run.child_ids;
    if !ids.contains(agent_id) {
        assert(ids.push(agent_id)[ids.len() as int] == agent_id);
    }
}

/// Whoever waits for an agent gets its end, whether they ask first or the agent ends first,
/// and in both cases nothing is left behind.
pub proof fn law_completion_meets_its_waiter<W>(
    state: CompletionsView<W>,
    agent_id: Seq<char>,
    waiter: W,
    completion: TaskCompletion,
)
    requires
        !state.waiters.contains_key(agent_id),
        !state.pending.contains_key(agent_id),
    ensures
        state.awaited_delivery(agent_id, waiter) is None,
        state.awaited(agent_id, waiter).delivered_delivery(agent_id, completion) == Some(
            Delivery { waiter, completion },
        ),
        state.awaited(agent_id, waiter).delivered(agent_id, completion) == state,
        state.delivered_delivery(agent_id, completion) is None,
        state.delivered(agent_id, completion).awaited_delivery(agent_id, waiter) == Some(
            Delivery { waiter, completion },
        ),
        state.delivered(agent_id, completion).awaited(agent_id, waiter) == state,
{
    assert(state.waiters.insert(agent_id, waiter).remove(agent_id) =~= state.waiters);
    assert(state.pending.insert(agent_id, completion).remove(agent_id) =~= state.pending);
}

/// What happens to two agents may happen in either order.
pub proof fn law_agents_do_not_mix<W>(
    state: CompletionsView<W>,
    one: Seq<char>,
    waiter: W,
    other: Seq<char>,
    completion: TaskCompletion,
)
    requires
        one != other,
    ensures
        state.awaited(one, waiter).delivered(other, completion) == state.delivered(
            other,
            completion,
        ).awaited(one, waiter),
        state.awaited(one, waiter).delivered_delivery(other, completion)
            == state.delivered_delivery(other, completion),
        state.delivered(other, completion).awaited_delivery(one, waiter) == state.awaited_delivery(
            one,
            waiter,
        ),
{
    let left = state.awaited(one, waiter).delivered(other, completion);
    let right = state.delivered(other, completion).awaited(one, waiter);
    assert(left.waiters =~= right.waiters);
    assert(left.pending =~= right.pending);
}

/// Once everyone has been let go, nobody waits: each of those who waited has been told that
/// their agent was cancelled, ends that nobody has asked for are still at hand, and an end that
/// comes in afterwards goes to nobody.
pub proof fn law_cancelling_lets_everyone_go<W>(
    state: CompletionsView<W>,
    agent_id: Seq<char>,
    completion: TaskCompletion,
)
    ensures
        !state.let_go().waiters.contains_key(agent_id),
        state.let_go().pending == state.pending,
        state.let_go().settled(),
        state.let_go().cancelled_deliveries() == Map::<Seq<char>, Delivery<W>>::empty(),
        state.let_go().delivered_delivery(agent_id, completion) is None,
        state.cancelled_deliveries().dom() == state.waiters.dom(),
        state.waiters.contains_key(agent_id) ==> state.cancelled_deliveries()[agent_id] == (
        Delivery { waiter: state.waiters[agent_id], completion: TaskCompletion::Cancelled }),
{
    assert(state.let_go().cancelled_deliveries() =~= Map::<Seq<char>, Delivery<W>>::empty());
    assert(state.cancelled_deliveries().dom() =~= state.waiters.dom());
}

/// What can happen to the driver of a run.
pub enum DriverEvent<W> {
    /// An agent has been given a task.
    Spawned { agent_id: Seq<char>, waiter: W },
    /// No agent could be given a task.
    Refused,
    /// Someone waits for an agent.
    Awaited { agent_id: Seq<char>, waiter: W },
    /// An agent has ended.
    Delivered { agent_id: Seq<char>, completion: TaskCompletion },
    /// The engine of the script lets everyone go.
    LetGo,
    /// The run is cancelled.
    Stopped,
}

/// A driver after an event.
pub open spec fn driver_after<W>(driver: DriverView<W>, event: DriverEvent<W>) -> DriverView<W> {
    match event {
        DriverEvent::Spawned { agent_id, waiter } => driver.spawned(agent_id, waiter),
        DriverEvent::Refused => driver,
        DriverEvent::Awaited { agent_id, waiter } => driver.awaited(agent_id, waiter),
        DriverEvent::Delivered { agent_id, completion } => driver.delivered(agent_id, completion),
        DriverEvent::LetGo => driver.let_go(),
        DriverEvent::Stopped => driver.stop(),
    }
}

/// A driver after a series of events.
pub open spec fn driver_after_all<W>(
    driver: DriverView<W>,
    events: Seq<DriverEvent<W>>,
) -> DriverView<W>
    decreases events.len(),
{
    if events.len() == 0 {
        driver
    } else {
        driver_after(driver_after_all(driver, events.drop_last()), events.last())
    }
}

/// Once its run has been cancelled, a driver stays stopped and has no child that it had not
/// before, whatever happens.
pub proof fn law_stopped_driver_gets_no_child<W>(
    driver: DriverView<W>,
    events: Seq<DriverEvent<W>>,
)
    requires
        driver.stopped,
    ensures
        driver_after_all(driver, events).stopped,
        driver_after_all(driver, events).child_ids == driver.child_ids,
    decreases events.len(),
{
    if events.len() > 0 {
        law_stopped_driver_gets_no_child(driver, events.drop_last());
    }
}

/// Whatever happens, a driver is of the same run and has the same budget.
pub proof fn law_driver_keeps_its_run_and_budget<W>(
    driver: DriverView<W>,
    events: Seq<DriverEvent<W>>,
)
    ensures
        driver_after_all(driver, events).run_id == driver.run_id,
        driver_after_all(driver, events).total_budget == driver.total_budget,
        driver_after_all(driver, events).spent_budget == driver.spent_budget,
    decreases events.len(),
{
    if events.len() > 0 {
        law_driver_keeps_its_run_and_budget(driver, events.drop_last());
    }
}

/// A run after its script has handed tasks to a series of agents.
pub open spec fn with_children(run: RunView, agent_ids: Seq<Seq<char>>) -> RunView
    decreases agent_ids.len(),
{
    if agent_ids.len() == 0 {
        run
    } else {
        with_children(run, agent_ids.drop_last()).with_child(agent_ids.last())
    }
}

/// Whether one of a series of events stops the driver.
pub open spec fn stops<W>(events: Seq<DriverEvent<W>>) -> bool {
    exists|i: int| 0 <= i < events.len() && #[trigger] events[i] is Stopped
}

/// The agents that were given tasks before the driver was stopped.
pub open spec fn agents_before_stop<W>(events: Seq<DriverEvent<W>>) -> Seq<Seq<char>>
    decreases events.len(),
{
    if events.len() == 0 {
        Seq::empty()
    } else {
        let before = agents_before_stop(events.drop_last());
        match events.last() {
            DriverEvent::Spawned { agent_id, .. } => if stops(events.drop_last()) {
                before
            } else {
                before.push(agent_id)
            },
            _ => before,
        }
    }
}

/// Whatever happens to a driver, the children that it counts, and will stop, are those of the
/// run with the agents that were given tasks before the stop: each of these is among them, once,
/// and no other agent is.
pub proof fn law_driver_counts_the_children_of_its_run<W>(
    run_id: Seq<char>,
    path: Option<PathView>,
    token_budget: Option<u64>,
    at: u64,
    events: Seq<DriverEvent<W>>,
)
    ensures
        ({
            let driver = driver_after_all(DriverView::<W>::fresh(run_id, token_budget), events);
            let agent_ids = agents_before_stop(events);
            let run = with_children(RunView::started(run_id, path, token_budget, at), agent_ids);
            &&& driver.stopped == stops(events)
            &&& driver.child_ids == run.child_ids
            &&& driver.child_ids.to_set() == agent_ids.to_set()
            &&& driver.child_ids.no_duplicates()
        }),
    decreases events.len(),
{
    let started = RunView::started(run_id, path, token_budget, at);
    let agent_ids = agents_before_stop(events);
    if events.len() == 0 {
        assert(with_children(started, agent_ids).child_ids.to_set() =~= agent_ids.to_set());
    } else {
        let before = events.drop_last();
        law_driver_counts_the_children_of_its_run(run_id, path, token_budget, at, before);
        assert(stops(events) == (stops(before) || events.last() is Stopped)) by {
            if stops(before) {
                let i = choose|i: int| 0 <= i < before.len() && #[trigger] before[i] is Stopped;
                assert(events[i] is Stopped);
            }
            assert(events[events.len() - 1] == events.last());
            if stops(events) {
                let i = choose|i: int| 0 <= i < events.len() && #[trigger] events[i] is Stopped;
                if i < before.len() {
                    assert(before[i] is Stopped);
                }
            }
        }
        match events.last() {
            DriverEvent::Spawned { agent_id, .. } => {
                if !stops(before) {
                    let earlier = agents_before_stop(before);
                    let children = with_children(started, earlier).child_ids;
                    assert(earlier.push(agent_id).drop_last() =~= earlier);
                    lemma_with_text_no_duplicates(children, agent_id);
                    lemma_with_text_set(children, agent_id);
                    lemma_push_set(earlier, agent_id);
                }
            },
            _ => {},
        }
    }
}

proof fn lemma_push_set(list: Seq<Seq<char>>, text: Seq<char>)
    ensures
        list.push(text).to_set() == list.to_set().insert(text),
{
    let longer = list.push(text);
    assert forall|other: Seq<char>| #[trigger]
        longer.to_set().contains(other) <==> list.to_set().insert(text).contains(other) by {
        if list.contains(other) {
            let i = choose|i: int| 0 <= i < list.len() && list[i] == other;
            assert(longer[i] == other);
        }
        if other == text {
            assert(longer[list.len() as int] == other);
        }
    }
    assert(longer.to_set() =~= list.to_set().insert(text));
}

proof fn lemma_with_text_set(list: Seq<Seq<char>>, text: Seq<char>)
    ensures
        with_text(list, text).to_set() == list.to_set().insert(text),
{
    if list.contains(text) {
        assert(list.to_set() =~= list.to_set().insert(text));
    } else {
        lemma_push_set(list, text);
    }
}

/// What can happen while a run is under way: something to the runs of the tool, or something to
/// the driver of the run.
pub enum RunEvent<D, W> {
    Tool(ToolEvent<D>),
    Driver(DriverEvent<W>),
}

/// The tool and the driver of a run after an event: both take in the agent that has been given
/// a task.
pub open spec fn both_after<M, R, D, W>(
    both: (ToolView<M, R, D>, DriverView<W>),
    event: RunEvent<D, W>,
) -> (ToolView<M, R, D>, DriverView<W>) {
    match event {
        RunEvent::Tool(event) => (after_event(both.0, event), both.1),
        RunEvent::Driver(event) => (
            match event {
                DriverEvent::Spawned { agent_id, .. } => both.0.spawned(both.1, agent_id),
                _ => both.0,
            },
            driver_after(both.1, event),
        ),
    }
}

/// The tool and the driver of a run after a series of events.
pub open spec fn both_after_all<M, R, D, W>(
    both: (ToolView<M, R, D>, DriverView<W>),
    events: Seq<RunEvent<D, W>>,
) -> (ToolView<M, R, D>, DriverView<W>)
    decreases events.len(),
{
    if events.len() == 0 {
        both
    } else {
        both_after(both_after_all(both, events.drop_last()), events.last())
    }
}

/// Whether an event gives the tool another run under an id, or tells the tool alone of a child
/// of that run.
pub open spec fn goes_past_driver<D, W>(event: RunEvent<D, W>, run_id: Seq<char>) -> bool {
    match event {
        RunEvent::Tool(ToolEvent::Admitted { run, .. }) => run.run_id == run_id,
        RunEvent::Tool(ToolEvent::Child { run_id: parent, .. }) => parent == run_id,
        _ => false,
    }
}

/// The tool and the driver of a run that has just been started.
pub open spec fn both_started<M, R, D, W>(
    tool: ToolView<M, R, D>,
    controller: D,
    run_id: Seq<char>,
    path: Option<PathView>,
    token_budget: Option<u64>,
    at: u64,
) -> (ToolView<M, R, D>, DriverView<W>) {
    (
        tool.admitted(RunView::started(run_id, path, token_budget, at), controller),
        DriverView::fresh(run_id, token_budget),
    )
}

/// Whatever happens after the start of a run, the run and its driver agree: the driver counts
/// the children that the run reports, and has the budget of the run.
pub proof fn law_run_and_driver_agree<M, R, D, W>(
    tool: ToolView<M, R, D>,
    controller: D,
    run_id: Seq<char>,
    path: Option<PathView>,
    token_budget: Option<u64>,
    at: u64,
    events: Seq<RunEvent<D, W>>,
)
    requires
        forall|i: int| 0 <= i < events.len() ==> !goes_past_driver(#[trigger] events[i], run_id),
    ensures
        ({
            let (after, driver) = both_after_all(
                both_started::<M, R, D, W>(tool, controller, run_id, path, token_budget, at),
                events,
            );
            &&& driver.run_id == run_id
            &&& after.runs.contains_key(run_id)
            &&& after.runs[run_id].child_ids == driver.child_ids
            &&& after.runs[run_id].token_budget == driver.total_budget
        }),
    decreases events.len(),
{
    if events.len() > 0 {
        let before = events.drop_last();
        assert forall|i: int| 0 <= i < before.len() implies !goes_past_driver(
            #[trigger] before[i],
            run_id,
        ) by {
            assert(events[i] == before[i]);
        }
        law_run_and_driver_agree(tool, controller, run_id, path, token_budget, at, before);
        assert(!goes_past_driver(events[events.len() - 1], run_id));
    }
}

/// To cancel a run is to take its controller out, to stop its driver, to carry out the orders
/// that come of that, and to note the end of the run. Whatever has happened since its start, the
/// run is then cancelled and has no controller; every child that it reports is ordered to stop,
/// and no other; everyone who waited is told that their agent was cancelled; no agent is given a
/// task any more; and no other run is touched.
pub proof fn law_cancel_stops_a_run_and_its_children<M, R, D, W>(
    tool: ToolView<M, R, D>,
    controller: D,
    run_id: Seq<char>,
    path: Option<PathView>,
    token_budget: Option<u64>,
    at: u64,
    events: Seq<RunEvent<D, W>>,
    now: u64,
    orders: CancelOrders<W>,
    agent_id: Seq<char>,
    waiter: W,
    other: Seq<char>,
)
    requires
        forall|i: int| 0 <= i < events.len() ==> !goes_past_driver(#[trigger] events[i], run_id),
        cancels(
            orders,
            both_after_all(
                both_started::<M, R, D, W>(tool, controller, run_id, path, token_budget, at),
                events,
            ).1,
        ),
        other != run_id,
    ensures
        ({
            let (state, driver) = both_after_all(
                both_started::<M, R, D, W>(tool, controller, run_id, path, token_budget, at),
                events,
            );
            let released = after_event(state, ToolEvent::Released { run_id });
            let after = after_event(released, ToolEvent::Cancelled { run_id, now });
            &&& after.runs.contains_key(run_id)
            &&& after.runs[run_id].status == WorkflowRunStatus::Cancelled
            &&& !after.controllers.contains_key(run_id)
            &&& texts(orders.child_ids@) == after.runs[run_id].child_ids
            &&& driver.stop().spawned(agent_id, waiter) == driver.stop()
            &&& after.spawned(driver.stop(), agent_id) == after
            &&& driver.stop().completions.waiters == Map::<Seq<char>, W>::empty()
            &&& driver.completions.waiters.contains_key(agent_id) ==> exists|i: int|
                0 <= i < orders.deliveries@.len() && (#[trigger] orders.deliveries@[i]).0@
                    == agent_id && orders.deliveries@[i].1 == (Delivery {
                    waiter: driver.completions.waiters[agent_id],
                    completion: TaskCompletion::Cancelled,
                })
            &&& same_at(after, state, other)
        }),
{
    law_run_and_driver_agree(tool, controller, run_id, path, token_budget, at, events);
    let driver = both_after_all(
        both_started::<M, R, D, W>(tool, controller, run_id, path, token_budget, at),
        events,
    ).1;
    let told = driver.completions.cancelled_deliveries();
    if driver.completions.waiters.contains_key(agent_id) {
        assert(told.contains_key(agent_id));
        let i = choose|i: int|
            0 <= i < orders.deliveries@.len() && (#[trigger] orders.deliveries@[i]).0@ == agent_id;
        assert(told[orders.deliveries@[i].0@] == orders.deliveries@[i].1);
    }
}

/// Whether none of a series of lookups shows the end of the task.
pub open spec fn shows_no_end(snapshots: Seq<Option<SnapshotView>>, fallback: Seq<char>) -> bool {
    forall|i: int| 0 <= i < snapshots.len() ==> completion_in(#[trigger] snapshots[i], fallback) is None
}

/// As long as no lookup shows an end, and as long as there may be more, the search goes on;
/// after the last one the agent's own report is taken for the result.
pub proof fn law_search_ends_with_the_report(
    fallback: Seq<char>,
    snapshots: Seq<Option<SnapshotView>>,
)
    requires
        shows_no_end(snapshots, fallback),
        snapshots.len() <= LOOKUPS,
    ensures
        searched(fallback, snapshots) == if snapshots.len() < LOOKUPS {
            SearchView::Looking { lookups_left: LOOKUPS - snapshots.len(), fallback }
        } else {
            SearchView::Found(CompletionView::Completed(fallback))
        },
    decreases snapshots.len(),
{
    if snapshots.len() > 0 {
        let before = snapshots.drop_last();
        assert forall|i: int| 0 <= i < before.len() implies completion_in(
            #[trigger] before[i],
            fallback,
        ) is None by {
            assert(before[i] == snapshots[i]);
        }
        law_search_ends_with_the_report(fallback, before);
        assert(completion_in(snapshots[snapshots.len() - 1], fallback) is None);
    }
}

/// The first lookup that shows the end of the task decides, if it is made in time.
pub proof fn law_search_finds_the_first_end(
    fallback: Seq<char>,
    before: Seq<Option<SnapshotView>>,
    snapshot: Option<SnapshotView>,
)
    requires
        shows_no_end(before, fallback),
        before.len() < LOOKUPS,
        completion_in(snapshot, fallback) is Some,
    ensures
        searched(fallback, before.push(snapshot)) == SearchView::Found(
            completion_in(snapshot, fallback)->Some_0,
        ),
{
    law_search_ends_with_the_report(fallback, before);
    assert(before.push(snapshot).drop_last() =~= before);
}

/// What a search has found stays, whatever is looked up afterwards.
pub proof fn law_search_keeps_what_it_found(
    fallback: Seq<char>,
    snapshots: Seq<Option<SnapshotView>>,
    more: Seq<Option<SnapshotView>>,
)
    requires
        searched(fallback, snapshots) is Found,
    ensures
        searched(fallback, snapshots + more) == searched(fallback, snapshots),
    decreases more.len(),
{
    if more.len() == 0 {
        assert(snapshots + more =~= snapshots);
    } else {
        law_search_keeps_what_it_found(fallback, snapshots, more.drop_last());
        assert((snapshots + more).drop_last() =~= snapshots + more.drop_last());
    }
}

/// A request needs no approval just when it changes nothing, and then it may be carried out
/// beside others; one that starts something that goes on by itself, and one that cannot be
/// understood, need approval.
pub proof fn law_only_reading_needs_no_approval(doc: Json)
    ensures
        approval_for(doc) == ApprovalRequirement::Auto <==> asks_for_status(doc),
        asks_for_status(doc) ==> requested_command(doc) == Ok::<CommandView, ErrorView>(
            CommandView::Status,
        ),
        starts_detached(doc) ==> approval_for(doc) == ApprovalRequirement::Required,
        requested_command(doc) is Err ==> approval_for(doc) == ApprovalRequirement::Required,
{
}

/// A request starts something that goes on by itself just when it asks for a run without
/// waiting for it.
pub proof fn law_detached_is_start_without_waiting(doc: Json)
    ensures
        starts_detached(doc) <==> requested_command(doc) == Ok::<CommandView, ErrorView>(
            CommandView::Start { wait: false },
        ),
{
}

/// A script comes from the request or from a file, never from both.
pub proof fn law_one_source(script: Option<Seq<char>>, path: Option<Seq<char>>)
    ensures
        planned_source(script, path) matches Ok(plan) ==> match plan {
            SourcePlanView::Inline(text) => script == Some(text) && path is None,
            SourcePlanView::File(name) => script is None && path == Some(name),
        },
{
}

/// Without trust, a file is read only once the workspace is known, and only where it lies
/// inside: the script of a run comes from there or not at all.
pub proof fn law_script_file_stays_inside(
    path: Seq<char>,
    resolved: Result<PathView, Seq<char>>,
    root: PathView,
    content: Result<Seq<char>, Seq<char>>,
)
    ensures
        match after_path(path, false, resolved) {
            Ok(SourceStepView::ReadFile(_)) => false,
            Ok(SourceStepView::ResolveWorkspace(file)) => match after_workspace(file, root) {
                Ok(SourceStepView::ReadFile(inside)) => {
                    &&& inside == file
                    &&& lies_inside(inside, root)
                    &&& after_read(inside, content) matches Ok(source) ==> source.path == Some(
                        inside,
                    )
                },
                Ok(SourceStepView::ResolveWorkspace(_)) => false,
                Err(error) => !lies_inside(file, root) && error is PermissionDenied,
            },
            Err(_) => resolved is Err,
        },
{
}

/// A listing of the runs has as many entries as there are runs.
pub proof fn law_listing_counts_the_runs(runs: Map<Seq<char>, RunView>, listing: Seq<RunView>)
    requires
        is_listing(runs, listing),
    ensures
        runs.dom().finite(),
        listing.len() == runs.dom().len(),
{
    let ids = listing.map_values(|run: RunView| run.run_id);
    assert(ids.no_duplicates());
    assert forall|run_id: Seq<char>| #[trigger] ids.to_set().contains(run_id) <==> runs.dom().contains(
        run_id,
    ) by {
        if runs.contains_key(run_id) {
            let i = choose|i: int|
                0 <= i < listing.len() && (#[trigger] listing[i]).run_id == run_id;
            assert(ids[i] == run_id);
        }
        if ids.contains(run_id) {
            let i = choose|i: int| 0 <= i < ids.len() && ids[i] == run_id;
            assert(listing[i].run_id == run_id);
        }
    }
    assert(ids.to_set() =~= runs.dom());
    ids.unique_seq_to_set();
}

/// Two listings of the same runs hold the same runs.
pub proof fn law_listings_agree(
    runs: Map<Seq<char>, RunView>,
    one: Seq<RunView>,
    other: Seq<RunView>,
    run: RunView,
)
    requires
        is_listing(runs, one),
        is_listing(runs, other),
        one.contains(run),
    ensures
        other.contains(run),
{
    let i = choose|i: int| 0 <= i < one.len() && one[i] == run;
    assert(runs.contains_key(one[i].run_id));
    let j = choose|j: int| 0 <= j < other.len() && (#[trigger] other[j]).run_id == run.run_id;
    assert(other[j] == run);
}

/// White space around the name of an action does not matter, nor does the case of its letters.
pub proof fn law_action_ignores_case_and_space(text: Seq<char>)
    ensures
        requested_action(Some(trimmed(text))) == requested_action(Some(text)),
        requested_action(Some(lowered(text))) == requested_action(Some(text)),
{
    lemma_trim_front_done(text);
    lemma_trim_back_front(trim_front(text));
    lemma_trim_back_done(trim_front(text));
    assert(trimmed(trimmed(text)) == trimmed(text));
    lemma_lowered_trims(text);
    assert(lowered(lowered(trimmed(text))) =~= lowered(trimmed(text)));
}

proof fn lemma_trim_front_done(text: Seq<char>)
    ensures
        trim_front(text).len() == 0 || !is_white_space(trim_front(text).first()),
    decreases text.len(),
{
    if text.len() > 0 && is_white_space(text.first()) {
        lemma_trim_front_done(text.drop_first());
    }
}

proof fn lemma_trim_back_done(text: Seq<char>)
    ensures
        trim_back(trim_back(text)) == trim_back(text),
    decreases text.len(),
{
    if text.len() > 0 && is_white_space(text.last()) {
        lemma_trim_back_done(text.drop_last());
    }
}

proof fn lemma_trim_back_front(text: Seq<char>)
    requires
        text.len() == 0 || !is_white_space(text.first()),
    ensures
        trim_front(trim_back(text)) == trim_back(text),
    decreases text.len(),
{
    if text.len() > 0 && is_white_space(text.last()) {
        lemma_trim_back_front(text.drop_last());
    }
}

proof fn lemma_lowered_trims(text: Seq<char>)
    ensures
        trimmed(lowered(text)) == lowered(trimmed(text)),
{
    lemma_lowered_trims_front(text);
    lemma_lowered_trims_back(trim_front(text));
}

proof fn lemma_lowered_trims_front(text: Seq<char>)
    ensures
        trim_front(lowered(text)) == lowered(trim_front(text)),
    decreases text.len(),
{
    if text.len() > 0 {
        lemma_lower_keeps_space(text.first());
        assert(lowered(text).first() == ascii_lower(text.first()));
        if is_white_space(text.first()) {
            assert(lowered(text).drop_first() =~= lowered(text.drop_first()));
            lemma_lowered_trims_front(text.drop_first());
        }
    }
}

proof fn lemma_lowered_trims_back(text: Seq<char>)
    ensures
        trim_back(lowered(text)) == lowered(trim_back(text)),
    decreases text.len(),
{
    if text.len() > 0 {
        lemma_lower_keeps_space(text.last());
        assert(lowered(text).last() == ascii_lower(text.last()));
        if is_white_space(text.last()) {
            assert(lowered(text).drop_last() =~= lowered(text.drop_last()));
            lemma_lowered_trims_back(text.drop_last());
        }
    }
}

proof fn lemma_lower_keeps_space(c: char)
    ensures
        is_white_space(ascii_lower(c)) == is_white_space(c),
        ascii_lower(ascii_lower(c)) == ascii_lower(c),
{
}

/// Whatever is kept of a run can be read back from the document that reports it, each thing
/// under its key.
pub proof fn law_report_reads_back(run: RunView)
    ensures
        field(run_json(run), "run_id"@) == Some(Json::Text(run.run_id)),
        field(run_json(run), "status"@) == Some(Json::Text(status_name(run.status))),
        field(run_json(run), "started_at_ms"@) == Some(Json::Unsigned(run.started_at_ms)),
        field(run_json(run), "completed_at_ms"@) == Some(number_or_null(run.completed_at_ms)),
        field(run_json(run), "source_path"@) == Some(path_json(run.source_path)),
        field(run_json(run), "token_budget"@) == Some(number_or_null(run.token_budget)),
        field(run_json(run), "child_ids"@) == Some(text_array(run.child_ids)),
        field(run_json(run), "progress"@) == Some(text_array(run.progress)),
        field(run_json(run), "result"@) == Some(json_or_null(run.result)),
        field(run_json(run), "error"@) == Some(text_or_null(run.error)),
{
    let entries = run_entries(run);
    lemma_run_keys();
    assert forall|i: int, j: int| 0 <= i < j < entries.len() implies #[trigger] entries[i].0
        != #[trigger] entries[j].0 by {
        assert(shape(entries[i].0) != shape(entries[j].0));
    }
    assert forall|i: int| 0 <= i < entries.len() implies entry(
        entries,
        (#[trigger] entries[i]).0,
    ) == Some(entries[i].1) by {
        lemma_entry(entries, i);
    }
    assert(entries[0].0 == "run_id"@);
    assert(entries[1].0 == "status"@);
    assert(entries[2].0 == "started_at_ms"@);
    assert(entries[3].0 == "completed_at_ms"@);
    assert(entries[4].0 == "source_path"@);
    assert(entries[5].0 == "token_budget"@);
    assert(entries[6].0 == "child_ids"@);
    assert(entries[7].0 == "progress"@);
    assert(entries[8].0 == "result"@);
    assert(entries[9].0 == "error"@);
}

/// An entry is found under its key, where no other has that key.
proof fn lemma_entry(entries: Seq<(Seq<char>, Json)>, i: int)
    requires
        0 <= i < entries.len(),
        distinct_keys(entries),
    ensures
        entry(entries, entries[i].0) == Some(entries[i].1),
    decreases entries.len(),
{
    let last = entries.len() - 1;
    if i < last {
        assert(entries[i].0 != entries[last].0);
        let front = entries.drop_last();
        assert(distinct_keys(front)) by {
            assert forall|a: int, b: int| 0 <= a < b < front.len() implies #[trigger] front[a].0
                != #[trigger] front[b].0 by {
                assert(entries[a].0 != entries[b].0);
            }
        }
        assert(front[i] == entries[i]);
        lemma_entry(front, i);
    }
}

/// Once the script of a run has ended, and the run was not cancelled, the tool answers for it
/// with the result of the script, or with its error.
pub proof fn law_ended_run_is_reported<M, R, D>(
    tool: ToolView<M, R, D>,
    run_id: Seq<char>,
    outcome: Result<Json, Seq<char>>,
    now: u64,
)
    requires
        tool.runs.contains_key(run_id),
        tool.runs[run_id].status != WorkflowRunStatus::Cancelled,
        tool.runs[run_id].path_is_utf8(),
    ensures
        ({
            let after = tool.finished(run_id, outcome, now);
            let doc = run_json(after.runs[run_id]);
            &&& run_answer(after.runs, run_id) is Ok
            &&& run_answer(after.runs, run_id)->Ok_0.content == pretty_text(doc)
            &&& !after.controllers.contains_key(run_id)
            &&& match outcome {
                Ok(result) => {
                    &&& field(doc, "status"@) == Some(Json::Text("completed"@))
                    &&& field(doc, "result"@) == Some(result)
                    &&& field(doc, "error"@) == Some(Json::Null)
                },
                Err(error) => {
                    &&& field(doc, "status"@) == Some(Json::Text("failed"@))
                    &&& field(doc, "result"@) == Some(Json::Null)
                    &&& field(doc, "error"@) == Some(Json::Text(error))
                },
            }
        }),
{
    law_report_reads_back(tool.finished(run_id, outcome, now).runs[run_id]);
}

/// Once a run has been cancelled, the tool answers for it that it was.
pub proof fn law_cancelled_run_is_reported<M, R, D>(
    tool: ToolView<M, R, D>,
    run_id: Seq<char>,
    now: u64,
)
    requires
        tool.runs.contains_key(run_id),
        tool.runs[run_id].path_is_utf8(),
    ensures
        ({
            let after = tool.cancelled(run_id, now);
            let doc = run_json(after.runs[run_id]);
            &&& run_answer(after.runs, run_id) is Ok
            &&& run_answer(after.runs, run_id)->Ok_0.content == pretty_text(doc)
            &&& !after.controllers.contains_key(run_id)
            &&& field(doc, "status"@) == Some(Json::Text("cancelled"@))
            &&& field(doc, "error"@) == Some(Json::Text("cancelled by workflow tool"@))
        }),
{
    law_report_reads_back(tool.cancelled(run_id, now).runs[run_id]);
}

/// The document about a report names the run, its status, whether it is over and how many
/// children it has, and says the same of the run as the report does.
pub proof fn law_metadata_agrees_with_report(run: RunView)
    ensures
        field(metadata_json(run), "run_id"@) == field(run_json(run), "run_id"@),
        field(metadata_json(run), "status"@) == field(run_json(run), "status"@),
        field(metadata_json(run), "terminal"@) == Some(
            Json::Bool(run.status != WorkflowRunStatus::Running),
        ),
        field(metadata_json(run), "child_count"@) == Some(
            Json::Unsigned(run.child_ids.len() as u64),
        ),
{
    law_report_reads_back(run);
    let entries = metadata_entries(run);
    lemma_run_keys();
    assert forall|i: int, j: int| 0 <= i < j < entries.len() implies #[trigger] entries[i].0
        != #[trigger] entries[j].0 by {
        assert(shape(entries[i].0) != shape(entries[j].0));
    }
    assert forall|i: int| 0 <= i < entries.len() implies entry(
        entries,
        (#[trigger] entries[i]).0,
    ) == Some(entries[i].1) by {
        lemma_entry(entries, i);
    }
    assert(entries[0].0 == "run_id"@);
    assert(entries[1].0 == "status"@);
    assert(entries[2].0 == "terminal"@);
    assert(entries[3].0 == "child_count"@);
}

} // verus!
