//! The workflow tool: what it knows, and how requests and events change that.

use crate::action::{parse_workflow_action, WorkflowAction};
use crate::clock::{epoch_nanos, millis_at, now_ms};
use crate::document::{pretty_text, ToolResult};
use crate::driver::{
    is_spawned, progress_line, progress_text, DriverError, DriverView, ProgressEvent, SpawnedTask,
    SubAgentWorkflowDriver,
};
use crate::error::{ErrorView, ToolError};
use crate::json::{bool_field, json_of, optional_bool, text_field, Json};
use crate::record::{script_outcome, RunView, WorkflowRunRecord};
use crate::request::{
    action_of, command_outcome, parse_command, requested_command, StartRequest, WorkflowCommand,
};
use crate::runs::{
    answer_outcome, is_listing, listing_json, paths_are_utf8, run_answer, AnswerView, WorkflowRuns,
};
use crate::schema::{request_schema, schema_entries, DESCRIPTION, NAME};
use crate::table::Table;
use serde_json::Value;
use std::time::SystemTime;
use vstd::prelude::*;

verus! {

/// What a tool is able to do, as far as whoever runs it has to know.
#[derive(Debug, Clone, Copy, PartialEq, Eq, Structural)]
pub enum ToolCapability {
    ExecutesCode,
    RequiresApproval,
}

/// Whether a request has to be approved before it is carried out.
#[derive(Debug, Clone, Copy, PartialEq, Eq, Structural)]
pub enum ApprovalRequirement {
    Auto,
    Required,
}

/// Whether a request only asks how the runs are.
pub open spec fn asks_for_status(doc: Json) -> bool {
    action_of(doc) == Ok::<WorkflowAction, ErrorView>(WorkflowAction::Status)
}

/// Whether a request has to be approved: all but those that only ask how the runs are.
pub open spec fn approval_for(doc: Json) -> ApprovalRequirement {
    if asks_for_status(doc) {
        ApprovalRequirement::Auto
    } else {
        ApprovalRequirement::Required
    }
}

/// Whether a request starts something that goes on after it has been answered.
pub open spec fn starts_detached(doc: Json) -> bool {
    action_of(doc) == Ok::<WorkflowAction, ErrorView>(WorkflowAction::Start) && !bool_field(
        doc,
        "wait"@,
        false,
    )
}

/// The workflow tool: the manager of the agents and their runtime, which it hands on, the
/// runs that it knows, and the controllers of those that are under way.
pub struct WorkflowTool<M, R, D> {
    manager: M,
    runtime: R,
    runs: WorkflowRuns,
    controllers: Table<D>,
}

/// A `WorkflowTool` as values: the runs and the controllers by the ids of the runs.
#[verifier::ext_equal]
pub struct ToolView<M, R, D> {
    pub manager: M,
    pub runtime: R,
    pub runs: Map<Seq<char>, RunView>,
    pub controllers: Map<Seq<char>, D>,
}

impl<M, R, D> View for WorkflowTool<M, R, D> {
    type V = ToolView<M, R, D>;

    closed spec fn view(&self) -> ToolView<M, R, D> {
        ToolView {
            manager: self.manager,
            runtime: self.runtime,
            runs: self.runs@,
            controllers: self.controllers@,
        }
    }
}

impl<M, R, D> ToolView<M, R, D> {
    /// Every run stands under its own id, what is kept of it fits together, and every
    /// controller is of a run that is known.
    pub open spec fn consistent(self) -> bool {
        &&& forall|run_id: Seq<char>| #[trigger]
            self.runs.contains_key(run_id) ==> self.runs[run_id].run_id == run_id
                && self.runs[run_id].consistent()
        &&& self.controllers.dom().subset_of(self.runs.dom())
    }

    /// Once a run has been taken in, with its controller.
    pub open spec fn admitted(self, run: RunView, driver: D) -> ToolView<M, R, D> {
        ToolView {
            runs: self.runs.insert(run.run_id, run),
            controllers: self.controllers.insert(run.run_id, driver),
            ..self
        }
    }

    /// Once the script of a run has ended.
    pub open spec fn finished(
        self,
        run_id: Seq<char>,
        outcome: Result<Json, Seq<char>>,
        now: u64,
    ) -> ToolView<M, R, D> {
        ToolView {
            runs: if self.runs.contains_key(run_id) {
                self.runs.insert(run_id, self.runs[run_id].finished(outcome, now))
            } else {
                self.runs
            },
            controllers: self.controllers.remove(run_id),
            ..self
        }
    }

    /// Once a run has been cancelled. It has no controller then.
    pub open spec fn cancelled(self, run_id: Seq<char>, now: u64) -> ToolView<M, R, D> {
        ToolView {
            runs: if self.runs.contains_key(run_id) {
                self.runs.insert(run_id, self.runs[run_id].cancelled(now))
            } else {
                self.runs
            },
            controllers: self.controllers.remove(run_id),
            ..self
        }
    }

    /// Once a run has one more child.
    pub open spec fn with_child(self, run_id: Seq<char>, agent_id: Seq<char>) -> ToolView<M, R, D> {
        ToolView {
            runs: if self.runs.contains_key(run_id) {
                self.runs.insert(run_id, self.runs[run_id].with_child(agent_id))
            } else {
                self.runs
            },
            ..self
        }
    }

    /// Once an agent has a task of the run that `driver` is of. Where that driver is stopped, the
    /// agent is none of the run's.
    pub open spec fn spawned<W>(self, driver: DriverView<W>, agent_id: Seq<char>) -> ToolView<
        M,
        R,
        D,
    > {
        if driver.stopped {
            self
        } else {
            self.with_child(driver.run_id, agent_id)
        }
    }

    /// Once a run has one more line of progress.
    pub open spec fn with_progress(self, run_id: Seq<char>, line: Seq<char>) -> ToolView<M, R, D> {
        ToolView {
            runs: if self.runs.contains_key(run_id) {
                self.runs.insert(run_id, self.runs[run_id].with_progress(line))
            } else {
                self.runs
            },
            ..self
        }
    }
}

impl<M, R, D> WorkflowTool<M, R, D> {
    /// Every run stands under its own id, what is kept of it fits together, and every
    /// controller is of a run that is known.
    pub closed spec fn wf(&self) -> bool {
        self.runs.wf() && self.controllers.wf() && self@.consistent()
    }

    /// What the invariant says of the runs and the controllers.
    pub proof fn lemma_wf(&self)
        requires
            self.wf(),
        ensures
            self@.consistent(),
    {
    }

    /// A tool that knows no run.
    pub fn new(manager: M, runtime: R) -> (tool: WorkflowTool<M, R, D>)
        ensures
            tool.wf(),
            tool@ == (ToolView::<M, R, D> {
                manager,
                runtime,
                runs: Map::empty(),
                controllers: Map::empty(),
            }),
    {
        WorkflowTool { manager, runtime, runs: WorkflowRuns::new(), controllers: Table::new() }
    }

    /// The manager of the agents.
    pub fn manager(&self) -> (manager: &M)
        ensures
            *manager == self@.manager,
    {
        &self.manager
    }

    /// The runtime of the agents.
    pub fn runtime(&self) -> (runtime: &R)
        ensures
            *runtime == self@.runtime,
    {
        &self.runtime
    }

    /// The name of the tool.
    pub fn name(&self) -> (name: &'static str)
        ensures
            name@ == NAME@,
    {
        NAME
    }

    /// What the tool is for.
    pub fn description(&self) -> (description: &'static str)
        ensures
            description@ == DESCRIPTION@,
    {
        DESCRIPTION
    }

    /// The schema of a request.
    pub fn input_schema(&self) -> (schema: Value)
        ensures
            json_of(schema) == Json::Object(schema_entries()),
    {
        request_schema()
    }

    /// What the tool is able to do.
    pub fn capabilities(&self) -> (capabilities: Vec<ToolCapability>)
        ensures
            capabilities@ == seq![ToolCapability::ExecutesCode, ToolCapability::RequiresApproval],
    {
        vec![ToolCapability::ExecutesCode, ToolCapability::RequiresApproval]
    }

    /// Whether requests have to be approved, as long as nothing is known of them.
    pub fn approval_requirement(&self) -> (approval: ApprovalRequirement)
        ensures
            approval == ApprovalRequirement::Required,
    {
        ApprovalRequirement::Required
    }

    /// Whether a request has to be approved: all but those that only ask how the runs are.
    pub fn approval_requirement_for(&self, input: &Value) -> (approval: ApprovalRequirement)
        ensures
            approval == approval_for(json_of(*input)),
    {
        match parse_workflow_action(input) {
            Ok(WorkflowAction::Status) => ApprovalRequirement::Auto,
            _ => ApprovalRequirement::Required,
        }
    }

    /// Whether a request starts something that goes on after it has been answered.
    pub fn starts_detached_for(&self, input: &Value) -> (detached: bool)
        ensures
            detached == starts_detached(json_of(*input)),
    {
        match parse_workflow_action(input) {
            Ok(WorkflowAction::Start) => !optional_bool(input, "wait", false),
            _ => false,
        }
    }

    /// Whether a request may be carried out beside others.
    pub fn supports_parallel_for(&self, input: &Value) -> (parallel: bool)
        ensures
            parallel == asks_for_status(json_of(*input)),
    {
        match parse_workflow_action(input) {
            Ok(WorkflowAction::Status) => true,
            _ => false,
        }
    }

    /// Whether a request changes nothing.
    pub fn is_read_only_for(&self, input: &Value) -> (read_only: bool)
        ensures
            read_only == asks_for_status(json_of(*input)),
    {
        match parse_workflow_action(input) {
            Ok(WorkflowAction::Status) => true,
            _ => false,
        }
    }

    /// The command in a request.
    pub fn execute(&self, input: &Value) -> (command: Result<WorkflowCommand, ToolError>)
        ensures
            command_outcome(command) == requested_command(json_of(*input)),
    {
        parse_command(input)
    }

    /// Takes in a run that has been started, with its controller.
    pub fn admit_run(&mut self, record: WorkflowRunRecord, driver: D)
        requires
            old(self).wf(),
            record@.consistent(),
        ensures
            final(self).wf(),
            final(self)@ == old(self)@.admitted(record@, driver),
    {
        let run_id = record.run_id.clone();
        self.runs.insert(record);
        let _ = self.controllers.insert(run_id, driver);
        proof {
            self.runs.lemma_wf();
        }
    }

    /// Starts a run now: it is known from here on, as one that is under way.
    pub fn start_workflow(&mut self, run_id: String, request: &StartRequest, driver: D)
        requires
            old(self).wf(),
        ensures
            final(self).wf(),
            exists|instant: SystemTime| #[trigger]
                call_ensures(SystemTime::now, (), instant) && final(self)@ == old(self)@.admitted(
                    RunView::started(
                        run_id@,
                        request@.source.path,
                        request.token_budget,
                        millis_at(epoch_nanos(instant)),
                    ),
                    driver,
                ),
    {
        let path = match &request.source.path {
            Some(path) => Some(path.copy()),
            None => None,
        };
        let record = WorkflowRunRecord::new(run_id, path, request.token_budget);
        self.admit_run(record, driver);
    }

    /// Notes that the script of a run has ended at `now`, and lets its controller go.
    pub fn finish_run_at(&mut self, run_id: &str, outcome: Result<Value, String>, now: u64)
        requires
            old(self).wf(),
        ensures
            final(self).wf(),
            final(self)@ == old(self)@.finished(run_id@, script_outcome(outcome), now),
    {
        self.runs.finish_run(run_id, outcome, now);
        let _ = self.controllers.remove(run_id);
        proof {
            self.runs.lemma_wf();
        }
    }

    /// Notes that the script of a run has ended now, and lets its controller go.
    pub fn run_workflow_vm(&mut self, run_id: &str, outcome: Result<Value, String>)
        requires
            old(self).wf(),
        ensures
            final(self).wf(),
            exists|instant: SystemTime| #[trigger]
                call_ensures(SystemTime::now, (), instant) && final(self)@ == old(self)@.finished(
                    run_id@,
                    script_outcome(outcome),
                    millis_at(epoch_nanos(instant)),
                ),
    {
        let now = now_ms();
        self.finish_run_at(run_id, outcome, now);
    }

    /// Takes the controller of a run out, for the run to be cancelled with it.
    pub fn take_controller(&mut self, run_id: &str) -> (driver: Option<D>)
        requires
            old(self).wf(),
        ensures
            final(self).wf(),
            final(self)@ == (ToolView {
                controllers: old(self)@.controllers.remove(run_id@),
                ..old(self)@
            }),
            match driver {
                Some(driver) => old(self)@.controllers.contains_key(run_id@) && driver == old(
                    self,
                )@.controllers[run_id@],
                None => !old(self)@.controllers.contains_key(run_id@),
            },
    {
        self.controllers.remove(run_id)
    }

    /// Notes that a run has been cancelled at `now`, lets its controller go if it is still there,
    /// and answers how the run is.
    pub fn cancel_run_at(&mut self, run_id: &str, now: u64) -> (result: Result<
        ToolResult,
        ToolError,
    >)
        requires
            old(self).wf(),
        ensures
            final(self).wf(),
            final(self)@ == old(self)@.cancelled(run_id@, now),
            answer_outcome(result) == run_answer(final(self)@.runs, run_id@),
    {
        let cancelled = self.runs.cancel_run(run_id, now);
        let _ = self.controllers.remove(run_id);
        proof {
            self.runs.lemma_wf();
        }
        match cancelled {
            Ok(()) => self.runs.workflow_result_for(run_id),
            Err(error) => Err(error),
        }
    }

    /// Notes that a run has been cancelled now, lets its controller go if it is still there, and
    /// answers how the run is.
    pub fn cancel_workflow(&mut self, run_id: &str) -> (result: Result<ToolResult, ToolError>)
        requires
            old(self).wf(),
        ensures
            final(self).wf(),
            exists|instant: SystemTime| #[trigger]
                call_ensures(SystemTime::now, (), instant) && final(self)@ == old(self)@.cancelled(
                    run_id@,
                    millis_at(epoch_nanos(instant)),
                ),
            answer_outcome(result) == run_answer(final(self)@.runs, run_id@),
    {
        let now = now_ms();
        self.cancel_run_at(run_id, now)
    }

    /// Counts a child of a run.
    pub fn record_child(&mut self, run_id: &str, agent_id: &str)
        requires
            old(self).wf(),
        ensures
            final(self).wf(),
            final(self)@ == old(self)@.with_child(run_id@, agent_id@),
    {
        self.runs.record_child(run_id, agent_id);
        proof {
            self.runs.lemma_wf();
        }
    }

    /// Takes in what came of handing out a task of the run that `driver` is of: the agent that
    /// has it counts as a child with both, and `waiter` waits for its end.
    pub fn spawn_task<W>(
        &mut self,
        driver: &mut SubAgentWorkflowDriver<W>,
        spawned: Result<String, String>,
        waiter: W,
    ) -> (task: Result<SpawnedTask<W>, DriverError>)
        requires
            old(self).wf(),
            old(driver).wf(),
        ensures
            final(self).wf(),
            final(driver).wf(),
            final(driver)@ == old(driver)@.after_spawn(spawned, waiter),
            is_spawned(task, old(driver)@, spawned, waiter),
            final(self)@ == match spawned {
                Ok(agent_id) => old(self)@.spawned(old(driver)@, agent_id@),
                Err(_) => old(self)@,
            },
    {
        let task = driver.spawn_task(spawned, waiter);
        if let Ok(task) = &task {
            self.record_child(driver.run_id(), &task.task_id);
        }
        task
    }

    /// Notes what the script of a run says of its progress.
    pub fn progress(&mut self, run_id: &str, event: &ProgressEvent)
        requires
            old(self).wf(),
        ensures
            final(self).wf(),
            final(self)@ == old(self)@.with_progress(run_id@, progress_text(*event)),
    {
        self.runs.record_progress(run_id, progress_line(event));
        proof {
            self.runs.lemma_wf();
        }
    }

    /// What is answered about one run.
    pub fn workflow_result_for(&self, run_id: &str) -> (result: Result<ToolResult, ToolError>)
        requires
            self.wf(),
        ensures
            answer_outcome(result) == run_answer(self@.runs, run_id@),
    {
        self.runs.workflow_result_for(run_id)
    }

    /// Whether the path of every run can stand in a document.
    pub fn all_paths_utf8(&self) -> (all: bool)
        requires
            self.wf(),
        ensures
            all == paths_are_utf8(self@.runs),
    {
        self.runs.all_paths_utf8()
    }

    /// What is answered about the runs: about one, where the request names it, else about all.
    pub fn status_workflow(&self, input: &Value) -> (result: Result<ToolResult, ToolError>)
        requires
            self.wf(),
            text_field(json_of(*input), "run_id"@) is Some || paths_are_utf8(self@.runs),
        ensures
            match text_field(json_of(*input), "run_id"@) {
                Some(run_id) => answer_outcome(result) == run_answer(self@.runs, run_id),
                None => exists|listing: Seq<RunView>|
                    #[trigger] is_listing(self@.runs, listing) && answer_outcome(result) == Ok::<
                        AnswerView,
                        ErrorView,
                    >(AnswerView { content: pretty_text(listing_json(listing)), metadata: None }),
            },
    {
        self.runs.status_workflow(input)
    }
}

} // verus!
