//! One run: what is kept of it, how it changes, and the document that reports it.

use crate::clock::{epoch_nanos, millis_at, now_ms};
use crate::document::{
    bool_value, json_opt, json_or_null, json_or_null_value, null_value, number_or_null,
    number_or_null_value, text_array, text_array_value, text_or_null, text_or_null_value,
    text_value, u64_value, Fields,
};
use crate::error::{ErrorView, ToolError};
use crate::json::{json_of, Json};
use crate::source::{path_opt, PathView, SourcePath};
use crate::text::{holds_text, shape, text_opt, texts};
use serde_json::Value;
use std::time::SystemTime;
use vstd::prelude::*;

verus! {

/// How far a run has come.
#[derive(Debug, Clone, Copy, PartialEq, Eq, Structural)]
pub enum WorkflowRunStatus {
    Running,
    Completed,
    Failed,
    Cancelled,
}

/// The name of a status in a document.
pub open spec fn status_name(status: WorkflowRunStatus) -> Seq<char> {
    match status {
        WorkflowRunStatus::Running => "running"@,
        WorkflowRunStatus::Completed => "completed"@,
        WorkflowRunStatus::Failed => "failed"@,
        WorkflowRunStatus::Cancelled => "cancelled"@,
    }
}

impl WorkflowRunStatus {
    /// The name of the status in a document.
    pub fn name(self) -> (name: &'static str)
        ensures
            name@ == status_name(self),
    {
        match self {
            WorkflowRunStatus::Running => "running",
            WorkflowRunStatus::Completed => "completed",
            WorkflowRunStatus::Failed => "failed",
            WorkflowRunStatus::Cancelled => "cancelled",
        }
    }

    /// Whether the run is over.
    pub fn is_terminal(self) -> (terminal: bool)
        ensures
            terminal == (self != WorkflowRunStatus::Running),
    {
        match self {
            WorkflowRunStatus::Running => false,
            _ => true,
        }
    }
}

/// What is kept of a run.
#[derive(Debug)]
pub struct WorkflowRunRecord {
    pub run_id: String,
    pub status: WorkflowRunStatus,
    pub started_at_ms: u64,
    pub completed_at_ms: Option<u64>,
    pub source_path: Option<SourcePath>,
    pub token_budget: Option<u64>,
    pub child_ids: Vec<String>,
    pub progress: Vec<String>,
    pub result: Option<Value>,
    pub error: Option<String>,
}

/// What is kept of a run, as values.
#[verifier::ext_equal]
pub struct RunView {
    pub run_id: Seq<char>,
    pub status: WorkflowRunStatus,
    pub started_at_ms: u64,
    pub completed_at_ms: Option<u64>,
    pub source_path: Option<PathView>,
    pub token_budget: Option<u64>,
    pub child_ids: Seq<Seq<char>>,
    pub progress: Seq<Seq<char>>,
    pub result: Option<Json>,
    pub error: Option<Seq<char>>,
}

impl View for WorkflowRunRecord {
    type V = RunView;

    open spec fn view(&self) -> RunView {
        RunView {
            run_id: self.run_id@,
            status: self.status,
            started_at_ms: self.started_at_ms,
            completed_at_ms: self.completed_at_ms,
            source_path: path_opt(self.source_path),
            token_budget: self.token_budget,
            child_ids: texts(self.child_ids@),
            progress: texts(self.progress@),
            result: json_opt(self.result),
            error: text_opt(self.error),
        }
    }
}

impl RunView {
    /// A run that has just been started.
    pub open spec fn started(
        run_id: Seq<char>,
        source_path: Option<PathView>,
        token_budget: Option<u64>,
        started_at_ms: u64,
    ) -> RunView {
        RunView {
            run_id,
            status: WorkflowRunStatus::Running,
            started_at_ms,
            completed_at_ms: None,
            source_path,
            token_budget,
            child_ids: Seq::empty(),
            progress: Seq::empty(),
            result: None,
            error: None,
        }
    }

    /// The run once its script has ended: with a result, or with an error. One that was
    /// cancelled stays as it is.
    pub open spec fn finished(self, outcome: Result<Json, Seq<char>>, now: u64) -> RunView {
        if self.status == WorkflowRunStatus::Cancelled {
            self
        } else {
            RunView {
                status: match outcome {
                    Ok(_) => WorkflowRunStatus::Completed,
                    Err(_) => WorkflowRunStatus::Failed,
                },
                result: match outcome {
                    Ok(result) => Some(result),
                    Err(_) => None,
                },
                error: match outcome {
                    Ok(_) => None,
                    Err(error) => Some(error),
                },
                completed_at_ms: Some(now),
                ..self
            }
        }
    }

    /// The run once it has been cancelled.
    pub open spec fn cancelled(self, now: u64) -> RunView {
        RunView {
            status: WorkflowRunStatus::Cancelled,
            completed_at_ms: Some(now),
            error: Some("cancelled by workflow tool"@),
            ..self
        }
    }

    /// The run once it has the child `agent_id`, which it counts once.
    pub open spec fn with_child(self, agent_id: Seq<char>) -> RunView {
        RunView { child_ids: with_text(self.child_ids, agent_id), ..self }
    }

    /// The run with one more line of progress.
    pub open spec fn with_progress(self, line: Seq<char>) -> RunView {
        RunView { progress: self.progress.push(line), ..self }
    }

    /// What holds of every run: the time of its end, its result and its error go with its
    /// status, and no child is counted twice.
    pub open spec fn consistent(self) -> bool {
        &&& self.child_ids.no_duplicates()
        &&& match self.status {
            WorkflowRunStatus::Running => self.completed_at_ms is None && self.result is None
                && self.error is None,
            WorkflowRunStatus::Completed => self.completed_at_ms is Some && self.result is Some
                && self.error is None,
            WorkflowRunStatus::Failed => self.completed_at_ms is Some && self.result is None
                && self.error is Some,
            WorkflowRunStatus::Cancelled => self.completed_at_ms is Some && self.error == Some(
                "cancelled by workflow tool"@,
            ),
        }
    }

    /// Whether the path of the script, where there is one, can stand in a document.
    pub open spec fn path_is_utf8(self) -> bool {
        self.source_path matches Some(path) ==> path.is_utf8
    }
}

/// A list with `text` at its end, unless it holds it already.
pub open spec fn with_text(list: Seq<Seq<char>>, text: Seq<char>) -> Seq<Seq<char>> {
    if list.contains(text) {
        list
    } else {
        list.push(text)
    }
}

/// Puts `text` at the end of a list, unless the list holds it already.
pub fn add_text_once(list: &mut Vec<String>, text: &str)
    ensures
        texts(final(list)@) == with_text(texts(old(list)@), text@),
{
    if !holds_text(list, text) {
        list.push(text.to_owned());
        assert(texts(list@) =~= texts(old(list)@).push(text@));
    }
}

/// A list that holds no text twice holds none twice with one more.
pub proof fn lemma_with_text_no_duplicates(list: Seq<Seq<char>>, text: Seq<char>)
    requires
        list.no_duplicates(),
    ensures
        with_text(list, text).no_duplicates(),
{
    if !list.contains(text) {
        let longer = list.push(text);
        assert forall|i: int, j: int|
            0 <= i < longer.len() && 0 <= j < longer.len() && i != j implies longer[i]
            != longer[j] by {
            if i < list.len() {
                assert(list.contains(list[i]));
            }
            if j < list.len() {
                assert(list.contains(list[j]));
            }
        }
    }
}

impl WorkflowRunRecord {
    /// The record of a run that is started now.
    pub fn new(
        run_id: String,
        source_path: Option<SourcePath>,
        token_budget: Option<u64>,
    ) -> (record: WorkflowRunRecord)
        ensures
            exists|instant: SystemTime| #[trigger]
                call_ensures(SystemTime::now, (), instant) && record@ == RunView::started(
                    run_id@,
                    path_opt(source_path),
                    token_budget,
                    millis_at(epoch_nanos(instant)),
                ),
    {
        let now = now_ms();
        WorkflowRunRecord::new_at(run_id, source_path, token_budget, now)
    }

    /// The record of a run that is started at `started_at_ms`.
    pub fn new_at(
        run_id: String,
        source_path: Option<SourcePath>,
        token_budget: Option<u64>,
        started_at_ms: u64,
    ) -> (record: WorkflowRunRecord)
        ensures
            record@ == RunView::started(
                run_id@,
                path_opt(source_path),
                token_budget,
                started_at_ms,
            ),
            record@.consistent(),
    {
        let record = WorkflowRunRecord {
            run_id,
            status: WorkflowRunStatus::Running,
            started_at_ms,
            completed_at_ms: None,
            source_path,
            token_budget,
            child_ids: Vec::new(),
            progress: Vec::new(),
            result: None,
            error: None,
        };
        assert(record@.child_ids =~= Seq::empty());
        assert(record@.progress =~= Seq::empty());
        record
    }

    /// Notes that the script of the run has ended.
    pub fn finish(&mut self, outcome: Result<Value, String>, now: u64)
        ensures
            final(self)@ == old(self)@.finished(script_outcome(outcome), now),
            old(self)@.consistent() ==> final(self)@.consistent(),
    {
        if self.status != WorkflowRunStatus::Cancelled {
            match outcome {
                Ok(result) => {
                    self.status = WorkflowRunStatus::Completed;
                    self.result = Some(result);
                    self.error = None;
                },
                Err(error) => {
                    self.status = WorkflowRunStatus::Failed;
                    self.result = None;
                    self.error = Some(error);
                },
            }
            self.completed_at_ms = Some(now);
        }
    }

    /// Notes that the run has been cancelled.
    pub fn cancel(&mut self, now: u64)
        ensures
            final(self)@ == old(self)@.cancelled(now),
            old(self)@.consistent() ==> final(self)@.consistent(),
    {
        self.status = WorkflowRunStatus::Cancelled;
        self.completed_at_ms = Some(now);
        self.error = Some("cancelled by workflow tool".to_owned());
    }

    /// Counts a child of the run.
    pub fn add_child(&mut self, agent_id: &str)
        ensures
            final(self)@ == old(self)@.with_child(agent_id@),
            old(self)@.consistent() ==> final(self)@.consistent(),
    {
        add_text_once(&mut self.child_ids, agent_id);
        proof {
            if old(self)@.consistent() {
                lemma_with_text_no_duplicates(old(self)@.child_ids, agent_id@);
            }
        }
    }

    /// Notes a line of progress.
    pub fn add_progress(&mut self, line: String)
        ensures
            final(self)@ == old(self)@.with_progress(line@),
            old(self)@.consistent() ==> final(self)@.consistent(),
    {
        self.progress.push(line);
        assert(texts(self.progress@) =~= texts(old(self).progress@).push(line@));
    }

    /// Whether the path of the script, where there is one, can stand in a document.
    pub fn path_is_utf8(&self) -> (is_utf8: bool)
        ensures
            is_utf8 == self@.path_is_utf8(),
    {
        match &self.source_path {
            Some(path) => path.is_utf8,
            None => true,
        }
    }

    /// The path of the script as a document.
    fn path_value(&self) -> (value: Value)
        ensures
            json_of(value) == path_json(self@.source_path),
    {
        match &self.source_path {
            Some(path) => text_value(&path.display),
            None => null_value(),
        }
    }

    /// The document that reports the run.
    pub(crate) fn document(&self) -> (doc: Value)
        requires
            self@.path_is_utf8(),
        ensures
            json_of(doc) == run_json(self@),
    {
        proof {
            lemma_run_keys();
        }
        let fields = Fields::new().with("run_id", text_value(&self.run_id)).with(
            "status",
            text_value(self.status.name()),
        ).with("started_at_ms", u64_value(self.started_at_ms)).with(
            "completed_at_ms",
            number_or_null_value(self.completed_at_ms),
        ).with("source_path", self.path_value()).with(
            "token_budget",
            number_or_null_value(self.token_budget),
        ).with("child_ids", text_array_value(&self.child_ids)).with(
            "progress",
            text_array_value(&self.progress),
        ).with("result", json_or_null_value(&self.result)).with(
            "error",
            text_or_null_value(&self.error),
        );
        assert(fields@ =~= run_entries(self@));
        fields.object()
    }

    /// The document that reports the run, which a path that is not UTF-8 has none of.
    pub fn report(&self) -> (report: Result<Value, ToolError>)
        ensures
            match report {
                Ok(doc) => self@.path_is_utf8() && json_of(doc) == run_json(self@),
                Err(error) => !self@.path_is_utf8() && error@ == ErrorView::ExecutionFailed(
                    "path contains invalid UTF-8 characters"@,
                ),
            },
    {
        if self.path_is_utf8() {
            Ok(self.document())
        } else {
            Err(
                ToolError::execution_failed("path contains invalid UTF-8 characters".to_owned()),
            )
        }
    }

    /// The document about a report, for whoever asked for it.
    pub fn metadata(&self) -> (doc: Value)
        ensures
            json_of(doc) == metadata_json(self@),
    {
        let count: u64 = self.child_ids.len() as u64;
        proof {
            lemma_run_keys();
        }
        let fields = Fields::new().with("run_id", text_value(&self.run_id)).with(
            "status",
            text_value(self.status.name()),
        ).with("terminal", bool_value(self.status.is_terminal())).with(
            "child_count",
            u64_value(count),
        );
        assert(fields@ =~= metadata_entries(self@));
        fields.object()
    }
}

/// How a script ended, as values.
pub open spec fn script_outcome(outcome: Result<Value, String>) -> Result<Json, Seq<char>> {
    match outcome {
        Ok(result) => Ok(json_of(result)),
        Err(error) => Err(error@),
    }
}

/// A path that may be missing, as it stands in a document.
pub open spec fn path_json(path: Option<PathView>) -> Json {
    match path {
        Some(path) => Json::Text(path.display),
        None => Json::Null,
    }
}

/// The document that reports a run.
pub open spec fn run_json(run: RunView) -> Json {
    Json::Object(run_entries(run))
}

/// The entries of that document.
pub open spec fn run_entries(run: RunView) -> Seq<(Seq<char>, Json)> {
    seq![
        ("run_id"@, Json::Text(run.run_id)),
        ("status"@, Json::Text(status_name(run.status))),
        ("started_at_ms"@, Json::Unsigned(run.started_at_ms)),
        ("completed_at_ms"@, number_or_null(run.completed_at_ms)),
        ("source_path"@, path_json(run.source_path)),
        ("token_budget"@, number_or_null(run.token_budget)),
        ("child_ids"@, text_array(run.child_ids)),
        ("progress"@, text_array(run.progress)),
        ("result"@, json_or_null(run.result)),
        ("error"@, text_or_null(run.error)),
    ]
}

/// The document about a report: which run it is of, its status, whether that is its last, and
/// how many children the run has.
pub open spec fn metadata_json(run: RunView) -> Json {
    Json::Object(metadata_entries(run))
}

/// The entries of that document.
pub open spec fn metadata_entries(run: RunView) -> Seq<(Seq<char>, Json)> {
    seq![
        ("run_id"@, Json::Text(run.run_id)),
        ("status"@, Json::Text(status_name(run.status))),
        ("terminal"@, Json::Bool(run.status != WorkflowRunStatus::Running)),
        ("child_count"@, Json::Unsigned(run.child_ids.len() as u64)),
    ]
}

/// The keys of the two documents differ from each other in their shape.
pub(crate) proof fn lemma_run_keys()
    ensures
        shape("run_id"@) == (6nat, 'r', 'u'),
        shape("status"@) == (6nat, 's', 't'),
        shape("started_at_ms"@) == (13nat, 's', 't'),
        shape("completed_at_ms"@) == (15nat, 'c', 'o'),
        shape("source_path"@) == (11nat, 's', 'o'),
        shape("token_budget"@) == (12nat, 't', 'o'),
        shape("child_ids"@) == (9nat, 'c', 'h'),
        shape("progress"@) == (8nat, 'p', 'r'),
        shape("result"@) == (6nat, 'r', 'e'),
        shape("error"@) == (5nat, 'e', 'r'),
        shape("terminal"@) == (8nat, 't', 'e'),
        shape("child_count"@) == (11nat, 'c', 'h'),
{
    reveal_strlit("run_id");
    reveal_strlit("status");
    reveal_strlit("started_at_ms");
    reveal_strlit("completed_at_ms");
    reveal_strlit("source_path");
    reveal_strlit("token_budget");
    reveal_strlit("child_ids");
    reveal_strlit("progress");
    reveal_strlit("result");
    reveal_strlit("error");
    reveal_strlit("terminal");
    reveal_strlit("child_count");
}

} // verus!
