//! The runs that the tool knows.

use crate::document::{
    array_value, items_of, json_opt, pretty_text, text_value, u64_value, Fields, ToolResult,
};
use crate::error::{ErrorView, ToolError};
use crate::json::{json_of, optional_str, text_field, Json};
use crate::record::{
    metadata_json, run_json, script_outcome, RunView, WorkflowRunRecord,
};
use crate::table::{lists, Table};
use crate::text::{join3, shape};
use serde_json::Value;
use vstd::prelude::*;

verus! {

/// The runs that the tool knows, by their ids.
pub struct WorkflowRuns {
    table: Table<WorkflowRunRecord>,
}

impl View for WorkflowRuns {
    type V = Map<Seq<char>, RunView>;

    closed spec fn view(&self) -> Map<Seq<char>, RunView> {
        self.table@.map_values(|record: WorkflowRunRecord| record@)
    }
}

/// What an answer says, as values.
pub struct AnswerView {
    pub content: Seq<char>,
    pub metadata: Option<Json>,
}

/// An answer or an error, by their views.
pub open spec fn answer_outcome(
    result: Result<ToolResult, ToolError>,
) -> Result<AnswerView, ErrorView> {
    match result {
        Ok(answer) => Ok(
            AnswerView { content: answer.content@, metadata: json_opt(answer.metadata) },
        ),
        Err(error) => Err(error@),
    }
}

/// The error for a run that the tool does not know.
pub open spec fn unknown_run(run_id: Seq<char>) -> ErrorView {
    ErrorView::InvalidInput("Unknown workflow run_id '"@ + run_id + "'"@)
}

/// What is answered about one run.
pub open spec fn run_answer(runs: Map<Seq<char>, RunView>, run_id: Seq<char>) -> Result<
    AnswerView,
    ErrorView,
> {
    if !runs.contains_key(run_id) {
        Err(unknown_run(run_id))
    } else if !runs[run_id].path_is_utf8() {
        Err(ErrorView::ExecutionFailed("path contains invalid UTF-8 characters"@))
    } else {
        Ok(
            AnswerView {
                content: pretty_text(run_json(runs[run_id])),
                metadata: Some(metadata_json(runs[run_id])),
            },
        )
    }
}

/// Whether `listing` holds every run once, those that were started earlier before those that
/// were started later. Runs that were started in one millisecond may come in either order.
pub open spec fn is_listing(runs: Map<Seq<char>, RunView>, listing: Seq<RunView>) -> bool {
    &&& forall|i: int, j: int|
        0 <= i < j < listing.len() ==> {
            &&& (#[trigger] listing[i]).started_at_ms <= (#[trigger] listing[j]).started_at_ms
            &&& listing[i].run_id != listing[j].run_id
        }
    &&& forall|i: int|
        0 <= i < listing.len() ==> runs.contains_key((#[trigger] listing[i]).run_id)
            && runs[listing[i].run_id] == listing[i]
    &&& forall|run_id: Seq<char>| #[trigger]
        runs.contains_key(run_id) ==> exists|i: int|
            0 <= i < listing.len() && (#[trigger] listing[i]).run_id == run_id
}

/// The document that reports a listing.
pub open spec fn listing_json(listing: Seq<RunView>) -> Json {
    Json::Object(listing_entries(listing))
}

/// The entries of that document.
pub open spec fn listing_entries(listing: Seq<RunView>) -> Seq<(Seq<char>, Json)> {
    seq![
        ("action"@, Json::Text("status"@)),
        ("count"@, Json::Unsigned(listing.len() as u64)),
        ("runs"@, Json::Array(listing.map_values(|run: RunView| run_json(run)))),
    ]
}

/// Whether the path of every run can stand in a document.
pub open spec fn paths_are_utf8(runs: Map<Seq<char>, RunView>) -> bool {
    forall|run_id: Seq<char>| #[trigger] runs.contains_key(run_id) ==> runs[run_id].path_is_utf8()
}

/// The views of a list of records.
pub open spec fn run_views(records: Seq<&WorkflowRunRecord>) -> Seq<RunView> {
    records.map_values(|record: &WorkflowRunRecord| record@)
}

impl WorkflowRuns {
    /// Every run stands under its own id, and what is kept of it fits together.
    pub closed spec fn wf(&self) -> bool {
        &&& self.table.wf()
        &&& forall|run_id: Seq<char>| #[trigger]
            self.table@.contains_key(run_id) ==> self.table@[run_id]@.run_id == run_id
                && self.table@[run_id]@.consistent()
    }

    /// What the invariant says of every run.
    pub proof fn lemma_wf(&self)
        requires
            self.wf(),
        ensures
            forall|run_id: Seq<char>| #[trigger]
                self@.contains_key(run_id) ==> self@[run_id].run_id == run_id
                    && self@[run_id].consistent(),
    {
        assert forall|run_id: Seq<char>| #[trigger] self@.contains_key(run_id) implies self@[run_id].run_id
            == run_id && self@[run_id].consistent() by {
            assert(self.table@.contains_key(run_id));
        }
    }

    pub fn new() -> (runs: WorkflowRuns)
        ensures
            runs.wf(),
            runs@ == Map::<Seq<char>, RunView>::empty(),
    {
        let runs = WorkflowRuns { table: Table::new() };
        assert(runs@ =~= Map::<Seq<char>, RunView>::empty());
        runs
    }

    /// Takes in a run, in the place of one that has the same id.
    pub fn insert(&mut self, record: WorkflowRunRecord)
        requires
            old(self).wf(),
            record@.consistent(),
        ensures
            final(self).wf(),
            final(self)@ == old(self)@.insert(record@.run_id, record@),
    {
        let run_id = record.run_id.clone();
        let _ = self.table.insert(run_id, record);
        assert(self@ =~= old(self)@.insert(record@.run_id, record@));
    }

    /// Notes that the script of a run has ended. Of a run that is not known nothing is noted.
    pub fn finish_run(&mut self, run_id: &str, outcome: Result<Value, String>, now: u64)
        requires
            old(self).wf(),
        ensures
            final(self).wf(),
            final(self)@ == if old(self)@.contains_key(run_id@) {
                old(self)@.insert(
                    run_id@,
                    old(self)@[run_id@].finished(script_outcome(outcome), now),
                )
            } else {
                old(self)@
            },
    {
        match self.table.get_mut(run_id) {
            Some(record) => {
                record.finish(outcome, now);
            },
            None => {},
        }
        assert(self@ =~= if old(self)@.contains_key(run_id@) {
            old(self)@.insert(run_id@, old(self)@[run_id@].finished(script_outcome(outcome), now))
        } else {
            old(self)@
        });
    }

    /// Notes that a run has been cancelled, whatever its status was.
    pub fn cancel_run(&mut self, run_id: &str, now: u64) -> (result: Result<(), ToolError>)
        requires
            old(self).wf(),
        ensures
            final(self).wf(),
            if old(self)@.contains_key(run_id@) {
                &&& result is Ok
                &&& final(self)@ == old(self)@.insert(run_id@, old(self)@[run_id@].cancelled(now))
            } else {
                &&& result matches Err(error) && error@ == unknown_run(run_id@)
                &&& final(self)@ == old(self)@
            },
    {
        match self.table.get_mut(run_id) {
            Some(record) => {
                record.cancel(now);
                assert(self@ =~= old(self)@.insert(run_id@, old(self)@[run_id@].cancelled(now)));
                Ok(())
            },
            None => {
                assert(self@ =~= old(self)@);
                Err(ToolError::invalid_input(join3("Unknown workflow run_id '", run_id, "'")))
            },
        }
    }

    /// Counts a child of a run. Of a run that is not known nothing is noted.
    pub fn record_child(&mut self, run_id: &str, agent_id: &str)
        requires
            old(self).wf(),
        ensures
            final(self).wf(),
            final(self)@ == if old(self)@.contains_key(run_id@) {
                old(self)@.insert(run_id@, old(self)@[run_id@].with_child(agent_id@))
            } else {
                old(self)@
            },
    {
        match self.table.get_mut(run_id) {
            Some(record) => {
                record.add_child(agent_id);
            },
            None => {},
        }
        assert(self@ =~= if old(self)@.contains_key(run_id@) {
            old(self)@.insert(run_id@, old(self)@[run_id@].with_child(agent_id@))
        } else {
            old(self)@
        });
    }

    /// Notes a line of progress of a run. Of a run that is not known nothing is noted.
    pub fn record_progress(&mut self, run_id: &str, line: String)
        requires
            old(self).wf(),
        ensures
            final(self).wf(),
            final(self)@ == if old(self)@.contains_key(run_id@) {
                old(self)@.insert(run_id@, old(self)@[run_id@].with_progress(line@))
            } else {
                old(self)@
            },
    {
        match self.table.get_mut(run_id) {
            Some(record) => {
                record.add_progress(line);
            },
            None => {},
        }
        assert(self@ =~= if old(self)@.contains_key(run_id@) {
            old(self)@.insert(run_id@, old(self)@[run_id@].with_progress(line@))
        } else {
            old(self)@
        });
    }

    /// What is answered about one run.
    pub fn workflow_result_for(&self, run_id: &str) -> (result: Result<ToolResult, ToolError>)
        requires
            self.wf(),
        ensures
            answer_outcome(result) == run_answer(self@, run_id@),
    {
        match self.table.get(run_id) {
            Some(record) => match record.report() {
                Ok(doc) => match ToolResult::json(&doc) {
                    Ok(answer) => Ok(
                        ToolResult { content: answer.content, metadata: Some(record.metadata()) },
                    ),
                    Err(error) => Err(error),
                },
                Err(error) => Err(error),
            },
            None => Err(
                ToolError::invalid_input(join3("Unknown workflow run_id '", run_id, "'")),
            ),
        }
    }

    /// Every run, those that were started earlier first.
    pub fn list(&self) -> (listing: Vec<&WorkflowRunRecord>)
        requires
            self.wf(),
        ensures
            is_listing(self@, run_views(listing@)),
    {
        let rows = self.table.rows();
        let mut listing: Vec<&WorkflowRunRecord> = Vec::new();
        let mut i: usize = 0;
        while i < rows.len()
            invariant
                i <= rows.len(),
                self.wf(),
                lists(rows@, self.table@),
                forall|a: int, b: int|
                    0 <= a < b < listing.len() ==> {
                        &&& (#[trigger] listing[a]).started_at_ms <= (
                        #[trigger] listing[b]).started_at_ms
                        &&& listing[a]@.run_id != listing[b]@.run_id
                    },
                forall|a: int|
                    0 <= a < listing.len() ==> #[trigger] stands_in(rows@, i as int, *listing[a]),
                forall|j: int| 0 <= j < i ==> #[trigger] is_listed(listing@, rows[j].1),
            decreases rows.len() - i,
        {
            let record: &WorkflowRunRecord = &rows[i].1;
            let place = later_place(&listing, record.started_at_ms);
            let ghost before = listing@;
            listing.insert(place, record);
            proof {
                assert forall|a: int| 0 <= a < listing.len() implies #[trigger] listing[a]
                    == if a < place {
                    before[a]
                } else if a == place {
                    record
                } else {
                    before[a - 1]
                } by {}
                assert forall|a: int| 0 <= a < before.len() implies (#[trigger] before[a])@.run_id
                    != record@.run_id by {
                    assert(stands_in(rows@, i as int, *before[a]));
                    let j = choose|j: int| 0 <= j < i && (#[trigger] rows[j]).1 == *before[a];
                    assert(self.table@.contains_key(rows[j].0@));
                    assert(self.table@.contains_key(rows[i as int].0@));
                }
                assert forall|a: int| 0 <= a < listing.len() implies #[trigger] stands_in(
                    rows@,
                    i + 1,
                    *listing[a],
                ) by {
                    if a == place {
                        assert(rows[i as int].1 == *listing[a]);
                    } else {
                        let b = if a < place {
                            a
                        } else {
                            a - 1
                        };
                        assert(stands_in(rows@, i as int, *before[b]));
                        let j = choose|j: int| 0 <= j < i && (#[trigger] rows[j]).1 == *before[b];
                        assert(rows[j].1 == *listing[a]);
                    }
                }
                assert forall|j: int| 0 <= j < i + 1 implies #[trigger] is_listed(
                    listing@,
                    rows[j].1,
                ) by {
                    if j == i {
                        assert(*listing[place as int] == rows[j].1);
                    } else {
                        assert(is_listed(before, rows[j].1));
                        let b = choose|b: int|
                            0 <= b < before.len() && *(#[trigger] before[b]) == rows[j].1;
                        let a = if b < place {
                            b
                        } else {
                            b + 1
                        };
                        assert(*listing[a] == rows[j].1);
                    }
                }
            }
            i += 1;
        }
        proof {
            let views = run_views(listing@);
            assert forall|a: int| 0 <= a < views.len() implies self@.contains_key(
                (#[trigger] views[a]).run_id,
            ) && self@[views[a].run_id] == views[a] by {
                assert(stands_in(rows@, rows.len() as int, *listing[a]));
                let j = choose|j: int| 0 <= j < rows.len() && (#[trigger] rows[j]).1 == *listing[a];
                assert(self.table@.contains_key(rows[j].0@));
            }
            assert forall|run_id: Seq<char>| #[trigger]
                self@.contains_key(run_id) implies exists|a: int|
                0 <= a < views.len() && (#[trigger] views[a]).run_id == run_id by {
                assert(self.table@.contains_key(run_id));
                let j = choose|j: int| 0 <= j < rows.len() && (#[trigger] rows[j]).0@ == run_id;
                assert(is_listed(listing@, rows[j].1));
                let a = choose|a: int|
                    0 <= a < listing.len() && *(#[trigger] listing[a]) == rows[j].1;
                assert(views[a].run_id == run_id);
            }
        }
        listing
    }

    /// Whether the path of every run can stand in a document.
    pub fn all_paths_utf8(&self) -> (all: bool)
        requires
            self.wf(),
        ensures
            all == paths_are_utf8(self@),
    {
        let rows = self.table.rows();
        let mut i: usize = 0;
        while i < rows.len()
            invariant
                i <= rows.len(),
                lists(rows@, self.table@),
                forall|j: int| 0 <= j < i ==> (#[trigger] rows[j]).1@.path_is_utf8(),
            decreases rows.len() - i,
        {
            if !rows[i].1.path_is_utf8() {
                assert(self@.contains_key(rows[i as int].0@));
                return false;
            }
            i += 1;
        }
        assert forall|run_id: Seq<char>| #[trigger]
            self@.contains_key(run_id) implies self@[run_id].path_is_utf8() by {
            assert(self.table@.contains_key(run_id));
            let j = choose|j: int| 0 <= j < rows.len() && (#[trigger] rows[j]).0@ == run_id;
            assert(rows[j].1@.path_is_utf8());
        }
        true
    }

    /// What is answered about the runs: about one, where the request names it, else about all.
    pub fn status_workflow(&self, input: &Value) -> (result: Result<ToolResult, ToolError>)
        requires
            self.wf(),
            text_field(json_of(*input), "run_id"@) is Some || paths_are_utf8(self@),
        ensures
            match text_field(json_of(*input), "run_id"@) {
                Some(run_id) => answer_outcome(result) == run_answer(self@, run_id),
                None => exists|listing: Seq<RunView>|
                    #[trigger] is_listing(self@, listing) && answer_outcome(result) == Ok::<
                        AnswerView,
                        ErrorView,
                    >(AnswerView { content: pretty_text(listing_json(listing)), metadata: None }),
            },
    {
        match optional_str(input, "run_id") {
            Some(run_id) => self.workflow_result_for(run_id),
            None => {
                let listing = self.list();
                proof {
                    let views = run_views(listing@);
                    assert forall|i: int| 0 <= i < views.len() implies (
                    #[trigger] views[i]).path_is_utf8() by {
                        assert(self@.contains_key(views[i].run_id));
                    }
                }
                ToolResult::json(&listing_value(&listing))
            },
        }
    }
}

/// Whether `record` is one of the first `count` of `rows`.
spec fn stands_in(
    rows: Seq<(String, WorkflowRunRecord)>,
    count: int,
    record: WorkflowRunRecord,
) -> bool {
    exists|j: int| 0 <= j < count && (#[trigger] rows[j]).1 == record
}

/// Whether `record` is in a listing.
spec fn is_listed(listing: Seq<&WorkflowRunRecord>, record: WorkflowRunRecord) -> bool {
    exists|a: int| 0 <= a < listing.len() && *(#[trigger] listing[a]) == record
}

/// Where in a listing a run belongs that was started at `started_at_ms`: behind those that
/// were not started later.
fn later_place(listing: &Vec<&WorkflowRunRecord>, started_at_ms: u64) -> (place: usize)
    requires
        forall|a: int, b: int|
            0 <= a < b < listing.len() ==> (#[trigger] listing[a]).started_at_ms <= (
            #[trigger] listing[b]).started_at_ms,
    ensures
        place <= listing.len(),
        forall|a: int| 0 <= a < place ==> (#[trigger] listing[a]).started_at_ms <= started_at_ms,
        forall|a: int|
            place <= a < listing.len() ==> (#[trigger] listing[a]).started_at_ms > started_at_ms,
{
    let mut place: usize = listing.len();
    while place > 0 && listing[place - 1].started_at_ms > started_at_ms
        invariant
            place <= listing.len(),
            forall|a: int|
                place <= a < listing.len() ==> (#[trigger] listing[a]).started_at_ms
                    > started_at_ms,
        decreases place,
    {
        place -= 1;
    }
    place
}

/// The document that reports a listing.
pub(crate) fn listing_value(listing: &Vec<&WorkflowRunRecord>) -> (doc: Value)
    requires
        forall|i: int|
            0 <= i < run_views(listing@).len() ==> (#[trigger] run_views(
                listing@,
            )[i]).path_is_utf8(),
    ensures
        json_of(doc) == listing_json(run_views(listing@)),
{
    let ghost views = run_views(listing@);
    let mut items: Vec<Value> = Vec::new();
    let mut i: usize = 0;
    while i < listing.len()
        invariant
            i <= listing.len(),
            items.len() == i,
            views == run_views(listing@),
            forall|j: int| 0 <= j < views.len() ==> (#[trigger] views[j]).path_is_utf8(),
            forall|j: int| 0 <= j < i ==> json_of(#[trigger] items[j]) == run_json(views[j]),
        decreases listing.len() - i,
    {
        assert(views[i as int].path_is_utf8());
        items.push(listing[i].document());
        i += 1;
    }
    assert(items_of(items@) =~= views.map_values(|run: RunView| run_json(run)));
    let count: u64 = listing.len() as u64;
    proof {
        reveal_strlit("action");
        assert(shape("action"@) == (6nat, 'a', 'c'));
        reveal_strlit("count");
        assert(shape("count"@) == (5nat, 'c', 'o'));
        reveal_strlit("runs");
        assert(shape("runs"@) == (4nat, 'r', 'u'));
    }
    let fields = Fields::new().with("action", text_value("status")).with(
        "count",
        u64_value(count),
    ).with("runs", array_value(items));
    assert(fields@ =~= listing_entries(views));
    fields.object()
}

} // verus!
