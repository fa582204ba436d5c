//! How a task that was handed to a sub-agent ends, and how its end is found out.

use crate::text::text_opt;
use vstd::prelude::*;

verus! {

/// How often the state of an agent is looked up that has reported its end, before its report
/// is taken for the result.
pub const LOOKUPS: u32 = 50;

/// How long to wait between two lookups, in milliseconds.
pub const LOOKUP_PAUSE_MS: u64 = 20;

/// How a task ended.
#[derive(Debug)]
pub enum TaskCompletion {
    Completed { text: String },
    Failed { message: String },
    Cancelled,
    BudgetExhausted { message: String },
}

/// A `TaskCompletion` by its variant and its text.
pub enum CompletionView {
    Completed(Seq<char>),
    Failed(Seq<char>),
    Cancelled,
    BudgetExhausted(Seq<char>),
}

impl View for TaskCompletion {
    type V = CompletionView;

    open spec fn view(&self) -> CompletionView {
        match self {
            TaskCompletion::Completed { text } => CompletionView::Completed(text@),
            TaskCompletion::Failed { message } => CompletionView::Failed(message@),
            TaskCompletion::Cancelled => CompletionView::Cancelled,
            TaskCompletion::BudgetExhausted { message } => CompletionView::BudgetExhausted(
                message@,
            ),
        }
    }
}

/// How far an agent has come.
#[derive(Debug)]
pub enum SubAgentStatus {
    Running,
    Completed,
    Failed(String),
    Interrupted(String),
    Cancelled,
    BudgetExhausted,
}

/// The state of an agent: how far it has come, and the result that it left, if any.
#[derive(Debug)]
pub struct SubAgentSnapshot {
    pub status: SubAgentStatus,
    pub result: Option<String>,
}

/// A `SubAgentStatus` by its variant and its text.
pub enum AgentStatusView {
    Running,
    Completed,
    Failed(Seq<char>),
    Interrupted(Seq<char>),
    Cancelled,
    BudgetExhausted,
}

/// A `SubAgentSnapshot` as values.
pub struct SnapshotView {
    pub status: AgentStatusView,
    pub result: Option<Seq<char>>,
}

impl View for SubAgentStatus {
    type V = AgentStatusView;

    open spec fn view(&self) -> AgentStatusView {
        match self {
            SubAgentStatus::Running => AgentStatusView::Running,
            SubAgentStatus::Completed => AgentStatusView::Completed,
            SubAgentStatus::Failed(message) => AgentStatusView::Failed(message@),
            SubAgentStatus::Interrupted(message) => AgentStatusView::Interrupted(message@),
            SubAgentStatus::Cancelled => AgentStatusView::Cancelled,
            SubAgentStatus::BudgetExhausted => AgentStatusView::BudgetExhausted,
        }
    }
}

impl View for SubAgentSnapshot {
    type V = SnapshotView;

    open spec fn view(&self) -> SnapshotView {
        SnapshotView { status: self.status@, result: text_opt(self.result) }
    }
}

/// The view of a snapshot that may be missing.
pub open spec fn snapshot_opt(snapshot: Option<SubAgentSnapshot>) -> Option<SnapshotView> {
    match snapshot {
        Some(snapshot) => Some(snapshot@),
        None => None,
    }
}

/// How a task ended, by the state of its agent: nothing yet of an agent that is running or not
/// to be found. Where an agent left no result, `fallback` is taken for it.
pub open spec fn completion_in(
    snapshot: Option<SnapshotView>,
    fallback: Seq<char>,
) -> Option<CompletionView> {
    match snapshot {
        None => None,
        Some(snapshot) => match snapshot.status {
            AgentStatusView::Running => None,
            AgentStatusView::Completed => Some(
                CompletionView::Completed(
                    match snapshot.result {
                        Some(text) => text,
                        None => fallback,
                    },
                ),
            ),
            AgentStatusView::Failed(message) => Some(CompletionView::Failed(message)),
            AgentStatusView::Interrupted(message) => Some(CompletionView::Failed(message)),
            AgentStatusView::Cancelled => Some(CompletionView::Cancelled),
            AgentStatusView::BudgetExhausted => Some(
                CompletionView::BudgetExhausted("sub-agent budget exhausted"@),
            ),
        },
    }
}

/// The search for the end of a task.
#[derive(Debug)]
pub enum CompletionSearch {
    /// The state of the agent is to be looked up, that often at most.
    Looking { lookups_left: u32, fallback: String },
    /// The end has been found.
    Found(TaskCompletion),
}

/// A `CompletionSearch` as values.
pub enum SearchView {
    Looking { lookups_left: int, fallback: Seq<char> },
    Found(CompletionView),
}

impl View for CompletionSearch {
    type V = SearchView;

    open spec fn view(&self) -> SearchView {
        match self {
            CompletionSearch::Looking { lookups_left, fallback } => SearchView::Looking {
                lookups_left: *lookups_left as int,
                fallback: fallback@,
            },
            CompletionSearch::Found(completion) => SearchView::Found(completion@),
        }
    }
}

/// A search at its beginning.
pub open spec fn search_begun(fallback: Seq<char>) -> SearchView {
    SearchView::Looking { lookups_left: LOOKUPS as int, fallback }
}

/// A search after one more lookup: over where the task has ended, and over with the fallback
/// where that was the last lookup.
pub open spec fn looked_up(search: SearchView, snapshot: Option<SnapshotView>) -> SearchView {
    match search {
        SearchView::Found(completion) => search,
        SearchView::Looking { lookups_left, fallback } => match completion_in(snapshot, fallback) {
            Some(completion) => SearchView::Found(completion),
            None => if lookups_left <= 1 {
                SearchView::Found(CompletionView::Completed(fallback))
            } else {
                SearchView::Looking { lookups_left: lookups_left - 1, fallback }
            },
        },
    }
}

/// A search after a series of lookups.
pub open spec fn searched(fallback: Seq<char>, snapshots: Seq<Option<SnapshotView>>) -> SearchView
    decreases snapshots.len(),
{
    if snapshots.len() == 0 {
        search_begun(fallback)
    } else {
        looked_up(searched(fallback, snapshots.drop_last()), snapshots.last())
    }
}

/// How a task ended, by the state of its agent; where that does not say, `fallback` is handed
/// back.
pub fn completion_from_snapshot(snapshot: Option<SubAgentSnapshot>, fallback: String) -> (found:
    Result<TaskCompletion, String>)
    ensures
        match found {
            Ok(completion) => completion_in(snapshot_opt(snapshot), fallback@) == Some(
                completion@,
            ),
            Err(rest) => completion_in(snapshot_opt(snapshot), fallback@) is None && rest@
                == fallback@,
        },
{
    match snapshot {
        None => Err(fallback),
        Some(snapshot) => match snapshot.status {
            SubAgentStatus::Running => Err(fallback),
            SubAgentStatus::Completed => Ok(
                TaskCompletion::Completed {
                    text: match snapshot.result {
                        Some(text) => text,
                        None => fallback,
                    },
                },
            ),
            SubAgentStatus::Failed(message) => Ok(TaskCompletion::Failed { message }),
            SubAgentStatus::Interrupted(message) => Ok(TaskCompletion::Failed { message }),
            SubAgentStatus::Cancelled => Ok(TaskCompletion::Cancelled),
            SubAgentStatus::BudgetExhausted => Ok(
                TaskCompletion::BudgetExhausted {
                    message: "sub-agent budget exhausted".to_owned(),
                },
            ),
        },
    }
}

/// A search after one lookup, and how long to wait before anything else is done.
#[derive(Debug)]
pub struct SearchStep {
    pub search: CompletionSearch,
    pub pause_ms: u64,
}

impl CompletionSearch {
    /// A search at its beginning; `fallback` is what the agent itself reported.
    pub fn begin(fallback: String) -> (search: CompletionSearch)
        ensures
            search@ == search_begun(fallback@),
    {
        CompletionSearch::Looking { lookups_left: LOOKUPS, fallback }
    }

    /// Takes in the state of the agent, or that it was not to be found.
    pub fn look_up(self, snapshot: Option<SubAgentSnapshot>) -> (step: SearchStep)
        ensures
            step.search@ == looked_up(self@, snapshot_opt(snapshot)),
            step.pause_ms == (match self@ {
                SearchView::Looking { fallback, .. } => if completion_in(
                    snapshot_opt(snapshot),
                    fallback,
                ) is None {
                    LOOKUP_PAUSE_MS
                } else {
                    0u64
                },
                SearchView::Found(_) => 0u64,
            }),
    {
        match self {
            CompletionSearch::Found(completion) => SearchStep {
                search: CompletionSearch::Found(completion),
                pause_ms: 0,
            },
            CompletionSearch::Looking { lookups_left, fallback } => match completion_from_snapshot(
                snapshot,
                fallback,
            ) {
                Ok(completion) => SearchStep {
                    search: CompletionSearch::Found(completion),
                    pause_ms: 0,
                },
                Err(fallback) => {
                    let search = if lookups_left <= 1 {
                        CompletionSearch::Found(TaskCompletion::Completed { text: fallback })
                    } else {
                        CompletionSearch::Looking { lookups_left: lookups_left - 1, fallback }
                    };
                    SearchStep { search, pause_ms: LOOKUP_PAUSE_MS }
                },
            },
        }
    }
}

} // verus!
