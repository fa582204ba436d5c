//! What is kept while the script of a run hands tasks to sub-agents.

use crate::completion::TaskCompletion;
use crate::record::{add_text_once, lemma_with_text_no_duplicates, with_text};
use crate::request::StartRequest;
use crate::table::{lists, Table};
use crate::text::{copy_texts, join2, text_opt, texts};
use vstd::prelude::*;

verus! {

/// A completion, and the one who waits for it.
#[derive(Debug)]
pub struct Delivery<W> {
    pub waiter: W,
    pub completion: TaskCompletion,
}

/// The tasks that have been handed out: for some someone waits, and some have ended before
/// anyone asked.
pub struct CompletionState<W> {
    waiters: Table<W>,
    pending: Table<TaskCompletion>,
}

/// A `CompletionState` as values, by the ids of the agents.
#[verifier::ext_equal]
pub struct CompletionsView<W> {
    pub waiters: Map<Seq<char>, W>,
    pub pending: Map<Seq<char>, TaskCompletion>,
}

impl<W> View for CompletionState<W> {
    type V = CompletionsView<W>;

    closed spec fn view(&self) -> CompletionsView<W> {
        CompletionsView { waiters: self.waiters@, pending: self.pending@ }
    }
}

impl<W> CompletionsView<W> {
    /// Nothing handed out.
    pub open spec fn empty() -> CompletionsView<W> {
        CompletionsView { waiters: Map::empty(), pending: Map::empty() }
    }

    /// Once someone waits for an agent: what is pending is theirs.
    pub open spec fn awaited(self, agent_id: Seq<char>, waiter: W) -> CompletionsView<W> {
        if self.pending.contains_key(agent_id) {
            CompletionsView { pending: self.pending.remove(agent_id), ..self }
        } else {
            CompletionsView { waiters: self.waiters.insert(agent_id, waiter), ..self }
        }
    }

    /// What someone is handed who asks for an agent.
    pub open spec fn awaited_delivery(self, agent_id: Seq<char>, waiter: W) -> Option<
        Delivery<W>,
    > {
        if self.pending.contains_key(agent_id) {
            Some(Delivery { waiter, completion: self.pending[agent_id] })
        } else {
            None
        }
    }

    /// Once an agent has ended: whoever waits is done waiting, else the end is kept.
    pub open spec fn delivered(
        self,
        agent_id: Seq<char>,
        completion: TaskCompletion,
    ) -> CompletionsView<W> {
        if self.waiters.contains_key(agent_id) {
            CompletionsView { waiters: self.waiters.remove(agent_id), ..self }
        } else {
            CompletionsView { pending: self.pending.insert(agent_id, completion), ..self }
        }
    }

    /// What is handed to whoever waits for an agent that has ended.
    pub open spec fn delivered_delivery(
        self,
        agent_id: Seq<char>,
        completion: TaskCompletion,
    ) -> Option<Delivery<W>> {
        if self.waiters.contains_key(agent_id) {
            Some(Delivery { waiter: self.waiters[agent_id], completion })
        } else {
            None
        }
    }

    /// Once everyone has been let go who waits.
    pub open spec fn let_go(self) -> CompletionsView<W> {
        CompletionsView { waiters: Map::empty(), ..self }
    }

    /// What everyone is handed who is let go: for each agent that is waited for, the word that
    /// it has been cancelled.
    pub open spec fn cancelled_deliveries(self) -> Map<Seq<char>, Delivery<W>> {
        Map::new(
            |agent_id: Seq<char>| self.waiters.contains_key(agent_id),
            |agent_id: Seq<char>|
                Delivery {
                    waiter: self.waiters[agent_id],
                    completion: TaskCompletion::Cancelled,
                },
        )
    }

    /// No agent is waited for whose end is at hand.
    pub open spec fn settled(self) -> bool {
        forall|agent_id: Seq<char>|
            !(#[trigger] self.waiters.contains_key(agent_id) && #[trigger] self.pending.contains_key(
                agent_id,
            ))
    }

    /// Asking for an agent keeps things settled.
    pub proof fn lemma_awaited_settled(self, agent_id: Seq<char>, waiter: W)
        requires
            self.settled(),
        ensures
            self.awaited(agent_id, waiter).settled(),
    {
        let after = self.awaited(agent_id, waiter);
        assert forall|id: Seq<char>|
            !(#[trigger] after.waiters.contains_key(id) && #[trigger] after.pending.contains_key(
                id,
            )) by {
            assert(!(self.waiters.contains_key(id) && self.pending.contains_key(id)));
        }
    }

    /// The end of an agent keeps things settled.
    pub proof fn lemma_delivered_settled(self, agent_id: Seq<char>, completion: TaskCompletion)
        requires
            self.settled(),
        ensures
            self.delivered(agent_id, completion).settled(),
    {
        let after = self.delivered(agent_id, completion);
        assert forall|id: Seq<char>|
            !(#[trigger] after.waiters.contains_key(id) && #[trigger] after.pending.contains_key(
                id,
            )) by {
            assert(!(self.waiters.contains_key(id) && self.pending.contains_key(id)));
        }
    }
}

impl<W> CompletionState<W> {
    /// No agent is waited for whose end is at hand.
    pub closed spec fn wf(&self) -> bool {
        self.waiters.wf() && self.pending.wf() && self@.settled()
    }

    /// What the invariant says of the tasks.
    pub proof fn lemma_wf(&self)
        requires
            self.wf(),
        ensures
            self@.settled(),
    {
    }

    pub fn new() -> (state: CompletionState<W>)
        ensures
            state.wf(),
            state@ == CompletionsView::<W>::empty(),
    {
        CompletionState { waiters: Table::new(), pending: Table::new() }
    }

    /// Notes that someone waits for an agent, or hands them the end that is at hand.
    pub fn add_waiter_or_complete(&mut self, agent_id: String, waiter: W) -> (delivery: Option<
        Delivery<W>,
    >)
        requires
            old(self).wf(),
        ensures
            final(self).wf(),
            final(self)@ == old(self)@.awaited(agent_id@, waiter),
            delivery == old(self)@.awaited_delivery(agent_id@, waiter),
    {
        proof {
            old(self)@.lemma_awaited_settled(agent_id@, waiter);
        }
        match self.pending.remove(&agent_id) {
            Some(completion) => Some(Delivery { waiter, completion }),
            None => {
                let _ = self.waiters.insert(agent_id, waiter);
                assert(self.pending@ =~= old(self).pending@);
                None
            },
        }
    }

    /// Notes that an agent has ended, or hands its end to whoever waits for it.
    pub fn deliver_completion(&mut self, agent_id: String, completion: TaskCompletion) -> (delivery:
        Option<Delivery<W>>)
        requires
            old(self).wf(),
        ensures
            final(self).wf(),
            final(self)@ == old(self)@.delivered(agent_id@, completion),
            delivery == old(self)@.delivered_delivery(agent_id@, completion),
    {
        proof {
            old(self)@.lemma_delivered_settled(agent_id@, completion);
        }
        match self.waiters.remove(&agent_id) {
            Some(waiter) => Some(Delivery { waiter, completion }),
            None => {
                let _ = self.pending.insert(agent_id, completion);
                assert(self.waiters@ =~= old(self).waiters@);
                None
            },
        }
    }

    /// Lets everyone go who waits, as if their agents had been cancelled. What is pending
    /// stays.
    pub fn cancel_waiters(&mut self) -> (deliveries: Vec<(String, Delivery<W>)>)
        requires
            old(self).wf(),
        ensures
            final(self).wf(),
            final(self)@ == old(self)@.let_go(),
            lists(deliveries@, old(self)@.cancelled_deliveries()),
    {
        let mut rows = self.waiters.drain();
        let ghost all = rows@;
        let mut deliveries: Vec<(String, Delivery<W>)> = Vec::new();
        while rows.len() > 0
            invariant
                rows.len() + deliveries.len() == all.len(),
                rows@ == all.take(rows.len() as int),
                forall|i: int|
                    0 <= i < deliveries.len() ==> (#[trigger] deliveries@[i]).0 == all[all.len() - 1
                        - i].0 && deliveries@[i].1 == (Delivery {
                        waiter: all[all.len() - 1 - i].1,
                        completion: TaskCompletion::Cancelled,
                    }),
            decreases rows.len(),
        {
            if let Some((agent_id, waiter)) = rows.pop() {
                deliveries.push(
                    (agent_id, Delivery { waiter, completion: TaskCompletion::Cancelled }),
                );
            }
        }
        proof {
            let map = old(self)@.cancelled_deliveries();
            assert forall|agent_id: Seq<char>| #[trigger] map.contains_key(agent_id) implies exists|
                i: int,
            | 0 <= i < deliveries@.len() && (#[trigger] deliveries@[i]).0@ == agent_id by {
                assert(old(self)@.waiters.contains_key(agent_id));
                let i = choose|i: int| 0 <= i < all.len() && (#[trigger] all[i]).0@ == agent_id;
                assert(deliveries@[all.len() - 1 - i].0@ == agent_id);
            }
        }
        deliveries
    }
}

/// What a script may spend, and what it has spent.
#[derive(Debug, Clone, Copy, PartialEq, Eq, Structural)]
pub struct BudgetSnapshot {
    pub total: Option<u64>,
    pub spent: u64,
}

/// What a script says of its progress.
#[derive(Debug)]
pub enum ProgressEvent {
    Log { message: String },
    Phase { title: String },
}

/// The line that is kept of what a script says.
pub open spec fn progress_text(event: ProgressEvent) -> Seq<char> {
    match event {
        ProgressEvent::Log { message } => "log: "@ + message@,
        ProgressEvent::Phase { title } => "phase: "@ + title@,
    }
}

/// The line that is kept of what a script says.
pub fn progress_line(event: &ProgressEvent) -> (line: String)
    ensures
        line@ == progress_text(*event),
{
    match event {
        ProgressEvent::Log { message } => join2("log: ", message),
        ProgressEvent::Phase { title } => join2("phase: ", title),
    }
}

/// Why a task was not handed out.
#[derive(Debug)]
pub enum DriverError {
    Rejected(String),
}

/// What a script is told that hands out a task of a run that has been cancelled.
pub const STOPPED: &'static str = "workflow run was cancelled";

/// A task that was handed out: its id, and what is handed over at once, if its end was at
/// hand already.
#[derive(Debug)]
pub struct SpawnedTask<W> {
    pub task_id: String,
    pub delivery: Option<Delivery<W>>,
}

/// Whether `task` is what a script is told that handed out a task: the agent that has it, with
/// what is handed over at once, or why there is none. Where the run has been cancelled, no agent
/// has it.
pub open spec fn is_spawned<W>(
    task: Result<SpawnedTask<W>, DriverError>,
    driver: DriverView<W>,
    spawned: Result<String, String>,
    waiter: W,
) -> bool {
    match spawned {
        Ok(agent_id) => if driver.stopped {
            task matches Err(DriverError::Rejected(message)) && message@ == STOPPED@
        } else {
            task matches Ok(task) && task.task_id@ == agent_id@ && task.delivery
                == driver.completions.awaited_delivery(agent_id@, waiter)
        },
        Err(reason) => task matches Err(DriverError::Rejected(message)) && message@ == reason@,
    }
}

/// What cancelling a run comes to: the agents to be stopped, and what those are handed who
/// wait, each with the id of the agent that they wait for.
#[derive(Debug)]
pub struct CancelOrders<W> {
    pub child_ids: Vec<String>,
    pub deliveries: Vec<(String, Delivery<W>)>,
}

/// Whether `orders` stop every child of a driver, and hand everyone who waits the word that
/// their agent has been cancelled.
pub open spec fn cancels<W>(orders: CancelOrders<W>, driver: DriverView<W>) -> bool {
    &&& texts(orders.child_ids@) == driver.child_ids
    &&& lists(orders.deliveries@, driver.completions.cancelled_deliveries())
}

/// What is kept for one run while its script hands out tasks. One that is `stopped` hands out
/// no more.
pub struct SubAgentWorkflowDriver<W> {
    run_id: String,
    child_ids: Vec<String>,
    completion_state: CompletionState<W>,
    total_budget: Option<u64>,
    spent_budget: u64,
    stopped: bool,
}

/// A `SubAgentWorkflowDriver` as values.
#[verifier::ext_equal]
pub struct DriverView<W> {
    pub run_id: Seq<char>,
    pub child_ids: Seq<Seq<char>>,
    pub completions: CompletionsView<W>,
    pub total_budget: Option<u64>,
    pub spent_budget: u64,
    pub stopped: bool,
}

impl<W> DriverView<W> {
    /// The driver of a run that has handed out nothing.
    pub open spec fn fresh(run_id: Seq<char>, total_budget: Option<u64>) -> DriverView<W> {
        DriverView {
            run_id,
            child_ids: Seq::empty(),
            completions: CompletionsView::empty(),
            total_budget,
            spent_budget: 0,
            stopped: false,
        }
    }

    /// Once a child has been counted.
    pub open spec fn with_child(self, agent_id: Seq<char>) -> DriverView<W> {
        DriverView { child_ids: with_text(self.child_ids, agent_id), ..self }
    }

    /// Once someone waits for an agent.
    pub open spec fn awaited(self, agent_id: Seq<char>, waiter: W) -> DriverView<W> {
        DriverView { completions: self.completions.awaited(agent_id, waiter), ..self }
    }

    /// Once an agent has ended.
    pub open spec fn delivered(
        self,
        agent_id: Seq<char>,
        completion: TaskCompletion,
    ) -> DriverView<W> {
        DriverView { completions: self.completions.delivered(agent_id, completion), ..self }
    }

    /// Once an agent has a task of the run: it is a child, and is waited for. A driver that is
    /// stopped takes in no agent.
    pub open spec fn spawned(self, agent_id: Seq<char>, waiter: W) -> DriverView<W> {
        if self.stopped {
            self
        } else {
            self.with_child(agent_id).awaited(agent_id, waiter)
        }
    }

    /// Once it is known what came of handing out a task: the id of the agent that has it, or why
    /// there is none.
    pub open spec fn after_spawn(self, spawned: Result<String, String>, waiter: W) -> DriverView<
        W,
    > {
        match spawned {
            Ok(agent_id) => self.spawned(agent_id@, waiter),
            Err(_) => self,
        }
    }

    /// Once everyone has been let go who waits.
    pub open spec fn let_go(self) -> DriverView<W> {
        DriverView { completions: self.completions.let_go(), ..self }
    }

    /// Once the run has been cancelled: everyone has been let go, and no task is handed out any
    /// more.
    pub open spec fn stop(self) -> DriverView<W> {
        DriverView { stopped: true, ..self.let_go() }
    }
}

impl<W> View for SubAgentWorkflowDriver<W> {
    type V = DriverView<W>;

    closed spec fn view(&self) -> DriverView<W> {
        DriverView {
            run_id: self.run_id@,
            child_ids: texts(self.child_ids@),
            completions: self.completion_state@,
            total_budget: self.total_budget,
            spent_budget: self.spent_budget,
            stopped: self.stopped,
        }
    }
}

impl<W> SubAgentWorkflowDriver<W> {
    /// No child is counted twice, and no agent is waited for whose end is at hand.
    pub closed spec fn wf(&self) -> bool {
        self.completion_state.wf() && self@.child_ids.no_duplicates()
    }

    /// What the invariant says of a driver.
    pub proof fn lemma_wf(&self)
        requires
            self.wf(),
        ensures
            self@.completions.settled(),
            self@.child_ids.no_duplicates(),
    {
        self.completion_state.lemma_wf();
    }

    /// The driver of a run that has handed out nothing.
    pub fn new(run_id: String, total_budget: Option<u64>) -> (driver: SubAgentWorkflowDriver<W>)
        ensures
            driver.wf(),
            driver@ == DriverView::<W>::fresh(run_id@, total_budget),
    {
        let driver = SubAgentWorkflowDriver {
            run_id,
            child_ids: Vec::new(),
            completion_state: CompletionState::new(),
            total_budget,
            spent_budget: 0,
            stopped: false,
        };
        assert(driver@.child_ids =~= Seq::empty());
        driver
    }

    /// The driver of a run that is to be started, with the budget of that run.
    pub fn for_request(run_id: String, request: &StartRequest) -> (driver: SubAgentWorkflowDriver<
        W,
    >)
        ensures
            driver.wf(),
            driver@ == DriverView::<W>::fresh(run_id@, request@.token_budget),
    {
        SubAgentWorkflowDriver::new(run_id, request.token_budget)
    }

    /// The run that the driver is of.
    pub fn run_id(&self) -> (run_id: &str)
        ensures
            run_id@ == self@.run_id,
    {
        &self.run_id
    }

    /// Counts a child of the run, as `spawn_task` does with the agent that it takes in.
    pub fn record_child(&mut self, agent_id: &str)
        requires
            old(self).wf(),
        ensures
            final(self).wf(),
            final(self)@ == old(self)@.with_child(agent_id@),
    {
        add_text_once(&mut self.child_ids, agent_id);
        proof {
            lemma_with_text_no_duplicates(old(self)@.child_ids, agent_id@);
        }
    }

    /// Notes that someone waits for an agent, or hands them the end that is at hand.
    pub fn add_waiter_or_complete(&mut self, agent_id: String, waiter: W) -> (delivery: Option<
        Delivery<W>,
    >)
        requires
            old(self).wf(),
        ensures
            final(self).wf(),
            final(self)@ == old(self)@.awaited(agent_id@, waiter),
            delivery == old(self)@.completions.awaited_delivery(agent_id@, waiter),
    {
        self.completion_state.add_waiter_or_complete(agent_id, waiter)
    }

    /// Notes that an agent has ended, or hands its end to whoever waits for it.
    pub fn deliver_completion(&mut self, agent_id: String, completion: TaskCompletion) -> (delivery:
        Option<Delivery<W>>)
        requires
            old(self).wf(),
        ensures
            final(self).wf(),
            final(self)@ == old(self)@.delivered(agent_id@, completion),
            delivery == old(self)@.completions.delivered_delivery(agent_id@, completion),
    {
        self.completion_state.deliver_completion(agent_id, completion)
    }

    /// Whether a task may be handed out: not where the run has been cancelled. To be asked
    /// before an agent is given one.
    pub fn may_spawn(&self) -> (allowed: Result<(), DriverError>)
        ensures
            allowed is Err <==> self@.stopped,
            allowed matches Err(DriverError::Rejected(message)) ==> message@ == STOPPED@,
    {
        if self.stopped {
            Err(DriverError::Rejected(STOPPED.to_owned()))
        } else {
            Ok(())
        }
    }

    /// What an agent may spend that is given a task: what the task says, and where it says
    /// nothing, what the script may spend.
    pub fn child_token_budget(&self, requested: Option<u64>) -> (budget: Option<u64>)
        ensures
            budget == match requested {
                Some(tokens) => Some(tokens),
                None => self@.total_budget,
            },
    {
        match requested {
            Some(tokens) => Some(tokens),
            None => self.total_budget,
        }
    }

    /// The agent that has to be stopped at once: one that was given a task while the run was
    /// being cancelled.
    pub fn stray_agent(&self, spawned: &Result<String, String>) -> (stray: Option<String>)
        ensures
            text_opt(stray) == match *spawned {
                Ok(agent_id) => if self@.stopped {
                    Some(agent_id@)
                } else {
                    None
                },
                Err(_) => None,
            },
    {
        match spawned {
            Ok(agent_id) => if self.stopped {
                Some(agent_id.clone())
            } else {
                None
            },
            Err(_) => None,
        }
    }

    /// Takes in what came of handing out a task: the id of the agent that has it, or why there
    /// is none. The agent counts as a child of the run, and `waiter` waits for its end. Where
    /// the run has been cancelled meanwhile, no agent is taken in.
    pub fn spawn_task(&mut self, spawned: Result<String, String>, waiter: W) -> (task: Result<
        SpawnedTask<W>,
        DriverError,
    >)
        requires
            old(self).wf(),
        ensures
            final(self).wf(),
            final(self)@ == old(self)@.after_spawn(spawned, waiter),
            is_spawned(task, old(self)@, spawned, waiter),
    {
        match spawned {
            Ok(agent_id) => match self.may_spawn() {
                Ok(()) => {
                    self.record_child(&agent_id);
                    let delivery = self.add_waiter_or_complete(agent_id.clone(), waiter);
                    Ok(SpawnedTask { task_id: agent_id, delivery })
                },
                Err(error) => Err(error),
            },
            Err(reason) => Err(DriverError::Rejected(reason)),
        }
    }

    /// Stops the run: lets everyone go who waits, as if their agents had been cancelled, says
    /// which agents are to be stopped, and hands out no more tasks.
    pub fn force_cancel_all(&mut self) -> (orders: CancelOrders<W>)
        requires
            old(self).wf(),
        ensures
            final(self).wf(),
            final(self)@ == old(self)@.stop(),
            cancels(orders, old(self)@),
    {
        self.stopped = true;
        self.cancel_all()
    }

    /// Lets everyone go who waits, and says which agents are to be stopped, as the script's own
    /// engine asks for it. The script may hand out tasks afterwards.
    pub fn cancel_all(&mut self) -> (orders: CancelOrders<W>)
        requires
            old(self).wf(),
        ensures
            final(self).wf(),
            final(self)@ == old(self)@.let_go(),
            cancels(orders, old(self)@),
    {
        let child_ids = copy_texts(&self.child_ids);
        let deliveries = self.completion_state.cancel_waiters();
        CancelOrders { child_ids, deliveries }
    }

    /// What the script may spend, and what it has spent.
    pub fn budget(&self) -> (budget: BudgetSnapshot)
        ensures
            budget == (BudgetSnapshot {
                total: self@.total_budget,
                spent: self@.spent_budget,
            }),
    {
        BudgetSnapshot { total: self.total_budget, spent: self.spent_budget }
    }
}

/// What is to be done to stop agents.
#[derive(Debug)]
pub enum ChildCancellation {
    /// There is none to be stopped.
    Nothing,
    /// These are stopped at once, for the manager of the agents is free.
    Now(Vec<String>),
    /// These are stopped once the manager is free.
    Later(Vec<String>),
    /// None can be stopped: the manager is taken, and there is nothing to wait for it with.
    Never,
}

/// A `ChildCancellation` as values.
pub enum CancellationView {
    Nothing,
    Now(Seq<Seq<char>>),
    Later(Seq<Seq<char>>),
    Never,
}

impl View for ChildCancellation {
    type V = CancellationView;

    open spec fn view(&self) -> CancellationView {
        match self {
            ChildCancellation::Nothing => CancellationView::Nothing,
            ChildCancellation::Now(ids) => CancellationView::Now(texts(ids@)),
            ChildCancellation::Later(ids) => CancellationView::Later(texts(ids@)),
            ChildCancellation::Never => CancellationView::Never,
        }
    }
}

/// What is to be done to stop agents.
pub open spec fn child_cancellation(
    ids: Seq<Seq<char>>,
    manager_is_free: bool,
    runtime_is_there: bool,
) -> CancellationView {
    if ids.len() == 0 {
        CancellationView::Nothing
    } else if manager_is_free {
        CancellationView::Now(ids)
    } else if runtime_is_there {
        CancellationView::Later(ids)
    } else {
        CancellationView::Never
    }
}

/// What is to be done to stop agents, by whether their manager is free and whether there is a
/// runtime to wait for it with.
pub fn cancel_child_agents(
    ids: Vec<String>,
    manager_is_free: bool,
    runtime_is_there: bool,
) -> (cancellation: ChildCancellation)
    ensures
        cancellation@ == child_cancellation(texts(ids@), manager_is_free, runtime_is_there),
{
    if ids.len() == 0 {
        ChildCancellation::Nothing
    } else if manager_is_free {
        ChildCancellation::Now(ids)
    } else if runtime_is_there {
        ChildCancellation::Later(ids)
    } else {
        ChildCancellation::Never
    }
}

} // verus!
