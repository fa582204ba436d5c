//! What holds of the agents of a run: of the tasks that they are given, of how their ends are
//! found, and of how they are stopped.
//!
//! A law here speaks of what calls give, one after the other: `call_ensures` says that a call
//! with these arguments gave that result, and what a call leaves behind is what the next one
//! finds.

use crate::completion::{
    completion_from_snapshot, searched, AgentStatusView, CompletionSearch, CompletionView,
    SearchStep, SearchView, SnapshotView, SubAgentSnapshot, SubAgentStatus, TaskCompletion,
};
use crate::driver::{
    cancel_child_agents, child_cancellation, progress_line, BudgetSnapshot, CancelOrders,
    CancellationView, ChildCancellation, Delivery, DriverError, DriverView, ProgressEvent,
    SpawnedTask, SubAgentWorkflowDriver,
};
use crate::laws::{driver_after_all, DriverEvent};
use crate::request::StartRequest;
use crate::run_laws::has_one_more;
use crate::text::texts;
use vstd::prelude::*;

verus! {

/// Whether two lists of strings hold the same texts in the same order.
pub open spec fn same_texts(left: Seq<String>, right: Seq<String>) -> bool {
    left.len() == right.len() && forall|i: int|
        0 <= i < left.len() ==> (#[trigger] left[i])@ == right[i]@
}

proof fn lemma_same_texts(left: Seq<String>, right: Seq<String>)
    requires
        texts(left) == texts(right),
    ensures
        same_texts(left, right),
{
    assert(texts(left).len() == left.len() && texts(right).len() == right.len());
    assert forall|i: int| 0 <= i < left.len() implies (#[trigger] left[i])@ == right[i]@ by {
        assert(texts(left)[i] == left[i]@);
        assert(texts(right)[i] == right[i]@);
    }
}

/// Whoever hands out a task gets its end: once an agent has been given a task, either its end
/// was at hand and is theirs at once, or they are the one who waits, and the end goes to them
/// when it comes, however many children there were before. The agent is a child then, and
/// nothing changes for any other agent.
pub proof fn law_task_waits_for_its_agent<W>(
    driver: DriverView<W>,
    agent_id: Seq<char>,
    waiter: W,
    completion: TaskCompletion,
    other: Seq<char>,
)
    requires
        !driver.stopped,
        other != agent_id,
    ensures
        ({
            let after = driver.spawned(agent_id, waiter);
            let before = driver.completions;
            &&& after.child_ids.contains(agent_id)
            &&& driver.child_ids.contains(other) == after.child_ids.contains(other)
            &&& !before.pending.contains_key(agent_id) ==> {
                &&& after.completions.waiters.contains_key(agent_id)
                &&& after.completions.waiters[agent_id] == waiter
                &&& !after.completions.pending.contains_key(agent_id)
                &&& before.awaited_delivery(agent_id, waiter) is None
                &&& after.completions.delivered_delivery(agent_id, completion) == Some(
                    Delivery { waiter, completion },
                )
            }
            &&& before.pending.contains_key(agent_id) ==> {
                &&& before.awaited_delivery(agent_id, waiter) == Some(
                    Delivery { waiter, completion: before.pending[agent_id] },
                )
                &&& !after.completions.pending.contains_key(agent_id)
                &&& after.completions.waiters == before.waiters
            }
            &&& after.completions.waiters.contains_key(other) == before.waiters.contains_key(other)
            &&& before.waiters.contains_key(other) ==> after.completions.waiters[other]
                == before.waiters[other]
            &&& after.completions.pending.contains_key(other) == before.pending.contains_key(other)
            &&& before.pending.contains_key(other) ==> after.completions.pending[other]
                == before.pending[other]
            &&& after.run_id == driver.run_id
            &&& after.total_budget == driver.total_budget
            &&& after.spent_budget == driver.spent_budget
            &&& !after.stopped
        }),
{
    let ids = driver.child_ids;
    if !ids.contains(agent_id) {
        let longer = ids.push(agent_id);
        assert(longer[ids.len() as int] == agent_id);
        if ids.contains(other) {
            let i = choose|i: int| 0 <= i < ids.len() && ids[i] == other;
            assert(longer[i] == other);
        }
        if longer.contains(other) {
            let i = choose|i: int| 0 <= i < longer.len() && longer[i] == other;
            assert(ids[i] == other);
        }
    }
}

/// The end of an agent that has been given a task reaches the one who handed the task out.
pub proof fn law_end_reaches_whoever_handed_out_the_task<W>(
    first: &mut SubAgentWorkflowDriver<W>,
    agent_id: String,
    waiter: W,
    task: Result<SpawnedTask<W>, DriverError>,
    second: &mut SubAgentWorkflowDriver<W>,
    reported: String,
    completion: TaskCompletion,
    delivery: Option<Delivery<W>>,
)
    requires
        !first@.stopped,
        !first@.completions.pending.contains_key(agent_id@),
        call_ensures(
            SubAgentWorkflowDriver::<W>::spawn_task,
            (first, Ok::<String, String>(agent_id), waiter),
            task,
        ),
        *second == *final(first),
        reported@ == agent_id@,
        call_ensures(
            SubAgentWorkflowDriver::<W>::deliver_completion,
            (second, reported, completion),
            delivery,
        ),
    ensures
        task matches Ok(task) && task.task_id@ == agent_id@ && task.delivery is None,
        delivery == Some(Delivery { waiter, completion }),
        !final(second)@.completions.waiters.contains_key(agent_id@),
        !final(second)@.completions.pending.contains_key(agent_id@),
{
}

/// An end that comes before anyone has asked for it is handed over with the task.
pub proof fn law_early_end_is_handed_over_with_the_task<W>(
    first: &mut SubAgentWorkflowDriver<W>,
    reported: String,
    completion: TaskCompletion,
    delivery: Option<Delivery<W>>,
    second: &mut SubAgentWorkflowDriver<W>,
    agent_id: String,
    waiter: W,
    task: Result<SpawnedTask<W>, DriverError>,
)
    requires
        !first@.stopped,
        !first@.completions.waiters.contains_key(agent_id@),
        call_ensures(
            SubAgentWorkflowDriver::<W>::deliver_completion,
            (first, reported, completion),
            delivery,
        ),
        reported@ == agent_id@,
        *second == *final(first),
        call_ensures(
            SubAgentWorkflowDriver::<W>::spawn_task,
            (second, Ok::<String, String>(agent_id), waiter),
            task,
        ),
    ensures
        delivery is None,
        task matches Ok(task) && task.task_id@ == agent_id@ && task.delivery == Some(
            Delivery { waiter, completion },
        ),
        final(second)@.child_ids.contains(agent_id@),
{
    let ids = first@.child_ids;
    if !ids.contains(agent_id@) {
        assert(ids.push(agent_id@)[ids.len() as int] == agent_id@);
    }
}

/// The same of someone who asks for an agent on their own: the end reaches them when it comes.
pub proof fn law_end_reaches_whoever_asked<W>(
    first: &mut SubAgentWorkflowDriver<W>,
    agent_id: String,
    waiter: W,
    at_once: Option<Delivery<W>>,
    second: &mut SubAgentWorkflowDriver<W>,
    reported: String,
    completion: TaskCompletion,
    delivery: Option<Delivery<W>>,
)
    requires
        !first@.completions.pending.contains_key(agent_id@),
        call_ensures(
            SubAgentWorkflowDriver::<W>::add_waiter_or_complete,
            (first, agent_id, waiter),
            at_once,
        ),
        reported@ == agent_id@,
        *second == *final(first),
        call_ensures(
            SubAgentWorkflowDriver::<W>::deliver_completion,
            (second, reported, completion),
            delivery,
        ),
    ensures
        at_once is None,
        delivery == Some(Delivery { waiter, completion }),
{
}

/// An end that has come already is handed to whoever asks for it, at once.
pub proof fn law_early_end_is_handed_to_whoever_asks<W>(
    first: &mut SubAgentWorkflowDriver<W>,
    reported: String,
    completion: TaskCompletion,
    delivery: Option<Delivery<W>>,
    second: &mut SubAgentWorkflowDriver<W>,
    agent_id: String,
    waiter: W,
    at_once: Option<Delivery<W>>,
)
    requires
        !first@.completions.waiters.contains_key(agent_id@),
        call_ensures(
            SubAgentWorkflowDriver::<W>::deliver_completion,
            (first, reported, completion),
            delivery,
        ),
        reported@ == agent_id@,
        *second == *final(first),
        call_ensures(
            SubAgentWorkflowDriver::<W>::add_waiter_or_complete,
            (second, agent_id, waiter),
            at_once,
        ),
    ensures
        delivery is None,
        at_once == Some(Delivery { waiter, completion }),
        !final(second)@.completions.pending.contains_key(agent_id@),
{
}

/// Whether an event concerns an agent, or lets everyone go.
pub open spec fn concerns<W>(event: DriverEvent<W>, agent_id: Seq<char>) -> bool {
    match event {
        DriverEvent::Spawned { agent_id: id, .. } => id == agent_id,
        DriverEvent::Refused => false,
        DriverEvent::Awaited { agent_id: id, .. } => id == agent_id,
        DriverEvent::Delivered { agent_id: id, .. } => id == agent_id,
        DriverEvent::LetGo => true,
        DriverEvent::Stopped => true,
    }
}

/// Whatever happens between the task and its end, as long as it does not concern the agent, the
/// end reaches the one who handed the task out.
pub proof fn law_task_meets_its_end_through_everything<W>(
    driver: DriverView<W>,
    agent_id: Seq<char>,
    waiter: W,
    events: Seq<DriverEvent<W>>,
    completion: TaskCompletion,
)
    requires
        !driver.stopped,
        !driver.completions.pending.contains_key(agent_id),
        forall|i: int| 0 <= i < events.len() ==> !concerns(#[trigger] events[i], agent_id),
    ensures
        ({
            let after = driver_after_all(driver.spawned(agent_id, waiter), events);
            &&& !after.stopped
            &&& after.completions.waiters.contains_key(agent_id)
            &&& after.completions.waiters[agent_id] == waiter
            &&& !after.completions.pending.contains_key(agent_id)
            &&& after.completions.delivered_delivery(agent_id, completion) == Some(
                Delivery { waiter, completion },
            )
        }),
    decreases events.len(),
{
    if events.len() > 0 {
        let before = events.drop_last();
        assert forall|i: int| 0 <= i < before.len() implies !concerns(
            #[trigger] before[i],
            agent_id,
        ) by {
            assert(events[i] == before[i]);
        }
        law_task_meets_its_end_through_everything(driver, agent_id, waiter, before, completion);
        assert(!concerns(events[events.len() - 1], agent_id));
    }
}

/// Of two ends of one agent that nobody has asked for the later is kept, and of two who ask for
/// one agent the later waits.
pub proof fn law_the_later_counts<W>(
    driver: DriverView<W>,
    agent_id: Seq<char>,
    one: W,
    two: W,
    early: TaskCompletion,
    late: TaskCompletion,
)
    requires
        !driver.completions.waiters.contains_key(agent_id),
        !driver.completions.pending.contains_key(agent_id),
    ensures
        driver.delivered(agent_id, early).delivered(
            agent_id,
            late,
        ).completions.pending[agent_id] == late,
        driver.awaited(agent_id, one).awaited(agent_id, two).completions.waiters[agent_id] == two,
        driver.delivered(agent_id, early).child_ids == driver.child_ids,
        driver.awaited(agent_id, one).child_ids == driver.child_ids,
        driver.delivered(agent_id, early).stopped == driver.stopped,
        driver.awaited(agent_id, one).stopped == driver.stopped,
{
}

/// A child that is counted stands behind those that were counted before, unless it was among
/// them; nothing else changes.
pub proof fn law_child_is_counted_by_the_driver<W>(
    driver: &mut SubAgentWorkflowDriver<W>,
    agent_id: &str,
    done: (),
)
    requires
        call_ensures(SubAgentWorkflowDriver::<W>::record_child, (driver, agent_id), done),
    ensures
        has_one_more(old(driver)@.child_ids, final(driver)@.child_ids, agent_id@),
        final(driver)@ == (DriverView {
            child_ids: final(driver)@.child_ids,
            ..old(driver)@
        }),
{
    let ids = old(driver)@.child_ids;
    assert(ids.contains(agent_id@) <==> exists|i: int| 0 <= i < ids.len() && ids[i] == agent_id@);
}

/// A task that no agent takes leaves everything as it was, and the script is told why.
pub proof fn law_refused_task_changes_nothing<W>(
    driver: &mut SubAgentWorkflowDriver<W>,
    reason: String,
    waiter: W,
    task: Result<SpawnedTask<W>, DriverError>,
)
    requires
        call_ensures(
            SubAgentWorkflowDriver::<W>::spawn_task,
            (driver, Err::<String, String>(reason), waiter),
            task,
        ),
    ensures
        task matches Err(DriverError::Rejected(message)) && message@ == reason@,
        final(driver)@ == old(driver)@,
{
}

/// Every child of a driver, and no other agent, is ordered to stop when its run is cancelled,
/// and everyone who waits is told that their agent has been cancelled. Nobody waits then, what
/// nobody has asked for stays at hand, and no task is handed out any more.
pub proof fn law_cancelling_orders_every_child_to_stop<W>(
    driver: &mut SubAgentWorkflowDriver<W>,
    orders: CancelOrders<W>,
    agent_id: Seq<char>,
)
    requires
        call_ensures(SubAgentWorkflowDriver::<W>::force_cancel_all, (driver,), orders),
    ensures
        orders.child_ids@.len() == old(driver)@.child_ids.len(),
        forall|i: int|
            0 <= i < orders.child_ids@.len() ==> (#[trigger] orders.child_ids@[i])@ == old(
                driver,
            )@.child_ids[i],
        old(driver)@.completions.waiters.contains_key(agent_id) ==> exists|i: int|
            0 <= i < orders.deliveries@.len() && (#[trigger] orders.deliveries@[i]).0@ == agent_id
                && orders.deliveries@[i].1.waiter == old(driver)@.completions.waiters[agent_id]
                && orders.deliveries@[i].1.completion is Cancelled,
        forall|i: int|
            0 <= i < orders.deliveries@.len() ==> old(driver)@.completions.waiters.contains_key(
                (#[trigger] orders.deliveries@[i]).0@,
            ),
        forall|i: int, j: int|
            0 <= i < j < orders.deliveries@.len() ==> (#[trigger] orders.deliveries@[i]).0@ != (
            #[trigger] orders.deliveries@[j]).0@,
        final(driver)@.stopped,
        final(driver)@.child_ids == old(driver)@.child_ids,
        !final(driver)@.completions.waiters.contains_key(agent_id),
        final(driver)@.completions.pending == old(driver)@.completions.pending,
        final(driver)@.run_id == old(driver)@.run_id,
        final(driver)@.total_budget == old(driver)@.total_budget,
{
    let ids = texts(orders.child_ids@);
    assert forall|i: int| 0 <= i < orders.child_ids@.len() implies (
    #[trigger] orders.child_ids@[i])@ == old(driver)@.child_ids[i] by {
        assert(ids[i] == orders.child_ids@[i]@);
    }
    let told = old(driver)@.completions.cancelled_deliveries();
    if old(driver)@.completions.waiters.contains_key(agent_id) {
        assert(told.contains_key(agent_id));
        let i = choose|i: int|
            0 <= i < orders.deliveries@.len() && (#[trigger] orders.deliveries@[i]).0@ == agent_id;
        assert(told[orders.deliveries@[i].0@] == orders.deliveries@[i].1);
    }
    assert forall|i: int| 0 <= i < orders.deliveries@.len() implies old(
        driver,
    )@.completions.waiters.contains_key((#[trigger] orders.deliveries@[i]).0@) by {
        assert(told.contains_key(orders.deliveries@[i].0@));
    }
}

/// The same of the engine of the script, except that tasks may be handed out afterwards.
pub proof fn law_engine_orders_every_child_to_stop<W>(
    driver: &mut SubAgentWorkflowDriver<W>,
    orders: CancelOrders<W>,
    agent_id: Seq<char>,
)
    requires
        call_ensures(SubAgentWorkflowDriver::<W>::cancel_all, (driver,), orders),
    ensures
        orders.child_ids@.len() == old(driver)@.child_ids.len(),
        forall|i: int|
            0 <= i < orders.child_ids@.len() ==> (#[trigger] orders.child_ids@[i])@ == old(
                driver,
            )@.child_ids[i],
        old(driver)@.completions.waiters.contains_key(agent_id) ==> exists|i: int|
            0 <= i < orders.deliveries@.len() && (#[trigger] orders.deliveries@[i]).0@ == agent_id
                && orders.deliveries@[i].1.waiter == old(driver)@.completions.waiters[agent_id]
                && orders.deliveries@[i].1.completion is Cancelled,
        final(driver)@.stopped == old(driver)@.stopped,
        final(driver)@.child_ids == old(driver)@.child_ids,
        !final(driver)@.completions.waiters.contains_key(agent_id),
        final(driver)@.completions.pending == old(driver)@.completions.pending,
        final(driver)@.run_id == old(driver)@.run_id,
        final(driver)@.total_budget == old(driver)@.total_budget,
{
    let ids = texts(orders.child_ids@);
    assert forall|i: int| 0 <= i < orders.child_ids@.len() implies (
    #[trigger] orders.child_ids@[i])@ == old(driver)@.child_ids[i] by {
        assert(ids[i] == orders.child_ids@[i]@);
    }
    let told = old(driver)@.completions.cancelled_deliveries();
    if old(driver)@.completions.waiters.contains_key(agent_id) {
        assert(told.contains_key(agent_id));
        let i = choose|i: int|
            0 <= i < orders.deliveries@.len() && (#[trigger] orders.deliveries@[i]).0@ == agent_id;
        assert(told[orders.deliveries@[i].0@] == orders.deliveries@[i].1);
    }
}

/// An agent that has been given a task is among those that are ordered to stop when the run is
/// cancelled, and whoever waits for it is told.
pub proof fn law_agent_with_a_task_is_ordered_to_stop<W>(
    first: &mut SubAgentWorkflowDriver<W>,
    agent_id: String,
    waiter: W,
    task: Result<SpawnedTask<W>, DriverError>,
    second: &mut SubAgentWorkflowDriver<W>,
    orders: CancelOrders<W>,
)
    requires
        !first@.stopped,
        !first@.completions.pending.contains_key(agent_id@),
        call_ensures(
            SubAgentWorkflowDriver::<W>::spawn_task,
            (first, Ok::<String, String>(agent_id), waiter),
            task,
        ),
        *second == *final(first),
        call_ensures(SubAgentWorkflowDriver::<W>::force_cancel_all, (second,), orders),
    ensures
        exists|i: int|
            0 <= i < orders.child_ids@.len() && (#[trigger] orders.child_ids@[i])@ == agent_id@,
        exists|i: int|
            0 <= i < orders.deliveries@.len() && (#[trigger] orders.deliveries@[i]).0@
                == agent_id@ && orders.deliveries@[i].1.waiter == waiter
                && orders.deliveries@[i].1.completion is Cancelled,
{
    let ids = first@.child_ids;
    if !ids.contains(agent_id@) {
        assert(ids.push(agent_id@)[ids.len() as int] == agent_id@);
    }
    let all = texts(orders.child_ids@);
    assert(all.contains(agent_id@));
    let i = choose|i: int| 0 <= i < all.len() && all[i] == agent_id@;
    assert(orders.child_ids@[i]@ == agent_id@);
    let told = second@.completions.cancelled_deliveries();
    assert(told.contains_key(agent_id@));
    let j = choose|j: int|
        0 <= j < orders.deliveries@.len() && (#[trigger] orders.deliveries@[j]).0@ == agent_id@;
    assert(told[orders.deliveries@[j].0@] == orders.deliveries@[j].1);
}

/// Once a run has been cancelled no agent is taken in for it, and one that was given a task
/// meanwhile is named, for it to be stopped; before that every agent is taken in and none is
/// named.
pub proof fn law_stray_agent_is_stopped<W>(
    driver: &SubAgentWorkflowDriver<W>,
    agent_id: String,
    reason: String,
    allowed: Result<(), DriverError>,
    stray: Option<String>,
    nobody: Option<String>,
)
    requires
        call_ensures(SubAgentWorkflowDriver::<W>::may_spawn, (driver,), allowed),
        call_ensures(
            SubAgentWorkflowDriver::<W>::stray_agent,
            (driver, &Ok::<String, String>(agent_id)),
            stray,
        ),
        call_ensures(
            SubAgentWorkflowDriver::<W>::stray_agent,
            (driver, &Err::<String, String>(reason)),
            nobody,
        ),
    ensures
        driver@.stopped ==> allowed is Err && stray is Some && stray->Some_0@ == agent_id@,
        !driver@.stopped ==> allowed is Ok && stray is None,
        nobody is None,
{
}

/// The call of `spawn_task` on a driver that is stopped gives an error and changes nothing.
pub proof fn law_stopped_driver_takes_in_no_agent<W>(
    driver: &mut SubAgentWorkflowDriver<W>,
    spawned: Result<String, String>,
    waiter: W,
    task: Result<SpawnedTask<W>, DriverError>,
)
    requires
        driver@.stopped,
        call_ensures(SubAgentWorkflowDriver::<W>::spawn_task, (driver, spawned, waiter), task),
    ensures
        task is Err,
        final(driver)@ == old(driver)@,
{
}

/// A driver begins with nothing: no child, nobody who waits, no end at hand, and the budget that
/// it is given, of which nothing is spent. A task that names no budget of its own gets all of it.
pub proof fn law_driver_begins_with_its_budget<W>(
    run_id: String,
    request: &StartRequest,
    total_budget: Option<u64>,
    driver: SubAgentWorkflowDriver<W>,
    snapshot: BudgetSnapshot,
    requested: Option<u64>,
    budget: Option<u64>,
)
    requires
        call_ensures(SubAgentWorkflowDriver::<W>::new, (run_id, total_budget), driver)
            || call_ensures(SubAgentWorkflowDriver::<W>::for_request, (run_id, request), driver)
            && total_budget == request.token_budget,
        call_ensures(SubAgentWorkflowDriver::<W>::budget, (&driver,), snapshot),
        call_ensures(
            SubAgentWorkflowDriver::<W>::child_token_budget,
            (&driver, requested),
            budget,
        ),
    ensures
        driver@.run_id == run_id@,
        driver@.child_ids.len() == 0,
        driver@.completions.waiters == Map::<Seq<char>, W>::empty(),
        driver@.completions.pending == Map::<Seq<char>, TaskCompletion>::empty(),
        !driver@.stopped,
        snapshot.total == total_budget,
        snapshot.spent == 0,
        requested is None ==> budget == total_budget,
        requested is Some ==> budget == requested,
{
}

/// Agents are stopped as they are given, all of them, in their order, whatever their number: at
/// once where their manager is free, later where it is not and there is something to wait for it
/// with, and never where there is not. There is nothing to do just where there is no agent.
pub proof fn law_every_agent_is_stopped(
    ids: Vec<String>,
    manager_is_free: bool,
    runtime_is_there: bool,
    cancellation: ChildCancellation,
)
    requires
        call_ensures(
            cancel_child_agents,
            (ids, manager_is_free, runtime_is_there),
            cancellation,
        ),
    ensures
        cancellation is Nothing <==> ids@.len() == 0,
        ids@.len() > 0 && manager_is_free ==> cancellation is Now && same_texts(
            cancellation->Now_0@,
            ids@,
        ),
        ids@.len() > 0 && !manager_is_free && runtime_is_there ==> cancellation is Later
            && same_texts(cancellation->Later_0@, ids@),
        ids@.len() > 0 && !manager_is_free && !runtime_is_there ==> cancellation is Never,
{
    assert(texts(ids@).len() == ids@.len());
    match cancellation {
        ChildCancellation::Now(stopped) => {
            assert(cancellation@ == CancellationView::Now(texts(stopped@)));
            lemma_same_texts(stopped@, ids@);
        },
        ChildCancellation::Later(stopped) => {
            assert(cancellation@ == CancellationView::Later(texts(stopped@)));
            lemma_same_texts(stopped@, ids@);
        },
        _ => {},
    }
}

/// The same of what is to be done, as values: no agent of the given ones is left out where there
/// is a way to stop it.
pub proof fn law_no_agent_is_left_out(
    ids: Seq<Seq<char>>,
    manager_is_free: bool,
    runtime_is_there: bool,
    id: Seq<char>,
)
    ensures
        child_cancellation(ids, manager_is_free, runtime_is_there) is Nothing <==> ids.len() == 0,
        child_cancellation(ids, manager_is_free, runtime_is_there) is Never <==> ids.len() > 0
            && !manager_is_free && !runtime_is_there,
        ids.contains(id) && manager_is_free ==> child_cancellation(
            ids,
            manager_is_free,
            runtime_is_there,
        ) == CancellationView::Now(ids),
        ids.contains(id) && !manager_is_free && runtime_is_there ==> child_cancellation(
            ids,
            manager_is_free,
            runtime_is_there,
        ) == CancellationView::Later(ids),
{
}

/// Whether a completion is the success of an agent, with that text.
pub open spec fn completed_with(completion: TaskCompletion, text: Seq<char>) -> bool {
    completion matches TaskCompletion::Completed { text: held } && held@ == text
}

/// Whether a completion is the failure of an agent, for that reason.
pub open spec fn failed_with(completion: TaskCompletion, message: Seq<char>) -> bool {
    completion matches TaskCompletion::Failed { message: held } && held@ == message
}

/// Whether a completion says that an agent has used up its budget, in those words.
pub open spec fn exhausted_with(completion: TaskCompletion, message: Seq<char>) -> bool {
    completion matches TaskCompletion::BudgetExhausted { message: held } && held@ == message
}

/// Whether an agent has an end to show.
pub open spec fn has_ended(snapshot: Option<SubAgentSnapshot>) -> bool {
    match snapshot {
        None => false,
        Some(snapshot) => !(snapshot.status is Running),
    }
}

/// What an agent left behind is handed on unchanged: its result, or its own report where it left
/// none; the reason for which it failed or was interrupted; that it was cancelled; that its
/// budget was used up. Of an agent that is running or not to be found there is no end yet.
pub proof fn law_end_is_handed_on_unchanged(
    snapshot: Option<SubAgentSnapshot>,
    fallback: String,
    found: Result<TaskCompletion, String>,
    text: String,
    reason: String,
)
    requires
        call_ensures(completion_from_snapshot, (snapshot, fallback), found),
    ensures
        has_ended(snapshot) <==> found is Ok,
        found matches Err(rest) ==> rest@ == fallback@,
        has_ended(snapshot) && snapshot->Some_0.status == SubAgentStatus::Completed
            && snapshot->Some_0.result == Some(text) ==> completed_with(found->Ok_0, text@),
        has_ended(snapshot) && snapshot->Some_0.status == SubAgentStatus::Completed
            && snapshot->Some_0.result is None ==> completed_with(found->Ok_0, fallback@),
        has_ended(snapshot) && snapshot->Some_0.status == SubAgentStatus::Failed(reason)
            ==> failed_with(found->Ok_0, reason@),
        has_ended(snapshot) && snapshot->Some_0.status == SubAgentStatus::Interrupted(reason)
            ==> failed_with(found->Ok_0, reason@),
        has_ended(snapshot) && snapshot->Some_0.status == SubAgentStatus::Cancelled
            ==> found->Ok_0 is Cancelled,
        has_ended(snapshot) && snapshot->Some_0.status == SubAgentStatus::BudgetExhausted
            ==> exhausted_with(found->Ok_0, "sub-agent budget exhausted"@),
{
}

/// A search that is under way takes the end that an agent shows, as it is, and then there is no
/// pause. Where the agent shows none, there is one lookup fewer, and after the last one the
/// report of the agent is taken; in both cases there is a pause of twenty milliseconds.
pub proof fn law_lookup_takes_the_end_that_is_shown(
    lookups_left: u32,
    fallback: String,
    snapshot: Option<SubAgentSnapshot>,
    step: SearchStep,
    text: String,
    reason: String,
)
    requires
        call_ensures(
            CompletionSearch::look_up,
            (CompletionSearch::Looking { lookups_left, fallback }, snapshot),
            step,
        ),
    ensures
        has_ended(snapshot) ==> step.pause_ms == 0 && step.search is Found,
        !has_ended(snapshot) ==> step.pause_ms == 20,
        !has_ended(snapshot) && lookups_left > 1 ==> step.search is Looking
            && step.search->lookups_left == lookups_left - 1 && step.search->fallback@ == fallback@,
        !has_ended(snapshot) && lookups_left <= 1 ==> step.search is Found && completed_with(
            step.search->Found_0,
            fallback@,
        ),
        has_ended(snapshot) && snapshot->Some_0.status == SubAgentStatus::Completed
            && snapshot->Some_0.result == Some(text) ==> completed_with(
            step.search->Found_0,
            text@,
        ),
        has_ended(snapshot) && snapshot->Some_0.status == SubAgentStatus::Completed
            && snapshot->Some_0.result is None ==> completed_with(
            step.search->Found_0,
            fallback@,
        ),
        has_ended(snapshot) && snapshot->Some_0.status == SubAgentStatus::Failed(reason)
            ==> failed_with(step.search->Found_0, reason@),
        has_ended(snapshot) && snapshot->Some_0.status == SubAgentStatus::Interrupted(reason)
            ==> failed_with(step.search->Found_0, reason@),
        has_ended(snapshot) && snapshot->Some_0.status == SubAgentStatus::Cancelled
            ==> step.search->Found_0 is Cancelled,
        has_ended(snapshot) && snapshot->Some_0.status == SubAgentStatus::BudgetExhausted
            ==> exhausted_with(step.search->Found_0, "sub-agent budget exhausted"@),
{
}

/// What a search has found it keeps, whatever is looked up, and there is no pause.
pub proof fn law_lookup_keeps_what_was_found(
    completion: TaskCompletion,
    snapshot: Option<SubAgentSnapshot>,
    step: SearchStep,
    text: Seq<char>,
)
    requires
        call_ensures(
            CompletionSearch::look_up,
            (CompletionSearch::Found(completion), snapshot),
            step,
        ),
    ensures
        step.pause_ms == 0,
        step.search is Found,
        completed_with(completion, text) ==> completed_with(step.search->Found_0, text),
        failed_with(completion, text) ==> failed_with(step.search->Found_0, text),
        exhausted_with(completion, text) ==> exhausted_with(step.search->Found_0, text),
        completion is Cancelled ==> step.search->Found_0 is Cancelled,
{
}

/// A search begins with fifty lookups and the report of the agent.
pub proof fn law_search_begins_with_the_report(fallback: String, search: CompletionSearch)
    requires
        call_ensures(CompletionSearch::begin, (fallback,), search),
    ensures
        search matches CompletionSearch::Looking { lookups_left, fallback: kept } && lookups_left
            == 50 && kept@ == fallback@,
{
}

/// Whether a series of lookups shows an agent that is running, or none.
pub open spec fn shows_no_ended_agent(snapshots: Seq<Option<SnapshotView>>) -> bool {
    forall|i: int|
        0 <= i < snapshots.len() ==> match #[trigger] snapshots[i] {
            None => true,
            Some(snapshot) => snapshot.status is Running,
        }
}

/// What a search comes to, by what its lookups show: the first end among the first fifty, as the
/// agent left it, or the report of the agent after fifty lookups without one.
pub proof fn law_search_comes_to_what_the_agent_left(
    fallback: Seq<char>,
    before: Seq<Option<SnapshotView>>,
    status: AgentStatusView,
    result: Option<Seq<char>>,
)
    requires
        shows_no_ended_agent(before),
    ensures
        before.len() < 50 ==> searched(fallback, before) == (SearchView::Looking {
            lookups_left: 50 - before.len(),
            fallback,
        }),
        before.len() == 50 ==> searched(fallback, before) == SearchView::Found(
            CompletionView::Completed(fallback),
        ),
        before.len() < 50 ==> ({
            let found = searched(fallback, before.push(Some(SnapshotView { status, result })));
            match status {
                AgentStatusView::Running => true,
                AgentStatusView::Completed => {
                    &&& result matches Some(text) ==> found == SearchView::Found(
                        CompletionView::Completed(text),
                    )
                    &&& result is None ==> found == SearchView::Found(
                        CompletionView::Completed(fallback),
                    )
                },
                AgentStatusView::Failed(message) => found == SearchView::Found(
                    CompletionView::Failed(message),
                ),
                AgentStatusView::Interrupted(message) => found == SearchView::Found(
                    CompletionView::Failed(message),
                ),
                AgentStatusView::Cancelled => found == SearchView::Found(CompletionView::Cancelled),
                AgentStatusView::BudgetExhausted => found == SearchView::Found(
                    CompletionView::BudgetExhausted("sub-agent budget exhausted"@),
                ),
            }
        }),
    decreases before.len(),
{
    if before.len() > 0 {
        let earlier = before.drop_last();
        assert forall|i: int| 0 <= i < earlier.len() implies match #[trigger] earlier[i] {
            None => true,
            Some(snapshot) => snapshot.status is Running,
        } by {
            assert(earlier[i] == before[i]);
        }
        law_search_comes_to_what_the_agent_left(fallback, earlier, status, result);
        let last = before[before.len() - 1];
        assert(last == before.last());
    }
    let snapshot = Some(SnapshotView { status, result });
    assert(before.push(snapshot).drop_last() =~= before);
    assert(before.push(snapshot).last() == snapshot);
}

/// A line of progress is what the script said, behind the word for what it is.
pub proof fn law_progress_line_says_what_the_script_said(event: ProgressEvent, line: String)
    requires
        call_ensures(progress_line, (&event,), line),
    ensures
        match event {
            ProgressEvent::Log { message } => line@ == "log: "@ + message@,
            ProgressEvent::Phase { title } => line@ == "phase: "@ + title@,
        },
{
}

/// The views of ends and of agents show what is in them.
pub proof fn law_views_of_agents_show_what_is_in_them(
    completion: TaskCompletion,
    status: SubAgentStatus,
    snapshot: SubAgentSnapshot,
)
    ensures
        match completion {
            TaskCompletion::Completed { text } => completion@ == CompletionView::Completed(text@),
            TaskCompletion::Failed { message } => completion@ == CompletionView::Failed(message@),
            TaskCompletion::Cancelled => completion@ == CompletionView::Cancelled,
            TaskCompletion::BudgetExhausted { message } => completion@
                == CompletionView::BudgetExhausted(message@),
        },
        match status {
            SubAgentStatus::Running => status@ == AgentStatusView::Running,
            SubAgentStatus::Completed => status@ == AgentStatusView::Completed,
            SubAgentStatus::Failed(message) => status@ == AgentStatusView::Failed(message@),
            SubAgentStatus::Interrupted(message) => status@ == AgentStatusView::Interrupted(
                message@,
            ),
            SubAgentStatus::Cancelled => status@ == AgentStatusView::Cancelled,
            SubAgentStatus::BudgetExhausted => status@ == AgentStatusView::BudgetExhausted,
        },
        snapshot@.status == snapshot.status@,
        snapshot.result matches Some(text) ==> snapshot@.result == Some(text@),
        snapshot.result is None ==> snapshot@.result is None,
{
}

} // verus!
