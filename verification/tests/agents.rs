use workflow_runner::completion::{
    completion_from_snapshot, CompletionSearch, SubAgentSnapshot, SubAgentStatus, TaskCompletion,
};
use workflow_runner::driver::{
    cancel_child_agents, progress_line, CancelOrders, ChildCancellation, DriverError,
    ProgressEvent, SubAgentWorkflowDriver,
};
use workflow_runner::request::StartRequest;
use workflow_runner::source::WorkflowSource;

fn driver() -> SubAgentWorkflowDriver<u32> {
    SubAgentWorkflowDriver::new("workflow_1".to_string(), Some(100))
}

fn done(text: &str) -> TaskCompletion {
    TaskCompletion::Completed { text: text.to_string() }
}

fn snapshot(status: SubAgentStatus, result: Option<&str>) -> Option<SubAgentSnapshot> {
    Some(SubAgentSnapshot { status, result: result.map(str::to_string) })
}

fn text_of(completion: TaskCompletion) -> String {
    match completion {
        TaskCompletion::Completed { text } => text,
        other => panic!("{:?}", other),
    }
}

fn let_go(orders: CancelOrders<u32>) -> Vec<(String, u32)> {
    let mut gone = Vec::new();
    for (agent_id, delivery) in orders.deliveries {
        assert!(matches!(delivery.completion, TaskCompletion::Cancelled));
        gone.push((agent_id, delivery.waiter));
    }
    gone.sort();
    gone
}

#[test]
fn a_waiter_gets_the_end_that_comes_later() {
    let mut driver = driver();
    assert!(driver.add_waiter_or_complete("a".to_string(), 1).is_none());
    let delivery = driver.deliver_completion("a".to_string(), done("x")).unwrap();
    assert_eq!(delivery.waiter, 1);
    assert_eq!(text_of(delivery.completion), "x");
    assert!(driver.force_cancel_all().deliveries.is_empty());
}

#[test]
fn a_waiter_gets_the_end_that_came_first() {
    let mut driver = driver();
    assert!(driver.deliver_completion("a".to_string(), done("x")).is_none());
    assert!(driver.deliver_completion("b".to_string(), TaskCompletion::Cancelled).is_none());
    let delivery = driver.add_waiter_or_complete("a".to_string(), 2).unwrap();
    assert_eq!(delivery.waiter, 2);
    assert_eq!(text_of(delivery.completion), "x");
    assert!(driver.add_waiter_or_complete("a".to_string(), 3).is_none());
    assert!(driver.add_waiter_or_complete("b".to_string(), 4).is_some());
}

#[test]
fn the_last_end_is_kept() {
    let mut driver = driver();
    assert!(driver.deliver_completion("a".to_string(), done("x")).is_none());
    assert!(driver.deliver_completion("a".to_string(), done("y")).is_none());
    let delivery = driver.add_waiter_or_complete("a".to_string(), 1).unwrap();
    assert_eq!(text_of(delivery.completion), "y");
}

#[test]
fn the_last_waiter_is_kept() {
    let mut driver = driver();
    assert!(driver.add_waiter_or_complete("a".to_string(), 1).is_none());
    assert!(driver.add_waiter_or_complete("a".to_string(), 2).is_none());
    assert_eq!(driver.deliver_completion("a".to_string(), done("x")).unwrap().waiter, 2);
}

#[test]
fn handing_out_a_task_counts_the_agent_and_waits_for_it() {
    let mut driver = driver();
    let task = driver.spawn_task(Ok("a".to_string()), 1).unwrap();
    assert_eq!(task.task_id, "a");
    assert!(task.delivery.is_none());
    assert!(driver.deliver_completion("b".to_string(), done("early")).is_none());
    let task = driver.spawn_task(Ok("b".to_string()), 2).unwrap();
    assert_eq!(text_of(task.delivery.unwrap().completion), "early");
    match driver.spawn_task(Err("no room".to_string()), 3) {
        Err(DriverError::Rejected(reason)) => assert_eq!(reason, "no room"),
        other => panic!("{:?}", other),
    }
    let orders = driver.cancel_all();
    assert_eq!(orders.child_ids, ["a", "b"]);
    assert_eq!(let_go(orders), [("a".to_string(), 1)]);
}

#[test]
fn cancelling_lets_every_waiter_go_and_keeps_the_rest() {
    let mut driver = driver();
    driver.record_child("a");
    driver.record_child("b");
    driver.record_child("a");
    assert!(driver.add_waiter_or_complete("a".to_string(), 1).is_none());
    assert!(driver.add_waiter_or_complete("b".to_string(), 2).is_none());
    assert!(driver.deliver_completion("c".to_string(), done("kept")).is_none());
    let orders = driver.force_cancel_all();
    assert_eq!(orders.child_ids, ["a", "b"]);
    assert_eq!(let_go(orders), [("a".to_string(), 1), ("b".to_string(), 2)]);
    let again = driver.force_cancel_all();
    assert_eq!(again.child_ids, ["a", "b"]);
    assert!(again.deliveries.is_empty());
    assert!(driver.deliver_completion("a".to_string(), done("late")).is_none());
    assert!(driver.add_waiter_or_complete("c".to_string(), 3).is_some());
}

#[test]
fn the_budget_is_what_it_was_made_with() {
    let mut driver = driver();
    driver.record_child("a");
    let _ = driver.force_cancel_all();
    assert_eq!(driver.budget().total, Some(100));
    assert_eq!(driver.budget().spent, 0);
    assert_eq!(driver.run_id(), "workflow_1");
    let none: SubAgentWorkflowDriver<u8> = SubAgentWorkflowDriver::new("x".to_string(), None);
    assert_eq!(none.budget().total, None);
}

#[test]
fn progress_lines_say_what_they_are() {
    assert_eq!(progress_line(&ProgressEvent::Log { message: "m".to_string() }), "log: m");
    assert_eq!(progress_line(&ProgressEvent::Phase { title: "t".to_string() }), "phase: t");
}

#[test]
fn an_agent_that_ended_shows_how() {
    let end = |status, result| completion_from_snapshot(snapshot(status, result), "report".to_string());
    assert_eq!(text_of(end(SubAgentStatus::Completed, Some("result")).unwrap()), "result");
    assert_eq!(text_of(end(SubAgentStatus::Completed, None).unwrap()), "report");
    match end(SubAgentStatus::Failed("bad".to_string()), None) {
        Ok(TaskCompletion::Failed { message }) => assert_eq!(message, "bad"),
        other => panic!("{:?}", other),
    }
    match end(SubAgentStatus::Interrupted("stopped".to_string()), Some("x")) {
        Ok(TaskCompletion::Failed { message }) => assert_eq!(message, "stopped"),
        other => panic!("{:?}", other),
    }
    assert!(matches!(end(SubAgentStatus::Cancelled, None), Ok(TaskCompletion::Cancelled)));
    match end(SubAgentStatus::BudgetExhausted, None) {
        Ok(TaskCompletion::BudgetExhausted { message }) => {
            assert_eq!(message, "sub-agent budget exhausted")
        }
        other => panic!("{:?}", other),
    }
    assert_eq!(end(SubAgentStatus::Running, Some("x")).unwrap_err(), "report");
    assert_eq!(completion_from_snapshot(None, "r".to_string()).unwrap_err(), "r");
}

#[test]
fn a_search_takes_the_report_after_fifty_lookups() {
    let mut search = CompletionSearch::begin("report".to_string());
    let mut lookups = 0;
    let text = loop {
        match search {
            CompletionSearch::Found(completion) => break text_of(completion),
            looking => {
                let seen = if lookups % 2 == 0 { None } else { snapshot(SubAgentStatus::Running, None) };
                let step = looking.look_up(seen);
                assert_eq!(step.pause_ms, 20);
                lookups += 1;
                search = step.search;
            }
        }
    };
    assert_eq!(lookups, 50);
    assert_eq!(text, "report");
}

#[test]
fn a_search_takes_the_first_end() {
    let step = CompletionSearch::begin("report".to_string()).look_up(None);
    assert_eq!(step.pause_ms, 20);
    let step = step.search.look_up(snapshot(SubAgentStatus::Completed, Some("first")));
    assert_eq!(step.pause_ms, 0);
    let step = step.search.look_up(snapshot(SubAgentStatus::Completed, Some("second")));
    assert_eq!(step.pause_ms, 0);
    match step.search {
        CompletionSearch::Found(completion) => assert_eq!(text_of(completion), "first"),
        other => panic!("{:?}", other),
    }
}

#[test]
fn agents_are_stopped_now_later_or_not_at_all() {
    let ids = || vec!["a".to_string(), "b".to_string()];
    assert!(matches!(cancel_child_agents(Vec::new(), true, true), ChildCancellation::Nothing));
    match cancel_child_agents(ids(), true, false) {
        ChildCancellation::Now(stopped) => assert_eq!(stopped, ids()),
        other => panic!("{:?}", other),
    }
    match cancel_child_agents(ids(), false, true) {
        ChildCancellation::Later(stopped) => assert_eq!(stopped, ids()),
        other => panic!("{:?}", other),
    }
    assert!(matches!(cancel_child_agents(ids(), false, false), ChildCancellation::Never));
}

#[test]
fn a_cancelled_run_hands_out_no_task() {
    let mut driver = driver();
    assert!(driver.may_spawn().is_ok());
    assert!(driver.spawn_task(Ok("a".to_string()), 1).is_ok());
    assert!(driver.stray_agent(&Ok("b".to_string())).is_none());
    let _ = driver.force_cancel_all();
    match driver.may_spawn() {
        Err(DriverError::Rejected(reason)) => assert_eq!(reason, "workflow run was cancelled"),
        Ok(()) => panic!("the run has been cancelled"),
    }
    assert_eq!(driver.stray_agent(&Ok("b".to_string())), Some("b".to_string()));
    assert_eq!(driver.stray_agent(&Err("no room".to_string())), None);
    match driver.spawn_task(Ok("b".to_string()), 2) {
        Err(DriverError::Rejected(reason)) => assert_eq!(reason, "workflow run was cancelled"),
        other => panic!("{:?}", other),
    }
    match driver.spawn_task(Err("no room".to_string()), 3) {
        Err(DriverError::Rejected(reason)) => assert_eq!(reason, "no room"),
        other => panic!("{:?}", other),
    }
    let again = driver.force_cancel_all();
    assert_eq!(again.child_ids, ["a"]);
    assert!(again.deliveries.is_empty());
    assert!(driver.may_spawn().is_err());
}

#[test]
fn an_engine_that_lets_everyone_go_may_hand_out_tasks() {
    let mut driver = driver();
    assert!(driver.spawn_task(Ok("a".to_string()), 1).is_ok());
    assert_eq!(let_go(driver.cancel_all()), [("a".to_string(), 1)]);
    assert!(driver.may_spawn().is_ok());
    assert!(driver.spawn_task(Ok("b".to_string()), 2).is_ok());
    assert_eq!(driver.cancel_all().child_ids, ["a", "b"]);
}

#[test]
fn a_task_without_a_budget_has_that_of_its_run() {
    let driver = driver();
    assert_eq!(driver.child_token_budget(None), Some(100));
    assert_eq!(driver.child_token_budget(Some(7)), Some(7));
    let free: SubAgentWorkflowDriver<u8> = SubAgentWorkflowDriver::new("x".to_string(), None);
    assert_eq!(free.child_token_budget(None), None);
    assert_eq!(free.child_token_budget(Some(7)), Some(7));
}

#[test]
fn a_driver_has_the_budget_of_its_run() {
    let input = serde_json::from_str(r#"{"token_budget": 42}"#).unwrap();
    let source = WorkflowSource { source: "return 1;".to_string(), path: None };
    let request = StartRequest::new(&input, source);
    let driver: SubAgentWorkflowDriver<u8> =
        SubAgentWorkflowDriver::for_request("workflow_1".to_string(), &request);
    assert_eq!(driver.budget().total, request.token_budget);
    assert_eq!(driver.budget().total, Some(42));
    assert_eq!(driver.run_id(), "workflow_1");
}
