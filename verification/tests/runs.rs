use serde_json::Value;
use workflow_runner::document::ToolResult;
use workflow_runner::driver::{DriverError, ProgressEvent, SubAgentWorkflowDriver};
use workflow_runner::error::ToolError;
use workflow_runner::record::{WorkflowRunRecord, WorkflowRunStatus};
use workflow_runner::request::StartRequest;
use workflow_runner::source::{SourcePath, WorkflowSource};
use workflow_runner::tool::WorkflowTool;

type Tool = WorkflowTool<(), (), &'static str>;

fn json(text: &str) -> Value {
    serde_json::from_str(text).unwrap()
}

fn path(components: &[&str], is_utf8: bool) -> SourcePath {
    SourcePath {
        components: components.iter().map(|c| c.as_bytes().to_vec()).collect(),
        display: format!("/{}", components[1..].join("/")),
        is_utf8,
    }
}

fn record(run_id: &str, started_at_ms: u64) -> WorkflowRunRecord {
    WorkflowRunRecord::new_at(run_id.to_string(), None, None, started_at_ms)
}

fn tool_with(runs: &[(&str, u64)]) -> Tool {
    let mut tool: Tool = WorkflowTool::new((), ());
    for (run_id, at) in runs {
        tool.admit_run(record(run_id, *at), "controller");
    }
    tool
}

fn doc(answer: Result<ToolResult, ToolError>) -> Value {
    json(&answer.unwrap().content)
}

#[test]
fn a_started_run_is_reported_as_running() {
    let mut tool: Tool = WorkflowTool::new((), ());
    let record = WorkflowRunRecord::new_at(
        "workflow_1".to_string(),
        Some(path(&["/", "work", "a.js"], true)),
        Some(500),
        1_000,
    );
    tool.admit_run(record, "driver");
    let answer = tool.workflow_result_for("workflow_1").unwrap();
    assert_eq!(
        answer.content,
        r#"{
  "run_id": "workflow_1",
  "status": "running",
  "started_at_ms": 1000,
  "completed_at_ms": null,
  "source_path": "/work/a.js",
  "token_budget": 500,
  "child_ids": [],
  "progress": [],
  "result": null,
  "error": null
}"#
    );
    assert_eq!(
        answer.metadata,
        Some(json(
            r#"{"run_id": "workflow_1", "status": "running", "terminal": false, "child_count": 0}"#
        ))
    );
}

#[test]
fn starting_takes_the_time_and_the_request() {
    let mut tool: Tool = WorkflowTool::new((), ());
    let source = WorkflowSource {
        source: "return 1;".to_string(),
        path: Some(path(&["/", "w", "x.js"], true)),
    };
    let request = StartRequest::new(&json(r#"{"token_budget": 7}"#), source);
    tool.start_workflow("workflow_2".to_string(), &request, "driver");
    let report = doc(tool.workflow_result_for("workflow_2"));
    assert_eq!(report["status"], "running");
    assert_eq!(report["token_budget"], 7);
    assert_eq!(report["source_path"], "/w/x.js");
    assert!(report["started_at_ms"].as_u64().unwrap() > 1_500_000_000_000);
    assert_eq!(tool.take_controller("workflow_2"), Some("driver"));
}

#[test]
fn a_run_with_one_child_completes_with_its_result() {
    let mut tool = tool_with(&[("workflow_1", 10)]);
    tool.record_child("workflow_1", "agent_1");
    tool.record_child("workflow_1", "agent_1");
    tool.finish_run_at("workflow_1", Ok(json(r#"{"out": "child done"}"#)), 20);
    let answer = tool.workflow_result_for("workflow_1").unwrap();
    let payload = json(&answer.content);
    assert_eq!(payload["status"], "completed");
    assert_eq!(payload["result"]["out"], "child done");
    assert_eq!(payload["child_ids"].as_array().unwrap().len(), 1);
    assert_eq!(payload["child_ids"][0], "agent_1");
    assert_eq!(payload["completed_at_ms"], 20);
    assert_eq!(payload["error"], Value::Null);
    let metadata = answer.metadata.unwrap();
    assert_eq!(metadata["terminal"], true);
    assert_eq!(metadata["child_count"], 1);
    assert_eq!(tool.take_controller("workflow_1"), None);
}

#[test]
fn a_script_that_fails_leaves_its_error() {
    let mut tool = tool_with(&[("workflow_1", 10)]);
    tool.run_workflow_vm("workflow_1", Err("boom".to_string()));
    let report = doc(tool.workflow_result_for("workflow_1"));
    assert_eq!(report["status"], "failed");
    assert_eq!(report["error"], "boom");
    assert_eq!(report["result"], Value::Null);
    assert!(report["completed_at_ms"].as_u64().unwrap() > 1_500_000_000_000);
}

#[test]
fn a_cancelled_run_stays_cancelled() {
    let mut tool = tool_with(&[("workflow_1", 10)]);
    assert_eq!(tool.take_controller("workflow_1"), Some("controller"));
    assert_eq!(tool.take_controller("workflow_1"), None);
    let report = doc(tool.cancel_run_at("workflow_1", 30));
    assert_eq!(report["status"], "cancelled");
    assert_eq!(report["completed_at_ms"], 30);
    assert_eq!(report["error"], "cancelled by workflow tool");
    tool.finish_run_at("workflow_1", Ok(json("1")), 40);
    tool.record_child("workflow_1", "late");
    assert_eq!(doc(tool.workflow_result_for("workflow_1"))["completed_at_ms"], 30);
    let report = doc(tool.workflow_result_for("workflow_1"));
    assert_eq!(report["status"], "cancelled");
    assert_eq!(report["result"], Value::Null);
    assert_eq!(report["child_ids"], json(r#"["late"]"#));
}

#[test]
fn a_completed_run_can_still_be_cancelled() {
    let mut tool = tool_with(&[("workflow_1", 10)]);
    tool.finish_run_at("workflow_1", Ok(json("5")), 20);
    let report = doc(tool.cancel_workflow("workflow_1"));
    assert_eq!(report["status"], "cancelled");
    assert_eq!(report["result"], 5);
}

#[test]
fn a_run_that_is_not_known_is_an_invalid_input() {
    let mut tool = tool_with(&[("workflow_1", 10)]);
    let unknown = |error: ToolError| match error {
        ToolError::InvalidInput { message } => {
            assert_eq!(message, "Unknown workflow run_id 'nope'")
        }
        other => panic!("{:?}", other),
    };
    unknown(tool.workflow_result_for("nope").unwrap_err());
    unknown(tool.cancel_run_at("nope", 1).unwrap_err());
    unknown(tool.status_workflow(&json(r#"{"run_id": "nope"}"#)).unwrap_err());
    tool.record_child("nope", "agent");
    tool.progress("nope", &ProgressEvent::Log { message: "x".to_string() });
    tool.finish_run_at("nope", Err("x".to_string()), 2);
    let list = doc(tool.status_workflow(&json("{}")));
    assert_eq!(list["count"], 1);
    assert_eq!(list["runs"][0]["child_ids"], json("[]"));
    assert_eq!(list["runs"][0]["status"], "running");
}

#[test]
fn progress_is_kept_line_by_line() {
    let mut tool = tool_with(&[("workflow_1", 10)]);
    tool.progress("workflow_1", &ProgressEvent::Phase { title: "plan".to_string() });
    tool.progress("workflow_1", &ProgressEvent::Log { message: "hello".to_string() });
    tool.progress("workflow_1", &ProgressEvent::Log { message: "hello".to_string() });
    assert_eq!(
        doc(tool.workflow_result_for("workflow_1"))["progress"],
        json(r#"["phase: plan", "log: hello", "log: hello"]"#)
    );
}

#[test]
fn runs_are_listed_by_their_start() {
    let tool = tool_with(&[("c", 30), ("a", 10), ("d", 40), ("b", 20), ("e", 5)]);
    let answer = tool.status_workflow(&json(r#"{"action": "status"}"#)).unwrap();
    assert_eq!(answer.metadata, None);
    let list = json(&answer.content);
    assert_eq!(list["action"], "status");
    assert_eq!(list["count"], 5);
    let ids: Vec<&str> = list["runs"]
        .as_array()
        .unwrap()
        .iter()
        .map(|run| run["run_id"].as_str().unwrap())
        .collect();
    assert_eq!(ids, ["e", "a", "b", "c", "d"]);
}

#[test]
fn an_empty_tool_lists_nothing() {
    let tool = tool_with(&[]);
    let answer = tool.status_workflow(&json("{}")).unwrap();
    assert_eq!(
        answer.content,
        "{\n  \"action\": \"status\",\n  \"count\": 0,\n  \"runs\": []\n}"
    );
}

#[test]
fn runs_of_one_millisecond_are_all_listed() {
    let tool = tool_with(&[("a", 1), ("b", 1), ("c", 1)]);
    let list = doc(tool.status_workflow(&json("{}")));
    let mut ids: Vec<String> = list["runs"]
        .as_array()
        .unwrap()
        .iter()
        .map(|run| run["run_id"].as_str().unwrap().to_string())
        .collect();
    ids.sort();
    assert_eq!(ids, ["a", "b", "c"]);
}

#[test]
fn a_run_under_a_known_id_takes_its_place() {
    let mut tool = tool_with(&[("a", 1)]);
    tool.finish_run_at("a", Err("x".to_string()), 2);
    tool.admit_run(record("a", 9), "second");
    let list = doc(tool.status_workflow(&json("{}")));
    assert_eq!(list["count"], 1);
    assert_eq!(list["runs"][0]["started_at_ms"], 9);
    assert_eq!(list["runs"][0]["status"], "running");
    assert_eq!(tool.take_controller("a"), Some("second"));
}

#[test]
fn one_run_leaves_the_others_alone() {
    let mut tool = tool_with(&[("a", 1), ("b", 2)]);
    let before = doc(tool.workflow_result_for("b"));
    tool.record_child("a", "x");
    tool.finish_run_at("a", Ok(json("1")), 3);
    assert_eq!(doc(tool.workflow_result_for("b")), before);
    assert_eq!(tool.take_controller("b"), Some("controller"));
}

#[test]
fn a_path_that_is_not_utf8_cannot_be_reported() {
    let mut tool: Tool = WorkflowTool::new((), ());
    assert!(tool.all_paths_utf8());
    tool.admit_run(
        WorkflowRunRecord::new_at("a".to_string(), Some(path(&["/", "?"], false)), None, 1),
        "driver",
    );
    assert!(!tool.all_paths_utf8());
    match tool.workflow_result_for("a") {
        Err(ToolError::ExecutionFailed { message }) => {
            assert_eq!(message, "path contains invalid UTF-8 characters")
        }
        other => panic!("{:?}", other),
    }
}

#[test]
fn statuses_have_names() {
    assert_eq!(WorkflowRunStatus::Running.name(), "running");
    assert_eq!(WorkflowRunStatus::Completed.name(), "completed");
    assert_eq!(WorkflowRunStatus::Failed.name(), "failed");
    assert_eq!(WorkflowRunStatus::Cancelled.name(), "cancelled");
    assert!(!WorkflowRunStatus::Running.is_terminal());
    assert!(WorkflowRunStatus::Cancelled.is_terminal());
}

#[test]
fn cancelling_stops_the_children_that_are_reported() {
    let mut tool = tool_with(&[("a", 1)]);
    let mut driver: SubAgentWorkflowDriver<u8> = SubAgentWorkflowDriver::new("a".to_string(), None);
    for agent_id in ["x", "y", "x", "z", "y"] {
        let task = tool.spawn_task(&mut driver, Ok(agent_id.to_string()), 0).unwrap();
        assert_eq!(task.task_id, agent_id);
    }
    match tool.spawn_task(&mut driver, Err("no room".to_string()), 0) {
        Err(DriverError::Rejected(reason)) => assert_eq!(reason, "no room"),
        other => panic!("{:?}", other),
    }
    assert_eq!(driver.force_cancel_all().child_ids, ["x", "y", "z"]);
    let report = doc(tool.cancel_run_at("a", 2));
    assert_eq!(report["child_ids"], json(r#"["x", "y", "z"]"#));
    assert!(tool.spawn_task(&mut driver, Ok("late".to_string()), 0).is_err());
    assert_eq!(doc(tool.workflow_result_for("a")), report);
    assert_eq!(driver.force_cancel_all().child_ids, ["x", "y", "z"]);
}

#[test]
fn a_second_cancelling_changes_the_time_alone() {
    let mut tool = tool_with(&[("a", 1)]);
    let mut first = doc(tool.cancel_run_at("a", 2));
    let second = doc(tool.cancel_run_at("a", 3));
    assert_eq!(second["completed_at_ms"], 3);
    first["completed_at_ms"] = Value::from(3);
    assert_eq!(first, second);
}

#[test]
fn a_run_keeps_what_it_began_with() {
    let mut tool: Tool = WorkflowTool::new((), ());
    tool.admit_run(
        WorkflowRunRecord::new_at(
            "a".to_string(),
            Some(path(&["/", "w", "a.js"], true)),
            Some(9),
            5,
        ),
        "driver",
    );
    let began = doc(tool.workflow_result_for("a"));
    tool.record_child("a", "x");
    tool.progress("a", &ProgressEvent::Log { message: "m".to_string() });
    tool.finish_run_at("a", Err("boom".to_string()), 6);
    let ended = doc(tool.workflow_result_for("a"));
    assert_eq!(ended["status"], "failed");
    tool.record_child("a", "y");
    let cancelled = doc(tool.cancel_run_at("a", 7));
    assert_eq!(cancelled["status"], "cancelled");
    for key in ["run_id", "started_at_ms", "source_path", "token_budget"] {
        assert_eq!(ended[key], began[key]);
        assert_eq!(cancelled[key], began[key]);
    }
    assert_eq!(cancelled["child_ids"], json(r#"["x", "y"]"#));
    assert_eq!(cancelled["progress"], json(r#"["log: m"]"#));
}

#[test]
fn a_cancelled_run_has_no_controller() {
    let mut tool = tool_with(&[("a", 1), ("b", 2)]);
    assert!(tool.cancel_run_at("a", 3).is_ok());
    assert_eq!(tool.take_controller("a"), None);
    assert_eq!(tool.take_controller("b"), Some("controller"));
}
