use serde_json::Value;
use workflow_runner::action::{action_from_text, parse_workflow_action, WorkflowAction};
use workflow_runner::error::ToolError;
use workflow_runner::json::{optional_bool, optional_json, optional_str, optional_u64};
use workflow_runner::request::{
    new_run_id, parse_command, run_id_from, StartRequest, WorkflowCommand,
};
use workflow_runner::source::{plan_source, workflow_source, SourcePlan, WorkflowSource};
use workflow_runner::tool::{ApprovalRequirement, ToolCapability, WorkflowTool};

fn json(text: &str) -> Value {
    serde_json::from_str(text).unwrap()
}

fn tool() -> WorkflowTool<u8, u8, u8> {
    WorkflowTool::new(1, 2)
}

fn message(error: ToolError) -> String {
    match error {
        ToolError::InvalidInput { message } => message,
        other => panic!("not an invalid input: {:?}", other),
    }
}

#[test]
fn workflow_action_defaults_to_start() {
    assert_eq!(
        parse_workflow_action(&json("{}")).unwrap(),
        WorkflowAction::Start
    );
    assert_eq!(
        parse_workflow_action(&json(r#"{"action": "run"}"#)).unwrap(),
        WorkflowAction::Run
    );
}

#[test]
fn inline_script_and_source_path_are_mutually_exclusive() {
    let err = workflow_source(&json(
        r#"{"script": "return 1;", "source_path": "workflow.js"}"#,
    ))
    .unwrap_err();
    assert!(message(err).contains("either script or source_path"));
}

#[test]
fn every_word_has_its_action() {
    let cases = [
        ("", WorkflowAction::Start),
        ("start", WorkflowAction::Start),
        ("spawn", WorkflowAction::Start),
        ("run", WorkflowAction::Run),
        ("wait", WorkflowAction::Run),
        ("status", WorkflowAction::Status),
        ("list", WorkflowAction::Status),
        ("inspect", WorkflowAction::Status),
        ("cancel", WorkflowAction::Cancel),
        ("stop", WorkflowAction::Cancel),
        ("abort", WorkflowAction::Cancel),
    ];
    for (word, action) in cases {
        assert_eq!(action_from_text(Some(word)).unwrap(), action);
    }
    assert_eq!(action_from_text(None).unwrap(), WorkflowAction::Start);
}

#[test]
fn case_and_white_space_do_not_matter() {
    for text in [" Run ", "RUN", "\trUn\n", "\u{3000}run\u{a0}", "run\u{2003}"] {
        assert_eq!(action_from_text(Some(text)).unwrap(), WorkflowAction::Run);
    }
    assert_eq!(action_from_text(Some(" \u{85} ")).unwrap(), WorkflowAction::Start);
    assert!(action_from_text(Some("r un")).is_err());
    assert!(action_from_text(Some("run\u{200b}")).is_err());
}

#[test]
fn an_unknown_action_is_named_in_the_error() {
    let err = parse_workflow_action(&json(r#"{"action": " ReStartÄ "}"#)).unwrap_err();
    assert_eq!(
        message(err),
        "Invalid workflow action 'restart\u{c4}'. Use start, run, status, or cancel."
    );
}

#[test]
fn an_action_that_is_no_text_counts_as_missing() {
    assert_eq!(
        parse_workflow_action(&json(r#"{"action": 7}"#)).unwrap(),
        WorkflowAction::Start
    );
    assert_eq!(parse_workflow_action(&json("[]")).unwrap(), WorkflowAction::Start);
    assert_eq!(parse_workflow_action(&Value::Null).unwrap(), WorkflowAction::Start);
}

#[test]
fn fields_are_read_by_their_kind() {
    let input = json(r#"{"t": "x", "b": true, "n": 18446744073709551615, "neg": -1, "f": 1.5}"#);
    assert_eq!(optional_str(&input, "t"), Some("x"));
    assert_eq!(optional_str(&input, "b"), None);
    assert_eq!(optional_str(&input, "missing"), None);
    assert!(optional_bool(&input, "b", false));
    assert!(!optional_bool(&input, "t", false));
    assert!(optional_bool(&input, "missing", true));
    assert_eq!(optional_u64(&input, "n", 3), u64::MAX);
    assert_eq!(optional_u64(&input, "neg", 3), 3);
    assert_eq!(optional_u64(&input, "f", 3), 3);
    assert_eq!(optional_u64(&input, "missing", 3), 3);
    assert_eq!(optional_json(&input, "f"), Some(json("1.5")));
    assert_eq!(optional_json(&input, "missing"), None);
    assert_eq!(optional_json(&json("[1]"), "f"), None);
}

#[test]
fn commands_carry_what_they_need() {
    assert!(matches!(
        parse_command(&json("{}")),
        Ok(WorkflowCommand::Start { wait: false })
    ));
    assert!(matches!(
        parse_command(&json(r#"{"wait": true}"#)),
        Ok(WorkflowCommand::Start { wait: true })
    ));
    assert!(matches!(
        parse_command(&json(r#"{"action": "run", "wait": false}"#)),
        Ok(WorkflowCommand::Start { wait: true })
    ));
    assert!(matches!(
        tool().execute(&json(r#"{"action": "list"}"#)),
        Ok(WorkflowCommand::Status)
    ));
    match parse_command(&json(r#"{"action": "stop", "run_id": "workflow_1"}"#)) {
        Ok(WorkflowCommand::Cancel { run_id }) => assert_eq!(run_id, "workflow_1"),
        other => panic!("{:?}", other),
    }
    match parse_command(&json(r#"{"action": "cancel"}"#)) {
        Err(ToolError::MissingField { field }) => assert_eq!(field, "run_id"),
        other => panic!("{:?}", other),
    }
    assert!(parse_command(&json(r#"{"action": "pause"}"#)).is_err());
}

#[test]
fn only_reading_needs_no_approval() {
    let tool = tool();
    for text in [
        "{}",
        r#"{"action": "run"}"#,
        r#"{"action": "cancel", "run_id": "x"}"#,
        r#"{"action": "what"}"#,
        r#"{"wait": true}"#,
    ] {
        let input = json(text);
        assert_eq!(tool.approval_requirement_for(&input), ApprovalRequirement::Required);
        assert!(!tool.supports_parallel_for(&input));
        assert!(!tool.is_read_only_for(&input));
    }
    let status = json(r#"{"action": "Status"}"#);
    assert_eq!(tool.approval_requirement_for(&status), ApprovalRequirement::Auto);
    assert!(tool.supports_parallel_for(&status));
    assert!(tool.is_read_only_for(&status));
    assert!(!tool.starts_detached_for(&status));
    assert_eq!(tool.approval_requirement(), ApprovalRequirement::Required);
}

#[test]
fn only_a_start_without_waiting_is_detached() {
    let tool = tool();
    assert!(tool.starts_detached_for(&json("{}")));
    assert!(tool.starts_detached_for(&json(r#"{"action": "spawn", "wait": "yes"}"#)));
    assert!(!tool.starts_detached_for(&json(r#"{"wait": true}"#)));
    assert!(!tool.starts_detached_for(&json(r#"{"action": "run"}"#)));
    assert!(!tool.starts_detached_for(&json(r#"{"action": "what"}"#)));
}

#[test]
fn the_tool_describes_itself() {
    let tool = tool();
    assert_eq!(tool.name(), "workflow");
    assert_eq!(
        tool.description(),
        "Start, run, inspect, or cancel a Workflow. Workflows execute deterministic JS with args, phase/log progress, and task(...) calls that dispatch real sub-agents through Fleet/sub-agent scheduling. Use action=start for detached orchestration and action=status with run_id to inspect progress. Use action=run when the model needs the final result before continuing."
    );
    assert_eq!(
        tool.capabilities(),
        vec![ToolCapability::ExecutesCode, ToolCapability::RequiresApproval]
    );
    assert_eq!(*tool.manager(), 1);
    assert_eq!(*tool.runtime(), 2);
}

#[test]
fn the_schema_is_the_documented_one() {
    let schema = tool().input_schema();
    let expected = json(
        r#"{
            "type": "object",
            "properties": {
                "action": {
                    "type": "string",
                    "enum": ["start", "run", "status", "cancel"],
                    "description": "start (default) launches a Workflow in the background. run waits for completion. status lists runs or inspects run_id. cancel stops a run and its child agents."
                },
                "run_id": {
                    "type": "string",
                    "description": "Workflow run id for action=status or action=cancel."
                },
                "script": {
                    "type": "string",
                    "description": "Workflow JS source. The runtime provides args, task(...), parallel(...), pipeline(...), log(...), phase(...), and budget."
                },
                "source_path": {
                    "type": "string",
                    "description": "Path to a .workflow.js script inside the workspace. Use instead of script for checked-in workflows."
                },
                "args": {
                    "description": "JSON value exposed to the script as args. Defaults to null."
                },
                "token_budget": {
                    "type": "integer",
                    "minimum": 1,
                    "description": "Optional shared Workflow budget hint and default child token budget ceiling."
                },
                "wait": {
                    "type": "boolean",
                    "description": "For action=start, wait for completion instead of returning immediately."
                }
            },
            "required": [],
            "additionalProperties": false
        }"#,
    );
    assert_eq!(schema, expected);
    let names: Vec<&String> = schema["properties"].as_object().unwrap().keys().collect();
    assert_eq!(
        names,
        ["action", "run_id", "script", "source_path", "args", "token_budget", "wait"]
    );
    for name in schema["properties"]["action"]["enum"].as_array().unwrap() {
        assert!(action_from_text(name.as_str()).is_ok());
    }
}

#[test]
fn a_script_is_in_the_request_or_in_a_file() {
    match workflow_source(&json(r#"{"source": " return 1; "}"#)) {
        Ok(SourcePlan::Inline { source }) => assert_eq!(source, " return 1; "),
        other => panic!("{:?}", other),
    }
    match workflow_source(&json(r#"{"script": "a", "source": "b"}"#)) {
        Ok(SourcePlan::Inline { source }) => assert_eq!(source, "a"),
        other => panic!("{:?}", other),
    }
    match workflow_source(&json(r#"{"path": "w.js"}"#)) {
        Ok(SourcePlan::File { path }) => assert_eq!(path, "w.js"),
        other => panic!("{:?}", other),
    }
    match workflow_source(&json(r#"{"source_path": "", "path": "w.js"}"#)) {
        Ok(SourcePlan::File { path }) => assert_eq!(path, ""),
        other => panic!("{:?}", other),
    }
    for input in ["{}", r#"{"script": " \n\t"}"#, r#"{"script": ""}"#, r#"{"script": 1}"#] {
        match workflow_source(&json(input)) {
            Err(ToolError::MissingField { field }) => assert_eq!(field, "script"),
            other => panic!("{:?}", other),
        }
    }
    assert!(plan_source(Some(""), Some("w.js")).is_err());
}

#[test]
fn a_start_takes_arguments_and_a_budget() {
    let source = || WorkflowSource { source: "return 1;".to_string(), path: None };
    let request = StartRequest::new(&json(r#"{"args": {"n": [1, 2.5]}, "token_budget": 9}"#), source());
    assert_eq!(request.args, json(r#"{"n": [1, 2.5]}"#));
    assert_eq!(request.token_budget, Some(9));
    assert_eq!(request.source.source, "return 1;");
    let request = StartRequest::new(&json(r#"{"token_budget": 0}"#), source());
    assert_eq!(request.args, Value::Null);
    assert_eq!(request.token_budget, None);
    assert_eq!(StartRequest::new(&json("{}"), source()).token_budget, None);
    assert_eq!(StartRequest::new(&json(r#"{"token_budget": -5}"#), source()).token_budget, None);
}

#[test]
fn run_ids_have_a_word_and_eight_digits() {
    assert_eq!(
        run_id_from("46ebd0ee-0e6d-43c9-b90d-ccc35a913f3e"),
        "workflow_46ebd0ee"
    );
    let run_id = new_run_id();
    assert_eq!(run_id.len(), 17);
    let digits = run_id.strip_prefix("workflow_").unwrap();
    assert!(digits.chars().all(|c| c.is_ascii_digit() || ('a'..='f').contains(&c)));
    assert_ne!(run_id, new_run_id());
}
