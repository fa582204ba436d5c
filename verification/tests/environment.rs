use std::sync::{Arc, Mutex};
use std::time::{Duration, UNIX_EPOCH};
use workflow_runner::clock::{now_ms, unix_ms};
use workflow_runner::error::ToolError;
use workflow_runner::source::{
    file_read, path_resolved, source_target, workspace_resolved, SourcePath, SourceStep,
    SourceTarget,
};
use workflow_runner::sync::{lock_mutex, unless_poisoned};
use workflow_runner::table::Table;
use workflow_runner::text::{join4, same_text};

fn path(components: &[&str]) -> SourcePath {
    SourcePath {
        components: components.iter().map(|c| c.as_bytes().to_vec()).collect(),
        display: format!("/{}", components[1..].join("/")),
        is_utf8: true,
    }
}

#[test]
fn instants_are_whole_milliseconds_since_the_epoch() {
    assert_eq!(unix_ms(&UNIX_EPOCH), 0);
    assert_eq!(unix_ms(&(UNIX_EPOCH + Duration::from_nanos(1_999_999))), 1);
    assert_eq!(unix_ms(&(UNIX_EPOCH + Duration::from_millis(1_234))), 1_234);
    assert_eq!(unix_ms(&(UNIX_EPOCH - Duration::from_millis(5))), 0);
}

#[test]
fn the_clock_has_left_the_epoch() {
    let before = now_ms();
    assert!(before > 1_500_000_000_000);
    assert!(before < 100_000_000_000_000);
}

#[test]
fn a_lock_is_handed_out() {
    let mutex = Mutex::new(5);
    {
        let mut guard = lock_mutex(&mutex).unwrap();
        *guard += 1;
    }
    assert_eq!(*lock_mutex(&mutex).unwrap(), 6);
    assert_eq!(unless_poisoned(Some(1)).unwrap(), 1);
}

#[test]
fn a_poisoned_lock_is_an_error() {
    let mutex = Arc::new(Mutex::new(5));
    let other = mutex.clone();
    let runtime = tokio::runtime::Builder::new_current_thread().build().unwrap();
    let ended = runtime.block_on(async move {
        tokio::spawn(async move {
            let _guard = other.lock().unwrap();
            panic!("while the lock is held");
        })
        .await
    });
    assert!(ended.is_err());
    match lock_mutex(&mutex) {
        Err(ToolError::ExecutionFailed { message }) => {
            assert_eq!(message, "workflow state lock poisoned")
        }
        Err(other) => panic!("{:?}", other),
        Ok(_) => panic!("the lock is poisoned"),
    }
    assert!(unless_poisoned::<u8>(None).is_err());
}

#[test]
fn a_file_outside_the_workspace_is_refused() {
    let outside = path(&["/", "etc", "passwd"]);
    let step = path_resolved("../etc/passwd", false, Ok(outside)).unwrap();
    let file = match step {
        SourceStep::ResolveWorkspace { path } => path,
        other => panic!("{:?}", other),
    };
    match workspace_resolved(file, Some(path(&["/", "work"])), path(&["/", "w"])) {
        Err(ToolError::PermissionDenied { message }) => assert_eq!(
            message,
            "workflow source_path must stay inside the workspace: /etc/passwd"
        ),
        other => panic!("{:?}", other),
    }
}

#[test]
fn a_file_inside_the_workspace_is_read() {
    let inside = || path(&["/", "work", "flows", "a.js"]);
    for root in [path(&["/", "work"]), path(&["/"]), inside()] {
        match workspace_resolved(inside(), Some(root), path(&["/", "elsewhere"])) {
            Ok(SourceStep::ReadFile { path }) => assert_eq!(path.display, "/work/flows/a.js"),
            other => panic!("{:?}", other),
        }
    }
    let source = file_read(inside(), Ok("return 1;".to_string())).unwrap();
    assert_eq!(source.source, "return 1;");
    assert_eq!(source.path.unwrap().display, "/work/flows/a.js");
}

#[test]
fn whole_components_have_to_match() {
    assert!(!path(&["/", "workshop", "a.js"]).lies_inside(&path(&["/", "work"])));
    assert!(!path(&["/", "work"]).lies_inside(&path(&["/", "work", "a.js"])));
    assert!(path(&["/", "work"]).lies_inside(&path(&["/", "work"])));
}

#[test]
fn a_workspace_that_cannot_be_resolved_stands_for_itself() {
    let file = || path(&["/", "work", "a.js"]);
    assert!(workspace_resolved(file(), None, path(&["/", "work"])).is_ok());
    assert!(workspace_resolved(file(), None, path(&["/", "other"])).is_err());
}

#[test]
fn with_trust_any_file_is_read() {
    match path_resolved("/etc/a.js", true, Ok(path(&["/", "etc", "a.js"]))) {
        Ok(SourceStep::ReadFile { path }) => assert_eq!(path.display, "/etc/a.js"),
        other => panic!("{:?}", other),
    }
}

#[test]
fn files_that_cannot_be_had_are_named() {
    match path_resolved("no.js", false, Err("not found".to_string())) {
        Err(ToolError::InvalidInput { message }) => assert_eq!(
            message,
            "Failed to resolve workflow source_path 'no.js': not found"
        ),
        other => panic!("{:?}", other),
    }
    match file_read(path(&["/", "w", "a.js"]), Err("denied".to_string())) {
        Err(ToolError::ExecutionFailed { message }) => assert_eq!(
            message,
            "Failed to read workflow source_path '/w/a.js': denied"
        ),
        other => panic!("{:?}", other),
    }
}

#[test]
fn a_table_has_one_value_for_a_key() {
    let mut table: Table<u32> = Table::new();
    assert_eq!(table.insert("a".to_string(), 1), None);
    assert_eq!(table.insert("b".to_string(), 2), None);
    assert_eq!(table.insert("a".to_string(), 3), Some(1));
    assert_eq!(table.get("a"), Some(&3));
    assert_eq!(table.get("c"), None);
    *table.get_mut("b").unwrap() = 9;
    assert!(table.get_mut("c").is_none());
    assert_eq!(table.rows().len(), 2);
    assert_eq!(table.remove("b"), Some(9));
    assert_eq!(table.remove("b"), None);
    assert_eq!(table.drain(), [("a".to_string(), 3)]);
    assert!(table.rows().is_empty());
}

#[test]
fn texts_are_joined_and_told_apart() {
    assert_eq!(join4("a", "", "b", "\u{e9}"), "ab\u{e9}");
    assert!(same_text("x", "x"));
    assert!(!same_text("x", "X"));
}

#[test]
fn relative_names_are_looked_up_in_the_workspace() {
    assert_eq!(source_target(true), SourceTarget::AsGiven);
    assert_eq!(source_target(false), SourceTarget::InWorkspace);
}
