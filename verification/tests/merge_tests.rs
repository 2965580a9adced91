use elkar_core::artifact::Artifact;
use elkar_core::error::ErrorKind;
use elkar_core::message::{Message, Role};
use elkar_core::part::Part;
use elkar_core::storage;
use elkar_core::store::{ConnectorStore, TaskRecord};
use elkar_core::task_doc::{Task, TaskDocument, TaskState, TaskStatus};
use elkar_core::task_doc::PushNotificationConfig;
use elkar_core::task_update::{create_task, update_a2a_task, update_task, UpdateTaskParams};

fn text_message(text: &str) -> Message {
    Message { role: Role::Agent, parts: vec![Part::text(text.to_string())], metadata: None }
}

fn artifact(key: &str, text: &str) -> Artifact {
    Artifact {
        artifact_id: key.to_string(),
        name: None,
        parts: vec![Part::text(text.to_string())],
        metadata: None,
    }
}

fn working_task() -> Task {
    Task {
        id: "task-1".to_string(),
        status: TaskStatus { state: TaskState::Working, message: None },
        history: vec![text_message("hello")],
        artifacts: vec![artifact("a", "one")],
        metadata: None,
    }
}

fn empty_params() -> UpdateTaskParams {
    UpdateTaskParams {
        status: None,
        artifacts_updates: None,
        new_messages: None,
        push_notification: None,
        caller_id: None,
    }
}

#[test]
fn status_only_merge_changes_only_state() {
    let mut task = working_task();
    let params = UpdateTaskParams {
        status: Some(TaskStatus { state: TaskState::Completed, message: None }),
        ..empty_params()
    };
    update_a2a_task(&mut task, params).unwrap();
    assert_eq!(task.status.state, TaskState::Completed);
    assert_eq!(task.history, vec![text_message("hello")]);
    assert_eq!(task.artifacts, vec![artifact("a", "one")]);
    assert_eq!(task.id, "task-1".to_string());
}

#[test]
fn status_with_message_appends_it() {
    let mut task = working_task();
    let params = UpdateTaskParams {
        status: Some(TaskStatus {
            state: TaskState::InputRequired,
            message: Some(text_message("need input")),
        }),
        ..empty_params()
    };
    update_a2a_task(&mut task, params).unwrap();
    assert_eq!(task.status.state, TaskState::InputRequired);
    assert_eq!(task.history, vec![text_message("hello"), text_message("need input")]);
}

#[test]
fn merge_sequence_appends_messages_in_call_order() {
    let mut task = working_task();
    let first = UpdateTaskParams {
        status: Some(TaskStatus { state: TaskState::Working, message: Some(text_message("m1")) }),
        new_messages: Some(vec![text_message("m2"), text_message("m3")]),
        ..empty_params()
    };
    let second = UpdateTaskParams {
        new_messages: Some(vec![text_message("m4")]),
        ..empty_params()
    };
    update_a2a_task(&mut task, first).unwrap();
    update_a2a_task(&mut task, second).unwrap();
    assert_eq!(
        task.history,
        vec![
            text_message("hello"),
            text_message("m1"),
            text_message("m2"),
            text_message("m3"),
            text_message("m4"),
        ]
    );
}

#[test]
fn artifact_upsert_twice_keeps_last_payload_once() {
    let mut task = working_task();
    let params = UpdateTaskParams {
        artifacts_updates: Some(vec![artifact("k", "first"), artifact("k", "second")]),
        ..empty_params()
    };
    update_a2a_task(&mut task, params).unwrap();
    let with_key: Vec<&Artifact> =
        task.artifacts.iter().filter(|a| a.artifact_id == "k").collect();
    assert_eq!(with_key.len(), 1);
    assert_eq!(*with_key[0], artifact("k", "second"));
    assert_eq!(task.artifacts.len(), 2);
}

#[test]
fn artifact_upsert_replaces_in_place() {
    let mut task = working_task();
    let params = UpdateTaskParams {
        artifacts_updates: Some(vec![artifact("b", "two")]),
        ..empty_params()
    };
    update_a2a_task(&mut task, params).unwrap();
    assert_eq!(task.artifacts, vec![artifact("a", "one"), artifact("b", "two")]);
    let replace = UpdateTaskParams {
        artifacts_updates: Some(vec![artifact("a", "newer")]),
        ..empty_params()
    };
    update_a2a_task(&mut task, replace).unwrap();
    assert_eq!(task.artifacts, vec![artifact("a", "newer"), artifact("b", "two")]);
}

#[test]
fn empty_artifact_key_is_conflict_and_leaves_task_untouched() {
    let mut task = working_task();
    let before = Task {
        id: task.id.clone(),
        status: TaskStatus { state: task.status.state, message: None },
        history: vec![text_message("hello")],
        artifacts: vec![artifact("a", "one")],
        metadata: None,
    };
    let params = UpdateTaskParams {
        status: Some(TaskStatus { state: TaskState::Completed, message: None }),
        artifacts_updates: Some(vec![artifact("", "bad")]),
        ..empty_params()
    };
    let err = update_a2a_task(&mut task, params).unwrap_err();
    assert_eq!(err.kind, ErrorKind::Conflict);
    assert_eq!(task, before);
}

fn stored_row(doc: Option<TaskDocument>) -> TaskRecord {
    TaskRecord {
        tenant_id: 1,
        id: 100,
        agent_id: 2,
        task_id: "task-1".to_string(),
        counterparty_id: None,
        task_state: storage::TaskState::Working,
        task_type: storage::TaskType::Incoming,
        push_notification: None,
        a2a_task: doc,
        created_at: 0,
        updated_at: 0,
    }
}

#[test]
fn update_task_merges_and_writes_back() {
    let mut store = ConnectorStore::new();
    create_task(&mut store, stored_row(Some(TaskDocument::Valid(working_task())))).unwrap();
    let params = UpdateTaskParams {
        status: Some(TaskStatus { state: TaskState::Completed, message: None }),
        ..empty_params()
    };
    let row = update_task(&mut store, 1, 2, &"task-1".to_string(), params).unwrap();
    assert_eq!(row.task_state, storage::TaskState::Completed);
    match &row.a2a_task {
        Some(TaskDocument::Valid(doc)) => {
            assert_eq!(doc.status.state, TaskState::Completed);
            assert_eq!(doc.history.len(), 1);
            assert_eq!(doc.artifacts.len(), 1);
        },
        other => panic!("unexpected document: {:?}", other),
    }
    assert_eq!(store.tasks.len(), 1);
    assert_eq!(store.tasks[0], row);
}

#[test]
fn update_task_missing_row_is_not_found() {
    let mut store = ConnectorStore::new();
    let err = update_task(&mut store, 1, 2, &"absent".to_string(), empty_params()).unwrap_err();
    assert_eq!(err.kind, ErrorKind::NotFound);
}

#[test]
fn update_task_on_malformed_document_is_validation() {
    let mut store = ConnectorStore::new();
    create_task(&mut store, stored_row(Some(TaskDocument::Malformed))).unwrap();
    let err = update_task(&mut store, 1, 2, &"task-1".to_string(), empty_params()).unwrap_err();
    assert_eq!(err.kind, ErrorKind::Validation);
    assert_eq!(store.tasks[0], stored_row(Some(TaskDocument::Malformed)));
}

#[test]
fn update_task_without_document_updates_columns_only() {
    let mut store = ConnectorStore::new();
    create_task(&mut store, stored_row(None)).unwrap();
    let params = UpdateTaskParams {
        status: Some(TaskStatus { state: TaskState::Failed, message: None }),
        ..empty_params()
    };
    let row = update_task(&mut store, 1, 2, &"task-1".to_string(), params).unwrap();
    assert_eq!(row.task_state, storage::TaskState::Failed);
    assert_eq!(row.a2a_task, None);
}

#[test]
fn update_task_replaces_push_notification_wholly() {
    let mut store = ConnectorStore::new();
    let mut row = stored_row(Some(TaskDocument::Valid(working_task())));
    row.push_notification =
        Some(PushNotificationConfig { url: "https://old".to_string(), token: None });
    create_task(&mut store, row).unwrap();
    let params = UpdateTaskParams {
        push_notification: Some(PushNotificationConfig {
            url: "https://new".to_string(),
            token: Some("t".to_string()),
        }),
        ..empty_params()
    };
    let updated = update_task(&mut store, 1, 2, &"task-1".to_string(), params).unwrap();
    assert_eq!(
        updated.push_notification,
        Some(PushNotificationConfig { url: "https://new".to_string(), token: Some("t".to_string()) })
    );
}

#[test]
fn create_task_refuses_duplicate_key() {
    let mut store = ConnectorStore::new();
    create_task(&mut store, stored_row(None)).unwrap();
    let err = create_task(&mut store, stored_row(None)).unwrap_err();
    assert_eq!(err.kind, ErrorKind::Conflict);
    assert_eq!(store.tasks.len(), 1);
}

#[test]
fn serialized_merges_in_either_order_lose_nothing() {
    let c1 = || UpdateTaskParams {
        new_messages: Some(vec![text_message("from-first")]),
        ..empty_params()
    };
    let c2 = || UpdateTaskParams {
        new_messages: Some(vec![text_message("from-second")]),
        ..empty_params()
    };
    let mut t12 = working_task();
    update_a2a_task(&mut t12, c1()).unwrap();
    update_a2a_task(&mut t12, c2()).unwrap();
    assert_eq!(
        t12.history,
        vec![text_message("hello"), text_message("from-first"), text_message("from-second")]
    );
    let mut t21 = working_task();
    update_a2a_task(&mut t21, c2()).unwrap();
    update_a2a_task(&mut t21, c1()).unwrap();
    assert_eq!(
        t21.history,
        vec![text_message("hello"), text_message("from-second"), text_message("from-first")]
    );
}
