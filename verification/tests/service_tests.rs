use elkar_core::api_key::{generate_api_key, hash_api_key};
use elkar_core::application_user::{check_registered_user, ApplicationUser};
use elkar_core::debugger_history::{
    create_debug_history_entry, retrieve_debugger_history, DebuggerHistory,
    DebuggerHistoryServiceInput, RetrieveDebuggerHistoryParams,
};
use elkar_core::error::ErrorKind;
use elkar_core::filters::ComparisonOperator;
use elkar_core::part::{FileData, MetaEntry, Part, PartType};
use elkar_core::storage::{
    default_task_type, task_state_from_protocol, ApplicationUserStatus, TaskType,
};
use elkar_core::storage::TaskState as StoredTaskState;
use elkar_core::task_doc::TaskState as ProtocolTaskState;
use elkar_core::task_doc::{self, Task, TaskDocument, TaskStatus};

fn doc(task_id: &str) -> TaskDocument {
    TaskDocument::Valid(Task {
        id: task_id.to_string(),
        status: TaskStatus { state: task_doc::TaskState::Working, message: None },
        history: vec![],
        artifacts: vec![],
        metadata: None,
    })
}

#[test]
fn debug_history_upserts_by_task_and_url() {
    let mut table: Vec<DebuggerHistory> = Vec::new();
    create_debug_history_entry(
        DebuggerHistoryServiceInput { url: "https://a".to_string(), task: doc("t1") },
        &mut table,
        1,
    )
    .unwrap();
    create_debug_history_entry(
        DebuggerHistoryServiceInput { url: "https://b".to_string(), task: doc("t1") },
        &mut table,
        2,
    )
    .unwrap();
    assert_eq!(table.len(), 2);

    // Same (task, url): the payload of the last call wins, in place.
    let mut replacement = doc("t1");
    if let TaskDocument::Valid(t) = &mut replacement {
        t.status.state = task_doc::TaskState::Completed;
    }
    create_debug_history_entry(
        DebuggerHistoryServiceInput { url: "https://a".to_string(), task: replacement.clone() },
        &mut table,
        3,
    )
    .unwrap();
    assert_eq!(table.len(), 2);
    assert_eq!(table[0].id, 1);
    assert_eq!(table[0].payload, replacement);
}

#[test]
fn debug_history_rejects_malformed_documents() {
    let mut table: Vec<DebuggerHistory> = Vec::new();
    let err = create_debug_history_entry(
        DebuggerHistoryServiceInput {
            url: "https://a".to_string(),
            task: TaskDocument::Malformed,
        },
        &mut table,
        1,
    )
    .unwrap_err();
    assert_eq!(err.kind, ErrorKind::Validation);
    assert!(table.is_empty());
}

#[test]
fn debug_history_retrieval_filters_by_task_and_url() {
    let mut table: Vec<DebuggerHistory> = Vec::new();
    for (id, task, url) in [(1u128, "t1", "https://a"), (2, "t1", "https://b"), (3, "t2", "https://a")]
    {
        create_debug_history_entry(
            DebuggerHistoryServiceInput { url: url.to_string(), task: doc(task) },
            &mut table,
            id,
        )
        .unwrap();
    }
    let of_t1 = retrieve_debugger_history(
        RetrieveDebuggerHistoryParams { task_id: Some("t1".to_string()), url: None },
        &table,
    )
    .unwrap();
    assert_eq!(of_t1.iter().map(|r| r.id).collect::<Vec<_>>(), vec![1, 2]);

    let of_a = retrieve_debugger_history(
        RetrieveDebuggerHistoryParams { task_id: None, url: Some("https://a".to_string()) },
        &table,
    )
    .unwrap();
    assert_eq!(of_a.iter().map(|r| r.id).collect::<Vec<_>>(), vec![1, 3]);

    let both = retrieve_debugger_history(
        RetrieveDebuggerHistoryParams {
            task_id: Some("t2".to_string()),
            url: Some("https://a".to_string()),
        },
        &table,
    )
    .unwrap();
    assert_eq!(both.len(), 1);
    assert_eq!(both[0].id, 3);
    assert_eq!(both[0].task_id, "t2".to_string());
}

#[test]
fn registered_user_lookup_finds_by_identity() {
    let users = vec![
        ApplicationUser {
            id: 5,
            status: ApplicationUserStatus::Active,
            email: "a@example.com".to_string(),
            first_name: Some("Ada".to_string()),
            last_name: None,
        },
        ApplicationUser {
            id: 6,
            status: ApplicationUserStatus::Invited,
            email: "b@example.com".to_string(),
            first_name: None,
            last_name: None,
        },
    ];
    let found = check_registered_user(6, &users).unwrap().unwrap();
    assert_eq!(found.id, 6);
    assert_eq!(found.email, "b@example.com".to_string());
    assert_eq!(found.status, ApplicationUserStatus::Invited);
    assert!(check_registered_user(9, &users).unwrap().is_none());
}

#[test]
fn api_key_hash_matches_known_digests() {
    assert_eq!(
        hash_api_key("abc"),
        "ba7816bf8f01cfea414140de5dae2223b00361a396177a9cb410ff61f20015ad"
    );
    assert_eq!(
        hash_api_key(""),
        "e3b0c44298fc1c149afbf4c8996fb92427ae41e4649b934ca495991b7852b855"
    );
}

#[test]
fn generated_api_key_has_prefix_and_encoded_length() {
    let key = generate_api_key();
    assert!(key.starts_with("sk_elkar_"));
    // 32 bytes of padded base64 take 44 characters.
    assert_eq!(key.len(), "sk_elkar_".len() + 44);
}

#[test]
fn comparison_operator_round_trips_its_keywords() {
    let all = [
        (ComparisonOperator::Eq, "eq"),
        (ComparisonOperator::Ne, "ne"),
        (ComparisonOperator::Gt, "gt"),
        (ComparisonOperator::Gte, "gte"),
        (ComparisonOperator::Lt, "lt"),
        (ComparisonOperator::Lte, "lte"),
    ];
    for (op, keyword) in all {
        assert_eq!(op.to_string(), keyword.to_string());
        assert_eq!(ComparisonOperator::from_str(keyword).unwrap(), op);
    }
    let err = ComparisonOperator::from_str("between").unwrap_err();
    assert_eq!(err.kind, ErrorKind::Validation);
}

#[test]
fn protocol_states_map_onto_storage_states() {
    let pairs = [
        (ProtocolTaskState::Submitted, StoredTaskState::Submitted),
        (ProtocolTaskState::Working, StoredTaskState::Working),
        (ProtocolTaskState::InputRequired, StoredTaskState::InputRequired),
        (ProtocolTaskState::Completed, StoredTaskState::Completed),
        (ProtocolTaskState::Failed, StoredTaskState::Failed),
        (ProtocolTaskState::Canceled, StoredTaskState::Canceled),
        (ProtocolTaskState::Unknown, StoredTaskState::Unknown),
    ];
    for (p, s) in pairs {
        assert_eq!(task_state_from_protocol(p), s);
    }
    assert_eq!(default_task_type(), TaskType::Incoming);
}

#[test]
fn part_constructors_build_the_expected_content() {
    let t = Part::text("hi".to_string());
    assert_eq!(t.content, PartType::Text { text: "hi".to_string() });
    assert!(t.metadata.is_empty());

    let f = Part::file(FileData {
        name: Some("n".to_string()),
        mime_type: None,
        bytes: None,
        uri: Some("file:///x".to_string()),
    });
    match &f.content {
        PartType::File { file } => assert_eq!(file.name, Some("n".to_string())),
        other => panic!("unexpected content: {:?}", other),
    }

    let entries = vec![MetaEntry { key: "k".to_string(), value: "v".to_string() }];
    let d = Part::data(entries.clone());
    assert_eq!(d.content, PartType::Data { data: entries.clone() });

    let with_meta = Part::text("hi".to_string()).with_metadata(entries.clone());
    assert_eq!(with_meta.metadata, entries);
    assert_eq!(with_meta.content, PartType::Text { text: "hi".to_string() });
}
