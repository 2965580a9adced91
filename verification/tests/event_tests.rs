use elkar_core::dequeue::{dequeue_task_event, DequeueTaskEventServiceInput};
use elkar_core::error::ErrorKind;
use elkar_core::event::{TaskEvent, TaskStatusUpdateEvent};
use elkar_core::event_listing::{
    retrieve_task_events, RetrieveTaskEventServiceInput, TaskEventOrderBy,
};
use elkar_core::fan_out::{
    add_task_subscription, create_task_event, get_task_subscriptions, CreateTaskEventServiceInput,
    TaskSubscriptionFilter,
};
use elkar_core::pagination::PaginationOptions;
use elkar_core::storage::TaskEventSubscriptionStatus;
use elkar_core::store::{ConnectorStore, TaskSubscription};
use elkar_core::task_doc::{TaskState, TaskStatus};

fn status_event(task: &str, state: TaskState) -> TaskEvent {
    TaskEvent::StatusUpdate(TaskStatusUpdateEvent {
        id: task.to_string(),
        status: TaskStatus { state, message: None },
        final_event: false,
        metadata: None,
    })
}

fn record(store: &mut ConnectorStore, task_id: u128, payload: TaskEvent) {
    create_task_event(
        CreateTaskEventServiceInput { task_id, caller_id: None, task_event: payload },
        store,
    )
    .unwrap();
}

#[test]
fn fan_out_creates_one_pending_delivery_per_subscription() {
    let mut store = ConnectorStore::new();
    add_task_subscription(&mut store, TaskSubscription { id: 1, task_id: 7 }).unwrap();
    add_task_subscription(&mut store, TaskSubscription { id: 2, task_id: 7 }).unwrap();
    add_task_subscription(&mut store, TaskSubscription { id: 3, task_id: 7 }).unwrap();
    add_task_subscription(&mut store, TaskSubscription { id: 4, task_id: 8 }).unwrap();

    record(&mut store, 7, status_event("t-7", TaskState::Working));

    assert_eq!(store.task_events.len(), 1);
    assert_eq!(store.task_events[0].id, 0);
    assert_eq!(store.task_events[0].task_id, 7);
    assert_eq!(store.task_event_subscriptions.len(), 3);
    for (delivery, sub_id) in store.task_event_subscriptions.iter().zip([1u128, 2, 3]) {
        assert_eq!(delivery.task_event_id, 0);
        assert_eq!(delivery.task_subscription_id, sub_id);
        assert_eq!(delivery.status, TaskEventSubscriptionStatus::Pending);
    }
}

#[test]
fn event_without_subscriptions_persists_with_zero_deliveries() {
    let mut store = ConnectorStore::new();
    record(&mut store, 7, status_event("t-7", TaskState::Working));
    assert_eq!(store.task_events.len(), 1);
    assert_eq!(store.task_event_subscriptions.len(), 0);
}

#[test]
fn three_subscriptions_record_then_dequeue_one_subscriber() {
    let mut store = ConnectorStore::new();
    add_task_subscription(&mut store, TaskSubscription { id: 1, task_id: 7 }).unwrap();
    add_task_subscription(&mut store, TaskSubscription { id: 2, task_id: 7 }).unwrap();
    add_task_subscription(&mut store, TaskSubscription { id: 3, task_id: 7 }).unwrap();

    let payload = status_event("t-7", TaskState::Completed);
    record(&mut store, 7, payload);
    assert_eq!(store.task_events.len(), 1);
    assert_eq!(store.task_event_subscriptions.len(), 3);
    assert!(store
        .task_event_subscriptions
        .iter()
        .all(|d| d.status == TaskEventSubscriptionStatus::Pending));

    let out = dequeue_task_event(
        DequeueTaskEventServiceInput { task_id: 7, limit: Some(10), subscriber_id: 2 },
        &mut store,
    )
    .unwrap();
    assert_eq!(out.len(), 1);
    assert_eq!(out[0].id, 0);
    assert_eq!(out[0].task_id, 7);
    assert_eq!(out[0].event_data, status_event("t-7", TaskState::Completed));

    // The returned delivery is settled; the two others stay pending.
    let statuses: Vec<_> =
        store.task_event_subscriptions.iter().map(|d| d.status).collect();
    assert_eq!(
        statuses,
        vec![
            TaskEventSubscriptionStatus::Pending,
            TaskEventSubscriptionStatus::Consumed,
            TaskEventSubscriptionStatus::Pending,
        ]
    );
}

#[test]
fn dequeue_does_not_return_consumed_deliveries_again() {
    let mut store = ConnectorStore::new();
    add_task_subscription(&mut store, TaskSubscription { id: 2, task_id: 7 }).unwrap();
    record(&mut store, 7, status_event("t-7", TaskState::Working));

    let first = dequeue_task_event(
        DequeueTaskEventServiceInput { task_id: 7, limit: Some(10), subscriber_id: 2 },
        &mut store,
    )
    .unwrap();
    assert_eq!(first.len(), 1);
    let second = dequeue_task_event(
        DequeueTaskEventServiceInput { task_id: 7, limit: Some(10), subscriber_id: 2 },
        &mut store,
    )
    .unwrap();
    assert_eq!(second.len(), 0);
}

#[test]
fn dequeue_default_limit_is_one_in_creation_order() {
    let mut store = ConnectorStore::new();
    add_task_subscription(&mut store, TaskSubscription { id: 2, task_id: 7 }).unwrap();
    record(&mut store, 7, status_event("t-7", TaskState::Working));
    record(&mut store, 7, status_event("t-7", TaskState::Completed));

    let out = dequeue_task_event(
        DequeueTaskEventServiceInput { task_id: 7, limit: None, subscriber_id: 2 },
        &mut store,
    )
    .unwrap();
    assert_eq!(out.len(), 1);
    assert_eq!(out[0].id, 0);
    assert_eq!(out[0].event_data, status_event("t-7", TaskState::Working));
}

#[test]
fn dequeue_filters_by_task_and_subscriber() {
    let mut store = ConnectorStore::new();
    add_task_subscription(&mut store, TaskSubscription { id: 1, task_id: 7 }).unwrap();
    add_task_subscription(&mut store, TaskSubscription { id: 2, task_id: 8 }).unwrap();
    record(&mut store, 7, status_event("t-7", TaskState::Working));
    record(&mut store, 8, status_event("t-8", TaskState::Working));

    let wrong_subscriber = dequeue_task_event(
        DequeueTaskEventServiceInput { task_id: 7, limit: Some(10), subscriber_id: 9 },
        &mut store,
    )
    .unwrap();
    assert_eq!(wrong_subscriber.len(), 0);

    let wrong_task = dequeue_task_event(
        DequeueTaskEventServiceInput { task_id: 8, limit: Some(10), subscriber_id: 1 },
        &mut store,
    )
    .unwrap();
    assert_eq!(wrong_task.len(), 0);

    let right = dequeue_task_event(
        DequeueTaskEventServiceInput { task_id: 8, limit: Some(10), subscriber_id: 2 },
        &mut store,
    )
    .unwrap();
    assert_eq!(right.len(), 1);
    assert_eq!(right[0].task_id, 8);
}

#[test]
fn subscription_lookup_filters_by_task() {
    let mut store = ConnectorStore::new();
    add_task_subscription(&mut store, TaskSubscription { id: 1, task_id: 7 }).unwrap();
    add_task_subscription(&mut store, TaskSubscription { id: 2, task_id: 8 }).unwrap();
    let subs = get_task_subscriptions(
        TaskSubscriptionFilter { task_id: Some(vec![7]) },
        &store,
    )
    .unwrap();
    assert_eq!(subs, vec![TaskSubscription { id: 1, task_id: 7 }]);
    let all =
        get_task_subscriptions(TaskSubscriptionFilter { task_id: None }, &store).unwrap();
    assert_eq!(all.len(), 2);
}

#[test]
fn duplicate_subscription_id_is_conflict() {
    let mut store = ConnectorStore::new();
    add_task_subscription(&mut store, TaskSubscription { id: 1, task_id: 7 }).unwrap();
    let err =
        add_task_subscription(&mut store, TaskSubscription { id: 1, task_id: 9 }).unwrap_err();
    assert_eq!(err.kind, ErrorKind::Conflict);
    assert_eq!(store.task_subscriptions.len(), 1);
}

#[test]
fn retrieve_task_events_lists_newest_first_with_filters_and_window() {
    let mut store = ConnectorStore::new();
    record(&mut store, 7, status_event("t-7", TaskState::Submitted));
    record(&mut store, 8, status_event("t-8", TaskState::Working));
    record(&mut store, 7, status_event("t-7", TaskState::Completed));

    let all = retrieve_task_events(
        &store,
        RetrieveTaskEventServiceInput {
            task_id_in: None,
            id_in: None,
            order_by: Some(TaskEventOrderBy::CreatedAt),
            pagination_options: PaginationOptions { page: None, per_page: 10 },
        },
    )
    .unwrap();
    let ids: Vec<u128> = all.iter().map(|e| e.id).collect();
    assert_eq!(ids, vec![2, 1, 0]);

    let of_task_7 = retrieve_task_events(
        &store,
        RetrieveTaskEventServiceInput {
            task_id_in: Some(vec![7]),
            id_in: None,
            order_by: Some(TaskEventOrderBy::UpdatedAt),
            pagination_options: PaginationOptions { page: None, per_page: 10 },
        },
    )
    .unwrap();
    let ids7: Vec<u128> = of_task_7.iter().map(|e| e.id).collect();
    assert_eq!(ids7, vec![2, 0]);

    let second_page = retrieve_task_events(
        &store,
        RetrieveTaskEventServiceInput {
            task_id_in: None,
            id_in: None,
            order_by: None,
            pagination_options: PaginationOptions { page: Some(2), per_page: 2 },
        },
    )
    .unwrap();
    let ids_page: Vec<u128> = second_page.iter().map(|e| e.id).collect();
    assert_eq!(ids_page, vec![0]);

    let by_id = retrieve_task_events(
        &store,
        RetrieveTaskEventServiceInput {
            task_id_in: Some(vec![7, 8]),
            id_in: Some(vec![1]),
            order_by: None,
            pagination_options: PaginationOptions { page: None, per_page: 10 },
        },
    )
    .unwrap();
    assert_eq!(by_id.len(), 1);
    assert_eq!(by_id[0].id, 1);
}
