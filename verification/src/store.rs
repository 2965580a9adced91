//! The model of the relational store owned by the task lifecycle core.
//!
//! Four tables are modelled as ordered rows: task aggregates, protocol
//! events, subscriptions (owned by an external collaborator, identity
//! only), and deliveries pairing events with subscriptions. The store's
//! well-formedness invariant captures what the schema guarantees: the
//! (tenant, agent, task) triple is a key; event identifiers and creation
//! times grow with insertion order; subscription identifiers are unique;
//! deliveries reference at most one (event, subscription) pair each and
//! appear in event-creation order.
//!
//! Every operation of the core is a single transition of this model;
//! each either completes with its whole effect or fails with no effect,
//! which is the model-level reading of the transactional all-or-nothing
//! guarantee.

use crate::event::{TaskEvent, TaskEventView};
use crate::storage::{TaskEventSubscriptionStatus, TaskState, TaskType};
use crate::task_doc::{PushNotificationConfig, PushNotificationConfigView, TaskDocument,
    TaskDocumentView};
use vstd::prelude::*;

verus! {

/// One stored task aggregate row.
#[derive(Debug, PartialEq, Eq)]
pub struct TaskRecord {
    pub tenant_id: u128,
    /// Row identifier, referenced by events.
    pub id: u128,
    pub agent_id: u128,
    /// Protocol task identifier, unique per (tenant, agent).
    pub task_id: String,
    pub counterparty_id: Option<String>,
    /// Lifecycle column derived from the document's status.
    pub task_state: TaskState,
    pub task_type: TaskType,
    pub push_notification: Option<PushNotificationConfig>,
    /// The opaque document column, already decoded and validated.
    pub a2a_task: Option<TaskDocument>,
    pub created_at: u64,
    pub updated_at: u64,
}

/// Ghost mirror of [`TaskRecord`].
#[verifier::ext_equal]
pub ghost struct TaskRecordView {
    pub tenant_id: u128,
    pub id: u128,
    pub agent_id: u128,
    pub task_id: Seq<char>,
    pub counterparty_id: Option<Seq<char>>,
    pub task_state: TaskState,
    pub task_type: TaskType,
    pub push_notification: Option<PushNotificationConfigView>,
    pub a2a_task: Option<TaskDocumentView>,
    pub created_at: u64,
    pub updated_at: u64,
}

impl DeepView for TaskRecord {
    type V = TaskRecordView;

    open spec fn deep_view(&self) -> TaskRecordView {
        TaskRecordView {
            tenant_id: self.tenant_id,
            id: self.id,
            agent_id: self.agent_id,
            task_id: self.task_id.deep_view(),
            counterparty_id: self.counterparty_id.deep_view(),
            task_state: self.task_state,
            task_type: self.task_type,
            push_notification: self.push_notification.deep_view(),
            a2a_task: self.a2a_task.deep_view(),
            created_at: self.created_at,
            updated_at: self.updated_at,
        }
    }
}

impl Clone for TaskRecord {
    fn clone(&self) -> (r: Self)
        ensures
            r.deep_view() == self.deep_view(),
    {
        TaskRecord {
            tenant_id: self.tenant_id,
            id: self.id,
            agent_id: self.agent_id,
            task_id: self.task_id.clone(),
            counterparty_id: self.counterparty_id.clone(),
            task_state: self.task_state,
            task_type: self.task_type,
            push_notification: match &self.push_notification {
                Some(p) => Some(p.clone()),
                None => None,
            },
            a2a_task: match &self.a2a_task {
                Some(d) => Some(d.clone()),
                None => None,
            },
            created_at: self.created_at,
            updated_at: self.updated_at,
        }
    }
}

/// The key under which a task row must be unique.
pub open spec fn task_row_key(r: TaskRecordView) -> (u128, u128, Seq<char>) {
    (r.tenant_id, r.agent_id, r.task_id)
}

/// One stored protocol event row. Immutable once inserted.
#[derive(Debug, PartialEq, Eq)]
pub struct TaskEventRecord {
    /// Server-assigned identifier, strictly increasing with insertion.
    pub id: u128,
    /// Row identifier of the task the event belongs to.
    pub task_id: u128,
    pub caller_id: Option<String>,
    pub event_data: TaskEvent,
    pub created_at: u64,
    pub updated_at: u64,
}

/// Ghost mirror of [`TaskEventRecord`].
#[verifier::ext_equal]
pub ghost struct TaskEventRecordView {
    pub id: u128,
    pub task_id: u128,
    pub caller_id: Option<Seq<char>>,
    pub event_data: TaskEventView,
    pub created_at: u64,
    pub updated_at: u64,
}

impl DeepView for TaskEventRecord {
    type V = TaskEventRecordView;

    open spec fn deep_view(&self) -> TaskEventRecordView {
        TaskEventRecordView {
            id: self.id,
            task_id: self.task_id,
            caller_id: self.caller_id.deep_view(),
            event_data: self.event_data.deep_view(),
            created_at: self.created_at,
            updated_at: self.updated_at,
        }
    }
}

impl Clone for TaskEventRecord {
    fn clone(&self) -> (r: Self)
        ensures
            r.deep_view() == self.deep_view(),
    {
        TaskEventRecord {
            id: self.id,
            task_id: self.task_id,
            caller_id: self.caller_id.clone(),
            event_data: self.event_data.clone(),
            created_at: self.created_at,
            updated_at: self.updated_at,
        }
    }
}

/// One subscription row: a registered interest in a task's events.
/// Lifecycle is owned by an external collaborator; the core reads
/// identity and task filter only.
#[derive(Clone, Copy, Debug, PartialEq, Eq, Structural)]
pub struct TaskSubscription {
    pub id: u128,
    /// Row identifier of the task the subscription watches.
    pub task_id: u128,
}

impl DeepView for TaskSubscription {
    type V = TaskSubscription;

    open spec fn deep_view(&self) -> TaskSubscription {
        *self
    }
}

/// One delivery row: an event paired with a subscription, tracked
/// through the pull lifecycle.
#[derive(Clone, Copy, Debug, PartialEq, Eq, Structural)]
pub struct TaskEventSubscription {
    pub task_event_id: u128,
    pub task_subscription_id: u128,
    pub status: TaskEventSubscriptionStatus,
}

impl DeepView for TaskEventSubscription {
    type V = TaskEventSubscription;

    open spec fn deep_view(&self) -> TaskEventSubscription {
        *self
    }
}

/// Task rows are keyed by (tenant, agent, task identifier).
pub open spec fn unique_task_rows(s: Seq<TaskRecordView>) -> bool {
    forall|i: int, j: int|
        0 <= i < j < s.len() ==> task_row_key(#[trigger] s[i]) != task_row_key(#[trigger] s[j])
}

/// Event identifiers and creation times grow strictly with insertion
/// order, and stay below the store's counters.
pub open spec fn events_ordered(s: Seq<TaskEventRecordView>, next_id: u128, clock: u64) -> bool {
    &&& forall|i: int, j: int|
        0 <= i < j < s.len() ==> (#[trigger] s[i]).id < (#[trigger] s[j]).id
    &&& forall|i: int, j: int|
        0 <= i < j < s.len() ==> (#[trigger] s[i]).created_at < (#[trigger] s[j]).created_at
    &&& forall|i: int| 0 <= i < s.len() ==> (#[trigger] s[i]).id < next_id
    &&& forall|i: int| 0 <= i < s.len() ==> (#[trigger] s[i]).created_at < clock
    &&& forall|i: int| 0 <= i < s.len() ==> (#[trigger] s[i]).updated_at == s[i].created_at
}

/// Subscription identifiers are unique.
pub open spec fn unique_subscriptions(s: Seq<TaskSubscription>) -> bool {
    forall|i: int, j: int| 0 <= i < j < s.len() ==> (#[trigger] s[i]).id != (#[trigger] s[j]).id
}

/// Deliveries reference events below the identifier counter, appear in
/// event-creation order, and pair each event with each subscription at
/// most once.
pub open spec fn deliveries_wf(s: Seq<TaskEventSubscription>, next_id: u128) -> bool {
    &&& forall|i: int| 0 <= i < s.len() ==> (#[trigger] s[i]).task_event_id < next_id
    &&& forall|i: int, j: int|
        0 <= i < j < s.len() ==> (#[trigger] s[i]).task_event_id <= (#[trigger] s[j]).task_event_id
    &&& forall|i: int, j: int|
        0 <= i < j < s.len() ==> !((#[trigger] s[i]).task_event_id == (#[trigger] s[j]).task_event_id
            && s[i].task_subscription_id == s[j].task_subscription_id)
}

/// The in-memory model of the core's relational store.
pub struct ConnectorStore {
    pub tasks: Vec<TaskRecord>,
    pub task_events: Vec<TaskEventRecord>,
    pub task_subscriptions: Vec<TaskSubscription>,
    pub task_event_subscriptions: Vec<TaskEventSubscription>,
    /// Identifier the next recorded event will take.
    pub next_event_id: u128,
    /// Creation timestamp the next recorded event will take.
    pub clock: u64,
}

impl ConnectorStore {
    pub open spec fn tasks_v(&self) -> Seq<TaskRecordView> {
        self.tasks.deep_view()
    }

    pub open spec fn events_v(&self) -> Seq<TaskEventRecordView> {
        self.task_events.deep_view()
    }

    pub open spec fn subs_v(&self) -> Seq<TaskSubscription> {
        self.task_subscriptions.deep_view()
    }

    pub open spec fn dels_v(&self) -> Seq<TaskEventSubscription> {
        self.task_event_subscriptions.deep_view()
    }

    /// What the schema guarantees of the store at rest.
    pub open spec fn wf(&self) -> bool {
        &&& unique_task_rows(self.tasks_v())
        &&& events_ordered(self.events_v(), self.next_event_id, self.clock)
        &&& unique_subscriptions(self.subs_v())
        &&& deliveries_wf(self.dels_v(), self.next_event_id)
    }

    /// An empty store: no rows, counters at zero.
    pub fn new() -> (r: ConnectorStore)
        ensures
            r.wf(),
            r.tasks_v() == Seq::<TaskRecordView>::empty(),
            r.events_v() == Seq::<TaskEventRecordView>::empty(),
            r.subs_v() == Seq::<TaskSubscription>::empty(),
            r.dels_v() == Seq::<TaskEventSubscription>::empty(),
            r.next_event_id == 0,
            r.clock == 0,
    {
        let r = ConnectorStore {
            tasks: Vec::new(),
            task_events: Vec::new(),
            task_subscriptions: Vec::new(),
            task_event_subscriptions: Vec::new(),
            next_event_id: 0,
            clock: 0,
        };
        proof {
            assert(r.tasks_v() =~= Seq::<TaskRecordView>::empty());
            assert(r.events_v() =~= Seq::<TaskEventRecordView>::empty());
            assert(r.subs_v() =~= Seq::<TaskSubscription>::empty());
            assert(r.dels_v() =~= Seq::<TaskEventSubscription>::empty());
        }
        r
    }
}

} // verus!
