//! The delivery queue: a subscriber pulls its pending deliveries.
//!
//! A dequeue walks the deliveries in creation order, keeps those that
//! are Pending, belong to the asking subscriber, and whose event belongs
//! to the asked task, and returns up to `limit` of them (one when no
//! limit is given), each exposing the event identifier, the task row
//! identifier, and the event payload. Within the same transition every
//! returned delivery is marked Consumed, so a later dequeue does not
//! return it again: the queue hands each delivery out once instead of
//! redelivering the same rows forever. Deliveries beyond the limit, for
//! other subscribers, or for other tasks stay Pending and untouched.

use crate::error::ServiceError;
use crate::event::{TaskEvent, TaskEventView};
use crate::seq_util::{first_match, lemma_first_match};
use crate::storage::TaskEventSubscriptionStatus;
use crate::store::{deliveries_wf, ConnectorStore, TaskEventRecord, TaskEventRecordView,
    TaskEventSubscription};
use vstd::prelude::*;

verus! {

/// What a caller hands to `dequeue_task_event`.
pub struct DequeueTaskEventServiceInput {
    /// Row identifier of the task whose events are asked for.
    pub task_id: u128,
    /// Most deliveries to return; one when absent.
    pub limit: Option<i32>,
    /// The subscription pulling its deliveries.
    pub subscriber_id: u128,
}

/// One pulled delivery: the event identifier, the task row identifier,
/// and the event payload.
#[derive(Debug, PartialEq, Eq)]
pub struct DequeueTaskEventServiceOutput {
    pub id: u128,
    pub task_id: u128,
    pub event_data: TaskEvent,
}

/// Ghost mirror of [`DequeueTaskEventServiceOutput`].
#[verifier::ext_equal]
pub ghost struct DequeueTaskEventServiceOutputView {
    pub id: u128,
    pub task_id: u128,
    pub event_data: TaskEventView,
}

impl DeepView for DequeueTaskEventServiceOutput {
    type V = DequeueTaskEventServiceOutputView;

    open spec fn deep_view(&self) -> DequeueTaskEventServiceOutputView {
        DequeueTaskEventServiceOutputView {
            id: self.id,
            task_id: self.task_id,
            event_data: self.event_data.deep_view(),
        }
    }
}

/// The effective limit: the given one, or one delivery by default.
pub open spec fn dequeue_limit(limit: Option<i32>) -> nat {
    match limit {
        Some(l) => l as nat,
        None => 1,
    }
}

/// Index of the event row with the given identifier, or -1.
pub open spec fn event_index(events: Seq<TaskEventRecordView>, event_id: u128) -> int {
    first_match(events, |e: TaskEventRecordView| e.id == event_id)
}

/// Whether one delivery is due to the asking subscriber for the asked
/// task: it is Pending, belongs to that subscriber, and its event row
/// exists and belongs to that task.
pub open spec fn delivery_eligible(
    events: Seq<TaskEventRecordView>,
    d: TaskEventSubscription,
    subscriber_id: u128,
    task_id: u128,
) -> bool {
    &&& d.status == TaskEventSubscriptionStatus::Pending
    &&& d.task_subscription_id == subscriber_id
    &&& event_index(events, d.task_event_id) != -1
    &&& events[event_index(events, d.task_event_id)].task_id == task_id
}

/// The row a pulled event is exposed as.
pub open spec fn output_of(e: TaskEventRecordView) -> DequeueTaskEventServiceOutputView {
    DequeueTaskEventServiceOutputView { id: e.id, task_id: e.task_id, event_data: e.event_data }
}

/// The rows a dequeue returns: the first `n` eligible deliveries in
/// creation order, each mapped to its event.
pub open spec fn dequeue_outputs(
    events: Seq<TaskEventRecordView>,
    dels: Seq<TaskEventSubscription>,
    subscriber_id: u128,
    task_id: u128,
    n: nat,
) -> Seq<DequeueTaskEventServiceOutputView>
    decreases dels.len(),
{
    if dels.len() == 0 || n == 0 {
        Seq::<DequeueTaskEventServiceOutputView>::empty()
    } else if delivery_eligible(events, dels[0], subscriber_id, task_id) {
        seq![output_of(events[event_index(events, dels[0].task_event_id)])] + dequeue_outputs(
            events,
            dels.skip(1),
            subscriber_id,
            task_id,
            (n - 1) as nat,
        )
    } else {
        dequeue_outputs(events, dels.skip(1), subscriber_id, task_id, n)
    }
}

/// The delivery table after a dequeue: the returned deliveries marked
/// Consumed, everything else untouched.
pub open spec fn dequeue_marked(
    events: Seq<TaskEventRecordView>,
    dels: Seq<TaskEventSubscription>,
    subscriber_id: u128,
    task_id: u128,
    n: nat,
) -> Seq<TaskEventSubscription>
    decreases dels.len(),
{
    if dels.len() == 0 {
        dels
    } else if n > 0 && delivery_eligible(events, dels[0], subscriber_id, task_id) {
        seq![
            TaskEventSubscription {
                status: TaskEventSubscriptionStatus::Consumed,
                ..dels[0]
            },
        ] + dequeue_marked(events, dels.skip(1), subscriber_id, task_id, (n - 1) as nat)
    } else {
        seq![dels[0]] + dequeue_marked(events, dels.skip(1), subscriber_id, task_id, n)
    }
}

/// A dequeue returns at most `n` rows, and marking changes no
/// delivery's event or subscription, only statuses.
pub proof fn lemma_dequeue_bounds(
    events: Seq<TaskEventRecordView>,
    dels: Seq<TaskEventSubscription>,
    subscriber_id: u128,
    task_id: u128,
    n: nat,
)
    ensures
        dequeue_outputs(events, dels, subscriber_id, task_id, n).len() <= n,
        dequeue_marked(events, dels, subscriber_id, task_id, n).len() == dels.len(),
        forall|k: int|
            0 <= k < dels.len() ==> {
                let m = #[trigger] dequeue_marked(events, dels, subscriber_id, task_id, n)[k];
                m.task_event_id == dels[k].task_event_id && m.task_subscription_id
                    == dels[k].task_subscription_id
            },
    decreases dels.len(),
{
    if dels.len() > 0 {
        if n > 0 && delivery_eligible(events, dels[0], subscriber_id, task_id) {
            lemma_dequeue_bounds(events, dels.skip(1), subscriber_id, task_id, (n - 1) as nat);
        } else {
            lemma_dequeue_bounds(events, dels.skip(1), subscriber_id, task_id, n);
        }
    }
}

/// Position of the event row with identifier `event_id`, as
/// [`event_index`] defines it.
fn find_event_index(events: &Vec<TaskEventRecord>, event_id: u128) -> (r: Option<usize>)
    ensures
        match r {
            Some(i) => 0 <= i < events.len() && event_index(events.deep_view(), event_id) == i,
            None => event_index(events.deep_view(), event_id) == -1,
        },
{
    let ghost s = events.deep_view();
    proof {
        lemma_first_match(s, |e: TaskEventRecordView| e.id == event_id);
    }
    let n = events.len();
    let mut i: usize = 0;
    while i < n
        invariant
            i <= n,
            n == events.len(),
            s == events.deep_view(),
            forall|j: int| 0 <= j < i ==> (#[trigger] s[j]).id != event_id,
        decreases n - i,
    {
        if events[i].id == event_id {
            proof {
                assert(s[i as int].id == event_id);
                lemma_first_match(s, |e: TaskEventRecordView| e.id == event_id);
            }
            return Some(i);
        }
        i += 1;
    }
    proof {
        lemma_first_match(s, |e: TaskEventRecordView| e.id == event_id);
    }
    None
}

/// Pulls up to `limit` pending deliveries of one subscriber for one
/// task, in creation order, and marks the returned deliveries Consumed
/// in the same transition.
pub fn dequeue_task_event(
    input: DequeueTaskEventServiceInput,
    store: &mut ConnectorStore,
) -> (r: Result<Vec<DequeueTaskEventServiceOutput>, ServiceError>)
    requires
        old(store).wf(),
        match input.limit {
            Some(l) => l >= 0,
            None => true,
        },
    ensures
        final(store).wf(),
        r.is_ok(),
        final(store).tasks_v() == old(store).tasks_v(),
        final(store).events_v() == old(store).events_v(),
        final(store).subs_v() == old(store).subs_v(),
        final(store).next_event_id == old(store).next_event_id,
        final(store).clock == old(store).clock,
        r->Ok_0.deep_view() == dequeue_outputs(
            old(store).events_v(),
            old(store).dels_v(),
            input.subscriber_id,
            input.task_id,
            dequeue_limit(input.limit),
        ),
        final(store).dels_v() == dequeue_marked(
            old(store).events_v(),
            old(store).dels_v(),
            input.subscriber_id,
            input.task_id,
            dequeue_limit(input.limit),
        ),
{
    let ghost events0 = store.events_v();
    let ghost dels0 = store.dels_v();
    let ghost tasks0 = store.tasks_v();
    let ghost subs0 = store.subs_v();
    let ghost n0 = dequeue_limit(input.limit);
    let sub = input.subscriber_id;
    let task = input.task_id;

    let limit: usize = match input.limit {
        Some(l) => l as usize,
        None => 1,
    };
    let mut out: Vec<DequeueTaskEventServiceOutput> = Vec::new();
    let mut rem: usize = limit;
    let n = store.task_event_subscriptions.len();
    let mut i: usize = 0;
    proof {
        assert(out.deep_view() =~= Seq::<DequeueTaskEventServiceOutputView>::empty());
        assert(dels0.skip(0) =~= dels0);
        assert(store.dels_v().take(0) =~= Seq::<TaskEventSubscription>::empty());
        assert(Seq::<TaskEventSubscription>::empty() + dels0.skip(0) =~= dels0);
    }
    while i < n
        invariant
            i <= n,
            rem <= limit,
            n0 == dequeue_limit(input.limit),
            limit == n0,
            sub == input.subscriber_id,
            task == input.task_id,
            n == store.task_event_subscriptions.len(),
            store.tasks_v() == tasks0,
            store.events_v() == events0,
            store.subs_v() == subs0,
            store.next_event_id == old(store).next_event_id,
            store.clock == old(store).clock,
            store.dels_v().len() == dels0.len(),
            store.dels_v().skip(i as int) == dels0.skip(i as int),
            forall|k: int|
                0 <= k < dels0.len() ==> {
                    let m = #[trigger] store.dels_v()[k];
                    m.task_event_id == dels0[k].task_event_id && m.task_subscription_id
                        == dels0[k].task_subscription_id
                },
            dequeue_outputs(events0, dels0, sub, task, n0) == out.deep_view() + dequeue_outputs(
                events0,
                dels0.skip(i as int),
                sub,
                task,
                rem as nat,
            ),
            dequeue_marked(events0, dels0, sub, task, n0) == store.dels_v().take(i as int)
                + dequeue_marked(events0, dels0.skip(i as int), sub, task, rem as nat),
        decreases n - i,
    {
        let ghost pre = store.dels_v();
        let ghost out_pre = out.deep_view();
        let ghost rem_pre = rem as nat;
        let ghost drest = dels0.skip(i as int);
        proof {
            assert(drest.len() > 0);
            assert(drest[0] == dels0[i as int]);
            assert(drest.skip(1) =~= dels0.skip(i as int + 1));
            assert(pre.skip(i as int)[0] == pre[i as int]);
        }
        let d = store.task_event_subscriptions[i];
        proof {
            assert(d == dels0[i as int]);
        }
        let eligible_idx: Option<usize> = if d.task_subscription_id == sub && d.status
            == TaskEventSubscriptionStatus::Pending {
            match find_event_index(&store.task_events, d.task_event_id) {
                Some(ei) => {
                    if store.task_events[ei].task_id == task {
                        Some(ei)
                    } else {
                        None
                    }
                },
                None => None,
            }
        } else {
            None
        };
        proof {
            assert(eligible_idx.is_some() == delivery_eligible(events0, drest[0], sub, task));
            if eligible_idx.is_some() {
                assert(event_index(events0, drest[0].task_event_id) == eligible_idx->0);
            }
        }
        if rem > 0 && eligible_idx.is_some() {
            let ei = eligible_idx.unwrap();
            let event = &store.task_events[ei];
            out.push(
                DequeueTaskEventServiceOutput {
                    id: event.id,
                    task_id: event.task_id,
                    event_data: event.event_data.clone(),
                },
            );
            store.task_event_subscriptions[i] = TaskEventSubscription {
                task_event_id: d.task_event_id,
                task_subscription_id: d.task_subscription_id,
                status: TaskEventSubscriptionStatus::Consumed,
            };
            rem = rem - 1;
            proof {
                let o = output_of(events0[event_index(events0, drest[0].task_event_id)]);
                assert(out.deep_view() =~= out_pre.push(o));
                assert(dequeue_outputs(events0, drest, sub, task, rem_pre) == seq![o]
                    + dequeue_outputs(events0, drest.skip(1), sub, task, rem as nat));
                assert(out_pre + dequeue_outputs(events0, drest, sub, task, rem_pre)
                    =~= out.deep_view() + dequeue_outputs(
                    events0,
                    dels0.skip(i as int + 1),
                    sub,
                    task,
                    rem as nat,
                ));
                let md = TaskEventSubscription {
                    status: TaskEventSubscriptionStatus::Consumed,
                    ..drest[0]
                };
                assert(store.dels_v() =~= pre.update(i as int, md));
                assert(dequeue_marked(events0, drest, sub, task, rem_pre) == seq![md]
                    + dequeue_marked(events0, drest.skip(1), sub, task, rem as nat));
                assert(store.dels_v().take(i as int + 1) =~= pre.take(i as int) + seq![md]);
                assert(pre.take(i as int) + dequeue_marked(events0, drest, sub, task, rem_pre)
                    =~= store.dels_v().take(i as int + 1) + dequeue_marked(
                    events0,
                    dels0.skip(i as int + 1),
                    sub,
                    task,
                    rem as nat,
                ));
                assert(store.dels_v().skip(i as int + 1) =~= dels0.skip(i as int + 1));
            }
        } else {
            proof {
                assert(!(rem_pre > 0 && delivery_eligible(events0, drest[0], sub, task)));
                if rem_pre > 0 {
                    assert(dequeue_outputs(events0, drest, sub, task, rem_pre) == dequeue_outputs(
                        events0,
                        drest.skip(1),
                        sub,
                        task,
                        rem as nat,
                    ));
                } else {
                    assert(dequeue_outputs(events0, drest, sub, task, rem_pre) =~= dequeue_outputs(
                        events0,
                        drest.skip(1),
                        sub,
                        task,
                        rem as nat,
                    ));
                }
                assert(dequeue_marked(events0, drest, sub, task, rem_pre) == seq![drest[0]]
                    + dequeue_marked(events0, drest.skip(1), sub, task, rem as nat));
                assert(store.dels_v().take(i as int + 1) =~= store.dels_v().take(i as int) + seq![
                    dels0[i as int],
                ]);
                assert(store.dels_v().take(i as int) + dequeue_marked(
                    events0,
                    drest,
                    sub,
                    task,
                    rem_pre,
                ) =~= store.dels_v().take(i as int + 1) + dequeue_marked(
                    events0,
                    dels0.skip(i as int + 1),
                    sub,
                    task,
                    rem as nat,
                ));
                assert(store.dels_v().skip(i as int + 1) =~= dels0.skip(i as int + 1));
            }
        }
        i += 1;
    }
    proof {
        assert(dels0.skip(n as int) =~= Seq::<TaskEventSubscription>::empty());
        assert(dequeue_outputs(events0, dels0.skip(n as int), sub, task, rem as nat) =~= Seq::<
            DequeueTaskEventServiceOutputView,
        >::empty());
        assert(out.deep_view() + Seq::<DequeueTaskEventServiceOutputView>::empty() =~= out.deep_view());
        assert(dequeue_marked(events0, dels0.skip(n as int), sub, task, rem as nat) =~= Seq::<
            TaskEventSubscription,
        >::empty());
        assert(store.dels_v().take(n as int) =~= store.dels_v());
        assert(store.dels_v().take(n as int) + Seq::<TaskEventSubscription>::empty()
            =~= store.dels_v());
        lemma_dequeue_bounds(events0, dels0, sub, task, n0);
        assert(deliveries_wf(store.dels_v(), store.next_event_id));
    }
    Ok(out)
}

} // verus!
