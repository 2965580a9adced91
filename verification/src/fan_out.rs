//! Recording a protocol event and fanning it out to subscribers.
//!
//! Recording an event runs as one transaction: the event row is
//! inserted, the subscriptions registered for the task are looked up,
//! and one Pending delivery row is inserted per subscription found.
//! Either the whole set commits or none of it does; in the model the
//! operation is a single transition whose contract states the complete
//! effect, so an event is never visible without its full delivery set.
//! With no subscriptions the event still persists with zero deliveries.

use crate::error::ServiceError;
use crate::event::TaskEvent;
use crate::storage::TaskEventSubscriptionStatus;
use crate::store::{deliveries_wf, events_ordered, unique_subscriptions, ConnectorStore,
    TaskEventRecord, TaskEventRecordView, TaskEventSubscription, TaskSubscription};
use vstd::prelude::*;

verus! {

/// Which subscriptions a lookup asks for: all of them, or those
/// watching one of the listed tasks.
pub struct TaskSubscriptionFilter {
    pub task_id: Option<Vec<u128>>,
}

/// Whether one subscription passes the filter.
pub open spec fn sub_matches(sub: TaskSubscription, filter: Option<Seq<u128>>) -> bool {
    match filter {
        Some(ids) => ids.contains(sub.task_id),
        None => true,
    }
}

/// The subscriptions passing the filter, in store order.
pub open spec fn filtered_subs(s: Seq<TaskSubscription>, filter: Option<Seq<u128>>) -> Seq<
    TaskSubscription,
>
    decreases s.len(),
{
    if s.len() == 0 {
        Seq::<TaskSubscription>::empty()
    } else if sub_matches(s.last(), filter) {
        filtered_subs(s.drop_last(), filter).push(s.last())
    } else {
        filtered_subs(s.drop_last(), filter)
    }
}

/// The subscriptions registered for one task, in store order.
pub open spec fn subs_for_task(s: Seq<TaskSubscription>, task_id: u128) -> Seq<TaskSubscription> {
    filtered_subs(s, Some(seq![task_id]))
}

/// A filtered list keeps only elements of the original, with their
/// identifier uniqueness.
pub proof fn lemma_filtered_subs_wf(s: Seq<TaskSubscription>, filter: Option<Seq<u128>>)
    requires
        unique_subscriptions(s),
    ensures
        unique_subscriptions(filtered_subs(s, filter)),
        forall|i: int|
            0 <= i < filtered_subs(s, filter).len() ==> s.contains(
                #[trigger] filtered_subs(s, filter)[i],
            ),
        forall|i: int|
            0 <= i < filtered_subs(s, filter).len() ==> sub_matches(
                #[trigger] filtered_subs(s, filter)[i],
                filter,
            ),
    decreases s.len(),
{
    if s.len() > 0 {
        assert(unique_subscriptions(s.drop_last())) by {
            assert forall|i: int, j: int|
                0 <= i < j < s.drop_last().len() implies (#[trigger] s.drop_last()[i]).id
                != (#[trigger] s.drop_last()[j]).id by {
                assert(s.drop_last()[i] == s[i]);
                assert(s.drop_last()[j] == s[j]);
            }
        }
        lemma_filtered_subs_wf(s.drop_last(), filter);
        let f = filtered_subs(s, filter);
        let fd = filtered_subs(s.drop_last(), filter);
        assert forall|i: int| 0 <= i < fd.len() implies s.contains(fd[i]) by {
            assert(s.drop_last().contains(fd[i]));
            let j = choose|j: int| 0 <= j < s.drop_last().len() && s.drop_last()[j] == fd[i];
            assert(s[j] == fd[i]);
        }
        if sub_matches(s.last(), filter) {
            assert(f == fd.push(s.last()));
            assert forall|i: int, j: int| 0 <= i < j < f.len() implies (#[trigger] f[i]).id
                != (#[trigger] f[j]).id by {
                if j < fd.len() {
                } else {
                    assert(f[j] == s.last());
                    assert(s.contains(fd[i]));
                    let k = choose|k: int| 0 <= k < s.len() && s[k] == fd[i];
                    if k == s.len() - 1 {
                        assert(s.drop_last().contains(fd[i]));
                        let m = choose|m: int|
                            0 <= m < s.drop_last().len() && s.drop_last()[m] == fd[i];
                        assert(s[m] == fd[i]);
                        assert(s[m].id != s[s.len() - 1].id);
                    } else {
                        assert(s[k].id != s[s.len() - 1].id);
                    }
                }
            }
            assert forall|i: int| 0 <= i < f.len() implies s.contains(f[i]) by {
                if i < fd.len() {
                } else {
                    assert(f[i] == s.last());
                    assert(s[s.len() - 1] == s.last());
                }
            }
        }
    }
}

/// The delivery rows one event's fan-out creates: one per subscription,
/// in subscription order, all Pending.
pub open spec fn fan_out_deliveries(subs: Seq<TaskSubscription>, event_id: u128) -> Seq<
    TaskEventSubscription,
> {
    subs.map_values(
        |s: TaskSubscription|
            TaskEventSubscription {
                task_event_id: event_id,
                task_subscription_id: s.id,
                status: TaskEventSubscriptionStatus::Pending,
            },
    )
}

/// Fan-out cardinality: an event recorded while a task has S
/// subscriptions creates exactly S deliveries, one per subscription in
/// order, every one of them Pending and referencing the new event; with
/// S = 0 no delivery exists.
pub proof fn lemma_fan_out_cardinality(subs: Seq<TaskSubscription>, event_id: u128)
    ensures
        fan_out_deliveries(subs, event_id).len() == subs.len(),
        forall|i: int|
            0 <= i < subs.len() ==> (#[trigger] fan_out_deliveries(subs, event_id)[i])
                == (TaskEventSubscription {
                task_event_id: event_id,
                task_subscription_id: subs[i].id,
                status: TaskEventSubscriptionStatus::Pending,
            }),
{
}

/// Whether `x` occurs in `ids`.
fn contains_id(ids: &Vec<u128>, x: u128) -> (r: bool)
    ensures
        r == ids.deep_view().contains(x),
{
    let ghost s = ids.deep_view();
    let n = ids.len();
    let mut i: usize = 0;
    while i < n
        invariant
            i <= n,
            n == ids.len(),
            s == ids.deep_view(),
            forall|j: int| 0 <= j < i ==> s[j] != x,
        decreases n - i,
    {
        if ids[i] == x {
            assert(s[i as int] == x);
            return true;
        }
        i += 1;
    }
    assert(!s.contains(x));
    false
}

/// Looks up the subscriptions the filter asks for, in store order.
pub fn get_task_subscriptions(
    filter: TaskSubscriptionFilter,
    store: &ConnectorStore,
) -> (r: Result<Vec<TaskSubscription>, ServiceError>)
    ensures
        r.is_ok(),
        r->Ok_0.deep_view() == filtered_subs(store.subs_v(), filter.task_id.deep_view()),
{
    let ghost s = store.subs_v();
    let ghost fv = filter.task_id.deep_view();
    let mut out: Vec<TaskSubscription> = Vec::new();
    let n = store.task_subscriptions.len();
    let mut i: usize = 0;
    proof {
        assert(out.deep_view() =~= filtered_subs(s.take(0), fv));
    }
    while i < n
        invariant
            i <= n,
            n == store.task_subscriptions.len(),
            s == store.subs_v(),
            fv == filter.task_id.deep_view(),
            out.deep_view() == filtered_subs(s.take(i as int), fv),
        decreases n - i,
    {
        let sub = store.task_subscriptions[i];
        let keep = match &filter.task_id {
            Some(ids) => contains_id(ids, sub.task_id),
            None => true,
        };
        proof {
            assert(s.take(i as int + 1).drop_last() =~= s.take(i as int));
            assert(s.take(i as int + 1).last() == s[i as int]);
            assert(keep == sub_matches(s[i as int], fv));
        }
        if keep {
            out.push(sub);
            proof {
                assert(out.deep_view() =~= filtered_subs(s.take(i as int + 1), fv));
            }
        } else {
            proof {
                assert(out.deep_view() =~= filtered_subs(s.take(i as int + 1), fv));
            }
        }
        i += 1;
    }
    proof {
        assert(s.take(n as int) =~= s);
    }
    Ok(out)
}

/// Index of the subscription row with the given identifier, or -1.
pub open spec fn subscription_index(s: Seq<TaskSubscription>, id: u128) -> int {
    crate::seq_util::first_match(s, |x: TaskSubscription| x.id == id)
}

/// Registers one subscription. Subscription identifiers are unique: a
/// second row under an existing identifier is refused as a conflict.
pub fn add_task_subscription(
    store: &mut ConnectorStore,
    subscription: TaskSubscription,
) -> (r: Result<(), ServiceError>)
    requires
        old(store).wf(),
    ensures
        final(store).wf(),
        final(store).tasks_v() == old(store).tasks_v(),
        final(store).events_v() == old(store).events_v(),
        final(store).dels_v() == old(store).dels_v(),
        final(store).next_event_id == old(store).next_event_id,
        final(store).clock == old(store).clock,
        ({
            let i = subscription_index(old(store).subs_v(), subscription.id);
            &&& i == -1 ==> r.is_ok() && final(store).subs_v() == old(store).subs_v().push(
                subscription,
            )
            &&& i != -1 ==> r.is_err() && r->Err_0.kind == crate::error::ErrorKind::Conflict
                && final(store).subs_v() == old(store).subs_v()
        }),
{
    let ghost subs0 = store.subs_v();
    proof {
        crate::seq_util::lemma_first_match(subs0, |x: TaskSubscription| x.id == subscription.id);
    }
    let n = store.task_subscriptions.len();
    let mut i: usize = 0;
    while i < n
        invariant
            i <= n,
            n == store.task_subscriptions.len(),
            subs0 == store.subs_v(),
            store.wf(),
            store.tasks_v() == old(store).tasks_v(),
            store.events_v() == old(store).events_v(),
            store.dels_v() == old(store).dels_v(),
            store.next_event_id == old(store).next_event_id,
            store.clock == old(store).clock,
            forall|j: int| 0 <= j < i ==> (#[trigger] subs0[j]).id != subscription.id,
        decreases n - i,
    {
        if store.task_subscriptions[i].id == subscription.id {
            proof {
                assert(subs0[i as int].id == subscription.id);
                crate::seq_util::lemma_first_match(
                    subs0,
                    |x: TaskSubscription| x.id == subscription.id,
                );
            }
            return Err(ServiceError::of_kind(crate::error::ErrorKind::Conflict));
        }
        i += 1;
    }
    proof {
        crate::seq_util::lemma_first_match(subs0, |x: TaskSubscription| x.id == subscription.id);
    }
    store.task_subscriptions.push(subscription);
    proof {
        assert(store.subs_v() =~= subs0.push(subscription));
    }
    Ok(())
}

/// What a caller hands to `create_task_event`.
pub struct CreateTaskEventServiceInput {
    /// Row identifier of the task the event belongs to.
    pub task_id: u128,
    /// Identity of the caller recording the event.
    pub caller_id: Option<String>,
    /// The immutable payload to record.
    pub task_event: TaskEvent,
}

/// Records one event and fans it out: inserts the event row with the
/// next identifier and creation time, then one Pending delivery per
/// subscription registered for the task, as a single transition —
/// an interruption of the underlying transaction leaves neither the
/// event nor any delivery behind, and this contract states the complete
/// committed effect.
pub fn create_task_event(
    input: CreateTaskEventServiceInput,
    store: &mut ConnectorStore,
) -> (r: Result<(), ServiceError>)
    requires
        old(store).wf(),
        old(store).next_event_id < u128::MAX,
        old(store).clock < u64::MAX,
    ensures
        final(store).wf(),
        r.is_ok(),
        final(store).tasks_v() == old(store).tasks_v(),
        final(store).subs_v() == old(store).subs_v(),
        final(store).events_v() == old(store).events_v().push(
            TaskEventRecordView {
                id: old(store).next_event_id,
                task_id: input.task_id,
                caller_id: input.caller_id.deep_view(),
                event_data: input.task_event.deep_view(),
                created_at: old(store).clock,
                updated_at: old(store).clock,
            },
        ),
        final(store).dels_v() == old(store).dels_v() + fan_out_deliveries(
            subs_for_task(old(store).subs_v(), input.task_id),
            old(store).next_event_id,
        ),
        final(store).next_event_id == old(store).next_event_id + 1,
        final(store).clock == old(store).clock + 1,
{
    let ghost tasks0 = store.tasks_v();
    let ghost events0 = store.events_v();
    let ghost subs0 = store.subs_v();
    let ghost dels0 = store.dels_v();
    let ghost id0 = store.next_event_id;
    let ghost c0 = store.clock;

    let mut task_ids: Vec<u128> = Vec::new();
    task_ids.push(input.task_id);
    proof {
        assert(task_ids.deep_view() =~= seq![input.task_id]);
    }
    let subscriptions = match get_task_subscriptions(
        TaskSubscriptionFilter { task_id: Some(task_ids) },
        store,
    ) {
        Ok(s) => s,
        Err(e) => {
            return Err(e);
        },
    };
    let ghost subsv = subscriptions.deep_view();
    proof {
        assert(subsv == subs_for_task(subs0, input.task_id));
        lemma_filtered_subs_wf(subs0, Some(seq![input.task_id]));
    }

    let event_id = store.next_event_id;
    let created = store.clock;
    let event = TaskEventRecord {
        id: event_id,
        task_id: input.task_id,
        caller_id: input.caller_id,
        event_data: input.task_event,
        created_at: created,
        updated_at: created,
    };
    let ghost ev = event.deep_view();
    store.task_events.push(event);
    store.next_event_id = event_id + 1;
    store.clock = created + 1;
    proof {
        assert(store.events_v() =~= events0.push(ev));
    }

    let n = subscriptions.len();
    let mut i: usize = 0;
    while i < n
        invariant
            i <= n,
            n == subscriptions.len(),
            subsv == subscriptions.deep_view(),
            store.tasks_v() == tasks0,
            store.subs_v() == subs0,
            store.events_v() == events0.push(
                TaskEventRecordView {
                    id: id0,
                    task_id: input.task_id,
                    caller_id: input.caller_id.deep_view(),
                    event_data: input.task_event.deep_view(),
                    created_at: c0,
                    updated_at: c0,
                },
            ),
            store.next_event_id == id0 + 1,
            store.clock == c0 + 1,
            id0 < u128::MAX,
            event_id == id0,
            store.dels_v() == dels0 + fan_out_deliveries(subsv.take(i as int), id0),
        decreases n - i,
    {
        let sub = subscriptions[i];
        let delivery = TaskEventSubscription {
            task_event_id: event_id,
            task_subscription_id: sub.id,
            status: TaskEventSubscriptionStatus::Pending,
        };
        let ghost dels_before = store.dels_v();
        store.task_event_subscriptions.push(delivery);
        proof {
            assert(store.dels_v() =~= dels_before.push(delivery));
            assert(subsv.take(i as int + 1) =~= subsv.take(i as int).push(subsv[i as int]));
            assert(fan_out_deliveries(subsv.take(i as int + 1), id0) =~= fan_out_deliveries(
                subsv.take(i as int),
                id0,
            ).push(delivery));
            assert(store.dels_v() =~= dels0 + fan_out_deliveries(subsv.take(i as int + 1), id0));
        }
        i += 1;
    }
    proof {
        assert(subsv.take(n as int) =~= subsv);
        let dels1 = store.dels_v();
        let fo = fan_out_deliveries(subsv, id0);
        assert(dels1 == dels0 + fo);
        assert(events_ordered(store.events_v(), (id0 + 1) as u128, (c0 + 1) as u64)) by {
            assert forall|k: int| 0 <= k < events0.len() implies (#[trigger] store.events_v()[k])
                == events0[k] by {}
        }
        assert(deliveries_wf(dels1, (id0 + 1) as u128)) by {
            lemma_fan_out_cardinality(subsv, id0);
            assert forall|k: int| 0 <= k < dels0.len() implies (#[trigger] dels1[k])
                == dels0[k] by {}
            assert forall|a: int, b: int|
                0 <= a < b < dels1.len() implies !((#[trigger] dels1[a]).task_event_id
                == (#[trigger] dels1[b]).task_event_id && dels1[a].task_subscription_id
                == dels1[b].task_subscription_id) by {
                if a < dels0.len() && b >= dels0.len() {
                    assert(dels1[a].task_event_id < id0 + 1);
                    assert(dels1[a].task_event_id < id0 || dels1[a].task_event_id == id0);
                    assert(dels0[a].task_event_id < id0);
                    assert(dels1[b].task_event_id == id0);
                } else if a >= dels0.len() {
                    let ai = a - dels0.len();
                    let bi = b - dels0.len();
                    assert(dels1[a].task_subscription_id == subsv[ai].id);
                    assert(dels1[b].task_subscription_id == subsv[bi].id);
                }
            }
        }
    }
    Ok(())
}

} // verus!
