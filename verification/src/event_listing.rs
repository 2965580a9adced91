//! Listing the recorded events of tasks, newest first.
//!
//! A listing filters the event table by task and by event identifier,
//! orders the result by creation time descending, and returns one
//! offset/limit window of it. Events are immutable, so a row's update
//! time equals its creation time and ordering by either column yields
//! the same listing: the reverse of insertion order, which the store's
//! invariant ties to both columns.

use crate::error::ServiceError;
use crate::pagination::PaginationOptions;
use crate::store::{ConnectorStore, TaskEventRecord, TaskEventRecordView};
use vstd::prelude::*;

verus! {

/// The column a listing orders by; for immutable events both give the
/// same order.
#[derive(Clone, Copy, Debug, PartialEq, Eq, Structural)]
pub enum TaskEventOrderBy {
    CreatedAt,
    UpdatedAt,
}

/// What a caller hands to `retrieve_task_events`.
pub struct RetrieveTaskEventServiceInput {
    /// Keep only events of these task rows, when given.
    pub task_id_in: Option<Vec<u128>>,
    /// Keep only events with these identifiers, when given.
    pub id_in: Option<Vec<u128>>,
    /// Order key; creation time when absent.
    pub order_by: Option<TaskEventOrderBy>,
    pub pagination_options: PaginationOptions,
}

/// Whether one event row passes the listing's filters.
pub open spec fn event_row_matches(
    e: TaskEventRecordView,
    task_ids: Option<Seq<u128>>,
    ids: Option<Seq<u128>>,
) -> bool {
    &&& match task_ids {
        Some(s) => s.contains(e.task_id),
        None => true,
    }
    &&& match ids {
        Some(s) => s.contains(e.id),
        None => true,
    }
}

/// The filtered event rows, newest first.
pub open spec fn filtered_events_desc(
    s: Seq<TaskEventRecordView>,
    task_ids: Option<Seq<u128>>,
    ids: Option<Seq<u128>>,
) -> Seq<TaskEventRecordView>
    decreases s.len(),
{
    if s.len() == 0 {
        Seq::<TaskEventRecordView>::empty()
    } else if event_row_matches(s.last(), task_ids, ids) {
        seq![s.last()] + filtered_events_desc(s.drop_last(), task_ids, ids)
    } else {
        filtered_events_desc(s.drop_last(), task_ids, ids)
    }
}

/// Prepending one row to a listing appends it to the descending
/// filtered view (it is the oldest row, so it comes last).
proof fn lemma_filtered_desc_prepend(
    a: TaskEventRecordView,
    t: Seq<TaskEventRecordView>,
    task_ids: Option<Seq<u128>>,
    ids: Option<Seq<u128>>,
)
    ensures
        filtered_events_desc(seq![a] + t, task_ids, ids) == filtered_events_desc(
            t,
            task_ids,
            ids,
        ) + (if event_row_matches(a, task_ids, ids) {
            seq![a]
        } else {
            Seq::<TaskEventRecordView>::empty()
        }),
    decreases t.len(),
{
    let tail: Seq<TaskEventRecordView> = if event_row_matches(a, task_ids, ids) {
        seq![a]
    } else {
        Seq::<TaskEventRecordView>::empty()
    };
    if t.len() == 0 {
        let e = Seq::<TaskEventRecordView>::empty();
        assert(t =~= e);
        assert(seq![a] + t =~= seq![a]);
        assert(filtered_events_desc(e, task_ids, ids) == e);
        assert(seq![a].drop_last() =~= e);
        assert(seq![a].last() == a);
        if event_row_matches(a, task_ids, ids) {
            assert(filtered_events_desc(seq![a], task_ids, ids) == seq![a] + e);
            assert(seq![a] + e =~= e + tail);
        } else {
            assert(filtered_events_desc(seq![a], task_ids, ids) == e);
            assert(e =~= e + tail);
        }
    } else {
        let s = seq![a] + t;
        assert(s.last() == t.last());
        assert(s.drop_last() =~= seq![a] + t.drop_last());
        lemma_filtered_desc_prepend(a, t.drop_last(), task_ids, ids);
        if event_row_matches(t.last(), task_ids, ids) {
            assert(filtered_events_desc(s, task_ids, ids) =~= filtered_events_desc(
                t,
                task_ids,
                ids,
            ) + tail);
        } else {
            assert(filtered_events_desc(s, task_ids, ids) =~= filtered_events_desc(
                t,
                task_ids,
                ids,
            ) + tail);
        }
    }
}

/// Whether `x` occurs in `ids`.
fn id_list_contains(ids: &Vec<u128>, x: u128) -> (r: bool)
    ensures
        r == ids.deep_view().contains(x),
{
    let ghost s = ids.deep_view();
    let n = ids.len();
    let mut i: usize = 0;
    while i < n
        invariant
            i <= n,
            n == ids.len(),
            s == ids.deep_view(),
            forall|j: int| 0 <= j < i ==> s[j] != x,
        decreases n - i,
    {
        if ids[i] == x {
            assert(s[i as int] == x);
            return true;
        }
        i += 1;
    }
    assert(!s.contains(x));
    false
}

/// Lists the filtered events, newest first, returning the window the
/// pagination options ask for. Events are immutable, so both order
/// keys coincide with reverse insertion order under the store's
/// invariant.
pub fn retrieve_task_events(
    store: &ConnectorStore,
    input: RetrieveTaskEventServiceInput,
) -> (r: Result<Vec<TaskEventRecord>, ServiceError>)
    requires
        store.wf(),
        input.pagination_options.wf(),
    ensures
        r.is_ok(),
        ({
            let f = filtered_events_desc(
                store.events_v(),
                input.task_id_in.deep_view(),
                input.id_in.deep_view(),
            );
            let l = f.len() as int;
            let off = input.pagination_options.offset_int();
            let p = input.pagination_options.per_page as int;
            let start = if off < l {
                off
            } else {
                l
            };
            let end = if off + p < l {
                off + p
            } else {
                l
            };
            r->Ok_0.deep_view() == f.subrange(start, end)
        }),
{
    let ghost s = store.events_v();
    let ghost task_ids = input.task_id_in.deep_view();
    let ghost ids = input.id_in.deep_view();

    let mut desc: Vec<TaskEventRecord> = Vec::new();
    let n = store.task_events.len();
    let mut j: usize = n;
    proof {
        assert(s.skip(n as int) =~= Seq::<TaskEventRecordView>::empty());
        assert(desc.deep_view() =~= filtered_events_desc(s.skip(n as int), task_ids, ids));
    }
    while j > 0
        invariant
            j <= n,
            n == store.task_events.len(),
            s == store.events_v(),
            task_ids == input.task_id_in.deep_view(),
            ids == input.id_in.deep_view(),
            desc.deep_view() == filtered_events_desc(s.skip(j as int), task_ids, ids),
        decreases j,
    {
        j = j - 1;
        let e = &store.task_events[j];
        let matches_task = match &input.task_id_in {
            Some(v) => id_list_contains(v, e.task_id),
            None => true,
        };
        let matches_id = match &input.id_in {
            Some(v) => id_list_contains(v, e.id),
            None => true,
        };
        proof {
            assert((matches_task && matches_id) == event_row_matches(s[j as int], task_ids, ids));
            assert(s.skip(j as int) =~= seq![s[j as int]] + s.skip(j as int + 1));
            lemma_filtered_desc_prepend(s[j as int], s.skip(j as int + 1), task_ids, ids);
        }
        if matches_task && matches_id {
            let ghost before = desc.deep_view();
            desc.push(e.clone());
            proof {
                assert(desc.deep_view() =~= before.push(s[j as int]));
                assert(desc.deep_view() =~= filtered_events_desc(s.skip(j as int), task_ids, ids));
            }
        } else {
            proof {
                assert(filtered_events_desc(s.skip(j as int), task_ids, ids)
                    =~= filtered_events_desc(s.skip(j as int + 1), task_ids, ids));
            }
        }
    }
    proof {
        assert(s.skip(0) =~= s);
    }
    let ghost f = filtered_events_desc(s, task_ids, ids);

    let off = match input.pagination_options.offset() {
        Some(o) => o,
        None => 0,
    };
    let start = if off < desc.len() {
        off
    } else {
        desc.len()
    };
    let mut window = desc.split_off(start);
    window.truncate(input.pagination_options.limit());
    proof {
        let l = f.len() as int;
        let offi = input.pagination_options.offset_int();
        let p = input.pagination_options.per_page as int;
        let st = if offi < l {
            offi
        } else {
            l
        };
        let en = if offi + p < l {
            offi + p
        } else {
            l
        };
        assert(window.deep_view() =~= f.subrange(st, en));
    }
    Ok(window)
}

} // verus!
