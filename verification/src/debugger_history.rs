//! The debug-history audit log: one stored document per (task, url).
//!
//! A history entry records the protocol task document that a debugging
//! call carried, keyed by the task's protocol identifier and the url it
//! was exchanged with. Storing an entry upserts by that key — the
//! payload of the last call wins — and retrieval filters by task
//! identifier and url.

use crate::error::{ErrorKind, ServiceError};
use crate::seq_util::{first_match, lemma_first_match};
use crate::task_doc::{TaskDocument, TaskDocumentView};
use vstd::prelude::*;

verus! {

/// One stored debug-history row.
#[derive(Debug, PartialEq, Eq)]
pub struct DebuggerHistory {
    pub id: u128,
    /// Protocol identifier of the task the document speaks about.
    pub task_id: String,
    /// Where the document was exchanged.
    pub url: String,
    /// The exchanged task document, as stored.
    pub payload: TaskDocument,
}

/// Ghost mirror of [`DebuggerHistory`].
#[verifier::ext_equal]
pub ghost struct DebuggerHistoryView {
    pub id: u128,
    pub task_id: Seq<char>,
    pub url: Seq<char>,
    pub payload: TaskDocumentView,
}

impl DeepView for DebuggerHistory {
    type V = DebuggerHistoryView;

    open spec fn deep_view(&self) -> DebuggerHistoryView {
        DebuggerHistoryView {
            id: self.id,
            task_id: self.task_id.deep_view(),
            url: self.url.deep_view(),
            payload: self.payload.deep_view(),
        }
    }
}

impl Clone for DebuggerHistory {
    fn clone(&self) -> (r: Self)
        ensures
            r.deep_view() == self.deep_view(),
    {
        DebuggerHistory {
            id: self.id,
            task_id: self.task_id.clone(),
            url: self.url.clone(),
            payload: self.payload.clone(),
        }
    }
}

/// A row as handed to an insert: everything but the server-assigned
/// identifier.
#[derive(Debug, PartialEq, Eq)]
pub struct DebuggerHistoryInsert {
    pub task_id: String,
    pub url: String,
    pub payload: TaskDocument,
}

/// What a caller hands to `create_debug_history_entry`: the url and the
/// task document the call carried.
pub struct DebuggerHistoryServiceInput {
    pub url: String,
    pub task: TaskDocument,
}

/// One retrieved history row.
#[derive(Debug, PartialEq, Eq)]
pub struct DebuggerHistoryServiceOutput {
    pub id: u128,
    pub task_id: String,
    pub url: String,
    pub payload: TaskDocument,
}

/// Ghost mirror of [`DebuggerHistoryServiceOutput`].
#[verifier::ext_equal]
pub ghost struct DebuggerHistoryServiceOutputView {
    pub id: u128,
    pub task_id: Seq<char>,
    pub url: Seq<char>,
    pub payload: TaskDocumentView,
}

impl DeepView for DebuggerHistoryServiceOutput {
    type V = DebuggerHistoryServiceOutputView;

    open spec fn deep_view(&self) -> DebuggerHistoryServiceOutputView {
        DebuggerHistoryServiceOutputView {
            id: self.id,
            task_id: self.task_id.deep_view(),
            url: self.url.deep_view(),
            payload: self.payload.deep_view(),
        }
    }
}

/// Which rows a retrieval asks for.
pub struct RetrieveDebuggerHistoryParams {
    pub task_id: Option<String>,
    pub url: Option<String>,
}

/// The query parameters of the history endpoint, as the transport hands
/// them over.
pub struct GetDebuggerHistoryQueryParams {
    pub task_id: Option<String>,
    pub url: Option<String>,
}

/// Whether a row answers to the (task, url) upsert key.
pub open spec fn history_key_matches(
    r: DebuggerHistoryView,
    task_id: Seq<char>,
    url: Seq<char>,
) -> bool {
    r.task_id == task_id && r.url == url
}

/// Index of the first row with the given upsert key, or -1.
pub open spec fn history_index(
    s: Seq<DebuggerHistoryView>,
    task_id: Seq<char>,
    url: Seq<char>,
) -> int {
    first_match(s, |r: DebuggerHistoryView| history_key_matches(r, task_id, url))
}

/// The table after storing one entry: the existing (task, url) row's
/// payload replaced in place, or a fresh row appended.
pub open spec fn history_after_upsert(
    s: Seq<DebuggerHistoryView>,
    task_id: Seq<char>,
    url: Seq<char>,
    payload: TaskDocumentView,
    new_id: u128,
) -> Seq<DebuggerHistoryView> {
    let i = history_index(s, task_id, url);
    if i == -1 {
        s.push(DebuggerHistoryView { id: new_id, task_id, url, payload })
    } else {
        s.update(i, DebuggerHistoryView { payload, ..s[i] })
    }
}

/// Stores one history entry, upserting by (task identifier, url): the
/// payload of the last call wins. A document that does not decode into
/// the protocol task shape carries no task identifier and is rejected
/// as a validation failure. `new_id` is the server-assigned identifier
/// a freshly inserted row takes.
pub fn create_debug_history_entry(
    input: DebuggerHistoryServiceInput,
    table: &mut Vec<DebuggerHistory>,
    new_id: u128,
) -> (r: Result<(), ServiceError>)
    ensures
        r.is_ok() <==> input.task is Valid,
        r.is_ok() ==> final(table).deep_view() == history_after_upsert(
            old(table).deep_view(),
            input.task->Valid_0.deep_view().id,
            input.url.deep_view(),
            input.task.deep_view(),
            new_id,
        ),
        r.is_err() ==> final(table).deep_view() == old(table).deep_view() && r->Err_0.kind
            == ErrorKind::Validation,
{
    let ghost s0 = table.deep_view();
    let task = match input.task {
        TaskDocument::Valid(t) => t,
        TaskDocument::Malformed => {
            return Err(ServiceError::of_kind(ErrorKind::Validation));
        },
    };
    let ghost key = task.deep_view().id;
    let ghost urlv = input.url.deep_view();
    proof {
        lemma_first_match(s0, |r: DebuggerHistoryView| history_key_matches(r, key, urlv));
    }
    let n = table.len();
    let mut i: usize = 0;
    let mut found: Option<usize> = None;
    while i < n
        invariant
            i <= n,
            n == table.len(),
            s0 == table.deep_view(),
            key == task.deep_view().id,
            urlv == input.url.deep_view(),
            match found {
                Some(k) => 0 <= k < n && history_index(s0, key, urlv) == k,
                None => forall|j: int| 0 <= j < i ==> !history_key_matches(#[trigger] s0[j], key, urlv),
            },
            found.is_some() ==> i == n,
        decreases n - i,
    {
        if table[i].task_id == task.id && table[i].url == input.url {
            proof {
                assert(history_key_matches(s0[i as int], key, urlv));
                lemma_first_match(s0, |r: DebuggerHistoryView| history_key_matches(r, key, urlv));
            }
            found = Some(i);
            i = n;
        } else {
            i += 1;
        }
    }
    match found {
        Some(k) => {
            let id = table[k].id;
            let task_id = table[k].task_id.clone();
            let url = table[k].url.clone();
            table[k] = DebuggerHistory { id, task_id, url, payload: TaskDocument::Valid(task) };
            proof {
                assert(table.deep_view() =~= history_after_upsert(
                    s0,
                    key,
                    urlv,
                    TaskDocumentView::Valid(task.deep_view()),
                    new_id,
                ));
            }
        },
        None => {
            proof {
                lemma_first_match(s0, |r: DebuggerHistoryView| history_key_matches(r, key, urlv));
                assert(history_index(s0, key, urlv) == -1);
            }
            let url = input.url;
            let task_id = task.id.clone();
            table.push(
                DebuggerHistory { id: new_id, task_id, url, payload: TaskDocument::Valid(task) },
            );
            proof {
                assert(table.deep_view() =~= history_after_upsert(
                    s0,
                    key,
                    urlv,
                    TaskDocumentView::Valid(task.deep_view()),
                    new_id,
                ));
            }
        },
    }
    Ok(())
}

/// Whether a row passes the retrieval filters.
pub open spec fn history_row_matches(
    r: DebuggerHistoryView,
    task_id: Option<Seq<char>>,
    url: Option<Seq<char>>,
) -> bool {
    &&& match task_id {
        Some(t) => r.task_id == t,
        None => true,
    }
    &&& match url {
        Some(u) => r.url == u,
        None => true,
    }
}

/// The filtered rows, in store order, as retrieval outputs.
pub open spec fn filtered_history(
    s: Seq<DebuggerHistoryView>,
    task_id: Option<Seq<char>>,
    url: Option<Seq<char>>,
) -> Seq<DebuggerHistoryServiceOutputView>
    decreases s.len(),
{
    if s.len() == 0 {
        Seq::<DebuggerHistoryServiceOutputView>::empty()
    } else if history_row_matches(s.last(), task_id, url) {
        filtered_history(s.drop_last(), task_id, url).push(
            DebuggerHistoryServiceOutputView {
                id: s.last().id,
                task_id: s.last().task_id,
                url: s.last().url,
                payload: s.last().payload,
            },
        )
    } else {
        filtered_history(s.drop_last(), task_id, url)
    }
}

/// Retrieves the stored history rows passing the filters, in store
/// order.
pub fn retrieve_debugger_history(
    params: RetrieveDebuggerHistoryParams,
    table: &Vec<DebuggerHistory>,
) -> (r: Result<Vec<DebuggerHistoryServiceOutput>, ServiceError>)
    ensures
        r.is_ok(),
        r->Ok_0.deep_view() == filtered_history(
            table.deep_view(),
            params.task_id.deep_view(),
            params.url.deep_view(),
        ),
{
    let ghost s = table.deep_view();
    let ghost tidv = params.task_id.deep_view();
    let ghost urlv = params.url.deep_view();
    let mut out: Vec<DebuggerHistoryServiceOutput> = Vec::new();
    let n = table.len();
    let mut i: usize = 0;
    proof {
        assert(out.deep_view() =~= filtered_history(s.take(0), tidv, urlv));
    }
    while i < n
        invariant
            i <= n,
            n == table.len(),
            s == table.deep_view(),
            tidv == params.task_id.deep_view(),
            urlv == params.url.deep_view(),
            out.deep_view() == filtered_history(s.take(i as int), tidv, urlv),
        decreases n - i,
    {
        let row = &table[i];
        let matches_task = match &params.task_id {
            Some(t) => row.task_id == *t,
            None => true,
        };
        let matches_url = match &params.url {
            Some(u) => row.url == *u,
            None => true,
        };
        proof {
            assert((matches_task && matches_url) == history_row_matches(s[i as int], tidv, urlv));
            assert(s.take(i as int + 1).drop_last() =~= s.take(i as int));
            assert(s.take(i as int + 1).last() == s[i as int]);
        }
        if matches_task && matches_url {
            let ghost before = out.deep_view();
            out.push(
                DebuggerHistoryServiceOutput {
                    id: row.id,
                    task_id: row.task_id.clone(),
                    url: row.url.clone(),
                    payload: row.payload.clone(),
                },
            );
            proof {
                assert(out.deep_view() =~= filtered_history(s.take(i as int + 1), tidv, urlv));
            }
        } else {
            proof {
                assert(out.deep_view() =~= filtered_history(s.take(i as int + 1), tidv, urlv));
            }
        }
        i += 1;
    }
    proof {
        assert(s.take(n as int) =~= s);
    }
    Ok(out)
}

} // verus!
