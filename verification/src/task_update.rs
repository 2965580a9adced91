//! The aggregate merge: applying one update command to a task document.
//!
//! An update command carries any subset of a new status (with an optional
//! trailing message), a list of new messages, a list of artifact upserts,
//! and a replacement push-notification configuration. Merging replaces
//! the status, appends the status message and then the listed messages to
//! the history in the order given, upserts each artifact by key, and
//! leaves every other field untouched. A command whose artifacts violate
//! the keyed shape is rejected as a whole: the document is unchanged.

use crate::artifact::{upsert_artifact_seq, Artifact, ArtifactView};
use crate::error::{ErrorKind, ServiceError};
use crate::message::{Message, MessageView};
use crate::seq_util::{first_match, lemma_first_match};
use crate::storage::{spec_task_state_from_protocol, task_state_from_protocol};
use crate::store::{task_row_key, ConnectorStore, TaskRecord, TaskRecordView};
use crate::task_doc::{PushNotificationConfig, PushNotificationConfigView, Task, TaskDocument,
    TaskDocumentView, TaskStatus, TaskStatusView, TaskView};
use vstd::prelude::*;

verus! {

/// One update command against a task aggregate.
pub struct UpdateTaskParams {
    /// Replacement status; its attached message, if any, is appended to
    /// the history.
    pub status: Option<TaskStatus>,
    /// Artifacts to upsert by key, in the order given.
    pub artifacts_updates: Option<Vec<Artifact>>,
    /// Messages to append to the history, in the order given.
    pub new_messages: Option<Vec<Message>>,
    /// Replacement push-notification configuration (full replacement,
    /// no merge).
    pub push_notification: Option<PushNotificationConfig>,
    /// Identity of the caller issuing the command, recorded untouched.
    pub caller_id: Option<String>,
}

/// Ghost mirror of [`UpdateTaskParams`].
#[verifier::ext_equal]
pub ghost struct UpdateTaskParamsView {
    pub status: Option<TaskStatusView>,
    pub artifacts_updates: Option<Seq<ArtifactView>>,
    pub new_messages: Option<Seq<MessageView>>,
    pub push_notification: Option<PushNotificationConfigView>,
    pub caller_id: Option<Seq<char>>,
}

impl DeepView for UpdateTaskParams {
    type V = UpdateTaskParamsView;

    open spec fn deep_view(&self) -> UpdateTaskParamsView {
        UpdateTaskParamsView {
            status: self.status.deep_view(),
            artifacts_updates: self.artifacts_updates.deep_view(),
            new_messages: self.new_messages.deep_view(),
            push_notification: self.push_notification.deep_view(),
            caller_id: self.caller_id.deep_view(),
        }
    }
}

/// The message the command's status change attaches, if any.
pub open spec fn status_messages(p: UpdateTaskParamsView) -> Seq<MessageView> {
    match p.status {
        Some(s) => match s.message {
            Some(m) => seq![m],
            None => Seq::<MessageView>::empty(),
        },
        None => Seq::<MessageView>::empty(),
    }
}

/// The explicit message list of the command, empty when absent.
pub open spec fn listed_messages(p: UpdateTaskParamsView) -> Seq<MessageView> {
    match p.new_messages {
        Some(ms) => ms,
        None => Seq::<MessageView>::empty(),
    }
}

/// Everything one command appends to the history, in order: first the
/// status's attached message, then the explicit list.
pub open spec fn appended_messages(p: UpdateTaskParamsView) -> Seq<MessageView> {
    status_messages(p) + listed_messages(p)
}

/// The artifact upserts of the command, empty when absent.
pub open spec fn listed_artifacts(p: UpdateTaskParamsView) -> Seq<ArtifactView> {
    match p.artifacts_updates {
        Some(a) => a,
        None => Seq::<ArtifactView>::empty(),
    }
}

/// A command is well-formed when each artifact it upserts is.
pub open spec fn params_wf(p: UpdateTaskParamsView) -> bool {
    forall|i: int| 0 <= i < listed_artifacts(p).len() ==> (#[trigger] listed_artifacts(p)[i]).wf()
}

/// Keyed upsert of a whole list, first to last.
pub open spec fn upsert_all(arts: Seq<ArtifactView>, updates: Seq<ArtifactView>) -> Seq<
    ArtifactView,
>
    decreases updates.len(),
{
    if updates.len() == 0 {
        arts
    } else {
        upsert_artifact_seq(upsert_all(arts, updates.drop_last()), updates.last())
    }
}

/// The merged document: status replaced when supplied, messages
/// appended in order, artifacts upserted by key, all else untouched.
pub open spec fn merge_task_doc(t: TaskView, p: UpdateTaskParamsView) -> TaskView {
    TaskView {
        status: match p.status {
            Some(s) => s,
            None => t.status,
        },
        history: t.history + appended_messages(p),
        artifacts: upsert_all(t.artifacts, listed_artifacts(p)),
        ..t
    }
}

/// Every artifact in `arts` has a non-empty key.
fn all_artifacts_wf(arts: &Vec<Artifact>) -> (r: bool)
    ensures
        r == forall|i: int| 0 <= i < arts.deep_view().len() ==> (#[trigger] arts.deep_view()[i]).wf(),
{
    let ghost artsv = arts.deep_view();
    let n = arts.len();
    let mut i: usize = 0;
    while i < n
        invariant
            i <= n,
            n == arts.len(),
            artsv == arts.deep_view(),
            forall|j: int| 0 <= j < i ==> (#[trigger] artsv[j]).wf(),
        decreases n - i,
    {
        if arts[i].artifact_id.as_str().is_empty() {
            proof {
                assert(!artsv[i as int].wf());
            }
            return false;
        }
        i += 1;
    }
    true
}

/// Merges one update command into a task document in place.
///
/// Succeeds exactly when the command is well-formed; then the document
/// afterwards is [`merge_task_doc`] of the document before. A malformed
/// command (an artifact whose key is empty) is rejected as a conflict
/// and leaves the document untouched.
pub fn update_a2a_task(a2a_task: &mut Task, params: UpdateTaskParams) -> (r: Result<
    (),
    ServiceError,
>)
    ensures
        r.is_ok() <==> params_wf(params.deep_view()),
        r.is_ok() ==> final(a2a_task).deep_view() == merge_task_doc(
            old(a2a_task).deep_view(),
            params.deep_view(),
        ),
        r.is_err() ==> final(a2a_task).deep_view() == old(a2a_task).deep_view()
            && r->Err_0.kind == ErrorKind::Conflict,
{
    let ghost pv = params.deep_view();
    let ghost t0 = a2a_task.deep_view();

    // Validate the whole command before any mutation, so a rejected
    // command cannot leave a half-merged document behind.
    if let Some(arts) = &params.artifacts_updates {
        if !all_artifacts_wf(arts) {
            return Err(ServiceError::of_kind(ErrorKind::Conflict));
        }
    }
    proof {
        assert(params_wf(pv));
    }

    // Status replacement, with its attached message appended.
    if let Some(status) = params.status {
        let attached = status.message.clone();
        proof {
            assert(attached.deep_view() == status.deep_view().message);
        }
        a2a_task.status = status;
        if let Some(message) = attached {
            a2a_task.add_message(message);
        }
    }
    let ghost t1 = a2a_task.deep_view();
    proof {
        assert(t1 =~= (TaskView {
            status: match pv.status {
                Some(s) => s,
                None => t0.status,
            },
            history: t0.history + status_messages(pv),
            ..t0
        }));
    }

    // Explicit messages, appended in the order given.
    if let Some(messages) = &params.new_messages {
        let ghost msgs = messages.deep_view();
        let n = messages.len();
        let mut i: usize = 0;
        while i < n
            invariant
                i <= n,
                n == messages.len(),
                msgs == messages.deep_view(),
                a2a_task.deep_view() == (TaskView { history: t1.history + msgs.take(i as int), ..t1 }),
            decreases n - i,
        {
            let message = messages[i].clone();
            proof {
                assert(message.deep_view() == msgs[i as int]);
            }
            a2a_task.add_message(message);
            proof {
                assert(t1.history + msgs.take(i as int + 1) =~= (t1.history + msgs.take(
                    i as int,
                )).push(msgs[i as int]));
            }
            i += 1;
        }
        proof {
            assert(msgs.take(n as int) =~= msgs);
        }
    }
    let ghost t2 = a2a_task.deep_view();
    proof {
        assert(t2 =~= (TaskView { history: t1.history + listed_messages(pv), ..t1 }));
        assert(t2.history =~= t0.history + appended_messages(pv));
    }

    // Artifact upserts, by key, first to last.
    if let Some(artifacts) = &params.artifacts_updates {
        let ghost ups = artifacts.deep_view();
        let n = artifacts.len();
        let mut i: usize = 0;
        while i < n
            invariant
                i <= n,
                n == artifacts.len(),
                ups == artifacts.deep_view(),
                params_wf(pv),
                ups == listed_artifacts(pv),
                a2a_task.deep_view() == (TaskView {
                    artifacts: upsert_all(t2.artifacts, ups.take(i as int)),
                    ..t2
                }),
            decreases n - i,
        {
            let artifact = artifacts[i].clone();
            proof {
                assert(artifact.deep_view() == ups[i as int]);
                assert(ups[i as int].wf());
            }
            let res = a2a_task.upsert_artifact(artifact);
            proof {
                assert(res.is_ok());
                assert(ups.take(i as int + 1).drop_last() =~= ups.take(i as int));
                assert(ups.take(i as int + 1).last() == ups[i as int]);
            }
            i += 1;
        }
        proof {
            assert(ups.take(n as int) =~= ups);
        }
    }
    proof {
        assert(a2a_task.deep_view() =~= merge_task_doc(t0, pv));
    }
    Ok(())
}

/// Whether a task row answers to the addressed (tenant, agent, task).
pub open spec fn task_row_matches(
    r: TaskRecordView,
    tenant_id: u128,
    agent_id: u128,
    task_id: Seq<char>,
) -> bool {
    r.tenant_id == tenant_id && r.agent_id == agent_id && r.task_id == task_id
}

/// Index of the addressed task row, or -1 when no row matches.
pub open spec fn task_row_index(
    s: Seq<TaskRecordView>,
    tenant_id: u128,
    agent_id: u128,
    task_id: Seq<char>,
) -> int {
    first_match(s, |r: TaskRecordView| task_row_matches(r, tenant_id, agent_id, task_id))
}

/// `task_row_index` finds the first matching row, or none exists.
pub proof fn lemma_task_row_index(
    s: Seq<TaskRecordView>,
    tenant_id: u128,
    agent_id: u128,
    task_id: Seq<char>,
)
    ensures
        task_row_index(s, tenant_id, agent_id, task_id) == -1 ==> forall|i: int|
            0 <= i < s.len() ==> !task_row_matches(#[trigger] s[i], tenant_id, agent_id, task_id),
        task_row_index(s, tenant_id, agent_id, task_id) != -1 ==> {
            let i = task_row_index(s, tenant_id, agent_id, task_id);
            &&& 0 <= i < s.len()
            &&& task_row_matches(s[i], tenant_id, agent_id, task_id)
            &&& forall|j: int|
                0 <= j < i ==> !task_row_matches(#[trigger] s[j], tenant_id, agent_id, task_id)
        },
{
    lemma_first_match(s, |r: TaskRecordView| task_row_matches(r, tenant_id, agent_id, task_id));
}

/// Whether the addressed row accepts the command: a malformed stored
/// document refuses every command; a typed document asks the command to
/// be well-formed; a row without a document ignores the document part of
/// the command altogether.
pub open spec fn update_accepted(row: TaskRecordView, p: UpdateTaskParamsView) -> bool {
    match row.a2a_task {
        Some(TaskDocumentView::Valid(_)) => params_wf(p),
        Some(TaskDocumentView::Malformed) => false,
        None => true,
    }
}

/// The failure kind a refused command reports.
pub open spec fn update_error_kind(row: TaskRecordView, p: UpdateTaskParamsView) -> ErrorKind {
    match row.a2a_task {
        Some(TaskDocumentView::Malformed) => ErrorKind::Validation,
        _ => ErrorKind::Conflict,
    }
}

/// The row after one accepted command: the document merged, the
/// lifecycle column re-derived from the supplied status, the
/// push-notification column fully replaced when supplied, everything
/// else untouched.
pub open spec fn merged_task_row(row: TaskRecordView, p: UpdateTaskParamsView) -> TaskRecordView {
    TaskRecordView {
        task_state: match p.status {
            Some(s) => spec_task_state_from_protocol(s.state),
            None => row.task_state,
        },
        push_notification: match p.push_notification {
            Some(c) => Some(c),
            None => row.push_notification,
        },
        a2a_task: match row.a2a_task {
            Some(TaskDocumentView::Valid(t)) => Some(
                TaskDocumentView::Valid(merge_task_doc(t, p)),
            ),
            other => other,
        },
        ..row
    }
}

/// Position of the addressed task row, as [`task_row_index`] defines it.
fn find_task_row(
    tasks: &Vec<TaskRecord>,
    tenant_id: u128,
    agent_id: u128,
    task_id: &String,
) -> (r: Option<usize>)
    ensures
        match r {
            Some(i) => 0 <= i < tasks.len() && task_row_index(
                tasks.deep_view(),
                tenant_id,
                agent_id,
                task_id.deep_view(),
            ) == i,
            None => task_row_index(tasks.deep_view(), tenant_id, agent_id, task_id.deep_view())
                == -1,
        },
{
    let ghost s = tasks.deep_view();
    let ghost key = task_id.deep_view();
    proof {
        lemma_task_row_index(s, tenant_id, agent_id, key);
    }
    let n = tasks.len();
    let mut i: usize = 0;
    while i < n
        invariant
            i <= n,
            n == tasks.len(),
            s == tasks.deep_view(),
            key == task_id.deep_view(),
            forall|j: int| 0 <= j < i ==> !task_row_matches(#[trigger] s[j], tenant_id, agent_id, key),
        decreases n - i,
    {
        let row = &tasks[i];
        if row.tenant_id == tenant_id && row.agent_id == agent_id && row.task_id == *task_id {
            proof {
                assert(task_row_matches(s[i as int], tenant_id, agent_id, key));
                lemma_task_row_index(s, tenant_id, agent_id, key);
            }
            return Some(i);
        }
        i += 1;
    }
    proof {
        lemma_task_row_index(s, tenant_id, agent_id, key);
    }
    None
}

/// Creates one task aggregate row. The (tenant, agent, task) triple is
/// a key: a second row under an existing triple is refused as a
/// conflict, so later commands address exactly one row.
pub fn create_task(store: &mut ConnectorStore, row: TaskRecord) -> (r: Result<(), ServiceError>)
    requires
        old(store).wf(),
    ensures
        final(store).wf(),
        final(store).events_v() == old(store).events_v(),
        final(store).subs_v() == old(store).subs_v(),
        final(store).dels_v() == old(store).dels_v(),
        final(store).next_event_id == old(store).next_event_id,
        final(store).clock == old(store).clock,
        ({
            let i = task_row_index(
                old(store).tasks_v(),
                row.tenant_id,
                row.agent_id,
                row.task_id.deep_view(),
            );
            &&& i == -1 ==> r.is_ok() && final(store).tasks_v() == old(store).tasks_v().push(
                row.deep_view(),
            )
            &&& i != -1 ==> r.is_err() && r->Err_0.kind == ErrorKind::Conflict
                && final(store).tasks_v() == old(store).tasks_v()
        }),
{
    let ghost tasks0 = store.tasks.deep_view();
    let ghost rv = row.deep_view();
    match find_task_row(&store.tasks, row.tenant_id, row.agent_id, &row.task_id) {
        Some(_) => Err(ServiceError::of_kind(ErrorKind::Conflict)),
        None => {
            proof {
                lemma_task_row_index(tasks0, rv.tenant_id, rv.agent_id, rv.task_id);
            }
            store.tasks.push(row);
            proof {
                assert(store.tasks.deep_view() =~= tasks0.push(rv));
                assert(crate::store::unique_task_rows(store.tasks.deep_view())) by {
                    assert forall|i: int, j: int|
                        0 <= i < j < store.tasks.deep_view().len() implies task_row_key(
                        #[trigger] store.tasks.deep_view()[i],
                    ) != task_row_key(#[trigger] store.tasks.deep_view()[j]) by {
                        if j == tasks0.len() as int {
                            assert(!task_row_matches(
                                tasks0[i],
                                rv.tenant_id,
                                rv.agent_id,
                                rv.task_id,
                            ));
                        }
                    }
                }
            }
            Ok(())
        },
    }
}

/// Loads the addressed task row, merges one command into it, and writes
/// the merged row back; the returned record is the new persisted state.
///
/// In the relational engine the load takes an exclusive row lock, so
/// commands against the same task serialize while different tasks
/// proceed independently; the model applies commands one at a time,
/// which is exactly the serialized behaviour. Fails with `NotFound`
/// when no row matches, with `Validation` when the stored document does
/// not decode into the protocol shape, and with `Conflict` when the
/// command's artifacts violate the keyed shape; a failed command leaves
/// the store untouched.
pub fn update_task(
    store: &mut ConnectorStore,
    tenant_id: u128,
    agent_id: u128,
    task_id: &String,
    params: UpdateTaskParams,
) -> (r: Result<TaskRecord, ServiceError>)
    requires
        old(store).wf(),
    ensures
        final(store).wf(),
        final(store).events_v() == old(store).events_v(),
        final(store).subs_v() == old(store).subs_v(),
        final(store).dels_v() == old(store).dels_v(),
        final(store).next_event_id == old(store).next_event_id,
        final(store).clock == old(store).clock,
        ({
            let i = task_row_index(old(store).tasks_v(), tenant_id, agent_id, task_id.deep_view());
            let pv = params.deep_view();
            &&& i == -1 ==> r.is_err() && r->Err_0.kind == ErrorKind::NotFound
                && final(store).tasks_v() == old(store).tasks_v()
            &&& i != -1 && !update_accepted(old(store).tasks_v()[i], pv) ==> r.is_err()
                && r->Err_0.kind == update_error_kind(old(store).tasks_v()[i], pv)
                && final(store).tasks_v() == old(store).tasks_v()
            &&& i != -1 && update_accepted(old(store).tasks_v()[i], pv) ==> r.is_ok()
                && r->Ok_0.deep_view() == merged_task_row(old(store).tasks_v()[i], pv)
                && final(store).tasks_v() == old(store).tasks_v().update(
                i,
                merged_task_row(old(store).tasks_v()[i], pv),
            )
        }),
{
    let ghost pv = params.deep_view();
    let ghost tasks0 = store.tasks.deep_view();
    let i = match find_task_row(&store.tasks, tenant_id, agent_id, task_id) {
        Some(i) => i,
        None => {
            return Err(ServiceError::of_kind(ErrorKind::NotFound));
        },
    };
    let ghost row0 = tasks0[i as int];
    let mut row = store.tasks[i].clone();

    let UpdateTaskParams { status, artifacts_updates, new_messages, push_notification, caller_id } =
        params;
    let state_opt = match &status {
        Some(s) => Some(s.state),
        None => None,
    };
    match &mut row.a2a_task {
        Some(doc) => {
            match doc {
                TaskDocument::Malformed => {
                    return Err(ServiceError::of_kind(ErrorKind::Validation));
                },
                TaskDocument::Valid(t) => {
                    let doc_cmd = UpdateTaskParams {
                        status,
                        artifacts_updates,
                        new_messages,
                        push_notification: None,
                        caller_id,
                    };
                    let ghost dv = doc_cmd.deep_view();
                    proof {
                        assert(params_wf(dv) == params_wf(pv));
                        assert(merge_task_doc(t.deep_view(), dv) =~= merge_task_doc(
                            t.deep_view(),
                            pv,
                        ));
                    }
                    match update_a2a_task(t, doc_cmd) {
                        Ok(()) => {},
                        Err(e) => {
                            return Err(e);
                        },
                    }
                },
            }
        },
        None => {},
    }
    if let Some(st) = state_opt {
        row.task_state = task_state_from_protocol(st);
    }
    if let Some(pn) = push_notification {
        row.push_notification = Some(pn);
    }
    proof {
        assert(row.deep_view() =~= merged_task_row(row0, pv));
    }
    let out = row.clone();
    store.tasks[i] = row;
    proof {
        assert(store.tasks.deep_view() =~= tasks0.update(i as int, merged_task_row(row0, pv)));
        assert(task_row_key(merged_task_row(row0, pv)) == task_row_key(row0));
        assert(crate::store::unique_task_rows(store.tasks.deep_view()));
    }
    Ok(out)
}

/// Applying a whole sequence of commands, first to last.
pub open spec fn apply_updates(t: TaskView, cmds: Seq<UpdateTaskParamsView>) -> TaskView
    decreases cmds.len(),
{
    if cmds.len() == 0 {
        t
    } else {
        merge_task_doc(apply_updates(t, cmds.drop_last()), cmds.last())
    }
}

/// Everything a sequence of commands appends to the history, in call
/// order.
pub open spec fn all_appended_messages(cmds: Seq<UpdateTaskParamsView>) -> Seq<MessageView>
    decreases cmds.len(),
{
    if cmds.len() == 0 {
        Seq::<MessageView>::empty()
    } else {
        all_appended_messages(cmds.drop_last()) + appended_messages(cmds.last())
    }
}

/// The message history is append-only across any sequence of merges:
/// the final history is the initial history followed by every appended
/// message, concatenated in call order, with no reordering and no loss.
pub proof fn lemma_merge_history_append(t: TaskView, cmds: Seq<UpdateTaskParamsView>)
    ensures
        apply_updates(t, cmds).history == t.history + all_appended_messages(cmds),
    decreases cmds.len(),
{
    if cmds.len() == 0 {
        assert(t.history + all_appended_messages(cmds) =~= t.history);
    } else {
        lemma_merge_history_append(t, cmds.drop_last());
        assert(apply_updates(t, cmds).history =~= t.history + all_appended_messages(cmds));
    }
}

/// Upserting one update list after another is upserting their
/// concatenation: applying commands one at a time loses no artifact
/// update.
pub proof fn lemma_upsert_all_concat(
    arts: Seq<ArtifactView>,
    u1: Seq<ArtifactView>,
    u2: Seq<ArtifactView>,
)
    ensures
        upsert_all(arts, u1 + u2) == upsert_all(upsert_all(arts, u1), u2),
    decreases u2.len(),
{
    if u2.len() == 0 {
        assert(u1 + u2 =~= u1);
    } else {
        assert((u1 + u2).drop_last() =~= u1 + u2.drop_last());
        assert((u1 + u2).last() == u2.last());
        lemma_upsert_all_concat(arts, u1, u2.drop_last());
    }
}

/// Row-lock serialization leaves no update behind: two commands against
/// the same task, run under the row lock in either order, produce the
/// document of the corresponding sequential application — both
/// commands' messages are appended in the winners' order, both
/// commands' artifact upserts are applied in that order, and none of
/// either is lost.
pub proof fn lemma_serialized_merges(
    t: TaskView,
    c1: UpdateTaskParamsView,
    c2: UpdateTaskParamsView,
)
    ensures
        merge_task_doc(merge_task_doc(t, c1), c2).history == t.history + appended_messages(c1)
            + appended_messages(c2),
        merge_task_doc(merge_task_doc(t, c2), c1).history == t.history + appended_messages(c2)
            + appended_messages(c1),
        merge_task_doc(merge_task_doc(t, c1), c2).artifacts == upsert_all(
            t.artifacts,
            listed_artifacts(c1) + listed_artifacts(c2),
        ),
        merge_task_doc(merge_task_doc(t, c2), c1).artifacts == upsert_all(
            t.artifacts,
            listed_artifacts(c2) + listed_artifacts(c1),
        ),
{
    assert(merge_task_doc(merge_task_doc(t, c1), c2).history =~= t.history + appended_messages(c1)
        + appended_messages(c2));
    assert(merge_task_doc(merge_task_doc(t, c2), c1).history =~= t.history + appended_messages(c2)
        + appended_messages(c1));
    lemma_upsert_all_concat(t.artifacts, listed_artifacts(c1), listed_artifacts(c2));
    lemma_upsert_all_concat(t.artifacts, listed_artifacts(c2), listed_artifacts(c1));
}

} // verus!
