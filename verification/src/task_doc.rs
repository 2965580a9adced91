//! The protocol task document: the aggregate state of one task.
//!
//! A task document holds the task's protocol identifier, its current
//! status, an append-only message history, a keyed set of artifacts, and
//! free-form metadata. The store keeps it as an opaque column; it is
//! decoded into this typed shape and validated on every load, so a stored
//! document that does not match the protocol shape surfaces as a
//! validation failure instead of being trusted.

use crate::artifact::{
    artifact_index, lemma_artifact_index_spec, lemma_upsert_preserves_unique,
    unique_artifact_keys, upsert_artifact_seq, Artifact, ArtifactView,
};
use crate::error::ErrorKind;
use crate::message::{Message, MessageView};
use crate::part::{MetaEntryView, Metadata};
use vstd::prelude::*;

verus! {

/// Protocol-side lifecycle state of a task.
#[derive(Clone, Copy, Debug, PartialEq, Eq, Structural)]
pub enum TaskState {
    Submitted,
    Working,
    InputRequired,
    Completed,
    Failed,
    Canceled,
    Unknown,
}

/// Protocol status of a task: the lifecycle state plus an optional
/// message attached to the change.
#[derive(Debug, PartialEq, Eq)]
pub struct TaskStatus {
    pub state: TaskState,
    pub message: Option<Message>,
}

/// Ghost mirror of [`TaskStatus`].
#[verifier::ext_equal]
pub ghost struct TaskStatusView {
    pub state: TaskState,
    pub message: Option<MessageView>,
}

impl DeepView for TaskStatus {
    type V = TaskStatusView;

    open spec fn deep_view(&self) -> TaskStatusView {
        TaskStatusView { state: self.state, message: self.message.deep_view() }
    }
}

impl Clone for TaskStatus {
    fn clone(&self) -> (r: Self)
        ensures
            r.deep_view() == self.deep_view(),
    {
        TaskStatus {
            state: self.state,
            message: match &self.message {
                Some(m) => Some(m.clone()),
                None => None,
            },
        }
    }
}

/// Where and how the counterparty wants to be notified of task changes.
#[derive(Debug, PartialEq, Eq)]
pub struct PushNotificationConfig {
    pub url: String,
    pub token: Option<String>,
}

/// Ghost mirror of [`PushNotificationConfig`].
#[verifier::ext_equal]
pub ghost struct PushNotificationConfigView {
    pub url: Seq<char>,
    pub token: Option<Seq<char>>,
}

impl DeepView for PushNotificationConfig {
    type V = PushNotificationConfigView;

    open spec fn deep_view(&self) -> PushNotificationConfigView {
        PushNotificationConfigView {
            url: self.url.deep_view(),
            token: self.token.deep_view(),
        }
    }
}

impl Clone for PushNotificationConfig {
    fn clone(&self) -> (r: Self)
        ensures
            r.deep_view() == self.deep_view(),
    {
        PushNotificationConfig { url: self.url.clone(), token: self.token.clone() }
    }
}

/// The typed protocol task document.
#[derive(Debug, PartialEq, Eq)]
pub struct Task {
    pub id: String,
    pub status: TaskStatus,
    pub history: Vec<Message>,
    pub artifacts: Vec<Artifact>,
    pub metadata: Option<Metadata>,
}

/// Ghost mirror of [`Task`].
#[verifier::ext_equal]
pub ghost struct TaskView {
    pub id: Seq<char>,
    pub status: TaskStatusView,
    pub history: Seq<MessageView>,
    pub artifacts: Seq<ArtifactView>,
    pub metadata: Option<Seq<MetaEntryView>>,
}

impl DeepView for Task {
    type V = TaskView;

    open spec fn deep_view(&self) -> TaskView {
        TaskView {
            id: self.id.deep_view(),
            status: self.status.deep_view(),
            history: self.history.deep_view(),
            artifacts: self.artifacts.deep_view(),
            metadata: self.metadata.deep_view(),
        }
    }
}

impl Clone for Task {
    fn clone(&self) -> (r: Self)
        ensures
            r.deep_view() == self.deep_view(),
    {
        let history = self.history.clone();
        let artifacts = self.artifacts.clone();
        let metadata = match &self.metadata {
            Some(m) => {
                let c = m.clone();
                proof {
                    assert(c.deep_view() =~= m.deep_view());
                }
                Some(c)
            },
            None => None,
        };
        proof {
            assert(history.deep_view() =~= self.history.deep_view());
            assert(artifacts.deep_view() =~= self.artifacts.deep_view());
        }
        Task {
            id: self.id.clone(),
            status: self.status.clone(),
            history,
            artifacts,
            metadata,
        }
    }
}

impl TaskView {
    /// Well-formed document: the artifact list acts as a map, so its
    /// keys are distinct.
    pub open spec fn wf(self) -> bool {
        unique_artifact_keys(self.artifacts)
    }
}

impl Task {
    /// Appends one message to the task's history; nothing else changes.
    pub fn add_message(&mut self, message: Message)
        ensures
            final(self).deep_view() == (TaskView {
                history: old(self).deep_view().history.push(message.deep_view()),
                ..old(self).deep_view()
            }),
    {
        let ghost m = message.deep_view();
        let ghost before = self.history.deep_view();
        self.history.push(message);
        proof {
            assert(self.history.deep_view() =~= before.push(m));
        }
    }

    /// Applies one artifact by key: replaces the existing artifact with
    /// the same key in place, or appends the artifact when its key is
    /// new. An artifact with an empty key cannot be keyed and is
    /// rejected as a conflict with the stored shape.
    pub fn upsert_artifact(&mut self, artifact: Artifact) -> (r: Result<(), ErrorKind>)
        ensures
            r.is_ok() <==> artifact.deep_view().wf(),
            r.is_ok() ==> final(self).deep_view() == (TaskView {
                artifacts: upsert_artifact_seq(
                    old(self).deep_view().artifacts,
                    artifact.deep_view(),
                ),
                ..old(self).deep_view()
            }),
            r.is_err() ==> final(self).deep_view() == old(self).deep_view()
                && r == Result::<(), ErrorKind>::Err(ErrorKind::Conflict),
            old(self).deep_view().wf() ==> final(self).deep_view().wf(),
    {
        if artifact.artifact_id.as_str().is_empty() {
            proof {
                assert(artifact.deep_view().artifact_id.len() == 0);
            }
            return Err(ErrorKind::Conflict);
        }
        let ghost arts0 = self.artifacts.deep_view();
        let ghost av = artifact.deep_view();
        proof {
            if old(self).deep_view().wf() {
                lemma_upsert_preserves_unique(arts0, av);
            }
        }
        match find_artifact(&self.artifacts, &artifact.artifact_id) {
            Some(i) => {
                self.artifacts[i] = artifact;
                proof {
                    assert(self.artifacts.deep_view() =~= arts0.update(i as int, av));
                }
            },
            None => {
                self.artifacts.push(artifact);
                proof {
                    assert(self.artifacts.deep_view() =~= arts0.push(av));
                }
            },
        }
        Ok(())
    }
}

/// Position of the first artifact in `arts` whose key equals `key`, as
/// [`artifact_index`] defines it.
fn find_artifact(arts: &Vec<Artifact>, key: &String) -> (r: Option<usize>)
    ensures
        match r {
            Some(i) => 0 <= i < arts.len() && artifact_index(
                arts.deep_view(),
                key.deep_view(),
            ) == i,
            None => artifact_index(arts.deep_view(), key.deep_view()) == -1,
        },
{
    let ghost artsv = arts.deep_view();
    let ghost keyv = key.deep_view();
    proof {
        lemma_artifact_index_spec(artsv, keyv);
    }
    let n = arts.len();
    let mut i: usize = 0;
    while i < n
        invariant
            i <= n,
            n == arts.len(),
            artsv == arts.deep_view(),
            keyv == key.deep_view(),
            forall|j: int| 0 <= j < i ==> artsv[j].artifact_id != keyv,
        decreases n - i,
    {
        if arts[i].artifact_id == *key {
            proof {
                assert(artsv[i as int].artifact_id == keyv);
                lemma_artifact_index_spec(artsv, keyv);
            }
            return Some(i);
        }
        i += 1;
    }
    proof {
        lemma_artifact_index_spec(artsv, keyv);
    }
    None
}

/// A stored task document column: either a document that decodes into
/// the protocol shape, or one that does not and must be rejected with a
/// validation failure when loaded.
#[derive(Debug, PartialEq, Eq)]
pub enum TaskDocument {
    Valid(Task),
    Malformed,
}

/// Ghost mirror of [`TaskDocument`].
#[verifier::ext_equal]
pub ghost enum TaskDocumentView {
    Valid(TaskView),
    Malformed,
}

impl DeepView for TaskDocument {
    type V = TaskDocumentView;

    open spec fn deep_view(&self) -> TaskDocumentView {
        match self {
            TaskDocument::Valid(t) => TaskDocumentView::Valid(t.deep_view()),
            TaskDocument::Malformed => TaskDocumentView::Malformed,
        }
    }
}

impl Clone for TaskDocument {
    fn clone(&self) -> (r: Self)
        ensures
            r.deep_view() == self.deep_view(),
    {
        match self {
            TaskDocument::Valid(t) => TaskDocument::Valid(t.clone()),
            TaskDocument::Malformed => TaskDocument::Malformed,
        }
    }
}

} // verus!
