//! Protocol events recorded about a task.
//!
//! An event payload is either a status-update snapshot (state, terminal
//! flag, optional metadata) or an artifact-update snapshot (artifact,
//! optional metadata). Payloads are immutable once recorded.

use crate::artifact::{Artifact, ArtifactView};
use crate::part::{MetaEntryView, Metadata};
use crate::task_doc::{TaskStatus, TaskStatusView};
use vstd::prelude::*;

verus! {

/// Status-update event payload.
#[derive(Debug, PartialEq, Eq)]
pub struct TaskStatusUpdateEvent {
    /// Protocol identifier of the task the event speaks about.
    pub id: String,
    pub status: TaskStatus,
    /// Whether the status is terminal for the task.
    pub final_event: bool,
    pub metadata: Option<Metadata>,
}

/// Ghost mirror of [`TaskStatusUpdateEvent`].
#[verifier::ext_equal]
pub ghost struct TaskStatusUpdateEventView {
    pub id: Seq<char>,
    pub status: TaskStatusView,
    pub final_event: bool,
    pub metadata: Option<Seq<MetaEntryView>>,
}

impl DeepView for TaskStatusUpdateEvent {
    type V = TaskStatusUpdateEventView;

    open spec fn deep_view(&self) -> TaskStatusUpdateEventView {
        TaskStatusUpdateEventView {
            id: self.id.deep_view(),
            status: self.status.deep_view(),
            final_event: self.final_event,
            metadata: self.metadata.deep_view(),
        }
    }
}

impl Clone for TaskStatusUpdateEvent {
    fn clone(&self) -> (r: Self)
        ensures
            r.deep_view() == self.deep_view(),
    {
        let metadata = match &self.metadata {
            Some(m) => {
                let c = m.clone();
                proof {
                    assert(c.deep_view() =~= m.deep_view());
                }
                Some(c)
            },
            None => None,
        };
        TaskStatusUpdateEvent {
            id: self.id.clone(),
            status: self.status.clone(),
            final_event: self.final_event,
            metadata,
        }
    }
}

/// Artifact-update event payload.
#[derive(Debug, PartialEq, Eq)]
pub struct TaskArtifactUpdateEvent {
    /// Protocol identifier of the task the event speaks about.
    pub id: String,
    pub artifact: Artifact,
    pub metadata: Option<Metadata>,
}

/// Ghost mirror of [`TaskArtifactUpdateEvent`].
#[verifier::ext_equal]
pub ghost struct TaskArtifactUpdateEventView {
    pub id: Seq<char>,
    pub artifact: ArtifactView,
    pub metadata: Option<Seq<MetaEntryView>>,
}

impl DeepView for TaskArtifactUpdateEvent {
    type V = TaskArtifactUpdateEventView;

    open spec fn deep_view(&self) -> TaskArtifactUpdateEventView {
        TaskArtifactUpdateEventView {
            id: self.id.deep_view(),
            artifact: self.artifact.deep_view(),
            metadata: self.metadata.deep_view(),
        }
    }
}

impl Clone for TaskArtifactUpdateEvent {
    fn clone(&self) -> (r: Self)
        ensures
            r.deep_view() == self.deep_view(),
    {
        let metadata = match &self.metadata {
            Some(m) => {
                let c = m.clone();
                proof {
                    assert(c.deep_view() =~= m.deep_view());
                }
                Some(c)
            },
            None => None,
        };
        TaskArtifactUpdateEvent {
            id: self.id.clone(),
            artifact: self.artifact.clone(),
            metadata,
        }
    }
}

/// One immutable protocol event payload.
#[derive(Debug, PartialEq, Eq)]
pub enum TaskEvent {
    StatusUpdate(TaskStatusUpdateEvent),
    ArtifactUpdate(TaskArtifactUpdateEvent),
}

/// Ghost mirror of [`TaskEvent`].
#[verifier::ext_equal]
pub ghost enum TaskEventView {
    StatusUpdate(TaskStatusUpdateEventView),
    ArtifactUpdate(TaskArtifactUpdateEventView),
}

impl DeepView for TaskEvent {
    type V = TaskEventView;

    open spec fn deep_view(&self) -> TaskEventView {
        match self {
            TaskEvent::StatusUpdate(e) => TaskEventView::StatusUpdate(e.deep_view()),
            TaskEvent::ArtifactUpdate(e) => TaskEventView::ArtifactUpdate(e.deep_view()),
        }
    }
}

impl Clone for TaskEvent {
    fn clone(&self) -> (r: Self)
        ensures
            r.deep_view() == self.deep_view(),
    {
        match self {
            TaskEvent::StatusUpdate(e) => TaskEvent::StatusUpdate(e.clone()),
            TaskEvent::ArtifactUpdate(e) => TaskEvent::ArtifactUpdate(e.clone()),
        }
    }
}

} // verus!
