//! Storage-side enumerations and the protocol-to-storage state mapping.
//!
//! The lifecycle state of a task is represented twice: once at the protocol
//! boundary (`protocol` module) and once in the storage schema (this
//! module). The two closed sets are connected by one exhaustive mapping
//! function, so that adding a protocol state is a compile-time obligation
//! here rather than a silent gap.

use crate::task_doc;
use vstd::prelude::*;

verus! {

/// Lifecycle state column of a stored task row.
#[derive(Clone, Copy, Debug, PartialEq, Eq, Structural)]
pub enum TaskState {
    Completed,
    Failed,
    Canceled,
    Submitted,
    Working,
    InputRequired,
    Unknown,
}

/// Direction of a stored task: issued to us or by us.
#[derive(Clone, Copy, Debug, PartialEq, Eq, Structural)]
pub enum TaskType {
    Incoming,
    Outgoing,
}

/// Lifecycle status of one event delivery, from creation to consumption.
#[derive(Clone, Copy, Debug, PartialEq, Eq, Structural)]
pub enum TaskEventSubscriptionStatus {
    /// Created at fan-out time; not yet pulled by the subscriber.
    Pending,
    /// Returned to the subscriber by a dequeue and thereby settled.
    Consumed,
}

/// Registration state of an application user.
#[derive(Clone, Copy, Debug, PartialEq, Eq, Structural)]
pub enum ApplicationUserStatus {
    Active,
    Deleted,
    Invited,
}

/// The storage state that stands for each protocol state.
pub open spec fn spec_task_state_from_protocol(s: task_doc::TaskState) -> TaskState {
    match s {
        task_doc::TaskState::Submitted => TaskState::Submitted,
        task_doc::TaskState::Working => TaskState::Working,
        task_doc::TaskState::InputRequired => TaskState::InputRequired,
        task_doc::TaskState::Completed => TaskState::Completed,
        task_doc::TaskState::Failed => TaskState::Failed,
        task_doc::TaskState::Canceled => TaskState::Canceled,
        task_doc::TaskState::Unknown => TaskState::Unknown,
    }
}

/// The single exhaustive mapping from the protocol's lifecycle states
/// to the storage column's; a new protocol state extends this match or
/// the build fails.
#[verifier::when_used_as_spec(spec_task_state_from_protocol)]
pub fn task_state_from_protocol(s: task_doc::TaskState) -> (r: TaskState)
    ensures
        r == spec_task_state_from_protocol(s),
{
    match s {
        task_doc::TaskState::Submitted => TaskState::Submitted,
        task_doc::TaskState::Working => TaskState::Working,
        task_doc::TaskState::InputRequired => TaskState::InputRequired,
        task_doc::TaskState::Completed => TaskState::Completed,
        task_doc::TaskState::Failed => TaskState::Failed,
        task_doc::TaskState::Canceled => TaskState::Canceled,
        task_doc::TaskState::Unknown => TaskState::Unknown,
    }
}

/// The task type a task creation command carries when none is given.
pub fn default_task_type() -> (r: TaskType)
    ensures
        r == TaskType::Incoming,
{
    TaskType::Incoming
}

} // verus!
