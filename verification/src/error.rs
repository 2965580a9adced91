//! Failure taxonomy of the task lifecycle core.
//!
//! Every core operation that can fail reports one of these kinds, so a
//! caller can always distinguish a missing row from a malformed document,
//! a schema conflict, or a plain persistence failure.

use vstd::prelude::*;

verus! {

/// The distinguishable failure kinds of the core.
#[derive(Clone, Copy, Debug, PartialEq, Eq, Structural)]
pub enum ErrorKind {
    /// The addressed task or subscriber does not exist.
    NotFound,
    /// A payload or stored document does not match the protocol task shape.
    Validation,
    /// An update is inconsistent with the stored shape of the aggregate.
    Conflict,
    /// The persistence layer itself failed.
    Store,
}

/// An error surfaced by a core operation: a kind plus free-form detail.
#[derive(Debug)]
pub struct ServiceError {
    pub kind: ErrorKind,
    pub detail: String,
}

impl ServiceError {
    /// Builds an error of the given kind with empty detail text.
    pub fn of_kind(kind: ErrorKind) -> (r: ServiceError)
        ensures
            r.kind == kind,
    {
        ServiceError { kind, detail: String::new() }
    }
}

} // verus!
