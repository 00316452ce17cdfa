//! Error taxonomy of the library.
//!
//! Validation failures, unknown incident ids and illegal lifecycle edges are
//! surfaced to the caller verbatim. Per-channel delivery failures are *not*
//! errors of this kind: the router aggregates them into its result set
//! instead of raising, so a partial failure never masks the other channels.

use vstd::prelude::*;
use crate::status::Status;

verus! {

/// Which caller-supplied input failed validation.
#[derive(Clone, Copy, Debug, PartialEq, Eq, Structural)]
pub enum InputKind {
    Severity,
    Status,
    ActionType,
    Target,
}

/// A failure of one of the incident-surface calls.
#[derive(Clone, Copy, Debug, PartialEq, Eq, Structural)]
pub enum IncidentError {
    /// The named input is outside its documented domain and outside any
    /// documented fallback.
    Validation { input: InputKind },
    /// The incident id is unknown.
    NotFound,
    /// The requested status edge is not in the lifecycle state machine.
    InvalidTransition { from: Status, to: Status },
}

} // verus!
