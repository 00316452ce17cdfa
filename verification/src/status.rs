//! Lifecycle state machine of an incident.
//!
//! States run `open -> investigating -> resolved -> closed`. The permitted
//! edges are the three forward ones, `resolved -> investigating` (reopen) as
//! the only backward edge, and the self-loop `investigating -> investigating`
//! for repeated notes. Nothing leaves `closed`.

use vstd::prelude::*;
use crate::text::str_eq;

verus! {

/// Lifecycle status of an incident.
#[derive(Clone, Copy, Debug, PartialEq, Eq, Structural)]
pub enum Status {
    Open,
    Investigating,
    Resolved,
    Closed,
}

/// The status named by `s`, or `None` outside the four states.
pub open spec fn spec_parse_status(s: Seq<char>) -> Option<Status> {
    if s == "open"@ {
        Some(Status::Open)
    } else if s == "investigating"@ {
        Some(Status::Investigating)
    } else if s == "resolved"@ {
        Some(Status::Resolved)
    } else if s == "closed"@ {
        Some(Status::Closed)
    } else {
        None
    }
}

/// The textual name of a status.
pub open spec fn spec_status_label(st: Status) -> Seq<char> {
    match st {
        Status::Open => "open"@,
        Status::Investigating => "investigating"@,
        Status::Resolved => "resolved"@,
        Status::Closed => "closed"@,
    }
}

/// Whether the state machine permits moving from `from` to `to`.
pub open spec fn spec_allowed_transition(from: Status, to: Status) -> bool {
    ||| (from == Status::Open && to == Status::Investigating)
    ||| (from == Status::Investigating && to == Status::Investigating)
    ||| (from == Status::Investigating && to == Status::Resolved)
    ||| (from == Status::Resolved && to == Status::Closed)
    ||| (from == Status::Resolved && to == Status::Investigating)
}

/// Parses a status; any text outside the four states is rejected.
pub fn parse_status(s: &str) -> (r: Option<Status>)
    ensures
        r == spec_parse_status(s@),
{
    if str_eq(s, "open") {
        Some(Status::Open)
    } else if str_eq(s, "investigating") {
        Some(Status::Investigating)
    } else if str_eq(s, "resolved") {
        Some(Status::Resolved)
    } else if str_eq(s, "closed") {
        Some(Status::Closed)
    } else {
        None
    }
}

/// Renders a status back to its textual name.
pub fn status_label(st: Status) -> (r: String)
    ensures
        r@ == spec_status_label(st),
{
    match st {
        Status::Open => "open".to_owned(),
        Status::Investigating => "investigating".to_owned(),
        Status::Resolved => "resolved".to_owned(),
        Status::Closed => "closed".to_owned(),
    }
}

/// Decides whether the state machine permits moving from `from` to `to`.
pub fn allowed_transition(from: Status, to: Status) -> (r: bool)
    ensures
        r == spec_allowed_transition(from, to),
{
    match (from, to) {
        (Status::Open, Status::Investigating) => true,
        (Status::Investigating, Status::Investigating) => true,
        (Status::Investigating, Status::Resolved) => true,
        (Status::Resolved, Status::Closed) => true,
        (Status::Resolved, Status::Investigating) => true,
        _ => false,
    }
}

/// Apart from the self-loop on `investigating`, the permitted transitions are
/// exactly the four edges `open -> investigating`, `investigating -> resolved`,
/// `resolved -> closed` and `resolved -> investigating`; in particular nothing
/// ever leaves `closed`, and `open` cannot jump ahead.
pub proof fn lemma_transition_edges(from: Status, to: Status)
    requires
        !(from == Status::Investigating && to == Status::Investigating),
    ensures
        spec_allowed_transition(from, to) <==> {
            ||| (from == Status::Open && to == Status::Investigating)
            ||| (from == Status::Investigating && to == Status::Resolved)
            ||| (from == Status::Resolved && to == Status::Closed)
            ||| (from == Status::Resolved && to == Status::Investigating)
        },
        from == Status::Closed ==> !spec_allowed_transition(from, to),
        from == Status::Open && to != Status::Investigating ==> !spec_allowed_transition(from, to),
{
}

} // verus!
