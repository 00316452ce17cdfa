//! Append-only per-incident audit log.
//!
//! Events are immutable once appended and are replayed in insertion order;
//! nothing is ever reordered or rewritten. Reading a registered incident with
//! no events yields the empty sequence, not an error; only a wholly unknown
//! incident is refused.

use vstd::prelude::*;
use crate::text::str_eq;

verus! {

/// Kind of action an audit event records.
#[derive(Clone, Copy, Debug, PartialEq, Eq, Structural)]
pub enum ActionType {
    Created,
    Notified,
    Escalated,
    StatusChanged,
    Resolved,
    Note,
}

/// The action type named by `s`, or `None` outside the six kinds.
pub open spec fn spec_parse_action_type(s: Seq<char>) -> Option<ActionType> {
    if s == "created"@ {
        Some(ActionType::Created)
    } else if s == "notified"@ {
        Some(ActionType::Notified)
    } else if s == "escalated"@ {
        Some(ActionType::Escalated)
    } else if s == "status_changed"@ {
        Some(ActionType::StatusChanged)
    } else if s == "resolved"@ {
        Some(ActionType::Resolved)
    } else if s == "note"@ {
        Some(ActionType::Note)
    } else {
        None
    }
}

/// The textual name of an action type.
pub open spec fn spec_action_type_label(a: ActionType) -> Seq<char> {
    match a {
        ActionType::Created => "created"@,
        ActionType::Notified => "notified"@,
        ActionType::Escalated => "escalated"@,
        ActionType::StatusChanged => "status_changed"@,
        ActionType::Resolved => "resolved"@,
        ActionType::Note => "note"@,
    }
}

/// Parses an action type; any text outside the six kinds is rejected.
pub fn parse_action_type(s: &str) -> (r: Option<ActionType>)
    ensures
        r == spec_parse_action_type(s@),
{
    if str_eq(s, "created") {
        Some(ActionType::Created)
    } else if str_eq(s, "notified") {
        Some(ActionType::Notified)
    } else if str_eq(s, "escalated") {
        Some(ActionType::Escalated)
    } else if str_eq(s, "status_changed") {
        Some(ActionType::StatusChanged)
    } else if str_eq(s, "resolved") {
        Some(ActionType::Resolved)
    } else if str_eq(s, "note") {
        Some(ActionType::Note)
    } else {
        None
    }
}

/// Renders an action type back to its textual name.
pub fn action_type_label(a: ActionType) -> (r: String)
    ensures
        r@ == spec_action_type_label(a),
{
    match a {
        ActionType::Created => "created".to_owned(),
        ActionType::Notified => "notified".to_owned(),
        ActionType::Escalated => "escalated".to_owned(),
        ActionType::StatusChanged => "status_changed".to_owned(),
        ActionType::Resolved => "resolved".to_owned(),
        ActionType::Note => "note".to_owned(),
    }
}

/// One immutable audit record of an action taken against an incident.
#[derive(Debug)]
pub struct TimelineEvent {
    /// Sequence number of the incident the event belongs to.
    pub incident_seq: u64,
    /// Caller-supplied timestamp of the action; empty where the call surface
    /// carries none.
    pub timestamp: String,
    /// Kind of action recorded.
    pub action: ActionType,
    /// Free-form payload describing the action.
    pub details: String,
}

/// Mathematical model of a [`TimelineEvent`].
pub struct TimelineEventModel {
    pub incident_seq: nat,
    pub timestamp: Seq<char>,
    pub action: ActionType,
    pub details: Seq<char>,
}

impl View for TimelineEvent {
    type V = TimelineEventModel;

    open spec fn view(&self) -> TimelineEventModel {
        TimelineEventModel {
            incident_seq: self.incident_seq as nat,
            timestamp: self.timestamp@,
            action: self.action,
            details: self.details@,
        }
    }
}

impl Clone for TimelineEvent {
    fn clone(&self) -> (r: Self)
        ensures
            r@ == self@,
    {
        TimelineEvent {
            incident_seq: self.incident_seq,
            timestamp: self.timestamp.clone(),
            action: self.action,
            details: self.details.clone(),
        }
    }
}

/// The models of a sequence of events.
pub open spec fn spec_event_models(events: Seq<TimelineEvent>) -> Seq<TimelineEventModel> {
    events.map_values(|e: TimelineEvent| e@)
}

/// Append-only audit log, one ordered event sequence per registered incident.
pub struct AuditTimeline {
    logs: Vec<Vec<TimelineEvent>>,
}

impl View for AuditTimeline {
    type V = Seq<Seq<TimelineEventModel>>;

    closed spec fn view(&self) -> Seq<Seq<TimelineEventModel>> {
        self.logs@.map_values(|log: Vec<TimelineEvent>| spec_event_models(log@))
    }
}

impl AuditTimeline {
    /// An empty log with no incident registered.
    pub fn new() -> (r: AuditTimeline)
        ensures
            r@ =~= Seq::<Seq<TimelineEventModel>>::empty(),
    {
        AuditTimeline { logs: Vec::new() }
    }

    /// Registers the next incident, opening its (empty) event sequence.
    pub fn register(&mut self)
        ensures
            final(self)@ =~= old(self)@.push(Seq::empty()),
    {
        self.logs.push(Vec::new());
        proof {
            assert(self@ =~~= old(self)@.push(Seq::empty()));
        }
    }

    /// The number of registered incidents.
    pub fn len(&self) -> (n: usize)
        ensures
            n == self@.len(),
    {
        self.logs.len()
    }

    /// Appends `event` to the log of the registered incident `incident`; the
    /// existing events keep their order and the new one comes last.
    pub fn append(&mut self, incident: usize, event: TimelineEvent)
        requires
            incident < old(self)@.len(),
        ensures
            final(self)@ =~= old(self)@.update(
                incident as int,
                old(self)@[incident as int].push(event@),
            ),
    {
        self.logs[incident].push(event);
        proof {
            assert(spec_event_models(self.logs@[incident as int]@)
                =~= old(self)@[incident as int].push(event@));
            assert(self@ =~~= old(self)@.update(
                incident as int,
                old(self)@[incident as int].push(event@),
            ));
        }
    }

    /// Replays the log of incident `incident` in insertion order, or `None`
    /// when no such incident was registered. A registered incident with no
    /// events yields the empty sequence, not a failure.
    pub fn read(&self, incident: usize) -> (r: Option<&Vec<TimelineEvent>>)
        ensures
            match r {
                Some(log) => incident < self@.len() && spec_event_models(log@) == self@[incident as int],
                None => incident >= self@.len(),
            },
    {
        if incident < self.logs.len() {
            Some(&self.logs[incident])
        } else {
            None
        }
    }
}

/// Appending never disturbs what was already replayed: the events of every
/// incident before an append are a prefix of its events after it, and the
/// logs of all other incidents are untouched.
pub proof fn lemma_append_preserves_order(
    logs: Seq<Seq<TimelineEventModel>>,
    incident: int,
    event: TimelineEventModel,
)
    requires
        0 <= incident < logs.len(),
    ensures
        logs.update(incident, logs[incident].push(event))[incident].subrange(
            0,
            logs[incident].len() as int,
        ) =~= logs[incident],
        forall|other: int|
            0 <= other < logs.len() && other != incident ==> logs.update(
                incident,
                logs[incident].push(event),
            )[other] == logs[other],
{
}

} // verus!
