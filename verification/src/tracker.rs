//! Incident orchestrator: the top-level call surface composing the incident
//! store, the escalation policy, and the audit timeline.
//!
//! Each entry point is an independent request against the shared store.
//! Creation allocates the incident, computes the escalation chain of its
//! severity, and hands back the immediate-contact levels for dispatch; the
//! deferred levels form a queryable schedule for an external timer. Status
//! updates and logged actions mutate one incident and append one audit event
//! each, so the timeline order of an incident matches the call order.

use vstd::prelude::*;
use crate::errors::{IncidentError, InputKind};
use crate::escalation::{
    deferred_levels, immediate_levels, spec_deferred_levels, spec_immediate_levels, EscalationLevel,
};
use crate::ids::spec_incident_id;
use crate::router::{describe_result, spec_result_text, NotificationResult};
use crate::severity::{parse_severity, spec_parse_severity};
use crate::status::{parse_status, spec_allowed_transition, spec_parse_status, Status};
use crate::store::{
    spec_active_incidents, spec_has_incident, spec_incident_models, spec_index_of,
    spec_new_incident, Incident, IncidentStore, StoreModel,
};
use crate::timeline::{ActionType, parse_action_type, spec_parse_action_type, TimelineEvent,
    TimelineEventModel, spec_event_models};

verus! {

/// What a successful creation hands back: the new incident's id and state,
/// the levels to notify at once, and the schedule left to an external timer.
#[derive(Debug)]
pub struct CreateReceipt {
    pub incident_id: String,
    pub status: Status,
    pub immediate_levels: Vec<EscalationLevel>,
    pub scheduled_levels: Vec<EscalationLevel>,
}

/// What a successful status update hands back.
#[derive(Debug)]
pub struct StatusUpdateReceipt {
    pub incident_id: String,
    pub new_status: Status,
}

/// The top-level incident tracking surface.
pub struct IncidentTrackerContractState {
    store: IncidentStore,
}

impl View for IncidentTrackerContractState {
    type V = StoreModel;

    closed spec fn view(&self) -> StoreModel {
        self.store@
    }
}

impl IncidentTrackerContractState {
    /// The store invariant, established by [`Self::new`] and preserved by
    /// every call.
    pub closed spec fn wf(&self) -> bool {
        self.store.wf()
    }

    /// A tracker with no incidents.
    pub fn new() -> (r: IncidentTrackerContractState)
        ensures
            r.wf(),
            r@.incidents =~= Seq::<crate::store::IncidentModel>::empty(),
            r@.logs =~= Seq::<Seq<TimelineEventModel>>::empty(),
    {
        IncidentTrackerContractState { store: IncidentStore::new() }
    }

    /// Creates a new incident in state `open` and returns its id together
    /// with the escalation plan of its severity: the immediate-contact levels
    /// to dispatch now, and the deferred levels as a schedule. A severity
    /// outside the four tiers is rejected and nothing changes.
    pub fn create_incident(
        &mut self,
        description: String,
        severity: &str,
        service: String,
        reporter: String,
        timestamp: String,
    ) -> (r: Result<CreateReceipt, IncidentError>)
        requires
            old(self).wf(),
        ensures
            final(self).wf(),
            match r {
                Ok(receipt) => {
                    let sev = spec_parse_severity(severity@).unwrap();
                    &&& spec_parse_severity(severity@) is Some
                    &&& receipt.incident_id@ == spec_incident_id(
                        timestamp@,
                        old(self)@.incidents.len() as nat,
                    )
                    &&& receipt.status == Status::Open
                    &&& receipt.immediate_levels@ == spec_immediate_levels(sev)
                    &&& receipt.scheduled_levels@ == spec_deferred_levels(sev)
                    &&& final(self)@.incidents =~= old(self)@.incidents.push(
                        spec_new_incident(
                            description@,
                            sev,
                            service@,
                            reporter@,
                            timestamp@,
                            old(self)@.incidents.len() as nat,
                        ),
                    )
                    &&& final(self)@.logs =~= old(self)@.logs.push(
                        seq![
                            TimelineEventModel {
                                incident_seq: old(self)@.incidents.len() as nat,
                                timestamp: timestamp@,
                                action: ActionType::Created,
                                details: description@,
                            },
                        ],
                    )
                },
                Err(e) => {
                    &&& spec_parse_severity(severity@) is None
                    &&& e == (IncidentError::Validation { input: InputKind::Severity })
                    &&& final(self)@.incidents =~= old(self)@.incidents
                    &&& final(self)@.logs =~= old(self)@.logs
                },
            },
    {
        let sev = match parse_severity(severity) {
            None => {
                return Err(IncidentError::Validation { input: InputKind::Severity });
            },
            Some(sev) => sev,
        };
        let incident_id = self.store.create_incident(
            description,
            sev,
            service,
            reporter,
            timestamp,
        );
        Ok(
            CreateReceipt {
                incident_id,
                status: Status::Open,
                immediate_levels: immediate_levels(sev),
                scheduled_levels: deferred_levels(sev),
            },
        )
    }

    /// Moves an incident to a new status. The status text must name one of
    /// the four lifecycle states; the edge must be permitted by the state
    /// machine; the incident must exist. On success a `status_changed` audit
    /// event carrying the notes is appended; on any failure nothing changes.
    pub fn update_status(&mut self, incident_id: &str, status: &str, notes: String) -> (r: Result<
        StatusUpdateReceipt,
        IncidentError,
    >)
        requires
            old(self).wf(),
        ensures
            final(self).wf(),
            match r {
                Ok(receipt) => {
                    let new_status = spec_parse_status(status@).unwrap();
                    let i = spec_index_of(old(self)@.incidents, incident_id@);
                    &&& spec_parse_status(status@) is Some
                    &&& spec_has_incident(old(self)@.incidents, incident_id@)
                    &&& spec_allowed_transition(old(self)@.incidents[i].status, new_status)
                    &&& receipt.incident_id@ == incident_id@
                    &&& receipt.new_status == new_status
                    &&& final(self)@.incidents =~= old(self)@.incidents.update(
                        i,
                        crate::store::IncidentModel {
                            status: new_status,
                            ..old(self)@.incidents[i]
                        },
                    )
                    &&& final(self)@.logs =~= old(self)@.logs.update(
                        i,
                        old(self)@.logs[i].push(
                            TimelineEventModel {
                                incident_seq: i as nat,
                                timestamp: Seq::<char>::empty(),
                                action: ActionType::StatusChanged,
                                details: notes@,
                            },
                        ),
                    )
                },
                Err(IncidentError::Validation { input }) => {
                    &&& input == InputKind::Status
                    &&& spec_parse_status(status@) is None
                    &&& final(self)@.incidents =~= old(self)@.incidents
                    &&& final(self)@.logs =~= old(self)@.logs
                },
                Err(IncidentError::NotFound) => {
                    &&& spec_parse_status(status@) is Some
                    &&& !spec_has_incident(old(self)@.incidents, incident_id@)
                    &&& final(self)@.incidents =~= old(self)@.incidents
                    &&& final(self)@.logs =~= old(self)@.logs
                },
                Err(IncidentError::InvalidTransition { from, to }) => {
                    let i = spec_index_of(old(self)@.incidents, incident_id@);
                    &&& spec_parse_status(status@) is Some
                    &&& spec_has_incident(old(self)@.incidents, incident_id@)
                    &&& from == old(self)@.incidents[i].status
                    &&& to == spec_parse_status(status@).unwrap()
                    &&& !spec_allowed_transition(from, to)
                    &&& final(self)@.incidents =~= old(self)@.incidents
                    &&& final(self)@.logs =~= old(self)@.logs
                },
            },
    {
        let new_status = match parse_status(status) {
            None => {
                return Err(IncidentError::Validation { input: InputKind::Status });
            },
            Some(st) => st,
        };
        match self.store.update_status(incident_id, new_status, notes) {
            Ok(st) => Ok(StatusUpdateReceipt { incident_id: incident_id.to_owned(), new_status: st }),
            Err(e) => Err(e),
        }
    }

    /// Appends an audit event to an incident without touching its status.
    /// The action type text must name one of the six kinds; the incident must
    /// exist. The parsed action type is echoed back; on any failure nothing
    /// changes.
    pub fn log_action(
        &mut self,
        incident_id: &str,
        action_type: &str,
        details: String,
        timestamp: String,
    ) -> (r: Result<ActionType, IncidentError>)
        requires
            old(self).wf(),
        ensures
            final(self).wf(),
            match r {
                Ok(action) => {
                    let i = spec_index_of(old(self)@.incidents, incident_id@);
                    &&& spec_parse_action_type(action_type@) == Some(action)
                    &&& spec_has_incident(old(self)@.incidents, incident_id@)
                    &&& final(self)@.incidents =~= old(self)@.incidents
                    &&& final(self)@.logs =~= old(self)@.logs.update(
                        i,
                        old(self)@.logs[i].push(
                            TimelineEventModel {
                                incident_seq: i as nat,
                                timestamp: timestamp@,
                                action: action,
                                details: details@,
                            },
                        ),
                    )
                },
                Err(IncidentError::Validation { input }) => {
                    &&& input == InputKind::ActionType
                    &&& spec_parse_action_type(action_type@) is None
                    &&& final(self)@.incidents =~= old(self)@.incidents
                    &&& final(self)@.logs =~= old(self)@.logs
                },
                Err(IncidentError::NotFound) => {
                    &&& spec_parse_action_type(action_type@) is Some
                    &&& !spec_has_incident(old(self)@.incidents, incident_id@)
                    &&& final(self)@.incidents =~= old(self)@.incidents
                    &&& final(self)@.logs =~= old(self)@.logs
                },
                Err(_) => false,
            },
    {
        let action = match parse_action_type(action_type) {
            None => {
                return Err(IncidentError::Validation { input: InputKind::ActionType });
            },
            Some(action) => action,
        };
        match self.store.log_action(incident_id, action, details, timestamp) {
            Ok(()) => Ok(action),
            Err(e) => Err(e),
        }
    }

    /// Records the outcome of one notification channel as a `notified` audit
    /// event of the incident, so the timeline carries the per-channel
    /// delivery outcomes alongside the creation record.
    pub fn record_notification_outcome(
        &mut self,
        incident_id: &str,
        result: NotificationResult,
        timestamp: String,
    ) -> (r: Result<(), IncidentError>)
        requires
            old(self).wf(),
        ensures
            final(self).wf(),
            match r {
                Ok(()) => {
                    let i = spec_index_of(old(self)@.incidents, incident_id@);
                    &&& spec_has_incident(old(self)@.incidents, incident_id@)
                    &&& final(self)@.incidents =~= old(self)@.incidents
                    &&& final(self)@.logs =~= old(self)@.logs.update(
                        i,
                        old(self)@.logs[i].push(
                            TimelineEventModel {
                                incident_seq: i as nat,
                                timestamp: timestamp@,
                                action: ActionType::Notified,
                                details: spec_result_text(result),
                            },
                        ),
                    )
                },
                Err(IncidentError::NotFound) => {
                    &&& !spec_has_incident(old(self)@.incidents, incident_id@)
                    &&& final(self)@.incidents =~= old(self)@.incidents
                    &&& final(self)@.logs =~= old(self)@.logs
                },
                Err(_) => false,
            },
    {
        let details = describe_result(result);
        self.store.log_action(incident_id, ActionType::Notified, details, timestamp)
    }

    /// Replays the audit log of an incident, in insertion order. Fails with
    /// `NotFound` on an unknown id.
    pub fn get_incident_timeline(&self, incident_id: &str) -> (r: Result<
        &Vec<TimelineEvent>,
        IncidentError,
    >)
        requires
            self.wf(),
        ensures
            match r {
                Ok(log) => {
                    &&& spec_has_incident(self@.incidents, incident_id@)
                    &&& spec_event_models(log@) == self@.logs[spec_index_of(
                        self@.incidents,
                        incident_id@,
                    )]
                },
                Err(IncidentError::NotFound) => !spec_has_incident(self@.incidents, incident_id@),
                Err(_) => false,
            },
    {
        self.store.get_incident_timeline(incident_id)
    }

    /// The incidents still active (open or under investigation), in creation
    /// order; their number is the count of the result.
    pub fn get_active_incidents(&self) -> (r: Vec<Incident>)
        ensures
            spec_incident_models(r@) =~= spec_active_incidents(self@.incidents),
    {
        self.store.get_active_incidents()
    }

    /// The number of incidents ever created.
    pub fn incident_count(&self) -> (n: usize)
        ensures
            n == self@.incidents.len(),
    {
        self.store.incident_count()
    }

    /// The incident record at creation index `i`.
    pub fn incident_at(&self, i: usize) -> (r: Option<&Incident>)
        ensures
            match r {
                Some(incident) => i < self@.incidents.len() && incident@ == self@.incidents[i as int],
                None => i >= self@.incidents.len(),
            },
    {
        self.store.incident_at(i)
    }
}

} // verus!
