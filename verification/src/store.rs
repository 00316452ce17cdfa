//! Incident store: owns the incident records, allocates their ids, and
//! enforces the lifecycle state machine. Every mutation is recorded in the
//! audit timeline.
//!
//! Ids are allocated from a monotonically increasing sequence number (the
//! index of the record in the store) combined with the creation timestamp,
//! so two incidents created in the same timestamp tick still receive
//! distinct ids; [`lemma_ids_pairwise_distinct`] proves the distinctness.

use vstd::prelude::*;
use crate::errors::IncidentError;
use crate::ids::{render_incident_id, spec_incident_id, lemma_incident_id_injective};
use crate::severity::Severity;
use crate::status::{allowed_transition, spec_allowed_transition, Status};
use crate::text::str_eq;
use crate::timeline::{ActionType, AuditTimeline, TimelineEvent, TimelineEventModel, spec_event_models};

verus! {

/// A tracked operational incident.
#[derive(Debug)]
pub struct Incident {
    /// Sequence number of the record, assigned at creation, immutable.
    pub seq: u64,
    /// Globally unique id, assigned at creation, immutable.
    pub id: String,
    /// What happened.
    pub description: String,
    /// Severity tier.
    pub severity: Severity,
    /// Affected service.
    pub service: String,
    /// Who reported it.
    pub reporter: String,
    /// Current lifecycle status.
    pub status: Status,
    /// Caller-supplied creation timestamp.
    pub created_at: String,
}

/// Mathematical model of an [`Incident`].
pub struct IncidentModel {
    pub seq: nat,
    pub id: Seq<char>,
    pub description: Seq<char>,
    pub severity: Severity,
    pub service: Seq<char>,
    pub reporter: Seq<char>,
    pub status: Status,
    pub created_at: Seq<char>,
}

impl View for Incident {
    type V = IncidentModel;

    open spec fn view(&self) -> IncidentModel {
        IncidentModel {
            seq: self.seq as nat,
            id: self.id@,
            description: self.description@,
            severity: self.severity,
            service: self.service@,
            reporter: self.reporter@,
            status: self.status,
            created_at: self.created_at@,
        }
    }
}

impl Clone for Incident {
    fn clone(&self) -> (r: Self)
        ensures
            r@ == self@,
    {
        Incident {
            seq: self.seq,
            id: self.id.clone(),
            description: self.description.clone(),
            severity: self.severity,
            service: self.service.clone(),
            reporter: self.reporter.clone(),
            status: self.status,
            created_at: self.created_at.clone(),
        }
    }
}

/// The models of a sequence of incidents.
pub open spec fn spec_incident_models(incidents: Seq<Incident>) -> Seq<IncidentModel> {
    incidents.map_values(|i: Incident| i@)
}

/// Whether some incident of `incidents` carries the id `id`.
pub open spec fn spec_has_incident(incidents: Seq<IncidentModel>, id: Seq<char>) -> bool {
    exists|i: int| 0 <= i < incidents.len() && (#[trigger] incidents[i]).id == id
}

/// The index of the incident of `incidents` carrying the id `id`. Under the
/// store invariant ids are pairwise distinct, so the index is unique.
pub open spec fn spec_index_of(incidents: Seq<IncidentModel>, id: Seq<char>) -> int {
    choose|i: int| 0 <= i < incidents.len() && (#[trigger] incidents[i]).id == id
}

/// An incident counts as active while it is open or under investigation.
pub open spec fn spec_is_active(m: IncidentModel) -> bool {
    m.status == Status::Open || m.status == Status::Investigating
}

/// The active incidents of `incidents`, in creation order.
pub open spec fn spec_active_incidents(incidents: Seq<IncidentModel>) -> Seq<IncidentModel> {
    incidents.filter(|m: IncidentModel| spec_is_active(m))
}

/// The model of the incident with sequence number `seq_no` as
/// [`IncidentStore::create_incident`] constructs it: status `open`, id
/// derived from the timestamp and the sequence number.
pub open spec fn spec_new_incident(
    description: Seq<char>,
    severity: Severity,
    service: Seq<char>,
    reporter: Seq<char>,
    timestamp: Seq<char>,
    seq_no: nat,
) -> IncidentModel {
    IncidentModel {
        seq: seq_no,
        id: spec_incident_id(timestamp, seq_no),
        description: description,
        severity: severity,
        service: service,
        reporter: reporter,
        status: Status::Open,
        created_at: timestamp,
    }
}

/// Mathematical model of an [`IncidentStore`]: the incident records in
/// creation order, and the audit log of each.
pub struct StoreModel {
    pub incidents: Seq<IncidentModel>,
    pub logs: Seq<Seq<TimelineEventModel>>,
}

/// The store that owns all incident records and their audit logs.
pub struct IncidentStore {
    incidents: Vec<Incident>,
    timeline: AuditTimeline,
}

impl View for IncidentStore {
    type V = StoreModel;

    closed spec fn view(&self) -> StoreModel {
        StoreModel { incidents: spec_incident_models(self.incidents@), logs: self.timeline@ }
    }
}

impl IncidentStore {
    /// The store invariant: one audit log per incident, and record `i` holds
    /// sequence number `i` with the id derived from it and its creation
    /// timestamp.
    pub closed spec fn wf(&self) -> bool {
        &&& self@.logs.len() == self@.incidents.len()
        &&& forall|i: int|
            0 <= i < self@.incidents.len() ==> (#[trigger] self@.incidents[i]).seq == i as nat
        &&& forall|i: int|
            0 <= i < self@.incidents.len() ==> (#[trigger] self@.incidents[i]).id
                == spec_incident_id(self@.incidents[i].created_at, i as nat)
    }

    /// An empty store.
    pub fn new() -> (r: IncidentStore)
        ensures
            r.wf(),
            r@.incidents =~= Seq::<IncidentModel>::empty(),
            r@.logs =~= Seq::<Seq<TimelineEventModel>>::empty(),
    {
        IncidentStore { incidents: Vec::new(), timeline: AuditTimeline::new() }
    }

    /// The number of incidents ever created.
    pub fn incident_count(&self) -> (n: usize)
        ensures
            n == self@.incidents.len(),
    {
        self.incidents.len()
    }

    /// The incident record at creation index `i`.
    pub fn incident_at(&self, i: usize) -> (r: Option<&Incident>)
        ensures
            match r {
                Some(incident) => i < self@.incidents.len() && incident@ == self@.incidents[i as int],
                None => i >= self@.incidents.len(),
            },
    {
        if i < self.incidents.len() {
            Some(&self.incidents[i])
        } else {
            None
        }
    }

    /// The index of the incident carrying `incident_id`, if any.
    pub fn find_incident(&self, incident_id: &str) -> (r: Option<usize>)
        ensures
            match r {
                Some(i) => i < self@.incidents.len() && self@.incidents[i as int].id == incident_id@,
                None => !spec_has_incident(self@.incidents, incident_id@),
            },
    {
        let n = self.incidents.len();
        let mut i: usize = 0;
        while i < n
            invariant
                n == self@.incidents.len(),
                i <= n,
                n == self.incidents@.len(),
                forall|j: int| 0 <= j < i ==> (#[trigger] self@.incidents[j]).id != incident_id@,
            decreases n - i,
        {
            if str_eq(self.incidents[i].id.as_str(), incident_id) {
                return Some(i);
            }
            i += 1;
        }
        None
    }

    /// The sole constructor of an incident: allocates the next sequence
    /// number, derives the id from it and the timestamp, enters the record in
    /// state `open`, and records a `created` audit event carrying the
    /// timestamp and the description.
    pub fn create_incident(
        &mut self,
        description: String,
        severity: Severity,
        service: String,
        reporter: String,
        timestamp: String,
    ) -> (id: String)
        requires
            old(self).wf(),
        ensures
            final(self).wf(),
            id@ == spec_incident_id(timestamp@, old(self)@.incidents.len() as nat),
            final(self)@.incidents =~= old(self)@.incidents.push(
                spec_new_incident(
                    description@,
                    severity,
                    service@,
                    reporter@,
                    timestamp@,
                    old(self)@.incidents.len() as nat,
                ),
            ),
            final(self)@.logs =~= old(self)@.logs.push(
                seq![
                    TimelineEventModel {
                        incident_seq: old(self)@.incidents.len() as nat,
                        timestamp: timestamp@,
                        action: ActionType::Created,
                        details: description@,
                    },
                ],
            ),
    {
        let seq_no = self.incidents.len() as u64;
        let idx = self.incidents.len();
        let id = render_incident_id(timestamp.as_str(), seq_no);
        let details = description.clone();
        let event_timestamp = timestamp.clone();
        let incident = Incident {
            seq: seq_no,
            id: id.clone(),
            description,
            severity,
            service,
            reporter,
            status: Status::Open,
            created_at: timestamp,
        };
        self.incidents.push(incident);
        self.timeline.register();
        let event = TimelineEvent {
            incident_seq: seq_no,
            timestamp: event_timestamp,
            action: ActionType::Created,
            details,
        };
        self.timeline.append(idx, event);
        proof {
            assert(self@.incidents =~= old(self)@.incidents.push(
                spec_new_incident(
                    incident.description@,
                    severity,
                    incident.service@,
                    incident.reporter@,
                    incident.created_at@,
                    old(self)@.incidents.len() as nat,
                ),
            ));
            assert(self@.logs =~~= old(self)@.logs.push(
                seq![
                    TimelineEventModel {
                        incident_seq: old(self)@.incidents.len() as nat,
                        timestamp: incident.created_at@,
                        action: ActionType::Created,
                        details: incident.description@,
                    },
                ],
            ));
        }
        id
    }

    /// Moves the incident carrying `incident_id` to `new_status`.
    ///
    /// Fails with `NotFound` on an unknown id, and with `InvalidTransition`
    /// when the lifecycle state machine does not permit the edge; on success
    /// the status is updated and a `status_changed` audit event carrying the
    /// notes is appended. Nothing else changes in either case.
    pub fn update_status(&mut self, incident_id: &str, new_status: Status, notes: String) -> (r:
        Result<Status, IncidentError>)
        requires
            old(self).wf(),
        ensures
            final(self).wf(),
            match r {
                Ok(st) => {
                    let i = spec_index_of(old(self)@.incidents, incident_id@);
                    &&& spec_has_incident(old(self)@.incidents, incident_id@)
                    &&& spec_allowed_transition(old(self)@.incidents[i].status, new_status)
                    &&& st == new_status
                    &&& final(self)@.incidents =~= old(self)@.incidents.update(
                        i,
                        IncidentModel { status: new_status, ..old(self)@.incidents[i] },
                    )
                    &&& final(self)@.logs =~= old(self)@.logs.update(
                        i,
                        old(self)@.logs[i].push(
                            TimelineEventModel {
                                incident_seq: i as nat,
                                timestamp: Seq::<char>::empty(),
                                action: ActionType::StatusChanged,
                                details: notes@,
                            },
                        ),
                    )
                },
                Err(IncidentError::NotFound) => {
                    &&& !spec_has_incident(old(self)@.incidents, incident_id@)
                    &&& final(self)@.incidents =~= old(self)@.incidents
                    &&& final(self)@.logs =~= old(self)@.logs
                },
                Err(IncidentError::InvalidTransition { from, to }) => {
                    let i = spec_index_of(old(self)@.incidents, incident_id@);
                    &&& spec_has_incident(old(self)@.incidents, incident_id@)
                    &&& from == old(self)@.incidents[i].status
                    &&& to == new_status
                    &&& !spec_allowed_transition(from, to)
                    &&& final(self)@.incidents =~= old(self)@.incidents
                    &&& final(self)@.logs =~= old(self)@.logs
                },
                Err(_) => false,
            },
    {
        let found = self.find_incident(incident_id);
        match found {
            None => Err(IncidentError::NotFound),
            Some(idx) => {
                proof {
                    lemma_wf_ids_distinct(self);
                    assert(spec_has_incident(self@.incidents, incident_id@));
                    assert(spec_index_of(self@.incidents, incident_id@) == idx as int);
                }
                let from = self.incidents[idx].status;
                if !allowed_transition(from, new_status) {
                    Err(IncidentError::InvalidTransition { from, to: new_status })
                } else {
                    let ghost pre = self@.incidents;
                    self.incidents[idx].status = new_status;
                    let event = TimelineEvent {
                        incident_seq: self.incidents[idx].seq,
                        timestamp: String::new(),
                        action: ActionType::StatusChanged,
                        details: notes,
                    };
                    self.timeline.append(idx, event);
                    proof {
                        assert(self@.incidents =~= pre.update(
                            idx as int,
                            IncidentModel { status: new_status, ..pre[idx as int] },
                        ));
                    }
                    Ok(new_status)
                }
            },
        }
    }

    /// Appends an audit event to the incident carrying `incident_id` without
    /// touching its status. Fails with `NotFound` on an unknown id; nothing
    /// changes in that case.
    pub fn log_action(
        &mut self,
        incident_id: &str,
        action: ActionType,
        details: String,
        timestamp: String,
    ) -> (r: Result<(), IncidentError>)
        requires
            old(self).wf(),
        ensures
            final(self).wf(),
            match r {
                Ok(()) => {
                    let i = spec_index_of(old(self)@.incidents, incident_id@);
                    &&& spec_has_incident(old(self)@.incidents, incident_id@)
                    &&& final(self)@.incidents =~= old(self)@.incidents
                    &&& final(self)@.logs =~= old(self)@.logs.update(
                        i,
                        old(self)@.logs[i].push(
                            TimelineEventModel {
                                incident_seq: i as nat,
                                timestamp: timestamp@,
                                action: action,
                                details: details@,
                            },
                        ),
                    )
                },
                Err(IncidentError::NotFound) => {
                    &&& !spec_has_incident(old(self)@.incidents, incident_id@)
                    &&& final(self)@.incidents =~= old(self)@.incidents
                    &&& final(self)@.logs =~= old(self)@.logs
                },
                Err(_) => false,
            },
    {
        let found = self.find_incident(incident_id);
        match found {
            None => Err(IncidentError::NotFound),
            Some(idx) => {
                proof {
                    lemma_wf_ids_distinct(self);
                    assert(spec_index_of(self@.incidents, incident_id@) == idx as int);
                }
                let event = TimelineEvent {
                    incident_seq: self.incidents[idx].seq,
                    timestamp,
                    action,
                    details,
                };
                self.timeline.append(idx, event);
                Ok(())
            },
        }
    }

    /// Replays the audit log of the incident carrying `incident_id`, in
    /// insertion order. Fails with `NotFound` on an unknown id.
    pub fn get_incident_timeline(&self, incident_id: &str) -> (r: Result<
        &Vec<TimelineEvent>,
        IncidentError,
    >)
        requires
            self.wf(),
        ensures
            match r {
                Ok(log) => {
                    &&& spec_has_incident(self@.incidents, incident_id@)
                    &&& spec_event_models(log@) == self@.logs[spec_index_of(
                        self@.incidents,
                        incident_id@,
                    )]
                },
                Err(IncidentError::NotFound) => !spec_has_incident(self@.incidents, incident_id@),
                Err(_) => false,
            },
    {
        let found = self.find_incident(incident_id);
        match found {
            None => Err(IncidentError::NotFound),
            Some(idx) => {
                proof {
                    lemma_wf_ids_distinct(self);
                    assert(spec_index_of(self@.incidents, incident_id@) == idx as int);
                }
                match self.timeline.read(idx) {
                    Some(log) => Ok(log),
                    None => Err(IncidentError::NotFound),
                }
            },
        }
    }

    /// The incidents that are still active (open or under investigation), in
    /// creation order.
    pub fn get_active_incidents(&self) -> (r: Vec<Incident>)
        ensures
            spec_incident_models(r@) =~= spec_active_incidents(self@.incidents),
    {
        let n = self.incidents.len();
        let mut out: Vec<Incident> = Vec::new();
        let mut i: usize = 0;
        while i < n
            invariant
                n == self.incidents@.len(),
                i <= n,
                spec_incident_models(out@) =~= spec_active_incidents(
                    spec_incident_models(self.incidents@).subrange(0, i as int),
                ),
            decreases n - i,
        {
            let ghost sub0 = spec_incident_models(self.incidents@).subrange(0, i as int);
            let ghost sub1 = spec_incident_models(self.incidents@).subrange(0, i + 1 as int);
            let incident = &self.incidents[i];
            let active = match incident.status {
                Status::Open => true,
                Status::Investigating => true,
                Status::Resolved => false,
                Status::Closed => false,
            };
            if active {
                out.push(incident.clone());
            }
            proof {
                reveal_with_fuel(Seq::filter, 2);
                assert(sub1.drop_last() =~= sub0);
                assert(sub1.last() == self.incidents@[i as int]@);
                assert(spec_incident_models(out@) =~= spec_active_incidents(sub1));
            }
            i += 1;
        }
        proof {
            assert(spec_incident_models(self.incidents@).subrange(0, n as int)
                =~= spec_incident_models(self.incidents@));
        }
        out
    }
}

/// Helper: under the store invariant the ids of distinct records differ,
/// because each embeds its own sequence number injectively.
proof fn lemma_wf_ids_distinct(store: &IncidentStore)
    requires
        store.wf(),
    ensures
        forall|i: int, j: int|
            0 <= i < store@.incidents.len() && 0 <= j < store@.incidents.len() && i != j
                ==> (#[trigger] store@.incidents[i]).id != (#[trigger] store@.incidents[j]).id,
{
    let m = store@.incidents;
    assert forall|i: int, j: int|
        0 <= i < m.len() && 0 <= j < m.len() && i != j implies (#[trigger] m[i]).id
        != (#[trigger] m[j]).id by {
        if m[i].id == m[j].id {
            lemma_incident_id_injective(m[i].created_at, i as nat, m[j].created_at, j as nat);
        }
    }
}

/// Returned ids are pairwise distinct: any two records of the store carry
/// different ids, whatever the creation timestamps were (in particular two
/// incidents created in the same timestamp tick).
pub proof fn lemma_ids_pairwise_distinct(store: &IncidentStore)
    requires
        store.wf(),
    ensures
        forall|i: int, j: int|
            0 <= i < store@.incidents.len() && 0 <= j < store@.incidents.len() && i != j
                ==> (#[trigger] store@.incidents[i]).id != (#[trigger] store@.incidents[j]).id,
{
    lemma_wf_ids_distinct(store);
}

} // verus!
