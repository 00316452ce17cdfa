//! Lifecycle tests: creation, the status state machine, and the audit
//! timeline.

use incident_response::errors::{IncidentError, InputKind};
use incident_response::status::Status;
use incident_response::timeline::ActionType;
use incident_response::tracker::IncidentTrackerContractState;

fn create_p0(tracker: &mut IncidentTrackerContractState, description: &str) -> String {
    let receipt = tracker
        .create_incident(
            description.to_string(),
            "P0",
            "orders-api".to_string(),
            "alice".to_string(),
            "2026-01-05T10:00:00Z".to_string(),
        )
        .expect("P0 is a valid severity");
    receipt.incident_id
}

#[test]
fn create_incident_enters_open_and_dispatches_on_call_only() {
    let mut tracker = IncidentTrackerContractState::new();
    let receipt = tracker
        .create_incident(
            "db down".to_string(),
            "P0",
            "orders-api".to_string(),
            "alice".to_string(),
            "2026-01-05T10:00:00Z".to_string(),
        )
        .expect("creation succeeds");
    assert_eq!(receipt.status, Status::Open);
    // Only the on-call engineer is contacted immediately; the rest of the
    // chain is deferred by delay.
    assert_eq!(receipt.immediate_levels.len(), 1);
    assert_eq!(
        receipt.immediate_levels[0].role,
        incident_response::escalation::Role::OnCallEngineer
    );
    assert_eq!(receipt.scheduled_levels.len(), 2);
    assert!(receipt.scheduled_levels.iter().all(|l| !l.contact_immediately));
    // The id embeds the compacted timestamp and the sequence number.
    assert_eq!(receipt.incident_id, "INC-20260105100000-0");
    let stored = tracker.incident_at(0).expect("record exists");
    assert_eq!(stored.status, Status::Open);
    assert_eq!(stored.description, "db down");
    assert_eq!(stored.service, "orders-api");
    assert_eq!(stored.reporter, "alice");
}

#[test]
fn create_incident_rejects_unknown_severity() {
    let mut tracker = IncidentTrackerContractState::new();
    let err = tracker
        .create_incident(
            "db down".to_string(),
            "P5",
            "orders-api".to_string(),
            "alice".to_string(),
            "2026-01-05T10:00:00Z".to_string(),
        )
        .unwrap_err();
    assert_eq!(err, IncidentError::Validation { input: InputKind::Severity });
    assert_eq!(tracker.incident_count(), 0);
}

#[test]
fn ids_are_distinct_in_the_same_timestamp_tick() {
    let mut tracker = IncidentTrackerContractState::new();
    let a = create_p0(&mut tracker, "first");
    let b = create_p0(&mut tracker, "second");
    let c = create_p0(&mut tracker, "third");
    assert_ne!(a, b);
    assert_ne!(a, c);
    assert_ne!(b, c);
}

#[test]
fn update_status_closed_from_open_is_invalid() {
    let mut tracker = IncidentTrackerContractState::new();
    let id = create_p0(&mut tracker, "db down");
    let err = tracker
        .update_status(&id, "closed", "done".to_string())
        .unwrap_err();
    assert_eq!(
        err,
        IncidentError::InvalidTransition { from: Status::Open, to: Status::Closed }
    );
    // The incident is untouched.
    assert_eq!(tracker.incident_at(0).unwrap().status, Status::Open);
}

#[test]
fn status_walks_the_permitted_edges() {
    let mut tracker = IncidentTrackerContractState::new();
    let id = create_p0(&mut tracker, "db down");
    let r = tracker.update_status(&id, "investigating", "looking".to_string()).unwrap();
    assert_eq!(r.new_status, Status::Investigating);
    // Self-loop for repeated notes.
    let r = tracker.update_status(&id, "investigating", "still looking".to_string()).unwrap();
    assert_eq!(r.new_status, Status::Investigating);
    let r = tracker.update_status(&id, "resolved", "fixed".to_string()).unwrap();
    assert_eq!(r.new_status, Status::Resolved);
    // Reopen is the only backward edge.
    let r = tracker.update_status(&id, "investigating", "regressed".to_string()).unwrap();
    assert_eq!(r.new_status, Status::Investigating);
    let r = tracker.update_status(&id, "resolved", "fixed again".to_string()).unwrap();
    assert_eq!(r.new_status, Status::Resolved);
    let r = tracker.update_status(&id, "closed", "confirmed".to_string()).unwrap();
    assert_eq!(r.new_status, Status::Closed);
    // Nothing leaves closed.
    let err = tracker.update_status(&id, "investigating", "nope".to_string()).unwrap_err();
    assert_eq!(
        err,
        IncidentError::InvalidTransition { from: Status::Closed, to: Status::Investigating }
    );
}

#[test]
fn update_status_rejects_skips_and_unknown_inputs() {
    let mut tracker = IncidentTrackerContractState::new();
    let id = create_p0(&mut tracker, "db down");
    let err = tracker.update_status(&id, "resolved", "skip".to_string()).unwrap_err();
    assert_eq!(
        err,
        IncidentError::InvalidTransition { from: Status::Open, to: Status::Resolved }
    );
    let err = tracker.update_status(&id, "bogus", "".to_string()).unwrap_err();
    assert_eq!(err, IncidentError::Validation { input: InputKind::Status });
    let err = tracker
        .update_status("INC-unknown-7", "investigating", "".to_string())
        .unwrap_err();
    assert_eq!(err, IncidentError::NotFound);
}

#[test]
fn timeline_keeps_append_order_and_reads_agree() {
    let mut tracker = IncidentTrackerContractState::new();
    let id = create_p0(&mut tracker, "db down");
    tracker
        .log_action(&id, "notified", "paged alice".to_string(), "2026-01-05T10:01:00Z".to_string())
        .unwrap();
    tracker
        .log_action(&id, "escalated", "paged lead".to_string(), "2026-01-05T10:06:00Z".to_string())
        .unwrap();
    tracker
        .update_status(&id, "investigating", "on it".to_string())
        .unwrap();
    let first: Vec<(ActionType, String)> = tracker
        .get_incident_timeline(&id)
        .unwrap()
        .iter()
        .map(|e| (e.action, e.details.clone()))
        .collect();
    let second: Vec<(ActionType, String)> = tracker
        .get_incident_timeline(&id)
        .unwrap()
        .iter()
        .map(|e| (e.action, e.details.clone()))
        .collect();
    assert_eq!(first, second);
    assert_eq!(
        first,
        vec![
            (ActionType::Created, "db down".to_string()),
            (ActionType::Notified, "paged alice".to_string()),
            (ActionType::Escalated, "paged lead".to_string()),
            (ActionType::StatusChanged, "on it".to_string()),
        ]
    );
}

#[test]
fn log_action_failures() {
    let mut tracker = IncidentTrackerContractState::new();
    let id = create_p0(&mut tracker, "db down");
    let err = tracker
        .log_action(&id, "celebrated", "".to_string(), "".to_string())
        .unwrap_err();
    assert_eq!(err, IncidentError::Validation { input: InputKind::ActionType });
    let err = tracker
        .log_action("INC--99", "notified", "".to_string(), "".to_string())
        .unwrap_err();
    assert_eq!(err, IncidentError::NotFound);
    let err = tracker.get_incident_timeline("INC--99").unwrap_err();
    assert_eq!(err, IncidentError::NotFound);
}

#[test]
fn active_incidents_are_the_open_and_investigating_ones() {
    let mut tracker = IncidentTrackerContractState::new();
    let a = create_p0(&mut tracker, "first");
    let b = create_p0(&mut tracker, "second");
    let _c = create_p0(&mut tracker, "third");
    tracker.update_status(&a, "investigating", "".to_string()).unwrap();
    tracker.update_status(&a, "resolved", "".to_string()).unwrap();
    tracker.update_status(&b, "investigating", "".to_string()).unwrap();
    let active = tracker.get_active_incidents();
    assert_eq!(active.len(), 2);
    assert_eq!(active[0].description, "second");
    assert_eq!(active[0].status, Status::Investigating);
    assert_eq!(active[1].description, "third");
    assert_eq!(active[1].status, Status::Open);
}
