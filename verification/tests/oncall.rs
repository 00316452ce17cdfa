//! On-call directory tests.

use incident_response::directory::{DirectoryConfig, OncallDirectoryContractState};
use incident_response::errors::{IncidentError, InputKind};
use incident_response::escalation::Role;

fn directory() -> OncallDirectoryContractState {
    OncallDirectoryContractState::new(DirectoryConfig {
        pagerduty_api_key: "test-api-key".to_string(),
        api_endpoint: "https://directory.example.com".to_string(),
    })
}

#[test]
fn known_teams_resolve_their_engineer() {
    let d = directory();
    let alice = d.get_oncall_engineer("backend");
    assert_eq!(alice.name, "Alice Johnson");
    assert_eq!(alice.phone, "+1-555-0101");
    assert_eq!(alice.email, "alice@company.com");
    assert_eq!(alice.chat_handle, "@alice");
    assert_eq!(d.get_oncall_engineer("frontend").name, "Bob Smith");
    assert_eq!(d.get_oncall_engineer("infra").name, "Charlie Davis");
}

#[test]
fn unknown_team_falls_back_to_the_default_profile() {
    let d = directory();
    let fallback = d.get_oncall_engineer("unknown-team");
    assert_eq!(fallback.name, "Default Oncall");
    assert_eq!(fallback.phone, "+1-555-0100");
    assert_eq!(fallback.email, "oncall@company.com");
    assert_eq!(fallback.chat_handle, "@oncall");
}

#[test]
fn unknown_team_gets_the_default_channels_not_an_error() {
    let channels = directory().get_team_channels("unknown-team");
    assert_eq!(channels.primary, "#incidents");
    assert_eq!(channels.general, "#engineering");
    assert_eq!(channels.alerts, "#alerts");
}

#[test]
fn known_teams_get_their_own_channels() {
    let d = directory();
    let backend = d.get_team_channels("backend");
    assert_eq!(backend.primary, "#backend-incidents");
    assert_eq!(backend.general, "#backend");
    assert_eq!(backend.alerts, "#backend-alerts");
    let frontend = d.get_team_channels("frontend");
    assert_eq!(frontend.primary, "#frontend-incidents");
    assert_eq!(frontend.general, "#frontend");
    assert_eq!(frontend.alerts, "#frontend-alerts");
}

#[test]
fn escalation_chain_composes_policy_and_directory() {
    let info = directory().get_escalation_chain("backend", "P0").unwrap();
    assert_eq!(info.team, "backend");
    assert_eq!(info.oncall.name, "Alice Johnson");
    let roles: Vec<Role> = info.levels.iter().map(|l| l.role).collect();
    assert_eq!(roles, vec![Role::OnCallEngineer, Role::TeamLead, Role::VpEngineering]);
}

#[test]
fn escalation_chain_rejects_unknown_severity() {
    let err = directory().get_escalation_chain("backend", "SEV1").unwrap_err();
    assert_eq!(err, IncidentError::Validation { input: InputKind::Severity });
}
