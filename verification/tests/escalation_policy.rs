//! Escalation policy and severity colour tests.

use incident_response::escalation::{escalation_chain, immediate_levels, deferred_levels, Role};
use incident_response::severity::{
    parse_severity, severity_color_hex, severity_color_value, severity_label, Severity,
};

#[test]
fn chain_p0_is_the_fixed_three_level_sequence() {
    let chain = escalation_chain(Severity::P0);
    let as_tuples: Vec<(Role, u64, bool)> =
        chain.iter().map(|l| (l.role, l.delay_minutes, l.contact_immediately)).collect();
    assert_eq!(
        as_tuples,
        vec![
            (Role::OnCallEngineer, 0, true),
            (Role::TeamLead, 5, false),
            (Role::VpEngineering, 15, false),
        ]
    );
}

#[test]
fn chain_p1_p2_p3_are_fixed() {
    let p1: Vec<(Role, u64, bool)> = escalation_chain(Severity::P1)
        .iter()
        .map(|l| (l.role, l.delay_minutes, l.contact_immediately))
        .collect();
    assert_eq!(p1, vec![(Role::OnCallEngineer, 0, true), (Role::TeamLead, 30, false)]);
    let p2: Vec<(Role, u64, bool)> = escalation_chain(Severity::P2)
        .iter()
        .map(|l| (l.role, l.delay_minutes, l.contact_immediately))
        .collect();
    assert_eq!(p2, vec![(Role::OnCallEngineer, 0, false)]);
    let p3: Vec<(Role, u64, bool)> = escalation_chain(Severity::P3)
        .iter()
        .map(|l| (l.role, l.delay_minutes, l.contact_immediately))
        .collect();
    assert_eq!(p3, vec![(Role::TicketQueue, 0, false)]);
}

#[test]
fn chains_are_ascending_by_delay_and_start_at_zero() {
    for sev in [Severity::P0, Severity::P1, Severity::P2, Severity::P3] {
        let chain = escalation_chain(sev);
        assert!(!chain.is_empty());
        assert_eq!(chain[0].delay_minutes, 0);
        for pair in chain.windows(2) {
            assert!(pair[0].delay_minutes < pair[1].delay_minutes);
        }
    }
}

#[test]
fn immediate_and_deferred_partition_the_chain() {
    for sev in [Severity::P0, Severity::P1, Severity::P2, Severity::P3] {
        let chain = escalation_chain(sev);
        let immediate = immediate_levels(sev);
        let deferred = deferred_levels(sev);
        assert_eq!(immediate.len() + deferred.len(), chain.len());
        assert!(immediate.iter().all(|l| l.contact_immediately));
        assert!(deferred.iter().all(|l| !l.contact_immediately));
    }
    assert_eq!(immediate_levels(Severity::P2).len(), 0);
    assert_eq!(immediate_levels(Severity::P3).len(), 0);
}

#[test]
fn severity_parsing_is_exactly_the_four_tiers() {
    assert_eq!(parse_severity("P0"), Some(Severity::P0));
    assert_eq!(parse_severity("P1"), Some(Severity::P1));
    assert_eq!(parse_severity("P2"), Some(Severity::P2));
    assert_eq!(parse_severity("P3"), Some(Severity::P3));
    assert_eq!(parse_severity("P4"), None);
    assert_eq!(parse_severity("p0"), None);
    assert_eq!(parse_severity(""), None);
    assert_eq!(severity_label(Severity::P2), "P2");
}

#[test]
fn severity_colors_are_total_and_fixed() {
    assert_eq!(severity_color_hex("P0"), "#FF0000");
    assert_eq!(severity_color_hex("P1"), "#FFA500");
    assert_eq!(severity_color_hex("P2"), "#FFFF00");
    assert_eq!(severity_color_hex("P3"), "#00FF00");
    assert_eq!(severity_color_hex("anything else"), "#808080");
    assert_eq!(severity_color_hex(""), "#808080");
    assert_eq!(severity_color_value("P0"), 16711680);
    assert_eq!(severity_color_value("P1"), 16753920);
    assert_eq!(severity_color_value("P2"), 16776960);
    assert_eq!(severity_color_value("P3"), 65280);
    assert_eq!(severity_color_value("??"), 8421504);
    // Deterministic: the same input always styles the same way.
    assert_eq!(severity_color_hex("P1"), severity_color_hex("P1"));
}
