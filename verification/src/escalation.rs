//! Escalation policy: a pure mapping from a severity tier to an ordered
//! chain of escalation levels.
//!
//! The chain for a given severity is fixed, ordered ascending by trigger
//! delay, and always starts at delay zero. Levels flagged
//! `contact_immediately` are dispatched at creation time; the rest form a
//! schedule for an external timer.

use vstd::prelude::*;
use crate::severity::Severity;

verus! {

/// Role a level of an escalation chain notifies.
#[derive(Clone, Copy, Debug, PartialEq, Eq, Structural)]
pub enum Role {
    OnCallEngineer,
    TeamLead,
    VpEngineering,
    TicketQueue,
}

/// One level of an escalation chain: whom to contact, how many minutes after
/// incident creation, and whether to contact them at creation time.
#[derive(Clone, Copy, Debug, PartialEq, Eq, Structural)]
pub struct EscalationLevel {
    pub role: Role,
    pub delay_minutes: u64,
    pub contact_immediately: bool,
}

/// The escalation chain of a severity tier.
pub open spec fn spec_escalation_chain(sev: Severity) -> Seq<EscalationLevel> {
    match sev {
        Severity::P0 => seq![
            EscalationLevel { role: Role::OnCallEngineer, delay_minutes: 0, contact_immediately: true },
            EscalationLevel { role: Role::TeamLead, delay_minutes: 5, contact_immediately: false },
            EscalationLevel { role: Role::VpEngineering, delay_minutes: 15, contact_immediately: false },
        ],
        Severity::P1 => seq![
            EscalationLevel { role: Role::OnCallEngineer, delay_minutes: 0, contact_immediately: true },
            EscalationLevel { role: Role::TeamLead, delay_minutes: 30, contact_immediately: false },
        ],
        Severity::P2 => seq![
            EscalationLevel { role: Role::OnCallEngineer, delay_minutes: 0, contact_immediately: false },
        ],
        Severity::P3 => seq![
            EscalationLevel { role: Role::TicketQueue, delay_minutes: 0, contact_immediately: false },
        ],
    }
}

/// The levels of a chain flagged for immediate contact, in chain order.
pub open spec fn spec_immediate_levels(sev: Severity) -> Seq<EscalationLevel> {
    spec_escalation_chain(sev).filter(|level: EscalationLevel| level.contact_immediately)
}

/// Returns the escalation chain of `sev`, ordered ascending by delay.
pub fn escalation_chain(sev: Severity) -> (chain: Vec<EscalationLevel>)
    ensures
        chain@ == spec_escalation_chain(sev),
{
    let mut chain: Vec<EscalationLevel> = Vec::new();
    match sev {
        Severity::P0 => {
            chain.push(EscalationLevel {
                role: Role::OnCallEngineer,
                delay_minutes: 0,
                contact_immediately: true,
            });
            chain.push(EscalationLevel {
                role: Role::TeamLead,
                delay_minutes: 5,
                contact_immediately: false,
            });
            chain.push(EscalationLevel {
                role: Role::VpEngineering,
                delay_minutes: 15,
                contact_immediately: false,
            });
        },
        Severity::P1 => {
            chain.push(EscalationLevel {
                role: Role::OnCallEngineer,
                delay_minutes: 0,
                contact_immediately: true,
            });
            chain.push(EscalationLevel {
                role: Role::TeamLead,
                delay_minutes: 30,
                contact_immediately: false,
            });
        },
        Severity::P2 => {
            chain.push(EscalationLevel {
                role: Role::OnCallEngineer,
                delay_minutes: 0,
                contact_immediately: false,
            });
        },
        Severity::P3 => {
            chain.push(EscalationLevel {
                role: Role::TicketQueue,
                delay_minutes: 0,
                contact_immediately: false,
            });
        },
    }
    proof {
        assert(chain@ =~= spec_escalation_chain(sev));
    }
    chain
}

/// Returns the levels of the chain of `sev` that are contacted at creation
/// time, in chain order.
pub fn immediate_levels(sev: Severity) -> (levels: Vec<EscalationLevel>)
    ensures
        levels@ == spec_immediate_levels(sev),
{
    proof {
        lemma_immediate_levels_concrete(sev);
    }
    let mut levels: Vec<EscalationLevel> = Vec::new();
    match sev {
        Severity::P0 => {
            levels.push(EscalationLevel {
                role: Role::OnCallEngineer,
                delay_minutes: 0,
                contact_immediately: true,
            });
        },
        Severity::P1 => {
            levels.push(EscalationLevel {
                role: Role::OnCallEngineer,
                delay_minutes: 0,
                contact_immediately: true,
            });
        },
        Severity::P2 => {},
        Severity::P3 => {},
    }
    proof {
        assert(levels@ =~= spec_immediate_levels(sev));
    }
    levels
}

/// The immediate part of each chain is concrete: for `P0` and `P1` it is the
/// on-call engineer alone, at delay zero; for `P2` and `P3` it is empty.
pub proof fn lemma_immediate_levels_concrete(sev: Severity)
    ensures
        sev == Severity::P0 || sev == Severity::P1 ==> spec_immediate_levels(sev) =~= seq![
            EscalationLevel { role: Role::OnCallEngineer, delay_minutes: 0, contact_immediately: true },
        ],
        sev == Severity::P2 || sev == Severity::P3 ==> spec_immediate_levels(sev) =~= Seq::<
            EscalationLevel,
        >::empty(),
{
    reveal_with_fuel(Seq::filter, 5);
    match sev {
        Severity::P0 => {
            assert(spec_immediate_levels(Severity::P0) =~= seq![
                EscalationLevel { role: Role::OnCallEngineer, delay_minutes: 0, contact_immediately: true },
            ]);
        },
        Severity::P1 => {
            assert(spec_immediate_levels(Severity::P1) =~= seq![
                EscalationLevel { role: Role::OnCallEngineer, delay_minutes: 0, contact_immediately: true },
            ]);
        },
        Severity::P2 => {
            assert(spec_immediate_levels(Severity::P2) =~= Seq::<EscalationLevel>::empty());
        },
        Severity::P3 => {
            assert(spec_immediate_levels(Severity::P3) =~= Seq::<EscalationLevel>::empty());
        },
    }
}

/// The levels of a chain left to an external timer (not contacted at
/// creation time), in chain order.
pub open spec fn spec_deferred_levels(sev: Severity) -> Seq<EscalationLevel> {
    spec_escalation_chain(sev).filter(|level: EscalationLevel| !level.contact_immediately)
}

/// Returns the levels of the chain of `sev` that are deferred to an external
/// timer, in chain order; together with [`immediate_levels`] this partitions
/// the chain.
pub fn deferred_levels(sev: Severity) -> (levels: Vec<EscalationLevel>)
    ensures
        levels@ == spec_deferred_levels(sev),
{
    proof {
        lemma_deferred_levels_concrete(sev);
    }
    let mut levels: Vec<EscalationLevel> = Vec::new();
    match sev {
        Severity::P0 => {
            levels.push(EscalationLevel {
                role: Role::TeamLead,
                delay_minutes: 5,
                contact_immediately: false,
            });
            levels.push(EscalationLevel {
                role: Role::VpEngineering,
                delay_minutes: 15,
                contact_immediately: false,
            });
        },
        Severity::P1 => {
            levels.push(EscalationLevel {
                role: Role::TeamLead,
                delay_minutes: 30,
                contact_immediately: false,
            });
        },
        Severity::P2 => {
            levels.push(EscalationLevel {
                role: Role::OnCallEngineer,
                delay_minutes: 0,
                contact_immediately: false,
            });
        },
        Severity::P3 => {
            levels.push(EscalationLevel {
                role: Role::TicketQueue,
                delay_minutes: 0,
                contact_immediately: false,
            });
        },
    }
    proof {
        assert(levels@ =~= spec_deferred_levels(sev));
    }
    levels
}

/// The deferred part of each chain is concrete: the team lead and, for `P0`,
/// the engineering VP; for `P2` and `P3` the whole (not-immediate) chain.
pub proof fn lemma_deferred_levels_concrete(sev: Severity)
    ensures
        sev == Severity::P0 ==> spec_deferred_levels(sev) =~= seq![
            EscalationLevel { role: Role::TeamLead, delay_minutes: 5, contact_immediately: false },
            EscalationLevel { role: Role::VpEngineering, delay_minutes: 15, contact_immediately: false },
        ],
        sev == Severity::P1 ==> spec_deferred_levels(sev) =~= seq![
            EscalationLevel { role: Role::TeamLead, delay_minutes: 30, contact_immediately: false },
        ],
        sev == Severity::P2 ==> spec_deferred_levels(sev) =~= seq![
            EscalationLevel { role: Role::OnCallEngineer, delay_minutes: 0, contact_immediately: false },
        ],
        sev == Severity::P3 ==> spec_deferred_levels(sev) =~= seq![
            EscalationLevel { role: Role::TicketQueue, delay_minutes: 0, contact_immediately: false },
        ],
{
    reveal_with_fuel(Seq::filter, 5);
    match sev {
        Severity::P0 => {
            assert(spec_deferred_levels(Severity::P0) =~= seq![
                EscalationLevel { role: Role::TeamLead, delay_minutes: 5, contact_immediately: false },
                EscalationLevel {
                    role: Role::VpEngineering,
                    delay_minutes: 15,
                    contact_immediately: false,
                },
            ]);
        },
        Severity::P1 => {
            assert(spec_deferred_levels(Severity::P1) =~= seq![
                EscalationLevel { role: Role::TeamLead, delay_minutes: 30, contact_immediately: false },
            ]);
        },
        Severity::P2 => {
            assert(spec_deferred_levels(Severity::P2) =~= seq![
                EscalationLevel {
                    role: Role::OnCallEngineer,
                    delay_minutes: 0,
                    contact_immediately: false,
                },
            ]);
        },
        Severity::P3 => {
            assert(spec_deferred_levels(Severity::P3) =~= seq![
                EscalationLevel { role: Role::TicketQueue, delay_minutes: 0, contact_immediately: false },
            ]);
        },
    }
}

/// The escalation chain of every severity is non-empty, begins at delay zero,
/// and is strictly ascending by delay.
pub proof fn lemma_escalation_chain_ascending(sev: Severity)
    ensures
        spec_escalation_chain(sev).len() >= 1,
        spec_escalation_chain(sev)[0].delay_minutes == 0,
        forall|i: int, j: int|
            0 <= i < j < spec_escalation_chain(sev).len()
                ==> spec_escalation_chain(sev)[i].delay_minutes
                < spec_escalation_chain(sev)[j].delay_minutes,
{
}

} // verus!
