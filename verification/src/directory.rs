//! On-call directory: resolves a team name to its current on-call contact,
//! its chat channels, and (composed with the escalation policy) its
//! escalation chain.
//!
//! Team lookups never fail: a team outside the directory resolves to a
//! documented default profile (the generic on-call contact and the
//! `#incidents` / `#engineering` / `#alerts` channels). An unrecognized
//! severity, by contrast, is rejected — there is no silent default tier.

use vstd::prelude::*;
use crate::errors::{IncidentError, InputKind};
use crate::escalation::{escalation_chain, spec_escalation_chain, EscalationLevel};
use crate::severity::{parse_severity, spec_parse_severity};
use crate::text::str_eq;

verus! {

/// Configuration of the directory backend (held for the embedding host; the
/// lookups themselves are deterministic).
#[derive(Debug)]
pub struct DirectoryConfig {
    pub pagerduty_api_key: String,
    pub api_endpoint: String,
}

/// Contact details of an on-call engineer.
#[derive(Debug)]
pub struct Engineer {
    pub name: String,
    pub phone: String,
    pub email: String,
    pub chat_handle: String,
}

/// Mathematical model of an [`Engineer`].
pub struct EngineerModel {
    pub name: Seq<char>,
    pub phone: Seq<char>,
    pub email: Seq<char>,
    pub chat_handle: Seq<char>,
}

impl View for Engineer {
    type V = EngineerModel;

    open spec fn view(&self) -> EngineerModel {
        EngineerModel {
            name: self.name@,
            phone: self.phone@,
            email: self.email@,
            chat_handle: self.chat_handle@,
        }
    }
}

/// The chat channels of a team.
#[derive(Debug)]
pub struct TeamChannels {
    pub primary: String,
    pub general: String,
    pub alerts: String,
}

/// Mathematical model of a [`TeamChannels`].
pub struct TeamChannelsModel {
    pub primary: Seq<char>,
    pub general: Seq<char>,
    pub alerts: Seq<char>,
}

impl View for TeamChannels {
    type V = TeamChannelsModel;

    open spec fn view(&self) -> TeamChannelsModel {
        TeamChannelsModel {
            primary: self.primary@,
            general: self.general@,
            alerts: self.alerts@,
        }
    }
}

/// An escalation chain resolved against the directory: the team, its on-call
/// contact, and the policy levels for the requested severity.
#[derive(Debug)]
pub struct EscalationChainInfo {
    pub team: String,
    pub oncall: Engineer,
    pub levels: Vec<EscalationLevel>,
}

/// The on-call contact of `team`; a team outside the directory resolves to
/// the default profile.
pub open spec fn spec_oncall_engineer(team: Seq<char>) -> EngineerModel {
    if team == "backend"@ {
        EngineerModel {
            name: "Alice Johnson"@,
            phone: "+1-555-0101"@,
            email: "alice@company.com"@,
            chat_handle: "@alice"@,
        }
    } else if team == "frontend"@ {
        EngineerModel {
            name: "Bob Smith"@,
            phone: "+1-555-0102"@,
            email: "bob@company.com"@,
            chat_handle: "@bob"@,
        }
    } else if team == "infra"@ {
        EngineerModel {
            name: "Charlie Davis"@,
            phone: "+1-555-0103"@,
            email: "charlie@company.com"@,
            chat_handle: "@charlie"@,
        }
    } else {
        EngineerModel {
            name: "Default Oncall"@,
            phone: "+1-555-0100"@,
            email: "oncall@company.com"@,
            chat_handle: "@oncall"@,
        }
    }
}

/// The chat channels of `team`; a team outside the directory resolves to the
/// default `#incidents` / `#engineering` / `#alerts` profile.
pub open spec fn spec_team_channels(team: Seq<char>) -> TeamChannelsModel {
    if team == "backend"@ {
        TeamChannelsModel {
            primary: "#backend-incidents"@,
            general: "#backend"@,
            alerts: "#backend-alerts"@,
        }
    } else if team == "frontend"@ {
        TeamChannelsModel {
            primary: "#frontend-incidents"@,
            general: "#frontend"@,
            alerts: "#frontend-alerts"@,
        }
    } else {
        TeamChannelsModel {
            primary: "#incidents"@,
            general: "#engineering"@,
            alerts: "#alerts"@,
        }
    }
}

/// The on-call directory surface.
pub struct OncallDirectoryContractState {
    config: DirectoryConfig,
}

impl OncallDirectoryContractState {
    /// A directory handle over the given backend configuration.
    pub fn new(config: DirectoryConfig) -> (r: OncallDirectoryContractState)
        ensures
            r.config_view() == (config.pagerduty_api_key@, config.api_endpoint@),
    {
        OncallDirectoryContractState { config }
    }

    /// The backend configuration the directory was built with.
    pub closed spec fn config_view(&self) -> (Seq<char>, Seq<char>) {
        (self.config.pagerduty_api_key@, self.config.api_endpoint@)
    }

    /// Resolves the current on-call engineer of `team`; a team outside the
    /// directory resolves to the default profile rather than failing.
    pub fn get_oncall_engineer(&self, team: &str) -> (r: Engineer)
        ensures
            r@ == spec_oncall_engineer(team@),
    {
        if str_eq(team, "backend") {
            Engineer {
                name: "Alice Johnson".to_owned(),
                phone: "+1-555-0101".to_owned(),
                email: "alice@company.com".to_owned(),
                chat_handle: "@alice".to_owned(),
            }
        } else if str_eq(team, "frontend") {
            Engineer {
                name: "Bob Smith".to_owned(),
                phone: "+1-555-0102".to_owned(),
                email: "bob@company.com".to_owned(),
                chat_handle: "@bob".to_owned(),
            }
        } else if str_eq(team, "infra") {
            Engineer {
                name: "Charlie Davis".to_owned(),
                phone: "+1-555-0103".to_owned(),
                email: "charlie@company.com".to_owned(),
                chat_handle: "@charlie".to_owned(),
            }
        } else {
            Engineer {
                name: "Default Oncall".to_owned(),
                phone: "+1-555-0100".to_owned(),
                email: "oncall@company.com".to_owned(),
                chat_handle: "@oncall".to_owned(),
            }
        }
    }

    /// Resolves the chat channels of `team`; a team outside the directory
    /// resolves to the default profile rather than failing.
    pub fn get_team_channels(&self, team: &str) -> (r: TeamChannels)
        ensures
            r@ == spec_team_channels(team@),
    {
        if str_eq(team, "backend") {
            TeamChannels {
                primary: "#backend-incidents".to_owned(),
                general: "#backend".to_owned(),
                alerts: "#backend-alerts".to_owned(),
            }
        } else if str_eq(team, "frontend") {
            TeamChannels {
                primary: "#frontend-incidents".to_owned(),
                general: "#frontend".to_owned(),
                alerts: "#frontend-alerts".to_owned(),
            }
        } else {
            TeamChannels {
                primary: "#incidents".to_owned(),
                general: "#engineering".to_owned(),
                alerts: "#alerts".to_owned(),
            }
        }
    }

    /// Composes the escalation policy with the directory: the chain of
    /// `severity` together with the team's on-call contact. An unrecognized
    /// severity is rejected — callers must supply one of the four tiers.
    pub fn get_escalation_chain(&self, team: &str, severity: &str) -> (r: Result<
        EscalationChainInfo,
        IncidentError,
    >)
        ensures
            match r {
                Ok(info) => {
                    &&& spec_parse_severity(severity@) is Some
                    &&& info.levels@ == spec_escalation_chain(
                        spec_parse_severity(severity@).unwrap(),
                    )
                    &&& info.oncall@ == spec_oncall_engineer(team@)
                    &&& info.team@ == team@
                },
                Err(e) => {
                    &&& spec_parse_severity(severity@) is None
                    &&& e == (IncidentError::Validation { input: InputKind::Severity })
                },
            },
    {
        match parse_severity(severity) {
            None => Err(IncidentError::Validation { input: InputKind::Severity }),
            Some(sev) => Ok(
                EscalationChainInfo {
                    team: team.to_owned(),
                    oncall: self.get_oncall_engineer(team),
                    levels: escalation_chain(sev),
                },
            ),
        }
    }
}

} // verus!
