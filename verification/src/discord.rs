//! Discord notifier: builds webhook posts with rich embeds.
//!
//! Like the hub, this module performs no I/O: each method assembles the
//! complete webhook post as plain data for the embedding host to deliver.

use vstd::prelude::*;
use crate::errors::{IncidentError, InputKind};
use crate::severity::{severity_color_value, spec_severity_color_value};
use crate::status::{parse_status, spec_parse_status, Status};

verus! {

/// Configuration of the Discord transport.
#[derive(Debug)]
pub struct DiscordConfig {
    pub webhook_url: String,
}

/// One structured field of a rich embed.
#[derive(Debug)]
pub struct EmbedField {
    pub name: String,
    pub value: String,
    pub inline: bool,
}

/// Mathematical model of an [`EmbedField`].
pub struct EmbedFieldModel {
    pub name: Seq<char>,
    pub value: Seq<char>,
    pub inline: bool,
}

impl View for EmbedField {
    type V = EmbedFieldModel;

    open spec fn view(&self) -> EmbedFieldModel {
        EmbedFieldModel { name: self.name@, value: self.value@, inline: self.inline }
    }
}

/// The models of a sequence of embed fields.
pub open spec fn spec_field_models(fields: Seq<EmbedField>) -> Seq<EmbedFieldModel> {
    fields.map_values(|f: EmbedField| f@)
}

/// A rich embed: title, description, colour, structured fields, footer.
#[derive(Debug)]
pub struct DiscordEmbed {
    pub title: String,
    pub description: String,
    pub color: u32,
    pub fields: Vec<EmbedField>,
    pub footer_text: String,
}

/// A prepared plain-message webhook post.
#[derive(Debug)]
pub struct DiscordMessageCall {
    pub url: String,
    pub content: String,
    pub username: String,
}

/// A prepared rich-embed webhook post.
#[derive(Debug)]
pub struct DiscordEmbedCall {
    pub url: String,
    pub username: String,
    pub embed: DiscordEmbed,
}

/// The colour of a status-update embed: yellow under investigation, green
/// when resolved, gray when closed, blue while still merely open.
pub open spec fn spec_status_color_value(st: Status) -> u32 {
    match st {
        Status::Investigating => 16776960u32,
        Status::Resolved => 65280u32,
        Status::Closed => 8421504u32,
        Status::Open => 3447003u32,
    }
}

/// The upper-case display name of a status.
pub open spec fn spec_status_upper_label(st: Status) -> Seq<char> {
    match st {
        Status::Open => "OPEN"@,
        Status::Investigating => "INVESTIGATING"@,
        Status::Resolved => "RESOLVED"@,
        Status::Closed => "CLOSED"@,
    }
}

/// The Discord notification surface over the configured webhook.
pub struct DiscordNotifierContractState {
    pub config: DiscordConfig,
}

impl DiscordNotifierContractState {
    /// A notifier over the given webhook configuration.
    pub fn new(config: DiscordConfig) -> (r: DiscordNotifierContractState)
        ensures
            r.config == config,
    {
        DiscordNotifierContractState { config }
    }

    /// Builds a plain-message post; an empty username falls back to the
    /// default bot name.
    pub fn send_message(&self, content: String, username: String) -> (call: DiscordMessageCall)
        ensures
            call.url@ == self.config.webhook_url@,
            call.content@ == content@,
            call.username@ == if username@.len() == 0 {
                "Incident Bot"@
            } else {
                username@
            },
    {
        let bot_name = if username.as_str().is_empty() {
            "Incident Bot".to_owned()
        } else {
            username
        };
        DiscordMessageCall {
            url: self.config.webhook_url.clone(),
            content,
            username: bot_name,
        }
    }

    /// Builds the rich-embed alert of an incident: title and description,
    /// severity-derived colour (gray outside the four tiers), the structured
    /// severity / service / incident-id fields, and the footer.
    pub fn send_incident_alert(
        &self,
        incident_id: &str,
        severity: &str,
        description: String,
        service: &str,
    ) -> (call: DiscordEmbedCall)
        ensures
            call.url@ == self.config.webhook_url@,
            call.username@ == "Incident Alert System"@,
            call.embed.title@ == severity@ + " Incident: "@ + incident_id@,
            call.embed.description@ == description@,
            call.embed.color == spec_severity_color_value(severity@),
            spec_field_models(call.embed.fields@) =~= seq![
                EmbedFieldModel { name: "Severity"@, value: severity@, inline: true },
                EmbedFieldModel { name: "Service"@, value: service@, inline: true },
                EmbedFieldModel { name: "Incident ID"@, value: incident_id@, inline: true },
            ],
            call.embed.footer_text@ == "Incident Response System"@,
    {
        let color = severity_color_value(severity);
        let mut title = severity.to_owned();
        title.append(" Incident: ");
        title.append(incident_id);
        let mut fields: Vec<EmbedField> = Vec::new();
        fields.push(EmbedField { name: "Severity".to_owned(), value: severity.to_owned(), inline: true });
        fields.push(EmbedField { name: "Service".to_owned(), value: service.to_owned(), inline: true });
        fields.push(
            EmbedField { name: "Incident ID".to_owned(), value: incident_id.to_owned(), inline: true },
        );
        proof {
            assert(spec_field_models(fields@) =~= seq![
                EmbedFieldModel { name: "Severity"@, value: severity@, inline: true },
                EmbedFieldModel { name: "Service"@, value: service@, inline: true },
                EmbedFieldModel { name: "Incident ID"@, value: incident_id@, inline: true },
            ]);
        }
        DiscordEmbedCall {
            url: self.config.webhook_url.clone(),
            username: "Incident Alert System".to_owned(),
            embed: DiscordEmbed {
                title,
                description,
                color,
                fields,
                footer_text: "Incident Response System".to_owned(),
            },
        }
    }

    /// Builds the rich-embed status update of an incident. The status must be
    /// one of the four lifecycle states; anything else is rejected rather
    /// than silently styled.
    pub fn send_status_update(&self, incident_id: &str, status: &str, message: String) -> (r:
        Result<DiscordEmbedCall, IncidentError>)
        ensures
            match r {
                Ok(call) => {
                    let st = spec_parse_status(status@).unwrap();
                    &&& spec_parse_status(status@) is Some
                    &&& call.url@ == self.config.webhook_url@
                    &&& call.username@ == "Incident Updates"@
                    &&& call.embed.title@ == "Status Update: "@ + incident_id@
                    &&& call.embed.description@ == message@
                    &&& call.embed.color == spec_status_color_value(st)
                    &&& spec_field_models(call.embed.fields@) =~= seq![
                        EmbedFieldModel {
                            name: "New Status"@,
                            value: spec_status_upper_label(st),
                            inline: true,
                        },
                        EmbedFieldModel { name: "Incident ID"@, value: incident_id@, inline: true },
                    ]
                    &&& call.embed.footer_text@.len() == 0
                },
                Err(e) => {
                    &&& spec_parse_status(status@) is None
                    &&& e == (IncidentError::Validation { input: InputKind::Status })
                },
            },
    {
        let st = match parse_status(status) {
            None => {
                return Err(IncidentError::Validation { input: InputKind::Status });
            },
            Some(st) => st,
        };
        let color = match st {
            Status::Investigating => 16776960,
            Status::Resolved => 65280,
            Status::Closed => 8421504,
            Status::Open => 3447003,
        };
        let upper = match st {
            Status::Open => "OPEN",
            Status::Investigating => "INVESTIGATING",
            Status::Resolved => "RESOLVED",
            Status::Closed => "CLOSED",
        };
        let mut title = "Status Update: ".to_owned();
        title.append(incident_id);
        let mut fields: Vec<EmbedField> = Vec::new();
        fields.push(EmbedField { name: "New Status".to_owned(), value: upper.to_owned(), inline: true });
        fields.push(
            EmbedField { name: "Incident ID".to_owned(), value: incident_id.to_owned(), inline: true },
        );
        proof {
            assert(spec_field_models(fields@) =~= seq![
                EmbedFieldModel {
                    name: "New Status"@,
                    value: spec_status_upper_label(st),
                    inline: true,
                },
                EmbedFieldModel { name: "Incident ID"@, value: incident_id@, inline: true },
            ]);
        }
        Ok(
            DiscordEmbedCall {
                url: self.config.webhook_url.clone(),
                username: "Incident Updates".to_owned(),
                embed: DiscordEmbed {
                    title,
                    description: message,
                    color,
                    fields,
                    footer_text: String::new(),
                },
            },
        )
    }
}

} // verus!
