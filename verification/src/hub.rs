//! Notification hub: builds the outbound calls of the chat, SMS, email and
//! war-room channels.
//!
//! The hub performs no I/O itself. Each `send_*` method assembles the
//! complete outbound call — URL, authentication, payload — as plain data; the
//! embedding host performs the transport and reports the outcome back to the
//! router, which interprets it.

use vstd::prelude::*;
use crate::encoding::{base64_encode, spec_base64_of};
use crate::errors::{IncidentError, InputKind};
use crate::severity::{severity_color_hex, spec_severity_color_hex};
use crate::text::{spec_starts_with, starts_with};

verus! {

/// Configuration of the notification transports, supplied by the embedding
/// host's secret store.
#[derive(Debug)]
pub struct NotificationConfig {
    pub slack_webhook_url: String,
    pub twilio_account_sid: String,
    pub twilio_auth_token: String,
    pub twilio_phone: String,
    pub smtp_host: String,
    pub smtp_port: String,
}

/// Payload of a chat webhook post: one attachment, coloured by severity.
#[derive(Debug)]
pub struct ChatPayload {
    pub color: String,
    pub text: String,
    pub footer: String,
}

/// A prepared chat webhook post.
#[derive(Debug)]
pub struct SlackCall {
    pub url: String,
    pub payload: ChatPayload,
}

/// Form body of an SMS submission.
#[derive(Debug)]
pub struct SmsForm {
    pub to: String,
    pub from: String,
    pub body: String,
}

/// A prepared SMS submission: provider URL, basic-authentication header, and
/// form body.
#[derive(Debug)]
pub struct SmsCall {
    pub url: String,
    pub auth_header: String,
    pub form: SmsForm,
}

/// A prepared email submission, bound to the configured SMTP endpoint.
#[derive(Debug)]
pub struct EmailRequest {
    pub to: String,
    pub subject: String,
    pub body: String,
    pub smtp_host: String,
    pub smtp_port: String,
}

/// The war-room URL of an incident: deterministic, derived from the id with
/// any `INC-` prefix stripped.
pub open spec fn spec_war_room_url(incident_id: Seq<char>) -> Seq<char> {
    "https://meet.google.com/incident-"@ + (if spec_starts_with(incident_id, "INC-"@) {
        incident_id.skip("INC-"@.len() as int)
    } else {
        incident_id
    })
}

/// The notification surface over the configured transports.
pub struct NotificationHubContractState {
    pub config: NotificationConfig,
}

impl NotificationHubContractState {
    /// A hub over the given transport configuration.
    pub fn new(config: NotificationConfig) -> (r: NotificationHubContractState)
        ensures
            r.config == config,
    {
        NotificationHubContractState { config }
    }

    /// Builds the chat webhook post of `message`, styled by `severity`:
    /// `P0` red, `P1` orange, `P2` yellow, `P3` green, anything else gray.
    pub fn send_slack(&self, message: String, severity: &str) -> (call: SlackCall)
        ensures
            call.url@ == self.config.slack_webhook_url@,
            call.payload.color@ == spec_severity_color_hex(severity@),
            call.payload.text@ == message@,
            call.payload.footer@ == "Severity: "@ + severity@,
    {
        let color = severity_color_hex(severity);
        let mut footer = "Severity: ".to_owned();
        footer.append(severity);
        SlackCall {
            url: self.config.slack_webhook_url.clone(),
            payload: ChatPayload { color, text: message, footer },
        }
    }

    /// Builds the SMS submission of `message` to `phone` over the configured
    /// provider account, authenticated with the account's basic-auth
    /// credentials. An empty target is the one malformed request and is
    /// rejected.
    pub fn send_sms(&self, phone: String, message: String) -> (r: Result<SmsCall, IncidentError>)
        ensures
            match r {
                Ok(call) => {
                    &&& phone@.len() > 0
                    &&& call.url@ == "https://api.twilio.com/2010-04-01/Accounts/"@
                        + self.config.twilio_account_sid@ + "/Messages.json"@
                    &&& call.auth_header@ == "Basic "@ + spec_base64_of(
                        self.config.twilio_account_sid@ + ":"@ + self.config.twilio_auth_token@,
                    )
                    &&& call.form.to@ == phone@
                    &&& call.form.from@ == self.config.twilio_phone@
                    &&& call.form.body@ == message@
                },
                Err(e) => {
                    &&& phone@.len() == 0
                    &&& e == (IncidentError::Validation { input: InputKind::Target })
                },
            },
    {
        if phone.as_str().is_empty() {
            return Err(IncidentError::Validation { input: InputKind::Target });
        }
        let mut url = "https://api.twilio.com/2010-04-01/Accounts/".to_owned();
        url.append(self.config.twilio_account_sid.as_str());
        url.append("/Messages.json");
        let mut credentials = self.config.twilio_account_sid.clone();
        credentials.append(":");
        credentials.append(self.config.twilio_auth_token.as_str());
        let encoded = base64_encode(credentials.as_str());
        let mut auth_header = "Basic ".to_owned();
        auth_header.append(encoded.as_str());
        Ok(
            SmsCall {
                url,
                auth_header,
                form: SmsForm { to: phone, from: self.config.twilio_phone.clone(), body: message },
            },
        )
    }

    /// Builds the email submission of `body` to `to`, bound to the configured
    /// SMTP endpoint. An empty target is the one malformed request and is
    /// rejected.
    pub fn send_email(&self, to: String, subject: String, body: String) -> (r: Result<
        EmailRequest,
        IncidentError,
    >)
        ensures
            match r {
                Ok(req) => {
                    &&& to@.len() > 0
                    &&& req.to@ == to@
                    &&& req.subject@ == subject@
                    &&& req.body@ == body@
                    &&& req.smtp_host@ == self.config.smtp_host@
                    &&& req.smtp_port@ == self.config.smtp_port@
                },
                Err(e) => {
                    &&& to@.len() == 0
                    &&& e == (IncidentError::Validation { input: InputKind::Target })
                },
            },
    {
        if to.as_str().is_empty() {
            return Err(IncidentError::Validation { input: InputKind::Target });
        }
        Ok(
            EmailRequest {
                to,
                subject,
                body,
                smtp_host: self.config.smtp_host.clone(),
                smtp_port: self.config.smtp_port.clone(),
            },
        )
    }

    /// The war-room URL of `incident_id`: deterministic, with any `INC-`
    /// prefix of the id stripped.
    pub fn create_war_room(&self, incident_id: &str) -> (url: String)
        ensures
            url@ == spec_war_room_url(incident_id@),
    {
        let mut url = "https://meet.google.com/incident-".to_owned();
        if starts_with(incident_id, "INC-") {
            let len = incident_id.unicode_len();
            let prefix_len = "INC-".unicode_len();
            let rest = incident_id.substring_char(prefix_len, len);
            url.append(rest);
            proof {
                assert(rest@ =~= incident_id@.skip("INC-"@.len() as int));
            }
        } else {
            url.append(incident_id);
        }
        url
    }
}

} // verus!
