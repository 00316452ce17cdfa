//! Notification hub, Discord notifier and fan-out router tests.

use incident_response::discord::{DiscordConfig, DiscordNotifierContractState};
use incident_response::errors::{IncidentError, InputKind};
use incident_response::hub::{NotificationConfig, NotificationHubContractState};
use incident_response::router::{
    judge_outcome, AttemptVerdict, Channel, DeliveryOutcome, Dispatch, FailReason,
    NotificationRequest, TransportOutcome, MAX_ATTEMPTS,
};
use incident_response::tracker::IncidentTrackerContractState;

fn hub() -> NotificationHubContractState {
    NotificationHubContractState::new(NotificationConfig {
        slack_webhook_url: "https://hooks.example.com/T000/B000".to_string(),
        twilio_account_sid: "AC123".to_string(),
        twilio_auth_token: "secret".to_string(),
        twilio_phone: "+1-555-0000".to_string(),
        smtp_host: "smtp.example.com".to_string(),
        smtp_port: "587".to_string(),
    })
}

fn request(channel: Channel, target: &str) -> NotificationRequest {
    NotificationRequest {
        channel,
        target: target.to_string(),
        message: "db down".to_string(),
        severity: "P0".to_string(),
    }
}

#[test]
fn slack_call_carries_webhook_color_and_footer() {
    let call = hub().send_slack("db down".to_string(), "P0");
    assert_eq!(call.url, "https://hooks.example.com/T000/B000");
    assert_eq!(call.payload.color, "#FF0000");
    assert_eq!(call.payload.text, "db down");
    assert_eq!(call.payload.footer, "Severity: P0");
    let gray = hub().send_slack("minor".to_string(), "SEV9");
    assert_eq!(gray.payload.color, "#808080");
}

#[test]
fn sms_call_is_authenticated_and_addressed() {
    let call = hub().send_sms("+1-555-0101".to_string(), "db down".to_string()).unwrap();
    assert_eq!(call.url, "https://api.twilio.com/2010-04-01/Accounts/AC123/Messages.json");
    // Basic auth over "AC123:secret"; fails if the encoder handed its input back.
    assert_eq!(call.auth_header, "Basic QUMxMjM6c2VjcmV0");
    assert_eq!(call.form.to, "+1-555-0101");
    assert_eq!(call.form.from, "+1-555-0000");
    assert_eq!(call.form.body, "db down");
}

#[test]
fn sms_and_email_reject_a_missing_target() {
    let err = hub().send_sms("".to_string(), "db down".to_string()).unwrap_err();
    assert_eq!(err, IncidentError::Validation { input: InputKind::Target });
    let err = hub()
        .send_email("".to_string(), "subject".to_string(), "body".to_string())
        .unwrap_err();
    assert_eq!(err, IncidentError::Validation { input: InputKind::Target });
}

#[test]
fn email_request_is_bound_to_the_configured_endpoint() {
    let req = hub()
        .send_email("oncall@example.com".to_string(), "P0: db down".to_string(), "details".to_string())
        .unwrap();
    assert_eq!(req.to, "oncall@example.com");
    assert_eq!(req.subject, "P0: db down");
    assert_eq!(req.body, "details");
    assert_eq!(req.smtp_host, "smtp.example.com");
    assert_eq!(req.smtp_port, "587");
}

#[test]
fn war_room_url_strips_the_inc_prefix() {
    let h = hub();
    assert_eq!(h.create_war_room("INC-20260105100000-0"), "https://meet.google.com/incident-20260105100000-0");
    assert_eq!(h.create_war_room("12345"), "https://meet.google.com/incident-12345");
}

fn discord() -> DiscordNotifierContractState {
    DiscordNotifierContractState::new(DiscordConfig {
        webhook_url: "https://discord.example.com/api/webhooks/1/x".to_string(),
    })
}

#[test]
fn discord_message_defaults_the_username() {
    let call = discord().send_message("hello".to_string(), "".to_string());
    assert_eq!(call.username, "Incident Bot");
    assert_eq!(call.content, "hello");
    let named = discord().send_message("hello".to_string(), "Pager".to_string());
    assert_eq!(named.username, "Pager");
}

#[test]
fn discord_alert_renders_fields_and_severity_color() {
    let call = discord().send_incident_alert("INC-7", "P1", "db down".to_string(), "orders-api");
    assert_eq!(call.url, "https://discord.example.com/api/webhooks/1/x");
    assert_eq!(call.username, "Incident Alert System");
    assert_eq!(call.embed.title, "P1 Incident: INC-7");
    assert_eq!(call.embed.description, "db down");
    assert_eq!(call.embed.color, 16753920);
    let fields: Vec<(String, String, bool)> = call
        .embed
        .fields
        .iter()
        .map(|f| (f.name.clone(), f.value.clone(), f.inline))
        .collect();
    assert_eq!(
        fields,
        vec![
            ("Severity".to_string(), "P1".to_string(), true),
            ("Service".to_string(), "orders-api".to_string(), true),
            ("Incident ID".to_string(), "INC-7".to_string(), true),
        ]
    );
    assert_eq!(call.embed.footer_text, "Incident Response System");
    let unknown = discord().send_incident_alert("INC-8", "SEV1", "x".to_string(), "svc");
    assert_eq!(unknown.embed.color, 8421504);
}

#[test]
fn discord_status_update_colors_and_rejects_unknown_status() {
    let call = discord()
        .send_status_update("INC-7", "investigating", "looking".to_string())
        .unwrap();
    assert_eq!(call.username, "Incident Updates");
    assert_eq!(call.embed.title, "Status Update: INC-7");
    assert_eq!(call.embed.color, 16776960);
    assert_eq!(call.embed.fields[0].name, "New Status");
    assert_eq!(call.embed.fields[0].value, "INVESTIGATING");
    assert_eq!(call.embed.fields[1].value, "INC-7");
    let resolved = discord().send_status_update("INC-7", "resolved", "ok".to_string()).unwrap();
    assert_eq!(resolved.embed.color, 65280);
    let closed = discord().send_status_update("INC-7", "closed", "bye".to_string()).unwrap();
    assert_eq!(closed.embed.color, 8421504);
    let open = discord().send_status_update("INC-7", "open", "new".to_string()).unwrap();
    assert_eq!(open.embed.color, 3447003);
    let err = discord().send_status_update("INC-7", "paused", "x".to_string()).unwrap_err();
    assert_eq!(err, IncidentError::Validation { input: InputKind::Status });
}

#[test]
fn dispatch_aggregates_one_delivered_and_one_failed() {
    let requests = vec![
        request(Channel::Chat, "#incidents"),
        request(Channel::Sms, "+1-555-0101"),
    ];
    let mut dispatch = Dispatch::start(requests).unwrap();
    // The chat webhook is reachable; the SMS provider is not, and stays
    // unreachable through the whole retry budget.
    while let Some(i) = dispatch.next_pending() {
        let (channel, _, _) = dispatch.task_state(i).unwrap();
        let outcome = match channel {
            Channel::Chat => TransportOutcome::Status(200),
            _ => TransportOutcome::ConnectionError,
        };
        dispatch.record_outcome(i, outcome, 42);
    }
    let results = dispatch.results();
    assert_eq!(results.len(), 2);
    assert_eq!(results[0].channel, Channel::Chat);
    assert_eq!(results[0].outcome, DeliveryOutcome::Delivered);
    assert_eq!(results[1].channel, Channel::Sms);
    assert_eq!(results[1].outcome, DeliveryOutcome::Failed(FailReason::Connection));
}

#[test]
fn dispatch_rejects_a_missing_target_as_malformed() {
    let requests = vec![request(Channel::Chat, "#incidents"), request(Channel::Sms, "")];
    let err = Dispatch::start(requests).unwrap_err();
    assert_eq!(err, IncidentError::Validation { input: InputKind::Target });
}

#[test]
fn transient_failures_are_retried_within_the_budget() {
    // 5xx then success: the channel delivers on the second attempt.
    let mut dispatch = Dispatch::start(vec![request(Channel::Chat, "#incidents")]).unwrap();
    let i = dispatch.next_pending().unwrap();
    dispatch.record_outcome(i, TransportOutcome::Status(503), 10);
    let i = dispatch.next_pending().expect("still pending after a transient failure");
    let (_, attempts, _) = dispatch.task_state(i).unwrap();
    assert_eq!(attempts, 1);
    dispatch.record_outcome(i, TransportOutcome::Status(201), 11);
    assert!(dispatch.is_complete());
    let results = dispatch.results();
    assert_eq!(results[0].outcome, DeliveryOutcome::Delivered);
    assert_eq!(results[0].latency_ms, 11);
}

#[test]
fn non_retryable_failures_surface_immediately() {
    // A 4xx is not retried.
    let mut dispatch = Dispatch::start(vec![request(Channel::Email, "a@b.c")]).unwrap();
    let i = dispatch.next_pending().unwrap();
    dispatch.record_outcome(i, TransportOutcome::Status(404), 5);
    assert!(dispatch.is_complete());
    assert_eq!(
        dispatch.results()[0].outcome,
        DeliveryOutcome::Failed(FailReason::Http(404))
    );
}

#[test]
fn the_retry_budget_is_bounded() {
    assert_eq!(MAX_ATTEMPTS, 3);
    let mut dispatch = Dispatch::start(vec![request(Channel::Sms, "+1")]).unwrap();
    let mut calls = 0;
    while let Some(i) = dispatch.next_pending() {
        dispatch.record_outcome(i, TransportOutcome::Timeout, 1000);
        calls += 1;
        assert!(calls <= MAX_ATTEMPTS as u32);
    }
    assert_eq!(calls, MAX_ATTEMPTS as u32);
    assert_eq!(
        dispatch.results()[0].outcome,
        DeliveryOutcome::Failed(FailReason::Timeout)
    );
}

#[test]
fn an_elapsed_deadline_keeps_completed_outcomes() {
    let mut dispatch = Dispatch::start(vec![
        request(Channel::Chat, "#incidents"),
        request(Channel::Email, "a@b.c"),
    ])
    .unwrap();
    let i = dispatch.next_pending().unwrap();
    dispatch.record_outcome(i, TransportOutcome::Status(204), 7);
    // The deadline elapses before the email channel responds.
    dispatch.abandon_pending();
    let results = dispatch.results();
    assert_eq!(results[0].outcome, DeliveryOutcome::Delivered);
    assert_eq!(results[1].outcome, DeliveryOutcome::Failed(FailReason::Timeout));
}

#[test]
fn judge_outcome_matches_the_policy() {
    assert_eq!(judge_outcome(TransportOutcome::Status(200), 1), AttemptVerdict::Delivered);
    assert_eq!(judge_outcome(TransportOutcome::Status(299), 3), AttemptVerdict::Delivered);
    assert_eq!(judge_outcome(TransportOutcome::Status(500), 1), AttemptVerdict::RetryScheduled);
    assert_eq!(
        judge_outcome(TransportOutcome::Status(500), 3),
        AttemptVerdict::Failed(FailReason::Http(500))
    );
    assert_eq!(
        judge_outcome(TransportOutcome::Status(400), 1),
        AttemptVerdict::Failed(FailReason::Http(400))
    );
    assert_eq!(judge_outcome(TransportOutcome::ConnectionError, 2), AttemptVerdict::RetryScheduled);
    assert_eq!(judge_outcome(TransportOutcome::Timeout, 1), AttemptVerdict::RetryScheduled);
}

#[test]
fn notification_outcomes_land_on_the_timeline() {
    let mut tracker = IncidentTrackerContractState::new();
    let receipt = tracker
        .create_incident(
            "db down".to_string(),
            "P0",
            "orders-api".to_string(),
            "alice".to_string(),
            "2026-01-05T10:00:00Z".to_string(),
        )
        .unwrap();
    let id = receipt.incident_id;
    let mut dispatch = Dispatch::start(vec![request(Channel::Chat, "#incidents")]).unwrap();
    let i = dispatch.next_pending().unwrap();
    dispatch.record_outcome(i, TransportOutcome::Status(200), 3);
    for result in dispatch.results() {
        tracker
            .record_notification_outcome(&id, result, "2026-01-05T10:00:01Z".to_string())
            .unwrap();
    }
    let log = tracker.get_incident_timeline(&id).unwrap();
    assert_eq!(log.len(), 2);
    assert_eq!(log[1].details, "chat: delivered");
}
