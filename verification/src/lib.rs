//! Coordination of the lifecycle of an operational incident, with
//! severity-driven escalation and fan-out notification across independent
//! channels.
//!
//! The crate is organised leaf-first:
//! - [`text`] holds small verified string utilities,
//! - [`errors`] the error taxonomy,
//! - [`severity`] the severity tiers and their colour coding,
//! - [`status`] the lifecycle state machine of an incident,
//! - [`escalation`] the policy mapping a severity to an escalation chain,
//! - [`timeline`] the append-only audit log,
//! - [`ids`] collision-free incident id generation,
//! - [`store`] the incident store enforcing the state machine,
//! - [`directory`] the on-call directory lookups,
//! - [`encoding`] the one trusted call into the `base64` crate,
//! - [`hub`] and [`discord`] the per-channel notification payload builders,
//! - [`router`] the fan-out dispatcher with its bounded retry budget,
//! - [`tracker`] the top-level orchestrator.
//!
//! All external transport (webhook posts, SMS, email submission) is performed
//! by the embedding host: the library builds each outbound call as data,
//! decides retries, and interprets the outcomes the host reports back.

pub mod text;
pub mod severity;
pub mod status;
pub mod escalation;
pub mod ids;
pub mod errors;
pub mod timeline;
pub mod store;
pub mod directory;
pub mod encoding;
pub mod hub;
pub mod discord;
pub mod router;
pub mod tracker;
