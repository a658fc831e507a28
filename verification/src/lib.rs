//! Verified control-plane library for a fleet of `netspot` network probes.
//!
//! The library holds the logic of the control plane: the JSON codec used for
//! probe messages, configurations, webhooks and status rows; the TOML
//! emission for probe configuration files; the socket stream's framing rule;
//! the store's row decoding and retention cutoff; the probe supervisor's
//! state machine and reconciliation; and the webhook dispatch plan. Process
//! management, sockets, SQL and HTTP live outside the library and hand it
//! plain values.

pub mod chars;
pub mod config;
pub mod json;
pub mod messages;
pub mod probes;
pub mod status;
pub mod store;
pub mod toml;
pub mod webhooks;
