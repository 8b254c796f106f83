//! Channel concurrency and dispatch subsystem for a multi-protocol
//! conversational agent gateway.
//!
//! The library models the message bus, the supervised per-channel listener
//! with exponential backoff, the bounded dispatch worker pool, the per-sender
//! interruption coordinator and the per-message processing state machine,
//! together with the surrounding services: the subprocess plugin protocol,
//! the Signal PIN gate, URL validation for the browser tool, the task-plan
//! and web-search tools, the integration catalogue and the security policy.

use vstd::prelude::*;

pub mod bootstrap;
pub mod browser;
pub mod config;
pub mod cron;
pub mod dispatch;
pub mod draft;
pub mod health;
pub mod history;
pub mod integrations;
pub mod message;
pub mod pipeline;
pub mod plugin_proto;
pub mod plugins;
pub mod security;
pub mod signal_pin;
pub mod tasks;
pub mod text;
pub mod url_validation;
pub mod web_search;

verus! {

/// Number of characters a message must reach before it is auto-persisted
/// to long-term memory.
pub const AUTOSAVE_MIN_MESSAGE_CHARS: usize = 10;

} // verus!
