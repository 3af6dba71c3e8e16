//! Temporal reminder scheduling and multi-channel notification dispatch.
//!
//! The library models reminders, notifications and per-user delivery
//! preferences as plain values, and verifies the scheduling pipeline over
//! them: which reminders are due on a tick, which channel a notification
//! takes, how a firing reminder is rescheduled or retired, and how a
//! delivery attempt is finalized.

pub mod agents;
pub mod api;
pub mod auth;
pub mod briefing;
pub mod clock;
pub mod config;
pub mod dispatch;
pub mod eligibility;
pub mod model;
pub mod notify;
pub mod policy;
pub mod reschedule;
pub mod secrets;
pub mod text;
pub mod tick;
pub mod trigger;
pub mod tts;

pub use clock::SECS_PER_DAY;
