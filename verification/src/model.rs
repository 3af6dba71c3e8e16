//! Core records of the scheduling pipeline: reminders, notifications and
//! the hand-off message that links an evaluation tick to a dispatch tick.

use vstd::prelude::*;

verus! {

/// How a reminder decides when it fires.
#[derive(Clone, Copy, Debug, PartialEq, Eq, Structural)]
pub enum TriggerType {
    /// Fires once, at an absolute instant.
    Time,
    /// Fires every day at a time of day.
    Recurring,
    /// Fired by an externally evaluated condition; the schedule only gates
    /// how early the condition is polled.
    Event,
    /// Fired by a geofence; never time-driven.
    Location,
}

/// The structured document a trigger is configured with, reduced to the
/// fields the trigger calculator reads. Instants are RFC 3339 texts and
/// times of day are `HH:MM` texts, as they arrive from the caller.
#[derive(Debug)]
pub struct TriggerConfig {
    /// Absolute instant of a one-shot trigger (preferred field name).
    pub scheduled_at: Option<String>,
    /// Absolute instant of a one-shot trigger (older field name).
    pub trigger_at: Option<String>,
    /// Absolute instant of a one-shot trigger (oldest field name).
    pub at: Option<String>,
    /// Daily time of day of a recurring trigger.
    pub time: Option<String>,
    /// Earliest instant an event trigger should be checked.
    pub check_after: Option<String>,
}

/// Lifecycle state of a reminder.
#[derive(Clone, Copy, Debug, PartialEq, Eq, Structural)]
pub enum ReminderStatus {
    Active,
    Paused,
    Cancelled,
    Completed,
    /// A one-shot reminder that has fired; terminal for the scheduler.
    Triggered,
}

/// A delivery channel, in the order the policy prefers them.
#[derive(Clone, Copy, Debug, PartialEq, Eq, Structural)]
pub enum Channel {
    Discord,
    Push,
    Email,
}

/// Delivery state of a notification record.
#[derive(Clone, Copy, Debug, PartialEq, Eq, Structural)]
pub enum NotificationStatus {
    Pending,
    Sent,
    Failed,
}

/// A reminder as the scheduler sees it. Instants are epoch seconds.
#[derive(Debug)]
pub struct Reminder {
    pub id: u64,
    pub user_id: u64,
    pub title: String,
    pub description: Option<String>,
    pub trigger_type: TriggerType,
    pub trigger_config: TriggerConfig,
    /// Tie-break for the due ordering; higher fires first.
    pub priority: i16,
    pub status: ReminderStatus,
    /// Next fire instant; `None` means not time-driven.
    pub next_trigger_at: Option<i64>,
    pub last_triggered_at: Option<i64>,
    /// While in the future, gates eligibility; lapses implicitly.
    pub snooze_until: Option<i64>,
}

/// A queued delivery attempt; the durable audit record of one firing.
#[derive(Debug)]
pub struct Notification {
    pub id: u64,
    pub user_id: u64,
    /// Back-reference to the reminder that produced this record.
    pub reminder_id: Option<u64>,
    /// Kind of content, e.g. `reminder` or `briefing`.
    pub notification_type: String,
    pub title: String,
    pub body: String,
    /// Fixed at creation by the delivery policy; never recomputed.
    pub channel: Channel,
    pub status: NotificationStatus,
    /// Set exactly when the record moves to `Sent`.
    pub sent_at: Option<i64>,
    /// Provider delivery id on success, human-readable cause on failure.
    pub delivery_info: Option<String>,
}

/// The fire-and-forget message that hands a pending notification from the
/// evaluation tick to the dispatch tick.
#[derive(Debug)]
pub struct Handoff {
    pub notification_id: u64,
    pub notification_type: String,
    pub title: String,
}

impl TriggerType {
    /// Text form of the trigger type, as the store encodes it.
    pub fn as_str(&self) -> (r: &'static str)
        ensures
            r@ == self.spec_str(),
    {
        match self {
            TriggerType::Time => "time",
            TriggerType::Recurring => "recurring",
            TriggerType::Event => "event",
            TriggerType::Location => "location",
        }
    }

    pub open spec fn spec_str(self) -> Seq<char> {
        match self {
            TriggerType::Time => "time"@,
            TriggerType::Recurring => "recurring"@,
            TriggerType::Event => "event"@,
            TriggerType::Location => "location"@,
        }
    }
}

impl ReminderStatus {
    /// Text form of the status, as the store encodes it.
    pub fn as_str(&self) -> (r: &'static str)
        ensures
            r@ == self.spec_str(),
    {
        match self {
            ReminderStatus::Active => "active",
            ReminderStatus::Paused => "paused",
            ReminderStatus::Cancelled => "cancelled",
            ReminderStatus::Completed => "completed",
            ReminderStatus::Triggered => "triggered",
        }
    }

    pub open spec fn spec_str(self) -> Seq<char> {
        match self {
            ReminderStatus::Active => "active"@,
            ReminderStatus::Paused => "paused"@,
            ReminderStatus::Cancelled => "cancelled"@,
            ReminderStatus::Completed => "completed"@,
            ReminderStatus::Triggered => "triggered"@,
        }
    }
}

impl Channel {
    /// Text form of the channel, as the store encodes it.
    pub fn as_str(&self) -> (r: &'static str)
        ensures
            r@ == self.spec_str(),
    {
        match self {
            Channel::Discord => "discord",
            Channel::Push => "push",
            Channel::Email => "email",
        }
    }

    pub open spec fn spec_str(self) -> Seq<char> {
        match self {
            Channel::Discord => "discord"@,
            Channel::Push => "push"@,
            Channel::Email => "email"@,
        }
    }
}

impl NotificationStatus {
    /// Text form of the status, as the store encodes it.
    pub fn as_str(&self) -> (r: &'static str)
        ensures
            r@ == self.spec_str(),
    {
        match self {
            NotificationStatus::Pending => "pending",
            NotificationStatus::Sent => "sent",
            NotificationStatus::Failed => "failed",
        }
    }

    pub open spec fn spec_str(self) -> Seq<char> {
        match self {
            NotificationStatus::Pending => "pending"@,
            NotificationStatus::Sent => "sent"@,
            NotificationStatus::Failed => "failed"@,
        }
    }
}

} // verus!
