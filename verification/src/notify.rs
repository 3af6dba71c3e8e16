//! Notification queue records: created once per firing by the evaluation
//! tick, handed off, and finalized exactly once by the dispatch tick.

use vstd::prelude::*;

use crate::model::{Channel, Handoff, Notification, NotificationStatus, Reminder};

verus! {

/// The text a notification carries: the reminder's description, or its
/// title when there is no description.
pub open spec fn spec_notification_body(r: Reminder) -> Seq<char> {
    match r.description {
        Some(d) => d@,
        None => r.title@,
    }
}

/// How a freshly queued notification relates to the firing that made it:
/// one pending record on the resolved channel, carrying the reminder's
/// text, with nothing sent yet.
pub open spec fn spec_queued_notification(
    n: Notification,
    r: Reminder,
    ch: Channel,
    id: u64,
) -> bool {
    &&& n.id == id
    &&& n.user_id == r.user_id
    &&& n.reminder_id == Some(r.id)
    &&& n.notification_type@ == "reminder"@
    &&& n.title@ == r.title@
    &&& n.body@ == spec_notification_body(r)
    &&& n.channel == ch
    &&& n.status is Pending
    &&& n.sent_at is None
    &&& n.delivery_info is None
}

/// Builds the pending notification record for one firing of `r`, fixed
/// on channel `ch`, under the fresh id `id`.
pub fn build_notification(r: &Reminder, ch: Channel, id: u64) -> (n: Notification)
    ensures
        spec_queued_notification(n, *r, ch, id),
{
    let body: String = match &r.description {
        Some(d) => d.clone(),
        None => r.title.clone(),
    };
    Notification {
        id,
        user_id: r.user_id,
        reminder_id: Some(r.id),
        notification_type: "reminder".to_owned(),
        title: r.title.clone(),
        body,
        channel: ch,
        status: NotificationStatus::Pending,
        sent_at: None,
        delivery_info: None,
    }
}

/// How a hand-off message relates to the notification it announces.
pub open spec fn spec_handoff_for(h: Handoff, n: Notification) -> bool {
    &&& h.notification_id == n.id
    &&& h.notification_type@ == n.notification_type@
    &&& h.title@ == n.title@
}

/// Builds the fire-and-forget hand-off message for a queued
/// notification; publishing it is the caller's business, and a failed
/// publish never rolls the record back.
pub fn build_handoff(n: &Notification) -> (h: Handoff)
    ensures
        spec_handoff_for(h, *n),
{
    Handoff {
        notification_id: n.id,
        notification_type: n.notification_type.clone(),
        title: n.title.clone(),
    }
}

/// Whether a dispatch may claim this record: only a still-pending
/// notification is dispatched, which keeps a duplicated hand-off from
/// delivering twice.
pub fn can_dispatch(n: &Notification) -> (b: bool)
    ensures
        b == (n.status is Pending),
{
    matches!(n.status, NotificationStatus::Pending)
}

} // verus!
