//! Recurrence rescheduler: what happens to a reminder when it fires.
//!
//! Firing and delivery are decoupled: a reminder advances once per due
//! occurrence whether or not its notification was suppressed or failed,
//! so a suppressed occurrence is one silent miss, never a build-up.

use vstd::prelude::*;

use crate::clock::{lemma_next_daily_spec_bounds, MAX_INSTANT, SECS_PER_DAY};
use crate::eligibility::spec_is_due;
use crate::model::{Reminder, ReminderStatus, TriggerType};
use crate::trigger::{compute_next, spec_compute_next, spec_recurring_tod};

verus! {

/// How a fired reminder relates to its value before the firing: the
/// firing is stamped; a recurring reminder keeps its status and moves its
/// fire time to the next computed occurrence (or loses it when the
/// config is malformed); any other reminder is retired to `Triggered`
/// with its fire time left alone. All other fields are untouched.
pub open spec fn spec_advanced(prev: Reminder, next: Reminder, now: i64) -> bool {
    &&& next.id == prev.id
    &&& next.user_id == prev.user_id
    &&& next.title == prev.title
    &&& next.description == prev.description
    &&& next.trigger_type == prev.trigger_type
    &&& next.trigger_config == prev.trigger_config
    &&& next.priority == prev.priority
    &&& next.snooze_until == prev.snooze_until
    &&& next.last_triggered_at == Some(now)
    &&& if prev.trigger_type is Recurring {
        next.status == prev.status && next.next_trigger_at == spec_compute_next(
            prev.trigger_type,
            prev.trigger_config,
            now,
        )
    } else {
        next.status == ReminderStatus::Triggered && next.next_trigger_at == prev.next_trigger_at
    }
}

/// Advances a reminder that fired at `now`: stamps the firing, then
/// reschedules a recurring reminder or retires a one-shot one. Returns
/// whether the reminder was rescheduled (that is, was recurring).
pub fn advance_reminder(r: &mut Reminder, now: i64) -> (rescheduled: bool)
    requires
        0 <= now <= MAX_INSTANT,
    ensures
        spec_advanced(*old(r), *final(r), now),
        rescheduled == (old(r).trigger_type is Recurring),
{
    r.last_triggered_at = Some(now);
    match r.trigger_type {
        TriggerType::Recurring => {
            let next = compute_next(TriggerType::Recurring, &r.trigger_config, now);
            r.next_trigger_at = next;
            true
        },
        _ => {
            r.status = ReminderStatus::Triggered;
            false
        },
    }
}

/// LAW (recurring fire): a recurring reminder whose daily time is absent
/// or well formed stays in its status — active stays active — and its
/// next fire time strictly increases past `now` when it fires. A
/// recurring reminder is never terminated by the scheduler.
pub proof fn lemma_recurring_fire_advances(prev: Reminder, next: Reminder, now: i64)
    requires
        spec_advanced(prev, next, now),
        prev.trigger_type is Recurring,
        spec_recurring_tod(prev.trigger_config) is Some,
        0 <= now <= MAX_INSTANT,
    ensures
        next.status == prev.status,
        next.next_trigger_at is Some,
        next.next_trigger_at->0 > now,
        next.next_trigger_at->0 <= now + SECS_PER_DAY,
{
    let tod = spec_recurring_tod(prev.trigger_config)->0;
    assert(tod < SECS_PER_DAY) by {
        crate::trigger::lemma_recurring_tod_bound(prev.trigger_config);
    }
    lemma_next_daily_spec_bounds(now as int, tod as int);
}

/// LAW (one-shot fire): a fired reminder that is not recurring moves to
/// the terminal `Triggered` status and is never due again, at any later
/// instant, so no future due set holds it.
pub proof fn lemma_one_shot_fire_retires(prev: Reminder, next: Reminder, now: i64)
    requires
        spec_advanced(prev, next, now),
        !(prev.trigger_type is Recurring),
    ensures
        next.status is Triggered,
        forall|later: i64| !spec_is_due(next, later),
{
}

/// A reminder that fired at `now` is not due at `now` any more: a
/// one-shot is retired, and a recurring one either moved strictly past
/// `now` or lost its fire time to a malformed config.
pub proof fn lemma_fired_not_due(prev: Reminder, next: Reminder, now: i64)
    requires
        spec_advanced(prev, next, now),
        0 <= now <= MAX_INSTANT,
    ensures
        !spec_is_due(next, now),
{
    if prev.trigger_type is Recurring {
        match spec_recurring_tod(prev.trigger_config) {
            Some(tod) => {
                lemma_recurring_fire_advances(prev, next, now);
            },
            None => {},
        }
    }
}

} // verus!
