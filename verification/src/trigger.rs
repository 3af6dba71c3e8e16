//! Trigger calculator: maps a trigger specification and "now" to the
//! optional next fire instant.

use vstd::prelude::*;

use crate::clock::{
    hhmm_seconds, next_daily_occurrence, next_daily_spec, parse_rfc3339_epoch, rfc3339_epoch,
    MAX_INSTANT, SECS_PER_DAY,
};
use crate::model::{TriggerConfig, TriggerType};

verus! {

/// Time of day a recurring trigger without a `time` field fires at: 09:00.
pub const DEFAULT_RECURRING_TOD: u32 = 32400;

/// The instant text a one-shot time trigger carries: the first of the
/// `scheduled_at`, `trigger_at` and `at` fields that is present.
pub open spec fn spec_time_field(c: TriggerConfig) -> Option<Seq<char>> {
    if c.scheduled_at is Some {
        Some(c.scheduled_at->0@)
    } else if c.trigger_at is Some {
        Some(c.trigger_at->0@)
    } else if c.at is Some {
        Some(c.at->0@)
    } else {
        None
    }
}

/// The daily time of day a recurring trigger fires at: its `time` field
/// when well formed, the default when absent, nothing when malformed.
pub open spec fn spec_recurring_tod(c: TriggerConfig) -> Option<u32> {
    match c.time {
        Some(s) => hhmm_seconds(s@),
        None => Some(DEFAULT_RECURRING_TOD),
    }
}

/// The next fire instant of a trigger, evaluated at `now`:
/// - a time trigger fires at the instant its config encodes, once;
/// - a recurring trigger fires at the next occurrence of its daily time
///   of day strictly after `now`;
/// - an event trigger is polled no earlier than its `check_after` bound;
/// - a location trigger is never time-driven.
/// A malformed or missing time text yields nothing rather than an error.
pub open spec fn spec_compute_next(tt: TriggerType, c: TriggerConfig, now: i64) -> Option<i64> {
    match tt {
        TriggerType::Time => match spec_time_field(c) {
            Some(s) => rfc3339_epoch(s),
            None => None,
        },
        TriggerType::Recurring => match spec_recurring_tod(c) {
            Some(tod) => Some(next_daily_spec(now as int, tod as int) as i64),
            None => None,
        },
        TriggerType::Event => match c.check_after {
            Some(s) => rfc3339_epoch(s@),
            None => None,
        },
        TriggerType::Location => None,
    }
}

/// Computes the next fire instant of a trigger specification at `now`.
pub fn compute_next(tt: TriggerType, c: &TriggerConfig, now: i64) -> (r: Option<i64>)
    requires
        tt is Recurring ==> 0 <= now <= MAX_INSTANT,
    ensures
        r == spec_compute_next(tt, *c, now),
        tt is Recurring && spec_recurring_tod(*c) is Some ==> r is Some && r->0 > now && r->0 <= now
            + SECS_PER_DAY,
{
    match tt {
        TriggerType::Time => {
            let field: Option<&String> = if c.scheduled_at.is_some() {
                c.scheduled_at.as_ref()
            } else if c.trigger_at.is_some() {
                c.trigger_at.as_ref()
            } else {
                c.at.as_ref()
            };
            match field {
                Some(s) => parse_rfc3339_epoch(s.as_str()),
                None => None,
            }
        },
        TriggerType::Recurring => {
            let tod: Option<u32> = match &c.time {
                Some(s) => parse_hhmm_field(s),
                None => Some(DEFAULT_RECURRING_TOD),
            };
            match tod {
                Some(t) => Some(next_daily_occurrence(now, t)),
                None => None,
            }
        },
        TriggerType::Event => match &c.check_after {
            Some(s) => parse_rfc3339_epoch(s.as_str()),
            None => None,
        },
        TriggerType::Location => None,
    }
}

/// A well-formed recurring time of day is below one day.
pub proof fn lemma_recurring_tod_bound(c: TriggerConfig)
    requires
        spec_recurring_tod(c) is Some,
    ensures
        spec_recurring_tod(c)->0 < SECS_PER_DAY,
{
}

/// Parses the `time` field of a recurring config.
fn parse_hhmm_field(s: &String) -> (r: Option<u32>)
    ensures
        r == hhmm_seconds(s@),
        r is Some ==> r->0 < SECS_PER_DAY,
{
    crate::clock::parse_hhmm(s.as_str())
}

} // verus!
