//! Delivery policy: per-user channel choice and quiet-hours suppression.

use vstd::prelude::*;

use crate::clock::SECS_PER_DAY;
use crate::model::Channel;

verus! {

/// Per-user delivery preferences. Absence of a stored record means "all
/// channels enabled, no quiet hours" (a safe default, not an error).
#[derive(Debug)]
pub struct UserPrefs {
    pub push_enabled: bool,
    pub email_enabled: bool,
    pub discord_enabled: bool,
    pub quiet_hours_enabled: bool,
    /// Start of the quiet window, seconds since local midnight.
    pub quiet_hours_start: Option<u32>,
    /// End of the quiet window, seconds since local midnight; a start
    /// above the end means the window wraps past midnight.
    pub quiet_hours_end: Option<u32>,
    /// IANA zone name; informational to this module, whose callers pass
    /// the local time of day directly.
    pub timezone: String,
    /// Zone offset in seconds east of UTC, resolved by the caller.
    pub tz_offset_secs: i32,
}

/// A stored preference record, keyed by its owner.
#[derive(Debug)]
pub struct PrefEntry {
    pub user_id: u64,
    pub prefs: UserPrefs,
}

impl UserPrefs {
    /// Well-formed preferences: quiet-hour bounds are times of day and
    /// the zone offset is a real offset (within eighteen hours of UTC).
    pub open spec fn wf(self) -> bool {
        &&& match self.quiet_hours_start {
            Some(t) => t < SECS_PER_DAY,
            None => true,
        }
        &&& match self.quiet_hours_end {
            Some(t) => t < SECS_PER_DAY,
            None => true,
        }
        &&& -64800 <= self.tz_offset_secs <= 64800
    }

    /// The preferences assumed for a user without a stored record.
    pub fn fallback() -> (p: UserPrefs)
        ensures
            is_fallback_prefs(p),
    {
        UserPrefs {
            push_enabled: true,
            email_enabled: true,
            discord_enabled: true,
            quiet_hours_enabled: false,
            quiet_hours_start: None,
            quiet_hours_end: None,
            timezone: default_timezone(),
            tz_offset_secs: 0,
        }
    }
}

/// Zone name assumed for a user without a stored record.
fn default_timezone() -> (s: String)
    ensures
        s@ == "America/New_York"@,
{
    let s: String = "America/New_York".to_owned();
    s
}

/// The preferences assumed for a user without a stored record: every
/// channel enabled, no quiet hours, the default zone at offset zero.
pub open spec fn is_fallback_prefs(p: UserPrefs) -> bool {
    &&& p.push_enabled
    &&& p.email_enabled
    &&& p.discord_enabled
    &&& !p.quiet_hours_enabled
    &&& p.quiet_hours_start is None
    &&& p.quiet_hours_end is None
    &&& p.timezone@ == "America/New_York"@
    &&& p.tz_offset_secs == 0
}

/// Whether the local time of day `tod` falls inside the user's quiet
/// window `[start, end)`; a start above the end wraps past midnight.
/// Quiet hours gate nothing when disabled or not fully configured.
pub open spec fn spec_in_quiet_hours(p: UserPrefs, tod: u32) -> bool {
    if !p.quiet_hours_enabled {
        false
    } else {
        match (p.quiet_hours_start, p.quiet_hours_end) {
            (Some(start), Some(end)) => if start <= end {
                start <= tod < end
            } else {
                tod >= start || tod < end
            },
            _ => false,
        }
    }
}

/// Decides whether `tod` (seconds since local midnight) falls inside the
/// user's quiet-hours window.
pub fn is_in_quiet_hours(p: &UserPrefs, tod: u32) -> (quiet: bool)
    ensures
        quiet == spec_in_quiet_hours(*p, tod),
{
    if !p.quiet_hours_enabled {
        return false;
    }
    match (p.quiet_hours_start, p.quiet_hours_end) {
        (Some(start), Some(end)) => {
            if start <= end {
                start <= tod && tod < end
            } else {
                tod >= start || tod < end
            }
        },
        _ => false,
    }
}

/// The first enabled channel in preference order chat, push, email; push
/// is the fallback when every channel is disabled.
pub open spec fn spec_preferred_channel(p: UserPrefs) -> Channel {
    if p.discord_enabled {
        Channel::Discord
    } else if p.push_enabled {
        Channel::Push
    } else if p.email_enabled {
        Channel::Email
    } else {
        Channel::Push
    }
}

/// Picks the channel a notification for this user is created on.
pub fn preferred_channel(p: &UserPrefs) -> (c: Channel)
    ensures
        c == spec_preferred_channel(*p),
{
    if p.discord_enabled {
        Channel::Discord
    } else if p.push_enabled {
        Channel::Push
    } else if p.email_enabled {
        Channel::Email
    } else {
        Channel::Push
    }
}

/// The channel the policy resolves at local time of day `tod`: none
/// during quiet hours (the occurrence is skipped, not deferred),
/// otherwise the preferred channel.
pub open spec fn spec_resolve_channel(p: UserPrefs, tod: u32) -> Option<Channel> {
    if spec_in_quiet_hours(p, tod) {
        None
    } else {
        Some(spec_preferred_channel(p))
    }
}

/// Resolves the delivery channel for one firing, or nothing when quiet
/// hours suppress delivery.
pub fn resolve_channel(p: &UserPrefs, tod: u32) -> (c: Option<Channel>)
    ensures
        c == spec_resolve_channel(*p, tod),
{
    if is_in_quiet_hours(p, tod) {
        None
    } else {
        Some(preferred_channel(p))
    }
}

} // verus!
