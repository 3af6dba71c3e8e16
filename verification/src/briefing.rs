//! Briefing dispatcher: buckets users by the local hour their briefing
//! is set for, and shapes the asynchronous content-generation request
//! for each eligible user. Content generation and delivery reuse the
//! agent and notification machinery.

use vstd::prelude::*;
use vstd::string::StringExecFns;

use crate::agents::AgentRequest;
use crate::text::{dec_string, spec_dec};

verus! {

/// The two scheduled briefings of a day.
#[derive(Clone, Copy, Debug, PartialEq, Eq, Structural)]
pub enum BriefingKind {
    Morning,
    Evening,
}

/// A user's briefing settings, with the zone offset resolved by the
/// caller. A user without a stored record gets the morning briefing at
/// seven, no evening briefing.
#[derive(Debug)]
pub struct BriefingPrefs {
    pub morning_enabled: bool,
    pub evening_enabled: bool,
    /// Local hour of the morning briefing.
    pub morning_hour: u32,
    /// Local hour of the evening briefing.
    pub evening_hour: u32,
    /// Zone offset in whole hours east of UTC, resolved by the caller.
    pub tz_offset_hours: i32,
}

impl BriefingPrefs {
    /// Well-formed settings: hours of a day, a real zone offset.
    pub open spec fn wf(self) -> bool {
        &&& self.morning_hour < 24
        &&& self.evening_hour < 24
        &&& -18 <= self.tz_offset_hours <= 18
    }

    /// The settings assumed for a user without a stored record.
    pub fn fallback() -> (p: BriefingPrefs)
        ensures
            p == (BriefingPrefs {
                morning_enabled: true,
                evening_enabled: false,
                morning_hour: 7,
                evening_hour: 18,
                tz_offset_hours: 0,
            }),
    {
        BriefingPrefs {
            morning_enabled: true,
            evening_enabled: false,
            morning_hour: 7,
            evening_hour: 18,
            tz_offset_hours: 0,
        }
    }
}

/// A user the briefing tick considers, with settings resolved.
#[derive(Debug)]
pub struct BriefingUser {
    pub user_id: u64,
    pub prefs: BriefingPrefs,
}

/// The user's local hour when the UTC hour is `utc_hour`.
pub open spec fn spec_local_hour(utc_hour: u32, tz_offset_hours: int) -> int {
    (utc_hour + tz_offset_hours + 24) % 24
}

/// Whether this user's briefing of `kind` is set for the current hour:
/// the briefing is enabled and its local hour is now.
pub open spec fn spec_briefing_due(kind: BriefingKind, p: BriefingPrefs, utc_hour: u32) -> bool {
    match kind {
        BriefingKind::Morning => p.morning_enabled && p.morning_hour
            == spec_local_hour(utc_hour, p.tz_offset_hours as int),
        BriefingKind::Evening => p.evening_enabled && p.evening_hour
            == spec_local_hour(utc_hour, p.tz_offset_hours as int),
    }
}

/// Decides whether this user's briefing of `kind` fires at this hour.
pub fn briefing_due(kind: BriefingKind, p: &BriefingPrefs, utc_hour: u32) -> (due: bool)
    requires
        p.wf(),
        utc_hour < 24,
    ensures
        due == spec_briefing_due(kind, *p, utc_hour),
{
    let shifted: i64 = utc_hour as i64 + p.tz_offset_hours as i64 + 24;
    let local: u32 = (shifted % 24) as u32;
    match kind {
        BriefingKind::Morning => p.morning_enabled && p.morning_hour == local,
        BriefingKind::Evening => p.evening_enabled && p.evening_hour == local,
    }
}

/// The ids of the users whose briefing of `kind` fires at this hour, in
/// input order.
pub open spec fn spec_briefing_ids(
    users: Seq<BriefingUser>,
    kind: BriefingKind,
    utc_hour: u32,
) -> Seq<u64>
    decreases users.len(),
{
    if users.len() == 0 {
        Seq::empty()
    } else {
        let rest = spec_briefing_ids(users.drop_last(), kind, utc_hour);
        if spec_briefing_due(kind, users.last().prefs, utc_hour) {
            rest.push(users.last().user_id)
        } else {
            rest
        }
    }
}

/// The users one briefing tick serves: those due at this hour, in input
/// order, at most `limit` of them.
pub open spec fn spec_briefing_selection(
    users: Seq<BriefingUser>,
    kind: BriefingKind,
    utc_hour: u32,
    limit: int,
) -> Seq<u64> {
    let ids = spec_briefing_ids(users, kind, utc_hour);
    if limit < ids.len() {
        ids.take(limit)
    } else {
        ids
    }
}

/// Selects the users whose briefing of `kind` fires at this hour,
/// bounded by `limit`.
pub fn users_for_briefing(
    users: &Vec<BriefingUser>,
    kind: BriefingKind,
    utc_hour: u32,
    limit: usize,
) -> (ids: Vec<u64>)
    requires
        utc_hour < 24,
        forall|k: int| 0 <= k < users@.len() ==> (#[trigger] users@[k]).prefs.wf(),
    ensures
        ids@ == spec_briefing_selection(users@, kind, utc_hour, limit as int),
{
    let mut out: Vec<u64> = Vec::new();
    let mut i: usize = 0;
    while i < users.len()
        invariant
            i <= users@.len(),
            utc_hour < 24,
            forall|k: int| 0 <= k < users@.len() ==> (#[trigger] users@[k]).prefs.wf(),
            out@ == spec_briefing_ids(users@.take(i as int), kind, utc_hour),
        decreases users@.len() - i,
    {
        proof {
            assert(users@.take(i + 1).drop_last() =~= users@.take(i as int));
            assert(users@.take(i + 1).last() == users@[i as int]);
        }
        if briefing_due(kind, &users[i].prefs, utc_hour) {
            out.push(users[i].user_id);
        }
        i = i + 1;
    }
    proof {
        assert(users@.take(i as int) =~= users@);
    }
    if limit < out.len() {
        out.truncate(limit);
    }
    out
}

/// The message that asks the agent for a briefing of `kind`.
pub open spec fn spec_briefing_message(kind: BriefingKind) -> Seq<char> {
    match kind {
        BriefingKind::Morning => "Generate my morning briefing"@,
        BriefingKind::Evening => "Generate my evening summary"@,
    }
}

/// Builds the asynchronous agent request that generates one user's
/// briefing; the caller fires it without waiting for the result.
pub fn build_briefing_request(user_id: u64, kind: BriefingKind) -> (r: AgentRequest)
    ensures
        r.message@ == spec_briefing_message(kind),
        r.user_id@ == spec_dec(user_id as int),
        r.family_ids@.len() == 0,
        r.device_id is None,
        r.conversation_id is None,
        r.intent matches Some(i) && i@ == "briefing"@,
        r.source@ == "scheduler"@,
{
    let message: String = match kind {
        BriefingKind::Morning => "Generate my morning briefing".to_owned(),
        BriefingKind::Evening => "Generate my evening summary".to_owned(),
    };
    AgentRequest {
        message,
        user_id: dec_string(user_id),
        family_ids: Vec::new(),
        device_id: None,
        conversation_id: None,
        intent: Some("briefing".to_owned()),
        source: "scheduler".to_owned(),
    }
}

} // verus!
