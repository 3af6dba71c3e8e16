//! The reminder evaluation tick: selects the due reminders of a
//! snapshot, queues one notification per non-suppressed occurrence, and
//! advances every fired reminder — whether or not its notification was
//! suppressed by quiet hours.

use vstd::prelude::*;
use vstd::assert_by_contradiction;
use vstd::pervasive::VecAdditionalExecFns;

use crate::clock::{local_time_of_day, local_tod_spec, MAX_INSTANT};
use crate::eligibility::{
    due_indices, due_pred, due_positions, lemma_due_schedule_complete, lemma_due_schedule_members,
    position_seq, spec_due_schedule, spec_is_due,
};
use crate::model::{
    Channel, Handoff, Notification, Reminder, ReminderStatus, TriggerConfig, TriggerType,
};
use crate::notify::{build_handoff, build_notification, spec_handoff_for, spec_queued_notification};
use crate::policy::{
    is_in_quiet_hours, preferred_channel, spec_in_quiet_hours, spec_preferred_channel, PrefEntry,
    UserPrefs,
};
use crate::reschedule::{advance_reminder, spec_advanced};
use crate::trigger::spec_recurring_tod;

verus! {

/// The stored preferences of a user: the first entry under their id.
pub open spec fn spec_prefs_for(prefs: Seq<PrefEntry>, user: u64) -> Option<UserPrefs>
    decreases prefs.len(),
{
    if prefs.len() == 0 {
        None
    } else if prefs[0].user_id == user {
        Some(prefs[0].prefs)
    } else {
        spec_prefs_for(prefs.drop_first(), user)
    }
}

/// Whether `now` falls in the user's quiet hours, under their stored
/// preferences; a user without a record has no quiet hours.
pub open spec fn spec_quiet_for(prefs: Seq<PrefEntry>, user: u64, now: i64) -> bool {
    match spec_prefs_for(prefs, user) {
        Some(p) => spec_in_quiet_hours(
            p,
            local_tod_spec(now as int, p.tz_offset_secs as int) as u32,
        ),
        None => false,
    }
}

/// The channel a notification for this user is created on, under their
/// stored preferences. A user without a record has every channel
/// enabled, so chat is resolved first.
pub open spec fn spec_channel_for(prefs: Seq<PrefEntry>, user: u64) -> Channel {
    match spec_prefs_for(prefs, user) {
        Some(p) => spec_preferred_channel(p),
        None => Channel::Discord,
    }
}

/// A looked-up preference record is one of the list's entries, so a
/// well-formed list yields well-formed preferences.
proof fn lemma_prefs_for_wf(prefs: Seq<PrefEntry>, user: u64)
    requires
        forall|k: int| 0 <= k < prefs.len() ==> (#[trigger] prefs[k]).prefs.wf(),
    ensures
        match spec_prefs_for(prefs, user) {
            Some(p) => p.wf(),
            None => true,
        },
    decreases prefs.len(),
{
    if prefs.len() > 0 && prefs[0].user_id != user {
        lemma_prefs_for_wf(prefs.drop_first(), user);
    }
}

/// Finds the stored preferences of a user: the first entry under their
/// id, or nothing.
fn prefs_for<'a>(prefs: &'a Vec<PrefEntry>, user: u64) -> (r: Option<&'a UserPrefs>)
    ensures
        match r {
            Some(p) => spec_prefs_for(prefs@, user) == Some(*p),
            None => spec_prefs_for(prefs@, user) is None,
        },
{
    proof {
        assert(prefs@.skip(0) =~= prefs@);
    }
    let mut i: usize = 0;
    while i < prefs.len()
        invariant
            i <= prefs@.len(),
            spec_prefs_for(prefs@, user) == spec_prefs_for(prefs@.skip(i as int), user),
        decreases prefs@.len() - i,
    {
        if prefs[i].user_id == user {
            proof {
                assert(prefs@.skip(i as int)[0] == prefs@[i as int]);
            }
            return Some(&prefs[i].prefs);
        }
        proof {
            assert(prefs@.skip(i as int).drop_first() =~= prefs@.skip(i + 1));
        }
        i = i + 1;
    }
    proof {
        assert(prefs@.skip(i as int).len() == 0);
    }
    None
}

/// What one tick reports: the queued records, their hand-off messages,
/// and the counts of evaluated, queued, rescheduled and erroneous items.
#[derive(Debug)]
pub struct TickOutcome {
    pub notifications: Vec<Notification>,
    pub handoffs: Vec<Handoff>,
    pub reminders_evaluated: u32,
    pub notifications_queued: u32,
    pub reminders_rescheduled: u32,
    pub errors: u32,
}

/// Quiet hours do not silence this occurrence, as a predicate on
/// positions of the snapshot.
pub open spec fn queue_pred(s: Seq<Reminder>, prefs: Seq<PrefEntry>, now: i64) -> spec_fn(
    usize,
) -> bool {
    |u: usize| !spec_quiet_for(prefs, s[u as int].user_id, now)
}

/// Recurring, as a predicate on positions of the snapshot.
pub open spec fn recurring_pred(s: Seq<Reminder>) -> spec_fn(usize) -> bool {
    |u: usize| s[u as int].trigger_type is Recurring
}

/// Recurring with a malformed daily time — the one data error a firing
/// can hit — as a predicate on positions of the snapshot.
pub open spec fn error_pred(s: Seq<Reminder>) -> spec_fn(usize) -> bool {
    |u: usize| s[u as int].trigger_type is Recurring && spec_recurring_tod(
        s[u as int].trigger_config,
    ) is None
}

/// The positions whose firing queues a notification: the schedule, less
/// the occurrences silenced by quiet hours.
pub open spec fn spec_queued_positions(
    s: Seq<Reminder>,
    prefs: Seq<PrefEntry>,
    now: i64,
    limit: int,
) -> Seq<usize> {
    spec_due_schedule(s, now, limit).filter(queue_pred(s, prefs, now))
}

/// Everything one evaluation tick does to a snapshot `s`, leaving `s2`:
///
/// - reminders outside the schedule are untouched;
/// - every scheduled reminder is advanced — stamped, and rescheduled or
///   retired — whether or not its notification was suppressed;
/// - one pending notification is queued per scheduled occurrence not
///   silenced by quiet hours, on the user's resolved channel, under
///   consecutive ids from `first_id`, each with its hand-off message;
/// - the counts report the schedule, the queue, the rescheduled
///   recurring reminders, and the malformed-config data errors.
pub open spec fn spec_tick_post(
    s: Seq<Reminder>,
    s2: Seq<Reminder>,
    prefs: Seq<PrefEntry>,
    now: i64,
    limit: int,
    first_id: u64,
    out: TickOutcome,
) -> bool {
    let sched = spec_due_schedule(s, now, limit);
    let qpos = spec_queued_positions(s, prefs, now, limit);
    &&& s2.len() == s.len()
    &&& forall|p: int| 0 <= p < s.len() && !sched.contains(p as usize) ==> s2[p] == s[p]
    &&& forall|k: int|
        0 <= k < sched.len() ==> spec_advanced(
            s[(#[trigger] sched[k]) as int],
            s2[sched[k] as int],
            now,
        )
    &&& out.notifications@.len() == qpos.len()
    &&& forall|j: int|
        0 <= j < qpos.len() ==> spec_queued_notification(
            #[trigger] out.notifications@[j],
            s[qpos[j] as int],
            spec_channel_for(prefs, s[qpos[j] as int].user_id),
            (first_id + j) as u64,
        )
    &&& out.handoffs@.len() == qpos.len()
    &&& forall|j: int|
        0 <= j < qpos.len() ==> spec_handoff_for(#[trigger] out.handoffs@[j], out.notifications@[j])
    &&& out.reminders_evaluated == sched.len()
    &&& out.notifications_queued == qpos.len()
    &&& out.reminders_rescheduled == sched.filter(recurring_pred(s)).len()
    &&& out.errors == sched.filter(error_pred(s)).len()
}

/// The slot value swapped into the snapshot while a reminder is advanced
/// in place; never read.
fn placeholder_reminder() -> Reminder {
    Reminder {
        id: 0,
        user_id: 0,
        title: String::new(),
        description: None,
        trigger_type: TriggerType::Time,
        trigger_config: TriggerConfig {
            scheduled_at: None,
            trigger_at: None,
            at: None,
            time: None,
            check_after: None,
        },
        priority: 0,
        status: ReminderStatus::Active,
        next_trigger_at: None,
        last_triggered_at: None,
        snooze_until: None,
    }
}

/// Runs one reminder evaluation tick over a snapshot: selects the due
/// reminders (at most `limit`, in due order), resolves each user's
/// channel, queues one pending notification with its hand-off for every
/// occurrence quiet hours do not silence, and advances every fired
/// reminder regardless of suppression. Fresh notification ids are
/// consecutive from `first_notification_id`.
pub fn run_reminder_tick(
    reminders: &mut Vec<Reminder>,
    prefs: &Vec<PrefEntry>,
    now: i64,
    limit: usize,
    first_notification_id: u64,
) -> (out: TickOutcome)
    requires
        0 <= now <= MAX_INSTANT,
        old(reminders)@.len() <= u32::MAX,
        forall|k: int| 0 <= k < prefs@.len() ==> (#[trigger] prefs@[k]).prefs.wf(),
        first_notification_id + old(reminders)@.len() <= u64::MAX,
    ensures
        spec_tick_post(
            old(reminders)@,
            final(reminders)@,
            prefs@,
            now,
            limit as int,
            first_notification_id,
            out,
        ),
{
    broadcast use vstd::seq_lib::group_filter_ensures;

    let ghost s = old(reminders)@;
    let idx = due_indices(reminders, now, limit);
    let ghost sched = spec_due_schedule(s, now, limit as int);
    let ghost qp = queue_pred(s, prefs@, now);
    let ghost rp = recurring_pred(s);
    let ghost ep = error_pred(s);
    proof {
        crate::eligibility::lemma_due_schedule_members(s, now, limit as int);
        assert(sched.take(0) =~= Seq::<usize>::empty());
        assert(sched.take(0).filter(qp).len() == 0);
        assert(sched.take(0).filter(rp).len() == 0);
        assert(sched.take(0).filter(ep).len() == 0);
    }
    let mut notifications: Vec<Notification> = Vec::new();
    let mut handoffs: Vec<Handoff> = Vec::new();
    let mut queued: u32 = 0;
    let mut rescheduled: u32 = 0;
    let mut errors: u32 = 0;
    let mut next_id: u64 = first_notification_id;
    let mut k: usize = 0;
    while k < idx.len()
        invariant
            idx@ == sched,
            sched == spec_due_schedule(s, now, limit as int),
            qp == queue_pred(s, prefs@, now),
            rp == recurring_pred(s),
            ep == error_pred(s),
            s.len() <= u32::MAX,
            0 <= now <= MAX_INSTANT,
            forall|kk: int| 0 <= kk < prefs@.len() ==> (#[trigger] prefs@[kk]).prefs.wf(),
            first_notification_id + s.len() <= u64::MAX,
            k <= sched.len(),
            sched.len() <= s.len(),
            forall|j: int|
                0 <= j < sched.len() ==> (#[trigger] sched[j]) < s.len() && spec_is_due(
                    s[sched[j] as int],
                    now,
                ),
            sched.no_duplicates(),
            reminders@.len() == s.len(),
            forall|p: int|
                0 <= p < s.len() && !sched.take(k as int).contains(p as usize)
                    ==> reminders@[p] == s[p],
            forall|j: int|
                0 <= j < k ==> spec_advanced(
                    s[(#[trigger] sched[j]) as int],
                    reminders@[sched[j] as int],
                    now,
                ),
            notifications@.len() == sched.take(k as int).filter(qp).len(),
            handoffs@.len() == notifications@.len(),
            forall|j: int|
                0 <= j < notifications@.len() ==> spec_queued_notification(
                    #[trigger] notifications@[j],
                    s[sched.take(k as int).filter(qp)[j] as int],
                    spec_channel_for(prefs@, s[sched.take(k as int).filter(qp)[j] as int].user_id),
                    (first_notification_id + j) as u64,
                ),
            forall|j: int|
                0 <= j < handoffs@.len() ==> spec_handoff_for(
                    #[trigger] handoffs@[j],
                    notifications@[j],
                ),
            queued == notifications@.len(),
            next_id == first_notification_id + queued,
            rescheduled == sched.take(k as int).filter(rp).len(),
            errors == sched.take(k as int).filter(ep).len(),
        decreases sched.len() - k,
    {
        let p: usize = idx[k];
        proof {
            assert(sched[k as int] == p);
            if sched.take(k as int).contains(p as usize) {
                let j = choose|j: int|
                    0 <= j < k && sched.take(k as int)[j] == p as usize;
                assert(sched[j] == sched[k as int]);
                assert(false);
            }
            assert(reminders@[p as int] == s[p as int]);
        }
        let user: u64 = reminders[p].user_id;
        let quiet: bool;
        let ch: Channel;
        match prefs_for(prefs, user) {
            Some(pr) => {
                proof {
                    lemma_prefs_for_wf(prefs@, user);
                }
                let tod = local_time_of_day(now, pr.tz_offset_secs);
                quiet = is_in_quiet_hours(pr, tod);
                ch = preferred_channel(pr);
            },
            None => {
                let fb = UserPrefs::fallback();
                let tod = local_time_of_day(now, fb.tz_offset_secs);
                quiet = is_in_quiet_hours(&fb, tod);
                ch = preferred_channel(&fb);
            },
        }
        proof {
            assert(quiet == spec_quiet_for(prefs@, user, now));
            assert(ch == spec_channel_for(prefs@, user));
            assert(qp(p) == !quiet);
            assert(queued <= k);
        }
        if !quiet {
            let n = build_notification(&reminders[p], ch, next_id);
            let h = build_handoff(&n);
            notifications.push(n);
            handoffs.push(h);
            next_id = next_id + 1;
            queued = queued + 1;
        }
        let mut slot = placeholder_reminder();
        reminders.set_and_swap(p, &mut slot);
        let was_recurring = advance_reminder(&mut slot, now);
        let had_config_error = was_recurring && slot.next_trigger_at.is_none();
        reminders.set_and_swap(p, &mut slot);
        proof {
            assert(rescheduled <= k && errors <= k);
            assert(rp(p) == was_recurring);
            assert(ep(p) == had_config_error);
        }
        if was_recurring {
            rescheduled = rescheduled + 1;
        }
        if had_config_error {
            errors = errors + 1;
        }
        proof {
            assert(sched.take(k + 1) =~= sched.take(k as int).push(p));
            assert(sched.take(k + 1)[k as int] == p);
            assert(sched.take(k + 1).contains(p));
            sched.take(k as int).lemma_filter_push(p, qp);
            sched.take(k as int).lemma_filter_push(p, rp);
            sched.take(k as int).lemma_filter_push(p, ep);
            assert forall|q: int|
                0 <= q < s.len() && !sched.take(k + 1).contains(q as usize) implies reminders@[q]
                == s[q] by {
                assert(!sched.take(k as int).contains(q as usize));
                assert(q != p);
            }
            assert forall|j: int| 0 <= j < k + 1 implies spec_advanced(
                s[(#[trigger] sched[j]) as int],
                reminders@[sched[j] as int],
                now,
            ) by {
                if j < k {
                    assert(sched[j] != p as usize);
                }
            }
        }
        k = k + 1;
    }
    proof {
        assert(sched.take(k as int) =~= sched);
        assert(idx@.len() <= u32::MAX);
    }
    TickOutcome {
        notifications,
        handoffs,
        reminders_evaluated: idx.len() as u32,
        notifications_queued: queued,
        reminders_rescheduled: rescheduled,
        errors,
    }
}

/// LAW (suppression without deferral): an occurrence that quiet hours
/// silence queues no notification, yet its reminder advances all the
/// same — the firing is one silent miss, never a build-up of missed
/// notifications.
pub proof fn lemma_quiet_hours_suppress_but_advance(
    s: Seq<Reminder>,
    s2: Seq<Reminder>,
    prefs: Seq<PrefEntry>,
    now: i64,
    limit: int,
    first_id: u64,
    out: TickOutcome,
    k: int,
)
    requires
        spec_tick_post(s, s2, prefs, now, limit, first_id, out),
        0 <= k < spec_due_schedule(s, now, limit).len(),
        spec_quiet_for(prefs, s[spec_due_schedule(s, now, limit)[k] as int].user_id, now),
    ensures
        spec_advanced(
            s[spec_due_schedule(s, now, limit)[k] as int],
            s2[spec_due_schedule(s, now, limit)[k] as int],
            now,
        ),
        !spec_queued_positions(s, prefs, now, limit).contains(
            spec_due_schedule(s, now, limit)[k],
        ),
{
    broadcast use vstd::seq_lib::group_filter_ensures;

    let sched = spec_due_schedule(s, now, limit);
    let qp = queue_pred(s, prefs, now);
    let qpos = spec_queued_positions(s, prefs, now, limit);
    let p = sched[k];
    assert_by_contradiction!(!qpos.contains(p), {
        let j = choose|j: int| 0 <= j < qpos.len() && qpos[j] == p;
        assert(qp(qpos[j]));
    });
}

/// LAW (idempotence): a tick queues exactly one notification per due,
/// non-silenced occurrence — that is `spec_tick_post` itself — and it
/// leaves every reminder it fired non-due. So when the due set fits the
/// batch limit, nothing in the post-tick snapshot is due at the same
/// instant any more: re-running the evaluator on it selects nothing and
/// queues no further record.
pub proof fn lemma_tick_idempotent(
    s: Seq<Reminder>,
    s2: Seq<Reminder>,
    prefs: Seq<PrefEntry>,
    now: i64,
    limit: int,
    first_id: u64,
    out: TickOutcome,
)
    requires
        spec_tick_post(s, s2, prefs, now, limit, first_id, out),
        0 <= now <= MAX_INSTANT,
        s.len() <= usize::MAX,
        due_positions(s, now).len() <= limit,
    ensures
        due_positions(s2, now) =~= Seq::<usize>::empty(),
        spec_due_schedule(s2, now, limit).len() == 0,
        spec_queued_positions(s2, prefs, now, limit).len() == 0,
{
    broadcast use vstd::seq_lib::group_filter_ensures;
    broadcast use vstd::seq_lib::group_to_multiset_ensures;

    let sched = spec_due_schedule(s, now, limit);
    lemma_due_schedule_members(s, now, limit);
    lemma_due_schedule_complete(s, now, limit);
    let positions2 = position_seq(s2.len());
    let pred2 = due_pred(s2, now);
    let dp2 = due_positions(s2, now);
    assert_by_contradiction!(dp2.len() == 0, {
        let u = dp2[0];
        assert(pred2(u));
        positions2.lemma_filter_contains_rev(pred2, u);
        let w = choose|w: int| 0 <= w < positions2.len() && positions2[w] == u;
        assert(u == w as usize);
        assert(spec_is_due(s2[u as int], now));
        if sched.contains(u) {
            let k = choose|k: int| 0 <= k < sched.len() && sched[k] == u;
            assert(spec_advanced(s[sched[k] as int], s2[sched[k] as int], now));
            crate::reschedule::lemma_fired_not_due(s[u as int], s2[u as int], now);
        } else {
            assert(s2[u as int] == s[u as int]);
            assert(spec_is_due(s[w], now));
            assert(sched.contains(u));
        }
    });
    assert(dp2 =~= Seq::<usize>::empty());
    let ord2 = crate::eligibility::due_order(s2);
    crate::eligibility::lemma_due_order_total(s2);
    dp2.lemma_sort_by_ensures(ord2);
    assert(dp2.sort_by(ord2).to_multiset().len() == dp2.to_multiset().len());
    assert(spec_due_schedule(s2, now, limit).len() == 0);
}

} // verus!
