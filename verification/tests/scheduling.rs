use second_brain::eligibility::due_indices;
use second_brain::model::{Reminder, ReminderStatus, TriggerConfig, TriggerType};
use second_brain::policy::{PrefEntry, UserPrefs};
use second_brain::tick::run_reminder_tick;
use second_brain::trigger::compute_next;

// 2024-01-01T00:00:00Z
const DAY_START: i64 = 1704067200;

fn config_with_at(at: Option<&str>, time: Option<&str>) -> TriggerConfig {
    TriggerConfig {
        scheduled_at: None,
        trigger_at: None,
        at: at.map(|s| s.to_string()),
        time: time.map(|s| s.to_string()),
        check_after: None,
    }
}

fn reminder(
    id: u64,
    user_id: u64,
    title: &str,
    trigger_type: TriggerType,
    config: TriggerConfig,
    priority: i16,
    next_trigger_at: Option<i64>,
) -> Reminder {
    Reminder {
        id,
        user_id,
        title: title.to_string(),
        description: None,
        trigger_type,
        trigger_config: config,
        priority,
        status: ReminderStatus::Active,
        next_trigger_at,
        last_triggered_at: None,
        snooze_until: None,
    }
}

#[test]
fn time_reminder_fires_once_and_is_retired() {
    // A one-shot reminder due one second ago: the tick queues exactly one
    // notification and retires the reminder.
    let at = "2024-01-01T10:00:00Z";
    let fire_at = DAY_START + 36000;
    let now = fire_at + 1;
    let mut reminders = vec![reminder(
        7,
        42,
        "water the plants",
        TriggerType::Time,
        config_with_at(Some(at), None),
        2,
        Some(fire_at),
    )];
    let prefs: Vec<PrefEntry> = Vec::new();

    let out = run_reminder_tick(&mut reminders, &prefs, now, 100, 1000);

    assert_eq!(out.reminders_evaluated, 1);
    assert_eq!(out.notifications_queued, 1);
    assert_eq!(out.reminders_rescheduled, 0);
    assert_eq!(out.errors, 0);
    assert_eq!(out.notifications.len(), 1);
    let n = &out.notifications[0];
    assert_eq!(n.id, 1000);
    assert_eq!(n.user_id, 42);
    assert_eq!(n.reminder_id, Some(7));
    assert_eq!(n.title, "water the plants");
    assert_eq!(n.body, "water the plants");
    // No stored preferences: every channel is enabled, so chat wins.
    assert_eq!(n.channel.as_str(), "discord");
    assert_eq!(n.status.as_str(), "pending");
    assert_eq!(out.handoffs.len(), 1);
    assert_eq!(out.handoffs[0].notification_id, 1000);
    assert_eq!(out.handoffs[0].title, "water the plants");
    assert!(matches!(reminders[0].status, ReminderStatus::Triggered));
    assert_eq!(reminders[0].last_triggered_at, Some(now));
}

#[test]
fn recurring_reminder_advances_one_day() {
    // Fires at 09:00 of day N: the next occurrence is 09:00 of day N+1
    // and the reminder stays active.
    let nine = DAY_START + 32400;
    let mut reminders = vec![reminder(
        1,
        5,
        "standup",
        TriggerType::Recurring,
        config_with_at(None, Some("09:00")),
        2,
        Some(nine),
    )];
    let prefs: Vec<PrefEntry> = Vec::new();

    let out = run_reminder_tick(&mut reminders, &prefs, nine, 100, 1);

    assert_eq!(out.notifications_queued, 1);
    assert_eq!(out.reminders_rescheduled, 1);
    assert_eq!(out.errors, 0);
    assert!(matches!(reminders[0].status, ReminderStatus::Active));
    assert_eq!(reminders[0].next_trigger_at, Some(nine + 86400));
    assert_eq!(reminders[0].last_triggered_at, Some(nine));
}

#[test]
fn second_tick_at_same_instant_queues_nothing() {
    // Re-running the evaluator after everything fired produces no
    // further notification record.
    let now = DAY_START + 50000;
    let mut reminders = vec![
        reminder(
            1,
            1,
            "one-shot",
            TriggerType::Time,
            config_with_at(Some("2024-01-01T00:00:00Z"), None),
            2,
            Some(DAY_START),
        ),
        reminder(
            2,
            1,
            "daily",
            TriggerType::Recurring,
            config_with_at(None, Some("09:00")),
            2,
            Some(DAY_START + 32400),
        ),
    ];
    let prefs: Vec<PrefEntry> = Vec::new();

    let first = run_reminder_tick(&mut reminders, &prefs, now, 100, 1);
    assert_eq!(first.notifications_queued, 2);

    let second = run_reminder_tick(&mut reminders, &prefs, now, 100, 10);
    assert_eq!(second.reminders_evaluated, 0);
    assert_eq!(second.notifications_queued, 0);
    assert!(second.notifications.is_empty());
}

#[test]
fn due_set_is_ordered_by_priority_then_time() {
    let now = DAY_START + 1000;
    let reminders = vec![
        reminder(1, 1, "low-late", TriggerType::Time, config_with_at(None, None), 1, Some(now - 1)),
        reminder(2, 1, "high-late", TriggerType::Time, config_with_at(None, None), 3, Some(now - 1)),
        reminder(3, 1, "high-early", TriggerType::Time, config_with_at(None, None), 3, Some(now - 2)),
        reminder(4, 1, "future", TriggerType::Time, config_with_at(None, None), 5, Some(now + 10)),
    ];

    let idx = due_indices(&reminders, now, 100);
    assert_eq!(idx, vec![2, 1, 0]);
}

#[test]
fn due_set_honors_the_batch_limit() {
    let now = DAY_START;
    let reminders: Vec<Reminder> = (0..5u64)
        .map(|i| {
            reminder(i, 1, "r", TriggerType::Time, config_with_at(None, None), 2, Some(now - 1))
        })
        .collect();

    let idx = due_indices(&reminders, now, 3);
    assert_eq!(idx, vec![0, 1, 2]);
}

#[test]
fn snoozed_reminder_waits_until_snooze_lapses() {
    let now = DAY_START;
    let mut r = reminder(1, 1, "nap", TriggerType::Time, config_with_at(None, None), 2, Some(now));
    r.snooze_until = Some(now + 60);
    let reminders = vec![r];

    assert!(due_indices(&reminders, now, 10).is_empty());
    // Once the snooze lapses, the reminder is due again with no explicit
    // clearing.
    assert_eq!(due_indices(&reminders, now + 60, 10), vec![0]);
}

#[test]
fn paused_and_triggered_reminders_are_never_due() {
    let now = DAY_START;
    let mut paused = reminder(1, 1, "a", TriggerType::Time, config_with_at(None, None), 2, Some(now));
    paused.status = ReminderStatus::Paused;
    let mut fired = reminder(2, 1, "b", TriggerType::Time, config_with_at(None, None), 2, Some(now));
    fired.status = ReminderStatus::Triggered;
    let reminders = vec![paused, fired];

    assert!(due_indices(&reminders, now, 10).is_empty());
}

#[test]
fn compute_next_reads_the_time_trigger_instant() {
    let c = config_with_at(Some("2024-01-01T00:00:00Z"), None);
    assert_eq!(compute_next(TriggerType::Time, &c, 0), Some(DAY_START));
}

#[test]
fn compute_next_prefers_the_scheduled_at_field() {
    let c = TriggerConfig {
        scheduled_at: Some("2024-01-01T01:00:00Z".to_string()),
        trigger_at: None,
        at: Some("2024-01-01T02:00:00Z".to_string()),
        time: None,
        check_after: None,
    };
    assert_eq!(compute_next(TriggerType::Time, &c, 0), Some(DAY_START + 3600));
}

#[test]
fn compute_next_rejects_malformed_instants() {
    let c = config_with_at(Some("tomorrow-ish"), None);
    assert_eq!(compute_next(TriggerType::Time, &c, 0), None);
    let missing = config_with_at(None, None);
    assert_eq!(compute_next(TriggerType::Time, &missing, 0), None);
}

#[test]
fn compute_next_recurring_defaults_to_nine() {
    // No time field: the next 09:00 strictly after midnight of day N.
    let c = config_with_at(None, None);
    assert_eq!(compute_next(TriggerType::Recurring, &c, DAY_START), Some(DAY_START + 32400));
}

#[test]
fn compute_next_recurring_rejects_malformed_times() {
    let c = config_with_at(None, Some("25:00"));
    assert_eq!(compute_next(TriggerType::Recurring, &c, DAY_START), None);
    let c2 = config_with_at(None, Some("9am"));
    assert_eq!(compute_next(TriggerType::Recurring, &c2, DAY_START), None);
}

#[test]
fn compute_next_event_and_location_triggers() {
    let c = TriggerConfig {
        scheduled_at: None,
        trigger_at: None,
        at: None,
        time: None,
        check_after: Some("2024-01-02T00:00:00Z".to_string()),
    };
    assert_eq!(compute_next(TriggerType::Event, &c, 0), Some(DAY_START + 86400));
    assert_eq!(compute_next(TriggerType::Location, &c, 0), None);
}

#[test]
fn parse_hhmm_exact_values() {
    assert_eq!(second_brain::clock::parse_hhmm("09:30"), Some(34200));
    assert_eq!(second_brain::clock::parse_hhmm("00:00"), Some(0));
    assert_eq!(second_brain::clock::parse_hhmm("23:59"), Some(86340));
    // One-digit fields are accepted, as the common time parsers take them.
    assert_eq!(second_brain::clock::parse_hhmm("9:30"), Some(34200));
    assert_eq!(second_brain::clock::parse_hhmm("9:5"), Some(32700));
    assert_eq!(second_brain::clock::parse_hhmm("24:00"), None);
    assert_eq!(second_brain::clock::parse_hhmm("12:60"), None);
    assert_eq!(second_brain::clock::parse_hhmm("123:00"), None);
    assert_eq!(second_brain::clock::parse_hhmm(":30"), None);
    assert_eq!(second_brain::clock::parse_hhmm("10:"), None);
    assert_eq!(second_brain::clock::parse_hhmm("1:2:3"), None);
    assert_eq!(second_brain::clock::parse_hhmm("ab:cd"), None);
}

#[test]
fn malformed_recurring_config_counts_as_error_and_unschedules() {
    let nine = DAY_START + 32400;
    let mut reminders = vec![reminder(
        1,
        5,
        "broken",
        TriggerType::Recurring,
        config_with_at(None, Some("sometime")),
        2,
        Some(nine),
    )];
    let prefs: Vec<PrefEntry> = Vec::new();

    let out = run_reminder_tick(&mut reminders, &prefs, nine, 100, 1);

    assert_eq!(out.errors, 1);
    assert_eq!(out.reminders_rescheduled, 1);
    // The reminder stays active but has no fire time until corrected.
    assert!(matches!(reminders[0].status, ReminderStatus::Active));
    assert_eq!(reminders[0].next_trigger_at, None);
    // And it no longer turns up in any due set.
    assert!(due_indices(&reminders, nine + 9999, 10).is_empty());
}

#[test]
fn one_bad_reminder_does_not_block_the_batch() {
    // A data error in one user's reminder must not keep another user's
    // reminder from being evaluated and queued in the same tick.
    let nine = DAY_START + 32400;
    let mut reminders = vec![
        reminder(
            1,
            5,
            "broken",
            TriggerType::Recurring,
            config_with_at(None, Some("not-a-time")),
            9,
            Some(nine),
        ),
        reminder(2, 6, "fine", TriggerType::Time, config_with_at(None, None), 2, Some(nine)),
    ];
    let prefs: Vec<PrefEntry> = Vec::new();

    let out = run_reminder_tick(&mut reminders, &prefs, nine, 100, 1);

    assert_eq!(out.reminders_evaluated, 2);
    assert_eq!(out.notifications_queued, 2);
    assert_eq!(out.errors, 1);
    assert!(matches!(reminders[1].status, ReminderStatus::Triggered));
}

fn default_prefs_for(user_id: u64) -> PrefEntry {
    PrefEntry {
        user_id,
        prefs: UserPrefs {
            push_enabled: true,
            email_enabled: true,
            discord_enabled: false,
            quiet_hours_enabled: false,
            quiet_hours_start: None,
            quiet_hours_end: None,
            timezone: "UTC".to_string(),
            tz_offset_secs: 0,
        },
    }
}

#[test]
fn notification_body_prefers_the_description() {
    let now = DAY_START;
    let mut r = reminder(1, 8, "title", TriggerType::Time, config_with_at(None, None), 2, Some(now));
    r.description = Some("the details".to_string());
    let mut reminders = vec![r];
    let prefs: Vec<PrefEntry> = Vec::new();

    let out = run_reminder_tick(&mut reminders, &prefs, now, 100, 1);

    assert_eq!(out.notifications[0].title, "title");
    assert_eq!(out.notifications[0].body, "the details");
}

#[test]
fn tick_uses_the_stored_channel_preference() {
    let now = DAY_START;
    let mut entry = default_prefs_for(8);
    entry.prefs.discord_enabled = true;
    let prefs = vec![entry];
    let mut reminders = vec![reminder(
        1,
        8,
        "ping",
        TriggerType::Time,
        config_with_at(None, None),
        2,
        Some(now),
    )];

    let out = run_reminder_tick(&mut reminders, &prefs, now, 100, 1);

    assert_eq!(out.notifications[0].channel.as_str(), "discord");
}

#[test]
fn quiet_hours_suppress_delivery_but_still_advance() {
    // Quiet hours 22:00-07:00, reminder due at 23:30 local: no channel is
    // resolved, but the reminder still advances.
    let now = DAY_START + 23 * 3600 + 1800;
    let mut entry = default_prefs_for(5);
    entry.prefs.quiet_hours_enabled = true;
    entry.prefs.quiet_hours_start = Some(22 * 3600);
    entry.prefs.quiet_hours_end = Some(7 * 3600);
    let prefs = vec![entry];
    let mut reminders = vec![reminder(
        1,
        5,
        "late night",
        TriggerType::Recurring,
        config_with_at(None, Some("23:30")),
        2,
        Some(now),
    )];

    let out = run_reminder_tick(&mut reminders, &prefs, now, 100, 1);

    assert_eq!(out.reminders_evaluated, 1);
    assert_eq!(out.notifications_queued, 0);
    assert!(out.notifications.is_empty());
    // Advancement happened regardless: one silent miss, no build-up.
    assert_eq!(out.reminders_rescheduled, 1);
    assert_eq!(reminders[0].next_trigger_at, Some(now + 86400));
    assert_eq!(reminders[0].last_triggered_at, Some(now));
}
