use second_brain::model::Channel;
use second_brain::policy::{is_in_quiet_hours, preferred_channel, resolve_channel, UserPrefs};

fn prefs(discord: bool, push: bool, email: bool) -> UserPrefs {
    UserPrefs {
        push_enabled: push,
        email_enabled: email,
        discord_enabled: discord,
        quiet_hours_enabled: false,
        quiet_hours_start: None,
        quiet_hours_end: None,
        timezone: "UTC".to_string(),
        tz_offset_secs: 0,
    }
}

#[test]
fn channel_fallback_prefers_push_when_chat_is_off() {
    let p = prefs(false, true, true);
    assert_eq!(preferred_channel(&p), Channel::Push);
    assert_eq!(resolve_channel(&p, 36000), Some(Channel::Push));
}

#[test]
fn channel_order_is_chat_then_push_then_email() {
    assert_eq!(preferred_channel(&prefs(true, true, true)), Channel::Discord);
    assert_eq!(preferred_channel(&prefs(false, true, true)), Channel::Push);
    assert_eq!(preferred_channel(&prefs(false, false, true)), Channel::Email);
    // Every channel disabled: push is still the fallback.
    assert_eq!(preferred_channel(&prefs(false, false, false)), Channel::Push);
}

#[test]
fn overnight_quiet_window_covers_half_past_eleven() {
    // 22:00 - 07:00 wraps past midnight; 23:30 falls inside it, so no
    // channel is resolved.
    let mut p = prefs(false, true, true);
    p.quiet_hours_enabled = true;
    p.quiet_hours_start = Some(22 * 3600);
    p.quiet_hours_end = Some(7 * 3600);

    let half_past_eleven = 23 * 3600 + 1800;
    assert!(is_in_quiet_hours(&p, half_past_eleven));
    assert_eq!(resolve_channel(&p, half_past_eleven), None);

    // Early morning is still inside the window; midday is not.
    assert!(is_in_quiet_hours(&p, 6 * 3600));
    assert!(!is_in_quiet_hours(&p, 12 * 3600));
    assert_eq!(resolve_channel(&p, 12 * 3600), Some(Channel::Push));
}

#[test]
fn plain_quiet_window_is_half_open() {
    let mut p = prefs(false, true, true);
    p.quiet_hours_enabled = true;
    p.quiet_hours_start = Some(9 * 3600);
    p.quiet_hours_end = Some(17 * 3600);

    assert!(is_in_quiet_hours(&p, 9 * 3600));
    assert!(is_in_quiet_hours(&p, 12 * 3600));
    assert!(!is_in_quiet_hours(&p, 17 * 3600));
    assert!(!is_in_quiet_hours(&p, 8 * 3600));
}

#[test]
fn quiet_hours_need_flag_and_both_bounds() {
    let mut p = prefs(false, true, true);
    p.quiet_hours_start = Some(0);
    p.quiet_hours_end = Some(86399);
    // Flag off: the window is ignored.
    assert!(!is_in_quiet_hours(&p, 1000));

    p.quiet_hours_enabled = true;
    p.quiet_hours_end = None;
    // Missing bound: the window is ignored.
    assert!(!is_in_quiet_hours(&p, 1000));
}

#[test]
fn fallback_prefs_enable_every_channel() {
    // No stored record: all channels enabled, no quiet hours, so the
    // resolver picks chat first.
    let p = UserPrefs::fallback();
    assert!(p.push_enabled);
    assert!(p.email_enabled);
    assert!(p.discord_enabled);
    assert!(!p.quiet_hours_enabled);
    assert_eq!(p.timezone, "America/New_York");
    assert_eq!(preferred_channel(&p), Channel::Discord);
}
