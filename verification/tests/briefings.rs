use second_brain::briefing::{
    briefing_due, build_briefing_request, users_for_briefing, BriefingKind, BriefingPrefs,
    BriefingUser,
};

fn prefs(morning: bool, evening: bool, offset: i32) -> BriefingPrefs {
    BriefingPrefs {
        morning_enabled: morning,
        evening_enabled: evening,
        morning_hour: 7,
        evening_hour: 18,
        tz_offset_hours: offset,
    }
}

#[test]
fn morning_briefing_matches_the_local_hour() {
    // Five hours west of UTC: 12:00 UTC is 07:00 local.
    let p = prefs(true, false, -5);
    assert!(briefing_due(BriefingKind::Morning, &p, 12));
    assert!(!briefing_due(BriefingKind::Morning, &p, 11));
    assert!(!briefing_due(BriefingKind::Evening, &p, 23));
}

#[test]
fn evening_briefing_is_off_by_default() {
    let p = BriefingPrefs::fallback();
    assert!(!briefing_due(BriefingKind::Evening, &p, 18));
    assert!(briefing_due(BriefingKind::Morning, &p, 7));
}

#[test]
fn briefing_selection_keeps_order_and_limit() {
    let users = vec![
        BriefingUser { user_id: 1, prefs: prefs(true, false, 0) },
        BriefingUser { user_id: 2, prefs: prefs(true, false, -5) },
        BriefingUser { user_id: 3, prefs: prefs(true, false, 0) },
        BriefingUser { user_id: 4, prefs: prefs(false, false, 0) },
        BriefingUser { user_id: 5, prefs: prefs(true, false, 0) },
    ];

    // At 07:00 UTC the zero-offset users are due; the disabled one and
    // the shifted one are not.
    let all = users_for_briefing(&users, BriefingKind::Morning, 7, 100);
    assert_eq!(all, vec![1, 3, 5]);

    let capped = users_for_briefing(&users, BriefingKind::Morning, 7, 2);
    assert_eq!(capped, vec![1, 3]);
}

#[test]
fn briefing_request_shape() {
    let r = build_briefing_request(42, BriefingKind::Morning);
    assert_eq!(r.message, "Generate my morning briefing");
    assert_eq!(r.user_id, "42");
    assert!(r.family_ids.is_empty());
    assert_eq!(r.intent.as_deref(), Some("briefing"));
    assert_eq!(r.source, "scheduler");
    assert_eq!(r.device_id, None);
    assert_eq!(r.conversation_id, None);

    let e = build_briefing_request(7, BriefingKind::Evening);
    assert_eq!(e.message, "Generate my evening summary");
}

#[test]
fn decimal_rendering_is_exact() {
    assert_eq!(second_brain::text::dec_string(0), "0");
    assert_eq!(second_brain::text::dec_string(9), "9");
    assert_eq!(second_brain::text::dec_string(10), "10");
    assert_eq!(second_brain::text::dec_string(65536), "65536");
    assert_eq!(second_brain::text::dec_string(18446744073709551615), "18446744073709551615");
}
