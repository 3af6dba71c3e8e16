use second_brain::dispatch::{
    apply_send_outcome, classify_discord_status, plan_dispatch, plan_for_record,
    push_stub_outcome, tally_outcomes, ContactInfo, DispatchPlan, SendOutcome,
};
use second_brain::model::{Channel, Notification, NotificationStatus};
use second_brain::notify::can_dispatch;

fn pending_notification(channel: Channel) -> Notification {
    Notification {
        id: 10,
        user_id: 3,
        reminder_id: Some(4),
        notification_type: "reminder".to_string(),
        title: "dentist".to_string(),
        body: "appointment at noon\nbring the forms".to_string(),
        channel,
        status: NotificationStatus::Pending,
        sent_at: None,
        delivery_info: None,
    }
}

fn contact(email: Option<&str>, discord: Option<&str>, push: Option<&str>) -> ContactInfo {
    ContactInfo {
        email: email.map(|s| s.to_string()),
        discord_user_id: discord.map(|s| s.to_string()),
        push_token: push.map(|s| s.to_string()),
    }
}

#[test]
fn email_without_address_fails_terminally() {
    // Dispatching an email notification for a user with no known address
    // finalizes the record as failed, with a "no address" reason, and
    // nothing panics along the way.
    let mut n = pending_notification(Channel::Email);
    let c = contact(None, Some("d-1"), Some("t-1"));

    let plan = plan_dispatch(&n, &c, true);
    let reason = match plan {
        DispatchPlan::Reject { reason } => reason,
        _ => panic!("expected a rejection"),
    };
    assert_eq!(reason, "User has no email address");

    apply_send_outcome(&mut n, SendOutcome::Failed { reason }, 1704067200);
    assert!(matches!(n.status, NotificationStatus::Failed));
    assert!(n.delivery_info.as_deref().unwrap().contains("no email address"));
    assert_eq!(n.sent_at, None);
    assert!(!can_dispatch(&n));
}

#[test]
fn email_payload_carries_title_body_and_html() {
    let n = pending_notification(Channel::Email);
    let c = contact(Some("a@b.example"), None, None);

    match plan_dispatch(&n, &c, false) {
        DispatchPlan::Email { to, subject, text_body, html_body } => {
            assert_eq!(to, "a@b.example");
            assert_eq!(subject, "dentist");
            assert_eq!(text_body, "appointment at noon\nbring the forms");
            assert!(html_body.contains("<h2>dentist</h2>"));
            assert!(html_body.contains("appointment at noon<br>bring the forms"));
            assert!(html_body.contains("Sent by Second Brain"));
        },
        _ => panic!("expected an email plan"),
    }
}

#[test]
fn discord_plan_posts_a_mention() {
    let n = pending_notification(Channel::Discord);
    let c = contact(None, Some("777"), None);

    match plan_dispatch(&n, &c, true) {
        DispatchPlan::Discord { content } => {
            assert_eq!(content, "<@777> **dentist**\nappointment at noon\nbring the forms");
        },
        _ => panic!("expected a chat plan"),
    }
}

#[test]
fn discord_needs_handle_and_webhook() {
    let n = pending_notification(Channel::Discord);

    match plan_dispatch(&n, &contact(None, None, None), true) {
        DispatchPlan::Reject { reason } => assert_eq!(reason, "User has no Discord ID"),
        _ => panic!("expected a rejection"),
    }
    match plan_dispatch(&n, &contact(None, Some("777"), None), false) {
        DispatchPlan::Reject { reason } => {
            assert_eq!(reason, "Discord webhook URL not configured")
        },
        _ => panic!("expected a rejection"),
    }
}

#[test]
fn discord_response_classification() {
    match classify_discord_status(204) {
        SendOutcome::Delivered { delivery_id } => assert_eq!(delivery_id, "discord_sent"),
        _ => panic!("2xx must deliver"),
    }
    match classify_discord_status(404) {
        SendOutcome::Failed { reason } => {
            assert_eq!(reason, "Discord webhook failed: 404")
        },
        _ => panic!("4xx must fail"),
    }
    match classify_discord_status(500) {
        SendOutcome::Failed { reason } => {
            assert_eq!(reason, "Discord webhook failed: 500")
        },
        _ => panic!("5xx must fail"),
    }
}

#[test]
fn push_plan_needs_a_token_and_reports_the_stub() {
    let n = pending_notification(Channel::Push);

    match plan_dispatch(&n, &contact(None, None, None), false) {
        DispatchPlan::Reject { reason } => assert_eq!(reason, "User has no push token"),
        _ => panic!("expected a rejection"),
    }
    match plan_dispatch(&n, &contact(None, None, Some("tok-9")), false) {
        DispatchPlan::Push { token } => assert_eq!(token, "tok-9"),
        _ => panic!("expected a push plan"),
    }
    match push_stub_outcome() {
        SendOutcome::Delivered { delivery_id } => assert_eq!(delivery_id, "push_pending"),
        _ => panic!("the stub reports its pending marker"),
    }
}

#[test]
fn missing_contact_row_fails_user_not_found() {
    // A user with no contact row at all: the record fails terminally
    // with the missing-user reason, like any other missing contact point.
    let mut n = pending_notification(Channel::Email);

    let reason = match plan_for_record(&n, None, true) {
        DispatchPlan::Reject { reason } => reason,
        _ => panic!("expected a rejection"),
    };
    assert_eq!(reason, "User not found");

    apply_send_outcome(&mut n, SendOutcome::Failed { reason }, 1704067200);
    assert!(matches!(n.status, NotificationStatus::Failed));
    assert_eq!(n.delivery_info.as_deref(), Some("User not found"));

    // With a contact row, the decision is the channel plan itself.
    let c = contact(Some("a@b.example"), None, None);
    let n2 = pending_notification(Channel::Email);
    assert!(matches!(plan_for_record(&n2, Some(&c), true), DispatchPlan::Email { .. }));
}

#[test]
fn dispatch_counts_fold_the_outcomes() {
    let outcomes = vec![
        SendOutcome::Delivered { delivery_id: "a".to_string() },
        SendOutcome::Failed { reason: "b".to_string() },
        SendOutcome::Delivered { delivery_id: "c".to_string() },
    ];
    let counts = tally_outcomes(&outcomes);
    assert_eq!(counts.notifications_sent, 2);
    assert_eq!(counts.errors, 1);

    let none: Vec<SendOutcome> = Vec::new();
    let empty = tally_outcomes(&none);
    assert_eq!(empty.notifications_sent, 0);
    assert_eq!(empty.errors, 0);
}

#[test]
fn delivery_finalizes_the_record_once() {
    let mut n = pending_notification(Channel::Discord);
    assert!(can_dispatch(&n));

    apply_send_outcome(
        &mut n,
        SendOutcome::Delivered { delivery_id: "discord_sent".to_string() },
        1704103200,
    );
    assert!(matches!(n.status, NotificationStatus::Sent));
    assert_eq!(n.sent_at, Some(1704103200));
    assert_eq!(n.delivery_info.as_deref(), Some("discord_sent"));
    // The record is no longer pending: a replayed hand-off is not
    // dispatched again.
    assert!(!can_dispatch(&n));
    // The rest of the record is untouched.
    assert_eq!(n.id, 10);
    assert_eq!(n.title, "dentist");
}
