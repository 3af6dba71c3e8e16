//! Channel dispatchers: payload shaping, missing-contact failures,
//! response classification, and the single finalization of a
//! notification record.
//!
//! The outside senders themselves (an email provider, a chat webhook, a
//! push service) live with the caller: this module decides what to send,
//! and folds what came back into the record.

use vstd::prelude::*;
use vstd::string::StringExecFns;

use crate::model::{Channel, Notification, NotificationStatus};
use crate::text::{dec_string, replace_newlines, spec_dec, spec_replace_newlines};

verus! {

/// The contact points known for a user.
#[derive(Debug)]
pub struct ContactInfo {
    pub email: Option<String>,
    pub discord_user_id: Option<String>,
    pub push_token: Option<String>,
}

/// What one attempt at an outside sender came to.
#[derive(Debug, Clone)]
pub enum SendOutcome {
    /// The provider took the message; `delivery_id` is its receipt.
    Delivered { delivery_id: String },
    /// Terminal failure of this attempt; never retried by this core.
    Failed { reason: String },
}

/// What the dispatcher decides to do with one pending notification.
#[derive(Debug)]
pub enum DispatchPlan {
    /// Send an email: subject, plain body, and an HTML rendering.
    Email { to: String, subject: String, text_body: String, html_body: String },
    /// Post a chat mention through the configured webhook.
    Discord { content: String },
    /// Hand the stub push sender the device token.
    Push { token: String },
    /// No send is possible; fail the record with this reason.
    Reject { reason: String },
}

/// The chat message posted for a notification: a mention of the user,
/// the title in bold, then the body.
pub open spec fn spec_discord_content(
    user: Seq<char>,
    title: Seq<char>,
    body: Seq<char>,
) -> Seq<char> {
    "<@"@ + user + "> **"@ + title + "**\n"@ + body
}

/// The HTML rendering of an email notification: the title as a heading,
/// the body with its newlines turned into line breaks, and a footer.
pub open spec fn spec_email_html(title: Seq<char>, body: Seq<char>) -> Seq<char> {
    "<!DOCTYPE html>\n<html>\n<head><meta charset=\"UTF-8\"></head>\n<body style=\"font-family: sans-serif; padding: 20px;\">\n<h2>"@
        + title + "</h2>\n<p>"@ + spec_replace_newlines(body)
        + "</p>\n<hr>\n<p style=\"color: #666; font-size: 12px;\">\nSent by Second Brain\n</p>\n</body>\n</html>\n"@
}

/// Builds the chat message for a notification to `user`.
pub fn discord_content(user: &str, title: &str, body: &str) -> (r: String)
    ensures
        r@ == spec_discord_content(user@, title@, body@),
{
    let mut s: String = "<@".to_owned();
    s.append(user);
    s.append("> **");
    s.append(title);
    s.append("**\n");
    s.append(body);
    s
}

/// Builds the HTML rendering of an email notification.
pub fn email_html(title: &str, body: &str) -> (r: String)
    ensures
        r@ == spec_email_html(title@, body@),
{
    let mut s: String =
        "<!DOCTYPE html>\n<html>\n<head><meta charset=\"UTF-8\"></head>\n<body style=\"font-family: sans-serif; padding: 20px;\">\n<h2>".to_owned();
    s.append(title);
    s.append("</h2>\n<p>");
    let replaced = replace_newlines(body);
    s.append(replaced.as_str());
    s.append(
        "</p>\n<hr>\n<p style=\"color: #666; font-size: 12px;\">\nSent by Second Brain\n</p>\n</body>\n</html>\n",
    );
    s
}

/// What `plan_dispatch` owes: on the record's fixed channel, a payload
/// shaped from the record and the contact point, or a rejection naming
/// exactly what is missing. Missing contact data is terminal for the
/// occurrence — nothing would change on a retry.
pub open spec fn spec_dispatch_plan(
    plan: DispatchPlan,
    n: Notification,
    contact: ContactInfo,
    webhook_configured: bool,
) -> bool {
    match n.channel {
        Channel::Email => match contact.email {
            Some(e) => plan matches DispatchPlan::Email { to, subject, text_body, html_body }
                && to@ == e@ && subject@ == n.title@ && text_body@ == n.body@ && html_body@
                == spec_email_html(n.title@, n.body@),
            None => plan matches DispatchPlan::Reject { reason } && reason@
                == "User has no email address"@,
        },
        Channel::Discord => match contact.discord_user_id {
            Some(d) => if webhook_configured {
                plan matches DispatchPlan::Discord { content } && content@ == spec_discord_content(
                    d@,
                    n.title@,
                    n.body@,
                )
            } else {
                plan matches DispatchPlan::Reject { reason } && reason@
                    == "Discord webhook URL not configured"@
            },
            None => plan matches DispatchPlan::Reject { reason } && reason@
                == "User has no Discord ID"@,
        },
        Channel::Push => match contact.push_token {
            Some(t) => plan matches DispatchPlan::Push { token } && token@ == t@,
            None => plan matches DispatchPlan::Reject { reason } && reason@
                == "User has no push token"@,
        },
    }
}

/// Decides what to do with one pending notification: shape the payload
/// for its channel, or reject the attempt when the contact point (or the
/// chat webhook) is missing.
pub fn plan_dispatch(n: &Notification, contact: &ContactInfo, webhook_configured: bool) -> (plan:
    DispatchPlan)
    ensures
        spec_dispatch_plan(plan, *n, *contact, webhook_configured),
{
    match n.channel {
        Channel::Email => match &contact.email {
            Some(e) => DispatchPlan::Email {
                to: e.clone(),
                subject: n.title.clone(),
                text_body: n.body.clone(),
                html_body: email_html(n.title.as_str(), n.body.as_str()),
            },
            None => DispatchPlan::Reject { reason: "User has no email address".to_owned() },
        },
        Channel::Discord => match &contact.discord_user_id {
            Some(d) => {
                if webhook_configured {
                    DispatchPlan::Discord {
                        content: discord_content(d.as_str(), n.title.as_str(), n.body.as_str()),
                    }
                } else {
                    DispatchPlan::Reject {
                        reason: "Discord webhook URL not configured".to_owned(),
                    }
                }
            },
            None => DispatchPlan::Reject { reason: "User has no Discord ID".to_owned() },
        },
        Channel::Push => match &contact.push_token {
            Some(t) => DispatchPlan::Push { token: t.clone() },
            None => DispatchPlan::Reject { reason: "User has no push token".to_owned() },
        },
    }
}

/// Decides what to do with one pending notification given the user's
/// contact row, or its absence: a user with no row at all fails the
/// record terminally, like any other missing contact point.
pub fn plan_for_record(
    n: &Notification,
    contact: Option<&ContactInfo>,
    webhook_configured: bool,
) -> (plan: DispatchPlan)
    ensures
        contact matches Some(c) ==> spec_dispatch_plan(plan, *n, *c, webhook_configured),
        contact is None ==> (plan matches DispatchPlan::Reject { reason } && reason@
            == "User not found"@),
{
    match contact {
        Some(c) => plan_dispatch(n, c, webhook_configured),
        None => DispatchPlan::Reject { reason: "User not found".to_owned() },
    }
}

/// How many of these outcomes delivered.
pub open spec fn spec_delivered_count(outcomes: Seq<SendOutcome>) -> int
    decreases outcomes.len(),
{
    if outcomes.len() == 0 {
        0
    } else {
        spec_delivered_count(outcomes.drop_last()) + if outcomes.last() is Delivered {
            1int
        } else {
            0int
        }
    }
}

/// What one dispatch tick reports: deliveries and failures.
#[derive(Debug)]
pub struct DispatchCounts {
    pub notifications_sent: u32,
    pub errors: u32,
}

/// Folds a tick's send outcomes into its report: every delivery counts
/// as sent, every failure as an error.
pub fn tally_outcomes(outcomes: &Vec<SendOutcome>) -> (c: DispatchCounts)
    requires
        outcomes@.len() <= u32::MAX,
    ensures
        c.notifications_sent == spec_delivered_count(outcomes@),
        c.errors == outcomes@.len() - spec_delivered_count(outcomes@),
{
    let mut sent: u32 = 0;
    let mut i: usize = 0;
    while i < outcomes.len()
        invariant
            i <= outcomes@.len(),
            outcomes@.len() <= u32::MAX,
            sent == spec_delivered_count(outcomes@.take(i as int)),
            sent <= i,
        decreases outcomes@.len() - i,
    {
        proof {
            assert(outcomes@.take(i + 1).drop_last() =~= outcomes@.take(i as int));
            assert(outcomes@.take(i + 1).last() == outcomes@[i as int]);
        }
        if matches!(&outcomes[i], SendOutcome::Delivered { .. }) {
            sent = sent + 1;
        }
        i = i + 1;
    }
    proof {
        assert(outcomes@.take(i as int) =~= outcomes@);
    }
    DispatchCounts { notifications_sent: sent, errors: (i as u32) - sent }
}

/// Classifies a chat webhook's HTTP status: any 2xx answer is a
/// delivery, anything else fails the attempt with the status in the
/// reason. No retry happens at this level.
pub fn classify_discord_status(status: u16) -> (o: SendOutcome)
    ensures
        200 <= status < 300 ==> (o matches SendOutcome::Delivered { delivery_id } && delivery_id@
            == "discord_sent"@),
        !(200 <= status < 300) ==> (o matches SendOutcome::Failed { reason } && reason@
            == "Discord webhook failed: "@ + spec_dec(status as int)),
{
    if 200 <= status && status < 300 {
        SendOutcome::Delivered { delivery_id: "discord_sent".to_owned() }
    } else {
        let mut reason: String = "Discord webhook failed: ".to_owned();
        let digits = dec_string(status as u64);
        reason.append(digits.as_str());
        SendOutcome::Failed { reason }
    }
}

/// The outcome the stub push sender reports: a non-committal pending
/// marker, recorded like a delivery receipt. Real push delivery is not
/// implemented.
pub fn push_stub_outcome() -> (o: SendOutcome)
    ensures
        o matches SendOutcome::Delivered { delivery_id } && delivery_id@ == "push_pending"@,
{
    SendOutcome::Delivered { delivery_id: "push_pending".to_owned() }
}

/// Finalizes a pending notification record exactly once: a delivery
/// moves it to `Sent`, stamped `now`, with the provider's receipt; a
/// failure moves it to `Failed` with the cause, leaving `sent_at` alone.
/// Everything else in the record is untouched, and no transition leaves
/// a terminal state — callers must hold a pending record.
pub fn apply_send_outcome(n: &mut Notification, outcome: SendOutcome, now: i64)
    requires
        old(n).status is Pending,
    ensures
        final(n).id == old(n).id,
        final(n).user_id == old(n).user_id,
        final(n).reminder_id == old(n).reminder_id,
        final(n).notification_type == old(n).notification_type,
        final(n).title == old(n).title,
        final(n).body == old(n).body,
        final(n).channel == old(n).channel,
        match outcome {
            SendOutcome::Delivered { delivery_id } => final(n).status is Sent && final(n).sent_at
                == Some(now) && final(n).delivery_info == Some(delivery_id),
            SendOutcome::Failed { reason } => final(n).status is Failed && final(n).sent_at == old(
                n,
            ).sent_at && final(n).delivery_info == Some(reason),
        },
{
    match outcome {
        SendOutcome::Delivered { delivery_id } => {
            n.status = NotificationStatus::Sent;
            n.sent_at = Some(now);
            n.delivery_info = Some(delivery_id);
        },
        SendOutcome::Failed { reason } => {
            n.status = NotificationStatus::Failed;
            n.delivery_info = Some(reason);
        },
    }
}

} // verus!
