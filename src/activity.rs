//! Liveness signals observed outside the message channels: the wearable
//! device feed (a detection-only channel) and replies read from a mailbox.

use vstd::prelude::*;
use crate::delivery::OutputResult;
use crate::detector::CheckinResponse;
use crate::duration::ConfigDuration;
use crate::timestamp::{hours_between, later_of, Timestamp, HOUR_MICROS};

verus! {

pub const WHOOP_NAME: &'static str = "WHOOP";

pub const CHECK_ONLY: &'static str = "WHOOP is a check-only adapter";

pub const ACTIVITY_SUBJECT: &'static str = "WHOOP Device Activity Detected";

pub const ACTIVITY_SENDER: &'static str = "WHOOP Device";

/// The instant that an RFC 3339 date-time text denotes, in microseconds.
pub uninterp spec fn rfc3339_micros(s: Seq<char>) -> Option<int>;

/// The instant that an RFC 2822 date-time text denotes, in microseconds.
pub uninterp spec fn rfc2822_micros(s: Seq<char>) -> Option<int>;

/// Relies on `chrono::DateTime::parse_from_rfc3339`, converted to UTC.
#[verifier::external_body]
fn parse_rfc3339(s: &str) -> (r: Option<Timestamp>)
    ensures
        match r {
            Some(t) => rfc3339_micros(s@) == Some(t.micros as int),
            None => rfc3339_micros(s@) is None,
        },
{
    match chrono::DateTime::parse_from_rfc3339(s) {
        Ok(d) => Some(Timestamp { micros: d.with_timezone(&chrono::Utc).timestamp_micros() }),
        Err(_) => None,
    }
}

/// Relies on `chrono::DateTime::parse_from_rfc2822`, converted to UTC.
#[verifier::external_body]
fn parse_rfc2822(s: &str) -> (r: Option<Timestamp>)
    ensures
        match r {
            Some(t) => rfc2822_micros(s@) == Some(t.micros as int),
            None => rfc2822_micros(s@) is None,
        },
{
    match chrono::DateTime::parse_from_rfc2822(s) {
        Ok(d) => Some(Timestamp { micros: d.with_timezone(&chrono::Utc).timestamp_micros() }),
        Err(_) => None,
    }
}

/// Why the device feed gave no activity time.
#[derive(Clone, Copy, Debug, PartialEq, Eq, Structural)]
pub enum ActivityError {
    NoRecords,
    BadTimestamp,
}

/// The activity time of the newest record of a feed, whose `updated_at`
/// texts are given newest first.
pub fn newest_record_time(updated_at: &Vec<String>) -> (r: Result<Timestamp, ActivityError>)
    ensures
        updated_at@.len() == 0 ==> r == Err::<Timestamp, ActivityError>(ActivityError::NoRecords),
        updated_at@.len() > 0 ==> match r {
            Ok(t) => rfc3339_micros(updated_at@[0]@) == Some(t.micros as int),
            Err(e) => e == ActivityError::BadTimestamp && rfc3339_micros(updated_at@[0]@) is None,
        },
{
    if updated_at.len() == 0 {
        return Err(ActivityError::NoRecords);
    }
    match parse_rfc3339(updated_at[0].as_str()) {
        Some(t) => Ok(t),
        None => Err(ActivityError::BadTimestamp),
    }
}

/// The most recent of the activity times that the feeds gave.
pub fn latest_activity(
    cycle: Option<Timestamp>,
    sleep: Option<Timestamp>,
    recovery: Option<Timestamp>,
) -> (r: Option<Timestamp>)
    ensures
        r == later_of(later_of(cycle, sleep), recovery),
{
    Timestamp::later(Timestamp::later(cycle, sleep), recovery)
}

/// Activity counts as a sign of life when it is more recent than the
/// window's whole hours before `now`; the caller's watermark plays no part.
pub open spec fn activity_fresh(activity: Timestamp, now: Timestamp, window: nat) -> bool {
    activity.micros > now.micros - (window / 3600) * (HOUR_MICROS as int)
}

/// `r` reports device activity at `activity`.
pub open spec fn activity_found(r: CheckinResponse, activity: Timestamp) -> bool {
    match r {
        CheckinResponse::Found { timestamp, subject, from } => timestamp == activity && subject@
            == ACTIVITY_SUBJECT@ && from@ == ACTIVITY_SENDER@,
        CheckinResponse::NoResponse => false,
    }
}

/// What a poll of the device feed reports, given its most recent activity.
pub fn activity_responses(activity: Timestamp, now: Timestamp, window: ConfigDuration) -> (r: Vec<
    CheckinResponse,
>)
    ensures
        activity_fresh(activity, now, window@) ==> r@.len() == 1 && activity_found(r@[0], activity),
        !activity_fresh(activity, now, window@) ==> r@.len() == 0,
{
    let hours = window.as_hours();
    let cutoff: i128 = now.micros as i128 - hours as i128 * 3_600_000_000;
    let mut r: Vec<CheckinResponse> = Vec::new();
    if activity.micros as i128 > cutoff {
        r.push(
            CheckinResponse::Found {
                timestamp: activity,
                subject: ACTIVITY_SUBJECT.to_string(),
                from: ACTIVITY_SENDER.to_string(),
            },
        );
    }
    r
}

/// The device feed is healthy when its activity is no older than the
/// window's whole hours.
pub fn activity_healthy(activity: Timestamp, now: Timestamp, window: ConfigDuration) -> (r: bool)
    ensures
        r == (hours_between(activity, now) <= window@ / 3600),
{
    activity.hours_until(now) as i128 <= window.as_hours() as i128
}

/// The device feed cannot deliver messages: every send is a deliberate skip.
pub fn activity_send_result() -> (r: OutputResult)
    ensures
        r matches OutputResult::Skipped(m) && m@ == CHECK_ONLY@,
{
    OutputResult::Skipped(CHECK_ONLY.to_string())
}

/// A reply is new when it came after the watermark (or there is none).
pub fn reply_is_new(received: Timestamp, since: Option<Timestamp>) -> (r: bool)
    ensures
        r == match since {
            Some(s) => received.micros > s.micros,
            None => true,
        },
{
    match since {
        Some(s) => received.micros > s.micros,
        None => true,
    }
}

pub open spec fn host_text(host: Option<&str>) -> Seq<char> {
    match host {
        Some(h) => h@,
        None => Seq::empty(),
    }
}

/// The check-in candidate that a mailbox reply stands for: none when its
/// date cannot be read or is not after the watermark `since`.
pub fn reply_response(
    date: &str,
    subject: &str,
    name: Option<&str>,
    mailbox: Option<&str>,
    host: Option<&str>,
    since: Option<Timestamp>,
) -> (r: Option<CheckinResponse>)
    ensures
        match rfc2822_micros(date@) {
            None => r is None,
            Some(m) => {
                let new = match since {
                    Some(s) => m > s.micros,
                    None => true,
                };
                if new {
                    r matches Some(CheckinResponse::Found { timestamp, subject: subj, from })
                        && timestamp.micros == m && subj@ == subject@ && from@ == sender_text(
                        name,
                        mailbox,
                        host,
                    )
                } else {
                    r is None
                }
            },
        },
{
    match parse_rfc2822(date) {
        None => None,
        Some(t) => {
            if reply_is_new(t, since) {
                Some(
                    CheckinResponse::Found {
                        timestamp: t,
                        subject: subject.to_string(),
                        from: format_sender(name, mailbox, host),
                    },
                )
            } else {
                None
            }
        },
    }
}

pub open spec fn sender_text(name: Option<&str>, mailbox: Option<&str>, host: Option<&str>) -> Seq<
    char,
> {
    match (name, mailbox) {
        (Some(n), Some(m)) => n@ + " <"@ + m@ + "@"@ + host_text(host) + ">"@,
        (None, Some(m)) => m@ + "@"@ + host_text(host),
        (_, None) => "Unknown"@,
    }
}

/// The sender of a reply: `Name <mailbox@host>`, or `mailbox@host` without a
/// name, or `Unknown` without a mailbox.
pub fn format_sender(name: Option<&str>, mailbox: Option<&str>, host: Option<&str>) -> (r: String)
    ensures
        r@ == sender_text(name, mailbox, host),
{
    let h = match host {
        Some(h) => h.to_string(),
        None => String::new(),
    };
    match (name, mailbox) {
        (Some(n), Some(m)) => n.to_string().concat(" <").concat(m).concat("@").concat(h.as_str()).concat(
            ">",
        ),
        (None, Some(m)) => m.to_string().concat("@").concat(h.as_str()),
        (_, None) => "Unknown".to_string(),
    }
}

} // verus!
