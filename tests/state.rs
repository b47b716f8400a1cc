use lastsignal::duration::ConfigDuration;
use lastsignal::schedule::{escalation_complete, get_status_snapshot, should_escalate};
use lastsignal::state::{AppState, NotificationLog};
use lastsignal::timestamp::{Timestamp, DAY_MICROS};

fn now() -> Timestamp {
    let since_epoch = std::time::SystemTime::now().duration_since(std::time::UNIX_EPOCH).unwrap();
    Timestamp::from_micros(since_epoch.as_micros() as i64)
}

fn days_before(t: Timestamp, days: i64) -> Timestamp {
    Timestamp::from_micros(t.micros - days * DAY_MICROS)
}

#[test]
fn test_app_state_default() {
    let state = AppState::default();
    assert!(state.last_checkin.is_none());
    assert!(state.last_checkin_request.is_none());
    assert!(state.last_signal_fired.is_none());
    assert_eq!(state.checkin_request_count, 0);
}

#[test]
fn test_app_state_record_checkin() {
    let mut state = AppState::default();
    state.record_checkin();

    assert!(state.last_checkin.is_some());
    assert_eq!(state.checkin_request_count, 0);
}

#[test]
fn test_app_state_record_checkin_request() {
    let mut state = AppState::default();
    state.record_checkin_request();

    assert!(state.last_checkin_request.is_some());
    assert_eq!(state.checkin_request_count, 1);

    state.record_checkin_request();
    assert_eq!(state.checkin_request_count, 2);
}

#[test]
fn test_should_request_checkin() {
    let mut state = AppState::default();
    let seven_days = ConfigDuration::from_days(7);

    // Should request checkin if never checked in
    assert!(state.should_request_checkin(seven_days));

    // Record a checkin
    state.record_checkin();

    // Should not request immediately after checkin
    assert!(!state.should_request_checkin(seven_days));

    // Simulate 8 days ago
    state.last_checkin = Some(days_before(now(), 8));

    // Should request checkin after 7 days
    assert!(state.should_request_checkin(seven_days));
}

#[test]
fn test_should_fire_last_signal() {
    let mut state = AppState::default();
    let fourteen_days = ConfigDuration::from_days(14);

    // Should not fire if no checkin requests made
    assert!(!state.should_fire_last_signal(fourteen_days));

    // Record a checkin request 15 days ago
    state.last_checkin_request = Some(days_before(now(), 15));

    // Should fire after 14 days of no checkin
    assert!(state.should_fire_last_signal(fourteen_days));

    // Record a checkin
    state.record_checkin();

    // Should not fire immediately after checkin
    assert!(!state.should_fire_last_signal(fourteen_days));

    // Simulate 15 days since last checkin
    state.last_checkin = Some(days_before(now(), 15));

    // Should fire after 14 days
    assert!(state.should_fire_last_signal(fourteen_days));
}

#[test]
fn request_due_exactly_at_the_threshold() {
    let t = Timestamp::from_micros(1_700_000_000_000_000);
    let mut state = AppState::new();
    state.record_checkin_at(t);
    let week = ConfigDuration::from_days(7);
    let at = Timestamp::from_micros(t.micros + 7 * DAY_MICROS);
    assert!(state.should_request_checkin_at(week, at));
    let tick_before = Timestamp::from_micros(at.micros - 1);
    assert!(!state.should_request_checkin_at(week, tick_before));
    // Thresholds count whole days: 36 hours acts as one day.
    let hours36 = ConfigDuration::from_hours(36);
    assert!(state.should_request_checkin_at(hours36, Timestamp::from_micros(t.micros + DAY_MICROS)));
}

#[test]
fn manual_checkin_twice_resets_everything() {
    let mut state = AppState::new();
    state.record_checkin_request_at(Timestamp::from_micros(10));
    state.record_checkin_request_at(Timestamp::from_micros(20));
    state.record_last_signal_recipient_notified_at("email:a@example.com", Timestamp::from_micros(30));
    state.record_last_signal_fired_at(Timestamp::from_micros(30));
    state.record_manual_checkin_at(Timestamp::from_micros(40));
    assert_eq!(state.checkin_request_count, 0);
    assert!(state.last_signal_recipients_notified.is_empty());
    assert!(state.last_signal_fired.is_none());
    state.record_manual_checkin_at(Timestamp::from_micros(50));
    assert_eq!(state.checkin_request_count, 0);
    assert_eq!(state.last_checkin, Some(Timestamp::from_micros(50)));
    assert!(state.last_signal_recipients_notified.is_empty());
    assert_eq!(state.last_checkin_request, Some(Timestamp::from_micros(20)));
}

#[test]
fn escalation_rules_and_cool_down() {
    let now = Timestamp::from_micros(1_700_000_000_000_000);
    let two_weeks = ConfigDuration::from_days(14);
    let mut state = AppState::new();
    // Never checked in and never asked: no escalation.
    assert!(!should_escalate(&state, two_weeks, now));
    state.record_checkin_request_at(days_before(now, 14));
    assert!(should_escalate(&state, two_weeks, now));
    state.record_last_signal_fired_at(days_before(now, 13));
    assert!(!should_escalate(&state, two_weeks, now));
    state.record_last_signal_fired_at(days_before(now, 14));
    assert!(should_escalate(&state, two_weeks, now));
    state.record_checkin_at(days_before(now, 13));
    assert!(!state.should_fire_last_signal_at(two_weeks, now));
    assert_eq!(state.days_since_last_checkin_at(now), Some(13));
    // A check-in in the future counts as zero whole days, rounding toward zero.
    state.record_checkin_at(Timestamp::from_micros(now.micros + DAY_MICROS / 2));
    assert_eq!(state.days_since_last_checkin_at(now), Some(0));
    state.record_checkin_at(Timestamp::from_micros(now.micros + 3 * DAY_MICROS / 2));
    assert_eq!(state.days_since_last_checkin_at(now), Some(-1));
}

#[test]
fn pending_recipients_keep_order() {
    let mut state = AppState::new();
    state.record_last_signal_recipient_notified("email:b");
    assert!(state.is_last_signal_recipient_already_notified("email:b"));
    assert!(!state.is_last_signal_recipient_already_notified("email:a"));
    let ids = vec!["email:a".to_string(), "email:b".to_string(), "email:c".to_string()];
    assert_eq!(
        state.get_pending_last_signal_recipients(&ids),
        vec!["email:a".to_string(), "email:c".to_string()]
    );
    assert!(!escalation_complete(&state, &ids));
    state.record_last_signal_fired();
    assert!(!escalation_complete(&state, &ids));
    state.record_last_signal_recipient_notified("email:a");
    state.record_last_signal_recipient_notified("email:c");
    assert!(escalation_complete(&state, &ids));
    state.clear_last_signal_recipient_tracking();
    assert!(state.last_signal_fired.is_none());
    assert!(state.last_signal_recipients_notified.is_empty());
}

#[test]
fn notification_log_keeps_latest_time() {
    let mut log = NotificationLog::new();
    log.insert("x", Timestamp::from_micros(1));
    log.insert("x", Timestamp::from_micros(2));
    assert!(log.contains("x"));
    assert!(!log.contains("y"));
    assert_eq!(log.entries().last().unwrap().1, Timestamp::from_micros(2));
    let log2 = NotificationLog::from_entries(vec![("y".to_string(), Timestamp::from_micros(3))]);
    assert!(log2.contains("y"));
}

#[test]
fn status_snapshot_reports_due_actions() {
    let now = Timestamp::from_micros(1_700_000_000_000_000);
    let mut state = AppState::new();
    state.record_checkin_at(days_before(now, 8));
    let snap = get_status_snapshot(&state, ConfigDuration::from_days(7), ConfigDuration::from_days(14), now);
    assert!(snap.checkin_due);
    assert!(!snap.escalation_due);
    assert_eq!(snap.days_since_checkin, Some(8));
    assert_eq!(snap.days_since_checkin_request, None);
    assert_eq!(state.checkin_watermark(), Some(days_before(now, 8)));
}

#[test]
fn reply_watermark_is_the_later_event() {
    let now = Timestamp::from_micros(1_700_000_000_000_000);
    let mut state = AppState::new();
    assert_eq!(state.checkin_watermark(), None);
    state.record_checkin_request_at(days_before(now, 2));
    assert_eq!(state.checkin_watermark(), Some(days_before(now, 2)));
    state.record_checkin_at(days_before(now, 10));
    assert_eq!(state.checkin_watermark(), Some(days_before(now, 2)));
    state.record_checkin_at(days_before(now, 1));
    assert_eq!(state.checkin_watermark(), Some(days_before(now, 1)));
}
