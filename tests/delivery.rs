use lastsignal::delivery::{
    BroadcastAction, BroadcastOutcome, BroadcastRun, DeliveryKind, FallbackAction, FallbackRun,
    OutputResult, ALL_FAILED, CHECKIN_ALL_FAILED, CHECKIN_NO_OUTPUTS, NO_OUTPUTS,
};
use lastsignal::detector::{apply_detection, merge_responses, CheckinResponse};
use lastsignal::state::{AppState, NotificationLog};
use lastsignal::timestamp::Timestamp;

/// A scripted channel: its health check outcome and its send outcome.
struct Scripted {
    name: &'static str,
    health: Result<bool, String>,
    send: Result<OutputResult, String>,
}

fn ch(name: &'static str, health: bool, send: OutputResult) -> Scripted {
    Scripted { name, health: Ok(health), send: Ok(send) }
}

fn fail(m: &str) -> OutputResult {
    OutputResult::Failed(m.to_string())
}

/// Runs ordered fallback against scripted channels; returns the trace of
/// channel operations and the final result.
fn run_fallback(channels: &[Scripted]) -> (Vec<String>, OutputResult) {
    run_fallback_with(channels, NO_OUTPUTS, ALL_FAILED)
}

fn run_fallback_with(channels: &[Scripted], no_outputs: &str, all_failed: &str) -> (Vec<String>, OutputResult) {
    let mut trace = Vec::new();
    let (mut run, mut action) = FallbackRun::start(channels.len(), no_outputs, all_failed);
    loop {
        action = match action {
            FallbackAction::CheckHealth(i) => {
                trace.push(format!("health {}", channels[i].name));
                run.on_health(channels[i].health.clone())
            }
            FallbackAction::Send(i) => {
                trace.push(format!("send {}", channels[i].name));
                run.on_send(channels[i].send.clone())
            }
            FallbackAction::Finish(r) => return (trace, r),
        };
    }
}

/// Runs a broadcast against scripted channels; returns the trace, the run,
/// and the number of times the record was persisted.
fn run_broadcast(
    channels: &[Scripted],
    ids: &[&str],
    dedup: bool,
    state: &mut AppState,
) -> (Vec<String>, BroadcastRun, usize) {
    let names = channels.iter().map(|c| c.name.to_string()).collect();
    let ids = ids.iter().map(|s| s.to_string()).collect();
    let mut trace = Vec::new();
    let mut persisted = 0;
    let (mut run, mut action) = BroadcastRun::start(names, ids, dedup, &state.last_signal_recipients_notified);
    loop {
        action = match action {
            BroadcastAction::CheckHealth(i) => {
                trace.push(format!("health {}", channels[i].name));
                run.on_health(channels[i].health.clone(), &state.last_signal_recipients_notified)
            }
            BroadcastAction::Send(i) => {
                trace.push(format!("send {}", channels[i].name));
                run.on_send(channels[i].send.clone(), state, Timestamp::from_micros(99))
            }
            BroadcastAction::Persist => {
                persisted += 1;
                run.on_persisted(&state.last_signal_recipients_notified)
            }
            BroadcastAction::Finish => return (trace, run, persisted),
        };
    }
}

#[test]
fn test_process_outputs_success_on_first() {
    let outputs = [ch("first", true, OutputResult::Success), ch("second", true, fail("Mock failure"))];
    let (_, result) = run_fallback(&outputs);
    assert!(result.is_success());
}

#[test]
fn test_process_outputs_fallback_to_second() {
    let outputs = [ch("first", true, fail("Mock failure")), ch("second", true, OutputResult::Success)];
    let (_, result) = run_fallback(&outputs);
    assert!(result.is_success());
}

#[test]
fn test_process_outputs_skip_unhealthy() {
    let outputs = [ch("unhealthy", false, OutputResult::Success), ch("healthy", true, OutputResult::Success)];
    let (_, result) = run_fallback(&outputs);
    assert!(result.is_success());
}

#[test]
fn test_process_outputs_all_fail() {
    let outputs = [ch("first", true, fail("Mock failure")), ch("second", true, fail("Mock failure"))];
    let (_, result) = run_fallback(&outputs);
    assert!(!result.is_success());
    assert!(result.error_message().unwrap().contains("All outputs failed"));
}

#[test]
fn fallback_tie_break_stops_at_first_success() {
    let outputs = [
        ch("X", false, OutputResult::Success),
        ch("Y", true, fail("down")),
        ch("Z", true, OutputResult::Success),
        ch("W", true, OutputResult::Success),
    ];
    let (trace, result) = run_fallback(&outputs);
    assert_eq!(trace, vec!["health X", "health Y", "send Y", "health Z", "send Z"]);
    assert!(matches!(result, OutputResult::Success));
}

#[test]
fn fallback_edge_cases() {
    let (trace, result) = run_fallback(&[]);
    assert!(trace.is_empty());
    assert_eq!(result.error_message(), Some("No outputs configured"));
    // A deliberate skip ends the run as it is.
    let outputs = [
        ch("a", true, OutputResult::Skipped("check-only".to_string())),
        ch("b", true, OutputResult::Success),
    ];
    let (trace, result) = run_fallback(&outputs);
    assert_eq!(trace, vec!["health a", "send a"]);
    assert_eq!(result.error_message(), Some("check-only"));
    // Errors count as failures.
    let outputs = [
        Scripted { name: "a", health: Err("timeout".to_string()), send: Ok(OutputResult::Success) },
        Scripted { name: "b", health: Ok(true), send: Err("refused".to_string()) },
    ];
    let (trace, result) = run_fallback(&outputs);
    assert_eq!(trace, vec!["health a", "health b", "send b"]);
    assert_eq!(result.error_message(), Some("All outputs failed"));
}

#[test]
fn checkin_requests_report_their_own_exhaustion_texts() {
    let (_, result) = run_fallback_with(&[], CHECKIN_NO_OUTPUTS, CHECKIN_ALL_FAILED);
    assert_eq!(result.error_message(), Some("No checkin outputs configured"));
    let outputs = [ch("a", false, OutputResult::Success), ch("b", true, fail("down"))];
    let (trace, result) = run_fallback_with(&outputs, CHECKIN_NO_OUTPUTS, CHECKIN_ALL_FAILED);
    assert_eq!(trace, vec!["health a", "health b", "send b"]);
    assert_eq!(result.error_message(), Some("All checkin outputs failed"));
}

#[test]
fn test_process_outputs_to_all_sends_to_all_recipients() {
    let outputs = [
        ch("Output1", true, OutputResult::Success),
        ch("Output2", true, OutputResult::Success),
        ch("Output3", true, fail("Mock failure")),
    ];
    let mut scratch = AppState::new();
    let (_, run, persisted) = run_broadcast(&outputs, &["Output1", "Output2", "Output3"], false, &mut scratch);
    let results = run.results();
    assert_eq!(results.len(), 3);
    assert_eq!(results[0].0, "Output1");
    assert!(matches!(results[0].2, OutputResult::Success));
    assert_eq!(results[1].0, "Output2");
    assert!(matches!(results[1].2, OutputResult::Success));
    assert_eq!(results[2].0, "Output3");
    assert!(matches!(results[2].2, OutputResult::Failed(_)));
    assert_eq!(persisted, 0);
    assert!(scratch.last_signal_recipients_notified.is_empty());
}

#[test]
fn test_process_outputs_to_all_handles_health_check_failures() {
    let outputs = [
        ch("HealthyOutput", true, OutputResult::Success),
        ch("UnhealthyOutput", false, OutputResult::Success),
    ];
    let mut scratch = AppState::new();
    let (_, run, _) = run_broadcast(&outputs, &["h", "u"], false, &mut scratch);
    let results = run.results();
    assert_eq!(results.len(), 2);
    assert!(matches!(results[0].2, OutputResult::Success));
    assert!(matches!(results[1].2, OutputResult::Skipped(_)));
}

#[test]
fn broadcast_never_contacts_reached_recipients() {
    let mut state = AppState::new();
    state.record_last_signal_recipient_notified_at("email:b", Timestamp::from_micros(1));
    let outputs = [
        ch("a", true, OutputResult::Success),
        ch("b", true, OutputResult::Success),
        ch("c", true, fail("down")),
    ];
    let (trace, run, persisted) = run_broadcast(&outputs, &["email:a", "email:b", "email:c"], true, &mut state);
    assert_eq!(trace, vec!["health a", "send a", "health c", "send c"]);
    assert_eq!(persisted, 1);
    let results = run.results();
    assert_eq!(results[1].1, "email:b");
    assert_eq!(results[1].2.error_message(), Some("Recipient already notified"));
    assert!(state.is_last_signal_recipient_already_notified("email:a"));
    assert!(!state.is_last_signal_recipient_already_notified("email:c"));
    assert_eq!(
        run.kinds(),
        &vec![DeliveryKind::Reached, DeliveryKind::AlreadyNotified, DeliveryKind::Unreached]
    );
    assert_eq!(run.outcome(), BroadcastOutcome::Fired);
}

#[test]
fn broadcast_all_already_notified_is_a_no_op() {
    let mut state = AppState::new();
    state.record_last_signal_recipient_notified_at("A", Timestamp::from_micros(1));
    state.record_last_signal_recipient_notified_at("B", Timestamp::from_micros(2));
    let outputs = [ch("a", true, OutputResult::Success), ch("b", true, OutputResult::Success)];
    let (trace, run, persisted) = run_broadcast(&outputs, &["A", "B"], true, &mut state);
    assert!(trace.is_empty());
    assert_eq!(persisted, 0);
    assert_eq!(run.outcome(), BroadcastOutcome::AlreadyComplete);
    assert!(state.last_signal_fired.is_none());
}

#[test]
fn broadcast_nobody_reached_is_an_error() {
    let mut state = AppState::new();
    let outputs = [ch("a", false, OutputResult::Success), ch("b", true, fail("smtp down"))];
    let (trace, run, _) = run_broadcast(&outputs, &["A", "B"], true, &mut state);
    assert_eq!(trace, vec!["health a", "health b", "send b"]);
    assert_eq!(run.outcome(), BroadcastOutcome::Failed { unreached: 2 });
    assert_eq!(run.results()[0].2.error_message(), Some("Health check failed"));
    assert!(state.last_signal_fired.is_none());
    assert!(state.last_signal_recipients_notified.is_empty());
}

#[test]
fn broadcast_send_error_is_recorded_as_failure() {
    let mut state = AppState::new();
    let outputs = [Scripted { name: "a", health: Ok(true), send: Err("boom".to_string()) }];
    let (_, run, _) = run_broadcast(&outputs, &["A"], true, &mut state);
    assert_eq!(run.results()[0].2.error_message(), Some("Error sending message: boom"));
    let (_, run, _) = run_broadcast(&[], &[], true, &mut state);
    assert!(run.is_finished());
    assert_eq!(run.outcome(), BroadcastOutcome::AlreadyComplete);
}

#[test]
fn broadcast_repeated_recipient_is_reached_once() {
    let mut state = AppState::new();
    let outputs = [ch("a", true, OutputResult::Success), ch("a2", true, OutputResult::Success)];
    let (trace, run, persisted) = run_broadcast(&outputs, &["A", "A"], true, &mut state);
    assert_eq!(trace, vec!["health a", "send a"]);
    assert_eq!(persisted, 1);
    assert_eq!(run.into_results()[1].2.error_message(), Some("Recipient already notified"));
}

fn found(micros: i64, from: &str) -> CheckinResponse {
    CheckinResponse::Found {
        timestamp: Timestamp::from_micros(micros),
        subject: "RE: LastSignal Notification".to_string(),
        from: from.to_string(),
    }
}

#[test]
fn detector_takes_the_newest_reply() {
    let t1 = 1_700_000_000_000_000i64; // 10:00
    let t2 = t1 + 5 * 60 * 1_000_000; // 10:05
    let mut state = AppState::new();
    state.record_checkin_request_at(Timestamp::from_micros(t1 - 1));
    let polls = vec![Ok(vec![found(t1, "x")]), Ok(vec![found(t2, "y")])];
    let marked = apply_detection(&mut state, polls);
    assert_eq!(marked, Some(Timestamp::from_micros(t2)));
    assert_eq!(state.last_checkin, Some(Timestamp::from_micros(t2)));
    assert_eq!(state.checkin_request_count, 0);
}

#[test]
fn detector_tolerates_failed_polls_and_silence() {
    let mut state = AppState::new();
    let polls = vec![Err("imap down".to_string()), Ok(vec![CheckinResponse::NoResponse])];
    assert_eq!(apply_detection(&mut state, polls), None);
    assert!(state.last_checkin.is_none());
    let polls = vec![Err("imap down".to_string()), Ok(vec![found(5, "a"), found(3, "b")]), Ok(vec![])];
    let merged = merge_responses(polls);
    assert_eq!(merged.len(), 2);
    let polls = vec![Err("imap down".to_string()), Ok(vec![found(5, "a"), found(3, "b")])];
    assert_eq!(apply_detection(&mut state, polls), Some(Timestamp::from_micros(5)));
}

#[test]
fn broadcast_keeps_its_start_record_even_if_later_logs_forget() {
    let mut state = AppState::new();
    state.record_last_signal_recipient_notified_at("B", Timestamp::from_micros(1));
    let names = vec!["a".to_string(), "b".to_string()];
    let ids = vec!["A".to_string(), "B".to_string()];
    let (mut run, action) = BroadcastRun::start(names, ids, true, &state.last_signal_recipients_notified);
    assert_eq!(action, BroadcastAction::CheckHealth(0));
    // A log that no longer lists B must not make the run contact it.
    let empty = NotificationLog::new();
    let action = run.on_health(Ok(false), &empty);
    assert_eq!(action, BroadcastAction::Finish);
    assert_eq!(run.results()[1].2.error_message(), Some("Recipient already notified"));
    assert_eq!(run.outcome(), BroadcastOutcome::Failed { unreached: 1 });
}
