//! The decisions of the escalation scheduler, taken once per cycle on the
//! lifecycle record, and the read-only status view of that record.

use vstd::prelude::*;
use crate::delivery::{BroadcastOutcome, OutputResult};
use crate::detector::{apply_detection, latest_time, merged, CheckinResponse};
use crate::duration::ConfigDuration;
use crate::state::{
    after_checkin, escalation_due, fired_recently, pending_ids, request_due, string_views, AppState,
};
use crate::timestamp::{days_between, Timestamp};

verus! {

/// Whether the emergency broadcast should run at `now`: it is due and has
/// not run within the cool-down window (the same threshold).
pub fn should_escalate(state: &AppState, threshold: ConfigDuration, now: Timestamp) -> (r: bool)
    ensures
        r == (escalation_due(*state, threshold@, now) && !fired_recently(*state, threshold@, now)),
{
    !state.has_fired_last_signal_recently_at(threshold, now) && state.should_fire_last_signal_at(
        threshold,
        now,
    )
}

/// Whether the program has nothing left to do on start: the broadcast ran
/// and every configured recipient has been reached.
pub fn escalation_complete(state: &AppState, recipient_ids: &[String]) -> (r: bool)
    ensures
        r == (state.last_signal_fired is Some && pending_ids(
            string_views(recipient_ids@),
            state.last_signal_recipients_notified@,
        ).len() == 0),
{
    if state.last_signal_fired.is_none() {
        return false;
    }
    let pending = state.get_pending_last_signal_recipients(recipient_ids);
    pending.len() == 0
}

/// The status view of the lifecycle record at a point in time.
#[derive(Clone, Debug)]
pub struct StatusSnapshot {
    pub last_checkin: Option<Timestamp>,
    pub days_since_checkin: Option<i64>,
    pub last_checkin_request: Option<Timestamp>,
    pub days_since_checkin_request: Option<i64>,
    pub last_signal_fired: Option<Timestamp>,
    pub days_since_signal_fired: Option<i64>,
    pub checkin_request_count: u32,
    pub checkin_due: bool,
    pub escalation_due: bool,
}

pub open spec fn days_since(t: Option<Timestamp>, now: Timestamp) -> Option<i64> {
    match t {
        None => None,
        Some(x) => Some(days_between(x, now) as i64),
    }
}

/// What the record says at `now`, and what a running program would do.
pub fn get_status_snapshot(
    state: &AppState,
    duration_between_checkins: ConfigDuration,
    duration_before_last_signal: ConfigDuration,
    now: Timestamp,
) -> (r: StatusSnapshot)
    ensures
        r.last_checkin == state.last_checkin,
        r.last_checkin_request == state.last_checkin_request,
        r.last_signal_fired == state.last_signal_fired,
        r.days_since_checkin == days_since(state.last_checkin, now),
        r.days_since_checkin_request == days_since(state.last_checkin_request, now),
        r.days_since_signal_fired == days_since(state.last_signal_fired, now),
        r.checkin_request_count == state.checkin_request_count,
        r.checkin_due == request_due(*state, duration_between_checkins@, now),
        r.escalation_due == (escalation_due(*state, duration_before_last_signal@, now)
            && !fired_recently(*state, duration_before_last_signal@, now)),
{
    StatusSnapshot {
        last_checkin: state.last_checkin,
        days_since_checkin: state.days_since_last_checkin_at(now),
        last_checkin_request: state.last_checkin_request,
        days_since_checkin_request: state.days_since_last_checkin_request_at(now),
        last_signal_fired: state.last_signal_fired,
        days_since_signal_fired: state.days_since_last_signal_fired_at(now),
        checkin_request_count: state.checkin_request_count,
        checkin_due: state.should_request_checkin_at(duration_between_checkins, now),
        escalation_due: should_escalate(state, duration_before_last_signal, now),
    }
}

/// The next thing one scheduler cycle asks of its driver.
#[derive(Clone, Copy, Debug, PartialEq, Eq, Structural)]
pub enum CycleAction {
    /// Poll every reply-capable channel; hand the outcomes to `on_polled`.
    PollReplies,
    /// Write the lifecycle record to durable storage; then call `on_persisted`.
    Persist,
    /// Mark every reply-capable channel as consumed up to this time; then
    /// call `on_marked`.
    MarkConsumed(Timestamp),
    /// Deliver the check-in request by ordered fallback; hand the result to
    /// `on_request_sent`.
    RequestCheckin,
    /// Run the emergency broadcast; hand its outcome to `on_broadcast`.
    Escalate,
    /// The cycle is over.
    Done,
}

#[derive(Clone, Copy, Debug, PartialEq, Eq, Structural)]
pub enum CycleStage {
    AwaitingPoll,
    PersistingCheckin,
    AwaitingMark,
    AwaitingRequest,
    PersistingRequest,
    AwaitingBroadcast,
    PersistingEscalation,
    Finished,
}

/// How a cycle ended.
#[derive(Clone, Copy, Debug, PartialEq, Eq, Structural)]
pub enum CycleError {
    /// Nobody was reached by the emergency broadcast although some recipient
    /// is still unreached.
    EscalationFailed { unreached: usize },
}

/// One cycle of the scheduler: detect replies, request a check-in when one
/// is due, and run the emergency broadcast when it is due and not cooling down.
#[derive(Clone, Copy, Debug)]
pub struct CycleRun {
    pub duration_between_checkins: ConfigDuration,
    pub duration_before_last_signal: ConfigDuration,
    pub stage: CycleStage,
    pub checkin_at: Option<Timestamp>,
    pub error: Option<CycleError>,
}

impl CycleRun {
    /// The step that decides on the broadcast, on the record `s` at `now`.
    pub open spec fn escalation_step(self, s: AppState, now: Timestamp, run: CycleRun, a: CycleAction) -> bool {
        if escalation_due(s, self.duration_before_last_signal@, now) && !fired_recently(
            s,
            self.duration_before_last_signal@,
            now,
        ) {
            run == CycleRun { stage: CycleStage::AwaitingBroadcast, ..self } && a
                == CycleAction::Escalate
        } else {
            run == CycleRun { stage: CycleStage::Finished, ..self } && a == CycleAction::Done
        }
    }

    /// The step that decides on a check-in request, then on the broadcast.
    pub open spec fn request_step(self, s: AppState, now: Timestamp, run: CycleRun, a: CycleAction) -> bool {
        if request_due(s, self.duration_between_checkins@, now) {
            run == CycleRun { stage: CycleStage::AwaitingRequest, ..self } && a
                == CycleAction::RequestCheckin
        } else {
            self.escalation_step(s, now, run, a)
        }
    }

    pub fn start(
        duration_between_checkins: ConfigDuration,
        duration_before_last_signal: ConfigDuration,
    ) -> (r: (CycleRun, CycleAction))
        ensures
            r.0 == (CycleRun {
                duration_between_checkins,
                duration_before_last_signal,
                stage: CycleStage::AwaitingPoll,
                checkin_at: None,
                error: None,
            }),
            r.1 == CycleAction::PollReplies,
    {
        (
            CycleRun {
                duration_between_checkins,
                duration_before_last_signal,
                stage: CycleStage::AwaitingPoll,
                checkin_at: None,
                error: None,
            },
            CycleAction::PollReplies,
        )
    }

    fn decide_escalation(&mut self, state: &AppState, now: Timestamp) -> (a: CycleAction)
        ensures
            old(self).escalation_step(*state, now, *final(self), a),
    {
        if should_escalate(state, self.duration_before_last_signal, now) {
            self.stage = CycleStage::AwaitingBroadcast;
            CycleAction::Escalate
        } else {
            self.stage = CycleStage::Finished;
            CycleAction::Done
        }
    }

    fn decide_request(&mut self, state: &AppState, now: Timestamp) -> (a: CycleAction)
        ensures
            old(self).request_step(*state, now, *final(self), a),
    {
        if state.should_request_checkin_at(self.duration_between_checkins, now) {
            self.stage = CycleStage::AwaitingRequest;
            CycleAction::RequestCheckin
        } else {
            self.decide_escalation(state, now)
        }
    }

    /// Takes the outcomes of polling every reply-capable channel (a failed
    /// poll is tolerated). With a reply, a check-in is recorded at the
    /// newest one's time and must be persisted; otherwise the cycle goes on
    /// to the request decision at `now`.
    pub fn on_polled(
        &mut self,
        polls: Vec<Result<Vec<CheckinResponse>, String>>,
        state: &mut AppState,
        now: Timestamp,
    ) -> (a: CycleAction)
        requires
            old(self).stage == CycleStage::AwaitingPoll,
        ensures
            match latest_time(merged(polls@)) {
                Some(t) => *final(state) == after_checkin(*old(state), t) && *final(self) == (
                CycleRun { stage: CycleStage::PersistingCheckin, checkin_at: Some(t), ..*old(self) })
                    && a == CycleAction::Persist,
                None => *final(state) == *old(state) && old(self).request_step(
                    *old(state),
                    now,
                    *final(self),
                    a,
                ),
            },
    {
        match apply_detection(state, polls) {
            Some(t) => {
                self.stage = CycleStage::PersistingCheckin;
                self.checkin_at = Some(t);
                CycleAction::Persist
            },
            None => self.decide_request(state, now),
        }
    }

    /// Goes on once the record was persisted: after a detected check-in the
    /// channels are marked as consumed; after a request the broadcast is
    /// decided at `now`; after a broadcast the cycle is over.
    pub fn on_persisted(&mut self, state: &AppState, now: Timestamp) -> (a: CycleAction)
        requires
            old(self).stage == CycleStage::PersistingCheckin || old(self).stage
                == CycleStage::PersistingRequest || old(self).stage
                == CycleStage::PersistingEscalation,
            old(self).stage == CycleStage::PersistingCheckin ==> old(self).checkin_at is Some,
        ensures
            old(self).stage == CycleStage::PersistingCheckin ==> *final(self) == (CycleRun {
                stage: CycleStage::AwaitingMark,
                ..*old(self)
            }) && a == CycleAction::MarkConsumed(old(self).checkin_at->0),
            old(self).stage == CycleStage::PersistingRequest ==> old(self).escalation_step(
                *state,
                now,
                *final(self),
                a,
            ),
            old(self).stage == CycleStage::PersistingEscalation ==> *final(self) == (CycleRun {
                stage: CycleStage::Finished,
                ..*old(self)
            }) && a == CycleAction::Done,
    {
        match self.stage {
            CycleStage::PersistingCheckin => {
                self.stage = CycleStage::AwaitingMark;
                match self.checkin_at {
                    Some(t) => CycleAction::MarkConsumed(t),
                    None => CycleAction::Done,
                }
            },
            CycleStage::PersistingRequest => self.decide_escalation(state, now),
            _ => {
                self.stage = CycleStage::Finished;
                CycleAction::Done
            },
        }
    }

    /// Goes on to the request decision at `now` once every channel was marked.
    pub fn on_marked(&mut self, state: &AppState, now: Timestamp) -> (a: CycleAction)
        requires
            old(self).stage == CycleStage::AwaitingMark,
        ensures
            old(self).request_step(*state, now, *final(self), a),
    {
        self.decide_request(state, now)
    }

    /// Takes the result of the check-in request. The request is recorded at
    /// `now` whatever the delivery gave, so that the cadence advances, and
    /// must be persisted; the request counter stops at its largest value.
    pub fn on_request_sent(&mut self, result: &OutputResult, state: &mut AppState, now: Timestamp) -> (a:
        CycleAction)
        requires
            old(self).stage == CycleStage::AwaitingRequest,
        ensures
            *final(state) == (AppState {
                last_checkin_request: Some(now),
                checkin_request_count: if old(state).checkin_request_count < u32::MAX {
                    (old(state).checkin_request_count + 1) as u32
                } else {
                    u32::MAX
                },
                ..*old(state)
            }),
            *final(self) == (CycleRun { stage: CycleStage::PersistingRequest, ..*old(self) }),
            a == CycleAction::Persist,
    {
        if state.checkin_request_count < u32::MAX {
            state.record_checkin_request_at(now);
        } else {
            state.last_checkin_request = Some(now);
        }
        self.stage = CycleStage::PersistingRequest;
        CycleAction::Persist
    }

    /// Takes the outcome of the broadcast: a broadcast that reached someone
    /// new counts as fired at `now` and must be persisted; one where all had
    /// been reached before changes nothing; one that reached nobody while
    /// some recipient is unreached ends the cycle with an error.
    pub fn on_broadcast(&mut self, outcome: BroadcastOutcome, state: &mut AppState, now: Timestamp) -> (a:
        CycleAction)
        requires
            old(self).stage == CycleStage::AwaitingBroadcast,
        ensures
            match outcome {
                BroadcastOutcome::Fired => *final(state) == (AppState {
                    last_signal_fired: Some(now),
                    ..*old(state)
                }) && *final(self) == (CycleRun {
                    stage: CycleStage::PersistingEscalation,
                    ..*old(self)
                }) && a == CycleAction::Persist,
                BroadcastOutcome::AlreadyComplete => *final(state) == *old(state) && *final(self)
                    == (CycleRun { stage: CycleStage::Finished, ..*old(self) }) && a
                    == CycleAction::Done,
                BroadcastOutcome::Failed { unreached } => *final(state) == *old(state)
                    && *final(self) == (CycleRun {
                    stage: CycleStage::Finished,
                    error: Some(CycleError::EscalationFailed { unreached }),
                    ..*old(self)
                }) && a == CycleAction::Done,
            },
    {
        match outcome {
            BroadcastOutcome::Fired => {
                state.record_last_signal_fired_at(now);
                self.stage = CycleStage::PersistingEscalation;
                CycleAction::Persist
            },
            BroadcastOutcome::AlreadyComplete => {
                self.stage = CycleStage::Finished;
                CycleAction::Done
            },
            BroadcastOutcome::Failed { unreached } => {
                self.stage = CycleStage::Finished;
                self.error = Some(CycleError::EscalationFailed { unreached });
                CycleAction::Done
            },
        }
    }
}

} // verus!
