//! The two delivery algorithms over an ordered list of channels, as step
//! machines: the caller performs each requested channel operation and hands
//! its outcome back, so every decision is made here.
//!
//! Ordered fallback serves check-in requests: the first healthy channel that
//! does not fail wins. Broadcast serves the emergency message: every recipient
//! is tried once, recipients already reached are never contacted again, and
//! each new success is persisted before the next recipient is tried.

use vstd::prelude::*;
use crate::state::{AppState, NotificationLog};
use crate::timestamp::Timestamp;

verus! {

/// What one channel operation produced.
#[derive(Clone, Debug)]
pub enum OutputResult {
    Success,
    Failed(String),
    Skipped(String),
}

impl OutputResult {
    pub fn is_success(&self) -> (r: bool)
        ensures
            r == (*self is Success),
    {
        match self {
            OutputResult::Success => true,
            _ => false,
        }
    }

    pub fn error_message(&self) -> (r: Option<&str>)
        ensures
            match *self {
                OutputResult::Success => r is None,
                OutputResult::Failed(m) => r is Some && r->0@ == m@,
                OutputResult::Skipped(m) => r is Some && r->0@ == m@,
            },
    {
        match self {
            OutputResult::Success => None,
            OutputResult::Failed(msg) => Some(msg.as_str()),
            OutputResult::Skipped(msg) => Some(msg.as_str()),
        }
    }
}

pub open spec fn is_failed_with(r: OutputResult, msg: Seq<char>) -> bool {
    r matches OutputResult::Failed(m) && m@ == msg
}

pub open spec fn is_skipped_with(r: OutputResult, msg: Seq<char>) -> bool {
    r matches OutputResult::Skipped(m) && m@ == msg
}

pub const NO_OUTPUTS: &'static str = "No outputs configured";

pub const ALL_FAILED: &'static str = "All outputs failed";

pub const CHECKIN_NO_OUTPUTS: &'static str = "No checkin outputs configured";

pub const CHECKIN_ALL_FAILED: &'static str = "All checkin outputs failed";

pub const ALREADY_NOTIFIED: &'static str = "Recipient already notified";

pub const HEALTH_CHECK_FAILED: &'static str = "Health check failed";

pub const SEND_ERROR_PREFIX: &'static str = "Error sending message: ";

// ---------------------------------------------------------------------------
// Ordered fallback
// ---------------------------------------------------------------------------

#[derive(Clone, Copy, Debug, PartialEq, Eq, Structural)]
pub enum FallbackStage {
    AwaitingHealth,
    AwaitingSend,
    Finished,
}

/// The next channel operation that a fallback run asks for.
#[derive(Clone, Debug)]
pub enum FallbackAction {
    /// Run the health check of channel `i`.
    CheckHealth(usize),
    /// Send the message through channel `i`.
    Send(usize),
    /// The run is over with this result; no channel is touched again.
    Finish(OutputResult),
}

pub open spec fn finishes_failed(a: FallbackAction, msg: Seq<char>) -> bool {
    a matches FallbackAction::Finish(r) && is_failed_with(r, msg)
}

/// A run of ordered-fallback delivery over `count` channels.
#[derive(Clone, Debug)]
pub struct FallbackRun {
    pub count: usize,
    pub current: usize,
    pub stage: FallbackStage,
    /// The failure text when there is no channel at all.
    pub no_outputs: String,
    /// The failure text when every channel was passed over.
    pub all_failed: String,
}

impl FallbackRun {
    pub open spec fn wf(self) -> bool {
        self.stage != FallbackStage::Finished ==> self.current < self.count
    }

    /// Moving past the current channel: the next one's health check, or the
    /// end of the list.
    pub open spec fn moved_on(old_run: FallbackRun, run: FallbackRun, a: FallbackAction) -> bool {
        if old_run.current + 1 < old_run.count {
            &&& run == FallbackRun {
                current: (old_run.current + 1) as usize,
                stage: FallbackStage::AwaitingHealth,
                ..old_run
            }
            &&& a == FallbackAction::CheckHealth((old_run.current + 1) as usize)
        } else {
            &&& run == FallbackRun { stage: FallbackStage::Finished, ..old_run }
            &&& finishes_failed(a, old_run.all_failed@)
        }
    }

    /// Starts a run over `count` channels, taken in order. The run fails with
    /// `no_outputs` when there is no channel and with `all_failed` when every
    /// channel was passed over.
    pub fn start(count: usize, no_outputs: &str, all_failed: &str) -> (r: (FallbackRun, FallbackAction))
        ensures
            r.0.wf(),
            r.0.count == count,
            r.0.current == 0,
            r.0.no_outputs@ == no_outputs@,
            r.0.all_failed@ == all_failed@,
            count == 0 ==> r.0.stage == FallbackStage::Finished && finishes_failed(r.1, no_outputs@),
            count > 0 ==> r.0.stage == FallbackStage::AwaitingHealth && r.1
                == FallbackAction::CheckHealth(0),
    {
        let run = FallbackRun {
            count,
            current: 0,
            stage: FallbackStage::AwaitingHealth,
            no_outputs: no_outputs.to_string(),
            all_failed: all_failed.to_string(),
        };
        if count == 0 {
            let failed = FallbackAction::Finish(OutputResult::Failed(no_outputs.to_string()));
            (FallbackRun { stage: FallbackStage::Finished, ..run }, failed)
        } else {
            (run, FallbackAction::CheckHealth(0))
        }
    }

    fn move_on(&mut self) -> (a: FallbackAction)
        requires
            old(self).current < old(self).count,
        ensures
            final(self).wf(),
            FallbackRun::moved_on(*old(self), *final(self), a),
    {
        if self.current + 1 < self.count {
            self.current = self.current + 1;
            self.stage = FallbackStage::AwaitingHealth;
            FallbackAction::CheckHealth(self.current)
        } else {
            self.stage = FallbackStage::Finished;
            FallbackAction::Finish(OutputResult::Failed(self.all_failed.clone()))
        }
    }

    /// Takes the outcome of the current channel's health check: a healthy
    /// channel is asked to send; an unhealthy or failing one is passed over.
    pub fn on_health(&mut self, outcome: Result<bool, String>) -> (a: FallbackAction)
        requires
            old(self).wf(),
            old(self).stage == FallbackStage::AwaitingHealth,
        ensures
            final(self).wf(),
            outcome == Ok::<bool, String>(true) ==> *final(self) == (FallbackRun {
                stage: FallbackStage::AwaitingSend,
                ..*old(self)
            }) && a == FallbackAction::Send(old(self).current),
            outcome != Ok::<bool, String>(true) ==> FallbackRun::moved_on(*old(self), *final(self), a),
    {
        match outcome {
            Ok(true) => {
                self.stage = FallbackStage::AwaitingSend;
                FallbackAction::Send(self.current)
            },
            _ => self.move_on(),
        }
    }

    /// Takes the outcome of the current channel's send: success ends the run
    /// with `Success`, a deliberate skip ends it with that skip, and a failure
    /// or error moves on to the next channel.
    pub fn on_send(&mut self, outcome: Result<OutputResult, String>) -> (a: FallbackAction)
        requires
            old(self).wf(),
            old(self).stage == FallbackStage::AwaitingSend,
        ensures
            final(self).wf(),
            final(self).count == old(self).count,
            match outcome {
                Ok(OutputResult::Success) => *final(self) == (FallbackRun {
                    stage: FallbackStage::Finished,
                    ..*old(self)
                }) && a == FallbackAction::Finish(OutputResult::Success),
                Ok(OutputResult::Skipped(reason)) => *final(self) == (FallbackRun {
                    stage: FallbackStage::Finished,
                    ..*old(self)
                }) && a == FallbackAction::Finish(OutputResult::Skipped(reason)),
                _ => FallbackRun::moved_on(*old(self), *final(self), a),
            },
    {
        match outcome {
            Ok(OutputResult::Success) => {
                self.stage = FallbackStage::Finished;
                FallbackAction::Finish(OutputResult::Success)
            },
            Ok(OutputResult::Skipped(reason)) => {
                self.stage = FallbackStage::Finished;
                FallbackAction::Finish(OutputResult::Skipped(reason))
            },
            _ => self.move_on(),
        }
    }
}

// ---------------------------------------------------------------------------
// Broadcast to every recipient
// ---------------------------------------------------------------------------

/// How one recipient fared in a broadcast.
#[derive(Clone, Copy, Debug, PartialEq, Eq, Structural)]
pub enum DeliveryKind {
    /// Reached by this run.
    Reached,
    /// Reached by an earlier run; not contacted.
    AlreadyNotified,
    /// Tried and not reached.
    Unreached,
}

#[derive(Clone, Copy, Debug, PartialEq, Eq, Structural)]
pub enum BroadcastStage {
    AwaitingHealth,
    AwaitingSend,
    AwaitingPersist,
    Finished,
}

/// The next operation that a broadcast run asks for.
#[derive(Clone, Copy, Debug, PartialEq, Eq, Structural)]
pub enum BroadcastAction {
    /// Run the health check of recipient `i`'s channel.
    CheckHealth(usize),
    /// Send the message through recipient `i`'s channel.
    Send(usize),
    /// Write the lifecycle record to durable storage before going on.
    Persist,
    /// Every recipient has been dealt with.
    Finish,
}

/// What the escalation amounts to once a broadcast is over.
#[derive(Clone, Copy, Debug, PartialEq, Eq, Structural)]
pub enum BroadcastOutcome {
    /// At least one recipient was newly reached: the escalation counts as fired.
    Fired,
    /// Every recipient had been reached before: nothing to do, and no error.
    AlreadyComplete,
    /// Some recipient is still unreached and none was reached by this run.
    Failed { unreached: usize },
}

/// A run of the broadcast over the recipients `recipient_ids`, whose channels
/// are named `names`. A deduplicating run skips recipients that the lifecycle
/// record lists as reached and records each new success there.
pub struct BroadcastRun {
    names: Vec<String>,
    recipient_ids: Vec<String>,
    dedup: bool,
    current: usize,
    stage: BroadcastStage,
    results: Vec<(String, String, OutputResult)>,
    kinds: Vec<DeliveryKind>,
    /// The recipients that the record listed as reached when the run started
    /// (none for a run without deduplication).
    reached_before: NotificationLog,
    /// The indices of the recipients that the run has asked to health-check
    /// (and so possibly to send to).
    contacted: Ghost<Set<int>>,
}

pub open spec fn count_kind(kinds: Seq<DeliveryKind>, k: DeliveryKind) -> nat
    decreases kinds.len(),
{
    if kinds.len() == 0 {
        0
    } else {
        count_kind(kinds.drop_last(), k) + if kinds.last() == k {
            1nat
        } else {
            0nat
        }
    }
}

/// The escalation rule over the recipients' fates.
pub open spec fn outcome_of(kinds: Seq<DeliveryKind>) -> BroadcastOutcome {
    if count_kind(kinds, DeliveryKind::Reached) > 0 {
        BroadcastOutcome::Fired
    } else if count_kind(kinds, DeliveryKind::Unreached) == 0 {
        BroadcastOutcome::AlreadyComplete
    } else {
        BroadcastOutcome::Failed { unreached: count_kind(kinds, DeliveryKind::Unreached) as usize }
    }
}

/// The result recorded for a recipient of the given fate is consistent with it.
pub open spec fn result_fits(kind: DeliveryKind, r: OutputResult) -> bool {
    match kind {
        DeliveryKind::Reached => r is Success,
        DeliveryKind::AlreadyNotified => is_skipped_with(r, ALREADY_NOTIFIED@),
        DeliveryKind::Unreached => !(r is Success),
    }
}

proof fn lemma_count_kind_bound(kinds: Seq<DeliveryKind>, k: DeliveryKind)
    ensures
        count_kind(kinds, k) <= kinds.len(),
    decreases kinds.len(),
{
    if kinds.len() > 0 {
        lemma_count_kind_bound(kinds.drop_last(), k);
    }
}

spec fn entry_fits(
    names: Seq<String>,
    ids: Seq<String>,
    dedup: bool,
    results: Seq<(String, String, OutputResult)>,
    kinds: Seq<DeliveryKind>,
    j: int,
) -> bool {
    &&& results[j].0 == names[j]
    &&& results[j].1 == ids[j]
    &&& result_fits(kinds[j], results[j].2)
    &&& (kinds[j] == DeliveryKind::AlreadyNotified ==> dedup)
}

spec fn entries_fit(
    names: Seq<String>,
    ids: Seq<String>,
    dedup: bool,
    results: Seq<(String, String, OutputResult)>,
    kinds: Seq<DeliveryKind>,
    upto: int,
) -> bool {
    forall|j: int| 0 <= j < upto ==> #[trigger] entry_fits(names, ids, dedup, results, kinds, j)
}

/// Every recipient dealt with that was reached before the run is recorded as such.
spec fn reached_fit(
    ids: Seq<String>,
    dedup: bool,
    reached: Map<Seq<char>, Timestamp>,
    kinds: Seq<DeliveryKind>,
    upto: int,
) -> bool {
    forall|j: int|
        0 <= j < upto && dedup && reached.contains_key((#[trigger] ids[j])@) ==> kinds[j]
            == DeliveryKind::AlreadyNotified
}

/// Every recipient the run asked to contact exists and was not reached before the run.
spec fn contacted_fit(
    contacted: Set<int>,
    n: int,
    ids: Seq<String>,
    dedup: bool,
    reached: Map<Seq<char>, Timestamp>,
) -> bool {
    forall|j: int|
        #[trigger] contacted.contains(j) ==> 0 <= j < n && !(dedup && reached.contains_key(ids[j]@))
}

impl BroadcastRun {
    /// The recipients listed as reached when the run started (empty without deduplication).
    pub closed spec fn spec_reached_before(&self) -> Map<Seq<char>, Timestamp> {
        self.reached_before@
    }

    /// The indices of the recipients the run has asked to health-check or send to.
    pub closed spec fn spec_contacted(&self) -> Set<int> {
        self.contacted@
    }

    pub closed spec fn spec_names(&self) -> Seq<String> {
        self.names@
    }

    pub closed spec fn spec_recipient_ids(&self) -> Seq<String> {
        self.recipient_ids@
    }

    pub closed spec fn spec_dedup(&self) -> bool {
        self.dedup
    }

    /// Index of the recipient being dealt with (the number dealt with so far).
    pub closed spec fn spec_current(&self) -> nat {
        self.current as nat
    }

    pub closed spec fn spec_stage(&self) -> BroadcastStage {
        self.stage
    }

    /// One entry per recipient dealt with: channel name, recipient id, result.
    pub closed spec fn spec_results(&self) -> Seq<(String, String, OutputResult)> {
        self.results@
    }

    /// The fate of each recipient dealt with.
    pub closed spec fn spec_kinds(&self) -> Seq<DeliveryKind> {
        self.kinds@
    }

    pub closed spec fn wf(&self) -> bool {
        &&& self.names@.len() == self.recipient_ids@.len()
        &&& self.results@.len() == self.current
        &&& self.kinds@.len() == self.current
        &&& self.current <= self.names@.len()
        &&& (self.stage == BroadcastStage::Finished <==> self.current == self.names@.len()
            && self.stage != BroadcastStage::AwaitingPersist)
        &&& (self.stage == BroadcastStage::AwaitingPersist ==> self.current > 0)
        &&& self.entries_ok()
        &&& self.reached_ok()
        &&& self.contacted_ok()
        &&& (self.stage == BroadcastStage::AwaitingHealth || self.stage
            == BroadcastStage::AwaitingSend ==> self.contacted@.contains(self.current as int))
    }

    pub closed spec fn reached_ok(&self) -> bool {
        reached_fit(
            self.recipient_ids@,
            self.dedup,
            self.reached_before@,
            self.kinds@,
            self.current as int,
        )
    }

    pub closed spec fn contacted_ok(&self) -> bool {
        contacted_fit(
            self.contacted@,
            self.names@.len() as int,
            self.recipient_ids@,
            self.dedup,
            self.reached_before@,
        )
    }

    /// Entry `j` of the results belongs to recipient `j` and fits its fate.
    pub closed spec fn entry_ok(&self, j: int) -> bool {
        entry_fits(self.names@, self.recipient_ids@, self.dedup, self.results@, self.kinds@, j)
    }

    pub closed spec fn entries_ok(&self) -> bool {
        entries_fit(self.names@, self.recipient_ids@, self.dedup, self.results@, self.kinds@, self.current as int)
    }

    /// `k` is listed as reached, by `log` or by the record at the run's start.
    pub open spec fn listed(&self, log: Map<Seq<char>, Timestamp>, k: Seq<char>) -> bool {
        log.contains_key(k) || self.spec_reached_before().contains_key(k)
    }

    /// The recipient about to be dealt with has not been reached before.
    pub open spec fn fresh(&self, log: Map<Seq<char>, Timestamp>) -> bool {
        self.spec_current() < self.spec_recipient_ids().len() ==> !(self.spec_dedup()
            && self.listed(log, self.spec_recipient_ids()[self.spec_current() as int]@))
    }

    /// Going on from `old_run` to `run` kept the recipients and passed over,
    /// from index `from`, only recipients that `log` lists as reached, up to
    /// one that it does not list (or the end).
    pub open spec fn passed_over(
        old_run: &BroadcastRun,
        run: &BroadcastRun,
        from: nat,
        log: Map<Seq<char>, Timestamp>,
    ) -> bool {
        &&& run.spec_names() == old_run.spec_names()
        &&& run.spec_recipient_ids() == old_run.spec_recipient_ids()
        &&& run.spec_dedup() == old_run.spec_dedup()
        &&& run.spec_reached_before() == old_run.spec_reached_before()
        &&& old_run.spec_contacted().subset_of(run.spec_contacted())
        &&& from <= run.spec_current()
        &&& forall|j: int|
            from <= j < run.spec_current() ==> (#[trigger] run.spec_kinds()[j])
                == DeliveryKind::AlreadyNotified
        &&& (from < run.spec_current() ==> run.spec_dedup())
        &&& forall|j: int|
            from <= j < run.spec_current() ==> run.listed(
                log,
                (#[trigger] run.spec_recipient_ids()[j])@,
            )
        &&& run.fresh(log)
    }

    /// `passed_over`, with the entries before `from` kept.
    pub open spec fn went_on(
        old_run: &BroadcastRun,
        run: &BroadcastRun,
        from: nat,
        log: Map<Seq<char>, Timestamp>,
    ) -> bool {
        &&& BroadcastRun::passed_over(old_run, run, from, log)
        &&& run.spec_results().subrange(0, from as int) == old_run.spec_results().subrange(0, from as int)
        &&& run.spec_kinds().subrange(0, from as int) == old_run.spec_kinds().subrange(0, from as int)
    }

    /// The current recipient of `old_run` was recorded with `result` and fate
    /// `kind`, and the run went on from there.
    pub open spec fn recorded(
        old_run: &BroadcastRun,
        run: &BroadcastRun,
        result: OutputResult,
        kind: DeliveryKind,
        log: Map<Seq<char>, Timestamp>,
    ) -> bool {
        let cur = old_run.spec_current() as int;
        &&& run.spec_results().subrange(0, cur + 1) == old_run.spec_results().push(
            (old_run.spec_names()[cur], old_run.spec_recipient_ids()[cur], result),
        )
        &&& run.spec_kinds().subrange(0, cur + 1) == old_run.spec_kinds().push(kind)
        &&& BroadcastRun::passed_over(old_run, run, (cur + 1) as nat, log)
    }

    /// The action that goes with the stage reached after moving on.
    pub open spec fn next_action(run: &BroadcastRun, a: BroadcastAction) -> bool {
        if run.spec_current() < run.spec_names().len() {
            run.spec_stage() == BroadcastStage::AwaitingHealth && a == BroadcastAction::CheckHealth(
                run.spec_current() as usize,
            ) && run.spec_contacted().contains(run.spec_current() as int)
        } else {
            run.spec_stage() == BroadcastStage::Finished && a == BroadcastAction::Finish
        }
    }

    /// Passes over recipients already reached, up to the next one to try.
    fn go_on(&mut self, log: &NotificationLog) -> (a: BroadcastAction)
        requires
            old(self).names@.len() == old(self).recipient_ids@.len(),
            old(self).results@.len() == old(self).current,
            old(self).kinds@.len() == old(self).current,
            old(self).current <= old(self).names@.len(),
            old(self).entries_ok(),
            old(self).reached_ok(),
            old(self).contacted_ok(),
        ensures
            final(self).wf(),
            final(self).spec_contacted() == (match a {
                BroadcastAction::CheckHealth(i) => old(self).spec_contacted().insert(i as int),
                _ => old(self).spec_contacted(),
            }),
            BroadcastRun::went_on(old(self), final(self), old(self).current as nat, log@),
            BroadcastRun::next_action(final(self), a),
    {
        while self.current < self.names.len() && self.dedup && (log.contains(
            self.recipient_ids[self.current].as_str(),
        ) || self.reached_before.contains(self.recipient_ids[self.current].as_str()))
            invariant
                self.names@ == old(self).names@,
                self.reached_before@ == old(self).reached_before@,
                self.contacted@ == old(self).contacted@,
                self.reached_ok(),
                self.contacted_ok(),
                self.recipient_ids@ == old(self).recipient_ids@,
                self.dedup == old(self).dedup,
                self.names@.len() == self.recipient_ids@.len(),
                self.results@.len() == self.current,
                self.kinds@.len() == self.current,
                old(self).current <= self.current <= self.names@.len(),
                old(self).current < self.current ==> self.dedup,
                self.results@.subrange(0, old(self).current as int) == old(self).results@,
                self.kinds@.subrange(0, old(self).current as int) == old(self).kinds@,
                self.entries_ok(),
                forall|j: int|
                    old(self).current <= j < self.current ==> (#[trigger] self.kinds@[j])
                        == DeliveryKind::AlreadyNotified,
                forall|j: int|
                    old(self).current <= j < self.current ==> self.dedup && (log@.contains_key(
                        (#[trigger] self.recipient_ids@[j])@,
                    ) || self.reached_before@.contains_key(self.recipient_ids@[j]@)),
            decreases self.names@.len() - self.current,
        {
            let i = self.current;
            let ghost prev = *self;
            let ghost r0 = self.results@;
            let ghost k0 = self.kinds@;
            self.results.push(
                (
                    self.names[i].clone(),
                    self.recipient_ids[i].clone(),
                    OutputResult::Skipped(ALREADY_NOTIFIED.to_string()),
                ),
            );
            self.kinds.push(DeliveryKind::AlreadyNotified);
            self.current = i + 1;
            proof {
                assert(self.results@.subrange(0, old(self).current as int) =~= r0.subrange(
                    0,
                    old(self).current as int,
                ));
                assert(self.kinds@.subrange(0, old(self).current as int) =~= k0.subrange(
                    0,
                    old(self).current as int,
                ));
                assert forall|j: int| 0 <= j < self.current implies #[trigger] entry_fits(
                self.names@,
                self.recipient_ids@,
                self.dedup,
                self.results@,
                self.kinds@,
                j,
            ) by {
                    if j < i {
                        assert(prev.entry_ok(j));
                        assert(self.results@[j] == r0[j]);
                        assert(self.kinds@[j] == k0[j]);
                    }
                }
                assert forall|j: int|
                    0 <= j < self.current && self.dedup && self.reached_before@.contains_key(
                        (#[trigger] self.recipient_ids@[j])@,
                    ) implies self.kinds@[j] == DeliveryKind::AlreadyNotified by {
                    if j < i {
                        assert(prev.recipient_ids@[j] == self.recipient_ids@[j]);
                        assert(self.kinds@[j] == k0[j]);
                    }
                }
                assert forall|j: int| #[trigger] self.contacted@.contains(j) implies 0 <= j
                    < self.names@.len() && !(self.dedup && self.reached_before@.contains_key(
                    self.recipient_ids@[j]@,
                )) by {
                    assert(prev.contacted@.contains(j));
                }
            }
        }
        proof {
            assert(self.results@.subrange(0, old(self).current as int) =~= old(
                self,
            ).results@.subrange(0, old(self).current as int));
            assert(self.kinds@.subrange(0, old(self).current as int) =~= old(
                self,
            ).kinds@.subrange(0, old(self).current as int));
        }
        let ghost looped = *self;
        let a = if self.current < self.names.len() {
            self.stage = BroadcastStage::AwaitingHealth;
            self.contacted = Ghost(self.contacted@.insert(self.current as int));
            BroadcastAction::CheckHealth(self.current)
        } else {
            self.stage = BroadcastStage::Finished;
            BroadcastAction::Finish
        };
        proof {
            assert forall|j: int| 0 <= j < self.current implies #[trigger] entry_fits(
                self.names@,
                self.recipient_ids@,
                self.dedup,
                self.results@,
                self.kinds@,
                j,
            ) by {
                assert(looped.entry_ok(j));
            }
            if self.current < self.names@.len() {
                assert(!(self.dedup && (log@.contains_key(self.recipient_ids@[self.current as int]@)
                    || self.reached_before@.contains_key(self.recipient_ids@[self.current as int]@))));
            }
            assert(self.fresh(log@));
            assert forall|j: int|
                0 <= j < self.current && self.dedup && self.reached_before@.contains_key(
                    (#[trigger] self.recipient_ids@[j])@,
                ) implies self.kinds@[j] == DeliveryKind::AlreadyNotified by {
                assert(looped.recipient_ids@[j] == self.recipient_ids@[j]);
            }
            assert forall|j: int| #[trigger] self.contacted@.contains(j) implies 0 <= j
                < self.names@.len() && !(self.dedup && self.reached_before@.contains_key(
                self.recipient_ids@[j]@,
            )) by {
                if j != self.current {
                    assert(looped.contacted@.contains(j));
                }
            }
            assert forall|j: int| old(self).current <= j < self.spec_current() implies self.listed(
                log@,
                (#[trigger] self.spec_recipient_ids()[j])@,
            ) by {
                assert(looped.recipient_ids@[j] == self.spec_recipient_ids()[j]);
            }
            assert forall|j: int| old(self).current <= j < self.spec_current() implies (
            #[trigger] self.spec_kinds()[j]) == DeliveryKind::AlreadyNotified by {
                assert(looped.kinds@[j] == self.spec_kinds()[j]);
            }
        }
        a
    }

    /// Records the fate of the current recipient and goes on to the next.
    fn settle(&mut self, result: OutputResult, kind: DeliveryKind)
        requires
            old(self).wf(),
            old(self).stage == BroadcastStage::AwaitingHealth || old(self).stage
                == BroadcastStage::AwaitingSend,
            result_fits(kind, result),
            kind != DeliveryKind::AlreadyNotified,
        ensures
            final(self).names@ == old(self).names@,
            final(self).recipient_ids@ == old(self).recipient_ids@,
            final(self).dedup == old(self).dedup,
            final(self).current == old(self).current + 1,
            final(self).results@ == old(self).results@.push(
                (old(self).names@[old(self).current as int], old(
                    self,
                ).recipient_ids@[old(self).current as int], result),
            ),
            final(self).kinds@ == old(self).kinds@.push(kind),
            final(self).names@.len() == final(self).recipient_ids@.len(),
            final(self).results@.len() == final(self).current,
            final(self).kinds@.len() == final(self).current,
            final(self).current <= final(self).names@.len(),
            final(self).entries_ok(),
            final(self).reached_ok(),
            final(self).contacted_ok(),
            final(self).reached_before@ == old(self).reached_before@,
            final(self).contacted@ == old(self).contacted@,
    {
        let i = self.current;
        let n = self.names.len();
        assert(i < n);
        let ghost prev = *self;
        let ghost r0 = self.results@;
        let ghost k0 = self.kinds@;
        self.results.push((self.names[i].clone(), self.recipient_ids[i].clone(), result));
        self.kinds.push(kind);
        self.current = i + 1;
        proof {
            assert forall|j: int| 0 <= j < self.current implies #[trigger] entry_fits(
                self.names@,
                self.recipient_ids@,
                self.dedup,
                self.results@,
                self.kinds@,
                j,
            ) by {
                if j < i {
                    assert(prev.entry_ok(j));
                    assert(self.results@[j] == r0[j]);
                    assert(self.kinds@[j] == k0[j]);
                } else {
                    assert(self.results@[j].2 == result);
                    assert(self.kinds@[j] == kind);
                }
            }
            assert forall|j: int|
                0 <= j < self.current && self.dedup && self.reached_before@.contains_key(
                    (#[trigger] self.recipient_ids@[j])@,
                ) implies self.kinds@[j] == DeliveryKind::AlreadyNotified by {
                if j < i {
                    assert(prev.recipient_ids@[j] == self.recipient_ids@[j]);
                    assert(self.kinds@[j] == k0[j]);
                } else {
                    assert(prev.contacted@.contains(i as int));
                }
            }
            assert forall|j: int| #[trigger] self.contacted@.contains(j) implies 0 <= j
                < self.names@.len() && !(self.dedup && self.reached_before@.contains_key(
                self.recipient_ids@[j]@,
            )) by {
                assert(prev.contacted@.contains(j));
            }
        }
    }

    /// Starts a run over the recipients `recipient_ids`, reached through the
    /// channels `names`; with `dedup`, recipients that `log` lists are passed over.
    pub fn start(
        names: Vec<String>,
        recipient_ids: Vec<String>,
        dedup: bool,
        log: &NotificationLog,
    ) -> (r: (BroadcastRun, BroadcastAction))
        requires
            names@.len() == recipient_ids@.len(),
        ensures
            r.0.wf(),
            r.0.spec_names() == names@,
            r.0.spec_recipient_ids() == recipient_ids@,
            r.0.spec_dedup() == dedup,
            r.0.spec_reached_before() == (if dedup {
                log@
            } else {
                Map::<Seq<char>, Timestamp>::empty()
            }),
            r.0.spec_contacted() == (match r.1 {
                BroadcastAction::CheckHealth(i) => Set::<int>::empty().insert(i as int),
                _ => Set::<int>::empty(),
            }),
            BroadcastRun::passed_over(&r.0, &r.0, 0, log@),
            BroadcastRun::next_action(&r.0, r.1),
    {
        let reached_before = if dedup {
            log.snapshot()
        } else {
            NotificationLog::new()
        };
        let mut run = BroadcastRun {
            names,
            recipient_ids,
            dedup,
            current: 0,
            stage: BroadcastStage::AwaitingHealth,
            results: Vec::new(),
            kinds: Vec::new(),
            reached_before,
            contacted: Ghost(Set::empty()),
        };
        let a = run.go_on(log);
        (run, a)
    }

    /// Takes the outcome of the current recipient's health check: a healthy
    /// channel is asked to send; otherwise the recipient is recorded as
    /// skipped and the run goes on.
    pub fn on_health(&mut self, outcome: Result<bool, String>, log: &NotificationLog) -> (a:
        BroadcastAction)
        requires
            old(self).wf(),
            old(self).spec_stage() == BroadcastStage::AwaitingHealth,
        ensures
            final(self).wf(),
            outcome == Ok::<bool, String>(true) ==> {
                &&& a == BroadcastAction::Send(old(self).spec_current() as usize)
                &&& final(self).spec_stage() == BroadcastStage::AwaitingSend
                &&& final(self).spec_current() == old(self).spec_current()
                &&& final(self).spec_results() == old(self).spec_results()
                &&& final(self).spec_kinds() == old(self).spec_kinds()
                &&& final(self).spec_names() == old(self).spec_names()
                &&& final(self).spec_recipient_ids() == old(self).spec_recipient_ids()
                &&& final(self).spec_dedup() == old(self).spec_dedup()
                &&& final(self).spec_reached_before() == old(self).spec_reached_before()
                &&& final(self).spec_contacted() == old(self).spec_contacted()
                &&& final(self).spec_contacted().contains(old(self).spec_current() as int)
            },
            outcome != Ok::<bool, String>(true) ==> exists|r: OutputResult|
                is_skipped_with(r, HEALTH_CHECK_FAILED@) && BroadcastRun::recorded(
                    old(self),
                    final(self),
                    r,
                    DeliveryKind::Unreached,
                    log@,
                ) && BroadcastRun::next_action(final(self), a),
    {
        match outcome {
            Ok(true) => {
                self.stage = BroadcastStage::AwaitingSend;
                BroadcastAction::Send(self.current)
            },
            _ => {
                let r = OutputResult::Skipped(HEALTH_CHECK_FAILED.to_string());
                let ghost rr = r;
                let ghost start = *self;
                self.settle(r, DeliveryKind::Unreached);
                let ghost mid = *self;
                let a = self.go_on(log);
                proof {
                    assert(self.spec_results().subrange(0, start.current + 1) =~= mid.results@);
                    assert(self.spec_kinds().subrange(0, start.current + 1) =~= mid.kinds@);
                    assert(is_skipped_with(rr, HEALTH_CHECK_FAILED@) && BroadcastRun::recorded(
                        &start,
                        self,
                        rr,
                        DeliveryKind::Unreached,
                        log@,
                    ) && BroadcastRun::next_action(self, a));
                }
                a
            },
        }
    }

    /// Takes the outcome of the current recipient's send. A success is
    /// recorded at `now` in `state` (when deduplicating) and must be persisted
    /// before the run goes on; anything else is recorded and the run goes on.
    pub fn on_send(
        &mut self,
        outcome: Result<OutputResult, String>,
        state: &mut AppState,
        now: Timestamp,
    ) -> (a: BroadcastAction)
        requires
            old(self).wf(),
            old(self).spec_stage() == BroadcastStage::AwaitingSend,
        ensures
            final(self).wf(),
            final(state).last_checkin == old(state).last_checkin,
            final(state).last_checkin_request == old(state).last_checkin_request,
            final(state).last_signal_fired == old(state).last_signal_fired,
            final(state).checkin_request_count == old(state).checkin_request_count,
            outcome matches Ok(OutputResult::Success) && old(self).spec_dedup() ==> {
                &&& a == BroadcastAction::Persist
                &&& final(self).spec_stage() == BroadcastStage::AwaitingPersist
                &&& final(state).last_signal_recipients_notified@ == old(
                    state,
                ).last_signal_recipients_notified@.insert(
                    old(self).spec_recipient_ids()[old(self).spec_current() as int]@,
                    now,
                )
                &&& final(self).spec_current() == old(self).spec_current() + 1
                &&& final(self).spec_results() == old(self).spec_results().push(
                    (
                        old(self).spec_names()[old(self).spec_current() as int],
                        old(self).spec_recipient_ids()[old(self).spec_current() as int],
                        OutputResult::Success,
                    ),
                )
                &&& final(self).spec_kinds() == old(self).spec_kinds().push(DeliveryKind::Reached)
                &&& final(self).spec_names() == old(self).spec_names()
                &&& final(self).spec_recipient_ids() == old(self).spec_recipient_ids()
                &&& final(self).spec_dedup() == old(self).spec_dedup()
                &&& final(self).spec_reached_before() == old(self).spec_reached_before()
                &&& final(self).spec_contacted() == old(self).spec_contacted()
            },
            !(outcome matches Ok(OutputResult::Success) && old(self).spec_dedup()) ==> {
                &&& final(state).last_signal_recipients_notified@ == old(
                    state,
                ).last_signal_recipients_notified@
                &&& BroadcastRun::next_action(final(self), a)
                &&& match outcome {
                    Ok(OutputResult::Success) => BroadcastRun::recorded(
                        old(self),
                        final(self),
                        OutputResult::Success,
                        DeliveryKind::Reached,
                        old(state).last_signal_recipients_notified@,
                    ),
                    Ok(OutputResult::Failed(m)) => BroadcastRun::recorded(
                        old(self),
                        final(self),
                        OutputResult::Failed(m),
                        DeliveryKind::Unreached,
                        old(state).last_signal_recipients_notified@,
                    ),
                    Ok(OutputResult::Skipped(m)) => BroadcastRun::recorded(
                        old(self),
                        final(self),
                        OutputResult::Skipped(m),
                        DeliveryKind::Unreached,
                        old(state).last_signal_recipients_notified@,
                    ),
                    Err(e) => exists|r: OutputResult|
                        is_failed_with(r, SEND_ERROR_PREFIX@ + e@) && BroadcastRun::recorded(
                            old(self),
                            final(self),
                            r,
                            DeliveryKind::Unreached,
                            old(state).last_signal_recipients_notified@,
                        ),
                }
            },
    {
        let ghost start = *self;
        let ghost og = outcome;
        let (result, kind) = match outcome {
            Ok(OutputResult::Success) => (OutputResult::Success, DeliveryKind::Reached),
            Ok(OutputResult::Failed(m)) => (OutputResult::Failed(m), DeliveryKind::Unreached),
            Ok(OutputResult::Skipped(m)) => (OutputResult::Skipped(m), DeliveryKind::Unreached),
            Err(e) => {
                let m = SEND_ERROR_PREFIX.to_string().concat(e.as_str());
                assert(m@ == SEND_ERROR_PREFIX@ + e@);
                (OutputResult::Failed(m), DeliveryKind::Unreached)
            },
        };
        let ghost rr = result;
        let reached = kind == DeliveryKind::Reached;
        let i = self.current;
        self.settle(result, kind);
        if reached && self.dedup {
            state.record_last_signal_recipient_notified_at(self.recipient_ids[i].as_str(), now);
            self.stage = BroadcastStage::AwaitingPersist;
            BroadcastAction::Persist
        } else {
            let ghost mid = *self;
            let a = self.go_on(&state.last_signal_recipients_notified);
            proof {
                assert(self.spec_results().subrange(0, start.current + 1) =~= mid.results@);
                assert(self.spec_kinds().subrange(0, start.current + 1) =~= mid.kinds@);
                assert(BroadcastRun::recorded(
                    &start,
                    self,
                    rr,
                    kind,
                    old(state).last_signal_recipients_notified@,
                ));
                if og is Err {
                    assert(is_failed_with(rr, SEND_ERROR_PREFIX@ + og->Err_0@));
                }
            }
            a
        }
    }

    /// Goes on after the lifecycle record was persisted.
    pub fn on_persisted(&mut self, log: &NotificationLog) -> (a: BroadcastAction)
        requires
            old(self).wf(),
            old(self).spec_stage() == BroadcastStage::AwaitingPersist,
        ensures
            final(self).wf(),
            BroadcastRun::went_on(old(self), final(self), old(self).spec_current(), log@),
            BroadcastRun::next_action(final(self), a),
    {
        self.go_on(log)
    }

    pub fn is_finished(&self) -> (r: bool)
        ensures
            r == (self.spec_stage() == BroadcastStage::Finished),
    {
        self.stage == BroadcastStage::Finished
    }

    /// One entry per recipient dealt with: channel name, recipient id, result.
    pub fn results(&self) -> (r: &Vec<(String, String, OutputResult)>)
        ensures
            r@ == self.spec_results(),
    {
        &self.results
    }

    /// The fate of each recipient dealt with.
    pub fn kinds(&self) -> (r: &Vec<DeliveryKind>)
        ensures
            r@ == self.spec_kinds(),
    {
        &self.kinds
    }

    pub fn into_results(self) -> (r: Vec<(String, String, OutputResult)>)
        ensures
            r@ == self.spec_results(),
    {
        self.results
    }

    /// What the escalation amounts to, by the fates of all recipients.
    pub fn outcome(&self) -> (r: BroadcastOutcome)
        requires
            self.wf(),
        ensures
            r == outcome_of(self.spec_kinds()),
    {
        let mut reached: usize = 0;
        let mut unreached: usize = 0;
        let mut i: usize = 0;
        while i < self.kinds.len()
            invariant
                i <= self.kinds@.len(),
                reached == count_kind(self.kinds@.subrange(0, i as int), DeliveryKind::Reached),
                unreached == count_kind(self.kinds@.subrange(0, i as int), DeliveryKind::Unreached),
            decreases self.kinds@.len() - i,
        {
            proof {
                let p = self.kinds@.subrange(0, i + 1);
                assert(p.drop_last() =~= self.kinds@.subrange(0, i as int));
                lemma_count_kind_bound(self.kinds@.subrange(0, i as int), DeliveryKind::Reached);
                lemma_count_kind_bound(self.kinds@.subrange(0, i as int), DeliveryKind::Unreached);
            }
            match self.kinds[i] {
                DeliveryKind::Reached => {
                    reached = reached + 1;
                },
                DeliveryKind::Unreached => {
                    unreached = unreached + 1;
                },
                DeliveryKind::AlreadyNotified => {},
            }
            i = i + 1;
        }
        proof {
            assert(self.kinds@.subrange(0, self.kinds@.len() as int) =~= self.kinds@);
        }
        if reached > 0 {
            BroadcastOutcome::Fired
        } else if unreached == 0 {
            BroadcastOutcome::AlreadyComplete
        } else {
            BroadcastOutcome::Failed { unreached }
        }
    }
}

/// A recipient that the run marked as reached before is recorded with the
/// "already notified" skip, under its own id: it was neither health-checked
/// nor sent to (a health check or send is only asked for a recipient that
/// the record does not list, see `BroadcastRun::fresh`).
pub proof fn lemma_already_notified_entries(run: &BroadcastRun, j: int)
    requires
        run.wf(),
        0 <= j < run.spec_current(),
        run.spec_kinds()[j] == DeliveryKind::AlreadyNotified,
    ensures
        is_skipped_with(run.spec_results()[j].2, ALREADY_NOTIFIED@),
        run.spec_results()[j].1 == run.spec_recipient_ids()[j],
        run.spec_results()[j].0 == run.spec_names()[j],
{
    assert(run.entry_ok(j));
}

proof fn lemma_count_kind_zero(kinds: Seq<DeliveryKind>, k: DeliveryKind)
    ensures
        count_kind(kinds, k) == 0 <==> forall|i: int| 0 <= i < kinds.len() ==> kinds[i] != k,
    decreases kinds.len(),
{
    if kinds.len() > 0 {
        lemma_count_kind_zero(kinds.drop_last(), k);
        if count_kind(kinds, k) == 0 {
            assert forall|i: int| 0 <= i < kinds.len() implies kinds[i] != k by {
                if i < kinds.len() - 1 {
                    assert(kinds.drop_last()[i] == kinds[i]);
                }
            }
        }
        if forall|i: int| 0 <= i < kinds.len() ==> kinds[i] != k {
            assert forall|i: int| 0 <= i < kinds.drop_last().len() implies kinds.drop_last()[i]
                != k by {
                assert(kinds.drop_last()[i] == kinds[i]);
            }
            assert(kinds[kinds.len() - 1] != k);
        }
    }
}

/// A broadcast in which every recipient had already been reached amounts to
/// nothing to do, not to an error.
pub proof fn lemma_all_already_notified(kinds: Seq<DeliveryKind>)
    requires
        forall|i: int| 0 <= i < kinds.len() ==> kinds[i] == DeliveryKind::AlreadyNotified,
    ensures
        outcome_of(kinds) == BroadcastOutcome::AlreadyComplete,
{
    lemma_count_kind_zero(kinds, DeliveryKind::Reached);
    lemma_count_kind_zero(kinds, DeliveryKind::Unreached);
}

/// A broadcast that newly reached nobody while some recipient remains
/// unreached is an error; one that newly reached somebody counts as fired.
pub proof fn lemma_escalation_rule(kinds: Seq<DeliveryKind>)
    ensures
        (exists|i: int| 0 <= i < kinds.len() && kinds[i] == DeliveryKind::Reached) ==> outcome_of(
            kinds,
        ) == BroadcastOutcome::Fired,
        (forall|i: int| 0 <= i < kinds.len() ==> kinds[i] != DeliveryKind::Reached) && (exists|
            i: int,
        | 0 <= i < kinds.len() && kinds[i] == DeliveryKind::Unreached) ==> outcome_of(
            kinds,
        ) is Failed,
{
    lemma_count_kind_zero(kinds, DeliveryKind::Reached);
    lemma_count_kind_zero(kinds, DeliveryKind::Unreached);
}

/// The shape of a well-formed run: one entry and one fate per recipient
/// dealt with, never more than there are recipients, and the run is over
/// exactly when every recipient has been dealt with.
pub proof fn lemma_run_shape(run: &BroadcastRun)
    requires
        run.wf(),
    ensures
        run.spec_names().len() == run.spec_recipient_ids().len(),
        run.spec_results().len() == run.spec_current(),
        run.spec_kinds().len() == run.spec_current(),
        run.spec_current() <= run.spec_names().len(),
        run.spec_stage() == BroadcastStage::Finished <==> (run.spec_current()
            == run.spec_names().len() && run.spec_stage() != BroadcastStage::AwaitingPersist),
{
}

/// Over a whole run, a recipient that the lifecycle record listed as reached
/// when the run started is never contacted: no health check or send is ever
/// asked for its index (every such action's index enters `spec_contacted`,
/// which only grows), and once the run has come to it, its entry is the
/// "already notified" skip under its own id.
pub proof fn lemma_reached_recipients_never_contacted(run: &BroadcastRun, j: int)
    requires
        run.wf(),
        run.spec_dedup(),
        0 <= j < run.spec_recipient_ids().len(),
        run.spec_reached_before().contains_key(run.spec_recipient_ids()[j]@),
    ensures
        !run.spec_contacted().contains(j),
        j < run.spec_current() ==> run.spec_kinds()[j] == DeliveryKind::AlreadyNotified
            && is_skipped_with(run.spec_results()[j].2, ALREADY_NOTIFIED@)
            && run.spec_results()[j].1 == run.spec_recipient_ids()[j],
        run.spec_stage() == BroadcastStage::Finished ==> j < run.spec_current(),
{
    assert(run.recipient_ids@[j] == run.spec_recipient_ids()[j]);
    if run.contacted@.contains(j) {
    }
    if j < run.current {
        assert(run.entry_ok(j));
    }
}

/// Every entry of a run is consistent with the recipient's fate: reached
/// exactly when the result is `Success`.
pub proof fn lemma_entry_fits(run: &BroadcastRun, j: int)
    requires
        run.wf(),
        0 <= j < run.spec_current(),
    ensures
        result_fits(run.spec_kinds()[j], run.spec_results()[j].2),
        run.spec_results()[j].1 == run.spec_recipient_ids()[j],
        run.spec_results()[j].0 == run.spec_names()[j],
{
    assert(run.entry_ok(j));
}

} // verus!
