//! The persisted lifecycle record: when the person last checked in, when a
//! check-in was last requested, when the emergency broadcast last ran, and
//! which recipients that broadcast has reached.

use vstd::prelude::*;
use crate::duration::ConfigDuration;
use crate::text::text_eq;
use crate::timestamp::{days_between, later_of, Timestamp};

verus! {

/// Version tag written into a fresh record.
pub const STATE_VERSION: &'static str = "0.1.0";

/// The recipients reached by the emergency broadcast, each with the time it
/// was reached. Later entries for the same recipient supersede earlier ones.
/// Held as a list of pairs: Verus proves nothing about lookups in a `HashMap`
/// keyed by `String`, while this form gives `contains` an exact contract.
#[derive(Clone, Debug)]
pub struct NotificationLog {
    entries: Vec<(String, Timestamp)>,
}

/// The mapping that a list of entries denotes: the last entry for a key wins.
pub open spec fn entries_map(s: Seq<(String, Timestamp)>) -> Map<Seq<char>, Timestamp>
    decreases s.len(),
{
    if s.len() == 0 {
        Map::empty()
    } else {
        entries_map(s.drop_last()).insert(s.last().0@, s.last().1)
    }
}

proof fn lemma_entries_map_domain(s: Seq<(String, Timestamp)>, k: Seq<char>)
    ensures
        entries_map(s).contains_key(k) <==> exists|i: int| 0 <= i < s.len() && (#[trigger] s[i]).0@ == k,
    decreases s.len(),
{
    if s.len() > 0 {
        lemma_entries_map_domain(s.drop_last(), k);
        if entries_map(s.drop_last()).contains_key(k) {
            let i = choose|i: int| 0 <= i < s.drop_last().len() && (#[trigger] s.drop_last()[i]).0@ == k;
            assert(s[i] == s.drop_last()[i]);
        }
        if exists|i: int| 0 <= i < s.len() && (#[trigger] s[i]).0@ == k {
            let i = choose|i: int| 0 <= i < s.len() && (#[trigger] s[i]).0@ == k;
            if i < s.len() - 1 {
                assert(s.drop_last()[i] == s[i]);
            }
        }
    }
}

impl View for NotificationLog {
    type V = Map<Seq<char>, Timestamp>;

    closed spec fn view(&self) -> Map<Seq<char>, Timestamp> {
        entries_map(self.entries@)
    }
}

impl NotificationLog {
    pub fn new() -> (r: NotificationLog)
        ensures
            r@ == Map::<Seq<char>, Timestamp>::empty(),
    {
        NotificationLog { entries: Vec::new() }
    }

    /// Builds a log from `(recipient, time)` pairs, later pairs superseding earlier ones.
    pub fn from_entries(entries: Vec<(String, Timestamp)>) -> (r: NotificationLog)
        ensures
            r@ == entries_map(entries@),
    {
        NotificationLog { entries }
    }

    /// The entries in the order they were recorded.
    pub fn entries(&self) -> (r: &Vec<(String, Timestamp)>)
        ensures
            entries_map(r@) == self@,
    {
        &self.entries
    }

    /// A copy of the log as it stands.
    pub fn snapshot(&self) -> (r: NotificationLog)
        ensures
            r@ == self@,
    {
        let mut copy: Vec<(String, Timestamp)> = Vec::new();
        let mut i: usize = 0;
        while i < self.entries.len()
            invariant
                i <= self.entries@.len(),
                copy@ == self.entries@.subrange(0, i as int),
            decreases self.entries@.len() - i,
        {
            copy.push((self.entries[i].0.clone(), self.entries[i].1));
            proof {
                assert(copy@ =~= self.entries@.subrange(0, i + 1));
            }
            i = i + 1;
        }
        proof {
            assert(copy@ =~= self.entries@);
        }
        NotificationLog { entries: copy }
    }

    pub fn contains(&self, recipient_id: &str) -> (r: bool)
        ensures
            r == self@.contains_key(recipient_id@),
    {
        proof {
            lemma_entries_map_domain(self.entries@, recipient_id@);
        }
        let mut i: usize = 0;
        while i < self.entries.len()
            invariant
                i <= self.entries@.len(),
                forall|j: int| 0 <= j < i ==> (#[trigger] self.entries@[j]).0@ != recipient_id@,
            decreases self.entries@.len() - i,
        {
            if text_eq(self.entries[i].0.as_str(), recipient_id) {
                proof {
                    lemma_entries_map_domain(self.entries@, recipient_id@);
                    assert(self.entries@[i as int].0@ == recipient_id@);
                }
                return true;
            }
            i = i + 1;
        }
        proof {
            lemma_entries_map_domain(self.entries@, recipient_id@);
        }
        false
    }

    pub fn insert(&mut self, recipient_id: &str, at: Timestamp)
        ensures
            final(self)@ == old(self)@.insert(recipient_id@, at),
    {
        self.entries.push((recipient_id.to_string(), at));
        proof {
            assert(self.entries@.drop_last() =~= old(self).entries@);
        }
    }

    pub fn clear(&mut self)
        ensures
            final(self)@ == Map::<Seq<char>, Timestamp>::empty(),
    {
        self.entries = Vec::new();
    }

    pub fn is_empty(&self) -> (r: bool)
        ensures
            r == (self@ == Map::<Seq<char>, Timestamp>::empty()),
    {
        proof {
            if self.entries@.len() > 0 {
                let k = self.entries@.last().0@;
                assert(self@.contains_key(k));
            }
        }
        self.entries.len() == 0
    }
}

/// The persisted lifecycle record.
#[derive(Clone, Debug)]
pub struct AppState {
    pub last_checkin: Option<Timestamp>,
    pub last_checkin_request: Option<Timestamp>,
    pub last_signal_fired: Option<Timestamp>,
    pub checkin_request_count: u32,
    pub version: String,
    pub last_signal_recipients_notified: NotificationLog,
}

/// Whether a check-in is due at `now`: never checked in, or at least the
/// threshold's whole days have passed since the last one.
pub open spec fn request_due(s: AppState, threshold: nat, now: Timestamp) -> bool {
    match s.last_checkin {
        None => true,
        Some(c) => days_between(c, now) >= threshold / 86400,
    }
}

/// Whether the emergency broadcast is due at `now`: with a check-in on
/// record, when the threshold's whole days have passed since it; without
/// one, when a request was made and that many days have passed since it.
pub open spec fn escalation_due(s: AppState, threshold: nat, now: Timestamp) -> bool {
    match s.last_checkin {
        None => match s.last_checkin_request {
            None => false,
            Some(q) => days_between(q, now) >= threshold / 86400,
        },
        Some(c) => days_between(c, now) >= threshold / 86400,
    }
}

/// Whether the broadcast ran less than the threshold's whole days before `now`.
pub open spec fn fired_recently(s: AppState, threshold: nat, now: Timestamp) -> bool {
    match s.last_signal_fired {
        None => false,
        Some(f) => days_between(f, now) < threshold / 86400,
    }
}

/// The record after a confirmed check-in at `now`.
pub open spec fn after_checkin(s: AppState, now: Timestamp) -> AppState {
    AppState { last_checkin: Some(now), checkin_request_count: 0, ..s }
}

/// `after` is the record that a manual check-in at `now` makes of `before`.
pub open spec fn manual_checkin(before: AppState, after: AppState, now: Timestamp) -> bool {
    &&& after.last_checkin == Some(now)
    &&& after.checkin_request_count == 0
    &&& after.last_signal_recipients_notified@ == Map::<Seq<char>, Timestamp>::empty()
    &&& after.last_signal_fired is None
    &&& after.last_checkin_request == before.last_checkin_request
    &&& after.version == before.version
}

/// The recipient ids of `ids` that the log has not reached, in order.
pub open spec fn pending_ids(ids: Seq<Seq<char>>, log: Map<Seq<char>, Timestamp>) -> Seq<Seq<char>>
    decreases ids.len(),
{
    if ids.len() == 0 {
        Seq::empty()
    } else if log.contains_key(ids.last()) {
        pending_ids(ids.drop_last(), log)
    } else {
        pending_ids(ids.drop_last(), log).push(ids.last())
    }
}

pub open spec fn string_views(v: Seq<String>) -> Seq<Seq<char>> {
    v.map_values(|s: String| s@)
}

impl AppState {
    pub fn new() -> (r: AppState)
        ensures
            r.last_checkin is None,
            r.last_checkin_request is None,
            r.last_signal_fired is None,
            r.checkin_request_count == 0,
            r.version@ == STATE_VERSION@,
            r.last_signal_recipients_notified@ == Map::<Seq<char>, Timestamp>::empty(),
    {
        AppState {
            last_checkin: None,
            last_checkin_request: None,
            last_signal_fired: None,
            checkin_request_count: 0,
            version: STATE_VERSION.to_string(),
            last_signal_recipients_notified: NotificationLog::new(),
        }
    }

    /// Records a confirmed check-in at `now`: the request counter restarts.
    pub fn record_checkin_at(&mut self, now: Timestamp)
        ensures
            *final(self) == after_checkin(*old(self), now),
    {
        self.last_checkin = Some(now);
        self.checkin_request_count = 0;
    }

    /// Records a confirmed check-in at the current time.
    pub fn record_checkin(&mut self)
        ensures
            exists|t: Timestamp| *final(self) == after_checkin(*old(self), t),
    {
        self.record_checkin_at(Timestamp::now());
    }

    /// Records that a check-in was requested at `now`.
    pub fn record_checkin_request_at(&mut self, now: Timestamp)
        requires
            old(self).checkin_request_count < u32::MAX,
        ensures
            *final(self) == (AppState {
                last_checkin_request: Some(now),
                checkin_request_count: (old(self).checkin_request_count + 1) as u32,
                ..*old(self)
            }),
    {
        self.last_checkin_request = Some(now);
        self.checkin_request_count = self.checkin_request_count + 1;
    }

    /// Records that a check-in was requested at the current time.
    pub fn record_checkin_request(&mut self)
        requires
            old(self).checkin_request_count < u32::MAX,
        ensures
            final(self).last_checkin_request is Some,
            final(self).checkin_request_count == old(self).checkin_request_count + 1,
            final(self).last_checkin == old(self).last_checkin,
            final(self).last_signal_fired == old(self).last_signal_fired,
            final(self).last_signal_recipients_notified@ == old(
                self,
            ).last_signal_recipients_notified@,
    {
        self.record_checkin_request_at(Timestamp::now());
    }

    /// Records that the emergency broadcast ran at `now`.
    pub fn record_last_signal_fired_at(&mut self, now: Timestamp)
        ensures
            *final(self) == (AppState { last_signal_fired: Some(now), ..*old(self) }),
    {
        self.last_signal_fired = Some(now);
    }

    /// Records that the emergency broadcast ran at the current time.
    pub fn record_last_signal_fired(&mut self)
        ensures
            final(self).last_signal_fired is Some,
            final(self).last_checkin == old(self).last_checkin,
            final(self).last_checkin_request == old(self).last_checkin_request,
            final(self).checkin_request_count == old(self).checkin_request_count,
            final(self).last_signal_recipients_notified@ == old(
                self,
            ).last_signal_recipients_notified@,
    {
        self.record_last_signal_fired_at(Timestamp::now());
    }

    /// Records that `recipient_id` was reached by the broadcast at `now`.
    pub fn record_last_signal_recipient_notified_at(&mut self, recipient_id: &str, now: Timestamp)
        ensures
            final(self).last_signal_recipients_notified@ == old(
                self,
            ).last_signal_recipients_notified@.insert(recipient_id@, now),
            final(self).last_checkin == old(self).last_checkin,
            final(self).last_checkin_request == old(self).last_checkin_request,
            final(self).last_signal_fired == old(self).last_signal_fired,
            final(self).checkin_request_count == old(self).checkin_request_count,
            final(self).version == old(self).version,
    {
        self.last_signal_recipients_notified.insert(recipient_id, now);
    }

    /// Records that `recipient_id` was reached by the broadcast at the current time.
    pub fn record_last_signal_recipient_notified(&mut self, recipient_id: &str)
        ensures
            final(self).last_signal_recipients_notified@.contains_key(recipient_id@),
            final(self).last_signal_recipients_notified@.dom() == old(
                self,
            ).last_signal_recipients_notified@.dom().insert(recipient_id@),
            final(self).last_checkin == old(self).last_checkin,
            final(self).last_checkin_request == old(self).last_checkin_request,
            final(self).last_signal_fired == old(self).last_signal_fired,
            final(self).checkin_request_count == old(self).checkin_request_count,
    {
        self.record_last_signal_recipient_notified_at(recipient_id, Timestamp::now());
    }

    pub fn is_last_signal_recipient_already_notified(&self, recipient_id: &str) -> (r: bool)
        ensures
            r == self.last_signal_recipients_notified@.contains_key(recipient_id@),
    {
        self.last_signal_recipients_notified.contains(recipient_id)
    }

    /// The ids of `all_recipient_ids` that the broadcast has not reached yet, in order.
    pub fn get_pending_last_signal_recipients(&self, all_recipient_ids: &[String]) -> (r: Vec<
        String,
    >)
        ensures
            string_views(r@) == pending_ids(
                string_views(all_recipient_ids@),
                self.last_signal_recipients_notified@,
            ),
    {
        let mut r: Vec<String> = Vec::new();
        let mut i: usize = 0;
        while i < all_recipient_ids.len()
            invariant
                i <= all_recipient_ids@.len(),
                string_views(r@) == pending_ids(
                    string_views(all_recipient_ids@.subrange(0, i as int)),
                    self.last_signal_recipients_notified@,
                ),
            decreases all_recipient_ids@.len() - i,
        {
            let id = &all_recipient_ids[i];
            let ghost before = r@;
            proof {
                let ids = string_views(all_recipient_ids@.subrange(0, i + 1));
                assert(ids.drop_last() =~= string_views(all_recipient_ids@.subrange(0, i as int)));
                assert(ids.last() == id@);
            }
            if !self.last_signal_recipients_notified.contains(id.as_str()) {
                r.push(id.clone());
                proof {
                    assert(string_views(r@) =~= string_views(before).push(id@));
                }
            }
            i = i + 1;
        }
        proof {
            assert(all_recipient_ids@.subrange(0, all_recipient_ids@.len() as int)
                =~= all_recipient_ids@);
        }
        r
    }

    /// Forgets which recipients the broadcast reached, so that it can run again.
    pub fn clear_last_signal_recipient_tracking(&mut self)
        ensures
            final(self).last_signal_recipients_notified@ == Map::<Seq<char>, Timestamp>::empty(),
            final(self).last_signal_fired is None,
            final(self).last_checkin == old(self).last_checkin,
            final(self).last_checkin_request == old(self).last_checkin_request,
            final(self).checkin_request_count == old(self).checkin_request_count,
            final(self).version == old(self).version,
    {
        self.last_signal_recipients_notified.clear();
        self.last_signal_fired = None;
    }

    /// A check-in made by hand at `now`: it also resets the broadcast's
    /// recipient tracking, so that a later escalation can run again.
    pub fn record_manual_checkin_at(&mut self, now: Timestamp)
        ensures
            manual_checkin(*old(self), *final(self), now),
    {
        self.record_checkin_at(now);
        self.clear_last_signal_recipient_tracking();
    }

    /// A check-in made by hand at the current time.
    pub fn record_manual_checkin(&mut self)
        ensures
            exists|now: Timestamp| manual_checkin(*old(self), *final(self), now),
    {
        self.record_manual_checkin_at(Timestamp::now());
    }

    pub fn days_since_last_checkin_at(&self, now: Timestamp) -> (r: Option<i64>)
        ensures
            match self.last_checkin {
                None => r is None,
                Some(c) => r == Some(days_between(c, now) as i64),
            },
    {
        match self.last_checkin {
            None => None,
            Some(c) => Some(c.days_until(now)),
        }
    }

    pub fn days_since_last_checkin_request_at(&self, now: Timestamp) -> (r: Option<i64>)
        ensures
            match self.last_checkin_request {
                None => r is None,
                Some(c) => r == Some(days_between(c, now) as i64),
            },
    {
        match self.last_checkin_request {
            None => None,
            Some(c) => Some(c.days_until(now)),
        }
    }

    pub fn days_since_last_signal_fired_at(&self, now: Timestamp) -> (r: Option<i64>)
        ensures
            match self.last_signal_fired {
                None => r is None,
                Some(c) => r == Some(days_between(c, now) as i64),
            },
    {
        match self.last_signal_fired {
            None => None,
            Some(c) => Some(c.days_until(now)),
        }
    }

    pub fn days_since_last_checkin(&self) -> (r: Option<i64>)
        ensures
            r is Some <==> self.last_checkin is Some,
    {
        self.days_since_last_checkin_at(Timestamp::now())
    }

    pub fn days_since_last_checkin_request(&self) -> (r: Option<i64>)
        ensures
            r is Some <==> self.last_checkin_request is Some,
    {
        self.days_since_last_checkin_request_at(Timestamp::now())
    }

    pub fn days_since_last_signal_fired(&self) -> (r: Option<i64>)
        ensures
            r is Some <==> self.last_signal_fired is Some,
    {
        self.days_since_last_signal_fired_at(Timestamp::now())
    }

    pub fn should_request_checkin_at(&self, duration_between_checkins: ConfigDuration, now: Timestamp) -> (r: bool)
        ensures
            r == request_due(*self, duration_between_checkins@, now),
    {
        match self.last_checkin {
            None => true,
            Some(c) => c.days_until(now) >= duration_between_checkins.as_days() as i64,
        }
    }

    pub fn should_request_checkin(&self, duration_between_checkins: ConfigDuration) -> (r: bool)
        ensures
            exists|now: Timestamp| r == request_due(*self, duration_between_checkins@, now),
            self.last_checkin is None ==> r,
    {
        self.should_request_checkin_at(duration_between_checkins, Timestamp::now())
    }

    pub fn should_fire_last_signal_at(&self, max_time_since_last_checkin: ConfigDuration, now: Timestamp) -> (r: bool)
        ensures
            r == escalation_due(*self, max_time_since_last_checkin@, now),
    {
        let days = max_time_since_last_checkin.as_days() as i64;
        match self.last_checkin {
            None => match self.last_checkin_request {
                None => false,
                Some(q) => q.days_until(now) >= days,
            },
            Some(c) => c.days_until(now) >= days,
        }
    }

    pub fn should_fire_last_signal(&self, max_time_since_last_checkin: ConfigDuration) -> (r: bool)
        ensures
            exists|now: Timestamp| r == escalation_due(*self, max_time_since_last_checkin@, now),
            self.last_checkin is None && self.last_checkin_request is None ==> !r,
    {
        self.should_fire_last_signal_at(max_time_since_last_checkin, Timestamp::now())
    }

    pub fn has_fired_last_signal_recently_at(&self, max_time_since_last_checkin: ConfigDuration, now: Timestamp) -> (r: bool)
        ensures
            r == fired_recently(*self, max_time_since_last_checkin@, now),
    {
        match self.last_signal_fired {
            None => false,
            Some(f) => f.days_until(now) < max_time_since_last_checkin.as_days() as i64,
        }
    }

    pub fn has_fired_last_signal_recently(&self, max_time_since_last_checkin: ConfigDuration) -> (r: bool)
        ensures
            exists|now: Timestamp| r == fired_recently(*self, max_time_since_last_checkin@, now),
            self.last_signal_fired is None ==> !r,
    {
        self.has_fired_last_signal_recently_at(max_time_since_last_checkin, Timestamp::now())
    }

    /// The lower bound for reply polling: the later of the last check-in and
    /// the last request, if either happened.
    pub fn checkin_watermark(&self) -> (r: Option<Timestamp>)
        ensures
            r == later_of(self.last_checkin, self.last_checkin_request),
    {
        Timestamp::later(self.last_checkin, self.last_checkin_request)
    }
}

/// A check-in is due exactly when the threshold has passed since the last
/// one: at that instant it is due, and for a threshold of whole days it was
/// not due at any earlier instant since the check-in.
pub proof fn lemma_request_due_boundary(
    s: AppState,
    threshold: ConfigDuration,
    now: Timestamp,
    tick: int,
)
    requires
        s.last_checkin is Some,
        now.micros - s.last_checkin->0.micros == threshold@ * 1_000_000,
        0 < tick <= threshold@ * 1_000_000,
    ensures
        request_due(s, threshold@, now),
        threshold@ % 86400 == 0 ==> !request_due(
            s,
            threshold@,
            Timestamp { micros: (now.micros - tick) as i64 },
        ),
{
    let t = threshold@ as int;
    let e = t * 1_000_000;
    assert(e / 86_400_000_000 == t / 86400) by (nonlinear_arith)
        requires
            e == t * 1_000_000,
            t >= 0,
    ;
    if t % 86400 == 0 {
        let k = t / 86400;
        let d = e - tick;
        assert(0 <= d < k * 86_400_000_000) by (nonlinear_arith)
            requires
                d == e - tick,
                e == t * 1_000_000,
                0 < tick <= e,
                t == k * 86400,
        ;
        assert(d / 86_400_000_000 < k) by (nonlinear_arith)
            requires
                0 <= d < k * 86_400_000_000,
        ;
    }
}

/// For a positive threshold of whole days, a check-in is due exactly when
/// the full threshold has elapsed since the last one (a zero threshold is
/// due at once, even before the check-in's time).
pub proof fn lemma_request_due_exact(s: AppState, threshold: ConfigDuration, now: Timestamp)
    requires
        s.last_checkin is Some,
        threshold@ % 86400 == 0,
        threshold@ > 0,
    ensures
        request_due(s, threshold@, now) <==> now.micros - s.last_checkin->0.micros >= threshold@
            * 1_000_000,
{
    let e = now.micros - s.last_checkin->0.micros;
    let t = threshold@ as int;
    let k = t / 86400;
    let d: int = 86_400_000_000;
    assert(t == k * 86400 && k >= 1);
    assert(t * 1_000_000 == k * d);
    if e >= k * d {
        assert(e / d >= k) by (nonlinear_arith)
            requires
                e >= k * d,
                d > 0,
                k >= 1,
        ;
    } else if e >= 0 {
        assert(e / d < k) by (nonlinear_arith)
            requires
                0 <= e < k * d,
                d > 0,
        ;
    } else {
        assert((-e) / d >= 0) by (nonlinear_arith)
            requires
                -e > 0,
                d > 0,
        ;
    }
}

/// Two manual check-ins in a row leave the request counter at zero, the
/// later time as the last check-in, and no recipient tracked, after each.
pub proof fn lemma_manual_checkin_twice(
    s0: AppState,
    s1: AppState,
    s2: AppState,
    t1: Timestamp,
    t2: Timestamp,
)
    requires
        manual_checkin(s0, s1, t1),
        manual_checkin(s1, s2, t2),
    ensures
        s1.checkin_request_count == 0,
        s2.checkin_request_count == 0,
        s1.last_checkin == Some(t1),
        s2.last_checkin == Some(t2),
        s1.last_signal_recipients_notified@ == Map::<Seq<char>, Timestamp>::empty(),
        s2.last_signal_recipients_notified@ == Map::<Seq<char>, Timestamp>::empty(),
        s2.last_checkin_request == s0.last_checkin_request,
{
}

impl Default for AppState {
    fn default() -> (r: AppState)
        ensures
            r.last_checkin is None,
            r.last_checkin_request is None,
            r.last_signal_fired is None,
            r.checkin_request_count == 0,
            r.last_signal_recipients_notified@ == Map::<Seq<char>, Timestamp>::empty(),
    {
        AppState::new()
    }
}

} // verus!
