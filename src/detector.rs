//! Check-in detection: the replies gathered from every reply-capable channel
//! are merged, and the newest one, if any, becomes the new check-in.

use vstd::prelude::*;
use crate::state::{after_checkin, AppState};
use crate::timestamp::Timestamp;

verus! {

/// One candidate check-in signal observed on a channel.
#[derive(Clone, Debug)]
pub enum CheckinResponse {
    /// Nothing new was found.
    NoResponse,
    /// A reply (or other sign of life) observed at `timestamp`.
    Found { timestamp: Timestamp, subject: String, from: String },
}

/// The responses of the channels whose poll succeeded, in channel order;
/// failed polls contribute nothing.
pub open spec fn merged(polls: Seq<Result<Vec<CheckinResponse>, String>>) -> Seq<CheckinResponse>
    decreases polls.len(),
{
    if polls.len() == 0 {
        Seq::empty()
    } else {
        let head = match polls[0] {
            Ok(v) => v@,
            Err(_) => Seq::empty(),
        };
        head + merged(polls.subrange(1, polls.len() as int))
    }
}

/// The newest timestamp among the `Found` responses; of equal ones, the later
/// response counts.
pub open spec fn latest_time(s: Seq<CheckinResponse>) -> Option<Timestamp>
    decreases s.len(),
{
    if s.len() == 0 {
        None
    } else {
        let rest = latest_time(s.drop_last());
        match s.last() {
            CheckinResponse::NoResponse => rest,
            CheckinResponse::Found { timestamp, .. } => match rest {
                None => Some(timestamp),
                Some(u) => if timestamp.micros >= u.micros {
                    Some(timestamp)
                } else {
                    Some(u)
                },
            },
        }
    }
}

/// Response `i` of `s` is `Found` with the time `t` holds.
pub open spec fn found_with(s: Seq<CheckinResponse>, i: int, t: Option<Timestamp>) -> bool {
    0 <= i < s.len() && match s[i] {
        CheckinResponse::Found { timestamp, .. } => t == Some(timestamp),
        CheckinResponse::NoResponse => false,
    }
}

/// Merges the outcomes of polling every channel, tolerating failed polls.
pub fn merge_responses(polls: Vec<Result<Vec<CheckinResponse>, String>>) -> (r: Vec<CheckinResponse>)
    ensures
        r@ == merged(polls@),
{
    let ghost all = polls@;
    let mut polls = polls;
    let mut r: Vec<CheckinResponse> = Vec::new();
    while polls.len() > 0
        invariant
            r@ + merged(polls@) == merged(all),
        decreases polls@.len(),
    {
        let ghost before = polls@;
        let head = polls.remove(0);
        proof {
            assert(polls@ =~= before.subrange(1, before.len() as int));
        }
        match head {
            Ok(mut v) => {
                let ghost rv = r@;
                let ghost vv = v@;
                r.append(&mut v);
                proof {
                    assert(r@ + merged(polls@) =~= rv + (vv + merged(polls@)));
                }
            },
            Err(_) => {
                proof {
                    assert(Seq::<CheckinResponse>::empty() + merged(polls@) =~= merged(polls@));
                }
            },
        }
    }
    proof {
        assert(r@ + merged(polls@) =~= r@);
    }
    r
}

/// Index of the newest `Found` response (the later one among equals).
pub fn latest_response(responses: &Vec<CheckinResponse>) -> (r: Option<usize>)
    ensures
        match r {
            None => latest_time(responses@) is None,
            Some(i) => found_with(responses@, i as int, latest_time(responses@)),
        },
{
    let mut best: Option<usize> = None;
    let mut i: usize = 0;
    while i < responses.len()
        invariant
            i <= responses@.len(),
            match best {
                None => latest_time(responses@.subrange(0, i as int)) is None,
                Some(b) => b < i && found_with(
                    responses@,
                    b as int,
                    latest_time(responses@.subrange(0, i as int)),
                ),
            },
        decreases responses@.len() - i,
    {
        proof {
            assert(responses@.subrange(0, i + 1).drop_last() =~= responses@.subrange(0, i as int));
        }
        match &responses[i] {
            CheckinResponse::NoResponse => {},
            CheckinResponse::Found { timestamp, .. } => {
                match best {
                    None => {
                        best = Some(i);
                    },
                    Some(b) => {
                        let newer = match &responses[b] {
                            CheckinResponse::Found { timestamp: u, .. } => timestamp.micros
                                >= u.micros,
                            CheckinResponse::NoResponse => true,
                        };
                        if newer {
                            best = Some(i);
                        }
                    },
                }
            },
        }
        i = i + 1;
    }
    proof {
        assert(responses@.subrange(0, responses@.len() as int) =~= responses@);
    }
    best
}

/// Applies the outcome of one detection pass to the lifecycle record: with
/// any `Found` response, a check-in is recorded at the newest one's time,
/// which is returned so that every channel can be marked as consumed up to
/// it; otherwise nothing changes.
pub fn apply_detection(state: &mut AppState, polls: Vec<Result<Vec<CheckinResponse>, String>>) -> (r:
    Option<Timestamp>)
    ensures
        r == latest_time(merged(polls@)),
        match r {
            None => *final(state) == *old(state),
            Some(t) => *final(state) == after_checkin(*old(state), t),
        },
{
    let responses = merge_responses(polls);
    match latest_response(&responses) {
        None => None,
        Some(i) => {
            let t = match &responses[i] {
                CheckinResponse::Found { timestamp, .. } => *timestamp,
                CheckinResponse::NoResponse => {
                    return None;
                },
            };
            state.record_checkin_at(t);
            Some(t)
        },
    }
}

} // verus!
