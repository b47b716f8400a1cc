//! Points in time, held as microseconds since the Unix epoch (UTC).

use vstd::prelude::*;

verus! {

/// Microseconds in one day.
pub const DAY_MICROS: i64 = 86_400_000_000;

/// Microseconds in one hour.
pub const HOUR_MICROS: i64 = 3_600_000_000;

/// Microseconds in one second.
pub const SECOND_MICROS: i64 = 1_000_000;

/// Largest distance from the epoch, either way, that the calendar formatter
/// is asked to render (about year 255 000).
pub const RENDERABLE_MICROS: i64 = 8_000_000_000_000_000_000;

/// A point in time: microseconds since 1970-01-01 00:00:00 UTC.
#[derive(Clone, Copy, Debug, PartialEq, Eq, Structural)]
pub struct Timestamp {
    pub micros: i64,
}

/// Quotient of `a` by `b`, rounded toward zero.
pub open spec fn div_toward_zero(a: int, b: int) -> int {
    if a >= 0 {
        a / b
    } else {
        -((-a) / b)
    }
}

/// Whole days from `from` to `to`, rounded toward zero (negative when `to` is earlier).
pub open spec fn days_between(from: Timestamp, to: Timestamp) -> int {
    div_toward_zero(to.micros - from.micros, DAY_MICROS as int)
}

/// Whole hours from `from` to `to`, rounded toward zero.
pub open spec fn hours_between(from: Timestamp, to: Timestamp) -> int {
    div_toward_zero(to.micros - from.micros, HOUR_MICROS as int)
}

/// The later of two optional points in time (the first when they are equal).
pub open spec fn later_of(a: Option<Timestamp>, b: Option<Timestamp>) -> Option<Timestamp> {
    match (a, b) {
        (None, _) => b,
        (_, None) => a,
        (Some(x), Some(y)) => if x.micros >= y.micros {
            a
        } else {
            b
        },
    }
}

/// The calendar text `YYYY-MM-DD HH:MM:SS UTC` of a point in time.
pub uninterp spec fn utc_text(micros: int) -> Seq<char>;

impl Timestamp {
    pub open spec fn renderable(self) -> bool {
        -RENDERABLE_MICROS <= self.micros <= RENDERABLE_MICROS
    }

    /// The current time.
    ///
    /// Relies on `chrono::Utc::now` and `DateTime::timestamp_micros`; nothing
    /// is promised of the value read from the clock.
    #[verifier::external_body]
    pub(crate) fn now() -> (r: Timestamp) {
        Timestamp { micros: chrono::Utc::now().timestamp_micros() }
    }

    /// The point in time `micros` microseconds after the epoch.
    pub fn from_micros(micros: i64) -> (r: Timestamp)
        ensures
            r.micros == micros,
    {
        Timestamp { micros }
    }

    /// The later of two optional points in time (the first when they are equal).
    pub fn later(a: Option<Timestamp>, b: Option<Timestamp>) -> (r: Option<Timestamp>)
        ensures
            r == later_of(a, b),
    {
        match (a, b) {
            (None, _) => b,
            (_, None) => a,
            (Some(x), Some(y)) => if x.micros >= y.micros {
                a
            } else {
                b
            },
        }
    }

    pub fn is_before(&self, other: &Timestamp) -> (r: bool)
        ensures
            r == (self.micros < other.micros),
    {
        self.micros < other.micros
    }

    /// Whole days elapsed from `self` until `now`, rounded toward zero.
    pub fn days_until(&self, now: Timestamp) -> (r: i64)
        ensures
            r == days_between(*self, now),
    {
        div_toward_zero_exec(now.micros as i128 - self.micros as i128, DAY_MICROS as u128)
    }

    /// Whole hours elapsed from `self` until `now`, rounded toward zero.
    pub fn hours_until(&self, now: Timestamp) -> (r: i64)
        ensures
            r == hours_between(*self, now),
    {
        div_toward_zero_exec(now.micros as i128 - self.micros as i128, HOUR_MICROS as u128)
    }

    /// The calendar text of this point in time.
    ///
    /// Relies on `chrono::DateTime::from_timestamp_micros`, which succeeds for
    /// every year between -262143 and 262142, and on chrono's `format`.
    #[verifier::external_body]
    pub(crate) fn to_utc_text(&self) -> (r: String)
        requires
            self.renderable(),
        ensures
            r@ == utc_text(self.micros as int),
    {
        chrono::DateTime::from_timestamp_micros(self.micros).unwrap().format(
            "%Y-%m-%d %H:%M:%S UTC",
        ).to_string()
    }
}

fn div_toward_zero_exec(a: i128, b: u128) -> (r: i64)
    requires
        b >= 1_000_000,
        -0x1_0000_0000_0000_0000 <= a <= 0x1_0000_0000_0000_0000,
    ensures
        r == div_toward_zero(a as int, b as int),
{
    if a >= 0 {
        let q = (a as u128) / b;
        assert(q <= a) by (nonlinear_arith)
            requires
                q as int == (a as int) / (b as int),
                b >= 1,
                a >= 0,
        ;
        assert(q as int * 1_000_000 <= a) by (nonlinear_arith)
            requires
                q as int == (a as int) / (b as int),
                b >= 1_000_000,
                a >= 0,
        ;
        q as i64
    } else {
        let m: u128 = (-a) as u128;
        let q = m / b;
        assert(q as int * 1_000_000 <= m) by (nonlinear_arith)
            requires
                q as int == (m as int) / (b as int),
                b >= 1_000_000,
        ;
        -(q as i64)
    }
}

} // verus!
