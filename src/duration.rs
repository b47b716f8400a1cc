//! Validated, unit-carrying time spans such as `7d`, `24h`, `30m` or `3600s`.

use vstd::prelude::*;
use crate::text::{
    all_digits, ascii_digit, digit_value, digits_value, lemma_digits_prefix_grows, text_eq, trim,
    trim_end, trim_start, trim_text, leading_space, trailing_space, white_space,
};

verus! {

pub const SECS_PER_MINUTE: u64 = 60;

pub const SECS_PER_HOUR: u64 = 3600;

pub const SECS_PER_DAY: u64 = 86400;

/// A span of whole seconds.
#[derive(Clone, Copy, Debug, PartialEq, Eq, Structural)]
pub struct ConfigDuration {
    secs: u64,
}

/// Why a duration text was refused.
#[derive(Clone, Copy, Debug, PartialEq, Eq, Structural)]
pub enum DurationError {
    Empty,
    MissingNumber,
    MissingUnit,
    InvalidNumber,
    Zero,
    UnknownUnit,
    TooLarge,
}

impl View for ConfigDuration {
    type V = nat;

    closed spec fn view(&self) -> nat {
        self.secs as nat
    }
}

/// Seconds per unit for each accepted unit name.
pub open spec fn unit_seconds(u: Seq<char>) -> Option<nat> {
    if u == "s"@ || u == "sec"@ || u == "secs"@ || u == "second"@ || u == "seconds"@ {
        Some(1)
    } else if u == "m"@ || u == "min"@ || u == "mins"@ || u == "minute"@ || u == "minutes"@ {
        Some(60)
    } else if u == "h"@ || u == "hr"@ || u == "hrs"@ || u == "hour"@ || u == "hours"@ {
        Some(3600)
    } else if u == "d"@ || u == "day"@ || u == "days"@ {
        Some(86400)
    } else {
        None
    }
}

/// Length of the run of ASCII digits at the start of `s`.
pub open spec fn digit_run(s: Seq<char>) -> nat
    decreases s.len(),
{
    if s.len() > 0 && ascii_digit(s[0]) {
        1 + digit_run(s.subrange(1, s.len() as int))
    } else {
        0
    }
}

/// What parsing `t` (already trimmed) gives, in seconds.
pub open spec fn parse_trimmed_spec(t: Seq<char>) -> Result<nat, DurationError> {
    let k = digit_run(t) as int;
    let number = t.subrange(0, k);
    let unit = trim(t.subrange(k, t.len() as int));
    if t.len() == 0 {
        Err(DurationError::Empty)
    } else if k == 0 {
        Err(DurationError::MissingNumber)
    } else if k == t.len() || unit.len() == 0 {
        Err(DurationError::MissingUnit)
    } else if digits_value(number) > u64::MAX {
        Err(DurationError::InvalidNumber)
    } else if digits_value(number) == 0 {
        Err(DurationError::Zero)
    } else {
        match unit_seconds(unit) {
            None => Err(DurationError::UnknownUnit),
            Some(m) => if digits_value(number) * m > u64::MAX {
                Err(DurationError::TooLarge)
            } else {
                Ok(digits_value(number) * m)
            },
        }
    }
}

/// What parsing the text `s` gives, in seconds: surrounding white space is
/// ignored, then a positive decimal number, optional white space and a unit.
pub open spec fn parse_spec(s: Seq<char>) -> Result<nat, DurationError> {
    parse_trimmed_spec(trim(s))
}

pub open spec fn digit_char(d: nat) -> char {
    if d == 0 {
        '0'
    } else if d == 1 {
        '1'
    } else if d == 2 {
        '2'
    } else if d == 3 {
        '3'
    } else if d == 4 {
        '4'
    } else if d == 5 {
        '5'
    } else if d == 6 {
        '6'
    } else if d == 7 {
        '7'
    } else if d == 8 {
        '8'
    } else {
        '9'
    }
}

/// Decimal digits of `n`, most significant first, without leading zeros.
pub open spec fn decimal(n: nat) -> Seq<char>
    decreases n,
{
    if n < 10 {
        seq![digit_char(n)]
    } else {
        decimal(n / 10).push(digit_char(n % 10))
    }
}

/// The display text of a span of `secs` seconds: the largest of days, hours,
/// minutes and seconds that divides it evenly, with its one-letter unit.
pub open spec fn display_spec(secs: nat) -> Seq<char> {
    if secs % 86400 == 0 {
        decimal(secs / 86400) + "d"@
    } else if secs % 3600 == 0 {
        decimal(secs / 3600) + "h"@
    } else if secs % 60 == 0 {
        decimal(secs / 60) + "m"@
    } else {
        decimal(secs) + "s"@
    }
}

fn digit_text(d: u64) -> (r: &'static str)
    requires
        d < 10,
    ensures
        r@ == seq![digit_char(d as nat)],
{
    proof {
        reveal_strlit("0");
        reveal_strlit("1");
        reveal_strlit("2");
        reveal_strlit("3");
        reveal_strlit("4");
        reveal_strlit("5");
        reveal_strlit("6");
        reveal_strlit("7");
        reveal_strlit("8");
        reveal_strlit("9");
    }
    let r = if d == 0 {
        "0"
    } else if d == 1 {
        "1"
    } else if d == 2 {
        "2"
    } else if d == 3 {
        "3"
    } else if d == 4 {
        "4"
    } else if d == 5 {
        "5"
    } else if d == 6 {
        "6"
    } else if d == 7 {
        "7"
    } else if d == 8 {
        "8"
    } else {
        "9"
    };
    assert(r@ =~= seq![digit_char(d as nat)]);
    r
}

/// The decimal digits of `n`, most significant first.
fn decimal_text(n: u64) -> (r: String)
    ensures
        r@ == decimal(n as nat),
{
    let mut m = n;
    let mut acc = String::new();
    while m >= 10
        invariant
            decimal(n as nat) == decimal(m as nat) + acc@,
        decreases m,
    {
        let ghost before = acc@;
        acc = digit_text(m % 10).to_string().concat(acc.as_str());
        proof {
            assert(decimal(m as nat) == decimal((m / 10) as nat).push(digit_char((m % 10) as nat)));
            assert(decimal(m as nat) + before =~= decimal((m / 10) as nat) + acc@);
        }
        m = m / 10;
    }
    let r = digit_text(m).to_string().concat(acc.as_str());
    proof {
        assert(decimal(m as nat) == seq![digit_char(m as nat)]);
    }
    r
}

proof fn lemma_digit_run_prefix(s: Seq<char>, i: int)
    requires
        0 <= i <= s.len(),
        forall|j: int| 0 <= j < i ==> ascii_digit(#[trigger] s[j]),
    ensures
        digit_run(s) == i + digit_run(s.subrange(i, s.len() as int)),
    decreases i,
{
    if i > 0 {
        let t = s.subrange(1, s.len() as int);
        assert(ascii_digit(s[0]));
        lemma_digit_run_prefix(t, i - 1);
        assert(t.subrange(i - 1, t.len() as int) =~= s.subrange(i, s.len() as int));
    } else {
        assert(s.subrange(0, s.len() as int) =~= s);
    }
}

fn digit_at(t: &str, k: usize) -> (r: bool)
    requires
        k < t@.len(),
    ensures
        r == ascii_digit(t@[k as int]),
{
    let c = t.get_char(k);
    '0' <= c && c <= '9'
}

/// Reads the decimal number written by the digits `s[0..k]`, if it fits in a `u64`.
fn read_number(s: &str, k: usize) -> (r: Option<u64>)
    requires
        k <= s@.len(),
        all_digits(s@.subrange(0, k as int)),
    ensures
        match r {
            Some(v) => v as nat == digits_value(s@.subrange(0, k as int)),
            None => digits_value(s@.subrange(0, k as int)) > u64::MAX,
        },
{
    let mut v: u64 = 0;
    let mut i: usize = 0;
    while i < k
        invariant
            i <= k <= s@.len(),
            all_digits(s@.subrange(0, k as int)),
            v as nat == digits_value(s@.subrange(0, i as int)),
        decreases k - i,
    {
        let c = s.get_char(i);
        assert(s@.subrange(0, k as int)[i as int] == c);
        let d: u32 = (c as u32) - ('0' as u32);
        let w: u128 = v as u128 * 10 + d as u128;
        proof {
            assert(s@.subrange(0, i + 1).drop_last() =~= s@.subrange(0, i as int));
            assert(w == digits_value(s@.subrange(0, i + 1)));
        }
        if w > u64::MAX as u128 {
            proof {
                lemma_digits_prefix_grows(s@.subrange(0, k as int), i + 1, k as int);
                assert(s@.subrange(0, k as int).subrange(0, i + 1) =~= s@.subrange(0, i + 1));
                assert(s@.subrange(0, k as int).subrange(0, k as int) =~= s@.subrange(0, k as int));
            }
            return None;
        }
        v = w as u64;
        i = i + 1;
    }
    Some(v)
}

impl ConfigDuration {
    /// Relies on `std::time::Duration::from_secs`.
    #[verifier::external_body]
    pub fn as_duration(&self) -> std::time::Duration {
        std::time::Duration::from_secs(self.secs)
    }

    pub fn as_secs(&self) -> (r: u64)
        ensures
            r == self@,
    {
        self.secs
    }

    pub fn as_days(&self) -> (r: u64)
        ensures
            r == self@ / 86400,
            r <= u64::MAX / 86400,
    {
        self.secs / SECS_PER_DAY
    }

    pub fn as_hours(&self) -> (r: u64)
        ensures
            r == self@ / 3600,
    {
        self.secs / SECS_PER_HOUR
    }

    pub fn as_minutes(&self) -> (r: u64)
        ensures
            r == self@ / 60,
    {
        self.secs / SECS_PER_MINUTE
    }

    pub fn from_days(days: u64) -> (r: ConfigDuration)
        requires
            days * 86400 <= u64::MAX,
        ensures
            r@ == days * 86400,
    {
        ConfigDuration { secs: days * SECS_PER_DAY }
    }

    pub fn from_hours(hours: u64) -> (r: ConfigDuration)
        requires
            hours * 3600 <= u64::MAX,
        ensures
            r@ == hours * 3600,
    {
        ConfigDuration { secs: hours * SECS_PER_HOUR }
    }

    pub fn from_minutes(minutes: u64) -> (r: ConfigDuration)
        requires
            minutes * 60 <= u64::MAX,
        ensures
            r@ == minutes * 60,
    {
        ConfigDuration { secs: minutes * SECS_PER_MINUTE }
    }

    pub fn from_seconds(seconds: u64) -> (r: ConfigDuration)
        ensures
            r@ == seconds,
    {
        ConfigDuration { secs: seconds }
    }

    /// Parses a text that has no surrounding white space.
    pub fn parse_trimmed(t: &str) -> (r: Result<ConfigDuration, DurationError>)
        ensures
            match (r, parse_trimmed_spec(t@)) {
                (Ok(d), Ok(secs)) => d@ == secs,
                (Err(e), Err(f)) => e == f,
                _ => false,
            },
    {
        let n = t.unicode_len();
        if n == 0 {
            return Err(DurationError::Empty);
        }
        let mut k: usize = 0;
        while k < n && digit_at(t, k)
            invariant
                k <= n,
                n == t@.len(),
                forall|j: int| 0 <= j < k ==> ascii_digit(#[trigger] t@[j]),
            decreases n - k,
        {
            k = k + 1;
        }
        proof {
            lemma_digit_run_prefix(t@, k as int);
            let rest = t@.subrange(k as int, t@.len() as int);
            if k < n {
                assert(rest[0] == t@[k as int]);
            }
            assert(digit_run(rest) == 0);
            assert forall|j: int| 0 <= j < k implies ascii_digit(
                #[trigger] t@.subrange(0, k as int)[j],
            ) by {
                assert(t@.subrange(0, k as int)[j] == t@[j]);
            }
        }
        if k == 0 {
            return Err(DurationError::MissingNumber);
        }
        if k == n {
            return Err(DurationError::MissingUnit);
        }
        let unit = trim_text(t.substring_char(k, n));
        if unit.unicode_len() == 0 {
            return Err(DurationError::MissingUnit);
        }
        let value = match read_number(t, k) {
            Some(v) => v,
            None => {
                return Err(DurationError::InvalidNumber);
            },
        };
        if value == 0 {
            return Err(DurationError::Zero);
        }
        let u = unit.as_str();
        let per: u64 = if text_eq(u, "s") || text_eq(u, "sec") || text_eq(u, "secs") || text_eq(
            u,
            "second",
        ) || text_eq(u, "seconds") {
            1
        } else if text_eq(u, "m") || text_eq(u, "min") || text_eq(u, "mins") || text_eq(u, "minute")
            || text_eq(u, "minutes") {
            SECS_PER_MINUTE
        } else if text_eq(u, "h") || text_eq(u, "hr") || text_eq(u, "hrs") || text_eq(u, "hour")
            || text_eq(u, "hours") {
            SECS_PER_HOUR
        } else if text_eq(u, "d") || text_eq(u, "day") || text_eq(u, "days") {
            SECS_PER_DAY
        } else {
            return Err(DurationError::UnknownUnit);
        };
        let total: u128 = if per == 1 {
            value as u128
        } else if per == SECS_PER_MINUTE {
            value as u128 * 60
        } else if per == SECS_PER_HOUR {
            value as u128 * 3600
        } else {
            value as u128 * 86400
        };
        if total > u64::MAX as u128 {
            return Err(DurationError::TooLarge);
        }
        Ok(ConfigDuration { secs: total as u64 })
    }

    /// Parses a duration text such as `7d`, `24 hours` or `3600s`.
    pub fn parse(s: &str) -> (r: Result<ConfigDuration, DurationError>)
        ensures
            match (r, parse_spec(s@)) {
                (Ok(d), Ok(secs)) => d@ == secs,
                (Err(e), Err(f)) => e == f,
                _ => false,
            },
    {
        let t = trim_text(s);
        ConfigDuration::parse_trimmed(t.as_str())
    }

    /// The display text, in the largest unit that divides the span evenly.
    pub fn to_string(&self) -> (r: String)
        ensures
            r@ == display_spec(self@),
    {
        let secs = self.secs;
        if secs % SECS_PER_DAY == 0 {
            decimal_text(secs / SECS_PER_DAY).concat("d")
        } else if secs % SECS_PER_HOUR == 0 {
            decimal_text(secs / SECS_PER_HOUR).concat("h")
        } else if secs % SECS_PER_MINUTE == 0 {
            decimal_text(secs / SECS_PER_MINUTE).concat("m")
        } else {
            decimal_text(secs).concat("s")
        }
    }
}

impl DurationError {
    pub fn message(&self) -> (r: &'static str) {
        match self {
            DurationError::Empty => "Duration cannot be empty",
            DurationError::MissingNumber => "Duration must start with a number",
            DurationError::MissingUnit => "Duration must include a unit (s, m, h, d)",
            DurationError::InvalidNumber => "Invalid number in duration",
            DurationError::Zero => "Duration must be greater than 0",
            DurationError::UnknownUnit => "Invalid duration unit. Valid units: s, m, h, d (or their full names)",
            DurationError::TooLarge => "Duration is too large",
        }
    }
}

impl std::str::FromStr for ConfigDuration {
    type Err = DurationError;

    fn from_str(s: &str) -> Result<ConfigDuration, DurationError> {
        ConfigDuration::parse(s)
    }
}

proof fn lemma_digit_char(d: nat)
    requires
        d < 10,
    ensures
        ascii_digit(digit_char(d)),
        digit_value(digit_char(d)) == d,
{
}

proof fn lemma_decimal(n: nat)
    ensures
        decimal(n).len() > 0,
        all_digits(decimal(n)),
        digits_value(decimal(n)) == n,
    decreases n,
{
    if n < 10 {
        lemma_digit_char(n);
        let s = decimal(n);
        assert(s.drop_last() =~= Seq::<char>::empty());
        assert(digits_value(Seq::<char>::empty()) == 0);
        assert(s.last() == digit_char(n));
        assert(digits_value(s) == digits_value(s.drop_last()) * 10 + digit_value(s.last()));
    } else {
        lemma_decimal(n / 10);
        lemma_digit_char(n % 10);
        let s = decimal(n);
        assert(s.drop_last() =~= decimal(n / 10));
        assert forall|i: int| 0 <= i < s.len() implies ascii_digit(#[trigger] s[i]) by {
            if i < s.len() - 1 {
                assert(s[i] == decimal(n / 10)[i]);
            }
        }
        assert(s.last() == digit_char(n % 10));
        assert(digits_value(s) == digits_value(s.drop_last()) * 10 + digit_value(s.last()));
        assert((n / 10) * 10 + n % 10 == n);
    }
}

/// A text made of a decimal number and a one-letter unit needs no trimming
/// and splits into that number and that unit.
proof fn lemma_number_unit_text(q: nat, u: Seq<char>)
    requires
        q > 0,
        u.len() == 1,
        !ascii_digit(u[0]),
        !white_space(u[0]),
    ensures
        trim(decimal(q) + u) == decimal(q) + u,
        digit_run(decimal(q) + u) == decimal(q).len(),
        (decimal(q) + u).subrange(0, decimal(q).len() as int) == decimal(q),
        trim((decimal(q) + u).subrange(decimal(q).len() as int, (decimal(q) + u).len() as int)) == u,
{
    lemma_decimal(q);
    let n = decimal(q);
    let t = n + u;
    assert(t.last() == u[0]);
    assert(trailing_space(t) == 0);
    assert(t.subrange(0, t.len() as int) =~= t);
    assert(trim_end(t) == t);
    assert(t[0] == n[0]);
    assert(!white_space(n[0]));
    assert(leading_space(t) == 0);
    assert(trim(t) == t);
    assert forall|j: int| 0 <= j < n.len() implies ascii_digit(#[trigger] t[j]) by {
        assert(t[j] == n[j]);
    }
    lemma_digit_run_prefix(t, n.len() as int);
    let rest = t.subrange(n.len() as int, t.len() as int);
    assert(rest =~= u);
    assert(t.subrange(0, n.len() as int) =~= n);
    assert(u.subrange(0, u.len() as int) =~= u);
    assert(trailing_space(u) == 0) by {
        assert(u.last() == u[0]);
    }
    assert(leading_space(u) == 0);
    assert(trim(u) == u);
}

proof fn lemma_unit_names()
    ensures
        unit_seconds("s"@) == Some(1nat),
        unit_seconds("m"@) == Some(60nat),
        unit_seconds("h"@) == Some(3600nat),
        unit_seconds("d"@) == Some(86400nat),
{
    reveal_strlit("s");
    reveal_strlit("sec");
    reveal_strlit("secs");
    reveal_strlit("second");
    reveal_strlit("seconds");
    reveal_strlit("m");
    reveal_strlit("min");
    reveal_strlit("mins");
    reveal_strlit("minute");
    reveal_strlit("minutes");
    reveal_strlit("h");
    reveal_strlit("hr");
    reveal_strlit("hrs");
    reveal_strlit("hour");
    reveal_strlit("hours");
    reveal_strlit("d");
    assert("sec"@.len() == 3 && "secs"@.len() == 4 && "second"@.len() == 6 && "seconds"@.len() == 7);
    assert("min"@.len() == 3 && "mins"@.len() == 4 && "minute"@.len() == 6 && "minutes"@.len() == 7);
    assert("hr"@.len() == 2 && "hrs"@.len() == 3 && "hour"@.len() == 4 && "hours"@.len() == 5);
    assert("s"@.len() == 1 && "m"@.len() == 1 && "h"@.len() == 1 && "d"@.len() == 1);
    assert("m"@ != "s"@) by {
        assert("m"@[0] != "s"@[0]);
    }
    assert("h"@ != "s"@ && "h"@ != "m"@) by {
        assert("h"@[0] != "s"@[0]);
        assert("h"@[0] != "m"@[0]);
    }
    assert("d"@ != "s"@ && "d"@ != "m"@ && "d"@ != "h"@) by {
        assert("d"@[0] != "s"@[0]);
        assert("d"@[0] != "m"@[0]);
        assert("d"@[0] != "h"@[0]);
    }
}

proof fn lemma_round_trip_unit(secs: nat, f: nat, u: Seq<char>)
    requires
        0 < secs <= u64::MAX,
        f > 0,
        secs % f == 0,
        u.len() == 1,
        !ascii_digit(u[0]),
        !white_space(u[0]),
        unit_seconds(u) == Some(f),
    ensures
        parse_spec(decimal(secs / f) + u) == Ok::<nat, DurationError>(secs),
{
    let q = secs / f;
    assert(q * f == secs) by (nonlinear_arith)
        requires
            secs % f == 0,
            f > 0,
            q == secs / f,
    ;
    assert(q > 0) by (nonlinear_arith)
        requires
            q * f == secs,
            secs > 0,
    ;
    assert(q <= secs) by (nonlinear_arith)
        requires
            q * f == secs,
            f > 0,
            q > 0,
    ;
    lemma_decimal(q);
    lemma_number_unit_text(q, u);
}

/// Displaying a positive duration and parsing the text back gives the same
/// duration.
pub proof fn lemma_display_parse_round_trip(d: ConfigDuration)
    requires
        d@ > 0,
    ensures
        parse_spec(display_spec(d@)) == Ok::<nat, DurationError>(d@),
{
    let secs = d@;
    assert(secs <= u64::MAX) by {
        assert(d@ == d.secs as nat);
    }
    lemma_unit_names();
    reveal_strlit("s");
    reveal_strlit("m");
    reveal_strlit("h");
    reveal_strlit("d");
    if secs % 86400 == 0 {
        lemma_round_trip_unit(secs, 86400, "d"@);
    } else if secs % 3600 == 0 {
        lemma_round_trip_unit(secs, 3600, "h"@);
    } else if secs % 60 == 0 {
        lemma_round_trip_unit(secs, 60, "m"@);
    } else {
        assert(secs / 1 == secs);
        assert(secs % 1 == 0);
        lemma_round_trip_unit(secs, 1, "s"@);
    }
}

} // verus!
