//! A signed time span and its rendering as an English phrase.

use vstd::prelude::*;
use vstd::string::StringExecFns;

verus! {

/// Indicates the time of the period in relation to the time of the utterance.
#[derive(Clone, Copy, Debug, Hash, PartialEq, Eq, Structural, PartialOrd)]
pub enum Tense {
    Past,
    Present,
    Future,
}

/// The accuracy of the representation.
#[derive(Clone, Copy, Debug, Hash, PartialEq, Eq, Structural, PartialOrd)]
pub enum Accuracy {
    /// Rough approximation, easy to grasp, but not necessarily accurate.
    Rough,
    /// Concise expression, accurate, but not necessarily easy to grasp.
    Precise,
}

impl Accuracy {
    /// Returns whether this accuracy is precise.
    #[must_use]
    pub fn is_precise(self) -> (r: bool)
        ensures
            r == (self is Precise),
    {
        self == Self::Precise
    }

    /// Returns whether this accuracy is rough.
    #[must_use]
    pub fn is_rough(self) -> (r: bool)
        ensures
            r == (self is Rough),
    {
        self == Self::Rough
    }
}

// Number of seconds in various time periods.
pub const S_MINUTE: u64 = 60;

pub const S_HOUR: u64 = 60 * S_MINUTE;

pub const S_DAY: u64 = 24 * S_HOUR;

pub const S_WEEK: u64 = 7 * S_DAY;

pub const S_MONTH: u64 = 30 * S_DAY;

pub const S_YEAR: u64 = 365 * S_DAY;

/// Number of nanoseconds in one second.
pub const NANOS_PER_SEC: u32 = 1_000_000_000;

/// The mathematical value of a [`HumanTime`]: a non-negative magnitude,
/// held as whole seconds plus a sub-second nanosecond part, and a sign.
pub struct HumanTimeView {
    pub secs: int,
    pub nanos: int,
    pub is_positive: bool,
}

impl HumanTimeView {
    /// The values an actual span can hold: the magnitude fits the machine
    /// representation, the sub-second part is below one second, and a zero
    /// magnitude always carries the non-negative sign.
    pub open spec fn wf(self) -> bool {
        &&& 0 <= self.secs <= u64::MAX
        &&& 0 <= self.nanos < NANOS_PER_SEC
        &&& (self.secs == 0 && self.nanos == 0 ==> self.is_positive)
    }

    /// The whole magnitude, in nanoseconds.
    pub open spec fn total_nanos(self) -> int {
        self.secs * (NANOS_PER_SEC as int) + self.nanos
    }

    /// The whole seconds of the span with the sign applied.
    pub open spec fn signed_secs(self) -> int {
        if self.is_positive {
            self.secs
        } else {
            -self.secs
        }
    }

    /// Whether the magnitude is zero, regardless of sign.
    pub open spec fn is_zero(self) -> bool {
        self.secs == 0 && self.nanos == 0
    }
}

/// The span a signed count of whole seconds constructs: the magnitude is the
/// absolute value and zero counts as positive.
pub open spec fn view_of_signed_secs(n: int) -> HumanTimeView {
    HumanTimeView { secs: if n >= 0 { n } else { -n }, nanos: 0, is_positive: n >= 0 }
}

/// A span of time that can be expressed in human languages: a non-negative
/// duration plus a sign flag carried out of band.
#[derive(Clone, Copy, Debug, PartialEq, PartialOrd)]
pub struct HumanTime {
    secs: u64,
    nanos: u32,
    is_positive: bool,
}

impl View for HumanTime {
    type V = HumanTimeView;

    closed spec fn view(&self) -> HumanTimeView {
        HumanTimeView { secs: self.secs as int, nanos: self.nanos as int, is_positive: self.is_positive }
    }
}

impl HumanTime {
    /// Create a `HumanTime` that corresponds to the current point in time,
    /// that is, a span of zero length.
    pub fn now() -> (r: Self)
        ensures
            r@ == view_of_signed_secs(0),
    {
        Self { secs: 0, nanos: 0, is_positive: true }
    }

    /// Check if the `HumanTime` duration is zero.
    pub fn is_zero(self) -> (r: bool)
        ensures
            r == self@.is_zero(),
    {
        self.secs == 0 && self.nanos == 0
    }

    /// The whole seconds of the magnitude, without the sign.
    pub fn secs(&self) -> (r: u64)
        ensures
            r == self@.secs,
    {
        self.secs
    }

    /// The sub-second part of the magnitude, in nanoseconds.
    pub fn subsec_nanos(&self) -> (r: u32)
        ensures
            r == self@.nanos,
    {
        self.nanos
    }

    /// The sign of the span; a zero span is always positive.
    pub fn is_positive(&self) -> (r: bool)
        ensures
            r == self@.is_positive,
    {
        self.is_positive
    }

    /// Return the duration as whole seconds with the sign applied.
    fn as_secs(&self) -> (r: i64)
        requires
            self@.secs <= i64::MAX,
        ensures
            r == self@.signed_secs(),
    {
        if self.is_positive {
            self.secs as i64
        } else {
            -(self.secs as i64)
        }
    }

    /// Add two spans; both are taken at whole-second resolution, so any
    /// sub-second parts are dropped, and the sum's sign decides the result's
    /// sign, with zero counting as positive.
    pub fn add(self, rhs: Self) -> (r: Self)
        requires
            self@.secs <= i64::MAX,
            rhs@.secs <= i64::MAX,
            i64::MIN <= self@.signed_secs() + rhs@.signed_secs() <= i64::MAX,
        ensures
            r@ == view_of_signed_secs(self@.signed_secs() + rhs@.signed_secs()),
    {
        Self::from_seconds(self.as_secs() + rhs.as_secs())
    }

    /// Subtract a span from another; both are taken at whole-second
    /// resolution, as in [`HumanTime::add`].
    pub fn sub(self, rhs: Self) -> (r: Self)
        requires
            self@.secs <= i64::MAX,
            rhs@.secs <= i64::MAX,
            i64::MIN <= self@.signed_secs() - rhs@.signed_secs() <= i64::MAX,
        ensures
            r@ == view_of_signed_secs(self@.signed_secs() - rhs@.signed_secs()),
    {
        Self::from_seconds(self.as_secs() - rhs.as_secs())
    }

    /// Return the `HumanTime` reaching from the given timestamp (in seconds
    /// since the Unix epoch) back from the current instant, which the caller
    /// supplies in the same scale. The span points into the past, so it is
    /// negative unless the two instants coincide.
    pub fn from_duration_since_timestamp(timestamp: u64, now_secs: u64) -> (r: HumanTime)
        requires
            timestamp <= now_secs,
            now_secs - timestamp <= i64::MAX,
        ensures
            r@ == view_of_signed_secs(timestamp - now_secs),
    {
        let duration = (now_secs - timestamp) as i64;
        HumanTime::from_seconds(-duration)
    }

    /// Returns the Unix timestamp (in seconds) of the instant this span away
    /// from the current instant, which the caller supplies in seconds since
    /// the Unix epoch. A negative span with a sub-second part lands inside
    /// the preceding second, which whole-second resolution truncates.
    pub fn to_unix_timestamp(&self, now_secs: u64) -> (r: i64)
        requires
            self@.is_positive ==> now_secs + self@.secs <= i64::MAX,
            !self@.is_positive ==> self@.secs < now_secs || (self@.secs == now_secs
                && self@.nanos == 0),
            !self@.is_positive ==> now_secs - self@.secs <= i64::MAX,
        ensures
            self@.is_positive ==> r == now_secs + self@.secs,
            !self@.is_positive ==> r == now_secs - self@.secs - (if self@.nanos > 0 {
                1int
            } else {
                0int
            }),
    {
        if self.is_positive {
            (now_secs + self.secs) as i64
        } else {
            let whole = now_secs - self.secs;
            if self.nanos > 0 {
                (whole - 1) as i64
            } else {
                whole as i64
            }
        }
    }
}

/// Instantiate `HumanTime` from different time metrics.
impl HumanTime {
    /// Instantiate `HumanTime` for the given signed count of seconds.
    pub fn from_seconds(seconds: i64) -> (r: HumanTime)
        ensures
            r@ == view_of_signed_secs(seconds as int),
    {
        let magnitude: u64 = if seconds >= 0 {
            seconds as u64
        } else if seconds == i64::MIN {
            0x8000_0000_0000_0000u64
        } else {
            (-seconds) as u64
        };
        HumanTime { secs: magnitude, nanos: 0, is_positive: seconds >= 0 }
    }

    /// Instantiate `HumanTime` for the given signed count of minutes.
    pub fn from_minutes(minutes: i64) -> (r: HumanTime)
        requires
            i64::MIN <= minutes * S_MINUTE <= i64::MAX,
        ensures
            r@ == view_of_signed_secs(minutes * S_MINUTE),
    {
        HumanTime::from_seconds(minutes * (S_MINUTE as i64))
    }

    /// Instantiate `HumanTime` for the given signed count of hours.
    pub fn from_hours(hours: i64) -> (r: HumanTime)
        requires
            i64::MIN <= hours * S_HOUR <= i64::MAX,
        ensures
            r@ == view_of_signed_secs(hours * S_HOUR),
    {
        HumanTime::from_seconds(hours * (S_HOUR as i64))
    }

    /// Instantiate `HumanTime` for the given signed count of days.
    pub fn from_days(days: i64) -> (r: HumanTime)
        requires
            i64::MIN <= days * S_DAY <= i64::MAX,
        ensures
            r@ == view_of_signed_secs(days * S_DAY),
    {
        HumanTime::from_seconds(days * (S_DAY as i64))
    }

    /// Instantiate `HumanTime` for the given signed count of weeks.
    pub fn from_weeks(weeks: i64) -> (r: HumanTime)
        requires
            i64::MIN <= weeks * S_WEEK <= i64::MAX,
        ensures
            r@ == view_of_signed_secs(weeks * S_WEEK),
    {
        HumanTime::from_seconds(weeks * (S_WEEK as i64))
    }

    /// Instantiate `HumanTime` for the given signed count of months, a month
    /// taken as exactly thirty days.
    pub fn from_months(months: i64) -> (r: HumanTime)
        requires
            i64::MIN <= months * S_MONTH <= i64::MAX,
        ensures
            r@ == view_of_signed_secs(months * S_MONTH),
    {
        HumanTime::from_seconds(months * (S_MONTH as i64))
    }

    /// Instantiate `HumanTime` for the given signed count of years, a year
    /// taken as exactly three hundred and sixty-five days.
    pub fn from_years(years: i64) -> (r: HumanTime)
        requires
            i64::MIN <= years * S_YEAR <= i64::MAX,
        ensures
            r@ == view_of_signed_secs(years * S_YEAR),
    {
        HumanTime::from_seconds(years * (S_YEAR as i64))
    }
}

/// A span built from a signed count of seconds is zero exactly when that
/// count is zero.
pub proof fn lemma_from_seconds_zero(n: int)
    ensures
        view_of_signed_secs(n).is_zero() <==> n == 0,
{
}

/// A span built from a signed count scaled by a positive unit length, as the
/// unit constructors build it, is zero exactly when the count is zero.
pub proof fn lemma_from_units_zero(n: int, unit: int)
    requires
        unit >= 1,
    ensures
        view_of_signed_secs(n * unit).is_zero() <==> n == 0,
{
    assert((n * unit == 0) <==> n == 0) by (nonlinear_arith)
        requires
            unit >= 1,
    ;
}

/// Adding two spans is commutative: the two orders construct the same value.
pub proof fn lemma_add_commutes(a: HumanTimeView, b: HumanTimeView)
    ensures
        view_of_signed_secs(a.signed_secs() + b.signed_secs()) == view_of_signed_secs(
            b.signed_secs() + a.signed_secs(),
        ),
{
}

/// One decomposed unit-count pair: a unit tag carrying an unsigned count,
/// or one of the two literal periods `Now` and `Eternity`.
#[derive(Clone, Copy, Debug)]
pub enum TimePeriod {
    Now,
    Nanos(u64),
    Micros(u64),
    Millis(u64),
    Seconds(u64),
    Minutes(u64),
    Hours(u64),
    Days(u64),
    Weeks(u64),
    Months(u64),
    Years(u64),
    Eternity,
}

/// The count a rough multi-unit branch reports: the quotient, but never
/// below two, since the singular form has its own branch.
pub open spec fn count_at_least_two(c: int) -> u64 {
    if c < 2 {
        2
    } else {
        c as u64
    }
}

/// The single period that roughly approximates a magnitude of `n` whole
/// seconds. Each threshold sits near the rounding midpoint between two
/// adjacent units, so the label matches human rounding intuition.
pub open spec fn rough_period_spec(n: int) -> TimePeriod {
    if 547 * (S_DAY as int) < n {
        TimePeriod::Years(count_at_least_two(n / (S_YEAR as int)))
    } else if 345 * (S_DAY as int) < n {
        TimePeriod::Years(1)
    } else if 45 * (S_DAY as int) < n {
        TimePeriod::Months(count_at_least_two(n / (S_MONTH as int)))
    } else if 29 * (S_DAY as int) < n {
        TimePeriod::Months(1)
    } else if 10 * (S_DAY as int) + 12 * (S_HOUR as int) < n {
        TimePeriod::Weeks(count_at_least_two(n / (S_WEEK as int)))
    } else if 6 * (S_DAY as int) + 12 * (S_HOUR as int) < n {
        TimePeriod::Weeks(1)
    } else if 36 * (S_HOUR as int) < n {
        TimePeriod::Days(count_at_least_two(n / (S_DAY as int)))
    } else if 22 * (S_HOUR as int) < n {
        TimePeriod::Days(1)
    } else if 90 * (S_MINUTE as int) < n {
        TimePeriod::Hours(count_at_least_two(n / (S_HOUR as int)))
    } else if 45 * (S_MINUTE as int) < n {
        TimePeriod::Hours(1)
    } else if 90 < n {
        TimePeriod::Minutes(count_at_least_two(n / (S_MINUTE as int)))
    } else if 45 < n {
        TimePeriod::Minutes(1)
    } else if 10 < n {
        TimePeriod::Seconds(n as u64)
    } else if 0 <= n {
        TimePeriod::Now
    } else {
        TimePeriod::Eternity
    }
}

/// Append the period to the sequence when its count is positive; a
/// zero-count unit is skipped entirely.
pub open spec fn push_if(s: Seq<TimePeriod>, count: int, p: TimePeriod) -> Seq<TimePeriod> {
    if count > 0 {
        s.push(p)
    } else {
        s
    }
}

/// The unit-count pairs the precise decomposition emits, largest unit
/// first, skipping units whose count is zero. Each count is the whole
/// quotient of the remainder left by the larger units, so the pairs sum
/// back to the original magnitude exactly.
pub open spec fn precise_units_spec(v: HumanTimeView) -> Seq<TimePeriod> {
    let years = v.secs / (S_YEAR as int);
    let r1 = v.secs % (S_YEAR as int);
    let months = r1 / (S_MONTH as int);
    let r2 = r1 % (S_MONTH as int);
    let weeks = r2 / (S_WEEK as int);
    let r3 = r2 % (S_WEEK as int);
    let days = r3 / (S_DAY as int);
    let r4 = r3 % (S_DAY as int);
    let hours = r4 / (S_HOUR as int);
    let r5 = r4 % (S_HOUR as int);
    let minutes = r5 / (S_MINUTE as int);
    let seconds = r5 % (S_MINUTE as int);
    let millis = v.nanos / 1_000_000;
    let n1 = v.nanos % 1_000_000;
    let micros = n1 / 1_000;
    let nanos = n1 % 1_000;
    let s0 = push_if(Seq::empty(), years, TimePeriod::Years(years as u64));
    let s1 = push_if(s0, months, TimePeriod::Months(months as u64));
    let s2 = push_if(s1, weeks, TimePeriod::Weeks(weeks as u64));
    let s3 = push_if(s2, days, TimePeriod::Days(days as u64));
    let s4 = push_if(s3, hours, TimePeriod::Hours(hours as u64));
    let s5 = push_if(s4, minutes, TimePeriod::Minutes(minutes as u64));
    let s6 = push_if(s5, seconds, TimePeriod::Seconds(seconds as u64));
    let s7 = push_if(s6, millis, TimePeriod::Millis(millis as u64));
    let s8 = push_if(s7, micros, TimePeriod::Micros(micros as u64));
    push_if(s8, nanos, TimePeriod::Nanos(nanos as u64))
}

/// The full precise decomposition: the non-zero unit-count pairs, or a
/// single zero-second period when the whole magnitude is zero.
pub open spec fn precise_period_spec(v: HumanTimeView) -> Seq<TimePeriod> {
    let units = precise_units_spec(v);
    if units.len() == 0 {
        seq![TimePeriod::Seconds(0)]
    } else {
        units
    }
}

impl HumanTime {
    /// Approximate this span by a single period, chosen by the rough
    /// thresholds.
    fn rough_period(self) -> (r: Vec<TimePeriod>)
        ensures
            r@ == seq![rough_period_spec(self@.secs)],
    {
        let n = self.secs;
        let period = if n > 547 * S_DAY {
            TimePeriod::Years(Self::at_least_two(n / S_YEAR))
        } else if n > 345 * S_DAY {
            TimePeriod::Years(1)
        } else if n > 45 * S_DAY {
            TimePeriod::Months(Self::at_least_two(n / S_MONTH))
        } else if n > 29 * S_DAY {
            TimePeriod::Months(1)
        } else if n > 10 * S_DAY + 12 * S_HOUR {
            TimePeriod::Weeks(Self::at_least_two(n / S_WEEK))
        } else if n > 6 * S_DAY + 12 * S_HOUR {
            TimePeriod::Weeks(1)
        } else if n > 36 * S_HOUR {
            TimePeriod::Days(Self::at_least_two(n / S_DAY))
        } else if n > 22 * S_HOUR {
            TimePeriod::Days(1)
        } else if n > 90 * S_MINUTE {
            TimePeriod::Hours(Self::at_least_two(n / S_HOUR))
        } else if n > 45 * S_MINUTE {
            TimePeriod::Hours(1)
        } else if n > 90 {
            TimePeriod::Minutes(Self::at_least_two(n / S_MINUTE))
        } else if n > 45 {
            TimePeriod::Minutes(1)
        } else if n > 10 {
            TimePeriod::Seconds(n)
        } else {
            TimePeriod::Now
        };
        let mut periods: Vec<TimePeriod> = Vec::new();
        periods.push(period);
        proof {
            assert(periods@ =~= seq![rough_period_spec(self@.secs)]);
        }
        periods
    }

    /// The rough count for a multi-unit branch: the quotient, floored at two.
    fn at_least_two(c: u64) -> (r: u64)
        ensures
            r == count_at_least_two(c as int),
    {
        if c < 2 {
            2
        } else {
            c
        }
    }

    /// Decompose this span exactly, peeling the largest unit first and
    /// skipping units whose count is zero.
    #[verifier::rlimit(50)]
    fn precise_period(self) -> (r: Vec<TimePeriod>)
        ensures
            r@ == precise_period_spec(self@),
    {
        let mut periods: Vec<TimePeriod> = Vec::new();

        let (years, reminder) = self.split_years();
        if let Some(years) = years {
            periods.push(TimePeriod::Years(years));
        }

        let (months, reminder) = reminder.split_months();
        if let Some(months) = months {
            periods.push(TimePeriod::Months(months));
        }

        let (weeks, reminder) = reminder.split_weeks();
        if let Some(weeks) = weeks {
            periods.push(TimePeriod::Weeks(weeks));
        }

        let (days, reminder) = reminder.split_days();
        if let Some(days) = days {
            periods.push(TimePeriod::Days(days));
        }

        let (hours, reminder) = reminder.split_hours();
        if let Some(hours) = hours {
            periods.push(TimePeriod::Hours(hours));
        }

        let (minutes, reminder) = reminder.split_minutes();
        if let Some(minutes) = minutes {
            periods.push(TimePeriod::Minutes(minutes));
        }

        let (seconds, reminder) = reminder.split_seconds();
        if let Some(seconds) = seconds {
            periods.push(TimePeriod::Seconds(seconds));
        }

        let (millis, reminder) = reminder.split_milliseconds();
        if let Some(millis) = millis {
            periods.push(TimePeriod::Millis(millis));
        }

        let (micros, reminder) = reminder.split_microseconds();
        if let Some(micros) = micros {
            periods.push(TimePeriod::Micros(micros));
        }

        let (nanos, reminder) = reminder.split_nanoseconds();
        if let Some(nanos) = nanos {
            periods.push(TimePeriod::Nanos(nanos));
        }

        assert(reminder@.is_zero());

        if periods.len() == 0 {
            periods.push(TimePeriod::Seconds(0));
        }

        periods
    }

    /// Split this `HumanTime` into the number of whole years and the reminder.
    fn split_years(self) -> (r: (Option<u64>, Self))
        ensures
            r.0 == split_count(self@.secs / (S_YEAR as int)),
            r.1@.secs == self@.secs % (S_YEAR as int),
            r.1@.nanos == self@.nanos,
            r.1@.is_positive,
    {
        let years = self.secs / S_YEAR;
        Self::normalize_split(years, self.secs % S_YEAR, self.nanos)
    }

    /// Split this `HumanTime` into the number of whole months and the
    /// reminder, a month taken as exactly thirty days in both the division
    /// and the remainder.
    fn split_months(self) -> (r: (Option<u64>, Self))
        ensures
            r.0 == split_count(self@.secs / (S_MONTH as int)),
            r.1@.secs == self@.secs % (S_MONTH as int),
            r.1@.nanos == self@.nanos,
            r.1@.is_positive,
    {
        let months = self.secs / S_MONTH;
        Self::normalize_split(months, self.secs % S_MONTH, self.nanos)
    }

    /// Split this `HumanTime` into the number of whole weeks and the reminder.
    fn split_weeks(self) -> (r: (Option<u64>, Self))
        ensures
            r.0 == split_count(self@.secs / (S_WEEK as int)),
            r.1@.secs == self@.secs % (S_WEEK as int),
            r.1@.nanos == self@.nanos,
            r.1@.is_positive,
    {
        let weeks = self.secs / S_WEEK;
        Self::normalize_split(weeks, self.secs % S_WEEK, self.nanos)
    }

    /// Split this `HumanTime` into the number of whole days and the reminder.
    fn split_days(self) -> (r: (Option<u64>, Self))
        ensures
            r.0 == split_count(self@.secs / (S_DAY as int)),
            r.1@.secs == self@.secs % (S_DAY as int),
            r.1@.nanos == self@.nanos,
            r.1@.is_positive,
    {
        let days = self.secs / S_DAY;
        Self::normalize_split(days, self.secs % S_DAY, self.nanos)
    }

    /// Split this `HumanTime` into the number of whole hours and the reminder.
    fn split_hours(self) -> (r: (Option<u64>, Self))
        ensures
            r.0 == split_count(self@.secs / (S_HOUR as int)),
            r.1@.secs == self@.secs % (S_HOUR as int),
            r.1@.nanos == self@.nanos,
            r.1@.is_positive,
    {
        let hours = self.secs / S_HOUR;
        Self::normalize_split(hours, self.secs % S_HOUR, self.nanos)
    }

    /// Split this `HumanTime` into the number of whole minutes and the
    /// reminder.
    fn split_minutes(self) -> (r: (Option<u64>, Self))
        ensures
            r.0 == split_count(self@.secs / (S_MINUTE as int)),
            r.1@.secs == self@.secs % (S_MINUTE as int),
            r.1@.nanos == self@.nanos,
            r.1@.is_positive,
    {
        let minutes = self.secs / S_MINUTE;
        Self::normalize_split(minutes, self.secs % S_MINUTE, self.nanos)
    }

    /// Split this `HumanTime` into the number of whole seconds and the
    /// reminder, which holds the sub-second part alone.
    fn split_seconds(self) -> (r: (Option<u64>, Self))
        ensures
            r.0 == split_count(self@.secs),
            r.1@.secs == 0,
            r.1@.nanos == self@.nanos,
            r.1@.is_positive,
    {
        Self::normalize_split(self.secs, 0, self.nanos)
    }

    /// Split this `HumanTime` into the number of whole milliseconds and the
    /// reminder.
    fn split_milliseconds(self) -> (r: (Option<u64>, Self))
        requires
            self@.secs * 1_000 + self@.nanos / 1_000_000 <= u64::MAX,
        ensures
            r.0 == split_count(self@.secs * 1_000 + self@.nanos / 1_000_000),
            r.1@.secs == 0,
            r.1@.nanos == self@.nanos % 1_000_000,
            r.1@.is_positive,
    {
        let millis = self.secs * 1_000 + (self.nanos / 1_000_000) as u64;
        Self::normalize_split(millis, 0, self.nanos % 1_000_000)
    }

    /// Split this `HumanTime` into the number of whole microseconds and the
    /// reminder.
    fn split_microseconds(self) -> (r: (Option<u64>, Self))
        requires
            self@.secs * 1_000_000 + self@.nanos / 1_000 <= u64::MAX,
        ensures
            r.0 == split_count(self@.secs * 1_000_000 + self@.nanos / 1_000),
            r.1@.secs == 0,
            r.1@.nanos == self@.nanos % 1_000,
            r.1@.is_positive,
    {
        let micros = self.secs * 1_000_000 + (self.nanos / 1_000) as u64;
        Self::normalize_split(micros, 0, self.nanos % 1_000)
    }

    /// Split this `HumanTime` into the number of whole nanoseconds and the
    /// reminder, which is always zero.
    fn split_nanoseconds(self) -> (r: (Option<u64>, Self))
        requires
            self@.secs * 1_000_000_000 + self@.nanos <= u64::MAX,
        ensures
            r.0 == split_count(self@.secs * 1_000_000_000 + self@.nanos),
            r.1@.secs == 0,
            r.1@.nanos == 0,
            r.1@.is_positive,
    {
        let nanos = self.secs * 1_000_000_000 + self.nanos as u64;
        Self::normalize_split(nanos, 0, 0)
    }

    /// Turn a whole count and a remainder into the pair the splits return:
    /// a zero count becomes `None`, and the reminder is always positive.
    fn normalize_split(wholes: u64, rem_secs: u64, rem_nanos: u32) -> (r: (Option<u64>, Self))
        ensures
            r.0 == split_count(wholes as int),
            r.1@.secs == rem_secs,
            r.1@.nanos == rem_nanos,
            r.1@.is_positive,
    {
        let whole = match wholes == 0 {
            true => None,
            false => Some(wholes),
        };
        (whole, Self { secs: rem_secs, nanos: rem_nanos, is_positive: true })
    }
}

/// The optional count the splits report: `None` for a zero count, else the
/// count itself.
pub open spec fn split_count(c: int) -> Option<u64> {
    if c == 0 {
        None
    } else {
        Some(c as u64)
    }
}

/// The length of one period in nanoseconds: the count times the unit length.
/// The literal periods `Now` and `Eternity` carry no count.
pub open spec fn period_nanos(p: TimePeriod) -> int {
    match p {
        TimePeriod::Now => 0,
        TimePeriod::Nanos(n) => n as int,
        TimePeriod::Micros(n) => n * 1_000,
        TimePeriod::Millis(n) => n * 1_000_000,
        TimePeriod::Seconds(n) => n * 1_000_000_000,
        TimePeriod::Minutes(n) => n * (S_MINUTE as int) * 1_000_000_000,
        TimePeriod::Hours(n) => n * (S_HOUR as int) * 1_000_000_000,
        TimePeriod::Days(n) => n * (S_DAY as int) * 1_000_000_000,
        TimePeriod::Weeks(n) => n * (S_WEEK as int) * 1_000_000_000,
        TimePeriod::Months(n) => n * (S_MONTH as int) * 1_000_000_000,
        TimePeriod::Years(n) => n * (S_YEAR as int) * 1_000_000_000,
        TimePeriod::Eternity => 0,
    }
}

/// The total length of a sequence of periods, in nanoseconds.
pub open spec fn periods_nanos(ps: Seq<TimePeriod>) -> int
    decreases ps.len(),
{
    if ps.len() == 0 {
        0
    } else {
        period_nanos(ps[0]) + periods_nanos(ps.drop_first())
    }
}

proof fn lemma_periods_nanos_push(s: Seq<TimePeriod>, p: TimePeriod)
    ensures
        periods_nanos(s.push(p)) == periods_nanos(s) + period_nanos(p),
    decreases s.len(),
{
    assert(s.push(p).len() == s.len() + 1);
    if s.len() == 0 {
        assert(s.push(p).drop_first() =~= Seq::<TimePeriod>::empty());
        assert(s.push(p)[0] == p);
        assert(periods_nanos(s.push(p)) == period_nanos(p) + periods_nanos(
            Seq::<TimePeriod>::empty(),
        ));
    } else {
        assert(s.push(p).drop_first() =~= s.drop_first().push(p));
        assert(s.push(p)[0] == s[0]);
        lemma_periods_nanos_push(s.drop_first(), p);
    }
}

/// Round-trip law: summing count times unit length over the precise
/// decomposition reconstructs the original magnitude exactly, whatever the
/// sign. A month is taken as exactly thirty days in the division and in the
/// remainder alike, which is what makes the reconstruction lossless.
#[verifier::rlimit(50)]
pub proof fn lemma_precise_round_trip(v: HumanTimeView)
    requires
        0 <= v.secs <= u64::MAX,
        0 <= v.nanos <= u32::MAX,
    ensures
        periods_nanos(precise_period_spec(v)) == v.total_nanos(),
{
    broadcast use vstd::arithmetic::div_mod::lemma_fundamental_div_mod;
    broadcast use vstd::arithmetic::div_mod::lemma_div_pos_is_pos;
    broadcast use vstd::arithmetic::div_mod::lemma_div_nonincreasing;
    broadcast use vstd::arithmetic::div_mod::lemma_mod_division_less_than_divisor;

    let years = v.secs / (S_YEAR as int);
    let r1 = v.secs % (S_YEAR as int);
    let months = r1 / (S_MONTH as int);
    let r2 = r1 % (S_MONTH as int);
    let weeks = r2 / (S_WEEK as int);
    let r3 = r2 % (S_WEEK as int);
    let days = r3 / (S_DAY as int);
    let r4 = r3 % (S_DAY as int);
    let hours = r4 / (S_HOUR as int);
    let r5 = r4 % (S_HOUR as int);
    let minutes = r5 / (S_MINUTE as int);
    let seconds = r5 % (S_MINUTE as int);
    let millis = v.nanos / 1_000_000;
    let n1 = v.nanos % 1_000_000;
    let micros = n1 / 1_000;
    let nanos = n1 % 1_000;

    let s0 = push_if(Seq::empty(), years, TimePeriod::Years(years as u64));
    let s1 = push_if(s0, months, TimePeriod::Months(months as u64));
    let s2 = push_if(s1, weeks, TimePeriod::Weeks(weeks as u64));
    let s3 = push_if(s2, days, TimePeriod::Days(days as u64));
    let s4 = push_if(s3, hours, TimePeriod::Hours(hours as u64));
    let s5 = push_if(s4, minutes, TimePeriod::Minutes(minutes as u64));
    let s6 = push_if(s5, seconds, TimePeriod::Seconds(seconds as u64));
    let s7 = push_if(s6, millis, TimePeriod::Millis(millis as u64));
    let s8 = push_if(s7, micros, TimePeriod::Micros(micros as u64));
    let s9 = push_if(s8, nanos, TimePeriod::Nanos(nanos as u64));

    assert(0 <= years <= v.secs);
    assert(0 <= r1 < S_YEAR as int);
    assert(0 <= months <= r1);
    assert(0 <= r2 < S_MONTH as int);
    assert(0 <= weeks <= r2);
    assert(0 <= r3 < S_WEEK as int);
    assert(0 <= days <= r3);
    assert(0 <= r4 < S_DAY as int);
    assert(0 <= hours <= r4);
    assert(0 <= r5 < S_HOUR as int);
    assert(0 <= minutes <= r5);
    assert(0 <= seconds < S_MINUTE as int);
    assert(0 <= millis <= v.nanos);
    assert(0 <= n1 < 1_000_000);
    assert(0 <= micros <= n1);
    assert(0 <= nanos < 1_000);

    assert(periods_nanos(Seq::<TimePeriod>::empty()) == 0);
    lemma_periods_nanos_push(Seq::empty(), TimePeriod::Years(years as u64));
    lemma_periods_nanos_push(s0, TimePeriod::Months(months as u64));
    lemma_periods_nanos_push(s1, TimePeriod::Weeks(weeks as u64));
    lemma_periods_nanos_push(s2, TimePeriod::Days(days as u64));
    lemma_periods_nanos_push(s3, TimePeriod::Hours(hours as u64));
    lemma_periods_nanos_push(s4, TimePeriod::Minutes(minutes as u64));
    lemma_periods_nanos_push(s5, TimePeriod::Seconds(seconds as u64));
    lemma_periods_nanos_push(s6, TimePeriod::Millis(millis as u64));
    lemma_periods_nanos_push(s7, TimePeriod::Micros(micros as u64));
    lemma_periods_nanos_push(s8, TimePeriod::Nanos(nanos as u64));

    assert(periods_nanos(s0) == periods_nanos(Seq::<TimePeriod>::empty()) + (if years > 0 {
        years * (S_YEAR as int) * 1_000_000_000
    } else {
        0
    }));
    assert(periods_nanos(s9) == years * (S_YEAR as int) * 1_000_000_000 + months * (
    S_MONTH as int) * 1_000_000_000 + weeks * (S_WEEK as int) * 1_000_000_000 + days * (
    S_DAY as int) * 1_000_000_000 + hours * (S_HOUR as int) * 1_000_000_000 + minutes * (
    S_MINUTE as int) * 1_000_000_000 + seconds * 1_000_000_000 + millis * 1_000_000 + micros
        * 1_000 + nanos);

    vstd::arithmetic::div_mod::lemma_fundamental_div_mod(v.secs, S_YEAR as int);
    vstd::arithmetic::div_mod::lemma_fundamental_div_mod(r1, S_MONTH as int);
    vstd::arithmetic::div_mod::lemma_fundamental_div_mod(r2, S_WEEK as int);
    vstd::arithmetic::div_mod::lemma_fundamental_div_mod(r3, S_DAY as int);
    vstd::arithmetic::div_mod::lemma_fundamental_div_mod(r4, S_HOUR as int);
    vstd::arithmetic::div_mod::lemma_fundamental_div_mod(r5, S_MINUTE as int);
    vstd::arithmetic::div_mod::lemma_fundamental_div_mod(v.nanos, 1_000_000);
    vstd::arithmetic::div_mod::lemma_fundamental_div_mod(n1, 1_000);
    assert(v.secs == years * (S_YEAR as int) + months * (S_MONTH as int) + weeks * (
    S_WEEK as int) + days * (S_DAY as int) + hours * (S_HOUR as int) + minutes * (
    S_MINUTE as int) + seconds);
    assert(v.nanos == millis * 1_000_000 + micros * 1_000 + nanos);

    if s9.len() == 0 {
        assert(periods_nanos(precise_period_spec(v)) == periods_nanos(
            seq![TimePeriod::Seconds(0)],
        ));
        assert(seq![TimePeriod::Seconds(0)].drop_first() =~= Seq::<TimePeriod>::empty());
        assert(years == 0 && months == 0 && weeks == 0 && days == 0 && hours == 0 && minutes == 0
            && seconds == 0);
        assert(millis == 0 && micros == 0 && nanos == 0);
    }
}

/// The character of one decimal digit.
pub open spec fn dec_digit(d: int) -> char {
    if d == 0 {
        '0'
    } else if d == 1 {
        '1'
    } else if d == 2 {
        '2'
    } else if d == 3 {
        '3'
    } else if d == 4 {
        '4'
    } else if d == 5 {
        '5'
    } else if d == 6 {
        '6'
    } else if d == 7 {
        '7'
    } else if d == 8 {
        '8'
    } else {
        '9'
    }
}

/// The decimal numeral of a non-negative count, most significant digit
/// first, without leading zeros (except for the numeral of zero itself).
pub open spec fn dec_str(n: nat) -> Seq<char>
    decreases n,
{
    if n < 10 {
        seq![dec_digit(n as int)]
    } else {
        dec_str(n / 10) + seq![dec_digit((n % 10) as int)]
    }
}

/// Append the character of one decimal digit to the string.
fn push_digit(s: &mut String, d: u64)
    requires
        d < 10,
    ensures
        final(s)@ == old(s)@.push(dec_digit(d as int)),
{
    let t: &str = match d {
        0 => "0",
        1 => "1",
        2 => "2",
        3 => "3",
        4 => "4",
        5 => "5",
        6 => "6",
        7 => "7",
        8 => "8",
        _ => "9",
    };
    proof {
        reveal_strlit("0");
        reveal_strlit("1");
        reveal_strlit("2");
        reveal_strlit("3");
        reveal_strlit("4");
        reveal_strlit("5");
        reveal_strlit("6");
        reveal_strlit("7");
        reveal_strlit("8");
        reveal_strlit("9");
    }
    s.append(t);
    proof {
        assert(old(s)@ + t@ =~= old(s)@.push(dec_digit(d as int)));
    }
}

/// Append the decimal numeral of the count to the string.
fn append_dec(s: &mut String, n: u64)
    ensures
        final(s)@ == old(s)@ + dec_str(n as nat),
    decreases n,
{
    if n >= 10 {
        append_dec(s, n / 10);
        push_digit(s, n % 10);
        proof {
            assert((old(s)@ + dec_str((n / 10) as nat)).push(dec_digit((n % 10) as int)) =~= old(
                s,
            )@ + dec_str(n as nat));
        }
    } else {
        push_digit(s, n);
        proof {
            assert(old(s)@.push(dec_digit(n as int)) =~= old(s)@ + dec_str(n as nat));
        }
    }
}

/// The decimal numeral of the count, as an owned string.
fn u64_string(n: u64) -> (r: String)
    ensures
        r@ == dec_str(n as nat),
{
    let mut s = String::new();
    append_dec(&mut s, n);
    proof {
        assert(Seq::<char>::empty() + dec_str(n as nat) =~= dec_str(n as nat));
    }
    s
}

/// The precise text of one period: always a numeral and the unit name,
/// singular at a count of one, with symbol suffixes for the sub-second
/// units.
pub open spec fn spec_text_precise(p: TimePeriod) -> Seq<char> {
    match p {
        TimePeriod::Now => "now"@,
        TimePeriod::Nanos(n) => dec_str(n as nat) + " ns"@,
        TimePeriod::Micros(n) => dec_str(n as nat) + " µs"@,
        TimePeriod::Millis(n) => dec_str(n as nat) + " ms"@,
        TimePeriod::Seconds(n) => dec_str(n as nat) + (if n == 1 {
            " second"@
        } else {
            " seconds"@
        }),
        TimePeriod::Minutes(n) => dec_str(n as nat) + (if n == 1 {
            " minute"@
        } else {
            " minutes"@
        }),
        TimePeriod::Hours(n) => dec_str(n as nat) + (if n == 1 {
            " hour"@
        } else {
            " hours"@
        }),
        TimePeriod::Days(n) => dec_str(n as nat) + (if n == 1 {
            " day"@
        } else {
            " days"@
        }),
        TimePeriod::Weeks(n) => dec_str(n as nat) + (if n == 1 {
            " week"@
        } else {
            " weeks"@
        }),
        TimePeriod::Months(n) => dec_str(n as nat) + (if n == 1 {
            " month"@
        } else {
            " months"@
        }),
        TimePeriod::Years(n) => dec_str(n as nat) + (if n == 1 {
            " year"@
        } else {
            " years"@
        }),
        TimePeriod::Eternity => "eternity"@,
    }
}

/// The rough text of one period: the indefinite-article form at a count of
/// one for minutes and above, the numeral-plural form otherwise; seconds and
/// the sub-second units are always numeric.
pub open spec fn spec_text_rough(p: TimePeriod) -> Seq<char> {
    match p {
        TimePeriod::Now => "now"@,
        TimePeriod::Nanos(n) => dec_str(n as nat) + " ns"@,
        TimePeriod::Micros(n) => dec_str(n as nat) + " µs"@,
        TimePeriod::Millis(n) => dec_str(n as nat) + " ms"@,
        TimePeriod::Seconds(n) => dec_str(n as nat) + " seconds"@,
        TimePeriod::Minutes(n) => if n == 1 {
            "a minute"@
        } else {
            dec_str(n as nat) + " minutes"@
        },
        TimePeriod::Hours(n) => if n == 1 {
            "an hour"@
        } else {
            dec_str(n as nat) + " hours"@
        },
        TimePeriod::Days(n) => if n == 1 {
            "a day"@
        } else {
            dec_str(n as nat) + " days"@
        },
        TimePeriod::Weeks(n) => if n == 1 {
            "a week"@
        } else {
            dec_str(n as nat) + " weeks"@
        },
        TimePeriod::Months(n) => if n == 1 {
            "a month"@
        } else {
            dec_str(n as nat) + " months"@
        },
        TimePeriod::Years(n) => if n == 1 {
            "a year"@
        } else {
            dec_str(n as nat) + " years"@
        },
        TimePeriod::Eternity => "eternity"@,
    }
}

/// The text of one period at the given accuracy.
pub open spec fn spec_period_text(p: TimePeriod, accuracy: Accuracy) -> Seq<char> {
    match accuracy {
        Accuracy::Rough => spec_text_rough(p),
        Accuracy::Precise => spec_text_precise(p),
    }
}

impl TimePeriod {
    /// The precise text of this period.
    fn to_text_precise(self) -> (r: String)
        ensures
            r@ == spec_text_precise(self),
    {
        match self {
            TimePeriod::Now => String::from_str("now"),
            TimePeriod::Nanos(n) => {
                let mut s = u64_string(n);
                s.append(" ns");
                s
            },
            TimePeriod::Micros(n) => {
                let mut s = u64_string(n);
                s.append(" µs");
                s
            },
            TimePeriod::Millis(n) => {
                let mut s = u64_string(n);
                s.append(" ms");
                s
            },
            TimePeriod::Seconds(n) => {
                let mut s = u64_string(n);
                if n == 1 {
                    s.append(" second");
                } else {
                    s.append(" seconds");
                }
                s
            },
            TimePeriod::Minutes(n) => {
                let mut s = u64_string(n);
                if n == 1 {
                    s.append(" minute");
                } else {
                    s.append(" minutes");
                }
                s
            },
            TimePeriod::Hours(n) => {
                let mut s = u64_string(n);
                if n == 1 {
                    s.append(" hour");
                } else {
                    s.append(" hours");
                }
                s
            },
            TimePeriod::Days(n) => {
                let mut s = u64_string(n);
                if n == 1 {
                    s.append(" day");
                } else {
                    s.append(" days");
                }
                s
            },
            TimePeriod::Weeks(n) => {
                let mut s = u64_string(n);
                if n == 1 {
                    s.append(" week");
                } else {
                    s.append(" weeks");
                }
                s
            },
            TimePeriod::Months(n) => {
                let mut s = u64_string(n);
                if n == 1 {
                    s.append(" month");
                } else {
                    s.append(" months");
                }
                s
            },
            TimePeriod::Years(n) => {
                let mut s = u64_string(n);
                if n == 1 {
                    s.append(" year");
                } else {
                    s.append(" years");
                }
                s
            },
            TimePeriod::Eternity => String::from_str("eternity"),
        }
    }

    /// The rough text of this period.
    fn to_text_rough(self) -> (r: String)
        ensures
            r@ == spec_text_rough(self),
    {
        match self {
            TimePeriod::Now => String::from_str("now"),
            TimePeriod::Nanos(n) => {
                let mut s = u64_string(n);
                s.append(" ns");
                s
            },
            TimePeriod::Micros(n) => {
                let mut s = u64_string(n);
                s.append(" µs");
                s
            },
            TimePeriod::Millis(n) => {
                let mut s = u64_string(n);
                s.append(" ms");
                s
            },
            TimePeriod::Seconds(n) => {
                let mut s = u64_string(n);
                s.append(" seconds");
                s
            },
            TimePeriod::Minutes(n) => {
                if n == 1 {
                    String::from_str("a minute")
                } else {
                    let mut s = u64_string(n);
                    s.append(" minutes");
                    s
                }
            },
            TimePeriod::Hours(n) => {
                if n == 1 {
                    String::from_str("an hour")
                } else {
                    let mut s = u64_string(n);
                    s.append(" hours");
                    s
                }
            },
            TimePeriod::Days(n) => {
                if n == 1 {
                    String::from_str("a day")
                } else {
                    let mut s = u64_string(n);
                    s.append(" days");
                    s
                }
            },
            TimePeriod::Weeks(n) => {
                if n == 1 {
                    String::from_str("a week")
                } else {
                    let mut s = u64_string(n);
                    s.append(" weeks");
                    s
                }
            },
            TimePeriod::Months(n) => {
                if n == 1 {
                    String::from_str("a month")
                } else {
                    let mut s = u64_string(n);
                    s.append(" months");
                    s
                }
            },
            TimePeriod::Years(n) => {
                if n == 1 {
                    String::from_str("a year")
                } else {
                    let mut s = u64_string(n);
                    s.append(" years");
                    s
                }
            },
            TimePeriod::Eternity => String::from_str("eternity"),
        }
    }

    /// The text of this period at the given accuracy.
    fn to_text(self, accuracy: Accuracy) -> (r: String)
        ensures
            r@ == spec_period_text(self, accuracy),
    {
        match accuracy {
            Accuracy::Rough => self.to_text_rough(),
            Accuracy::Precise => self.to_text_precise(),
        }
    }
}

/// The comma-joined text of a non-empty sequence of periods.
pub open spec fn spec_comma_join(ps: Seq<TimePeriod>, accuracy: Accuracy) -> Seq<char>
    recommends
        ps.len() >= 1,
    decreases ps.len(),
{
    if ps.len() <= 1 {
        spec_period_text(ps[0], accuracy)
    } else {
        spec_comma_join(ps.drop_last(), accuracy) + ", "@ + spec_period_text(ps.last(), accuracy)
    }
}

/// The joined text of a non-empty sequence of periods: all but the last
/// joined with a comma, and the last attached with `" and "`.
pub open spec fn spec_join(ps: Seq<TimePeriod>, accuracy: Accuracy) -> Seq<char>
    recommends
        ps.len() >= 1,
{
    if ps.len() <= 1 {
        spec_period_text(ps[0], accuracy)
    } else {
        spec_comma_join(ps.drop_last(), accuracy) + " and "@ + spec_period_text(
            ps.last(),
            accuracy,
        )
    }
}

/// Append the joined text of the periods to the string.
fn join_into(s: &mut String, periods: &Vec<TimePeriod>, accuracy: Accuracy)
    requires
        periods@.len() >= 1,
    ensures
        final(s)@ == old(s)@ + spec_join(periods@, accuracy),
{
    let first = periods[0].to_text(accuracy);
    s.append(first.as_str());
    proof {
        assert(periods@.take(1).len() == 1);
        assert(periods@.take(1)[0] == periods@[0]);
        assert(s@ == old(s)@ + spec_comma_join(periods@.take(1), accuracy));
    }
    let n = periods.len();
    let mut i: usize = 1;
    while i < n - 1
        invariant
            1 <= i <= n,
            i + 1 <= n || n == 1,
            n == periods@.len(),
            n >= 1,
            s@ == old(s)@ + spec_comma_join(periods@.take(i as int), accuracy),
        decreases n - i,
    {
        s.append(", ");
        let t = periods[i].to_text(accuracy);
        s.append(t.as_str());
        proof {
            let taken = periods@.take(i + 1 as int);
            assert(taken.len() == i + 1);
            assert(taken.drop_last() =~= periods@.take(i as int));
            assert(taken.last() == periods@[i as int]);
            assert((old(s)@ + spec_comma_join(periods@.take(i as int), accuracy)) + ", "@
                + spec_period_text(periods@[i as int], accuracy) =~= old(s)@ + spec_comma_join(
                taken,
                accuracy,
            ));
        }
        i = i + 1;
    }
    if i < n {
        s.append(" and ");
        let t = periods[i].to_text(accuracy);
        s.append(t.as_str());
        proof {
            assert(i == n - 1);
            assert(periods@.take(i as int) =~= periods@.drop_last());
            assert(periods@.last() == periods@[i as int]);
            assert((old(s)@ + spec_comma_join(periods@.drop_last(), accuracy)) + " and "@
                + spec_period_text(periods@[i as int], accuracy) =~= old(s)@ + spec_join(
                periods@,
                accuracy,
            ));
        }
    } else {
        proof {
            assert(i == 1 && n == 1);
            assert(periods@.take(1int) =~= periods@);
        }
    }
}

/// The single period sequence of the rough approximation, or the full
/// precise decomposition.
pub open spec fn spec_periods(v: HumanTimeView, accuracy: Accuracy) -> Seq<TimePeriod> {
    match accuracy {
        Accuracy::Rough => seq![rough_period_spec(v.secs)],
        Accuracy::Precise => precise_period_spec(v),
    }
}

/// The phrase framed by the tense: `"... ago"` for the past, `"in ..."` for
/// the future, and the bare text for the present.
pub open spec fn spec_tense_wrap(tense: Tense, text: Seq<char>) -> Seq<char> {
    match tense {
        Tense::Past => text + " ago"@,
        Tense::Future => "in "@ + text,
        Tense::Present => text,
    }
}

/// The whole English phrase of a span at the given accuracy and tense.
pub open spec fn spec_text_en(v: HumanTimeView, accuracy: Accuracy, tense: Tense) -> Seq<char> {
    spec_tense_wrap(tense, spec_join(spec_periods(v, accuracy), accuracy))
}

/// The tense the span itself selects: the present for a rough span within
/// ten seconds of the utterance, else the past for a negative span and the
/// future for a positive one, a zero span counting as positive.
pub open spec fn tense_spec(v: HumanTimeView, accuracy: Accuracy) -> Tense {
    if v.secs <= 10 && accuracy is Rough {
        Tense::Present
    } else if !v.is_positive {
        Tense::Past
    } else {
        Tense::Future
    }
}

impl HumanTime {
    /// Gives the English text representation of the `HumanTime` with the
    /// given `accuracy` and `tense`.
    #[must_use]
    pub fn to_text_en(self, accuracy: Accuracy, tense: Tense) -> (r: String)
        ensures
            r@ == spec_text_en(self@, accuracy, tense),
    {
        let periods = match accuracy {
            Accuracy::Rough => self.rough_period(),
            Accuracy::Precise => self.precise_period(),
        };
        assert(periods@.len() >= 1);
        let mut text = String::new();
        join_into(&mut text, &periods, accuracy);
        proof {
            assert(Seq::<char>::empty() + spec_join(periods@, accuracy) =~= spec_join(
                periods@,
                accuracy,
            ));
        }
        match tense {
            Tense::Past => {
                text.append(" ago");
                text
            },
            Tense::Future => {
                let mut r = String::from_str("in ");
                r.append(text.as_str());
                r
            },
            Tense::Present => text,
        }
    }

    /// Derive the tense this span selects at the given accuracy.
    fn tense(self, accuracy: Accuracy) -> (r: Tense)
        ensures
            r == tense_spec(self@, accuracy),
    {
        if self.secs <= 10 && accuracy.is_rough() {
            Tense::Present
        } else if !self.is_positive {
            Tense::Past
        } else {
            Tense::Future
        }
    }

    /// The default English rendering for the given `Accuracy`: the tense is
    /// derived from the span itself.
    pub fn locale_en(&self, accuracy: Accuracy) -> (r: String)
        ensures
            r@ == spec_text_en(self@, accuracy, tense_spec(self@, accuracy)),
    {
        let tense = self.tense(accuracy);
        self.to_text_en(accuracy, tense)
    }
}

/// Relies on `Duration::as_secs` and `Duration::subsec_nanos`: the magnitude
/// of a standard duration, as whole seconds plus a sub-second nanosecond
/// part, which is below one billion.
#[verifier::external_body]
fn duration_parts(d: &core::time::Duration) -> (r: (u64, u32))
    ensures
        r.1 < NANOS_PER_SEC,
{
    (d.as_secs(), d.subsec_nanos())
}

impl HumanTime {
    /// Create a `HumanTime` from a standard duration, which is non-negative
    /// and therefore always taken as a positive span. The magnitude is
    /// whatever the duration holds, so nothing more can be said of it here
    /// than that the value is well formed.
    pub fn from_duration(d: &core::time::Duration) -> (r: HumanTime)
        ensures
            r@.is_positive,
            r@.wf(),
    {
        let (secs, nanos) = duration_parts(d);
        HumanTime { secs, nanos, is_positive: true }
    }
}

/// Display a time span as a human readable phrase.
pub trait Humanize {
    /// The default English rendering: rough accuracy, with the tense derived
    /// from the span itself.
    fn humanize(&self) -> String;
}

impl Humanize for core::time::Duration {
    /// A standard duration is non-negative, so it is always taken as a
    /// positive span.
    fn humanize(&self) -> String {
        HumanTime::from_duration(self).locale_en(Accuracy::Rough)
    }
}

/// Totality law for the rough decomposition: every non-negative count of
/// whole seconds falls in exactly one branch, with no gap and no overlap at
/// the threshold boundaries.
pub proof fn lemma_rough_total(n: int)
    requires
        0 <= n,
    ensures
        rough_period_spec(n) is Years <==> 345 * (S_DAY as int) < n,
        rough_period_spec(n) is Months <==> 29 * (S_DAY as int) < n <= 345 * (S_DAY as int),
        rough_period_spec(n) is Weeks <==> 6 * (S_DAY as int) + 12 * (S_HOUR as int) < n <= 29 * (
        S_DAY as int),
        rough_period_spec(n) is Days <==> 22 * (S_HOUR as int) < n <= 6 * (S_DAY as int) + 12 * (
        S_HOUR as int),
        rough_period_spec(n) is Hours <==> 45 * (S_MINUTE as int) < n <= 22 * (S_HOUR as int),
        rough_period_spec(n) is Minutes <==> 45 < n <= 45 * (S_MINUTE as int),
        rough_period_spec(n) is Seconds <==> 10 < n <= 45,
        rough_period_spec(n) is Now <==> n <= 10,
        !(rough_period_spec(n) is Eternity),
        !(rough_period_spec(n) is Nanos),
        !(rough_period_spec(n) is Micros),
        !(rough_period_spec(n) is Millis),
{
}

} // verus!
