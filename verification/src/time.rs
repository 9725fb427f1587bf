//! Points in time and calendar dates.
//!
//! A [`Timestamp`] is a UTC instant at nanosecond resolution, held the way the
//! `chrono` crate counts it: whole seconds since the Unix epoch and the
//! nanoseconds of that second, where the last second of a minute may be a leap
//! second and then counts on past one billion.

use vstd::prelude::*;

verus! {

/// The first second that a timestamp can denote.
pub const MIN_SECS: i64 = -8_334_601_228_800;

/// The last second that a timestamp can denote.
pub const MAX_SECS: i64 = 8_210_266_876_799;

pub const MILLIS_PER_DAY: i64 = 86_400_000;

#[derive(Debug, Clone, Copy, PartialEq, Eq, Structural)]
pub struct Timestamp {
    pub secs: i64,
    pub nanos: u32,
}

/// A day of the proleptic Gregorian calendar.
#[derive(Debug, Clone, Copy, PartialEq, Eq, Structural)]
pub struct CalendarDate {
    pub year: i32,
    pub month: u32,
    pub day: u32,
}

impl DeepView for Timestamp {
    type V = Timestamp;

    open spec fn deep_view(&self) -> Timestamp {
        *self
    }
}

impl DeepView for CalendarDate {
    type V = CalendarDate;

    open spec fn deep_view(&self) -> CalendarDate {
        *self
    }
}

impl Timestamp {
    /// The instant exists: its second is in range, and it counts past one
    /// billion nanoseconds only within a leap second.
    pub open spec fn wf(self) -> bool {
        &&& MIN_SECS <= self.secs <= MAX_SECS
        &&& self.nanos < 1_000_000_000 || (self.nanos < 2_000_000_000 && self.secs as int % 60
            == 59)
    }

    /// The instant is not inside a leap second.
    pub open spec fn plain(self) -> bool {
        self.nanos < 1_000_000_000
    }

    /// Nanoseconds since the epoch.
    pub open spec fn total_nanos(self) -> int {
        self.secs * 1_000_000_000 + self.nanos
    }

    /// `self` is later than `other`.
    pub open spec fn later_than(self, other: Timestamp) -> bool {
        self.secs > other.secs || (self.secs == other.secs && self.nanos > other.nanos)
    }

    /// Whole milliseconds since the epoch.
    pub open spec fn millis(self) -> int {
        self.secs * 1000 + self.nanos as int / 1_000_000
    }

    /// Whether the instant exists.
    pub fn is_wf(&self) -> (res: bool)
        ensures
            res == self.wf(),
    {
        let in_range: bool = MIN_SECS <= self.secs && self.secs <= MAX_SECS;
        if !in_range {
            return false;
        }
        if self.nanos < 1_000_000_000 {
            return true;
        }
        let shifted: i64 = self.secs - MIN_SECS;
        proof {
            assert(MIN_SECS as int % 60 == 0);
        }
        self.nanos < 2_000_000_000 && shifted % 60 == 59
    }

    /// Whether `self` is later than `other`.
    pub fn is_later_than(&self, other: &Timestamp) -> (res: bool)
        ensures
            res == self.later_than(*other),
    {
        self.secs > other.secs || (self.secs == other.secs && self.nanos > other.nanos)
    }

    /// Milliseconds since the epoch.
    pub fn timestamp_millis(&self) -> (res: i64)
        requires
            self.wf(),
        ensures
            res == self.millis(),
    {
        self.secs * 1000 + (self.nanos / 1_000_000) as i64
    }
}

/// The second of the day that `t` falls in.
pub open spec fn second_of_day(t: Timestamp) -> int {
    t.secs as int % 86_400
}

/// Nanoseconds from `b` to `a`. A leap second that lies between the two times
/// of day counts.
pub open spec fn nanos_between(a: Timestamp, b: Timestamp) -> int {
    let leap: int = if second_of_day(a) > second_of_day(b) && !b.plain() {
        1
    } else if second_of_day(a) < second_of_day(b) && !a.plain() {
        -1
    } else {
        0
    };
    (a.secs - b.secs + leap) * 1_000_000_000 + (a.nanos - b.nanos)
}

/// Whole seconds in a number of nanoseconds, rounded toward zero.
pub open spec fn whole_seconds(nanos: int) -> int {
    if nanos >= 0 {
        nanos / 1_000_000_000
    } else {
        -((-nanos) / 1_000_000_000)
    }
}

/// Whole seconds from `b` to `a`, rounded toward zero.
pub open spec fn seconds_between(a: Timestamp, b: Timestamp) -> int {
    whole_seconds(nanos_between(a, b))
}

/// Reads the system clock through `chrono::Utc::now`. Every reading is an
/// existing instant at or after the epoch and outside any leap second; which
/// one it is depends on the clock.
#[verifier::external_body]
pub(crate) fn now() -> (res: Timestamp)
    ensures
        res.wf(),
        res.plain(),
        res.secs >= 0,
{
    let now = chrono::Utc::now();
    Timestamp { secs: now.timestamp(), nanos: now.timestamp_subsec_nanos() }
}

/// Subtracts two `chrono::DateTime<Utc>` values and takes
/// `TimeDelta::num_seconds` of the difference: whole seconds rounded toward
/// zero, a leap second between the two times of day included.
#[verifier::external_body]
pub(crate) fn num_seconds_between(a: Timestamp, b: Timestamp) -> (res: i64)
    requires
        a.wf(),
        b.wf(),
    ensures
        res == seconds_between(a, b),
{
    let a = chrono::DateTime::from_timestamp(a.secs, a.nanos).expect("existing instant");
    let b = chrono::DateTime::from_timestamp(b.secs, b.nanos).expect("existing instant");
    (a - b).num_seconds()
}

/// Adds a `chrono::TimeDelta` to a `chrono::DateTime<Utc>` outside a leap
/// second: the result lies exactly that many milliseconds later. Results out
/// of range make `chrono` panic and are excluded.
#[verifier::external_body]
pub(crate) fn plus_millis(t: Timestamp, millis: i64) -> (res: Timestamp)
    requires
        t.wf(),
        t.plain(),
        millis > i64::MIN,
        MIN_SECS * 1_000_000_000 <= t.total_nanos() + millis * 1_000_000 < (MAX_SECS + 1)
            * 1_000_000_000,
    ensures
        res.wf(),
        res.plain(),
        res.total_nanos() == t.total_nanos() + millis * 1_000_000,
{
    let t = chrono::DateTime::from_timestamp(t.secs, t.nanos).expect("existing instant");
    let moved = t + chrono::TimeDelta::milliseconds(millis);
    Timestamp { secs: moved.timestamp(), nanos: moved.timestamp_subsec_nanos() }
}

/// The instant `millis` milliseconds after `t`, if there is one.
pub open spec fn shifted(t: Timestamp, millis: int) -> Option<Timestamp> {
    let total = t.total_nanos() + millis * 1_000_000;
    let secs = total / 1_000_000_000;
    if MIN_SECS <= secs <= MAX_SECS {
        Some(Timestamp { secs: secs as i64, nanos: (total % 1_000_000_000) as u32 })
    } else {
        None
    }
}

/// The instant `millis` milliseconds after `t`; `None` beyond the range of
/// timestamps.
pub fn shift(t: &Timestamp, millis: i64) -> (res: Option<Timestamp>)
    requires
        t.wf(),
        t.plain(),
    ensures
        res == shifted(*t, millis as int),
        res matches Some(moved) ==> moved.wf() && moved.plain(),
{
    let total: i128 = t.secs as i128 * 1_000_000_000 + t.nanos as i128 + millis as i128 * 1_000_000;
    let low: i128 = MIN_SECS as i128 * 1_000_000_000;
    let high: i128 = (MAX_SECS as i128 + 1) * 1_000_000_000;
    if low <= total && total < high {
        proof {
            assert(millis > i64::MIN);
        }
        Some(plus_millis(*t, millis))
    } else {
        None
    }
}

/// The instant `count` units of `unit_millis` milliseconds after `t`; `None`
/// beyond the range of timestamps.
pub fn shift_units(t: &Timestamp, count: i64, unit_millis: i64) -> (res: Option<Timestamp>)
    requires
        t.wf(),
        t.plain(),
        0 < unit_millis <= MILLIS_PER_DAY,
    ensures
        res == shifted(*t, count * unit_millis),
        res matches Some(moved) ==> moved.wf() && moved.plain(),
{
    proof {
        assert(-0x1_0000_0000_0000_0000_0000_0000 < count * unit_millis
            < 0x1_0000_0000_0000_0000_0000_0000) by (nonlinear_arith)
            requires
                i64::MIN <= count <= i64::MAX,
                0 < unit_millis <= 86_400_000,
        ;
    }
    let millis: i128 = count as i128 * unit_millis as i128;
    if i64::MIN as i128 <= millis && millis <= i64::MAX as i128 {
        shift(t, millis as i64)
    } else {
        None
    }
}

/// The date that `chrono` reads out of a text in the format `%Y-%m-%d`.
pub uninterp spec fn ymd_date(text: Seq<char>) -> Option<(i32, u32, u32)>;

/// A day that the Gregorian calendar has.
pub open spec fn is_calendar_day(year: int, month: int, day: int) -> bool {
    let leap = year % 4 == 0 && (year % 100 != 0 || year % 400 == 0);
    let last: int = if month == 2 {
        if leap {
            29
        } else {
            28
        }
    } else if month == 4 || month == 6 || month == 9 || month == 11 {
        30
    } else {
        31
    };
    1 <= month <= 12 && 1 <= day <= last
}

/// A text of digits in groups of the given widths, joined by hyphens:
/// `YYYY` (parts = 1), `YYYY-MM` (parts = 2) or `YYYY-MM-DD` (parts = 3).
pub open spec fn is_date_shape(text: Seq<char>, parts: int) -> bool {
    &&& 1 <= parts <= 3
    &&& text.len() == 1 + 3 * parts
    &&& crate::text::is_number(text.subrange(0, 4))
    &&& parts >= 2 ==> text[4] == '-' && crate::text::is_number(text.subrange(5, 7))
    &&& parts >= 3 ==> text[7] == '-' && crate::text::is_number(text.subrange(8, 10))
}

/// `chrono::NaiveDate::parse_from_str` with the format `%Y-%m-%d`. The result
/// is named. Of the four-two-two digit form it is stated which date comes out,
/// and that the shorter forms, which lack a part, and texts that go on after a
/// full date are refused.
#[verifier::external_body]
pub(crate) fn parse_ymd(text: &str) -> (res: Option<CalendarDate>)
    ensures
        match res {
            Some(date) => ymd_date(text@) == Some((date.year, date.month, date.day)),
            None => ymd_date(text@) is None,
        },
        is_date_shape(text@, 1) || is_date_shape(text@, 2) ==> res is None,
        text@.len() > 10 && is_date_shape(text@.subrange(0, 10), 3) ==> res is None,
        is_date_shape(text@, 3) ==> ({
            let year = crate::text::number_value(text@.subrange(0, 4));
            let month = crate::text::number_value(text@.subrange(5, 7));
            let day = crate::text::number_value(text@.subrange(8, 10));
            match res {
                Some(date) => {
                    &&& is_calendar_day(year as int, month as int, day as int)
                    &&& date.year == year
                    &&& date.month == month
                    &&& date.day == day
                },
                None => !is_calendar_day(year as int, month as int, day as int),
            }
        }),
{
    let parsed = chrono::NaiveDate::parse_from_str(text, "%Y-%m-%d").ok()?;
    Some(CalendarDate {
        year: chrono::Datelike::year(&parsed),
        month: chrono::Datelike::month(&parsed),
        day: chrono::Datelike::day(&parsed),
    })
}

/// The seconds between two instants do not depend on the order they are given
/// in, but for the sign.
pub proof fn law_seconds_between_antisymmetric(a: Timestamp, b: Timestamp)
    ensures
        seconds_between(a, b) == -seconds_between(b, a),
{
    assert(nanos_between(a, b) == -nanos_between(b, a));
}

/// A shifted instant lies exactly that many milliseconds away, outside any leap
/// second; there is one exactly when it lies within the range of timestamps.
pub proof fn law_shifts_are_exact(t: Timestamp, millis: int)
    ensures
        shifted(t, millis) matches Some(moved) ==> moved.plain() && moved.total_nanos()
            == t.total_nanos() + millis * 1_000_000,
        shifted(t, millis) is Some <==> MIN_SECS * 1_000_000_000 <= t.total_nanos() + millis
            * 1_000_000 < (MAX_SECS + 1) * 1_000_000_000,
{
}

/// Outside leap seconds, the later of two instants is the one with more
/// nanoseconds since the epoch, and the time between them is the difference.
pub proof fn law_plain_instants_are_counted(a: Timestamp, b: Timestamp)
    requires
        a.plain(),
        b.plain(),
    ensures
        a.later_than(b) <==> a.total_nanos() > b.total_nanos(),
        nanos_between(a, b) == a.total_nanos() - b.total_nanos(),
        a.millis() == a.total_nanos() / 1_000_000,
{
}

} // verus!
