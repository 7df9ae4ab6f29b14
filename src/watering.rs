//! The watering-status calculator: from the day a plant was last watered,
//! its watering interval and the current day, whether it is due.
use vstd::prelude::*;
use vstd::string::*;
use crate::text::{opt_chars, opt_string};

verus! {

/// Where a plant stands against its watering schedule.
#[derive(Clone, Copy, Debug, PartialEq, Eq, Structural)]
pub enum WateringStatus {
    /// The next watering lies in the future.
    Okay,
    /// The next watering is today, or the plant was never watered.
    Due,
    /// The next watering lay in the past.
    Overdue,
}

impl WateringStatus {
    /// The wire name of the status: `ok`, `due` or `overdue`.
    pub open spec fn text(self) -> Seq<char> {
        match self {
            WateringStatus::Okay => "ok"@,
            WateringStatus::Due => "due"@,
            WateringStatus::Overdue => "overdue"@,
        }
    }

    /// The wire name of the status.
    pub fn as_str(&self) -> (r: &'static str)
        ensures
            r@ == self.text(),
    {
        match self {
            WateringStatus::Okay => "ok",
            WateringStatus::Due => "due",
            WateringStatus::Overdue => "overdue",
        }
    }
}

/// The day of the next watering: the last one plus the interval, a negative
/// interval counting as zero.
pub open spec fn next_due_day(last: int, interval: int) -> int {
    last + if interval > 0 { interval } else { 0 }
}

/// The status on day `today` of a plant whose next watering is `next_due`.
pub open spec fn status_for(next_due: int, today: int) -> WateringStatus {
    if today > next_due {
        WateringStatus::Overdue
    } else if today == next_due {
        WateringStatus::Due
    } else {
        WateringStatus::Okay
    }
}

/// Status and next-due day of a plant last watered on day `last` (none if
/// never), with the given interval, seen on day `today`.
pub open spec fn watering(last: Option<int>, interval: int, today: int) -> (WateringStatus, Option<int>) {
    match last {
        None => (WateringStatus::Due, None),
        Some(l) => (status_for(next_due_day(l, interval), today), Some(next_due_day(l, interval))),
    }
}

/// Status and next-due day (counted as days from the common era) of a plant
/// last watered on `last_day`, on day `today`.
pub fn status_on(last_day: Option<i32>, interval_days: i64, today: i32) -> (r: (WateringStatus, Option<i128>))
    ensures
        r.0 == watering(opt_int(last_day), interval_days as int, today as int).0,
        opt_wide(r.1) == watering(opt_int(last_day), interval_days as int, today as int).1,
{
    match last_day {
        None => (WateringStatus::Due, None),
        Some(l) => {
            let step: i128 = if interval_days > 0 { interval_days as i128 } else { 0 };
            let next_due: i128 = l as i128 + step;
            let t = today as i128;
            let status = if t > next_due {
                WateringStatus::Overdue
            } else if t == next_due {
                WateringStatus::Due
            } else {
                WateringStatus::Okay
            };
            (status, Some(next_due))
        },
    }
}

/// An optional day as an optional integer.
pub open spec fn opt_int(d: Option<i32>) -> Option<int> {
    match d {
        Some(v) => Some(v as int),
        None => None,
    }
}

/// An optional wide integer as an optional integer.
pub open spec fn opt_wide(d: Option<i128>) -> Option<int> {
    match d {
        Some(v) => Some(v as int),
        None => None,
    }
}

/// The day (counted from the common era) that chrono reads from a
/// `YYYY-MM-DD` date, if it reads one.
pub uninterp spec fn parsed_day(text: Seq<char>) -> Option<i32>;

/// The `YYYY-MM-DD` text that chrono writes for a day counted from the
/// common era, if that day is within its range.
pub uninterp spec fn day_text(day: i32) -> Option<Seq<char>>;

/// Relies on chrono's `NaiveDate::from_str` and `Datelike::num_days_from_ce`:
/// the day that a date text names, depending on the text alone.
#[verifier::external_body]
fn parse_day(text: &str) -> (r: Option<i32>)
    ensures
        r == parsed_day(text@),
{
    match text.parse::<chrono::NaiveDate>() {
        Ok(d) => Some(chrono::Datelike::num_days_from_ce(&d)),
        Err(_) => None,
    }
}

/// Relies on chrono's `NaiveDate::from_num_days_from_ce_opt` and its
/// `Display`: the date text of a day, depending on the day alone.
#[verifier::external_body]
fn format_day(day: i32) -> (r: Option<String>)
    ensures
        opt_string(r) == day_text(day),
{
    match chrono::NaiveDate::from_num_days_from_ce_opt(day) {
        Some(d) => Some(d.to_string()),
        None => None,
    }
}

#[verifier::external_type_specification]
#[verifier::external_body]
pub struct ExSystemTime(std::time::SystemTime);

/// Relies on `std::time::SystemTime::now`: a reading of the system clock.
/// Nothing is known of its value.
#[verifier::external_body]
fn clock_now() -> (r: std::time::SystemTime) {
    std::time::SystemTime::now()
}

/// Relies on `SystemTime::duration_since` with `UNIX_EPOCH`: how far a
/// reading lies after the epoch (`Ok`) or before it (`Err`), in
/// nanoseconds.
#[verifier::external_body]
fn nanos_from_epoch(t: &std::time::SystemTime) -> (r: Result<u128, u128>) {
    match t.duration_since(std::time::UNIX_EPOCH) {
        Ok(d) => Ok(d.as_nanos()),
        Err(e) => Err(e.duration().as_nanos()),
    }
}

/// Nanoseconds in a day.
pub const NANOS_PER_DAY: u128 = 86400000000000;

/// The day of 1970-01-01, counted from the common era.
pub const EPOCH_DAY: u128 = 719163;

/// A clock reading as signed nanoseconds from the Unix epoch.
pub open spec fn unix_nanos(reading: Result<u128, u128>) -> int {
    match reading {
        Ok(n) => n as int,
        Err(n) => -(n as int),
    }
}

/// The UTC day, counted from the common era, of a time given in nanoseconds
/// from the Unix epoch.
pub open spec fn day_at(nanos: int) -> int {
    EPOCH_DAY + nanos / (NANOS_PER_DAY as int)
}

/// A day held within the range of `i32`.
pub open spec fn clamp_day(d: int) -> i32 {
    if d < i32::MIN {
        i32::MIN
    } else if d > i32::MAX {
        i32::MAX
    } else {
        d as i32
    }
}

/// The UTC day of a clock reading, counted from the common era; a reading
/// beyond the range of `i32` days is held at its end.
pub fn day_of_clock(reading: Result<u128, u128>) -> (r: i32)
    ensures
        r == clamp_day(day_at(unix_nanos(reading))),
{
    match reading {
        Ok(n) => {
            let days = n / NANOS_PER_DAY;
            assert(n as int / (NANOS_PER_DAY as int) == days as int);
            if days > 2147483647 - EPOCH_DAY {
                i32::MAX
            } else {
                (EPOCH_DAY + days) as i32
            }
        },
        Err(n) => {
            let whole = n / NANOS_PER_DAY;
            let part = n % NANOS_PER_DAY;
            let back: u128 = if part == 0 { whole } else { whole + 1 };
            proof {
                let d = NANOS_PER_DAY as int;
                vstd::arithmetic::div_mod::lemma_fundamental_div_mod(n as int, d);
                let rem = back as int * d - n as int;
                assert(-(n as int) == (-(back as int)) * d + rem) by (nonlinear_arith)
                    requires rem == back as int * d - n as int;
                if part == 0 {
                    assert(rem == 0) by (nonlinear_arith)
                        requires n as int == d * (whole as int) + part as int, part == 0, back == whole, rem == back as int * d - n as int;
                } else {
                    assert(rem == d - part as int) by (nonlinear_arith)
                        requires n as int == d * (whole as int) + part as int, back == whole + 1, rem == back as int * d - n as int;
                }
                vstd::arithmetic::div_mod::lemma_fundamental_div_mod_converse(-(n as int), d, -(back as int), rem);
            }
            if back > EPOCH_DAY + 2147483648 {
                i32::MIN
            } else {
                (EPOCH_DAY as i128 - back as i128) as i32
            }
        },
    }
}

/// The date part of a stored timestamp: its first ten characters.
pub open spec fn date_part(s: Seq<char>) -> Seq<char> {
    if s.len() > 10 {
        s.subrange(0, 10)
    } else {
        s
    }
}

/// The day a stored last-watered timestamp names; none when absent or
/// unreadable.
pub open spec fn stored_day(last: Option<Seq<char>>) -> Option<i32> {
    match last {
        None => None,
        Some(t) => parsed_day(date_part(t)),
    }
}

/// The date text of a next-due day, when there is one.
pub open spec fn due_text(next_due: Option<int>) -> Option<Seq<char>> {
    match next_due {
        Some(d) => if i32::MIN <= d <= i32::MAX { day_text(d as i32) } else { None },
        None => None,
    }
}

/// Status text and next-due text of a plant whose stored last-watered
/// timestamp is `last`, on day `today`.
pub open spec fn watering_text(last: Option<Seq<char>>, interval: int, today: int) -> (Seq<char>, Option<Seq<char>>) {
    let w = watering(opt_int(stored_day(last)), interval, today);
    (w.0.text(), due_text(w.1))
}

/// The calculation depends on nothing but the last-watered day, the interval
/// and the current day: equal inputs give equal outputs.
pub proof fn lemma_watering_is_pure(
    last1: Option<Seq<char>>,
    interval1: int,
    today1: int,
    last2: Option<Seq<char>>,
    interval2: int,
    today2: int,
)
    requires
        last1 == last2,
        interval1 == interval2,
        today1 == today2,
    ensures
        watering_text(last1, interval1, today1) == watering_text(last2, interval2, today2),
{
}

/// A plant that was never watered is due and has no next-due day, whatever
/// its interval.
pub proof fn lemma_never_watered_is_due(interval: int, today: int)
    ensures
        watering(None, interval, today) == (WateringStatus::Due, None::<int>),
        watering_text(None, interval, today) == ("due"@, None::<Seq<char>>),
{
}

/// A plant watered exactly one interval ago is due today, and today is its
/// next-due day.
pub proof fn lemma_due_after_one_interval(interval: int, today: int)
    requires
        interval >= 0,
    ensures
        watering(Some(today - interval), interval, today) == (WateringStatus::Due, Some(today)),
{
}

/// A plant watered one day more than an interval ago is overdue.
pub proof fn lemma_overdue_past_the_interval(interval: int, today: int)
    requires
        interval >= 0,
    ensures
        watering(Some(today - (interval + 1)), interval, today).0 == WateringStatus::Overdue,
{
}

/// A plant watered yesterday, with an interval of two days or more, is fine.
pub proof fn lemma_watered_yesterday_is_fine(interval: int, today: int)
    requires
        interval >= 2,
    ensures
        watering(Some(today - 1), interval, today).0 == WateringStatus::Okay,
{
}

/// The day that a stored last-watered timestamp names, reading only its
/// date part.
pub fn stored_day_of(last_watered: Option<&str>) -> (r: Option<i32>)
    ensures
        r == stored_day(opt_chars(last_watered)),
{
    match last_watered {
        None => None,
        Some(t) => {
            let n = t.unicode_len();
            if n > 10 {
                let head = t.substring_char(0, 10);
                parse_day(head)
            } else {
                parse_day(t)
            }
        },
    }
}

/// The date text of a next-due day; none when chrono cannot represent it.
pub fn due_text_of(next_due: Option<i128>) -> (r: Option<String>)
    ensures
        opt_string(r) == due_text(opt_wide(next_due)),
{
    match next_due {
        Some(d) => {
            if -2147483648 <= d && d <= 2147483647 {
                format_day(d as i32)
            } else {
                None
            }
        },
        None => None,
    }
}

/// Status text (`ok`, `due`, `overdue`) and next-due date text of a plant
/// on day `today`. A missing or unreadable last-watered timestamp gives
/// `due` and no next-due date.
pub fn watering_status_on(last_watered: Option<&str>, interval_days: i64, today: i32) -> (r: (String, Option<String>))
    ensures
        r.0@ == watering_text(opt_chars(last_watered), interval_days as int, today as int).0,
        opt_string(r.1) == watering_text(opt_chars(last_watered), interval_days as int, today as int).1,
{
    let day = stored_day_of(last_watered);
    let (status, next_due) = status_on(day, interval_days, today);
    (String::from_str(status.as_str()), due_text_of(next_due))
}

/// The current UTC day, counted from the common era, as the system clock
/// gives it.
pub fn current_day() -> (r: i32)
    ensures
        exists|reading: Result<u128, u128>| r == clamp_day(day_at(unix_nanos(reading))),
{
    let now = clock_now();
    day_of_clock(nanos_from_epoch(&now))
}

/// Status text and next-due date text of a plant on the current UTC day.
pub fn compute_watering_status(last_watered: Option<&str>, interval_days: i64) -> (r: (String, Option<String>))
    ensures
        exists|today: i32|
            r.0@ == watering_text(opt_chars(last_watered), interval_days as int, today as int).0
            && opt_string(r.1) == watering_text(opt_chars(last_watered), interval_days as int, today as int).1,
{
    let today = current_day();
    watering_status_on(last_watered, interval_days, today)
}

} // verus!
