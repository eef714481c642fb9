//! Date-time marshalling: the host's calendar record and a validated,
//! offset-aware timestamp.

use vstd::prelude::*;
use chrono::Datelike;
use crate::value::Tm;

verus! {

#[verifier::external_type_specification]
#[verifier::external_body]
pub struct ExNaiveTime(chrono::NaiveTime);

#[verifier::external_type_specification]
#[verifier::external_body]
pub struct ExFixedOffset(chrono::FixedOffset);

/// Relies on chrono's NaiveTime::from_hms_opt: a time of day exists exactly
/// when the hour, minute and second are in range.
pub assume_specification[ chrono::NaiveTime::from_hms_opt ](hour: u32, min: u32, sec: u32) -> (r:
    Option<chrono::NaiveTime>)
    ensures
        r is Some <==> (hour < 24 && min < 60 && sec < 60),
;

/// Relies on chrono's FixedOffset::east_opt: an offset exists exactly when it
/// is less than a day either way.
pub assume_specification[ chrono::FixedOffset::east_opt ](secs: i32) -> (r: Option<
    chrono::FixedOffset,
>)
    ensures
        r is Some <==> (-86_400 < secs && secs < 86_400),
;

/// The earliest year of chrono's calendar.
pub const MIN_YEAR: i32 = -262143;

/// The latest year of chrono's calendar.
pub const MAX_YEAR: i32 = 262142;

pub open spec fn is_leap_year(y: int) -> bool {
    (y % 4 == 0 && y % 100 != 0) || y % 400 == 0
}

pub open spec fn days_in_month(y: int, m: int) -> int {
    if m == 2 {
        if is_leap_year(y) {
            29
        } else {
            28
        }
    } else if m == 4 || m == 6 || m == 9 || m == 11 {
        30
    } else {
        31
    }
}

/// Days of the year `y` before month `m` begins.
pub open spec fn days_before_month(y: int, m: int) -> int
    decreases m,
{
    if m <= 1 {
        0
    } else {
        days_before_month(y, m - 1) + days_in_month(y, m - 1)
    }
}

/// The day `d` of month `m` (from 1) of year `y` is in the proleptic
/// Gregorian calendar, within chrono's range of years.
pub open spec fn date_exists(y: int, m: int, d: int) -> bool {
    &&& MIN_YEAR <= y <= MAX_YEAR
    &&& 1 <= m <= 12
    &&& 1 <= d <= days_in_month(y, m)
}

/// The number of the day `d` of month `m` of year `y` in the proleptic
/// Gregorian calendar, counting 0001-01-01 (a Monday) as day 1.
pub open spec fn days_from_ce(y: int, m: int, d: int) -> int {
    365 * (y - 1) + (y - 1) / 4 - (y - 1) / 100 + (y - 1) / 400 + days_before_month(y, m) + d
}

/// The day of the week of a date, counted from Sunday.
pub open spec fn weekday_from_sunday(year: int, month: int, day: int) -> int {
    days_from_ce(year, month, day) % 7
}

/// Relies on chrono's NaiveDate::from_ymd_opt, with Datelike::weekday and
/// Datelike::ordinal0 on the date it makes: whether the date exists, and
/// then its day of the week (from Sunday) and of the year (from 0).
#[verifier::external_body]
fn calendar_day(year: i32, month: u32, day: u32) -> (r: Option<(u32, u32)>)
    ensures
        r is Some <==> date_exists(year as int, month as int, day as int),
        r matches Some(p) ==> p.0 == weekday_from_sunday(year as int, month as int, day as int)
            && p.0 < 7 && p.1 == days_before_month(year as int, month as int) + day - 1,
{
    match chrono::NaiveDate::from_ymd_opt(year, month, day) {
        Some(d) => Some((d.weekday().num_days_from_sunday(), d.ordinal0())),
        None => None,
    }
}

/// A moment as local calendar fields and the offset of local time from UTC.
#[derive(Clone, Copy, PartialEq, Eq, Structural, Debug)]
pub struct Timestamp {
    pub year: i32,
    pub month: u32,
    pub day: u32,
    pub hour: u32,
    pub minute: u32,
    pub second: u32,
    /// seconds east of UTC
    pub offset: i32,
}

/// The moment that stands in for any calendar record that names none:
/// 1970-01-01 00:00:00 UTC.
pub open spec fn epoch() -> Timestamp {
    Timestamp { year: 1970, month: 1, day: 1, hour: 0, minute: 0, second: 0, offset: 0 }
}

/// The calendar record names an existing moment: its date exists, its time
/// of day is in range and its offset is less than a day.
pub open spec fn tm_valid(tm: Tm) -> bool {
    &&& 0 <= tm.mon
    &&& 0 <= tm.mday
    &&& date_exists(tm.year + 1900, tm.mon + 1, tm.mday as int)
    &&& 0 <= tm.hour < 24
    &&& 0 <= tm.min < 60
    &&& 0 <= tm.sec < 60
    &&& -86_400 < tm.gmtoff < 86_400
}

/// The moment that a valid calendar record names.
pub open spec fn timestamp_of(tm: Tm) -> Timestamp {
    Timestamp {
        year: (tm.year + 1900) as i32,
        month: (tm.mon + 1) as u32,
        day: tm.mday as u32,
        hour: tm.hour as u32,
        minute: tm.min as u32,
        second: tm.sec as u32,
        offset: tm.gmtoff as i32,
    }
}

impl Timestamp {
    pub open spec fn wf(&self) -> bool {
        &&& date_exists(self.year as int, self.month as int, self.day as int)
        &&& self.hour < 24
        &&& self.minute < 60
        &&& self.second < 60
        &&& -86_400 < self.offset < 86_400
    }

    /// 1970-01-01 00:00:00 UTC.
    pub fn epoch() -> (r: Timestamp)
        ensures
            r == epoch(),
            r.wf(),
    {
        Timestamp { year: 1970, month: 1, day: 1, hour: 0, minute: 0, second: 0, offset: 0 }
    }

    /// Reads a host calendar record (months from 0, years from 1900). A record
    /// with any field out of range gives the epoch instead: the host has no
    /// way to hear of a failed conversion here.
    pub fn from_tm(tm: &Tm) -> (r: Timestamp)
        ensures
            r.wf(),
            tm_valid(*tm) ==> r == timestamp_of(*tm),
            !tm_valid(*tm) ==> r == epoch(),
    {
        if tm.mon < 0 || tm.mon > 11 || tm.mday < 0 || tm.hour < 0 || tm.min < 0 || tm.sec < 0 {
            return Timestamp::epoch();
        }
        if tm.year > i32::MAX - 1900 {
            return Timestamp::epoch();
        }
        if tm.gmtoff <= -86_400 || tm.gmtoff >= 86_400 {
            return Timestamp::epoch();
        }
        let year = tm.year + 1900;
        let month = (tm.mon + 1) as u32;
        let day = tm.mday as u32;
        if calendar_day(year, month, day).is_none() {
            return Timestamp::epoch();
        }
        let (hour, minute, second) = (tm.hour as u32, tm.min as u32, tm.sec as u32);
        if chrono::NaiveTime::from_hms_opt(hour, minute, second).is_none() {
            return Timestamp::epoch();
        }
        let offset = tm.gmtoff as i32;
        if chrono::FixedOffset::east_opt(offset).is_none() {
            return Timestamp::epoch();
        }
        Timestamp { year, month, day, hour, minute, second, offset }
    }

    /// The host calendar record of this moment: months from 0, years from
    /// 1900, the day of the week and of the year worked out, no daylight
    /// saving flag, and the sign of the offset as the zone's first byte.
    pub fn to_tm(&self) -> (r: Tm)
        requires
            self.wf(),
        ensures
            r.sec == self.second,
            r.min == self.minute,
            r.hour == self.hour,
            r.mday == self.day,
            r.mon == self.month - 1,
            r.year == self.year - 1900,
            r.wday == weekday_from_sunday(self.year as int, self.month as int, self.day as int),
            0 <= r.wday < 7,
            0 <= r.yday < 366,
            r.yday == days_before_month(self.year as int, self.month as int) + self.day - 1,
            r.isdst == 0,
            r.gmtoff == self.offset,
            r.zone == (if self.offset >= 0 { 43i8 } else { 45i8 }),
    {
        let (wday, yday) = match calendar_day(self.year, self.month, self.day) {
            Some(p) => p,
            None => (0, 0),
        };
        proof {
            assert(yday < 366) by {
                lemma_days_before_month_bound(self.year as int, self.month as int);
            }
        }
        Tm {
            sec: self.second as i32,
            min: self.minute as i32,
            hour: self.hour as i32,
            mday: self.day as i32,
            mon: (self.month - 1) as i32,
            year: self.year - 1900,
            wday: wday as i32,
            yday: yday as i32,
            isdst: 0,
            gmtoff: self.offset as i64,
            zone: if self.offset >= 0 {
                43
            } else {
                45
            },
        }
    }
}

proof fn lemma_days_before_month_bound(y: int, m: int)
    requires
        1 <= m <= 12,
    ensures
        days_before_month(y, m) + days_in_month(y, m) <= 366,
    decreases m,
{
    reveal_with_fuel(days_before_month, 12);
}

/// A valid calendar record read and written back keeps every field that
/// names the moment: seconds to years and the offset.
pub proof fn lemma_tm_round_trip(tm: Tm, r: Tm)
    requires
        tm_valid(tm),
        r.sec == timestamp_of(tm).second,
        r.min == timestamp_of(tm).minute,
        r.hour == timestamp_of(tm).hour,
        r.mday == timestamp_of(tm).day,
        r.mon == timestamp_of(tm).month - 1,
        r.year == timestamp_of(tm).year - 1900,
        r.gmtoff == timestamp_of(tm).offset,
    ensures
        r.sec == tm.sec && r.min == tm.min && r.hour == tm.hour,
        r.mday == tm.mday && r.mon == tm.mon && r.year == tm.year,
        r.gmtoff == tm.gmtoff,
{
}

} // verus!
