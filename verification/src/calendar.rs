//! Local calendar dates, times of day and instants, as plain numbers.
//!
//! A date is a day number in the proleptic Gregorian calendar (day 1 is
//! January 1 of year 1), a time of day is a count of seconds since midnight
//! with a nanosecond part, and an instant is a date with a time. The
//! nanosecond part may run up to just under two seconds within the last
//! second of a minute: that is how a leap second is written.

use vstd::prelude::*;

verus! {

/// Day number of the first date the calendar reaches (January 1, 262144 BCE).
pub const FIRST_DAY: i32 = -95_746_129;

/// Day number of the last date the calendar reaches (December 31, 262142 CE).
pub const LAST_DAY: i32 = 95_745_399;

pub const SECONDS_PER_DAY: u32 = 86_400;

pub const NANOS_PER_SECOND: u32 = 1_000_000_000;

/// How the event source writes a start date: year, month and day.
pub const LOCAL_DATE_FORMAT: &'static str = "%Y-%m-%d";

/// How the event source writes a start time: hour, minute and second on a
/// 24-hour clock.
pub const LOCAL_TIME_FORMAT: &'static str = "%H:%M:%S";

/// How a time of day is shown: 12-hour clock, as in `7:00 PM`.
pub const CLOCK_FORMAT: &'static str = "%-I:%M %p";

/// How the slideshow's header shows a date: weekday, then month, day, year.
pub const SLIDESHOW_DATE_FORMAT: &'static str = "%A \u{2022} %m-%d-%Y";

/// How the digest shows a date: weekday, then month, day, year.
pub const DIGEST_DATE_FORMAT: &'static str = "%A %m-%d-%Y";

/// A calendar date without a time zone.
#[derive(Clone, Copy, Debug, PartialEq, Eq, Structural)]
pub struct CalendarDate {
    /// Days counted from December 31 of year 0, so that January 1 of year 1
    /// is day 1.
    pub day: i32,
}

/// A time of day without a time zone.
#[derive(Clone, Copy, Debug, PartialEq, Eq, Structural)]
pub struct TimeOfDay {
    /// Whole seconds since midnight.
    pub secs: u32,
    /// Nanoseconds since that whole second; a billion or more inside a leap
    /// second.
    pub nanos: u32,
}

/// A date and a time of day, without a time zone.
#[derive(Clone, Copy, Debug, PartialEq, Eq, Structural)]
pub struct Instant {
    pub date: CalendarDate,
    pub time: TimeOfDay,
}

impl CalendarDate {
    /// The date lies within the calendar's range.
    pub open spec fn wf(self) -> bool {
        FIRST_DAY <= self.day <= LAST_DAY
    }

    /// The date with the given day number, if the calendar reaches it.
    pub fn from_day_number(day: i32) -> (date: Option<CalendarDate>)
        ensures
            date == (if FIRST_DAY <= day <= LAST_DAY {
                Some(CalendarDate { day })
            } else {
                None
            }),
    {
        if FIRST_DAY <= day && day <= LAST_DAY {
            Some(CalendarDate { day })
        } else {
            None
        }
    }

    pub fn day_number(&self) -> (day: i32)
        ensures
            day == self.day,
    {
        self.day
    }

    pub fn same_day(&self, other: &CalendarDate) -> (same: bool)
        ensures
            same == (*self == *other),
    {
        self.day == other.day
    }
}

impl TimeOfDay {
    /// Seconds stay within one day, and the nanosecond part exceeds a second
    /// only in the last second of a minute.
    pub open spec fn wf(self) -> bool {
        &&& self.secs < SECONDS_PER_DAY
        &&& self.nanos < 2 * NANOS_PER_SECOND
        &&& self.nanos >= NANOS_PER_SECOND ==> self.secs % 60 == 59
    }

    /// The time `hour:min:sec` on a 24-hour clock, if there is such a time.
    pub fn from_hms_opt(hour: u32, min: u32, sec: u32) -> (time: Option<TimeOfDay>)
        ensures
            time == (if hour < 24 && min < 60 && sec < 60 {
                Some(TimeOfDay { secs: (hour * 3600 + min * 60 + sec) as u32, nanos: 0 })
            } else {
                None
            }),
            time matches Some(t) ==> t.wf(),
    {
        if hour < 24 && min < 60 && sec < 60 {
            Some(TimeOfDay { secs: hour * 3600 + min * 60 + sec, nanos: 0 })
        } else {
            None
        }
    }

    /// The time `secs` seconds and `nanos` nanoseconds after midnight, if
    /// that is a time of day.
    pub fn from_num_seconds_from_midnight_opt(secs: u32, nanos: u32) -> (time: Option<TimeOfDay>)
        ensures
            time == (if (TimeOfDay { secs, nanos }).wf() {
                Some(TimeOfDay { secs, nanos })
            } else {
                None
            }),
    {
        if secs >= SECONDS_PER_DAY || nanos >= 2 * NANOS_PER_SECOND || (nanos >= NANOS_PER_SECOND
            && secs % 60 != 59) {
            None
        } else {
            Some(TimeOfDay { secs, nanos })
        }
    }

    /// 23:59:59, the time an event is given when its source names none.
    pub open spec fn spec_end_of_day() -> TimeOfDay {
        TimeOfDay { secs: 86_399, nanos: 0 }
    }

    #[verifier::when_used_as_spec(spec_end_of_day)]
    pub fn end_of_day() -> (time: TimeOfDay)
        ensures
            time == Self::spec_end_of_day(),
            time.wf(),
    {
        TimeOfDay { secs: 86_399, nanos: 0 }
    }

    pub fn num_seconds_from_midnight(&self) -> (secs: u32)
        ensures
            secs == self.secs,
    {
        self.secs
    }

    pub fn nanosecond(&self) -> (nanos: u32)
        ensures
            nanos == self.nanos,
    {
        self.nanos
    }

    /// Earlier in the day than `other`, or the same time.
    pub open spec fn is_at_or_before(self, other: TimeOfDay) -> bool {
        self.secs < other.secs || (self.secs == other.secs && self.nanos <= other.nanos)
    }
}

impl Instant {
    pub open spec fn wf(self) -> bool {
        self.date.wf() && self.time.wf()
    }

    pub fn new(date: CalendarDate, time: TimeOfDay) -> (instant: Instant)
        ensures
            instant == (Instant { date, time }),
    {
        Instant { date, time }
    }

    pub fn date(&self) -> (date: CalendarDate)
        ensures
            date == self.date,
    {
        self.date
    }

    pub fn time(&self) -> (time: TimeOfDay)
        ensures
            time == self.time,
    {
        self.time
    }

    /// The order of instants: by date, then by second, then by nanosecond.
    pub open spec fn is_at_or_before(self, other: Instant) -> bool {
        self.date.day < other.date.day || (self.date.day == other.date.day
            && self.time.is_at_or_before(other.time))
    }

    /// Strictly earlier than `other`.
    pub open spec fn is_before(self, other: Instant) -> bool {
        self.is_at_or_before(other) && self != other
    }

    pub fn at_or_before(&self, other: &Instant) -> (r: bool)
        ensures
            r == self.is_at_or_before(*other),
    {
        if self.date.day != other.date.day {
            self.date.day < other.date.day
        } else if self.time.secs != other.time.secs {
            self.time.secs < other.time.secs
        } else {
            self.time.nanos <= other.time.nanos
        }
    }

    pub fn before(&self, other: &Instant) -> (r: bool)
        ensures
            r == self.is_before(*other),
    {
        if self.date.day != other.date.day {
            self.date.day < other.date.day
        } else if self.time.secs != other.time.secs {
            self.time.secs < other.time.secs
        } else {
            self.time.nanos < other.time.nanos
        }
    }
}

} // verus!
