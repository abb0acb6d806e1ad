//! The calls into `chrono`, each behind a contract that is believed, not
//! proved.
//!
//! Everything here works on the plain numbers of [`crate::calendar`]; the
//! bodies only turn those numbers into `chrono` values, make one call, and
//! turn the answer back.

use chrono::{Datelike, NaiveDate, NaiveTime, TimeDelta, Timelike};
use vstd::prelude::*;

use crate::calendar::{
    CalendarDate, Instant, TimeOfDay, CLOCK_FORMAT, DIGEST_DATE_FORMAT, FIRST_DAY, LAST_DAY,
    SLIDESHOW_DATE_FORMAT,
};
use crate::text::digit_char;

verus! {

/// The day number of the date that `chrono::NaiveDate::parse_from_str` reads
/// from `text` under the strftime pattern `format`, or `None` where it
/// reports an error.
pub uninterp spec fn parsed_date(text: Seq<char>, format: Seq<char>) -> Option<i32>;

/// The seconds since midnight and the nanosecond part of the time that
/// `chrono::NaiveTime::parse_from_str` reads from `text` under the strftime
/// pattern `format`, or `None` where it reports an error.
pub uninterp spec fn parsed_time(text: Seq<char>, format: Seq<char>) -> Option<(u32, u32)>;

/// The text that `chrono::NaiveDate::format` gives for the date with day
/// number `day` under the strftime pattern `format`.
pub uninterp spec fn formatted_date(day: int, format: Seq<char>) -> Seq<char>;

/// A time of day on a 12-hour clock: the hour without padding, the minute
/// with two digits, and `AM` or `PM`, as in `7:05 PM`.
pub open spec fn twelve_hour_text(secs: int) -> Seq<char> {
    let hour = secs / 3600;
    let minute = (secs / 60) % 60;
    let hour12 = if hour % 12 == 0 { 12 } else { hour % 12 };
    let tens = if hour12 >= 10 { seq![digit_char(hour12 / 10)] } else { Seq::<char>::empty() };
    tens + seq![
        digit_char(hour12 % 10),
        ':',
        digit_char(minute / 10),
        digit_char(minute % 10),
        ' ',
        if hour >= 12 { 'P' } else { 'A' },
        'M',
    ]
}

/// The instant `seconds` seconds after `start`, or `None` where it would lie
/// past the calendar's last day. A leap second in `start` is dropped: the
/// count starts from the second before it, with the same fraction.
pub open spec fn instant_plus(start: Instant, seconds: int) -> Option<Instant> {
    let total = start.time.secs + seconds;
    let day = start.date.day + total / 86_400;
    if day > LAST_DAY {
        None
    } else {
        Some(
            Instant {
                date: CalendarDate { day: day as i32 },
                time: TimeOfDay {
                    secs: (total % 86_400) as u32,
                    nanos: (start.time.nanos % 1_000_000_000) as u32,
                },
            },
        )
    }
}

/// The nanoseconds from `earlier` to `later`, negative where `later` comes
/// first. Days count 86 400 seconds each, and the times of day are taken
/// apart by their seconds and nanoseconds. One second is added where `later`
/// has more whole seconds in its day and `earlier` lies in a leap second;
/// one is taken off where `later` has fewer and itself lies in a leap second.
pub open spec fn nanos_between(later: Instant, earlier: Instant) -> int {
    let days = later.date.day - earlier.date.day;
    let leap = if later.time.secs > earlier.time.secs && earlier.time.nanos >= 1_000_000_000 {
        1int
    } else if later.time.secs < earlier.time.secs && later.time.nanos >= 1_000_000_000 {
        -1int
    } else {
        0int
    };
    (days * 86_400 + (later.time.secs - earlier.time.secs) + leap) * 1_000_000_000 + (
    later.time.nanos - earlier.time.nanos)
}

/// `chrono::NaiveDate::parse_from_str`. The contract names the result and
/// adds that a date read lies within the calendar's range.
#[verifier::external_body]
pub(crate) fn parse_date(text: &str, format: &str) -> (day: Option<i32>)
    ensures
        day == parsed_date(text@, format@),
        day matches Some(d) ==> FIRST_DAY <= d <= LAST_DAY,
{
    match NaiveDate::parse_from_str(text, format) {
        Ok(date) => Some(date.num_days_from_ce()),
        Err(_) => None,
    }
}

/// `chrono::NaiveTime::parse_from_str`. The contract names the result and
/// adds that a time read is a time of day: under 86 400 seconds, with a
/// nanosecond part under two seconds that reaches a full second only in the
/// last second of a minute.
#[verifier::external_body]
pub(crate) fn parse_time(text: &str, format: &str) -> (time: Option<(u32, u32)>)
    ensures
        time == parsed_time(text@, format@),
        time matches Some((secs, nanos)) ==> (TimeOfDay { secs, nanos }).wf(),
{
    match NaiveTime::parse_from_str(text, format) {
        Ok(time) => Some((time.num_seconds_from_midnight(), time.nanosecond())),
        Err(_) => None,
    }
}

/// `chrono::NaiveDate::format`, turned into a `String`. The two patterns
/// admitted hold date items only, so the formatting cannot fail. The contract
/// names the result.
#[verifier::external_body]
pub(crate) fn format_date(date: CalendarDate, format: &str) -> (text: String)
    requires
        date.wf(),
        format@ == SLIDESHOW_DATE_FORMAT@ || format@ == DIGEST_DATE_FORMAT@,
    ensures
        text@ == formatted_date(date.day as int, format@),
{
    NaiveDate::from_num_days_from_ce_opt(date.day).unwrap().format(format).to_string()
}

/// `chrono::NaiveTime::format` under the pattern `%-I:%M %p`, turned into a
/// `String`. The contract states the text as [`twelve_hour_text`]: the hour
/// on a 12-hour clock without padding, a colon, the minute with two digits,
/// a space, and `AM` or `PM`. Seconds and nanoseconds are not shown.
#[verifier::external_body]
pub(crate) fn format_time(time: TimeOfDay, format: &str) -> (text: String)
    requires
        time.wf(),
        format@ == CLOCK_FORMAT@,
    ensures
        text@ == twelve_hour_text(time.secs as int),
{
    NaiveTime::from_num_seconds_from_midnight_opt(time.secs, time.nanos)
        .unwrap()
        .format(format)
        .to_string()
}

/// `chrono::NaiveDateTime::checked_add_signed` with a positive number of
/// whole seconds, at most one day. The contract states the result as
/// [`instant_plus`]: the seconds are added to the time of day; a full day
/// they run over moves the date on by one day; the result is `None` where
/// that date is past the calendar's end. A start inside a leap second
/// counts as the second before it: its nanosecond part loses the extra
/// second first.
#[verifier::external_body]
pub(crate) fn add_seconds(start: Instant, seconds: i64) -> (end: Option<Instant>)
    requires
        start.wf(),
        0 < seconds <= 86_400,
    ensures
        end == instant_plus(start, seconds as int),
{
    let date = NaiveDate::from_num_days_from_ce_opt(start.date.day).unwrap();
    let time = NaiveTime::from_num_seconds_from_midnight_opt(start.time.secs, start.time.nanos)
        .unwrap();
    match date.and_time(time).checked_add_signed(TimeDelta::seconds(seconds)) {
        Some(end) => Some(
            Instant {
                date: CalendarDate { day: end.date().num_days_from_ce() },
                time: TimeOfDay {
                    secs: end.time().num_seconds_from_midnight(),
                    nanos: end.time().nanosecond(),
                },
            },
        ),
        None => None,
    }
}

/// `chrono::NaiveDateTime::signed_duration_since`, read back through
/// `TimeDelta::num_seconds` and `TimeDelta::subsec_nanos`: whole seconds and
/// a nanosecond part of less than a second that together make up the
/// duration. The contract states the duration as [`nanos_between`]: the
/// difference of the dates in days of 86 400 seconds plus the difference of
/// the times of day, with the leap second counted as described there.
#[verifier::external_body]
pub(crate) fn duration_between(later: Instant, earlier: Instant) -> (gap: (i64, i32))
    requires
        later.wf(),
        earlier.wf(),
    ensures
        gap.0 * 1_000_000_000 + gap.1 == nanos_between(later, earlier),
        -1_000_000_000 < gap.1 < 1_000_000_000,
{
    let a = NaiveDate::from_num_days_from_ce_opt(later.date.day).unwrap().and_time(
        NaiveTime::from_num_seconds_from_midnight_opt(later.time.secs, later.time.nanos).unwrap(),
    );
    let b = NaiveDate::from_num_days_from_ce_opt(earlier.date.day).unwrap().and_time(
        NaiveTime::from_num_seconds_from_midnight_opt(earlier.time.secs, earlier.time.nanos)
            .unwrap(),
    );
    let gap = a.signed_duration_since(b);
    (gap.num_seconds(), gap.subsec_nanos())
}

} // verus!
