//! Which of the listed events are shown today, and in what order.
//!
//! An event is shown when its start date reads as today's date, its name
//! begins with none of the excluded prefixes, and its start time can be
//! read. An event of today whose time cannot be read is dropped and handed
//! back with the reason, so that the rest can still be shown. The events
//! shown are put in ascending order of start; events that start at the same
//! instant stay in the order in which they were listed.

use vstd::prelude::*;
use vstd::string::*;

use crate::calendar::{CalendarDate, Instant, TimeOfDay, LOCAL_DATE_FORMAT, LOCAL_TIME_FORMAT};
use crate::chrono_bridge::{parse_date, parse_time, parsed_date, parsed_time};
use crate::model::Event;
use crate::text::starts_with;

verus! {

/// Why an event cannot be prepared for display.
#[derive(Clone, Copy, Debug, PartialEq, Eq, Structural)]
pub enum EventError {
    /// The start date or the start time of the event could not be read.
    EventFieldUnparseable,
    /// The event's display window would end after the calendar's last day.
    WindowOutOfRange,
}

/// An event that was left out of the display, with the reason.
#[derive(Debug)]
pub struct DroppedEvent {
    pub name: String,
    pub reason: EventError,
}

/// What a [`DroppedEvent`] holds, with the name as plain text.
pub struct Dropped {
    pub name: Seq<char>,
    pub reason: EventError,
}

impl View for DroppedEvent {
    type V = Dropped;

    open spec fn view(&self) -> Dropped {
        Dropped { name: self.name@, reason: self.reason }
    }
}

/// What a sequence of dropped events holds.
pub open spec fn dropped_views(list: Seq<DroppedEvent>) -> Seq<Dropped> {
    list.map_values(|d: DroppedEvent| d@)
}

/// An event that is shown today: its display name and the instant it starts.
#[derive(Debug)]
pub struct FilteredEvent {
    pub name: String,
    pub start: Instant,
}

/// What a [`FilteredEvent`] holds, with the name as plain text.
pub struct Listing {
    pub name: Seq<char>,
    pub start: Instant,
}

impl View for FilteredEvent {
    type V = Listing;

    open spec fn view(&self) -> Listing {
        Listing { name: self.name@, start: self.start }
    }
}

/// The listings held by a sequence of filtered events.
pub open spec fn listings(list: Seq<FilteredEvent>) -> Seq<Listing> {
    list.map_values(|f: FilteredEvent| f@)
}

/// What was read of one listed event: its name, its start date where that
/// could be read, and its start time where that could be read. An event
/// without a time text has the end of the day for its time.
#[derive(Debug)]
pub struct EventReading {
    pub name: String,
    pub date: Option<CalendarDate>,
    pub time: Option<TimeOfDay>,
}

/// What an [`EventReading`] holds, with the name as plain text.
pub struct Reading {
    pub name: Seq<char>,
    pub date: Option<CalendarDate>,
    pub time: Option<TimeOfDay>,
}

impl View for EventReading {
    type V = Reading;

    open spec fn view(&self) -> Reading {
        Reading { name: self.name@, date: self.date, time: self.time }
    }
}

impl Reading {
    /// The date and the time read are a date and a time of day.
    pub open spec fn wf(self) -> bool {
        &&& self.date matches Some(date) ==> date.wf()
        &&& self.time matches Some(time) ==> time.wf()
    }
}

/// What a sequence of event readings holds.
pub open spec fn readings(list: Seq<EventReading>) -> Seq<Reading> {
    list.map_values(|r: EventReading| r@)
}

/// The events shown today and the events of today that were dropped.
#[derive(Debug)]
pub struct Selection {
    /// The events shown, in display order.
    pub shown: Vec<FilteredEvent>,
    /// The events dropped, in the order listed.
    pub dropped: Vec<DroppedEvent>,
}

/// The texts of a list of prefixes.
pub open spec fn prefix_texts(prefixes: Seq<String>) -> Seq<Seq<char>> {
    prefixes.map_values(|p: String| p@)
}

/// The prefixes that mark listings not meant for the public: suite packages,
/// recovery vouchers, guest-pass bundles and internal fees.
pub open spec fn default_prefix_texts() -> Seq<Seq<char>> {
    seq!["Suites"@, "Recovery"@, "Wild"@, "Int Fee"@]
}

/// The one list of excluded prefixes that every caller draws from.
pub fn default_excluded_prefixes() -> (prefixes: Vec<String>)
    ensures
        prefix_texts(prefixes@) == default_prefix_texts(),
{
    let mut prefixes: Vec<String> = Vec::new();
    prefixes.push(String::from_str("Suites"));
    prefixes.push(String::from_str("Recovery"));
    prefixes.push(String::from_str("Wild"));
    prefixes.push(String::from_str("Int Fee"));
    prefixes
}

/// `name` begins with one of `prefixes`.
pub open spec fn is_excluded(name: Seq<char>, prefixes: Seq<Seq<char>>) -> bool {
    exists|k: int| 0 <= k < prefixes.len() && (#[trigger] prefixes[k]).is_prefix_of(name)
}

/// `name` begins with one of `prefixes`.
pub fn has_excluded_prefix(name: &str, prefixes: &Vec<String>) -> (r: bool)
    ensures
        r == is_excluded(name@, prefix_texts(prefixes@)),
{
    let ghost texts = prefix_texts(prefixes@);
    let mut k: usize = 0;
    while k < prefixes.len()
        invariant
            k <= prefixes.len(),
            texts == prefix_texts(prefixes@),
            forall|j: int| 0 <= j < k ==> !(#[trigger] texts[j]).is_prefix_of(name@),
        decreases prefixes.len() - k,
    {
        if starts_with(name, prefixes[k].as_str()) {
            assert(texts[k as int].is_prefix_of(name@));
            return true;
        }
        k += 1;
    }
    false
}

/// The date that a day number read from a date text stands for.
pub open spec fn date_reading(day: Option<i32>) -> Option<CalendarDate> {
    match day {
        Some(day) => Some(CalendarDate { day }),
        None => None,
    }
}

/// The time that was read for an event: the end of the day where the event
/// has no time text (`None`), nothing where its text could not be read
/// (`Some(None)`), and else the seconds and nanoseconds read.
pub open spec fn time_reading(time: Option<Option<(u32, u32)>>) -> Option<TimeOfDay> {
    match time {
        None => Some(TimeOfDay::end_of_day()),
        Some(None) => None,
        Some(Some((secs, nanos))) => Some(TimeOfDay { secs, nanos }),
    }
}

/// The start made of a date and a time read: the two together where both
/// could be read, an error otherwise.
pub open spec fn start_of_reading(date: Option<CalendarDate>, time: Option<TimeOfDay>) -> Result<
    Instant,
    EventError,
> {
    match (date, time) {
        (Some(date), Some(time)) => Ok(Instant { date, time }),
        _ => Err(EventError::EventFieldUnparseable),
    }
}

/// The start instant for what was read of a date text and of a time text:
/// `day` is the day number read, if any; `time` is `None` where there is no
/// time text, and else what was read of it, if anything.
///
/// Without a time text the start is at 23:59:59. Fails with
/// [`EventError::EventFieldUnparseable`] exactly when the date was not read
/// or a time text was there and was not read.
pub fn start_from(day: Option<i32>, time: Option<Option<(u32, u32)>>) -> (start: Result<
    Instant,
    EventError,
>)
    ensures
        start == start_of_reading(date_reading(day), time_reading(time)),
        start is Ok <==> day is Some && !(time matches Some(None)),
        start matches Ok(instant) ==> day == Some(instant.date.day),
        start matches Ok(instant) ==> (match time {
            None => instant.time == TimeOfDay::end_of_day(),
            Some(read) => read == Some((instant.time.secs, instant.time.nanos)),
        }),
{
    let day = match day {
        Some(day) => day,
        None => {
            return Err(EventError::EventFieldUnparseable);
        },
    };
    let time = match time {
        Some(Some((secs, nanos))) => TimeOfDay { secs, nanos },
        Some(None) => {
            return Err(EventError::EventFieldUnparseable);
        },
        None => TimeOfDay::end_of_day(),
    };
    Ok(Instant { date: CalendarDate { day }, time })
}

/// The text of an optional string.
pub open spec fn optional_text(s: Option<&str>) -> Option<Seq<char>> {
    match s {
        Some(t) => Some(t@),
        None => None,
    }
}

/// What is read of an optional time text.
pub open spec fn parsed_optional_time(time: Option<Seq<char>>) -> Option<Option<(u32, u32)>> {
    match time {
        Some(text) => Some(parsed_time(text, LOCAL_TIME_FORMAT@)),
        None => None,
    }
}

/// The start instant written by a date text and an optional time text: the
/// date with the time where both can be read, the date at 23:59:59 where no
/// time is given, and an error where either text cannot be read.
pub open spec fn start_instant(date: Seq<char>, time: Option<Seq<char>>) -> Result<
    Instant,
    EventError,
> {
    start_of_reading(
        date_reading(parsed_date(date, LOCAL_DATE_FORMAT@)),
        time_reading(parsed_optional_time(time)),
    )
}

/// Reads a start instant from a date text and an optional time text.
pub fn make_naive_datetime(date_str: &str, time_str: Option<&str>) -> (start: Result<
    Instant,
    EventError,
>)
    ensures
        start == start_instant(date_str@, optional_text(time_str)),
        start is Ok <==> parsed_date(date_str@, LOCAL_DATE_FORMAT@) is Some && (time_str matches Some(
            text,
        ) ==> parsed_time(text@, LOCAL_TIME_FORMAT@) is Some),
        start matches Ok(instant) ==> instant.wf(),
        start matches Ok(instant) ==> parsed_date(date_str@, LOCAL_DATE_FORMAT@) == Some(
            instant.date.day,
        ),
        start matches Ok(instant) ==> (match time_str {
            Some(text) => parsed_time(text@, LOCAL_TIME_FORMAT@) == Some(
                (instant.time.secs, instant.time.nanos),
            ),
            None => instant.time == TimeOfDay::end_of_day(),
        }),
{
    let day = parse_date(date_str, LOCAL_DATE_FORMAT);
    let time = match time_str {
        Some(text) => Some(parse_time(text, LOCAL_TIME_FORMAT)),
        None => None,
    };
    start_from(day, time)
}

/// The start time text of an event, where it has one.
pub open spec fn local_time_text(event: Event) -> Option<Seq<char>> {
    match event.dates.start.localTime {
        Some(t) => Some(t@),
        None => None,
    }
}

/// What is read of a listed event.
pub open spec fn reading_of(event: Event) -> Reading {
    Reading {
        name: event.name@,
        date: date_reading(parsed_date(event.dates.start.localDate@, LOCAL_DATE_FORMAT@)),
        time: time_reading(parsed_optional_time(local_time_text(event))),
    }
}

/// What is read of every listed event, in the order listed.
pub open spec fn readings_of(events: Seq<Event>) -> Seq<Reading> {
    events.map_values(|e: Event| reading_of(e))
}

/// The reading for a name and what was read of the date text and of the
/// time text: see [`start_from`] for `day` and `time`.
pub fn reading_from(name: &str, day: Option<i32>, time: Option<Option<(u32, u32)>>) -> (reading:
    EventReading)
    ensures
        reading@ == (Reading { name: name@, date: date_reading(day), time: time_reading(time) }),
{
    let date = match day {
        Some(day) => Some(CalendarDate { day }),
        None => None,
    };
    let time = match time {
        None => Some(TimeOfDay::end_of_day()),
        Some(None) => None,
        Some(Some((secs, nanos))) => Some(TimeOfDay { secs, nanos }),
    };
    EventReading { name: String::from_str(name), date, time }
}

/// Reads the name, the start date and the start time of a listed event.
pub fn read_event(event: &Event) -> (reading: EventReading)
    ensures
        reading@ == reading_of(*event),
        reading@.wf(),
{
    let day = parse_date(event.dates.start.localDate.as_str(), LOCAL_DATE_FORMAT);
    let time = match &event.dates.start.localTime {
        Some(text) => Some(parse_time(text.as_str(), LOCAL_TIME_FORMAT)),
        None => None,
    };
    reading_from(event.name.as_str(), day, time)
}

/// Reads every listed event, in the order listed.
pub fn read_events(events: &Vec<Event>) -> (list: Vec<EventReading>)
    ensures
        readings(list@) == readings_of(events@),
        forall|i: int| 0 <= i < list.len() ==> (#[trigger] list[i])@.wf(),
{
    let mut list: Vec<EventReading> = Vec::new();
    let mut i: usize = 0;
    while i < events.len()
        invariant
            i <= events.len(),
            list.len() == i,
            forall|k: int| 0 <= k < i ==> (#[trigger] list[k])@ == reading_of(events[k]),
            forall|k: int| 0 <= k < i ==> (#[trigger] list[k])@.wf(),
        decreases events.len() - i,
    {
        list.push(read_event(&events[i]));
        i += 1;
    }
    list
}

/// The event is of today and its name is not excluded.
pub open spec fn is_candidate(event: Reading, today: CalendarDate, prefixes: Seq<Seq<char>>) -> bool {
    event.date == Some(today) && !is_excluded(event.name, prefixes)
}

/// The event is shown today: it starts today, its name is not excluded, and
/// its start time could be read.
pub open spec fn is_kept(event: Reading, today: CalendarDate, prefixes: Seq<Seq<char>>) -> bool {
    is_candidate(event, today, prefixes) && event.time is Some
}

/// The event is dropped: it starts today and its name is not excluded, but
/// its start time could not be read.
pub open spec fn is_unreadable(event: Reading, today: CalendarDate, prefixes: Seq<Seq<char>>) -> bool {
    is_candidate(event, today, prefixes) && event.time is None
}

/// The instant an event is ordered by: its start. Where the date was not
/// read the day counts as day 0, and where the time was not read it counts
/// as the end of the day; no event that is shown is ordered by either.
pub open spec fn order_instant(event: Reading) -> Instant {
    Instant {
        date: match event.date {
            Some(date) => date,
            None => CalendarDate { day: 0 },
        },
        time: match event.time {
            Some(time) => time,
            None => TimeOfDay::end_of_day(),
        },
    }
}

/// The events of `events` that are shown today, in the order listed.
pub open spec fn kept_readings(
    events: Seq<Reading>,
    today: CalendarDate,
    prefixes: Seq<Seq<char>>,
) -> Seq<Reading> {
    events.filter(|e: Reading| is_kept(e, today, prefixes))
}

/// The events of today that are dropped because their start time could not
/// be read, in the order listed.
pub open spec fn dropped_unreadable(
    events: Seq<Reading>,
    today: CalendarDate,
    prefixes: Seq<Seq<char>>,
) -> Seq<Dropped> {
    events.filter(|e: Reading| is_unreadable(e, today, prefixes)).map_values(
        |e: Reading| Dropped { name: e.name, reason: EventError::EventFieldUnparseable },
    )
}

/// Where `event` goes into `shown`, a sequence in display order: behind the
/// last event that starts no later than it.
pub open spec fn insertion_point(shown: Seq<Reading>, event: Reading) -> int
    decreases shown.len(),
{
    if shown.len() == 0 || order_instant(shown.last()).is_at_or_before(order_instant(event)) {
        shown.len() as int
    } else {
        insertion_point(shown.drop_last(), event)
    }
}

/// `events` in ascending order of start, events with the same start in the
/// order in which they are listed.
pub open spec fn display_order(events: Seq<Reading>) -> Seq<Reading>
    decreases events.len(),
{
    if events.len() == 0 {
        Seq::empty()
    } else {
        let shown = display_order(events.drop_last());
        shown.insert(insertion_point(shown, events.last()), events.last())
    }
}

/// The events shown today, in display order.
pub open spec fn todays_schedule(
    events: Seq<Reading>,
    today: CalendarDate,
    prefixes: Seq<Seq<char>>,
) -> Seq<Reading> {
    display_order(kept_readings(events, today, prefixes))
}

/// What is shown of an event: its name and the instant it is ordered by.
pub open spec fn listing_of(event: Reading) -> Listing {
    Listing { name: event.name, start: order_instant(event) }
}

/// The listings of the events shown today, in display order.
pub open spec fn todays_listings(
    events: Seq<Reading>,
    today: CalendarDate,
    prefixes: Seq<Seq<char>>,
) -> Seq<Listing> {
    todays_schedule(events, today, prefixes).map_values(|e: Reading| listing_of(e))
}

/// No event starts later than one behind it.
pub open spec fn in_display_order(events: Seq<Reading>) -> bool {
    forall|i: int, j: int|
        0 <= i <= j < events.len() ==> order_instant(#[trigger] events[i]).is_at_or_before(
            order_instant(#[trigger] events[j]),
        )
}

/// `list` holds, entry by entry, what is shown of `events`.
spec fn lists(list: Seq<FilteredEvent>, events: Seq<Reading>) -> bool {
    &&& list.len() == events.len()
    &&& forall|i: int| 0 <= i < list.len() ==> (#[trigger] list[i])@ == listing_of(events[i])
}

/// The insertion point lies within the sequence; the event behind which it
/// lies starts no later than the new one, and every event from it on starts
/// later.
pub proof fn lemma_insertion_point(shown: Seq<Reading>, event: Reading)
    ensures
        0 <= insertion_point(shown, event) <= shown.len(),
        insertion_point(shown, event) > 0 ==> order_instant(
            shown[insertion_point(shown, event) - 1],
        ).is_at_or_before(order_instant(event)),
        forall|k: int|
            insertion_point(shown, event) <= k < shown.len() ==> !order_instant(
                #[trigger] shown[k],
            ).is_at_or_before(order_instant(event)),
    decreases shown.len(),
{
    if shown.len() == 0 || order_instant(shown.last()).is_at_or_before(order_instant(event)) {
    } else {
        lemma_insertion_point(shown.drop_last(), event);
        let p = insertion_point(shown.drop_last(), event);
        assert forall|k: int| p <= k < shown.len() implies !order_instant(
            #[trigger] shown[k],
        ).is_at_or_before(order_instant(event)) by {
            if k < shown.len() - 1 {
                assert(shown.drop_last()[k] == shown[k]);
            }
        }
    }
}

/// Ordering keeps every event and adds none.
pub proof fn lemma_display_order_members(events: Seq<Reading>)
    ensures
        display_order(events).len() == events.len(),
        forall|i: int|
            0 <= i < events.len() ==> events.contains(#[trigger] display_order(events)[i]),
        forall|i: int|
            0 <= i < events.len() ==> display_order(events).contains(#[trigger] events[i]),
    decreases events.len(),
{
    if events.len() > 0 {
        let rest = events.drop_last();
        let last = events.last();
        let shown = display_order(rest);
        lemma_display_order_members(rest);
        lemma_insertion_point(shown, last);
        let p = insertion_point(shown, last);
        let out = shown.insert(p, last);
        shown.insert_ensures(p, last);
        assert forall|i: int| 0 <= i < events.len() implies events.contains(#[trigger] out[i]) by {
            // An event of `shown` is an event of `rest`, at some index `j`.
            if i < p {
                let j = choose|j: int| 0 <= j < rest.len() && rest[j] == shown[i];
            } else if i > p {
                let j = choose|j: int| 0 <= j < rest.len() && rest[j] == shown[i - 1];
            }
        }
        assert forall|i: int| 0 <= i < events.len() implies out.contains(#[trigger] events[i]) by {
            if i < events.len() - 1 {
                // An event of `rest` stands in `shown` at some index `j`,
                // and so in `out` at `j` or one further on.
                let j = choose|j: int| 0 <= j < shown.len() && shown[j] == rest[i];
                if j < p {
                    assert(out[j] == events[i]);
                }
            }
        }
    }
}

/// Putting an event at its insertion point keeps a sequence in display
/// order.
pub proof fn lemma_insert_keeps_order(shown: Seq<Reading>, event: Reading)
    requires
        in_display_order(shown),
    ensures
        in_display_order(shown.insert(insertion_point(shown, event), event)),
{
    lemma_insertion_point(shown, event);
    let p = insertion_point(shown, event);
    let out = shown.insert(p, event);
    assert forall|i: int, j: int| 0 <= i <= j < out.len() implies order_instant(
        #[trigger] out[i],
    ).is_at_or_before(order_instant(#[trigger] out[j])) by {
        // Apart from the new event, `out` holds the events of `shown`, those
        // behind the insertion point moved on by one.
        if i != p {
            assert(out[i] == shown[if i < p { i } else { i - 1 }]);
        }
        if j != p {
            assert(out[j] == shown[if j < p { j } else { j - 1 }]);
        }
    }
}

/// The result of ordering is in display order.
pub proof fn lemma_display_order_sorted(events: Seq<Reading>)
    ensures
        in_display_order(display_order(events)),
    decreases events.len(),
{
    if events.len() > 0 {
        lemma_display_order_sorted(events.drop_last());
        lemma_insert_keeps_order(display_order(events.drop_last()), events.last());
    }
}

/// Ordering leaves a sequence that is in display order as it is.
pub proof fn lemma_display_order_fixes_sorted(events: Seq<Reading>)
    requires
        in_display_order(events),
    ensures
        display_order(events) == events,
    decreases events.len(),
{
    if events.len() > 0 {
        let rest = events.drop_last();
        assert(in_display_order(rest));
        lemma_display_order_fixes_sorted(rest);
        if rest.len() > 0 {
            // The last of `rest` starts no later than the last of `events`,
            // which therefore goes behind it.
            assert(order_instant(events[events.len() - 2]).is_at_or_before(
                order_instant(events[events.len() - 1]),
            ));
        }
    }
}

/// Filtering leaves a sequence of kept events as it is.
pub proof fn lemma_kept_readings_fixes_kept(
    events: Seq<Reading>,
    today: CalendarDate,
    prefixes: Seq<Seq<char>>,
)
    requires
        forall|i: int| 0 <= i < events.len() ==> is_kept(#[trigger] events[i], today, prefixes),
    ensures
        kept_readings(events, today, prefixes) == events,
    decreases events.len(),
{
    reveal(Seq::filter);
    if events.len() > 0 {
        let rest = events.drop_last();
        assert forall|i: int| 0 <= i < rest.len() implies is_kept(
            #[trigger] rest[i],
            today,
            prefixes,
        ) by {}
        lemma_kept_readings_fixes_kept(rest, today, prefixes);
    }
}

/// Every event of the schedule is one of the events listed and is kept, and
/// the schedule is in display order.
pub proof fn law_schedule_is_filtered_and_ordered(
    events: Seq<Reading>,
    today: CalendarDate,
    prefixes: Seq<Seq<char>>,
)
    ensures
        in_display_order(todays_schedule(events, today, prefixes)),
        forall|i: int|
            0 <= i < todays_schedule(events, today, prefixes).len() ==> is_kept(
                #[trigger] todays_schedule(events, today, prefixes)[i],
                today,
                prefixes,
            ) && events.contains(todays_schedule(events, today, prefixes)[i]),
{
    let pred = |e: Reading| is_kept(e, today, prefixes);
    let kept = kept_readings(events, today, prefixes);
    let schedule = todays_schedule(events, today, prefixes);
    lemma_display_order_sorted(kept);
    lemma_display_order_members(kept);
    assert forall|i: int| 0 <= i < schedule.len() implies is_kept(
        #[trigger] schedule[i],
        today,
        prefixes,
    ) && events.contains(schedule[i]) by {
        let j = choose|j: int| 0 <= j < kept.len() && kept[j] == schedule[i];
        events.lemma_filter_contains_rev(pred, kept[j]);
    }
}

/// The events of `events` that are ordered by the instant `t`, in the order
/// listed.
pub open spec fn starting_at(events: Seq<Reading>, t: Instant) -> Seq<Reading> {
    events.filter(|e: Reading| order_instant(e) == t)
}

/// The tie-break of the display order: events that start at the same instant
/// come out in the order in which they were listed, none lost and none added.
pub proof fn law_equal_starts_keep_listed_order(events: Seq<Reading>, t: Instant)
    ensures
        starting_at(display_order(events), t) == starting_at(events, t),
    decreases events.len(),
{
    if events.len() > 0 {
        let pred = |e: Reading| order_instant(e) == t;
        let rest = events.drop_last();
        let last = events.last();
        let shown = display_order(rest);
        let p = insertion_point(shown, last);
        law_equal_starts_keep_listed_order(rest, t);
        lemma_insertion_point(shown, last);
        let head = shown.subrange(0, p);
        let tail = shown.subrange(p, shown.len() as int);
        assert(shown =~= head + tail);
        assert(events =~= rest.push(last));
        rest.lemma_filter_push(last, pred);
        head.lemma_filter_push(last, pred);
        if order_instant(last) == t {
            // Every event behind the insertion point starts later than `t`,
            // so none of them is among those that start at `t`.
            if tail.filter(pred).len() > 0 {
                let found = tail.filter(pred)[0];
                tail.lemma_filter_contains_rev(pred, found);
                let k = choose|k: int| 0 <= k < tail.len() && tail[k] == found;
                assert(tail[k] == shown[p + k]);
            }
            assert(tail.filter(pred) =~= Seq::<Reading>::empty());
            assert(head.filter(pred).push(last) + tail.filter(pred) =~= (head.filter(pred)
                + tail.filter(pred)).push(last));
        }
    }
}

/// Filtering and ordering is idempotent: the schedule of a schedule is that
/// schedule.
pub proof fn law_schedule_idempotent(
    events: Seq<Reading>,
    today: CalendarDate,
    prefixes: Seq<Seq<char>>,
)
    ensures
        todays_schedule(todays_schedule(events, today, prefixes), today, prefixes)
            == todays_schedule(events, today, prefixes),
{
    let schedule = todays_schedule(events, today, prefixes);
    law_schedule_is_filtered_and_ordered(events, today, prefixes);
    lemma_kept_readings_fixes_kept(schedule, today, prefixes);
    lemma_display_order_fixes_sorted(schedule);
}

/// How the schedule and the dropped events grow when one more listed event
/// is taken in: an event that is kept goes to its insertion point, one that
/// is unreadable goes behind the dropped ones, any other changes nothing.
pub proof fn lemma_schedule_step(
    events: Seq<Reading>,
    i: int,
    today: CalendarDate,
    prefixes: Seq<Seq<char>>,
)
    requires
        0 <= i < events.len(),
    ensures
        todays_schedule(events.take(i + 1), today, prefixes) == (if is_kept(
            events[i],
            today,
            prefixes,
        ) {
            let shown = todays_schedule(events.take(i), today, prefixes);
            shown.insert(insertion_point(shown, events[i]), events[i])
        } else {
            todays_schedule(events.take(i), today, prefixes)
        }),
        dropped_unreadable(events.take(i + 1), today, prefixes) == (if is_unreadable(
            events[i],
            today,
            prefixes,
        ) {
            dropped_unreadable(events.take(i), today, prefixes).push(
                Dropped { name: events[i].name, reason: EventError::EventFieldUnparseable },
            )
        } else {
            dropped_unreadable(events.take(i), today, prefixes)
        }),
{
    let kept = |e: Reading| is_kept(e, today, prefixes);
    let unreadable = |e: Reading| is_unreadable(e, today, prefixes);
    assert(events.take(i + 1) =~= events.take(i).push(events[i]));
    events.take(i).lemma_filter_push(events[i], kept);
    events.take(i).lemma_filter_push(events[i], unreadable);
    if is_kept(events[i], today, prefixes) {
        let before = kept_readings(events.take(i), today, prefixes);
        assert(before.push(events[i]).drop_last() =~= before);
    }
    if is_unreadable(events[i], today, prefixes) {
        assert(dropped_unreadable(events.take(i + 1), today, prefixes) =~= dropped_unreadable(
            events.take(i),
            today,
            prefixes,
        ).push(Dropped { name: events[i].name, reason: EventError::EventFieldUnparseable }));
    }
}

/// Selects, from what was read of the listed events, the events shown today
/// in display order, and hands back the events of today that are dropped
/// because their start time could not be read.
pub fn schedule_readings(
    events: &Vec<EventReading>,
    today: CalendarDate,
    excluded: &Vec<String>,
) -> (selection: Selection)
    ensures
        listings(selection.shown@) == todays_listings(
            readings(events@),
            today,
            prefix_texts(excluded@),
        ),
        dropped_views(selection.dropped@) == dropped_unreadable(
            readings(events@),
            today,
            prefix_texts(excluded@),
        ),
        // Only events of today, none with an excluded name, each one listed.
        forall|i: int|
            0 <= i < selection.shown.len() ==> {
                &&& (#[trigger] selection.shown[i]).start.date == today
                &&& !is_excluded(selection.shown[i].name@, prefix_texts(excluded@))
                &&& exists|j: int|
                    0 <= j < events.len() && is_kept(
                        (#[trigger] events[j])@,
                        today,
                        prefix_texts(excluded@),
                    ) && listing_of(events[j]@) == selection.shown[i]@
            },
        // In ascending order of start.
        forall|i: int, j: int|
            0 <= i <= j < selection.shown.len() ==> (#[trigger] selection.shown[i])
                .start.is_at_or_before((#[trigger] selection.shown[j]).start),
        // Every event of today that is not excluded is shown or dropped.
        forall|j: int|
            0 <= j < events.len() && is_candidate(
                (#[trigger] events[j])@,
                today,
                prefix_texts(excluded@),
            ) ==> (if events[j].time is Some {
                exists|i: int|
                    0 <= i < selection.shown.len() && (#[trigger] selection.shown[i])@
                        == listing_of(events[j]@)
            } else {
                exists|i: int|
                    0 <= i < selection.dropped.len() && (#[trigger] selection.dropped[i]).name@
                        == events[j].name@
            }),
        (forall|j: int| 0 <= j < events.len() ==> (#[trigger] events[j])@.wf()) ==> forall|i: int|
            0 <= i < selection.shown.len() ==> (#[trigger] selection.shown[i]).start.wf(),
{
    let ghost prefixes = prefix_texts(excluded@);
    let ghost read = readings(events@);
    let mut out: Vec<FilteredEvent> = Vec::new();
    let mut dropped: Vec<DroppedEvent> = Vec::new();
    let mut i: usize = 0;
    while i < events.len()
        invariant
            i <= events.len(),
            prefixes == prefix_texts(excluded@),
            read == readings(events@),
            lists(out@, todays_schedule(read.take(i as int), today, prefixes)),
            dropped_views(dropped@) == dropped_unreadable(read.take(i as int), today, prefixes),
            (forall|j: int| 0 <= j < events.len() ==> (#[trigger] events[j])@.wf()) ==> forall|
                k: int,
            | 0 <= k < out.len() ==> (#[trigger] out[k]).start.wf(),
        decreases events.len() - i,
    {
        let event = &events[i];
        let ghost shown = todays_schedule(read.take(i as int), today, prefixes);
        proof {
            lemma_schedule_step(read, i as int, today, prefixes);
        }
        let of_today = match event.date {
            Some(date) => date.day == today.day,
            None => false,
        };
        if of_today && !has_excluded_prefix(event.name.as_str(), excluded) {
            match event.time {
                None => {
                    let ghost before = dropped_views(dropped@);
                    dropped.push(
                        DroppedEvent {
                            name: event.name.clone(),
                            reason: EventError::EventFieldUnparseable,
                        },
                    );
                    assert(dropped_views(dropped@) =~= before.push(
                        Dropped { name: event@.name, reason: EventError::EventFieldUnparseable },
                    ));
                },
                Some(time) => {
                    let start = Instant { date: today, time };
                    let mut pos: usize = out.len();
                    proof {
                        assert(shown.take(pos as int) =~= shown);
                    }
                    while pos > 0 && !out[pos - 1].start.at_or_before(&start)
                        invariant
                            pos <= out.len(),
                            out.len() == shown.len(),
                            start == order_instant(event@),
                            forall|k: int|
                                0 <= k < shown.len() ==> order_instant(#[trigger] shown[k])
                                    == out[k].start,
                            insertion_point(shown, event@) == insertion_point(
                                shown.take(pos as int),
                                event@,
                            ),
                        decreases pos,
                    {
                        proof {
                            assert(shown.take(pos as int).drop_last() =~= shown.take(pos - 1));
                        }
                        pos -= 1;
                    }
                    out.insert(pos, FilteredEvent { name: event.name.clone(), start });
                },
            }
        }
        i += 1;
    }
    proof {
        assert(read.take(i as int) =~= read);
        let schedule = todays_schedule(read, today, prefixes);
        law_schedule_is_filtered_and_ordered(read, today, prefixes);
        lemma_display_order_members(kept_readings(read, today, prefixes));
        assert(listings(out@) =~= todays_listings(read, today, prefixes));
        assert forall|k: int| 0 <= k < out.len() implies {
            &&& (#[trigger] out[k]).start.date == today
            &&& !is_excluded(out[k].name@, prefixes)
            &&& exists|j: int|
                0 <= j < events.len() && is_kept((#[trigger] events[j])@, today, prefixes)
                    && listing_of(events[j]@) == out[k]@
        } by {
            // The event shown at `k` is one of the events listed, at some
            // index `j`.
            let j = choose|j: int| 0 <= j < read.len() && read[j] == schedule[k];
        }
        // An event of today that is not excluded stands among the kept
        // readings, and so in the schedule, or among the unreadable ones.
        assert forall|j: int|
            0 <= j < events.len() && is_candidate(
                (#[trigger] events[j])@,
                today,
                prefixes,
            ) implies (if events[j].time is Some {
            exists|i: int| 0 <= i < out.len() && (#[trigger] out[i])@ == listing_of(events[j]@)
        } else {
            exists|i: int| 0 <= i < dropped.len() && (#[trigger] dropped[i]).name@ == events[j].name@
        }) by {
            if events[j].time is Some {
                let kept = kept_readings(read, today, prefixes);
                read.lemma_filter_contains(|e: Reading| is_kept(e, today, prefixes), j);
                let a = choose|a: int| 0 <= a < kept.len() && kept[a] == read[j];
                let i = choose|i: int| 0 <= i < schedule.len() && schedule[i] == read[j];
                assert(out[i]@ == listing_of(events[j]@));
            } else {
                let pred = |e: Reading| is_unreadable(e, today, prefixes);
                let lost = read.filter(pred);
                read.lemma_filter_contains(pred, j);
                let i = choose|i: int| 0 <= i < lost.len() && lost[i] == read[j];
                assert(dropped_views(dropped@)[i].name == read[j].name);
            }
        }
    }
    Selection { shown: out, dropped }
}

/// Selects the events shown today and puts them in display order, and hands
/// back the events of today that are dropped because their start time
/// cannot be read.
pub fn todays_events(events: &Vec<Event>, today: CalendarDate, excluded: &Vec<String>) -> (selection:
    Selection)
    ensures
        listings(selection.shown@) == todays_listings(
            readings_of(events@),
            today,
            prefix_texts(excluded@),
        ),
        dropped_views(selection.dropped@) == dropped_unreadable(
            readings_of(events@),
            today,
            prefix_texts(excluded@),
        ),
        // Only events of today, none with an excluded name, each one listed.
        forall|i: int|
            0 <= i < selection.shown.len() ==> {
                &&& (#[trigger] selection.shown[i]).start.date == today
                &&& selection.shown[i].start.wf()
                &&& !is_excluded(selection.shown[i].name@, prefix_texts(excluded@))
                &&& exists|j: int|
                    0 <= j < events.len() && is_kept(
                        reading_of(#[trigger] events[j]),
                        today,
                        prefix_texts(excluded@),
                    ) && listing_of(reading_of(events[j])) == selection.shown[i]@
            },
        // In ascending order of start.
        forall|i: int, j: int|
            0 <= i <= j < selection.shown.len() ==> (#[trigger] selection.shown[i])
                .start.is_at_or_before((#[trigger] selection.shown[j]).start),
{
    let read = read_events(events);
    let selection = schedule_readings(&read, today, excluded);
    proof {
        assert forall|i: int| 0 <= i < selection.shown.len() implies exists|j: int|
            0 <= j < events.len() && is_kept(
                reading_of(#[trigger] events[j]),
                today,
                prefix_texts(excluded@),
            ) && listing_of(reading_of(events[j])) == (#[trigger] selection.shown[i])@ by {
            let j = choose|j: int|
                0 <= j < read.len() && is_kept(
                    (#[trigger] read[j])@,
                    today,
                    prefix_texts(excluded@),
                ) && listing_of(read[j]@) == selection.shown[i]@;
            assert(read[j]@ == readings(read@)[j]);
        }
    }
    selection
}

} // verus!
