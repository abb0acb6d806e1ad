//! The display window of an event and how it stands against the clock.
//!
//! The event source does not say how long an event lasts, so every event is
//! taken to last two hours. Against the current instant an event is live
//! while its window is open, upcoming when it starts within the next two
//! hours, and later otherwise. An event whose window would end past the
//! calendar's last day cannot be shown: it is dropped and handed back with
//! the reason.

use vstd::prelude::*;

use crate::calendar::{CalendarDate, Instant};
use crate::chrono_bridge::{add_seconds, duration_between, instant_plus, nanos_between};
use crate::model::Event;
use crate::schedule::{
    dropped_unreadable, dropped_views, listings, prefix_texts, read_events, readings,
    readings_of, schedule_readings, todays_listings, Dropped, DroppedEvent, EventError,
    EventReading, FilteredEvent, Listing, Reading, Selection,
};

verus! {

/// The length every event is taken to have: two hours.
pub const ASSUMED_DURATION_SECONDS: i64 = 7_200;

/// How far ahead of its start an event counts as upcoming: two hours.
pub const UPCOMING_WITHIN_SECONDS: i64 = 7_200;

/// How an event stands against the current instant.
#[derive(Clone, Copy, Debug, PartialEq, Eq, Structural)]
pub enum DisplayClassification {
    /// The current instant lies within the event's window, ends included.
    Live,
    /// The event has not started and starts within two hours.
    Upcoming,
    /// Anything else: the event starts later than that, or is over.
    Later,
}

/// An event shown today with its display window and its classification.
#[derive(Debug)]
pub struct ClassifiedEvent {
    pub name: String,
    pub start: Instant,
    pub end: Instant,
    pub classification: DisplayClassification,
}

/// What a [`ClassifiedEvent`] holds, with the name as plain text.
pub struct Showing {
    pub name: Seq<char>,
    pub start: Instant,
    pub end: Instant,
    pub classification: DisplayClassification,
}

impl View for ClassifiedEvent {
    type V = Showing;

    open spec fn view(&self) -> Showing {
        Showing {
            name: self.name@,
            start: self.start,
            end: self.end,
            classification: self.classification,
        }
    }
}

impl ClassifiedEvent {
    pub open spec fn wf(self) -> bool {
        self.start.wf() && self.end.wf()
    }
}

/// The showings held by a sequence of classified events.
pub open spec fn showings(list: Seq<ClassifiedEvent>) -> Seq<Showing> {
    list.map_values(|c: ClassifiedEvent| c@)
}

/// The end of the window that opens at `start`, or `None` where it would lie
/// past the calendar's last day.
pub open spec fn window_end(start: Instant) -> Option<Instant> {
    instant_plus(start, ASSUMED_DURATION_SECONDS as int)
}

/// The end of the window that opens at `start`.
///
/// Fails with [`EventError::WindowOutOfRange`] exactly when the window would
/// end past the calendar's last day.
pub fn end_of_window(start: Instant) -> (end: Result<Instant, EventError>)
    requires
        start.wf(),
    ensures
        end == match window_end(start) {
            Some(e) => Ok::<Instant, EventError>(e),
            None => Err::<Instant, EventError>(EventError::WindowOutOfRange),
        },
        end matches Ok(e) ==> e.wf() && start.is_before(e),
{
    match add_seconds(start, ASSUMED_DURATION_SECONDS) {
        Some(end) => Ok(end),
        None => Err(EventError::WindowOutOfRange),
    }
}

/// The classification of an event with the window `start` to `end` at the
/// instant `now`.
pub open spec fn classification(start: Instant, end: Instant, now: Instant) -> DisplayClassification {
    if start.is_at_or_before(now) && now.is_at_or_before(end) {
        DisplayClassification::Live
    } else if now.is_before(start) && nanos_between(start, now) <= UPCOMING_WITHIN_SECONDS
        * 1_000_000_000 {
        DisplayClassification::Upcoming
    } else {
        DisplayClassification::Later
    }
}

/// Classifies an event with the window `start` to `end` at the instant `now`.
pub fn classify(start: Instant, end: Instant, now: Instant) -> (c: DisplayClassification)
    requires
        start.wf(),
        now.wf(),
    ensures
        c == classification(start, end, now),
        start.is_at_or_before(now) && now.is_at_or_before(end) ==> c
            == DisplayClassification::Live,
        now.is_before(start) && nanos_between(start, now) <= UPCOMING_WITHIN_SECONDS
            * 1_000_000_000 && !(start.is_at_or_before(now) && now.is_at_or_before(end)) ==> c
            == DisplayClassification::Upcoming,
        !(start.is_at_or_before(now) && now.is_at_or_before(end)) && !(now.is_before(start)
            && nanos_between(start, now) <= UPCOMING_WITHIN_SECONDS * 1_000_000_000) ==> c
            == DisplayClassification::Later,
{
    if start.at_or_before(&now) && now.at_or_before(&end) {
        DisplayClassification::Live
    } else if now.before(&start) {
        let (secs, nanos) = duration_between(start, now);
        if secs < UPCOMING_WITHIN_SECONDS || (secs == UPCOMING_WITHIN_SECONDS && nanos <= 0) {
            DisplayClassification::Upcoming
        } else {
            DisplayClassification::Later
        }
    } else {
        DisplayClassification::Later
    }
}

/// An event is live at the instant it starts and at the instant its window
/// ends: both ends belong to the window.
pub proof fn law_live_at_window_ends(start: Instant)
    requires
        start.wf(),
        window_end(start) is Some,
    ensures
        classification(start, window_end(start)->0, start) == DisplayClassification::Live,
        classification(start, window_end(start)->0, window_end(start)->0)
            == DisplayClassification::Live,
{
}

/// The classification depends on the window and the current instant alone:
/// live within the window, ends included; upcoming before the start when the
/// start is no more than two hours away; later in every other case.
pub proof fn law_classification(start: Instant, end: Instant, now: Instant)
    ensures
        start.is_at_or_before(now) && now.is_at_or_before(end) ==> classification(start, end, now)
            == DisplayClassification::Live,
        !(start.is_at_or_before(now) && now.is_at_or_before(end)) && now.is_before(start)
            && nanos_between(start, now) <= UPCOMING_WITHIN_SECONDS * 1_000_000_000
            ==> classification(start, end, now) == DisplayClassification::Upcoming,
        !(start.is_at_or_before(now) && now.is_at_or_before(end)) && !(now.is_before(start)
            && nanos_between(start, now) <= UPCOMING_WITHIN_SECONDS * 1_000_000_000)
            ==> classification(start, end, now) == DisplayClassification::Later,
        now == start && start.is_at_or_before(end) ==> classification(start, end, now)
            == DisplayClassification::Live,
        now == end && start.is_at_or_before(end) ==> classification(start, end, now)
            == DisplayClassification::Live,
{
}

/// Before an event starts it is upcoming exactly when its start is no more
/// than two hours away, and later otherwise; once its window has closed it
/// is later.
pub proof fn law_outside_window(start: Instant, end: Instant, now: Instant)
    requires
        start.is_at_or_before(end),
    ensures
        now.is_before(start) ==> (classification(start, end, now)
            == DisplayClassification::Upcoming <==> nanos_between(start, now)
            <= UPCOMING_WITHIN_SECONDS * 1_000_000_000),
        now.is_before(start) ==> classification(start, end, now) != DisplayClassification::Live,
        end.is_before(now) ==> classification(start, end, now) == DisplayClassification::Later,
{
}

/// The window of the listing ends within the calendar.
pub open spec fn fits(listing: Listing) -> bool {
    window_end(listing.start) is Some
}

/// A listing with its window and its classification at `now`.
pub open spec fn showing_of(listing: Listing, now: Instant) -> Showing {
    let end = window_end(listing.start)->0;
    Showing {
        name: listing.name,
        start: listing.start,
        end,
        classification: classification(listing.start, end, now),
    }
}

/// The listings whose windows fit the calendar, in the order given, each
/// with its window and its classification at `now`.
pub open spec fn showings_of(listed: Seq<Listing>, now: Instant) -> Seq<Showing> {
    listed.filter(|l: Listing| fits(l)).map_values(|l: Listing| showing_of(l, now))
}

/// The listings that are dropped because their windows do not fit the
/// calendar, in the order given.
pub open spec fn dropped_unfit(listed: Seq<Listing>) -> Seq<Dropped> {
    listed.filter(|l: Listing| !fits(l)).map_values(
        |l: Listing| Dropped { name: l.name, reason: EventError::WindowOutOfRange },
    )
}

/// The events shown, classified, and the events that were dropped.
#[derive(Debug)]
pub struct Classified {
    /// The events shown, in display order.
    pub shown: Vec<ClassifiedEvent>,
    /// The events dropped, each with the reason.
    pub dropped: Vec<DroppedEvent>,
}

/// A text rendered for the events shown, and the events that were dropped
/// on the way.
#[derive(Debug)]
pub struct Rendered {
    pub text: String,
    pub dropped: Vec<DroppedEvent>,
}

/// How the showings and the dropped events grow when one more listing is
/// taken in.
pub proof fn lemma_classify_step(listed: Seq<Listing>, i: int, now: Instant)
    requires
        0 <= i < listed.len(),
    ensures
        showings_of(listed.take(i + 1), now) == (if fits(listed[i]) {
            showings_of(listed.take(i), now).push(showing_of(listed[i], now))
        } else {
            showings_of(listed.take(i), now)
        }),
        dropped_unfit(listed.take(i + 1)) == (if fits(listed[i]) {
            dropped_unfit(listed.take(i))
        } else {
            dropped_unfit(listed.take(i)).push(
                Dropped { name: listed[i].name, reason: EventError::WindowOutOfRange },
            )
        }),
{
    let fit = |l: Listing| fits(l);
    let unfit = |l: Listing| !fits(l);
    assert(listed.take(i + 1) =~= listed.take(i).push(listed[i]));
    listed.take(i).lemma_filter_push(listed[i], fit);
    listed.take(i).lemma_filter_push(listed[i], unfit);
    if fits(listed[i]) {
        assert(showings_of(listed.take(i + 1), now) =~= showings_of(listed.take(i), now).push(
            showing_of(listed[i], now),
        ));
    } else {
        assert(dropped_unfit(listed.take(i + 1)) =~= dropped_unfit(listed.take(i)).push(
            Dropped { name: listed[i].name, reason: EventError::WindowOutOfRange },
        ));
    }
}

/// Gives every event its window and its classification at `now`, keeping the
/// order. An event whose window would end past the calendar's last day is
/// not shown; it is handed back among the dropped.
pub fn classify_events(events: &Vec<FilteredEvent>, now: Instant) -> (classified: Classified)
    requires
        now.wf(),
        forall|i: int| 0 <= i < events.len() ==> (#[trigger] events[i]).start.wf(),
    ensures
        showings(classified.shown@) == showings_of(listings(events@), now),
        dropped_views(classified.dropped@) == dropped_unfit(listings(events@)),
        forall|i: int| 0 <= i < classified.shown.len() ==> (#[trigger] classified.shown[i]).wf(),
{
    let ghost listed = listings(events@);
    let mut out: Vec<ClassifiedEvent> = Vec::new();
    let mut dropped: Vec<DroppedEvent> = Vec::new();
    let mut i: usize = 0;
    while i < events.len()
        invariant
            i <= events.len(),
            now.wf(),
            listed == listings(events@),
            forall|k: int| 0 <= k < events.len() ==> (#[trigger] events[k]).start.wf(),
            showings(out@) == showings_of(listed.take(i as int), now),
            dropped_views(dropped@) == dropped_unfit(listed.take(i as int)),
            forall|k: int| 0 <= k < out.len() ==> (#[trigger] out[k]).wf(),
        decreases events.len() - i,
    {
        let start = events[i].start;
        proof {
            lemma_classify_step(listed, i as int, now);
        }
        match end_of_window(start) {
            Ok(end) => {
                let ghost before = showings(out@);
                let classification = classify(start, end, now);
                out.push(
                    ClassifiedEvent { name: events[i].name.clone(), start, end, classification },
                );
            },
            Err(reason) => {
                let ghost before = dropped_views(dropped@);
                dropped.push(DroppedEvent { name: events[i].name.clone(), reason });
                assert(dropped_views(dropped@) =~= before.push(
                    Dropped { name: events[i as int]@.name, reason: EventError::WindowOutOfRange },
                ));
            },
        }
        i += 1;
    }
    proof {
        assert(listed.take(i as int) =~= listed);
    }
    Classified { shown: out, dropped }
}

/// What is shown today at the instant `now`: the events of today that are
/// not excluded and can be shown, in display order, each with its window and
/// its classification.
pub open spec fn todays_showings(
    events: Seq<Reading>,
    today: CalendarDate,
    now: Instant,
    prefixes: Seq<Seq<char>>,
) -> Seq<Showing> {
    showings_of(todays_listings(events, today, prefixes), now)
}

/// The events of today that are not excluded and cannot be shown: first
/// those whose start time could not be read, in the order listed, then those
/// whose window does not fit the calendar, in display order.
pub open spec fn todays_dropped(
    events: Seq<Reading>,
    today: CalendarDate,
    prefixes: Seq<Seq<char>>,
) -> Seq<Dropped> {
    dropped_unreadable(events, today, prefixes) + dropped_unfit(
        todays_listings(events, today, prefixes),
    )
}

/// Filters, orders and classifies what was read of the listed events.
pub fn classify_readings(
    events: &Vec<EventReading>,
    today: CalendarDate,
    now: Instant,
    excluded: &Vec<String>,
) -> (classified: Classified)
    requires
        now.wf(),
        forall|j: int| 0 <= j < events.len() ==> (#[trigger] events[j])@.wf(),
    ensures
        showings(classified.shown@) == todays_showings(
            readings(events@),
            today,
            now,
            prefix_texts(excluded@),
        ),
        dropped_views(classified.dropped@) == todays_dropped(
            readings(events@),
            today,
            prefix_texts(excluded@),
        ),
        forall|i: int| 0 <= i < classified.shown.len() ==> (#[trigger] classified.shown[i]).wf(),
{
    let Selection { shown: listed, dropped: mut dropped } = schedule_readings(
        events,
        today,
        excluded,
    );
    let Classified { shown, dropped: mut unfit } = classify_events(&listed, now);
    let ghost unreadable = dropped_views(dropped@);
    let ghost unfitting = dropped_views(unfit@);
    dropped.append(&mut unfit);
    Classified { shown, dropped }
}

/// Filters, orders and classifies: from the events listed to what is shown
/// today at the instant `now`, and what of today's events had to be dropped.
pub fn filter_and_classify(
    events: &Vec<Event>,
    today: CalendarDate,
    now: Instant,
    excluded: &Vec<String>,
) -> (classified: Classified)
    requires
        now.wf(),
    ensures
        showings(classified.shown@) == todays_showings(
            readings_of(events@),
            today,
            now,
            prefix_texts(excluded@),
        ),
        dropped_views(classified.dropped@) == todays_dropped(
            readings_of(events@),
            today,
            prefix_texts(excluded@),
        ),
        forall|i: int| 0 <= i < classified.shown.len() ==> (#[trigger] classified.shown[i]).wf(),
{
    let read = read_events(events);
    classify_readings(&read, today, now, excluded)
}

} // verus!
