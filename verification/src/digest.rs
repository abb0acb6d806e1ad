//! The daily digest: today's events as plain text, one line each.

use vstd::prelude::*;
use vstd::string::*;

use crate::calendar::{CalendarDate, Instant, DIGEST_DATE_FORMAT};
use crate::chrono_bridge::{format_date, formatted_date, twelve_hour_text};
use crate::display::{
    filter_and_classify, showings, todays_showings, Classified, ClassifiedEvent,
    DisplayClassification, Rendered, Showing,
};
use crate::html::{clock_text, dropped_of, RANGE_DASH};
use crate::model::{Event, EventsResponse};
use crate::schedule::{dropped_views, prefix_texts, readings_of, Dropped, DroppedEvent};
use crate::source::{listed_events, FetchError};
use crate::text::{decimal_digits, decimal_string};

verus! {

/// What follows the date on a day without events.
pub const NO_EVENTS_LINE: &'static str = ": No events today.";

/// What follows the date on a day with events.
pub const EVENTS_HEADING: &'static str = " Events:";

/// The start of an event's line.
pub const LINE_OPEN: &'static str = "- ";

/// What stands between an event's name and its time range.
pub const LINE_NAME_END: &'static str = ": ";

/// The mark at the end of a live event's line.
pub const LIVE_MARK: &'static str = " (LIVE)";

/// What is sent when no credential is configured.
pub const DIGEST_API_KEY_MISSING: &'static str = "Daily Events: API key missing";

/// What is sent when the event source cannot be reached.
pub const DIGEST_UNREACHABLE: &'static str = "Daily Events: ticket service unreachable";

/// What is sent, followed by the status, when the event source answers with
/// a status other than success.
pub const DIGEST_STATUS: &'static str = "Daily Events: Ticketmaster returned ";

/// What is sent when the answer cannot be read to its end.
pub const DIGEST_UNREADABLE: &'static str = "Daily Events: failed reading response";

/// What is sent when the answer is not an event listing.
pub const DIGEST_UNPARSEABLE: &'static str = "Daily Events: failed parsing event data";

/// The mark of a line: the live mark for a live event, nothing otherwise.
pub open spec fn live_mark(c: DisplayClassification) -> Seq<char> {
    match c {
        DisplayClassification::Live => LIVE_MARK@,
        _ => Seq::<char>::empty(),
    }
}

/// The line of one event: its name, its time range, and the live mark where
/// it is live.
pub open spec fn digest_line(event: Showing) -> Seq<char> {
    LINE_OPEN@ + event.name + LINE_NAME_END@ + twelve_hour_text(event.start.time.secs as int)
        + RANGE_DASH@ + twelve_hour_text(event.end.time.secs as int) + live_mark(
        event.classification,
    )
}

/// The lines of `events`, each behind a line break.
pub open spec fn digest_lines(events: Seq<Showing>) -> Seq<char>
    decreases events.len(),
{
    if events.len() == 0 {
        Seq::<char>::empty()
    } else {
        digest_lines(events.drop_last()) + "\n"@ + digest_line(events.last())
    }
}

/// The digest for `events` under the date text `date`: on a day without
/// events the date and the words that say so, nothing else; otherwise a
/// heading with the date and one line per event in the order given.
pub open spec fn digest_text(date: Seq<char>, events: Seq<Showing>) -> Seq<char> {
    if events.len() == 0 {
        date + NO_EVENTS_LINE@
    } else {
        date + EVENTS_HEADING@ + digest_lines(events)
    }
}

/// Renders the line of one event.
pub fn render_line(event: &ClassifiedEvent) -> (line: String)
    requires
        event.wf(),
    ensures
        line@ == digest_line(event@),
{
    let mark = match event.classification {
        DisplayClassification::Live => LIVE_MARK,
        _ => "",
    };
    proof {
        reveal_strlit("");
    }
    let mut line = String::from_str(LINE_OPEN);
    line.append(event.name.as_str());
    line.append(LINE_NAME_END);
    line.append(clock_text(event.start.time).as_str());
    line.append(RANGE_DASH);
    line.append(clock_text(event.end.time).as_str());
    line.append(mark);
    line
}

/// Renders the digest under the date text `date`.
///
/// With no events the digest is the date and the "no events" words alone:
/// it holds no event line.
pub fn digest_with_date(date: &str, events: &Vec<ClassifiedEvent>) -> (text: String)
    requires
        forall|i: int| 0 <= i < events.len() ==> (#[trigger] events[i]).wf(),
    ensures
        text@ == digest_text(date@, showings(events@)),
        events.len() == 0 ==> text@ == date@ + NO_EVENTS_LINE@,
{
    let mut text = String::from_str(date);
    if events.len() == 0 {
        text.append(NO_EVENTS_LINE);
        return text;
    }
    text.append(EVENTS_HEADING);
    let mut lines = String::new();
    let mut i: usize = 0;
    while i < events.len()
        invariant
            i <= events.len(),
            forall|k: int| 0 <= k < events.len() ==> (#[trigger] events[k]).wf(),
            lines@ == digest_lines(showings(events@).take(i as int)),
        decreases events.len() - i,
    {
        let line = render_line(&events[i]);
        proof {
            assert(showings(events@).take(i + 1).drop_last() =~= showings(events@).take(
                i as int,
            ));
        }
        lines.append("\n");
        lines.append(line.as_str());
        i += 1;
    }
    proof {
        assert(showings(events@).take(i as int) =~= showings(events@));
    }
    text.append(lines.as_str());
    text
}

/// Renders the digest for the day `today`, with the weekday and the date in
/// its first line.
///
/// With no events the digest is the date and the "no events" words alone:
/// it holds no event line.
pub fn render_digest(events: &Vec<ClassifiedEvent>, today: CalendarDate) -> (text: String)
    requires
        today.wf(),
        forall|i: int| 0 <= i < events.len() ==> (#[trigger] events[i]).wf(),
    ensures
        text@ == digest_text(
            formatted_date(today.day as int, DIGEST_DATE_FORMAT@),
            showings(events@),
        ),
        events.len() == 0 ==> text@ == formatted_date(today.day as int, DIGEST_DATE_FORMAT@)
            + NO_EVENTS_LINE@,
{
    let date = format_date(today, DIGEST_DATE_FORMAT);
    digest_with_date(date.as_str(), events)
}

/// What the digest says in place of the events when no listing could be
/// had: one fixed text per cause, with the status number behind it where the
/// cause is a status.
pub open spec fn digest_failure_text(cause: FetchError) -> Seq<char> {
    match cause {
        FetchError::ConfigurationMissing => DIGEST_API_KEY_MISSING@,
        FetchError::NetworkUnreachable => DIGEST_UNREACHABLE@,
        FetchError::UpstreamNonSuccess(status) => DIGEST_STATUS@ + decimal_digits(status as nat),
        FetchError::ResponseUnreadable => DIGEST_UNREADABLE@,
        FetchError::ResponseUnparseable => DIGEST_UNPARSEABLE@,
    }
}

/// The text sent in place of the digest when no listing could be had.
pub fn digest_failure(cause: FetchError) -> (text: String)
    ensures
        text@ == digest_failure_text(cause),
{
    match cause {
        FetchError::ConfigurationMissing => String::from_str(DIGEST_API_KEY_MISSING),
        FetchError::NetworkUnreachable => String::from_str(DIGEST_UNREACHABLE),
        FetchError::UpstreamNonSuccess(status) => {
            let mut text = String::from_str(DIGEST_STATUS);
            text.append(decimal_string(status).as_str());
            text
        },
        FetchError::ResponseUnreadable => String::from_str(DIGEST_UNREADABLE),
        FetchError::ResponseUnparseable => String::from_str(DIGEST_UNPARSEABLE),
    }
}

/// The message of the day for what was fetched: the failure text where no
/// listing could be had, else the digest of what is shown today.
pub open spec fn daily_message_text(
    fetched: Result<EventsResponse, FetchError>,
    today: CalendarDate,
    now: Instant,
    prefixes: Seq<Seq<char>>,
) -> Seq<char> {
    match fetched {
        Err(cause) => digest_failure_text(cause),
        Ok(body) => digest_text(
            formatted_date(today.day as int, DIGEST_DATE_FORMAT@),
            todays_showings(readings_of(listed_events(body)), today, now, prefixes),
        ),
    }
}

/// Builds the message of the day from what was fetched.
///
/// There is always a message: a failure to fetch becomes the text that names
/// the cause, and an event of today that cannot be shown is left out of the
/// digest and handed back with the reason.
pub fn build_daily_message(
    fetched: &Result<EventsResponse, FetchError>,
    today: CalendarDate,
    now: Instant,
    excluded: &Vec<String>,
) -> (message: Rendered)
    requires
        today.wf(),
        now.wf(),
    ensures
        message.text@ == daily_message_text(*fetched, today, now, prefix_texts(excluded@)),
        dropped_views(message.dropped@) == dropped_of(*fetched, today, prefix_texts(excluded@)),
{
    let body = match fetched {
        Ok(body) => body,
        Err(cause) => {
            let dropped: Vec<DroppedEvent> = Vec::new();
            return Rendered { text: digest_failure(*cause), dropped };
        },
    };
    let none: Vec<Event> = Vec::new();
    let events = match &body.embedded {
        Some(embedded) => &embedded.events,
        None => &none,
    };
    let Classified { shown, dropped } = filter_and_classify(events, today, now, excluded);
    Rendered { text: render_digest(&shown, today), dropped }
}

} // verus!
