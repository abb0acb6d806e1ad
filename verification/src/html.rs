//! The kiosk slideshow: one self-contained page that shows today's events
//! one slide at a time.

use vstd::prelude::*;
use vstd::string::*;

use crate::calendar::{CalendarDate, Instant, TimeOfDay, CLOCK_FORMAT, SLIDESHOW_DATE_FORMAT};
use crate::chrono_bridge::{format_date, format_time, formatted_date, twelve_hour_text};
use crate::display::{
    filter_and_classify, showings, todays_dropped, todays_showings, Classified, ClassifiedEvent,
    DisplayClassification, Rendered, Showing,
};
use crate::model::{Event, EventsResponse};
use crate::schedule::{dropped_views, prefix_texts, readings_of, Dropped, DroppedEvent};
use crate::source::{listed_events, FetchError};

verus! {

/// The page up to the text of the header: document head, style sheet, and the
/// opening of the header line.
pub const PAGE_HEAD: &'static str = r#"<html>
<head>
<meta charset="utf-8">
<title>Today's Events</title>
<style>
body {
    background: #000;
    color: white;
    font-family: Arial, sans-serif;
    margin: 0;
    height: 100vh;
    display: flex;
    justify-content: center;
    align-items: center;
}
.container {
    width: 100%;
    text-align: center;
}
.header {
    font-size: 26px;
    color: #bbb;
    margin-bottom: 10px;
}
.slide {
    display: none;
    padding: 20px;
    animation: fade 0.8s ease-in-out;
}
@keyframes fade {
    from { opacity: 0; }
    to { opacity: 1; }
}
.title {
    font-size: 36px;
    font-weight: bold;
    color: #00e5ff;
    line-height: 1.2;
}
.time-line {
    font-size: 34px;
    margin-top: 14px;
}
.time-upcoming { color: #ffd54f; }
.time-later { color: #64b5f6; }
.time-live {
    color: #ff5252;
    font-weight: bold;
}
.live-badge {
    display: inline-block;
    margin-left: 12px;
    padding: 6px 14px;
    border-radius: 8px;
    background: #ff1744;
    color: white;
    font-size: 18px;
    animation: pulse 1.2s infinite;
}
@keyframes pulse {
    0% { opacity: 1; }
    50% { opacity: 0.6; }
    100% { opacity: 1; }
}
.empty { color: #777; }
</style>
</head>
<body>
<div class="container">
<div class="header">"#;

/// The end of the header line and the opening of the slide container.
pub const SLIDES_OPEN: &'static str = r#"</div><div id="slides">"#;

/// The one slide of a day without events.
pub const NO_EVENTS_SLIDE: &'static str = r#"<div class="slide" style="display:block;">
                <div class="title empty">No events today</div>
            </div>"#;

/// The rest of the page: the script that shows the slides in display order,
/// ten seconds each, starting over after the last.
pub const PAGE_TAIL: &'static str = r#"</div>
<script>
let slides = document.querySelectorAll(".slide");
let index = 0;
function showSlide(i) {
    slides.forEach(s => s.style.display = "none");
    slides[i].style.display = "block";
}
if (slides.length > 0) {
    showSlide(0);
    setInterval(() => {
        index = (index + 1) % slides.length;
        showSlide(index);
    }, 10000);
}
</script>
</div>
</body>
</html>"#;

/// A slide up to the event's name.
pub const SLIDE_OPEN: &'static str = r#"<div class="slide">
                    <div class="title">"#;

/// A slide between the event's name and the style class of its time line.
pub const SLIDE_TIME_LINE: &'static str = r#"</div>
                    <div class="time-line "#;

/// A slide between the style class and the time range.
pub const SLIDE_TIME_OPEN: &'static str = r#"">"#;

/// What stands between the two times of a range: an en dash, without
/// spaces.
pub const RANGE_DASH: &'static str = "\u{2013}";

/// The end of a slide.
pub const SLIDE_CLOSE: &'static str = r#"</div>
                </div>"#;

/// The mark on the slide of a live event.
pub const LIVE_BADGE: &'static str = r#"<span class="live-badge">LIVE</span>"#;

/// The placeholder page up to its message.
pub const PLACEHOLDER_OPEN: &'static str =
    "<html><body style=\"background:black;color:white;font-family:sans-serif;text-align:center;padding-top:40vh;\"><h2>";

/// The placeholder page after its message.
pub const PLACEHOLDER_CLOSE: &'static str = "</h2></body></html>";

/// What the placeholder page says when no credential is configured.
pub const PAGE_NOT_CONFIGURED: &'static str = "Ticket service not configured";

/// What the placeholder page says when the event source cannot be reached.
pub const PAGE_UNAVAILABLE: &'static str = "Ticket service unavailable";

/// What the placeholder page says when the event source answers with a
/// status other than success.
pub const PAGE_TEMPORARILY_UNAVAILABLE: &'static str = "Ticket service temporarily unavailable";

/// What the placeholder page says when the answer cannot be read or is not
/// an event listing.
pub const PAGE_UNREADABLE: &'static str = "Ticket service sent an unreadable answer";

/// The style class of a slide's time line.
pub open spec fn time_class(c: DisplayClassification) -> Seq<char> {
    match c {
        DisplayClassification::Live => "time-live"@,
        DisplayClassification::Upcoming => "time-upcoming"@,
        DisplayClassification::Later => "time-later"@,
    }
}

/// The badge of a slide: the live mark for a live event, nothing otherwise.
pub open spec fn badge(c: DisplayClassification) -> Seq<char> {
    match c {
        DisplayClassification::Live => LIVE_BADGE@,
        _ => Seq::<char>::empty(),
    }
}

/// The slide of one event: its name, then its time range in the style of its
/// classification, followed by the badge.
pub open spec fn slide_text(event: Showing) -> Seq<char> {
    SLIDE_OPEN@ + event.name + SLIDE_TIME_LINE@ + time_class(event.classification)
        + SLIDE_TIME_OPEN@ + twelve_hour_text(event.start.time.secs as int) + RANGE_DASH@
        + twelve_hour_text(event.end.time.secs as int) + " "@ + badge(event.classification)
        + SLIDE_CLOSE@
}

/// The slides of `events`, one after the other.
pub open spec fn slides_text(events: Seq<Showing>) -> Seq<char>
    decreases events.len(),
{
    if events.len() == 0 {
        Seq::<char>::empty()
    } else {
        slides_text(events.drop_last()) + slide_text(events.last())
    }
}

/// The slideshow page for `events` under the header text `date`: the header,
/// then one slide per event in the order given, or the one "no events" slide
/// where there is none.
pub open spec fn slideshow_text(date: Seq<char>, events: Seq<Showing>) -> Seq<char> {
    PAGE_HEAD@ + date + SLIDES_OPEN@ + (if events.len() == 0 {
        NO_EVENTS_SLIDE@
    } else {
        slides_text(events)
    }) + PAGE_TAIL@
}

/// A time of day as shown on a slide or in the digest, as in `7:00 PM`.
pub fn clock_text(time: TimeOfDay) -> (text: String)
    requires
        time.wf(),
    ensures
        text@ == twelve_hour_text(time.secs as int),
{
    format_time(time, CLOCK_FORMAT)
}

/// Renders the slide of one event.
pub fn render_slide(event: &ClassifiedEvent) -> (slide: String)
    requires
        event.wf(),
    ensures
        slide@ == slide_text(event@),
{
    let (class, mark) = match event.classification {
        DisplayClassification::Live => ("time-live", LIVE_BADGE),
        DisplayClassification::Upcoming => ("time-upcoming", ""),
        DisplayClassification::Later => ("time-later", ""),
    };
    proof {
        reveal_strlit("");
    }
    let mut slide = String::from_str(SLIDE_OPEN);
    slide.append(event.name.as_str());
    slide.append(SLIDE_TIME_LINE);
    slide.append(class);
    slide.append(SLIDE_TIME_OPEN);
    slide.append(clock_text(event.start.time).as_str());
    slide.append(RANGE_DASH);
    slide.append(clock_text(event.end.time).as_str());
    slide.append(" ");
    slide.append(mark);
    slide.append(SLIDE_CLOSE);
    slide
}

/// Renders the slideshow page under the header text `date`.
///
/// With no events the page holds exactly one slide, the one that says so.
pub fn slideshow_with_date(date: &str, events: &Vec<ClassifiedEvent>) -> (html: String)
    requires
        forall|i: int| 0 <= i < events.len() ==> (#[trigger] events[i]).wf(),
    ensures
        html@ == slideshow_text(date@, showings(events@)),
        events.len() == 0 ==> html@ == PAGE_HEAD@ + date@ + SLIDES_OPEN@ + NO_EVENTS_SLIDE@
            + PAGE_TAIL@,
{
    let mut html = String::from_str(PAGE_HEAD);
    html.append(date);
    html.append(SLIDES_OPEN);
    if events.len() == 0 {
        html.append(NO_EVENTS_SLIDE);
    } else {
        let mut slides = String::new();
        let mut i: usize = 0;
        while i < events.len()
            invariant
                i <= events.len(),
                forall|k: int| 0 <= k < events.len() ==> (#[trigger] events[k]).wf(),
                slides@ == slides_text(showings(events@).take(i as int)),
            decreases events.len() - i,
        {
            let slide = render_slide(&events[i]);
            proof {
                assert(showings(events@).take(i + 1).drop_last() =~= showings(events@).take(
                    i as int,
                ));
            }
            slides.append(slide.as_str());
            i += 1;
        }
        proof {
            assert(showings(events@).take(i as int) =~= showings(events@));
        }
        html.append(slides.as_str());
    }
    html.append(PAGE_TAIL);
    html
}

/// Renders the slideshow page for the day `today`, with the weekday and the
/// date in the header.
///
/// With no events the page holds exactly one slide, the one that says so.
pub fn render_slideshow(events: &Vec<ClassifiedEvent>, today: CalendarDate) -> (html: String)
    requires
        today.wf(),
        forall|i: int| 0 <= i < events.len() ==> (#[trigger] events[i]).wf(),
    ensures
        html@ == slideshow_text(
            formatted_date(today.day as int, SLIDESHOW_DATE_FORMAT@),
            showings(events@),
        ),
        events.len() == 0 ==> html@ == PAGE_HEAD@ + formatted_date(
            today.day as int,
            SLIDESHOW_DATE_FORMAT@,
        ) + SLIDES_OPEN@ + NO_EVENTS_SLIDE@ + PAGE_TAIL@,
{
    let date = format_date(today, SLIDESHOW_DATE_FORMAT);
    slideshow_with_date(date.as_str(), events)
}

/// A minimal page that carries a short message, shown when the events cannot
/// be had.
pub fn simple_page(msg: &str) -> (page: String)
    ensures
        page@ == PLACEHOLDER_OPEN@ + msg@ + PLACEHOLDER_CLOSE@,
{
    let mut page = String::from_str(PLACEHOLDER_OPEN);
    page.append(msg);
    page.append(PLACEHOLDER_CLOSE);
    page
}

/// The short reason the placeholder page gives for a failure to fetch.
pub open spec fn failure_reason_text(cause: FetchError) -> Seq<char> {
    match cause {
        FetchError::ConfigurationMissing => PAGE_NOT_CONFIGURED@,
        FetchError::NetworkUnreachable => PAGE_UNAVAILABLE@,
        FetchError::UpstreamNonSuccess(_) => PAGE_TEMPORARILY_UNAVAILABLE@,
        FetchError::ResponseUnreadable => PAGE_UNREADABLE@,
        FetchError::ResponseUnparseable => PAGE_UNREADABLE@,
    }
}

/// The short reason the placeholder page gives for a failure to fetch.
pub fn failure_reason(cause: FetchError) -> (reason: &'static str)
    ensures
        reason@ == failure_reason_text(cause),
{
    match cause {
        FetchError::ConfigurationMissing => PAGE_NOT_CONFIGURED,
        FetchError::NetworkUnreachable => PAGE_UNAVAILABLE,
        FetchError::UpstreamNonSuccess(_) => PAGE_TEMPORARILY_UNAVAILABLE,
        FetchError::ResponseUnreadable => PAGE_UNREADABLE,
        FetchError::ResponseUnparseable => PAGE_UNREADABLE,
    }
}

/// The page for what was fetched: the placeholder with its reason where no
/// listing could be had, else the slideshow of what is shown today.
pub open spec fn todays_page_text(
    fetched: Result<EventsResponse, FetchError>,
    today: CalendarDate,
    now: Instant,
    prefixes: Seq<Seq<char>>,
) -> Seq<char> {
    match fetched {
        Err(cause) => PLACEHOLDER_OPEN@ + failure_reason_text(cause) + PLACEHOLDER_CLOSE@,
        Ok(body) => slideshow_text(
            formatted_date(today.day as int, SLIDESHOW_DATE_FORMAT@),
            todays_showings(readings_of(listed_events(body)), today, now, prefixes),
        ),
    }
}

/// The events of today that a rendering of what was fetched leaves out:
/// none where no listing could be had, else those that cannot be shown.
pub open spec fn dropped_of(
    fetched: Result<EventsResponse, FetchError>,
    today: CalendarDate,
    prefixes: Seq<Seq<char>>,
) -> Seq<Dropped> {
    match fetched {
        Err(_) => Seq::<Dropped>::empty(),
        Ok(body) => todays_dropped(readings_of(listed_events(body)), today, prefixes),
    }
}

/// Builds today's page from what was fetched.
///
/// There is always a page: a failure to fetch becomes the placeholder page
/// with the reason, and an event of today that cannot be shown is left out
/// of the slideshow and handed back with the reason.
pub fn get_todays_events_html(
    fetched: &Result<EventsResponse, FetchError>,
    today: CalendarDate,
    now: Instant,
    excluded: &Vec<String>,
) -> (page: Rendered)
    requires
        today.wf(),
        now.wf(),
    ensures
        page.text@ == todays_page_text(*fetched, today, now, prefix_texts(excluded@)),
        dropped_views(page.dropped@) == dropped_of(*fetched, today, prefix_texts(excluded@)),
{
    let body = match fetched {
        Ok(body) => body,
        Err(cause) => {
            let dropped: Vec<DroppedEvent> = Vec::new();
            return Rendered { text: simple_page(failure_reason(*cause)), dropped };
        },
    };
    let none: Vec<Event> = Vec::new();
    let events = match &body.embedded {
        Some(embedded) => &embedded.events,
        None => &none,
    };
    let Classified { shown, dropped } = filter_and_classify(events, today, now, excluded);
    Rendered { text: render_slideshow(&shown, today), dropped }
}

} // verus!
