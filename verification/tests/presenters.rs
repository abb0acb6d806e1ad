use chrono::{Datelike, NaiveDate, NaiveTime};
use venue_events::calendar::{CalendarDate, Instant, TimeOfDay};
use venue_events::digest::{
    build_daily_message, digest_failure, digest_with_date, render_digest, render_line,
};
use venue_events::display::{ClassifiedEvent, DisplayClassification};
use venue_events::html::{
    clock_text, failure_reason, get_todays_events_html, render_slide, render_slideshow,
    simple_page, slideshow_with_date, NO_EVENTS_SLIDE, PAGE_HEAD, PAGE_TAIL, SLIDES_OPEN,
};
use venue_events::model::{Dates, EmbeddedEvents, Event, EventStart, EventsResponse, Page, Status};
use venue_events::schedule::{default_excluded_prefixes, EventError};
use venue_events::source::FetchError;

fn today() -> CalendarDate {
    CalendarDate { day: NaiveDate::from_ymd_opt(2024, 5, 17).unwrap().num_days_from_ce() }
}

fn hms(h: u32, m: u32, s: u32) -> Instant {
    Instant { date: today(), time: TimeOfDay::from_hms_opt(h, m, s).unwrap() }
}

fn shown(name: &str, start: Instant, end: Instant, c: DisplayClassification) -> ClassifiedEvent {
    ClassifiedEvent { name: String::from(name), start, end, classification: c }
}

fn event(name: &str, date: &str, time: Option<&str>) -> Event {
    Event {
        id: String::from("id"),
        name: String::from(name),
        event_type: String::from("event"),
        url: None,
        locale: None,
        test: false,
        images: None,
        sales: None,
        dates: Dates {
            start: EventStart {
                localDate: String::from(date),
                localTime: time.map(String::from),
                dateTime: None,
                dateTBD: false,
                dateTBA: false,
                timeTBA: false,
                noSpecificTime: false,
            },
            timezone: None,
            status: Status { code: String::from("onsale") },
        },
        classifications: None,
        promoter: None,
        promoters: None,
        embedded: None,
    }
}

fn response(events: Option<Vec<Event>>) -> EventsResponse {
    EventsResponse {
        embedded: events.map(|events| EmbeddedEvents { events }),
        links: None,
        page: Page { size: 20, totalElements: 0, totalPages: 1, number: 0 },
    }
}

fn count(haystack: &str, needle: &str) -> usize {
    haystack.matches(needle).count()
}

#[test]
fn clock_text_is_twelve_hour() {
    let at = |h, m, s| clock_text(TimeOfDay::from_hms_opt(h, m, s).unwrap());
    assert_eq!(at(19, 0, 0), "7:00 PM");
    assert_eq!(at(21, 0, 0), "9:00 PM");
    assert_eq!(at(0, 0, 0), "12:00 AM");
    assert_eq!(at(0, 5, 59), "12:05 AM");
    assert_eq!(at(12, 0, 0), "12:00 PM");
    assert_eq!(at(11, 59, 59), "11:59 AM");
    assert_eq!(at(23, 59, 59), "11:59 PM");
    assert_eq!(at(10, 30, 0), "10:30 AM");
    assert_eq!(at(1, 1, 1), "1:01 AM");
    assert_eq!(clock_text(TimeOfDay { secs: 68_459, nanos: 1_500_000_000 }), "7:00 PM");
}

#[test]
fn clock_text_for_every_second_of_the_day() {
    for secs in 0..86_400u32 {
        let hour = secs / 3600;
        let minute = (secs / 60) % 60;
        let hour12 = if hour % 12 == 0 { 12 } else { hour % 12 };
        let expected = format!("{}:{:02} {}", hour12, minute, if hour >= 12 { "PM" } else { "AM" });
        assert_eq!(clock_text(TimeOfDay { secs, nanos: 0 }), expected);
    }
}

#[test]
fn clock_text_is_the_outside_format() {
    for secs in (0..86_400u32).step_by(61) {
        let t = NaiveTime::from_num_seconds_from_midnight_opt(secs, 0).unwrap();
        assert_eq!(clock_text(TimeOfDay { secs, nanos: 0 }), t.format("%-I:%M %p").to_string());
    }
}

#[test]
fn slide_of_a_live_event() {
    let slide = render_slide(&shown(
        "Concert X",
        hms(19, 0, 0),
        hms(21, 0, 0),
        DisplayClassification::Live,
    ));
    assert_eq!(
        slide,
        "<div class=\"slide\">\n                    <div class=\"title\">Concert X</div>\n                    <div class=\"time-line time-live\">7:00 PM\u{2013}9:00 PM <span class=\"live-badge\">LIVE</span></div>\n                </div>"
    );
}

#[test]
fn slide_of_an_upcoming_and_of_a_later_event() {
    let up = render_slide(&shown("A", hms(9, 5, 0), hms(11, 5, 0), DisplayClassification::Upcoming));
    assert_eq!(
        up,
        "<div class=\"slide\">\n                    <div class=\"title\">A</div>\n                    <div class=\"time-line time-upcoming\">9:05 AM\u{2013}11:05 AM </div>\n                </div>"
    );
    let later = render_slide(&shown("B", hms(9, 5, 0), hms(11, 5, 0), DisplayClassification::Later));
    assert!(later.contains("<div class=\"time-line time-later\">9:05 AM\u{2013}11:05 AM </div>"));
    assert!(!later.contains("LIVE"));
}

#[test]
fn slideshow_without_events_has_the_one_empty_slide() {
    let html = render_slideshow(&Vec::new(), today());
    let expected = format!(
        "{}Friday \u{2022} 05-17-2024{}{}{}",
        PAGE_HEAD, SLIDES_OPEN, NO_EVENTS_SLIDE, PAGE_TAIL
    );
    assert_eq!(html, expected);
    assert_eq!(count(&html, "<div class=\"slide\""), 1);
    assert_eq!(count(&html, "No events today"), 1);
    assert!(html.starts_with("<html>\n<head>"));
    assert!(html.ends_with("</body>\n</html>"));
}

#[test]
fn slideshow_has_one_slide_per_event_in_order() {
    let events = vec![
        shown("First", hms(9, 0, 0), hms(11, 0, 0), DisplayClassification::Later),
        shown("Second", hms(19, 0, 0), hms(21, 0, 0), DisplayClassification::Live),
        shown("Third", hms(21, 30, 0), hms(23, 30, 0), DisplayClassification::Upcoming),
    ];
    let html = render_slideshow(&events, today());
    let slides: String = events.iter().map(render_slide).collect();
    let expected =
        format!("{}Friday \u{2022} 05-17-2024{}{}{}", PAGE_HEAD, SLIDES_OPEN, slides, PAGE_TAIL);
    assert_eq!(html, expected);
    assert_eq!(count(&html, "<div class=\"slide\">"), 3);
    assert_eq!(count(&html, "<span class=\"live-badge\">LIVE</span>"), 1);
    assert!(!html.contains("No events today"));
    let a = html.find("First").unwrap();
    let b = html.find("Second").unwrap();
    let c = html.find("Third").unwrap();
    assert!(a < b && b < c);
    assert!(html.contains("<div class=\"header\">Friday \u{2022} 05-17-2024</div><div id=\"slides\">"));
    assert!(html.contains("}, 10000);"));
}

#[test]
fn header_shows_weekday_and_date() {
    let sunday = CalendarDate { day: NaiveDate::from_ymd_opt(2023, 1, 1).unwrap().num_days_from_ce() };
    assert!(render_slideshow(&Vec::new(), sunday).contains(">Sunday \u{2022} 01-01-2023<"));
    assert_eq!(render_digest(&Vec::new(), sunday), "Sunday 01-01-2023: No events today.");
    let old = CalendarDate { day: 1 };
    assert_eq!(render_digest(&Vec::new(), old), "Monday 01-01-0001: No events today.");
}

#[test]
fn simple_page_wraps_the_message() {
    assert_eq!(
        simple_page("Ticket service unavailable"),
        "<html><body style=\"background:black;color:white;font-family:sans-serif;text-align:center;padding-top:40vh;\"><h2>Ticket service unavailable</h2></body></html>"
    );
    assert_eq!(
        simple_page(""),
        "<html><body style=\"background:black;color:white;font-family:sans-serif;text-align:center;padding-top:40vh;\"><h2></h2></body></html>"
    );
}

#[test]
fn failure_reasons_for_the_page() {
    assert_eq!(failure_reason(FetchError::ConfigurationMissing), "Ticket service not configured");
    assert_eq!(failure_reason(FetchError::NetworkUnreachable), "Ticket service unavailable");
    assert_eq!(
        failure_reason(FetchError::UpstreamNonSuccess(503)),
        "Ticket service temporarily unavailable"
    );
    assert_eq!(
        failure_reason(FetchError::ResponseUnreadable),
        "Ticket service sent an unreadable answer"
    );
    assert_eq!(
        failure_reason(FetchError::ResponseUnparseable),
        "Ticket service sent an unreadable answer"
    );
}

#[test]
fn digest_line_of_an_event() {
    let live = render_line(&shown(
        "Concert X",
        hms(19, 0, 0),
        hms(21, 0, 0),
        DisplayClassification::Live,
    ));
    assert_eq!(live, "- Concert X: 7:00 PM\u{2013}9:00 PM (LIVE)");
    let later = render_line(&shown("A: B", hms(0, 0, 0), hms(2, 0, 0), DisplayClassification::Later));
    assert_eq!(later, "- A: B: 12:00 AM\u{2013}2:00 AM");
    let up = render_line(&shown("C", hms(12, 0, 0), hms(14, 0, 0), DisplayClassification::Upcoming));
    assert_eq!(up, "- C: 12:00 PM\u{2013}2:00 PM");
}

#[test]
fn digest_without_events_is_the_one_line() {
    let text = render_digest(&Vec::new(), today());
    assert_eq!(text, "Friday 05-17-2024: No events today.");
    assert!(!text.contains('\n'));
    assert!(!text.contains("- "));
}

#[test]
fn digest_lists_the_events_in_order() {
    let events = vec![
        shown("First", hms(9, 0, 0), hms(11, 0, 0), DisplayClassification::Later),
        shown("Second", hms(19, 0, 0), hms(21, 0, 0), DisplayClassification::Live),
    ];
    assert_eq!(
        render_digest(&events, today()),
        "Friday 05-17-2024 Events:\n- First: 9:00 AM\u{2013}11:00 AM\n- Second: 7:00 PM\u{2013}9:00 PM (LIVE)"
    );
}

#[test]
fn digest_failure_texts() {
    assert_eq!(digest_failure(FetchError::ConfigurationMissing), "Daily Events: API key missing");
    assert_eq!(
        digest_failure(FetchError::NetworkUnreachable),
        "Daily Events: ticket service unreachable"
    );
    assert_eq!(
        digest_failure(FetchError::UpstreamNonSuccess(503)),
        "Daily Events: Ticketmaster returned 503"
    );
    assert_eq!(
        digest_failure(FetchError::UpstreamNonSuccess(404)),
        "Daily Events: Ticketmaster returned 404"
    );
    assert_eq!(
        digest_failure(FetchError::ResponseUnreadable),
        "Daily Events: failed reading response"
    );
    assert_eq!(
        digest_failure(FetchError::ResponseUnparseable),
        "Daily Events: failed parsing event data"
    );
}

#[test]
fn page_and_digest_under_a_given_date_text() {
    let events = vec![
        shown("First", hms(9, 0, 0), hms(11, 0, 0), DisplayClassification::Later),
        shown("Second", hms(19, 0, 0), hms(21, 0, 0), DisplayClassification::Live),
    ];
    assert_eq!(
        digest_with_date("Someday", &events),
        "Someday Events:\n- First: 9:00 AM\u{2013}11:00 AM\n- Second: 7:00 PM\u{2013}9:00 PM (LIVE)"
    );
    assert_eq!(digest_with_date("Someday", &Vec::new()), "Someday: No events today.");
    assert_eq!(digest_with_date("", &Vec::new()), ": No events today.");
    let slides: String = events.iter().map(render_slide).collect();
    assert_eq!(
        slideshow_with_date("Someday", &events),
        format!("{}Someday{}{}{}", PAGE_HEAD, SLIDES_OPEN, slides, PAGE_TAIL)
    );
    assert_eq!(
        slideshow_with_date("Someday", &Vec::new()),
        format!("{}Someday{}{}{}", PAGE_HEAD, SLIDES_OPEN, NO_EVENTS_SLIDE, PAGE_TAIL)
    );
}

#[test]
fn upstream_503_degrades_to_text_and_placeholder() {
    let fetched: Result<EventsResponse, FetchError> = Err(FetchError::UpstreamNonSuccess(503));
    let p = default_excluded_prefixes();
    let message = build_daily_message(&fetched, today(), hms(20, 0, 0), &p);
    assert!(message.text.contains("503"));
    assert!(message.dropped.is_empty());
    let page = get_todays_events_html(&fetched, today(), hms(20, 0, 0), &p);
    assert_eq!(page.text, simple_page("Ticket service temporarily unavailable"));
    assert!(page.text.starts_with("<html><body"));
    assert!(page.text.contains("<h2>Ticket service temporarily unavailable</h2>"));
    assert!(page.dropped.is_empty());
}

#[test]
fn every_fetch_failure_still_gives_a_page_and_a_message() {
    let p = default_excluded_prefixes();
    for cause in [
        FetchError::ConfigurationMissing,
        FetchError::NetworkUnreachable,
        FetchError::UpstreamNonSuccess(500),
        FetchError::ResponseUnreadable,
        FetchError::ResponseUnparseable,
    ] {
        let fetched: Result<EventsResponse, FetchError> = Err(cause);
        let page = get_todays_events_html(&fetched, today(), hms(1, 0, 0), &p);
        assert_eq!(page.text, simple_page(failure_reason(cause)));
        assert!(page.dropped.is_empty());
        let message = build_daily_message(&fetched, today(), hms(1, 0, 0), &p);
        assert_eq!(message.text, digest_failure(cause));
        assert!(message.dropped.is_empty());
    }
}

#[test]
fn concert_x_at_eight_in_the_evening() {
    let fetched = Ok(response(Some(vec![event("Concert X", "2024-05-17", Some("19:00:00"))])));
    let p = default_excluded_prefixes();
    let message = build_daily_message(&fetched, today(), hms(20, 0, 0), &p).text;
    assert_eq!(message, "Friday 05-17-2024 Events:\n- Concert X: 7:00 PM\u{2013}9:00 PM (LIVE)");
    let page = get_todays_events_html(&fetched, today(), hms(20, 0, 0), &p).text;
    assert!(page.contains("<div class=\"title\">Concert X</div>"));
    assert!(page.contains(
        "<div class=\"time-line time-live\">7:00 PM\u{2013}9:00 PM <span class=\"live-badge\">LIVE</span></div>"
    ));
    assert!(page.contains("7:00 PM\u{2013}9:00 PM"));
    assert_eq!(count(&page, "<div class=\"slide\""), 1);
}

#[test]
fn whole_listing_to_digest_and_page() {
    let fetched = Ok(response(Some(vec![
        event("Late Show", "2024-05-17", Some("22:30:00")),
        event("Suites Package A", "2024-05-17", Some("19:00:00")),
        event("Tomorrow", "2024-05-18", Some("10:00:00")),
        event("Open House", "2024-05-17", None),
        event("Matinee", "2024-05-17", Some("14:00:00")),
        event("Concert X", "2024-05-17", Some("19:00:00")),
    ])));
    let p = default_excluded_prefixes();
    let now = hms(20, 45, 0);
    let message = build_daily_message(&fetched, today(), now, &p);
    assert_eq!(
        message.text,
        "Friday 05-17-2024 Events:\n- Matinee: 2:00 PM\u{2013}4:00 PM\n- Concert X: 7:00 PM\u{2013}9:00 PM (LIVE)\n- Late Show: 10:30 PM\u{2013}12:30 AM\n- Open House: 11:59 PM\u{2013}1:59 AM"
    );
    assert!(message.dropped.is_empty());
    let page = get_todays_events_html(&fetched, today(), now, &p).text;
    assert_eq!(count(&page, "<div class=\"slide\">"), 4);
    assert_eq!(count(&page, "time-line time-live"), 1);
    assert_eq!(count(&page, "time-line time-upcoming"), 1);
    assert_eq!(count(&page, "time-line time-later"), 2);
    assert!(!page.contains("Suites"));
    assert!(!page.contains("Tomorrow"));
}

#[test]
fn listing_without_events_for_today() {
    let p = default_excluded_prefixes();
    for fetched in [
        Ok(response(None)),
        Ok(response(Some(Vec::new()))),
        Ok(response(Some(vec![event("Suites Package A", "2024-05-17", Some("19:00:00"))]))),
        Ok(response(Some(vec![event("Elsewhen", "2024-05-16", Some("19:00:00"))]))),
    ] {
        let message = build_daily_message(&fetched, today(), hms(8, 0, 0), &p);
        assert_eq!(message.text, "Friday 05-17-2024: No events today.");
        assert!(message.dropped.is_empty());
        let page = get_todays_events_html(&fetched, today(), hms(8, 0, 0), &p);
        assert_eq!(page.text, render_slideshow(&Vec::new(), today()));
        assert!(page.dropped.is_empty());
    }
}

#[test]
fn unreadable_time_leaves_the_other_events_on_page_and_message() {
    let fetched = Ok(response(Some(vec![
        event("A", "2024-05-17", Some("7pm")),
        event("B", "2024-05-17", Some("19:00:00")),
    ])));
    let p = default_excluded_prefixes();
    let message = build_daily_message(&fetched, today(), hms(8, 0, 0), &p);
    assert_eq!(message.text, "Friday 05-17-2024 Events:\n- B: 7:00 PM\u{2013}9:00 PM");
    assert_eq!(message.dropped.len(), 1);
    assert_eq!(message.dropped[0].name, "A");
    assert_eq!(message.dropped[0].reason, EventError::EventFieldUnparseable);
    let page = get_todays_events_html(&fetched, today(), hms(8, 0, 0), &p);
    assert_eq!(count(&page.text, "<div class=\"slide\">"), 1);
    assert!(page.text.contains("<div class=\"title\">B</div>"));
    assert!(!page.text.contains("<div class=\"title\">A</div>"));
    assert!(page.text.ends_with("</body>\n</html>"));
    assert_eq!(page.dropped.len(), 1);
    assert_eq!(page.dropped[0].name, "A");
}

#[test]
fn only_unreadable_times_give_the_empty_page_and_message() {
    let fetched = Ok(response(Some(vec![event("Broken", "2024-05-17", Some("19h"))])));
    let p = default_excluded_prefixes();
    let message = build_daily_message(&fetched, today(), hms(8, 0, 0), &p);
    assert_eq!(message.text, "Friday 05-17-2024: No events today.");
    assert_eq!(message.dropped.len(), 1);
    let page = get_todays_events_html(&fetched, today(), hms(8, 0, 0), &p);
    assert_eq!(page.text, render_slideshow(&Vec::new(), today()));
    assert_eq!(page.dropped.len(), 1);
    assert_eq!(page.dropped[0].reason, EventError::EventFieldUnparseable);
}

#[test]
fn window_past_the_calendar_is_left_out_of_page_and_message() {
    let last = CalendarDate { day: NaiveDate::MAX.num_days_from_ce() };
    let text = NaiveDate::MAX.format("%Y-%m-%d").to_string();
    let fetched = Ok(response(Some(vec![
        event("Last", &text, Some("23:00:00")),
        event("Fits", &text, Some("10:00:00")),
    ])));
    let p = default_excluded_prefixes();
    let now = Instant { date: last, time: TimeOfDay { secs: 0, nanos: 0 } };
    let message = build_daily_message(&fetched, last, now, &p);
    assert!(message.text.ends_with(" Events:\n- Fits: 10:00 AM\u{2013}12:00 PM"));
    assert_eq!(message.dropped.len(), 1);
    assert_eq!(message.dropped[0].name, "Last");
    assert_eq!(message.dropped[0].reason, EventError::WindowOutOfRange);
    let page = get_todays_events_html(&fetched, last, now, &p);
    assert_eq!(count(&page.text, "<div class=\"slide\">"), 1);
    assert!(page.text.contains("<div class=\"title\">Fits</div>"));
    assert_eq!(page.dropped.len(), 1);
    assert_eq!(page.dropped[0].name, "Last");
}

#[test]
fn event_names_are_shown_as_they_are() {
    let events = vec![shown("Tom & Jerry <live>", hms(9, 0, 0), hms(11, 0, 0), DisplayClassification::Later)];
    assert!(render_digest(&events, today()).contains("- Tom & Jerry <live>: 9:00 AM"));
    assert!(render_slideshow(&events, today()).contains("<div class=\"title\">Tom & Jerry <live></div>"));
}
