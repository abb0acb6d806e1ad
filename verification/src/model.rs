//! The event listing as the ticketing provider sends it.
//!
//! Field names follow the provider's JSON keys, so that a decoder can fill
//! these types one for one. Only the event's name and its local start date
//! and time take part in filtering and rendering; everything else is carried
//! along unread.

use vstd::prelude::*;

verus! {

/// One page of the venue-scoped event search.
#[derive(Debug)]
pub struct EventsResponse {
    /// The events of this page; absent when the search matched nothing.
    pub embedded: Option<EmbeddedEvents>,
    pub links: Option<Links>,
    pub page: Page,
}

#[derive(Debug)]
pub struct EmbeddedEvents {
    pub events: Vec<Event>,
}

/// An event as received from the event source.
#[derive(Debug)]
pub struct Event {
    pub id: String,
    pub name: String,
    pub event_type: String,
    pub url: Option<String>,
    pub locale: Option<String>,
    pub test: bool,
    pub images: Option<Vec<Image>>,
    pub sales: Option<Sales>,
    pub dates: Dates,
    pub classifications: Option<Vec<Classification>>,
    pub promoter: Option<Promoter>,
    pub promoters: Option<Vec<Promoter>>,
    pub embedded: Option<EventEmbedded>,
}

#[derive(Debug)]
pub struct Image {
    pub ratio: Option<String>,
    pub url: Option<String>,
    pub width: Option<u32>,
    pub height: Option<u32>,
    pub fallback: Option<bool>,
}

#[derive(Debug)]
pub struct Sales {
    pub public: PublicSales,
    pub presales: Option<Vec<Presale>>,
}

#[allow(non_snake_case)]
#[derive(Debug)]
pub struct PublicSales {
    pub start_date_time: Option<String>,
    pub end_date_time: Option<String>,
    pub startTBD: bool,
    pub startTBA: bool,
}

#[derive(Debug)]
pub struct Presale {
    pub start_date_time: Option<String>,
    pub end_date_time: Option<String>,
    pub name: String,
}

#[derive(Debug)]
pub struct Dates {
    pub start: EventStart,
    pub timezone: Option<String>,
    pub status: Status,
}

/// When an event starts, in the venue's local calendar.
#[allow(non_snake_case)]
#[derive(Debug)]
pub struct EventStart {
    /// Calendar date, `YYYY-MM-DD`.
    pub localDate: String,
    /// Time of day, `HH:MM:SS` on a 24-hour clock, when the source gives one.
    pub localTime: Option<String>,
    pub dateTime: Option<String>,
    pub dateTBD: bool,
    pub dateTBA: bool,
    pub timeTBA: bool,
    pub noSpecificTime: bool,
}

#[derive(Debug)]
pub struct Status {
    pub code: String,
}

#[allow(non_snake_case)]
#[derive(Debug)]
pub struct Classification {
    pub primary: bool,
    pub segment: Category,
    pub genre: Category,
    pub subGenre: Option<Category>,
}

#[derive(Debug)]
pub struct Category {
    pub id: String,
    pub name: String,
}

#[derive(Debug)]
pub struct Promoter {
    pub id: String,
    pub name: String,
    pub description: Option<String>,
}

#[derive(Debug)]
pub struct EventEmbedded {
    pub venues: Option<Vec<Venue>>,
    pub attractions: Option<Vec<Attraction>>,
}

#[derive(Debug)]
pub struct Venue {
    pub id: String,
    pub name: String,
    pub url: Option<String>,
    pub locale: Option<String>,
}

#[derive(Debug)]
pub struct Attraction {
    pub id: String,
    pub name: String,
    pub url: Option<String>,
    pub locale: Option<String>,
}

#[allow(non_snake_case)]
#[derive(Debug)]
pub struct Page {
    pub size: u32,
    pub totalElements: u32,
    pub totalPages: u32,
    pub number: u32,
}

#[derive(Debug)]
pub struct Links {
    pub first: Option<Link>,
    pub self_: Option<Link>,
    pub next: Option<Link>,
    pub last: Option<Link>,
}

#[derive(Debug)]
pub struct Link {
    pub href: Option<String>,
}

} // verus!
