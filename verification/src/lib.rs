//! Today's events at a venue: which listed events count as today, in what
//! order they are shown, and how they read on a kiosk slideshow and in a
//! plain-text daily digest.

pub mod calendar;
pub mod chrono_bridge;
pub mod digest;
pub mod display;
pub mod html;
pub mod model;
pub mod notify;
pub mod schedule;
pub mod source;
pub mod text;

pub use crate::model::{
    Attraction, Category, Classification, Dates, EmbeddedEvents, Event, EventEmbedded,
    EventStart, EventsResponse, Image, Link, Links, Page, Presale, Promoter, PublicSales, Sales,
    Status, Venue,
};
