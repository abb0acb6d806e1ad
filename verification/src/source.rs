//! The event source: where the listing is asked for, and what can go wrong
//! on the way.
//!
//! The request itself is made elsewhere. Here is what is decided about it:
//! the address to ask, whether a status counts as success, and which events
//! a decoded response lists.

use vstd::prelude::*;
use vstd::string::*;

use crate::model::{Event, EventsResponse};

verus! {

/// Why no listing could be had from the event source.
#[derive(Clone, Copy, Debug, PartialEq, Eq, Structural)]
pub enum FetchError {
    /// No credential for the event source is configured.
    ConfigurationMissing,
    /// The event source could not be reached.
    NetworkUnreachable,
    /// The event source answered with a status other than success.
    UpstreamNonSuccess(u16),
    /// The body of the answer could not be read to its end.
    ResponseUnreadable,
    /// The body of the answer is not an event listing.
    ResponseUnparseable,
}

/// The venue whose events are shown.
pub const VENUE_ID: &'static str = "KovZpZA6AJdA";

/// The search endpoint, up to the venue identifier.
pub const EVENTS_ENDPOINT: &'static str =
    "https://app.ticketmaster.com/discovery/v2/events.json?venueId=";

/// What stands between the venue identifier and the credential.
pub const API_KEY_PARAMETER: &'static str = "&apikey=";

/// The address of the venue-scoped event search.
pub open spec fn events_url_text(venue_id: Seq<char>, api_key: Seq<char>) -> Seq<char> {
    EVENTS_ENDPOINT@ + venue_id + API_KEY_PARAMETER@ + api_key
}

/// The address to ask for the events of `venue_id`.
///
/// Fails with [`FetchError::ConfigurationMissing`] exactly when there is no
/// credential or the credential is empty, so that no request is made without
/// one.
pub fn events_url(venue_id: &str, api_key: Option<&str>) -> (url: Result<String, FetchError>)
    ensures
        match url {
            Ok(text) => api_key matches Some(key) && key@.len() > 0 && text@ == events_url_text(
                venue_id@,
                key@,
            ),
            Err(e) => e == FetchError::ConfigurationMissing && (api_key matches Some(key)
                ==> key@.len() == 0),
        },
{
    match api_key {
        Some(key) => {
            if key.unicode_len() == 0 {
                Err(FetchError::ConfigurationMissing)
            } else {
                let mut url = String::from_str(EVENTS_ENDPOINT);
                url.append(venue_id);
                url.append(API_KEY_PARAMETER);
                url.append(key);
                Ok(url)
            }
        },
        None => Err(FetchError::ConfigurationMissing),
    }
}

/// A status in the range 200 to 299 is success; any other is reported with
/// its number.
pub fn check_status(status: u16) -> (r: Result<(), FetchError>)
    ensures
        r == (if 200 <= status < 300 {
            Ok::<(), FetchError>(())
        } else {
            Err::<(), FetchError>(FetchError::UpstreamNonSuccess(status))
        }),
{
    if 200 <= status && status < 300 {
        Ok(())
    } else {
        Err(FetchError::UpstreamNonSuccess(status))
    }
}

/// The events that a response lists: those embedded in it, or none where it
/// embeds nothing.
pub open spec fn listed_events(body: EventsResponse) -> Seq<Event> {
    match body.embedded {
        Some(embedded) => embedded.events@,
        None => Seq::<Event>::empty(),
    }
}

} // verus!
