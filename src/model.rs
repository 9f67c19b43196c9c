use vstd::prelude::*;

use crate::status::{parse_status, EventStatus};

verus! {

/// A scheduled ride. Coordinates are in units of 1e-7 degrees; `event_date`
/// and `created_at` are microseconds since the Unix epoch, UTC.
#[derive(Debug, Clone)]
pub struct Event {
    pub id: i64,
    pub title: String,
    pub description: Option<String>,
    pub organizer: String,
    pub organizer_id: Option<i64>,
    pub location_name: String,
    pub country: Option<String>,
    pub latitude: i64,
    pub longitude: i64,
    pub event_date: i64,
    pub image_url: Option<String>,
    pub video_url: Option<String>,
    pub event_link: Option<String>,
    /// The status as read: always one of the three states.
    pub status: EventStatus,
    /// The status value as stored.
    pub status_str: String,
    pub created_at: i64,
}

/// A ride-organizing group or individual.
#[derive(Debug, Clone)]
pub struct Organizer {
    pub id: i64,
    pub name: String,
    pub slug: String,
    pub description: Option<String>,
    pub website: Option<String>,
    pub created_at: i64,
}

/// A proposed video link for an event. `event_title` is not stored: reads
/// fill it from the referenced event.
#[derive(Debug, Clone)]
pub struct VideoSuggestion {
    pub id: i64,
    pub event_id: i64,
    pub video_url: String,
    pub status: String,
    pub created_at: i64,
    pub event_title: String,
}

/// A public submission of an event.
#[derive(Debug, Clone)]
pub struct CreateEventRequest {
    pub title: String,
    pub description: Option<String>,
    pub organizer: String,
    pub location_name: String,
    pub country: Option<String>,
    pub latitude: i64,
    pub longitude: i64,
    pub event_date: i64,
    pub image_url: Option<String>,
    pub video_url: Option<String>,
    pub event_link: Option<String>,
}

/// An administrator's partial update: `None` leaves a field untouched. For
/// `country`, `image_url`, `video_url` and `event_link` an empty string
/// clears the field.
#[derive(Debug, Clone)]
pub struct UpdateEventRequest {
    pub title: Option<String>,
    pub description: Option<String>,
    pub organizer: Option<String>,
    pub location_name: Option<String>,
    pub country: Option<String>,
    pub latitude: Option<i64>,
    pub longitude: Option<i64>,
    pub event_date: Option<i64>,
    pub image_url: Option<String>,
    pub video_url: Option<String>,
    pub event_link: Option<String>,
    pub status: Option<String>,
}

/// A public submission of a video link for an event.
#[derive(Debug, Clone)]
pub struct CreateSuggestionRequest {
    pub event_id: i64,
    pub video_url: String,
}

/// A list of events with its length.
#[derive(Debug)]
pub struct EventsResponse {
    pub events: Vec<Event>,
    pub total: usize,
}

/// A list of organizers with its length.
#[derive(Debug)]
pub struct OrganizersResponse {
    pub organizers: Vec<Organizer>,
    pub total: usize,
}

/// A list of suggestions with its length.
#[derive(Debug)]
pub struct SuggestionsResponse {
    pub suggestions: Vec<VideoSuggestion>,
    pub total: usize,
}

pub fn copy_opt_string(o: &Option<String>) -> (r: Option<String>)
    ensures
        r == *o,
{
    match o {
        Some(s) => Some(s.clone()),
        None => None,
    }
}

impl Event {
    /// A field-for-field copy.
    pub fn copy(&self) -> (r: Event)
        ensures
            r == *self,
    {
        Event {
            id: self.id,
            title: self.title.clone(),
            description: copy_opt_string(&self.description),
            organizer: self.organizer.clone(),
            organizer_id: self.organizer_id,
            location_name: self.location_name.clone(),
            country: copy_opt_string(&self.country),
            latitude: self.latitude,
            longitude: self.longitude,
            event_date: self.event_date,
            image_url: copy_opt_string(&self.image_url),
            video_url: copy_opt_string(&self.video_url),
            event_link: copy_opt_string(&self.event_link),
            status: self.status,
            status_str: self.status_str.clone(),
            created_at: self.created_at,
        }
    }

    /// The event with `status` read from the stored `status_str`.
    pub open spec fn parsed(self) -> Event {
        Event { status: parse_status(self.status_str@), ..self }
    }

    /// Sets `status` from the stored value, as after loading a row.
    pub fn with_parsed_status(self) -> (r: Event)
        ensures
            r == self.parsed(),
    {
        let mut e = self;
        e.status = EventStatus::from(e.status_str.clone());
        e
    }
}

impl Organizer {
    /// A field-for-field copy.
    pub fn copy(&self) -> (r: Organizer)
        ensures
            r == *self,
    {
        Organizer {
            id: self.id,
            name: self.name.clone(),
            slug: self.slug.clone(),
            description: copy_opt_string(&self.description),
            website: copy_opt_string(&self.website),
            created_at: self.created_at,
        }
    }
}

impl VideoSuggestion {
    /// A field-for-field copy.
    pub fn copy(&self) -> (r: VideoSuggestion)
        ensures
            r == *self,
    {
        VideoSuggestion {
            id: self.id,
            event_id: self.event_id,
            video_url: self.video_url.clone(),
            status: self.status.clone(),
            created_at: self.created_at,
            event_title: self.event_title.clone(),
        }
    }
}

impl EventsResponse {
    pub fn new(events: Vec<Event>) -> (r: EventsResponse)
        ensures
            r.events == events,
            r.total == events@.len(),
    {
        let total = events.len();
        EventsResponse { events, total }
    }
}

impl OrganizersResponse {
    pub fn new(organizers: Vec<Organizer>) -> (r: OrganizersResponse)
        ensures
            r.organizers == organizers,
            r.total == organizers@.len(),
    {
        let total = organizers.len();
        OrganizersResponse { organizers, total }
    }
}

impl SuggestionsResponse {
    pub fn new(suggestions: Vec<VideoSuggestion>) -> (r: SuggestionsResponse)
        ensures
            r.suggestions == suggestions,
            r.total == suggestions@.len(),
    {
        let total = suggestions.len();
        SuggestionsResponse { suggestions, total }
    }
}

} // verus!
