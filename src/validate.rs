use vstd::prelude::*;

use crate::error::CatalogError;
use crate::model::{CreateEventRequest, CreateSuggestionRequest, Event, UpdateEventRequest};

verus! {

/// Largest absolute latitude, in units of 1e-7 degrees.
pub const LATITUDE_LIMIT: i64 = 900_000_000;

/// Largest absolute longitude, in units of 1e-7 degrees.
pub const LONGITUDE_LIMIT: i64 = 1_800_000_000;

/// Whether `url::Url::parse` accepts a string.
pub uninterp spec fn is_url(s: Seq<char>) -> bool;

/// Relies on `validator::ValidateUrl::validate_url` for `str`, which is
/// `url::Url::parse(s).is_ok()`.
#[verifier::external_body]
fn url_is_valid(s: &str) -> (r: bool)
    ensures
        r == is_url(s@),
{
    validator::ValidateUrl::validate_url(s)
}

pub open spec fn title_ok(s: Seq<char>) -> bool {
    s.len() >= 3
}

pub open spec fn text_ok(s: Seq<char>) -> bool {
    s.len() >= 1
}

pub open spec fn latitude_ok(v: i64) -> bool {
    -LATITUDE_LIMIT <= v <= LATITUDE_LIMIT
}

pub open spec fn longitude_ok(v: i64) -> bool {
    -LONGITUDE_LIMIT <= v <= LONGITUDE_LIMIT
}

/// A link is acceptable when it is empty or a well-formed URL.
pub open spec fn link_ok(s: Seq<char>) -> bool {
    s.len() == 0 || is_url(s)
}

pub open spec fn opt_link_ok(o: Option<String>) -> bool {
    match o {
        Some(s) => link_ok(s@),
        None => true,
    }
}

/// The values that a status column may hold.
pub open spec fn status_name_ok(s: Seq<char>) -> bool {
    s == "pending"@ || s == "approved"@ || s == "rejected"@
}

pub open spec fn result_of(ok: bool) -> Result<(), CatalogError> {
    if ok {
        Ok(())
    } else {
        Err(CatalogError::Validation)
    }
}

pub fn link_is_valid(s: &str) -> (r: bool)
    ensures
        r == link_ok(s@),
{
    s.unicode_len() == 0 || url_is_valid(s)
}

fn opt_link_is_valid(o: &Option<String>) -> (r: bool)
    ensures
        r == opt_link_ok(*o),
{
    match o {
        Some(s) => link_is_valid(s.as_str()),
        None => true,
    }
}

fn status_name_is_valid(s: &str) -> (r: bool)
    ensures
        r == status_name_ok(s@),
{
    crate::status::str_equal(s, "pending") || crate::status::str_equal(s, "approved")
        || crate::status::str_equal(s, "rejected")
}

/// A stored link is either absent or a well-formed URL.
pub open spec fn stored_link_ok(o: Option<String>) -> bool {
    match o {
        Some(s) => is_url(s@),
        None => true,
    }
}

impl Event {
    /// The invariant of a stored event: a title of three characters or
    /// more, a non-empty organizer and place, coordinates within range,
    /// links that are well-formed when present, and a known status.
    pub open spec fn well_formed(self) -> bool {
        &&& title_ok(self.title@)
        &&& text_ok(self.organizer@)
        &&& text_ok(self.location_name@)
        &&& latitude_ok(self.latitude)
        &&& longitude_ok(self.longitude)
        &&& stored_link_ok(self.image_url)
        &&& stored_link_ok(self.video_url)
        &&& stored_link_ok(self.event_link)
        &&& status_name_ok(self.status_str@)
    }
}

impl CreateEventRequest {
    /// Every field meets its rule.
    pub open spec fn valid(self) -> bool {
        &&& title_ok(self.title@)
        &&& text_ok(self.organizer@)
        &&& text_ok(self.location_name@)
        &&& latitude_ok(self.latitude)
        &&& longitude_ok(self.longitude)
        &&& opt_link_ok(self.image_url)
        &&& opt_link_ok(self.video_url)
        &&& opt_link_ok(self.event_link)
    }

    pub fn validate(&self) -> (r: Result<(), CatalogError>)
        ensures
            r == result_of(self.valid()),
    {
        let ok = self.title.as_str().unicode_len() >= 3
            && self.organizer.as_str().unicode_len() >= 1
            && self.location_name.as_str().unicode_len() >= 1
            && -LATITUDE_LIMIT <= self.latitude && self.latitude <= LATITUDE_LIMIT
            && -LONGITUDE_LIMIT <= self.longitude && self.longitude <= LONGITUDE_LIMIT
            && opt_link_is_valid(&self.image_url) && opt_link_is_valid(&self.video_url)
            && opt_link_is_valid(&self.event_link);
        if ok {
            Ok(())
        } else {
            Err(CatalogError::Validation)
        }
    }
}

impl UpdateEventRequest {
    /// The patch touches no field at all.
    pub open spec fn is_empty(self) -> bool {
        &&& self.title is None
        &&& self.description is None
        &&& self.organizer is None
        &&& self.location_name is None
        &&& self.country is None
        &&& self.latitude is None
        &&& self.longitude is None
        &&& self.event_date is None
        &&& self.image_url is None
        &&& self.video_url is None
        &&& self.event_link is None
        &&& self.status is None
    }

    /// Every touched field meets its rule.
    pub open spec fn valid(self) -> bool {
        &&& (self.title matches Some(t) ==> title_ok(t@))
        &&& (self.organizer matches Some(t) ==> text_ok(t@))
        &&& (self.location_name matches Some(t) ==> text_ok(t@))
        &&& (self.latitude matches Some(v) ==> latitude_ok(v))
        &&& (self.longitude matches Some(v) ==> longitude_ok(v))
        &&& opt_link_ok(self.image_url)
        &&& opt_link_ok(self.video_url)
        &&& opt_link_ok(self.event_link)
        &&& (self.status matches Some(s) ==> status_name_ok(s@))
    }

    /// Whether the patch touches any field.
    pub fn has_changes(&self) -> (r: bool)
        ensures
            r == !self.is_empty(),
    {
        self.title.is_some() || self.description.is_some() || self.organizer.is_some()
            || self.location_name.is_some() || self.country.is_some() || self.latitude.is_some()
            || self.longitude.is_some() || self.event_date.is_some() || self.image_url.is_some()
            || self.video_url.is_some() || self.event_link.is_some() || self.status.is_some()
    }

    /// Fails unless every touched field is valid and at least one is touched.
    pub fn validate(&self) -> (r: Result<(), CatalogError>)
        ensures
            r == result_of(self.valid() && !self.is_empty()),
    {
        let title_good = match &self.title {
            Some(t) => t.as_str().unicode_len() >= 3,
            None => true,
        };
        let organizer_good = match &self.organizer {
            Some(t) => t.as_str().unicode_len() >= 1,
            None => true,
        };
        let location_good = match &self.location_name {
            Some(t) => t.as_str().unicode_len() >= 1,
            None => true,
        };
        let latitude_good = match self.latitude {
            Some(v) => -LATITUDE_LIMIT <= v && v <= LATITUDE_LIMIT,
            None => true,
        };
        let longitude_good = match self.longitude {
            Some(v) => -LONGITUDE_LIMIT <= v && v <= LONGITUDE_LIMIT,
            None => true,
        };
        let status_good = match &self.status {
            Some(s) => status_name_is_valid(s.as_str()),
            None => true,
        };
        let ok = title_good && organizer_good && location_good && latitude_good
            && longitude_good && opt_link_is_valid(&self.image_url) && opt_link_is_valid(
            &self.video_url,
        ) && opt_link_is_valid(&self.event_link) && status_good && self.has_changes();
        if ok {
            Ok(())
        } else {
            Err(CatalogError::Validation)
        }
    }
}

impl CreateSuggestionRequest {
    /// The video link is required and must be a well-formed URL.
    pub open spec fn valid(self) -> bool {
        is_url(self.video_url@)
    }

    pub fn validate(&self) -> (r: Result<(), CatalogError>)
        ensures
            r == result_of(self.valid()),
    {
        if url_is_valid(self.video_url.as_str()) {
            Ok(())
        } else {
            Err(CatalogError::Validation)
        }
    }
}

} // verus!
