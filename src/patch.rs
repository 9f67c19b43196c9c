use vstd::prelude::*;

use crate::model::{copy_opt_string, Event, UpdateEventRequest};
use crate::status::{status_of, EventStatus};

verus! {

/// A value for a nullable column: the empty string clears it.
pub open spec fn nullable(v: String) -> Option<String> {
    if v@.len() == 0 {
        None
    } else {
        Some(v)
    }
}

/// A change to one event row.
#[derive(Debug)]
pub enum RowChange {
    /// An administrator's partial update.
    Patch(UpdateEventRequest),
    /// A status transition.
    Status(EventStatus),
    /// The video link of an approved suggestion.
    Video(String),
}

impl UpdateEventRequest {
    /// The row after the patch: untouched fields keep their value.
    pub open spec fn applied_to(self, e: Event) -> Event {
        Event {
            id: e.id,
            title: match self.title {
                Some(v) => v,
                None => e.title,
            },
            description: match self.description {
                Some(v) => Some(v),
                None => e.description,
            },
            organizer: match self.organizer {
                Some(v) => v,
                None => e.organizer,
            },
            organizer_id: e.organizer_id,
            location_name: match self.location_name {
                Some(v) => v,
                None => e.location_name,
            },
            country: match self.country {
                Some(v) => nullable(v),
                None => e.country,
            },
            latitude: match self.latitude {
                Some(v) => v,
                None => e.latitude,
            },
            longitude: match self.longitude {
                Some(v) => v,
                None => e.longitude,
            },
            event_date: match self.event_date {
                Some(v) => v,
                None => e.event_date,
            },
            image_url: match self.image_url {
                Some(v) => nullable(v),
                None => e.image_url,
            },
            video_url: match self.video_url {
                Some(v) => nullable(v),
                None => e.video_url,
            },
            event_link: match self.event_link {
                Some(v) => nullable(v),
                None => e.event_link,
            },
            status: match self.status {
                Some(v) => status_of(v@),
                None => e.status,
            },
            status_str: match self.status {
                Some(v) => v,
                None => e.status_str,
            },
            created_at: e.created_at,
        }
    }
}

impl RowChange {
    /// Whether `r` is the row `e` after the change.
    pub open spec fn produces(self, e: Event, r: Event) -> bool {
        match self {
            RowChange::Patch(p) => r == p.applied_to(e),
            RowChange::Status(s) => r == (Event { status: s, status_str: r.status_str, ..e })
                && r.status_str@ == s.name(),
            RowChange::Video(url) => r == (Event { video_url: Some(url), ..e }),
        }
    }
}

fn nullable_of(v: &String) -> (r: Option<String>)
    ensures
        r == nullable(*v),
{
    if v.as_str().unicode_len() == 0 {
        None
    } else {
        Some(v.clone())
    }
}

/// Applies a partial update to a row in place.
pub fn apply_patch(e: &mut Event, p: &UpdateEventRequest)
    ensures
        *final(e) == p.applied_to(*old(e)),
{
    if let Some(v) = &p.title {
        e.title = v.clone();
    }
    if let Some(v) = &p.description {
        e.description = Some(v.clone());
    }
    if let Some(v) = &p.organizer {
        e.organizer = v.clone();
    }
    if let Some(v) = &p.location_name {
        e.location_name = v.clone();
    }
    if let Some(v) = &p.country {
        e.country = nullable_of(v);
    }
    if let Some(v) = p.latitude {
        e.latitude = v;
    }
    if let Some(v) = p.longitude {
        e.longitude = v;
    }
    if let Some(v) = p.event_date {
        e.event_date = v;
    }
    if let Some(v) = &p.image_url {
        e.image_url = nullable_of(v);
    }
    if let Some(v) = &p.video_url {
        e.video_url = nullable_of(v);
    }
    if let Some(v) = &p.event_link {
        e.event_link = nullable_of(v);
    }
    if let Some(v) = &p.status {
        e.status = EventStatus::from_lowered(v.as_str());
        e.status_str = v.clone();
    }
}

impl RowChange {
    /// Applies the change to a row in place.
    pub fn apply(&self, e: &mut Event)
        ensures
            self.produces(*old(e), *final(e)),
    {
        match self {
            RowChange::Patch(p) => apply_patch(e, p),
            RowChange::Status(s) => {
                e.status = *s;
                e.status_str = s.to_string();
            },
            RowChange::Video(url) => {
                e.video_url = Some(url.clone());
            },
        }
    }
}

/// `after` is `before` with every row with the id changed, the others kept.
pub open spec fn rows_changed(before: Seq<Event>, after: Seq<Event>, id: i64, c: RowChange) -> bool {
    &&& after.len() == before.len()
    &&& forall|j: int|
        0 <= j < before.len() ==> if before[j].id == id {
            c.produces(before[j], #[trigger] after[j])
        } else {
            after[j] == before[j]
        }
}

/// Applies a change to every row with the id, as `UPDATE ... WHERE id = ?`.
pub fn change_rows(events: &mut Vec<Event>, id: i64, c: &RowChange)
    ensures
        rows_changed(old(events)@, final(events)@, id, *c),
{
    let ghost before = events@;
    let n = events.len();
    let mut i: usize = 0;
    while i < n
        invariant
            n == before.len(),
            events@.len() == n,
            i <= n,
            forall|j: int|
                0 <= j < i ==> if before[j].id == id {
                    c.produces(before[j], #[trigger] events@[j])
                } else {
                    events@[j] == before[j]
                },
            forall|j: int| i <= j < n ==> #[trigger] events@[j] == before[j],
        decreases n - i,
    {
        if events[i].id == id {
            let mut row = events[i].copy();
            c.apply(&mut row);
            events.set(i, row);
        }
        i = i + 1;
    }
}

} // verus!
