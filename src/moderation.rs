use vstd::prelude::*;

use crate::catalog::{find_event, first_event, has_event, Catalog};
use crate::error::CatalogError;
use crate::model::{CreateEventRequest, Event, UpdateEventRequest};
use crate::patch::{change_rows, nullable, rows_changed, RowChange};
use crate::status::EventStatus;

verus! {

/// The largest event id in the table, or 0 when none is larger.
pub open spec fn max_event_id(events: Seq<Event>) -> int
    decreases events.len(),
{
    if events.len() == 0 {
        0
    } else {
        let m = max_event_id(events.drop_last());
        if events.last().id > m {
            events.last().id as int
        } else {
            m
        }
    }
}

fn largest_event_id(events: &Vec<Event>) -> (r: i64)
    ensures
        r == max_event_id(events@),
{
    let mut m: i64 = 0;
    let mut i: usize = 0;
    while i < events.len()
        invariant
            i <= events@.len(),
            m == max_event_id(events@.take(i as int)),
        decreases events@.len() - i,
    {
        assert(events@.take(i + 1).drop_last() == events@.take(i as int));
        if events[i].id > m {
            m = events[i].id;
        }
        i = i + 1;
    }
    assert(events@.take(events@.len() as int) == events@);
    m
}

fn nullable_link(v: Option<String>) -> (r: Option<String>)
    ensures
        r == (match v {
            Some(s) => nullable(s),
            None => None,
        }),
{
    match v {
        Some(s) => if s.as_str().unicode_len() == 0 {
            None
        } else {
            Some(s)
        },
        None => None,
    }
}

impl CreateEventRequest {
    /// `e` is the row stored for this submission: pending whatever the
    /// client asked for, with no organizer reference, an empty link stored as
    /// absent.
    pub open spec fn stored_as(self, id: i64, now: i64, e: Event) -> bool {
        &&& e.id == id
        &&& e.title == self.title
        &&& e.description == self.description
        &&& e.organizer == self.organizer
        &&& e.organizer_id is None
        &&& e.location_name == self.location_name
        &&& e.country == self.country
        &&& e.latitude == self.latitude
        &&& e.longitude == self.longitude
        &&& e.event_date == self.event_date
        &&& e.image_url == (match self.image_url {
            Some(s) => nullable(s),
            None => None,
        })
        &&& e.video_url == (match self.video_url {
            Some(s) => nullable(s),
            None => None,
        })
        &&& e.event_link == (match self.event_link {
            Some(s) => nullable(s),
            None => None,
        })
        &&& e.status == EventStatus::Pending
        &&& e.status_str@ == "pending"@
        &&& e.created_at == now
    }
}

impl Catalog {
    pub open spec fn events_only_changed(self, other: Catalog) -> bool {
        &&& other.organizers == self.organizers
        &&& other.suggestions == self.suggestions
    }

    /// Stores a public submission as a pending event with the next id,
    /// created at `now`.
    pub fn create_event(&mut self, req: CreateEventRequest, now: i64) -> (r: Result<
        Event,
        CatalogError,
    >)
        ensures
            r is Ok <==> req.valid() && max_event_id(old(self).events@) < i64::MAX,
            r == Err::<Event, CatalogError>(CatalogError::Validation) <==> !req.valid(),
            r == Err::<Event, CatalogError>(CatalogError::Store) <==> req.valid()
                && max_event_id(old(self).events@) == i64::MAX,
            r is Err ==> *final(self) == *old(self),
            r matches Ok(e) ==> {
                &&& req.stored_as((max_event_id(old(self).events@) + 1) as i64, now, e)
                &&& final(self).events@ == old(self).events@.push(e)
                &&& old(self).events_only_changed(*final(self))
            },
    {
        if req.validate().is_err() {
            return Err(CatalogError::Validation);
        }
        let top = largest_event_id(&self.events);
        if top == i64::MAX {
            return Err(CatalogError::Store);
        }
        let e = Event {
            id: top + 1,
            title: req.title,
            description: req.description,
            organizer: req.organizer,
            organizer_id: None,
            location_name: req.location_name,
            country: req.country,
            latitude: req.latitude,
            longitude: req.longitude,
            event_date: req.event_date,
            image_url: nullable_link(req.image_url),
            video_url: nullable_link(req.video_url),
            event_link: nullable_link(req.event_link),
            status: EventStatus::Pending,
            status_str: EventStatus::Pending.to_string(),
            created_at: now,
        };
        self.events.push(e.copy());
        Ok(e)
    }

    /// Applies a change to every row with the id and returns the first of
    /// them, or fails with `NotFound` and changes nothing.
    fn change_event(&mut self, id: i64, c: &RowChange) -> (r: Result<Event, CatalogError>)
        ensures
            r is Err <==> !has_event(old(self).events@, id),
            r is Err ==> r == Err::<Event, CatalogError>(CatalogError::NotFound) && *final(self)
                == *old(self),
            r matches Ok(e) ==> {
                &&& rows_changed(old(self).events@, final(self).events@, id, *c)
                &&& old(self).events_only_changed(*final(self))
                &&& exists|k: int|
                    first_event(old(self).events@, id, k) && e == #[trigger] final(self).events@[k]
            },
    {
        match find_event(&self.events, id) {
            None => Err(CatalogError::NotFound),
            Some(k) => {
                change_rows(&mut self.events, id, c);
                Ok(self.events[k].copy())
            },
        }
    }

    /// An administrator's partial update of the event with the id. The
    /// patch is checked before anything is touched; a patch that touches
    /// no field is refused.
    pub fn update_event(&mut self, id: i64, patch: UpdateEventRequest) -> (r: Result<
        Event,
        CatalogError,
    >)
        ensures
            r is Ok <==> patch.valid() && !patch.is_empty() && has_event(old(self).events@, id),
            r == Err::<Event, CatalogError>(CatalogError::Validation) <==> !(patch.valid()
                && !patch.is_empty()),
            r == Err::<Event, CatalogError>(CatalogError::NotFound) <==> patch.valid()
                && !patch.is_empty() && !has_event(old(self).events@, id),
            r is Err ==> *final(self) == *old(self),
            r matches Ok(e) ==> {
                &&& rows_changed(old(self).events@, final(self).events@, id, RowChange::Patch(patch))
                &&& old(self).events_only_changed(*final(self))
                &&& exists|k: int|
                    first_event(old(self).events@, id, k) && e == #[trigger] final(self).events@[k]
            },
    {
        if patch.validate().is_err() {
            return Err(CatalogError::Validation);
        }
        self.change_event(id, &RowChange::Patch(patch))
    }

    /// Sets the event's status to `approved`, whatever it was.
    pub fn approve_event(&mut self, id: i64) -> (r: Result<Event, CatalogError>)
        ensures
            r is Err <==> !has_event(old(self).events@, id),
            r is Err ==> r == Err::<Event, CatalogError>(CatalogError::NotFound) && *final(self)
                == *old(self),
            r matches Ok(e) ==> {
                &&& rows_changed(
                    old(self).events@,
                    final(self).events@,
                    id,
                    RowChange::Status(EventStatus::Approved),
                )
                &&& old(self).events_only_changed(*final(self))
                &&& e.id == id && e.status == EventStatus::Approved && e.status_str@ == "approved"@
                &&& exists|k: int|
                    first_event(old(self).events@, id, k) && e == #[trigger] final(self).events@[k]
            },
    {
        self.change_event(id, &RowChange::Status(EventStatus::Approved))
    }

    /// Sets the event's status to `rejected`, whatever it was.
    pub fn reject_event(&mut self, id: i64) -> (r: Result<Event, CatalogError>)
        ensures
            r is Err <==> !has_event(old(self).events@, id),
            r is Err ==> r == Err::<Event, CatalogError>(CatalogError::NotFound) && *final(self)
                == *old(self),
            r matches Ok(e) ==> {
                &&& rows_changed(
                    old(self).events@,
                    final(self).events@,
                    id,
                    RowChange::Status(EventStatus::Rejected),
                )
                &&& old(self).events_only_changed(*final(self))
                &&& e.id == id && e.status == EventStatus::Rejected && e.status_str@ == "rejected"@
                &&& exists|k: int|
                    first_event(old(self).events@, id, k) && e == #[trigger] final(self).events@[k]
            },
    {
        self.change_event(id, &RowChange::Status(EventStatus::Rejected))
    }

    /// Removes every row with the id.
    pub fn delete_event(&mut self, id: i64) -> (r: Result<(), CatalogError>)
        ensures
            r is Err <==> !has_event(old(self).events@, id),
            r is Err ==> r == Err::<(), CatalogError>(CatalogError::NotFound) && *final(self)
                == *old(self),
            r is Ok ==> {
                &&& final(self).events@ == old(self).events@.filter(|e: Event| e.id != id)
                &&& old(self).events_only_changed(*final(self))
            },
    {
        if find_event(&self.events, id).is_none() {
            return Err(CatalogError::NotFound);
        }
        let ghost before = self.events@;
        let mut kept: Vec<Event> = Vec::new();
        let mut i: usize = 0;
        while i < self.events.len()
            invariant
                before == self.events@,
                i <= before.len(),
                kept@ == before.take(i as int).filter(|e: Event| e.id != id),
            decreases before.len() - i,
        {
            proof {
                assert(before.take(i + 1) == before.take(i as int).push(before[i as int]));
                before.take(i as int).lemma_filter_push(before[i as int], |e: Event| e.id != id);
            }
            if self.events[i].id != id {
                kept.push(self.events[i].copy());
            }
            i = i + 1;
        }
        assert(before.take(before.len() as int) == before);
        self.events = kept;
        Ok(())
    }
}

} // verus!
