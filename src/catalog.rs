use vstd::prelude::*;

use crate::error::CatalogError;
use crate::model::{Event, Organizer, VideoSuggestion};
use crate::names::{by_name, sort_by_name};
use crate::query::{select_events, selected, EventFilter, EventOrder};
use crate::status::str_equal;

verus! {

broadcast use vstd::seq_lib::group_to_multiset_ensures;

/// A request-scoped snapshot of the store's three tables, on which every
/// operation of the catalog runs. Writes change the snapshot and return the
/// rows to be written back.
#[derive(Debug)]
pub struct Catalog {
    pub organizers: Vec<Organizer>,
    pub events: Vec<Event>,
    pub suggestions: Vec<VideoSuggestion>,
}

pub open spec fn has_event(events: Seq<Event>, id: i64) -> bool {
    exists|k: int| 0 <= k < events.len() && (#[trigger] events[k]).id == id
}

/// `k` is the first row with the id.
pub open spec fn first_event(events: Seq<Event>, id: i64, k: int) -> bool {
    &&& 0 <= k < events.len()
    &&& events[k].id == id
    &&& forall|j: int| 0 <= j < k ==> (#[trigger] events[j]).id != id
}

pub open spec fn has_slug(organizers: Seq<Organizer>, slug: Seq<char>) -> bool {
    exists|k: int| 0 <= k < organizers.len() && (#[trigger] organizers[k]).slug@ == slug
}

/// `k` is the first organizer with the slug.
pub open spec fn first_slug(organizers: Seq<Organizer>, slug: Seq<char>, k: int) -> bool {
    &&& 0 <= k < organizers.len()
    &&& organizers[k].slug@ == slug
    &&& forall|j: int| 0 <= j < k ==> (#[trigger] organizers[j]).slug@ != slug
}

pub fn find_event(events: &Vec<Event>, id: i64) -> (r: Option<usize>)
    ensures
        match r {
            Some(k) => first_event(events@, id, k as int),
            None => !has_event(events@, id),
        },
{
    let mut k: usize = 0;
    while k < events.len()
        invariant
            k <= events@.len(),
            forall|j: int| 0 <= j < k ==> (#[trigger] events@[j]).id != id,
        decreases events@.len() - k,
    {
        if events[k].id == id {
            return Some(k);
        }
        k = k + 1;
    }
    None
}

pub fn find_organizer(organizers: &Vec<Organizer>, slug: &str) -> (r: Option<usize>)
    ensures
        match r {
            Some(k) => first_slug(organizers@, slug@, k as int),
            None => !has_slug(organizers@, slug@),
        },
{
    let mut k: usize = 0;
    while k < organizers.len()
        invariant
            k <= organizers@.len(),
            forall|j: int| 0 <= j < k ==> (#[trigger] organizers@[j]).slug@ != slug@,
        decreases organizers@.len() - k,
    {
        if str_equal(organizers[k].slug.as_str(), slug) {
            return Some(k);
        }
        k = k + 1;
    }
    None
}

/// Every row of a selection satisfies its filter.
pub proof fn lemma_selection_matches(events: Seq<Event>, filter: EventFilter, r: Seq<Event>)
    requires
        r.to_multiset() == selected(events, filter).to_multiset(),
    ensures
        forall|i: int| 0 <= i < r.len() ==> filter.matches(#[trigger] r[i]),
{
    assert forall|i: int| 0 <= i < r.len() implies filter.matches(#[trigger] r[i]) by {
        assert(r.contains(r[i]));
        assert(r.to_multiset().count(r[i]) > 0);
        assert(selected(events, filter).to_multiset().count(r[i]) > 0);
        assert(selected(events, filter).contains(r[i]));
        let idx = choose|idx: int|
            0 <= idx < selected(events, filter).len() && selected(events, filter)[idx] == r[i];
        events.lemma_filter_pred(|e: Event| filter.matches(e), idx);
    }
}

impl Catalog {
    /// The rows a read returns: those the filter selects, each exactly as
    /// often as in the table, in the given order.
    pub open spec fn read(self, r: Seq<Event>, filter: EventFilter, order: EventOrder) -> bool {
        &&& order.sorted(r)
        &&& r.to_multiset() == selected(self.events@, filter).to_multiset()
    }

    fn select(&self, filter: EventFilter, order: EventOrder) -> (r: Vec<Event>)
        ensures
            self.read(r@, filter, order),
            forall|i: int| 0 <= i < r@.len() ==> filter.matches(#[trigger] r@[i]),
    {
        let r = select_events(&self.events, filter, order);
        proof {
            lemma_selection_matches(self.events@, filter, r@);
        }
        r
    }

    /// Approved events, earliest first.
    pub fn list_approved(&self) -> (r: Vec<Event>)
        ensures
            self.read(r@, EventFilter::Approved, EventOrder::DateAscending),
            forall|i: int| 0 <= i < r@.len() ==> (#[trigger] r@[i]).status_str@ == "approved"@,
    {
        self.select(EventFilter::Approved, EventOrder::DateAscending)
    }

    /// Approved events dated after `now`, earliest first.
    pub fn list_upcoming(&self, now: i64) -> (r: Vec<Event>)
        ensures
            self.read(r@, EventFilter::ApprovedAfter(now), EventOrder::DateAscending),
            forall|i: int|
                0 <= i < r@.len() ==> (#[trigger] r@[i]).status_str@ == "approved"@
                    && r@[i].event_date > now,
    {
        self.select(EventFilter::ApprovedAfter(now), EventOrder::DateAscending)
    }

    /// Approved events dated at or before `now`, most recent first.
    pub fn list_past(&self, now: i64) -> (r: Vec<Event>)
        ensures
            self.read(r@, EventFilter::ApprovedUpTo(now), EventOrder::DateDescending),
            forall|i: int|
                0 <= i < r@.len() ==> (#[trigger] r@[i]).status_str@ == "approved"@
                    && r@[i].event_date <= now,
    {
        self.select(EventFilter::ApprovedUpTo(now), EventOrder::DateDescending)
    }

    /// Every event, latest date first (admin).
    pub fn list_all(&self) -> (r: Vec<Event>)
        ensures
            self.read(r@, EventFilter::All, EventOrder::DateDescending),
    {
        self.select(EventFilter::All, EventOrder::DateDescending)
    }

    /// Pending events, most recently created first (admin).
    pub fn list_pending(&self) -> (r: Vec<Event>)
        ensures
            self.read(r@, EventFilter::Pending, EventOrder::CreatedDescending),
            forall|i: int| 0 <= i < r@.len() ==> (#[trigger] r@[i]).status_str@ == "pending"@,
    {
        self.select(EventFilter::Pending, EventOrder::CreatedDescending)
    }

    /// Approved events of the organizer with the slug, most recent first.
    pub fn list_by_organizer_slug(&self, slug: &str) -> (r: Result<Vec<Event>, CatalogError>)
        ensures
            r is Err <==> !has_slug(self.organizers@, slug@),
            r is Err ==> r == Err::<Vec<Event>, CatalogError>(CatalogError::NotFound),
            r matches Ok(v) ==> exists|k: int|
                first_slug(self.organizers@, slug@, k) && self.read(
                    v@,
                    EventFilter::ApprovedForOrganizer(#[trigger] self.organizers@[k].id),
                    EventOrder::DateDescending,
                ),
    {
        match find_organizer(&self.organizers, slug) {
            None => Err(CatalogError::NotFound),
            Some(k) => {
                let id = self.organizers[k].id;
                Ok(self.select(EventFilter::ApprovedForOrganizer(id), EventOrder::DateDescending))
            },
        }
    }

    /// Every organizer, ordered by name.
    pub fn list_organizers(&self) -> (r: Vec<Organizer>)
        ensures
            by_name(r@),
            r@.to_multiset() == self.organizers@.to_multiset(),
    {
        sort_by_name(&self.organizers)
    }

    /// The event with the id.
    pub fn get_by_id(&self, id: i64) -> (r: Result<Event, CatalogError>)
        ensures
            r is Err <==> !has_event(self.events@, id),
            r is Err ==> r == Err::<Event, CatalogError>(CatalogError::NotFound),
            r matches Ok(e) ==> exists|k: int|
                first_event(self.events@, id, k) && e == #[trigger] self.events@[k],
    {
        match find_event(&self.events, id) {
            None => Err(CatalogError::NotFound),
            Some(k) => Ok(self.events[k].copy()),
        }
    }

    /// The organizer with the slug.
    pub fn get_organizer(&self, slug: &str) -> (r: Result<Organizer, CatalogError>)
        ensures
            r is Err <==> !has_slug(self.organizers@, slug@),
            r is Err ==> r == Err::<Organizer, CatalogError>(CatalogError::NotFound),
            r matches Ok(o) ==> exists|k: int|
                first_slug(self.organizers@, slug@, k) && o == #[trigger] self.organizers@[k],
    {
        match find_organizer(&self.organizers, slug) {
            None => Err(CatalogError::NotFound),
            Some(k) => Ok(self.organizers[k].copy()),
        }
    }
}

} // verus!
