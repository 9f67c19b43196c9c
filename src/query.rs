use vstd::prelude::*;

use crate::model::Event;
use crate::status::str_equal;

verus! {

broadcast use vstd::seq_lib::group_to_multiset_ensures;

/// The rows a read selects, by stored status, date and organizer.
#[derive(Debug, Clone, Copy, PartialEq, Eq, Structural)]
pub enum EventFilter {
    /// Stored status `approved`.
    Approved,
    /// Stored status `approved`, dated strictly after the instant.
    ApprovedAfter(i64),
    /// Stored status `approved`, dated at or before the instant.
    ApprovedUpTo(i64),
    /// Stored status `approved`, belonging to the organizer id.
    ApprovedForOrganizer(i64),
    /// Stored status `pending`.
    Pending,
    /// Every row.
    All,
}

/// The order in which a read returns its rows. Rows with equal keys may come
/// in any order.
#[derive(Debug, Clone, Copy, PartialEq, Eq, Structural)]
pub enum EventOrder {
    DateAscending,
    DateDescending,
    CreatedDescending,
}

impl EventFilter {
    pub open spec fn matches(self, e: Event) -> bool {
        match self {
            EventFilter::Approved => e.status_str@ == "approved"@,
            EventFilter::ApprovedAfter(now) => e.status_str@ == "approved"@ && e.event_date > now,
            EventFilter::ApprovedUpTo(now) => e.status_str@ == "approved"@ && e.event_date <= now,
            EventFilter::ApprovedForOrganizer(id) => e.status_str@ == "approved"@
                && e.organizer_id == Some(id),
            EventFilter::Pending => e.status_str@ == "pending"@,
            EventFilter::All => true,
        }
    }

    pub fn test(&self, e: &Event) -> (r: bool)
        ensures
            r == self.matches(*e),
    {
        match self {
            EventFilter::Approved => str_equal(e.status_str.as_str(), "approved"),
            EventFilter::ApprovedAfter(now) => str_equal(e.status_str.as_str(), "approved")
                && e.event_date > *now,
            EventFilter::ApprovedUpTo(now) => str_equal(e.status_str.as_str(), "approved")
                && e.event_date <= *now,
            EventFilter::ApprovedForOrganizer(id) => str_equal(e.status_str.as_str(), "approved")
                && e.organizer_id == Some(*id),
            EventFilter::Pending => str_equal(e.status_str.as_str(), "pending"),
            EventFilter::All => true,
        }
    }
}

impl EventOrder {
    /// Whether `a` may come before `b`.
    pub open spec fn precedes(self, a: Event, b: Event) -> bool {
        match self {
            EventOrder::DateAscending => a.event_date <= b.event_date,
            EventOrder::DateDescending => a.event_date >= b.event_date,
            EventOrder::CreatedDescending => a.created_at >= b.created_at,
        }
    }

    pub open spec fn sorted(self, s: Seq<Event>) -> bool {
        forall|i: int, j: int| 0 <= i < j < s.len() ==> self.precedes(#[trigger] s[i], #[trigger] s[j])
    }

    fn may_precede(&self, a: &Event, b: &Event) -> (r: bool)
        ensures
            r == self.precedes(*a, *b),
    {
        match self {
            EventOrder::DateAscending => a.event_date <= b.event_date,
            EventOrder::DateDescending => a.event_date >= b.event_date,
            EventOrder::CreatedDescending => a.created_at >= b.created_at,
        }
    }
}

/// The rows that a filter selects, in table order.
pub open spec fn selected(events: Seq<Event>, filter: EventFilter) -> Seq<Event> {
    events.filter(|e: Event| filter.matches(e))
}

/// Inserts `e` into a sorted vector after every row that may precede it.
fn insert_sorted(r: &mut Vec<Event>, e: Event, order: EventOrder)
    requires
        order.sorted(old(r)@),
    ensures
        order.sorted(final(r)@),
        final(r)@.to_multiset() == old(r)@.to_multiset().insert(e),
{
    let mut k: usize = 0;
    while k < r.len() && order.may_precede(&r[k], &e)
        invariant
            k <= r@.len(),
            order.sorted(r@),
            forall|j: int| 0 <= j < k ==> order.precedes(#[trigger] r@[j], e),
        decreases r@.len() - k,
    {
        k = k + 1;
    }
    proof {
        if k < r@.len() {
            assert(!order.precedes(r@[k as int], e));
            assert forall|j: int| k <= j < r@.len() implies order.precedes(e, #[trigger] r@[j]) by {
                if j > k {
                    assert(order.precedes(r@[k as int], r@[j]));
                }
            }
        }
    }
    let ghost before = r@;
    r.insert(k, e);
    proof {
        assert(r@ == before.insert(k as int, e));
        assert forall|i: int, j: int| 0 <= i < j < r@.len() implies order.precedes(
            #[trigger] r@[i],
            #[trigger] r@[j],
        ) by {
            if j < k {
                assert(order.precedes(before[i], before[j]));
            } else if i > k {
                assert(order.precedes(before[i - 1], before[j - 1]));
            } else if i < k && j > k {
                assert(order.precedes(before[i], e));
                assert(order.precedes(e, before[j - 1]));
            }
        }
    }
}

/// The rows that `filter` selects, sorted by `order`.
pub fn select_events(events: &Vec<Event>, filter: EventFilter, order: EventOrder) -> (r: Vec<Event>)
    ensures
        order.sorted(r@),
        r@.to_multiset() == selected(events@, filter).to_multiset(),
{
    let mut r: Vec<Event> = Vec::new();
    let mut i: usize = 0;
    while i < events.len()
        invariant
            i <= events@.len(),
            order.sorted(r@),
            r@.to_multiset() == selected(events@.take(i as int), filter).to_multiset(),
        decreases events@.len() - i,
    {
        let e = &events[i];
        proof {
            assert(events@.take(i + 1) == events@.take(i as int).push(events@[i as int]));
            events@.take(i as int).lemma_filter_push(events@[i as int], |e: Event| filter.matches(e));
        }
        if filter.test(e) {
            insert_sorted(&mut r, e.copy(), order);
        }
        i = i + 1;
    }
    assert(events@.take(events@.len() as int) == events@);
    r
}

} // verus!
