use vstd::prelude::*;

use crate::catalog::{find_event, first_event, has_event, Catalog};
use crate::error::CatalogError;
use crate::model::{CreateSuggestionRequest, Event, VideoSuggestion};
use crate::patch::{change_rows, rows_changed, RowChange};
use crate::status::str_equal;

verus! {

broadcast use vstd::seq_lib::group_to_multiset_ensures;

pub open spec fn has_suggestion(suggestions: Seq<VideoSuggestion>, id: i64) -> bool {
    exists|k: int| 0 <= k < suggestions.len() && (#[trigger] suggestions[k]).id == id
}

/// `k` is the first suggestion with the id.
pub open spec fn first_suggestion(suggestions: Seq<VideoSuggestion>, id: i64, k: int) -> bool {
    &&& 0 <= k < suggestions.len()
    &&& suggestions[k].id == id
    &&& forall|j: int| 0 <= j < k ==> (#[trigger] suggestions[j]).id != id
}

/// The largest suggestion id in the table, or 0 when none is larger.
pub open spec fn max_suggestion_id(suggestions: Seq<VideoSuggestion>) -> int
    decreases suggestions.len(),
{
    if suggestions.len() == 0 {
        0
    } else {
        let m = max_suggestion_id(suggestions.drop_last());
        if suggestions.last().id > m {
            suggestions.last().id as int
        } else {
            m
        }
    }
}

/// `after` is `before` with the status of every suggestion with the id set
/// to `status`, the others kept.
pub open spec fn statuses_set(
    before: Seq<VideoSuggestion>,
    after: Seq<VideoSuggestion>,
    id: i64,
    status: Seq<char>,
) -> bool {
    &&& after.len() == before.len()
    &&& forall|j: int|
        0 <= j < before.len() ==> if before[j].id == id {
            #[trigger] after[j] == (VideoSuggestion { status: after[j].status, ..before[j] })
                && after[j].status@ == status
        } else {
            after[j] == before[j]
        }
}

/// The title shown for a suggestion: that of the first event with its id,
/// or a fixed label when the event is gone.
pub open spec fn title_for(events: Seq<Event>, event_id: i64) -> Seq<char> {
    if has_event(events, event_id) {
        events[choose|k: int| first_event(events, event_id, k)].title@
    } else {
        "Unknown Event"@
    }
}

/// `r` is `s` with each title filled in from the events.
pub open spec fn joined(s: Seq<VideoSuggestion>, events: Seq<Event>, r: Seq<VideoSuggestion>) -> bool {
    &&& r.len() == s.len()
    &&& forall|i: int|
        0 <= i < s.len() ==> #[trigger] r[i] == (VideoSuggestion {
            event_title: r[i].event_title,
            ..s[i]
        }) && r[i].event_title@ == title_for(events, s[i].event_id)
}

pub open spec fn newest_first(s: Seq<VideoSuggestion>) -> bool {
    forall|i: int, j: int| 0 <= i < j < s.len() ==> (#[trigger] s[i]).created_at >= (#[trigger] s[j]).created_at
}

pub open spec fn pending_suggestions(s: Seq<VideoSuggestion>) -> Seq<VideoSuggestion> {
    s.filter(|v: VideoSuggestion| v.status@ == "pending"@)
}

fn find_suggestion(suggestions: &Vec<VideoSuggestion>, id: i64) -> (r: Option<usize>)
    ensures
        match r {
            Some(k) => first_suggestion(suggestions@, id, k as int),
            None => !has_suggestion(suggestions@, id),
        },
{
    let mut k: usize = 0;
    while k < suggestions.len()
        invariant
            k <= suggestions@.len(),
            forall|j: int| 0 <= j < k ==> (#[trigger] suggestions@[j]).id != id,
        decreases suggestions@.len() - k,
    {
        if suggestions[k].id == id {
            return Some(k);
        }
        k = k + 1;
    }
    None
}

fn largest_suggestion_id(suggestions: &Vec<VideoSuggestion>) -> (r: i64)
    ensures
        r == max_suggestion_id(suggestions@),
{
    let mut m: i64 = 0;
    let mut i: usize = 0;
    while i < suggestions.len()
        invariant
            i <= suggestions@.len(),
            m == max_suggestion_id(suggestions@.take(i as int)),
        decreases suggestions@.len() - i,
    {
        assert(suggestions@.take(i + 1).drop_last() == suggestions@.take(i as int));
        if suggestions[i].id > m {
            m = suggestions[i].id;
        }
        i = i + 1;
    }
    assert(suggestions@.take(suggestions@.len() as int) == suggestions@);
    m
}

/// Sets the status of every suggestion with the id.
fn set_statuses(suggestions: &mut Vec<VideoSuggestion>, id: i64, status: &str)
    ensures
        statuses_set(old(suggestions)@, final(suggestions)@, id, status@),
{
    let ghost before = suggestions@;
    let n = suggestions.len();
    let mut i: usize = 0;
    while i < n
        invariant
            n == before.len(),
            suggestions@.len() == n,
            i <= n,
            forall|j: int|
                0 <= j < i ==> if before[j].id == id {
                    #[trigger] suggestions@[j] == (VideoSuggestion {
                        status: suggestions@[j].status,
                        ..before[j]
                    }) && suggestions@[j].status@ == status@
                } else {
                    suggestions@[j] == before[j]
                },
            forall|j: int| i <= j < n ==> #[trigger] suggestions@[j] == before[j],
        decreases n - i,
    {
        if suggestions[i].id == id {
            let mut row = suggestions[i].copy();
            row.status = String::from_str(status);
            suggestions.set(i, row);
        }
        i = i + 1;
    }
}

/// Inserts `v` into a vector ordered newest first, after every row that is
/// at least as new.
fn insert_newest_first(r: &mut Vec<VideoSuggestion>, v: VideoSuggestion)
    requires
        newest_first(old(r)@),
    ensures
        newest_first(final(r)@),
        final(r)@.to_multiset() == old(r)@.to_multiset().insert(v),
{
    let mut k: usize = 0;
    while k < r.len() && r[k].created_at >= v.created_at
        invariant
            k <= r@.len(),
            newest_first(r@),
            forall|j: int| 0 <= j < k ==> (#[trigger] r@[j]).created_at >= v.created_at,
        decreases r@.len() - k,
    {
        k = k + 1;
    }
    let ghost before = r@;
    r.insert(k, v);
    proof {
        assert(r@ == before.insert(k as int, v));
        assert forall|i: int, j: int| 0 <= i < j < r@.len() implies (#[trigger] r@[i]).created_at
            >= (#[trigger] r@[j]).created_at by {
            if j < k {
                assert(before[i].created_at >= before[j].created_at);
            } else if i > k {
                assert(before[i - 1].created_at >= before[j - 1].created_at);
            } else if i < k && j > k {
                assert(before[k as int].created_at < v.created_at);
                assert(before[k as int].created_at >= before[j - 1].created_at);
            } else if i == k && j > k {
                assert(before[k as int].created_at >= before[j - 1].created_at);
            }
        }
    }
}

/// Pending suggestions, newest first, untitled.
fn pending_newest_first(suggestions: &Vec<VideoSuggestion>) -> (r: Vec<VideoSuggestion>)
    ensures
        newest_first(r@),
        r@.to_multiset() == pending_suggestions(suggestions@).to_multiset(),
{
    let mut r: Vec<VideoSuggestion> = Vec::new();
    let mut i: usize = 0;
    while i < suggestions.len()
        invariant
            i <= suggestions@.len(),
            newest_first(r@),
            r@.to_multiset() == pending_suggestions(suggestions@.take(i as int)).to_multiset(),
        decreases suggestions@.len() - i,
    {
        proof {
            assert(suggestions@.take(i + 1) == suggestions@.take(i as int).push(suggestions@[i as int]));
            suggestions@.take(i as int).lemma_filter_push(
                suggestions@[i as int],
                |v: VideoSuggestion| v.status@ == "pending"@,
            );
        }
        if str_equal(suggestions[i].status.as_str(), "pending") {
            insert_newest_first(&mut r, suggestions[i].copy());
        }
        i = i + 1;
    }
    assert(suggestions@.take(suggestions@.len() as int) == suggestions@);
    r
}

impl CreateSuggestionRequest {
    /// `v` is the row stored for this submission. The event is not looked up:
    /// a suggestion may outlive its event.
    pub open spec fn stored_as(self, id: i64, now: i64, v: VideoSuggestion) -> bool {
        &&& v.id == id
        &&& v.event_id == self.event_id
        &&& v.video_url == self.video_url
        &&& v.status@ == "pending"@
        &&& v.created_at == now
        &&& v.event_title@.len() == 0
    }
}

impl Catalog {
    /// Stores a public video suggestion as pending, with the next id.
    pub fn create_suggestion(&mut self, req: CreateSuggestionRequest, now: i64) -> (r: Result<
        VideoSuggestion,
        CatalogError,
    >)
        ensures
            r is Ok <==> req.valid() && max_suggestion_id(old(self).suggestions@) < i64::MAX,
            r == Err::<VideoSuggestion, CatalogError>(CatalogError::Validation) <==> !req.valid(),
            r == Err::<VideoSuggestion, CatalogError>(CatalogError::Store) <==> req.valid()
                && max_suggestion_id(old(self).suggestions@) == i64::MAX,
            r is Err ==> *final(self) == *old(self),
            r matches Ok(v) ==> {
                &&& req.stored_as((max_suggestion_id(old(self).suggestions@) + 1) as i64, now, v)
                &&& final(self).suggestions@ == old(self).suggestions@.push(v)
                &&& final(self).organizers == old(self).organizers
                &&& final(self).events == old(self).events
            },
    {
        if req.validate().is_err() {
            return Err(CatalogError::Validation);
        }
        let top = largest_suggestion_id(&self.suggestions);
        if top == i64::MAX {
            return Err(CatalogError::Store);
        }
        let v = VideoSuggestion {
            id: top + 1,
            event_id: req.event_id,
            video_url: req.video_url,
            status: String::from_str("pending"),
            created_at: now,
            event_title: String::new(),
        };
        self.suggestions.push(v.copy());
        Ok(v)
    }

    /// Pending suggestions, newest first, each titled with its event's title
    /// (admin).
    pub fn list_suggestions(&self) -> (r: Vec<VideoSuggestion>)
        ensures
            exists|s: Seq<VideoSuggestion>|
                {
                    &&& newest_first(s)
                    &&& s.to_multiset() == pending_suggestions(self.suggestions@).to_multiset()
                    &&& #[trigger] joined(s, self.events@, r@)
                },
    {
        let mut r = pending_newest_first(&self.suggestions);
        let ghost s = r@;
        let n = r.len();
        let mut i: usize = 0;
        while i < n
            invariant
                n == s.len(),
                r@.len() == n,
                i <= n,
                forall|j: int|
                    0 <= j < i ==> #[trigger] r@[j] == (VideoSuggestion {
                        event_title: r@[j].event_title,
                        ..s[j]
                    }) && r@[j].event_title@ == title_for(self.events@, s[j].event_id),
                forall|j: int| i <= j < n ==> #[trigger] r@[j] == s[j],
            decreases n - i,
        {
            let mut row = r[i].copy();
            row.event_title = match find_event(&self.events, row.event_id) {
                Some(k) => {
                    proof {
                        assert(first_event(self.events@, row.event_id, k as int));
                        let c = choose|c: int| first_event(self.events@, row.event_id, c);
                        assert(c == k as int) by {
                            if c < k as int {
                                assert(self.events@[c].id != row.event_id);
                            } else if c > k as int {
                                assert(self.events@[k as int].id != row.event_id);
                            }
                        }
                    }
                    self.events[k].title.clone()
                },
                None => String::from_str("Unknown Event"),
            };
            r.set(i, row);
            i = i + 1;
        }
        assert(joined(s, self.events@, r@));
        r
    }

    /// Approves a suggestion: in one step the event it refers to takes its
    /// video link and the suggestion becomes `approved`. If the suggestion
    /// or its event is missing, nothing changes at all.
    pub fn approve_suggestion(&mut self, id: i64) -> (r: Result<
        (Event, VideoSuggestion),
        CatalogError,
    >)
        ensures
            r is Err <==> !has_suggestion(old(self).suggestions@, id) || exists|k: int|
                first_suggestion(old(self).suggestions@, id, k) && !has_event(
                    old(self).events@,
                    (#[trigger] old(self).suggestions@[k]).event_id,
                ),
            r is Err ==> r == Err::<(Event, VideoSuggestion), CatalogError>(CatalogError::NotFound)
                && *final(self) == *old(self),
            r matches Ok((e, v)) ==> exists|k: int|
                {
                    &&& first_suggestion(old(self).suggestions@, id, k)
                    &&& rows_changed(
                        old(self).events@,
                        final(self).events@,
                        (#[trigger] old(self).suggestions@[k]).event_id,
                        RowChange::Video(old(self).suggestions@[k].video_url),
                    )
                    &&& statuses_set(
                        old(self).suggestions@,
                        final(self).suggestions@,
                        id,
                        "approved"@,
                    )
                    &&& final(self).organizers == old(self).organizers
                    &&& e.id == old(self).suggestions@[k].event_id
                    &&& e.video_url == Some(old(self).suggestions@[k].video_url)
                    &&& v.id == id
                    &&& v.status@ == "approved"@
                    &&& v.video_url == old(self).suggestions@[k].video_url
                    &&& v == final(self).suggestions@[k]
                    &&& exists|j: int|
                        first_event(old(self).events@, e.id, j)
                            && e == #[trigger] final(self).events@[j]
                },
    {
        let k = match find_suggestion(&self.suggestions, id) {
            None => return Err(CatalogError::NotFound),
            Some(k) => k,
        };
        let event_id = self.suggestions[k].event_id;
        let j = match find_event(&self.events, event_id) {
            None => return Err(CatalogError::NotFound),
            Some(j) => j,
        };
        let change = RowChange::Video(self.suggestions[k].video_url.clone());
        change_rows(&mut self.events, event_id, &change);
        set_statuses(&mut self.suggestions, id, "approved");
        Ok((self.events[j].copy(), self.suggestions[k].copy()))
    }

    /// Rejects a suggestion; no other row is touched.
    pub fn reject_suggestion(&mut self, id: i64) -> (r: Result<VideoSuggestion, CatalogError>)
        ensures
            r is Err <==> !has_suggestion(old(self).suggestions@, id),
            r is Err ==> r == Err::<VideoSuggestion, CatalogError>(CatalogError::NotFound)
                && *final(self) == *old(self),
            r matches Ok(v) ==> {
                &&& statuses_set(old(self).suggestions@, final(self).suggestions@, id, "rejected"@)
                &&& final(self).organizers == old(self).organizers
                &&& final(self).events == old(self).events
                &&& v.id == id
                &&& v.status@ == "rejected"@
                &&& exists|k: int|
                    first_suggestion(old(self).suggestions@, id, k)
                        && v == #[trigger] final(self).suggestions@[k]
            },
    {
        let k = match find_suggestion(&self.suggestions, id) {
            None => return Err(CatalogError::NotFound),
            Some(k) => k,
        };
        set_statuses(&mut self.suggestions, id, "rejected");
        Ok(self.suggestions[k].copy())
    }
}

} // verus!
