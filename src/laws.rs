use vstd::prelude::*;

use crate::model::{CreateEventRequest, Event, UpdateEventRequest};
use crate::patch::{rows_changed, RowChange};
use crate::status::{lower_of, parse_status, EventStatus};

verus! {

/// A stored status reads as `approved` or `rejected` only when, lower-cased,
/// it is that state's name; every other stored value reads as `pending`.
pub proof fn lemma_unknown_status_reads_pending(s: Seq<char>)
    requires
        lower_of(s) != "approved"@,
        lower_of(s) != "rejected"@,
    ensures
        parse_status(s) == EventStatus::Pending,
{
}

/// Clearing by the empty string: a partial update whose `image_url` is the
/// empty string leaves every row it touches with no image link, and so for
/// the other nullable links and `country`.
pub proof fn lemma_empty_string_clears(before: Seq<Event>, after: Seq<Event>, id: i64, c: RowChange)
    requires
        rows_changed(before, after, id, c),
        c is Patch,
    ensures
        forall|j: int|
            0 <= j < before.len() && before[j].id == id ==> {
                &&& (c->Patch_0.image_url matches Some(v) && v@.len() == 0 ==> (
                #[trigger] after[j]).image_url is None)
                &&& (c->Patch_0.video_url matches Some(v) && v@.len() == 0
                    ==> after[j].video_url is None)
                &&& (c->Patch_0.event_link matches Some(v) && v@.len() == 0
                    ==> after[j].event_link is None)
                &&& (c->Patch_0.country matches Some(v) && v@.len() == 0
                    ==> after[j].country is None)
            },
{
    assert forall|j: int| 0 <= j < before.len() && before[j].id == id implies after[j]
        == c->Patch_0.applied_to(before[j]) by {}
}

/// Approving an event twice is the same as approving it once: the second
/// transition changes no row.
pub proof fn lemma_approve_idempotent(a: Seq<Event>, b: Seq<Event>, c: Seq<Event>, id: i64)
    requires
        rows_changed(a, b, id, RowChange::Status(EventStatus::Approved)),
        rows_changed(b, c, id, RowChange::Status(EventStatus::Approved)),
    ensures
        c.len() == b.len(),
        forall|j: int|
            0 <= j < b.len() ==> #[trigger] c[j] == (Event { status_str: c[j].status_str, ..b[j] })
                && c[j].status_str@ == b[j].status_str@,
{
    assert forall|j: int| 0 <= j < b.len() implies #[trigger] c[j] == (Event {
        status_str: c[j].status_str,
        ..b[j]
    }) && c[j].status_str@ == b[j].status_str@ by {
        assert(a[j].id == b[j].id);
    }
}

/// Every accepted submission is stored as a well-formed event.
pub proof fn lemma_submission_well_formed(req: CreateEventRequest, id: i64, now: i64, e: Event)
    requires
        req.valid(),
        req.stored_as(id, now, e),
    ensures
        e.well_formed(),
{
}

/// An accepted partial update keeps a well-formed event well-formed.
pub proof fn lemma_update_keeps_well_formed(p: UpdateEventRequest, e: Event)
    requires
        e.well_formed(),
        p.valid(),
    ensures
        p.applied_to(e).well_formed(),
{
}

/// A status transition keeps a well-formed event well-formed.
pub proof fn lemma_transition_keeps_well_formed(s: EventStatus, e: Event, r: Event)
    requires
        e.well_formed(),
        RowChange::Status(s).produces(e, r),
    ensures
        r.well_formed(),
{
}

} // verus!
