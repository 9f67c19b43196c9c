use vstd::prelude::*;

verus! {

/// Moderation state of an event. `Pending` is the initial state; the other
/// two are terminal, though approving or rejecting again is allowed.
#[derive(Debug, Clone, Copy, PartialEq, Eq, Structural)]
pub enum EventStatus {
    Pending,
    Approved,
    Rejected,
}

/// What `str::to_lowercase` returns for a string of characters.
pub uninterp spec fn lower_of(s: Seq<char>) -> Seq<char>;

/// Relies on `str::to_lowercase`: Unicode lower-casing, which depends on the
/// characters of its argument alone.
#[verifier::external_body]
fn lowercase(s: &str) -> (r: String)
    ensures
        r@ == lower_of(s@),
{
    s.to_lowercase()
}

/// The status that an already lower-cased stored value stands for. Anything
/// that is not exactly a terminal state's name reads as `Pending`, so that
/// corrupt data never becomes publicly visible.
pub open spec fn status_of(s: Seq<char>) -> EventStatus {
    if s == "approved"@ {
        EventStatus::Approved
    } else if s == "rejected"@ {
        EventStatus::Rejected
    } else {
        EventStatus::Pending
    }
}

/// The status that a stored value stands for, compared without regard to case.
pub open spec fn parse_status(s: Seq<char>) -> EventStatus {
    status_of(lower_of(s))
}

/// Character-wise equality of two strings.
pub fn str_equal(a: &str, b: &str) -> (r: bool)
    ensures
        r == (a@ == b@),
{
    let n = a.unicode_len();
    if n != b.unicode_len() {
        return false;
    }
    let mut i: usize = 0;
    while i < n
        invariant
            n == a@.len(),
            n == b@.len(),
            i <= n,
            forall|j: int| 0 <= j < i ==> a@[j] == b@[j],
        decreases n - i,
    {
        if a.get_char(i) != b.get_char(i) {
            return false;
        }
        i = i + 1;
    }
    assert(a@ =~= b@);
    true
}

impl EventStatus {
    /// The name under which the status is stored.
    pub open spec fn name(self) -> Seq<char> {
        match self {
            EventStatus::Pending => "pending"@,
            EventStatus::Approved => "approved"@,
            EventStatus::Rejected => "rejected"@,
        }
    }

    /// The status for a stored value that is already lower case.
    pub fn from_lowered(s: &str) -> (r: EventStatus)
        ensures
            r == status_of(s@),
    {
        if str_equal(s, "approved") {
            EventStatus::Approved
        } else if str_equal(s, "rejected") {
            EventStatus::Rejected
        } else {
            EventStatus::Pending
        }
    }

    /// The stored name of the status.
    pub fn as_str(&self) -> (r: &'static str)
        ensures
            r@ == self.name(),
    {
        match self {
            EventStatus::Pending => "pending",
            EventStatus::Approved => "approved",
            EventStatus::Rejected => "rejected",
        }
    }

    /// The stored name of the status, as an owned string.
    pub fn to_string(&self) -> (r: String)
        ensures
            r@ == self.name(),
    {
        String::from_str(self.as_str())
    }
}

impl Default for EventStatus {
    fn default() -> (r: Self)
        ensures
            r == EventStatus::Pending,
    {
        EventStatus::Pending
    }
}

impl From<String> for EventStatus {
    /// Reads a stored status value, without regard to case; unknown values
    /// read as `Pending`.
    fn from(s: String) -> (r: EventStatus) {
        let lowered = lowercase(s.as_str());
        EventStatus::from_lowered(lowered.as_str())
    }
}

impl vstd::std_specs::convert::FromSpecImpl<String> for EventStatus {
    open spec fn obeys_from_spec() -> bool {
        true
    }

    open spec fn from_spec(v: String) -> EventStatus {
        parse_status(v@)
    }
}

} // verus!
