//! Points in time and how they are written.

use vstd::prelude::*;

verus! {

/// A point in time: seconds since the start of 1970 in UTC, not counting
/// leap seconds, and the nanoseconds into that second.
#[derive(Clone, Copy, Debug, PartialEq, Eq, Structural)]
pub struct Timestamp {
    pub secs: i64,
    pub nanos: u32,
}

/// The text that stands for a point in time in the notation of RFC 3339, as
/// `chrono` writes it; nothing for a point that `chrono` cannot hold.
pub uninterp spec fn rfc3339_text(secs: i64, nanos: u32) -> Option<Seq<char>>;

/// `chrono::DateTime::from_timestamp` followed by
/// `chrono::DateTime::to_rfc3339`: the text depends on the seconds and the
/// nanoseconds alone, and there is none where the two are out of the range
/// of `chrono`'s dates.
#[verifier::external_body]
pub(crate) fn format_rfc3339(secs: i64, nanos: u32) -> (r: Option<String>)
    ensures
        match rfc3339_text(secs, nanos) {
            Some(text) => r matches Some(s) && s@ == text,
            None => r is None,
        },
{
    match chrono::DateTime::from_timestamp(secs, nanos) {
        Some(moment) => Some(moment.to_rfc3339()),
        None => None,
    }
}

impl Timestamp {
    /// The point in time `nanos` nanoseconds after second `secs`.
    pub fn new(secs: i64, nanos: u32) -> (t: Timestamp)
        ensures
            t.secs == secs,
            t.nanos == nanos,
    {
        Timestamp { secs, nanos }
    }

    /// The text that stands for this point in time.
    pub open spec fn text(self) -> Option<Seq<char>> {
        rfc3339_text(self.secs, self.nanos)
    }

    /// This point in time in the notation of RFC 3339, if it can be
    /// written.
    pub fn to_rfc3339(&self) -> (r: Option<String>)
        ensures
            match self.text() {
                Some(text) => r matches Some(s) && s@ == text,
                None => r is None,
            },
    {
        format_rfc3339(self.secs, self.nanos)
    }
}

} // verus!
