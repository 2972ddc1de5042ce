use vstd::prelude::*;

verus! {

/// The millisecond offsets from the Unix epoch that chrono can represent as a
/// UTC instant.
pub uninterp spec fn utc_millis_valid(ms: int) -> bool;

/// Relies on chrono's `DateTime::<Utc>::from_timestamp_millis`, which returns
/// `None` exactly for the offsets it cannot represent; those lie outside the
/// years -262143 to 262142, well beyond 8 * 10^15 ms on either side of the epoch.
#[verifier::external_body]
fn utc_representable(ms: i64) -> (r: bool)
    ensures
        r == utc_millis_valid(ms as int),
        -8_000_000_000_000_000 <= ms <= 8_000_000_000_000_000 ==> r,
{
    chrono::DateTime::<chrono::Utc>::from_timestamp_millis(ms).is_some()
}

/// An instant in UTC, at millisecond precision, as an offset from the Unix epoch.
#[derive(Debug, Clone, Copy, PartialEq, Eq, Structural)]
pub struct Timestamp {
    pub millis: i64,
}

impl Timestamp {
    /// The instant is one that chrono can represent.
    pub open spec fn wf(self) -> bool {
        utc_millis_valid(self.millis as int)
    }

    /// The instant `ms` milliseconds after the epoch, where it is representable.
    pub fn from_millis(ms: i64) -> (r: Option<Timestamp>)
        ensures
            r is Some <==> utc_millis_valid(ms as int),
            -8_000_000_000_000_000 <= ms <= 8_000_000_000_000_000 ==> r is Some,
            r matches Some(t) ==> t.millis == ms && t.wf(),
    {
        if utc_representable(ms) {
            Some(Timestamp { millis: ms })
        } else {
            None
        }
    }

    /// Milliseconds since the epoch.
    pub fn as_millis(&self) -> (r: i64)
        ensures
            r == self.millis,
    {
        self.millis
    }
}

} // verus!
