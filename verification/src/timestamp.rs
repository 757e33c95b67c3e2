//! Timestamps as plain values.
//!
//! A timestamp is a count of non-leap seconds since the Unix epoch together
//! with a nanosecond part. Keeping the two integers directly lets every
//! contract speak about time without reference to any calendar library; only
//! reading the clock and rendering the RFC 3339 text go through one.

use vstd::prelude::*;

verus! {

/// Latest second the library accepts: 9999-12-31T23:59:59Z.
pub const MAX_TIMESTAMP_SECS: i64 = 253402300799;

/// A moment in time: seconds since the Unix epoch, plus nanoseconds.
#[derive(Clone, Copy, Debug, Hash, PartialEq, Eq, Structural)]
pub struct Timestamp {
    /// Non-leap seconds since 1970-01-01T00:00:00Z.
    pub secs: i64,
    /// Nanoseconds past the second.
    pub nanos: u32,
}

impl Timestamp {
    /// Well-formed: between the epoch and the year 9999, with a valid
    /// nanosecond part.
    pub open spec fn wf(self) -> bool {
        0 <= self.secs <= MAX_TIMESTAMP_SECS && self.nanos < 1000000000
    }

    /// Build a timestamp from its parts.
    pub fn new(secs: i64, nanos: u32) -> (r: Timestamp)
        requires
            0 <= secs <= MAX_TIMESTAMP_SECS,
            nanos < 1000000000,
        ensures
            r.wf(),
            r.secs == secs,
            r.nanos == nanos,
    {
        Timestamp { secs, nanos }
    }

    /// The moment the clock reports now, clamped into the representable
    /// range. During a leap second the nanosecond part is folded back below
    /// one second.
    pub fn now() -> (r: Timestamp)
        ensures
            r.wf(),
    {
        let (secs, nanos) = utc_now_parts();
        let s: i64 = if secs < 0 {
            0
        } else if secs > MAX_TIMESTAMP_SECS {
            MAX_TIMESTAMP_SECS
        } else {
            secs
        };
        let n: u32 = if nanos >= 1000000000 {
            999999999
        } else {
            nanos
        };
        Timestamp { secs: s, nanos: n }
    }
}

/// What chrono's RFC 3339 rendering produces for a UTC timestamp. The text is
/// a function of the two integers alone.
pub uninterp spec fn rfc3339_of(secs: int, nanos: int) -> Seq<char>;

/// Relies on `chrono::Utc::now`: the wall clock, split into whole seconds and
/// the nanosecond part. Nothing is assumed of the clock's value beyond
/// chrono's bound on the nanosecond field (below two seconds, to leave room
/// for a leap second).
#[verifier::external_body]
fn utc_now_parts() -> (r: (i64, u32))
    ensures
        r.1 < 2000000000,
{
    let t = chrono::Utc::now();
    (t.timestamp(), t.timestamp_subsec_nanos())
}

/// Relies on `chrono::DateTime::<Utc>::from_timestamp` and
/// `chrono::DateTime::to_rfc3339`: renders the moment as an RFC 3339 string.
/// `from_timestamp` is `Some` for every second between the epoch and the year
/// 9999 with a nanosecond part below one second.
#[verifier::external_body]
pub(crate) fn to_rfc3339(t: &Timestamp) -> (r: String)
    requires
        t.wf(),
    ensures
        r@ == rfc3339_of(t.secs as int, t.nanos as int),
{
    chrono::DateTime::<chrono::Utc>::from_timestamp(t.secs, t.nanos).unwrap().to_rfc3339()
}

} // verus!
