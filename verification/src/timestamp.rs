//! Points in time and the whole minutes and hours between them.

use vstd::prelude::*;

verus! {

/// Nanoseconds in one second.
pub const NANOS_PER_SECOND: i128 = 1_000_000_000;

/// Nanoseconds in one minute.
pub const NANOS_PER_MINUTE: i128 = 60_000_000_000;

/// Nanoseconds in one hour.
pub const NANOS_PER_HOUR: i128 = 3_600_000_000_000;

/// An absolute point in time: whole seconds and nanoseconds since the Unix
/// epoch, and the UTC offset (seconds east) that the time was written with.
///
/// The offset is carried along for rendering only; two timestamps are ordered
/// and subtracted by their instants alone. A time written with second 60, a
/// leap second, arrives with a thousand million nanoseconds or more; its
/// instant is that of the second after.
#[derive(Clone, Copy, Debug)]
pub struct Timestamp {
    pub secs: i64,
    pub nanos: u32,
    pub offset: i32,
}

/// `n / d` rounded toward zero, for a positive `d`.
pub open spec fn truncated_quotient(n: int, d: int) -> int
    recommends
        d > 0,
{
    if n >= 0 {
        n / d
    } else {
        -((-n) / d)
    }
}

/// What `chrono` reads from an RFC 3339 date-time text, where it accepts the
/// text: the instant and the offset written in it.
pub uninterp spec fn rfc3339(text: Seq<char>) -> Option<Timestamp>;

/// `chrono::DateTime::parse_from_rfc3339`, with the parsed value taken apart
/// by `timestamp`, `timestamp_subsec_nanos` and `offset().local_minus_utc()`;
/// `None` where `chrono` refuses the text. The outcome depends on the text
/// alone.
#[verifier::external_body]
pub(crate) fn parse_rfc3339(text: &str) -> (r: Option<Timestamp>)
    ensures
        r == rfc3339(text@),
{
    match chrono::DateTime::parse_from_rfc3339(text) {
        Ok(t) => Some(
            Timestamp {
                secs: t.timestamp(),
                nanos: t.timestamp_subsec_nanos(),
                offset: t.offset().local_minus_utc(),
            },
        ),
        Err(_) => None,
    }
}

impl Timestamp {
    /// The instant on the Unix timeline, in nanoseconds since the epoch.
    pub open spec fn instant(&self) -> int {
        self.secs * 1_000_000_000 + self.nanos
    }

    /// Whole minutes from `earlier` to `self`, rounded toward zero; negative
    /// where `self` lies before `earlier`.
    pub open spec fn minutes_since_spec(&self, earlier: &Timestamp) -> int {
        truncated_quotient(self.instant() - earlier.instant(), 60_000_000_000)
    }

    /// Whole hours from `earlier` to `self`, rounded toward zero.
    pub open spec fn hours_since_spec(&self, earlier: &Timestamp) -> int {
        truncated_quotient(self.instant() - earlier.instant(), 3_600_000_000_000)
    }

    /// The timestamp at `secs` seconds and `nanos` nanoseconds after the
    /// epoch, written in UTC.
    pub fn from_unix(secs: i64, nanos: u32) -> (r: Timestamp)
        ensures
            r == (Timestamp { secs, nanos, offset: 0 }),
    {
        Timestamp { secs, nanos, offset: 0 }
    }

    /// Nanoseconds from `earlier` to `self`.
    pub fn nanos_since(&self, earlier: &Timestamp) -> (d: i128)
        ensures
            d == self.instant() - earlier.instant(),
    {
        let a: i128 = self.secs as i128 * NANOS_PER_SECOND + self.nanos as i128;
        let b: i128 = earlier.secs as i128 * NANOS_PER_SECOND + earlier.nanos as i128;
        a - b
    }

    /// Whether `self` lies strictly after `other`.
    pub fn is_after(&self, other: &Timestamp) -> (r: bool)
        ensures
            r == (self.instant() > other.instant()),
    {
        self.nanos_since(other) > 0
    }

    /// Whole minutes from `earlier` to `self`, rounded toward zero.
    pub fn minutes_since(&self, earlier: &Timestamp) -> (m: i64)
        ensures
            m == self.minutes_since_spec(earlier),
    {
        let d: i128 = self.nanos_since(earlier);
        if d >= 0 {
            (d / NANOS_PER_MINUTE) as i64
        } else {
            let q: i128 = (-d) / NANOS_PER_MINUTE;
            (-q) as i64
        }
    }

    /// Whole hours from `earlier` to `self`, rounded toward zero.
    pub fn hours_since(&self, earlier: &Timestamp) -> (h: i64)
        ensures
            h == self.hours_since_spec(earlier),
    {
        let d: i128 = self.nanos_since(earlier);
        if d >= 0 {
            (d / NANOS_PER_HOUR) as i64
        } else {
            let q: i128 = (-d) / NANOS_PER_HOUR;
            (-q) as i64
        }
    }
}

/// A timestamp strictly after another is a whole, non-negative number of
/// minutes away from it.
pub proof fn lemma_later_is_nonnegative(later: Timestamp, earlier: Timestamp)
    requires
        later.instant() > earlier.instant(),
    ensures
        later.minutes_since_spec(&earlier) >= 0,
        later.hours_since_spec(&earlier) >= 0,
{
}

} // verus!
