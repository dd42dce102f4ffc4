//! Instants on the UTC time line, and the arithmetic on them.

use vstd::prelude::*;

verus! {

/// Seconds from the Unix epoch to the first instant that can be represented.
pub const MIN_SECS: i64 = -8_334_601_228_800;

/// Seconds from the Unix epoch to the last second that can be represented.
pub const MAX_SECS: i64 = 8_210_266_876_799;

/// The longest span, in whole minutes, between two representable instants.
pub const MAX_SPAN_MINUTES: u64 = 275_747_801_759;

/// Nanoseconds in one second.
pub const NANOS_PER_SEC: u32 = 1_000_000_000;

/// An instant in UTC: whole seconds since the Unix epoch and the nanoseconds
/// into that second.
#[derive(Clone, Copy, Debug, PartialEq, Eq, Structural)]
pub struct Timestamp {
    pub secs: i64,
    pub nanos: u32,
}

impl Timestamp {
    /// The instant lies in the representable range and names no leap second.
    pub open spec fn is_valid(self) -> bool {
        MIN_SECS <= self.secs <= MAX_SECS && self.nanos < NANOS_PER_SEC
    }

    /// The instant `minutes` minutes after this one is still representable.
    pub open spec fn can_advance(self, minutes: int) -> bool {
        self.is_valid() && 0 <= minutes && self.secs + 60 * minutes <= MAX_SECS
    }

    /// The instant `minutes` minutes after this one.
    pub open spec fn plus_minutes(self, minutes: int) -> Timestamp {
        Timestamp { secs: (self.secs + 60 * minutes) as i64, nanos: self.nanos }
    }

    /// This instant comes before `other`.
    pub open spec fn precedes(self, other: Timestamp) -> bool {
        self.secs < other.secs || (self.secs == other.secs && self.nanos < other.nanos)
    }

    /// Tests `is_valid`.
    pub fn check_valid(&self) -> (r: bool)
        ensures
            r == self.is_valid(),
    {
        MIN_SECS <= self.secs && self.secs <= MAX_SECS && self.nanos < NANOS_PER_SEC
    }

    /// Tests `can_advance`.
    pub fn check_can_advance(&self, minutes: u64) -> (r: bool)
        ensures
            r == self.can_advance(minutes as int),
    {
        if !self.check_valid() || minutes > MAX_SPAN_MINUTES {
            return false;
        }
        let span: i64 = 60 * (minutes as i64);
        self.secs <= MAX_SECS - span
    }

    /// The instant `minutes` minutes after this one.
    pub fn advance(self, minutes: u64) -> (r: Timestamp)
        requires
            self.can_advance(minutes as int),
        ensures
            r == self.plus_minutes(minutes as int),
            r.is_valid(),
    {
        add_minutes(self, minutes as i64)
    }
}

/// `chrono::DateTime<Utc> + chrono::Duration::minutes(..)`: for an instant in
/// range whose sum with the span is in range too, the sum is that many
/// seconds later and keeps the nanoseconds.
#[verifier::external_body]
fn add_minutes(at: Timestamp, minutes: i64) -> (r: Timestamp)
    requires
        at.is_valid(),
        0 <= minutes,
        at.secs + 60 * minutes <= MAX_SECS,
    ensures
        r.secs == at.secs + 60 * minutes,
        r.nanos == at.nanos,
{
    let later = chrono::DateTime::from_timestamp(at.secs, at.nanos).unwrap()
        + chrono::Duration::minutes(minutes);
    Timestamp { secs: later.timestamp(), nanos: later.timestamp_subsec_nanos() }
}

/// An instant that can advance by a span lands that many seconds later, on
/// the same nanosecond, at a valid instant, which comes after it unless the
/// span is empty.
pub proof fn lemma_plus_minutes(at: Timestamp, minutes: int)
    requires
        at.can_advance(minutes),
    ensures
        at.plus_minutes(minutes).secs == at.secs + 60 * minutes,
        at.plus_minutes(minutes).nanos == at.nanos,
        at.plus_minutes(minutes).is_valid(),
        minutes > 0 ==> at.precedes(at.plus_minutes(minutes)),
        minutes == 0 ==> at.plus_minutes(minutes) == at,
{
}

} // verus!
