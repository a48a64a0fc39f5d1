//! Moments in time, as the `chrono` crate keeps them.

use vstd::prelude::*;

verus! {

/// The first second that `chrono` can hold, counted from the Unix epoch: the start of the year
/// -262143.
pub const FIRST_SECOND: i64 = -8_334_601_228_800;

/// The last second that `chrono` can hold, counted from the Unix epoch: the end of the year
/// 262142.
pub const LAST_SECOND: i64 = 8_210_266_876_799;

/// A moment in UTC that is no leap second.
#[derive(Clone, Copy, Debug, PartialEq, Eq, Structural)]
pub struct Moment {
    /// Seconds since the Unix epoch.
    pub secs: i64,
    /// Nanoseconds into that second.
    pub nanos: u32,
}

/// Whether `chrono` can hold a second.
pub open spec fn representable(secs: int) -> bool {
    FIRST_SECOND <= secs <= LAST_SECOND
}

impl Moment {
    /// Whether `chrono` can hold the moment.
    pub open spec fn valid(self) -> bool {
        &&& representable(self.secs as int)
        &&& self.nanos < 1_000_000_000
    }
}

/// The text of a moment by RFC 3339, as `chrono` writes it.
pub uninterp spec fn rfc3339_text(secs: i64, nanos: u32) -> Seq<char>;

/// Reads the clock: `chrono::Utc::now`. All that is claimed of the moment is what `chrono` checks
/// of it: it lies in its range, not before the epoch, and is no leap second.
#[verifier::external_body]
pub(crate) fn utc_now() -> (now: Moment)
    ensures
        now.valid(),
        now.secs >= 0,
{
    let now = chrono::Utc::now();
    Moment { secs: now.timestamp(), nanos: now.timestamp_subsec_nanos() }
}

/// Adds seconds to a moment: `chrono`'s `DateTime + Duration::seconds`. Where the sum can be held
/// it is the exact sum, with the nanoseconds kept; where it cannot, `chrono` panics.
#[verifier::external_body]
pub(crate) fn plus_seconds(at: Moment, seconds: i64) -> (due: Moment)
    requires
        at.valid(),
        representable(at.secs + seconds),
    ensures
        due.secs == at.secs + seconds,
        due.nanos == at.nanos,
{
    let at = chrono::DateTime::from_timestamp(at.secs, at.nanos).unwrap();
    let due = at + chrono::Duration::seconds(seconds);
    Moment { secs: due.timestamp(), nanos: due.timestamp_subsec_nanos() }
}

/// Writes a moment by RFC 3339: `chrono::DateTime::to_rfc3339` in UTC. The text depends on the
/// moment alone.
#[verifier::external_body]
pub(crate) fn rfc3339(at: Moment) -> (text: String)
    requires
        at.valid(),
    ensures
        text@ == rfc3339_text(at.secs, at.nanos),
{
    chrono::DateTime::from_timestamp(at.secs, at.nanos).unwrap().to_rfc3339()
}

} // verus!
