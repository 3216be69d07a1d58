//! Time queries over a block's sealing timestamp: the UTC calendar view of
//! the timestamp, and the clamped time elapsed since sealing.

use vstd::prelude::*;

use crate::block::IncompleteBlock;

verus! {

/// The largest unix-seconds value the UTC calendar representation can hold:
/// the last second of the last representable calendar day.
pub const MAX_UTC_TIMESTAMP: u64 = 8210266876799;

/// A calendar timestamp in UTC, exactly as chrono represents it. Verus
/// refuses a declaration of `chrono::DateTime` itself (its time-zone
/// parameter is bound by an outside trait), so the chrono value is held
/// opaquely behind this wrapper.
#[verifier::external_body]
pub struct UtcDateTime {
    inner: chrono::DateTime<chrono::Utc>,
}

/// The number of non-leap seconds since the Unix epoch that a UTC calendar
/// timestamp stands for.
pub uninterp spec fn unix_seconds_of(dt: UtcDateTime) -> int;

/// The number of whole seconds a duration holds.
pub uninterp spec fn duration_secs_of(d: std::time::Duration) -> int;

/// Relies on chrono's `TimeZone::timestamp_opt` on `Utc`: an in-range number
/// of non-leap seconds since the Unix epoch yields a single calendar
/// timestamp, documented to round-trip with `DateTime::timestamp`.
#[verifier::external_body]
fn utc_from_unix_seconds(secs: i64) -> (r: UtcDateTime)
    requires
        0 <= secs <= MAX_UTC_TIMESTAMP,
    ensures
        unix_seconds_of(r) == secs as int,
{
    UtcDateTime { inner: chrono::TimeZone::timestamp_opt(&chrono::Utc, secs, 0).unwrap() }
}

impl UtcDateTime {
    /// Relies on chrono's `DateTime::timestamp`: reads back the number of
    /// non-leap seconds since the Unix epoch, the inverse of construction
    /// from a timestamp.
    #[verifier::external_body]
    pub fn unix_seconds(&self) -> (r: i64)
        ensures
            r as int == unix_seconds_of(*self),
    {
        self.inner.timestamp()
    }
}

/// Relies on chrono's `Utc::now`: reads the system clock. Which value comes
/// back depends on the clock alone, so nothing relates it to the arguments;
/// every value that does come back was accepted by the calendar
/// representation and is not earlier than the epoch, so it lies in range.
#[verifier::external_body]
fn now_unix_seconds() -> (r: i64)
    ensures
        0 <= r <= MAX_UTC_TIMESTAMP,
{
    chrono::Utc::now().timestamp()
}

/// Relies on std's `Duration::from_secs`: a duration of exactly the given
/// number of whole seconds.
#[verifier::external_body]
fn duration_from_secs(secs: u64) -> (r: std::time::Duration)
    ensures
        duration_secs_of(r) == secs as int,
{
    std::time::Duration::from_secs(secs)
}

/// The non-negative number of whole seconds from `timestamp` to `now`: their
/// difference when `now` is not earlier than `timestamp`, and zero otherwise.
pub open spec fn clamped_elapsed_seconds(now: int, timestamp: int) -> int {
    if now >= timestamp {
        now - timestamp
    } else {
        0
    }
}

impl IncompleteBlock {
    /// The sealing timestamp interpreted as a calendar timestamp in UTC.
    /// A stored timestamp beyond the representable calendar range is a
    /// programming invariant violation, excluded here: timestamps are
    /// assigned from a real clock at seal time.
    pub fn timestamp_utc(&self) -> (r: UtcDateTime)
        requires
            self.timestamp <= MAX_UTC_TIMESTAMP,
        ensures
            unix_seconds_of(r) == self.timestamp as int,
    {
        utc_from_unix_seconds(self.timestamp as i64)
    }

    /// Law (calendar round trip): interpreting the sealing timestamp as UTC
    /// calendar time and reading the unix seconds back yields the stored
    /// timestamp unchanged.
    pub fn timestamp_utc_roundtrip(&self) -> (r: i64)
        requires
            self.timestamp <= MAX_UTC_TIMESTAMP,
        ensures
            r as int == self.timestamp as int,
    {
        let dt = self.timestamp_utc();
        dt.unix_seconds()
    }

    /// Whole seconds elapsed from the sealing timestamp to the given clock
    /// reading: their difference, clamped to zero when the timestamp lies in
    /// the future of the reading.
    pub fn elapsed_seconds_at(&self, now_secs: i64) -> (r: u64)
        ensures
            r as int == clamped_elapsed_seconds(now_secs as int, self.timestamp as int),
    {
        if now_secs >= 0 && now_secs as u64 >= self.timestamp {
            now_secs as u64 - self.timestamp
        } else {
            0
        }
    }

    /// Time elapsed since the block was sealed, measured against the system
    /// clock and clamped to zero for a future-dated timestamp, never
    /// negative. Which clock value is read is outside the model: the result
    /// holds the clamped difference for some in-range clock reading.
    pub fn elapsed(&self) -> (r: std::time::Duration)
        ensures
            exists|now: int|
                0 <= now <= MAX_UTC_TIMESTAMP && duration_secs_of(r)
                    == clamped_elapsed_seconds(now, self.timestamp as int),
    {
        let now = now_unix_seconds();
        let secs = self.elapsed_seconds_at(now);
        let r = duration_from_secs(secs);
        proof {
            assert(0 <= now as int <= MAX_UTC_TIMESTAMP && duration_secs_of(r)
                == clamped_elapsed_seconds(now as int, self.timestamp as int));
        }
        r
    }
}

} // verus!
