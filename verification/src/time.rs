//! Points in time (UTC) as the session table stores them, and the `chrono`
//! computations on them that sessions need.
use vstd::prelude::*;

verus! {

/// Earliest whole second that `DateTime::from_timestamp` accepts (one
/// second earlier it returns `None`, whatever the nanoseconds).
pub const MIN_TIMESTAMP_SECS: i64 = -8334601228800i64;

/// Latest whole second that `DateTime::from_timestamp` accepts.
pub const MAX_TIMESTAMP_SECS: i64 = 8210266876799i64;

pub const NANOS_PER_SECOND: u32 = 1_000_000_000u32;

/// A point in UTC: whole seconds since 1970-01-01T00:00:00 and the
/// nanoseconds past that second (a `chrono::DateTime<Utc>` without leap
/// seconds).
#[derive(Clone, Copy, Debug, PartialEq, Eq, Structural)]
pub struct Timestamp {
    pub secs: i64,
    pub nanos: u32,
}

impl Timestamp {
    /// Within `chrono`'s range, and not inside a leap second.
    pub open spec fn valid(self) -> bool {
        &&& MIN_TIMESTAMP_SECS <= self.secs <= MAX_TIMESTAMP_SECS
        &&& self.nanos < NANOS_PER_SECOND
    }

    /// Nanoseconds since 1970-01-01T00:00:00 UTC.
    pub open spec fn total_nanos(self) -> int {
        self.secs * 1_000_000_000 + self.nanos
    }

    pub fn is_valid(&self) -> (valid: bool)
        ensures
            valid == self.valid(),
    {
        MIN_TIMESTAMP_SECS <= self.secs && self.secs <= MAX_TIMESTAMP_SECS && self.nanos
            < NANOS_PER_SECOND
    }
}

/// `a / b` rounded toward zero, as integer division on machine integers.
pub open spec fn div_toward_zero(a: int, b: int) -> int {
    if a >= 0 {
        a / b
    } else {
        -((-a) / b)
    }
}

/// Whole seconds from `earlier` to `later`, rounded toward zero (negative
/// when `later` is before `earlier`).
pub open spec fn spec_seconds_since(later: Timestamp, earlier: Timestamp) -> int {
    div_toward_zero(later.total_nanos() - earlier.total_nanos(), 1_000_000_000)
}

/// Calls `Utc::now` of `chrono`. The result is the system clock, so nothing
/// ties it to any argument; `chrono` builds it from the time elapsed since
/// 1970 (and panics on a clock set before 1970), so it is a valid timestamp
/// at or after 1970.
#[verifier::external_body]
pub fn current_time() -> (now: Timestamp)
    ensures
        now.valid(),
        now.secs >= 0,
{
    let now = chrono::Utc::now();
    Timestamp { secs: now.timestamp(), nanos: now.timestamp_subsec_nanos() }
}

/// Calls `DateTime - DateTime` and `TimeDelta::num_seconds` of `chrono`:
/// the exact difference, in whole seconds rounded toward zero.
#[verifier::external_body]
pub fn seconds_since(later: Timestamp, earlier: Timestamp) -> (seconds: i64)
    requires
        later.valid(),
        earlier.valid(),
    ensures
        seconds == spec_seconds_since(later, earlier),
{
    let later = chrono::DateTime::from_timestamp(later.secs, later.nanos).unwrap();
    let earlier = chrono::DateTime::from_timestamp(earlier.secs, earlier.nanos).unwrap();
    (later - earlier).num_seconds()
}

/// Calls `DateTime + Duration::days(days)` of `chrono`: the same time of
/// day `days` days (of 86 400 seconds) later. `chrono` panics when the
/// result leaves its range, which the `requires` leaves out (the number of
/// days then also fits `Duration::days`).
#[verifier::external_body]
pub fn add_days(t: Timestamp, days: i64) -> (later: Timestamp)
    requires
        t.valid(),
        MIN_TIMESTAMP_SECS <= t.secs + days * 86_400 <= MAX_TIMESTAMP_SECS,
    ensures
        later == (Timestamp { secs: (t.secs + days * 86_400) as i64, nanos: t.nanos }),
{
    let start = chrono::DateTime::from_timestamp(t.secs, t.nanos).unwrap();
    let later = start + chrono::Duration::days(days);
    Timestamp { secs: later.timestamp(), nanos: later.timestamp_subsec_nanos() }
}

} // verus!
