//! Points in time as the service stores them: whole seconds since the Unix
//! epoch and the nanoseconds past that second, in the range that `chrono`
//! can represent.

use vstd::prelude::*;

verus! {

/// A UTC point in time: `secs` since 1970-01-01T00:00:00Z plus `nanos`.
#[derive(Clone, Copy, PartialEq, Eq, Structural, Debug)]
pub struct Timestamp {
    pub secs: i64,
    pub nanos: u32,
}

/// The earliest second `chrono` can represent (-262143-01-01T00:00:00Z).
pub const MIN_TIMESTAMP_SECS: i64 = -8334601228800;

/// The latest second `chrono` can represent (+262142-12-31T23:59:59Z).
pub const MAX_TIMESTAMP_SECS: i64 = 8210266876799;

/// The largest whole number of seconds a `chrono::TimeDelta` can hold
/// (`i64::MAX` milliseconds, rounded down to seconds).
pub const MAX_DELTA_SECS: i64 = 9223372036854775;

/// The timestamp is one `chrono` can represent, outside a leap second.
pub open spec fn well_formed(t: Timestamp) -> bool {
    MIN_TIMESTAMP_SECS <= t.secs <= MAX_TIMESTAMP_SECS && t.nanos < 1_000_000_000
}

/// Adding `delta` seconds to `t` stays within what `chrono` represents:
/// `TimeDelta::seconds(delta)` and `t + delta` neither panic.
pub open spec fn can_add_seconds(t: Timestamp, delta: i64) -> bool {
    -MAX_DELTA_SECS <= delta <= MAX_DELTA_SECS && MIN_TIMESTAMP_SECS <= t.secs + delta
        <= MAX_TIMESTAMP_SECS
}

/// `t + TimeDelta::seconds(delta)`: the same sub-second part, `delta`
/// seconds later.
pub open spec fn plus_seconds(t: Timestamp, delta: i64) -> Timestamp {
    Timestamp { secs: (t.secs + delta) as i64, nanos: t.nanos }
}

/// The current time, from `chrono::Utc::now()`. `Utc::now` reads the
/// system clock as a duration since the Unix epoch (it panics before the
/// epoch) and that duration's sub-second part, so the result lies at or
/// after the epoch and has fewer than 10^9 nanoseconds; which instant it
/// is, nothing states.
#[verifier::external_body]
pub(crate) fn utc_now() -> (now: Timestamp)
    ensures
        well_formed(now),
        now.secs >= 0,
{
    let n = chrono::Utc::now();
    Timestamp { secs: n.timestamp(), nanos: n.timestamp_subsec_nanos() }
}

/// `t + TimeDelta::seconds(delta)` when `chrono` can represent it, and
/// `None` where plain `chrono` addition would panic.
pub fn checked_add_seconds(t: Timestamp, delta: i64) -> (res: Option<Timestamp>)
    requires
        well_formed(t),
    ensures
        res is Some <==> can_add_seconds(t, delta),
        res matches Some(r) ==> r == plus_seconds(t, delta) && well_formed(r),
{
    if delta < -MAX_DELTA_SECS || delta > MAX_DELTA_SECS {
        return None;
    }
    let secs = t.secs + delta;
    if secs < MIN_TIMESTAMP_SECS || secs > MAX_TIMESTAMP_SECS {
        return None;
    }
    Some(Timestamp { secs, nanos: t.nanos })
}

} // verus!
