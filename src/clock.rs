//! Instants in the local time zone, and the date that stamps a run.
use vstd::prelude::*;
use crate::record::Timestamp;
use chrono::{Local, TimeZone};

verus! {

pub const NANOS_PER_SEC: u32 = 1_000_000_000;

/// A bound on the seconds from the epoch within which every instant has a
/// local timestamp.
pub const MAX_LOCAL_SECS: i64 = 8_000_000_000_000;

/// The instant that a timestamp denotes, in nanoseconds since the epoch.
pub open spec fn instant_of(t: Timestamp) -> int {
    t.unix_secs * 1_000_000_000 + t.nanos
}

/// An instant given as a distance from the epoch, `before` telling on which
/// side of it, in nanoseconds since the epoch.
pub open spec fn signed_instant(before: bool, secs: u64, nanos: u32) -> int {
    if before {
        -(secs * 1_000_000_000 + nanos)
    } else {
        secs * 1_000_000_000 + nanos
    }
}

/// Splits an instant given as a distance from the epoch into whole seconds
/// (rounded down) and the nanoseconds past them. None where the seconds do
/// not fit an `i64`.
pub fn split_epoch(before: bool, secs: u64, nanos: u32) -> (r: Option<(i64, u32)>)
    requires
        nanos < NANOS_PER_SEC,
    ensures
        r is None <==> secs > i64::MAX as u64,
        r matches Some((s, n)) ==> n < NANOS_PER_SEC && s * 1_000_000_000 + n == signed_instant(
            before,
            secs,
            nanos,
        ),
{
    if secs > i64::MAX as u64 {
        return None;
    }
    let s = secs as i64;
    if !before {
        Some((s, nanos))
    } else if nanos == 0 {
        Some((-s, 0))
    } else {
        Some((-s - 1, NANOS_PER_SEC - nanos))
    }
}

/// Relies on chrono's `Local` zone: the offset from UTC that the local zone
/// has at the given instant. chrono's `FixedOffset` holds offsets of less
/// than a day only. chrono represents every instant within about 262,000
/// years of the epoch, and answers None only outside that range. chrono
/// panics where the machine's zone data cannot be used; no argument decides
/// that.
#[verifier::external_body]
fn local_offset_at(unix_secs: i64, nanos: u32) -> (r: Option<i32>)
    ensures
        r matches Some(o) ==> -86_400 < o < 86_400,
        -MAX_LOCAL_SECS <= unix_secs <= MAX_LOCAL_SECS && nanos < NANOS_PER_SEC ==> r is Some,
{
    Local.timestamp_opt(unix_secs, nanos).single().map(|d| d.offset().local_minus_utc())
}

/// Relies on chrono's `Local::now` and its `Display`: the current local
/// date and time, with its offset. The text always holds the date.
#[verifier::external_body]
pub(crate) fn now_local_text() -> (r: String)
    ensures
        r@.len() > 0,
{
    Local::now().to_string()
}

/// The local timestamp of an instant given as a distance from the epoch,
/// `before` telling on which side of it. Every instant less than
/// `MAX_LOCAL_SECS` seconds from the epoch has one.
pub fn local_timestamp(before: bool, secs: u64, nanos: u32) -> (r: Option<Timestamp>)
    requires
        nanos < NANOS_PER_SEC,
    ensures
        secs > i64::MAX as u64 ==> r is None,
        secs < MAX_LOCAL_SECS as u64 ==> r is Some,
        r matches Some(t) ==> {
            &&& instant_of(t) == signed_instant(before, secs, nanos)
            &&& t.nanos < NANOS_PER_SEC
            &&& -86_400 < t.offset_secs < 86_400
        },
{
    let (unix_secs, nanos) = split_epoch(before, secs, nanos)?;
    let offset_secs = local_offset_at(unix_secs, nanos)?;
    Some(Timestamp { unix_secs, nanos, offset_secs })
}

} // verus!
