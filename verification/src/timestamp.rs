//! Points in time: milliseconds since the epoch, and seconds with nanoseconds.

use vstd::prelude::*;
use crate::status::{Code, Status};

verus! {

pub const NANOS_PER_SECOND: i32 = 1_000_000_000;

/// Seconds since the epoch and the nanoseconds on top of them.
#[derive(Clone, Copy, PartialEq, Eq, Debug, Structural)]
pub struct Timestamp {
    pub seconds: i64,
    pub nanos: i32,
}

/// The milliseconds of a timestamp, as a mathematical integer.
pub open spec fn timestamp_ms(t: Timestamp) -> int {
    t.seconds * 1000 + t.nanos as int / 1_000_000
}

/// The timestamp of milliseconds.
pub open spec fn timestamp_of(ms: int) -> Timestamp {
    Timestamp { seconds: (ms / 1000) as i64, nanos: ((ms % 1000) * 1_000_000) as i32 }
}

/// Why a timestamp has no milliseconds; the first fault counts.
pub open spec fn timestamp_fault(t: Timestamp) -> Option<(Code, Seq<char>)> {
    if !(0 <= t.nanos < NANOS_PER_SECOND) {
        Some((Code::InvalidArgument, "timestamp nanos must be in range 0..1_000_000_000"@))
    } else if !(i64::MIN <= t.seconds * 1000 <= i64::MAX) {
        Some((Code::OutOfRange, "timestamp seconds overflow"@))
    } else if timestamp_ms(t) > i64::MAX {
        Some((Code::OutOfRange, "timestamp overflow"@))
    } else {
        None
    }
}

/// Converts a timestamp to milliseconds since the epoch.
pub fn timestamp_to_ms(timestamp: &Timestamp) -> (r: Result<i64, Status>)
    ensures
        match timestamp_fault(*timestamp) {
            Some(fault) => r matches Err(e) && e@ == fault,
            None => r matches Ok(ms) && ms == timestamp_ms(*timestamp),
        },
{
    if timestamp.nanos < 0 || timestamp.nanos >= NANOS_PER_SECOND {
        return Err(
            Status::invalid_argument("timestamp nanos must be in range 0..1_000_000_000"),
        );
    }
    let seconds_ms: i128 = timestamp.seconds as i128 * 1000;
    if seconds_ms < i64::MIN as i128 || seconds_ms > i64::MAX as i128 {
        return Err(Status::out_of_range("timestamp seconds overflow"));
    }
    let nanos_ms: u32 = timestamp.nanos as u32 / 1_000_000;
    let ms: i128 = seconds_ms + nanos_ms as i128;
    if ms > i64::MAX as i128 {
        return Err(Status::out_of_range("timestamp overflow"));
    }
    Ok(ms as i64)
}

/// Converts milliseconds since the epoch to a timestamp.
pub fn ms_to_timestamp(ms: i64) -> (r: Timestamp)
    ensures
        r == timestamp_of(ms as int),
        0 <= r.nanos < NANOS_PER_SECOND,
        r.seconds == ms as int / 1000,
        r.nanos == (ms as int % 1000) * 1_000_000,
{
    if ms >= 0 {
        let n: u64 = ms as u64;
        let seconds: i64 = (n / 1000) as i64;
        let nanos: i32 = (n % 1000) as i32 * 1_000_000;
        Timestamp { seconds, nanos }
    } else {
        let m: u64 = (-(ms + 1)) as u64;
        let seconds: i64 = -((m / 1000) as i64) - 1;
        let nanos: i32 = (999 - (m % 1000) as i32) * 1_000_000;
        proof {
            let q = m as int / 1000;
            let k = m as int % 1000;
            assert(ms as int == -(1000 * q + k) - 1);
            assert(ms as int == 1000 * (-q - 1) + (999 - k));
            assert(ms as int / 1000 == -q - 1 && ms as int % 1000 == 999 - k);
        }
        Timestamp { seconds, nanos }
    }
}

/// The milliseconds since the epoch of a timestamp, under the name that sandboxes use.
pub fn timestamp_to_unix_ms(timestamp: &Timestamp) -> (r: Result<i64, Status>)
    ensures
        match timestamp_fault(*timestamp) {
            Some(fault) => r matches Err(e) && e@ == fault,
            None => r matches Ok(ms) && ms == timestamp_ms(*timestamp),
        },
{
    timestamp_to_ms(timestamp)
}

/// The timestamp of milliseconds since the epoch, under the name that sandboxes use.
pub fn unix_ms_to_timestamp(ms: i64) -> (r: Timestamp)
    ensures
        r == timestamp_of(ms as int),
{
    ms_to_timestamp(ms)
}

/// Milliseconds come back from their timestamp, except the very earliest ones, whose
/// whole seconds reach beyond the range.
pub proof fn ms_round_trip(ms: i64)
    requires
        ms >= -9_223_372_036_854_775_000,
    ensures
        timestamp_fault(timestamp_of(ms as int)) is None,
        timestamp_ms(timestamp_of(ms as int)) == ms,
{
    let q = ms as int / 1000;
    let k = ms as int % 1000;
    assert(ms == 1000 * q + k);
    assert(timestamp_of(ms as int).seconds == q);
    assert(timestamp_of(ms as int).nanos == k * 1_000_000);
    assert((k * 1_000_000) / 1_000_000 == k);
}

/// A timestamp of whole milliseconds comes back from its milliseconds.
pub proof fn timestamp_round_trip(t: Timestamp)
    requires
        0 <= t.nanos < NANOS_PER_SECOND,
        t.nanos % 1_000_000 == 0,
        i64::MIN <= timestamp_ms(t) <= i64::MAX,
    ensures
        timestamp_of(timestamp_ms(t)) == t,
{
    let k = t.nanos as int / 1_000_000;
    assert(0 <= k < 1000);
    assert(timestamp_ms(t) == 1000 * t.seconds + k);
    assert(timestamp_ms(t) / 1000 == t.seconds as int);
    assert(timestamp_ms(t) % 1000 == k);
    assert(k * 1_000_000 == t.nanos as int);
}

/// A later time is not an earlier timestamp.
pub proof fn timestamps_keep_order(a: int, b: int)
    requires
        i64::MIN <= a <= b <= i64::MAX,
    ensures
        timestamp_of(a).seconds <= timestamp_of(b).seconds,
        timestamp_of(a).seconds == timestamp_of(b).seconds ==> timestamp_of(a).nanos
            <= timestamp_of(b).nanos,
{
}

/// The milliseconds of a clock that counts whole seconds and milliseconds on top of
/// them, held at the largest value.
pub fn unix_ms_from_clock(seconds: u64, subsec_millis: u32) -> (r: i64)
    requires
        subsec_millis < 1000,
    ensures
        r == if seconds * 1000 + subsec_millis > i64::MAX {
            i64::MAX as int
        } else {
            seconds * 1000 + subsec_millis
        },
{
    let ms: u128 = seconds as u128 * 1000 + subsec_millis as u128;
    if ms > i64::MAX as u128 {
        i64::MAX
    } else {
        ms as i64
    }
}

/// The milliseconds of a timestamp are the last ones that it has reached.
pub proof fn milliseconds_are_the_last_reached(t: Timestamp)
    ensures
        timestamp_ms(t) * 1_000_000 <= t.seconds * 1_000_000_000 + t.nanos,
        t.seconds * 1_000_000_000 + t.nanos < (timestamp_ms(t) + 1) * 1_000_000,
{
}

/// A timestamp is read exactly where its nanoseconds make up less than a second and its
/// milliseconds, with those of its whole seconds, are within the range of a number. Odd
/// nanoseconds are the caller's fault, too large a time is out of range.
pub proof fn timestamps_are_read_within_range(t: Timestamp)
    ensures
        timestamp_fault(t) is None <==> 0 <= t.nanos < 1_000_000_000 && t.seconds * 1000
            >= i64::MIN && timestamp_ms(t) <= i64::MAX,
        timestamp_fault(t) matches Some(fault) ==> (fault.0 == Code::InvalidArgument) == !(0
            <= t.nanos < 1_000_000_000) && (fault.0 == Code::OutOfRange || fault.0
            == Code::InvalidArgument),
{
}

/// Of several faults of a timestamp the first is told: its nanoseconds, its seconds, and both
/// together.
pub proof fn first_timestamp_fault_is_told(t: Timestamp)
    ensures
        !(0 <= t.nanos < 1_000_000_000) ==> timestamp_fault(t) == Some(
            (Code::InvalidArgument, "timestamp nanos must be in range 0..1_000_000_000"@),
        ),
        0 <= t.nanos < 1_000_000_000 && !(i64::MIN <= t.seconds * 1000 <= i64::MAX)
            ==> timestamp_fault(t) == Some((Code::OutOfRange, "timestamp seconds overflow"@)),
        0 <= t.nanos < 1_000_000_000 && i64::MIN <= t.seconds * 1000 <= i64::MAX && t.seconds * 1000
            + t.nanos / 1_000_000 > i64::MAX ==> timestamp_fault(t) == Some(
            (Code::OutOfRange, "timestamp overflow"@),
        ),
{
}

} // verus!
