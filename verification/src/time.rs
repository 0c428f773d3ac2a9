//! Delays, and instants as `chrono` counts them.

use vstd::prelude::*;

verus! {

/// A span of time: whole seconds, and nanoseconds on top of them.
#[derive(Clone, Copy, Debug, Eq, PartialEq, Structural)]
pub struct Delay {
    pub secs: u64,
    pub nanos: u32,
}

pub const NANOS_PER_SEC: i128 = 1_000_000_000;

pub const NANOS_PER_MILLI: i128 = 1_000_000;

/// The first millisecond that `chrono` can represent.
pub const MIN_UTC_MILLIS: i64 = -8_334_601_228_800_000;

/// The last millisecond that `chrono` can represent.
pub const MAX_UTC_MILLIS: i64 = 8_210_266_876_799_999;

impl Delay {
    /// The delay in nanoseconds.
    pub open spec fn total_nanos(self) -> int {
        self.secs * NANOS_PER_SEC + self.nanos
    }

    pub fn from_secs(secs: u64) -> (delay: Self)
        ensures
            delay == (Delay { secs, nanos: 0 }),
    {
        Self { secs, nanos: 0 }
    }

    pub fn from_millis(millis: u64) -> (delay: Self)
        ensures
            delay.total_nanos() == millis * NANOS_PER_MILLI,
            delay.nanos < NANOS_PER_SEC,
    {
        let nanos: u32 = (millis % 1000) as u32 * 1_000_000;
        Self { secs: millis / 1000, nanos }
    }

    /// The delay in nanoseconds.
    pub fn as_nanos(self) -> (nanos: i128)
        ensures
            nanos == self.total_nanos(),
    {
        self.secs as i128 * NANOS_PER_SEC + self.nanos as i128
    }
}

/// Whether an instant can be represented.
pub open spec fn representable(millis: int) -> bool {
    MIN_UTC_MILLIS <= millis <= MAX_UTC_MILLIS
}

/// `chrono::DateTime::from_timestamp_millis`: the instant, where it lies between the
/// first millisecond of the year -262143 and the last of the year 262142.
#[verifier::external_body]
pub(crate) fn from_timestamp_millis(millis: i64) -> (instant: Option<i64>)
    ensures
        instant == if representable(millis as int) {
            Some(millis)
        } else {
            None
        },
{
    chrono::DateTime::from_timestamp_millis(millis).map(|instant| instant.timestamp_millis())
}

/// `chrono::Utc::now`, in seconds since the Unix epoch and nanoseconds on top of them.
/// It is a representable instant, not before the epoch; nothing else holds of every call.
#[verifier::external_body]
pub(crate) fn utc_now() -> (now: (i64, u32))
    ensures
        0 <= now.0 && representable(now.0 * 1000),
        now.1 < 1_000_000_000,
{
    let now = chrono::Utc::now();
    (now.timestamp(), now.timestamp_subsec_nanos())
}

/// A delay is the seconds or the milliseconds that it is made of, and is counted to the
/// nanosecond.
pub proof fn law_delays_are_what_they_are_made_of(
    secs: u64,
    millis: u64,
    of_secs: Delay,
    of_millis: Delay,
    counted: i128,
)
    requires
        call_ensures(Delay::from_secs, (secs,), of_secs),
        call_ensures(Delay::from_millis, (millis,), of_millis),
        call_ensures(Delay::as_nanos, (of_millis,), counted),
    ensures
        of_secs.secs == secs && of_secs.nanos == 0,
        of_millis.secs == millis / 1000,
        of_millis.nanos == (millis % 1000) * 1_000_000,
        counted == millis * 1_000_000,
{
}

} // verus!
